use pachi::pool::validator::{sponsor_hub_precompile_address, PachiPoolValidator, PachiTxValidationError};
use pachi::session::registry::SessionRegistry;
use pachi::state::{MockState, PachiState};
use pachi::word::{Address, B256, U256};

fn left_padded(b: u8) -> Address {
    let mut bytes = [0u8; 20];
    bytes[19] = b;
    Address::from(bytes)
}

fn setup_active_session(
    state: &mut MockState,
    authorizer: Address,
    signer: Address,
    expires_at: u64,
    block_timestamp: u64,
) -> B256 {
    let hash = alloy_primitives::keccak256(
        [&authorizer.bytes[..], &signer.bytes[..], &expires_at.to_be_bytes()[..]].concat(),
    );
    let session_hash = B256::from(hash.0);
    let (hash, _) =
        SessionRegistry::create_session(state, authorizer, signer, expires_at, session_hash, block_timestamp, 10)
            .unwrap();
    hash
}

/// Where a sponsor's record starts in the sponsor hub's storage (any slot
/// serves here; the hub's own key derivation is outside this library).
fn sponsor_base(sponsor: Address) -> U256 {
    B256::from(alloy_primitives::keccak256(sponsor.bytes).0).to_u256()
}

fn slot(base: U256, k: u64) -> U256 {
    base.wrapping_add(&U256::from(k))
}

fn write_sponsor(state: &mut MockState, sponsor: Address, status: u64, kind: u64, balance: U256, valid_until: u64) {
    let hub = sponsor_hub_precompile_address();
    let base = sponsor_base(sponsor);
    state.set_storage(hub, slot(base, 0), U256::from(status));
    state.set_storage(hub, slot(base, 1), U256::from(kind));
    state.set_storage(hub, slot(base, 2), balance);
    state.set_storage(hub, slot(base, 3), U256::from(1000u64)); // created_at
    state.set_storage(hub, slot(base, 4), U256::from(valid_until));
}

fn setup_active_sponsor(state: &mut MockState, sponsor: Address, balance: U256) {
    write_sponsor(state, sponsor, 0, 0, balance, u64::MAX);
}

#[test]
fn session_tx_valid() {
    let mut state = MockState::new();
    let authorizer = left_padded(1);
    let signer = left_padded(2);

    let session_hash = setup_active_session(&mut state, authorizer, signer, 2000, 1000);

    let result = PachiPoolValidator::validate_session_tx(&state, &session_hash, authorizer, 0, 1500);
    assert!(result.is_ok());
}

#[test]
fn session_tx_expired() {
    let mut state = MockState::new();
    let authorizer = left_padded(1);
    let signer = left_padded(2);

    let session_hash = setup_active_session(&mut state, authorizer, signer, 1500, 1000);

    let result = PachiPoolValidator::validate_session_tx(&state, &session_hash, authorizer, 0, 2000);
    assert!(result.is_err());
}

#[test]
fn session_tx_wrong_nonce() {
    let mut state = MockState::new();
    let authorizer = left_padded(1);
    let signer = left_padded(2);

    let session_hash = setup_active_session(&mut state, authorizer, signer, 2000, 1000);

    let result = PachiPoolValidator::validate_session_tx(&state, &session_hash, authorizer, 1, 1500);
    assert!(result.is_err());
    let err = result.unwrap_err();
    assert!(matches!(err, PachiTxValidationError::SessionNonceMismatch { expected: 0, got: 1 }));
}

#[test]
fn session_tx_wrong_authorizer() {
    let mut state = MockState::new();
    let authorizer = left_padded(1);
    let signer = left_padded(2);
    let wrong_authorizer = left_padded(3);

    let session_hash = setup_active_session(&mut state, authorizer, signer, 2000, 1000);

    let result = PachiPoolValidator::validate_session_tx(&state, &session_hash, wrong_authorizer, 0, 1500);
    assert!(result.is_err());
}

#[test]
fn session_tx_nonexistent() {
    let state = MockState::new();
    let authorizer = left_padded(1);
    let fake_hash = B256::from([0xAA; 32]);

    let result = PachiPoolValidator::validate_session_tx(&state, &fake_hash, authorizer, 0, 1500);
    assert!(result.is_err());
}

#[test]
fn sponsored_tx_valid() {
    let mut state = MockState::new();
    let sponsor = left_padded(10);
    let balance = U256::from(1_000_000u64);
    setup_active_sponsor(&mut state, sponsor, balance);

    let result =
        PachiPoolValidator::validate_sponsor_record(&state, sponsor_base(sponsor), 1500, U256::from(100_000u64));
    assert!(result.is_ok());
}

#[test]
fn sponsored_tx_insufficient_balance() {
    let mut state = MockState::new();
    let sponsor = left_padded(10);
    let balance = U256::from(100u64);
    setup_active_sponsor(&mut state, sponsor, balance);

    let result =
        PachiPoolValidator::validate_sponsor_record(&state, sponsor_base(sponsor), 1500, U256::from(100_000u64));
    assert!(result.is_err());
    assert!(matches!(result.unwrap_err(), PachiTxValidationError::SponsorInsufficientBalance));
}

#[test]
fn sponsored_tx_inactive() {
    let state = MockState::new();
    let sponsor = left_padded(10);

    let result = PachiPoolValidator::validate_sponsor_record(&state, sponsor_base(sponsor), 1500, U256::from(100u64));
    assert!(result.is_err());
}

#[test]
fn session_sponsored_tx_valid() {
    let mut state = MockState::new();
    let authorizer = left_padded(1);
    let signer = left_padded(2);
    let sponsor = left_padded(10);

    let session_hash = setup_active_session(&mut state, authorizer, signer, 2000, 1000);
    setup_active_sponsor(&mut state, sponsor, U256::from(1_000_000u64));

    let result = PachiPoolValidator::validate_session_sponsored_record(
        &state,
        &session_hash,
        authorizer,
        0,
        sponsor_base(sponsor),
        1500,
        U256::from(100_000u64),
    );
    assert!(result.is_ok());
}

#[test]
fn session_sponsored_tx_session_failure_first() {
    let state = MockState::new();
    let result = PachiPoolValidator::validate_session_sponsored_record(
        &state,
        &B256::from([0xAA; 32]),
        left_padded(1),
        0,
        sponsor_base(left_padded(10)),
        1500,
        U256::from(1u64),
    );
    assert_eq!(result.unwrap_err().message(), "session not found or inactive: not found");
}

#[test]
fn is_pachi_type_returns_correct() {
    assert!(PachiPoolValidator::is_pachi_type(0x04));
    assert!(PachiPoolValidator::is_pachi_type(0x05));
    assert!(PachiPoolValidator::is_pachi_type(0x06));
    assert!(PachiPoolValidator::is_pachi_type(0x50));
    assert!(!PachiPoolValidator::is_pachi_type(0x00));
    assert!(!PachiPoolValidator::is_pachi_type(0x02));
    assert!(!PachiPoolValidator::is_pachi_type(0x03));
}

#[test]
fn session_tx_revoked() {
    let mut state = MockState::new();
    let authorizer = left_padded(1);
    let signer = left_padded(2);

    let session_hash = setup_active_session(&mut state, authorizer, signer, 2000, 1000);

    SessionRegistry::revoke_session(&mut state, authorizer, &session_hash).unwrap();

    let result = PachiPoolValidator::validate_session_tx(&state, &session_hash, authorizer, 0, 1500);
    assert!(result.is_err());
    let err_msg = result.unwrap_err().message();
    assert!(err_msg.contains("revoked"), "expected 'revoked' in error: {err_msg}");
}

#[test]
fn sponsored_tx_mint_mode_no_balance_check() {
    let mut state = MockState::new();
    let sponsor = left_padded(10);
    write_sponsor(&mut state, sponsor, 0, 1, U256::zero(), u64::MAX);

    let result = PachiPoolValidator::validate_sponsor_record(
        &state,
        sponsor_base(sponsor),
        1500,
        U256::from(1_000_000_000u64),
    );
    assert!(result.is_ok(), "Mint sponsor should not fail on balance: {:?}", result);
}

#[test]
fn sponsored_tx_deactivated() {
    let mut state = MockState::new();
    let sponsor = left_padded(10);
    write_sponsor(&mut state, sponsor, 1, 0, U256::from(1_000_000u64), u64::MAX);

    let result = PachiPoolValidator::validate_sponsor_record(&state, sponsor_base(sponsor), 1500, U256::from(100u64));
    assert!(result.is_err());
    let err_msg = result.unwrap_err().message();
    assert!(err_msg.contains("status=1"), "expected deactivated status in error: {err_msg}");
}

#[test]
fn sponsored_tx_expired() {
    let mut state = MockState::new();
    let sponsor = left_padded(10);
    setup_active_sponsor(&mut state, sponsor, U256::from(1_000_000u64));

    let hub = sponsor_hub_precompile_address();
    state.set_storage(hub, slot(sponsor_base(sponsor), 4), U256::from(1000u64));

    let result = PachiPoolValidator::validate_sponsor_record(&state, sponsor_base(sponsor), 2000, U256::from(100u64));
    assert!(result.is_err());
    let err_msg = result.unwrap_err().message();
    assert!(err_msg.contains("expired"), "expected 'expired' in error: {err_msg}");
}

#[test]
fn error_messages() {
    assert_eq!(
        PachiTxValidationError::SessionNonceMismatch { expected: 12, got: 305 }.message(),
        "session nonce mismatch: expected 12, got 305"
    );
    assert_eq!(PachiTxValidationError::UnsupportedTxType(0x0b).message(), "unsupported Pachi tx type: 0x0b");
    assert_eq!(PachiTxValidationError::SessionExpired.message(), "session expired");
}
