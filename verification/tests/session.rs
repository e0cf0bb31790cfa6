use pachi::primitives::constraint::{ConditionType, Constraint};
use pachi::primitives::limit::Limit;
use pachi::primitives::policy::{CallPolicy, TransferPolicy};
use pachi::session::error::SessionPrecompileError;
use pachi::session::nonce::SessionNonce;
use pachi::session::record::SessionStatus;
use pachi::session::registry::SessionRegistry;
use pachi::session::validation::{SessionValidationInput, SessionValidator};
use pachi::state::MockState;
use pachi::word::{Address, Selector, B256, U256};

fn test_authorizer() -> Address {
    Address::from([0xAAu8; 20])
}

fn test_signer() -> Address {
    Address::from([0xBBu8; 20])
}

fn test_hash(n: u8) -> B256 {
    B256::from([n; 32])
}

fn left_padded(b: u8) -> B256 {
    let mut bytes = [0u8; 32];
    bytes[31] = b;
    B256::from(bytes)
}

// ---- registry ----

#[test]
fn create_and_get_session() {
    let mut state = MockState::new();
    let authorizer = test_authorizer();
    let hash = test_hash(1);

    SessionRegistry::create_session(&mut state, authorizer, test_signer(), 1000, hash, 100, 10)
        .unwrap()
        .0;

    let record = SessionRegistry::get_session(&state, &hash).unwrap();
    assert_eq!(record.authorizer, authorizer);
    assert_eq!(record.signer, test_signer());
    assert_eq!(record.expires_at, 1000);
    assert_eq!(record.created_at, 100);
    assert_eq!(record.status, SessionStatus::Active);
}

#[test]
fn create_returns_hash_and_no_replacement_in_empty_slot() {
    let mut state = MockState::new();
    let (h, replaced) =
        SessionRegistry::create_session(&mut state, test_authorizer(), test_signer(), 1000, test_hash(1), 100, 10)
            .unwrap();
    assert_eq!(h, test_hash(1));
    assert_eq!(replaced, None);
}

#[test]
fn revoke_session() {
    let mut state = MockState::new();
    let authorizer = test_authorizer();
    let hash = test_hash(1);

    SessionRegistry::create_session(&mut state, authorizer, test_signer(), 1000, hash, 100, 10)
        .unwrap()
        .0;

    SessionRegistry::revoke_session(&mut state, authorizer, &hash).unwrap();

    let record = SessionRegistry::get_session(&state, &hash).unwrap();
    assert_eq!(record.status, SessionStatus::Revoked);
    assert!(!record.is_active(100));
}

#[test]
fn revoke_by_non_authorizer_fails() {
    let mut state = MockState::new();
    let authorizer = test_authorizer();
    let hash = test_hash(1);

    SessionRegistry::create_session(&mut state, authorizer, test_signer(), 1000, hash, 100, 10)
        .unwrap()
        .0;

    let other = Address::from([0xCCu8; 20]);
    let err = SessionRegistry::revoke_session(&mut state, other, &hash).unwrap_err();
    assert!(matches!(err, SessionPrecompileError::NotAuthorizer { .. }));
}

#[test]
fn revoke_nonexistent_session_fails() {
    let mut state = MockState::new();
    let err = SessionRegistry::revoke_session(&mut state, test_authorizer(), &test_hash(5)).unwrap_err();
    assert_eq!(err, SessionPrecompileError::SessionNotFound { hash: test_hash(5) });
}

#[test]
fn get_nonexistent_session() {
    let state = MockState::new();
    let err = SessionRegistry::get_session(&state, &test_hash(99)).unwrap_err();
    assert!(matches!(err, SessionPrecompileError::SessionNotFound { .. }));
}

#[test]
fn is_valid_checks_expiration() {
    let mut state = MockState::new();
    let hash = test_hash(1);
    SessionRegistry::create_session(&mut state, test_authorizer(), test_signer(), 500, hash, 100, 10).unwrap();

    assert!(SessionRegistry::is_valid(&state, &hash, 400));
    assert!(SessionRegistry::is_valid(&state, &hash, 500));
    assert!(!SessionRegistry::is_valid(&state, &hash, 501));
}

#[test]
fn is_valid_returns_false_after_revoke() {
    let mut state = MockState::new();
    let hash = test_hash(1);
    let authorizer = test_authorizer();
    SessionRegistry::create_session(&mut state, authorizer, test_signer(), 1000, hash, 100, 10)
        .unwrap()
        .0;

    SessionRegistry::revoke_session(&mut state, authorizer, &hash).unwrap();
    assert!(!SessionRegistry::is_valid(&state, &hash, 200));
}

#[test]
fn get_active_sessions() {
    let mut state = MockState::new();
    let authorizer = test_authorizer();

    for i in 1..=3u8 {
        SessionRegistry::create_session(
            &mut state,
            authorizer,
            Address::from([i; 20]),
            1000 + i as u64 * 100,
            test_hash(i),
            100,
            10,
        )
        .unwrap();
    }

    let active = SessionRegistry::get_active_sessions(&state, authorizer, 200, 10);
    assert_eq!(active.len(), 3);

    SessionRegistry::revoke_session(&mut state, authorizer, &test_hash(2)).unwrap();
    let active = SessionRegistry::get_active_sessions(&state, authorizer, 200, 10);
    assert_eq!(active.len(), 2);
    assert_eq!(active, vec![test_hash(1), test_hash(3)]);
}

#[test]
fn slot_management_fills_empty_slots() {
    let mut state = MockState::new();
    let authorizer = test_authorizer();

    for i in 1..=3u8 {
        SessionRegistry::create_session(&mut state, authorizer, Address::from([i; 20]), 1000, test_hash(i), 100, 3)
            .unwrap();
    }

    let err = SessionRegistry::create_session(&mut state, authorizer, test_signer(), 1000, test_hash(4), 100, 3)
        .unwrap_err();
    assert!(matches!(err, SessionPrecompileError::MaxSessionsReached { .. }));
}

#[test]
fn slot_replacement_revoked_first() {
    let mut state = MockState::new();
    let authorizer = test_authorizer();

    for i in 1..=3u8 {
        SessionRegistry::create_session(&mut state, authorizer, Address::from([i; 20]), 2000, test_hash(i), 100, 3)
            .unwrap();
    }

    SessionRegistry::revoke_session(&mut state, authorizer, &test_hash(2)).unwrap();

    let (_, replaced) = SessionRegistry::create_session(
        &mut state,
        authorizer,
        Address::from([0xDD; 20]),
        2000,
        test_hash(10),
        200,
        3,
    )
    .unwrap();
    assert_eq!(replaced, Some(test_hash(2)));

    let active = SessionRegistry::get_active_sessions(&state, authorizer, 300, 3);
    assert_eq!(active.len(), 3);
}

#[test]
fn slot_replacement_expired() {
    let mut state = MockState::new();
    let authorizer = test_authorizer();

    SessionRegistry::create_session(&mut state, authorizer, Address::from([1; 20]), 500, test_hash(1), 100, 3)
        .unwrap();
    for i in 2..=3u8 {
        SessionRegistry::create_session(&mut state, authorizer, Address::from([i; 20]), 2000, test_hash(i), 100, 3)
            .unwrap();
    }

    SessionRegistry::create_session(&mut state, authorizer, Address::from([0xDD; 20]), 2000, test_hash(10), 600, 3)
        .unwrap();

    let active = SessionRegistry::get_active_sessions(&state, authorizer, 600, 3);
    assert_eq!(active.len(), 3);
}

#[test]
fn nonce_starts_at_zero_and_increments() {
    let mut state = MockState::new();
    let authorizer = test_authorizer();
    let hash = test_hash(1);
    assert_eq!(SessionNonce::get(&state, authorizer, &hash), 0);
    assert!(SessionNonce::check(&state, authorizer, &hash, 0));
    SessionNonce::increment(&mut state, authorizer, &hash);
    SessionNonce::increment(&mut state, authorizer, &hash);
    assert_eq!(SessionNonce::get(&state, authorizer, &hash), 2);
    assert!(!SessionNonce::check(&state, authorizer, &hash, 1));
    // another session of the same authorizer is untouched
    assert_eq!(SessionNonce::get(&state, authorizer, &test_hash(2)), 0);
}

#[test]
fn session_status_codes_roundtrip() {
    for s in [SessionStatus::Active, SessionStatus::Revoked, SessionStatus::Expired] {
        assert_eq!(SessionStatus::from_u8(s.as_u8()), Some(s));
    }
    assert_eq!(SessionStatus::from_u8(3), None);
}

// ---- validation ----

fn setup_session(state: &mut MockState) -> (Address, B256) {
    let authorizer = Address::from([0xAAu8; 20]);
    let signer = Address::from([0xBBu8; 20]);
    let hash = B256::from([0x11u8; 32]);

    SessionRegistry::create_session(state, authorizer, signer, 10_000, hash, 100, 10).unwrap();

    (authorizer, hash)
}

fn make_call_policy(target: Address, selector: [u8; 4]) -> CallPolicy {
    CallPolicy {
        target,
        selector: Selector::from(selector),
        value_limit: Limit::unlimited(),
        max_value_per_use: U256::max_value(),
        constraints: vec![],
    }
}

fn make_transfer_policy(target: Address) -> TransferPolicy {
    TransferPolicy { target, max_value_per_use: U256::from(1_000_000u64), value_limit: Limit::unlimited() }
}

#[test]
fn validate_active_session_call() {
    let mut state = MockState::new();
    let (authorizer, hash) = setup_session(&mut state);
    let target = Address::from([0xCCu8; 20]);
    let selector = [0xDE, 0xAD, 0xBE, 0xEF];

    let calldata = selector.to_vec();
    let policies = [make_call_policy(target, selector)];
    let input = SessionValidationInput {
        session_hash: &hash,
        authorizer,
        nonce: 0,
        to: target,
        calldata: &calldata,
        value: U256::zero(),
        estimated_gas_cost: U256::from(100u64),
        block_timestamp: 200,
        call_policies: &policies,
        transfer_policies: &[],
        fee_limit: &Limit::unlimited(),
    };

    SessionValidator::validate(&state, &input).unwrap();
}

#[test]
fn validate_expired_session_fails() {
    let mut state = MockState::new();
    let (authorizer, hash) = setup_session(&mut state);

    let transfers = [make_transfer_policy(Address::zero())];
    let input = SessionValidationInput {
        session_hash: &hash,
        authorizer,
        nonce: 0,
        to: Address::zero(),
        calldata: &[],
        value: U256::zero(),
        estimated_gas_cost: U256::zero(),
        block_timestamp: 20_000, // past expires_at=10_000
        call_policies: &[],
        transfer_policies: &transfers,
        fee_limit: &Limit::unlimited(),
    };

    let err = SessionValidator::validate(&state, &input).unwrap_err();
    assert!(matches!(err, SessionPrecompileError::SessionExpired { .. }));
}

#[test]
fn validate_revoked_session_fails() {
    let mut state = MockState::new();
    let (authorizer, hash) = setup_session(&mut state);

    SessionRegistry::revoke_session(&mut state, authorizer, &hash).unwrap();

    let input = SessionValidationInput {
        session_hash: &hash,
        authorizer,
        nonce: 0,
        to: Address::zero(),
        calldata: &[],
        value: U256::zero(),
        estimated_gas_cost: U256::zero(),
        block_timestamp: 200,
        call_policies: &[],
        transfer_policies: &[],
        fee_limit: &Limit::unlimited(),
    };

    let err = SessionValidator::validate(&state, &input).unwrap_err();
    assert!(matches!(err, SessionPrecompileError::SessionRevoked { .. }));
}

#[test]
fn validate_wrong_nonce_fails() {
    let mut state = MockState::new();
    let (authorizer, hash) = setup_session(&mut state);
    let target = Address::from([0xCCu8; 20]);

    let policies = [make_call_policy(target, [0xDE, 0xAD, 0xBE, 0xEF])];
    let input = SessionValidationInput {
        session_hash: &hash,
        authorizer,
        nonce: 5, // wrong nonce
        to: target,
        calldata: &[0xDE, 0xAD, 0xBE, 0xEF],
        value: U256::zero(),
        estimated_gas_cost: U256::zero(),
        block_timestamp: 200,
        call_policies: &policies,
        transfer_policies: &[],
        fee_limit: &Limit::unlimited(),
    };

    let err = SessionValidator::validate(&state, &input).unwrap_err();
    assert!(matches!(err, SessionPrecompileError::NonceMismatch { expected: 0, actual: 5 }));
}

#[test]
fn validate_call_not_allowed_fails() {
    let mut state = MockState::new();
    let (authorizer, hash) = setup_session(&mut state);
    let target = Address::from([0xCCu8; 20]);

    let input = SessionValidationInput {
        session_hash: &hash,
        authorizer,
        nonce: 0,
        to: target,
        calldata: &[0xDE, 0xAD, 0xBE, 0xEF],
        value: U256::zero(),
        estimated_gas_cost: U256::zero(),
        block_timestamp: 200,
        call_policies: &[], // no policies
        transfer_policies: &[],
        fee_limit: &Limit::unlimited(),
    };

    let err = SessionValidator::validate(&state, &input).unwrap_err();
    assert!(matches!(err, SessionPrecompileError::CallNotAllowed { .. }));
}

#[test]
fn validate_transfer() {
    let mut state = MockState::new();
    let (authorizer, hash) = setup_session(&mut state);
    let target = Address::from([0xCCu8; 20]);

    let transfers = [make_transfer_policy(target)];
    let input = SessionValidationInput {
        session_hash: &hash,
        authorizer,
        nonce: 0,
        to: target,
        calldata: &[], // no calldata = transfer
        value: U256::from(500u64),
        estimated_gas_cost: U256::zero(),
        block_timestamp: 200,
        call_policies: &[],
        transfer_policies: &transfers,
        fee_limit: &Limit::unlimited(),
    };

    SessionValidator::validate(&state, &input).unwrap();
}

#[test]
fn validate_transfer_value_per_use_exceeded() {
    let mut state = MockState::new();
    let (authorizer, hash) = setup_session(&mut state);
    let target = Address::from([0xCCu8; 20]);

    let transfers = [make_transfer_policy(target)];
    let input = SessionValidationInput {
        session_hash: &hash,
        authorizer,
        nonce: 0,
        to: target,
        calldata: &[],
        value: U256::from(2_000_000u64), // exceeds max 1_000_000
        estimated_gas_cost: U256::zero(),
        block_timestamp: 200,
        call_policies: &[],
        transfer_policies: &transfers,
        fee_limit: &Limit::unlimited(),
    };

    let err = SessionValidator::validate(&state, &input).unwrap_err();
    assert!(matches!(err, SessionPrecompileError::ValuePerUseExceeded { .. }));
}

#[test]
fn validate_with_constraints() {
    let mut state = MockState::new();
    let (authorizer, hash) = setup_session(&mut state);
    let target = Address::from([0xCCu8; 20]);
    let selector = [0xDE, 0xAD, 0xBE, 0xEF];

    let constraint = Constraint {
        index: 0,
        condition: ConditionType::Equal,
        ref_value: left_padded(0x05),
        limit: Limit::unlimited(),
    };
    let policy = CallPolicy {
        target,
        selector: Selector::from(selector),
        value_limit: Limit::unlimited(),
        max_value_per_use: U256::max_value(),
        constraints: vec![constraint],
    };

    let mut calldata = selector.to_vec();
    calldata.extend_from_slice(&left_padded(0x05).bytes);

    let policies = [policy];
    let input = SessionValidationInput {
        session_hash: &hash,
        authorizer,
        nonce: 0,
        to: target,
        calldata: &calldata,
        value: U256::zero(),
        estimated_gas_cost: U256::zero(),
        block_timestamp: 200,
        call_policies: &policies,
        transfer_policies: &[],
        fee_limit: &Limit::unlimited(),
    };

    SessionValidator::validate(&state, &input).unwrap();
}

#[test]
fn validate_constraint_fails() {
    let mut state = MockState::new();
    let (authorizer, hash) = setup_session(&mut state);
    let target = Address::from([0xCCu8; 20]);
    let selector = [0xDE, 0xAD, 0xBE, 0xEF];

    let constraint = Constraint {
        index: 0,
        condition: ConditionType::Equal,
        ref_value: left_padded(0x05),
        limit: Limit::unlimited(),
    };
    let policy = CallPolicy {
        target,
        selector: Selector::from(selector),
        value_limit: Limit::unlimited(),
        max_value_per_use: U256::max_value(),
        constraints: vec![constraint],
    };

    let mut calldata = selector.to_vec();
    calldata.extend_from_slice(&left_padded(0x07).bytes);

    let policies = [policy];
    let input = SessionValidationInput {
        session_hash: &hash,
        authorizer,
        nonce: 0,
        to: target,
        calldata: &calldata,
        value: U256::zero(),
        estimated_gas_cost: U256::zero(),
        block_timestamp: 200,
        call_policies: &policies,
        transfer_policies: &[],
        fee_limit: &Limit::unlimited(),
    };

    let err = SessionValidator::validate(&state, &input).unwrap_err();
    assert!(matches!(err, SessionPrecompileError::ConstraintError(_)));
}

#[test]
fn validate_unknown_session_fails() {
    let state = MockState::new();
    let hash = test_hash(42);
    let input = SessionValidationInput {
        session_hash: &hash,
        authorizer: test_authorizer(),
        nonce: 0,
        to: Address::zero(),
        calldata: &[],
        value: U256::zero(),
        estimated_gas_cost: U256::zero(),
        block_timestamp: 200,
        call_policies: &[],
        transfer_policies: &[],
        fee_limit: &Limit::unlimited(),
    };
    assert_eq!(
        SessionValidator::validate(&state, &input).unwrap_err(),
        SessionPrecompileError::SessionNotFound { hash }
    );
}

#[test]
fn revoke_changes_only_the_status() {
    let mut state = MockState::new();
    let hash = test_hash(3);
    SessionRegistry::create_session(&mut state, test_authorizer(), test_signer(), 900, hash, 50, 10).unwrap();
    let before = SessionRegistry::get_session(&state, &hash).unwrap();
    SessionRegistry::revoke_session(&mut state, test_authorizer(), &hash).unwrap();
    let after = SessionRegistry::get_session(&state, &hash).unwrap();
    assert_eq!(after.status, SessionStatus::Revoked);
    assert_eq!(after.authorizer, before.authorizer);
    assert_eq!(after.signer, before.signer);
    assert_eq!(after.expires_at, before.expires_at);
    assert_eq!(after.created_at, before.created_at);
}

#[test]
fn creation_keeps_earlier_active_sessions() {
    let mut state = MockState::new();
    let authorizer = test_authorizer();
    // Slot 0: expires at 150; slots 1 and 2: active.
    SessionRegistry::create_session(&mut state, authorizer, test_signer(), 150, test_hash(1), 100, 3).unwrap();
    SessionRegistry::create_session(&mut state, authorizer, test_signer(), 5_000, test_hash(2), 100, 3).unwrap();
    SessionRegistry::create_session(&mut state, authorizer, test_signer(), 5_000, test_hash(3), 100, 3).unwrap();
    let before = SessionRegistry::get_active_sessions(&state, authorizer, 200, 3);
    assert_eq!(before, vec![test_hash(2), test_hash(3)]);

    // The new session takes the expired slot; both active ones stay.
    let (_, replaced) =
        SessionRegistry::create_session(&mut state, authorizer, test_signer(), 5_000, test_hash(4), 200, 3).unwrap();
    assert_eq!(replaced, Some(test_hash(1)));
    let after = SessionRegistry::get_active_sessions(&state, authorizer, 200, 3);
    assert_eq!(after, vec![test_hash(4), test_hash(2), test_hash(3)]);

    // With every slot active, creation is refused and nothing changes.
    assert_eq!(
        SessionRegistry::create_session(&mut state, authorizer, test_signer(), 5_000, test_hash(5), 200, 3),
        Err(SessionPrecompileError::MaxSessionsReached { authorizer })
    );
    assert_eq!(SessionRegistry::get_active_sessions(&state, authorizer, 200, 3), after);
}
