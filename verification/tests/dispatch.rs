use pachi::evm::events::{deposited_log, session_created_log};
use pachi::evm::oracle_dispatch::{oracle_call_fits, oracle_precompile};
use pachi::evm::outcome::{PrecompileOutcome, RevertReason};
use pachi::evm::session_dispatch::session_registry_precompile;
use pachi::evm::sponsor_dispatch::{
    sponsor_dispatch_plan, sponsor_outcome, sponsor_type_output, SponsorCall, SponsorGasSchedule, SponsorPlan, SponsorReply,
};
use pachi::evm::vrf_dispatch::{vrf_compute_address, vrf_compute_output, vrf_compute_plan, vrf_verify_plan, VrfComputePlan, VrfVerifyPlan};
use pachi::hardforks::config::parse_amount_text;
use pachi::oracle_precompile::storage::{oracle_precompile_address, PriceEntry};
use pachi::oracle_precompile::error::OraclePrecompileError;
use pachi::payload::system_tx::{typed_envelope, vrf_fulfill_input, SystemTxGenerator, SYSTEM_TX_TYPE};
use pachi::consensus::validation::SystemTxSubtype;
use pachi::primitives::asset::AssetId;
use pachi::primitives::confidence::Confidence;
use pachi::session::registry::SessionRegistry;
use pachi::state::MockState;
use pachi::word::{Address, B256, U256};

fn word_u64(v: u64) -> [u8; 32] {
    B256::from_u256(&U256::from(v)).bytes
}

fn call(selector: [u8; 4], words: &[[u8; 32]]) -> Vec<u8> {
    let mut d = selector.to_vec();
    for w in words {
        d.extend_from_slice(w);
    }
    d
}

fn address_word(a: Address) -> [u8; 32] {
    let mut w = [0u8; 32];
    w[12..].copy_from_slice(&a.bytes);
    w
}

// ---- oracle precompile ----

#[test]
fn oracle_get_price_returns_stored_words() {
    let mut state = MockState::new();
    PriceEntry { price: U256::from(123u64), timestamp: 1_000, confidence: Confidence::Medium }
        .write(&mut state, AssetId::SOL);
    let data = call([0x37, 0xf1, 0xe7, 0xf2], &[word_u64(3)]);
    assert!(oracle_call_fits(&data));
    match oracle_precompile(&state, &data, 10_000, 1_010) {
        PrecompileOutcome::Success { gas_used, output, logs } => {
            assert_eq!(gas_used, 200);
            let mut expected = word_u64(123).to_vec();
            expected.extend_from_slice(&word_u64(1_000));
            expected.extend_from_slice(&word_u64(1));
            assert_eq!(output, expected);
            assert!(logs.is_empty());
        }
        other => panic!("expected success, got {other:?}"),
    }
}

#[test]
fn oracle_get_price_unsupported_reverts() {
    let state = MockState::new();
    let data = call([0x37, 0xf1, 0xe7, 0xf2], &[word_u64(9)]);
    match oracle_precompile(&state, &data, 10_000, 0) {
        PrecompileOutcome::Reverted { gas_used, reason } => {
            assert_eq!(gas_used, 200);
            assert!(matches!(reason, RevertReason::Oracle(OraclePrecompileError::UnsupportedAsset { asset_id: 9 })));
        }
        other => panic!("expected revert, got {other:?}"),
    }
}

#[test]
fn oracle_short_input_and_gas() {
    let state = MockState::new();
    assert!(matches!(
        oracle_precompile(&state, &[0x37], 10_000, 0),
        PrecompileOutcome::Reverted { gas_used: 0, .. }
    ));
    let data = call([0x5a, 0x80, 0x3a, 0x54], &[word_u64(1)]);
    assert!(matches!(oracle_precompile(&state, &data, 99, 0), PrecompileOutcome::OutOfGas));
    match oracle_precompile(&state, &data, 100, 0) {
        PrecompileOutcome::Success { output, .. } => assert_eq!(output, word_u64(1).to_vec()),
        other => panic!("expected success, got {other:?}"),
    }
}

#[test]
fn oracle_huge_batch_does_not_fit() {
    let data = call([0xbc, 0x34, 0x83, 0x64], &[word_u64(32), [0xff; 32]]);
    assert!(!oracle_call_fits(&data));
}

// ---- session registry precompile ----

#[test]
fn session_precompile_create_then_is_valid() {
    let mut state = MockState::new();
    let caller = Address::from([0xAA; 20]);
    let signer = Address::from([0xBB; 20]);
    let hash = [0x42u8; 32];
    let data = call([0xaa, 0xd6, 0x41, 0x15], &[address_word(signer), word_u64(5_000), hash]);
    match session_registry_precompile(&mut state, &data, 100_000, caller, false, 100) {
        PrecompileOutcome::Success { gas_used, output, logs } => {
            assert_eq!(gas_used, 60_000);
            assert_eq!(output, hash.to_vec());
            assert_eq!(logs.len(), 1);
        }
        other => panic!("expected success, got {other:?}"),
    }
    assert!(SessionRegistry::is_valid(&state, &B256::from(hash), 200));

    let query = call([0x6a, 0x93, 0x85, 0x67], &[hash]);
    match session_registry_precompile(&mut state, &query, 100_000, caller, true, 200) {
        PrecompileOutcome::Success { output, .. } => assert_eq!(output, word_u64(1).to_vec()),
        other => panic!("expected success, got {other:?}"),
    }
}

#[test]
fn session_precompile_create_in_static_context_reverts() {
    let mut state = MockState::new();
    let data = call(
        [0xaa, 0xd6, 0x41, 0x15],
        &[address_word(Address::from([1; 20])), word_u64(5_000), [7u8; 32]],
    );
    assert!(matches!(
        session_registry_precompile(&mut state, &data, 100_000, Address::from([2; 20]), true, 100),
        PrecompileOutcome::Reverted { .. }
    ));
    assert!(!SessionRegistry::is_valid(&state, &B256::from([7u8; 32]), 100));
}

// ---- sponsor hub and VRF decoding ----

fn schedule() -> SponsorGasSchedule {
    SponsorGasSchedule {
        register: 50_000,
        deactivate: 10_000,
        deposit: 20_000,
        withdraw: 20_000,
        mint_toggle: 10_000,
        transfer_ownership: 10_000,
        view: 2_600,
        can_sponsor: 5_000,
    }
}

#[test]
fn sponsor_plan_decodes_withdraw() {
    let data = call([0x2e, 0x1a, 0x7d, 0x4d], &[word_u64(77)]);
    match sponsor_dispatch_plan(&data, 1_000_000, false, &schedule()) {
        SponsorPlan::Run { gas_used, call: SponsorCall::Withdraw { amount } } => {
            assert_eq!(gas_used, 20_000);
            assert_eq!(amount, U256::from(77u64));
        }
        other => panic!("unexpected plan {other:?}"),
    }
}

#[test]
fn sponsor_plan_unknown_selector_and_short_input() {
    assert!(matches!(
        sponsor_dispatch_plan(&[1, 2, 3, 4], 1_000_000, false, &schedule()),
        SponsorPlan::Reverted { message: "unknown selector", .. }
    ));
    assert!(matches!(
        sponsor_dispatch_plan(&[1, 2], 1_000_000, false, &schedule()),
        SponsorPlan::Reverted { gas_used: 0, message: "input too short" }
    ));
}

#[test]
fn sponsor_type_output_words() {
    assert_eq!(sponsor_type_output(Some(1)), word_u64(1).to_vec());
    assert_eq!(sponsor_type_output(None), word_u64(255).to_vec());
}

#[test]
fn sponsor_outcome_withdraw_emits_log() {
    let hub = Address::from([8; 20]);
    let caller = Address::from([4; 20]);
    let out = sponsor_outcome(
        hub,
        caller,
        U256::zero(),
        20_000,
        SponsorCall::Withdraw { amount: U256::from(30u64) },
        SponsorReply::BalanceAfter(U256::from(70u64)),
    );
    match out {
        PrecompileOutcome::Success { gas_used, output, logs } => {
            assert_eq!(gas_used, 20_000);
            assert!(output.is_empty());
            assert_eq!(logs.len(), 1);
            let sig = alloy_primitives::keccak256(b"Withdrawn(address,uint256,uint256)");
            assert_eq!(logs[0].topics[0], B256::from(sig.0));
            let mut data = word_u64(30).to_vec();
            data.extend_from_slice(&word_u64(70));
            assert_eq!(logs[0].data, data);
        }
        other => panic!("expected success, got {other:?}"),
    }
}

#[test]
fn sponsor_outcome_failures_and_views() {
    let hub = Address::from([8; 20]);
    let caller = Address::from([4; 20]);
    match sponsor_outcome(hub, caller, U256::zero(), 20_000, SponsorCall::Deposit, SponsorReply::Failed("zero deposit".to_string())) {
        PrecompileOutcome::Reverted { gas_used, reason: RevertReason::Text(m) } => {
            assert_eq!(gas_used, 20_000);
            assert_eq!(m, "zero deposit");
        }
        other => panic!("expected revert, got {other:?}"),
    }
    assert!(matches!(
        sponsor_outcome(hub, caller, U256::zero(), 2_600, SponsorCall::GetPolicy { sponsor: caller }, SponsorReply::Policy(None)),
        PrecompileOutcome::Reverted { gas_used: 2_600, reason: RevertReason::Message("no policy registered") }
    ));
    match sponsor_outcome(hub, caller, U256::zero(), 2_600, SponsorCall::IsActive { sponsor: caller }, SponsorReply::Flag(true)) {
        PrecompileOutcome::Success { output, logs, .. } => {
            assert_eq!(output, word_u64(1).to_vec());
            assert!(logs.is_empty());
        }
        other => panic!("expected success, got {other:?}"),
    }
    match sponsor_outcome(hub, caller, U256::zero(), 2_600, SponsorCall::Owner, SponsorReply::Owner(Address::from([6; 20]))) {
        PrecompileOutcome::Success { output, .. } => assert_eq!(output, address_word(Address::from([6; 20])).to_vec()),
        other => panic!("expected success, got {other:?}"),
    }
}

#[test]
fn vrf_plans() {
    let mut data = vec![0x11u8; 32];
    data.extend_from_slice(&[0x22u8; 32]);
    match vrf_compute_plan(&data, 10_000, 3_000) {
        VrfComputePlan::Run { secret_key, seed } => {
            assert_eq!(secret_key, [0x11u8; 32]);
            assert_eq!(seed, B256::from([0x22u8; 32]));
        }
        other => panic!("unexpected plan {other:?}"),
    }
    assert!(matches!(vrf_compute_plan(&data, 2_999, 3_000), VrfComputePlan::OutOfGas));
    assert!(matches!(vrf_compute_plan(&data[..10], 10_000, 3_000), VrfComputePlan::Reverted { .. }));
    assert!(matches!(vrf_verify_plan(&data, 10_000, 1_500), VrfVerifyPlan::Reverted { .. }));
    let out = vrf_compute_output(&B256::from([3u8; 32]), &[9, 9]);
    assert_eq!(out.len(), 34);
    assert_eq!(&out[32..], &[9, 9]);
}

// ---- event logs ----

#[test]
fn session_created_log_layout() {
    let log = session_created_log(
        Address::from([8; 20]),
        B256::from([1; 32]),
        Address::from([2; 20]),
        Address::from([3; 20]),
        77,
    );
    let sig = alloy_primitives::keccak256(b"SessionCreated(bytes32,address,address,uint64)");
    assert_eq!(log.topics[0], B256::from(sig.0));
    assert_eq!(log.topics[1], B256::from([1; 32]));
    assert_eq!(log.topics[2], B256::from(address_word(Address::from([2; 20]))));
    let mut data = address_word(Address::from([3; 20])).to_vec();
    data.extend_from_slice(&word_u64(77));
    assert_eq!(log.data, data);
}

#[test]
fn deposited_log_layout() {
    let log = deposited_log(Address::from([8; 20]), Address::from([4; 20]), U256::from(5u64), U256::from(9u64));
    let sig = alloy_primitives::keccak256(b"Deposited(address,uint256,uint256)");
    assert_eq!(log.topics, vec![B256::from(sig.0), B256::from(address_word(Address::from([4; 20])))]);
    let mut data = word_u64(5).to_vec();
    data.extend_from_slice(&word_u64(9));
    assert_eq!(log.data, data);
    assert_eq!(log.address, Address::from([8; 20]));
}

// ---- system transactions ----

#[test]
fn oracle_update_tx_has_correct_fields() {
    let generator = SystemTxGenerator::new(1337);
    let tx = generator.oracle_update_fields(vec![1, 2, 3], 42);
    assert_eq!(tx.chain_id, 1337);
    assert_eq!(tx.nonce, 42);
    assert_eq!(tx.system_tx_type, SystemTxSubtype::OracleUpdate);
    assert_eq!(tx.value, U256::zero());
    assert_eq!(tx.to, oracle_precompile_address());
    assert!(!tx.input.is_empty());
}

#[test]
fn vrf_fulfill_tx_without_key_returns_none() {
    let generator = SystemTxGenerator::new(1);
    assert!(generator.vrf_secret_key().is_none());
}

#[test]
fn vrf_fulfill_fields_carry_key_random_proof() {
    let generator = SystemTxGenerator::new(1337).with_vrf_secret_key([5u8; 32]);
    assert_eq!(generator.vrf_secret_key(), Some([5u8; 32]));
    assert_eq!(generator.chain_id(), 1337);
    let key = B256::from([0xCC; 32]);
    let random = B256::from([0xDD; 32]);
    let proof = [0xEEu8; 97];
    let tx = generator.vrf_fulfill_fields(&key, &random, &proof, 7);
    assert_eq!(tx.chain_id, 1337);
    assert_eq!(tx.nonce, 7);
    assert_eq!(tx.system_tx_type, SystemTxSubtype::VrfFulfill);
    assert_eq!(tx.value, U256::zero());
    assert_eq!(tx.to, vrf_compute_address());
    assert_eq!(tx.input.len(), 32 + 32 + 97, "input should be key+random+proof");
    assert_eq!(&tx.input[..32], &key.bytes);
    assert_eq!(tx.input, vrf_fulfill_input(&key, &random, &proof));
}

#[test]
fn encode_system_tx_has_type_prefix() {
    let encoded = typed_envelope(&[0xc0, 0x01]);
    assert_eq!(encoded[0], SYSTEM_TX_TYPE);
    assert_eq!(encoded, vec![0x50, 0xc0, 0x01]);
}

// ---- genesis amounts ----

#[test]
fn amount_text_decimal_and_hex() {
    assert_eq!(parse_amount_text("100000000000000000"), Some(100_000_000_000_000_000));
    assert_eq!(parse_amount_text("0x16345785d8a0000"), Some(100_000_000_000_000_000));
    assert_eq!(parse_amount_text("0xzz"), None);
    assert_eq!(parse_amount_text(""), None);
}

#[test]
fn oracle_calls_emit_no_logs() {
    let mut state = MockState::new();
    PriceEntry { price: U256::from(42u64), timestamp: 1_000, confidence: Confidence::High }
        .write(&mut state, AssetId::BTC);
    let calls = vec![
        call([0x37, 0xf1, 0xe7, 0xf2], &[word_u64(1)]),
        call([0xbc, 0x34, 0x83, 0x64], &[word_u64(32), word_u64(1), word_u64(1)]),
        call([0x5a, 0x80, 0x3a, 0x54], &[word_u64(1)]),
    ];
    for data in calls {
        assert!(oracle_call_fits(&data));
        match oracle_precompile(&state, &data, 100_000, 1_005) {
            PrecompileOutcome::Success { logs, .. } => assert!(logs.is_empty()),
            other => panic!("expected success, got {other:?}"),
        }
    }
}

fn selector_of(signature: &str) -> [u8; 4] {
    let h = alloy_primitives::keccak256(signature.as_bytes());
    [h[0], h[1], h[2], h[3]]
}

fn unknown_selector(r: &PrecompileOutcome) -> bool {
    matches!(r, PrecompileOutcome::Reverted { gas_used: 0, reason: RevertReason::Message(m) } if *m == "unknown selector")
}

#[test]
fn selectors_are_signature_digests() {
    let state = MockState::new();
    for sig in ["getPrice(uint8)", "getPriceBatch(uint8[])", "isSupported(uint8)"] {
        let r = oracle_precompile(&state, &selector_of(sig), 1_000_000, 0);
        assert!(!unknown_selector(&r), "{sig}");
    }
    for sig in [
        "createSession(address,uint64,bytes32)",
        "revokeSession(bytes32)",
        "getSession(bytes32)",
        "getActiveSessions(address)",
        "isValid(bytes32)",
    ] {
        let mut state = MockState::new();
        let r = session_registry_precompile(&mut state, &selector_of(sig), 1_000_000, Address::zero(), false, 0);
        assert!(!unknown_selector(&r), "{sig}");
    }
    for sig in [
        "registerPolicy(bytes)",
        "deactivatePolicy()",
        "deposit()",
        "withdraw(uint256)",
        "getBalance(address)",
        "isActive(address)",
        "getValidUntil(address)",
        "getSponsorType(address)",
        "getPolicy(address)",
        "canSponsor(address,address,address,bytes4)",
        "owner()",
        "approveMint(address)",
        "revokeMint(address)",
        "transferOwnership(address)",
    ] {
        let plan = sponsor_dispatch_plan(&selector_of(sig), 1_000_000, false, &schedule());
        assert!(!matches!(plan, SponsorPlan::Reverted { message: "unknown selector", .. }), "{sig}");
    }
    let r = oracle_precompile(&state, &selector_of("getPrices(uint8)"), 1_000_000, 0);
    assert!(unknown_selector(&r));
}
