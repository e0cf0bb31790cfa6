use pachi::evm::post_execution::PostExecutionHandler;
use pachi::evm::pre_execution::{PreExecutionError, PreExecutionHandler, PreExecutionResult};
use pachi::primitives::constraint::{ConditionType, Constraint};
use pachi::primitives::limit::Limit;
use pachi::primitives::policy::{CallPolicy, TransferPolicy};
use pachi::session::error::SessionPrecompileError;
use pachi::session::nonce::SessionNonce;
use pachi::session::registry::SessionRegistry;
use pachi::session::validation::{SessionValidationInput, SessionValidator};
use pachi::state::MockState;
use pachi::word::{Address, Selector, B256, U256};

fn setup(state: &mut MockState, hash: B256) -> Address {
    let authorizer = Address::from([0xAAu8; 20]);
    let signer = Address::from([0xBBu8; 20]);
    SessionRegistry::create_session(state, authorizer, signer, 10_000, hash, 100, 10).unwrap();
    authorizer
}

fn open_transfer() -> TransferPolicy {
    TransferPolicy { target: Address::zero(), max_value_per_use: U256::max_value(), value_limit: Limit::unlimited() }
}

#[test]
fn pre_session_valid() {
    let mut state = MockState::new();
    let hash = B256::from([0x11u8; 32]);
    let authorizer = setup(&mut state, hash);
    let target = Address::from([0xCCu8; 20]);
    let selector = [0xDE, 0xAD, 0xBE, 0xEF];

    let calldata = selector.to_vec();
    let call_policy = CallPolicy {
        target,
        selector: Selector::from(selector),
        value_limit: Limit::unlimited(),
        max_value_per_use: U256::max_value(),
        constraints: vec![],
    };
    let policies = [call_policy];

    let input = SessionValidationInput {
        session_hash: &hash,
        authorizer,
        nonce: 0,
        to: target,
        calldata: &calldata,
        value: U256::zero(),
        estimated_gas_cost: U256::from(100u64),
        block_timestamp: 200,
        call_policies: &policies,
        transfer_policies: &[],
        fee_limit: &Limit::unlimited(),
    };

    let result = PreExecutionHandler::validate_session_tx(&state, &input).unwrap();
    match result {
        PreExecutionResult::Session { authorizer: auth } => {
            assert_eq!(auth, authorizer);
        }
        _ => panic!("expected Session result"),
    }
}

#[test]
fn pre_session_expired_fails() {
    let mut state = MockState::new();
    let hash = B256::from([0x11u8; 32]);
    let authorizer = setup(&mut state, hash);
    let target = Address::from([0xCCu8; 20]);

    let input = SessionValidationInput {
        session_hash: &hash,
        authorizer,
        nonce: 0,
        to: target,
        calldata: &[],
        value: U256::zero(),
        estimated_gas_cost: U256::zero(),
        block_timestamp: 20_000, // past expires_at
        call_policies: &[],
        transfer_policies: &[],
        fee_limit: &Limit::unlimited(),
    };

    let err = PreExecutionHandler::validate_session_tx(&state, &input).unwrap_err();
    assert!(matches!(err, PreExecutionError::Session(SessionPrecompileError::SessionExpired { .. })));
}

#[test]
fn pre_session_wrong_nonce_fails() {
    let mut state = MockState::new();
    let hash = B256::from([0x11u8; 32]);
    let authorizer = setup(&mut state, hash);
    let target = Address::from([0xCCu8; 20]);
    let selector = [0xDE, 0xAD, 0xBE, 0xEF];

    let call_policy = CallPolicy {
        target,
        selector: Selector::from(selector),
        value_limit: Limit::unlimited(),
        max_value_per_use: U256::max_value(),
        constraints: vec![],
    };
    let policies = [call_policy];

    let input = SessionValidationInput {
        session_hash: &hash,
        authorizer,
        nonce: 999, // wrong nonce
        to: target,
        calldata: &selector,
        value: U256::zero(),
        estimated_gas_cost: U256::zero(),
        block_timestamp: 200,
        call_policies: &policies,
        transfer_policies: &[],
        fee_limit: &Limit::unlimited(),
    };

    let err = PreExecutionHandler::validate_session_tx(&state, &input).unwrap_err();
    assert!(matches!(err, PreExecutionError::Session(SessionPrecompileError::NonceMismatch { .. })));
}

#[test]
fn pre_session_revoked_fails() {
    let mut state = MockState::new();
    let hash = B256::from([0x11u8; 32]);
    let authorizer = setup(&mut state, hash);
    SessionRegistry::revoke_session(&mut state, authorizer, &hash).unwrap();

    let input = SessionValidationInput {
        session_hash: &hash,
        authorizer,
        nonce: 0,
        to: Address::zero(),
        calldata: &[],
        value: U256::zero(),
        estimated_gas_cost: U256::zero(),
        block_timestamp: 200,
        call_policies: &[],
        transfer_policies: &[],
        fee_limit: &Limit::unlimited(),
    };

    let err = PreExecutionHandler::validate_session_tx(&state, &input).unwrap_err();
    assert!(matches!(err, PreExecutionError::Session(SessionPrecompileError::SessionRevoked { .. })));
}

#[test]
fn post_session_increments_nonce() {
    let mut state = MockState::new();
    let hash = B256::from([0x11u8; 32]);
    let authorizer = setup(&mut state, hash);

    assert_eq!(SessionNonce::get(&state, authorizer, &hash), 0);

    PostExecutionHandler::finalize_session_tx(
        &mut state,
        authorizer,
        &hash,
        U256::from(1000u64),
        200,
        &Limit::unlimited(),
        Address::from([0xCCu8; 20]),
        &[0xDE, 0xAD, 0xBE, 0xEF],
        U256::zero(),
        &[],
        &[],
    );

    assert_eq!(SessionNonce::get(&state, authorizer, &hash), 1);
}

#[test]
fn post_session_nonce_increments_sequentially() {
    let mut state = MockState::new();
    let hash = B256::from([0x55u8; 32]);
    let authorizer = setup(&mut state, hash);

    for expected in 0..5u64 {
        assert_eq!(SessionNonce::get(&state, authorizer, &hash), expected);
        PostExecutionHandler::finalize_session_tx(
            &mut state,
            authorizer,
            &hash,
            U256::from(100u64),
            200,
            &Limit::unlimited(),
            Address::zero(),
            &[],
            U256::zero(),
            &[],
            &[open_transfer()],
        );
    }
    assert_eq!(SessionNonce::get(&state, authorizer, &hash), 5);
}

#[test]
fn post_session_updates_fee_limit() {
    let mut state = MockState::new();
    let hash = B256::from([0x22u8; 32]);
    let authorizer = setup(&mut state, hash);

    let fee_limit = Limit::lifetime(U256::from(5_000u64));

    PostExecutionHandler::finalize_session_tx(
        &mut state,
        authorizer,
        &hash,
        U256::from(3_000u64),
        200,
        &fee_limit,
        Address::zero(),
        &[],
        U256::zero(),
        &[],
        &[],
    );

    assert_eq!(SessionNonce::get(&state, authorizer, &hash), 1);

    let transfers = [open_transfer()];
    let input = SessionValidationInput {
        session_hash: &hash,
        authorizer,
        nonce: 1,
        to: Address::zero(),
        calldata: &[],
        value: U256::zero(),
        estimated_gas_cost: U256::from(3_000u64),
        block_timestamp: 300,
        call_policies: &[],
        transfer_policies: &transfers,
        fee_limit: &fee_limit,
    };

    let err = SessionValidator::validate(&state, &input).unwrap_err();
    assert!(matches!(err, SessionPrecompileError::FeeLimitExceeded));

    // 2000 more still fits under the lifetime cap of 5000.
    let input2 = SessionValidationInput { estimated_gas_cost: U256::from(2_000u64), ..input };
    assert!(SessionValidator::validate(&state, &input2).is_ok());
}

#[test]
fn post_transfer_value_limit_tracked() {
    let mut state = MockState::new();
    let hash = B256::from([0x33u8; 32]);
    let authorizer = setup(&mut state, hash);
    let target = Address::from([0xCCu8; 20]);
    let policy = TransferPolicy {
        target,
        max_value_per_use: U256::max_value(),
        value_limit: Limit::lifetime(U256::from(1_000u64)),
    };
    let transfers = [policy];

    PostExecutionHandler::finalize_session_tx(
        &mut state,
        authorizer,
        &hash,
        U256::zero(),
        200,
        &Limit::unlimited(),
        target,
        &[],
        U256::from(700u64),
        &[],
        &transfers,
    );

    let input = SessionValidationInput {
        session_hash: &hash,
        authorizer,
        nonce: 1,
        to: target,
        calldata: &[],
        value: U256::from(400u64),
        estimated_gas_cost: U256::zero(),
        block_timestamp: 300,
        call_policies: &[],
        transfer_policies: &transfers,
        fee_limit: &Limit::unlimited(),
    };
    assert!(matches!(SessionValidator::validate(&state, &input), Err(SessionPrecompileError::LimitError(_))));
}

#[test]
fn post_session_nonce_rises_by_one_whatever_the_policies() {
    let mut state = MockState::new();
    let hash = B256::from([0x66u8; 32]);
    let authorizer = setup(&mut state, hash);
    let target = Address::from([0xCCu8; 20]);
    let selector = Selector::from([0xDE, 0xAD, 0xBE, 0xEF]);
    let policy = CallPolicy {
        target,
        selector,
        value_limit: Limit::lifetime(U256::from(10u64)),
        max_value_per_use: U256::max_value(),
        constraints: vec![Constraint {
            index: 0,
            condition: ConditionType::Unconstrained,
            ref_value: B256::zero(),
            limit: Limit::allowance(U256::from(5u64), 60),
        }],
    };
    let mut calldata = vec![0xDE, 0xAD, 0xBE, 0xEF];
    calldata.extend_from_slice(&B256::from_u256(&U256::from(7u64)).bytes);

    // A call covered by a policy, with limits that refuse what was spent.
    PostExecutionHandler::finalize_session_tx(
        &mut state,
        authorizer,
        &hash,
        U256::from(1_000u64),
        200,
        &Limit::lifetime(U256::from(1u64)),
        target,
        &calldata,
        U256::from(50u64),
        &[policy],
        &[],
    );
    assert_eq!(SessionNonce::get(&state, authorizer, &hash), 1);

    // A call covered by no policy.
    PostExecutionHandler::finalize_session_tx(
        &mut state,
        authorizer,
        &hash,
        U256::zero(),
        300,
        &Limit::unlimited(),
        Address::from([0x01u8; 20]),
        &calldata,
        U256::zero(),
        &[],
        &[],
    );
    assert_eq!(SessionNonce::get(&state, authorizer, &hash), 2);
}
