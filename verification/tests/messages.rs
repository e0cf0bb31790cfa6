use pachi::evm::outcome::RevertReason;
use pachi::oracle_precompile::error::OraclePrecompileError;
use pachi::primitives::asset::AssetId;
use pachi::primitives::constraint::{ConditionType, ConstraintError};
use pachi::primitives::limit::LimitError;
use pachi::session::error::SessionPrecompileError;
use pachi::word::{Address, Selector, B256, U256};

fn b256_of(v: u64) -> B256 {
    B256::from_u256(&U256::from(v))
}

#[test]
fn limit_error_messages() {
    let e = LimitError::Exceeded { used: U256::from(100u64), amount: U256::from(1u64), limit: U256::from(100u64) };
    assert_eq!(e.message(), "limit exceeded: used 100 + amount 1 > limit 100");
    assert_eq!(LimitError::ZeroPeriod.message(), "allowance limit has zero period");
    let big = LimitError::Exceeded { used: U256::max_value(), amount: U256::zero(), limit: U256::from(7u64) };
    assert_eq!(
        big.message(),
        "limit exceeded: used 115792089237316195423570985008687907853269984665640564039457584007913129639935 + amount 0 > limit 7"
    );
}

#[test]
fn constraint_error_messages() {
    assert_eq!(
        ConstraintError::CalldataTooShort { needed: 68, got: 36 }.message(),
        "calldata too short: need 68 bytes, got 36"
    );
    let e = ConstraintError::ConditionFailed { arg: b256_of(0x2a), condition: ConditionType::Equal, ref_value: b256_of(0x63) };
    assert_eq!(
        e.message(),
        format!("condition failed: arg 0x{}2a Equal ref 0x{}63", "0".repeat(62), "0".repeat(62))
    );
    assert_eq!(
        ConstraintError::LimitError(LimitError::ZeroPeriod).message(),
        "constraint limit error: allowance limit has zero period"
    );
}

#[test]
fn oracle_error_messages() {
    assert_eq!(OraclePrecompileError::UnsupportedAsset { asset_id: 0xFF }.message(), "unsupported asset: 0xff");
    assert_eq!(OraclePrecompileError::UnsupportedAsset { asset_id: 0x07 }.message(), "unsupported asset: 0x07");
    assert_eq!(OraclePrecompileError::MissingAsset(AssetId::USDC).message(), "snapshot missing asset: USDC");
    assert_eq!(
        OraclePrecompileError::SnapshotUnsupportedAsset { asset_id: 0 }.message(),
        "snapshot contains unsupported asset: 0x00"
    );
}

#[test]
fn session_error_messages() {
    let a = Address::from([0xAA; 20]);
    let b = Address::from([0x1b; 20]);
    let alloy_a = alloy_primitives::Address::from([0xAA; 20]);
    let alloy_b = alloy_primitives::Address::from([0x1b; 20]);
    assert_eq!(
        SessionPrecompileError::NotAuthorizer { expected: a, actual: b }.message(),
        format!("not authorizer: expected {alloy_a}, got {alloy_b}")
    );
    assert_eq!(
        SessionPrecompileError::SessionNotFound { hash: B256::from([1; 32]) }.message(),
        format!("session not found: 0x{}", "01".repeat(32))
    );
    assert_eq!(
        SessionPrecompileError::CallNotAllowed { target: b, selector: Selector::from([0xde, 0xad, 0xbe, 0xef]) }.message(),
        format!("call not allowed: target={alloy_b}, selector=0xdeadbeef")
    );
    assert_eq!(
        SessionPrecompileError::ValuePerUseExceeded { max: U256::from(1_000_000u64), actual: U256::from(2_000_000u64) }
            .message(),
        "value per use exceeded: max=1000000, actual=2000000"
    );
    assert_eq!(SessionPrecompileError::NonceMismatch { expected: 0, actual: 5 }.message(), "nonce mismatch: expected 0, got 5");
    assert_eq!(SessionPrecompileError::FeeLimitExceeded.message(), "fee limit exceeded");
    assert_eq!(
        SessionPrecompileError::LimitError(LimitError::ZeroPeriod).message(),
        "limit error: allowance limit has zero period"
    );
}

#[test]
fn revert_data_is_message_bytes() {
    assert_eq!(RevertReason::Message("input too short").revert_data(), b"input too short".to_vec());
    assert_eq!(
        RevertReason::Oracle(OraclePrecompileError::UnsupportedAsset { asset_id: 9 }).revert_data(),
        b"unsupported asset: 0x09".to_vec()
    );
    assert_eq!(RevertReason::Text("zero deposit".to_string()).message(), "zero deposit");
}

#[test]
fn addresses_are_written_with_eip55_checksum() {
    let bytes: [u8; 20] = [
        0xd8, 0xda, 0x6b, 0xf2, 0x69, 0x64, 0xaf, 0x9d, 0x7e, 0xed, 0x9e, 0x03, 0xe5, 0x34, 0x15, 0xd3, 0x7a, 0xa9,
        0x60, 0x45,
    ];
    assert_eq!(
        SessionPrecompileError::MaxSessionsReached { authorizer: Address::from(bytes) }.message(),
        "max sessions reached for 0xd8dA6BF26964aF9D7eEd9e03E53415D37aA96045"
    );
}
