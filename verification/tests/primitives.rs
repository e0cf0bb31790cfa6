use pachi::primitives::asset::AssetId;
use pachi::primitives::confidence::Confidence;
use pachi::primitives::constants::CURRENT_ENGINE_VERSION;
use pachi::primitives::constraint::{ConditionType, Constraint, ConstraintEngine, ConstraintError};
use pachi::primitives::limit::{Limit, LimitEngine, LimitError, LimitState};
use pachi::primitives::snapshot::{AssetState, PriceSnapshot, SnapshotEntry};
use pachi::word::{basis_points_exceed, B256, U256};

fn word(v: u64) -> U256 {
    U256::from(v)
}

fn b256_of(v: u64) -> B256 {
    B256::from_u256(&U256::from(v))
}

/// Build calldata: 4-byte selector + 32-byte words.
fn make_calldata(selector: [u8; 4], args: &[U256]) -> Vec<u8> {
    let mut data = selector.to_vec();
    for arg in args {
        data.extend_from_slice(&B256::from_u256(arg).bytes);
    }
    data
}

#[test]
fn asset_roundtrip_u8() {
    for asset in AssetId::all() {
        assert_eq!(AssetId::from_u8(asset.as_u8()), Some(asset));
    }
}

#[test]
fn unsupported_returns_none() {
    assert_eq!(AssetId::from_u8(0x00), None);
    assert_eq!(AssetId::from_u8(0x07), None);
    assert_eq!(AssetId::from_u8(0xFF), None);
}

#[test]
fn is_supported() {
    assert!(AssetId::is_supported(0x01));
    assert!(AssetId::is_supported(0x06));
    assert!(!AssetId::is_supported(0x00));
    assert!(!AssetId::is_supported(0x07));
}

#[test]
fn storage_slots_no_overlap() {
    let slots: Vec<U256> = AssetId::all().iter().map(|a| a.storage_base_slot()).collect();
    for i in 0..slots.len() {
        for j in (i + 1)..slots.len() {
            // Each asset occupies 2 slots, so base slots must differ by at least 2
            let diff = slots[j].wrapping_sub(&slots[i]);
            assert!(diff.ge(&U256::from(2u64)));
        }
    }
}

#[test]
fn ordering() {
    assert!(Confidence::High < Confidence::Medium);
    assert!(Confidence::Medium < Confidence::Degraded);
    assert!(Confidence::Degraded < Confidence::Unavailable);
}

#[test]
fn confidence_roundtrip_u8() {
    for v in 0..=3u8 {
        let c = Confidence::from_u8(v).unwrap();
        assert_eq!(c.as_u8(), v);
    }
    assert_eq!(Confidence::from_u8(4), None);
}

#[test]
fn worse_picks_higher() {
    assert_eq!(Confidence::High.worse(Confidence::Medium), Confidence::Medium);
    assert_eq!(Confidence::Degraded.worse(Confidence::High), Confidence::Degraded);
    assert_eq!(Confidence::Unavailable.worse(Confidence::Medium), Confidence::Unavailable);
}

#[test]
fn worse_is_symmetric_and_idempotent() {
    let all = [Confidence::High, Confidence::Medium, Confidence::Degraded, Confidence::Unavailable];
    for a in all {
        assert_eq!(a.worse(a), a);
        for b in all {
            assert_eq!(a.worse(b), b.worse(a));
        }
    }
}

#[test]
fn all_unavailable_contains_all_assets() {
    let snapshot = PriceSnapshot::all_unavailable(CURRENT_ENGINE_VERSION);
    assert_eq!(snapshot.entries.len(), AssetId::all().len());
    for asset in AssetId::all() {
        assert_eq!(snapshot.entries.get(asset), Some(&SnapshotEntry::Unavailable));
    }
    assert_eq!(snapshot.engine_version, CURRENT_ENGINE_VERSION);
}

#[test]
fn asset_state_variants() {
    let available =
        AssetState::Available { price: word(100), timestamp: 1000, confidence: Confidence::High };
    let unavailable = AssetState::Unavailable;

    assert!(matches!(available, AssetState::Available { .. }));
    assert!(matches!(unavailable, AssetState::Unavailable));
}

#[test]
fn unlimited_always_passes() {
    let limit = Limit::unlimited();
    let mut state = LimitState::default();
    assert!(LimitEngine::check_and_update(&limit, &mut state, U256::max_value(), 0).is_ok());
    // State unchanged for unlimited
    assert_eq!(state.used, U256::zero());
}

#[test]
fn lifetime_basic() {
    let limit = Limit::lifetime(word(100));
    let mut state = LimitState::default();

    LimitEngine::check_and_update(&limit, &mut state, word(60), 0).unwrap();
    assert_eq!(state.used, word(60));

    LimitEngine::check_and_update(&limit, &mut state, word(40), 0).unwrap();
    assert_eq!(state.used, word(100));

    let err = LimitEngine::check_and_update(&limit, &mut state, word(1), 0).unwrap_err();
    assert_eq!(err, LimitError::Exceeded { used: word(100), amount: word(1), limit: word(100) });
}

#[test]
fn lifetime_does_not_reset_on_timestamp() {
    let limit = Limit::lifetime(word(50));
    let mut state = LimitState::default();

    LimitEngine::check_and_update(&limit, &mut state, word(50), 1000).unwrap();
    let err = LimitEngine::check_and_update(&limit, &mut state, word(1), 999_999).unwrap_err();
    assert!(matches!(err, LimitError::Exceeded { .. }));
}

#[test]
fn allowance_window_transition() {
    let limit = Limit::allowance(word(100), 3600); // 100 per hour
    let mut state = LimitState::default();

    LimitEngine::check_and_update(&limit, &mut state, word(100), 0).unwrap();
    assert_eq!(state.used, word(100));
    assert_eq!(state.last_window, 0);

    let err = LimitEngine::check_and_update(&limit, &mut state, word(1), 3599).unwrap_err();
    assert!(matches!(err, LimitError::Exceeded { .. }));

    LimitEngine::check_and_update(&limit, &mut state, word(50), 3600).unwrap();
    assert_eq!(state.used, word(50));
    assert_eq!(state.last_window, 1);
}

#[test]
fn allowance_skips_windows() {
    let limit = Limit::allowance(word(10), 100);
    let mut state = LimitState::default();

    LimitEngine::check_and_update(&limit, &mut state, word(10), 50).unwrap();
    assert_eq!(state.last_window, 0);

    LimitEngine::check_and_update(&limit, &mut state, word(10), 500).unwrap();
    assert_eq!(state.used, word(10));
    assert_eq!(state.last_window, 5);
}

#[test]
fn allowance_zero_period_errors() {
    let limit = Limit::allowance(word(10), 0);
    let mut state = LimitState::default();
    assert_eq!(
        LimitEngine::check_and_update(&limit, &mut state, word(1), 0),
        Err(LimitError::ZeroPeriod)
    );
}

#[test]
fn lifetime_zero_amount_succeeds() {
    let limit = Limit::lifetime(word(0));
    let mut state = LimitState::default();
    LimitEngine::check_and_update(&limit, &mut state, U256::zero(), 0).unwrap();
    assert!(LimitEngine::check_and_update(&limit, &mut state, word(1), 0).is_err());
}

#[test]
fn refused_amount_leaves_lifetime_state() {
    let limit = Limit::lifetime(word(10));
    let mut state = LimitState { used: word(7), last_window: 3 };
    assert!(LimitEngine::check_and_update(&limit, &mut state, word(4), 100).is_err());
    assert_eq!(state, LimitState { used: word(7), last_window: 3 });
}

#[test]
fn extract_argument_basic() {
    let calldata = make_calldata([0xAB, 0xCD, 0x00, 0x00], &[word(42), word(99)]);
    let arg0 = ConstraintEngine::extract_argument(&calldata, 0).unwrap();
    assert_eq!(arg0.to_u256(), word(42));

    let arg1 = ConstraintEngine::extract_argument(&calldata, 1).unwrap();
    assert_eq!(arg1.to_u256(), word(99));
}

#[test]
fn extract_argument_too_short() {
    let calldata = make_calldata([0x00; 4], &[word(1)]);
    assert!(ConstraintEngine::extract_argument(&calldata, 0).is_ok());
    let err = ConstraintEngine::extract_argument(&calldata, 1).unwrap_err();
    assert!(matches!(err, ConstraintError::CalldataTooShort { needed: 68, got: 36 }));
}

#[test]
fn condition_equal() {
    let val = b256_of(10);
    assert!(ConstraintEngine::verify_condition(ConditionType::Equal, val, val).is_ok());

    let other = b256_of(11);
    assert!(ConstraintEngine::verify_condition(ConditionType::Equal, val, other).is_err());
}

#[test]
fn condition_greater() {
    let ten = b256_of(10);
    let five = b256_of(5);

    assert!(ConstraintEngine::verify_condition(ConditionType::Greater, ten, five).is_ok());
    assert!(ConstraintEngine::verify_condition(ConditionType::Greater, five, ten).is_err());
    assert!(ConstraintEngine::verify_condition(ConditionType::Greater, ten, ten).is_err());
}

#[test]
fn condition_less() {
    let ten = b256_of(10);
    let five = b256_of(5);

    assert!(ConstraintEngine::verify_condition(ConditionType::Less, five, ten).is_ok());
    assert!(ConstraintEngine::verify_condition(ConditionType::Less, ten, five).is_err());
    assert!(ConstraintEngine::verify_condition(ConditionType::Less, ten, ten).is_err());
}

#[test]
fn condition_greater_equal() {
    let ten = b256_of(10);
    let five = b256_of(5);

    assert!(ConstraintEngine::verify_condition(ConditionType::GreaterEqual, ten, five).is_ok());
    assert!(ConstraintEngine::verify_condition(ConditionType::GreaterEqual, ten, ten).is_ok());
    assert!(ConstraintEngine::verify_condition(ConditionType::GreaterEqual, five, ten).is_err());
}

#[test]
fn condition_less_equal() {
    let ten = b256_of(10);
    let five = b256_of(5);

    assert!(ConstraintEngine::verify_condition(ConditionType::LessEqual, five, ten).is_ok());
    assert!(ConstraintEngine::verify_condition(ConditionType::LessEqual, ten, ten).is_ok());
    assert!(ConstraintEngine::verify_condition(ConditionType::LessEqual, ten, five).is_err());
}

#[test]
fn condition_not_equal() {
    let ten = b256_of(10);
    let five = b256_of(5);

    assert!(ConstraintEngine::verify_condition(ConditionType::NotEqual, ten, five).is_ok());
    assert!(ConstraintEngine::verify_condition(ConditionType::NotEqual, ten, ten).is_err());
}

#[test]
fn condition_unconstrained_always_passes() {
    let any = B256::from_u256(&U256::max_value());
    let zero = B256::zero();
    assert!(ConstraintEngine::verify_condition(ConditionType::Unconstrained, any, zero).is_ok());
}

#[test]
fn condition_compares_words_not_low_bytes() {
    // 2^64 is greater than 1 although its lowest byte is zero.
    let big = B256::from_u256(&U256 { l0: 0, l1: 1, l2: 0, l3: 0 });
    let one = b256_of(1);
    assert!(ConstraintEngine::verify_condition(ConditionType::Greater, big, one).is_ok());
    assert!(ConstraintEngine::verify_condition(ConditionType::Less, big, one).is_err());
}

#[test]
fn verify_constraint_full() {
    let constraint = Constraint {
        index: 1,
        condition: ConditionType::LessEqual,
        ref_value: b256_of(1000),
        limit: Limit::lifetime(word(5000)),
    };

    let calldata = make_calldata([0x12, 0x34, 0x56, 0x78], &[word(1), word(500)]);
    let mut state = LimitState::default();

    ConstraintEngine::verify_constraint(&constraint, &calldata, &mut state, 0).unwrap();
    assert_eq!(state.used, word(500));

    ConstraintEngine::verify_constraint(&constraint, &calldata, &mut state, 0).unwrap();
    assert_eq!(state.used, word(1000));
}

#[test]
fn verify_constraint_condition_fails() {
    let constraint = Constraint {
        index: 0,
        condition: ConditionType::Equal,
        ref_value: b256_of(42),
        limit: Limit::unlimited(),
    };

    let calldata = make_calldata([0x00; 4], &[word(99)]);
    let mut state = LimitState::default();

    let err = ConstraintEngine::verify_constraint(&constraint, &calldata, &mut state, 0).unwrap_err();
    assert!(matches!(err, ConstraintError::ConditionFailed { .. }));
}

#[test]
fn verify_constraint_limit_exceeded() {
    let constraint = Constraint {
        index: 0,
        condition: ConditionType::Unconstrained,
        ref_value: B256::zero(),
        limit: Limit::lifetime(word(100)),
    };

    let calldata = make_calldata([0x00; 4], &[word(101)]);
    let mut state = LimitState::default();

    let err = ConstraintEngine::verify_constraint(&constraint, &calldata, &mut state, 0).unwrap_err();
    assert!(matches!(err, ConstraintError::LimitError(_)));
}

#[test]
fn condition_type_from_u8_all() {
    assert_eq!(ConditionType::from_u8(0), Some(ConditionType::Unconstrained));
    assert_eq!(ConditionType::from_u8(1), Some(ConditionType::Equal));
    assert_eq!(ConditionType::from_u8(2), Some(ConditionType::Greater));
    assert_eq!(ConditionType::from_u8(3), Some(ConditionType::Less));
    assert_eq!(ConditionType::from_u8(4), Some(ConditionType::GreaterEqual));
    assert_eq!(ConditionType::from_u8(5), Some(ConditionType::LessEqual));
    assert_eq!(ConditionType::from_u8(6), Some(ConditionType::NotEqual));
    assert_eq!(ConditionType::from_u8(7), None);
}

#[test]
fn word_byte_conversions_roundtrip() {
    let h = B256::from([0x5a; 32]);
    assert_eq!(B256::from_u256(&h.to_u256()), h);
    let w = U256 { l0: 1, l1: 2, l2: 3, l3: 4 };
    assert_eq!(B256::from_u256(&w).to_u256(), w);
}

#[test]
fn lifetime_sum_above_cap_is_refused_without_wrapping() {
    let limit = Limit::lifetime(word(100));
    let mut state = LimitState { used: word(1), last_window: 0 };
    let err = LimitEngine::check_and_update(&limit, &mut state, U256::max_value(), 0).unwrap_err();
    assert_eq!(err, LimitError::Exceeded { used: word(1), amount: U256::max_value(), limit: word(100) });
    assert_eq!(state, LimitState { used: word(1), last_window: 0 });
}

#[test]
fn allowance_sum_above_cap_is_refused_without_wrapping() {
    let limit = Limit::allowance(word(100), 10);
    let mut state = LimitState { used: word(1), last_window: 0 };
    let err = LimitEngine::check_and_update(&limit, &mut state, U256::max_value(), 5).unwrap_err();
    assert_eq!(err, LimitError::Exceeded { used: word(1), amount: U256::max_value(), limit: word(100) });
    assert_eq!(state, LimitState { used: word(1), last_window: 0 });
}

#[test]
fn lifetime_reaches_cap_of_max_word() {
    let limit = Limit::lifetime(U256::max_value());
    let mut state = LimitState { used: word(1), last_window: 0 };
    let amount = U256::max_value().wrapping_sub(&word(1));
    LimitEngine::check_and_update(&limit, &mut state, amount, 0).unwrap();
    assert_eq!(state.used, U256::max_value());
    assert!(LimitEngine::check_and_update(&limit, &mut state, word(1), 0).is_err());
}

#[test]
fn basis_points_exceed_exact_values() {
    // 1001 * 10000 / 10000 = 1001 > 1000; 1000 is not.
    assert!(basis_points_exceed(&word(1001), &word(10_000), 1000));
    assert!(!basis_points_exceed(&word(1000), &word(10_000), 1000));
    // 10 bps of 3: 1 * 10000 / 3 = 3333.
    assert!(basis_points_exceed(&word(1), &word(3), 10));
    // Rounding down: 5 * 10000 / 9999 = 5 (not above 5), 6 * 10000 / 9999 = 6.
    assert!(!basis_points_exceed(&word(5), &word(9_999), 5));
    assert!(basis_points_exceed(&word(6), &word(9_999), 5));
    // No wrapping on huge moves: 2^255 * 10000 / 1 is far above 50.
    let half = U256 { l0: 0, l1: 0, l2: 0, l3: 0x8000_0000_0000_0000 };
    assert!(basis_points_exceed(&half, &word(1), 50));
    // The maximal word against itself moves 10000 bps.
    assert!(basis_points_exceed(&U256::max_value(), &U256::max_value(), 1000));
    assert!(!basis_points_exceed(&U256::zero(), &U256::max_value(), 0));
}
