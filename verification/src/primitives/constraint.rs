//! Constraint model: per-argument verification for call policies.

use vstd::prelude::*;

use vstd::string::StringExecFns;

use crate::primitives::limit::{Limit, LimitEngine, LimitError, LimitState, limit_error_text, limit_step};
use crate::text::{append_decimal, append_hex, decimal, hex_bytes};
use crate::word::{B256, U256, b256_from_subslice, be_value, bytes_equal};

verus! {

/// Comparison condition for a constraint.
#[derive(Debug, Clone, Copy, PartialEq, Eq, Structural, Hash)]
pub enum ConditionType {
    /// No condition: only the limit is checked.
    Unconstrained,
    /// `arg == ref_value`
    Equal,
    /// `arg > ref_value`
    Greater,
    /// `arg < ref_value`
    Less,
    /// `arg >= ref_value`
    GreaterEqual,
    /// `arg <= ref_value`
    LessEqual,
    /// `arg != ref_value`
    NotEqual,
}

/// The condition's name as `Debug` prints it.
pub open spec fn condition_name(c: ConditionType) -> Seq<char> {
    match c {
        ConditionType::Unconstrained => "Unconstrained"@,
        ConditionType::Equal => "Equal"@,
        ConditionType::Greater => "Greater"@,
        ConditionType::Less => "Less"@,
        ConditionType::GreaterEqual => "GreaterEqual"@,
        ConditionType::LessEqual => "LessEqual"@,
        ConditionType::NotEqual => "NotEqual"@,
    }
}

impl ConditionType {
    /// The condition's name as `Debug` prints it.
    pub fn name(&self) -> (r: &'static str)
        ensures
            r@ == condition_name(*self),
    {
        match self {
            ConditionType::Unconstrained => "Unconstrained",
            ConditionType::Equal => "Equal",
            ConditionType::Greater => "Greater",
            ConditionType::Less => "Less",
            ConditionType::GreaterEqual => "GreaterEqual",
            ConditionType::LessEqual => "LessEqual",
            ConditionType::NotEqual => "NotEqual",
        }
    }

    /// The condition's wire code (0 to 6).
    pub open spec fn code(self) -> u8 {
        match self {
            ConditionType::Unconstrained => 0,
            ConditionType::Equal => 1,
            ConditionType::Greater => 2,
            ConditionType::Less => 3,
            ConditionType::GreaterEqual => 4,
            ConditionType::LessEqual => 5,
            ConditionType::NotEqual => 6,
        }
    }

    /// Try to convert a `u8` into a [`ConditionType`].
    pub fn from_u8(v: u8) -> (r: Option<ConditionType>)
        ensures
            v <= 6 ==> r is Some && r->0.code() == v,
            v > 6 ==> r is None,
    {
        match v {
            0 => Some(ConditionType::Unconstrained),
            1 => Some(ConditionType::Equal),
            2 => Some(ConditionType::Greater),
            3 => Some(ConditionType::Less),
            4 => Some(ConditionType::GreaterEqual),
            5 => Some(ConditionType::LessEqual),
            6 => Some(ConditionType::NotEqual),
            _ => None,
        }
    }
}

/// Whether an argument word satisfies a condition against a reference word;
/// ordered conditions compare the words as big-endian unsigned numbers.
pub open spec fn condition_holds(condition: ConditionType, arg: Seq<u8>, ref_value: Seq<u8>) -> bool {
    match condition {
        ConditionType::Unconstrained => true,
        ConditionType::Equal => arg == ref_value,
        ConditionType::Greater => be_value(arg) > be_value(ref_value),
        ConditionType::Less => be_value(arg) < be_value(ref_value),
        ConditionType::GreaterEqual => be_value(arg) >= be_value(ref_value),
        ConditionType::LessEqual => be_value(arg) <= be_value(ref_value),
        ConditionType::NotEqual => arg != ref_value,
    }
}

/// The byte offset one past the ABI word of argument `index`: `4 + (index + 1) * 32`.
pub open spec fn argument_end(index: u8) -> nat {
    4 + (index as nat + 1) * 32
}

/// The 32-byte argument word a constraint inspects.
pub open spec fn constraint_argument(index: u8, calldata: Seq<u8>) -> Seq<u8> {
    calldata.subrange(argument_end(index) - 32, argument_end(index) as int)
}

/// A constraint on a single calldata argument.
#[derive(Debug, Clone, Copy, PartialEq, Eq)]
pub struct Constraint {
    /// Calldata argument index (0-based).
    pub index: u8,
    /// Comparison condition.
    pub condition: ConditionType,
    /// Reference value for comparison (32 bytes, left-padded).
    pub ref_value: B256,
    /// Cumulative/periodic cap on this argument's value.
    pub limit: Limit,
}

/// Whether a constraint passes on calldata, given the limit state it starts from:
/// the argument is present, meets the condition, and fits the limit.
pub open spec fn constraint_passes(c: Constraint, calldata: Seq<u8>, state: LimitState, ts: u64) -> bool {
    &&& calldata.len() >= argument_end(c.index)
    &&& condition_holds(c.condition, constraint_argument(c.index, calldata), c.ref_value.bytes@)
    &&& limit_step(c.limit, state, be_value(constraint_argument(c.index, calldata)), ts).0 is Ok
}

/// Whether `e` is the error that a failing constraint reports: calldata too
/// short, else the failed condition with the argument, else the limit's error.
pub open spec fn constraint_error(c: Constraint, calldata: Seq<u8>, state: LimitState, ts: u64, e: ConstraintError) -> bool {
    let arg = constraint_argument(c.index, calldata);
    if calldata.len() < argument_end(c.index) {
        e == ConstraintError::CalldataTooShort {
            needed: argument_end(c.index) as usize,
            got: calldata.len() as usize,
        }
    } else if !condition_holds(c.condition, arg, c.ref_value.bytes@) {
        &&& e matches ConstraintError::ConditionFailed { arg: a, condition, ref_value }
        &&& a.bytes@ == arg
        &&& condition == c.condition
        &&& ref_value == c.ref_value
    } else {
        e matches ConstraintError::LimitError(l) && limit_step(c.limit, state, be_value(arg), ts).0
            == Err::<(), LimitError>(l)
    }
}

/// Errors returned by the [`ConstraintEngine`].
#[derive(Debug, Clone, Copy, PartialEq, Eq)]
pub enum ConstraintError {
    /// Calldata too short to extract the argument at the given index.
    CalldataTooShort {
        /// Minimum required calldata length.
        needed: usize,
        /// Actual calldata length.
        got: usize,
    },
    /// The condition comparison failed.
    ConditionFailed {
        /// Extracted argument value.
        arg: B256,
        /// The condition that was not met.
        condition: ConditionType,
        /// Reference value.
        ref_value: B256,
    },
    /// The limit check failed.
    LimitError(LimitError),
}

impl From<LimitError> for ConstraintError {
    fn from(e: LimitError) -> (r: Self) {
        ConstraintError::LimitError(e)
    }
}

impl vstd::std_specs::convert::FromSpecImpl<LimitError> for ConstraintError {
    open spec fn obeys_from_spec() -> bool {
        true
    }

    open spec fn from_spec(e: LimitError) -> Self {
        ConstraintError::LimitError(e)
    }
}

/// The message of a constraint error; a word prints as `0x` and its
/// hexadecimal digits.
pub open spec fn constraint_error_text(e: ConstraintError) -> Seq<char> {
    match e {
        ConstraintError::CalldataTooShort { needed, got } => "calldata too short: need "@ + decimal(
            needed as nat,
        ) + " bytes, got "@ + decimal(got as nat),
        ConstraintError::ConditionFailed { arg, condition, ref_value } => "condition failed: arg 0x"@
            + hex_bytes(arg.bytes@) + " "@ + condition_name(condition) + " ref 0x"@ + hex_bytes(
            ref_value.bytes@,
        ),
        ConstraintError::LimitError(l) => "constraint limit error: "@ + limit_error_text(l),
    }
}

impl ConstraintError {
    /// The error's message.
    pub fn message(&self) -> (r: String)
        ensures
            r@ == constraint_error_text(*self),
    {
        match self {
            ConstraintError::CalldataTooShort { needed, got } => {
                let mut m = String::from_str("calldata too short: need ");
                append_decimal(&mut m, *needed as u64);
                m.append(" bytes, got ");
                append_decimal(&mut m, *got as u64);
                m
            },
            ConstraintError::ConditionFailed { arg, condition, ref_value } => {
                let mut m = String::from_str("condition failed: arg 0x");
                append_hex(&mut m, &arg.bytes);
                m.append(" ");
                m.append(condition.name());
                m.append(" ref 0x");
                append_hex(&mut m, &ref_value.bytes);
                m
            },
            ConstraintError::LimitError(l) => {
                let mut m = String::from_str("constraint limit error: ");
                let t = l.message();
                m.append(t.as_str());
                m
            },
        }
    }
}

/// Engine for verifying constraints on calldata arguments.
#[derive(Debug)]
pub struct ConstraintEngine;

impl ConstraintEngine {
    /// Extract the ABI-encoded argument at `index` from `calldata`.
    ///
    /// Calldata layout: `[0..4]` = selector, then 32-byte words.
    /// `arg[index]` = `calldata[4 + index * 32 .. 4 + (index + 1) * 32]`
    pub fn extract_argument(calldata: &[u8], index: u8) -> (r: Result<B256, ConstraintError>)
        ensures
            calldata@.len() < argument_end(index) ==> r == Err::<B256, ConstraintError>(
                ConstraintError::CalldataTooShort {
                    needed: argument_end(index) as usize,
                    got: calldata@.len() as usize,
                },
            ),
            calldata@.len() >= argument_end(index) ==> r is Ok && r->Ok_0.bytes@ == calldata@.subrange(
                argument_end(index) - 32,
                argument_end(index) as int,
            ),
    {
        let start: usize = 4 + (index as usize) * 32;
        let end: usize = start + 32;
        if calldata.len() < end {
            return Err(ConstraintError::CalldataTooShort { needed: end, got: calldata.len() });
        }
        Ok(b256_from_subslice(calldata, start))
    }

    /// Verify the condition of a constraint against a calldata argument.
    pub fn verify_condition(condition: ConditionType, arg: B256, ref_value: B256) -> (r: Result<
        (),
        ConstraintError,
    >)
        ensures
            r == if condition_holds(condition, arg.bytes@, ref_value.bytes@) {
                Ok::<(), ConstraintError>(())
            } else {
                Err(ConstraintError::ConditionFailed { arg, condition, ref_value })
            },
    {
        // Interpret as numbers for ordered comparisons.
        let arg_u256 = arg.to_u256();
        let ref_u256 = ref_value.to_u256();

        let passed = match condition {
            ConditionType::Unconstrained => true,
            ConditionType::Equal => bytes_equal(&arg.bytes, &ref_value.bytes),
            ConditionType::Greater => arg_u256.gt(&ref_u256),
            ConditionType::Less => arg_u256.lt(&ref_u256),
            ConditionType::GreaterEqual => arg_u256.ge(&ref_u256),
            ConditionType::LessEqual => arg_u256.le(&ref_u256),
            ConditionType::NotEqual => !bytes_equal(&arg.bytes, &ref_value.bytes),
        };

        if passed {
            Ok(())
        } else {
            Err(ConstraintError::ConditionFailed { arg, condition, ref_value })
        }
    }

    /// Verify a single constraint against calldata and update the limit state.
    ///
    /// Steps:
    /// 1. Extract the argument at the specified index.
    /// 2. Check the condition.
    /// 3. Check and update the limit, with the argument's value as the amount.
    pub fn verify_constraint(
        constraint: &Constraint,
        calldata: &[u8],
        limit_state: &mut LimitState,
        block_timestamp: u64,
    ) -> (r: Result<(), ConstraintError>)
        ensures
            (r is Ok) == constraint_passes(*constraint, calldata@, *old(limit_state), block_timestamp),
            r matches Err(e) ==> constraint_error(
                *constraint,
                calldata@,
                *old(limit_state),
                block_timestamp,
                e,
            ),
            calldata@.len() < argument_end(constraint.index) ==> r == Err::<(), ConstraintError>(
                ConstraintError::CalldataTooShort {
                    needed: argument_end(constraint.index) as usize,
                    got: calldata@.len() as usize,
                },
            ) && *final(limit_state) == *old(limit_state),
            calldata@.len() >= argument_end(constraint.index) ==> ({
                let arg = calldata@.subrange(
                    argument_end(constraint.index) - 32,
                    argument_end(constraint.index) as int,
                );
                let step = limit_step(constraint.limit, *old(limit_state), be_value(arg), block_timestamp);
                if !condition_holds(constraint.condition, arg, constraint.ref_value.bytes@) {
                    &&& r matches Err(ConstraintError::ConditionFailed { arg: a, condition, ref_value })
                    &&& a.bytes@ == arg
                    &&& condition == constraint.condition
                    &&& ref_value == constraint.ref_value
                    &&& *final(limit_state) == *old(limit_state)
                } else {
                    &&& (step.0 is Ok ==> r is Ok)
                    &&& (step.0 matches Err(e) ==> r == Err::<(), ConstraintError>(ConstraintError::LimitError(e)))
                    &&& final(limit_state).used@ == step.1
                    &&& final(limit_state).last_window == step.2
                }
            }),
    {
        let arg = match Self::extract_argument(calldata, constraint.index) {
            Ok(a) => a,
            Err(e) => return Err(e),
        };
        match Self::verify_condition(constraint.condition, arg, constraint.ref_value) {
            Ok(()) => {},
            Err(e) => return Err(e),
        }
        // Use the argument value as the "amount" for the limit check.
        let amount: U256 = arg.to_u256();
        match LimitEngine::check_and_update(&constraint.limit, limit_state, amount, block_timestamp) {
            Ok(()) => Ok(()),
            Err(e) => Err(ConstraintError::LimitError(e)),
        }
    }
}

/// What each condition asks of an argument word against the reference word:
/// `Greater` and `Less` (and their `Equal` forms) compare the words as
/// big-endian numbers, `Equal` and `NotEqual` compare them byte for byte, and
/// `Unconstrained` always holds. The ordered conditions are complements and
/// mirror images of each other.
pub proof fn lemma_condition_meaning(arg: Seq<u8>, ref_value: Seq<u8>)
    ensures
        condition_holds(ConditionType::Unconstrained, arg, ref_value),
        condition_holds(ConditionType::Equal, arg, ref_value) <==> arg == ref_value,
        condition_holds(ConditionType::NotEqual, arg, ref_value) <==> arg != ref_value,
        condition_holds(ConditionType::Greater, arg, ref_value) <==> be_value(arg) > be_value(ref_value),
        condition_holds(ConditionType::Less, arg, ref_value) <==> be_value(arg) < be_value(ref_value),
        condition_holds(ConditionType::GreaterEqual, arg, ref_value) <==> be_value(arg) >= be_value(ref_value),
        condition_holds(ConditionType::LessEqual, arg, ref_value) <==> be_value(arg) <= be_value(ref_value),
        condition_holds(ConditionType::GreaterEqual, arg, ref_value) <==> !condition_holds(ConditionType::Less, arg, ref_value),
        condition_holds(ConditionType::LessEqual, arg, ref_value) <==> !condition_holds(ConditionType::Greater, arg, ref_value),
        condition_holds(ConditionType::Greater, arg, ref_value) <==> condition_holds(ConditionType::Less, ref_value, arg),
{
}

} // verus!
