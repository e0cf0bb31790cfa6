//! Limit model: the shared rate-limiting primitive for session keys and gas sponsors.

use vstd::prelude::*;

use vstd::string::StringExecFns;

use crate::text::{append_word_decimal, decimal};
use crate::word::{U256, lemma_word_bound, lemma_word_of, word_of};

verus! {

/// Limit type discriminant.
#[derive(Debug, Clone, Copy, PartialEq, Eq, Structural, Hash)]
pub enum LimitType {
    /// No restriction.
    Unlimited,
    /// Cumulative cap over entire lifetime.
    Lifetime,
    /// Refilling cap per time period.
    Allowance,
}

impl LimitType {
    /// Try to convert a `u8` into a [`LimitType`].
    pub fn from_u8(v: u8) -> (r: Option<LimitType>)
        ensures
            r == (if v == 0 {
                Some(LimitType::Unlimited)
            } else if v == 1 {
                Some(LimitType::Lifetime)
            } else if v == 2 {
                Some(LimitType::Allowance)
            } else {
                None
            }),
    {
        match v {
            0 => Some(LimitType::Unlimited),
            1 => Some(LimitType::Lifetime),
            2 => Some(LimitType::Allowance),
            _ => None,
        }
    }
}

/// A limit configuration.
#[derive(Debug, Clone, Copy, PartialEq, Eq, Structural)]
pub struct Limit {
    /// Unlimited, Lifetime or Allowance.
    pub limit_type: LimitType,
    /// Quantity cap.
    pub limit: U256,
    /// Allowance only: refill period in seconds.
    pub period: u64,
}

impl Limit {
    /// Creates an unlimited limit.
    pub fn unlimited() -> (r: Limit)
        ensures
            r.limit_type == LimitType::Unlimited,
            r.limit@ == 0,
            r.period == 0,
    {
        Limit { limit_type: LimitType::Unlimited, limit: U256::zero(), period: 0 }
    }

    /// Creates a lifetime limit.
    pub fn lifetime(limit: U256) -> (r: Limit)
        ensures
            r == (Limit { limit_type: LimitType::Lifetime, limit, period: 0 }),
    {
        Limit { limit_type: LimitType::Lifetime, limit, period: 0 }
    }

    /// Creates an allowance limit with given period (seconds).
    pub fn allowance(limit: U256, period: u64) -> (r: Limit)
        ensures
            r == (Limit { limit_type: LimitType::Allowance, limit, period }),
    {
        Limit { limit_type: LimitType::Allowance, limit, period }
    }
}

/// Mutable on-chain state for a limit.
#[derive(Debug, Clone, Copy, PartialEq, Eq, Structural)]
pub struct LimitState {
    /// Amount consumed in the current window or lifetime.
    pub used: U256,
    /// Allowance mode: last reset window number.
    pub last_window: u64,
}

impl Default for LimitState {
    fn default() -> (r: LimitState)
        ensures
            r.used@ == 0,
            r.last_window == 0,
    {
        LimitState { used: U256::zero(), last_window: 0 }
    }
}

/// Errors returned by the [`LimitEngine`].
#[derive(Debug, Clone, Copy, PartialEq, Eq, Structural)]
pub enum LimitError {
    /// The requested amount would exceed the limit.
    Exceeded {
        /// Amount already used.
        used: U256,
        /// Amount being requested.
        amount: U256,
        /// Configured limit cap.
        limit: U256,
    },
    /// Period is zero for an allowance limit (invalid config).
    ZeroPeriod,
}

/// One limit check: the result, then the `used` amount and the last window that
/// the state holds afterwards.
///
/// - Unlimited: always passes, state unchanged.
/// - Lifetime: passes when `used + amount` stays within the cap, and then
///   records the sum; otherwise fails, state unchanged.
/// - Allowance: fails on a zero period. Otherwise the window is
///   `timestamp / period`; entering a new window first resets `used` to 0 (this
///   reset persists even when the check then fails); then as Lifetime.
pub open spec fn limit_step(limit: Limit, state: LimitState, amount: nat, ts: u64) -> (
    Result<(), LimitError>,
    nat,
    u64,
) {
    match limit.limit_type {
        LimitType::Unlimited => (Ok(()), state.used@, state.last_window),
        LimitType::Lifetime => {
            let total = state.used@ + amount;
            if total > limit.limit@ {
                (
                    Err(
                        LimitError::Exceeded {
                            used: state.used,
                            amount: word_of(amount),
                            limit: limit.limit,
                        },
                    ),
                    state.used@,
                    state.last_window,
                )
            } else {
                (Ok(()), total, state.last_window)
            }
        },
        LimitType::Allowance => {
            if limit.period == 0 {
                (Err(LimitError::ZeroPeriod), state.used@, state.last_window)
            } else {
                let window = (ts / limit.period) as u64;
                let base: nat = if state.last_window != window {
                    0
                } else {
                    state.used@
                };
                let total = base + amount;
                if total > limit.limit@ {
                    (
                        Err(
                            LimitError::Exceeded {
                                used: word_of(base),
                                amount: word_of(amount),
                                limit: limit.limit,
                            },
                        ),
                        base,
                        window,
                    )
                } else {
                    (Ok(()), total, window)
                }
            }
        },
    }
}

/// `used + amount` when it is at most `cap`, computed without overflow.
fn sum_within(used: &U256, amount: &U256, cap: &U256) -> (r: Option<U256>)
    ensures
        used@ + amount@ <= cap@ ==> (r matches Some(w) && w@ == used@ + amount@),
        used@ + amount@ > cap@ ==> r is None,
{
    proof {
        lemma_word_bound(*cap);
    }
    if used.gt(cap) {
        return None;
    }
    let room = cap.wrapping_sub(used);
    if amount.gt(&room) {
        return None;
    }
    Some(used.wrapping_add(amount))
}

/// Engine for checking and updating limits.
#[derive(Debug)]
pub struct LimitEngine;

impl LimitEngine {
    /// Check whether `amount` is within the limit and, if so, update `state` in place.
    ///
    /// `block_timestamp` is the current block's unix timestamp (seconds).
    pub fn check_and_update(
        limit: &Limit,
        state: &mut LimitState,
        amount: U256,
        block_timestamp: u64,
    ) -> (r: Result<(), LimitError>)
        ensures
            r == limit_step(*limit, *old(state), amount@, block_timestamp).0,
            final(state).used@ == limit_step(*limit, *old(state), amount@, block_timestamp).1,
            final(state).last_window == limit_step(
                *limit,
                *old(state),
                amount@,
                block_timestamp,
            ).2,
            // A capped limit that passes never holds more than its cap.
            r is Ok && limit.limit_type != LimitType::Unlimited ==> final(state).used@
                <= limit.limit@,
    {
        proof {
            lemma_word_of(amount);
        }
        match limit.limit_type {
            LimitType::Unlimited => Ok(()),
            LimitType::Lifetime => {
                match sum_within(&state.used, &amount, &limit.limit) {
                    Some(new_used) => {
                        state.used = new_used;
                        Ok(())
                    },
                    None => Err(
                        LimitError::Exceeded { used: state.used, amount, limit: limit.limit },
                    ),
                }
            },
            LimitType::Allowance => {
                if limit.period == 0 {
                    return Err(LimitError::ZeroPeriod);
                }
                let current_window = block_timestamp / limit.period;
                if state.last_window != current_window {
                    // Window transition: reset usage.
                    state.used = U256::zero();
                    state.last_window = current_window;
                }
                proof {
                    lemma_word_of(state.used);
                }
                match sum_within(&state.used, &amount, &limit.limit) {
                    Some(new_used) => {
                        state.used = new_used;
                        Ok(())
                    },
                    None => Err(
                        LimitError::Exceeded { used: state.used, amount, limit: limit.limit },
                    ),
                }
            },
        }
    }
}

/// The message of a limit error.
pub open spec fn limit_error_text(e: LimitError) -> Seq<char> {
    match e {
        LimitError::Exceeded { used, amount, limit } => "limit exceeded: used "@ + decimal(used@)
            + " + amount "@ + decimal(amount@) + " > limit "@ + decimal(limit@),
        LimitError::ZeroPeriod => "allowance limit has zero period"@,
    }
}

impl LimitError {
    /// The error's message.
    pub fn message(&self) -> (r: String)
        ensures
            r@ == limit_error_text(*self),
    {
        match self {
            LimitError::Exceeded { used, amount, limit } => {
                let mut m = String::from_str("limit exceeded: used ");
                append_word_decimal(&mut m, used);
                m.append(" + amount ");
                append_word_decimal(&mut m, amount);
                m.append(" > limit ");
                append_word_decimal(&mut m, limit);
                m
            },
            LimitError::ZeroPeriod => String::from_str("allowance limit has zero period"),
        }
    }
}

/// A lifetime limit never resets: the check is the same at every timestamp.
pub proof fn lemma_lifetime_ignores_time(
    limit: Limit,
    state: LimitState,
    amount: nat,
    t1: u64,
    t2: u64,
)
    requires
        limit.limit_type == LimitType::Lifetime,
    ensures
        limit_step(limit, state, amount, t1) == limit_step(limit, state, amount, t2),
{
}

/// A refused check of a lifetime limit leaves its state as it was.
pub proof fn lemma_lifetime_refusal_keeps_state(limit: Limit, state: LimitState, amount: nat, ts: u64)
    requires
        limit.limit_type == LimitType::Lifetime,
        limit_step(limit, state, amount, ts).0 is Err,
    ensures
        limit_step(limit, state, amount, ts).1 == state.used@,
        limit_step(limit, state, amount, ts).2 == state.last_window,
{
}

} // verus!
