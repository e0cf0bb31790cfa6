//! Circuit breaker logic for oracle price updates.
//!
//! Forces confidence to `Degraded` when a price moves more than
//! `CIRCUIT_BREAKER_BPS` (10%) relative to any of the last
//! `CIRCUIT_BREAKER_WINDOW` (5) recorded prices.

use vstd::prelude::*;

use crate::primitives::confidence::{Confidence, worse_of};
use crate::primitives::constants::{CIRCUIT_BREAKER_BPS, CIRCUIT_BREAKER_WINDOW};
use crate::word::{U256, basis_points_exceed};

verus! {

/// The move of `new` relative to `reference` in basis points, rounded down:
/// `|new - reference| * 10000 / reference`.
pub open spec fn move_bps(new: nat, reference: nat) -> nat {
    let delta: nat = if new > reference {
        (new - reference) as nat
    } else {
        (reference - new) as nat
    };
    (delta * 10000) / reference
}

/// Whether a new price trips the breaker against a window of recorded prices:
/// it is non-zero and moved more than `CIRCUIT_BREAKER_BPS` against some
/// non-zero recorded price.
pub open spec fn trips(new_price: nat, recent: Seq<(U256, u64)>) -> bool {
    new_price != 0 && exists|i: int|
        0 <= i < recent.len() && (#[trigger] recent[i]).0@ != 0 && move_bps(new_price, recent[i].0@)
            > CIRCUIT_BREAKER_BPS
}

/// Maintains a sliding window of recent prices per asset for circuit breaker checks.
#[derive(Debug)]
pub struct CircuitBreaker {
    /// Recent prices, oldest first. Entries are `(price, block_number)`.
    recent: Vec<(U256, u64)>,
    /// Max entries to keep.
    window: usize,
}

impl CircuitBreaker {
    /// The window holds at most `CIRCUIT_BREAKER_WINDOW` entries.
    #[verifier::type_invariant]
    spec fn window_bounded(self) -> bool {
        &&& self.window == CIRCUIT_BREAKER_WINDOW
        &&& self.recent@.len() <= CIRCUIT_BREAKER_WINDOW
    }

    /// The recorded `(price, block_number)` entries, oldest first.
    pub closed spec fn entries(&self) -> Seq<(U256, u64)> {
        self.recent@
    }

    /// Creates a new circuit breaker with the default window size.
    pub fn new() -> (r: CircuitBreaker)
        ensures
            r.entries() == Seq::<(U256, u64)>::empty(),
    {
        CircuitBreaker { recent: Vec::new(), window: CIRCUIT_BREAKER_WINDOW as usize }
    }

    /// Checks whether the new price triggers the circuit breaker.
    ///
    /// Returns `true` if the price moved more than `CIRCUIT_BREAKER_BPS` relative
    /// to any entry in the window, meaning confidence should be forced to `Degraded`.
    pub fn is_triggered(&self, new_price: U256) -> (r: bool)
        ensures
            r == trips(new_price@, self.entries()),
    {
        if new_price.is_zero() {
            return false;
        }
        let mut i: usize = 0;
        while i < self.recent.len()
            invariant
                0 <= i <= self.recent@.len(),
                new_price@ != 0,
                forall|j: int|
                    0 <= j < i ==> !((#[trigger] self.recent@[j]).0@ != 0 && move_bps(
                        new_price@,
                        self.recent@[j].0@,
                    ) > CIRCUIT_BREAKER_BPS),
            decreases self.recent@.len() - i,
        {
            let ref_price = self.recent[i].0;
            if !ref_price.is_zero() {
                let delta = if new_price.gt(&ref_price) {
                    new_price.wrapping_sub(&ref_price)
                } else {
                    ref_price.wrapping_sub(&new_price)
                };
                if basis_points_exceed(&delta, &ref_price, CIRCUIT_BREAKER_BPS) {
                    assert(self.recent@[i as int].0@ != 0);
                    return true;
                }
            }
            i += 1;
        }
        false
    }

    /// Applies the circuit breaker check and adjusts confidence if triggered.
    ///
    /// Returns the (possibly degraded) confidence level.
    pub fn apply(&self, new_price: U256, confidence: Confidence) -> (r: Confidence)
        ensures
            r == if trips(new_price@, self.entries()) {
                worse_of(confidence, Confidence::Degraded)
            } else {
                confidence
            },
    {
        if self.is_triggered(new_price) {
            confidence.worse(Confidence::Degraded)
        } else {
            confidence
        }
    }

    /// Records a price observation, dropping the oldest entry once the window is full.
    pub fn record(&mut self, price: U256, block_number: u64)
        ensures
            final(self).entries() == (if old(self).entries().len() >= CIRCUIT_BREAKER_WINDOW {
                old(self).entries().subrange(1, old(self).entries().len() as int)
            } else {
                old(self).entries()
            }).push((price, block_number)),
            final(self).entries().len() <= CIRCUIT_BREAKER_WINDOW,
    {
        proof {
            use_type_invariant(&*self);
        }
        let mut recent: Vec<(U256, u64)> = Vec::new();
        std::mem::swap(&mut recent, &mut self.recent);
        if recent.len() >= self.window {
            recent.remove(0);
        }
        recent.push((price, block_number));
        self.recent = recent;
    }

    /// Returns the number of entries currently in the window.
    pub fn len(&self) -> (r: usize)
        ensures
            r == self.entries().len(),
            r <= CIRCUIT_BREAKER_WINDOW,
    {
        proof {
            use_type_invariant(self);
        }
        self.recent.len()
    }

    /// Returns `true` if the window has no entries.
    pub fn is_empty(&self) -> (r: bool)
        ensures
            r == (self.entries().len() == 0),
    {
        self.recent.len() == 0
    }
}

impl Clone for CircuitBreaker {
    fn clone(&self) -> (r: CircuitBreaker)
        ensures
            r.entries() == self.entries(),
    {
        proof {
            use_type_invariant(self);
        }
        let mut recent: Vec<(U256, u64)> = Vec::new();
        let mut i: usize = 0;
        while i < self.recent.len()
            invariant
                0 <= i <= self.recent@.len(),
                self.recent@.len() <= CIRCUIT_BREAKER_WINDOW,
                recent@ == self.recent@.subrange(0, i as int),
            decreases self.recent@.len() - i,
        {
            recent.push(self.recent[i]);
            i += 1;
            assert(recent@ =~= self.recent@.subrange(0, i as int));
        }
        assert(recent@ =~= self.recent@);
        CircuitBreaker { recent, window: self.window }
    }
}

impl Default for CircuitBreaker {
    fn default() -> (r: CircuitBreaker)
        ensures
            r.entries() == Seq::<(U256, u64)>::empty(),
    {
        CircuitBreaker::new()
    }
}

/// The breaker looks at the whole window: a non-zero new price trips it as
/// soon as it moved more than `CIRCUIT_BREAKER_BPS` basis points against any
/// one non-zero recorded price, wherever that price sits in the window; and it
/// trips only then.
pub proof fn lemma_trips_on_any_entry(new_price: nat, recent: Seq<(U256, u64)>)
    ensures
        trips(new_price, recent) <==> new_price != 0 && exists|i: int|
            #![trigger recent[i]]
            0 <= i < recent.len() && recent[i].0@ != 0 && (if new_price >= recent[i].0@ {
                new_price - recent[i].0@
            } else {
                recent[i].0@ - new_price
            }) * 10000 / (recent[i].0@ as int) > 1000,
{
    assert forall|i: int| 0 <= i < recent.len() implies move_bps(new_price, #[trigger] recent[i].0@)
        == (if new_price >= recent[i].0@ {
        new_price - recent[i].0@
    } else {
        recent[i].0@ - new_price
    }) * 10000 / (recent[i].0@ as int) by {}
}

/// Recording a price never hides an earlier one that is still in the window:
/// after `record`, a new price that moved too far against any retained entry
/// still trips the breaker.
pub proof fn lemma_trips_after_record(new_price: nat, before: Seq<(U256, u64)>, price: U256, block: u64, i: int)
    requires
        before.len() <= CIRCUIT_BREAKER_WINDOW,
        (if before.len() >= CIRCUIT_BREAKER_WINDOW { 1int } else { 0int }) <= i < before.len(),
        new_price != 0,
        before[i].0@ != 0,
        move_bps(new_price, before[i].0@) > CIRCUIT_BREAKER_BPS,
    ensures
        trips(
            new_price,
            (if before.len() >= CIRCUIT_BREAKER_WINDOW {
                before.subrange(1, before.len() as int)
            } else {
                before
            }).push((price, block)),
        ),
{
    let kept = if before.len() >= CIRCUIT_BREAKER_WINDOW {
        before.subrange(1, before.len() as int)
    } else {
        before
    };
    let j = if before.len() >= CIRCUIT_BREAKER_WINDOW { i - 1 } else { i };
    assert(kept.push((price, block))[j] == before[i]);
}

} // verus!
