//! Oracle confidence levels.

use vstd::prelude::*;

verus! {

/// Confidence level for oracle price data.
///
/// Assigned based on source count and price spread.
#[derive(Debug, Clone, Copy, PartialEq, Eq, Structural, PartialOrd, Ord, Hash)]
pub enum Confidence {
    /// Spread <= 10bps, sources >= 3.
    High,
    /// Spread <= 50bps, sources >= 3.
    Medium,
    /// Spread > 50bps OR sources < 3.
    Degraded,
    /// All sources down, no current data.
    Unavailable,
}

/// The confidence level with code `v`, if any (codes 0 to 3).
pub open spec fn confidence_of_code(v: u8) -> Option<Confidence> {
    if v == 0 {
        Some(Confidence::High)
    } else if v == 1 {
        Some(Confidence::Medium)
    } else if v == 2 {
        Some(Confidence::Degraded)
    } else if v == 3 {
        Some(Confidence::Unavailable)
    } else {
        None
    }
}

/// The worse of two confidence levels: the one with the higher code.
pub open spec fn worse_of(a: Confidence, b: Confidence) -> Confidence {
    if a.code() > b.code() {
        a
    } else {
        b
    }
}

impl Confidence {
    /// The numeric code of the level; higher is worse.
    pub open spec fn code(self) -> u8 {
        match self {
            Confidence::High => 0,
            Confidence::Medium => 1,
            Confidence::Degraded => 2,
            Confidence::Unavailable => 3,
        }
    }

    /// Try to convert a `u8` into a [`Confidence`].
    pub fn from_u8(v: u8) -> (r: Option<Confidence>)
        ensures
            r == confidence_of_code(v),
    {
        match v {
            0 => Some(Confidence::High),
            1 => Some(Confidence::Medium),
            2 => Some(Confidence::Degraded),
            3 => Some(Confidence::Unavailable),
            _ => None,
        }
    }

    /// Returns the `u8` value.
    pub fn as_u8(self) -> (r: u8)
        ensures
            r == self.code(),
    {
        match self {
            Confidence::High => 0,
            Confidence::Medium => 1,
            Confidence::Degraded => 2,
            Confidence::Unavailable => 3,
        }
    }

    /// Returns the worse (higher numeric value) of two confidence levels.
    pub fn worse(self, other: Confidence) -> (r: Confidence)
        ensures
            r == worse_of(self, other),
    {
        if self.as_u8() > other.as_u8() {
            self
        } else {
            other
        }
    }
}

/// Converting a level to its code and back gives the level.
pub proof fn lemma_confidence_code_roundtrip(c: Confidence)
    ensures
        confidence_of_code(c.code()) == Some(c),
        c.code() <= 3,
{
}

/// `worse` is commutative, associative and idempotent, and never improves either
/// level: degrading a confidence can only keep it or make it worse.
pub proof fn lemma_worse_laws(a: Confidence, b: Confidence, c: Confidence)
    ensures
        worse_of(a, b) == worse_of(b, a),
        worse_of(worse_of(a, b), c) == worse_of(a, worse_of(b, c)),
        worse_of(a, a) == a,
        worse_of(a, b).code() >= a.code(),
        worse_of(a, b).code() >= b.code(),
        worse_of(a, b) == a || worse_of(a, b) == b,
{
}

} // verus!
