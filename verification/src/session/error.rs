//! Session precompile errors.

use vstd::prelude::*;

use vstd::string::StringExecFns;

use crate::primitives::constraint::{ConstraintError, constraint_error_text};
use crate::primitives::limit::{LimitError, limit_error_text};
use crate::text::{address_display, address_text, append_decimal, append_hex, append_word_decimal, decimal, hex_bytes};
use crate::word::{Address, B256, Selector, U256};

verus! {

/// Errors returned by session precompile operations.
#[derive(Debug, Clone, Copy, PartialEq, Eq)]
pub enum SessionPrecompileError {
    /// Session hash not found.
    SessionNotFound {
        /// The session hash.
        hash: B256,
    },
    /// Session has been revoked.
    SessionRevoked {
        /// The session hash.
        hash: B256,
    },
    /// Session has expired.
    SessionExpired {
        /// The session hash.
        hash: B256,
    },
    /// Caller is not the session's authorizer.
    NotAuthorizer {
        /// Expected authorizer.
        expected: Address,
        /// Actual caller.
        actual: Address,
    },
    /// Maximum sessions per account reached.
    MaxSessionsReached {
        /// The authorizer address.
        authorizer: Address,
    },
    /// Session nonce mismatch.
    NonceMismatch {
        /// Expected nonce.
        expected: u64,
        /// Actual nonce from tx.
        actual: u64,
    },
    /// Session hash does not match the provided config.
    HashMismatch {
        /// Expected hash (from on-chain record).
        expected: B256,
        /// Actual hash (computed from provided config).
        actual: B256,
    },
    /// Call target/selector not allowed by the session's call policies.
    CallNotAllowed {
        /// Target contract.
        target: Address,
        /// Function selector.
        selector: Selector,
    },
    /// Transfer target not allowed by the session's transfer policies.
    TransferNotAllowed {
        /// Transfer recipient.
        target: Address,
    },
    /// Native value exceeds per-use maximum.
    ValuePerUseExceeded {
        /// Max allowed per use.
        max: U256,
        /// Actual value.
        actual: U256,
    },
    /// Limit check failed.
    LimitError(LimitError),
    /// Constraint check failed.
    ConstraintError(ConstraintError),
    /// Fee limit exceeded.
    FeeLimitExceeded,
}

impl From<LimitError> for SessionPrecompileError {
    fn from(e: LimitError) -> (r: Self) {
        SessionPrecompileError::LimitError(e)
    }
}

impl vstd::std_specs::convert::FromSpecImpl<LimitError> for SessionPrecompileError {
    open spec fn obeys_from_spec() -> bool {
        true
    }

    open spec fn from_spec(e: LimitError) -> Self {
        SessionPrecompileError::LimitError(e)
    }
}

impl From<ConstraintError> for SessionPrecompileError {
    fn from(e: ConstraintError) -> (r: Self) {
        SessionPrecompileError::ConstraintError(e)
    }
}

impl vstd::std_specs::convert::FromSpecImpl<ConstraintError> for SessionPrecompileError {
    open spec fn obeys_from_spec() -> bool {
        true
    }

    open spec fn from_spec(e: ConstraintError) -> Self {
        SessionPrecompileError::ConstraintError(e)
    }
}

/// The message of a session precompile error: hashes and selectors print as
/// `0x` and their hexadecimal digits, addresses as `alloy_primitives` displays
/// them, amounts and nonces in decimal.
pub open spec fn session_error_text(e: SessionPrecompileError) -> Seq<char> {
    match e {
        SessionPrecompileError::SessionNotFound { hash } => "session not found: 0x"@ + hex_bytes(
            hash.bytes@,
        ),
        SessionPrecompileError::SessionRevoked { hash } => "session revoked: 0x"@ + hex_bytes(
            hash.bytes@,
        ),
        SessionPrecompileError::SessionExpired { hash } => "session expired: 0x"@ + hex_bytes(
            hash.bytes@,
        ),
        SessionPrecompileError::NotAuthorizer { expected, actual } => "not authorizer: expected "@
            + address_display(expected.bytes@) + ", got "@ + address_display(actual.bytes@),
        SessionPrecompileError::MaxSessionsReached { authorizer } => "max sessions reached for "@
            + address_display(authorizer.bytes@),
        SessionPrecompileError::NonceMismatch { expected, actual } => "nonce mismatch: expected "@
            + decimal(expected as nat) + ", got "@ + decimal(actual as nat),
        SessionPrecompileError::HashMismatch { expected, actual } => "session hash mismatch: expected 0x"@
            + hex_bytes(expected.bytes@) + ", got 0x"@ + hex_bytes(actual.bytes@),
        SessionPrecompileError::CallNotAllowed { target, selector } => "call not allowed: target="@
            + address_display(target.bytes@) + ", selector=0x"@ + hex_bytes(selector.bytes@),
        SessionPrecompileError::TransferNotAllowed { target } => "transfer not allowed: target="@
            + address_display(target.bytes@),
        SessionPrecompileError::ValuePerUseExceeded { max, actual } => "value per use exceeded: max="@
            + decimal(max@) + ", actual="@ + decimal(actual@),
        SessionPrecompileError::LimitError(l) => "limit error: "@ + limit_error_text(l),
        SessionPrecompileError::ConstraintError(c) => "constraint error: "@ + constraint_error_text(c),
        SessionPrecompileError::FeeLimitExceeded => "fee limit exceeded"@,
    }
}

impl SessionPrecompileError {
    /// The error's message.
    pub fn message(&self) -> (r: String)
        ensures
            r@ == session_error_text(*self),
    {
        match self {
            SessionPrecompileError::SessionNotFound { hash } => {
                let mut m = String::from_str("session not found: 0x");
                append_hex(&mut m, &hash.bytes);
                m
            },
            SessionPrecompileError::SessionRevoked { hash } => {
                let mut m = String::from_str("session revoked: 0x");
                append_hex(&mut m, &hash.bytes);
                m
            },
            SessionPrecompileError::SessionExpired { hash } => {
                let mut m = String::from_str("session expired: 0x");
                append_hex(&mut m, &hash.bytes);
                m
            },
            SessionPrecompileError::NotAuthorizer { expected, actual } => {
                let mut m = String::from_str("not authorizer: expected ");
                let e = address_text(expected);
                m.append(e.as_str());
                m.append(", got ");
                let a = address_text(actual);
                m.append(a.as_str());
                m
            },
            SessionPrecompileError::MaxSessionsReached { authorizer } => {
                let mut m = String::from_str("max sessions reached for ");
                let a = address_text(authorizer);
                m.append(a.as_str());
                m
            },
            SessionPrecompileError::NonceMismatch { expected, actual } => {
                let mut m = String::from_str("nonce mismatch: expected ");
                append_decimal(&mut m, *expected);
                m.append(", got ");
                append_decimal(&mut m, *actual);
                m
            },
            SessionPrecompileError::HashMismatch { expected, actual } => {
                let mut m = String::from_str("session hash mismatch: expected 0x");
                append_hex(&mut m, &expected.bytes);
                m.append(", got 0x");
                append_hex(&mut m, &actual.bytes);
                m
            },
            SessionPrecompileError::CallNotAllowed { target, selector } => {
                let mut m = String::from_str("call not allowed: target=");
                let t = address_text(target);
                m.append(t.as_str());
                m.append(", selector=0x");
                append_hex(&mut m, &selector.bytes);
                m
            },
            SessionPrecompileError::TransferNotAllowed { target } => {
                let mut m = String::from_str("transfer not allowed: target=");
                let t = address_text(target);
                m.append(t.as_str());
                m
            },
            SessionPrecompileError::ValuePerUseExceeded { max, actual } => {
                let mut m = String::from_str("value per use exceeded: max=");
                append_word_decimal(&mut m, max);
                m.append(", actual=");
                append_word_decimal(&mut m, actual);
                m
            },
            SessionPrecompileError::LimitError(l) => {
                let mut m = String::from_str("limit error: ");
                let t = l.message();
                m.append(t.as_str());
                m
            },
            SessionPrecompileError::ConstraintError(c) => {
                let mut m = String::from_str("constraint error: ");
                let t = c.message();
                m.append(t.as_str());
                m
            },
            SessionPrecompileError::FeeLimitExceeded => String::from_str("fee limit exceeded"),
        }
    }
}

} // verus!
