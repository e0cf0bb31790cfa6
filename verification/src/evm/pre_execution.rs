//! Pre-execution handling of session transactions: before EVM execution the
//! session is validated, and the authorizer becomes `msg.sender`.

use vstd::prelude::*;

use crate::session::error::SessionPrecompileError;
use crate::session::validation::{SessionValidationInput, SessionValidator, validation_outcome};
use crate::state::PachiState;
use crate::word::{Address, U256};

verus! {

/// Result of pre-execution validation and setup.
#[derive(Debug, Clone, Copy)]
pub enum PreExecutionResult {
    /// Session transaction: session validated, `msg.sender` is the authorizer.
    Session {
        /// The authorizer whose address becomes `msg.sender`.
        authorizer: Address,
    },
    /// Sponsored transaction: sponsor validated, gas balance locked (deposit mode).
    Sponsored {
        /// Sponsor address.
        sponsor: Address,
        /// Amount locked from the sponsor balance (0 in mint mode).
        locked_amount: U256,
    },
    /// Session-sponsored transaction: session and sponsor both validated.
    SessionSponsored {
        /// The authorizer whose address becomes `msg.sender`.
        authorizer: Address,
        /// Sponsor address.
        sponsor: Address,
        /// Amount locked from the sponsor balance (0 in mint mode).
        locked_amount: U256,
    },
}

/// Errors from pre-execution validation of the session part.
#[derive(Debug, Clone, Copy)]
pub enum PreExecutionError {
    /// Session validation failed.
    Session(SessionPrecompileError),
}

/// Pre-execution handling of Pachi transaction types.
#[derive(Debug)]
pub struct PreExecutionHandler;

impl PreExecutionHandler {
    /// Validates a session transaction before execution; on success the
    /// authorizer becomes `msg.sender` (and pays for gas).
    pub fn validate_session_tx<S: PachiState>(state: &S, input: &SessionValidationInput<'_>) -> (r: Result<
        PreExecutionResult,
        PreExecutionError,
    >)
        ensures
            match r {
                Ok(res) => validation_outcome(state.storage(), *input, Ok::<(), SessionPrecompileError>(()))
                    && res == PreExecutionResult::Session { authorizer: input.authorizer },
                Err(PreExecutionError::Session(e)) => validation_outcome(state.storage(), *input, Err::<(), SessionPrecompileError>(e)),
            },
    {
        let v = SessionValidator::validate(state, input);
        match v {
            Ok(()) => {
                assert(v->Ok_0 == ());
                Ok(PreExecutionResult::Session { authorizer: input.authorizer })
            },
            Err(e) => Err(PreExecutionError::Session(e)),
        }
    }
}

} // verus!
