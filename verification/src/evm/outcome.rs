//! The result of a precompile call.

use vstd::prelude::*;

use vstd::string::{StringExecFns, StringSliceAdditionalSpecFns};

use crate::oracle_precompile::error::{OraclePrecompileError, oracle_error_text};
use crate::session::error::{SessionPrecompileError, session_error_text};
use crate::word::{Address, B256};

verus! {

/// An EVM log record to emit.
#[derive(Debug, Clone)]
pub struct LogRecord {
    /// The emitting contract.
    pub address: Address,
    /// The topics, the event signature hash first.
    pub topics: Vec<B256>,
    /// The non-indexed data.
    pub data: Vec<u8>,
}

/// Why a precompile call reverted; the revert data is the reason's message.
#[derive(Debug, Clone)]
pub enum RevertReason {
    /// A fixed message.
    Message(&'static str),
    /// An oracle precompile error.
    Oracle(OraclePrecompileError),
    /// A session precompile error.
    Session(SessionPrecompileError),
    /// A message made at run time (the text of a sponsor state machine error).
    Text(String),
}

/// The result of a precompile call.
#[derive(Debug, Clone)]
pub enum PrecompileOutcome {
    /// The call succeeded.
    Success {
        /// Gas charged.
        gas_used: u64,
        /// Returned data.
        output: Vec<u8>,
        /// Logs to emit, in order.
        logs: Vec<LogRecord>,
    },
    /// The call reverted.
    Reverted {
        /// Gas charged.
        gas_used: u64,
        /// The reason, whose message is the revert data.
        reason: RevertReason,
    },
    /// The gas limit is below the call's cost.
    OutOfGas,
}

/// Whether a call reverted with a fixed message and gas charge.
pub open spec fn reverted_with(r: PrecompileOutcome, gas: u64, message: &str) -> bool {
    r matches PrecompileOutcome::Reverted { gas_used, reason: RevertReason::Message(s) }
        && gas_used == gas && s@ == message@
}

/// Whether a call succeeded with a gas charge, output and no logs.
pub open spec fn succeeded_with(r: PrecompileOutcome, gas: u64, output: Seq<u8>) -> bool {
    r matches PrecompileOutcome::Success { gas_used, output: o, logs } && gas_used == gas && o@
        == output && logs@.len() == 0
}

/// The message of a revert reason.
pub open spec fn revert_text(r: RevertReason) -> Seq<char> {
    match r {
        RevertReason::Message(s) => s@,
        RevertReason::Oracle(e) => oracle_error_text(e),
        RevertReason::Session(e) => session_error_text(e),
        RevertReason::Text(t) => t@,
    }
}

impl RevertReason {
    /// The reason's message.
    pub fn message(&self) -> (r: String)
        ensures
            r@ == revert_text(*self),
    {
        match self {
            RevertReason::Message(s) => String::from_str(s),
            RevertReason::Oracle(e) => e.message(),
            RevertReason::Session(e) => e.message(),
            RevertReason::Text(t) => t.clone(),
        }
    }

    /// The revert data: the UTF-8 bytes of the reason's message.
    pub fn revert_data(&self) -> (r: Vec<u8>)
        ensures
            r@ == vstd::utf8::encode_utf8(revert_text(*self)),
    {
        let m = self.message();
        vstd::slice::slice_to_vec(m.as_str().as_bytes())
    }
}

} // verus!
