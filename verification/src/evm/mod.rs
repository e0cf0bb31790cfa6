//! The EVM-facing layer: ABI dispatch of the Pachi precompiles, event logs,
//! and the pre- and post-execution handlers of Pachi transaction types.
//!
//! Dispatch functions return a [`outcome::PrecompileOutcome`] that describes
//! the call's result, gas and logs; the EVM integration turns it into the
//! interpreter's own result and emits the logs.

pub mod abi;
pub mod events;
pub mod oracle_dispatch;
pub mod outcome;
pub mod post_execution;
pub mod pre_execution;
pub mod precompiles;
pub mod session_dispatch;
pub mod sponsor_dispatch;
pub mod vrf_dispatch;
