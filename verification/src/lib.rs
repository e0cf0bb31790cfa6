//! Verified core of the Pachi chain: oracle, session key and limit logic.

pub mod hash;
pub mod primitives;
pub mod state;
pub mod word;
pub mod text;
pub mod oracle_precompile;
pub mod session;
pub mod oracle_engine;
pub mod evm;
pub mod consensus;
pub mod pool;
pub mod hardforks;
pub mod payload;
