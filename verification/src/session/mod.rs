//! `SessionRegistry` precompile state machine at address `0x0800`: the session
//! key lifecycle (create, revoke, query, validate) with per-account slot
//! management and per-session nonces.

pub mod error;
pub mod gas;
pub mod nonce;
pub mod record;
pub mod registry;
pub mod slots;
pub mod storage_keys;
pub mod validation;
