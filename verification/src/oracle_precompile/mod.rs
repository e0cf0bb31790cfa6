//! `PriceOracle` precompile state machine: storage layout and state operations
//! for the oracle at `0x0802`.
//!
//! Two slots per asset:
//! - `slot(asset_id * 2)` holds the price (`U256`, 8 decimals);
//! - `slot(asset_id * 2 + 1)` holds `timestamp | confidence << 64`.


pub mod circuit_breaker;
pub mod error;
pub mod gas;
pub mod storage;
