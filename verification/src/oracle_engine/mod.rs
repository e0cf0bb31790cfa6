//! Oracle engine: deterministic aggregation of exchange prices into per-asset
//! states, and snapshot generation for block building.
//!
//! The exchange connections themselves (WebSocket streams, JSON decoding,
//! timers) run outside this library and hand it plain price updates.

pub mod aggregator;
pub mod engine;
pub mod json;
pub mod price_parse;
pub mod source;
