//! Shared primitive types: assets, confidence levels, limits, constraints,
//! policies, price snapshots and system constants.

pub mod asset;
pub mod confidence;
pub mod constants;
pub mod constraint;
pub mod limit;
pub mod policy;
pub mod snapshot;
