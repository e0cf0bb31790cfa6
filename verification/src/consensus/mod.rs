//! Pachi-specific block validation: the oracle snapshot carried by every
//! block, and the ordering of system transactions.

pub mod error;
pub mod validation;
