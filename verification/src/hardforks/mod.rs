//! Pachi Chain hardforks and the Pachi-specific genesis configuration.

pub mod config;
pub mod hardfork;
