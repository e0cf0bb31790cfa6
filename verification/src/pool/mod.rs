//! Mempool admission checks for Pachi transaction types.

pub mod validator;
