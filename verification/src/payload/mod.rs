//! Block building: the fields of the system transactions a block starts with.

pub mod system_tx;
