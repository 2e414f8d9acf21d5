//! The operations that the service offers.

pub mod put_vault;
