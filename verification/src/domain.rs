//! The domain: the vault aggregate, the values it is made of, and its errors.

pub mod shared;
pub mod vault;
