//! The use cases and the errors that they hand to their callers.

pub mod errors;
pub mod usecases;
