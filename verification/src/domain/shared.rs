//! What the whole domain shares.

pub mod errors;
pub mod text;
