//! Who a caller is, as the claims of a token say it.

pub mod models;
