//! The claims of a token and the identity that follows from them.

pub mod claims;
pub mod client;
pub mod identity;
pub mod token;
pub mod user;

pub use claims::{Audience, Claims, Jwt, Role, Scope, Subject};
pub use client::Client;
pub use identity::Identity;
pub use token::Token;
pub use user::User;
