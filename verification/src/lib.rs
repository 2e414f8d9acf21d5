//! Core of a single-secret-per-owner encrypted vault service.
//!
//! Every owner holds one client-encrypted package. The server never decrypts
//! it: it checks the package's shape, versions it, and replaces it only when
//! the caller still holds the current version.

pub mod domain;
pub mod ports;
pub mod application;
pub mod auth;
