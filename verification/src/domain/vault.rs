//! The vault aggregate and the values it is made of.

pub mod aggregate;
pub mod header;
pub mod package;
pub mod value_objects;

pub use value_objects::{CryptoVersion, Etag, OwnerSub, Revision, Timestamp, VaultId};
