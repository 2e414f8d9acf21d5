//! Derivation of an etag from a package.

use crate::domain::vault::package::VaultPackage;
use crate::domain::vault::value_objects::Etag;
use vstd::prelude::*;

verus! {

/// Derives the etag of a package, typically a digest of its content.
///
/// Nothing is promised of the etag that comes back: the use case checks
/// itself that it differs from the etag it replaces.
pub trait EtagGenerator: Send + Sync {
    fn generate(&self, package: &VaultPackage) -> Etag;
}

} // verus!
