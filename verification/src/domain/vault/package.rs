//! The package that a client submits: header and cipher blob.

use crate::domain::shared::errors::{DomainError, DomainErrorView};
use crate::domain::vault::header::{VaultHeader, VaultHeaderView};
use vstd::prelude::*;

verus! {

/// Fewest bytes of a nonce.
pub const MIN_NONCE_LEN: usize = 12;

/// Fewest bytes of a ciphertext: room for an authentication tag.
pub const MIN_CIPHERTEXT_LEN: usize = 16;

/// The sealed content: opaque bytes of which only the lengths are checked.
#[derive(Debug, Clone)]
pub struct CipherBlob {
    pub nonce: Vec<u8>,
    pub aad: Vec<u8>,
    pub ciphertext: Vec<u8>,
}

/// A `CipherBlob` with its byte strings as sequences.
pub struct CipherBlobView {
    pub nonce: Seq<u8>,
    pub aad: Seq<u8>,
    pub ciphertext: Seq<u8>,
}

impl View for CipherBlob {
    type V = CipherBlobView;

    open spec fn view(&self) -> CipherBlobView {
        CipherBlobView { nonce: self.nonce@, aad: self.aad@, ciphertext: self.ciphertext@ }
    }
}

impl CipherBlobView {
    /// Nonce and ciphertext are long enough; the additional data is free.
    pub open spec fn is_valid(self) -> bool {
        &&& self.nonce.len() >= MIN_NONCE_LEN
        &&& self.ciphertext.len() >= MIN_CIPHERTEXT_LEN
    }

    /// The error for a short nonce, else the error for a short ciphertext.
    pub open spec fn violation(self) -> Option<DomainErrorView> {
        if self.nonce.len() < MIN_NONCE_LEN {
            Some(DomainErrorView::validation("blob.nonce", "nonce too small (min 12 bytes)"))
        } else if self.ciphertext.len() < MIN_CIPHERTEXT_LEN {
            Some(
                DomainErrorView::validation(
                    "blob.ciphertext",
                    "ciphertext too small (min 16 bytes)",
                ),
            )
        } else {
            None
        }
    }

    /// A blob is valid exactly when nothing in it is violated.
    pub proof fn lemma_valid_iff_no_violation(self)
        ensures
            self.is_valid() <==> self.violation() is None,
    {
    }

    /// A nonce under 12 bytes or a ciphertext under 16 bytes fails; a blob
    /// with exactly 12 and 16 bytes passes, whatever its additional data.
    pub proof fn lemma_floors(self)
        ensures
            self.nonce.len() < 12 || self.ciphertext.len() < 16 ==> !self.is_valid()
                && self.violation() is Some,
            self.nonce.len() == 12 && self.ciphertext.len() == 16 ==> self.is_valid()
                && self.violation() is None,
    {
    }
}

impl CipherBlob {
    /// Checks the nonce's length, then the ciphertext's, and reports the
    /// first that is too small.
    pub fn validate(&self) -> (r: Result<(), DomainError>)
        ensures
            r is Ok <==> self@.is_valid(),
            r is Err ==> self@.violation() == Some(r->Err_0@),
    {
        if self.nonce.len() < MIN_NONCE_LEN {
            return Err(DomainError::validation("blob.nonce", "nonce too small (min 12 bytes)"));
        }
        if self.ciphertext.len() < MIN_CIPHERTEXT_LEN {
            return Err(
                DomainError::validation("blob.ciphertext", "ciphertext too small (min 16 bytes)"),
            );
        }
        Ok(())
    }
}

/// What a client submits and the server stores: header and cipher blob.
#[derive(Debug, Clone)]
pub struct VaultPackage {
    pub header: VaultHeader,
    pub blob: CipherBlob,
}

/// A `VaultPackage` with its byte strings as sequences.
pub struct VaultPackageView {
    pub header: VaultHeaderView,
    pub blob: CipherBlobView,
}

impl View for VaultPackage {
    type V = VaultPackageView;

    open spec fn view(&self) -> VaultPackageView {
        VaultPackageView { header: self.header@, blob: self.blob@ }
    }
}

impl VaultPackageView {
    /// Header and blob are both valid.
    pub open spec fn is_valid(self) -> bool {
        &&& self.header.is_valid()
        &&& self.blob.is_valid()
    }

    /// The header's violation if it has one, else the blob's.
    pub open spec fn violation(self) -> Option<DomainErrorView> {
        if self.header.violation() is Some {
            self.header.violation()
        } else {
            self.blob.violation()
        }
    }

    /// A package is valid exactly when nothing in it is violated.
    pub proof fn lemma_valid_iff_no_violation(self)
        ensures
            self.is_valid() <==> self.violation() is None,
    {
    }

    /// Whatever is violated in a package is reported as a `Validation` error.
    pub proof fn lemma_violation_is_validation(self)
        ensures
            self.violation() is Some ==> self.violation()->Some_0 is Validation,
    {
    }
}

impl VaultPackage {
    /// Checks the header, then the blob, and reports the first failure.
    pub fn validate(&self) -> (r: Result<(), DomainError>)
        ensures
            r is Ok <==> self@.is_valid(),
            r is Err ==> self@.violation() == Some(r->Err_0@),
    {
        self.header.validate()?;
        self.blob.validate()?;
        Ok(())
    }
}

} // verus!
