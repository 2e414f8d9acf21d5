//! The header of a package: crypto version, key derivation, wrapped key.

use crate::domain::shared::errors::{DomainError, DomainErrorView};
use crate::domain::vault::value_objects::CryptoVersion;
use vstd::prelude::*;

verus! {

/// Fewest bytes of salt that a key derivation may use.
pub const MIN_SALT_LEN: usize = 16;

/// Least memory cost of a key derivation, in KiB: 32 MiB.
pub const MIN_MEMORY_KIB: u32 = 32 * 1024;

/// Least time cost of a key derivation.
pub const MIN_TIME_COST: u32 = 1;

/// Least parallelism of a key derivation.
pub const MIN_PARALLELISM: u32 = 1;

/// Fewest bytes of a wrapped vault key.
pub const MIN_WRAPPED_KEY_LEN: usize = 32;

/// Cost parameters of the key derivation.
#[derive(Debug, Clone)]
pub struct KdfParams {
    /// Memory cost in KiB.
    pub m_kib: u32,
    /// Time cost.
    pub t: u32,
    /// Parallelism.
    pub p: u32,
}

/// The key derivation algorithm.
#[derive(Debug, Clone)]
pub enum KdfAlg {
    Argon2id,
}

/// How the client derives its key: algorithm, salt and cost.
#[derive(Debug, Clone)]
pub struct KdfSpec {
    pub alg: KdfAlg,
    pub salt: Vec<u8>,
    pub params: KdfParams,
}

/// A `KdfSpec` with its salt as a sequence of bytes.
pub struct KdfSpecView {
    pub alg: KdfAlg,
    pub salt: Seq<u8>,
    pub params: KdfParams,
}

impl View for KdfSpec {
    type V = KdfSpecView;

    open spec fn view(&self) -> KdfSpecView {
        KdfSpecView { alg: self.alg, salt: self.salt@, params: self.params }
    }
}

impl KdfSpecView {
    /// Every floor holds: salt, memory, time and parallelism.
    pub open spec fn is_valid(self) -> bool {
        &&& self.salt.len() >= MIN_SALT_LEN
        &&& self.params.m_kib >= MIN_MEMORY_KIB
        &&& self.params.t >= MIN_TIME_COST
        &&& self.params.p >= MIN_PARALLELISM
    }

    /// The first floor that is broken, in the order salt, memory, time,
    /// parallelism, as the error that reports it.
    pub open spec fn violation(self) -> Option<DomainErrorView> {
        if self.salt.len() < MIN_SALT_LEN {
            Some(DomainErrorView::validation("kdf.salt", "must be at least 16 bytes"))
        } else if self.params.m_kib < MIN_MEMORY_KIB {
            Some(
                DomainErrorView::validation(
                    "kdf.params.m_kib",
                    "must be at least 32 MiB (32768 KiB)",
                ),
            )
        } else if self.params.t < MIN_TIME_COST {
            Some(DomainErrorView::validation("kdf.params.t", "must be at least 1"))
        } else if self.params.p < MIN_PARALLELISM {
            Some(DomainErrorView::validation("kdf.params.p", "must be at least 1"))
        } else {
            None
        }
    }

    /// A key derivation is valid exactly when no floor is broken.
    pub proof fn lemma_valid_iff_no_violation(self)
        ensures
            self.is_valid() <==> self.violation() is None,
    {
    }

    /// Any broken floor makes validation fail with a `Validation` error whose
    /// field names a broken floor: the salt's if the salt is short, else the
    /// memory's if the memory is low, else the time's, else the parallelism's.
    pub proof fn lemma_below_floor_fails(self)
        requires
            self.salt.len() < 16 || self.params.m_kib < 32768 || self.params.t < 1 || self.params.p
                < 1,
        ensures
            !self.is_valid(),
            self.violation() matches Some(DomainErrorView::Validation { field, .. }) && {
                ||| field == "kdf.salt"@ && self.salt.len() < 16
                ||| field == "kdf.params.m_kib"@ && self.params.m_kib < 32768
                ||| field == "kdf.params.t"@ && self.params.t < 1
                ||| field == "kdf.params.p"@ && self.params.p < 1
            },
            self.salt.len() < 16 ==> self.violation() == Some(
                DomainErrorView::validation("kdf.salt", "must be at least 16 bytes"),
            ),
    {
    }

    /// A key derivation that sits exactly on every floor is valid.
    pub proof fn lemma_at_floor_valid(self)
        requires
            self.salt.len() == 16,
            self.params.m_kib == 32768,
            self.params.t == 1,
            self.params.p == 1,
        ensures
            self.is_valid(),
            self.violation() is None,
    {
    }
}

impl KdfSpec {
    /// Checks the floors in the order salt, memory, time, parallelism, and
    /// reports the first that is broken.
    pub fn validate(&self) -> (r: Result<(), DomainError>)
        ensures
            r is Ok <==> self@.is_valid(),
            r is Err ==> self@.violation() == Some(r->Err_0@),
    {
        if self.salt.len() < MIN_SALT_LEN {
            return Err(DomainError::validation("kdf.salt", "must be at least 16 bytes"));
        }
        if self.params.m_kib < MIN_MEMORY_KIB {
            return Err(
                DomainError::validation("kdf.params.m_kib", "must be at least 32 MiB (32768 KiB)"),
            );
        }
        if self.params.t < MIN_TIME_COST {
            return Err(DomainError::validation("kdf.params.t", "must be at least 1"));
        }
        if self.params.p < MIN_PARALLELISM {
            return Err(DomainError::validation("kdf.params.p", "must be at least 1"));
        }
        Ok(())
    }
}

/// What precedes the cipher blob in a package.
#[derive(Debug, Clone)]
pub struct VaultHeader {
    pub crypto_version: CryptoVersion,
    pub kdf: KdfSpec,
    pub wrapped_vault_key: Vec<u8>,
}

/// A `VaultHeader` with its byte strings as sequences.
pub struct VaultHeaderView {
    pub crypto_version: CryptoVersion,
    pub kdf: KdfSpecView,
    pub wrapped_vault_key: Seq<u8>,
}

impl View for VaultHeader {
    type V = VaultHeaderView;

    open spec fn view(&self) -> VaultHeaderView {
        VaultHeaderView {
            crypto_version: self.crypto_version,
            kdf: self.kdf@,
            wrapped_vault_key: self.wrapped_vault_key@,
        }
    }
}

impl VaultHeaderView {
    /// The key derivation is valid and the wrapped key is long enough.
    pub open spec fn is_valid(self) -> bool {
        &&& self.kdf.is_valid()
        &&& self.wrapped_vault_key.len() >= MIN_WRAPPED_KEY_LEN
    }

    /// The key derivation's violation if it has one, else that of a wrapped
    /// key that is too short.
    pub open spec fn violation(self) -> Option<DomainErrorView> {
        if self.kdf.violation() is Some {
            self.kdf.violation()
        } else if self.wrapped_vault_key.len() < MIN_WRAPPED_KEY_LEN {
            Some(DomainErrorView::validation("wrapped_vault_key", "too small (min 32 bytes)"))
        } else {
            None
        }
    }

    /// A header is valid exactly when nothing in it is violated.
    pub proof fn lemma_valid_iff_no_violation(self)
        ensures
            self.is_valid() <==> self.violation() is None,
    {
    }
}

impl VaultHeader {
    /// Checks the key derivation, then the length of the wrapped key, and
    /// reports the first failure.
    pub fn validate(&self) -> (r: Result<(), DomainError>)
        ensures
            r is Ok <==> self@.is_valid(),
            r is Err ==> self@.violation() == Some(r->Err_0@),
    {
        self.kdf.validate()?;
        if self.wrapped_vault_key.len() < MIN_WRAPPED_KEY_LEN {
            return Err(DomainError::validation("wrapped_vault_key", "too small (min 32 bytes)"));
        }
        Ok(())
    }
}

} // verus!
