//! Validated primitives of the vault domain.

use crate::domain::shared::errors::{DomainError, DomainErrorView};
use crate::domain::shared::text::{blank, is_blank};
use uuid::Uuid;
use vstd::prelude::*;
use vstd::std_specs::cmp::PartialEqSpecImpl;

verus! {

/// `uuid::Uuid`, carried through as an opaque 128-bit identifier.
#[verifier::external_type_specification]
#[verifier::external_body]
pub struct ExUuid(Uuid);

/// Identity of a vault, fixed when the vault is created.
#[derive(Debug, Clone, Copy, PartialEq, Eq, Hash)]
pub struct VaultId(pub Uuid);

/// The principal that owns a vault.
#[derive(Debug, Clone, Hash)]
pub struct OwnerSub(pub String);

impl View for OwnerSub {
    type V = Seq<char>;

    open spec fn view(&self) -> Seq<char> {
        self.0@
    }
}

impl PartialEq for OwnerSub {
    fn eq(&self, other: &Self) -> (r: bool) {
        self.0 == other.0
    }
}

impl Eq for OwnerSub {

}

impl PartialEqSpecImpl for OwnerSub {
    open spec fn obeys_eq_spec() -> bool {
        true
    }

    open spec fn eq_spec(&self, other: &Self) -> bool {
        self@ == other@
    }
}

impl OwnerSub {
    /// An owner is well formed when its text is not blank.
    pub open spec fn wf(&self) -> bool {
        !is_blank(self@)
    }

    /// Takes `value` as an owner unless it is blank.
    pub fn new(value: &str) -> (r: Result<Self, DomainError>)
        ensures
            r is Ok <==> !is_blank(value@),
            r is Ok ==> r->Ok_0@ == value@ && r->Ok_0.wf(),
            r is Err ==> r->Err_0@ == DomainErrorView::validation("owner_sub", "must not be empty"),
    {
        if blank(value) {
            return Err(DomainError::validation("owner_sub", "must not be empty"));
        }
        Ok(Self(value.to_owned()))
    }
}

/// Version counter of a vault: starts at zero, grows by one per update.
#[derive(Debug, Clone, Copy, PartialEq, Eq, Structural, PartialOrd, Ord)]
pub struct Revision(pub u64);

impl View for Revision {
    type V = nat;

    open spec fn view(&self) -> nat {
        self.0 as nat
    }
}

impl Revision {
    /// The revision of a freshly created vault.
    pub fn initial() -> (r: Self)
        ensures
            r@ == 0,
    {
        Self(0)
    }

    /// The revision after `r`, held at the largest counter once it is reached.
    pub open spec fn spec_next(r: nat) -> nat {
        if r < u64::MAX {
            r + 1
        } else {
            r
        }
    }

    /// The next revision: one more, and never past the largest counter.
    pub fn next(self) -> (r: Self)
        ensures
            r@ == Self::spec_next(self@),
    {
        Self(self.0.saturating_add(1))
    }
}

/// Fingerprint of a package's content; it changes with every update.
#[derive(Debug, Clone)]
pub struct Etag(pub String);

impl View for Etag {
    type V = Seq<char>;

    open spec fn view(&self) -> Seq<char> {
        self.0@
    }
}

impl PartialEq for Etag {
    fn eq(&self, other: &Self) -> (r: bool) {
        self.0 == other.0
    }
}

impl Eq for Etag {

}

impl PartialEqSpecImpl for Etag {
    open spec fn obeys_eq_spec() -> bool {
        true
    }

    open spec fn eq_spec(&self, other: &Self) -> bool {
        self@ == other@
    }
}

impl Etag {
    /// An etag is well formed when its text is not blank.
    pub open spec fn wf(&self) -> bool {
        !is_blank(self@)
    }

    /// Takes `value` as an etag unless it is blank.
    pub fn new(value: &str) -> (r: Result<Self, DomainError>)
        ensures
            r is Ok <==> !is_blank(value@),
            r is Ok ==> r->Ok_0@ == value@ && r->Ok_0.wf(),
            r is Err ==> r->Err_0@ == DomainErrorView::validation("etag", "must not be empty"),
    {
        if blank(value) {
            return Err(DomainError::validation("etag", "must not be empty"));
        }
        Ok(Self(value.to_owned()))
    }
}

/// Tag of the client-side crypto scheme that sealed a package.
#[derive(Debug, Clone, Copy, PartialEq, Eq, Structural)]
pub struct CryptoVersion(pub u16);

impl View for CryptoVersion {
    type V = nat;

    open spec fn view(&self) -> nat {
        self.0 as nat
    }
}

impl CryptoVersion {
    /// A crypto version is well formed when it is positive.
    pub open spec fn wf(&self) -> bool {
        self@ > 0
    }

    /// The first crypto scheme.
    pub fn v1() -> (r: Self)
        ensures
            r@ == 1,
    {
        Self(1)
    }

    /// Takes `v` as a crypto version unless it is zero.
    pub fn new(v: u16) -> (r: Result<Self, DomainError>)
        ensures
            r is Ok <==> v > 0,
            r is Ok ==> r->Ok_0@ == v && r->Ok_0.wf(),
            r is Err ==> r->Err_0@ == DomainErrorView::validation(
                "crypto_version",
                "must be greater than 0",
            ),
    {
        if v == 0 {
            return Err(DomainError::validation("crypto_version", "must be greater than 0"));
        }
        Ok(Self(v))
    }
}

/// An instant in UTC: whole seconds since the Unix epoch, and the nanoseconds
/// into that second.
#[derive(Debug, Clone, Copy, PartialEq, Eq, Structural)]
pub struct Timestamp {
    pub secs: i64,
    pub nanos: u32,
}

} // verus!
