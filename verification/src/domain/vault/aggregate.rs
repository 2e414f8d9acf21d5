//! The vault: one versioned package per owner.

use crate::domain::shared::errors::{DomainError, DomainErrorView};
use crate::domain::shared::text::is_blank;
use crate::domain::vault::package::{VaultPackage, VaultPackageView};
use crate::domain::vault::value_objects::{Etag, OwnerSub, Revision, Timestamp, VaultId};
use vstd::prelude::*;

verus! {

/// The aggregate root: the package of one owner, with its version.
///
/// A vault is made once by `Vault::new` and changes only through
/// `Vault::update`, which leaves the vault it is called on as it was and
/// hands back the next one.
#[derive(Debug, Clone)]
pub struct Vault {
    pub id: VaultId,
    pub owner_id: OwnerSub,
    pub package: VaultPackage,
    pub revision: Revision,
    pub etag: Etag,
    pub created_at: Timestamp,
    pub updated_at: Timestamp,
}

/// A `Vault` as a mathematical value.
pub struct VaultView {
    pub id: VaultId,
    pub owner_id: Seq<char>,
    pub package: VaultPackageView,
    pub revision: nat,
    pub etag: Seq<char>,
    pub created_at: Timestamp,
    pub updated_at: Timestamp,
}

impl View for Vault {
    type V = VaultView;

    open spec fn view(&self) -> VaultView {
        VaultView {
            id: self.id,
            owner_id: self.owner_id@,
            package: self.package@,
            revision: self.revision@,
            etag: self.etag@,
            created_at: self.created_at,
            updated_at: self.updated_at,
        }
    }
}

/// The view of a result that holds a vault or a domain error.
pub open spec fn vault_outcome(r: Result<Vault, DomainError>) -> Result<VaultView, DomainErrorView> {
    match r {
        Ok(v) => Ok(v@),
        Err(e) => Err(e@),
    }
}

impl VaultView {
    /// A vault is well formed when owner and etag are not blank and the
    /// package is valid.
    pub open spec fn wf(self) -> bool {
        &&& !is_blank(self.owner_id)
        &&& !is_blank(self.etag)
        &&& self.package.is_valid()
    }

    /// Creation: the package's violation if it has one, else a vault at
    /// revision zero, created and updated at `now`.
    pub open spec fn create(
        id: VaultId,
        owner_id: Seq<char>,
        now: Timestamp,
        etag: Seq<char>,
        package: VaultPackageView,
    ) -> Result<VaultView, DomainErrorView> {
        match package.violation() {
            Some(e) => Err(e),
            None => Ok(
                VaultView {
                    id,
                    owner_id,
                    package,
                    revision: 0,
                    etag,
                    created_at: now,
                    updated_at: now,
                },
            ),
        }
    }

    /// The transition of an update. An invalid package is refused first, then
    /// an expected etag that is not the current one, then a new etag that is
    /// the current one. Otherwise the vault keeps identity, owner and time of
    /// creation, and takes the next revision, the new etag, the new package
    /// and `now` as the time of its update.
    pub open spec fn update(
        self,
        expected_etag: Seq<char>,
        now: Timestamp,
        new_etag: Seq<char>,
        new_package: VaultPackageView,
    ) -> Result<VaultView, DomainErrorView> {
        if new_package.violation() is Some {
            Err(new_package.violation()->Some_0)
        } else if expected_etag != self.etag {
            Err(DomainErrorView::Conflict { expected: expected_etag, actual: self.etag })
        } else if new_etag == self.etag {
            Err(DomainErrorView::validation("etag", "must change on update"))
        } else {
            Ok(
                VaultView {
                    id: self.id,
                    owner_id: self.owner_id,
                    package: new_package,
                    revision: Revision::spec_next(self.revision),
                    etag: new_etag,
                    created_at: self.created_at,
                    updated_at: now,
                },
            )
        }
    }
}

impl VaultView {
    /// Creation succeeds exactly on a valid package, and then at revision
    /// zero; an invalid package gives the error of its own validation.
    pub proof fn lemma_create(
        id: VaultId,
        owner_id: Seq<char>,
        now: Timestamp,
        etag: Seq<char>,
        package: VaultPackageView,
    )
        ensures
            package.is_valid() ==> Self::create(id, owner_id, now, etag, package) is Ok
                && Self::create(id, owner_id, now, etag, package)->Ok_0.revision == 0,
            !package.is_valid() ==> package.violation() is Some && Self::create(
                id,
                owner_id,
                now,
                etag,
                package,
            ) == Err::<VaultView, DomainErrorView>(package.violation()->Some_0),
    {
    }

    /// An update that succeeds raises the revision by exactly one, as long
    /// as the counter has not reached its largest value.
    pub proof fn lemma_update_increments_revision(
        self,
        expected_etag: Seq<char>,
        now: Timestamp,
        new_etag: Seq<char>,
        new_package: VaultPackageView,
    )
        requires
            self.revision < u64::MAX,
            self.update(expected_etag, now, new_etag, new_package) is Ok,
        ensures
            self.update(expected_etag, now, new_etag, new_package)->Ok_0.revision == self.revision
                + 1,
    {
    }

    /// An update never lowers the revision, and never changes identity,
    /// owner or time of creation.
    pub proof fn lemma_update_keeps_identity(
        self,
        expected_etag: Seq<char>,
        now: Timestamp,
        new_etag: Seq<char>,
        new_package: VaultPackageView,
    )
        requires
            self.update(expected_etag, now, new_etag, new_package) is Ok,
        ensures
            ({
                let next = self.update(expected_etag, now, new_etag, new_package)->Ok_0;
                &&& next.id == self.id
                &&& next.owner_id == self.owner_id
                &&& next.created_at == self.created_at
                &&& next.updated_at == now
                &&& next.revision >= self.revision
                &&& next.etag == new_etag
                &&& next.etag != self.etag
                &&& next.package == new_package
            }),
    {
    }

    /// With a valid package, an expected etag that is not the vault's own
    /// always gives a conflict that names both.
    pub proof fn lemma_update_stale_etag_conflicts(
        self,
        expected_etag: Seq<char>,
        now: Timestamp,
        new_etag: Seq<char>,
        new_package: VaultPackageView,
    )
        requires
            new_package.is_valid(),
            expected_etag != self.etag,
        ensures
            self.update(expected_etag, now, new_etag, new_package) == Err::<
                VaultView,
                DomainErrorView,
            >(DomainErrorView::Conflict { expected: expected_etag, actual: self.etag }),
    {
    }

    /// An update that hands the vault's own etag back as the new one always
    /// fails with a `Validation` error: the one on the etag if the package is
    /// valid, the package's own if it is not.
    pub proof fn lemma_update_same_etag_rejected(
        self,
        now: Timestamp,
        new_package: VaultPackageView,
    )
        ensures
            self.update(self.etag, now, self.etag, new_package) is Err,
            self.update(self.etag, now, self.etag, new_package)->Err_0 is Validation,
            new_package.is_valid() ==> self.update(self.etag, now, self.etag, new_package) == Err::<
                VaultView,
                DomainErrorView,
            >(DomainErrorView::validation("etag", "must change on update")),
    {
    }

    /// An update of a well formed vault to an etag that is not blank gives a
    /// well formed vault.
    pub proof fn lemma_update_preserves_wf(
        self,
        expected_etag: Seq<char>,
        now: Timestamp,
        new_etag: Seq<char>,
        new_package: VaultPackageView,
    )
        requires
            self.wf(),
            !is_blank(new_etag),
            self.update(expected_etag, now, new_etag, new_package) is Ok,
        ensures
            self.update(expected_etag, now, new_etag, new_package)->Ok_0.wf(),
    {
    }
}

impl Vault {
    /// A vault is well formed when its view is.
    pub open spec fn wf(&self) -> bool {
        self@.wf()
    }

    /// Creates the vault of `owner_id` from a package that validates. An
    /// invalid package gives its own validation error, unchanged.
    pub fn new(
        id: VaultId,
        owner_id: OwnerSub,
        now: Timestamp,
        etag: Etag,
        initial_package: VaultPackage,
    ) -> (r: Result<Self, DomainError>)
        ensures
            vault_outcome(r) == VaultView::create(id, owner_id@, now, etag@, initial_package@),
            r is Ok <==> initial_package@.is_valid(),
            r is Ok ==> r->Ok_0.revision@ == 0,
            r is Ok && owner_id.wf() && etag.wf() ==> r->Ok_0.wf(),
    {
        initial_package.validate()?;
        Ok(
            Self {
                id,
                owner_id,
                package: initial_package,
                revision: Revision::initial(),
                etag,
                created_at: now,
                updated_at: now,
            },
        )
    }

    /// The vault that follows this one when `new_package` replaces its
    /// package, if the caller's `expected_etag` is the current etag and
    /// `new_etag` is another. The vault itself is not changed.
    pub fn update(
        &self,
        expected_etag: &Etag,
        now: Timestamp,
        new_etag: Etag,
        new_package: VaultPackage,
    ) -> (r: Result<Self, DomainError>)
        ensures
            vault_outcome(r) == self@.update(expected_etag@, now, new_etag@, new_package@),
            r is Ok <==> new_package@.is_valid() && expected_etag@ == self.etag@ && new_etag@
                != self.etag@,
            r is Ok && self.revision@ < u64::MAX ==> r->Ok_0.revision@ == self.revision@ + 1,
            r is Ok && self.wf() && new_etag.wf() ==> r->Ok_0.wf(),
    {
        new_package.validate()?;
        if self.etag != *expected_etag {
            return Err(
                DomainError::Conflict {
                    expected: expected_etag.0.clone(),
                    actual: self.etag.0.clone(),
                },
            );
        }
        if new_etag == self.etag {
            return Err(DomainError::validation("etag", "must change on update"));
        }
        Ok(
            Self {
                id: self.id,
                owner_id: OwnerSub(self.owner_id.0.clone()),
                package: new_package,
                revision: self.revision.next(),
                etag: new_etag,
                created_at: self.created_at,
                updated_at: now,
            },
        )
    }
}

} // verus!
