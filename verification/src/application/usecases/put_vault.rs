//! Replacing the package of an owner's vault, if it is still at the version
//! that the caller holds.
//!
//! The use case waits twice for the repository: for the owner's vault, and
//! for the conditional write. Whoever runs it performs the two calls and
//! hands each answer back; what is decided on an answer is decided here.
//! `PutVault::begin` opens the operation, `PutVault::found` takes the answer
//! to the lookup, and `PutVault::stored` takes the answer to the write.

use crate::application::errors::{AppError, AppErrorView, ConflictKind, Resource};
use crate::domain::vault::aggregate::{Vault, VaultView};
use crate::domain::vault::package::{VaultPackage, VaultPackageView};
use crate::domain::vault::value_objects::{Etag, OwnerSub, Revision, Timestamp};
use crate::ports::etag::EtagGenerator;
use crate::ports::{RepositoryError, RepositoryErrorView};
use vstd::prelude::*;

verus! {

/// The use case with what it works with: the repository, which its driver
/// calls, and the generator of etags, which it calls itself.
pub struct PutVault<R, E> where E: EtagGenerator {
    pub vault_repository: R,
    pub etag_generator: E,
}

/// A replacement that waits for the repository's `find_by_owner` on
/// `owner_id`.
#[derive(Debug)]
pub struct PendingLookup {
    pub owner_id: OwnerSub,
    pub expected_etag: Etag,
    pub package: VaultPackage,
    pub now: Timestamp,
}

/// A `PendingLookup` as a mathematical value.
pub struct PendingLookupView {
    pub owner_id: Seq<char>,
    pub expected_etag: Seq<char>,
    pub package: VaultPackageView,
    pub now: Timestamp,
}

impl View for PendingLookup {
    type V = PendingLookupView;

    open spec fn view(&self) -> PendingLookupView {
        PendingLookupView {
            owner_id: self.owner_id@,
            expected_etag: self.expected_etag@,
            package: self.package@,
            now: self.now,
        }
    }
}

/// A replacement that waits for the repository's `update_if_match` on
/// `updated` and `expected_etag`.
#[derive(Debug)]
pub struct PendingStore {
    pub updated: Vault,
    pub expected_etag: Etag,
}

/// A `PendingStore` as a mathematical value.
pub struct PendingStoreView {
    pub updated: VaultView,
    pub expected_etag: Seq<char>,
}

impl View for PendingStore {
    type V = PendingStoreView;

    open spec fn view(&self) -> PendingStoreView {
        PendingStoreView { updated: self.updated@, expected_etag: self.expected_etag@ }
    }
}

impl PendingStoreView {
    /// What the aggregate's update leaves behind: a valid package at a
    /// revision past the first, under an etag that is not the expected one.
    pub open spec fn wf(self) -> bool {
        &&& self.updated.package.is_valid()
        &&& self.updated.etag != self.expected_etag
        &&& self.updated.revision >= 1
    }
}

impl PendingStore {
    /// A pending write is well formed when its view is.
    pub open spec fn wf(&self) -> bool {
        self@.wf()
    }

    /// Takes the repository's answer to the conditional write: the new etag
    /// and revision if it went through, else the repository's error as the
    /// caller sees it.
    pub fn finish(self, stored: Result<(), RepositoryError>) -> (r: Result<(Etag, u64), AppError>)
        ensures
            put_outcome(r) == self@.finish(repository_outcome(stored)),
            r is Ok <==> stored is Ok,
            r is Ok && self.wf() ==> r->Ok_0.0@ != self.expected_etag@ && r->Ok_0.1 >= 1,
    {
        match stored {
            Ok(()) => Ok((self.updated.etag, self.updated.revision.0)),
            Err(e) => Err(AppError::from(e)),
        }
    }
}

impl PendingLookup {
    /// Decides on the update of `existing` under `new_etag`: the write to
    /// make next, or the domain's refusal as the caller sees it.
    pub fn replace(self, existing: &Vault, new_etag: Etag) -> (r: Result<PendingStore, AppError>)
        ensures
            store_outcome(r) == self@.replace(existing@, new_etag@),
            r is Ok ==> r->Ok_0.wf(),
    {
        let PendingLookup { owner_id: _, expected_etag, package, now } = self;
        match existing.update(&expected_etag, now, new_etag, package) {
            Ok(updated) => Ok(PendingStore { updated, expected_etag }),
            Err(e) => Err(AppError::from(e)),
        }
    }
}

/// The view of a result that holds a pending write or an error.
pub open spec fn store_outcome(r: Result<PendingStore, AppError>) -> Result<
    PendingStoreView,
    AppErrorView,
> {
    match r {
        Ok(s) => Ok(s@),
        Err(e) => Err(e@),
    }
}

/// The view of what the use case hands to its caller.
pub open spec fn put_outcome(r: Result<(Etag, u64), AppError>) -> Result<
    (Seq<char>, nat),
    AppErrorView,
> {
    match r {
        Ok((etag, revision)) => Ok((etag@, revision as nat)),
        Err(e) => Err(e@),
    }
}

/// The view of the repository's answer to a write.
pub open spec fn repository_outcome(r: Result<(), RepositoryError>) -> Result<
    (),
    RepositoryErrorView,
> {
    match r {
        Ok(()) => Ok(()),
        Err(e) => Err(e@),
    }
}

/// The error for an owner who has no vault.
pub open spec fn owner_not_found(owner_id: Seq<char>) -> AppErrorView {
    AppErrorView::NotFound { resource: Resource::Vault, id: Some(owner_id) }
}

impl PendingLookupView {
    /// The update of `existing` that this replacement asks for, under
    /// `new_etag`: the write to make, or the domain's error as the caller
    /// sees it.
    pub open spec fn replace(self, existing: VaultView, new_etag: Seq<char>) -> Result<
        PendingStoreView,
        AppErrorView,
    > {
        match existing.update(self.expected_etag, self.now, new_etag, self.package) {
            Ok(updated) => Ok(PendingStoreView { updated, expected_etag: self.expected_etag }),
            Err(e) => Err(AppErrorView::from_domain(e)),
        }
    }

    /// A package that is not valid is refused with its own violation,
    /// whatever the vault and the new etag.
    pub proof fn lemma_replace_invalid_package(self, existing: VaultView, new_etag: Seq<char>)
        requires
            !self.package.is_valid(),
        ensures
            self.package.violation() is Some,
            self.replace(existing, new_etag) == Err::<PendingStoreView, AppErrorView>(
                AppErrorView::from_domain(self.package.violation()->Some_0),
            ),
            self.replace(existing, new_etag)->Err_0 is Validation,
    {
    }

    /// With a valid package, an expected etag that is not the stored one is
    /// refused as a concurrency conflict on the vault, whatever the new etag.
    pub proof fn lemma_replace_stale_etag(self, existing: VaultView, new_etag: Seq<char>)
        requires
            self.package.is_valid(),
            self.expected_etag != existing.etag,
        ensures
            self.replace(existing, new_etag) == Err::<PendingStoreView, AppErrorView>(
                AppErrorView::Conflict {
                    kind: ConflictKind::Concurrency,
                    resource: Resource::Vault,
                    id: None,
                },
            ),
    {
    }

    /// A replacement goes on to the write exactly when the package is valid,
    /// the expected etag is the stored one and the new etag is another; the
    /// write is then well formed and one revision past the stored vault.
    pub proof fn lemma_replace_ok(self, existing: VaultView, new_etag: Seq<char>)
        ensures
            self.replace(existing, new_etag) is Ok <==> self.package.is_valid()
                && self.expected_etag == existing.etag && new_etag != existing.etag,
            self.replace(existing, new_etag) is Ok ==> ({
                let store = self.replace(existing, new_etag)->Ok_0;
                &&& store.wf()
                &&& store.expected_etag == self.expected_etag
                &&& store.updated.etag == new_etag
                &&& store.updated.package == self.package
                &&& store.updated.updated_at == self.now
                &&& store.updated.id == existing.id
                &&& store.updated.owner_id == existing.owner_id
                &&& store.updated.created_at == existing.created_at
                &&& store.updated.revision == Revision::spec_next(existing.revision)
            }),
    {
    }
}

impl PendingStoreView {
    /// What the answer to the conditional write means to the caller: the new
    /// etag and revision if the write went through, else the repository's
    /// error as the caller sees it.
    pub open spec fn finish(self, stored: Result<(), RepositoryErrorView>) -> Result<
        (Seq<char>, nat),
        AppErrorView,
    > {
        match stored {
            Ok(()) => Ok((self.updated.etag, self.updated.revision)),
            Err(e) => Err(AppErrorView::from_repository(e)),
        }
    }
}

impl<R, E> PutVault<R, E> where E: EtagGenerator {
    /// The use case over a repository and a generator of etags.
    pub fn new(vault_repository: R, etag_generator: E) -> (uc: Self)
        ensures
            uc.vault_repository == vault_repository,
            uc.etag_generator == etag_generator,
    {
        Self { vault_repository, etag_generator }
    }

    /// Opens a replacement of the package of `owner_id`'s vault. Next comes
    /// the repository's `find_by_owner` on that owner.
    pub fn begin(
        &self,
        owner_id: OwnerSub,
        expected_etag: Etag,
        package: VaultPackage,
        now: Timestamp,
    ) -> (pending: PendingLookup)
        ensures
            pending.owner_id == owner_id,
            pending.expected_etag == expected_etag,
            pending.package == package,
            pending.now == now,
    {
        PendingLookup { owner_id, expected_etag, package, now }
    }

    /// Takes the repository's answer to the lookup. A failed lookup is
    /// reported as it is, and an owner without a vault as not found. For a
    /// vault that was found, the generator is asked for the etag of the new
    /// package, and what it answers decides the update as `replace` says; on
    /// `Ok`, next comes the repository's `update_if_match` on the vault and
    /// the expected etag of the result.
    pub fn found(
        &self,
        pending: PendingLookup,
        found: Result<Option<Vault>, RepositoryError>,
    ) -> (r: Result<PendingStore, AppError>)
        ensures
            match found {
                Err(e) => r is Err && r->Err_0@ == AppErrorView::from_repository(e@),
                Ok(None) => r is Err && r->Err_0@ == owner_not_found(pending.owner_id@),
                Ok(Some(existing)) => exists|new_etag: Etag|
                    call_ensures(
                        E::generate,
                        (&self.etag_generator, &pending.package),
                        new_etag,
                    ) && store_outcome(r) == pending@.replace(existing@, new_etag@),
            },
            found matches Ok(Some(existing)) && !pending.package@.is_valid() ==> r is Err
                && r->Err_0@ == AppErrorView::from_domain(pending.package@.violation()->Some_0),
            found matches Ok(Some(existing)) && pending.package@.is_valid()
                && pending.expected_etag@ != existing.etag@ ==> r is Err && r->Err_0@
                == (AppErrorView::Conflict {
                kind: ConflictKind::Concurrency,
                resource: Resource::Vault,
                id: None,
            }),
            r is Ok ==> (found matches Ok(Some(existing)) && {
                &&& pending.package@.is_valid()
                &&& pending.expected_etag@ == existing.etag@
                &&& r->Ok_0.wf()
                &&& r->Ok_0.expected_etag@ == pending.expected_etag@
                &&& r->Ok_0.updated@.package == pending.package@
                &&& r->Ok_0.updated@.id == existing.id
                &&& r->Ok_0.updated@.owner_id == existing.owner_id@
                &&& r->Ok_0.updated@.created_at == existing.created_at
                &&& r->Ok_0.updated@.updated_at == pending.now
                &&& r->Ok_0.updated@.revision == Revision::spec_next(existing.revision@)
            }),
    {
        let existing = match found {
            Err(e) => {
                return Err(AppError::from(e));
            },
            Ok(None) => {
                return Err(
                    AppError::NotFound {
                        resource: Resource::Vault,
                        id: Some(pending.owner_id.0.clone()),
                    },
                );
            },
            Ok(Some(existing)) => existing,
        };
        let new_etag = self.etag_generator.generate(&pending.package);
        let ghost generated = new_etag;
        let r = pending.replace(&existing, new_etag);
        assert(call_ensures(E::generate, (&self.etag_generator, &pending.package), generated)
            && store_outcome(r) == pending@.replace(existing@, generated@));
        r
    }

    /// Takes the repository's answer to the conditional write and closes the
    /// operation, as `PendingStore::finish` says. A lost race is a concurrency
    /// conflict even though the update itself was accepted.
    pub fn stored(&self, pending: PendingStore, stored: Result<(), RepositoryError>) -> (r: Result<
        (Etag, u64),
        AppError,
    >)
        ensures
            put_outcome(r) == pending@.finish(repository_outcome(stored)),
            r is Ok <==> stored is Ok,
            r is Ok && pending.wf() ==> r->Ok_0.0@ != pending.expected_etag@ && r->Ok_0.1 >= 1,
    {
        pending.finish(stored)
    }
}

} // verus!
