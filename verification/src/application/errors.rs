//! The errors that callers of the use cases see.

use crate::domain::shared::errors::{DomainError, DomainErrorView};
use crate::ports::{RepositoryError, RepositoryErrorView};
use vstd::prelude::*;
use vstd::std_specs::convert::FromSpecImpl;

verus! {

/// The kind of thing that an error is about.
#[derive(Debug, Clone, Copy, PartialEq, Eq, Structural)]
pub enum Resource {
    Vault,
}

impl Resource {
    /// The resource's name in lower case.
    pub open spec fn name(self) -> Seq<char> {
        match self {
            Resource::Vault => "vault"@,
        }
    }

    /// The resource's name as text.
    pub fn to_string(&self) -> (s: String)
        ensures
            s@ == self.name(),
    {
        match self {
            Resource::Vault => "vault".to_owned(),
        }
    }
}

/// Why a write could not go through.
#[derive(Debug, Clone, Copy, PartialEq, Eq, Structural)]
pub enum ConflictKind {
    /// The etag or revision that the writer held is stale.
    Concurrency,
    /// The resource exists already.
    AlreadyExists,
}

impl ConflictKind {
    /// The kind's name in lower case.
    pub open spec fn name(self) -> Seq<char> {
        match self {
            ConflictKind::Concurrency => "concurrency"@,
            ConflictKind::AlreadyExists => "already_exists"@,
        }
    }

    /// The kind's name as text.
    pub fn to_string(&self) -> (s: String)
        ensures
            s@ == self.name(),
    {
        match self {
            ConflictKind::Concurrency => "concurrency".to_owned(),
            ConflictKind::AlreadyExists => "already_exists".to_owned(),
        }
    }
}

/// What a use case reports when it fails.
#[derive(Debug)]
pub enum AppError {
    NotFound { resource: Resource, id: Option<String> },
    Conflict { kind: ConflictKind, resource: Resource, id: Option<String> },
    Validation { field: &'static str, message: String },
    Infrastructure { message: String },
}

/// An `AppError` with its texts as sequences of characters.
pub enum AppErrorView {
    NotFound { resource: Resource, id: Option<Seq<char>> },
    Conflict { kind: ConflictKind, resource: Resource, id: Option<Seq<char>> },
    Validation { field: Seq<char>, message: Seq<char> },
    Infrastructure { message: Seq<char> },
}

/// The text of an optional identifier.
pub open spec fn id_view(id: Option<String>) -> Option<Seq<char>> {
    match id {
        Some(s) => Some(s@),
        None => None,
    }
}

impl View for AppError {
    type V = AppErrorView;

    open spec fn view(&self) -> AppErrorView {
        match *self {
            AppError::NotFound { resource, id } => AppErrorView::NotFound {
                resource,
                id: id_view(id),
            },
            AppError::Conflict { kind, resource, id } => AppErrorView::Conflict {
                kind,
                resource,
                id: id_view(id),
            },
            AppError::Validation { field, message } => AppErrorView::Validation {
                field: field@,
                message: message@,
            },
            AppError::Infrastructure { message } => AppErrorView::Infrastructure {
                message: message@,
            },
        }
    }
}

impl AppErrorView {
    /// What a domain error becomes at the boundary of a use case: a missing
    /// resource stays missing, a stale etag is a concurrency conflict on the
    /// vault, a violated invariant stays as it is.
    pub open spec fn from_domain(e: DomainErrorView) -> AppErrorView {
        match e {
            DomainErrorView::NotFound { resource } => AppErrorView::NotFound {
                resource: Resource::Vault,
                id: Some(resource),
            },
            DomainErrorView::Conflict { expected, actual } => AppErrorView::Conflict {
                kind: ConflictKind::Concurrency,
                resource: Resource::Vault,
                id: None,
            },
            DomainErrorView::Validation { field, message } => AppErrorView::Validation {
                field,
                message,
            },
        }
    }

    /// What a repository error becomes at the boundary of a use case: a
    /// missing vault stays missing, a lost race is a concurrency conflict, and
    /// a failure of the storage is an infrastructure error with its message.
    pub open spec fn from_repository(e: RepositoryErrorView) -> AppErrorView {
        match e {
            RepositoryErrorView::NotFound { owner } => AppErrorView::NotFound {
                resource: Resource::Vault,
                id: Some(owner),
            },
            RepositoryErrorView::ConcurrencyConflict { vault_id } => AppErrorView::Conflict {
                kind: ConflictKind::Concurrency,
                resource: Resource::Vault,
                id: Some(vault_id),
            },
            RepositoryErrorView::Database { message } => AppErrorView::Infrastructure { message },
        }
    }
}

impl From<DomainError> for AppError {
    fn from(e: DomainError) -> (r: Self)
        ensures
            r@ == AppErrorView::from_domain(e@),
    {
        match e {
            DomainError::NotFound { resource } => AppError::NotFound {
                resource: Resource::Vault,
                id: Some(resource),
            },
            DomainError::Conflict { expected: _, actual: _ } => AppError::Conflict {
                kind: ConflictKind::Concurrency,
                resource: Resource::Vault,
                id: None,
            },
            DomainError::Validation { field, message } => AppError::Validation { field, message },
        }
    }
}

impl FromSpecImpl<DomainError> for AppError {
    open spec fn obeys_from_spec() -> bool {
        true
    }

    open spec fn from_spec(e: DomainError) -> AppError {
        match e {
            DomainError::NotFound { resource } => AppError::NotFound {
                resource: Resource::Vault,
                id: Some(resource),
            },
            DomainError::Conflict { expected, actual } => AppError::Conflict {
                kind: ConflictKind::Concurrency,
                resource: Resource::Vault,
                id: None,
            },
            DomainError::Validation { field, message } => AppError::Validation { field, message },
        }
    }
}

impl From<RepositoryError> for AppError {
    fn from(e: RepositoryError) -> (r: Self)
        ensures
            r@ == AppErrorView::from_repository(e@),
    {
        match e {
            RepositoryError::NotFound { owner } => AppError::NotFound {
                resource: Resource::Vault,
                id: Some(owner),
            },
            RepositoryError::ConcurrencyConflict { vault_id } => AppError::Conflict {
                kind: ConflictKind::Concurrency,
                resource: Resource::Vault,
                id: Some(vault_id),
            },
            RepositoryError::Database { message } => AppError::Infrastructure { message },
        }
    }
}

impl FromSpecImpl<RepositoryError> for AppError {
    open spec fn obeys_from_spec() -> bool {
        true
    }

    open spec fn from_spec(e: RepositoryError) -> AppError {
        match e {
            RepositoryError::NotFound { owner } => AppError::NotFound {
                resource: Resource::Vault,
                id: Some(owner),
            },
            RepositoryError::ConcurrencyConflict { vault_id } => AppError::Conflict {
                kind: ConflictKind::Concurrency,
                resource: Resource::Vault,
                id: Some(vault_id),
            },
            RepositoryError::Database { message } => AppError::Infrastructure { message },
        }
    }
}

} // verus!
