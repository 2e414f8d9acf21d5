//! What the use cases need from outside: storage and etag derivation.

use vstd::prelude::*;

pub mod etag;

verus! {

/// A failure reported by the storage behind the repository.
#[derive(Debug)]
pub enum RepositoryError {
    /// No vault is stored for the owner.
    NotFound { owner: String },
    /// The stored etag is no longer the one that the writer expected.
    ConcurrencyConflict { vault_id: String },
    /// The storage itself failed.
    Database { message: String },
}

/// A `RepositoryError` with its texts as sequences of characters.
pub enum RepositoryErrorView {
    NotFound { owner: Seq<char> },
    ConcurrencyConflict { vault_id: Seq<char> },
    Database { message: Seq<char> },
}

impl View for RepositoryError {
    type V = RepositoryErrorView;

    open spec fn view(&self) -> RepositoryErrorView {
        match *self {
            RepositoryError::NotFound { owner } => RepositoryErrorView::NotFound { owner: owner@ },
            RepositoryError::ConcurrencyConflict { vault_id } => {
                RepositoryErrorView::ConcurrencyConflict { vault_id: vault_id@ }
            },
            RepositoryError::Database { message } => RepositoryErrorView::Database {
                message: message@,
            },
        }
    }
}

} // verus!
