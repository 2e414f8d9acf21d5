//! Failures that the domain itself produces.

use vstd::prelude::*;

verus! {

/// A failure raised by the aggregate or by one of its values.
#[derive(Debug, Clone)]
pub enum DomainError {
    /// The caller's expected etag is not the vault's current one.
    Conflict { expected: String, actual: String },
    /// An invariant of a value does not hold.
    Validation { field: &'static str, message: String },
    /// The named resource does not exist.
    NotFound { resource: String },
}

/// A `DomainError` with its texts as sequences of characters.
pub enum DomainErrorView {
    Conflict { expected: Seq<char>, actual: Seq<char> },
    Validation { field: Seq<char>, message: Seq<char> },
    NotFound { resource: Seq<char> },
}

impl View for DomainError {
    type V = DomainErrorView;

    open spec fn view(&self) -> DomainErrorView {
        match *self {
            DomainError::Conflict { expected, actual } => DomainErrorView::Conflict {
                expected: expected@,
                actual: actual@,
            },
            DomainError::Validation { field, message } => DomainErrorView::Validation {
                field: field@,
                message: message@,
            },
            DomainError::NotFound { resource } => DomainErrorView::NotFound {
                resource: resource@,
            },
        }
    }
}

impl DomainErrorView {
    /// The violation of an invariant, named by the field that breaks it.
    pub open spec fn validation(field: &str, message: &str) -> DomainErrorView {
        DomainErrorView::Validation { field: field@, message: message@ }
    }
}

impl DomainError {
    /// A `Validation` error on `field` that carries `message`.
    pub fn validation(field: &'static str, message: &str) -> (e: DomainError)
        ensures
            e@ == DomainErrorView::validation(field, message),
    {
        DomainError::Validation { field, message: message.to_owned() }
    }
}

} // verus!
