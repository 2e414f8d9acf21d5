use vault_core::application::errors::{AppError, ConflictKind, Resource};
use vault_core::domain::shared::errors::DomainError;
use vault_core::ports::RepositoryError;

#[test]
fn resource_and_conflict_kind_have_names() {
    assert_eq!(Resource::Vault.to_string(), "vault");
    assert_eq!(ConflictKind::Concurrency.to_string(), "concurrency");
    assert_eq!(ConflictKind::AlreadyExists.to_string(), "already_exists");
}

#[test]
fn domain_not_found_becomes_not_found() {
    let e = AppError::from(DomainError::NotFound { resource: "vault-7".to_string() });
    match e {
        AppError::NotFound { resource, id } => {
            assert_eq!(resource, Resource::Vault);
            assert_eq!(id, Some("vault-7".to_string()));
        }
        other => panic!("expected not found, got {:?}", other),
    }
}

#[test]
fn domain_conflict_becomes_a_concurrency_conflict() {
    let e = AppError::from(DomainError::Conflict {
        expected: "etag-1".to_string(),
        actual: "etag-2".to_string(),
    });
    match e {
        AppError::Conflict { kind, resource, id } => {
            assert_eq!(kind, ConflictKind::Concurrency);
            assert_eq!(resource, Resource::Vault);
            assert_eq!(id, None);
        }
        other => panic!("expected a conflict, got {:?}", other),
    }
}

#[test]
fn domain_validation_stays_as_it_is() {
    let e = AppError::from(DomainError::Validation {
        field: "kdf.salt",
        message: "must be at least 16 bytes".to_string(),
    });
    match e {
        AppError::Validation { field, message } => {
            assert_eq!(field, "kdf.salt");
            assert_eq!(message, "must be at least 16 bytes");
        }
        other => panic!("expected a validation error, got {:?}", other),
    }
}

#[test]
fn repository_not_found_becomes_not_found() {
    let e = AppError::from(RepositoryError::NotFound { owner: "user1".to_string() });
    match e {
        AppError::NotFound { resource, id } => {
            assert_eq!(resource, Resource::Vault);
            assert_eq!(id, Some("user1".to_string()));
        }
        other => panic!("expected not found, got {:?}", other),
    }
}

#[test]
fn repository_conflict_becomes_a_concurrency_conflict() {
    let e = AppError::from(RepositoryError::ConcurrencyConflict { vault_id: "some-id".to_string() });
    match e {
        AppError::Conflict { kind, resource, id } => {
            assert_eq!(kind, ConflictKind::Concurrency);
            assert_eq!(resource, Resource::Vault);
            assert_eq!(id, Some("some-id".to_string()));
        }
        other => panic!("expected a conflict, got {:?}", other),
    }
}

#[test]
fn repository_failure_becomes_an_infrastructure_error() {
    let e = AppError::from(RepositoryError::Database { message: "connection reset".to_string() });
    match e {
        AppError::Infrastructure { message } => assert_eq!(message, "connection reset"),
        other => panic!("expected an infrastructure error, got {:?}", other),
    }
}

#[test]
fn errors_convert_through_into() {
    let from_domain: AppError = DomainError::NotFound { resource: "v".to_string() }.into();
    assert!(matches!(from_domain, AppError::NotFound { .. }));
    let from_repository: AppError = RepositoryError::Database { message: "m".to_string() }.into();
    assert!(matches!(from_repository, AppError::Infrastructure { .. }));
}
