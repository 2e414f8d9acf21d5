use vault_core::domain::shared::errors::DomainError;
use vault_core::domain::vault::header::{KdfAlg, KdfParams, KdfSpec, VaultHeader};
use vault_core::domain::vault::package::{CipherBlob, VaultPackage};
use vault_core::domain::vault::value_objects::CryptoVersion;

fn blob(nonce: usize, aad: usize, ciphertext: usize) -> CipherBlob {
    CipherBlob { nonce: vec![3; nonce], aad: vec![9; aad], ciphertext: vec![4; ciphertext] }
}

fn package(salt: usize, key: usize, nonce: usize, ciphertext: usize) -> VaultPackage {
    VaultPackage {
        header: VaultHeader {
            crypto_version: CryptoVersion::v1(),
            kdf: KdfSpec {
                alg: KdfAlg::Argon2id,
                salt: vec![1; salt],
                params: KdfParams { m_kib: 131_072, t: 3, p: 1 },
            },
            wrapped_vault_key: vec![2; key],
        },
        blob: blob(nonce, 0, ciphertext),
    }
}

fn package_violation(r: Result<(), DomainError>) -> (&'static str, String) {
    match r {
        Err(DomainError::Validation { field, message }) => (field, message),
        other => panic!("expected a validation error, got {:?}", other),
    }
}

#[test]
fn blob_at_the_floors_validates() {
    assert!(blob(12, 0, 16).validate().is_ok());
    assert!(blob(24, 0, 32).validate().is_ok());
}

#[test]
fn blob_with_a_short_nonce_fails() {
    assert_eq!(
        package_violation(blob(11, 0, 16).validate()),
        ("blob.nonce", "nonce too small (min 12 bytes)".to_string())
    );
    assert_eq!(package_violation(blob(0, 0, 16).validate()).0, "blob.nonce");
}

#[test]
fn blob_with_a_short_ciphertext_fails() {
    assert_eq!(
        package_violation(blob(12, 0, 15).validate()),
        ("blob.ciphertext", "ciphertext too small (min 16 bytes)".to_string())
    );
    assert_eq!(package_violation(blob(12, 0, 0).validate()).0, "blob.ciphertext");
}

#[test]
fn blob_reports_the_nonce_before_the_ciphertext() {
    assert_eq!(package_violation(blob(11, 0, 15).validate()).0, "blob.nonce");
}

#[test]
fn blob_leaves_the_additional_data_free() {
    assert!(blob(12, 0, 16).validate().is_ok());
    assert!(blob(12, 1, 16).validate().is_ok());
    assert!(blob(12, 4096, 16).validate().is_ok());
}

#[test]
fn package_validates_header_and_blob() {
    assert!(package(16, 32, 12, 16).validate().is_ok());
    assert_eq!(package_violation(package(16, 31, 12, 16).validate()).0, "wrapped_vault_key");
    assert_eq!(package_violation(package(16, 32, 11, 16).validate()).0, "blob.nonce");
    assert_eq!(package_violation(package(16, 32, 12, 15).validate()).0, "blob.ciphertext");
}

#[test]
fn package_reports_the_header_before_the_blob() {
    assert_eq!(package_violation(package(8, 32, 0, 0).validate()).0, "kdf.salt");
    assert_eq!(package_violation(package(16, 0, 0, 0).validate()).0, "wrapped_vault_key");
}

#[test]
fn package_validation_is_repeatable() {
    let bad = package(16, 32, 12, 15);
    assert_eq!(package_violation(bad.validate()), package_violation(bad.validate()));
    let good = package(16, 32, 12, 16);
    assert!(good.validate().is_ok());
    assert!(good.validate().is_ok());
}
