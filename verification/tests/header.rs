use vault_core::domain::shared::errors::DomainError;
use vault_core::domain::vault::header::{KdfAlg, KdfParams, KdfSpec, VaultHeader};
use vault_core::domain::vault::value_objects::CryptoVersion;

fn kdf(salt: usize, m_kib: u32, t: u32, p: u32) -> KdfSpec {
    KdfSpec { alg: KdfAlg::Argon2id, salt: vec![1; salt], params: KdfParams { m_kib, t, p } }
}

fn header(salt: usize, m_kib: u32, t: u32, p: u32, key: usize) -> VaultHeader {
    VaultHeader {
        crypto_version: CryptoVersion::v1(),
        kdf: kdf(salt, m_kib, t, p),
        wrapped_vault_key: vec![2; key],
    }
}

fn header_violation(r: Result<(), DomainError>) -> (&'static str, String) {
    match r {
        Err(DomainError::Validation { field, message }) => (field, message),
        other => panic!("expected a validation error, got {:?}", other),
    }
}

#[test]
fn salt_must_be_minimum_size() {
    let spec = KdfSpec {
        alg: KdfAlg::Argon2id,
        salt: vec![1; 8],
        params: KdfParams { m_kib: 131_072, t: 3, p: 1 },
    };

    assert!(spec.validate().is_err());
}

#[test]
fn memory_must_be_sufficient() {
    let spec = KdfSpec {
        alg: KdfAlg::Argon2id,
        salt: vec![1; 16],
        params: KdfParams { m_kib: 1024, t: 3, p: 1 },
    };

    assert!(spec.validate().is_err());
}

#[test]
fn kdf_at_the_floors_validates() {
    assert!(kdf(16, 32768, 1, 1).validate().is_ok());
    assert!(kdf(64, u32::MAX, u32::MAX, u32::MAX).validate().is_ok());
}

#[test]
fn kdf_just_below_a_floor_names_the_field() {
    assert_eq!(
        header_violation(kdf(15, 32768, 1, 1).validate()),
        ("kdf.salt", "must be at least 16 bytes".to_string())
    );
    assert_eq!(
        header_violation(kdf(16, 32767, 1, 1).validate()),
        ("kdf.params.m_kib", "must be at least 32 MiB (32768 KiB)".to_string())
    );
    assert_eq!(
        header_violation(kdf(16, 32768, 0, 1).validate()),
        ("kdf.params.t", "must be at least 1".to_string())
    );
    assert_eq!(
        header_violation(kdf(16, 32768, 1, 0).validate()),
        ("kdf.params.p", "must be at least 1".to_string())
    );
}

#[test]
fn kdf_reports_the_first_broken_floor() {
    assert_eq!(header_violation(kdf(0, 0, 0, 0).validate()).0, "kdf.salt");
    assert_eq!(header_violation(kdf(16, 0, 0, 0).validate()).0, "kdf.params.m_kib");
    assert_eq!(header_violation(kdf(16, 32768, 0, 0).validate()).0, "kdf.params.t");
    assert_eq!(header_violation(kdf(16, 32768, 1, 0).validate()).0, "kdf.params.p");
}

#[test]
fn kdf_validation_is_repeatable() {
    let good = kdf(16, 32768, 1, 1);
    assert!(good.validate().is_ok());
    assert!(good.validate().is_ok());
    let bad = kdf(16, 32768, 0, 1);
    assert_eq!(header_violation(bad.validate()), header_violation(bad.validate()));
}

#[test]
fn header_checks_the_wrapped_key() {
    assert!(header(16, 32768, 1, 1, 32).validate().is_ok());
    assert_eq!(
        header_violation(header(16, 32768, 1, 1, 31).validate()),
        ("wrapped_vault_key", "too small (min 32 bytes)".to_string())
    );
    assert_eq!(
        header_violation(header(16, 32768, 1, 1, 0).validate()).0,
        "wrapped_vault_key"
    );
}

#[test]
fn header_checks_the_kdf_before_the_key() {
    assert_eq!(header_violation(header(8, 32768, 1, 1, 0).validate()).0, "kdf.salt");
    assert_eq!(header_violation(header(16, 32768, 1, 0, 0).validate()).0, "kdf.params.p");
}

#[test]
fn header_does_not_look_at_the_crypto_version() {
    let mut h = header(16, 32768, 1, 1, 32);
    h.crypto_version = CryptoVersion(0);
    assert!(h.validate().is_ok());
}
