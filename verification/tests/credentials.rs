use blog_core::credentials::{hash_password, verify_password};
use blog_core::error::AppError;

#[test]
fn hash_is_not_the_password() {
    let hash = hash_password("pw1").unwrap();
    assert_ne!(hash, "pw1");
    assert!(hash.starts_with("$argon2"));
}

#[test]
fn same_password_hashes_differently() {
    let first = hash_password("pw1").unwrap();
    let second = hash_password("pw1").unwrap();
    assert_ne!(first, second);
}

#[test]
fn password_verifies_against_its_hash() {
    let hash = hash_password("pw1").unwrap();
    assert_eq!(verify_password("pw1", &hash), Ok(true));
    assert_eq!(verify_password("pw2", &hash), Ok(false));
}

#[test]
fn known_hash_verifies() {
    let hash = "$argon2id$v=19$m=256,t=2,p=1$c29tZXNhbHQ$nf65EOgLrQMR/uIPnA4rEsF5h7TKyQwu9U1bMCHGi/4";
    assert_eq!(verify_password("password", hash), Ok(true));
    assert_eq!(verify_password("differentpassword", hash), Ok(false));
    assert_eq!(verify_password("", hash), Ok(false));
}

#[test]
fn malformed_hash_is_an_internal_error() {
    let verdict = verify_password("pw1", "this is no hash");
    assert!(matches!(verdict, Err(AppError::HashError(_))));
    let verdict = verify_password("pw1", "");
    assert!(matches!(verdict, Err(AppError::HashError(_))));
}

#[test]
fn empty_and_non_ascii_passwords_verify_against_their_hashes() {
    for password in ["", "p\u{00e4}ss w\u{00f6}rd \u{4e2d}\u{6587}"] {
        let hash = hash_password(password).unwrap();
        assert_ne!(hash, password);
        assert_eq!(verify_password(password, &hash), Ok(true));
    }
}
