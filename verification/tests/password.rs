use nbsp::password::{hash_password, verify_password, PasswordError};

#[test]
fn test_verify_password_matches() {
    let plaintext = "BEARbearean_123".as_bytes();
    let hash = Some(hash_password(plaintext).unwrap());
    assert!(
        verify_password(plaintext, hash.as_deref()).unwrap(),
        "passwords should match"
    );
}

#[test]
fn test_verify_password_not_matches() {
    let plaintext = "BEARbearean_123".as_bytes();
    let hash = Some(hash_password(b"incorrect").unwrap());
    assert!(
        !verify_password(plaintext, hash.as_deref()).unwrap(),
        "passwords should not match"
    );
}

#[test]
fn test_verify_password_not_matches_none() {
    let plaintext = "BEARbearean_123".as_bytes();
    let hash: Option<String> = None;
    assert!(
        !verify_password(plaintext, hash.as_deref()).unwrap(),
        "verify_password should return false on hashed_password=None"
    );
}

#[test]
fn malformed_hash_is_an_error() {
    assert_eq!(
        verify_password(b"anything", Some("not a phc string")),
        Err(PasswordError::MalformedHash)
    );
}

#[test]
fn hashes_are_salted_argon2_phc_strings() {
    let first = hash_password(b"same password").unwrap();
    let second = hash_password(b"same password").unwrap();
    assert!(first.starts_with("$argon2id$"));
    assert_ne!(first, second);
    assert!(verify_password(b"same password", Some(&first)).unwrap());
    assert!(verify_password(b"same password", Some(&second)).unwrap());
}
