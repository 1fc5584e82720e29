use lodestone::error::AuthError;
use lodestone::password::{hash_password, hash_password_with_salt, verify_password};

#[test]
fn hash_puis_verifie() {
    let hash = hash_password("motdepasse123").unwrap();
    assert!(verify_password("motdepasse123", &hash).unwrap());
    assert!(!verify_password("mauvais", &hash).unwrap());
}

#[test]
fn deux_hachages_different() {
    let h1 = hash_password("meme").unwrap();
    let h2 = hash_password("meme").unwrap();
    assert_ne!(h1, h2);
    assert!(verify_password("meme", &h1).unwrap());
    assert!(verify_password("meme", &h2).unwrap());
}

#[test]
fn hash_is_an_argon2id_phc_string() {
    let hash = hash_password("secret-pass").unwrap();
    assert!(hash.starts_with("$argon2id$"));
    let empty = hash_password("").unwrap();
    assert!(empty.starts_with("$argon2id$"));
    assert!(verify_password("", &empty).unwrap());
    assert!(!verify_password("x", &empty).unwrap());
}

#[test]
fn malformed_stored_hash_is_invalid_hash() {
    let r = verify_password("whatever", "not a phc string");
    assert!(matches!(r, Err(AuthError::InvalidHash)));
    let r = verify_password("whatever", "");
    assert!(matches!(r, Err(AuthError::InvalidHash)));
}

#[test]
fn hash_depends_only_on_password_and_salt() {
    let salt = [7u8; 16];
    let a = hash_password_with_salt("motdepasse", &salt).unwrap();
    let b = hash_password_with_salt("motdepasse", &salt).unwrap();
    assert_eq!(a, b);
    assert!(a.starts_with("$argon2id$"));
    assert!(verify_password("motdepasse", &a).unwrap());
    let c = hash_password_with_salt("motdepasse", &[8u8; 16]).unwrap();
    assert_ne!(a, c);
}
