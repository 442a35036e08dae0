use chipin::errors::AppError;
use chipin::hashing::{hash, verify};

#[test]
fn test_hash_and_verify_password() {
    let password = "SecurePass123!";
    let hashed = hash(password).unwrap();
    assert!(verify(password, &hashed).unwrap());
    assert!(!verify("wrongpassword", &hashed).unwrap());
}

#[test]
fn test_hash_and_verify_pin() {
    let pin = "4821";
    let hashed = hash(pin).unwrap();
    assert!(verify(pin, &hashed).unwrap());
    assert!(!verify("0000", &hashed).unwrap());
}

#[test]
fn test_unique_hashes() {
    // Same value should produce different hashes (different salts)
    let password = "SamePassword1!";
    let hash1 = hash(password).unwrap();
    let hash2 = hash(password).unwrap();
    assert_ne!(hash1, hash2);
    // But both should verify correctly
    assert!(verify(password, &hash1).unwrap());
    assert!(verify(password, &hash2).unwrap());
}

#[test]
fn verify_rejects_text_that_is_no_hash() {
    match verify("secret", "not-a-hash") {
        Err(AppError::Internal(m)) => assert!(m.starts_with("Invalid hash: ")),
        other => panic!("unexpected: {:?}", other),
    }
}

#[test]
fn hash_is_argon2id_phc_text() {
    let h = hash("Pass1234").unwrap();
    assert!(h.starts_with("$argon2id$"));
}
