use chipin::codes::{
    check_stored_code, generate_collection_code, generate_otp, generate_secure_token, otp_key,
    otp_rate_key, otp_token_key, phone_verified_key, rate_limit_decision, rate_limit_wait_seconds,
    CodeCheck, OtpPurpose, COLLECTION_CODE_LENGTH,
};
use std::collections::HashSet;

#[test]
fn test_collection_code_length() {
    let code = generate_collection_code();
    assert_eq!(code.len(), COLLECTION_CODE_LENGTH);
}

#[test]
fn test_collection_code_no_ambiguous_chars() {
    for _ in 0..100 {
        let code = generate_collection_code();
        assert!(!code.contains('0'));
        assert!(!code.contains('O'));
        assert!(!code.contains('1'));
        assert!(!code.contains('I'));
    }
}

#[test]
fn test_collection_codes_unique() {
    let codes: HashSet<String> = (0..100).map(|_| generate_collection_code()).collect();
    // All 100 should be unique
    assert_eq!(codes.len(), 100);
}

#[test]
fn test_otp_key_format() {
    let key = otp_key("+27821234567", "register");
    assert_eq!(key, "otp:register:+27821234567");
}

#[test]
fn test_secure_token_length() {
    let token = generate_secure_token();
    assert_eq!(token.len(), 64); // 32 bytes hex encoded
}

#[test]
fn secure_token_is_lower_hex_and_fresh() {
    let a = generate_secure_token();
    let b = generate_secure_token();
    assert!(a.chars().all(|c| c.is_ascii_digit() || ('a'..='f').contains(&c)));
    assert_ne!(a, b);
}

#[test]
fn otp_is_six_digits() {
    for _ in 0..50 {
        let otp = generate_otp();
        assert_eq!(otp.len(), 6);
        assert!(otp.chars().all(|c| c.is_ascii_digit()));
    }
}

#[test]
fn purposes_and_keys() {
    assert_eq!(OtpPurpose::Register.as_str(), "register");
    assert_eq!(OtpPurpose::ResetPassword.as_str(), "reset_password");
    assert_eq!(OtpPurpose::Withdraw.as_str(), "withdraw");
    assert_eq!(phone_verified_key("+27821234567"), "phone_verified:+27821234567");
    assert_eq!(otp_token_key("abc", "+27821234567"), "otp_token:abc:+27821234567");
    assert_eq!(
        otp_rate_key("+27821234567", &OtpPurpose::ResetPassword),
        "otp_rate:reset_password:+27821234567"
    );
}

#[test]
fn stored_code_checks() {
    assert_eq!(check_stored_code(None, "123456"), CodeCheck::Missing);
    assert_eq!(check_stored_code(Some("123456"), "654321"), CodeCheck::Mismatch);
    assert_eq!(check_stored_code(Some("123456"), "123456"), CodeCheck::Accepted);
}

#[test]
fn single_use_against_a_store() {
    // The store as the key-value service keeps it: an accepted code is deleted.
    let mut store: std::collections::HashMap<String, String> = std::collections::HashMap::new();
    let key = otp_key("+27821234567", "register");
    store.insert(key.clone(), "482931".to_string());
    let first = check_stored_code(store.get(&key).map(|s| s.as_str()), "482931");
    assert_eq!(first, CodeCheck::Accepted);
    store.remove(&key);
    let second = check_stored_code(store.get(&key).map(|s| s.as_str()), "482931");
    assert_eq!(second, CodeCheck::Missing);
}

#[test]
fn rate_limit_allows_three_per_window() {
    let first = rate_limit_decision(1);
    assert!(first.start_window && first.within_limit);
    let third = rate_limit_decision(3);
    assert!(!third.start_window && third.within_limit);
    let fourth = rate_limit_decision(4);
    assert!(!fourth.start_window && !fourth.within_limit);
    let allowed = (1..=10).filter(|c| rate_limit_decision(*c).within_limit).count();
    assert_eq!(allowed, 3);
}

#[test]
fn rate_limit_wait_never_negative() {
    assert_eq!(rate_limit_wait_seconds(-2), 0);
    assert_eq!(rate_limit_wait_seconds(-1), 0);
    assert_eq!(rate_limit_wait_seconds(0), 0);
    assert_eq!(rate_limit_wait_seconds(421), 421);
}
