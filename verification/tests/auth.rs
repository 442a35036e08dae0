use chipin::auth::{
    blacklist_ttl_seconds, check_sign_in, map_otp_purpose, otp_check_result, otp_message,
    otp_rate_check, otp_sent_response, refresh_check, register_step2, register_step3,
    register_step4, reset_password_checks, send_otp_gate, validate_date_of_birth,
    validate_date_of_birth_at, validate_password_strength, OtpPurpose, RegisterStep2Request,
    RegisterStep4Request, RegistrationSession, ResetPasswordRequest, SendOtpGate, Step1Details,
};
use chipin::clock::Timestamp;
use chipin::codes;
use chipin::errors::AppError;
use chipin::hashing;
use chipin::users::User;

#[test]
fn test_validate_password_strength() {
    assert!(validate_password_strength("SecurePass1").is_ok());
    assert!(validate_password_strength("short1A").is_err()); // too short
    assert!(validate_password_strength("alllowercase1").is_err()); // no uppercase
    assert!(validate_password_strength("NoDigitsHere").is_err()); // no digit
}

#[test]
fn test_validate_date_of_birth() {
    assert!(validate_date_of_birth("15/06/1990").is_ok());
    assert!(validate_date_of_birth("15-06-1990").is_err()); // wrong format
    assert!(validate_date_of_birth("32/01/1990").is_err()); // invalid day
    assert!(validate_date_of_birth("01/13/1990").is_err()); // invalid month
    assert!(validate_date_of_birth("01/01/2020").is_err()); // under 18
}

#[test]
fn test_otp_message_contains_code() {
    let otp = "482931";
    let msg = otp_message(otp, &OtpPurpose::Register);
    assert!(msg.contains(otp));
    let msg = otp_message(otp, &OtpPurpose::ResetPassword);
    assert!(msg.contains(otp));
    let msg = otp_message(otp, &OtpPurpose::Withdraw);
    assert!(msg.contains(otp));
}

fn bad_request_text<T: std::fmt::Debug>(r: Result<T, AppError>) -> String {
    match r {
        Err(AppError::BadRequest(m)) => m,
        other => panic!("expected a bad request, got {:?}", other),
    }
}

#[test]
fn password_messages_in_order() {
    assert_eq!(bad_request_text(validate_password_strength("Ab1")), "Password must be at least 8 characters");
    assert_eq!(
        bad_request_text(validate_password_strength("abcdefgh1")),
        "Password must contain at least one uppercase letter"
    );
    assert_eq!(
        bad_request_text(validate_password_strength("Abcdefghi")),
        "Password must contain at least one number"
    );
    // Characters are counted, not bytes: seven characters are too few though
    // "é" takes two bytes.
    assert_eq!(bad_request_text(validate_password_strength("Aé12345")), "Password must be at least 8 characters");
    assert!(validate_password_strength("Aé123456").is_ok());
    // A non-ASCII capital counts as upper case.
    assert!(validate_password_strength("Ωmega1234").is_ok());
}

#[test]
fn date_of_birth_rules_at_a_fixed_year() {
    assert!(validate_date_of_birth_at("15/06/1990", 2026).is_ok());
    assert_eq!(
        bad_request_text(validate_date_of_birth_at("15-06-1990", 2026)),
        "Date of birth must be in DD/MM/YYYY format"
    );
    assert_eq!(bad_request_text(validate_date_of_birth_at("aa/06/1990", 2026)), "Invalid date of birth");
    assert_eq!(bad_request_text(validate_date_of_birth_at("32/01/1990", 2026)), "Invalid day in date of birth");
    assert_eq!(bad_request_text(validate_date_of_birth_at("01/13/1990", 2026)), "Invalid month in date of birth");
    assert_eq!(
        bad_request_text(validate_date_of_birth_at("01/01/2009", 2026)),
        "You must be at least 18 years old to use StockFair"
    );
    assert!(validate_date_of_birth_at("31/12/2008", 2026).is_ok());
    assert!(validate_date_of_birth_at("01/01/1899", 2026).is_err());
    assert!(validate_date_of_birth_at("+1/+1/1990", 2026).is_ok());
    assert!(validate_date_of_birth_at("01/01/1990/5", 2026).is_err());
}

#[test]
fn otp_messages_exact() {
    assert_eq!(
        otp_message("123456", &OtpPurpose::Register),
        "Welcome to StockFair! Your verification code is: 123456. Valid for 5 minutes. Do not share this code with anyone."
    );
    assert_eq!(
        otp_message("123456", &OtpPurpose::Withdraw),
        "StockFair withdrawal authorisation code: 123456. Valid for 5 minutes. Never share this code."
    );
    assert_eq!(map_otp_purpose(&OtpPurpose::ResetPassword), codes::OtpPurpose::ResetPassword);
}

#[test]
fn send_otp_gate_rules() {
    assert_eq!(bad_request_text(send_otp_gate(&OtpPurpose::Register, false, false)), "Invalid SA mobile number");
    match send_otp_gate(&OtpPurpose::Register, true, true) {
        Err(AppError::Conflict(m)) => assert_eq!(m, "This phone number is already registered"),
        other => panic!("{:?}", other),
    }
    match send_otp_gate(&OtpPurpose::ResetPassword, true, false) {
        Ok(SendOtpGate::Respond(r)) => {
            assert_eq!(r.message, "If this number is registered, you will receive an OTP shortly");
            assert_eq!(r.expires_in_seconds, 300);
            assert!(r.debug_otp.is_none());
        },
        other => panic!("{:?}", other),
    }
    assert!(matches!(send_otp_gate(&OtpPurpose::ResetPassword, true, true), Ok(SendOtpGate::Proceed)));
    assert!(matches!(send_otp_gate(&OtpPurpose::Withdraw, true, false), Ok(SendOtpGate::Proceed)));
    assert!(otp_rate_check(true).is_ok());
    assert_eq!(
        bad_request_text(otp_rate_check(false)),
        "Too many OTP requests. Please wait 10 minutes before trying again."
    );
    assert_eq!(bad_request_text(otp_check_result(false)), "Invalid or expired OTP. Please request a new one.");
}

#[test]
fn debug_otp_only_outside_production() {
    let r = otp_sent_response("123456".to_string(), true);
    assert!(r.debug_otp.is_none());
    assert_eq!(r.message, "OTP sent via SMS and WhatsApp");
    let r = otp_sent_response("123456".to_string(), false);
    assert_eq!(r.debug_otp.as_deref(), Some("123456"));
}

fn step1() -> Step1Details {
    Step1Details {
        first_name: "Thandi".to_string(),
        last_name: "Mokoena".to_string(),
        date_of_birth: "15/06/1990".to_string(),
        gender: "female".to_string(),
    }
}

fn step2_payload(password: &str, confirm: &str) -> RegisterStep2Request {
    RegisterStep2Request {
        phone: "0821234567".to_string(),
        email: Some("thandi@example.com".to_string()),
        password: password.to_string(),
        confirm_password: confirm.to_string(),
    }
}

#[test]
fn registration_step2_checks_in_order() {
    let phone = "+27821234567".to_string();
    assert_eq!(
        bad_request_text(register_step2(None, phone.clone(), true, false, false, step2_payload("SecurePass1", "SecurePass1"))),
        "Registration session expired. Please start again."
    );
    assert_eq!(
        bad_request_text(register_step2(Some(step1()), phone.clone(), false, false, false, step2_payload("SecurePass1", "SecurePass1"))),
        "Invalid SA mobile number"
    );
    match register_step2(Some(step1()), phone.clone(), true, false, true, step2_payload("SecurePass1", "SecurePass1")) {
        Err(AppError::Conflict(m)) => assert_eq!(m, "This email address is already registered"),
        other => panic!("{:?}", other),
    }
    assert_eq!(
        bad_request_text(register_step2(Some(step1()), phone.clone(), true, false, false, step2_payload("SecurePass1", "SecurePass2"))),
        "Passwords do not match"
    );
    let (key, session, reply) =
        register_step2(Some(step1()), phone.clone(), true, false, false, step2_payload("SecurePass1", "SecurePass1")).unwrap();
    assert_eq!(key, "reg_session:+27821234567");
    assert_eq!(reply.message, phone);
    assert_eq!(session.language.as_deref(), Some("en"));
    assert_eq!(session.theme.as_deref(), Some("obsidian"));
    assert!(hashing::verify("SecurePass1", session.password_hash.as_deref().unwrap()).unwrap());

    let (session, reply) = register_step3(true, Some(session), "zu").unwrap();
    assert_eq!(session.language.as_deref(), Some("zu"));
    assert_eq!(reply.message, "Language preference saved");

    let payload = RegisterStep4Request {
        interests: vec!["savings".to_string()],
        terms_accepted: true,
        theme: None,
    };
    let created = register_step4(true, payload, Some(session), "+27821234567").unwrap();
    assert_eq!(created.full_name, "Thandi Mokoena");
    assert_eq!(created.language, "zu");
    assert_eq!(created.theme, "obsidian");
    assert_eq!(created.interests, vec!["savings".to_string()]);
}

fn empty_session() -> RegistrationSession {
    RegistrationSession {
        phone: "+27821234567".to_string(),
        first_name: Some("  Sipho ".to_string()),
        last_name: None,
        date_of_birth: None,
        gender: None,
        email: None,
        password_hash: Some("$argon2id$x".to_string()),
        language: None,
        theme: None,
        interests: vec![],
    }
}

#[test]
fn registration_step4_defaults_and_refusals() {
    let p = |terms: bool, interests: Vec<String>| RegisterStep4Request { interests, terms_accepted: terms, theme: Some("light".to_string()) };
    assert_eq!(
        bad_request_text(register_step4(false, p(true, vec!["a".into()]), Some(empty_session()), "+27")),
        "Phone number not verified. Please complete OTP verification first."
    );
    assert_eq!(
        bad_request_text(register_step4(true, p(false, vec!["a".into()]), Some(empty_session()), "+27")),
        "You must accept the Terms of Service, Privacy Policy, and POPIA Notice"
    );
    assert_eq!(
        bad_request_text(register_step4(true, p(true, vec![]), Some(empty_session()), "+27")),
        "Please select at least one stokvel interest"
    );
    assert_eq!(
        bad_request_text(register_step4(true, p(true, vec!["a".into()]), None, "+27")),
        "Registration session expired. Please start again."
    );
    let mut no_hash = empty_session();
    no_hash.password_hash = None;
    assert!(matches!(register_step4(true, p(true, vec!["a".into()]), Some(no_hash), "+27"), Err(AppError::Internal(_))));
    let c = register_step4(true, p(true, vec!["a".into()]), Some(empty_session()), "+27").unwrap();
    assert_eq!(c.full_name, "Sipho ");
    assert_eq!(c.gender, "prefer_not_to_say");
    assert_eq!(c.language, "en");
    assert_eq!(c.theme, "light");
    assert_eq!(c.date_of_birth, "");
}

fn user(active: bool, password: Option<&str>) -> User {
    User {
        id: 7,
        phone: "+27821234567".to_string(),
        email: None,
        full_name: "Thandi Mokoena".to_string(),
        avatar_url: None,
        password_hash: password.map(|p| hashing::hash(p).unwrap()),
        pin_hash: None,
        language: "en".to_string(),
        theme: "obsidian".to_string(),
        is_active: active,
        is_phone_verified: true,
        is_kyc_verified: false,
        created_at: Timestamp { seconds: 1_700_000_000, nanos: 0 },
        updated_at: Timestamp { seconds: 1_700_000_000, nanos: 0 },
    }
}

#[test]
fn sign_in_rules() {
    assert_eq!(bad_request_text(check_sign_in(&None, "SecurePass1")), "Invalid credentials");
    assert_eq!(bad_request_text(check_sign_in(&Some(user(true, None)), "SecurePass1")), "Invalid credentials");
    assert_eq!(bad_request_text(check_sign_in(&Some(user(true, Some("SecurePass1"))), "Wrong1234")), "Invalid credentials");
    assert!(matches!(check_sign_in(&Some(user(false, Some("SecurePass1"))), "SecurePass1"), Err(AppError::Forbidden)));
    assert!(check_sign_in(&Some(user(true, Some("SecurePass1"))), "SecurePass1").is_ok());
}

#[test]
fn reset_and_refresh_rules() {
    let req = ResetPasswordRequest {
        phone: "+27821234567".to_string(),
        otp_token: "t".to_string(),
        new_password: "NewPass123".to_string(),
        confirm_new_password: "NewPass124".to_string(),
    };
    assert_eq!(bad_request_text(reset_password_checks(&req)), "Passwords do not match");
    assert!(matches!(refresh_check(true, &Some(user(true, None))), Err(AppError::Unauthorized)));
    assert!(matches!(refresh_check(false, &None), Err(AppError::Unauthorized)));
    assert!(matches!(refresh_check(false, &Some(user(false, None))), Err(AppError::Unauthorized)));
    assert!(refresh_check(false, &Some(user(true, None))).is_ok());
    assert_eq!(blacklist_ttl_seconds(1_000, 400), 600);
    assert_eq!(blacklist_ttl_seconds(400, 1_000), 0);
}
