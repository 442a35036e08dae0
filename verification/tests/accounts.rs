use chipin::clock::Timestamp;
use chipin::errors::AppError;
use chipin::grpc::{access_token_check, auth_interceptor, bearer_token, kyc_interceptor, map_user, parse_otp_purpose, StatusCode};
use chipin::payments::{build_provider, InternalProvider, Provider};
use chipin::service_config::Config;
use chipin::users::{insert_error, phone_lookup_candidate, UserProfile};
use chipin::web::{first_forwarded_address, format_validation_errors, FieldError};
use chipin::auth::OtpPurpose;

#[test]
fn error_statuses_and_messages() {
    let (s, m) = AppError::NotFound("User not found".to_string()).status_and_message();
    assert_eq!((s, m.as_str()), (404, "User not found"));
    let (s, m) = AppError::Internal("db down".to_string()).status_and_message();
    assert_eq!((s, m.as_str()), (500, "Internal server error"));
    let (s, m) = AppError::FraudDetected.status_and_message();
    assert_eq!((s, m.as_str()), (403, "Transaction blocked by Fraud Shield"));
    assert_eq!(AppError::InsufficientFunds.status_and_message().0, 422);
    assert_eq!(AppError::PaymentError("x".into()).status_and_message().0, 502);
    assert_eq!(AppError::BadRequest("Bad phone".into()).to_string(), "Bad request: Bad phone");
    assert_eq!(AppError::Internal("secret".into()).to_string(), "Internal error");
    assert_eq!(AppError::KycRequired.to_string(), "KYC required");
}

#[test]
fn bearer_tokens() {
    assert_eq!(bearer_token(Some("Bearer abc.def")).as_deref(), Some("abc.def"));
    assert_eq!(bearer_token(Some("bearer abc")), None);
    assert_eq!(bearer_token(Some("Token abc")), None);
    assert_eq!(bearer_token(Some("Bearer ")).as_deref(), Some(""));
    assert_eq!(bearer_token(None), None);
}

#[test]
fn interceptor_decisions() {
    let e = auth_interceptor(None).unwrap_err();
    assert_eq!((e.code, e.message.as_str()), (StatusCode::Unauthenticated, "Missing authorization token"));
    let e = auth_interceptor(Some("Basic abc")).unwrap_err();
    assert_eq!(e.message, "Missing authorization token");
    assert_eq!(auth_interceptor(Some("Bearer tok")).unwrap(), "tok");
    let e = access_token_check(false).unwrap_err();
    assert_eq!((e.code, e.message.as_str()), (StatusCode::Unauthenticated, "Invalid or expired token"));
    assert!(access_token_check(true).is_ok());
    let e = kyc_interceptor(Some(false)).unwrap_err();
    assert_eq!((e.code, e.message.as_str()), (StatusCode::PermissionDenied, "KYC verification required"));
    assert_eq!(kyc_interceptor(None).unwrap_err().code, StatusCode::Unauthenticated);
    assert!(kyc_interceptor(Some(true)).is_ok());
}

#[test]
fn otp_purposes_by_name() {
    assert_eq!(parse_otp_purpose("register").unwrap(), OtpPurpose::Register);
    assert_eq!(parse_otp_purpose("reset_password").unwrap(), OtpPurpose::ResetPassword);
    assert_eq!(parse_otp_purpose("withdraw").unwrap(), OtpPurpose::Withdraw);
    let e = parse_otp_purpose("Register").unwrap_err();
    assert_eq!((e.code, e.message.as_str()), (StatusCode::InvalidArgument, "Invalid OTP purpose"));
}

#[test]
fn profile_message() {
    let p = UserProfile {
        id: 0x0123_4567_89ab_cdef_0011_2233_4455_6677,
        phone: "+27821234567".to_string(),
        email: None,
        full_name: "Thandi Mokoena".to_string(),
        avatar_url: Some("https://img/1.png".to_string()),
        language: "en".to_string(),
        theme: "obsidian".to_string(),
        is_kyc_verified: true,
        created_at: Timestamp { seconds: 0, nanos: 0 },
    };
    let m = map_user(p);
    assert_eq!(m.id, "01234567-89ab-cdef-0011-223344556677");
    assert_eq!(m.email, "");
    assert_eq!(m.avatar_url, "https://img/1.png");
    assert_eq!(m.created_at, "1970-01-01 00:00:00 UTC");
    assert!(m.is_kyc_verified);
}

fn config(provider: &str, internal: bool) -> Config {
    Config {
        database_url: String::new(),
        redis_url: String::new(),
        jwt_secret: "s".to_string(),
        jwt_expiry_hours: 24,
        refresh_token_expiry_days: 30,
        app_env: "development".to_string(),
        app_port: 8080,
        app_host: "0.0.0.0".to_string(),
        payment_provider: provider.to_string(),
        ukheshe_base_url: "https://ukheshe".to_string(),
        ukheshe_client_id: "id".to_string(),
        ukheshe_client_secret: "secret".to_string(),
        ukheshe_webhook_secret: "hook".to_string(),
        internal_payments_enabled: internal,
        kyc_provider_url: String::new(),
        kyc_api_key: String::new(),
        sim_swap_api_url: String::new(),
        sim_swap_api_key: String::new(),
        fcm_server_key: String::new(),
        sendgrid_api_key: String::new(),
        whatsapp_api_url: String::new(),
        whatsapp_token: String::new(),
    }
}

#[test]
fn provider_selection() {
    match build_provider(&config("ukheshe", false)).unwrap() {
        Provider::Ukheshe(p) => {
            assert_eq!(p.base_url, "https://ukheshe");
            assert_eq!(p.name(), "ukheshe");
        },
        other => panic!("{:?}", other),
    }
    assert_eq!(build_provider(&config("internal", true)).unwrap().name(), "internal");
    assert!(build_provider(&config("internal", false)).unwrap_err().starts_with("Internal payments not enabled."));
    assert!(InternalProvider::new(&config("internal", false)).is_err());
    assert_eq!(build_provider(&config("paypal", true)).unwrap_err(), "Unknown payment provider: paypal");
    assert!(!config("internal", false).is_production());
}

#[test]
fn sign_in_identifiers() {
    assert_eq!(phone_lookup_candidate("082 123-4567").as_deref(), Some("0821234567"));
    assert_eq!(phone_lookup_candidate("+27 82 123 4567").as_deref(), Some("+27821234567"));
    assert_eq!(phone_lookup_candidate("thandi@example.com"), None);
    assert_eq!(phone_lookup_candidate(" - "), None);
}

#[test]
fn account_insert_errors() {
    match insert_error("ERROR: duplicate key value violates unique constraint") {
        AppError::Conflict(m) => assert_eq!(m, "Phone number or email already registered"),
        other => panic!("{:?}", other),
    }
    match insert_error("connection reset") {
        AppError::Internal(m) => assert_eq!(m, "User insert failed: connection reset"),
        other => panic!("{:?}", other),
    }
}

#[test]
fn validation_error_lines() {
    let errors = vec![
        FieldError { field: "phone".to_string(), message: Some("must be a mobile number".to_string()) },
        FieldError { field: "email".to_string(), message: None },
    ];
    assert_eq!(
        format_validation_errors(&errors),
        "phone: must be a mobile number, email: Invalid value for 'email'"
    );
    assert_eq!(format_validation_errors(&vec![]), "");
}

#[test]
fn forwarded_addresses() {
    assert_eq!(first_forwarded_address(" 10.0.0.1 , 172.16.0.1"), "10.0.0.1");
    assert_eq!(first_forwarded_address("192.168.1.9"), "192.168.1.9");
}

#[test]
fn new_accounts_start_empty() {
    let d = chipin::users::new_account_defaults();
    assert!(d.is_active && d.is_phone_verified && !d.is_kyc_verified);
    assert_eq!(d.wallet_balance.to_string(), "0.00");
    assert_eq!(d.fair_score, 380);
    assert_eq!(d.payment_history + d.consistency + d.group_activity + d.member_tenure, 0);
    assert!(!d.behavioral_analytics && !d.sim_swap_detection && !d.jailbreak_detection && !d.geofencing);
}
