//! The rules of the accounts service: registration, OTP delivery and checks,
//! sign-in, password reset, token refresh and sign-out.
//!
//! Registration has four steps: personal details, contact details and password,
//! OTP verification of the phone, language, then interests and terms, which
//! create the account. The store, the database and the messaging channels are
//! reached by the caller; the functions here decide what happens with what they
//! return.

use vstd::prelude::*;
use crate::clock::{chrono_utc_year, current_year, is_clock_reading, Timestamp};
use crate::codes;
use crate::entropy::{new_id, uuid_shape};
use crate::errors::{AppError, bad_request, conflict, internal};
use crate::hashing::{self, argon2_verdict};
use crate::text::{
    char_is_uppercase, concat2, is_digit, parse_u32, parse_u32_spec, split_on, split_spec,
    str_equals, string_of, trim_spec, trimmed, unicode_is_uppercase,
};
use crate::users::{CreateUserPayload, User, UserProfile};

verus! {

/// How long a registration may take (30 minutes).
pub const REG_SESSION_TTL_SECONDS: u64 = 1800;

/// What an OTP is for, as clients name it.
#[derive(Debug, Clone, Copy, PartialEq, Eq, Structural)]
pub enum OtpPurpose {
    Register,
    ResetPassword,
    Withdraw,
}

/// The OTP store's purpose for a client's purpose.
pub fn map_otp_purpose(purpose: &OtpPurpose) -> (r: codes::OtpPurpose)
    ensures
        *purpose == OtpPurpose::Register ==> r == codes::OtpPurpose::Register,
        *purpose == OtpPurpose::ResetPassword ==> r == codes::OtpPurpose::ResetPassword,
        *purpose == OtpPurpose::Withdraw ==> r == codes::OtpPurpose::Withdraw,
{
    match purpose {
        OtpPurpose::Register => codes::OtpPurpose::Register,
        OtpPurpose::ResetPassword => codes::OtpPurpose::ResetPassword,
        OtpPurpose::Withdraw => codes::OtpPurpose::Withdraw,
    }
}

/// The text that carries an OTP to the phone.
pub open spec fn otp_message_spec(otp: Seq<char>, purpose: OtpPurpose) -> Seq<char> {
    match purpose {
        OtpPurpose::Register => "Welcome to StockFair! Your verification code is: "@ + otp
            + ". Valid for 5 minutes. Do not share this code with anyone."@,
        OtpPurpose::ResetPassword => "StockFair password reset code: "@ + otp
            + ". Valid for 5 minutes. If you did not request this, please ignore."@,
        OtpPurpose::Withdraw => "StockFair withdrawal authorisation code: "@ + otp
            + ". Valid for 5 minutes. Never share this code."@,
    }
}

fn surround(prefix: &str, middle: &str, suffix: &str) -> (r: String)
    ensures
        r@ == prefix@ + middle@ + suffix@,
{
    let mut r = String::from_str(prefix);
    r.append(middle);
    r.append(suffix);
    r
}

/// Builds the OTP message for a purpose.
pub fn otp_message(otp: &str, purpose: &OtpPurpose) -> (r: String)
    ensures
        r@ == otp_message_spec(otp@, *purpose),
{
    match purpose {
        OtpPurpose::Register => surround(
            "Welcome to StockFair! Your verification code is: ",
            otp,
            ". Valid for 5 minutes. Do not share this code with anyone.",
        ),
        OtpPurpose::ResetPassword => surround(
            "StockFair password reset code: ",
            otp,
            ". Valid for 5 minutes. If you did not request this, please ignore.",
        ),
        OtpPurpose::Withdraw => surround(
            "StockFair withdrawal authorisation code: ",
            otp,
            ". Valid for 5 minutes. Never share this code.",
        ),
    }
}

// ── Password strength ────────────────────────────────────────────────────────

pub open spec fn has_uppercase(s: Seq<char>) -> bool {
    exists|i: int| 0 <= i < s.len() && #[trigger] unicode_is_uppercase(s[i])
}

pub open spec fn has_ascii_digit(s: Seq<char>) -> bool {
    exists|i: int| 0 <= i < s.len() && #[trigger] is_digit(s[i])
}

/// Why a password is too weak, or `None`: at least 8 characters, one upper-case
/// letter and one ASCII digit are needed, checked in that order.
pub open spec fn password_problem(s: Seq<char>) -> Option<Seq<char>> {
    if s.len() < 8 {
        Some("Password must be at least 8 characters"@)
    } else if !has_uppercase(s) {
        Some("Password must contain at least one uppercase letter"@)
    } else if !has_ascii_digit(s) {
        Some("Password must contain at least one number"@)
    } else {
        None
    }
}

/// The outcome owed for a check that finds `problem`: `Ok` when there is none,
/// else a `BadRequest` with that text.
pub open spec fn check_result(r: Result<(), AppError>, problem: Option<Seq<char>>) -> bool {
    match problem {
        None => r is Ok,
        Some(m) => r matches Err(AppError::BadRequest(e)) && e@ == m,
    }
}

fn any_uppercase(s: &str) -> (r: bool)
    ensures
        r == has_uppercase(s@),
{
    let n = s.unicode_len();
    let mut i: usize = 0;
    while i < n
        invariant
            n == s@.len(),
            i <= n,
            forall|k: int| 0 <= k < i ==> !unicode_is_uppercase(#[trigger] s@[k]),
        decreases n - i,
    {
        if char_is_uppercase(s.get_char(i)) {
            return true;
        }
        i += 1;
    }
    false
}

fn any_ascii_digit(s: &str) -> (r: bool)
    ensures
        r == has_ascii_digit(s@),
{
    let n = s.unicode_len();
    let mut i: usize = 0;
    while i < n
        invariant
            n == s@.len(),
            i <= n,
            forall|k: int| 0 <= k < i ==> !is_digit(#[trigger] s@[k]),
        decreases n - i,
    {
        let c = s.get_char(i);
        if '0' <= c && c <= '9' {
            assert(is_digit(s@[i as int]));
            return true;
        }
        i += 1;
    }
    false
}

/// Checks a password's strength: at least 8 characters, an upper-case letter and
/// a digit.
pub fn validate_password_strength(password: &str) -> (r: Result<(), AppError>)
    ensures
        check_result(r, password_problem(password@)),
{
    if password.unicode_len() < 8 {
        return Err(bad_request("Password must be at least 8 characters"));
    }
    if !any_uppercase(password) {
        return Err(bad_request("Password must contain at least one uppercase letter"));
    }
    if !any_ascii_digit(password) {
        return Err(bad_request("Password must contain at least one number"));
    }
    Ok(())
}

// ── Date of birth ────────────────────────────────────────────────────────────

/// Why a `DD/MM/YYYY` date of birth is refused in `current_year`, or `None`: it
/// must have three `/`-separated numbers, a day in 1..=31, a month in 1..=12 and
/// a year from 1900 that makes the user at least 18.
pub open spec fn dob_problem(dob: Seq<char>, current_year: int) -> Option<Seq<char>> {
    let parts = split_spec(dob, '/');
    if parts.len() != 3 {
        Some("Date of birth must be in DD/MM/YYYY format"@)
    } else if parse_u32_spec(parts[0]) is None || parse_u32_spec(parts[1]) is None
        || parse_u32_spec(parts[2]) is None {
        Some("Invalid date of birth"@)
    } else {
        let day = parse_u32_spec(parts[0])->0;
        let month = parse_u32_spec(parts[1])->0;
        let year = parse_u32_spec(parts[2])->0;
        if day < 1 || day > 31 {
            Some("Invalid day in date of birth"@)
        } else if month < 1 || month > 12 {
            Some("Invalid month in date of birth"@)
        } else if year < 1900 || year > current_year - 18 {
            Some("You must be at least 18 years old to use StockFair"@)
        } else {
            None
        }
    }
}

/// Checks a `DD/MM/YYYY` date of birth against the given current year.
pub fn validate_date_of_birth_at(dob: &str, current_year: u32) -> (r: Result<(), AppError>)
    ensures
        check_result(r, dob_problem(dob@, current_year as int)),
{
    let parts = split_on(dob, '/');
    proof {
        assert(parts@.len() == split_spec(dob@, '/').len());
    }
    if parts.len() != 3 {
        return Err(bad_request("Date of birth must be in DD/MM/YYYY format"));
    }
    proof {
        assert(parts@[0]@ == split_spec(dob@, '/')[0]);
        assert(parts@[1]@ == split_spec(dob@, '/')[1]);
        assert(parts@[2]@ == split_spec(dob@, '/')[2]);
    }
    let day = match parse_u32(parts[0].as_str()) {
        Some(d) => d,
        None => {
            return Err(bad_request("Invalid date of birth"));
        },
    };
    let month = match parse_u32(parts[1].as_str()) {
        Some(m) => m,
        None => {
            return Err(bad_request("Invalid date of birth"));
        },
    };
    let year = match parse_u32(parts[2].as_str()) {
        Some(y) => y,
        None => {
            return Err(bad_request("Invalid date of birth"));
        },
    };
    if day < 1 || day > 31 {
        return Err(bad_request("Invalid day in date of birth"));
    }
    if month < 1 || month > 12 {
        return Err(bad_request("Invalid month in date of birth"));
    }
    if year < 1900 || current_year < 18 || year > current_year - 18 {
        return Err(bad_request("You must be at least 18 years old to use StockFair"));
    }
    Ok(())
}

/// Checks a `DD/MM/YYYY` date of birth against the current UTC year.
pub fn validate_date_of_birth(dob: &str) -> (r: Result<(), AppError>)
    ensures
        exists|t: Timestamp|
            #[trigger] is_clock_reading(t) && check_result(
                r,
                dob_problem(dob@, chrono_utc_year(t.seconds, t.nanos) as int),
            ),
{
    let year = current_year();
    let y: u32 = year as u32;
    proof {
        assert(y as int == year as int);
    }
    validate_date_of_birth_at(dob, y)
}

/// A password passes only with at least 8 characters, an upper-case letter and an
/// ASCII digit.
pub proof fn law_accepted_passwords(password: Seq<char>)
    ensures
        password_problem(password) is None ==> {
            &&& password.len() >= 8
            &&& has_uppercase(password)
            &&& has_ascii_digit(password)
        },
        password_problem(password) is None <==> {
            &&& password.len() >= 8
            &&& exists|i: int| 0 <= i < password.len() && #[trigger] unicode_is_uppercase(password[i])
            &&& exists|j: int| 0 <= j < password.len() && '0' <= #[trigger] password[j] <= '9'
        },
        password.len() < 8 ==> password_problem(password) == Some(
            "Password must be at least 8 characters"@,
        ),
        password.len() >= 8 && (forall|i: int|
            0 <= i < password.len() ==> !#[trigger] unicode_is_uppercase(password[i]))
            ==> password_problem(password) == Some(
            "Password must contain at least one uppercase letter"@,
        ),
        password.len() >= 8 && (exists|i: int|
            0 <= i < password.len() && #[trigger] unicode_is_uppercase(password[i])) && (forall|
            j: int,
        | 0 <= j < password.len() ==> !('0' <= #[trigger] password[j] <= '9'))
            ==> password_problem(password) == Some("Password must contain at least one number"@),
{
    assert((exists|j: int| 0 <= j < password.len() && '0' <= #[trigger] password[j] <= '9')
        <==> has_ascii_digit(password)) by {
        if has_ascii_digit(password) {
            let j = choose|j: int| 0 <= j < password.len() && #[trigger] is_digit(password[j]);
            assert('0' <= password[j] <= '9');
        }
        if exists|j: int| 0 <= j < password.len() && '0' <= #[trigger] password[j] <= '9' {
            let j = choose|j: int| 0 <= j < password.len() && '0' <= #[trigger] password[j] <= '9';
            assert(is_digit(password[j]));
        }
    }
}

/// A date of birth passes only as three `/`-separated numbers: a day in 1..=31, a
/// month in 1..=12 and a year from 1900 that is at least 18 years back.
pub proof fn law_accepted_dates_of_birth(dob: Seq<char>, current_year: int)
    ensures
        dob_problem(dob, current_year) is None ==> {
            let parts = split_spec(dob, '/');
            &&& parts.len() == 3
            &&& parse_u32_spec(parts[0]) matches Some(day) && 1 <= day <= 31
            &&& parse_u32_spec(parts[1]) matches Some(month) && 1 <= month <= 12
            &&& parse_u32_spec(parts[2]) matches Some(year) && 1900 <= year <= current_year - 18
        },
{
}

/// Registration steps after the OTP need a phone verified within the window.
pub fn ensure_phone_verified(verified: bool) -> (r: Result<(), AppError>)
    ensures
        check_result(
            r,
            if verified {
                None
            } else {
                Some("Phone number not verified. Please complete OTP verification first."@)
            },
        ),
{
    if !verified {
        return Err(
            bad_request("Phone number not verified. Please complete OTP verification first."),
        );
    }
    Ok(())
}


// ── Outcomes ─────────────────────────────────────────────────────────────────

/// How a request is refused, by the error kind and its client message.
pub enum Refusal {
    BadRequest(Seq<char>),
    Conflict(Seq<char>),
    NotFound(Seq<char>),
    Unauthorized,
    Forbidden,
    Internal,
}

pub open spec fn is_refusal(e: AppError, f: Refusal) -> bool {
    match f {
        Refusal::BadRequest(m) => e matches AppError::BadRequest(x) && x@ == m,
        Refusal::Conflict(m) => e matches AppError::Conflict(x) && x@ == m,
        Refusal::NotFound(m) => e matches AppError::NotFound(x) && x@ == m,
        Refusal::Unauthorized => e is Unauthorized,
        Refusal::Forbidden => e is Forbidden,
        Refusal::Internal => e is Internal,
    }
}

/// `r` is `Ok` when nothing refuses the request, else the error `f` names.
pub open spec fn outcome_is<T>(r: Result<T, AppError>, f: Option<Refusal>) -> bool {
    match f {
        None => r is Ok,
        Some(x) => r matches Err(e) && is_refusal(e, x),
    }
}

pub open spec fn session_expired_message() -> Seq<char> {
    "Registration session expired. Please start again."@
}

pub open spec fn invalid_phone_message() -> Seq<char> {
    "Invalid SA mobile number"@
}

pub open spec fn phone_taken_message() -> Seq<char> {
    "This phone number is already registered"@
}

pub open spec fn invalid_credentials_message() -> Seq<char> {
    "Invalid credentials"@
}

/// A reply that carries only a message.
#[derive(Debug, Clone)]
pub struct MessageResponse {
    pub message: String,
}

/// The reply to an OTP request.
#[derive(Debug, Clone)]
pub struct OtpSentResponse {
    pub message: String,
    pub expires_in_seconds: u64,
    /// The code itself, outside production only, for testing.
    pub debug_otp: Option<String>,
}

/// The reply to a passed OTP check: a token for the next step.
#[derive(Debug, Clone)]
pub struct OtpVerifiedResponse {
    pub otp_token: String,
    pub message: String,
}

fn message(text: &str) -> (r: MessageResponse)
    ensures
        r.message@ == text@,
{
    MessageResponse { message: string_of(text) }
}

// ── Sending an OTP ───────────────────────────────────────────────────────────

/// Whether an OTP request goes on to the rate limit, or is answered at once.
#[derive(Debug, Clone)]
pub enum SendOtpGate {
    Proceed,
    Respond(OtpSentResponse),
}

pub open spec fn generic_reset_message() -> Seq<char> {
    "If this number is registered, you will receive an OTP shortly"@
}

/// The first checks of an OTP request, on the normalised phone: it must be a
/// valid number; a registration needs a number not yet registered; a password
/// reset for an unknown number gets the same words as a sent one would promise,
/// so that the reply does not tell whether the number is registered.
pub fn send_otp_gate(purpose: &OtpPurpose, phone_valid: bool, phone_registered: bool) -> (r: Result<
    SendOtpGate,
    AppError,
>)
    ensures
        !phone_valid ==> outcome_is(r, Some(Refusal::BadRequest(invalid_phone_message()))),
        phone_valid && *purpose == OtpPurpose::Register && phone_registered ==> outcome_is(
            r,
            Some(Refusal::Conflict(phone_taken_message())),
        ),
        phone_valid && *purpose == OtpPurpose::ResetPassword && !phone_registered ==> (r matches Ok(
            SendOtpGate::Respond(resp),
        ) && resp.message@ == generic_reset_message() && resp.expires_in_seconds == 300
            && resp.debug_otp is None),
        phone_valid && !(*purpose == OtpPurpose::Register && phone_registered) && !(*purpose
            == OtpPurpose::ResetPassword && !phone_registered) ==> r matches Ok(
            SendOtpGate::Proceed,
        ),
{
    if !phone_valid {
        return Err(bad_request("Invalid SA mobile number"));
    }
    match purpose {
        OtpPurpose::Register => {
            if phone_registered {
                return Err(crate::errors::conflict("This phone number is already registered"));
            }
        },
        OtpPurpose::ResetPassword => {
            if !phone_registered {
                return Ok(
                    SendOtpGate::Respond(
                        OtpSentResponse {
                            message: string_of(
                                "If this number is registered, you will receive an OTP shortly",
                            ),
                            expires_in_seconds: 300,
                            debug_otp: None,
                        },
                    ),
                );
            }
        },
        OtpPurpose::Withdraw => {},
    }
    Ok(SendOtpGate::Proceed)
}

/// An OTP request over the rate limit is refused.
pub fn otp_rate_check(within_limit: bool) -> (r: Result<(), AppError>)
    ensures
        check_result(
            r,
            if within_limit {
                None
            } else {
                Some("Too many OTP requests. Please wait 10 minutes before trying again."@)
            },
        ),
{
    if !within_limit {
        return Err(bad_request("Too many OTP requests. Please wait 10 minutes before trying again."));
    }
    Ok(())
}

/// The reply once the OTP was stored and sent. The code is echoed outside
/// production only.
pub fn otp_sent_response(otp: String, is_production: bool) -> (r: OtpSentResponse)
    ensures
        r.message@ == "OTP sent via SMS and WhatsApp"@,
        r.expires_in_seconds == codes::OTP_TTL_SECONDS,
        is_production ==> r.debug_otp is None,
        !is_production ==> r.debug_otp == Some(otp),
{
    let debug_otp = if !is_production {
        Some(otp)
    } else {
        None
    };
    OtpSentResponse {
        message: string_of("OTP sent via SMS and WhatsApp"),
        expires_in_seconds: 300,
        debug_otp,
    }
}

// ── Checking an OTP ──────────────────────────────────────────────────────────

/// A failed OTP check is refused.
pub fn otp_check_result(valid: bool) -> (r: Result<(), AppError>)
    ensures
        check_result(
            r,
            if valid {
                None
            } else {
                Some("Invalid or expired OTP. Please request a new one."@)
            },
        ),
{
    if !valid {
        return Err(bad_request("Invalid or expired OTP. Please request a new one."));
    }
    Ok(())
}

/// The reply to a passed OTP check.
pub fn otp_verified_response(otp_token: String) -> (r: OtpVerifiedResponse)
    ensures
        r.otp_token == otp_token,
        r.message@ == "Phone number verified successfully"@,
{
    OtpVerifiedResponse { otp_token, message: string_of("Phone number verified successfully") }
}


// ── Registration ─────────────────────────────────────────────────────────────

/// Step 1: personal details.
#[derive(Debug, Clone)]
pub struct RegisterStep1Request {
    pub first_name: String,
    pub last_name: String,
    /// `DD/MM/YYYY`.
    pub date_of_birth: String,
    pub gender: String,
}

/// What step 1 keeps for step 2: the names trimmed.
#[derive(Debug, Clone)]
pub struct Step1Details {
    pub first_name: String,
    pub last_name: String,
    pub date_of_birth: String,
    pub gender: String,
}

/// `Ok` or `Err` alike, without the value.
pub open spec fn as_unit<T>(r: Result<T, AppError>) -> Result<(), AppError> {
    match r {
        Ok(_) => Ok(()),
        Err(e) => Err(e),
    }
}

/// Step 1: checks the date of birth against the current UTC year and names a
/// fresh session for the details,
/// `reg_step1:{uuid}`; that key goes back to the client for step 2.
pub fn register_step1(payload: &RegisterStep1Request) -> (r: Result<(String, Step1Details), AppError>)
    ensures
        exists|t: Timestamp|
            #[trigger] is_clock_reading(t) && check_result(
                as_unit(r),
                dob_problem(payload.date_of_birth@, chrono_utc_year(t.seconds, t.nanos) as int),
            ),
        r matches Ok((key, d)) ==> {
            &&& exists|u: Seq<char>| #[trigger] uuid_shape(u) && key@ == "reg_step1:"@ + u
            &&& d.first_name@ == trim_spec(payload.first_name@)
            &&& d.last_name@ == trim_spec(payload.last_name@)
            &&& d.date_of_birth@ == payload.date_of_birth@
            &&& d.gender@ == payload.gender@
        },
{
    match validate_date_of_birth(payload.date_of_birth.as_str()) {
        Err(e) => Err(e),
        Ok(()) => {
            let id = new_id();
            let key = concat2("reg_step1:", id.as_str());
            proof {
                assert(uuid_shape(id@));
            }
            let details = Step1Details {
                first_name: trimmed(payload.first_name.as_str()),
                last_name: trimmed(payload.last_name.as_str()),
                date_of_birth: payload.date_of_birth.clone(),
                gender: payload.gender.clone(),
            };
            Ok((key, details))
        },
    }
}

/// Step 2: contact details and password.
#[derive(Debug, Clone)]
pub struct RegisterStep2Request {
    pub phone: String,
    pub email: Option<String>,
    pub password: String,
    pub confirm_password: String,
}

/// A registration in progress, as kept between the steps. Fields a client never
/// filled in are `None`.
#[derive(Debug, Clone)]
pub struct RegistrationSession {
    pub phone: String,
    pub first_name: Option<String>,
    pub last_name: Option<String>,
    pub date_of_birth: Option<String>,
    pub gender: Option<String>,
    pub email: Option<String>,
    pub password_hash: Option<String>,
    pub language: Option<String>,
    pub theme: Option<String>,
    pub interests: Vec<String>,
}

pub open spec fn holds_text(o: Option<String>, t: Seq<char>) -> bool {
    o matches Some(x) && x@ == t
}

/// The key of a registration session: `reg_session:{phone}`.
pub fn registration_session_key(phone: &str) -> (r: String)
    ensures
        r@ == "reg_session:"@ + phone@,
{
    concat2("reg_session:", phone)
}

/// Why step 2 is refused, in the order of the checks, or `None`.
pub open spec fn step2_refusal(
    session_found: bool,
    phone_valid: bool,
    phone_taken: bool,
    email_taken: bool,
    password: Seq<char>,
    confirm: Seq<char>,
) -> Option<Refusal> {
    if !session_found {
        Some(Refusal::BadRequest(session_expired_message()))
    } else if !phone_valid {
        Some(Refusal::BadRequest(invalid_phone_message()))
    } else if phone_taken {
        Some(Refusal::Conflict(phone_taken_message()))
    } else if email_taken {
        Some(Refusal::Conflict("This email address is already registered"@))
    } else if password != confirm {
        Some(Refusal::BadRequest("Passwords do not match"@))
    } else {
        match password_problem(password) {
            Some(m) => Some(Refusal::BadRequest(m)),
            None => None,
        }
    }
}

/// Step 2, given what step 1 left (`None` once it expired), the normalised phone,
/// whether it is a valid number, and whether the phone or the email is taken:
/// checks them, hashes the password and builds the session under
/// `reg_session:{phone}`. The reply carries the normalised phone.
pub fn register_step2(
    step1: Option<Step1Details>,
    phone: String,
    phone_valid: bool,
    phone_taken: bool,
    email_taken: bool,
    payload: RegisterStep2Request,
) -> (r: Result<(String, RegistrationSession, MessageResponse), AppError>)
    ensures
        step2_refusal(
            step1 is Some,
            phone_valid,
            phone_taken,
            email_taken,
            payload.password@,
            payload.confirm_password@,
        ) matches Some(f) ==> outcome_is(r, Some(f)),
        step2_refusal(
            step1 is Some,
            phone_valid,
            phone_taken,
            email_taken,
            payload.password@,
            payload.confirm_password@,
        ) is None ==> (r is Ok || r matches Err(AppError::Internal(_))),
        r matches Ok((key, session, reply)) ==> {
            &&& key@ == "reg_session:"@ + phone@
            &&& reply.message@ == phone@
            &&& session.phone@ == phone@
            &&& holds_text(session.first_name, step1->0.first_name@)
            &&& holds_text(session.last_name, step1->0.last_name@)
            &&& holds_text(session.date_of_birth, step1->0.date_of_birth@)
            &&& holds_text(session.gender, step1->0.gender@)
            &&& session.email == payload.email
            &&& session.password_hash matches Some(h) && argon2_verdict(payload.password@, h@)
                == Some(true)
            &&& holds_text(session.language, "en"@)
            &&& holds_text(session.theme, "obsidian"@)
            &&& session.interests@.len() == 0
        },
{
    let details = match step1 {
        None => {
            return Err(bad_request("Registration session expired. Please start again."));
        },
        Some(d) => d,
    };
    if !phone_valid {
        return Err(bad_request("Invalid SA mobile number"));
    }
    if phone_taken {
        return Err(conflict("This phone number is already registered"));
    }
    if email_taken {
        return Err(conflict("This email address is already registered"));
    }
    if !str_equals(payload.password.as_str(), payload.confirm_password.as_str()) {
        return Err(bad_request("Passwords do not match"));
    }
    match validate_password_strength(payload.password.as_str()) {
        Err(e) => {
            return Err(e);
        },
        Ok(()) => {},
    }
    let password_hash = match hashing::hash(payload.password.as_str()) {
        Err(e) => {
            return Err(e);
        },
        Ok(h) => h,
    };
    let key = registration_session_key(phone.as_str());
    let reply = MessageResponse { message: phone.clone() };
    let session = RegistrationSession {
        phone,
        first_name: Some(details.first_name),
        last_name: Some(details.last_name),
        date_of_birth: Some(details.date_of_birth),
        gender: Some(details.gender),
        email: payload.email,
        password_hash: Some(password_hash),
        language: Some(string_of("en")),
        theme: Some(string_of("obsidian")),
        interests: Vec::new(),
    };
    Ok((key, session, reply))
}

/// Step 3: the language preference.
#[derive(Debug, Clone)]
pub struct RegisterStep3Request {
    pub language: String,
}

/// Step 3, after the phone was verified: the language preference.
pub fn register_step3(verified: bool, session: Option<RegistrationSession>, language: &str) -> (r:
    Result<(RegistrationSession, MessageResponse), AppError>)
    ensures
        !verified ==> outcome_is(
            r,
            Some(
                Refusal::BadRequest(
                    "Phone number not verified. Please complete OTP verification first."@,
                ),
            ),
        ),
        verified && session is None ==> outcome_is(
            r,
            Some(Refusal::BadRequest(session_expired_message())),
        ),
        verified && session is Some ==> (r matches Ok((s, reply)) && {
            let old = session->0;
            &&& holds_text(s.language, language@)
            &&& s.phone == old.phone && s.first_name == old.first_name && s.last_name
                == old.last_name && s.date_of_birth == old.date_of_birth && s.gender == old.gender
                && s.email == old.email && s.password_hash == old.password_hash && s.theme
                == old.theme && s.interests == old.interests
            &&& reply.message@ == "Language preference saved"@
        }),
{
    match ensure_phone_verified(verified) {
        Err(e) => {
            return Err(e);
        },
        Ok(()) => {},
    }
    match session {
        None => Err(bad_request("Registration session expired. Please start again.")),
        Some(s) => {
            let updated = RegistrationSession { language: Some(string_of(language)), ..s };
            Ok((updated, message("Language preference saved")))
        },
    }
}

/// Step 4: stokvel interests, theme and the terms.
#[derive(Debug, Clone)]
pub struct RegisterStep4Request {
    pub interests: Vec<String>,
    pub terms_accepted: bool,
    pub theme: Option<String>,
}

/// The text held, or `d` when there is none.
pub open spec fn text_or(o: Option<String>, d: Seq<char>) -> Seq<char> {
    match o {
        Some(x) => x@,
        None => d,
    }
}

fn text_or_default(o: &Option<String>, d: &str) -> (r: String)
    ensures
        r@ == text_or(*o, d@),
{
    match o {
        Some(x) => x.clone(),
        None => string_of(d),
    }
}

/// Why step 4 is refused, in the order of the checks, or `None`.
pub open spec fn step4_refusal(
    verified: bool,
    payload: RegisterStep4Request,
    session: Option<RegistrationSession>,
) -> Option<Refusal> {
    if !verified {
        Some(
            Refusal::BadRequest(
                "Phone number not verified. Please complete OTP verification first."@,
            ),
        )
    } else if !payload.terms_accepted {
        Some(
            Refusal::BadRequest(
                "You must accept the Terms of Service, Privacy Policy, and POPIA Notice"@,
            ),
        )
    } else if payload.interests@.len() == 0 {
        Some(Refusal::BadRequest("Please select at least one stokvel interest"@))
    } else if session is None {
        Some(Refusal::BadRequest(session_expired_message()))
    } else if session->0.password_hash is None {
        Some(Refusal::Internal)
    } else {
        None
    }
}

/// Step 4, given whether the phone is still verified and the session (`None`
/// once it expired): the account to create, with its interests and the accepted
/// terms. The full name is the trimmed first
/// and last names with a space between; missing fields get their defaults.
pub fn register_step4(
    verified: bool,
    payload: RegisterStep4Request,
    session: Option<RegistrationSession>,
    phone: &str,
) -> (r: Result<CreateUserPayload, AppError>)
    ensures
        outcome_is(r, step4_refusal(verified, payload, session)),
        r matches Ok(c) ==> {
            let s = session->0;
            &&& c.phone@ == phone@
            &&& c.email == s.email
            &&& c.full_name@ == trim_spec(text_or(s.first_name, ""@)) + " "@ + trim_spec(
                text_or(s.last_name, ""@),
            )
            &&& c.date_of_birth@ == text_or(s.date_of_birth, ""@)
            &&& c.gender@ == text_or(s.gender, "prefer_not_to_say"@)
            &&& holds_text(s.password_hash, c.password_hash@)
            &&& c.language@ == text_or(s.language, "en"@)
            &&& c.theme@ == text_or(payload.theme, "obsidian"@)
            &&& c.interests == payload.interests
            &&& c.terms_accepted
        },
{
    match ensure_phone_verified(verified) {
        Err(e) => {
            return Err(e);
        },
        Ok(()) => {},
    }
    if !payload.terms_accepted {
        return Err(
            bad_request("You must accept the Terms of Service, Privacy Policy, and POPIA Notice"),
        );
    }
    if payload.interests.len() == 0 {
        return Err(bad_request("Please select at least one stokvel interest"));
    }
    let s = match session {
        None => {
            return Err(bad_request("Registration session expired. Please start again."));
        },
        Some(s) => s,
    };
    let password_hash = match &s.password_hash {
        None => {
            return Err(internal("Password hash missing from session"));
        },
        Some(h) => h.clone(),
    };
    let first = text_or_default(&s.first_name, "");
    let last = text_or_default(&s.last_name, "");
    let first = trimmed(first.as_str());
    let last = trimmed(last.as_str());
    let mut full_name = first;
    full_name.append(" ");
    full_name.append(last.as_str());
    let date_of_birth = text_or_default(&s.date_of_birth, "");
    let gender = text_or_default(&s.gender, "prefer_not_to_say");
    let language = text_or_default(&s.language, "en");
    let theme = text_or_default(&payload.theme, "obsidian");
    Ok(
        CreateUserPayload {
            phone: string_of(phone),
            email: s.email,
            full_name,
            date_of_birth,
            gender,
            password_hash,
            language,
            theme,
            interests: payload.interests,
            terms_accepted: payload.terms_accepted,
        },
    )
}


// ── Sign-in ──────────────────────────────────────────────────────────────────

/// Why a sign-in is refused, or `None`. An unknown account, an account without
/// a password and a wrong password get the same words.
pub open spec fn sign_in_refusal(user: Option<User>, password: Seq<char>) -> Option<Refusal> {
    match user {
        None => Some(Refusal::BadRequest(invalid_credentials_message())),
        Some(u) => match u.password_hash {
            None => Some(Refusal::BadRequest(invalid_credentials_message())),
            Some(h) => match argon2_verdict(password, h@) {
                None => Some(Refusal::Internal),
                Some(ok) => if !ok {
                    Some(Refusal::BadRequest(invalid_credentials_message()))
                } else if !u.is_active {
                    Some(Refusal::Forbidden)
                } else {
                    None
                },
            },
        },
    }
}

/// Checks a sign-in against the account found for the identifier (`None` when
/// there is none).
pub fn check_sign_in(user: &Option<User>, password: &str) -> (r: Result<(), AppError>)
    ensures
        outcome_is(r, sign_in_refusal(*user, password@)),
{
    let u = match user {
        None => {
            return Err(bad_request("Invalid credentials"));
        },
        Some(u) => u,
    };
    let hash = match &u.password_hash {
        None => {
            return Err(bad_request("Invalid credentials"));
        },
        Some(h) => h,
    };
    let valid = match hashing::verify(password, hash.as_str()) {
        Err(e) => {
            return Err(e);
        },
        Ok(b) => b,
    };
    if !valid {
        return Err(bad_request("Invalid credentials"));
    }
    if !u.is_active {
        return Err(AppError::Forbidden);
    }
    Ok(())
}

/// A sign-in goes through only for an existing, active account whose stored
/// hash accepts the password.
pub proof fn law_sign_in_needs_password_and_active_account(user: Option<User>, password: Seq<char>)
    ensures
        sign_in_refusal(user, password) is None ==> {
            &&& user is Some
            &&& user->0.is_active
            &&& user->0.password_hash matches Some(h) && argon2_verdict(password, h@) == Some(true)
        },
{
}

/// Tokens and profile after a sign-in or a registration.
#[derive(Debug, Clone)]
pub struct AuthResponse {
    pub access_token: String,
    pub refresh_token: String,
    pub user: UserProfile,
}

/// A fresh token pair.
#[derive(Debug, Clone)]
pub struct TokenRefreshResponse {
    pub access_token: String,
    pub refresh_token: String,
}

/// The reply that hands out a token pair with the account's profile.
pub fn auth_response(access_token: String, refresh_token: String, user: User) -> (r: AuthResponse)
    ensures
        r.access_token == access_token,
        r.refresh_token == refresh_token,
        r.user.id == user.id,
        r.user.phone == user.phone,
        r.user.email == user.email,
        r.user.full_name == user.full_name,
        r.user.avatar_url == user.avatar_url,
        r.user.language == user.language,
        r.user.theme == user.theme,
        r.user.is_kyc_verified == user.is_kyc_verified,
        r.user.created_at == user.created_at,
{
    AuthResponse { access_token, refresh_token, user: UserProfile::from_user(user) }
}

// ── Password reset ───────────────────────────────────────────────────────────

/// A password reset, authorised by the token issued after the OTP check.
#[derive(Debug, Clone)]
pub struct ResetPasswordRequest {
    pub phone: String,
    pub otp_token: String,
    pub new_password: String,
    pub confirm_new_password: String,
}

/// Why a new password is refused before the token is spent, or `None`.
pub open spec fn new_password_problem(password: Seq<char>, confirm: Seq<char>) -> Option<Seq<char>> {
    if password != confirm {
        Some("Passwords do not match"@)
    } else {
        password_problem(password)
    }
}

/// The checks of a reset before its token is consumed: the passwords match and
/// are strong enough.
pub fn reset_password_checks(payload: &ResetPasswordRequest) -> (r: Result<(), AppError>)
    ensures
        check_result(r, new_password_problem(payload.new_password@, payload.confirm_new_password@)),
{
    if !str_equals(payload.new_password.as_str(), payload.confirm_new_password.as_str()) {
        return Err(bad_request("Passwords do not match"));
    }
    validate_password_strength(payload.new_password.as_str())
}

/// A reset whose token was not accepted is refused.
pub fn reset_token_result(valid: bool) -> (r: Result<(), AppError>)
    ensures
        check_result(
            r,
            if valid {
                None
            } else {
                Some("Invalid or expired reset token. Please request a new OTP."@)
            },
        ),
{
    if !valid {
        return Err(bad_request("Invalid or expired reset token. Please request a new OTP."));
    }
    Ok(())
}

/// The end of a reset, given the account of the phone (`None` when there is
/// none): the account's id and the new hash to store, and the reply.
pub fn reset_password_finish(user: Option<User>, new_password: &str) -> (r: Result<
    (u128, String, MessageResponse),
    AppError,
>)
    ensures
        user is None ==> outcome_is(r, Some(Refusal::NotFound("User not found"@))),
        user is Some ==> (r is Ok || r matches Err(AppError::Internal(_))),
        r matches Ok((id, h, reply)) ==> {
            &&& id == user->0.id
            &&& argon2_verdict(new_password@, h@) == Some(true)
            &&& reply.message@ == "Password reset successfully. Please sign in with your new password."@
        },
{
    let u = match user {
        None => {
            return Err(AppError::NotFound(string_of("User not found")));
        },
        Some(u) => u,
    };
    let new_hash = match hashing::hash(new_password) {
        Err(e) => {
            return Err(e);
        },
        Ok(h) => h,
    };
    Ok(
        (
            u.id,
            new_hash,
            message("Password reset successfully. Please sign in with your new password."),
        ),
    )
}

// ── Token refresh and sign-out ───────────────────────────────────────────────

/// Why a refresh is refused, or `None`: its token was already used (blacklisted),
/// or the account is gone or inactive.
pub open spec fn refresh_refusal(blacklisted: bool, user: Option<User>) -> Option<Refusal> {
    if blacklisted || user is None || !user->0.is_active {
        Some(Refusal::Unauthorized)
    } else {
        None
    }
}

/// A refresh is refused when its token was already used (blacklisted), or the
/// account is gone or inactive.
pub fn refresh_check(blacklisted: bool, user: &Option<User>) -> (r: Result<(), AppError>)
    ensures
        outcome_is(r, refresh_refusal(blacklisted, *user)),
{
    if blacklisted {
        return Err(AppError::Unauthorized);
    }
    match user {
        None => Err(AppError::Unauthorized),
        Some(u) => if !u.is_active {
            Err(AppError::Unauthorized)
        } else {
            Ok(())
        },
    }
}

/// One refresh against the blacklist of used token ids (`jti`): whether it is
/// granted, and the blacklist after it. A granted refresh blacklists its token's
/// id, so that the old token can never be used again (token rotation).
pub open spec fn refresh_in_store(blacklist: Set<u128>, jti: u128, user: Option<User>) -> (
    bool,
    Set<u128>,
) {
    if refresh_refusal(blacklist.contains(jti), user) is None {
        (true, blacklist.insert(jti))
    } else {
        (false, blacklist)
    }
}

/// A refresh token serves at most one rotation: once a refresh with it was
/// granted, a second one with the same token is refused, while the id stays on
/// the blacklist.
pub proof fn law_refresh_token_single_use(blacklist: Set<u128>, jti: u128, user: Option<User>)
    ensures
        refresh_in_store(blacklist, jti, user).0 ==> !refresh_in_store(
            refresh_in_store(blacklist, jti, user).1,
            jti,
            user,
        ).0,
{
}

/// How long a used refresh token stays blacklisted: until it would have
/// expired, and no less than zero seconds.
pub fn blacklist_ttl_seconds(expires_at: i64, now: i64) -> (r: u64)
    ensures
        r == if expires_at - now < 0 {
            0
        } else {
            expires_at - now
        },
{
    let diff: i128 = expires_at as i128 - now as i128;
    if diff < 0 {
        0
    } else {
        diff as u64
    }
}

/// The reply to a sign-out.
pub fn signed_out_response() -> (r: MessageResponse)
    ensures
        r.message@ == "Signed out successfully"@,
{
    message("Signed out successfully")
}

} // verus!
