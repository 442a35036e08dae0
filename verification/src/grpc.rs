//! The gRPC face of the accounts service: statuses, the request checks of the
//! interceptors, and the messages the auth service sends.

use vstd::prelude::*;
use crate::auth::OtpPurpose;
use crate::clock::{chrono_utc_text, in_chrono_range, utc_text};
use crate::codes::hex_digit;
use crate::text::{str_equals, string_of};

verus! {

/// The gRPC status codes the service answers with.
#[derive(Debug, Clone, Copy, PartialEq, Eq, Structural)]
pub enum StatusCode {
    InvalidArgument,
    Unauthenticated,
    PermissionDenied,
    NotFound,
    Internal,
    Unimplemented,
}

/// A gRPC status: a code and a message.
#[derive(Debug, Clone)]
pub struct Status {
    pub code: StatusCode,
    pub message: String,
}

pub open spec fn is_status(s: Status, code: StatusCode, message: Seq<char>) -> bool {
    s.code == code && s.message@ == message
}

fn status(code: StatusCode, message: &str) -> (r: Status)
    ensures
        is_status(r, code, message@),
{
    Status { code, message: string_of(message) }
}

// ── Interceptors ─────────────────────────────────────────────────────────────

/// The token of an `authorization` value: what follows `Bearer `.
pub open spec fn bearer_token_spec(header: Option<Seq<char>>) -> Option<Seq<char>> {
    match header {
        None => None,
        Some(h) => if h.len() >= 7 && h.take(7) == "Bearer "@ {
            Some(h.skip(7))
        } else {
            None
        },
    }
}

/// Reads the bearer token from the `authorization` metadata (`None` when the
/// value is absent, not text, or not a bearer token).
pub fn bearer_token(header: Option<&str>) -> (r: Option<String>)
    ensures
        r matches Some(t) ==> bearer_token_spec(crate::codes::opt_text(header)) == Some(t@),
        r is None ==> bearer_token_spec(crate::codes::opt_text(header)) is None,
{
    match header {
        None => None,
        Some(h) => {
            let n = h.unicode_len();
            proof {
                reveal_strlit("Bearer ");
            }
            if n < 7 {
                return None;
            }
            let prefix = h.substring_char(0, 7);
            if str_equals(prefix, "Bearer ") {
                proof {
                    assert(prefix@ =~= h@.take(7));
                }
                let rest = h.substring_char(7, n);
                proof {
                    assert(rest@ =~= h@.skip(7));
                }
                Some(string_of(rest))
            } else {
                proof {
                    assert(prefix@ =~= h@.take(7));
                }
                None
            }
        },
    }
}

/// The first half of the authentication check: the request must carry a bearer
/// token in its `authorization` metadata. The token it returns is then validated
/// as an access token, and `access_token_check` decides with the outcome.
pub fn auth_interceptor(header: Option<&str>) -> (r: Result<String, Status>)
    ensures
        bearer_token_spec(crate::codes::opt_text(header)) matches Some(t) ==> (r matches Ok(x)
            && x@ == t),
        bearer_token_spec(crate::codes::opt_text(header)) is None ==> (r matches Err(s)
            && is_status(s, StatusCode::Unauthenticated, "Missing authorization token"@)),
{
    match bearer_token(header) {
        Some(t) => Ok(t),
        None => Err(status(StatusCode::Unauthenticated, "Missing authorization token")),
    }
}

/// The second half of the authentication check: the token must be a valid,
/// unexpired access token.
pub fn access_token_check(token_valid: bool) -> (r: Result<(), Status>)
    ensures
        !token_valid ==> (r matches Err(s) && is_status(
            s,
            StatusCode::Unauthenticated,
            "Invalid or expired token"@,
        )),
        token_valid ==> r is Ok,
{
    if !token_valid {
        return Err(status(StatusCode::Unauthenticated, "Invalid or expired token"));
    }
    Ok(())
}

/// The KYC check, given the KYC flag of the caller's claims (`None` when the
/// request carries no claims).
pub fn kyc_interceptor(kyc_verified: Option<bool>) -> (r: Result<(), Status>)
    ensures
        kyc_verified is None ==> (r matches Err(s) && is_status(
            s,
            StatusCode::Unauthenticated,
            "Authentication required"@,
        )),
        kyc_verified == Some(false) ==> (r matches Err(s) && is_status(
            s,
            StatusCode::PermissionDenied,
            "KYC verification required"@,
        )),
        kyc_verified == Some(true) ==> r is Ok,
{
    match kyc_verified {
        None => Err(status(StatusCode::Unauthenticated, "Authentication required")),
        Some(false) => Err(status(StatusCode::PermissionDenied, "KYC verification required")),
        Some(true) => Ok(()),
    }
}

// ── Auth service ─────────────────────────────────────────────────────────────

/// The purpose a client names: `register`, `reset_password` or `withdraw`.
pub open spec fn purpose_named(name: Seq<char>) -> Option<OtpPurpose> {
    if name == "register"@ {
        Some(OtpPurpose::Register)
    } else if name == "reset_password"@ {
        Some(OtpPurpose::ResetPassword)
    } else if name == "withdraw"@ {
        Some(OtpPurpose::Withdraw)
    } else {
        None
    }
}

/// Reads an OTP purpose from a request; an unknown name is an invalid argument.
pub fn parse_otp_purpose(name: &str) -> (r: Result<OtpPurpose, Status>)
    ensures
        purpose_named(name@) matches Some(p) ==> r == Ok::<OtpPurpose, Status>(p),
        purpose_named(name@) is None ==> (r matches Err(s) && is_status(
            s,
            StatusCode::InvalidArgument,
            "Invalid OTP purpose"@,
        )),
{
    if str_equals(name, "register") {
        Ok(OtpPurpose::Register)
    } else if str_equals(name, "reset_password") {
        Ok(OtpPurpose::ResetPassword)
    } else if str_equals(name, "withdraw") {
        Ok(OtpPurpose::Withdraw)
    } else {
        Err(status(StatusCode::InvalidArgument, "Invalid OTP purpose"))
    }
}

/// 16 to the power `e`.
pub open spec fn pow16(e: nat) -> nat
    decreases e,
{
    if e == 0 {
        1
    } else {
        16 * pow16((e - 1) as nat)
    }
}

/// The `i`-th of the 32 hex digits of a 128-bit number, most significant first.
pub open spec fn nibble(id: u128, i: int) -> int {
    (id as int / pow16((31 - i) as nat) as int) % 16
}

/// How many hyphens come before position `k` of a hyphenated UUID.
pub open spec fn hyphens_before(k: int) -> int {
    if k > 23 {
        4
    } else if k > 18 {
        3
    } else if k > 13 {
        2
    } else if k > 8 {
        1
    } else {
        0
    }
}

/// A UUID written as `uuid` writes it: 32 lower-case hex digits, most significant
/// first, with hyphens after the 8th, 12th, 16th and 20th.
pub open spec fn uuid_text_spec(id: u128) -> Seq<char> {
    Seq::new(
        36,
        |k: int|
            if k == 8 || k == 13 || k == 18 || k == 23 {
                '-'
            } else {
                hex_digit(nibble(id, k - hyphens_before(k)))
            },
    )
}

/// `uuid::Uuid::from_u128(id).to_string()`: the hyphenated lower-case form.
#[verifier::external_body]
fn uuid_text(id: u128) -> (r: String)
    ensures
        r@ == uuid_text_spec(id),
{
    uuid::Uuid::from_u128(id).to_string()
}

/// The profile message of the auth service: absent texts are empty.
#[derive(Debug, Clone)]
pub struct UserProfile {
    pub id: String,
    pub phone: String,
    pub email: String,
    pub full_name: String,
    pub avatar_url: String,
    pub language: String,
    pub theme: String,
    pub is_kyc_verified: bool,
    pub created_at: String,
}

pub open spec fn text_or_empty(o: Option<String>) -> Seq<char> {
    match o {
        Some(s) => s@,
        None => Seq::empty(),
    }
}

/// The message form of an account's profile.
pub fn map_user(u: crate::users::UserProfile) -> (r: UserProfile)
    requires
        in_chrono_range(u.created_at),
    ensures
        r.id@ == uuid_text_spec(u.id),
        r.phone == u.phone,
        r.email@ == text_or_empty(u.email),
        r.full_name == u.full_name,
        r.avatar_url@ == text_or_empty(u.avatar_url),
        r.language == u.language,
        r.theme == u.theme,
        r.is_kyc_verified == u.is_kyc_verified,
        chrono_utc_text(u.created_at.seconds, u.created_at.nanos) == Some(r.created_at@),
{
    let created_at = match utc_text(u.created_at) {
        Some(s) => s,
        None => String::new(),
    };
    let email = match u.email {
        Some(e) => e,
        None => String::new(),
    };
    let avatar_url = match u.avatar_url {
        Some(a) => a,
        None => String::new(),
    };
    UserProfile {
        id: uuid_text(u.id),
        phone: u.phone,
        email,
        full_name: u.full_name,
        avatar_url,
        language: u.language,
        theme: u.theme,
        is_kyc_verified: u.is_kyc_verified,
        created_at,
    }
}

} // verus!
