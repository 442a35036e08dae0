//! One-time passwords, pickup codes and tokens: how they are made, the keys they
//! are kept under, and the rules that make them single-use and rate-limited.
//!
//! OTPs are six decimal digits, kept for five minutes, at most three requests per
//! phone and purpose in ten minutes, and deleted once accepted. Collection codes
//! are eight characters with no ambiguous ones (`0`, `O`, `1`, `I`).

use vstd::prelude::*;
use crate::entropy::{random_below, random_byte, is_lower_hex_digit};
use crate::text::{all_digits, is_digit, push_char, str_equals};

verus! {

pub const OTP_LENGTH: usize = 6;
/// How long an OTP stays valid (5 minutes).
pub const OTP_TTL_SECONDS: u64 = 300;
/// The rate-limit window (10 minutes).
pub const OTP_RATE_WINDOW_SECONDS: u64 = 600;
pub const OTP_RATE_MAX_REQUESTS: u32 = 3;
/// How long a verified phone may take to finish registering (10 minutes).
pub const PHONE_VERIFIED_TTL_SECONDS: u64 = 600;
/// How long the token issued after an OTP check stays valid (10 minutes).
pub const OTP_TOKEN_TTL_SECONDS: u64 = 600;
pub const COLLECTION_CODE_LENGTH: usize = 8;

/// What an OTP is for.
#[derive(Debug, Clone, Copy, PartialEq, Eq, Structural)]
pub enum OtpPurpose {
    Register,
    ResetPassword,
    Withdraw,
}

pub open spec fn purpose_text(p: OtpPurpose) -> Seq<char> {
    match p {
        OtpPurpose::Register => "register"@,
        OtpPurpose::ResetPassword => "reset_password"@,
        OtpPurpose::Withdraw => "withdraw"@,
    }
}

impl OtpPurpose {
    pub fn as_str(&self) -> (r: &'static str)
        ensures
            r@ == purpose_text(*self),
    {
        match self {
            OtpPurpose::Register => "register",
            OtpPurpose::ResetPassword => "reset_password",
            OtpPurpose::Withdraw => "withdraw",
        }
    }
}

// ── Keys ─────────────────────────────────────────────────────────────────────

/// The key of an OTP: `otp:{purpose}:{phone}`.
pub fn otp_key(phone: &str, purpose: &str) -> (r: String)
    ensures
        r@ == "otp:"@ + purpose@ + ":"@ + phone@,
{
    let mut r = String::from_str("otp:");
    r.append(purpose);
    r.append(":");
    r.append(phone);
    r
}

/// The key that marks a phone as verified: `phone_verified:{phone}`.
pub fn phone_verified_key(phone: &str) -> (r: String)
    ensures
        r@ == "phone_verified:"@ + phone@,
{
    let mut r = String::from_str("phone_verified:");
    r.append(phone);
    r
}

/// The key of a post-verification token: `otp_token:{token}:{phone}`.
pub fn otp_token_key(token: &str, phone: &str) -> (r: String)
    ensures
        r@ == "otp_token:"@ + token@ + ":"@ + phone@,
{
    let mut r = String::from_str("otp_token:");
    r.append(token);
    r.append(":");
    r.append(phone);
    r
}

/// The key of the OTP request counter: `otp_rate:{purpose}:{phone}`.
pub fn otp_rate_key(phone: &str, purpose: &OtpPurpose) -> (r: String)
    ensures
        r@ == "otp_rate:"@ + purpose_text(*purpose) + ":"@ + phone@,
{
    let mut r = String::from_str("otp_rate:");
    r.append(purpose.as_str());
    r.append(":");
    r.append(phone);
    r
}

// ── Generation ───────────────────────────────────────────────────────────────

/// A code of `OTP_LENGTH` decimal digits.
pub open spec fn is_otp_code(s: Seq<char>) -> bool {
    s.len() == OTP_LENGTH && all_digits(s)
}

fn digit_char(d: u32) -> (c: char)
    requires
        d < 10,
    ensures
        is_digit(c),
{
    let b: u8 = (48 + d) as u8;
    b as char
}

/// A fresh random OTP: six decimal digits.
pub fn generate_otp() -> (r: String)
    ensures
        is_otp_code(r@),
{
    let mut s = String::new();
    let mut i: usize = 0;
    while i < OTP_LENGTH
        invariant
            i <= OTP_LENGTH,
            s@.len() == i,
            all_digits(s@),
        decreases OTP_LENGTH - i,
    {
        let d = random_below(10);
        let c = digit_char(d);
        push_char(&mut s, c);
        i += 1;
    }
    s
}

/// The characters a collection code is made of: `A`..`Z` without `I` and `O`,
/// and `2`..`9`.
pub open spec fn in_collection_charset(c: char) -> bool {
    ('A' <= c && c <= 'Z' && c != 'I' && c != 'O') || ('2' <= c && c <= '9')
}

pub open spec fn is_collection_code(s: Seq<char>) -> bool {
    &&& s.len() == COLLECTION_CODE_LENGTH
    &&& forall|i: int| 0 <= i < s.len() ==> #[trigger] in_collection_charset(s[i])
}

/// A fresh random collection code for Market order pickups: eight characters,
/// none of them ambiguous (`0`, `O`, `1`, `I`).
pub fn generate_collection_code() -> (r: String)
    ensures
        is_collection_code(r@),
{
    let charset = "ABCDEFGHJKLMNPQRSTUVWXYZ23456789";
    proof {
        reveal_strlit("ABCDEFGHJKLMNPQRSTUVWXYZ23456789");
    }
    let n = charset.unicode_len();
    let mut s = String::new();
    let mut i: usize = 0;
    while i < COLLECTION_CODE_LENGTH
        invariant
            i <= COLLECTION_CODE_LENGTH,
            n == 32,
            charset@ == "ABCDEFGHJKLMNPQRSTUVWXYZ23456789"@,
            "ABCDEFGHJKLMNPQRSTUVWXYZ23456789"@.len() == 32,
            forall|k: int| 0 <= k < 32 ==> #[trigger] in_collection_charset(charset@[k]),
            s@.len() == i,
            forall|k: int| 0 <= k < s@.len() ==> #[trigger] in_collection_charset(s@[k]),
        decreases COLLECTION_CODE_LENGTH - i,
    {
        let idx = random_below(32);
        let c = charset.get_char(idx as usize);
        push_char(&mut s, c);
        i += 1;
    }
    s
}

// ── Tokens ───────────────────────────────────────────────────────────────────

/// The lower-case hex digit of a value below 16.
pub open spec fn hex_digit(n: int) -> char {
    if n < 10 {
        (48 + n) as char
    } else {
        (87 + n) as char
    }
}

/// Bytes as lower-case hex text, two digits per byte, high half first.
pub open spec fn hex_text(bytes: Seq<u8>) -> Seq<char>
    decreases bytes.len(),
{
    if bytes.len() == 0 {
        Seq::empty()
    } else {
        hex_text(bytes.drop_last()) + seq![
            hex_digit(bytes.last() as int / 16),
            hex_digit(bytes.last() as int % 16),
        ]
    }
}

proof fn lemma_hex_text(bytes: Seq<u8>)
    ensures
        hex_text(bytes).len() == 2 * bytes.len(),
        forall|i: int| 0 <= i < hex_text(bytes).len() ==> #[trigger] is_lower_hex_digit(hex_text(bytes)[i]),
    decreases bytes.len(),
{
    if bytes.len() > 0 {
        lemma_hex_text(bytes.drop_last());
        let b = bytes.last() as int;
        assert(0 <= b / 16 < 16 && 0 <= b % 16 < 16);
        assert(is_lower_hex_digit(hex_digit(b / 16)));
        assert(is_lower_hex_digit(hex_digit(b % 16)));
    }
}

/// `hex::encode`: each byte as two lower-case hex digits (`0123456789abcdef`),
/// the high half first.
#[verifier::external_body]
fn hex_encode(bytes: &Vec<u8>) -> (r: String)
    ensures
        r@ == hex_text(bytes@),
{
    hex::encode(bytes)
}

/// A fresh random token: 32 random bytes written as 64 lower-case hex digits.
pub fn generate_secure_token() -> (r: String)
    ensures
        r@.len() == 64,
        forall|i: int| 0 <= i < r@.len() ==> #[trigger] is_lower_hex_digit(r@[i]),
{
    let mut bytes: Vec<u8> = Vec::new();
    let mut i: usize = 0;
    while i < 32
        invariant
            i <= 32,
            bytes@.len() == i,
        decreases 32 - i,
    {
        bytes.push(random_byte());
        i += 1;
    }
    let r = hex_encode(&bytes);
    proof {
        lemma_hex_text(bytes@);
    }
    r
}

// ── Checking a stored code ───────────────────────────────────────────────────

/// What a check finds under a code's key.
#[derive(Debug, Clone, Copy, PartialEq, Eq, Structural)]
pub enum CodeCheck {
    /// Nothing is stored: the code never existed or has expired.
    Missing,
    /// Something else is stored.
    Mismatch,
    /// The submitted value is the stored one; its key is deleted (single use).
    Accepted,
}

pub open spec fn code_check_spec(stored: Option<Seq<char>>, submitted: Seq<char>) -> CodeCheck {
    match stored {
        None => CodeCheck::Missing,
        Some(v) => if v == submitted {
            CodeCheck::Accepted
        } else {
            CodeCheck::Mismatch
        },
    }
}

pub open spec fn opt_text(o: Option<&str>) -> Option<Seq<char>> {
    match o {
        None => None,
        Some(s) => Some(s@),
    }
}

/// Compares what the store holds under a key with what was submitted: an OTP
/// against the code sent, or a reset token's record against the phone.
pub fn check_stored_code(stored: Option<&str>, submitted: &str) -> (r: CodeCheck)
    ensures
        r == code_check_spec(opt_text(stored), submitted@),
{
    match stored {
        None => CodeCheck::Missing,
        Some(v) => if str_equals(v, submitted) {
            CodeCheck::Accepted
        } else {
            CodeCheck::Mismatch
        },
    }
}

/// A key-value store of codes, as the checks see it.
pub open spec fn stored_at(store: Map<Seq<char>, Seq<char>>, key: Seq<char>) -> Option<
    Seq<char>,
> {
    if store.contains_key(key) {
        Some(store[key])
    } else {
        None
    }
}

/// One verification against the store: whether it passes, and the store after it
/// (an accepted code's key is deleted).
pub open spec fn verify_in_store(
    store: Map<Seq<char>, Seq<char>>,
    key: Seq<char>,
    submitted: Seq<char>,
) -> (bool, Map<Seq<char>, Seq<char>>) {
    let check = code_check_spec(stored_at(store, key), submitted);
    if check == CodeCheck::Accepted {
        (true, store.remove(key))
    } else {
        (false, store)
    }
}

/// A code is single-use: once it has been accepted, checking the same code under
/// the same key again fails.
pub proof fn law_code_single_use(
    store: Map<Seq<char>, Seq<char>>,
    key: Seq<char>,
    submitted: Seq<char>,
)
    ensures
        verify_in_store(store, key, submitted).0 ==> !verify_in_store(
            verify_in_store(store, key, submitted).1,
            key,
            submitted,
        ).0,
{
}

/// A check passes exactly when the stored value is the submitted one; a wrong or
/// expired code leaves the store as it was.
pub proof fn law_code_check_passes_iff_equal(
    store: Map<Seq<char>, Seq<char>>,
    key: Seq<char>,
    submitted: Seq<char>,
)
    ensures
        verify_in_store(store, key, submitted).0 <==> (store.contains_key(key) && store[key]
            == submitted),
        !verify_in_store(store, key, submitted).0 ==> verify_in_store(store, key, submitted).1
            == store,
{
}

// ── Rate limiting ────────────────────────────────────────────────────────────

/// What to do after the request counter of a phone and purpose was raised.
#[derive(Debug, Clone, Copy, PartialEq, Eq, Structural)]
pub struct RateLimitDecision {
    /// The counter was just created: give it the window's expiry.
    pub start_window: bool,
    /// The request may go on.
    pub within_limit: bool,
}

/// The decision for the `count`-th request of the current window.
pub fn rate_limit_decision(count: u32) -> (r: RateLimitDecision)
    ensures
        r.start_window == (count == 1),
        r.within_limit == (count <= OTP_RATE_MAX_REQUESTS),
{
    RateLimitDecision { start_window: count == 1, within_limit: count <= OTP_RATE_MAX_REQUESTS }
}

/// How many of the first `n` requests of a window are let through.
pub open spec fn allowed_among(n: nat) -> nat
    decreases n,
{
    if n == 0 {
        0
    } else {
        allowed_among((n - 1) as nat) + if n <= OTP_RATE_MAX_REQUESTS {
            1nat
        } else {
            0nat
        }
    }
}

/// At most three OTP requests per phone and purpose go through in one window:
/// of the first `n`, exactly `min(n, 3)`.
pub proof fn law_rate_limit_at_most_three(n: nat)
    ensures
        allowed_among(n) == if n <= 3 {
            n
        } else {
            3
        },
        allowed_among(n) <= 3,
    decreases n,
{
    if n > 0 {
        law_rate_limit_at_most_three((n - 1) as nat);
    }
}

/// Seconds until the rate-limit window resets, from the counter's time to live
/// (negative when the key has no expiry or does not exist).
pub fn rate_limit_wait_seconds(ttl: i64) -> (r: i64)
    ensures
        r == if ttl < 0 {
            0
        } else {
            ttl
        },
{
    if ttl < 0 {
        0
    } else {
        ttl
    }
}

} // verus!
