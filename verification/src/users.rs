//! Accounts as the database keeps them, the profile clients see, and the rules
//! of account lookup and creation.

use vstd::prelude::*;
use crate::clock::Timestamp;
use crate::decimal::Decimal;
use crate::errors::AppError;
use crate::text::{concat2, push_char, str_equals, string_of};

verus! {

/// A stored account.
#[derive(Debug, Clone)]
pub struct User {
    pub id: u128,
    pub phone: String,
    pub email: Option<String>,
    pub full_name: String,
    pub avatar_url: Option<String>,
    pub password_hash: Option<String>,
    pub pin_hash: Option<String>,
    pub language: String,
    pub theme: String,
    pub is_active: bool,
    pub is_phone_verified: bool,
    pub is_kyc_verified: bool,
    pub created_at: Timestamp,
    pub updated_at: Timestamp,
}

/// What a client sees of an account: no hashes, no flags but KYC.
#[derive(Debug, Clone)]
pub struct UserProfile {
    pub id: u128,
    pub phone: String,
    pub email: Option<String>,
    pub full_name: String,
    pub avatar_url: Option<String>,
    pub language: String,
    pub theme: String,
    pub is_kyc_verified: bool,
    pub created_at: Timestamp,
}

impl UserProfile {
    /// The profile of an account.
    pub fn from_user(u: User) -> (r: UserProfile)
        ensures
            r.id == u.id,
            r.phone == u.phone,
            r.email == u.email,
            r.full_name == u.full_name,
            r.avatar_url == u.avatar_url,
            r.language == u.language,
            r.theme == u.theme,
            r.is_kyc_verified == u.is_kyc_verified,
            r.created_at == u.created_at,
    {
        UserProfile {
            id: u.id,
            phone: u.phone,
            email: u.email,
            full_name: u.full_name,
            avatar_url: u.avatar_url,
            language: u.language,
            theme: u.theme,
            is_kyc_verified: u.is_kyc_verified,
            created_at: u.created_at,
        }
    }
}

/// A device session of an account.
#[derive(Debug, Clone)]
pub struct UserSession {
    pub id: u128,
    pub user_id: u128,
    pub device_id: String,
    pub ip_address: Option<String>,
    pub user_agent: Option<String>,
    pub last_seen_at: Timestamp,
    pub created_at: Timestamp,
}

/// What a new account is created from.
#[derive(Debug, Clone)]
pub struct CreateUserPayload {
    pub phone: String,
    pub email: Option<String>,
    pub full_name: String,
    pub date_of_birth: String,
    pub gender: String,
    pub password_hash: String,
    pub language: String,
    pub theme: String,
    pub interests: Vec<String>,
    /// The Terms of Service, Privacy Policy and POPIA Notice were accepted.
    pub terms_accepted: bool,
}

// ── Sign-in identifiers ──────────────────────────────────────────────────────

/// The identifier without spaces and hyphens.
pub open spec fn without_separators(s: Seq<char>) -> Seq<char> {
    s.filter(|c: char| c != ' ' && c != '-')
}

/// The phone number to look up first for a sign-in identifier: the identifier
/// without spaces and hyphens, when that starts with `+` or `0`. Otherwise (and
/// when no account has that phone) the identifier is looked up as an email.
pub open spec fn phone_candidate_spec(identifier: Seq<char>) -> Option<Seq<char>> {
    let cleaned = without_separators(identifier);
    if cleaned.len() > 0 && (cleaned[0] == '+' || cleaned[0] == '0') {
        Some(cleaned)
    } else {
        None
    }
}

pub fn phone_lookup_candidate(identifier: &str) -> (r: Option<String>)
    ensures
        r matches Some(p) ==> phone_candidate_spec(identifier@) == Some(p@),
        r is None ==> phone_candidate_spec(identifier@) is None,
{
    let n = identifier.unicode_len();
    let mut cleaned = String::new();
    let mut i: usize = 0;
    while i < n
        invariant
            n == identifier@.len(),
            i <= n,
            cleaned@ == without_separators(identifier@.take(i as int)),
        decreases n - i,
    {
        let c = identifier.get_char(i);
        proof {
            let t = identifier@.take(i + 1);
            assert(t.drop_last() =~= identifier@.take(i as int));
            assert(t.last() == c);
            t.drop_last().lemma_filter_push(c, |c: char| c != ' ' && c != '-');
            assert(t =~= t.drop_last().push(c));
        }
        if c != ' ' && c != '-' {
            push_char(&mut cleaned, c);
        }
        i += 1;
    }
    proof {
        assert(identifier@.take(n as int) =~= identifier@);
    }
    let m = cleaned.unicode_len();
    if m > 0 {
        let first = cleaned.as_str().get_char(0);
        if first == '+' || first == '0' {
            return Some(cleaned);
        }
    }
    None
}

// ── Account creation ─────────────────────────────────────────────────────────

/// Whether `t` occurs in `s`.
pub open spec fn contains_text(s: Seq<char>, t: Seq<char>) -> bool {
    exists|i: int| 0 <= i && i + t.len() <= s.len() && #[trigger] s.subrange(i, i + t.len()) == t
}

fn text_contains(s: &str, t: &str) -> (r: bool)
    ensures
        r == contains_text(s@, t@),
{
    let n = s.unicode_len();
    let m = t.unicode_len();
    if m > n {
        return false;
    }
    if m == 0 {
        assert(s@.subrange(0int, 0int + t@.len()) =~= t@);
        return true;
    }
    let mut i: usize = 0;
    while i <= n - m
        invariant
            n == s@.len(),
            m == t@.len(),
            1 <= m <= n,
            i <= n - m + 1,
            forall|k: int| 0 <= k < i ==> #[trigger] s@.subrange(k, k + m) != t@,
        decreases n - m + 1 - i,
    {
        let piece = s.substring_char(i, i + m);
        if str_equals(piece, t) {
            return true;
        }
        i += 1;
    }
    false
}

/// The error for a failed account insert, from the database's message: a
/// duplicate key means the phone or email is taken; anything else is internal.
pub fn insert_error(db_message: &str) -> (r: AppError)
    ensures
        contains_text(db_message@, "duplicate key"@) ==> (r matches AppError::Conflict(m) && m@
            == "Phone number or email already registered"@),
        !contains_text(db_message@, "duplicate key"@) ==> (r matches AppError::Internal(m) && m@
            == "User insert failed: "@ + db_message@),
{
    if text_contains(db_message, "duplicate key") {
        AppError::Conflict(string_of("Phone number or email already registered"))
    } else {
        AppError::Internal(concat2("User insert failed: ", db_message))
    }
}

/// The rows that go with a new account: the account's flags, an empty wallet, the
/// starting fair score and the fraud settings.
#[derive(Debug, Clone, Copy)]
pub struct NewAccountDefaults {
    pub is_active: bool,
    pub is_phone_verified: bool,
    pub is_kyc_verified: bool,
    /// The wallet starts at 0.00.
    pub wallet_balance: Decimal,
    /// The starting fair score (the "Building" tier).
    pub fair_score: u32,
    pub payment_history: u32,
    pub consistency: u32,
    pub group_activity: u32,
    pub member_tenure: u32,
    /// Fraud settings are opt-in: all off.
    pub behavioral_analytics: bool,
    pub sim_swap_detection: bool,
    pub jailbreak_detection: bool,
    pub geofencing: bool,
}

/// What a new account starts with: active and phone-verified but not KYC-verified,
/// a wallet of 0.00, a fair score of 380 with every component at 0, and every fraud
/// setting off.
pub fn new_account_defaults() -> (r: NewAccountDefaults)
    ensures
        r.is_active && r.is_phone_verified && !r.is_kyc_verified,
        r.wallet_balance@ == (0int, 2nat),
        r.fair_score == 380,
        r.payment_history == 0 && r.consistency == 0 && r.group_activity == 0 && r.member_tenure
            == 0,
        !r.behavioral_analytics && !r.sim_swap_detection && !r.jailbreak_detection
            && !r.geofencing,
{
    NewAccountDefaults {
        is_active: true,
        is_phone_verified: true,
        is_kyc_verified: false,
        wallet_balance: Decimal::new(0, 2),
        fair_score: 380,
        payment_history: 0,
        consistency: 0,
        group_activity: 0,
        member_tenure: 0,
        behavioral_analytics: false,
        sim_swap_detection: false,
        jailbreak_detection: false,
        geofencing: false,
    }
}

} // verus!
