//! The wall clock, read through `chrono`, and the texts `chrono` writes for a moment.

use vstd::prelude::*;

verus! {

/// A moment, as seconds and nanoseconds since the Unix epoch.
#[derive(Debug, Clone, Copy, PartialEq, Eq, Structural)]
pub struct Timestamp {
    pub seconds: i64,
    pub nanos: u32,
}

/// What `chrono` writes for a UTC moment (`DateTime<Utc>` displayed), or `None`
/// when `DateTime::from_timestamp` has no such moment.
pub uninterp spec fn chrono_utc_text(seconds: i64, nanos: u32) -> Option<Seq<char>>;

/// What `chrono` writes for a UTC moment in RFC 3339 (`DateTime::to_rfc3339`).
pub uninterp spec fn chrono_rfc3339_text(seconds: i64, nanos: u32) -> Seq<char>;

/// The calendar year of a UTC moment (`Datelike::year`).
pub uninterp spec fn chrono_utc_year(seconds: i64, nanos: u32) -> i32;

/// Moments that `chrono` represents: within about 250 000 years of the epoch,
/// with less than a second of nanoseconds.
pub open spec fn in_chrono_range(t: Timestamp) -> bool {
    -8_000_000_000_000 <= t.seconds <= 8_000_000_000_000 && t.nanos < 1_000_000_000
}

/// What holds of every moment the clock gives: not before the epoch, less than a
/// second of nanoseconds, and a moment that `chrono` represents.
pub open spec fn is_clock_reading(t: Timestamp) -> bool {
    &&& t.seconds >= 0
    &&& t.nanos < 1_000_000_000
    &&& chrono_utc_text(t.seconds, t.nanos) is Some
}

/// `chrono::Utc::now`, as seconds and nanoseconds since the epoch. Which moment
/// it reads is not promised; `chrono` builds it from the time since the epoch
/// (refusing a clock before the epoch) with `DateTime::from_timestamp`, so the
/// moment is a clock reading.
#[verifier::external_body]
fn utc_now() -> (r: Timestamp)
    ensures
        is_clock_reading(r),
{
    let t = chrono::Utc::now();
    Timestamp { seconds: t.timestamp(), nanos: t.timestamp_subsec_nanos() }
}

/// `DateTime::<Utc>::from_timestamp(seconds, nanos)` displayed, named by
/// `chrono_utc_text`. Within `in_chrono_range` the moment exists.
#[verifier::external_body]
pub(crate) fn utc_text(t: Timestamp) -> (r: Option<String>)
    ensures
        r matches Some(s) ==> chrono_utc_text(t.seconds, t.nanos) == Some(s@),
        r is None ==> chrono_utc_text(t.seconds, t.nanos) is None,
        in_chrono_range(t) ==> r is Some,
{
    chrono::DateTime::from_timestamp(t.seconds, t.nanos).map(|d| d.to_string())
}

/// `DateTime::<Utc>::from_timestamp(seconds, nanos)` in RFC 3339 (`to_rfc3339`),
/// named by `chrono_rfc3339_text`; `None` exactly when there is no such moment.
#[verifier::external_body]
fn rfc3339_text(t: Timestamp) -> (r: Option<String>)
    ensures
        r matches Some(s) ==> chrono_rfc3339_text(t.seconds, t.nanos) == s@,
        r is None <==> chrono_utc_text(t.seconds, t.nanos) is None,
{
    chrono::DateTime::from_timestamp(t.seconds, t.nanos).map(|d| d.to_rfc3339())
}

/// The year of `DateTime::<Utc>::from_timestamp(seconds, nanos)`, named by
/// `chrono_utc_year`; `None` exactly when there is no such moment. A moment not
/// before the epoch is in 1970 or later.
#[verifier::external_body]
fn utc_year(t: Timestamp) -> (r: Option<i32>)
    ensures
        r matches Some(y) ==> chrono_utc_year(t.seconds, t.nanos) == y,
        r is None <==> chrono_utc_text(t.seconds, t.nanos) is None,
        t.seconds >= 0 ==> (r matches Some(y) ==> y >= 1970),
{
    chrono::DateTime::from_timestamp(t.seconds, t.nanos).map(|d| chrono::Datelike::year(&d))
}

impl Timestamp {
    /// The current moment.
    pub fn now() -> (r: Timestamp)
        ensures
            is_clock_reading(r),
    {
        utc_now()
    }
}

/// The current moment, written as RFC 3339 text.
pub fn now_rfc3339() -> (r: String)
    ensures
        exists|t: Timestamp| #[trigger] is_clock_reading(t) && r@ == chrono_rfc3339_text(t.seconds, t.nanos),
{
    let t = utc_now();
    match rfc3339_text(t) {
        Some(s) => s,
        None => {
            proof {
                assert(false);
            }
            String::new()
        },
    }
}

/// The current calendar year (UTC).
pub fn current_year() -> (r: i32)
    ensures
        exists|t: Timestamp| #[trigger] is_clock_reading(t) && r == chrono_utc_year(t.seconds, t.nanos),
        r >= 1970,
{
    let t = utc_now();
    match utc_year(t) {
        Some(y) => y,
        None => {
            proof {
                assert(false);
            }
            0
        },
    }
}

} // verus!
