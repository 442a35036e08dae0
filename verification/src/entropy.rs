//! Random numbers and identifiers, drawn through `rand` and `uuid`.

use vstd::prelude::*;

verus! {

pub open spec fn is_lower_hex_digit(c: char) -> bool {
    ('0' <= c && c <= '9') || ('a' <= c && c <= 'f')
}

/// The shape of a hyphenated UUID: 8-4-4-4-12 lower-case hex digits.
pub open spec fn uuid_shape(s: Seq<char>) -> bool {
    &&& s.len() == 36
    &&& forall|i: int|
        0 <= i < 36 ==> (if i == 8 || i == 13 || i == 18 || i == 23 {
            s[i] == '-'
        } else {
            is_lower_hex_digit(s[i])
        })
}

/// `rand::thread_rng().gen_range(0..bound)`: a random number below `bound`.
#[verifier::external_body]
fn rng_below(bound: u32) -> (r: u32)
    requires
        bound > 0,
    ensures
        r < bound,
{
    rand::Rng::gen_range(&mut rand::thread_rng(), 0..bound)
}

/// `rand::thread_rng().gen::<u8>()`: a random byte.
#[verifier::external_body]
fn rng_byte() -> (r: u8) {
    rand::Rng::gen::<u8>(&mut rand::thread_rng())
}

/// `uuid::Uuid::new_v4().to_string()`: a random UUID, which `uuid` writes hyphenated
/// in lower case.
#[verifier::external_body]
fn uuid_v4_text() -> (r: String)
    ensures
        uuid_shape(r@),
{
    uuid::Uuid::new_v4().to_string()
}

/// A random number below `bound`.
pub fn random_below(bound: u32) -> (r: u32)
    requires
        bound > 0,
    ensures
        r < bound,
{
    rng_below(bound)
}

/// A random byte.
pub fn random_byte() -> (r: u8) {
    rng_byte()
}

/// A new random identifier (a version-4 UUID as text).
pub fn new_id() -> (r: String)
    ensures
        uuid_shape(r@),
{
    uuid_v4_text()
}

} // verus!
