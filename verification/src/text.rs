//! Small text operations of `std` that the library needs, with their contracts.

use vstd::prelude::*;
use vstd::string::*;

verus! {

/// ASCII upper case of one character; other characters are unchanged.
pub open spec fn ascii_upper(c: char) -> char {
    if 'a' <= c && c <= 'z' {
        ((c as u32 - 32) as u8) as char
    } else {
        c
    }
}

pub open spec fn all_ascii(s: Seq<char>) -> bool {
    forall|i: int| 0 <= i < s.len() ==> (s[i] as u32) < 128
}

/// What `str::to_uppercase` gives: the Unicode upper case of a text.
pub uninterp spec fn unicode_uppercase(s: Seq<char>) -> Seq<char>;

/// `<str as PartialEq>::eq`: two texts are equal when their characters are.
#[verifier::external_body]
pub(crate) fn str_equals(a: &str, b: &str) -> (r: bool)
    ensures
        r == (a@ == b@),
{
    a == b
}

/// `str::to_uppercase`, named by `unicode_uppercase`. On ASCII text, as `std`
/// documents, each letter `a`..`z` becomes `A`..`Z` and nothing else changes.
#[verifier::external_body]
pub(crate) fn str_to_uppercase(s: &str) -> (r: String)
    ensures
        r@ == unicode_uppercase(s@),
        all_ascii(s@) ==> r@ == s@.map_values(|c: char| ascii_upper(c)),
{
    s.to_uppercase()
}

/// `String::push`: appends one character.
#[verifier::external_body]
pub(crate) fn push_char(s: &mut String, c: char)
    ensures
        final(s)@ == old(s)@.push(c),
{
    s.push(c)
}

/// A new `String` holding `s`.
pub fn string_of(s: &str) -> (r: String)
    ensures
        r@ == s@,
{
    String::from_str(s)
}

/// `a` followed by `b`.
pub fn concat2(a: &str, b: &str) -> (r: String)
    ensures
        r@ == a@ + b@,
{
    let mut r = String::from_str(a);
    r.append(b);
    r
}

pub open spec fn is_digit(c: char) -> bool {
    '0' <= c && c <= '9'
}

pub open spec fn digit_value(c: char) -> int {
    c as int - 48
}

/// The number that a sequence of decimal digits writes.
pub open spec fn digits_value(s: Seq<char>) -> int
    decreases s.len(),
{
    if s.len() == 0 {
        0
    } else {
        digits_value(s.drop_last()) * 10 + digit_value(s.last())
    }
}

pub open spec fn all_digits(s: Seq<char>) -> bool {
    forall|i: int| 0 <= i < s.len() ==> is_digit(s[i])
}

/// The text without one leading `+`.
pub open spec fn strip_plus(s: Seq<char>) -> Seq<char> {
    if s.len() > 0 && s[0] == '+' {
        s.drop_first()
    } else {
        s
    }
}

/// What `str::parse::<u64>` accepts: an optional `+`, then one or more decimal
/// digits whose value fits in a `u64`.
pub open spec fn parse_u64_spec(s: Seq<char>) -> Option<u64> {
    let t = strip_plus(s);
    if t.len() == 0 || !all_digits(t) || digits_value(t) > u64::MAX {
        None
    } else {
        Some(digits_value(t) as u64)
    }
}

pub proof fn lemma_digits_value_nonneg(s: Seq<char>)
    requires
        all_digits(s),
    ensures
        digits_value(s) >= 0,
    decreases s.len(),
{
    if s.len() > 0 {
        lemma_digits_value_nonneg(s.drop_last());
    }
}

/// Parses a decimal `u64` as `str::parse::<u64>` does.
pub fn parse_u64(s: &str) -> (r: Option<u64>)
    ensures
        r == parse_u64_spec(s@),
{
    let n = s.unicode_len();
    let mut start: usize = 0;
    if n > 0 && s.get_char(0) == '+' {
        start = 1;
    }
    let ghost t = strip_plus(s@);
    proof {
        assert(t =~= s@.skip(start as int));
    }
    if start >= n {
        proof {
            assert(t.len() == 0);
        }
        return None;
    }
    let mut acc: u64 = 0;
    let mut overflowed = false;
    let mut i: usize = start;
    while i < n
        invariant
            n == s@.len(),
            start <= i <= n,
            t =~= s@.skip(start as int),
            t == strip_plus(s@),
            all_digits(s@.subrange(start as int, i as int)),
            !overflowed ==> acc == digits_value(s@.subrange(start as int, i as int)),
            overflowed ==> digits_value(s@.subrange(start as int, i as int)) > u64::MAX,
        decreases n - i,
    {
        let c = s.get_char(i);
        let ghost prefix = s@.subrange(start as int, i as int);
        let ghost next = s@.subrange(start as int, i + 1);
        proof {
            assert(next.drop_last() =~= prefix);
            assert(next.last() == c);
        }
        if !('0' <= c && c <= '9') {
            proof {
                assert(t[i - start] == c);
                assert(!all_digits(t));
            }
            return None;
        }
        let d = (c as u32 - 48) as u64;
        if !overflowed {
            match acc.checked_mul(10) {
                Some(m) => match m.checked_add(d) {
                    Some(v) => {
                        acc = v;
                    },
                    None => {
                        overflowed = true;
                    },
                },
                None => {
                    overflowed = true;
                },
            }
        }
        proof {
            assert(all_digits(next));
            lemma_digits_value_nonneg(prefix);
        }
        i += 1;
    }
    proof {
        assert(s@.subrange(start as int, n as int) =~= t);
    }
    if overflowed {
        None
    } else {
        Some(acc)
    }
}

/// The text before the first `.`, or all of it when there is none (the first
/// item of `str::split('.')`).
pub open spec fn before_dot(s: Seq<char>) -> Seq<char>
    decreases s.len(),
{
    if s.len() == 0 {
        s
    } else if s[0] == '.' {
        Seq::empty()
    } else {
        seq![s[0]] + before_dot(s.drop_first())
    }
}

pub proof fn lemma_before_dot_prefix(s: Seq<char>, i: int)
    requires
        0 <= i <= s.len(),
        forall|k: int| 0 <= k < i ==> s[k] != '.',
    ensures
        before_dot(s) == s.take(i) + before_dot(s.skip(i)),
    decreases i,
{
    if i > 0 {
        lemma_before_dot_prefix(s.drop_first(), i - 1);
        assert(s.drop_first().take(i - 1) =~= s.take(i).drop_first());
        assert(s.drop_first().skip(i - 1) =~= s.skip(i));
        assert(seq![s[0]] + s.take(i).drop_first() =~= s.take(i));
    } else {
        assert(s.take(0) =~= Seq::<char>::empty());
        assert(s.skip(0) =~= s);
    }
}

/// The text before the first `.`.
pub fn text_before_dot(s: &str) -> (r: String)
    ensures
        r@ == before_dot(s@),
{
    let n = s.unicode_len();
    let mut out = String::new();
    let mut i: usize = 0;
    while i < n
        invariant
            n == s@.len(),
            i <= n,
            out@ == s@.take(i as int),
            forall|k: int| 0 <= k < i ==> s@[k] != '.',
        decreases n - i,
    {
        let c = s.get_char(i);
        if c == '.' {
            proof {
                lemma_before_dot_prefix(s@, i as int);
                assert(s@.skip(i as int)[0] == '.');
                assert(before_dot(s@.skip(i as int)) == Seq::<char>::empty());
                assert(out@ + Seq::<char>::empty() =~= out@);
            }
            return out;
        }
        push_char(&mut out, c);
        proof {
            assert(out@ =~= s@.take(i + 1));
        }
        i += 1;
    }
    proof {
        lemma_before_dot_prefix(s@, n as int);
        assert(s@.skip(n as int) =~= Seq::<char>::empty());
        assert(s@.take(n as int) + Seq::<char>::empty() =~= s@.take(n as int));
    }
    out
}


/// The Unicode `White_Space` characters, by which `str::trim` cuts.
pub open spec fn is_unicode_whitespace(c: char) -> bool {
    let u = c as u32;
    (9 <= u && u <= 13) || u == 32 || u == 0x85 || u == 0xA0 || u == 0x1680 || (0x2000 <= u
        && u <= 0x200A) || u == 0x2028 || u == 0x2029 || u == 0x202F || u == 0x205F || u == 0x3000
}

/// The text without its leading white space.
pub open spec fn trim_start_spec(s: Seq<char>) -> Seq<char>
    decreases s.len(),
{
    if s.len() > 0 && is_unicode_whitespace(s[0]) {
        trim_start_spec(s.drop_first())
    } else {
        s
    }
}

/// The text without its trailing white space.
pub open spec fn trim_end_spec(s: Seq<char>) -> Seq<char>
    decreases s.len(),
{
    if s.len() > 0 && is_unicode_whitespace(s.last()) {
        trim_end_spec(s.drop_last())
    } else {
        s
    }
}

/// The text without leading and trailing white space.
pub open spec fn trim_spec(s: Seq<char>) -> Seq<char> {
    trim_end_spec(trim_start_spec(s))
}

/// `str::trim` (as an owned `String`): leading and trailing Unicode white space removed.
#[verifier::external_body]
pub fn trimmed(s: &str) -> (r: String)
    ensures
        r@ == trim_spec(s@),
{
    s.trim().to_string()
}

/// Whether a character has the Unicode `Uppercase` property (`char::is_uppercase`).
pub uninterp spec fn unicode_is_uppercase(c: char) -> bool;

/// `char::is_uppercase`, named by `unicode_is_uppercase`. Among ASCII characters,
/// exactly `A`..`Z` have the property.
#[verifier::external_body]
pub(crate) fn char_is_uppercase(c: char) -> (r: bool)
    ensures
        r == unicode_is_uppercase(c),
        (c as u32) < 128 ==> (r <==> ('A' <= c && c <= 'Z')),
{
    c.is_uppercase()
}

/// What `str::parse::<u32>` accepts: an optional `+`, then one or more decimal
/// digits whose value fits in a `u32`.
pub open spec fn parse_u32_spec(s: Seq<char>) -> Option<u32> {
    let t = strip_plus(s);
    if t.len() == 0 || !all_digits(t) || digits_value(t) > u32::MAX {
        None
    } else {
        Some(digits_value(t) as u32)
    }
}

/// Parses a decimal `u32` as `str::parse::<u32>` does.
pub fn parse_u32(s: &str) -> (r: Option<u32>)
    ensures
        r == parse_u32_spec(s@),
{
    proof {
        if all_digits(strip_plus(s@)) {
            lemma_digits_value_nonneg(strip_plus(s@));
        }
    }
    match parse_u64(s) {
        None => None,
        Some(v) => if v <= 0xffff_ffff {
            Some(v as u32)
        } else {
            None
        },
    }
}

/// The pieces of a text between the separator `sep` (what `str::split` yields):
/// one more piece than there are separators.
pub open spec fn split_spec(s: Seq<char>, sep: char) -> Seq<Seq<char>>
    decreases s.len(),
{
    if s.len() == 0 {
        seq![Seq::empty()]
    } else {
        let rest = split_spec(s.drop_last(), sep);
        if s.last() == sep {
            rest.push(Seq::empty())
        } else {
            rest.update(rest.len() - 1, rest.last().push(s.last()))
        }
    }
}

pub proof fn lemma_split_nonempty(s: Seq<char>, sep: char)
    ensures
        split_spec(s, sep).len() >= 1,
    decreases s.len(),
{
    if s.len() > 0 {
        lemma_split_nonempty(s.drop_last(), sep);
    }
}

pub open spec fn texts(v: Seq<String>) -> Seq<Seq<char>> {
    v.map_values(|x: String| x@)
}

/// Splits a text at each `sep`, as `str::split(sep)` does.
pub fn split_on(s: &str, sep: char) -> (r: Vec<String>)
    ensures
        texts(r@) == split_spec(s@, sep),
{
    let n = s.unicode_len();
    let mut done: Vec<String> = Vec::new();
    let mut current = String::new();
    let mut i: usize = 0;
    proof {
        assert(s@.take(0) =~= Seq::<char>::empty());
        assert(texts(done@).push(current@) =~= split_spec(s@.take(0), sep));
    }
    while i < n
        invariant
            n == s@.len(),
            i <= n,
            texts(done@).push(current@) == split_spec(s@.take(i as int), sep),
        decreases n - i,
    {
        let c = s.get_char(i);
        let ghost before = s@.take(i as int);
        proof {
            assert(s@.take(i + 1).drop_last() =~= before);
            assert(s@.take(i + 1).last() == c);
            lemma_split_nonempty(before, sep);
        }
        if c == sep {
            let piece = current;
            done.push(piece);
            current = String::new();
            proof {
                assert(texts(done@).push(current@) =~= split_spec(before, sep).push(Seq::empty()));
            }
        } else {
            let ghost old_current = current@;
            push_char(&mut current, c);
            proof {
                let rest = split_spec(before, sep);
                assert(rest.last() == old_current);
                assert(texts(done@).push(current@) =~= rest.update(rest.len() - 1, old_current.push(c)));
            }
        }
        i += 1;
    }
    proof {
        assert(s@.take(n as int) =~= s@);
    }
    done.push(current);
    proof {
        assert(texts(done@) =~= split_spec(s@, sep));
    }
    done
}

} // verus!
