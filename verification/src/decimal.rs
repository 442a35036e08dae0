//! Exact decimal numbers: a signed 96-bit mantissa and a power-of-ten scale.
//!
//! The arithmetic itself is carried out by `rust_decimal`; this module holds the
//! plain representation, its invariant, and the contract of each operation.
//! Where `rust_decimal` may have to round, the result is given a name; where the
//! exact result fits, the contracts say that it is the exact result.

use vstd::prelude::*;

verus! {

/// Largest magnitude of a mantissa: 2^96 - 1.
pub const MAX_MANTISSA: i128 = 79228162514264337593543950335;

/// Largest number of digits after the decimal point.
pub const MAX_SCALE: u32 = 28;

/// 10^n.
pub open spec fn pow10(n: nat) -> int
    decreases n,
{
    if n == 0 {
        1
    } else {
        10 * pow10((n - 1) as nat)
    }
}

/// 10^n is positive.
pub proof fn lemma_pow10_positive(n: nat)
    ensures
        pow10(n) >= 1,
    decreases n,
{
    if n > 0 {
        lemma_pow10_positive((n - 1) as nat);
    }
}

/// 10^(a + b) = 10^a * 10^b.
pub proof fn lemma_pow10_add(a: nat, b: nat)
    ensures
        pow10(a + b) == pow10(a) * pow10(b),
    decreases a,
{
    if a > 0 {
        lemma_pow10_add((a - 1) as nat, b);
        assert(pow10(a + b) == 10 * pow10((a - 1 + b) as nat));
        assert(10 * (pow10((a - 1) as nat) * pow10(b)) == (10 * pow10((a - 1) as nat)) * pow10(b))
            by (nonlinear_arith);
    }
}

/// A value is zero exactly when its mantissa is.
pub proof fn lemma_units_zero(v: (int, nat))
    ensures
        (units(v) == 0) <==> (v.0 == 0),
{
    lemma_pow10_positive((28 - v.1) as nat);
    assert(v.0 != 0 ==> v.0 * pow10((28 - v.1) as nat) != 0) by (nonlinear_arith)
        requires
            pow10((28 - v.1) as nat) >= 1,
    ;
}

/// 10^n grows with n.
pub proof fn lemma_pow10_le(a: nat, b: nat)
    requires
        a <= b,
    ensures
        pow10(a) <= pow10(b),
    decreases b,
{
    if a < b {
        lemma_pow10_le(a, (b - 1) as nat);
        lemma_pow10_positive((b - 1) as nat);
    }
}

/// A divisor of magnitude at least two.
pub open spec fn divisor_at_least_two(b: (int, nat)) -> bool {
    abs_int(units(b)) >= 2 * pow10(28)
}

/// Dividing a valid decimal by a divisor of magnitude at least two gives a small quotient.
pub proof fn lemma_quotient_small_for_large_divisor(a: (int, nat), b: (int, nat))
    requires
        valid(a),
        divisor_at_least_two(b),
    ensures
        quotient_small(a, b),
{
    lemma_pow10_le((28 - a.1) as nat, 28);
    lemma_pow10_positive((28 - a.1) as nat);
    lemma_pow10_positive(28);
    let p = pow10((28 - a.1) as nat);
    let q = pow10(28);
    let ua = abs_int(units(a));
    assert(ua <= MAX_MANTISSA * q) by (nonlinear_arith)
        requires
            ua == abs_int(a.0 * p),
            abs_int(a.0) <= MAX_MANTISSA,
            1 <= p <= q,
    ;
    assert(ua * 2 <= abs_int(units(b)) * MAX_MANTISSA) by (nonlinear_arith)
        requires
            ua <= MAX_MANTISSA * q,
            abs_int(units(b)) >= 2 * q,
            q >= 1,
    ;
    assert(b.0 != 0) by {
        if b.0 == 0 {
            assert(units(b) == 0 * pow10((28 - b.1) as nat));
        }
    }
}

/// 10^28, the number of units in one.
pub proof fn lemma_pow10_28()
    ensures
        pow10(28) == 10000000000000000000000000000,
{
    reveal_with_fuel(pow10, 29);
}

/// A representation `(mantissa, scale)` stands for mantissa / 10^scale.
pub open spec fn valid(v: (int, nat)) -> bool {
    &&& v.1 <= 28
    &&& -MAX_MANTISSA <= v.0 <= MAX_MANTISSA
}

/// The value of a representation, counted in units of 10^-28.
pub open spec fn units(v: (int, nat)) -> int {
    v.0 * pow10((28 - v.1) as nat)
}

pub open spec fn abs_int(x: int) -> int {
    if x < 0 {
        -x
    } else {
        x
    }
}

pub open spec fn max_nat(a: nat, b: nat) -> nat {
    if a < b {
        b
    } else {
        a
    }
}

/// The mantissa of `v` written at the larger scale `s`.
pub open spec fn mantissa_at(v: (int, nat), s: nat) -> int {
    v.0 * pow10((s - v.1) as nat)
}

/// The exact sum of `a` and `b` fits in a mantissa at the larger of the two scales.
pub open spec fn sum_fits(a: (int, nat), b: (int, nat)) -> bool {
    let s = max_nat(a.1, b.1);
    abs_int(mantissa_at(a, s) + mantissa_at(b, s)) <= MAX_MANTISSA
}

/// The exact difference `a - b` fits in a mantissa at the larger of the two scales.
pub open spec fn difference_fits(a: (int, nat), b: (int, nat)) -> bool {
    let s = max_nat(a.1, b.1);
    abs_int(mantissa_at(a, s) - mantissa_at(b, s)) <= MAX_MANTISSA
}

/// Both operands, written at the larger of their scales, fit in a mantissa.
pub open spec fn aligned_fits(a: (int, nat), b: (int, nat)) -> bool {
    let s = max_nat(a.1, b.1);
    &&& abs_int(mantissa_at(a, s)) <= MAX_MANTISSA
    &&& abs_int(mantissa_at(b, s)) <= MAX_MANTISSA
}

/// The representation of an exact sum: both written at the larger scale, added.
pub open spec fn exact_sum(a: (int, nat), b: (int, nat)) -> (int, nat) {
    let s = max_nat(a.1, b.1);
    (mantissa_at(a, s) + mantissa_at(b, s), s)
}

/// The representation of an exact difference at the larger scale.
pub open spec fn exact_difference(a: (int, nat), b: (int, nat)) -> (int, nat) {
    let s = max_nat(a.1, b.1);
    (mantissa_at(a, s) - mantissa_at(b, s), s)
}

/// The exact product of `a` and `b` fits without rescaling.
pub open spec fn product_fits(a: (int, nat), b: (int, nat)) -> bool {
    &&& a.1 + b.1 <= 28
    &&& abs_int(a.0 * b.0) <= MAX_MANTISSA
}

/// The representation of an exact product.
pub open spec fn exact_product(a: (int, nat), b: (int, nat)) -> (int, nat) {
    if a.0 * b.0 == 0 {
        (0, 0)
    } else {
        (a.0 * b.0, a.1 + b.1)
    }
}

/// What `rust_decimal` gives for `a + b`: `None` where it overflows.
pub uninterp spec fn decimal_add(a: (int, nat), b: (int, nat)) -> Option<(int, nat)>;

/// What `rust_decimal` gives for `a - b`: `None` where it overflows.
pub uninterp spec fn decimal_sub(a: (int, nat), b: (int, nat)) -> Option<(int, nat)>;

/// What `rust_decimal` gives for `a * b`: `None` where it overflows.
pub uninterp spec fn decimal_mul(a: (int, nat), b: (int, nat)) -> Option<(int, nat)>;

/// What `rust_decimal` gives for `a / b`: `None` where `b` is zero or the quotient overflows.
pub uninterp spec fn decimal_div(a: (int, nat), b: (int, nat)) -> Option<(int, nat)>;

/// What `rust_decimal` parses from a text: `None` where the text is refused.
pub uninterp spec fn decimal_parse(text: Seq<char>) -> Option<(int, nat)>;

/// rust_decimal's `a * b` comes back, with the exact value of the product.
pub open spec fn mul_exact(a: (int, nat), b: (int, nat)) -> bool {
    decimal_mul(a, b) matches Some(p) && units(p) * pow10(28) == units(a) * units(b)
}

/// rust_decimal's `a / b` comes back, with the exact value of the quotient.
pub open spec fn div_exact(a: (int, nat), b: (int, nat)) -> bool {
    decimal_div(a, b) matches Some(q) && units(q) * units(b) == units(a) * pow10(28)
}

/// rust_decimal's `a + b` comes back, with the exact value of the sum.
pub open spec fn add_exact(a: (int, nat), b: (int, nat)) -> bool {
    decimal_add(a, b) matches Some(t) && units(t) == units(a) + units(b)
}

/// rust_decimal's `a - b` comes back, with the exact value of the difference.
pub open spec fn sub_exact(a: (int, nat), b: (int, nat)) -> bool {
    decimal_sub(a, b) matches Some(d) && units(d) == units(a) - units(b)
}

/// The value of a whole number `n` in units.
pub proof fn lemma_units_of_integer(n: int)
    ensures
        units((n, 0nat)) == n * pow10(28),
{
}

/// The value of a rate of `bps` basis points in units: `bps * 10^24`, a ten-thousandth
/// of `bps` whole units.
pub proof fn lemma_units_of_bps(bps: int)
    ensures
        units((bps, 4nat)) == bps * pow10(24),
        pow10(28) == 10000 * pow10(24),
        pow10(24) >= 1,
{
    lemma_pow10_add(4, 24);
    lemma_pow10_positive(24);
    reveal_with_fuel(pow10, 5);
}

/// The sum of a sequence, added left to right from zero; `None` where a step overflows.
pub open spec fn decimal_sum(vals: Seq<(int, nat)>) -> Option<(int, nat)>
    decreases vals.len(),
{
    if vals.len() == 0 {
        Some((0, 0))
    } else {
        match decimal_sum(vals.drop_last()) {
            Some(acc) => decimal_add(acc, vals.last()),
            None => None,
        }
    }
}

/// The exact total of a sequence, in units.
pub open spec fn units_total(vals: Seq<(int, nat)>) -> int
    decreases vals.len(),
{
    if vals.len() == 0 {
        0
    } else {
        units_total(vals.drop_last()) + units(vals.last())
    }
}

/// Every step of the left-to-right sum fits without rounding.
pub open spec fn sum_exact(vals: Seq<(int, nat)>) -> bool
    decreases vals.len(),
{
    if vals.len() == 0 {
        true
    } else {
        &&& sum_exact(vals.drop_last())
        &&& match decimal_sum(vals.drop_last()) {
            Some(acc) => sum_fits(acc, vals.last()),
            None => false,
        }
    }
}

pub open spec fn values(v: Seq<Decimal>) -> Seq<(int, nat)> {
    v.map_values(|d: Decimal| d@)
}

/// Rounding to `dp` digits after the point, halves going to the even neighbour.
pub open spec fn round_dp_spec(v: (int, nat), dp: nat) -> (int, nat) {
    if v.1 <= dp {
        v
    } else {
        let k = (v.1 - dp) as nat;
        let q = abs_int(v.0) / pow10(k);
        let r = abs_int(v.0) % pow10(k);
        let half = pow10(k) / 2;
        let q2 = if r > half || (r == half && q % 2 == 1) {
            q + 1
        } else {
            q
        };
        (if v.0 < 0 {
            -q2
        } else {
            q2
        }, dp)
    }
}

/// The decimal digits of `n`, most significant first; no digit for zero.
pub open spec fn digits(n: nat) -> Seq<char>
    decreases n,
{
    if n == 0 {
        Seq::empty()
    } else {
        digits(n / 10).push(((48 + n % 10) as u8) as char)
    }
}

/// `s`, with zeros added in front until it has at least `len` characters.
pub open spec fn pad_zeros(s: Seq<char>, len: nat) -> Seq<char> {
    if s.len() >= len {
        s
    } else {
        Seq::new((len - s.len()) as nat, |i: int| '0') + s
    }
}

/// The text that `Display` writes for a decimal: an optional minus sign, the whole
/// part (at least `0`), and when the scale is positive a point and exactly `scale`
/// fractional digits.
pub open spec fn decimal_text(v: (int, nat)) -> Seq<char> {
    let ds = pad_zeros(digits(abs_int(v.0) as nat), v.1);
    let whole = ds.take(ds.len() - v.1);
    let frac = ds.skip(ds.len() - v.1);
    let body = (if whole.len() == 0 {
        seq!['0']
    } else {
        whole
    }) + (if v.1 > 0 {
        seq!['.'] + frac
    } else {
        Seq::empty()
    });
    if v.0 < 0 {
        seq!['-'] + body
    } else {
        body
    }
}

pub open spec fn opt_view(r: Option<Decimal>) -> Option<(int, nat)> {
    match r {
        Some(x) => Some(x@),
        None => None,
    }
}

/// A decimal number `mantissa / 10^scale`.
#[derive(Clone, Copy, Debug)]
pub struct Decimal {
    mantissa: i128,
    scale: u32,
}

impl View for Decimal {
    type V = (int, nat);

    closed spec fn view(&self) -> (int, nat) {
        (self.mantissa as int, self.scale as nat)
    }
}

/// `rust_decimal::Decimal::checked_add`. Named by `decimal_add`; where the exact
/// sum fits at the larger scale rust_decimal adds without rounding, so the value is
/// exact; when neither operand is zero and both fit at the larger scale, rust_decimal
/// keeps that scale. It tests the first operand for zero before the second: a zero
/// first operand gives back the second one unchanged (so two zeros give the second),
/// and a zero second operand gives back a non-zero first one.
#[verifier::external_body]
fn rd_checked_add(a: &Decimal, b: &Decimal) -> (r: Option<Decimal>)
    ensures
        opt_view(r) == decimal_add(a@, b@),
        a@.0 != 0 && b@.0 == 0 ==> opt_view(r) == Some(a@),
        a@.0 == 0 ==> opt_view(r) == Some(b@),
        sum_fits(a@, b@) ==> r is Some && units(r.unwrap()@) == units(a@) + units(b@),
        a@.0 != 0 && b@.0 != 0 && aligned_fits(a@, b@) && sum_fits(a@, b@) ==> opt_view(r)
            == Some(exact_sum(a@, b@)),
{
    let x = rust_decimal::Decimal::from_i128_with_scale(a.mantissa, a.scale);
    let y = rust_decimal::Decimal::from_i128_with_scale(b.mantissa, b.scale);
    match x.checked_add(y) {
        Some(z) => Some(Decimal { mantissa: z.mantissa(), scale: z.scale() }),
        None => None,
    }
}

/// `rust_decimal::Decimal::checked_sub`. Named by `decimal_sub`; where the exact
/// difference fits at the larger scale rust_decimal subtracts without rounding; when
/// neither operand is zero and both fit at the larger scale, rust_decimal keeps that
/// scale. It tests the first operand for zero first: from zero it gives back the
/// second operand negated (a zero second operand unchanged, scale included), and
/// subtracting zero from a non-zero first operand gives that operand back.
#[verifier::external_body]
fn rd_checked_sub(a: &Decimal, b: &Decimal) -> (r: Option<Decimal>)
    ensures
        opt_view(r) == decimal_sub(a@, b@),
        difference_fits(a@, b@) ==> r is Some && units(r.unwrap()@) == units(a@) - units(b@),
        a@.0 != 0 && b@.0 == 0 ==> opt_view(r) == Some(a@),
        a@.0 == 0 ==> opt_view(r) == Some((-b@.0, b@.1)),
        a@.0 != 0 && b@.0 != 0 && aligned_fits(a@, b@) && difference_fits(a@, b@) ==> opt_view(r)
            == Some(exact_difference(a@, b@)),
{
    let x = rust_decimal::Decimal::from_i128_with_scale(a.mantissa, a.scale);
    let y = rust_decimal::Decimal::from_i128_with_scale(b.mantissa, b.scale);
    match x.checked_sub(y) {
        Some(z) => Some(Decimal { mantissa: z.mantissa(), scale: z.scale() }),
        None => None,
    }
}

/// `rust_decimal::Decimal::checked_mul`. Named by `decimal_mul`; where the product of
/// the mantissas fits in 96 bits and the scales add up to at most 28, rust_decimal keeps
/// that product and that scale (and gives plain zero for a zero product).
#[verifier::external_body]
fn rd_checked_mul(a: &Decimal, b: &Decimal) -> (r: Option<Decimal>)
    ensures
        opt_view(r) == decimal_mul(a@, b@),
        product_fits(a@, b@) ==> opt_view(r) == Some(exact_product(a@, b@)),
{
    let x = rust_decimal::Decimal::from_i128_with_scale(a.mantissa, a.scale);
    let y = rust_decimal::Decimal::from_i128_with_scale(b.mantissa, b.scale);
    match x.checked_mul(y) {
        Some(z) => Some(Decimal { mantissa: z.mantissa(), scale: z.scale() }),
        None => None,
    }
}

/// 10, 100, ..., 10^9: a power of ten that fits in 32 bits, above 1.
pub open spec fn small_power_of_ten(n: int) -> bool {
    n == 10 || n == 100 || n == 1000 || n == 10000 || n == 100000 || n == 1000000 || n
        == 10000000 || n == 100000000 || n == 1000000000
}

/// An integer below 2^64 in magnitude, divided by an integer power of ten from 10
/// to 10^9.
pub open spec fn integer_by_small_power(a: (int, nat), b: (int, nat)) -> bool {
    &&& a.1 == 0
    &&& abs_int(a.0) < 0x1_0000_0000_0000_0000
    &&& b.1 == 0
    &&& small_power_of_ten(b.0)
}

/// A quotient whose magnitude is at most half the largest mantissa.
pub open spec fn quotient_small(a: (int, nat), b: (int, nat)) -> bool {
    &&& b.0 != 0
    &&& abs_int(units(a)) * 2 <= abs_int(units(b)) * MAX_MANTISSA
}

/// `rust_decimal::Decimal::checked_div`. Named by `decimal_div`; rust_decimal refuses a
/// zero divisor, and overflows only where the quotient's whole part does not fit in
/// 96 bits, so a quotient of at most half that size always comes back. An integer
/// below 2^64 divided by a power of ten from 10 to 10^9 takes rust_decimal's 32-bit
/// path: one scaling by 10^9 leaves no remainder, so the quotient is exact, with at
/// most 9 digits after the point.
#[verifier::external_body]
fn rd_checked_div(a: &Decimal, b: &Decimal) -> (r: Option<Decimal>)
    ensures
        opt_view(r) == decimal_div(a@, b@),
        b@.0 == 0 ==> r is None,
        quotient_small(a@, b@) ==> r is Some,
        integer_by_small_power(a@, b@) ==> r is Some && r.unwrap()@.1 <= 9,
        integer_by_small_power(a@, b@) ==> units(r.unwrap()@) * b@.0 == units(a@),
{
    let x = rust_decimal::Decimal::from_i128_with_scale(a.mantissa, a.scale);
    let y = rust_decimal::Decimal::from_i128_with_scale(b.mantissa, b.scale);
    match x.checked_div(y) {
        Some(z) => Some(Decimal { mantissa: z.mantissa(), scale: z.scale() }),
        None => None,
    }
}

/// `rust_decimal::Decimal::round_dp`: banker's rounding to `dp` digits, as rust_decimal
/// does it; a value with no more than `dp` digits comes back unchanged.
#[verifier::external_body]
fn rd_round_dp(a: &Decimal, dp: u32) -> (r: Decimal)
    ensures
        r@ == round_dp_spec(a@, dp as nat),
{
    let x = rust_decimal::Decimal::from_i128_with_scale(a.mantissa, a.scale);
    let z = x.round_dp(dp);
    Decimal { mantissa: z.mantissa(), scale: z.scale() }
}

/// `rust_decimal`'s `Display` (through `to_string`): sign, digits, and a point followed
/// by exactly `scale` digits when the scale is positive.
#[verifier::external_body]
fn rd_to_string(a: &Decimal) -> (r: String)
    ensures
        r@ == decimal_text(a@),
{
    rust_decimal::Decimal::from_i128_with_scale(a.mantissa, a.scale).to_string()
}

/// `PartialOrd::lt` of `rust_decimal`, which compares values.
#[verifier::external_body]
fn rd_less_than(a: &Decimal, b: &Decimal) -> (r: bool)
    ensures
        r == (units(a@) < units(b@)),
{
    let x = rust_decimal::Decimal::from_i128_with_scale(a.mantissa, a.scale);
    let y = rust_decimal::Decimal::from_i128_with_scale(b.mantissa, b.scale);
    x < y
}

/// `PartialEq::eq` of `rust_decimal`, which compares values (so 0.5 equals 0.50).
#[verifier::external_body]
fn rd_value_eq(a: &Decimal, b: &Decimal) -> (r: bool)
    ensures
        r == (units(a@) == units(b@)),
{
    let x = rust_decimal::Decimal::from_i128_with_scale(a.mantissa, a.scale);
    let y = rust_decimal::Decimal::from_i128_with_scale(b.mantissa, b.scale);
    x == y
}

/// `<rust_decimal::Decimal as FromStr>::from_str`, named by `decimal_parse`.
#[verifier::external_body]
fn rd_parse(text: &str) -> (r: Option<Decimal>)
    ensures
        opt_view(r) == decimal_parse(text@),
{
    match <rust_decimal::Decimal as std::str::FromStr>::from_str(text) {
        Ok(z) => Some(Decimal { mantissa: z.mantissa(), scale: z.scale() }),
        Err(_) => None,
    }
}

impl Decimal {
    #[verifier::type_invariant]
    spec fn inv(self) -> bool {
        valid((self.mantissa as int, self.scale as nat))
    }

    /// `num / 10^scale`.
    pub fn new(num: i64, scale: u32) -> (r: Decimal)
        requires
            scale <= 28,
        ensures
            r@ == (num as int, scale as nat),
    {
        Decimal { mantissa: num as i128, scale }
    }

    /// `num / 10^scale`, for a mantissa of up to 96 bits.
    pub fn from_i128_with_scale(num: i128, scale: u32) -> (r: Decimal)
        requires
            valid((num as int, scale as nat)),
        ensures
            r@ == (num as int, scale as nat),
    {
        Decimal { mantissa: num, scale }
    }

    /// Zero.
    pub fn zero() -> (r: Decimal)
        ensures
            r@ == (0int, 0nat),
    {
        Decimal { mantissa: 0, scale: 0 }
    }

    /// A whole number.
    pub fn from_u64(n: u64) -> (r: Decimal)
        ensures
            r@ == (n as int, 0nat),
    {
        Decimal { mantissa: n as i128, scale: 0 }
    }

    pub fn mantissa(&self) -> (r: i128)
        ensures
            r == self@.0,
            valid(self@),
    {
        proof {
            use_type_invariant(self);
        }
        self.mantissa
    }

    pub fn scale(&self) -> (r: u32)
        ensures
            r == self@.1,
            valid(self@),
    {
        proof {
            use_type_invariant(self);
        }
        self.scale
    }

    pub fn is_zero(&self) -> (r: bool)
        ensures
            r == (self@.0 == 0),
    {
        self.mantissa == 0
    }

    pub fn is_sign_negative(&self) -> (r: bool)
        ensures
            r == (self@.0 < 0),
    {
        self.mantissa < 0
    }

    /// The absolute value.
    pub fn abs(&self) -> (r: Decimal)
        ensures
            r@ == (abs_int(self@.0), self@.1),
    {
        proof {
            use_type_invariant(self);
        }
        if self.mantissa < 0 {
            Decimal { mantissa: -self.mantissa, scale: self.scale }
        } else {
            *self
        }
    }

    pub fn checked_add(&self, other: &Decimal) -> (r: Option<Decimal>)
        ensures
            opt_view(r) == decimal_add(self@, other@),
            self@.0 != 0 && other@.0 == 0 ==> opt_view(r) == Some(self@),
            self@.0 == 0 ==> opt_view(r) == Some(other@),
            self@.0 != 0 && other@.0 != 0 && aligned_fits(self@, other@) && sum_fits(self@, other@)
                ==> opt_view(r) == Some(exact_sum(self@, other@)),
            sum_fits(self@, other@) ==> (r matches Some(x) && units(x@) == units(self@) + units(
                other@,
            )),
    {
        rd_checked_add(self, other)
    }

    pub fn checked_sub(&self, other: &Decimal) -> (r: Option<Decimal>)
        ensures
            opt_view(r) == decimal_sub(self@, other@),
            difference_fits(self@, other@) ==> (r matches Some(x) && units(x@) == units(self@)
                - units(other@)),
            self@.0 != 0 && other@.0 == 0 ==> opt_view(r) == Some(self@),
            self@.0 == 0 ==> opt_view(r) == Some((-other@.0, other@.1)),
            self@.0 != 0 && other@.0 != 0 && aligned_fits(self@, other@) && difference_fits(
                self@,
                other@,
            ) ==> opt_view(r) == Some(exact_difference(self@, other@)),
    {
        rd_checked_sub(self, other)
    }

    pub fn checked_mul(&self, other: &Decimal) -> (r: Option<Decimal>)
        ensures
            opt_view(r) == decimal_mul(self@, other@),
            product_fits(self@, other@) ==> opt_view(r) == Some(exact_product(self@, other@)),
    {
        rd_checked_mul(self, other)
    }

    pub fn checked_div(&self, other: &Decimal) -> (r: Option<Decimal>)
        ensures
            opt_view(r) == decimal_div(self@, other@),
            other@.0 == 0 ==> r is None,
            quotient_small(self@, other@) ==> r is Some,
            divisor_at_least_two(other@) ==> r is Some,
            integer_by_small_power(self@, other@) ==> r is Some && r.unwrap()@.1 <= 9,
            integer_by_small_power(self@, other@) ==> units(r.unwrap()@) * other@.0 == units(
                self@,
            ),
    {
        proof {
            use_type_invariant(self);
            if divisor_at_least_two(other@) {
                lemma_quotient_small_for_large_divisor(self@, other@);
            }
        }
        rd_checked_div(self, other)
    }

    /// `self + other`, where it does not overflow.
    pub fn add(&self, other: &Decimal) -> (r: Decimal)
        requires
            decimal_add(self@, other@) is Some,
        ensures
            decimal_add(self@, other@) == Some(r@),
            sum_fits(self@, other@) ==> units(r@) == units(self@) + units(other@),
            self@.0 != 0 && other@.0 == 0 ==> r@ == self@,
            self@.0 == 0 ==> r@ == other@,
            self@.0 != 0 && other@.0 != 0 && aligned_fits(self@, other@) && sum_fits(self@, other@)
                ==> r@ == exact_sum(self@, other@),
    {
        match rd_checked_add(self, other) {
            Some(x) => x,
            None => *self,
        }
    }

    /// `self - other`, where it does not overflow.
    pub fn sub(&self, other: &Decimal) -> (r: Decimal)
        requires
            decimal_sub(self@, other@) is Some,
        ensures
            decimal_sub(self@, other@) == Some(r@),
            difference_fits(self@, other@) ==> units(r@) == units(self@) - units(other@),
            self@.0 != 0 && other@.0 == 0 ==> r@ == self@,
            self@.0 == 0 ==> r@ == (-other@.0, other@.1),
            self@.0 != 0 && other@.0 != 0 && aligned_fits(self@, other@) && difference_fits(
                self@,
                other@,
            ) ==> r@ == exact_difference(self@, other@),
    {
        match rd_checked_sub(self, other) {
            Some(x) => x,
            None => *self,
        }
    }

    /// `self * other`, where it does not overflow.
    pub fn mul(&self, other: &Decimal) -> (r: Decimal)
        requires
            decimal_mul(self@, other@) is Some,
        ensures
            decimal_mul(self@, other@) == Some(r@),
            product_fits(self@, other@) ==> r@ == exact_product(self@, other@),
    {
        match rd_checked_mul(self, other) {
            Some(x) => x,
            None => *self,
        }
    }

    /// `self / other`, where `other` is not zero and the quotient does not overflow.
    pub fn div(&self, other: &Decimal) -> (r: Decimal)
        requires
            decimal_div(self@, other@) is Some || quotient_small(self@, other@)
                || divisor_at_least_two(other@),
        ensures
            decimal_div(self@, other@) == Some(r@),
            integer_by_small_power(self@, other@) ==> r@.1 <= 9 && units(r@) * other@.0 == units(
                self@,
            ),
    {
        match self.checked_div(other) {
            Some(x) => x,
            None => *self,
        }
    }

    /// Rounded to `dp` digits after the point, halves to even.
    pub fn round_dp(&self, dp: u32) -> (r: Decimal)
        ensures
            r@ == round_dp_spec(self@, dp as nat),
    {
        rd_round_dp(self, dp)
    }

    /// The text that `Display` writes.
    pub fn to_string(&self) -> (r: String)
        ensures
            r@ == decimal_text(self@),
    {
        rd_to_string(self)
    }

    /// Parses a decimal number.
    pub fn parse(text: &str) -> (r: Option<Decimal>)
        ensures
            opt_view(r) == decimal_parse(text@),
    {
        rd_parse(text)
    }

    /// The two values are equal (whatever their scales).
    pub fn value_eq(&self, other: &Decimal) -> (r: bool)
        ensures
            r == (units(self@) == units(other@)),
    {
        rd_value_eq(self, other)
    }

    pub fn lt(&self, other: &Decimal) -> (r: bool)
        ensures
            r == (units(self@) < units(other@)),
    {
        rd_less_than(self, other)
    }

    pub fn le(&self, other: &Decimal) -> (r: bool)
        ensures
            r == (units(self@) <= units(other@)),
    {
        !rd_less_than(other, self)
    }
}

/// The sum of `vals`, added left to right from zero, where no step overflows. Where
/// every step fits without rounding, the sum is exact.
pub fn sum(vals: &Vec<Decimal>) -> (r: Decimal)
    requires
        decimal_sum(values(vals@)) is Some,
    ensures
        decimal_sum(values(vals@)) == Some(r@),
        sum_exact(values(vals@)) ==> units(r@) == units_total(values(vals@)),
{
    let n = vals.len();
    let mut total = Decimal::zero();
    let mut i: usize = 0;
    proof {
        assert(values(vals@).take(0) =~= Seq::<(int, nat)>::empty());
        lemma_units_zero(total@);
    }
    while i < n
        invariant
            n == vals@.len(),
            i <= n,
            decimal_sum(values(vals@)) is Some,
            decimal_sum(values(vals@).take(i as int)) == Some(total@),
            sum_exact(values(vals@).take(i as int)) ==> units(total@) == units_total(
                values(vals@).take(i as int),
            ),
        decreases n - i,
    {
        let ghost vs = values(vals@);
        proof {
            assert(vs.take(i + 1).drop_last() =~= vs.take(i as int));
            assert(vs.take(i + 1).last() == vals@[i as int]@);
            lemma_sum_prefix_some(vs, i + 1);
            lemma_sum_exact_prefix(vs.take(i + 1));
        }
        total = total.add(&vals[i]);
        i += 1;
    }
    proof {
        assert(values(vals@).take(n as int) =~= values(vals@));
    }
    total
}

/// `sum`, or `None` where a step of the sum overflows.
pub fn checked_sum(vals: &Vec<Decimal>) -> (r: Option<Decimal>)
    ensures
        opt_view(r) == decimal_sum(values(vals@)),
{
    let n = vals.len();
    let mut acc = Decimal::zero();
    let mut i: usize = 0;
    proof {
        assert(values(vals@).take(0) =~= Seq::<(int, nat)>::empty());
    }
    while i < n
        invariant
            n == vals@.len(),
            i <= n,
            decimal_sum(values(vals@).take(i as int)) == Some(acc@),
        decreases n - i,
    {
        proof {
            assert(values(vals@).take(i + 1).drop_last() =~= values(vals@).take(i as int));
            assert(values(vals@).take(i + 1).last() == vals@[i as int]@);
        }
        match acc.checked_add(&vals[i]) {
            None => {
                proof {
                    lemma_sum_none_extends(values(vals@), (i + 1) as int);
                }
                return None;
            },
            Some(t) => {
                acc = t;
            },
        }
        i += 1;
    }
    proof {
        assert(values(vals@).take(n as int) =~= values(vals@));
    }
    Some(sum(vals))
}

/// A prefix of a summable sequence is summable.
pub proof fn lemma_sum_prefix_some(vals: Seq<(int, nat)>, k: int)
    requires
        0 <= k <= vals.len(),
        decimal_sum(vals) is Some,
    ensures
        decimal_sum(vals.take(k)) is Some,
    decreases vals.len() - k,
{
    if k < vals.len() {
        lemma_sum_prefix_some(vals, k + 1);
        assert(vals.take(k + 1).drop_last() =~= vals.take(k));
    } else {
        assert(vals.take(k) =~= vals);
    }
}

/// Once a prefix overflows, the whole sum overflows.
pub proof fn lemma_sum_none_extends(vals: Seq<(int, nat)>, k: int)
    requires
        0 <= k <= vals.len(),
        decimal_sum(vals.take(k)) is None,
    ensures
        decimal_sum(vals) is None,
    decreases vals.len() - k,
{
    if k < vals.len() {
        assert(vals.take(k + 1).drop_last() =~= vals.take(k));
        lemma_sum_none_extends(vals, k + 1);
    } else {
        assert(vals.take(k) =~= vals);
    }
}

/// Exactness of a sum carries to its prefix without the last element.
proof fn lemma_sum_exact_prefix(vals: Seq<(int, nat)>)
    requires
        vals.len() > 0,
    ensures
        sum_exact(vals) ==> sum_exact(vals.drop_last()),
{
}

/// Two decimals are equal when their values are (0.5 equals 0.50), as in `rust_decimal`.
impl PartialEq for Decimal {
    fn eq(&self, other: &Decimal) -> (r: bool) {
        rd_value_eq(self, other)
    }
}

impl vstd::std_specs::cmp::PartialEqSpecImpl for Decimal {
    open spec fn obeys_eq_spec() -> bool {
        true
    }

    open spec fn eq_spec(&self, other: &Decimal) -> bool {
        units(self@) == units(other@)
    }
}

/// Decimals are ordered by value.
impl PartialOrd for Decimal {
    fn partial_cmp(&self, other: &Decimal) -> (r: Option<std::cmp::Ordering>) {
        if rd_less_than(self, other) {
            Some(std::cmp::Ordering::Less)
        } else if rd_value_eq(self, other) {
            Some(std::cmp::Ordering::Equal)
        } else {
            Some(std::cmp::Ordering::Greater)
        }
    }
}

impl vstd::std_specs::cmp::PartialOrdSpecImpl for Decimal {
    open spec fn obeys_partial_cmp_spec() -> bool {
        true
    }

    open spec fn partial_cmp_spec(&self, other: &Decimal) -> Option<std::cmp::Ordering> {
        if units(self@) < units(other@) {
            Some(std::cmp::Ordering::Less)
        } else if units(self@) == units(other@) {
            Some(std::cmp::Ordering::Equal)
        } else {
            Some(std::cmp::Ordering::Greater)
        }
    }
}

} // verus!
