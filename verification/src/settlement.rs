//! The settlement layer: USDC movements on Polygon, and the conversion between
//! decimal USDC amounts and the 6-decimal integer units of the USDC contract.
//! The on-chain transfers are not integrated yet.

use vstd::prelude::*;
use crate::config::Config;
use crate::decimal::{self, Decimal};
use crate::text::{self, concat2, parse_u64, text_before_dot};

verus! {

/// One USDC in contract units: 10^6.
pub open spec fn usdc_unit() -> (int, nat) {
    (1000000int, 0nat)
}

/// The placeholder transaction hash: `0x` and 64 zeros.
pub open spec fn placeholder_tx_hash() -> Seq<char> {
    "0x"@ + Seq::new(64, |i: int| '0')
}

/// Contract units of an amount already scaled by 10^6: its whole part (the
/// digits past the point dropped) when that is a `u64`; zero for a negative amount
/// or one too large.
pub open spec fn evm_units_spec(product: (int, nat)) -> u64 {
    if product.0 < 0 {
        0
    } else {
        let whole = product.0 / decimal::pow10(product.1);
        if whole <= u64::MAX {
            whole as u64
        } else {
            0
        }
    }
}

proof fn lemma_digits(n: nat)
    ensures
        text::all_digits(decimal::digits(n)),
        text::digits_value(decimal::digits(n)) == n,
        n < decimal::pow10(decimal::digits(n).len()),
        n > 0 ==> decimal::digits(n).len() > 0,
    decreases n,
{
    if n > 0 {
        lemma_digits(n / 10);
        let prev = decimal::digits(n / 10);
        let d = decimal::digits(n);
        let x: int = 48 + (n % 10) as int;
        let c = (x as u8) as char;
        assert(d == prev.push(c));
        assert(d.drop_last() =~= prev);
        assert((x as u8) as int == x);
        assert(c as int == x);
        assert forall|i: int| 0 <= i < d.len() implies #[trigger] text::is_digit(d[i]) by {
            if i < prev.len() {
                assert(d[i] == prev[i]);
            }
        }
        assert(n == (n / 10) * 10 + n % 10);
        assert(decimal::pow10(d.len()) == 10 * decimal::pow10(prev.len()));
    }
}

proof fn lemma_shift_quotient(a: int, d: int, b: int)
    requires
        a >= 0,
        0 <= d < 10,
        b > 0,
    ensures
        (a * 10 + d) / (10 * b) == a / b,
{
    assert((a * 10 + d) / 10 == a);
    vstd::arithmetic::div_mod::lemma_div_denominator(a * 10 + d, 10, b);
}

/// Dropping the last `k` digits divides the value by 10^k.
proof fn lemma_prefix_value(t: Seq<char>, k: nat)
    requires
        text::all_digits(t),
        k <= t.len(),
    ensures
        text::all_digits(t.take(t.len() - k)),
        text::digits_value(t.take(t.len() - k)) == text::digits_value(t) / decimal::pow10(k),
    decreases k,
{
    if k == 0 {
        assert(t.take(t.len() as int) =~= t);
    } else {
        let u = t.drop_last();
        assert(text::all_digits(u));
        lemma_prefix_value(u, (k - 1) as nat);
        assert(t.take(t.len() - k) =~= u.take(u.len() - (k - 1)));
        text::lemma_digits_value_nonneg(u);
        decimal::lemma_pow10_positive((k - 1) as nat);
        let dl = text::digit_value(t.last());
        assert(text::is_digit(t[t.len() - 1]));
        lemma_shift_quotient(text::digits_value(u), dl, decimal::pow10((k - 1) as nat));
    }
}

/// The whole part of a scaled amount, as `Display` writes it and `u64` parsing
/// reads it back, is its whole part by value.
proof fn lemma_evm_units_text(p: (int, nat))
    ensures
        match text::parse_u64_spec(text::before_dot(decimal::decimal_text(p))) {
            Some(v) => v,
            None => 0,
        } == evm_units_spec(p),
{
    let m: nat = decimal::abs_int(p.0) as nat;
    let mi: int = m as int;
    let ds0 = decimal::digits(m);
    lemma_digits(m);
    let ds = decimal::pad_zeros(ds0, p.1);
    let whole = ds.take(ds.len() - p.1);
    let frac = ds.skip(ds.len() - p.1);
    let head = if whole.len() == 0 {
        seq!['0']
    } else {
        whole
    };
    let tail = if p.1 > 0 {
        seq!['.'] + frac
    } else {
        Seq::<char>::empty()
    };
    let body = head + tail;
    decimal::lemma_pow10_positive(p.1);
    // The whole part, by value.
    if ds0.len() < p.1 {
        assert(ds.len() == p.1);
        assert(whole.len() == 0);
        decimal::lemma_pow10_le(ds0.len(), p.1);
        assert(mi / decimal::pow10(p.1) == 0) by {
            vstd::arithmetic::div_mod::lemma_basic_div(mi, decimal::pow10(p.1));
        }
    } else {
        assert(ds == ds0);
        lemma_prefix_value(ds0, p.1);
        if whole.len() == 0 {
            assert(ds0.len() == p.1);
            assert(whole =~= Seq::<char>::empty());
            assert(mi / decimal::pow10(p.1) == 0) by {
                vstd::arithmetic::div_mod::lemma_basic_div(mi, decimal::pow10(p.1));
            }
        }
    }
    assert(text::all_digits(head));
    assert(text::digits_value(head) == mi / decimal::pow10(p.1)) by {
        if whole.len() == 0 {
            assert(text::digits_value(seq!['0']) == text::digits_value(Seq::<char>::empty()) * 10
                + 0) by {
                assert(seq!['0'].drop_last() =~= Seq::<char>::empty());
            }
        }
    }
    assert(head.len() > 0);
    // Cutting at the point leaves the whole part.
    assert forall|k: int| 0 <= k < head.len() implies body[k] != '.' by {
        assert(body[k] == head[k]);
        assert(text::is_digit(head[k]));
    }
    text::lemma_before_dot_prefix(body, head.len() as int);
    assert(body.take(head.len() as int) =~= head);
    assert(body.skip(head.len() as int) =~= tail);
    if p.1 > 0 {
        assert(tail[0] == '.');
        assert(text::before_dot(tail) == Seq::<char>::empty());
    } else {
        assert(text::before_dot(tail) == Seq::<char>::empty());
    }
    assert(text::before_dot(body) =~= head);
    if p.0 < 0 {
        let neg = seq!['-'] + body;
        assert(decimal::decimal_text(p) == neg);
        assert(neg.drop_first() =~= body);
        assert(text::before_dot(neg) == seq!['-'] + text::before_dot(body));
        let cut = text::before_dot(neg);
        assert(cut[0] == '-');
        assert(text::strip_plus(cut) == cut);
        assert(!text::is_digit(cut[0]));
    } else {
        assert(decimal::decimal_text(p) == body);
        assert(text::strip_plus(head) == head) by {
            assert(text::is_digit(head[0]));
        }
    }
}

/// Contract units survive the way back: for the exact amount `units / 10^6` that
/// `from_evm_units` gives, scaling by 10^6 fits and its whole part is `units` again,
/// so `to_evm_units(from_evm_units(units)) == units`.
pub proof fn law_evm_units_round_trip(units: u64, amount: (int, nat))
    requires
        decimal::units(amount) * 1000000 == units * decimal::pow10(28),
        amount.1 <= 9,
    ensures
        decimal::product_fits(amount, usdc_unit()),
        evm_units_spec(decimal::exact_product(amount, usdc_unit())) == units,
{
    let k = amount.1;
    decimal::lemma_pow10_positive((28 - k) as nat);
    decimal::lemma_pow10_add(k, (28 - k) as nat);
    // units(amount) = amount.0 * 10^(28-k), so amount.0 * 10^6 * 10^(28-k) == units * 10^k * 10^(28-k).
    let p = decimal::pow10((28 - k) as nat);
    let pk = decimal::pow10(k);
    assert(amount.0 * 1000000 * p == (units as int) * pk * p) by (nonlinear_arith)
        requires
            amount.0 * p * 1000000 == (units as int) * (pk * p),
    ;
    assert(amount.0 * 1000000 == (units as int) * pk) by (nonlinear_arith)
        requires
            amount.0 * 1000000 * p == (units as int) * pk * p,
            p >= 1,
    ;
    decimal::lemma_pow10_le(k, 9);
    decimal::lemma_pow10_positive(k);
    lemma_pow10_9();
    assert(0 <= (units as int) * pk <= 0xffff_ffff_ffff_ffff * 1000000000) by (nonlinear_arith)
        requires
            0 <= units <= 0xffff_ffff_ffff_ffff,
            1 <= pk <= 1000000000,
    ;
    assert((units as int) * pk / pk == units) by (nonlinear_arith)
        requires
            pk >= 1,
    ;
}

proof fn lemma_pow10_9()
    ensures
        decimal::pow10(9) == 1000000000,
{
    reveal_with_fuel(decimal::pow10, 10);
}

pub struct SettlementLayer {
    config: Config,
}

impl SettlementLayer {
    pub fn new(config: Config) -> (r: SettlementLayer)
        ensures
            r.config() == config,
    {
        SettlementLayer { config }
    }

    pub closed spec fn config(&self) -> Config {
        self.config
    }

    fn placeholder_hash() -> (r: String)
        ensures
            r@ == placeholder_tx_hash(),
    {
        let mut zeros = String::new();
        let mut i: usize = 0;
        while i < 64
            invariant
                i <= 64,
                zeros@ == Seq::new(i as nat, |k: int| '0'),
            decreases 64 - i,
        {
            text::push_char(&mut zeros, '0');
            proof {
                assert(zeros@ =~= Seq::new((i + 1) as nat, |k: int| '0'));
            }
            i += 1;
        }
        concat2("0x", zeros.as_str())
    }

    /// Transfers USDC from a user's wallet to a pool's wallet; the transaction hash
    /// (a placeholder until the transfer is integrated).
    pub fn deposit_to_pool(&self, from_user: &str, to_pool: &str, amount: Decimal) -> (r: String)
        ensures
            r@ == placeholder_tx_hash(),
    {
        Self::placeholder_hash()
    }

    /// Transfers USDC from a pool's wallet to a user's wallet (a payout); the
    /// transaction hash (a placeholder until the transfer is integrated).
    pub fn payout_from_pool(&self, from_pool: &str, to_user: &str, amount: Decimal) -> (r: String)
        ensures
            r@ == placeholder_tx_hash(),
    {
        Self::placeholder_hash()
    }

    /// A USDC amount in contract units (6 decimals): 27.50 USDC is 27_500_000. The
    /// digits past the 6th decimal are dropped; a negative amount, or one beyond a
    /// `u64`, gives 0.
    pub fn to_evm_units(amount: Decimal) -> (r: u64)
        requires
            decimal::decimal_mul(amount@, usdc_unit()) is Some,
        ensures
            r == evm_units_spec(decimal::decimal_mul(amount@, usdc_unit())->0),
            decimal::product_fits(amount@, usdc_unit()) ==> r == evm_units_spec(
                decimal::exact_product(amount@, usdc_unit()),
            ),
    {
        proof {
            lemma_evm_units_text(decimal::decimal_mul(amount@, usdc_unit())->0);
        }
        let scaled = amount.mul(&Decimal::new(1_000_000, 0));
        let text = scaled.to_string();
        let whole = text_before_dot(text.as_str());
        match parse_u64(whole.as_str()) {
            Some(v) => v,
            None => 0,
        }
    }

    /// `to_evm_units`, or `None` where scaling the amount overflows.
    pub fn checked_to_evm_units(amount: Decimal) -> (r: Option<u64>)
        ensures
            r is Some <==> decimal::decimal_mul(amount@, usdc_unit()) is Some,
            decimal::product_fits(amount@, usdc_unit()) ==> r == Some(
                evm_units_spec(decimal::exact_product(amount@, usdc_unit())),
            ),
            r matches Some(v) ==> v == evm_units_spec(decimal::decimal_mul(amount@, usdc_unit())->0),
    {
        match amount.checked_mul(&Decimal::new(1_000_000, 0)) {
            Some(_) => Some(Self::to_evm_units(amount)),
            None => None,
        }
    }

    /// Contract units back to a USDC amount: exactly units / 10^6.
    pub fn from_evm_units(units: u64) -> (r: Decimal)
        ensures
            decimal::decimal_div((units as int, 0nat), usdc_unit()) == Some(r@),
            decimal::units(r@) * 1000000 == units * decimal::pow10(28),
            r@.1 <= 9,
    {
        let million = Decimal::new(1_000_000, 0);
        proof {
            decimal::lemma_pow10_positive(28);
            assert(decimal::units(million@) == 1000000 * decimal::pow10(28));
        }
        Decimal::from_u64(units).div(&million)
    }
}

} // verus!
