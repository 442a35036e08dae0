//! Currency conversion: local currency to USDC for settlement, USDC to local
//! currency for payout. The FX spread is the platform's cut on every conversion;
//! users see the net amount, and the spread is accounted as revenue.

use vstd::prelude::*;
use crate::config::{self, Config};
use crate::currency::{Currency, SupportedCurrency};
use crate::decimal::{self, Decimal};
use crate::rates::{ExchangeRate, RateSource};

verus! {

/// An amount and its currency, by value.
pub struct CurrencyValue {
    pub amount: (int, nat),
    pub currency: SupportedCurrency,
}

pub open spec fn currency_value(c: Currency) -> CurrencyValue {
    CurrencyValue { amount: c.amount@, currency: c.currency }
}

/// The values of a conversion, by field.
pub struct ConversionView {
    pub input: CurrencyValue,
    pub output: CurrencyValue,
    pub rate: (int, nat),
    pub spread_revenue: CurrencyValue,
    pub rate_source: RateSource,
}

/// The result of a currency conversion.
#[derive(Debug, Clone, Copy)]
pub struct ConversionResult {
    /// What the user started with.
    pub input: Currency,
    /// What the user ends up with, after the spread.
    pub output: Currency,
    /// The rate used (1 USDC in local units).
    pub rate: Decimal,
    /// The platform's FX spread revenue, in USDC.
    pub spread_revenue: Currency,
    /// Where the rate came from.
    pub rate_source: RateSource,
}

impl View for ConversionResult {
    type V = ConversionView;

    open spec fn view(&self) -> ConversionView {
        ConversionView {
            input: currency_value(self.input),
            output: currency_value(self.output),
            rate: self.rate@,
            spread_revenue: currency_value(self.spread_revenue),
            rate_source: self.rate_source,
        }
    }
}

pub open spec fn usdc_value(amount: (int, nat)) -> CurrencyValue {
    CurrencyValue { amount, currency: SupportedCurrency::USDC }
}

/// USDC to USDC: nothing changes and no spread is taken.
pub open spec fn usdc_passthrough_spec(amount: (int, nat)) -> ConversionView {
    ConversionView {
        input: usdc_value(amount),
        output: usdc_value(amount),
        rate: (1int, 0nat),
        spread_revenue: usdc_value((0int, 0nat)),
        rate_source: RateSource::Hardcoded,
    }
}

/// Local to USDC at `rate`: gross = amount / rate; spread = gross * spread rate;
/// the user gets gross - spread.
pub open spec fn local_to_usdc_spec(
    amount: (int, nat),
    from: SupportedCurrency,
    rate: (int, nat),
    source: RateSource,
    spread_bps: u32,
) -> Option<ConversionView> {
    match decimal::decimal_div(amount, rate) {
        Some(gross) => match decimal::decimal_mul(gross, config::bps_rate(spread_bps)) {
            Some(spread) => match decimal::decimal_sub(gross, spread) {
                Some(net) => Some(
                    ConversionView {
                        input: CurrencyValue { amount, currency: from },
                        output: usdc_value(net),
                        rate,
                        spread_revenue: usdc_value(spread),
                        rate_source: source,
                    },
                ),
                None => None,
            },
            None => None,
        },
        None => None,
    }
}

/// USDC to local at `rate`: gross = usdc * rate; the spread is taken in USDC
/// (usdc * spread rate) and in local units (that times the rate); the user gets
/// gross - local spread.
pub open spec fn usdc_to_local_spec(
    usdc: (int, nat),
    to: SupportedCurrency,
    rate: (int, nat),
    source: RateSource,
    spread_bps: u32,
) -> Option<ConversionView> {
    match (
        decimal::decimal_mul(usdc, rate),
        decimal::decimal_mul(usdc, config::bps_rate(spread_bps)),
    ) {
        (Some(gross), Some(spread_usdc)) => match decimal::decimal_mul(spread_usdc, rate) {
            Some(spread_local) => match decimal::decimal_sub(gross, spread_local) {
                Some(net) => Some(
                    ConversionView {
                        input: usdc_value(usdc),
                        output: CurrencyValue { amount: net, currency: to },
                        rate,
                        spread_revenue: usdc_value(spread_usdc),
                        rate_source: source,
                    },
                ),
                None => None,
            },
            None => None,
        },
        _ => None,
    }
}

/// What a conversion from `from` gives, given the rate the caller fetched (only
/// needed for a currency other than USDC).
pub open spec fn local_to_usdc_with(
    amount: (int, nat),
    from: SupportedCurrency,
    rate: Option<ExchangeRate>,
    spread_bps: u32,
) -> Option<ConversionView> {
    if from == SupportedCurrency::USDC {
        Some(usdc_passthrough_spec(amount))
    } else {
        match rate {
            Some(r) => local_to_usdc_spec(amount, from, r.usdc_to_local@, r.source, spread_bps),
            None => None,
        }
    }
}

/// What a conversion to `to` gives, given the rate the caller fetched (only needed
/// for a currency other than USDC).
pub open spec fn usdc_to_local_with(
    usdc: (int, nat),
    to: SupportedCurrency,
    rate: Option<ExchangeRate>,
    spread_bps: u32,
) -> Option<ConversionView> {
    if to == SupportedCurrency::USDC {
        Some(usdc_passthrough_spec(usdc))
    } else {
        match rate {
            Some(r) => usdc_to_local_spec(usdc, to, r.usdc_to_local@, r.source, spread_bps),
            None => None,
        }
    }
}

pub open spec fn deref_rate(r: Option<&ExchangeRate>) -> Option<ExchangeRate> {
    match r {
        Some(x) => Some(*x),
        None => None,
    }
}

pub open spec fn opt_conversion_view(r: Option<ConversionResult>) -> Option<ConversionView> {
    match r {
        Some(x) => Some(x@),
        None => None,
    }
}

/// Converts between local currencies and USDC, applying the FX spread.
pub struct CurrencyConverter {
    pub config: Config,
}

impl CurrencyConverter {
    pub fn new(config: Config) -> (r: CurrencyConverter)
        ensures
            r.config == config,
    {
        CurrencyConverter { config }
    }

    /// Whether converting from or to `currency` needs an exchange rate.
    pub fn rate_needed(currency: &SupportedCurrency) -> (r: bool)
        ensures
            r == (*currency != SupportedCurrency::USDC),
    {
        !currency.is_usdc()
    }

    fn passthrough(amount: Decimal) -> (r: ConversionResult)
        ensures
            r@ == usdc_passthrough_spec(amount@),
    {
        ConversionResult {
            input: Currency::usdc(amount),
            output: Currency::usdc(amount),
            rate: Decimal::new(1, 0),
            spread_revenue: Currency::usdc(Decimal::zero()),
            rate_source: RateSource::Hardcoded,
        }
    }

    /// Local currency to USDC for settlement, with the FX spread kept as revenue.
    /// `rate` is the rate of `from`, fetched by the caller; USDC needs none.
    pub fn local_to_usdc(&self, amount: Decimal, from: SupportedCurrency, rate: Option<
        &ExchangeRate,
    >) -> (r: ConversionResult)
        requires
            local_to_usdc_with(amount@, from, deref_rate(rate), self.config.fx_spread_bps) is Some,
        ensures
            local_to_usdc_with(amount@, from, deref_rate(rate), self.config.fx_spread_bps) == Some(r@),
            from != SupportedCurrency::USDC && decimal::decimal_div(amount@, r.rate@) is Some
                && decimal::difference_fits(
                decimal::decimal_div(amount@, r.rate@)->0,
                r.spread_revenue.amount@,
            ) ==> decimal::units(r.output.amount@) + decimal::units(r.spread_revenue.amount@)
                == decimal::units(decimal::decimal_div(amount@, r.rate@)->0),
    {
        if from.is_usdc() {
            return Self::passthrough(amount);
        }
        let rate = rate.unwrap();
        let spread = Config::bps_to_decimal(self.config.fx_spread_bps);
        let gross_usdc = amount.div(&rate.usdc_to_local);
        let spread_amount = gross_usdc.mul(&spread);
        let net_usdc = gross_usdc.sub(&spread_amount);
        ConversionResult {
            input: Currency::new(amount, from),
            output: Currency::usdc(net_usdc),
            rate: rate.usdc_to_local,
            spread_revenue: Currency::usdc(spread_amount),
            rate_source: rate.source,
        }
    }

    /// USDC to local currency for payout, with the FX spread kept as revenue.
    /// `rate` is the rate of `to`, fetched by the caller; USDC needs none.
    pub fn usdc_to_local(&self, usdc_amount: Decimal, to: SupportedCurrency, rate: Option<
        &ExchangeRate,
    >) -> (r: ConversionResult)
        requires
            usdc_to_local_with(usdc_amount@, to, deref_rate(rate), self.config.fx_spread_bps) is Some,
        ensures
            usdc_to_local_with(usdc_amount@, to, deref_rate(rate), self.config.fx_spread_bps) == Some(
                r@,
            ),
            to != SupportedCurrency::USDC && decimal::decimal_mul(usdc_amount@, r.rate@) is Some
                && decimal::decimal_mul(r.spread_revenue.amount@, r.rate@) is Some
                && decimal::difference_fits(
                decimal::decimal_mul(usdc_amount@, r.rate@)->0,
                decimal::decimal_mul(r.spread_revenue.amount@, r.rate@)->0,
            ) ==> decimal::units(r.output.amount@) + decimal::units(
                decimal::decimal_mul(r.spread_revenue.amount@, r.rate@)->0,
            ) == decimal::units(decimal::decimal_mul(usdc_amount@, r.rate@)->0),
    {
        if to.is_usdc() {
            return Self::passthrough(usdc_amount);
        }
        let rate = rate.unwrap();
        let spread = Config::bps_to_decimal(self.config.fx_spread_bps);
        let gross_local = usdc_amount.mul(&rate.usdc_to_local);
        let spread_usdc = usdc_amount.mul(&spread);
        let spread_local = spread_usdc.mul(&rate.usdc_to_local);
        let net_local = gross_local.sub(&spread_local);
        ConversionResult {
            input: Currency::usdc(usdc_amount),
            output: Currency::new(net_local, to),
            rate: rate.usdc_to_local,
            spread_revenue: Currency::usdc(spread_usdc),
            rate_source: rate.source,
        }
    }

    /// `local_to_usdc`, or `None` where the rate is missing or zero or an amount
    /// overflows.
    pub fn checked_local_to_usdc(&self, amount: Decimal, from: SupportedCurrency, rate: Option<
        &ExchangeRate,
    >) -> (r: Option<ConversionResult>)
        ensures
            opt_conversion_view(r) == local_to_usdc_with(
                amount@,
                from,
                deref_rate(rate),
                self.config.fx_spread_bps,
            ),
    {
        if from.is_usdc() {
            return Some(self.local_to_usdc(amount, from, rate));
        }
        match rate {
            None => None,
            Some(x) => match amount.checked_div(&x.usdc_to_local) {
                None => None,
                Some(gross) => match gross.checked_mul(
                    &Config::bps_to_decimal(self.config.fx_spread_bps),
                ) {
                    None => None,
                    Some(spread) => match gross.checked_sub(&spread) {
                        None => None,
                        Some(_) => Some(self.local_to_usdc(amount, from, rate)),
                    },
                },
            },
        }
    }

    /// `usdc_to_local`, or `None` where the rate is missing or an amount overflows.
    pub fn checked_usdc_to_local(&self, usdc_amount: Decimal, to: SupportedCurrency, rate: Option<
        &ExchangeRate,
    >) -> (r: Option<ConversionResult>)
        ensures
            opt_conversion_view(r) == usdc_to_local_with(
                usdc_amount@,
                to,
                deref_rate(rate),
                self.config.fx_spread_bps,
            ),
    {
        if to.is_usdc() {
            return Some(self.usdc_to_local(usdc_amount, to, rate));
        }
        match rate {
            None => None,
            Some(x) => {
                let spread = Config::bps_to_decimal(self.config.fx_spread_bps);
                match (usdc_amount.checked_mul(&x.usdc_to_local), usdc_amount.checked_mul(&spread)) {
                    (Some(gross), Some(spread_usdc)) => match spread_usdc.checked_mul(
                        &x.usdc_to_local,
                    ) {
                        None => None,
                        Some(spread_local) => match gross.checked_sub(&spread_local) {
                            None => None,
                            Some(_) => Some(self.usdc_to_local(usdc_amount, to, rate)),
                        },
                    },
                    _ => None,
                }
            },
        }
    }
}

proof fn lemma_spread_units(amount: (int, nat), bps: u32)
    requires
        decimal::mul_exact(amount, config::bps_rate(bps)),
    ensures
        decimal::units(decimal::decimal_mul(amount, config::bps_rate(bps))->0) * 10000
            == decimal::units(amount) * bps,
{
    decimal::lemma_units_of_bps(bps as int);
    let p24 = decimal::pow10(24);
    let f = decimal::units(decimal::decimal_mul(amount, config::bps_rate(bps))->0);
    let a = decimal::units(amount);
    let b = bps as int;
    assert(f * (10000 * p24) == a * (b * p24));
    assert(f * 10000 == a * b) by (nonlinear_arith)
        requires
            f * (10000 * p24) == a * (b * p24),
            p24 >= 1,
    ;
}

/// Paying out in a local currency: where rust_decimal computes every step exactly,
/// the spread kept is the spread rate of the USDC amount, and the local amount is
/// the USDC amount at the rate less that spread at the rate:
/// local = usdc * rate * (1 - spread rate).
pub proof fn law_usdc_to_local_keeps_the_spread(
    usdc: (int, nat),
    to: SupportedCurrency,
    rate: (int, nat),
    source: RateSource,
    spread_bps: u32,
)
    requires
        decimal::mul_exact(usdc, rate),
        decimal::mul_exact(usdc, config::bps_rate(spread_bps)),
        decimal::mul_exact(decimal::decimal_mul(usdc, config::bps_rate(spread_bps))->0, rate),
        decimal::sub_exact(
            decimal::decimal_mul(usdc, rate)->0,
            decimal::decimal_mul(decimal::decimal_mul(usdc, config::bps_rate(spread_bps))->0, rate)->0,
        ),
    ensures
        usdc_to_local_spec(usdc, to, rate, source, spread_bps) is Some,
        ({
            let v = usdc_to_local_spec(usdc, to, rate, source, spread_bps)->0;
            &&& v.input.amount == usdc && v.output.currency == to && v.rate == rate
            &&& v.spread_revenue.currency == SupportedCurrency::USDC
            &&& decimal::units(v.spread_revenue.amount) * 10000 == decimal::units(usdc) * spread_bps
            &&& decimal::units(v.output.amount) * 10000 * decimal::pow10(28) == decimal::units(usdc)
                * decimal::units(rate) * (10000 - spread_bps)
        }),
{
    let su = decimal::decimal_mul(usdc, config::bps_rate(spread_bps))->0;
    lemma_spread_units(usdc, spread_bps);
    let pw = decimal::pow10(28);
    let v = usdc_to_local_spec(usdc, to, rate, source, spread_bps)->0;
    let uo = decimal::units(v.output.amount);
    let ug = decimal::units(decimal::decimal_mul(usdc, rate)->0);
    let usl = decimal::units(decimal::decimal_mul(su, rate)->0);
    let us = decimal::units(su);
    let uu = decimal::units(usdc);
    let ur = decimal::units(rate);
    let f = spread_bps as int;
    assert(uo * 10000 * pw == uu * ur * (10000 - f)) by (nonlinear_arith)
        requires
            uo == ug - usl,
            ug * pw == uu * ur,
            usl * pw == us * ur,
            us * 10000 == uu * f,
    ;
}

/// Paying in from a local currency: where rust_decimal computes every step exactly,
/// the USDC before the spread is the amount over the rate, the spread kept is the
/// spread rate of that, and the user gets the rest:
/// usdc * rate = amount * (1 - spread rate).
pub proof fn law_local_to_usdc_keeps_the_spread(
    amount: (int, nat),
    from: SupportedCurrency,
    rate: (int, nat),
    source: RateSource,
    spread_bps: u32,
)
    requires
        decimal::div_exact(amount, rate),
        decimal::mul_exact(decimal::decimal_div(amount, rate)->0, config::bps_rate(spread_bps)),
        decimal::sub_exact(
            decimal::decimal_div(amount, rate)->0,
            decimal::decimal_mul(decimal::decimal_div(amount, rate)->0, config::bps_rate(spread_bps))->0,
        ),
    ensures
        local_to_usdc_spec(amount, from, rate, source, spread_bps) is Some,
        ({
            let v = local_to_usdc_spec(amount, from, rate, source, spread_bps)->0;
            let gross = decimal::decimal_div(amount, rate)->0;
            &&& v.input.amount == amount && v.input.currency == from && v.rate == rate
            &&& v.output.currency == SupportedCurrency::USDC
            &&& decimal::units(gross) * decimal::units(rate) == decimal::units(amount) * decimal::pow10(28)
            &&& decimal::units(v.spread_revenue.amount) * 10000 == decimal::units(gross) * spread_bps
            &&& decimal::units(v.output.amount) + decimal::units(v.spread_revenue.amount)
                == decimal::units(gross)
            &&& decimal::units(v.output.amount) * 10000 * decimal::units(rate) == decimal::units(
                amount,
            ) * decimal::pow10(28) * (10000 - spread_bps)
        }),
{
    let gross = decimal::decimal_div(amount, rate)->0;
    lemma_spread_units(gross, spread_bps);
    let v = local_to_usdc_spec(amount, from, rate, source, spread_bps)->0;
    let pw = decimal::pow10(28);
    let uo = decimal::units(v.output.amount);
    let us = decimal::units(v.spread_revenue.amount);
    let ug = decimal::units(gross);
    let ua = decimal::units(amount);
    let ur = decimal::units(rate);
    let f = spread_bps as int;
    assert(uo * 10000 * ur == ua * pw * (10000 - f)) by (nonlinear_arith)
        requires
            uo == ug - us,
            us * 10000 == ug * f,
            ug * ur == ua * pw,
    ;
}

} // verus!
