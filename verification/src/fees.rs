//! The fee engine: every revenue stream of the platform.
//!
//! Fees, in the order they apply:
//!   1. platform fee on every contribution,
//!   2. FX spread on every currency conversion (applied by the converter),
//!   3. performance fee on yield earned,
//!   4. withdrawal fee on every withdrawal,
//!   5. partner cut on bulk market orders (paid to the retailer).
//!
//! All amounts are USDC.

use vstd::prelude::*;
use crate::config::{self, Config};
use crate::currency::SupportedCurrency;
use crate::decimal::{self, Decimal};
use crate::text::concat2;

verus! {

/// The values of a fee computation, by field.
pub struct FeeBreakdown {
    pub gross: (int, nat),
    pub net: (int, nat),
    pub platform_fee: (int, nat),
    pub fx_spread: (int, nat),
    pub yield_perf_fee: (int, nat),
    pub withdrawal_fee: (int, nat),
    pub partner_cut: (int, nat),
    pub total_fees: (int, nat),
    pub currency: SupportedCurrency,
}

/// The result of the fee calculation for one operation.
#[derive(Debug, Clone)]
pub struct FeeResult {
    /// Gross amount before any fees.
    pub gross: Decimal,
    /// Net amount after all applicable fees.
    pub net: Decimal,
    /// Platform fee (platform revenue).
    pub platform_fee: Decimal,
    /// FX spread (platform revenue on conversion).
    pub fx_spread: Decimal,
    /// Yield performance fee (the platform's cut of yield).
    pub yield_perf_fee: Decimal,
    /// Withdrawal fee (platform revenue).
    pub withdrawal_fee: Decimal,
    /// Partner cut (paid out to the retail partner).
    pub partner_cut: Decimal,
    /// Total fees deducted.
    pub total_fees: Decimal,
    /// Currency of all amounts (USDC).
    pub currency: SupportedCurrency,
}

impl View for FeeResult {
    type V = FeeBreakdown;

    open spec fn view(&self) -> FeeBreakdown {
        FeeBreakdown {
            gross: self.gross@,
            net: self.net@,
            platform_fee: self.platform_fee@,
            fx_spread: self.fx_spread@,
            yield_perf_fee: self.yield_perf_fee@,
            withdrawal_fee: self.withdrawal_fee@,
            partner_cut: self.partner_cut@,
            total_fees: self.total_fees@,
            currency: self.currency,
        }
    }
}

pub open spec fn zero_value() -> (int, nat) {
    (0int, 0nat)
}

/// One fee at `bps` on `gross`, and what is left: `(fee, net)`.
pub open spec fn single_fee(gross: (int, nat), bps: u32) -> Option<((int, nat), (int, nat))> {
    match decimal::decimal_mul(gross, config::bps_rate(bps)) {
        Some(fee) => match decimal::decimal_sub(gross, fee) {
            Some(net) => Some((fee, net)),
            None => None,
        },
        None => None,
    }
}

/// The breakdown of a contribution: the platform fee only.
pub open spec fn contribution_spec(gross: (int, nat), platform_bps: u32) -> Option<FeeBreakdown> {
    match single_fee(gross, platform_bps) {
        Some((fee, net)) => Some(
            FeeBreakdown {
                gross,
                net,
                platform_fee: fee,
                fx_spread: zero_value(),
                yield_perf_fee: zero_value(),
                withdrawal_fee: zero_value(),
                partner_cut: zero_value(),
                total_fees: fee,
                currency: SupportedCurrency::USDC,
            },
        ),
        None => None,
    }
}

/// The breakdown of a withdrawal (and of a payout): the withdrawal fee only.
pub open spec fn withdrawal_spec(gross: (int, nat), withdrawal_bps: u32) -> Option<FeeBreakdown> {
    match single_fee(gross, withdrawal_bps) {
        Some((fee, net)) => Some(
            FeeBreakdown {
                gross,
                net,
                platform_fee: zero_value(),
                fx_spread: zero_value(),
                yield_perf_fee: zero_value(),
                withdrawal_fee: fee,
                partner_cut: zero_value(),
                total_fees: fee,
                currency: SupportedCurrency::USDC,
            },
        ),
        None => None,
    }
}

/// The breakdown of a yield distribution: the performance fee only.
pub open spec fn yield_performance_spec(gross: (int, nat), perf_bps: u32) -> Option<FeeBreakdown> {
    match single_fee(gross, perf_bps) {
        Some((fee, net)) => Some(
            FeeBreakdown {
                gross,
                net,
                platform_fee: zero_value(),
                fx_spread: zero_value(),
                yield_perf_fee: fee,
                withdrawal_fee: zero_value(),
                partner_cut: zero_value(),
                total_fees: fee,
                currency: SupportedCurrency::USDC,
            },
        ),
        None => None,
    }
}

/// The breakdown of a market order: platform fee and partner cut.
pub open spec fn market_order_spec(gross: (int, nat), platform_bps: u32, partner_bps: u32) -> Option<
    FeeBreakdown,
> {
    match (
        decimal::decimal_mul(gross, config::bps_rate(platform_bps)),
        decimal::decimal_mul(gross, config::bps_rate(partner_bps)),
    ) {
        (Some(platform), Some(partner)) => match decimal::decimal_add(platform, partner) {
            Some(total) => match decimal::decimal_sub(gross, total) {
                Some(net) => Some(
                    FeeBreakdown {
                        gross,
                        net,
                        platform_fee: platform,
                        fx_spread: zero_value(),
                        yield_perf_fee: zero_value(),
                        withdrawal_fee: zero_value(),
                        partner_cut: partner,
                        total_fees: total,
                        currency: SupportedCurrency::USDC,
                    },
                ),
                None => None,
            },
            None => None,
        },
        _ => None,
    }
}

/// The platform's own revenue in a breakdown: every fee but the partner cut.
pub open spec fn chipin_revenue_spec(b: FeeBreakdown) -> Option<(int, nat)> {
    match decimal::decimal_add(b.platform_fee, b.fx_spread) {
        Some(s1) => match decimal::decimal_add(s1, b.yield_perf_fee) {
            Some(s2) => decimal::decimal_add(s2, b.withdrawal_fee),
            None => None,
        },
        None => None,
    }
}

pub open spec fn opt_fee_view(r: Option<FeeResult>) -> Option<FeeBreakdown> {
    match r {
        Some(x) => Some(x@),
        None => None,
    }
}

impl FeeResult {
    /// The platform's revenue from this operation: the platform fee, the FX spread,
    /// the performance fee and the withdrawal fee, added left to right; the partner
    /// cut is never counted. Where only the platform fee can be non-zero (a market
    /// order or a contribution) the sum cannot overflow.
    pub fn chipin_revenue(&self) -> (r: Decimal)
        requires
            chipin_revenue_spec(self@) is Some || (self.fx_spread@.0 == 0 && self.yield_perf_fee@.0
                == 0 && self.withdrawal_fee@.0 == 0),
        ensures
            chipin_revenue_spec(self@) == Some(r@),
            ({
                let s1 = decimal::decimal_add(self.platform_fee@, self.fx_spread@)->0;
                let s2 = decimal::decimal_add(s1, self.yield_perf_fee@)->0;
                decimal::sum_fits(self.platform_fee@, self.fx_spread@) && decimal::sum_fits(
                    s1,
                    self.yield_perf_fee@,
                ) && decimal::sum_fits(s2, self.withdrawal_fee@) ==> decimal::units(r@)
                    == decimal::units(self.platform_fee@) + decimal::units(self.fx_spread@)
                    + decimal::units(self.yield_perf_fee@) + decimal::units(self.withdrawal_fee@)
            }),
            self.platform_fee@.0 != 0 && self.fx_spread@.0 == 0 && self.yield_perf_fee@.0 == 0
                && self.withdrawal_fee@.0 == 0 ==> r@ == self.platform_fee@,
            self.fx_spread@.0 == 0 && self.yield_perf_fee@.0 == 0 && self.withdrawal_fee@.0 == 0
                ==> decimal::units(r@) == decimal::units(self.platform_fee@),
            self.platform_fee@.0 == 0 && self.fx_spread@.0 == 0 && self.yield_perf_fee@.0 == 0
                ==> r@ == self.withdrawal_fee@,
    {
        let s1 = match self.platform_fee.checked_add(&self.fx_spread) {
            Some(x) => x,
            None => return self.platform_fee,
        };
        let s2 = match s1.checked_add(&self.yield_perf_fee) {
            Some(x) => x,
            None => return self.platform_fee,
        };
        let r = match s2.checked_add(&self.withdrawal_fee) {
            Some(x) => x,
            None => return self.platform_fee,
        };
        proof {
            decimal::lemma_units_zero(self.platform_fee@);
            decimal::lemma_units_zero(r@);
        }
        r
    }

    /// The platform's revenue, or `None` where the sum overflows.
    pub fn checked_chipin_revenue(&self) -> (r: Option<Decimal>)
        ensures
            decimal::opt_view(r) == chipin_revenue_spec(self@),
    {
        match self.platform_fee.checked_add(&self.fx_spread) {
            Some(s1) => match s1.checked_add(&self.yield_perf_fee) {
                Some(s2) => match s2.checked_add(&self.withdrawal_fee) {
                    Some(_) => Some(self.chipin_revenue()),
                    None => None,
                },
                None => None,
            },
            None => None,
        }
    }

    /// Total going out to partners.
    pub fn partner_revenue(&self) -> (r: Decimal)
        ensures
            r@ == self.partner_cut@,
    {
        self.partner_cut
    }

    /// One line describing the amounts.
    pub fn summary(&self) -> (r: String)
        requires
            chipin_revenue_spec(self@) is Some,
        ensures
            r@ == "gross="@ + decimal::decimal_text(self.gross@) + " net="@ + decimal::decimal_text(
                self.net@,
            ) + " fees="@ + decimal::decimal_text(self.total_fees@) + " chipin_rev="@
                + decimal::decimal_text(chipin_revenue_spec(self@)->0) + " partner="@
                + decimal::decimal_text(self.partner_cut@),
    {
        let revenue = self.chipin_revenue();
        let mut s = concat2("gross=", self.gross.to_string().as_str());
        s.append(" net=");
        s.append(self.net.to_string().as_str());
        s.append(" fees=");
        s.append(self.total_fees.to_string().as_str());
        s.append(" chipin_rev=");
        s.append(revenue.to_string().as_str());
        s.append(" partner=");
        s.append(self.partner_cut.to_string().as_str());
        s
    }

    /// `summary`, or `None` where the platform's revenue overflows.
    pub fn checked_summary(&self) -> (r: Option<String>)
        ensures
            r is Some <==> chipin_revenue_spec(self@) is Some,
            r matches Some(t) ==> t@ == "gross="@ + decimal::decimal_text(self.gross@) + " net="@
                + decimal::decimal_text(self.net@) + " fees="@ + decimal::decimal_text(
                self.total_fees@,
            ) + " chipin_rev="@ + decimal::decimal_text(chipin_revenue_spec(self@)->0)
                + " partner="@ + decimal::decimal_text(self.partner_cut@),
    {
        match self.checked_chipin_revenue() {
            Some(_) => Some(self.summary()),
            None => None,
        }
    }
}

/// Applies the configured fees to each kind of operation.
pub struct FeeCalculator {
    pub config: Config,
}

impl FeeCalculator {
    pub fn new(config: Config) -> (r: FeeCalculator)
        ensures
            r.config == config,
    {
        FeeCalculator { config }
    }

    /// Fees on a member contribution: the platform fee. (The FX spread is applied
    /// by the converter.)
    pub fn contribution(&self, gross_usdc: Decimal) -> (r: FeeResult)
        requires
            contribution_spec(gross_usdc@, self.config.platform_fee_bps) is Some,
        ensures
            contribution_spec(gross_usdc@, self.config.platform_fee_bps) == Some(r@),
            decimal::product_fits(gross_usdc@, config::bps_rate(self.config.platform_fee_bps))
                ==> r.platform_fee@ == decimal::exact_product(
                gross_usdc@,
                config::bps_rate(self.config.platform_fee_bps),
            ),
            decimal::difference_fits(gross_usdc@, r.total_fees@) ==> decimal::units(r.net@)
                + decimal::units(r.total_fees@) == decimal::units(r.gross@),
    {
        let platform_fee = gross_usdc.mul(&Config::bps_to_decimal(self.config.platform_fee_bps));
        let net = gross_usdc.sub(&platform_fee);
        FeeResult {
            gross: gross_usdc,
            net,
            platform_fee,
            fx_spread: Decimal::zero(),
            yield_perf_fee: Decimal::zero(),
            withdrawal_fee: Decimal::zero(),
            partner_cut: Decimal::zero(),
            total_fees: platform_fee,
            currency: SupportedCurrency::USDC,
        }
    }

    /// Fees on a withdrawal: the withdrawal fee.
    pub fn withdrawal(&self, gross_usdc: Decimal) -> (r: FeeResult)
        requires
            withdrawal_spec(gross_usdc@, self.config.withdrawal_fee_bps) is Some,
        ensures
            withdrawal_spec(gross_usdc@, self.config.withdrawal_fee_bps) == Some(r@),
            decimal::product_fits(gross_usdc@, config::bps_rate(self.config.withdrawal_fee_bps))
                ==> r.withdrawal_fee@ == decimal::exact_product(
                gross_usdc@,
                config::bps_rate(self.config.withdrawal_fee_bps),
            ),
            decimal::difference_fits(gross_usdc@, r.total_fees@) ==> decimal::units(r.net@)
                + decimal::units(r.total_fees@) == decimal::units(r.gross@),
    {
        let withdrawal_fee = gross_usdc.mul(&Config::bps_to_decimal(self.config.withdrawal_fee_bps));
        let net = gross_usdc.sub(&withdrawal_fee);
        FeeResult {
            gross: gross_usdc,
            net,
            platform_fee: Decimal::zero(),
            fx_spread: Decimal::zero(),
            yield_perf_fee: Decimal::zero(),
            withdrawal_fee,
            partner_cut: Decimal::zero(),
            total_fees: withdrawal_fee,
            currency: SupportedCurrency::USDC,
        }
    }

    /// The platform's performance fee on yield earned, taken when yield is distributed.
    pub fn yield_performance(&self, gross_yield_usdc: Decimal) -> (r: FeeResult)
        requires
            yield_performance_spec(gross_yield_usdc@, self.config.yield_performance_fee_bps) is Some,
        ensures
            yield_performance_spec(gross_yield_usdc@, self.config.yield_performance_fee_bps)
                == Some(r@),
            decimal::product_fits(
                gross_yield_usdc@,
                config::bps_rate(self.config.yield_performance_fee_bps),
            ) ==> r.yield_perf_fee@ == decimal::exact_product(
                gross_yield_usdc@,
                config::bps_rate(self.config.yield_performance_fee_bps),
            ),
            decimal::difference_fits(gross_yield_usdc@, r.total_fees@) ==> decimal::units(r.net@)
                + decimal::units(r.total_fees@) == decimal::units(r.gross@),
    {
        let perf_fee = gross_yield_usdc.mul(
            &Config::bps_to_decimal(self.config.yield_performance_fee_bps),
        );
        let net = gross_yield_usdc.sub(&perf_fee);
        FeeResult {
            gross: gross_yield_usdc,
            net,
            platform_fee: Decimal::zero(),
            fx_spread: Decimal::zero(),
            yield_perf_fee: perf_fee,
            withdrawal_fee: Decimal::zero(),
            partner_cut: Decimal::zero(),
            total_fees: perf_fee,
            currency: SupportedCurrency::USDC,
        }
    }

    /// Fees on a bulk market order: the platform fee and the partner cut.
    pub fn market_order(&self, gross_usdc: Decimal) -> (r: FeeResult)
        requires
            market_order_spec(gross_usdc@, self.config.platform_fee_bps, self.config.partner_cut_bps)
                is Some,
        ensures
            market_order_spec(gross_usdc@, self.config.platform_fee_bps, self.config.partner_cut_bps)
                == Some(r@),
            decimal::sum_fits(r.platform_fee@, r.partner_cut@) ==> decimal::units(r.total_fees@)
                == decimal::units(r.platform_fee@) + decimal::units(r.partner_cut@),
            decimal::difference_fits(gross_usdc@, r.total_fees@) ==> decimal::units(r.net@)
                + decimal::units(r.total_fees@) == decimal::units(r.gross@),
    {
        let platform_fee = gross_usdc.mul(&Config::bps_to_decimal(self.config.platform_fee_bps));
        let partner_cut = gross_usdc.mul(&Config::bps_to_decimal(self.config.partner_cut_bps));
        let total_fees = platform_fee.add(&partner_cut);
        let net = gross_usdc.sub(&total_fees);
        FeeResult {
            gross: gross_usdc,
            net,
            platform_fee,
            fx_spread: Decimal::zero(),
            yield_perf_fee: Decimal::zero(),
            withdrawal_fee: Decimal::zero(),
            partner_cut,
            total_fees,
            currency: SupportedCurrency::USDC,
        }
    }

    /// Fees on a payout to a member: the withdrawal fee. (The FX spread is applied
    /// by the converter.)
    pub fn payout(&self, gross_usdc: Decimal) -> (r: FeeResult)
        requires
            withdrawal_spec(gross_usdc@, self.config.withdrawal_fee_bps) is Some,
        ensures
            withdrawal_spec(gross_usdc@, self.config.withdrawal_fee_bps) == Some(r@),
            decimal::difference_fits(gross_usdc@, r.total_fees@) ==> decimal::units(r.net@)
                + decimal::units(r.total_fees@) == decimal::units(r.gross@),
    {
        self.withdrawal(gross_usdc)
    }

    /// `contribution`, or `None` where an amount overflows.
    pub fn checked_contribution(&self, gross_usdc: Decimal) -> (r: Option<FeeResult>)
        ensures
            opt_fee_view(r) == contribution_spec(gross_usdc@, self.config.platform_fee_bps),
    {
        match gross_usdc.checked_mul(&Config::bps_to_decimal(self.config.platform_fee_bps)) {
            Some(fee) => match gross_usdc.checked_sub(&fee) {
                Some(_) => Some(self.contribution(gross_usdc)),
                None => None,
            },
            None => None,
        }
    }

    /// `withdrawal`, or `None` where an amount overflows.
    pub fn checked_withdrawal(&self, gross_usdc: Decimal) -> (r: Option<FeeResult>)
        ensures
            opt_fee_view(r) == withdrawal_spec(gross_usdc@, self.config.withdrawal_fee_bps),
    {
        match gross_usdc.checked_mul(&Config::bps_to_decimal(self.config.withdrawal_fee_bps)) {
            Some(fee) => match gross_usdc.checked_sub(&fee) {
                Some(_) => Some(self.withdrawal(gross_usdc)),
                None => None,
            },
            None => None,
        }
    }

    /// `payout`, or `None` where an amount overflows.
    pub fn checked_payout(&self, gross_usdc: Decimal) -> (r: Option<FeeResult>)
        ensures
            opt_fee_view(r) == withdrawal_spec(gross_usdc@, self.config.withdrawal_fee_bps),
    {
        match self.checked_withdrawal(gross_usdc) {
            Some(_) => Some(self.payout(gross_usdc)),
            None => None,
        }
    }

    /// `yield_performance`, or `None` where an amount overflows.
    pub fn checked_yield_performance(&self, gross_yield_usdc: Decimal) -> (r: Option<FeeResult>)
        ensures
            opt_fee_view(r) == yield_performance_spec(
                gross_yield_usdc@,
                self.config.yield_performance_fee_bps,
            ),
    {
        match gross_yield_usdc.checked_mul(
            &Config::bps_to_decimal(self.config.yield_performance_fee_bps),
        ) {
            Some(fee) => match gross_yield_usdc.checked_sub(&fee) {
                Some(_) => Some(self.yield_performance(gross_yield_usdc)),
                None => None,
            },
            None => None,
        }
    }

    /// `market_order`, or `None` where an amount overflows.
    pub fn checked_market_order(&self, gross_usdc: Decimal) -> (r: Option<FeeResult>)
        ensures
            opt_fee_view(r) == market_order_spec(
                gross_usdc@,
                self.config.platform_fee_bps,
                self.config.partner_cut_bps,
            ),
    {
        let platform = gross_usdc.checked_mul(&Config::bps_to_decimal(self.config.platform_fee_bps));
        let partner = gross_usdc.checked_mul(&Config::bps_to_decimal(self.config.partner_cut_bps));
        match (platform, partner) {
            (Some(p), Some(c)) => match p.checked_add(&c) {
                Some(t) => match gross_usdc.checked_sub(&t) {
                    Some(_) => Some(self.market_order(gross_usdc)),
                    None => None,
                },
                None => None,
            },
            _ => None,
        }
    }
}

proof fn lemma_bps_units(amount: (int, nat), bps: u32)
    requires
        decimal::mul_exact(amount, config::bps_rate(bps)),
    ensures
        decimal::units(decimal::decimal_mul(amount, config::bps_rate(bps))->0) * 10000
            == decimal::units(amount) * bps,
{
    decimal::lemma_units_of_bps(bps as int);
    let p24 = decimal::pow10(24);
    let f = decimal::units(decimal::decimal_mul(amount, config::bps_rate(bps))->0);
    let a = decimal::units(amount);
    let b = bps as int;
    assert(f * (10000 * p24) == a * (b * p24));
    assert(f * 10000 == a * b) by (nonlinear_arith)
        requires
            f * (10000 * p24) == a * (b * p24),
            p24 >= 1,
    ;
}

/// A one-fee operation takes `bps` basis points of the gross as its fee and leaves
/// the rest: where rust_decimal computes both steps exactly, fee = gross * bps / 10^4
/// and net = gross - fee, the fee is the only fee and is the total. A contribution
/// books it as the platform fee, a withdrawal as the withdrawal fee, a yield
/// distribution as the performance fee.
pub proof fn law_single_fee_operations(gross: (int, nat), bps: u32)
    requires
        decimal::mul_exact(gross, config::bps_rate(bps)),
        decimal::sub_exact(gross, decimal::decimal_mul(gross, config::bps_rate(bps))->0),
    ensures
        contribution_spec(gross, bps) is Some,
        withdrawal_spec(gross, bps) is Some,
        yield_performance_spec(gross, bps) is Some,
        ({
            let c = contribution_spec(gross, bps)->0;
            &&& c.gross == gross
            &&& decimal::units(c.platform_fee) * 10000 == decimal::units(gross) * bps
            &&& decimal::units(c.net) + decimal::units(c.platform_fee) == decimal::units(gross)
            &&& c.total_fees == c.platform_fee
            &&& c.fx_spread.0 == 0 && c.yield_perf_fee.0 == 0 && c.withdrawal_fee.0 == 0
                && c.partner_cut.0 == 0
        }),
        ({
            let w = withdrawal_spec(gross, bps)->0;
            &&& w.gross == gross
            &&& decimal::units(w.withdrawal_fee) * 10000 == decimal::units(gross) * bps
            &&& decimal::units(w.net) + decimal::units(w.withdrawal_fee) == decimal::units(gross)
            &&& w.total_fees == w.withdrawal_fee
            &&& w.platform_fee.0 == 0 && w.fx_spread.0 == 0 && w.yield_perf_fee.0 == 0
                && w.partner_cut.0 == 0
        }),
        ({
            let y = yield_performance_spec(gross, bps)->0;
            &&& y.gross == gross
            &&& decimal::units(y.yield_perf_fee) * 10000 == decimal::units(gross) * bps
            &&& decimal::units(y.net) + decimal::units(y.yield_perf_fee) == decimal::units(gross)
            &&& y.total_fees == y.yield_perf_fee
            &&& y.platform_fee.0 == 0 && y.fx_spread.0 == 0 && y.withdrawal_fee.0 == 0
                && y.partner_cut.0 == 0
        }),
{
    lemma_bps_units(gross, bps);
}

/// A market order takes the platform fee and the partner cut, each its own rate of
/// the gross; where rust_decimal computes every step exactly, the total fee is their
/// sum and the net is the gross less both.
pub proof fn law_market_order_fees(gross: (int, nat), platform_bps: u32, partner_bps: u32)
    requires
        decimal::mul_exact(gross, config::bps_rate(platform_bps)),
        decimal::mul_exact(gross, config::bps_rate(partner_bps)),
        decimal::add_exact(
            decimal::decimal_mul(gross, config::bps_rate(platform_bps))->0,
            decimal::decimal_mul(gross, config::bps_rate(partner_bps))->0,
        ),
        decimal::sub_exact(
            gross,
            decimal::decimal_add(
                decimal::decimal_mul(gross, config::bps_rate(platform_bps))->0,
                decimal::decimal_mul(gross, config::bps_rate(partner_bps))->0,
            )->0,
        ),
    ensures
        market_order_spec(gross, platform_bps, partner_bps) is Some,
        ({
            let m = market_order_spec(gross, platform_bps, partner_bps)->0;
            &&& m.gross == gross
            &&& decimal::units(m.platform_fee) * 10000 == decimal::units(gross) * platform_bps
            &&& decimal::units(m.partner_cut) * 10000 == decimal::units(gross) * partner_bps
            &&& decimal::units(m.total_fees) == decimal::units(m.platform_fee) + decimal::units(
                m.partner_cut,
            )
            &&& decimal::units(m.net) * 10000 == decimal::units(gross) * (10000 - platform_bps
                - partner_bps)
            &&& m.fx_spread.0 == 0 && m.yield_perf_fee.0 == 0 && m.withdrawal_fee.0 == 0
        }),
{
    lemma_bps_units(gross, platform_bps);
    lemma_bps_units(gross, partner_bps);
    let g = decimal::units(gross);
    let m = market_order_spec(gross, platform_bps, partner_bps)->0;
    let pf = decimal::units(m.platform_fee);
    let pc = decimal::units(m.partner_cut);
    let t = decimal::units(m.total_fees);
    let n = decimal::units(m.net);
    let a = platform_bps as int;
    let b = partner_bps as int;
    assert(n * 10000 == g * (10000 - a - b)) by (nonlinear_arith)
        requires
            pf * 10000 == g * a,
            pc * 10000 == g * b,
            t == pf + pc,
            n == g - t,
    ;
}

} // verus!
