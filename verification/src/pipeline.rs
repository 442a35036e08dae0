//! Transaction pipelines: every financial operation passes through here before
//! the backend writes it to the database.
//!
//! A pipeline converts currency, applies fees, routes funds to yield, accounts
//! the revenue split, and returns the settlement confirmation. The exchange rate,
//! which comes from the rate cache or an oracle, is fetched by the caller and
//! handed in.

use vstd::prelude::*;
use crate::aave::{self, AaveClient};
use crate::clock::{self, Timestamp};
use crate::config::Config;
use crate::converter::{self, ConversionResult, CurrencyConverter, CurrencyValue};
use crate::currency::{Currency, SupportedCurrency};
use crate::decimal::{self, Decimal};
use crate::entropy::{self, new_id};
use crate::fees::{self, FeeCalculator};
use crate::rates::ExchangeRate;
use crate::text::concat2;

verus! {

/// A settled transaction, returned to the backend as confirmation.
#[derive(Debug, Clone)]
pub struct SettlementResult {
    /// The platform's internal reference.
    pub reference: String,
    /// The user's local-currency side of the transaction.
    pub local_input: Currency,
    /// USDC amount after conversion and fees.
    pub usdc_settled: Decimal,
    /// The platform's revenue from this transaction (USDC).
    pub chipin_revenue: Decimal,
    /// Partner revenue, if any (USDC).
    pub partner_revenue: Decimal,
    /// Whether the funds are in the yield protocol.
    pub is_in_yield: bool,
    /// Current APY, when in yield.
    pub current_apy: Option<Decimal>,
    /// Settlement time (RFC 3339).
    pub settled_at: String,
}

/// The amounts of a settlement.
pub struct SettlementValues {
    pub local_input: CurrencyValue,
    pub usdc_settled: (int, nat),
    pub chipin_revenue: (int, nat),
    pub partner_revenue: (int, nat),
    pub is_in_yield: bool,
    pub current_apy: Option<(int, nat)>,
}

pub open spec fn settlement_values(r: SettlementResult) -> SettlementValues {
    SettlementValues {
        local_input: converter::currency_value(r.local_input),
        usdc_settled: r.usdc_settled@,
        chipin_revenue: r.chipin_revenue@,
        partner_revenue: r.partner_revenue@,
        is_in_yield: r.is_in_yield,
        current_apy: decimal::opt_view(r.current_apy),
    }
}

/// A reference: the prefix, then a fresh UUID.
pub open spec fn reference_with(r: Seq<char>, prefix: Seq<char>) -> bool {
    &&& r.len() == prefix.len() + 36
    &&& r.take(prefix.len() as int) == prefix
    &&& entropy::uuid_shape(r.skip(prefix.len() as int))
}

fn make_reference(prefix: &str) -> (r: String)
    ensures
        reference_with(r@, prefix@),
{
    let id = new_id();
    let r = concat2(prefix, id.as_str());
    proof {
        assert(r@.take(prefix@.len() as int) =~= prefix@);
        assert(r@.skip(prefix@.len() as int) =~= id@);
    }
    r
}

pub struct ContributionRequest {
    pub user_id: String,
    pub pool_id: String,
    pub amount: Decimal,
    pub currency: SupportedCurrency,
}

pub struct MarketOrderRequest {
    pub pool_id: String,
    pub retailer_id: String,
    pub amount: Decimal,
    pub currency: SupportedCurrency,
}

pub struct PayoutRequest {
    pub pool_id: String,
    pub recipient_id: String,
    pub usdc_amount: Decimal,
    pub local_currency: SupportedCurrency,
}

pub struct WithdrawalRequest {
    pub user_id: String,
    pub pool_id: String,
    pub usdc_amount: Decimal,
    pub target_currency: SupportedCurrency,
}

/// A contribution: convert to USDC, take the platform fee, deposit the rest into
/// the yield protocol; revenue is the fee plus the FX spread.
pub open spec fn contribution_settlement(
    amount: (int, nat),
    currency: SupportedCurrency,
    rate: Option<ExchangeRate>,
    fx_bps: u32,
    platform_bps: u32,
) -> Option<SettlementValues> {
    match converter::local_to_usdc_with(amount, currency, rate, fx_bps) {
        Some(conv) => match fees::contribution_spec(conv.output.amount, platform_bps) {
            Some(fee) => match fees::chipin_revenue_spec(fee) {
                Some(rev) => match decimal::decimal_add(rev, conv.spread_revenue.amount) {
                    Some(total) => Some(
                        SettlementValues {
                            local_input: CurrencyValue { amount, currency },
                            usdc_settled: fee.net,
                            chipin_revenue: total,
                            partner_revenue: (0int, 0nat),
                            is_in_yield: true,
                            current_apy: Some(aave::typical_apy()),
                        },
                    ),
                    None => None,
                },
                None => None,
            },
            None => None,
        },
        None => None,
    }
}

/// A bulk market order: convert to USDC, take the platform fee and the partner
/// cut; revenue is the platform fee plus the FX spread.
pub open spec fn market_order_settlement(
    amount: (int, nat),
    currency: SupportedCurrency,
    rate: Option<ExchangeRate>,
    fx_bps: u32,
    platform_bps: u32,
    partner_bps: u32,
) -> Option<SettlementValues> {
    match converter::local_to_usdc_with(amount, currency, rate, fx_bps) {
        Some(conv) => match fees::market_order_spec(conv.output.amount, platform_bps, partner_bps) {
            Some(fee) => match decimal::decimal_add(fee.platform_fee, conv.spread_revenue.amount) {
                Some(total) => Some(
                    SettlementValues {
                        local_input: CurrencyValue { amount, currency },
                        usdc_settled: fee.net,
                        chipin_revenue: total,
                        partner_revenue: fee.partner_cut,
                        is_in_yield: false,
                        current_apy: None,
                    },
                ),
                None => None,
            },
            None => None,
        },
        None => None,
    }
}

/// A payout or withdrawal: take the USDC out of the yield protocol, take the
/// withdrawal fee, convert the rest to local currency; revenue is the fee plus the
/// FX spread.
pub open spec fn outflow_settlement(
    usdc_amount: (int, nat),
    currency: SupportedCurrency,
    rate: Option<ExchangeRate>,
    fx_bps: u32,
    withdrawal_bps: u32,
) -> Option<SettlementValues> {
    match fees::withdrawal_spec(usdc_amount, withdrawal_bps) {
        Some(fee) => match converter::usdc_to_local_with(fee.net, currency, rate, fx_bps) {
            Some(conv) => match decimal::decimal_add(fee.withdrawal_fee, conv.spread_revenue.amount) {
                Some(total) => Some(
                    SettlementValues {
                        local_input: conv.output,
                        usdc_settled: fee.net,
                        chipin_revenue: total,
                        partner_revenue: (0int, 0nat),
                        is_in_yield: false,
                        current_apy: None,
                    },
                ),
                None => None,
            },
            None => None,
        },
        None => None,
    }
}

pub open spec fn opt_settlement(r: Option<SettlementResult>) -> Option<SettlementValues> {
    match r {
        Some(x) => Some(settlement_values(x)),
        None => None,
    }
}

/// The USDC an inflow of `amount` local units is worth at `rate`, before any
/// spread or fee: amount / rate.
pub open spec fn inflow_gross(amount: (int, nat), rate: (int, nat)) -> (int, nat) {
    decimal::decimal_div(amount, rate)->0
}

/// The FX spread on an inflow.
pub open spec fn inflow_spread(amount: (int, nat), rate: (int, nat), fx_bps: u32) -> (int, nat) {
    decimal::decimal_mul(inflow_gross(amount, rate), crate::config::bps_rate(fx_bps))->0
}

/// What is left of an inflow after the spread.
pub open spec fn inflow_after_spread(amount: (int, nat), rate: (int, nat), fx_bps: u32) -> (
    int,
    nat,
) {
    decimal::decimal_sub(inflow_gross(amount, rate), inflow_spread(amount, rate, fx_bps))->0
}

/// Every step of a contribution's arithmetic is exact: the spread and the fee come
/// off without rounding, and the revenue adds up without rounding.
pub open spec fn contribution_exact(
    amount: (int, nat),
    rate: (int, nat),
    fx_bps: u32,
    platform_bps: u32,
) -> bool {
    let after = inflow_after_spread(amount, rate, fx_bps);
    let fee = decimal::decimal_mul(after, crate::config::bps_rate(platform_bps))->0;
    &&& decimal::difference_fits(inflow_gross(amount, rate), inflow_spread(amount, rate, fx_bps))
    &&& decimal::difference_fits(after, fee)
    &&& decimal::sum_fits(fee, inflow_spread(amount, rate, fx_bps))
}

/// Every step of a market order's arithmetic is exact.
pub open spec fn market_order_exact(
    amount: (int, nat),
    rate: (int, nat),
    fx_bps: u32,
    platform_bps: u32,
    partner_bps: u32,
) -> bool {
    let after = inflow_after_spread(amount, rate, fx_bps);
    let platform = decimal::decimal_mul(after, crate::config::bps_rate(platform_bps))->0;
    let partner = decimal::decimal_mul(after, crate::config::bps_rate(partner_bps))->0;
    &&& decimal::difference_fits(inflow_gross(amount, rate), inflow_spread(amount, rate, fx_bps))
    &&& decimal::sum_fits(platform, partner)
    &&& decimal::difference_fits(after, decimal::decimal_add(platform, partner)->0)
    &&& decimal::sum_fits(platform, inflow_spread(amount, rate, fx_bps))
}

pub struct ContributionPipeline {
    pub converter: CurrencyConverter,
    pub fees: FeeCalculator,
    pub aave: AaveClient,
    pub config: Config,
}

impl ContributionPipeline {
    /// Settles a contribution. `rate` is the rate of the request's currency
    /// (none is needed for USDC). Where every step is exact, the USDC settled plus
    /// the platform's revenue is exactly what the amount is worth in USDC.
    pub fn process(&self, req: ContributionRequest, rate: Option<&ExchangeRate>) -> (r:
        SettlementResult)
        requires
            contribution_settlement(
                req.amount@,
                req.currency,
                converter::deref_rate(rate),
                self.converter.config.fx_spread_bps,
                self.fees.config.platform_fee_bps,
            ) is Some,
        ensures
            contribution_settlement(
                req.amount@,
                req.currency,
                converter::deref_rate(rate),
                self.converter.config.fx_spread_bps,
                self.fees.config.platform_fee_bps,
            ) == Some(settlement_values(r)),
            reference_with(r.reference@, "CONTRIB-"@),
            exists|t: Timestamp|
                #[trigger] clock::is_clock_reading(t) && r.settled_at@ == clock::chrono_rfc3339_text(
                    t.seconds,
                    t.nanos,
                ),
            req.currency != SupportedCurrency::USDC && contribution_exact(
                req.amount@,
                converter::deref_rate(rate)->0.usdc_to_local@,
                self.converter.config.fx_spread_bps,
                self.fees.config.platform_fee_bps,
            ) ==> decimal::units(r.usdc_settled@) + decimal::units(r.chipin_revenue@)
                == decimal::units(
                inflow_gross(req.amount@, converter::deref_rate(rate)->0.usdc_to_local@),
            ),
    {
        let reference = make_reference("CONTRIB-");
        // Step 1: local currency to USDC (the FX spread comes off here).
        let conversion = self.converter.local_to_usdc(req.amount, req.currency, rate);
        let gross_usdc = conversion.output.amount;
        // Step 2: the platform fee.
        let fee_result = self.fees.contribution(gross_usdc);
        let net_usdc = fee_result.net;
        // Step 3: the net USDC goes into the yield protocol.
        let position = self.aave.deposit(net_usdc);
        // Step 4: the platform's revenue.
        let fee_revenue = fee_result.chipin_revenue();
        let chipin_revenue = fee_revenue.add(&conversion.spread_revenue.amount);
        proof {
            if req.currency != SupportedCurrency::USDC {
                let rv = converter::deref_rate(rate)->0.usdc_to_local@;
                assert(conversion.rate@ == rv);
                assert(conversion.spread_revenue.amount@ == inflow_spread(
                    req.amount@,
                    rv,
                    self.converter.config.fx_spread_bps,
                ));
                assert(gross_usdc@ == inflow_after_spread(
                    req.amount@,
                    rv,
                    self.converter.config.fx_spread_bps,
                ));
                assert(fee_result.total_fees@ == fee_result.platform_fee@);
                if fee_result.platform_fee@.0 != 0 {
                    assert(fee_revenue@ == fee_result.platform_fee@);
                } else {
                    decimal::lemma_units_zero(fee_result.platform_fee@);
                    decimal::lemma_units_zero(fee_revenue@);
                    decimal::lemma_units_zero(chipin_revenue@);
                }
            }
        }
        SettlementResult {
            reference,
            local_input: Currency::new(req.amount, req.currency),
            usdc_settled: net_usdc,
            chipin_revenue,
            partner_revenue: Decimal::zero(),
            is_in_yield: true,
            current_apy: Some(position.current_apy),
            settled_at: clock::now_rfc3339(),
        }
    }

    /// `process`, or `None` where the rate is missing or zero or an amount overflows.
    pub fn checked_process(&self, req: ContributionRequest, rate: Option<&ExchangeRate>) -> (r:
        Option<SettlementResult>)
        ensures
            opt_settlement(r) == contribution_settlement(
                req.amount@,
                req.currency,
                converter::deref_rate(rate),
                self.converter.config.fx_spread_bps,
                self.fees.config.platform_fee_bps,
            ),
            r matches Some(x) ==> reference_with(x.reference@, "CONTRIB-"@),
            r matches Some(x) ==> exists|t: Timestamp|
                #[trigger] clock::is_clock_reading(t) && x.settled_at@ == clock::chrono_rfc3339_text(
                    t.seconds,
                    t.nanos,
                ),
    {
        let conversion = match self.converter.checked_local_to_usdc(req.amount, req.currency, rate) {
            Some(c) => c,
            None => return None,
        };
        let fee_result = match self.fees.checked_contribution(conversion.output.amount) {
            Some(f) => f,
            None => return None,
        };
        let revenue = match fee_result.checked_chipin_revenue() {
            Some(v) => v,
            None => return None,
        };
        match revenue.checked_add(&conversion.spread_revenue.amount) {
            Some(_) => Some(self.process(req, rate)),
            None => None,
        }
    }
}

pub struct MarketOrderPipeline {
    pub converter: CurrencyConverter,
    pub fees: FeeCalculator,
}

impl MarketOrderPipeline {
    /// Settles a bulk market order. `rate` is the rate of the request's currency
    /// (none is needed for USDC). Where every step is exact, the USDC settled, the
    /// platform's revenue and the partner's cut add up to what the amount is worth.
    pub fn process(&self, req: MarketOrderRequest, rate: Option<&ExchangeRate>) -> (r:
        SettlementResult)
        requires
            market_order_settlement(
                req.amount@,
                req.currency,
                converter::deref_rate(rate),
                self.converter.config.fx_spread_bps,
                self.fees.config.platform_fee_bps,
                self.fees.config.partner_cut_bps,
            ) is Some,
        ensures
            market_order_settlement(
                req.amount@,
                req.currency,
                converter::deref_rate(rate),
                self.converter.config.fx_spread_bps,
                self.fees.config.platform_fee_bps,
                self.fees.config.partner_cut_bps,
            ) == Some(settlement_values(r)),
            reference_with(r.reference@, "MARKET-"@),
            exists|t: Timestamp|
                #[trigger] clock::is_clock_reading(t) && r.settled_at@ == clock::chrono_rfc3339_text(
                    t.seconds,
                    t.nanos,
                ),
            req.currency != SupportedCurrency::USDC && market_order_exact(
                req.amount@,
                converter::deref_rate(rate)->0.usdc_to_local@,
                self.converter.config.fx_spread_bps,
                self.fees.config.platform_fee_bps,
                self.fees.config.partner_cut_bps,
            ) ==> decimal::units(r.usdc_settled@) + decimal::units(r.chipin_revenue@)
                + decimal::units(r.partner_revenue@) == decimal::units(
                inflow_gross(req.amount@, converter::deref_rate(rate)->0.usdc_to_local@),
            ),
    {
        let reference = make_reference("MARKET-");
        let conversion = self.converter.local_to_usdc(req.amount, req.currency, rate);
        let gross_usdc = conversion.output.amount;
        let fees = self.fees.market_order(gross_usdc);
        let chipin_revenue = fees.platform_fee.add(&conversion.spread_revenue.amount);
        let partner_revenue = fees.partner_cut;
        proof {
            if req.currency != SupportedCurrency::USDC {
                let rv = converter::deref_rate(rate)->0.usdc_to_local@;
                assert(conversion.rate@ == rv);
                assert(conversion.spread_revenue.amount@ == inflow_spread(
                    req.amount@,
                    rv,
                    self.converter.config.fx_spread_bps,
                ));
                assert(gross_usdc@ == inflow_after_spread(
                    req.amount@,
                    rv,
                    self.converter.config.fx_spread_bps,
                ));
            }
        }
        SettlementResult {
            reference,
            local_input: Currency::new(req.amount, req.currency),
            usdc_settled: fees.net,
            chipin_revenue,
            partner_revenue,
            is_in_yield: false,
            current_apy: None,
            settled_at: clock::now_rfc3339(),
        }
    }

    /// `process`, or `None` where the rate is missing or zero or an amount overflows.
    pub fn checked_process(&self, req: MarketOrderRequest, rate: Option<&ExchangeRate>) -> (r:
        Option<SettlementResult>)
        ensures
            opt_settlement(r) == market_order_settlement(
                req.amount@,
                req.currency,
                converter::deref_rate(rate),
                self.converter.config.fx_spread_bps,
                self.fees.config.platform_fee_bps,
                self.fees.config.partner_cut_bps,
            ),
            r matches Some(x) ==> reference_with(x.reference@, "MARKET-"@),
            r matches Some(x) ==> exists|t: Timestamp|
                #[trigger] clock::is_clock_reading(t) && x.settled_at@ == clock::chrono_rfc3339_text(
                    t.seconds,
                    t.nanos,
                ),
    {
        let conversion = match self.converter.checked_local_to_usdc(req.amount, req.currency, rate) {
            Some(c) => c,
            None => return None,
        };
        let fees = match self.fees.checked_market_order(conversion.output.amount) {
            Some(f) => f,
            None => return None,
        };
        match fees.platform_fee.checked_add(&conversion.spread_revenue.amount) {
            Some(_) => Some(self.process(req, rate)),
            None => None,
        }
    }
}

pub struct PayoutPipeline {
    pub converter: CurrencyConverter,
    pub fees: FeeCalculator,
    pub aave: AaveClient,
}

impl PayoutPipeline {
    /// Settles a rotating payout to the next recipient. `rate` is the rate of the
    /// payout currency (none is needed for USDC).
    pub fn process(&self, req: PayoutRequest, rate: Option<&ExchangeRate>) -> (r: SettlementResult)
        requires
            outflow_settlement(
                req.usdc_amount@,
                req.local_currency,
                converter::deref_rate(rate),
                self.converter.config.fx_spread_bps,
                self.fees.config.withdrawal_fee_bps,
            ) is Some,
        ensures
            outflow_settlement(
                req.usdc_amount@,
                req.local_currency,
                converter::deref_rate(rate),
                self.converter.config.fx_spread_bps,
                self.fees.config.withdrawal_fee_bps,
            ) == Some(settlement_values(r)),
            reference_with(r.reference@, "PAYOUT-"@),
            exists|t: Timestamp|
                #[trigger] clock::is_clock_reading(t) && r.settled_at@ == clock::chrono_rfc3339_text(
                    t.seconds,
                    t.nanos,
                ),
    {
        let reference = make_reference("PAYOUT-");
        let withdrawn = self.aave.withdraw(req.usdc_amount);
        let fees = self.fees.payout(withdrawn);
        let net_usdc = fees.net;
        let conversion = self.converter.usdc_to_local(net_usdc, req.local_currency, rate);
        let chipin_revenue = fees.withdrawal_fee.add(&conversion.spread_revenue.amount);
        SettlementResult {
            reference,
            local_input: conversion.output,
            usdc_settled: net_usdc,
            chipin_revenue,
            partner_revenue: Decimal::zero(),
            is_in_yield: false,
            current_apy: None,
            settled_at: clock::now_rfc3339(),
        }
    }

    /// `process`, or `None` where the rate is missing or an amount overflows.
    pub fn checked_process(&self, req: PayoutRequest, rate: Option<&ExchangeRate>) -> (r: Option<
        SettlementResult,
    >)
        ensures
            opt_settlement(r) == outflow_settlement(
                req.usdc_amount@,
                req.local_currency,
                converter::deref_rate(rate),
                self.converter.config.fx_spread_bps,
                self.fees.config.withdrawal_fee_bps,
            ),
            r matches Some(x) ==> reference_with(x.reference@, "PAYOUT-"@),
            r matches Some(x) ==> exists|t: Timestamp|
                #[trigger] clock::is_clock_reading(t) && x.settled_at@ == clock::chrono_rfc3339_text(
                    t.seconds,
                    t.nanos,
                ),
    {
        let fees = match self.fees.checked_payout(req.usdc_amount) {
            Some(f) => f,
            None => return None,
        };
        let conversion = match self.converter.checked_usdc_to_local(
            fees.net,
            req.local_currency,
            rate,
        ) {
            Some(c) => c,
            None => return None,
        };
        match fees.withdrawal_fee.checked_add(&conversion.spread_revenue.amount) {
            Some(_) => Some(self.process(req, rate)),
            None => None,
        }
    }
}

pub struct WithdrawalPipeline {
    pub converter: CurrencyConverter,
    pub fees: FeeCalculator,
    pub aave: AaveClient,
}

impl WithdrawalPipeline {
    /// Settles a member's withdrawal. `rate` is the rate of the target currency
    /// (none is needed for USDC).
    pub fn process(&self, req: WithdrawalRequest, rate: Option<&ExchangeRate>) -> (r:
        SettlementResult)
        requires
            outflow_settlement(
                req.usdc_amount@,
                req.target_currency,
                converter::deref_rate(rate),
                self.converter.config.fx_spread_bps,
                self.fees.config.withdrawal_fee_bps,
            ) is Some,
        ensures
            outflow_settlement(
                req.usdc_amount@,
                req.target_currency,
                converter::deref_rate(rate),
                self.converter.config.fx_spread_bps,
                self.fees.config.withdrawal_fee_bps,
            ) == Some(settlement_values(r)),
            reference_with(r.reference@, "WITHDRAW-"@),
            exists|t: Timestamp|
                #[trigger] clock::is_clock_reading(t) && r.settled_at@ == clock::chrono_rfc3339_text(
                    t.seconds,
                    t.nanos,
                ),
    {
        let reference = make_reference("WITHDRAW-");
        // Step 1: take the USDC out of the yield protocol.
        let usdc_withdrawn = self.aave.withdraw(req.usdc_amount);
        // Step 2: the withdrawal fee.
        let fee_result = self.fees.withdrawal(usdc_withdrawn);
        let net_usdc = fee_result.net;
        // Step 3: USDC to local currency (the FX spread comes off here).
        let conversion = self.converter.usdc_to_local(net_usdc, req.target_currency, rate);
        let chipin_revenue = fee_result.withdrawal_fee.add(&conversion.spread_revenue.amount);
        SettlementResult {
            reference,
            local_input: conversion.output,
            usdc_settled: net_usdc,
            chipin_revenue,
            partner_revenue: Decimal::zero(),
            is_in_yield: false,
            current_apy: None,
            settled_at: clock::now_rfc3339(),
        }
    }

    /// `process`, or `None` where the rate is missing or an amount overflows.
    pub fn checked_process(&self, req: WithdrawalRequest, rate: Option<&ExchangeRate>) -> (r:
        Option<SettlementResult>)
        ensures
            opt_settlement(r) == outflow_settlement(
                req.usdc_amount@,
                req.target_currency,
                converter::deref_rate(rate),
                self.converter.config.fx_spread_bps,
                self.fees.config.withdrawal_fee_bps,
            ),
            r matches Some(x) ==> reference_with(x.reference@, "WITHDRAW-"@),
            r matches Some(x) ==> exists|t: Timestamp|
                #[trigger] clock::is_clock_reading(t) && x.settled_at@ == clock::chrono_rfc3339_text(
                    t.seconds,
                    t.nanos,
                ),
    {
        let fee_result = match self.fees.checked_withdrawal(req.usdc_amount) {
            Some(f) => f,
            None => return None,
        };
        let conversion = match self.converter.checked_usdc_to_local(
            fee_result.net,
            req.target_currency,
            rate,
        ) {
            Some(c) => c,
            None => return None,
        };
        match fee_result.withdrawal_fee.checked_add(&conversion.spread_revenue.amount) {
            Some(_) => Some(self.process(req, rate)),
            None => None,
        }
    }
}

/// A payout and a withdrawal of the same USDC amount into the same currency, at the
/// same rate, under the same FX spread and withdrawal fee, settle the same amounts:
/// both fail or both succeed, and then agree on everything but the reference.
pub proof fn law_payout_matches_withdrawal(
    payout: PayoutPipeline,
    withdrawal: WithdrawalPipeline,
    req: PayoutRequest,
    wreq: WithdrawalRequest,
    rate: Option<ExchangeRate>,
)
    requires
        payout.converter.config.fx_spread_bps == withdrawal.converter.config.fx_spread_bps,
        payout.fees.config.withdrawal_fee_bps == withdrawal.fees.config.withdrawal_fee_bps,
        req.usdc_amount@ == wreq.usdc_amount@,
        req.local_currency == wreq.target_currency,
    ensures
        outflow_settlement(
            req.usdc_amount@,
            req.local_currency,
            rate,
            payout.converter.config.fx_spread_bps,
            payout.fees.config.withdrawal_fee_bps,
        ) == outflow_settlement(
            wreq.usdc_amount@,
            wreq.target_currency,
            rate,
            withdrawal.converter.config.fx_spread_bps,
            withdrawal.fees.config.withdrawal_fee_bps,
        ),
        outflow_settlement(
            req.usdc_amount@,
            req.local_currency,
            rate,
            payout.converter.config.fx_spread_bps,
            payout.fees.config.withdrawal_fee_bps,
        ) matches Some(v) ==> !v.is_in_yield && v.current_apy is None && v.partner_revenue == (
            0int,
            0nat,
        ),
{
}

/// Every step of a payout or withdrawal comes back from rust_decimal exact: the
/// withdrawal fee, what is left after it, the local amount, the spread (in USDC and
/// in local units), the local amount after the spread, and the revenue.
pub open spec fn outflow_steps_exact(usdc_amount: (int, nat), rate: (int, nat), fx_bps: u32, withdrawal_bps: u32) -> bool {
    let fee = decimal::decimal_mul(usdc_amount, crate::config::bps_rate(withdrawal_bps))->0;
    let net = decimal::decimal_sub(usdc_amount, fee)->0;
    let spread = decimal::decimal_mul(net, crate::config::bps_rate(fx_bps))->0;
    &&& decimal::mul_exact(usdc_amount, crate::config::bps_rate(withdrawal_bps))
    &&& decimal::sub_exact(usdc_amount, fee)
    &&& decimal::mul_exact(net, rate)
    &&& decimal::mul_exact(net, crate::config::bps_rate(fx_bps))
    &&& decimal::mul_exact(spread, rate)
    &&& decimal::sub_exact(
        decimal::decimal_mul(net, rate)->0,
        decimal::decimal_mul(spread, rate)->0,
    )
    &&& decimal::add_exact(fee, spread)
}

proof fn lemma_fee_units(amount: (int, nat), bps: u32)
    requires
        decimal::mul_exact(amount, crate::config::bps_rate(bps)),
    ensures
        decimal::units(decimal::decimal_mul(amount, crate::config::bps_rate(bps))->0) * 10000
            == decimal::units(amount) * bps,
{
    decimal::lemma_units_of_bps(bps as int);
    let p24 = decimal::pow10(24);
    let f = decimal::units(decimal::decimal_mul(amount, crate::config::bps_rate(bps))->0);
    let a = decimal::units(amount);
    let b = bps as int;
    assert(f * (10000 * p24) == a * (b * p24));
    assert(f * 10000 == a * b) by (nonlinear_arith)
        requires
            f * (10000 * p24) == a * (b * p24),
            p24 >= 1,
    ;
}

/// A payout or withdrawal into a local currency pays out the conversion of what is
/// settled, not of the amount asked for: the withdrawal fee comes off first, the
/// rest is converted at the rate less the FX spread, and the revenue is the fee plus
/// the spread taken on the settled amount. Where every step is exact:
/// settled = amount * (1 - fee rate); local = settled * rate * (1 - spread rate);
/// revenue = amount * fee rate + settled * spread rate.
pub proof fn law_outflow_pays_out_what_is_settled(
    usdc_amount: (int, nat),
    currency: SupportedCurrency,
    rate: ExchangeRate,
    fx_bps: u32,
    withdrawal_bps: u32,
)
    requires
        currency != SupportedCurrency::USDC,
        outflow_steps_exact(usdc_amount, rate.usdc_to_local@, fx_bps, withdrawal_bps),
    ensures
        outflow_settlement(usdc_amount, currency, Some(rate), fx_bps, withdrawal_bps) is Some,
        ({
            let v = outflow_settlement(usdc_amount, currency, Some(rate), fx_bps, withdrawal_bps)->0;
            &&& v.local_input.currency == currency
            &&& decimal::units(v.usdc_settled) * 10000 == decimal::units(usdc_amount) * (10000
                - withdrawal_bps)
            &&& decimal::units(v.local_input.amount) * 10000 * decimal::pow10(28) == decimal::units(
                v.usdc_settled,
            ) * decimal::units(rate.usdc_to_local@) * (10000 - fx_bps)
            &&& decimal::units(v.chipin_revenue) * 10000 == decimal::units(usdc_amount)
                * withdrawal_bps + decimal::units(v.usdc_settled) * fx_bps
        }),
{
    let rho = rate.usdc_to_local@;
    let fee = decimal::decimal_mul(usdc_amount, crate::config::bps_rate(withdrawal_bps))->0;
    let net = decimal::decimal_sub(usdc_amount, fee)->0;
    let spread = decimal::decimal_mul(net, crate::config::bps_rate(fx_bps))->0;
    let gross = decimal::decimal_mul(net, rho)->0;
    let spread_local = decimal::decimal_mul(spread, rho)->0;
    let local = decimal::decimal_sub(gross, spread_local)->0;
    lemma_fee_units(usdc_amount, withdrawal_bps);
    lemma_fee_units(net, fx_bps);
    decimal::lemma_pow10_positive(28);
    let pw = decimal::pow10(28);
    let uu = decimal::units(usdc_amount);
    let uf = decimal::units(fee);
    let un = decimal::units(net);
    let us = decimal::units(spread);
    let ug = decimal::units(gross);
    let usl = decimal::units(spread_local);
    let ul = decimal::units(local);
    let ur = decimal::units(rho);
    let w = withdrawal_bps as int;
    let f = fx_bps as int;
    assert(un * 10000 == uu * (10000 - w)) by (nonlinear_arith)
        requires
            un == uu - uf,
            uf * 10000 == uu * w,
    ;
    assert(ul * 10000 * pw == un * ur * (10000 - f)) by (nonlinear_arith)
        requires
            ul == ug - usl,
            ug * pw == un * ur,
            usl * pw == us * ur,
            us * 10000 == un * f,
    ;
}

/// A payout or withdrawal in USDC pays out exactly what is settled: the amount less
/// the withdrawal fee, with the fee as the revenue.
pub proof fn law_usdc_outflow_pays_out_what_is_settled(
    usdc_amount: (int, nat),
    rate: Option<ExchangeRate>,
    fx_bps: u32,
    withdrawal_bps: u32,
)
    requires
        decimal::mul_exact(usdc_amount, crate::config::bps_rate(withdrawal_bps)),
        decimal::sub_exact(
            usdc_amount,
            decimal::decimal_mul(usdc_amount, crate::config::bps_rate(withdrawal_bps))->0,
        ),
        decimal::add_exact(
            decimal::decimal_mul(usdc_amount, crate::config::bps_rate(withdrawal_bps))->0,
            (0int, 0nat),
        ),
    ensures
        outflow_settlement(usdc_amount, SupportedCurrency::USDC, rate, fx_bps, withdrawal_bps)
            is Some,
        ({
            let v = outflow_settlement(
                usdc_amount,
                SupportedCurrency::USDC,
                rate,
                fx_bps,
                withdrawal_bps,
            )->0;
            &&& v.local_input.currency == SupportedCurrency::USDC
            &&& v.local_input.amount == v.usdc_settled
            &&& decimal::units(v.usdc_settled) * 10000 == decimal::units(usdc_amount) * (10000
                - withdrawal_bps)
            &&& decimal::units(v.chipin_revenue) * 10000 == decimal::units(usdc_amount)
                * withdrawal_bps
        }),
{
    lemma_fee_units(usdc_amount, withdrawal_bps);
    decimal::lemma_units_zero((0int, 0nat));
    let fee = decimal::decimal_mul(usdc_amount, crate::config::bps_rate(withdrawal_bps))->0;
    let net = decimal::decimal_sub(usdc_amount, fee)->0;
    let uu = decimal::units(usdc_amount);
    let uf = decimal::units(fee);
    let un = decimal::units(net);
    let w = withdrawal_bps as int;
    assert(un * 10000 == uu * (10000 - w)) by (nonlinear_arith)
        requires
            un == uu - uf,
            uf * 10000 == uu * w,
    ;
}

/// Every step of an inflow's conversion comes back from rust_decimal exact: the USDC
/// worth of the amount, the spread on it, and what is left after the spread.
pub open spec fn inflow_steps_exact(amount: (int, nat), rate: (int, nat), fx_bps: u32) -> bool {
    &&& decimal::div_exact(amount, rate)
    &&& decimal::mul_exact(inflow_gross(amount, rate), crate::config::bps_rate(fx_bps))
    &&& decimal::sub_exact(inflow_gross(amount, rate), inflow_spread(amount, rate, fx_bps))
}

proof fn lemma_inflow_units(amount: (int, nat), rate: (int, nat), fx_bps: u32)
    requires
        inflow_steps_exact(amount, rate, fx_bps),
    ensures
        decimal::units(inflow_after_spread(amount, rate, fx_bps)) * 10000 * decimal::units(rate)
            == decimal::units(amount) * decimal::pow10(28) * (10000 - fx_bps),
        decimal::units(inflow_after_spread(amount, rate, fx_bps)) + decimal::units(
            inflow_spread(amount, rate, fx_bps),
        ) == decimal::units(inflow_gross(amount, rate)),
        decimal::units(inflow_gross(amount, rate)) * decimal::units(rate) == decimal::units(amount)
            * decimal::pow10(28),
{
    lemma_fee_units(inflow_gross(amount, rate), fx_bps);
    let ug = decimal::units(inflow_gross(amount, rate));
    let us = decimal::units(inflow_spread(amount, rate, fx_bps));
    let ua = decimal::units(inflow_after_spread(amount, rate, fx_bps));
    let ur = decimal::units(rate);
    let um = decimal::units(amount);
    let pw = decimal::pow10(28);
    let f = fx_bps as int;
    assert(ua * 10000 * ur == um * pw * (10000 - f)) by (nonlinear_arith)
        requires
            ua == ug - us,
            us * 10000 == ug * f,
            ug * ur == um * pw,
    ;
}

/// A contribution in a local currency: where rust_decimal computes every step
/// exactly, the USDC worth of the amount (amount / rate) is split between what goes
/// into yield and the platform's revenue, and what goes into yield is that worth
/// less the FX spread and then less the platform fee:
/// settled * rate = amount * (1 - spread rate) * (1 - fee rate).
pub proof fn law_contribution_splits_its_worth(
    amount: (int, nat),
    currency: SupportedCurrency,
    rate: ExchangeRate,
    fx_bps: u32,
    platform_bps: u32,
)
    requires
        currency != SupportedCurrency::USDC,
        inflow_steps_exact(amount, rate.usdc_to_local@, fx_bps),
        ({
            let after = inflow_after_spread(amount, rate.usdc_to_local@, fx_bps);
            let fee = decimal::decimal_mul(after, crate::config::bps_rate(platform_bps))->0;
            let r1 = decimal::decimal_add(fee, (0int, 0nat))->0;
            let r2 = decimal::decimal_add(r1, (0int, 0nat))->0;
            let r3 = decimal::decimal_add(r2, (0int, 0nat))->0;
            &&& decimal::mul_exact(after, crate::config::bps_rate(platform_bps))
            &&& decimal::sub_exact(after, fee)
            &&& decimal::add_exact(fee, (0int, 0nat))
            &&& decimal::add_exact(r1, (0int, 0nat))
            &&& decimal::add_exact(r2, (0int, 0nat))
            &&& decimal::add_exact(r3, inflow_spread(amount, rate.usdc_to_local@, fx_bps))
        }),
    ensures
        contribution_settlement(amount, currency, Some(rate), fx_bps, platform_bps) is Some,
        ({
            let v = contribution_settlement(amount, currency, Some(rate), fx_bps, platform_bps)->0;
            let ur = decimal::units(rate.usdc_to_local@);
            &&& v.local_input.amount == amount && v.local_input.currency == currency
            &&& (decimal::units(v.usdc_settled) + decimal::units(v.chipin_revenue)) * ur
                == decimal::units(amount) * decimal::pow10(28)
            &&& decimal::units(v.usdc_settled) * 100000000 * ur == decimal::units(amount)
                * decimal::pow10(28) * (10000 - fx_bps) * (10000 - platform_bps)
            &&& v.partner_revenue.0 == 0 && v.is_in_yield
        }),
{
    let rho = rate.usdc_to_local@;
    lemma_inflow_units(amount, rho, fx_bps);
    let after = inflow_after_spread(amount, rho, fx_bps);
    lemma_fee_units(after, platform_bps);
    decimal::lemma_units_zero((0int, 0nat));
    let fee = decimal::decimal_mul(after, crate::config::bps_rate(platform_bps))->0;
    let net = decimal::decimal_sub(after, fee)->0;
    let v = contribution_settlement(amount, currency, Some(rate), fx_bps, platform_bps)->0;
    let ua = decimal::units(after);
    let uf = decimal::units(fee);
    let un = decimal::units(net);
    let ug = decimal::units(inflow_gross(amount, rho));
    let us = decimal::units(inflow_spread(amount, rho, fx_bps));
    let uc = decimal::units(v.chipin_revenue);
    let ur = decimal::units(rho);
    let um = decimal::units(amount);
    let pw = decimal::pow10(28);
    let f = fx_bps as int;
    let b = platform_bps as int;
    assert(un + uc == ug);
    assert((un + uc) * ur == um * pw) by (nonlinear_arith)
        requires
            un + uc == ug,
            ug * ur == um * pw,
    ;
    assert(un * 100000000 * ur == um * pw * (10000 - f) * (10000 - b)) by (nonlinear_arith)
        requires
            un == ua - uf,
            uf * 10000 == ua * b,
            ua * 10000 * ur == um * pw * (10000 - f),
    ;
}

/// A bulk market order in a local currency: where rust_decimal computes every step
/// exactly, the USDC worth of the amount is split between the pool, the platform and
/// the partner; the partner gets its cut of what is left after the spread, and the
/// pool gets that less both fees:
/// settled * rate = amount * (1 - spread rate) * (1 - fee rate - partner rate).
pub proof fn law_market_order_splits_its_worth(
    amount: (int, nat),
    currency: SupportedCurrency,
    rate: ExchangeRate,
    fx_bps: u32,
    platform_bps: u32,
    partner_bps: u32,
)
    requires
        currency != SupportedCurrency::USDC,
        inflow_steps_exact(amount, rate.usdc_to_local@, fx_bps),
        ({
            let after = inflow_after_spread(amount, rate.usdc_to_local@, fx_bps);
            let platform = decimal::decimal_mul(after, crate::config::bps_rate(platform_bps))->0;
            let partner = decimal::decimal_mul(after, crate::config::bps_rate(partner_bps))->0;
            &&& decimal::mul_exact(after, crate::config::bps_rate(platform_bps))
            &&& decimal::mul_exact(after, crate::config::bps_rate(partner_bps))
            &&& decimal::add_exact(platform, partner)
            &&& decimal::sub_exact(after, decimal::decimal_add(platform, partner)->0)
            &&& decimal::add_exact(platform, inflow_spread(amount, rate.usdc_to_local@, fx_bps))
        }),
    ensures
        market_order_settlement(amount, currency, Some(rate), fx_bps, platform_bps, partner_bps)
            is Some,
        ({
            let v = market_order_settlement(
                amount,
                currency,
                Some(rate),
                fx_bps,
                platform_bps,
                partner_bps,
            )->0;
            let ur = decimal::units(rate.usdc_to_local@);
            let worth = decimal::units(amount) * decimal::pow10(28);
            &&& v.local_input.amount == amount && v.local_input.currency == currency
            &&& (decimal::units(v.usdc_settled) + decimal::units(v.chipin_revenue) + decimal::units(
                v.partner_revenue,
            )) * ur == worth
            &&& decimal::units(v.usdc_settled) * 100000000 * ur == worth * (10000 - fx_bps) * (10000
                - platform_bps - partner_bps)
            &&& decimal::units(v.partner_revenue) * 100000000 * ur == worth * (10000 - fx_bps)
                * partner_bps
            &&& !v.is_in_yield
        }),
{
    let rho = rate.usdc_to_local@;
    lemma_inflow_units(amount, rho, fx_bps);
    let after = inflow_after_spread(amount, rho, fx_bps);
    lemma_fee_units(after, platform_bps);
    lemma_fee_units(after, partner_bps);
    let v = market_order_settlement(amount, currency, Some(rate), fx_bps, platform_bps, partner_bps)->0;
    let platform = decimal::decimal_mul(after, crate::config::bps_rate(platform_bps))->0;
    let partner = decimal::decimal_mul(after, crate::config::bps_rate(partner_bps))->0;
    let ua = decimal::units(after);
    let upf = decimal::units(platform);
    let upc = decimal::units(partner);
    let un = decimal::units(v.usdc_settled);
    let uc = decimal::units(v.chipin_revenue);
    let ug = decimal::units(inflow_gross(amount, rho));
    let us = decimal::units(inflow_spread(amount, rho, fx_bps));
    let ur = decimal::units(rho);
    let um = decimal::units(amount);
    let pw = decimal::pow10(28);
    let f = fx_bps as int;
    let a = platform_bps as int;
    let b = partner_bps as int;
    assert(un == ua - (upf + upc));
    assert(uc == upf + us);
    assert((un + uc + upc) * ur == um * pw) by (nonlinear_arith)
        requires
            un == ua - (upf + upc),
            uc == upf + us,
            ua + us == ug,
            ug * ur == um * pw,
    ;
    assert(un * 100000000 * ur == um * pw * (10000 - f) * (10000 - a - b)) by (nonlinear_arith)
        requires
            un == ua - (upf + upc),
            upf * 10000 == ua * a,
            upc * 10000 == ua * b,
            ua * 10000 * ur == um * pw * (10000 - f),
    ;
    assert(upc * 100000000 * ur == um * pw * (10000 - f) * b) by (nonlinear_arith)
        requires
            upc * 10000 == ua * b,
            ua * 10000 * ur == um * pw * (10000 - f),
    ;
}

} // verus!
