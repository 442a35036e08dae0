//! Price oracles: where live USDC/local rates come from.
//!
//! Primary: Chainlink on-chain feeds. Fallback: the CoinGecko REST API.
//! Development: hard-coded rates, which are never used in production.

use vstd::prelude::*;
use crate::clock::Timestamp;
use crate::config::Config;
use crate::currency::{self, SupportedCurrency};
use crate::decimal::{self, Decimal};
use crate::rates::{ExchangeRate, RateSource};
use crate::text::concat2;

verus! {

/// Why an oracle gave no rate.
#[derive(Debug, Clone, PartialEq, Eq)]
pub enum OracleError {
    /// No Chainlink feed is known for the currency (its code).
    NoChainlinkFeed(String),
    /// The Chainlink integration is not available yet; use the CoinGecko fallback.
    ChainlinkNotIntegrated,
    /// No CoinGecko mapping is known for the currency (its code).
    NoCoinGeckoMapping(String),
    /// The CoinGecko answer has no rate for the currency (its CoinGecko id).
    CoinGeckoMissingRate(String),
    /// The rate text is not a decimal number, or is zero.
    InvalidRate,
    /// Every source failed in production (the currency's code).
    AllSourcesFailed(String),
}

/// Currencies with a Chainlink feed on Polygon.
pub open spec fn has_chainlink_feed(c: SupportedCurrency) -> bool {
    c == SupportedCurrency::ZAR || c == SupportedCurrency::NGN || c == SupportedCurrency::KES
        || c == SupportedCurrency::INR || c == SupportedCurrency::MXN || c == SupportedCurrency::EGP
        || c == SupportedCurrency::EUR || c == SupportedCurrency::GBP
}

/// The Chainlink feed address of a currency (placeholders until real addresses are known).
pub fn feed_address(currency: &SupportedCurrency) -> (r: Option<&'static str>)
    ensures
        r is Some <==> has_chainlink_feed(*currency),
        r matches Some(a) ==> a@ == "0x..."@,
{
    match currency {
        SupportedCurrency::ZAR => Some("0x..."),
        SupportedCurrency::NGN => Some("0x..."),
        SupportedCurrency::KES => Some("0x..."),
        SupportedCurrency::INR => Some("0x..."),
        SupportedCurrency::MXN => Some("0x..."),
        SupportedCurrency::EGP => Some("0x..."),
        SupportedCurrency::EUR => Some("0x..."),
        SupportedCurrency::GBP => Some("0x..."),
        _ => None,
    }
}

/// Fetches a rate from Chainlink. The on-chain call is not integrated yet, so this
/// always fails: with `NoChainlinkFeed` for a currency without a feed, and with
/// `ChainlinkNotIntegrated` otherwise.
pub fn chainlink_fetch(currency: &SupportedCurrency, config: &Config) -> (r: Result<
    ExchangeRate,
    OracleError,
>)
    ensures
        !has_chainlink_feed(*currency) ==> (r matches Err(OracleError::NoChainlinkFeed(code))
            && code@ == currency::code_spec(*currency)),
        has_chainlink_feed(*currency) ==> r matches Err(OracleError::ChainlinkNotIntegrated),
{
    match feed_address(currency) {
        None => Err(OracleError::NoChainlinkFeed(String::from_str(currency.code()))),
        Some(_) => Err(OracleError::ChainlinkNotIntegrated),
    }
}

/// The CoinGecko id of a currency.
pub open spec fn coingecko_id(c: SupportedCurrency) -> Option<Seq<char>> {
    match c {
        SupportedCurrency::ZAR => Some("zar"@),
        SupportedCurrency::NGN => Some("ngn"@),
        SupportedCurrency::KES => Some("kes"@),
        SupportedCurrency::GHS => Some("ghs"@),
        SupportedCurrency::INR => Some("inr"@),
        SupportedCurrency::PHP => Some("php"@),
        SupportedCurrency::MXN => Some("mxn"@),
        SupportedCurrency::BRL => Some("brl"@),
        SupportedCurrency::EGP => Some("egp"@),
        SupportedCurrency::USD => Some("usd"@),
        SupportedCurrency::EUR => Some("eur"@),
        SupportedCurrency::GBP => Some("gbp"@),
        _ => None,
    }
}

/// The CoinGecko id used to ask for a currency's price.
pub fn coingecko_vs_currency(currency: &SupportedCurrency) -> (r: Option<&'static str>)
    ensures
        r is Some <==> coingecko_id(*currency) is Some,
        r matches Some(s) ==> coingecko_id(*currency) == Some(s@),
{
    match currency {
        SupportedCurrency::ZAR => Some("zar"),
        SupportedCurrency::NGN => Some("ngn"),
        SupportedCurrency::KES => Some("kes"),
        SupportedCurrency::GHS => Some("ghs"),
        SupportedCurrency::INR => Some("inr"),
        SupportedCurrency::PHP => Some("php"),
        SupportedCurrency::MXN => Some("mxn"),
        SupportedCurrency::BRL => Some("brl"),
        SupportedCurrency::EGP => Some("egp"),
        SupportedCurrency::USD => Some("usd"),
        SupportedCurrency::EUR => Some("eur"),
        SupportedCurrency::GBP => Some("gbp"),
        _ => None,
    }
}

/// The CoinGecko query for a currency: its id and the request URL; or the error
/// for a currency CoinGecko does not price.
pub fn coingecko_request(currency: &SupportedCurrency) -> (r: Result<
    (&'static str, String),
    OracleError,
>)
    ensures
        coingecko_id(*currency) is None ==> (r matches Err(OracleError::NoCoinGeckoMapping(code))
            && code@ == currency::code_spec(*currency)),
        coingecko_id(*currency) matches Some(id) ==> (r matches Ok((vs, url)) && vs@ == id && url@
            == "https://api.coingecko.com/api/v3/simple/price?ids=usd-coin&vs_currencies="@ + id),
{
    match coingecko_vs_currency(currency) {
        None => Err(OracleError::NoCoinGeckoMapping(String::from_str(currency.code()))),
        Some(vs) => Ok(
            (
                vs,
                concat2(
                    "https://api.coingecko.com/api/v3/simple/price?ids=usd-coin&vs_currencies=",
                    vs,
                ),
            ),
        ),
    }
}

/// The rate built from the text of CoinGecko's price: the price is how many units
/// of the local currency one USDC buys, and its inverse is the other direction.
pub fn coingecko_rate(currency: &SupportedCurrency, price_text: &str, fetched_at: Timestamp) -> (r:
    Result<ExchangeRate, OracleError>)
    ensures
        match decimal::decimal_parse(price_text@) {
            None => r matches Err(OracleError::InvalidRate),
            Some(p) => match decimal::decimal_div((1int, 0nat), p) {
                None => r matches Err(OracleError::InvalidRate),
                Some(inv) => (r matches Ok(rate) && rate.usdc_to_local@ == p && rate.local_to_usdc@
                    == inv && rate.currency == *currency && rate.fetched_at == fetched_at
                    && rate.source == RateSource::CoinGecko),
            },
        },
{
    match Decimal::parse(price_text) {
        None => Err(OracleError::InvalidRate),
        Some(usdc_to_local) => match Decimal::new(1, 0).checked_div(&usdc_to_local) {
            None => Err(OracleError::InvalidRate),
            Some(local_to_usdc) => Ok(
                ExchangeRate {
                    usdc_to_local,
                    local_to_usdc,
                    currency: *currency,
                    fetched_at,
                    source: RateSource::CoinGecko,
                },
            ),
        },
    }
}

/// The hard-coded development rate of a currency (1 USDC in local units).
pub open spec fn dev_usdc_to_local(c: SupportedCurrency) -> (int, nat) {
    match c {
        SupportedCurrency::ZAR => (1850int, 2nat),
        SupportedCurrency::NGN => (16500int, 1nat),
        SupportedCurrency::KES => (1300int, 1nat),
        SupportedCurrency::GHS => (1550int, 2nat),
        SupportedCurrency::INR => (8350int, 2nat),
        SupportedCurrency::PHP => (5650int, 2nat),
        SupportedCurrency::MXN => (1720int, 2nat),
        SupportedCurrency::BRL => (505int, 2nat),
        SupportedCurrency::EGP => (4850int, 2nat),
        SupportedCurrency::USD => (10int, 1nat),
        SupportedCurrency::EUR => (92int, 2nat),
        SupportedCurrency::GBP => (79int, 2nat),
        _ => (10int, 1nat),
    }
}

proof fn lemma_inverse_is_small(v: (int, nat))
    requires
        v.0 >= 1,
        v.1 <= 28,
    ensures
        decimal::quotient_small((1int, 0nat), v),
{
    decimal::lemma_pow10_positive((28 - v.1) as nat);
    decimal::lemma_pow10_28();
    let u = decimal::units(v);
    assert(u >= 1) by (nonlinear_arith)
        requires
            u == v.0 * decimal::pow10((28 - v.1) as nat),
            v.0 >= 1,
            decimal::pow10((28 - v.1) as nat) >= 1,
    ;
    assert(u * decimal::MAX_MANTISSA >= decimal::MAX_MANTISSA) by (nonlinear_arith)
        requires
            u >= 1,
    ;
}

/// The development rate of a currency, stamped with `fetched_at`.
pub fn dev_rate_at(currency: &SupportedCurrency, fetched_at: Timestamp) -> (r: ExchangeRate)
    ensures
        r.usdc_to_local@ == dev_usdc_to_local(*currency),
        decimal::decimal_div((1int, 0nat), dev_usdc_to_local(*currency)) == Some(r.local_to_usdc@),
        r.currency == *currency,
        r.fetched_at == fetched_at,
        r.source == RateSource::Hardcoded,
{
    let usdc_to_local = match currency {
        SupportedCurrency::ZAR => Decimal::new(1850, 2),
        SupportedCurrency::NGN => Decimal::new(16500, 1),
        SupportedCurrency::KES => Decimal::new(1300, 1),
        SupportedCurrency::GHS => Decimal::new(1550, 2),
        SupportedCurrency::INR => Decimal::new(8350, 2),
        SupportedCurrency::PHP => Decimal::new(5650, 2),
        SupportedCurrency::MXN => Decimal::new(1720, 2),
        SupportedCurrency::BRL => Decimal::new(505, 2),
        SupportedCurrency::EGP => Decimal::new(4850, 2),
        SupportedCurrency::USD => Decimal::new(10, 1),
        SupportedCurrency::EUR => Decimal::new(92, 2),
        SupportedCurrency::GBP => Decimal::new(79, 2),
        _ => Decimal::new(10, 1),
    };
    proof {
        lemma_inverse_is_small(usdc_to_local@);
    }
    let local_to_usdc = Decimal::new(1, 0).div(&usdc_to_local);
    ExchangeRate {
        usdc_to_local,
        local_to_usdc,
        currency: *currency,
        fetched_at,
        source: RateSource::Hardcoded,
    }
}

/// The development rate of a currency, stamped with the current time.
pub fn dev_rate(currency: &SupportedCurrency) -> (r: ExchangeRate)
    ensures
        r.usdc_to_local@ == dev_usdc_to_local(*currency),
        decimal::decimal_div((1int, 0nat), dev_usdc_to_local(*currency)) == Some(r.local_to_usdc@),
        r.currency == *currency,
        r.source == RateSource::Hardcoded,
{
    dev_rate_at(currency, Timestamp::now())
}

/// A live source of rates.
#[derive(Debug, Clone, Copy, PartialEq, Eq, Structural)]
pub enum OracleSource {
    Chainlink,
    CoinGecko,
}

/// What to do next while looking for a rate.
#[derive(Debug, Clone, Copy, PartialEq, Eq, Structural)]
pub enum OracleStep {
    /// Ask this source; on failure, call `oracle_step_after_failure`.
    Fetch(OracleSource),
    /// Use the hard-coded development rate.
    UseDevRate,
    /// Give up: every source failed in production.
    Fail,
}

/// The settings that decide which sources are tried.
pub open spec fn chainlink_enabled(c: Config) -> bool {
    c.chainlink_rpc_url@.len() != 0 && c.app_env@ == "production"@
}

pub open spec fn coingecko_enabled(c: Config) -> bool {
    c.coingecko_api_key@.len() != 0
}

/// Where the search goes once the live sources before it are out.
pub open spec fn fallback_step(c: Config) -> OracleStep {
    if c.app_env@ == "production"@ {
        OracleStep::Fail
    } else {
        OracleStep::UseDevRate
    }
}

pub open spec fn first_step_spec(c: Config) -> OracleStep {
    if chainlink_enabled(c) {
        OracleStep::Fetch(OracleSource::Chainlink)
    } else if coingecko_enabled(c) {
        OracleStep::Fetch(OracleSource::CoinGecko)
    } else {
        fallback_step(c)
    }
}

pub open spec fn step_after_failure_spec(c: Config, failed: OracleSource) -> OracleStep {
    match failed {
        OracleSource::Chainlink => if coingecko_enabled(c) {
            OracleStep::Fetch(OracleSource::CoinGecko)
        } else {
            fallback_step(c)
        },
        OracleSource::CoinGecko => fallback_step(c),
    }
}

/// The first step of a rate lookup: Chainlink in production when an RPC URL is set,
/// else CoinGecko when an API key is set, else the development rate outside
/// production.
pub fn first_oracle_step(config: &Config) -> (r: OracleStep)
    ensures
        r == first_step_spec(*config),
{
    if !config.chainlink_rpc_url.as_str().is_empty() && config.is_production() {
        OracleStep::Fetch(OracleSource::Chainlink)
    } else if !config.coingecko_api_key.as_str().is_empty() {
        OracleStep::Fetch(OracleSource::CoinGecko)
    } else if config.is_production() {
        OracleStep::Fail
    } else {
        OracleStep::UseDevRate
    }
}

/// The step after `failed` gave no rate.
pub fn oracle_step_after_failure(config: &Config, failed: OracleSource) -> (r: OracleStep)
    ensures
        r == step_after_failure_spec(*config, failed),
{
    match failed {
        OracleSource::Chainlink => {
            if !config.coingecko_api_key.as_str().is_empty() {
                OracleStep::Fetch(OracleSource::CoinGecko)
            } else if config.is_production() {
                OracleStep::Fail
            } else {
                OracleStep::UseDevRate
            }
        },
        OracleSource::CoinGecko => {
            if config.is_production() {
                OracleStep::Fail
            } else {
                OracleStep::UseDevRate
            }
        },
    }
}

/// The error when every source failed in production.
pub fn all_sources_failed(currency: &SupportedCurrency) -> (r: OracleError)
    ensures
        r matches OracleError::AllSourcesFailed(code) && code@ == currency::code_spec(*currency),
{
    OracleError::AllSourcesFailed(String::from_str(currency.code()))
}

/// Hard-coded development rates are never used in production: whatever step a
/// lookup is at, it never chooses the development rate when the environment is
/// production.
pub proof fn law_no_dev_rate_in_production(c: Config, failed: OracleSource)
    requires
        c.app_env@ == "production"@,
    ensures
        first_step_spec(c) != OracleStep::UseDevRate,
        step_after_failure_spec(c, failed) != OracleStep::UseDevRate,
{
}

/// Chainlink is asked first only in production, and a failed source is never asked
/// again: after CoinGecko fails, only the end of the search remains.
pub proof fn law_sources_in_order(c: Config)
    ensures
        first_step_spec(c) == OracleStep::Fetch(OracleSource::Chainlink) ==> c.app_env@
            == "production"@,
        step_after_failure_spec(c, OracleSource::CoinGecko) == fallback_step(c),
        step_after_failure_spec(c, OracleSource::Chainlink) != OracleStep::Fetch(
            OracleSource::Chainlink,
        ),
{
}

/// Where a rate comes from first, read off the configuration: Chainlink exactly
/// when an RPC URL is set in production; otherwise CoinGecko whenever an API key is
/// set, in production as in development; with neither, the hard-coded rates outside
/// production and a failure in production.
pub proof fn law_first_source(c: Config)
    ensures
        (first_step_spec(c) == OracleStep::Fetch(OracleSource::Chainlink)) <==> (
        c.chainlink_rpc_url@.len() != 0 && c.app_env@ == "production"@),
        !(c.chainlink_rpc_url@.len() != 0 && c.app_env@ == "production"@)
            && c.coingecko_api_key@.len() != 0 ==> first_step_spec(c) == OracleStep::Fetch(
            OracleSource::CoinGecko,
        ),
        !(c.chainlink_rpc_url@.len() != 0 && c.app_env@ == "production"@)
            && c.coingecko_api_key@.len() == 0 && c.app_env@ == "production"@ ==> first_step_spec(c)
            == OracleStep::Fail,
        !(c.chainlink_rpc_url@.len() != 0 && c.app_env@ == "production"@)
            && c.coingecko_api_key@.len() == 0 && c.app_env@ != "production"@ ==> first_step_spec(c)
            == OracleStep::UseDevRate,
{
}

/// After a source fails: a failed Chainlink falls back to CoinGecko whenever an API
/// key is set; after that, production gives up and development uses the
/// hard-coded rates.
pub proof fn law_fallback_order(c: Config)
    ensures
        c.coingecko_api_key@.len() != 0 ==> step_after_failure_spec(c, OracleSource::Chainlink)
            == OracleStep::Fetch(OracleSource::CoinGecko),
        c.coingecko_api_key@.len() == 0 && c.app_env@ == "production"@ ==> step_after_failure_spec(
            c,
            OracleSource::Chainlink,
        ) == OracleStep::Fail,
        c.app_env@ == "production"@ ==> step_after_failure_spec(c, OracleSource::CoinGecko)
            == OracleStep::Fail,
        c.app_env@ != "production"@ ==> step_after_failure_spec(c, OracleSource::CoinGecko)
            == OracleStep::UseDevRate,
{
}

} // verus!
