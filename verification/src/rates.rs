//! Exchange rates: 1 USDC is worth `usdc_to_local` units of a local currency.

use vstd::prelude::*;
use crate::clock::Timestamp;
use crate::currency::{self, SupportedCurrency};
use crate::decimal::Decimal;
use crate::text::concat2;

verus! {

/// Where a rate came from.
#[derive(Debug, Clone, Copy, PartialEq, Eq, Structural)]
pub enum RateSource {
    /// On-chain oracle, preferred.
    Chainlink,
    /// REST fallback.
    CoinGecko,
    /// Development and testing only; never in production.
    Hardcoded,
}

#[derive(Debug, Clone, Copy)]
pub struct ExchangeRate {
    /// 1 USDC is this many units of the local currency.
    pub usdc_to_local: Decimal,
    /// 1 unit of the local currency is this many USDC.
    pub local_to_usdc: Decimal,
    pub currency: SupportedCurrency,
    pub fetched_at: Timestamp,
    pub source: RateSource,
}

/// How long a cached rate stays valid, in seconds.
pub const RATE_TTL_SECONDS: u64 = 120;

/// The cache key of a currency's rate: `bigfinance:rate:{code}`.
pub fn rate_key(currency: &SupportedCurrency) -> (r: String)
    ensures
        r@ == "bigfinance:rate:"@ + currency::code_spec(*currency),
{
    concat2("bigfinance:rate:", currency.code())
}

/// The currencies whose rates are cached, in the order they are read.
pub open spec fn cached_currencies() -> Seq<SupportedCurrency> {
    seq![
        SupportedCurrency::ZAR,
        SupportedCurrency::NGN,
        SupportedCurrency::KES,
        SupportedCurrency::GHS,
        SupportedCurrency::INR,
        SupportedCurrency::PHP,
        SupportedCurrency::MXN,
        SupportedCurrency::BRL,
        SupportedCurrency::EGP,
        SupportedCurrency::USD,
        SupportedCurrency::EUR,
        SupportedCurrency::GBP,
    ]
}

pub fn all_supported_currencies() -> (r: Vec<SupportedCurrency>)
    ensures
        r@ == cached_currencies(),
{
    vec![
        SupportedCurrency::ZAR,
        SupportedCurrency::NGN,
        SupportedCurrency::KES,
        SupportedCurrency::GHS,
        SupportedCurrency::INR,
        SupportedCurrency::PHP,
        SupportedCurrency::MXN,
        SupportedCurrency::BRL,
        SupportedCurrency::EGP,
        SupportedCurrency::USD,
        SupportedCurrency::EUR,
        SupportedCurrency::GBP,
    ]
}

} // verus!
