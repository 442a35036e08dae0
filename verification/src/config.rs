//! Settings of the finance engine: where its services are, and the fee rates.

use vstd::prelude::*;
use crate::decimal::{self, Decimal};
use crate::text::{parse_u32, parse_u32_spec, parse_u64, parse_u64_spec, str_equals, string_of};

verus! {

#[derive(Debug, Clone)]
pub struct Config {
    pub host: String,
    pub port: u16,
    pub app_env: String,
    pub redis_url: String,
    pub chainlink_rpc_url: String,
    pub coingecko_api_key: String,
    pub rate_refresh_interval: u64,
    pub usdc_contract_address: String,
    pub settlement_network: String,
    pub settlement_wallet_address: String,
    pub settlement_wallet_key: String,
    pub aave_pool_address: String,
    pub aave_data_provider: String,
    pub minimum_yield_apy_pct: Decimal,
    /// Fees, in basis points.
    pub platform_fee_bps: u32,
    pub yield_performance_fee_bps: u32,
    pub withdrawal_fee_bps: u32,
    pub fx_spread_bps: u32,
    pub partner_cut_bps: u32,
}

/// The multiplier that `bps` basis points stand for: bps / 10^4.
pub open spec fn bps_rate(bps: u32) -> (int, nat) {
    (bps as int, 4nat)
}

impl Config {
    pub fn is_production(&self) -> (r: bool)
        ensures
            r == (self.app_env@ == "production"@),
    {
        str_equals(self.app_env.as_str(), "production")
    }

    /// Basis points as a decimal multiplier: 50 bps is 0.0050.
    pub fn bps_to_decimal(bps: u32) -> (r: Decimal)
        ensures
            r@ == bps_rate(bps),
    {
        Decimal::new(bps as i64, 4)
    }
}


/// The settings' variables as the environment holds them: each one's text, or
/// `None` when it is unset.
#[derive(Debug, Clone)]
pub struct EnvSettings {
    pub host: Option<String>,
    pub port: Option<String>,
    pub app_env: Option<String>,
    pub redis_url: Option<String>,
    pub chainlink_rpc_url: Option<String>,
    pub coingecko_api_key: Option<String>,
    pub rate_refresh_interval: Option<String>,
    pub usdc_contract_address: Option<String>,
    pub settlement_network: Option<String>,
    pub settlement_wallet_address: Option<String>,
    pub settlement_wallet_key: Option<String>,
    pub aave_pool_address: Option<String>,
    pub aave_data_provider: Option<String>,
    pub minimum_yield_apy_pct: Option<String>,
    pub platform_fee_bps: Option<String>,
    pub yield_performance_fee_bps: Option<String>,
    pub withdrawal_fee_bps: Option<String>,
    pub fx_spread_bps: Option<String>,
    pub partner_cut_bps: Option<String>,
}

/// Why the settings cannot be read.
#[derive(Debug, Clone, PartialEq, Eq)]
pub enum ConfigError {
    /// A required variable (its name) is unset.
    Missing(String),
    /// A variable (its name) does not hold a value of its kind.
    Invalid(String),
}

/// A variable's text, or `d` when it is unset.
pub open spec fn env_text(v: Option<String>, d: Seq<char>) -> Seq<char> {
    match v {
        Some(x) => x@,
        None => d,
    }
}

/// What `str::parse::<u16>` reads.
pub open spec fn parse_u16_spec(s: Seq<char>) -> Option<u16> {
    match parse_u64_spec(s) {
        Some(n) => if n <= 0xffff {
            Some(n as u16)
        } else {
            None
        },
        None => None,
    }
}

/// The first problem with the settings, in the order they are read: its variable's
/// name, and whether it is missing (else invalid).
pub open spec fn config_problem(v: EnvSettings) -> Option<(bool, Seq<char>)> {
    if parse_u16_spec(env_text(v.port, "60051"@)) is None {
        Some((false, "BIGFINANCE_PORT"@))
    } else if v.redis_url is None {
        Some((true, "REDIS_URL"@))
    } else if parse_u64_spec(env_text(v.rate_refresh_interval, "60"@)) is None {
        Some((false, "RATE_REFRESH_INTERVAL"@))
    } else if decimal::decimal_parse(env_text(v.minimum_yield_apy_pct, "3.5"@)) is None {
        Some((false, "MINIMUM_YIELD_APY_PCT"@))
    } else if parse_u32_spec(env_text(v.platform_fee_bps, "50"@)) is None {
        Some((false, "PLATFORM_FEE_BPS"@))
    } else if parse_u32_spec(env_text(v.yield_performance_fee_bps, "1000"@)) is None {
        Some((false, "YIELD_PERFORMANCE_FEE_BPS"@))
    } else if parse_u32_spec(env_text(v.withdrawal_fee_bps, "25"@)) is None {
        Some((false, "WITHDRAWAL_FEE_BPS"@))
    } else if parse_u32_spec(env_text(v.fx_spread_bps, "30"@)) is None {
        Some((false, "FX_SPREAD_BPS"@))
    } else if parse_u32_spec(env_text(v.partner_cut_bps, "100"@)) is None {
        Some((false, "PARTNER_CUT_BPS"@))
    } else {
        None
    }
}

/// The settings read from the variables, with their defaults: host `0.0.0.0`,
/// port 60051, environment `development`, refresh every 60 s, network `polygon`,
/// a minimum APY of 3.5%, and fees of 50, 1000, 25, 30 and 100 basis points
/// (platform, yield performance, withdrawal, FX spread, partner cut).
pub open spec fn config_from(v: EnvSettings, c: Config) -> bool {
    &&& c.host@ == env_text(v.host, "0.0.0.0"@)
    &&& Some(c.port) == parse_u16_spec(env_text(v.port, "60051"@))
    &&& c.app_env@ == env_text(v.app_env, "development"@)
    &&& c.redis_url@ == env_text(v.redis_url, Seq::empty())
    &&& c.chainlink_rpc_url@ == env_text(v.chainlink_rpc_url, Seq::empty())
    &&& c.coingecko_api_key@ == env_text(v.coingecko_api_key, Seq::empty())
    &&& Some(c.rate_refresh_interval) == parse_u64_spec(env_text(v.rate_refresh_interval, "60"@))
    &&& c.usdc_contract_address@ == env_text(v.usdc_contract_address, Seq::empty())
    &&& c.settlement_network@ == env_text(v.settlement_network, "polygon"@)
    &&& c.settlement_wallet_address@ == env_text(v.settlement_wallet_address, Seq::empty())
    &&& c.settlement_wallet_key@ == env_text(v.settlement_wallet_key, Seq::empty())
    &&& c.aave_pool_address@ == env_text(v.aave_pool_address, Seq::empty())
    &&& c.aave_data_provider@ == env_text(v.aave_data_provider, Seq::empty())
    &&& decimal::decimal_parse(env_text(v.minimum_yield_apy_pct, "3.5"@)) == Some(
        c.minimum_yield_apy_pct@,
    )
    &&& Some(c.platform_fee_bps) == parse_u32_spec(env_text(v.platform_fee_bps, "50"@))
    &&& Some(c.yield_performance_fee_bps) == parse_u32_spec(
        env_text(v.yield_performance_fee_bps, "1000"@),
    )
    &&& Some(c.withdrawal_fee_bps) == parse_u32_spec(env_text(v.withdrawal_fee_bps, "25"@))
    &&& Some(c.fx_spread_bps) == parse_u32_spec(env_text(v.fx_spread_bps, "30"@))
    &&& Some(c.partner_cut_bps) == parse_u32_spec(env_text(v.partner_cut_bps, "100"@))
}

fn text_or(v: &Option<String>, d: &str) -> (r: String)
    ensures
        r@ == env_text(*v, d@),
{
    match v {
        Some(x) => x.clone(),
        None => string_of(d),
    }
}

fn u32_setting(v: &Option<String>, d: &str, name: &str) -> (r: Result<u32, ConfigError>)
    ensures
        parse_u32_spec(env_text(*v, d@)) matches Some(n) ==> r == Ok::<u32, ConfigError>(n),
        parse_u32_spec(env_text(*v, d@)) is None ==> (r matches Err(ConfigError::Invalid(x))
            && x@ == name@),
{
    let t = text_or(v, d);
    match parse_u32(t.as_str()) {
        Some(n) => Ok(n),
        None => Err(ConfigError::Invalid(string_of(name))),
    }
}

impl Config {
    /// The settings from their variables; the first unset required variable or
    /// unreadable value, in the order they are read, is the error.
    pub fn from_env_values(v: &EnvSettings) -> (r: Result<Config, ConfigError>)
        ensures
            config_problem(*v) matches Some((missing, name)) ==> (r matches Err(e) && if missing {
                e matches ConfigError::Missing(x) && x@ == name
            } else {
                e matches ConfigError::Invalid(x) && x@ == name
            }),
            config_problem(*v) is None ==> (r matches Ok(c) && config_from(*v, c)),
    {
        proof {
            reveal_strlit("");
            assert(""@ =~= Seq::<char>::empty());
        }
        let port_text = text_or(&v.port, "60051");
        let port = match parse_u64(port_text.as_str()) {
            Some(n) => if n <= 0xffff {
                n as u16
            } else {
                return Err(ConfigError::Invalid(string_of("BIGFINANCE_PORT")));
            },
            None => {
                return Err(ConfigError::Invalid(string_of("BIGFINANCE_PORT")));
            },
        };
        let redis_url = match &v.redis_url {
            Some(x) => x.clone(),
            None => {
                return Err(ConfigError::Missing(string_of("REDIS_URL")));
            },
        };
        let refresh_text = text_or(&v.rate_refresh_interval, "60");
        let rate_refresh_interval = match parse_u64(refresh_text.as_str()) {
            Some(n) => n,
            None => {
                return Err(ConfigError::Invalid(string_of("RATE_REFRESH_INTERVAL")));
            },
        };
        let apy_text = text_or(&v.minimum_yield_apy_pct, "3.5");
        let minimum_yield_apy_pct = match Decimal::parse(apy_text.as_str()) {
            Some(d) => d,
            None => {
                return Err(ConfigError::Invalid(string_of("MINIMUM_YIELD_APY_PCT")));
            },
        };
        let platform_fee_bps = match u32_setting(&v.platform_fee_bps, "50", "PLATFORM_FEE_BPS") {
            Ok(n) => n,
            Err(e) => {
                return Err(e);
            },
        };
        let yield_performance_fee_bps = match u32_setting(
            &v.yield_performance_fee_bps,
            "1000",
            "YIELD_PERFORMANCE_FEE_BPS",
        ) {
            Ok(n) => n,
            Err(e) => {
                return Err(e);
            },
        };
        let withdrawal_fee_bps = match u32_setting(
            &v.withdrawal_fee_bps,
            "25",
            "WITHDRAWAL_FEE_BPS",
        ) {
            Ok(n) => n,
            Err(e) => {
                return Err(e);
            },
        };
        let fx_spread_bps = match u32_setting(&v.fx_spread_bps, "30", "FX_SPREAD_BPS") {
            Ok(n) => n,
            Err(e) => {
                return Err(e);
            },
        };
        let partner_cut_bps = match u32_setting(&v.partner_cut_bps, "100", "PARTNER_CUT_BPS") {
            Ok(n) => n,
            Err(e) => {
                return Err(e);
            },
        };
        Ok(
            Config {
                host: text_or(&v.host, "0.0.0.0"),
                port,
                app_env: text_or(&v.app_env, "development"),
                redis_url,
                chainlink_rpc_url: text_or(&v.chainlink_rpc_url, ""),
                coingecko_api_key: text_or(&v.coingecko_api_key, ""),
                rate_refresh_interval,
                usdc_contract_address: text_or(&v.usdc_contract_address, ""),
                settlement_network: text_or(&v.settlement_network, "polygon"),
                settlement_wallet_address: text_or(&v.settlement_wallet_address, ""),
                settlement_wallet_key: text_or(&v.settlement_wallet_key, ""),
                aave_pool_address: text_or(&v.aave_pool_address, ""),
                aave_data_provider: text_or(&v.aave_data_provider, ""),
                minimum_yield_apy_pct,
                platform_fee_bps,
                yield_performance_fee_bps,
                withdrawal_fee_bps,
                fx_spread_bps,
                partner_cut_bps,
            },
        )
    }
}

} // verus!
