use chipin::aave::AaveClient;
use chipin::clock::Timestamp;
use chipin::config::{Config, ConfigError};
use chipin::converter::CurrencyConverter;
use chipin::currency::{Currency, SupportedCurrency};
use chipin::decimal::{self, Decimal};
use chipin::distributor::YieldDistributor;
use chipin::fees::FeeCalculator;
use chipin::oracle::{
    self, chainlink_fetch, coingecko_rate, coingecko_request, dev_rate, OracleError, OracleSource,
    OracleStep,
};
use chipin::pipeline::{
    ContributionPipeline, ContributionRequest, MarketOrderPipeline, MarketOrderRequest, PayoutPipeline,
    PayoutRequest, WithdrawalPipeline, WithdrawalRequest,
};
use chipin::rates::{all_supported_currencies, rate_key, RateSource};
use chipin::revenue::{RevenueRecorder, RevenueStream};
use chipin::yield_tracker::{MemberContributions, PoolYieldSnapshot, YieldTracker};

fn config(env: &str, chainlink: &str, coingecko: &str) -> Config {
    Config {
        host: "0.0.0.0".into(),
        port: 60051,
        app_env: env.into(),
        redis_url: "redis://localhost".into(),
        chainlink_rpc_url: chainlink.into(),
        coingecko_api_key: coingecko.into(),
        rate_refresh_interval: 60,
        usdc_contract_address: "".into(),
        settlement_network: "polygon".into(),
        settlement_wallet_address: "".into(),
        settlement_wallet_key: "".into(),
        aave_pool_address: "".into(),
        aave_data_provider: "".into(),
        minimum_yield_apy_pct: Decimal::new(35, 1),
        platform_fee_bps: 50,
        yield_performance_fee_bps: 1000,
        withdrawal_fee_bps: 25,
        fx_spread_bps: 30,
        partner_cut_bps: 100,
    }
}

fn d(m: i64, s: u32) -> Decimal {
    Decimal::new(m, s)
}

#[test]
fn decimal_arithmetic_and_text() {
    assert_eq!(d(150, 2).add(&d(25, 1)), d(4, 0));
    assert_eq!(d(150, 2).sub(&d(25, 1)).to_string(), "-1.00");
    assert_eq!(d(15, 1).mul(&d(15, 1)).to_string(), "2.25");
    assert_eq!(d(1, 0).div(&d(4, 0)).to_string(), "0.25");
    assert_eq!(d(1, 0).checked_div(&Decimal::zero()), None);
    assert_eq!(d(125, 3).round_dp(2).to_string(), "0.12");
    assert_eq!(d(135, 3).round_dp(2).to_string(), "0.14");
    assert_eq!(Decimal::parse("18.50").map(|x| x.to_string()), Some("18.50".to_string()));
    assert_eq!(Decimal::parse("abc"), None);
    assert!(d(1, 1).lt(&d(2, 1)));
    assert!(d(10, 1).value_eq(&d(1, 0)));
    assert_eq!(d(-5, 1).abs(), d(5, 1));
    assert_eq!(decimal::sum(&vec![d(1, 1), d(2, 1), d(3, 1)]), d(6, 1));
    let max = Decimal::from_i128_with_scale(decimal::MAX_MANTISSA, 0);
    assert_eq!(max.checked_add(&d(1, 0)), None);
    assert_eq!(decimal::checked_sum(&vec![max, d(1, 0)]), None);
    assert_eq!(decimal::checked_sum(&vec![d(1, 1), d(2, 1)]), Some(d(3, 1)));
}

#[test]
fn currency_codes_and_formats() {
    assert_eq!(SupportedCurrency::ZAR.code(), "ZAR");
    assert_eq!(SupportedCurrency::ZAR.symbol(), "R");
    assert_eq!(SupportedCurrency::ZAR.decimals(), 2);
    assert_eq!(SupportedCurrency::ZAR.format(d(18505, 3)), "R18.50");
    assert_eq!(SupportedCurrency::from_code("zar"), Some(SupportedCurrency::ZAR));
    assert_eq!(SupportedCurrency::from_code("Usdc"), Some(SupportedCurrency::USDC));
    assert_eq!(SupportedCurrency::from_code("PHP"), None);
    assert_eq!(Currency::zar(d(1000, 0)).format(), "R1000");
    assert_eq!(Currency::zar(d(100050, 3)).format(), "R100.05");
    assert_eq!(rate_key(&SupportedCurrency::KES), "bigfinance:rate:KES");
    assert_eq!(all_supported_currencies().len(), 12);
}

#[test]
fn every_currency_has_its_own_code() {
    let all = [
        SupportedCurrency::USDC,
        SupportedCurrency::ZAR,
        SupportedCurrency::NGN,
        SupportedCurrency::KES,
        SupportedCurrency::GHS,
        SupportedCurrency::TZS,
        SupportedCurrency::UGX,
        SupportedCurrency::ZMW,
        SupportedCurrency::MWK,
        SupportedCurrency::BWP,
        SupportedCurrency::NAD,
        SupportedCurrency::INR,
        SupportedCurrency::PHP,
        SupportedCurrency::IDR,
        SupportedCurrency::VND,
        SupportedCurrency::BDT,
        SupportedCurrency::MXN,
        SupportedCurrency::BRL,
        SupportedCurrency::COP,
        SupportedCurrency::PEN,
        SupportedCurrency::CLP,
        SupportedCurrency::EGP,
        SupportedCurrency::MAD,
        SupportedCurrency::TND,
        SupportedCurrency::USD,
        SupportedCurrency::EUR,
        SupportedCurrency::GBP,
    ];
    for (i, c) in all.iter().enumerate() {
        let code = c.code();
        assert!(code.len() >= 3 && code.len() <= 4);
        assert!(code.chars().all(|ch| ch.is_ascii_uppercase()));
        assert_eq!(code, format!("{:?}", c));
        for d in all.iter().skip(i + 1) {
            assert_ne!(code, d.code());
        }
    }
}

#[test]
fn oracle_sources_and_rates() {
    let dev = config("development", "", "");
    assert_eq!(oracle::first_oracle_step(&dev), OracleStep::UseDevRate);
    let prod = config("production", "https://rpc", "key");
    assert_eq!(oracle::first_oracle_step(&prod), OracleStep::Fetch(OracleSource::Chainlink));
    assert_eq!(
        oracle::oracle_step_after_failure(&prod, OracleSource::Chainlink),
        OracleStep::Fetch(OracleSource::CoinGecko)
    );
    assert_eq!(oracle::oracle_step_after_failure(&prod, OracleSource::CoinGecko), OracleStep::Fail);
    assert_eq!(oracle::first_oracle_step(&config("production", "", "")), OracleStep::Fail);

    assert!(matches!(chainlink_fetch(&SupportedCurrency::ZAR, &prod), Err(OracleError::ChainlinkNotIntegrated)));
    assert!(matches!(chainlink_fetch(&SupportedCurrency::PHP, &prod), Err(OracleError::NoChainlinkFeed(c)) if c == "PHP"));
    let (vs, url) = coingecko_request(&SupportedCurrency::ZAR).unwrap();
    assert_eq!(vs, "zar");
    assert_eq!(url, "https://api.coingecko.com/api/v3/simple/price?ids=usd-coin&vs_currencies=zar");
    assert!(matches!(coingecko_request(&SupportedCurrency::TZS), Err(OracleError::NoCoinGeckoMapping(_))));

    let t = Timestamp { seconds: 1_700_000_000, nanos: 0 };
    let rate = coingecko_rate(&SupportedCurrency::ZAR, "20", t).unwrap();
    assert_eq!(rate.usdc_to_local, d(20, 0));
    assert_eq!(rate.local_to_usdc, d(5, 2));
    assert_eq!(rate.source, RateSource::CoinGecko);
    assert!(matches!(coingecko_rate(&SupportedCurrency::ZAR, "0", t), Err(OracleError::InvalidRate)));
    assert!(matches!(coingecko_rate(&SupportedCurrency::ZAR, "n/a", t), Err(OracleError::InvalidRate)));

    let zar = dev_rate(&SupportedCurrency::ZAR);
    assert_eq!(zar.usdc_to_local, d(1850, 2));
    assert_eq!(zar.source, RateSource::Hardcoded);
    assert!(matches!(oracle::all_sources_failed(&SupportedCurrency::ZAR), OracleError::AllSourcesFailed(c) if c == "ZAR"));
}

#[test]
fn conversions_keep_the_spread() {
    let conv = CurrencyConverter::new(config("development", "", ""));
    let rate = dev_rate(&SupportedCurrency::ZAR);
    // R185 at 18.50 is 10 USDC; a 0.3% spread keeps 0.03.
    let r = conv.local_to_usdc(d(185, 0), SupportedCurrency::ZAR, Some(&rate));
    assert_eq!(r.spread_revenue.amount, d(3, 2));
    assert_eq!(r.output.amount, d(997, 2));
    assert_eq!(r.output.amount.add(&r.spread_revenue.amount), d(10, 0));
    // 10 USDC out at 18.50: gross R185, spread 0.03 USDC = R0.555.
    let r = conv.usdc_to_local(d(10, 0), SupportedCurrency::ZAR, Some(&rate));
    assert_eq!(r.output.amount, d(184445, 3));
    assert_eq!(r.spread_revenue.amount, d(3, 2));
    // USDC passes through untouched.
    let r = conv.local_to_usdc(d(7, 0), SupportedCurrency::USDC, None);
    assert_eq!(r.output.amount, d(7, 0));
    assert_eq!(r.spread_revenue.amount, Decimal::zero());
    assert!(conv.checked_local_to_usdc(d(7, 0), SupportedCurrency::ZAR, None).is_none());
}

#[test]
fn fees_add_up() {
    let calc = FeeCalculator::new(config("development", "", ""));
    let w = calc.withdrawal(d(1000, 0));
    assert_eq!(w.withdrawal_fee, d(25, 1));
    assert_eq!(w.net.add(&w.total_fees), w.gross);
    let c = calc.contribution(d(200, 0));
    assert_eq!(c.platform_fee, d(1, 0));
    assert_eq!(c.summary(), "gross=200 net=199.0000 fees=1.0000 chipin_rev=1.0000 partner=0");
    // Sums and differences keep the larger scale.
    let m = calc.market_order(d(9762, 2));
    assert_eq!(m.total_fees.to_string(), "1.464300");
    assert_eq!(m.net.to_string(), "96.155700");
    let m = calc.market_order(d(100, 0));
    assert_eq!(m.partner_revenue(), d(1, 0));
    assert_eq!(m.chipin_revenue(), d(5, 1));
}

fn snapshot(earned: Decimal) -> PoolYieldSnapshot {
    PoolYieldSnapshot {
        pool_id: "pool".into(),
        principal_usdc: d(1000, 0),
        current_usdc: d(1000, 0).add(&earned),
        yield_earned_usdc: earned,
        apy: d(45, 3),
        snapshot_at: Timestamp { seconds: 0, nanos: 0 },
    }
}

#[test]
fn distribution_conserves_yield() {
    let mut members = MemberContributions::new();
    members.insert("a".into(), d(250, 0));
    members.insert("b".into(), d(750, 0));
    let plan = YieldDistributor::plan(&snapshot(d(40, 0)), &members, 1000);
    assert_eq!(plan.chipin_revenue, d(4, 0));
    assert_eq!(plan.total_distributed, d(36, 0));
    assert_eq!(plan.chipin_revenue.add(&plan.total_distributed), d(40, 0));
    assert!(plan.verify());
    assert_eq!(plan.shares.len(), 2);
    assert_eq!(YieldTracker::annualised_apy(d(1000, 0), d(45, 0), 365).round_dp(4), d(45, 1));
}

#[test]
fn revenue_recorder_totals() {
    let mut rec = RevenueRecorder::new();
    rec.record(RevenueStream::PlatformFee, d(5, 1), "ref1", Some("pool"), None);
    rec.record(RevenueStream::FxSpread, d(0, 0), "ref2", None, None); // ignored
    rec.record(RevenueStream::PartnerCut { retailer_id: "shoprite".into() }, d(-1, 0), "ref3", None, None); // ignored
    rec.record(RevenueStream::WithdrawalFee, d(25, 2), "ref4", None, Some("u1"));
    assert_eq!(rec.total(), d(75, 2));
    let drained = rec.drain();
    assert_eq!(drained.len(), 2);
    assert_eq!(drained[1].reference, "ref4");
    assert_eq!(rec.total(), Decimal::zero());
}

#[test]
fn pipelines_settle() {
    let cfg = config("development", "", "");
    let rate = dev_rate(&SupportedCurrency::ZAR);
    let contribution = ContributionPipeline {
        converter: CurrencyConverter::new(cfg.clone()),
        fees: FeeCalculator::new(cfg.clone()),
        aave: AaveClient::new(cfg.clone()),
        config: cfg.clone(),
    };
    let r = contribution.process(
        ContributionRequest { user_id: "u".into(), pool_id: "p".into(), amount: d(185, 0), currency: SupportedCurrency::ZAR },
        Some(&rate),
    );
    assert!(r.reference.starts_with("CONTRIB-"));
    assert_eq!(r.reference.len(), 44);
    // 9.97 USDC after the spread, less the 0.5% platform fee.
    assert_eq!(r.usdc_settled, d(9920150, 6));
    assert_eq!(r.chipin_revenue, d(79850, 6));
    assert_eq!(r.usdc_settled.add(&r.chipin_revenue), d(10, 0));
    assert!(r.is_in_yield);

    let market = MarketOrderPipeline {
        converter: CurrencyConverter::new(cfg.clone()),
        fees: FeeCalculator::new(cfg.clone()),
    };
    let r = market.process(
        MarketOrderRequest { pool_id: "p".into(), retailer_id: "shoprite".into(), amount: d(100, 0), currency: SupportedCurrency::USDC },
        None,
    );
    assert_eq!(r.partner_revenue, d(1, 0));
    assert_eq!(r.usdc_settled, d(985, 1));
    let r = market.process(
        MarketOrderRequest { pool_id: "p".into(), retailer_id: "shoprite".into(), amount: d(185, 0), currency: SupportedCurrency::ZAR },
        Some(&rate),
    );
    assert_eq!(r.partner_revenue, d(997, 4));
    assert_eq!(r.usdc_settled.add(&r.chipin_revenue).add(&r.partner_revenue), d(10, 0));

    let payout = PayoutPipeline {
        converter: CurrencyConverter::new(cfg.clone()),
        fees: FeeCalculator::new(cfg.clone()),
        aave: AaveClient::new(cfg),
    };
    let r = payout.process(
        PayoutRequest { pool_id: "p".into(), recipient_id: "u".into(), usdc_amount: d(100, 0), local_currency: SupportedCurrency::USDC },
        None,
    );
    assert_eq!(r.usdc_settled, d(9975, 2));
    assert_eq!(r.chipin_revenue, d(25, 2));
}

#[test]
fn payout_and_withdrawal_settle_alike() {
    let cfg = config("development", "", "");
    let rate = dev_rate(&SupportedCurrency::ZAR);
    let payout = PayoutPipeline {
        converter: CurrencyConverter::new(cfg.clone()),
        fees: FeeCalculator::new(cfg.clone()),
        aave: AaveClient::new(cfg.clone()),
    };
    let withdrawal = WithdrawalPipeline {
        converter: CurrencyConverter::new(cfg.clone()),
        fees: FeeCalculator::new(cfg.clone()),
        aave: AaveClient::new(cfg),
    };
    let p = payout.process(
        PayoutRequest { pool_id: "p".into(), recipient_id: "u".into(), usdc_amount: d(40, 0), local_currency: SupportedCurrency::ZAR },
        Some(&rate),
    );
    let w = withdrawal.process(
        WithdrawalRequest { user_id: "u".into(), pool_id: "p".into(), usdc_amount: d(40, 0), target_currency: SupportedCurrency::ZAR },
        Some(&rate),
    );
    assert_eq!(p.usdc_settled, w.usdc_settled);
    assert_eq!(p.chipin_revenue, w.chipin_revenue);
    assert_eq!(p.local_input.amount, w.local_input.amount);
    assert_eq!(p.partner_revenue, Decimal::zero());
    assert!(!p.is_in_yield && !w.is_in_yield);
    assert!(p.current_apy.is_none() && w.current_apy.is_none());
    assert!(p.reference.starts_with("PAYOUT-"));
    assert!(w.reference.starts_with("WITHDRAW-"));
    // 40 USDC less the 0.25% fee is 39.90.
    assert_eq!(p.usdc_settled, d(399, 1));
}

#[test]
fn aave_positions() {
    let client = AaveClient::new(config("development", "", ""));
    let p = client.deposit(d(100, 0));
    assert_eq!(p.principal_usdc, d(100, 0));
    assert_eq!(p.yield_earned(), Decimal::zero());
    assert_eq!(client.get_current_apy(), d(45, 3));
    // 3.5% minimum against a 4.5% rate.
    assert!(client.meets_minimum_yield());
    assert_eq!(client.withdraw(d(3, 0)), d(3, 0));
}

fn no_settings() -> chipin::config::EnvSettings {
    chipin::config::EnvSettings {
        host: None,
        port: None,
        app_env: None,
        redis_url: Some("redis://cache".into()),
        chainlink_rpc_url: None,
        coingecko_api_key: None,
        rate_refresh_interval: None,
        usdc_contract_address: None,
        settlement_network: None,
        settlement_wallet_address: None,
        settlement_wallet_key: None,
        aave_pool_address: None,
        aave_data_provider: None,
        minimum_yield_apy_pct: None,
        platform_fee_bps: None,
        yield_performance_fee_bps: None,
        withdrawal_fee_bps: None,
        fx_spread_bps: None,
        partner_cut_bps: None,
    }
}

#[test]
fn settings_defaults_and_errors() {
    let c = Config::from_env_values(&no_settings()).unwrap();
    assert_eq!(c.host, "0.0.0.0");
    assert_eq!(c.port, 60051);
    assert_eq!(c.app_env, "development");
    assert_eq!(c.rate_refresh_interval, 60);
    assert_eq!(c.settlement_network, "polygon");
    assert_eq!(c.minimum_yield_apy_pct, d(35, 1));
    assert_eq!(
        (c.platform_fee_bps, c.yield_performance_fee_bps, c.withdrawal_fee_bps, c.fx_spread_bps, c.partner_cut_bps),
        (50, 1000, 25, 30, 100)
    );
    let mut v = no_settings();
    v.redis_url = None;
    assert_eq!(Config::from_env_values(&v).unwrap_err(), ConfigError::Missing("REDIS_URL".into()));
    let mut v = no_settings();
    v.port = Some("70000".into());
    assert_eq!(Config::from_env_values(&v).unwrap_err(), ConfigError::Invalid("BIGFINANCE_PORT".into()));
    let mut v = no_settings();
    v.fx_spread_bps = Some("-3".into());
    assert_eq!(Config::from_env_values(&v).unwrap_err(), ConfigError::Invalid("FX_SPREAD_BPS".into()));
    let mut v = no_settings();
    v.platform_fee_bps = Some("75".into());
    assert_eq!(Config::from_env_values(&v).unwrap().platform_fee_bps, 75);
}
