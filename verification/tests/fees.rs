use chipin::config::Config;
use chipin::decimal::Decimal;
use chipin::fees::FeeCalculator;

fn test_config() -> Config {
    Config {
        host: "0.0.0.0".into(),
        port: 60051,
        app_env: "test".into(),
        redis_url: "redis://localhost".into(),
        chainlink_rpc_url: "".into(),
        coingecko_api_key: "".into(),
        rate_refresh_interval: 60,
        usdc_contract_address: "".into(),
        settlement_network: "polygon".into(),
        settlement_wallet_address: "".into(),
        settlement_wallet_key: "".into(),
        aave_pool_address: "".into(),
        aave_data_provider: "".into(),
        minimum_yield_apy_pct: Decimal::new(35, 1),
        platform_fee_bps: 50,
        yield_performance_fee_bps: 1000,
        withdrawal_fee_bps: 25,
        fx_spread_bps: 30,
        partner_cut_bps: 100,
    }
}

#[test]
fn test_contribution_fee() {
    let calc = FeeCalculator::new(test_config());
    // R500 -> USDC 27.027 (at 18.5 rate) -> platform fee 0.5%
    let result = calc.contribution(Decimal::new(27027, 3));
    assert_eq!(result.platform_fee.round_dp(4), Decimal::new(1351, 4));
    assert!(result.net < result.gross);
    assert_eq!(result.chipin_revenue(), result.platform_fee);
}

#[test]
fn test_yield_performance_fee() {
    let calc = FeeCalculator::new(test_config());
    // Pool earns 100 USDC yield -> the platform takes 10%
    let result = calc.yield_performance(Decimal::new(100, 0));
    assert_eq!(result.yield_perf_fee, Decimal::new(10, 0));
    assert_eq!(result.net, Decimal::new(90, 0));
}

#[test]
fn test_market_order_fee() {
    let calc = FeeCalculator::new(test_config());
    // R1806 bulk order -> USDC 97.62 -> platform 0.5% + partner 1%
    let result = calc.market_order(Decimal::new(9762, 2));
    assert_eq!(result.platform_fee.round_dp(4), Decimal::new(4881, 4));
    assert_eq!(result.partner_cut.round_dp(4), Decimal::new(9762, 4));
    assert_eq!(result.total_fees, result.platform_fee.add(&result.partner_cut));
}

#[test]
fn chipin_revenue_leaves_out_the_partner_cut() {
    let calc = FeeCalculator::new(test_config());
    let m = calc.market_order(Decimal::new(9762, 2));
    assert_eq!(m.chipin_revenue(), m.platform_fee);
    assert_eq!(m.chipin_revenue().add(&m.partner_revenue()), m.total_fees);
    // A zero order: two zeros of different scale still add to zero.
    let z = calc.market_order(Decimal::new(0, 2));
    assert_eq!(z.chipin_revenue(), Decimal::zero());
    let w = calc.withdrawal(Decimal::new(400, 0));
    assert_eq!(w.chipin_revenue(), w.withdrawal_fee);
}
