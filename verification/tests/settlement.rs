use chipin::decimal::Decimal;
use chipin::settlement::SettlementLayer;

#[test]
fn test_evm_units() {
    assert_eq!(SettlementLayer::to_evm_units(Decimal::new(2750, 2)), 27_500_000);
    assert_eq!(SettlementLayer::to_evm_units(Decimal::new(10, 1)), 1_000_000);
    assert_eq!(SettlementLayer::from_evm_units(27_500_000), Decimal::new(275, 1));
}

#[test]
fn evm_units_truncate_below_one_unit() {
    // 0.0000019 USDC is 1.9 units: the fraction of a unit is dropped.
    assert_eq!(SettlementLayer::to_evm_units(Decimal::new(19, 7)), 1);
    assert_eq!(SettlementLayer::checked_to_evm_units(Decimal::new(5, 0)), Some(5_000_000));
    // Negative amounts and amounts beyond a u64 give 0.
    assert_eq!(SettlementLayer::to_evm_units(Decimal::new(-5, 0)), 0);
    assert_eq!(SettlementLayer::to_evm_units(Decimal::from_u64(u64::MAX)), 0);
}

#[test]
fn evm_units_round_trip() {
    for units in [0u64, 1, 999_999, 27_500_000, 123_456_789_012, u64::MAX] {
        let amount = SettlementLayer::from_evm_units(units);
        assert_eq!(SettlementLayer::to_evm_units(amount), units);
        assert_eq!(SettlementLayer::checked_to_evm_units(amount), Some(units));
    }
    assert_eq!(SettlementLayer::from_evm_units(1).to_string(), "0.000001");
}
