use chipin::clock::Timestamp;
use chipin::decimal::Decimal;
use chipin::yield_tracker::{MemberContributions, PoolYieldSnapshot, YieldTracker};

fn snapshot(pool: &str, principal: Decimal, current: Decimal, earned: Decimal) -> PoolYieldSnapshot {
    PoolYieldSnapshot {
        pool_id: pool.to_string(),
        principal_usdc: principal,
        current_usdc: current,
        yield_earned_usdc: earned,
        apy: Decimal::new(45, 3),
        snapshot_at: Timestamp::now(),
    }
}

#[test]
fn test_equal_contribution_equal_yield() {
    let snap = snapshot("pool1", Decimal::new(1000, 0), Decimal::new(1045, 0), Decimal::new(45, 0));
    let mut contributions = MemberContributions::new();
    contributions.insert("alice".to_string(), Decimal::new(500, 0));
    contributions.insert("bob".to_string(), Decimal::new(500, 0));

    let shares = YieldTracker::calculate_member_shares(&snap, &contributions, 1000);

    // Each gets 50% of the yield minus the 10% performance fee.
    assert_eq!(shares.len(), 2);
    for share in &shares {
        assert_eq!(share.pool_share, Decimal::new(5, 1));
        assert_eq!(share.gross_yield, Decimal::new(225, 1)); // 50% of 45
        assert_eq!(share.perf_fee, Decimal::new(225, 2)); // 10% of 22.5
        assert_eq!(share.net_yield, Decimal::new(2025, 2)); // gross - perf_fee
    }
}

#[test]
fn test_unequal_contribution_proportional_yield() {
    let snap = snapshot("pool2", Decimal::new(900, 0), Decimal::new(9405, 1), Decimal::new(405, 1));
    let mut contributions = MemberContributions::new();
    contributions.insert("big".to_string(), Decimal::new(600, 0)); // 2/3
    contributions.insert("small".to_string(), Decimal::new(300, 0)); // 1/3

    let shares = YieldTracker::calculate_member_shares(&snap, &contributions, 1000);
    let big = shares.iter().find(|s| s.user_id == "big").unwrap();
    let small = shares.iter().find(|s| s.user_id == "small").unwrap();

    // The big contributor gets twice the yield of the small one.
    let diff = big.net_yield.sub(&small.net_yield.mul(&Decimal::new(2, 0))).abs();
    assert!(diff.lt(&Decimal::new(1, 3)));
}

#[test]
fn member_contributions_replace_on_same_user() {
    let mut contributions = MemberContributions::new();
    contributions.insert("alice".to_string(), Decimal::new(100, 0));
    contributions.insert("alice".to_string(), Decimal::new(250, 0));
    assert_eq!(contributions.len(), 1);
    let (user, amount) = contributions.get(0);
    assert_eq!(user, "alice");
    assert_eq!(amount, Decimal::new(250, 0));
}

#[test]
fn shares_add_up_to_the_pool_yield() {
    let snap = snapshot("pool3", Decimal::new(300, 0), Decimal::new(330, 0), Decimal::new(30, 0));
    let mut contributions = MemberContributions::new();
    contributions.insert("a".to_string(), Decimal::new(100, 0));
    contributions.insert("b".to_string(), Decimal::new(200, 0));
    let shares = YieldTracker::calculate_member_shares(&snap, &contributions, 1000);
    let mut gross = Decimal::zero();
    for s in &shares {
        assert_eq!(s.gross_yield.sub(&s.perf_fee), s.net_yield);
        gross = gross.add(&s.gross_yield);
    }
    assert_eq!(gross, Decimal::new(30, 0));
}

#[test]
fn no_contributions_no_shares() {
    let snap = snapshot("pool4", Decimal::new(0, 0), Decimal::new(0, 0), Decimal::new(10, 0));
    let contributions = MemberContributions::new();
    let shares = YieldTracker::calculate_member_shares(&snap, &contributions, 1000);
    assert!(shares.is_empty());
    assert_eq!(YieldTracker::checked_member_shares(&snap, &contributions, 1000).map(|v| v.len()), Some(0));
}
