//! Yield distribution: the plan for paying a pool's yield to its members.
//! The payments themselves are made elsewhere.

use vstd::prelude::*;
use crate::decimal::{self, Decimal};
use crate::yield_tracker::{
    self, MemberContributions, MemberYieldShare, PoolYieldSnapshot, ShareView, YieldTracker,
};

verus! {

pub open spec fn fees_of(v: Seq<ShareView>) -> Seq<(int, nat)> {
    v.map_values(|s: ShareView| s.values.perf_fee)
}

pub open spec fn nets_of(v: Seq<ShareView>) -> Seq<(int, nat)> {
    v.map_values(|s: ShareView| s.values.net_yield)
}

pub open spec fn grosses_of(v: Seq<ShareView>) -> Seq<(int, nat)> {
    v.map_values(|s: ShareView| s.values.gross_yield)
}

/// The inputs on which a plan is computed without overflow.
pub open spec fn plan_defined(
    entries: Seq<(Seq<char>, (int, nat))>,
    pool_id: Seq<char>,
    pool_yield: (int, nat),
    perf_bps: u32,
) -> bool {
    let sh = yield_tracker::member_shares_spec(entries, pool_id, pool_yield, perf_bps);
    &&& yield_tracker::member_shares_defined(entries, pool_yield, perf_bps)
    &&& decimal::decimal_sum(fees_of(sh)) is Some
    &&& decimal::decimal_sum(nets_of(sh)) is Some
}

/// Every member's fee comes off the gross yield without rounding.
pub open spec fn fees_exact(v: Seq<ShareView>) -> bool {
    forall|i: int|
        0 <= i < v.len() ==> decimal::difference_fits(
            (#[trigger] v[i]).values.gross_yield,
            v[i].values.perf_fee,
        )
}

#[derive(Debug, Clone)]
pub struct DistributionPlan {
    pub pool_id: String,
    pub total_yield: Decimal,
    pub chipin_revenue: Decimal,
    pub total_distributed: Decimal,
    pub shares: Vec<MemberYieldShare>,
}

/// Plans monthly yield distributions.
pub struct YieldDistributor;

proof fn lemma_totals_add(v: Seq<ShareView>)
    requires
        forall|i: int|
            0 <= i < v.len() ==> decimal::units((#[trigger] v[i]).values.net_yield) + decimal::units(
                v[i].values.perf_fee,
            ) == decimal::units(v[i].values.gross_yield),
    ensures
        decimal::units_total(fees_of(v)) + decimal::units_total(nets_of(v)) == decimal::units_total(
            grosses_of(v),
        ),
    decreases v.len(),
{
    if v.len() > 0 {
        let w = v.drop_last();
        assert(fees_of(v).drop_last() =~= fees_of(w));
        assert(nets_of(v).drop_last() =~= nets_of(w));
        assert(grosses_of(v).drop_last() =~= grosses_of(w));
        assert forall|i: int| 0 <= i < w.len() implies decimal::units((#[trigger] w[i]).values.net_yield)
            + decimal::units(w[i].values.perf_fee) == decimal::units(w[i].values.gross_yield) by {
            assert(w[i] == v[i]);
        }
        lemma_totals_add(w);
        assert(v[v.len() - 1] == v.last());
    }
}

impl YieldDistributor {
    /// The plan for distributing a pool's yield: each member's share, the
    /// platform's revenue (the sum of the performance fees) and the total paid to
    /// members (the sum of the net yields).
    ///
    /// Conservation: where each fee comes off its gross yield without rounding and
    /// both sums add without rounding, revenue plus distribution is exactly the sum
    /// of the members' gross yields.
    pub fn plan(
        snapshot: &PoolYieldSnapshot,
        member_contributions: &MemberContributions,
        performance_fee_bps: u32,
    ) -> (r: DistributionPlan)
        requires
            plan_defined(
                member_contributions@,
                snapshot.pool_id@,
                snapshot.yield_earned_usdc@,
                performance_fee_bps,
            ),
        ensures
            ({
                let sh = yield_tracker::member_shares_spec(
                    member_contributions@,
                    snapshot.pool_id@,
                    snapshot.yield_earned_usdc@,
                    performance_fee_bps,
                );
                &&& yield_tracker::shares_view(r.shares@) == sh
                &&& r.pool_id@ == snapshot.pool_id@
                &&& r.total_yield@ == snapshot.yield_earned_usdc@
                &&& decimal::decimal_sum(fees_of(sh)) == Some(r.chipin_revenue@)
                &&& decimal::decimal_sum(nets_of(sh)) == Some(r.total_distributed@)
                &&& (fees_exact(sh) && decimal::sum_exact(fees_of(sh)) && decimal::sum_exact(
                    nets_of(sh),
                )) ==> decimal::units(r.chipin_revenue@) + decimal::units(r.total_distributed@)
                    == decimal::units_total(grosses_of(sh))
                &&& decimal::sum_exact(fees_of(sh)) ==> decimal::units(r.chipin_revenue@)
                    == decimal::units_total(fees_of(sh))
                &&& decimal::sum_exact(nets_of(sh)) ==> decimal::units(r.total_distributed@)
                    == decimal::units_total(nets_of(sh))
            }),
    {
        let shares = YieldTracker::calculate_member_shares(
            snapshot,
            member_contributions,
            performance_fee_bps,
        );
        let ghost sh = yield_tracker::shares_view(shares@);
        let mut fees: Vec<Decimal> = Vec::new();
        let mut nets: Vec<Decimal> = Vec::new();
        let n = shares.len();
        let mut i: usize = 0;
        while i < n
            invariant
                n == shares@.len(),
                i <= n,
                sh == yield_tracker::shares_view(shares@),
                decimal::values(fees@) == fees_of(sh).take(i as int),
                decimal::values(nets@) == nets_of(sh).take(i as int),
            decreases n - i,
        {
            let ghost old_fees = fees@;
            let ghost old_nets = nets@;
            fees.push(shares[i].perf_fee);
            nets.push(shares[i].net_yield);
            proof {
                assert(sh[i as int] == shares@[i as int]@);
                assert(decimal::values(fees@) =~= decimal::values(old_fees).push(shares@[i as int].perf_fee@));
                assert(decimal::values(nets@) =~= decimal::values(old_nets).push(shares@[i as int].net_yield@));
                assert(fees_of(sh).take(i + 1) =~= fees_of(sh).take(i as int).push(sh[i as int].values.perf_fee));
                assert(nets_of(sh).take(i + 1) =~= nets_of(sh).take(i as int).push(sh[i as int].values.net_yield));
                assert(decimal::values(fees@) =~= fees_of(sh).take(i + 1));
                assert(decimal::values(nets@) =~= nets_of(sh).take(i + 1));
            }
            i += 1;
        }
        proof {
            assert(fees_of(sh).take(n as int) =~= fees_of(sh));
            assert(nets_of(sh).take(n as int) =~= nets_of(sh));
        }
        let chipin_revenue = decimal::sum(&fees);
        let total_distributed = decimal::sum(&nets);
        proof {
            if fees_exact(sh) {
                assert forall|k: int| 0 <= k < sh.len() implies decimal::units(
                    (#[trigger] sh[k]).values.net_yield,
                ) + decimal::units(sh[k].values.perf_fee) == decimal::units(
                    sh[k].values.gross_yield,
                ) by {
                    assert(sh[k] == shares@[k]@);
                    assert(yield_tracker::share_conserves(shares@[k]@.values));
                }
                lemma_totals_add(sh);
            }
        }
        DistributionPlan {
            pool_id: snapshot.pool_id.clone(),
            total_yield: snapshot.yield_earned_usdc,
            chipin_revenue,
            total_distributed,
            shares,
        }
    }
}

/// The tolerance of the conservation check: 0.000001.
pub open spec fn tolerance() -> (int, nat) {
    (1int, 6nat)
}

/// |revenue + distributed - total yield|, where it can be computed.
pub open spec fn plan_discrepancy(chipin: (int, nat), distributed: (int, nat), total: (int, nat)) -> Option<
    (int, nat),
> {
    match decimal::decimal_add(chipin, distributed) {
        Some(sum) => match decimal::decimal_sub(sum, total) {
            Some(d) => Some((decimal::abs_int(d.0), d.1)),
            None => None,
        },
        None => None,
    }
}

impl DistributionPlan {
    /// The conservation check: revenue plus distribution is within 0.000001 of the
    /// total yield.
    pub fn verify(&self) -> (r: bool)
        requires
            plan_discrepancy(self.chipin_revenue@, self.total_distributed@, self.total_yield@) is Some,
        ensures
            r == (decimal::units(
                plan_discrepancy(self.chipin_revenue@, self.total_distributed@, self.total_yield@)->0,
            ) < decimal::units(tolerance())),
    {
        let sum = self.chipin_revenue.add(&self.total_distributed);
        sum.sub(&self.total_yield).abs().lt(&Decimal::new(1, 6))
    }

    /// `verify`, or `None` where the check itself overflows.
    pub fn checked_verify(&self) -> (r: Option<bool>)
        ensures
            r is Some <==> plan_discrepancy(
                self.chipin_revenue@,
                self.total_distributed@,
                self.total_yield@,
            ) is Some,
            r matches Some(b) ==> b == (decimal::units(
                plan_discrepancy(self.chipin_revenue@, self.total_distributed@, self.total_yield@)->0,
            ) < decimal::units(tolerance())),
    {
        match self.chipin_revenue.checked_add(&self.total_distributed) {
            None => None,
            Some(sum) => match sum.checked_sub(&self.total_yield) {
                None => None,
                Some(_) => Some(self.verify()),
            },
        }
    }
}

impl YieldDistributor {
    /// `plan`, or `None` where an amount overflows.
    pub fn checked_plan(
        snapshot: &PoolYieldSnapshot,
        member_contributions: &MemberContributions,
        performance_fee_bps: u32,
    ) -> (r: Option<DistributionPlan>)
        ensures
            r is Some <==> plan_defined(
                member_contributions@,
                snapshot.pool_id@,
                snapshot.yield_earned_usdc@,
                performance_fee_bps,
            ),
            r matches Some(p) ==> ({
                let sh = yield_tracker::member_shares_spec(
                    member_contributions@,
                    snapshot.pool_id@,
                    snapshot.yield_earned_usdc@,
                    performance_fee_bps,
                );
                &&& yield_tracker::shares_view(p.shares@) == sh
                &&& p.pool_id@ == snapshot.pool_id@
                &&& p.total_yield@ == snapshot.yield_earned_usdc@
                &&& decimal::decimal_sum(fees_of(sh)) == Some(p.chipin_revenue@)
                &&& decimal::decimal_sum(nets_of(sh)) == Some(p.total_distributed@)
                &&& (fees_exact(sh) && decimal::sum_exact(fees_of(sh)) && decimal::sum_exact(
                    nets_of(sh),
                )) ==> decimal::units(p.chipin_revenue@) + decimal::units(p.total_distributed@)
                    == decimal::units_total(grosses_of(sh))
                &&& decimal::sum_exact(fees_of(sh)) ==> decimal::units(p.chipin_revenue@)
                    == decimal::units_total(fees_of(sh))
                &&& decimal::sum_exact(nets_of(sh)) ==> decimal::units(p.total_distributed@)
                    == decimal::units_total(nets_of(sh))
            }),
    {
        match YieldTracker::checked_member_shares(snapshot, member_contributions, performance_fee_bps) {
            None => None,
            Some(shares) => {
                let ghost sh = yield_tracker::shares_view(shares@);
                let mut fee_total = Decimal::zero();
                let mut net_total = Decimal::zero();
                let mut fees_ok = true;
                let mut nets_ok = true;
                let n = shares.len();
                let mut i: usize = 0;
                while i < n
                    invariant
                        n == shares@.len(),
                        i <= n,
                        sh == yield_tracker::shares_view(shares@),
                        fees_ok ==> decimal::decimal_sum(fees_of(sh).take(i as int)) == Some(fee_total@),
                        !fees_ok ==> decimal::decimal_sum(fees_of(sh).take(i as int)) is None,
                        nets_ok ==> decimal::decimal_sum(nets_of(sh).take(i as int)) == Some(net_total@),
                        !nets_ok ==> decimal::decimal_sum(nets_of(sh).take(i as int)) is None,
                    decreases n - i,
                {
                    proof {
                        assert(fees_of(sh).take(i + 1).drop_last() =~= fees_of(sh).take(i as int));
                        assert(nets_of(sh).take(i + 1).drop_last() =~= nets_of(sh).take(i as int));
                    }
                    if fees_ok {
                        match fee_total.checked_add(&shares[i].perf_fee) {
                            Some(t) => {
                                fee_total = t;
                            },
                            None => {
                                fees_ok = false;
                            },
                        }
                    }
                    if nets_ok {
                        match net_total.checked_add(&shares[i].net_yield) {
                            Some(t) => {
                                net_total = t;
                            },
                            None => {
                                nets_ok = false;
                            },
                        }
                    }
                    i += 1;
                }
                proof {
                    assert(fees_of(sh).take(n as int) =~= fees_of(sh));
                    assert(nets_of(sh).take(n as int) =~= nets_of(sh));
                }
                if fees_ok && nets_ok {
                    Some(Self::plan(snapshot, member_contributions, performance_fee_bps))
                } else {
                    None
                }
            },
        }
    }
}

proof fn lemma_fee_split(v: Seq<ShareView>, bps: int)
    requires
        forall|i: int|
            0 <= i < v.len() ==> {
                &&& decimal::units((#[trigger] v[i]).values.perf_fee) * 10000 == decimal::units(
                    v[i].values.gross_yield,
                ) * bps
                &&& decimal::units(v[i].values.net_yield) + decimal::units(v[i].values.perf_fee)
                    == decimal::units(v[i].values.gross_yield)
            },
    ensures
        decimal::units_total(fees_of(v)) * (10000 - bps) == decimal::units_total(nets_of(v)) * bps,
        decimal::units_total(fees_of(v)) + decimal::units_total(nets_of(v)) == decimal::units_total(
            grosses_of(v),
        ),
    decreases v.len(),
{
    if v.len() > 0 {
        let w = v.drop_last();
        assert(fees_of(v).drop_last() =~= fees_of(w));
        assert(nets_of(v).drop_last() =~= nets_of(w));
        assert(grosses_of(v).drop_last() =~= grosses_of(w));
        assert forall|i: int| 0 <= i < w.len() implies {
            &&& decimal::units((#[trigger] w[i]).values.perf_fee) * 10000 == decimal::units(
                w[i].values.gross_yield,
            ) * bps
            &&& decimal::units(w[i].values.net_yield) + decimal::units(w[i].values.perf_fee)
                == decimal::units(w[i].values.gross_yield)
        } by {
            assert(w[i] == v[i]);
        }
        lemma_fee_split(w, bps);
        let last = v[v.len() - 1];
        assert(v.last() == last);
        let fl = decimal::units(last.values.perf_fee);
        let nl = decimal::units(last.values.net_yield);
        let gl = decimal::units(last.values.gross_yield);
        let ft = decimal::units_total(fees_of(w));
        let nt = decimal::units_total(nets_of(w));
        assert(fl * 10000 == gl * bps);
        assert(nl + fl == gl);
        assert((ft + fl) * (10000 - bps) == (nt + nl) * bps) by (nonlinear_arith)
            requires
                ft * (10000 - bps) == nt * bps,
                fl * 10000 == gl * bps,
                nl + fl == gl,
        ;
    }
}

/// The platform keeps the performance fee and the members get the rest: where
/// rust_decimal computes each member's fee (gross * fee rate) and net yield
/// (gross - fee) exactly, the fees add up to the fee rate of the gross yields and the
/// net yields to the rest, so revenue * (1 - rate) == distributed * rate, and revenue
/// plus distribution is the total gross yield.
pub proof fn law_revenue_is_the_fee_share(
    entries: Seq<(Seq<char>, (int, nat))>,
    pool_id: Seq<char>,
    pool_yield: (int, nat),
    perf_bps: u32,
)
    requires
        yield_tracker::member_shares_defined(entries, pool_yield, perf_bps),
        forall|i: int|
            0 <= i < yield_tracker::member_shares_spec(entries, pool_id, pool_yield, perf_bps).len()
                ==> {
                let g = (#[trigger] yield_tracker::member_shares_spec(
                    entries,
                    pool_id,
                    pool_yield,
                    perf_bps,
                )[i]).values.gross_yield;
                &&& decimal::mul_exact(g, crate::config::bps_rate(perf_bps))
                &&& decimal::sub_exact(
                    g,
                    decimal::decimal_mul(g, crate::config::bps_rate(perf_bps))->0,
                )
            },
    ensures
        ({
            let sh = yield_tracker::member_shares_spec(entries, pool_id, pool_yield, perf_bps);
            &&& decimal::units_total(fees_of(sh)) * (10000 - perf_bps) == decimal::units_total(
                nets_of(sh),
            ) * perf_bps
            &&& decimal::units_total(fees_of(sh)) + decimal::units_total(nets_of(sh))
                == decimal::units_total(grosses_of(sh))
        }),
{
    let sh = yield_tracker::member_shares_spec(entries, pool_id, pool_yield, perf_bps);
    let total = decimal::decimal_sum(yield_tracker::values_of(entries))->0;
    decimal::lemma_units_of_bps(perf_bps as int);
    assert forall|i: int| 0 <= i < sh.len() implies {
        &&& decimal::units((#[trigger] sh[i]).values.perf_fee) * 10000 == decimal::units(
            sh[i].values.gross_yield,
        ) * perf_bps
        &&& decimal::units(sh[i].values.net_yield) + decimal::units(sh[i].values.perf_fee)
            == decimal::units(sh[i].values.gross_yield)
    } by {
        assert(yield_tracker::shares_computable(entries, total, pool_yield, perf_bps));
        assert(yield_tracker::member_share_spec(entries[i].1, total, pool_yield, perf_bps) is Some);
        let g = sh[i].values.gross_yield;
        let f = sh[i].values.perf_fee;
        let p24 = decimal::pow10(24);
        let uf = decimal::units(f);
        let ug = decimal::units(g);
        let b = perf_bps as int;
        assert(uf * (10000 * p24) == ug * (b * p24));
        assert(uf * 10000 == ug * b) by (nonlinear_arith)
            requires
                uf * (10000 * p24) == ug * (b * p24),
                p24 >= 1,
        ;
    }
    lemma_fee_split(sh, perf_bps as int);
}

} // verus!
