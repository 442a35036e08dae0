//! Yield of each pool and each member's pro-rata share of it.

use vstd::prelude::*;
use crate::clock::Timestamp;
use crate::config::{self, Config};
use crate::decimal::{self, Decimal};

verus! {

#[derive(Debug, Clone)]
pub struct PoolYieldSnapshot {
    pub pool_id: String,
    pub principal_usdc: Decimal,
    pub current_usdc: Decimal,
    pub yield_earned_usdc: Decimal,
    pub apy: Decimal,
    pub snapshot_at: Timestamp,
}

#[derive(Debug, Clone)]
pub struct MemberYieldShare {
    pub user_id: String,
    pub pool_id: String,
    /// The member's share of the pool (0 to 1).
    pub pool_share: Decimal,
    /// The member's gross yield in USDC.
    pub gross_yield: Decimal,
    /// The platform's performance fee.
    pub perf_fee: Decimal,
    /// The member's net yield after the fee.
    pub net_yield: Decimal,
}

/// The values of a member's share.
pub struct ShareValues {
    pub pool_share: (int, nat),
    pub gross_yield: (int, nat),
    pub perf_fee: (int, nat),
    pub net_yield: (int, nat),
}

pub struct ShareView {
    pub user_id: Seq<char>,
    pub pool_id: Seq<char>,
    pub values: ShareValues,
}

impl View for MemberYieldShare {
    type V = ShareView;

    open spec fn view(&self) -> ShareView {
        ShareView {
            user_id: self.user_id@,
            pool_id: self.pool_id@,
            values: ShareValues {
                pool_share: self.pool_share@,
                gross_yield: self.gross_yield@,
                perf_fee: self.perf_fee@,
                net_yield: self.net_yield@,
            },
        }
    }
}

/// Each member's contribution to a pool (USDC), one entry per member.
#[derive(Debug)]
pub struct MemberContributions {
    entries: Vec<(String, Decimal)>,
}

pub open spec fn entry_view(e: (String, Decimal)) -> (Seq<char>, (int, nat)) {
    (e.0@, e.1@)
}

pub open spec fn distinct_members(s: Seq<(Seq<char>, (int, nat))>) -> bool {
    forall|i: int, j: int| 0 <= i < j < s.len() ==> s[i].0 != s[j].0
}

/// Where `user` stands in the entries, if anywhere.
pub open spec fn member_index(s: Seq<(Seq<char>, (int, nat))>, user: Seq<char>) -> Option<int> {
    if exists|i: int| 0 <= i < s.len() && s[i].0 == user {
        Some(choose|i: int| 0 <= i < s.len() && s[i].0 == user)
    } else {
        None
    }
}

impl View for MemberContributions {
    type V = Seq<(Seq<char>, (int, nat))>;

    closed spec fn view(&self) -> Seq<(Seq<char>, (int, nat))> {
        self.entries@.map_values(|e: (String, Decimal)| entry_view(e))
    }
}

impl MemberContributions {
    #[verifier::type_invariant]
    spec fn inv(self) -> bool {
        distinct_members(self.entries@.map_values(|e: (String, Decimal)| entry_view(e)))
    }

    pub fn new() -> (r: MemberContributions)
        ensures
            r@ == Seq::<(Seq<char>, (int, nat))>::empty(),
    {
        let r = MemberContributions { entries: Vec::new() };
        assert(r@ =~= Seq::<(Seq<char>, (int, nat))>::empty());
        r
    }

    /// Sets the contribution of `user_id`, replacing any earlier one.
    pub fn insert(&mut self, user_id: String, amount: Decimal)
        ensures
            distinct_members(final(self)@),
            match member_index(old(self)@, user_id@) {
                Some(i) => final(self)@ == old(self)@.update(i, (user_id@, amount@)),
                None => final(self)@ == old(self)@.push((user_id@, amount@)),
            },
    {
        proof {
            use_type_invariant(&*self);
        }
        let ghost before = self@;
        assert(before == old(self)@);
        let n = self.entries.len();
        let mut i: usize = 0;
        while i < n
            invariant
                n == self.entries@.len(),
                i <= n,
                self@ == before,
                before == old(self)@,
                distinct_members(before),
                forall|k: int| 0 <= k < i ==> before[k].0 != user_id@,
            decreases n - i,
        {
            if self.entries[i].0 == user_id {
                let ghost idx = i as int;
                let mut entries: Vec<(String, Decimal)> = Vec::new();
                std::mem::swap(&mut entries, &mut self.entries);
                entries.set(i, (user_id, amount));
                proof {
                    assert(entries@.map_values(|e: (String, Decimal)| entry_view(e)) =~= before.update(
                        idx,
                        (before[idx].0, amount@),
                    ));
                    assert(0 <= idx < before.len() && before[idx].0 == user_id@);
                    let j = choose|j: int| 0 <= j < before.len() && before[j].0 == user_id@;
                    if j != idx {
                        if j < idx {
                            assert(before[j].0 != before[idx].0);
                        } else {
                            assert(before[idx].0 != before[j].0);
                        }
                    }
                    assert(member_index(before, user_id@) == Some(idx));
                }
                self.entries = entries;
                proof {
                    assert(self@ =~= before.update(idx, (before[idx].0, amount@)));
                    assert(before.update(idx, (before[idx].0, amount@)) == old(self)@.update(
                        idx,
                        (user_id@, amount@),
                    ));
                }
                return;
            }
            i += 1;
        }
        let mut entries: Vec<(String, Decimal)> = Vec::new();
        std::mem::swap(&mut entries, &mut self.entries);
        let ghost uid = user_id@;
        entries.push((user_id, amount));
        proof {
            assert(entries@.map_values(|e: (String, Decimal)| entry_view(e)) =~= before.push(
                (uid, amount@),
            ));
            assert(member_index(before, uid) is None);
        }
        self.entries = entries;
    }

    pub fn len(&self) -> (r: usize)
        ensures
            r == self@.len(),
    {
        self.entries.len()
    }

    /// The member and contribution at `i`.
    pub fn get(&self, i: usize) -> (r: (&String, Decimal))
        requires
            i < self@.len(),
        ensures
            r.0@ == self@[i as int].0,
            r.1@ == self@[i as int].1,
    {
        let e = &self.entries[i];
        (&e.0, e.1)
    }
}

pub open spec fn values_of(s: Seq<(Seq<char>, (int, nat))>) -> Seq<(int, nat)> {
    s.map_values(|e: (Seq<char>, (int, nat))| e.1)
}

/// A member's share: share = contribution / total; gross = pool yield * share;
/// fee = gross * fee rate; net = gross - fee.
pub open spec fn member_share_spec(
    contribution: (int, nat),
    total: (int, nat),
    pool_yield: (int, nat),
    perf_bps: u32,
) -> Option<ShareValues> {
    match decimal::decimal_div(contribution, total) {
        Some(share) => match decimal::decimal_mul(pool_yield, share) {
            Some(gross) => match decimal::decimal_mul(gross, config::bps_rate(perf_bps)) {
                Some(fee) => match decimal::decimal_sub(gross, fee) {
                    Some(net) => Some(
                        ShareValues { pool_share: share, gross_yield: gross, perf_fee: fee, net_yield: net },
                    ),
                    None => None,
                },
                None => None,
            },
            None => None,
        },
        None => None,
    }
}

/// Every member's share can be computed.
pub open spec fn shares_computable(
    entries: Seq<(Seq<char>, (int, nat))>,
    total: (int, nat),
    pool_yield: (int, nat),
    perf_bps: u32,
) -> bool {
    forall|i: int|
        0 <= i < entries.len() ==> #[trigger] member_share_spec(entries[i].1, total, pool_yield, perf_bps)
            is Some
}

/// The inputs on which the shares are computed without overflow.
pub open spec fn member_shares_defined(
    entries: Seq<(Seq<char>, (int, nat))>,
    pool_yield: (int, nat),
    perf_bps: u32,
) -> bool {
    match decimal::decimal_sum(values_of(entries)) {
        Some(total) => decimal::units(total) != 0 ==> shares_computable(
            entries,
            total,
            pool_yield,
            perf_bps,
        ),
        None => false,
    }
}

/// The shares: none when the pool has no contributions in total, else one per
/// member, in the members' order.
pub open spec fn member_shares_spec(
    entries: Seq<(Seq<char>, (int, nat))>,
    pool_id: Seq<char>,
    pool_yield: (int, nat),
    perf_bps: u32,
) -> Seq<ShareView> {
    let total = decimal::decimal_sum(values_of(entries))->0;
    if decimal::units(total) == 0 {
        Seq::empty()
    } else {
        Seq::new(
            entries.len(),
            |i: int|
                ShareView {
                    user_id: entries[i].0,
                    pool_id,
                    values: member_share_spec(entries[i].1, total, pool_yield, perf_bps)->0,
                },
        )
    }
}

pub open spec fn shares_view(v: Seq<MemberYieldShare>) -> Seq<ShareView> {
    v.map_values(|s: MemberYieldShare| s@)
}

/// Where the fee comes off the gross yield without rounding, the member's net yield
/// and the fee add up to the gross yield.
pub open spec fn share_conserves(v: ShareValues) -> bool {
    decimal::difference_fits(v.gross_yield, v.perf_fee) ==> decimal::units(v.net_yield)
        + decimal::units(v.perf_fee) == decimal::units(v.gross_yield)
}

/// Computes yield shares.
pub struct YieldTracker;

impl YieldTracker {
    /// The sum of the contributions, left to right from zero.
    fn total_of(contributions: &MemberContributions) -> (r: Decimal)
        requires
            decimal::decimal_sum(values_of(contributions@)) is Some,
        ensures
            decimal::decimal_sum(values_of(contributions@)) == Some(r@),
    {
        let n = contributions.len();
        let mut total = Decimal::zero();
        let mut i: usize = 0;
        while i < n
            invariant
                n == contributions@.len(),
                i <= n,
                decimal::decimal_sum(values_of(contributions@)) is Some,
                decimal::decimal_sum(values_of(contributions@).take(i as int)) == Some(total@),
            decreases n - i,
        {
            let (_, c) = contributions.get(i);
            proof {
                let vals = values_of(contributions@);
                assert(vals.take(i + 1).drop_last() =~= vals.take(i as int));
                decimal::lemma_sum_prefix_some(vals, (i + 1) as int);
            }
            total = total.add(&c);
            i += 1;
        }
        proof {
            assert(values_of(contributions@).take(n as int) =~= values_of(contributions@));
        }
        total
    }

    /// Each member's yield share from a pool snapshot, pro rata by contribution:
    /// members get shares in proportion to what they put in.
    pub fn calculate_member_shares(
        snapshot: &PoolYieldSnapshot,
        member_contributions: &MemberContributions,
        performance_fee_bps: u32,
    ) -> (r: Vec<MemberYieldShare>)
        requires
            member_shares_defined(
                member_contributions@,
                snapshot.yield_earned_usdc@,
                performance_fee_bps,
            ),
        ensures
            shares_view(r@) == member_shares_spec(
                member_contributions@,
                snapshot.pool_id@,
                snapshot.yield_earned_usdc@,
                performance_fee_bps,
            ),
            forall|i: int|
                0 <= i < r@.len() ==> share_conserves(#[trigger] r@[i]@.values),
    {
        let total_contributed = Self::total_of(member_contributions);
        if total_contributed.is_zero() {
            proof {
                decimal::lemma_units_zero(total_contributed@);
            }
            let r: Vec<MemberYieldShare> = Vec::new();
            proof {
                assert(shares_view(r@) =~= Seq::<ShareView>::empty());
            }
            return r;
        }
        proof {
            decimal::lemma_units_zero(total_contributed@);
        }
        let perf_fee_rate = Config::bps_to_decimal(performance_fee_bps);
        let gross_yield = snapshot.yield_earned_usdc;
        let ghost spec_shares = member_shares_spec(
            member_contributions@,
            snapshot.pool_id@,
            snapshot.yield_earned_usdc@,
            performance_fee_bps,
        );
        let n = member_contributions.len();
        let mut shares: Vec<MemberYieldShare> = Vec::new();
        let mut i: usize = 0;
        while i < n
            invariant
                n == member_contributions@.len(),
                i <= n,
                decimal::units(total_contributed@) != 0,
                decimal::decimal_sum(values_of(member_contributions@)) == Some(total_contributed@),
                shares_computable(member_contributions@, total_contributed@, gross_yield@, performance_fee_bps),
                perf_fee_rate@ == config::bps_rate(performance_fee_bps),
                gross_yield@ == snapshot.yield_earned_usdc@,
                spec_shares.len() == n,
                spec_shares == member_shares_spec(
                    member_contributions@,
                    snapshot.pool_id@,
                    snapshot.yield_earned_usdc@,
                    performance_fee_bps,
                ),
                shares_view(shares@) == spec_shares.take(i as int),
                forall|k: int| 0 <= k < shares@.len() ==> share_conserves(#[trigger] shares@[k]@.values),
            decreases n - i,
        {
            let (user_id, contribution) = member_contributions.get(i);
            proof {
                assert(member_share_spec(
                    member_contributions@[i as int].1,
                    total_contributed@,
                    gross_yield@,
                    performance_fee_bps,
                ) is Some);
            }
            let pool_share = contribution.div(&total_contributed);
            let member_gross = gross_yield.mul(&pool_share);
            let perf_fee = member_gross.mul(&perf_fee_rate);
            let net_yield = member_gross.sub(&perf_fee);
            let share = MemberYieldShare {
                user_id: user_id.clone(),
                pool_id: snapshot.pool_id.clone(),
                pool_share,
                gross_yield: member_gross,
                perf_fee,
                net_yield,
            };
            let ghost prev = shares@;
            proof {
                assert(share@ == spec_shares[i as int]);
            }
            shares.push(share);
            proof {
                assert(shares@ == prev.push(share));
                assert(shares_view(shares@) =~= shares_view(prev).push(share@));
                assert(spec_shares.take(i + 1) =~= spec_shares.take(i as int).push(spec_shares[i as int]));
            }
            i += 1;
        }
        proof {
            assert(spec_shares.take(n as int) =~= spec_shares);
        }
        shares
    }

    /// Annualised yield for display, as a percentage: yield / principal / days * 365 * 100;
    /// zero when there is no principal or no time elapsed.
    pub fn annualised_apy(principal: Decimal, yield_earned: Decimal, days_elapsed: u32) -> (r: Decimal)
        requires
            annualised_apy_spec(principal@, yield_earned@, days_elapsed) is Some,
        ensures
            annualised_apy_spec(principal@, yield_earned@, days_elapsed) == Some(r@),
    {
        if principal.is_zero() || days_elapsed == 0 {
            return Decimal::zero();
        }
        let daily_rate = yield_earned.div(&principal).div(&Decimal::from_u64(days_elapsed as u64));
        daily_rate.mul(&Decimal::new(365, 0)).mul(&Decimal::new(100, 0))
    }

    /// `annualised_apy`, or `None` where an amount overflows.
    pub fn checked_annualised_apy(principal: Decimal, yield_earned: Decimal, days_elapsed: u32) -> (r:
        Option<Decimal>)
        ensures
            decimal::opt_view(r) == annualised_apy_spec(principal@, yield_earned@, days_elapsed),
    {
        if principal.is_zero() || days_elapsed == 0 {
            return Some(Self::annualised_apy(principal, yield_earned, days_elapsed));
        }
        match yield_earned.checked_div(&principal) {
            None => None,
            Some(a) => match a.checked_div(&Decimal::from_u64(days_elapsed as u64)) {
                None => None,
                Some(b) => match b.checked_mul(&Decimal::new(365, 0)) {
                    None => None,
                    Some(c) => match c.checked_mul(&Decimal::new(100, 0)) {
                        None => None,
                        Some(_) => Some(Self::annualised_apy(principal, yield_earned, days_elapsed)),
                    },
                },
            },
        }
    }

    /// `calculate_member_shares`, or `None` where an amount overflows.
    pub fn checked_member_shares(
        snapshot: &PoolYieldSnapshot,
        member_contributions: &MemberContributions,
        performance_fee_bps: u32,
    ) -> (r: Option<Vec<MemberYieldShare>>)
        ensures
            r is Some <==> member_shares_defined(
                member_contributions@,
                snapshot.yield_earned_usdc@,
                performance_fee_bps,
            ),
            r matches Some(v) ==> shares_view(v@) == member_shares_spec(
                member_contributions@,
                snapshot.pool_id@,
                snapshot.yield_earned_usdc@,
                performance_fee_bps,
            ),
    {
        let n = member_contributions.len();
        let mut total = Decimal::zero();
        let mut i: usize = 0;
        while i < n
            invariant
                n == member_contributions@.len(),
                i <= n,
                decimal::decimal_sum(values_of(member_contributions@).take(i as int)) == Some(total@),
            decreases n - i,
        {
            let (_, c) = member_contributions.get(i);
            let ghost vals = values_of(member_contributions@);
            proof {
                assert(vals.take(i + 1).drop_last() =~= vals.take(i as int));
            }
            match total.checked_add(&c) {
                None => {
                    proof {
                        decimal::lemma_sum_none_extends(vals, (i + 1) as int);
                    }
                    return None;
                },
                Some(t) => {
                    total = t;
                },
            }
            i += 1;
        }
        proof {
            assert(values_of(member_contributions@).take(n as int) =~= values_of(member_contributions@));
            decimal::lemma_units_zero(total@);
        }
        if !total.is_zero() {
            let perf_fee_rate = Config::bps_to_decimal(performance_fee_bps);
            let mut j: usize = 0;
            while j < n
                invariant
                    n == member_contributions@.len(),
                    j <= n,
                    perf_fee_rate@ == config::bps_rate(performance_fee_bps),
                    decimal::decimal_sum(values_of(member_contributions@)) == Some(total@),
                    decimal::units(total@) != 0,
                    forall|k: int|
                        0 <= k < j ==> #[trigger] member_share_spec(
                            member_contributions@[k].1,
                            total@,
                            snapshot.yield_earned_usdc@,
                            performance_fee_bps,
                        ) is Some,
                decreases n - j,
            {
                let (_, c) = member_contributions.get(j);
                let ok = match c.checked_div(&total) {
                    None => false,
                    Some(share) => match snapshot.yield_earned_usdc.checked_mul(&share) {
                        None => false,
                        Some(gross) => match gross.checked_mul(&perf_fee_rate) {
                            None => false,
                            Some(fee) => gross.checked_sub(&fee).is_some(),
                        },
                    },
                };
                if !ok {
                    proof {
                        assert(member_share_spec(
                            member_contributions@[j as int].1,
                            total@,
                            snapshot.yield_earned_usdc@,
                            performance_fee_bps,
                        ) is None);
                        assert(!shares_computable(
                            member_contributions@,
                            total@,
                            snapshot.yield_earned_usdc@,
                            performance_fee_bps,
                        ));
                    }
                    return None;
                }
                j += 1;
            }
        }
        Some(Self::calculate_member_shares(snapshot, member_contributions, performance_fee_bps))
    }
}

/// yield / principal / days * 365 * 100, or zero for no principal or no days.
pub open spec fn annualised_apy_spec(principal: (int, nat), yield_earned: (int, nat), days: u32) -> Option<
    (int, nat),
> {
    if principal.0 == 0 || days == 0 {
        Some((0int, 0nat))
    } else {
        match decimal::decimal_div(yield_earned, principal) {
            Some(a) => match decimal::decimal_div(a, (days as int, 0nat)) {
                Some(b) => match decimal::decimal_mul(b, (365int, 0nat)) {
                    Some(c) => decimal::decimal_mul(c, (100int, 0nat)),
                    None => None,
                },
                None => None,
            },
            None => None,
        }
    }
}

/// The APY is the yield annualised over the days elapsed, as a percentage: where
/// rust_decimal computes each step exactly, APY * days * principal == yield * 365 * 100,
/// so for a given yield and principal the APY falls as the days grow; with no
/// principal or no days it is zero.
pub proof fn law_apy_annualises(principal: (int, nat), yield_earned: (int, nat), days: u32)
    ensures
        principal.0 == 0 || days == 0 ==> annualised_apy_spec(principal, yield_earned, days)
            == Some((0int, 0nat)),
        ({
            let a = decimal::decimal_div(yield_earned, principal)->0;
            let b = decimal::decimal_div(a, (days as int, 0nat))->0;
            let c = decimal::decimal_mul(b, (365int, 0nat))->0;
            principal.0 != 0 && days > 0 && decimal::div_exact(yield_earned, principal)
                && decimal::div_exact(a, (days as int, 0nat)) && decimal::mul_exact(b, (365int, 0nat))
                && decimal::mul_exact(c, (100int, 0nat)) ==> {
                &&& annualised_apy_spec(principal, yield_earned, days) is Some
                &&& decimal::units(annualised_apy_spec(principal, yield_earned, days)->0) * days
                    * decimal::units(principal) == decimal::units(yield_earned) * 36500
                    * decimal::pow10(28)
            }
        }),
{
    let a = decimal::decimal_div(yield_earned, principal)->0;
    let b = decimal::decimal_div(a, (days as int, 0nat))->0;
    let c = decimal::decimal_mul(b, (365int, 0nat))->0;
    if principal.0 != 0 && days > 0 && decimal::div_exact(yield_earned, principal)
        && decimal::div_exact(a, (days as int, 0nat)) && decimal::mul_exact(b, (365int, 0nat))
        && decimal::mul_exact(c, (100int, 0nat)) {
        let r = decimal::decimal_mul(c, (100int, 0nat))->0;
        let pw = decimal::pow10(28);
        decimal::lemma_pow10_positive(28);
        decimal::lemma_units_of_integer(days as int);
        decimal::lemma_units_of_integer(365);
        decimal::lemma_units_of_integer(100);
        let ua = decimal::units(a);
        let ub = decimal::units(b);
        let uc = decimal::units(c);
        let ur = decimal::units(r);
        let up = decimal::units(principal);
        let uy = decimal::units(yield_earned);
        let d = days as int;
        assert(ua * up == uy * pw);
        assert(ub * (d * pw) == ua * pw);
        assert(uc * pw == ub * (365 * pw));
        assert(ur * pw == uc * (100 * pw));
        assert(ub * d == ua) by (nonlinear_arith)
            requires
                ub * (d * pw) == ua * pw,
                pw >= 1,
        ;
        assert(uc == ub * 365) by (nonlinear_arith)
            requires
                uc * pw == ub * (365 * pw),
                pw >= 1,
        ;
        assert(ur == uc * 100) by (nonlinear_arith)
            requires
                ur * pw == uc * (100 * pw),
                pw >= 1,
        ;
        assert(ur * d * up == uy * 36500 * pw) by (nonlinear_arith)
            requires
                ur == ub * 36500,
                ub * d == ua,
                ua * up == uy * pw,
        ;
    }
}

/// A member's share is pro rata: where rust_decimal computes each step exactly, the
/// share times the total contributed is the member's contribution, the gross yield is
/// the pool's yield times the share, the fee is the fee rate of the gross, and the
/// net yield and the fee add up to the gross.
pub proof fn law_member_share_pro_rata(
    contribution: (int, nat),
    total: (int, nat),
    pool_yield: (int, nat),
    perf_bps: u32,
)
    ensures
        ({
            let share = decimal::decimal_div(contribution, total)->0;
            let gross = decimal::decimal_mul(pool_yield, share)->0;
            let fee = decimal::decimal_mul(gross, config::bps_rate(perf_bps))->0;
            decimal::div_exact(contribution, total) && decimal::mul_exact(pool_yield, share)
                && decimal::mul_exact(gross, config::bps_rate(perf_bps)) && decimal::sub_exact(
                gross,
                fee,
            ) ==> {
                let v = member_share_spec(contribution, total, pool_yield, perf_bps)->0;
                &&& member_share_spec(contribution, total, pool_yield, perf_bps) is Some
                &&& decimal::units(v.pool_share) * decimal::units(total) == decimal::units(
                    contribution,
                ) * decimal::pow10(28)
                &&& decimal::units(v.gross_yield) * decimal::pow10(28) == decimal::units(
                    pool_yield,
                ) * decimal::units(v.pool_share)
                &&& decimal::units(v.perf_fee) * 10000 == decimal::units(v.gross_yield) * perf_bps
                &&& decimal::units(v.net_yield) + decimal::units(v.perf_fee) == decimal::units(
                    v.gross_yield,
                )
            }
        }),
{
    let share = decimal::decimal_div(contribution, total)->0;
    let gross = decimal::decimal_mul(pool_yield, share)->0;
    let fee = decimal::decimal_mul(gross, config::bps_rate(perf_bps))->0;
    if decimal::div_exact(contribution, total) && decimal::mul_exact(pool_yield, share)
        && decimal::mul_exact(gross, config::bps_rate(perf_bps)) && decimal::sub_exact(gross, fee) {
        decimal::lemma_units_of_bps(perf_bps as int);
        let p24 = decimal::pow10(24);
        let uf = decimal::units(fee);
        let ug = decimal::units(gross);
        let b = perf_bps as int;
        assert(uf * (10000 * p24) == ug * (b * p24));
        assert(uf * 10000 == ug * b) by (nonlinear_arith)
            requires
                uf * (10000 * p24) == ug * (b * p24),
                p24 >= 1,
        ;
    }
}

} // verus!
