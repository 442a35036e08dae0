//! Revenue accounting: every amount the platform earns is recorded here as an
//! event, for the backend to persist.
//!
//! Streams: platform fee, FX spread, yield performance fee, withdrawal fee, and
//! the partner cut of bulk orders (which flows to the retailer).

use vstd::prelude::*;
use crate::clock::Timestamp;
use crate::decimal::{self, Decimal};
use crate::entropy::{self, new_id};

verus! {

#[derive(Debug, Clone, PartialEq, Eq)]
pub enum RevenueStream {
    PlatformFee,
    FxSpread,
    YieldPerformance,
    WithdrawalFee,
    PartnerCut { retailer_id: String },
}

#[derive(Debug, Clone)]
pub struct RevenueEvent {
    pub id: String,
    pub stream: RevenueStream,
    pub amount_usdc: Decimal,
    /// The transaction reference.
    pub reference: String,
    pub pool_id: Option<String>,
    pub user_id: Option<String>,
    pub recorded_at: Timestamp,
}

pub open spec fn opt_text(s: Option<&str>) -> Option<Seq<char>> {
    match s {
        Some(x) => Some(x@),
        None => None,
    }
}

pub open spec fn opt_string(s: Option<String>) -> Option<Seq<char>> {
    match s {
        Some(x) => Some(x@),
        None => None,
    }
}

pub open spec fn amounts(events: Seq<RevenueEvent>) -> Seq<(int, nat)> {
    events.map_values(|e: RevenueEvent| e.amount_usdc@)
}

/// Collects revenue events until they are drained.
pub struct RevenueRecorder {
    events: Vec<RevenueEvent>,
}

impl View for RevenueRecorder {
    type V = Seq<RevenueEvent>;

    closed spec fn view(&self) -> Seq<RevenueEvent> {
        self.events@
    }
}

/// The event that `record` adds.
pub open spec fn recorded_event(
    e: RevenueEvent,
    stream: RevenueStream,
    amount: (int, nat),
    reference: Seq<char>,
    pool_id: Option<Seq<char>>,
    user_id: Option<Seq<char>>,
) -> bool {
    &&& entropy::uuid_shape(e.id@)
    &&& e.stream == stream
    &&& e.amount_usdc@ == amount
    &&& e.reference@ == reference
    &&& opt_string(e.pool_id) == pool_id
    &&& opt_string(e.user_id) == user_id
}

impl RevenueRecorder {
    #[verifier::type_invariant]
    spec fn inv(self) -> bool {
        forall|i: int| 0 <= i < self.events@.len() ==> decimal::units(#[trigger] self.events@[i].amount_usdc@) > 0
    }

    pub fn new() -> (r: RevenueRecorder)
        ensures
            r@ == Seq::<RevenueEvent>::empty(),
    {
        RevenueRecorder { events: Vec::new() }
    }

    /// Records revenue; amounts of zero or less are ignored. The new event gets a
    /// fresh id and the current time.
    pub fn record(
        &mut self,
        stream: RevenueStream,
        amount_usdc: Decimal,
        reference: &str,
        pool_id: Option<&str>,
        user_id: Option<&str>,
    )
        ensures
            decimal::units(amount_usdc@) <= 0 ==> final(self)@ == old(self)@,
            decimal::units(amount_usdc@) > 0 ==> {
                &&& final(self)@.len() == old(self)@.len() + 1
                &&& final(self)@.drop_last() == old(self)@
                &&& recorded_event(
                    final(self)@.last(),
                    stream,
                    amount_usdc@,
                    reference@,
                    opt_text(pool_id),
                    opt_text(user_id),
                )
                &&& decimal::decimal_sum(amounts(final(self)@)) == match decimal::decimal_sum(
                    amounts(old(self)@),
                ) {
                    Some(t) => decimal::decimal_add(t, amount_usdc@),
                    None => None,
                }
            },
    {
        let zero = Decimal::zero();
        proof {
            decimal::lemma_units_zero(zero@);
        }
        if amount_usdc.le(&zero) {
            return;
        }
        let event = RevenueEvent {
            id: new_id(),
            stream,
            amount_usdc,
            reference: String::from_str(reference),
            pool_id: match pool_id {
                Some(s) => Some(String::from_str(s)),
                None => None,
            },
            user_id: match user_id {
                Some(s) => Some(String::from_str(s)),
                None => None,
            },
            recorded_at: Timestamp::now(),
        };
        let ghost before = self.events@;
        proof {
            use_type_invariant(&*self);
        }
        let mut events: Vec<RevenueEvent> = Vec::new();
        std::mem::swap(&mut events, &mut self.events);
        events.push(event);
        proof {
            assert(events@.drop_last() =~= before);
            assert(amounts(events@).drop_last() =~= amounts(before));
            assert forall|i: int| 0 <= i < events@.len() implies decimal::units(
                #[trigger] events@[i].amount_usdc@,
            ) > 0 by {
                if i < before.len() {
                    assert(events@[i] == before[i]);
                }
            }
        }
        self.events = events;
    }

    /// Takes every recorded event, leaving the recorder empty.
    pub fn drain(&mut self) -> (r: Vec<RevenueEvent>)
        ensures
            r@ == old(self)@,
            final(self)@ == Seq::<RevenueEvent>::empty(),
    {
        let mut events: Vec<RevenueEvent> = Vec::new();
        std::mem::swap(&mut events, &mut self.events);
        events
    }

    /// The total of the recorded amounts, added in order.
    pub fn total(&self) -> (r: Decimal)
        requires
            decimal::decimal_sum(amounts(self@)) is Some,
        ensures
            decimal::decimal_sum(amounts(self@)) == Some(r@),
            decimal::sum_exact(amounts(self@)) ==> decimal::units(r@) == decimal::units_total(
                amounts(self@),
            ),
    {
        let n = self.events.len();
        let mut vals: Vec<Decimal> = Vec::new();
        let mut i: usize = 0;
        while i < n
            invariant
                n == self.events@.len(),
                i <= n,
                decimal::values(vals@) == amounts(self@).take(i as int),
            decreases n - i,
        {
            let ghost before = vals@;
            vals.push(self.events[i].amount_usdc);
            proof {
                assert(decimal::values(vals@) =~= decimal::values(before).push(
                    self.events@[i as int].amount_usdc@,
                ));
                assert(amounts(self@).take(i + 1) =~= amounts(self@).take(i as int).push(
                    self.events@[i as int].amount_usdc@,
                ));
            }
            i += 1;
        }
        proof {
            assert(amounts(self@).take(n as int) =~= amounts(self@));
        }
        decimal::sum(&vals)
    }

    /// `total`, or `None` where the sum overflows.
    pub fn checked_total(&self) -> (r: Option<Decimal>)
        ensures
            decimal::opt_view(r) == decimal::decimal_sum(amounts(self@)),
    {
        let n = self.events.len();
        let mut acc = Decimal::zero();
        let mut i: usize = 0;
        while i < n
            invariant
                n == self.events@.len(),
                i <= n,
                decimal::decimal_sum(amounts(self@).take(i as int)) == Some(acc@),
            decreases n - i,
        {
            proof {
                assert(amounts(self@).take(i + 1).drop_last() =~= amounts(self@).take(i as int));
            }
            match acc.checked_add(&self.events[i].amount_usdc) {
                None => {
                    proof {
                        decimal::lemma_sum_none_extends(amounts(self@), (i + 1) as int);
                    }
                    return None;
                },
                Some(t) => {
                    acc = t;
                },
            }
            i += 1;
        }
        proof {
            assert(amounts(self@).take(n as int) =~= amounts(self@));
        }
        Some(self.total())
    }
}

} // verus!
