//! The read-only query surface: direct reads, tier pricing, affordability,
//! per-user payment summaries and per-room revenue breakdowns, all computed
//! from the same ledger state without mutating it.

use vstd::arithmetic::mul::lemma_mul_inequality;
use vstd::prelude::*;

use crate::engine::auto_settle_due;
use crate::ledger::PaymentLedger;
use crate::types::PaymentError;
use crate::types::PaymentQuery;
use crate::types::PaymentQueryResponse;
use crate::types::PaymentStats;
use crate::types::PendingAccessFee;
use crate::types::PendingAccessFeeView;
use crate::types::PendingTip;
use crate::types::PendingTipView;
use crate::types::PendingTransaction;
use crate::types::QualityTierPricing;
use crate::types::QualityTierRevenue;
use crate::types::RoomId;
use crate::types::RoomPaymentPool;
use crate::types::RoomRevenueBreakdown;
use crate::types::StreamQuality;
use crate::types::UserId;
use crate::types::UserPaymentState;
use crate::types::UserPaymentSummary;
use crate::types::count_distinct_tippers;
use crate::types::has_tip_from;
use crate::types::sum_fee_amounts;
use crate::types::sum_fee_amounts_for_tier;
use crate::types::sum_tip_amounts;

verus! {

/// Number of pending tips sent by `user`.
pub open spec fn count_tips_from(s: Seq<PendingTipView>, user: Seq<char>) -> int
    decreases s.len(),
{
    if s.len() == 0 {
        0int
    } else {
        count_tips_from(s.drop_last(), user) + if s.last().from == user {
            1int
        } else {
            0int
        }
    }
}

/// Number of pending access fees paid by `user`.
pub open spec fn count_fees_from(s: Seq<PendingAccessFeeView>, user: Seq<char>) -> int
    decreases s.len(),
{
    if s.len() == 0 {
        0int
    } else {
        count_fees_from(s.drop_last(), user) + if s.last().user_id == user {
            1int
        } else {
            0int
        }
    }
}

/// Ceiling-clamped addition, for grand totals whose parts are themselves
/// exact.
pub open spec fn sat_add_u128(a: u128, b: u128) -> u128 {
    if a + b > u128::MAX {
        u128::MAX
    } else {
        (a + b) as u128
    }
}

/// The tip suggested to a user: the larger of the user's default tip and
/// the room's minimum tip.
pub open spec fn spec_recommended_tip(default_tip: u64, min_tip: u64) -> u64 {
    if default_tip >= min_tip {
        default_tip
    } else {
        min_tip
    }
}

/// The sum of a tip queue's amounts is bounded by its length times the
/// largest single amount.
pub proof fn lemma_sum_tip_bounds(s: Seq<PendingTipView>)
    ensures
        0 <= sum_tip_amounts(s) <= s.len() * (u64::MAX as int),
    decreases s.len(),
{
    if s.len() == 0 {
    } else {
        lemma_sum_tip_bounds(s.drop_last());
        assert((s.len() - 1) * (u64::MAX as int) + (u64::MAX as int) == s.len() * (
        u64::MAX as int)) by (nonlinear_arith);
    }
}

/// The sum of a fee queue's amounts is bounded by its length times the
/// largest single amount.
pub proof fn lemma_sum_fee_bounds(s: Seq<PendingAccessFeeView>)
    ensures
        0 <= sum_fee_amounts(s) <= s.len() * (u64::MAX as int),
    decreases s.len(),
{
    if s.len() == 0 {
    } else {
        lemma_sum_fee_bounds(s.drop_last());
        assert((s.len() - 1) * (u64::MAX as int) + (u64::MAX as int) == s.len() * (
        u64::MAX as int)) by (nonlinear_arith);
    }
}

/// The per-tier sum of a fee queue is bounded by its length times the
/// largest single amount.
pub proof fn lemma_sum_fee_tier_bounds(s: Seq<PendingAccessFeeView>, tier: StreamQuality)
    ensures
        0 <= sum_fee_amounts_for_tier(s, tier) <= s.len() * (u64::MAX as int),
    decreases s.len(),
{
    if s.len() == 0 {
    } else {
        lemma_sum_fee_tier_bounds(s.drop_last(), tier);
        assert((s.len() - 1) * (u64::MAX as int) + (u64::MAX as int) == s.len() * (
        u64::MAX as int)) by (nonlinear_arith);
    }
}

/// Sums the amounts of a room's pending tips.
pub fn sum_pending_tips(tips: &Vec<PendingTip>) -> (r: u128)
    ensures
        r == sum_tip_amounts(tips@.map_values(|t: PendingTip| t@)),
{
    let ghost q = tips@.map_values(|t: PendingTip| t@);
    let n = tips.len();
    let mut total: u128 = 0;
    let mut i: usize = 0;
    proof {
        assert(q.take(0) =~= Seq::<PendingTipView>::empty());
    }
    while i < n
        invariant
            i <= n,
            n == tips.len(),
            q == tips@.map_values(|t: PendingTip| t@),
            total == sum_tip_amounts(q.take(i as int)),
        decreases n - i,
    {
        proof {
            lemma_sum_tip_bounds(q.take(i as int));
            lemma_mul_inequality(i as int, n as int, u64::MAX as int);
            lemma_mul_inequality(n as int, u64::MAX as int, u64::MAX as int);
            assert(q.take(i + 1).drop_last() =~= q.take(i as int));
            assert(q.take(i + 1).last() == q[i as int]);
        }
        total = total + tips[i].amount as u128;
        i += 1;
    }
    proof {
        assert(q.take(n as int) =~= q);
    }
    total
}

/// Sums the amounts of a room's pending access fees.
pub fn sum_pending_fees(fees: &Vec<PendingAccessFee>) -> (r: u128)
    ensures
        r == sum_fee_amounts(fees@.map_values(|f: PendingAccessFee| f@)),
{
    let ghost q = fees@.map_values(|f: PendingAccessFee| f@);
    let n = fees.len();
    let mut total: u128 = 0;
    let mut i: usize = 0;
    proof {
        assert(q.take(0) =~= Seq::<PendingAccessFeeView>::empty());
    }
    while i < n
        invariant
            i <= n,
            n == fees.len(),
            q == fees@.map_values(|f: PendingAccessFee| f@),
            total == sum_fee_amounts(q.take(i as int)),
        decreases n - i,
    {
        proof {
            lemma_sum_fee_bounds(q.take(i as int));
            lemma_mul_inequality(i as int, n as int, u64::MAX as int);
            lemma_mul_inequality(n as int, u64::MAX as int, u64::MAX as int);
            assert(q.take(i + 1).drop_last() =~= q.take(i as int));
            assert(q.take(i + 1).last() == q[i as int]);
        }
        total = total + fees[i].amount as u128;
        i += 1;
    }
    proof {
        assert(q.take(n as int) =~= q);
    }
    total
}

/// Sums the amounts of the pending access fees bought at `tier`.
pub fn sum_pending_fees_for_tier(fees: &Vec<PendingAccessFee>, tier: StreamQuality) -> (r: u128)
    ensures
        r == sum_fee_amounts_for_tier(fees@.map_values(|f: PendingAccessFee| f@), tier),
{
    let ghost q = fees@.map_values(|f: PendingAccessFee| f@);
    let n = fees.len();
    let mut total: u128 = 0;
    let mut i: usize = 0;
    proof {
        assert(q.take(0) =~= Seq::<PendingAccessFeeView>::empty());
    }
    while i < n
        invariant
            i <= n,
            n == fees.len(),
            q == fees@.map_values(|f: PendingAccessFee| f@),
            total == sum_fee_amounts_for_tier(q.take(i as int), tier),
        decreases n - i,
    {
        proof {
            lemma_sum_fee_tier_bounds(q.take(i as int), tier);
            lemma_mul_inequality(i as int, n as int, u64::MAX as int);
            lemma_mul_inequality(n as int, u64::MAX as int, u64::MAX as int);
            assert(q.take(i + 1).drop_last() =~= q.take(i as int));
            assert(q.take(i + 1).last() == q[i as int]);
        }
        if fees[i].quality_tier == tier {
            total = total + fees[i].amount as u128;
        }
        i += 1;
    }
    proof {
        assert(q.take(n as int) =~= q);
    }
    total
}

/// Counts the distinct senders over a room's pending tips.
pub fn count_active_tippers(tips: &Vec<PendingTip>) -> (r: usize)
    ensures
        r == count_distinct_tippers(tips@.map_values(|t: PendingTip| t@)),
{
    let ghost q = tips@.map_values(|t: PendingTip| t@);
    let n = tips.len();
    let mut count: usize = 0;
    let mut i: usize = 0;
    proof {
        assert(q.take(0) =~= Seq::<PendingTipView>::empty());
    }
    while i < n
        invariant
            i <= n,
            n == tips.len(),
            q == tips@.map_values(|t: PendingTip| t@),
            count == count_distinct_tippers(q.take(i as int)),
            count <= i,
        decreases n - i,
    {
        let mut seen = false;
        let mut j: usize = 0;
        while j < i
            invariant
                j <= i,
                i < n,
                n == tips.len(),
                q == tips@.map_values(|t: PendingTip| t@),
                seen == exists|k: int| 0 <= k < j && q[k].from == q[i as int].from,
            decreases i - j,
        {
            let hit = tips[j].from == tips[i].from;
            if hit {
                seen = true;
            }
            proof {
                if hit {
                    assert(q[j as int].from == q[i as int].from);
                } else {
                    assert(q[j as int].from != q[i as int].from);
                    assert forall|k: int|
                        0 <= k < j + 1 && q[k].from == q[i as int].from implies k < j by {}
                }
            }
            j += 1;
        }
        proof {
            assert(q.take(i + 1).drop_last() =~= q.take(i as int));
            assert(q.take(i + 1).last() == q[i as int]);
            if seen {
                let k = choose|k: int| 0 <= k < i && q[k].from == q[i as int].from;
                assert(q.take(i as int)[k] == q[k]);
                assert(has_tip_from(q.take(i as int), q[i as int].from));
            }
            if has_tip_from(q.take(i as int), q[i as int].from) {
                let k = choose|k: int|
                    0 <= k < q.take(i as int).len() && q.take(i as int)[k].from == q[
                        i as int
                    ].from;
                assert(q[k].from == q[i as int].from);
                assert(seen);
            }
        }
        if !seen {
            count += 1;
        }
        i += 1;
    }
    proof {
        assert(q.take(n as int) =~= q);
    }
    count
}

/// Counts the pending tips in a room's queue sent by `user_id`.
pub fn count_room_tips_from(tips: &Vec<PendingTip>, user_id: &UserId) -> (r: usize)
    ensures
        r == count_tips_from(tips@.map_values(|t: PendingTip| t@), user_id@),
{
    let ghost q = tips@.map_values(|t: PendingTip| t@);
    let n = tips.len();
    let mut count: usize = 0;
    let mut i: usize = 0;
    proof {
        assert(q.take(0) =~= Seq::<PendingTipView>::empty());
    }
    while i < n
        invariant
            i <= n,
            n == tips.len(),
            q == tips@.map_values(|t: PendingTip| t@),
            count == count_tips_from(q.take(i as int), user_id@),
            count <= i,
        decreases n - i,
    {
        proof {
            assert(q.take(i + 1).drop_last() =~= q.take(i as int));
            assert(q.take(i + 1).last() == q[i as int]);
        }
        if tips[i].from == *user_id {
            count += 1;
        }
        i += 1;
    }
    proof {
        assert(q.take(n as int) =~= q);
    }
    count
}

/// Counts the pending access fees in a room's queue paid by `user_id`.
pub fn count_room_fees_from(fees: &Vec<PendingAccessFee>, user_id: &UserId) -> (r: usize)
    ensures
        r == count_fees_from(fees@.map_values(|f: PendingAccessFee| f@), user_id@),
{
    let ghost q = fees@.map_values(|f: PendingAccessFee| f@);
    let n = fees.len();
    let mut count: usize = 0;
    let mut i: usize = 0;
    proof {
        assert(q.take(0) =~= Seq::<PendingAccessFeeView>::empty());
    }
    while i < n
        invariant
            i <= n,
            n == fees.len(),
            q == fees@.map_values(|f: PendingAccessFee| f@),
            count == count_fees_from(q.take(i as int), user_id@),
            count <= i,
        decreases n - i,
    {
        proof {
            assert(q.take(i + 1).drop_last() =~= q.take(i as int));
            assert(q.take(i + 1).last() == q[i as int]);
        }
        if fees[i].user_id == *user_id {
            count += 1;
        }
        i += 1;
    }
    proof {
        assert(q.take(n as int) =~= q);
    }
    count
}

/// Revenue attributed to each quality tier over a room's pending fees.
pub fn calculate_quality_tier_revenue(room: &RoomPaymentPool) -> (r: QualityTierRevenue)
    ensures
        r.standard == sum_fee_amounts_for_tier(room@.pending_access_fees, StreamQuality::Standard),
        r.high == sum_fee_amounts_for_tier(room@.pending_access_fees, StreamQuality::High),
        r.premium == sum_fee_amounts_for_tier(room@.pending_access_fees, StreamQuality::Premium),
        r.ultra == sum_fee_amounts_for_tier(room@.pending_access_fees, StreamQuality::Ultra),
{
    QualityTierRevenue {
        standard: sum_pending_fees_for_tier(&room.pending_access_fees, StreamQuality::Standard),
        high: sum_pending_fees_for_tier(&room.pending_access_fees, StreamQuality::High),
        premium: sum_pending_fees_for_tier(&room.pending_access_fees, StreamQuality::Premium),
        ultra: sum_pending_fees_for_tier(&room.pending_access_fees, StreamQuality::Ultra),
    }
}

/// Copies a tip queue; the copy denotes the same sequence.
fn clone_tips(v: &Vec<PendingTip>) -> (r: Vec<PendingTip>)
    ensures
        r@.map_values(|t: PendingTip| t@) == v@.map_values(|t: PendingTip| t@),
{
    let r = v.clone();
    proof {
        assert forall|i: int| 0 <= i < v@.len() implies r@[i] == v@[i] by {
            assert(vstd::pervasive::cloned::<PendingTip>(v[i], r[i]));
        }
        assert(r@ =~= v@);
    }
    r
}

/// Copies a fee queue; the copy denotes the same sequence.
fn clone_fees(v: &Vec<PendingAccessFee>) -> (r: Vec<PendingAccessFee>)
    ensures
        r@.map_values(|f: PendingAccessFee| f@) == v@.map_values(|f: PendingAccessFee| f@),
{
    let r = v.clone();
    proof {
        assert forall|i: int| 0 <= i < v@.len() implies r@[i] == v@[i] by {
            assert(vstd::pervasive::cloned::<PendingAccessFee>(v[i], r[i]));
        }
        assert(r@ =~= v@);
    }
    r
}

/// Copies a transaction queue; the copy denotes the same sequence.
fn clone_txs(v: &Vec<PendingTransaction>) -> (r: Vec<PendingTransaction>)
    ensures
        r@.map_values(|t: PendingTransaction| t@) == v@.map_values(|t: PendingTransaction| t@),
{
    let r = v.clone();
    proof {
        assert forall|i: int| 0 <= i < v@.len() implies r@[i] == v@[i] by {
            assert(vstd::pervasive::cloned::<PendingTransaction>(v[i], r[i]));
        }
        assert(r@ =~= v@);
    }
    r
}

impl PaymentLedger {
    /// Answers one query of the read-only surface; each arm keeps the
    /// contract of the projection it reads.
    pub fn handle_query(&self, query: PaymentQuery) -> (r: PaymentQueryResponse)
        requires
            self@.wf(),
        ensures
            match query {
                PaymentQuery::GetRoomStats { room_id } => {
                    &&& self@.has_room(room_id@) ==> (r matches PaymentQueryResponse::RoomStats(p)
                        && p matches Some(p) && p@ == self@.room_at(room_id@))
                    &&& !self@.has_room(room_id@) ==> (r matches PaymentQueryResponse::Error(e)
                        && e == PaymentError::RoomNotFound)
                },
                PaymentQuery::GetUserState { user_id } => {
                    &&& self@.has_user(user_id@) ==> (r matches PaymentQueryResponse::UserState(u)
                        && u matches Some(u) && u@ == self@.user_at(user_id@))
                    &&& !self@.has_user(user_id@) ==> (r matches PaymentQueryResponse::Error(e)
                        && e == PaymentError::UserNotFound)
                },
                PaymentQuery::GetGlobalStats => (r matches PaymentQueryResponse::GlobalStats(s)
                    && s == self@.stats),
                PaymentQuery::GetPendingTips { room_id } => {
                    &&& self@.has_room(room_id@) ==> (r matches
                        PaymentQueryResponse::PendingTips(v) && v@.map_values(
                        |t: PendingTip| t@,
                    ) == self@.room_at(room_id@).pending_tips)
                    &&& !self@.has_room(room_id@) ==> (r matches PaymentQueryResponse::Error(e)
                        && e == PaymentError::RoomNotFound)
                },
                PaymentQuery::GetPendingAccessFees { room_id } => {
                    &&& self@.has_room(room_id@) ==> (r matches
                        PaymentQueryResponse::PendingAccessFees(v) && v@.map_values(
                        |f: PendingAccessFee| f@,
                    ) == self@.room_at(room_id@).pending_access_fees)
                    &&& !self@.has_room(room_id@) ==> (r matches PaymentQueryResponse::Error(e)
                        && e == PaymentError::RoomNotFound)
                },
                PaymentQuery::GetUserPendingTransactions { user_id } => {
                    &&& self@.has_user(user_id@) ==> (r matches
                        PaymentQueryResponse::UserPendingTransactions(v) && v@.map_values(
                        |t: PendingTransaction| t@,
                    ) == self@.user_at(user_id@).pending_transactions)
                    &&& !self@.has_user(user_id@) ==> (r matches PaymentQueryResponse::Error(e)
                        && e == PaymentError::UserNotFound)
                },
                PaymentQuery::GetQualityTierPricing { room_id } => {
                    &&& self@.has_room(room_id@) ==> (r matches
                        PaymentQueryResponse::QualityTierPricing(p) && p == self@.room_at(
                        room_id@,
                    ).settings.quality_tiers)
                    &&& !self@.has_room(room_id@) ==> (r matches PaymentQueryResponse::Error(e)
                        && e == PaymentError::RoomNotFound)
                },
                PaymentQuery::GetUserPaymentSummary { user_id, room_id } => {
                    &&& !self@.has_user(user_id@) ==> (r matches PaymentQueryResponse::Error(e)
                        && e == PaymentError::UserNotFound)
                    &&& self@.has_user(user_id@) && !self@.has_room(room_id@) ==> (r matches
                        PaymentQueryResponse::Error(e) && e == PaymentError::RoomNotFound)
                    &&& self@.has_user(user_id@) && self@.has_room(room_id@) ==> (r matches
                        PaymentQueryResponse::UserPaymentSummary(s) && {
                        let u = self@.user_at(user_id@);
                        let room = self@.room_at(room_id@);
                        &&& s.user_id@ == user_id@
                        &&& s.room_id@ == room_id@
                        &&& s.balance == u.balance
                        &&& s.pending_transactions == u.pending_transactions.len()
                        &&& s.pending_tips == count_tips_from(room.pending_tips, user_id@)
                        &&& s.pending_access_fees == count_fees_from(
                            room.pending_access_fees,
                            user_id@,
                        )
                        &&& s.can_afford_tips == (u.balance > room.settings.min_tip)
                        &&& s.recommended_tip == spec_recommended_tip(
                            u.preferences.default_tip,
                            room.settings.min_tip,
                        )
                        &&& s.auto_settle_threshold == u.preferences.auto_settle_threshold
                    })
                },
                PaymentQuery::GetRoomRevenueBreakdown { room_id } => {
                    &&& !self@.has_room(room_id@) ==> (r matches PaymentQueryResponse::Error(e)
                        && e == PaymentError::RoomNotFound)
                    &&& self@.has_room(room_id@) ==> (r matches
                        PaymentQueryResponse::RoomRevenueBreakdown(b) && {
                        let room = self@.room_at(room_id@);
                        &&& b.room_id@ == room_id@
                        &&& b.host@ == room.host
                        &&& b.total_tips == room.total_tips
                        &&& b.total_access_fees == room.total_access_fees
                        &&& b.pending_tips == sum_tip_amounts(room.pending_tips)
                        &&& b.pending_access_fees == sum_fee_amounts(room.pending_access_fees)
                        &&& b.total_revenue == sat_add_u128(
                            room.total_tips,
                            room.total_access_fees,
                        )
                        &&& b.pending_revenue == sat_add_u128(
                            b.pending_tips,
                            b.pending_access_fees,
                        )
                        &&& b.active_tippers == count_distinct_tippers(room.pending_tips)
                    })
                },
            },
    {
        match query {
            PaymentQuery::GetRoomStats { room_id } => {
                match self.query_room_stats(&room_id) {
                    Ok(room) => PaymentQueryResponse::RoomStats(Some(room.clone())),
                    Err(e) => PaymentQueryResponse::Error(e),
                }
            },
            PaymentQuery::GetUserState { user_id } => {
                match self.query_user_state(&user_id) {
                    Ok(user) => PaymentQueryResponse::UserState(Some(user.clone())),
                    Err(e) => PaymentQueryResponse::Error(e),
                }
            },
            PaymentQuery::GetGlobalStats => {
                match self.query_global_stats() {
                    Ok(stats) => PaymentQueryResponse::GlobalStats(stats),
                    Err(e) => PaymentQueryResponse::Error(e),
                }
            },
            PaymentQuery::GetPendingTips { room_id } => {
                match self.query_pending_tips(&room_id) {
                    Ok(tips) => PaymentQueryResponse::PendingTips(clone_tips(tips)),
                    Err(e) => PaymentQueryResponse::Error(e),
                }
            },
            PaymentQuery::GetPendingAccessFees { room_id } => {
                match self.query_pending_access_fees(&room_id) {
                    Ok(fees) => PaymentQueryResponse::PendingAccessFees(clone_fees(fees)),
                    Err(e) => PaymentQueryResponse::Error(e),
                }
            },
            PaymentQuery::GetUserPendingTransactions { user_id } => {
                match self.query_user_pending_transactions(&user_id) {
                    Ok(transactions) => PaymentQueryResponse::UserPendingTransactions(
                        clone_txs(transactions),
                    ),
                    Err(e) => PaymentQueryResponse::Error(e),
                }
            },
            PaymentQuery::GetQualityTierPricing { room_id } => {
                match self.get_quality_tier_pricing(&room_id) {
                    Ok(pricing) => PaymentQueryResponse::QualityTierPricing(pricing),
                    Err(e) => PaymentQueryResponse::Error(e),
                }
            },
            PaymentQuery::GetUserPaymentSummary { user_id, room_id } => {
                match self.get_user_payment_summary(&user_id, &room_id) {
                    Ok(summary) => PaymentQueryResponse::UserPaymentSummary(summary),
                    Err(e) => PaymentQueryResponse::Error(e),
                }
            },
            PaymentQuery::GetRoomRevenueBreakdown { room_id } => {
                match self.get_room_revenue_breakdown(&room_id) {
                    Ok(breakdown) => PaymentQueryResponse::RoomRevenueBreakdown(breakdown),
                    Err(e) => PaymentQueryResponse::Error(e),
                }
            },
        }
    }

    /// The payment pool of the room keyed by `room_id`, or `RoomNotFound`.
    pub fn query_room_stats(&self, room_id: &RoomId) -> (r: Result<&RoomPaymentPool, PaymentError>)
        requires
            self@.wf(),
        ensures
            self@.has_room(room_id@) ==> (r matches Ok(p) && p@ == self@.room_at(room_id@)),
            !self@.has_room(room_id@) ==> (r matches Err(e) && e == PaymentError::RoomNotFound),
    {
        match self.get_room_stats(room_id) {
            Some(p) => Ok(p),
            None => Err(PaymentError::RoomNotFound),
        }
    }

    /// The account of the user keyed by `user_id`, or `UserNotFound`.
    pub fn query_user_state(&self, user_id: &UserId) -> (r: Result<&UserPaymentState, PaymentError>)
        requires
            self@.wf(),
        ensures
            self@.has_user(user_id@) ==> (r matches Ok(u) && u@ == self@.user_at(user_id@)),
            !self@.has_user(user_id@) ==> (r matches Err(e) && e == PaymentError::UserNotFound),
    {
        match self.get_user_state(user_id) {
            Some(u) => Ok(u),
            None => Err(PaymentError::UserNotFound),
        }
    }

    /// The global statistics register; never fails.
    pub fn query_global_stats(&self) -> (r: Result<PaymentStats, PaymentError>)
        ensures
            r matches Ok(s) && s == self@.stats,
    {
        Ok(self.get_global_stats())
    }

    /// The pending tips of the room keyed by `room_id`.
    pub fn query_pending_tips(&self, room_id: &RoomId) -> (r: Result<&Vec<PendingTip>, PaymentError>)
        requires
            self@.wf(),
        ensures
            self@.has_room(room_id@) ==> (r matches Ok(v) && v@.map_values(|t: PendingTip| t@)
                == self@.room_at(room_id@).pending_tips),
            !self@.has_room(room_id@) ==> (r matches Err(e) && e == PaymentError::RoomNotFound),
    {
        match self.get_room_stats(room_id) {
            Some(p) => Ok(&p.pending_tips),
            None => Err(PaymentError::RoomNotFound),
        }
    }

    /// The pending access fees of the room keyed by `room_id`.
    pub fn query_pending_access_fees(&self, room_id: &RoomId) -> (r: Result<
        &Vec<PendingAccessFee>,
        PaymentError,
    >)
        requires
            self@.wf(),
        ensures
            self@.has_room(room_id@) ==> (r matches Ok(v) && v@.map_values(
                |f: PendingAccessFee| f@,
            ) == self@.room_at(room_id@).pending_access_fees),
            !self@.has_room(room_id@) ==> (r matches Err(e) && e == PaymentError::RoomNotFound),
    {
        match self.get_room_stats(room_id) {
            Some(p) => Ok(&p.pending_access_fees),
            None => Err(PaymentError::RoomNotFound),
        }
    }

    /// The pending-transaction queue of the user keyed by `user_id`.
    pub fn query_user_pending_transactions(&self, user_id: &UserId) -> (r: Result<
        &Vec<PendingTransaction>,
        PaymentError,
    >)
        requires
            self@.wf(),
        ensures
            self@.has_user(user_id@) ==> (r matches Ok(v) && v@.map_values(
                |t: PendingTransaction| t@,
            ) == self@.user_at(user_id@).pending_transactions),
            !self@.has_user(user_id@) ==> (r matches Err(e) && e == PaymentError::UserNotFound),
    {
        match self.get_user_state(user_id) {
            Some(u) => Ok(&u.pending_transactions),
            None => Err(PaymentError::UserNotFound),
        }
    }

    /// The tip suggested to `user_id` in `room_id`: the larger of the
    /// user's default tip and the room's minimum tip.
    pub fn calculate_recommended_tip(&self, user_id: &UserId, room_id: &RoomId) -> (r: Result<
        u64,
        PaymentError,
    >)
        requires
            self@.wf(),
        ensures
            !self@.has_user(user_id@) ==> (r matches Err(e) && e == PaymentError::UserNotFound),
            self@.has_user(user_id@) && !self@.has_room(room_id@) ==> (r matches Err(e) && e
                == PaymentError::RoomNotFound),
            self@.has_user(user_id@) && self@.has_room(room_id@) ==> r == Ok::<u64, PaymentError>(
                spec_recommended_tip(
                    self@.user_at(user_id@).preferences.default_tip,
                    self@.room_at(room_id@).settings.min_tip,
                ),
            ),
    {
        let user = match self.get_user_state(user_id) {
            Some(u) => u,
            None => {
                return Err(PaymentError::UserNotFound);
            },
        };
        let room = match self.get_room_stats(room_id) {
            Some(p) => p,
            None => {
                return Err(PaymentError::RoomNotFound);
            },
        };
        let base_recommendation = user.preferences.default_tip;
        let min_tip = room.settings.min_tip;
        if base_recommendation >= min_tip {
            Ok(base_recommendation)
        } else {
            Ok(min_tip)
        }
    }

    /// The quality-tier price table of the room keyed by `room_id`.
    pub fn get_quality_tier_pricing(&self, room_id: &RoomId) -> (r: Result<
        QualityTierPricing,
        PaymentError,
    >)
        requires
            self@.wf(),
        ensures
            self@.has_room(room_id@) ==> r == Ok::<QualityTierPricing, PaymentError>(
                self@.room_at(room_id@).settings.quality_tiers,
            ),
            !self@.has_room(room_id@) ==> (r matches Err(e) && e == PaymentError::RoomNotFound),
    {
        match self.get_room_stats(room_id) {
            Some(p) => Ok(p.settings.quality_tiers),
            None => Err(PaymentError::RoomNotFound),
        }
    }

    /// Whether `user_id` can afford `quality_tier` in `room_id`: the
    /// balance covers the tier's price.
    pub fn can_afford_quality_tier(
        &self,
        user_id: &UserId,
        room_id: &RoomId,
        quality_tier: &StreamQuality,
    ) -> (r: Result<bool, PaymentError>)
        requires
            self@.wf(),
        ensures
            !self@.has_user(user_id@) ==> (r matches Err(e) && e == PaymentError::UserNotFound),
            self@.has_user(user_id@) && !self@.has_room(room_id@) ==> (r matches Err(e) && e
                == PaymentError::RoomNotFound),
            self@.has_user(user_id@) && self@.has_room(room_id@) ==> match self@.room_at(
                room_id@,
            ).settings.quality_tiers.spec_price(*quality_tier) {
                Some(cost) => r == Ok::<bool, PaymentError>(
                    self@.user_at(user_id@).balance >= cost,
                ),
                None => (r matches Err(e) && e == PaymentError::InvalidQualityTier),
            },
    {
        let user = match self.get_user_state(user_id) {
            Some(u) => u,
            None => {
                return Err(PaymentError::UserNotFound);
            },
        };
        let room = match self.get_room_stats(room_id) {
            Some(p) => p,
            None => {
                return Err(PaymentError::RoomNotFound);
            },
        };
        let cost = match room.settings.quality_tiers.price(*quality_tier) {
            Some(c) => c,
            None => {
                return Err(PaymentError::InvalidQualityTier);
            },
        };
        Ok(user.balance >= cost as u128)
    }

    /// Whether the auto-settlement policy is due for the user keyed by
    /// `user_id`: the balance has reached the auto-settle threshold or the
    /// queue has reached its maximum length.
    pub fn should_auto_settle(&self, user_id: &UserId) -> (r: Result<bool, PaymentError>)
        requires
            self@.wf(),
        ensures
            self@.has_user(user_id@) ==> r == Ok::<bool, PaymentError>(
                auto_settle_due(self@.user_at(user_id@)),
            ),
            !self@.has_user(user_id@) ==> (r matches Err(e) && e == PaymentError::UserNotFound),
    {
        let user = match self.get_user_state(user_id) {
            Some(u) => u,
            None => {
                return Err(PaymentError::UserNotFound);
            },
        };
        let pending_count = user.pending_transactions.len();
        let threshold_reached = user.balance >= user.preferences.auto_settle_threshold;
        let max_pending_reached = pending_count >= user.preferences.max_pending;
        Ok(threshold_reached || max_pending_reached)
    }

    /// The payment summary of `user_id` within `room_id`: balance, queue
    /// counts filtered to that user in that room, affordability against the
    /// room's minimum tip, the recommended tip (the larger of the user's
    /// default and the room's minimum) and the auto-settle threshold.
    pub fn get_user_payment_summary(&self, user_id: &UserId, room_id: &RoomId) -> (r: Result<
        UserPaymentSummary,
        PaymentError,
    >)
        requires
            self@.wf(),
        ensures
            !self@.has_user(user_id@) ==> (r matches Err(e) && e == PaymentError::UserNotFound),
            self@.has_user(user_id@) && !self@.has_room(room_id@) ==> (r matches Err(e) && e
                == PaymentError::RoomNotFound),
            self@.has_user(user_id@) && self@.has_room(room_id@) ==> (r matches Ok(s) && {
                let u = self@.user_at(user_id@);
                let room = self@.room_at(room_id@);
                &&& s.user_id@ == user_id@
                &&& s.room_id@ == room_id@
                &&& s.balance == u.balance
                &&& s.pending_transactions == u.pending_transactions.len()
                &&& s.pending_tips == count_tips_from(room.pending_tips, user_id@)
                &&& s.pending_access_fees == count_fees_from(room.pending_access_fees, user_id@)
                &&& s.can_afford_tips == (u.balance > room.settings.min_tip)
                &&& s.recommended_tip == spec_recommended_tip(
                    u.preferences.default_tip,
                    room.settings.min_tip,
                )
                &&& s.auto_settle_threshold == u.preferences.auto_settle_threshold
            }),
    {
        let user = match self.get_user_state(user_id) {
            Some(u) => u,
            None => {
                return Err(PaymentError::UserNotFound);
            },
        };
        let room = match self.get_room_stats(room_id) {
            Some(p) => p,
            None => {
                return Err(PaymentError::RoomNotFound);
            },
        };
        let pending_tips_count = count_room_tips_from(&room.pending_tips, user_id);
        let pending_access_fees_count = count_room_fees_from(&room.pending_access_fees, user_id);
        Ok(
            UserPaymentSummary {
                user_id: user_id.clone(),
                room_id: room_id.clone(),
                balance: user.balance,
                pending_transactions: user.pending_transactions.len(),
                pending_tips: pending_tips_count,
                pending_access_fees: pending_access_fees_count,
                can_afford_tips: user.balance > room.settings.min_tip as u128,
                recommended_tip: if user.preferences.default_tip >= room.settings.min_tip {
                    user.preferences.default_tip
                } else {
                    room.settings.min_tip
                },
                auto_settle_threshold: user.preferences.auto_settle_threshold,
            },
        )
    }

    /// The revenue breakdown of the room keyed by `room_id`: the settled
    /// all-time totals, the exact sums of currently pending tips and fees,
    /// the grand totals (ceiling-clamped), the number of distinct pending
    /// tippers, and the pending revenue attributed to each quality tier.
    pub fn get_room_revenue_breakdown(&self, room_id: &RoomId) -> (r: Result<
        RoomRevenueBreakdown,
        PaymentError,
    >)
        requires
            self@.wf(),
        ensures
            !self@.has_room(room_id@) ==> (r matches Err(e) && e == PaymentError::RoomNotFound),
            self@.has_room(room_id@) ==> (r matches Ok(b) && {
                let room = self@.room_at(room_id@);
                &&& b.room_id@ == room_id@
                &&& b.host@ == room.host
                &&& b.total_tips == room.total_tips
                &&& b.total_access_fees == room.total_access_fees
                &&& b.pending_tips == sum_tip_amounts(room.pending_tips)
                &&& b.pending_access_fees == sum_fee_amounts(room.pending_access_fees)
                &&& b.total_revenue == sat_add_u128(room.total_tips, room.total_access_fees)
                &&& b.pending_revenue == sat_add_u128(b.pending_tips, b.pending_access_fees)
                &&& b.active_tippers == count_distinct_tippers(room.pending_tips)
                &&& b.quality_tier_revenue.standard == sum_fee_amounts_for_tier(
                    room.pending_access_fees,
                    StreamQuality::Standard,
                )
                &&& b.quality_tier_revenue.high == sum_fee_amounts_for_tier(
                    room.pending_access_fees,
                    StreamQuality::High,
                )
                &&& b.quality_tier_revenue.premium == sum_fee_amounts_for_tier(
                    room.pending_access_fees,
                    StreamQuality::Premium,
                )
                &&& b.quality_tier_revenue.ultra == sum_fee_amounts_for_tier(
                    room.pending_access_fees,
                    StreamQuality::Ultra,
                )
            }),
    {
        let room = match self.get_room_stats(room_id) {
            Some(p) => p,
            None => {
                return Err(PaymentError::RoomNotFound);
            },
        };
        let total_pending_tips = sum_pending_tips(&room.pending_tips);
        let total_pending_access_fees = sum_pending_fees(&room.pending_access_fees);
        let total_revenue = match room.total_tips.checked_add(room.total_access_fees) {
            Some(x) => x,
            None => u128::MAX,
        };
        let pending_revenue = match total_pending_tips.checked_add(total_pending_access_fees) {
            Some(x) => x,
            None => u128::MAX,
        };
        let active_tippers = count_active_tippers(&room.pending_tips);
        let quality_tier_revenue = calculate_quality_tier_revenue(room);
        Ok(
            RoomRevenueBreakdown {
                room_id: room_id.clone(),
                host: room.host.clone(),
                total_tips: room.total_tips,
                total_access_fees: room.total_access_fees,
                pending_tips: total_pending_tips,
                pending_access_fees: total_pending_access_fees,
                total_revenue,
                pending_revenue,
                active_tippers,
                quality_tier_revenue,
            },
        )
    }
}

} // verus!
