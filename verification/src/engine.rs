//! The mutating operation surface: tip admission, access-fee admission,
//! settlement, room administration and withdrawal authorization.
//!
//! Every operation takes the authenticated caller (or `None` when the
//! request is unauthenticated) and the current time as arguments and is a
//! total function over the ledger.  Each is specified by an error function,
//! which names the error returned for each rejected input in the order the
//! checks are made, and an application function over ledger views, which
//! gives the state after an admitted input.  Errors leave the ledger
//! unchanged: admission is all-or-nothing.

use vstd::arithmetic::mul::lemma_mul_inequality;
use vstd::prelude::*;

use crate::ledger::lemma_room_idx_is;
use crate::ledger::lemma_user_idx_is;
use crate::ledger::LedgerView;
use crate::ledger::PaymentLedger;
use crate::receipt::batch_hash;
use crate::receipt::batch_hash_from;
use crate::receipt::tx_mix_exec;
use crate::receipt::withdrawal_commit;
use crate::receipt::withdrawal_commit_exec;
use crate::receipt::RECEIPT_SEED;
use crate::types::PaymentError;
use crate::types::PaymentOperation;
use crate::types::PaymentResult;
use crate::types::PendingTip;
use crate::types::PendingTipView;
use crate::types::PendingAccessFee;
use crate::types::PendingAccessFeeView;
use crate::types::PendingTransaction;
use crate::types::PendingTransactionView;
use crate::types::QualityTierPricing;
use crate::types::RoomId;
use crate::types::RoomPaymentPoolView;
use crate::types::RoomPaymentSettings;
use crate::types::StreamQuality;
use crate::types::Timestamp;
use crate::types::TipId;
use crate::types::UserId;
use crate::types::UserPaymentStateView;
use crate::types::sum_tx_amounts;
use crate::types::tx_amount;

verus! {

/// View of an optional caller identity.
pub open spec fn id_view(caller: Option<&UserId>) -> Option<Seq<char>> {
    match caller {
        Some(c) => Some(c@),
        None => None,
    }
}

/// View of an optional message.
pub open spec fn msg_view(message: Option<String>) -> Option<Seq<char>> {
    match message {
        Some(m) => Some(m@),
        None => None,
    }
}

/// Whether a tip message exceeds the admitted length: more than 500 code
/// units, that is bytes of its encoded form.
pub open spec fn message_too_long(message: Option<Seq<char>>) -> bool {
    match message {
        Some(m) => vstd::utf8::encode_utf8(m).len() > 500,
        None => false,
    }
}

/// The auto-settlement policy: a user's pending transactions must be
/// cleared now when the balance has reached the auto-settle threshold or
/// the queue has reached its maximum length.
pub open spec fn auto_settle_due(u: UserPaymentStateView) -> bool {
    u.balance >= u.preferences.auto_settle_threshold || u.pending_transactions.len()
        >= u.preferences.max_pending
}

/// The ledger after clearing the pending-transaction queue of the user
/// keyed by `user_id` (meaningful when that user exists).
pub open spec fn clear_user_txs(pre: LedgerView, user_id: Seq<char>) -> LedgerView {
    let i = pre.user_idx(user_id);
    LedgerView {
        users: pre.users.update(
            i,
            UserPaymentStateView { pending_transactions: Seq::empty(), ..pre.users[i] },
        ),
        ..pre
    }
}

/// The sum of a queue's amounts is bounded by its length times the largest
/// single amount.
pub proof fn lemma_sum_tx_bounds(s: Seq<PendingTransactionView>)
    ensures
        0 <= sum_tx_amounts(s) <= s.len() * (u64::MAX as int),
    decreases s.len(),
{
    if s.len() == 0 {
    } else {
        lemma_sum_tx_bounds(s.drop_last());
        assert((s.len() - 1) * (u64::MAX as int) + (u64::MAX as int) == s.len() * (
        u64::MAX as int)) by (nonlinear_arith);
    }
}

/// Replacing a user while keeping its identifier preserves well-formedness.
pub proof fn lemma_wf_update_user(pre: LedgerView, i: int, u: UserPaymentStateView)
    requires
        pre.wf(),
        0 <= i < pre.users.len(),
        u.user_id == pre.users[i].user_id,
    ensures
        (LedgerView { users: pre.users.update(i, u), ..pre }).wf(),
{
}

/// Replacing a room while keeping its identifier preserves well-formedness.
pub proof fn lemma_wf_update_room(pre: LedgerView, i: int, room: RoomPaymentPoolView)
    requires
        pre.wf(),
        0 <= i < pre.rooms.len(),
        room.room_id == pre.rooms[i].room_id,
    ensures
        (LedgerView { rooms: pre.rooms.update(i, room), ..pre }).wf(),
{
}

/// Floor-clamped subtraction: spending never drives a balance below zero.
pub open spec fn sat_sub_u128(a: u128, b: u128) -> u128 {
    if a < b {
        0
    } else {
        (a - b) as u128
    }
}

/// The error with which a tip is rejected, or `None` when it is admitted.
/// The checks are made in this order: a zero amount, an unauthenticated
/// caller, an over-long message, a missing room, a missing caller account,
/// an insufficient balance, and an overflowing all-time tip total.
pub open spec fn tip_error(
    pre: LedgerView,
    caller: Option<Seq<char>>,
    room_id: Seq<char>,
    amount: u64,
    message: Option<Seq<char>>,
) -> Option<PaymentError> {
    if amount == 0 {
        Some(PaymentError::InvalidAmount)
    } else {
        match caller {
            None => Some(PaymentError::Unauthorized),
            Some(c) => {
                if message_too_long(message) {
                    Some(PaymentError::InvalidAmount)
                } else if !pre.has_room(room_id) {
                    Some(PaymentError::RoomNotFound)
                } else if !pre.has_user(c) {
                    Some(PaymentError::UserNotFound)
                } else if pre.user_at(c).balance < amount {
                    Some(PaymentError::InsufficientBalance)
                } else if pre.room_at(room_id).total_tips + amount > u128::MAX {
                    Some(PaymentError::InvalidAmount)
                } else {
                    None
                }
            },
        }
    }
}

/// The ledger right after an admitted tip, before the auto-settlement
/// policy is consulted: the tip is appended to the room's pending tips and
/// to the caller's queue, the room's all-time tip total grows by the
/// amount, and the caller's balance shrinks by it (floor-clamped).
pub open spec fn apply_tip_admission(
    pre: LedgerView,
    caller: Seq<char>,
    room_id: Seq<char>,
    amount: u64,
    message: Option<Seq<char>>,
    super_chat: bool,
    now: Timestamp,
) -> LedgerView {
    let ri = pre.room_idx(room_id);
    let ui = pre.user_idx(caller);
    let room = pre.rooms[ri];
    let user = pre.users[ui];
    let tip = PendingTipView { from: caller, amount, message, timestamp: now, super_chat };
    let room2 = RoomPaymentPoolView {
        total_tips: (room.total_tips + amount) as u128,
        pending_tips: room.pending_tips.push(tip),
        ..room
    };
    let user2 = UserPaymentStateView {
        balance: sat_sub_u128(user.balance, amount as u128),
        pending_transactions: user.pending_transactions.push(PendingTransactionView::Tip(tip)),
        ..user
    };
    LedgerView {
        rooms: pre.rooms.update(ri, room2),
        users: pre.users.update(ui, user2),
        stats: pre.stats,
    }
}

/// The price of `tier` in `p`, defaulting to zero for an absent tier
/// (meaningful only where the tier is known to be present).
pub open spec fn price_or_zero(p: QualityTierPricing, tier: StreamQuality) -> u64 {
    match p.spec_price(tier) {
        Some(x) => x,
        None => 0,
    }
}

/// The error with which an access-fee purchase is rejected, or `None` when
/// it is admitted.  The checks are made in this order: an unauthenticated
/// caller, a missing room, payments disabled for the room, a tier absent
/// from the room's price table, a missing caller account, an insufficient
/// balance, and an overflowing all-time fee total.
pub open spec fn access_fee_error(
    pre: LedgerView,
    caller: Option<Seq<char>>,
    room_id: Seq<char>,
    tier: StreamQuality,
) -> Option<PaymentError> {
    match caller {
        None => Some(PaymentError::Unauthorized),
        Some(c) => {
            if !pre.has_room(room_id) {
                Some(PaymentError::RoomNotFound)
            } else {
                let room = pre.room_at(room_id);
                if !room.settings.payments_enabled {
                    Some(PaymentError::PaymentsDisabled)
                } else {
                    match room.settings.quality_tiers.spec_price(tier) {
                        None => Some(PaymentError::InvalidQualityTier),
                        Some(price) => {
                            if !pre.has_user(c) {
                                Some(PaymentError::UserNotFound)
                            } else if pre.user_at(c).balance < price {
                                Some(PaymentError::InsufficientBalance)
                            } else if room.total_access_fees + price > u128::MAX {
                                Some(PaymentError::InvalidAmount)
                            } else {
                                None
                            }
                        },
                    }
                }
            }
        },
    }
}

/// The ledger after an admitted access-fee purchase: the fee is appended to
/// the room's pending fees and to the caller's queue, the room's all-time
/// fee total grows by the tier's price, and the caller's balance shrinks by
/// it (floor-clamped).  Unlike tip admission, this path does not consult
/// the auto-settlement policy.
pub open spec fn apply_access_fee(
    pre: LedgerView,
    caller: Seq<char>,
    room_id: Seq<char>,
    tier: StreamQuality,
    now: Timestamp,
) -> LedgerView {
    let ri = pre.room_idx(room_id);
    let ui = pre.user_idx(caller);
    let room = pre.rooms[ri];
    let user = pre.users[ui];
    let price = price_or_zero(room.settings.quality_tiers, tier);
    let fee = PendingAccessFeeView {
        user_id: caller,
        amount: price,
        quality_tier: tier,
        timestamp: now,
    };
    let room2 = RoomPaymentPoolView {
        total_access_fees: (room.total_access_fees + price) as u128,
        pending_access_fees: room.pending_access_fees.push(fee),
        ..room
    };
    let user2 = UserPaymentStateView {
        balance: sat_sub_u128(user.balance, price as u128),
        pending_transactions: user.pending_transactions.push(
            PendingTransactionView::AccessFee(fee),
        ),
        ..user
    };
    LedgerView {
        rooms: pre.rooms.update(ri, room2),
        users: pre.users.update(ui, user2),
        stats: pre.stats,
    }
}

/// The error with which a settings update is rejected, or `None` when it is
/// accepted: an unauthenticated caller, a missing room, a caller other than
/// the room's host, and a zero minimum tip, in that order.
pub open spec fn settings_error(
    pre: LedgerView,
    caller: Option<Seq<char>>,
    room_id: Seq<char>,
    settings: RoomPaymentSettings,
) -> Option<PaymentError> {
    match caller {
        None => Some(PaymentError::Unauthorized),
        Some(c) => {
            if !pre.has_room(room_id) {
                Some(PaymentError::RoomNotFound)
            } else if pre.room_at(room_id).host != c {
                Some(PaymentError::Unauthorized)
            } else if settings.min_tip == 0 {
                Some(PaymentError::InvalidRoomSettings)
            } else {
                None
            }
        },
    }
}

/// The ledger after an accepted settings update: the room's settings are
/// replaced wholesale.
pub open spec fn apply_settings(
    pre: LedgerView,
    room_id: Seq<char>,
    settings: RoomPaymentSettings,
) -> LedgerView {
    let ri = pre.room_idx(room_id);
    LedgerView {
        rooms: pre.rooms.update(ri, RoomPaymentPoolView { settings, ..pre.rooms[ri] }),
        ..pre
    }
}

/// The error with which a withdrawal is refused, or `None` when it is
/// authorized: an unauthenticated caller, a missing room, a caller other
/// than the room's host, a zero amount, and an amount exceeding the room's
/// accumulated revenue (all-time tips plus all-time access fees), in that
/// order.
pub open spec fn withdraw_error(
    pre: LedgerView,
    caller: Option<Seq<char>>,
    room_id: Seq<char>,
    amount: u128,
) -> Option<PaymentError> {
    match caller {
        None => Some(PaymentError::Unauthorized),
        Some(c) => {
            if !pre.has_room(room_id) {
                Some(PaymentError::RoomNotFound)
            } else if pre.room_at(room_id).host != c {
                Some(PaymentError::Unauthorized)
            } else if amount == 0 {
                Some(PaymentError::InvalidAmount)
            } else if amount > pre.room_at(room_id).total_tips + pre.room_at(
                room_id,
            ).total_access_fees {
                Some(PaymentError::InsufficientBalance)
            } else {
                None
            }
        },
    }
}

/// The ledger after an admitted tip: the admission itself, followed by a
/// synchronous settlement of the caller's queue when the auto-settlement
/// policy says one is due.
pub open spec fn send_tip_state(
    pre: LedgerView,
    caller: Seq<char>,
    room_id: Seq<char>,
    amount: u64,
    message: Option<Seq<char>>,
    super_chat: bool,
    now: Timestamp,
) -> LedgerView {
    let mid = apply_tip_admission(pre, caller, room_id, amount, message, super_chat, now);
    if auto_settle_due(mid.user_at(caller)) {
        clear_user_txs(mid, caller)
    } else {
        mid
    }
}

impl PaymentLedger {
    /// Admits a tip from `caller` to the room keyed by `room_id`, rejecting
    /// it with the error named by [`tip_error`] and leaving the ledger
    /// unchanged on any failed check.  On admission the ledger moves to
    /// [`send_tip_state`]: the room and the caller are charged together,
    /// and the caller's queue is settled at once when the auto-settlement
    /// policy is due.  The returned tip id is derived from the room, the
    /// time and the amount.
    pub fn process_tip(
        &mut self,
        caller: Option<&UserId>,
        room_id: &RoomId,
        amount: u64,
        message: Option<String>,
        super_chat: bool,
        now: Timestamp,
    ) -> (r: PaymentResult)
        requires
            old(self)@.wf(),
        ensures
            final(self)@.wf(),
            match (tip_error(old(self)@, id_view(caller), room_id@, amount, msg_view(message)),
            caller) {
                (Some(e), _) => final(self)@ == old(self)@ && r == (PaymentResult::PaymentError {
                    error: e,
                }),
                (None, Some(c)) => {
                    &&& final(self)@ == send_tip_state(
                        old(self)@,
                        c@,
                        room_id@,
                        amount,
                        msg_view(message),
                        super_chat,
                        now,
                    )
                    &&& (r matches PaymentResult::TipSent {
                        tip_id,
                        amount: a,
                        pending_settlement,
                    } && tip_id.room_id@ == room_id@ && tip_id.timestamp == now && tip_id.amount
                        == amount && a == amount && pending_settlement == true)
                },
                (None, None) => true,
            },
    {
        let ghost pre = self@;
        let ghost mv = msg_view(message);
        if amount == 0 {
            return PaymentResult::PaymentError { error: PaymentError::InvalidAmount };
        }
        let user_id = match caller {
            Some(c) => c,
            None => {
                return PaymentResult::PaymentError { error: PaymentError::Unauthorized };
            },
        };
        if let Some(m) = &message {
            if m.as_str().as_bytes().len() > 500 {
                return PaymentResult::PaymentError { error: PaymentError::InvalidAmount };
            }
        }
        let ri = match self.find_room_index(room_id) {
            Some(i) => i,
            None => {
                return PaymentResult::PaymentError { error: PaymentError::RoomNotFound };
            },
        };
        let ui = match self.find_user_index(user_id) {
            Some(i) => i,
            None => {
                return PaymentResult::PaymentError { error: PaymentError::UserNotFound };
            },
        };
        proof {
            lemma_room_idx_is(pre, room_id@, ri as int);
            lemma_user_idx_is(pre, user_id@, ui as int);
        }
        if self.users[ui].balance < amount as u128 {
            return PaymentResult::PaymentError { error: PaymentError::InsufficientBalance };
        }
        if self.rooms[ri].total_tips > u128::MAX - amount as u128 {
            return PaymentResult::PaymentError { error: PaymentError::InvalidAmount };
        }
        let message2 = message.clone();
        proof {
            assert(message2 == message);
        }
        let tip_room = PendingTip {
            from: user_id.clone(),
            amount,
            message,
            timestamp: now,
            super_chat,
        };
        let tip_user = PendingTip {
            from: user_id.clone(),
            amount,
            message: message2,
            timestamp: now,
            super_chat,
        };
        proof {
            assert(tip_room@ == tip_user@);
        }
        let room = &mut self.rooms[ri];
        room.total_tips = room.total_tips + amount as u128;
        room.pending_tips.push(tip_room);
        let user = &mut self.users[ui];
        user.pending_transactions.push(PendingTransaction::Tip(tip_user));
        let b = user.balance;
        user.balance = if b < amount as u128 {
            0
        } else {
            b - amount as u128
        };
        proof {
            let mid = apply_tip_admission(pre, user_id@, room_id@, amount, mv, super_chat, now);
            assert(self@.rooms =~~= mid.rooms);
            assert(self@.users =~~= mid.users);
            assert(self@ =~~= mid);
            lemma_wf_update_room(pre, ri as int, mid.rooms[ri as int]);
            lemma_wf_update_user(
                LedgerView { rooms: mid.rooms, ..pre },
                ui as int,
                mid.users[ui as int],
            );
            assert(self@.wf());
            lemma_user_idx_is(self@, user_id@, ui as int);
        }
        let u = &self.users[ui];
        let due = u.balance >= u.preferences.auto_settle_threshold
            || u.pending_transactions.len() >= u.preferences.max_pending;
        if due {
            let _ = self.settle_user_transactions(user_id);
        }
        PaymentResult::TipSent {
            tip_id: TipId { room_id: room_id.clone(), timestamp: now, amount },
            amount,
            pending_settlement: true,
        }
    }

    /// Admits a quality-tier purchase by `caller` in the room keyed by
    /// `room_id`, rejecting it with the error named by [`access_fee_error`]
    /// and leaving the ledger unchanged on any failed check.  On admission
    /// the ledger moves to [`apply_access_fee`]; no auto-settlement is
    /// consulted on this path.
    pub fn process_access_fee(
        &mut self,
        caller: Option<&UserId>,
        room_id: &RoomId,
        quality_tier: StreamQuality,
        now: Timestamp,
    ) -> (r: PaymentResult)
        requires
            old(self)@.wf(),
        ensures
            final(self)@.wf(),
            match (access_fee_error(old(self)@, id_view(caller), room_id@, quality_tier), caller) {
                (Some(e), _) => final(self)@ == old(self)@ && r == (PaymentResult::PaymentError {
                    error: e,
                }),
                (None, Some(c)) => {
                    &&& final(self)@ == apply_access_fee(
                        old(self)@,
                        c@,
                        room_id@,
                        quality_tier,
                        now,
                    )
                    &&& (r matches PaymentResult::AccessFeePaid {
                        room_id: rid,
                        quality_tier: qt,
                        pending_settlement,
                    } && rid@ == room_id@ && qt == quality_tier && pending_settlement == true)
                },
                (None, None) => true,
            },
    {
        let ghost pre = self@;
        let user_id = match caller {
            Some(c) => c,
            None => {
                return PaymentResult::PaymentError { error: PaymentError::Unauthorized };
            },
        };
        let ri = match self.find_room_index(room_id) {
            Some(i) => i,
            None => {
                return PaymentResult::PaymentError { error: PaymentError::RoomNotFound };
            },
        };
        proof {
            lemma_room_idx_is(pre, room_id@, ri as int);
        }
        if !self.rooms[ri].settings.payments_enabled {
            return PaymentResult::PaymentError { error: PaymentError::PaymentsDisabled };
        }
        let amount = match self.rooms[ri].settings.quality_tiers.price(quality_tier) {
            Some(cost) => cost,
            None => {
                return PaymentResult::PaymentError { error: PaymentError::InvalidQualityTier };
            },
        };
        let ui = match self.find_user_index(user_id) {
            Some(i) => i,
            None => {
                return PaymentResult::PaymentError { error: PaymentError::UserNotFound };
            },
        };
        proof {
            lemma_user_idx_is(pre, user_id@, ui as int);
        }
        if self.users[ui].balance < amount as u128 {
            return PaymentResult::PaymentError { error: PaymentError::InsufficientBalance };
        }
        if self.rooms[ri].total_access_fees > u128::MAX - amount as u128 {
            return PaymentResult::PaymentError { error: PaymentError::InvalidAmount };
        }
        let fee_room = PendingAccessFee {
            user_id: user_id.clone(),
            amount,
            quality_tier,
            timestamp: now,
        };
        let fee_user = PendingAccessFee {
            user_id: user_id.clone(),
            amount,
            quality_tier,
            timestamp: now,
        };
        proof {
            assert(fee_room@ == fee_user@);
        }
        let room = &mut self.rooms[ri];
        room.total_access_fees = room.total_access_fees + amount as u128;
        room.pending_access_fees.push(fee_room);
        let user = &mut self.users[ui];
        user.pending_transactions.push(PendingTransaction::AccessFee(fee_user));
        let b = user.balance;
        user.balance = if b < amount as u128 {
            0
        } else {
            b - amount as u128
        };
        proof {
            let mid = apply_access_fee(pre, user_id@, room_id@, quality_tier, now);
            assert(self@.rooms =~~= mid.rooms);
            assert(self@.users =~~= mid.users);
            assert(self@ =~~= mid);
            lemma_wf_update_room(pre, ri as int, mid.rooms[ri as int]);
            lemma_wf_update_user(
                LedgerView { rooms: mid.rooms, ..pre },
                ui as int,
                mid.users[ui as int],
            );
        }
        PaymentResult::AccessFeePaid {
            room_id: room_id.clone(),
            quality_tier,
            pending_settlement: true,
        }
    }

    /// Replaces the settings of the room keyed by `room_id`, wholesale.
    /// Only the room's host may do so, and a minimum tip of zero is
    /// rejected; on any rejection (named by [`settings_error`]) the
    /// settings, and the whole ledger, remain unchanged.
    pub fn update_room_settings(
        &mut self,
        caller: Option<&UserId>,
        room_id: &RoomId,
        settings: RoomPaymentSettings,
    ) -> (r: PaymentResult)
        requires
            old(self)@.wf(),
        ensures
            final(self)@.wf(),
            match settings_error(old(self)@, id_view(caller), room_id@, settings) {
                Some(e) => final(self)@ == old(self)@ && r == (PaymentResult::PaymentError {
                    error: e,
                }),
                None => {
                    &&& final(self)@ == apply_settings(old(self)@, room_id@, settings)
                    &&& (r matches PaymentResult::RoomSettingsUpdated { room_id: rid } && rid@
                        == room_id@)
                },
            },
    {
        let ghost pre = self@;
        let user_id = match caller {
            Some(c) => c,
            None => {
                return PaymentResult::PaymentError { error: PaymentError::Unauthorized };
            },
        };
        let ri = match self.find_room_index(room_id) {
            Some(i) => i,
            None => {
                return PaymentResult::PaymentError { error: PaymentError::RoomNotFound };
            },
        };
        proof {
            lemma_room_idx_is(pre, room_id@, ri as int);
        }
        if !(self.rooms[ri].host == *user_id) {
            return PaymentResult::PaymentError { error: PaymentError::Unauthorized };
        }
        if settings.min_tip == 0 {
            return PaymentResult::PaymentError { error: PaymentError::InvalidRoomSettings };
        }
        let room = &mut self.rooms[ri];
        room.settings = settings;
        proof {
            let post = apply_settings(pre, room_id@, settings);
            assert(self@.rooms =~~= post.rooms);
            assert(self@ =~~= post);
            lemma_wf_update_room(pre, ri as int, post.rooms[ri as int]);
        }
        PaymentResult::RoomSettingsUpdated { room_id: room_id.clone() }
    }

    /// Authorizes a withdrawal of `amount` by the host of the room keyed by
    /// `room_id` and acknowledges it with a deterministic receipt over the
    /// room, the amount and the time.  The amount must not exceed the
    /// room's accumulated revenue (all-time tips plus all-time access
    /// fees); the rejections are named by [`withdraw_error`].  The ledger
    /// itself is read only: the accumulated totals are not debited here —
    /// whether a withdrawal should consume them is an open policy decision
    /// left to the host environment's payout pipeline.
    pub fn withdraw_funds(
        &self,
        caller: Option<&UserId>,
        room_id: &RoomId,
        amount: u128,
        now: Timestamp,
    ) -> (r: PaymentResult)
        requires
            self@.wf(),
        ensures
            match withdraw_error(self@, id_view(caller), room_id@, amount) {
                Some(e) => r == (PaymentResult::PaymentError { error: e }),
                None => (r matches PaymentResult::FundsWithdrawn {
                    room_id: rid,
                    amount: a,
                    withdrawal_hash,
                } && rid@ == room_id@ && a == amount && withdrawal_hash == withdrawal_commit(
                    room_id@,
                    amount,
                    now,
                )),
            },
    {
        let user_id = match caller {
            Some(c) => c,
            None => {
                return PaymentResult::PaymentError { error: PaymentError::Unauthorized };
            },
        };
        let ri = match self.find_room_index(room_id) {
            Some(i) => i,
            None => {
                return PaymentResult::PaymentError { error: PaymentError::RoomNotFound };
            },
        };
        proof {
            lemma_room_idx_is(self@, room_id@, ri as int);
        }
        if !(self.rooms[ri].host == *user_id) {
            return PaymentResult::PaymentError { error: PaymentError::Unauthorized };
        }
        if amount == 0 {
            return PaymentResult::PaymentError { error: PaymentError::InvalidAmount };
        }
        let covered = match self.rooms[ri].total_tips.checked_add(
            self.rooms[ri].total_access_fees,
        ) {
            Some(available) => amount <= available,
            None => true,
        };
        if !covered {
            return PaymentResult::PaymentError { error: PaymentError::InsufficientBalance };
        }
        let withdrawal_hash = withdrawal_commit_exec(room_id, amount, now);
        PaymentResult::FundsWithdrawn { room_id: room_id.clone(), amount, withdrawal_hash }
    }

    /// Clears the pending-transaction queue of the user keyed by `user_id`
    /// and acknowledges the batch: how many transactions were cleared, the
    /// sum of their amounts, and a deterministic receipt over the batch
    /// contents.  Rooms are untouched: their totals were already updated at
    /// admission time, so settlement is a per-user bookkeeping checkpoint.
    pub fn settle_user_transactions(&mut self, user_id: &UserId) -> (r: PaymentResult)
        requires
            old(self)@.wf(),
        ensures
            final(self)@.wf(),
            !old(self)@.has_user(user_id@) ==> r == (PaymentResult::PaymentError {
                error: PaymentError::UserNotFound,
            }) && final(self)@ == old(self)@,
            old(self)@.has_user(user_id@) ==> {
                &&& final(self)@ == clear_user_txs(old(self)@, user_id@)
                &&& (r matches PaymentResult::TransactionsSettled {
                    user_id: rid,
                    transaction_count,
                    total_amount,
                    settlement_hash,
                } && rid@ == user_id@ && transaction_count == old(self)@.user_at(
                    user_id@,
                ).pending_transactions.len() && total_amount == sum_tx_amounts(
                    old(self)@.user_at(user_id@).pending_transactions,
                ) && settlement_hash == batch_hash(
                    old(self)@.user_at(user_id@).pending_transactions,
                ))
            },
    {
        let ghost pre = self@;
        let ui = match self.find_user_index(user_id) {
            Some(i) => i,
            None => {
                return PaymentResult::PaymentError { error: PaymentError::UserNotFound };
            },
        };
        proof {
            lemma_user_idx_is(pre, user_id@, ui as int);
        }
        let ghost q = pre.users[ui as int].pending_transactions;
        let n = self.users[ui].pending_transactions.len();
        let mut total: u128 = 0;
        let mut h: u64 = RECEIPT_SEED;
        let mut i: usize = 0;
        proof {
            assert(q.skip(0) =~= q);
            assert(q.take(0) =~= Seq::<PendingTransactionView>::empty());
        }
        while i < n
            invariant
                i <= n,
                self@ == pre,
                pre.wf(),
                ui < self.users.len(),
                q == pre.users[ui as int].pending_transactions,
                n == q.len(),
                total == sum_tx_amounts(q.take(i as int)),
                batch_hash_from(RECEIPT_SEED, q) == batch_hash_from(h, q.skip(i as int)),
            decreases n - i,
        {
            let tx = &self.users[ui].pending_transactions[i];
            proof {
                assert(tx@ == q[i as int]);
                lemma_sum_tx_bounds(q.take(i as int));
                lemma_mul_inequality(i as int, n as int, u64::MAX as int);
                lemma_mul_inequality(n as int, u64::MAX as int, u64::MAX as int);
                assert(q.take(i + 1).drop_last() =~= q.take(i as int));
                assert(q.take(i + 1).last() == q[i as int]);
                assert(q.skip(i as int).drop_first() =~= q.skip(i + 1));
            }
            let amt: u64 = match tx {
                PendingTransaction::Tip(t) => t.amount,
                PendingTransaction::AccessFee(f) => f.amount,
            };
            assert(amt == tx_amount(q[i as int]));
            total = total + amt as u128;
            h = tx_mix_exec(h, tx);
            i += 1;
        }
        proof {
            assert(q.take(n as int) =~= q);
            assert(q.skip(n as int) =~= Seq::<PendingTransactionView>::empty());
        }
        let u = &mut self.users[ui];
        u.pending_transactions.clear();
        proof {
            assert(self@.users =~~= clear_user_txs(pre, user_id@).users);
            assert(self@ =~~= clear_user_txs(pre, user_id@));
            lemma_wf_update_user(
                pre,
                ui as int,
                self@.users[ui as int],
            );
        }
        PaymentResult::TransactionsSettled {
            user_id: user_id.clone(),
            transaction_count: n,
            total_amount: total,
            settlement_hash: h,
        }
    }

    /// Runs one operation of the mutating surface: the dispatcher hands
    /// each request to its engine with the same caller and time, and each
    /// arm keeps that engine's contract.
    pub fn execute_operation(
        &mut self,
        caller: Option<&UserId>,
        operation: PaymentOperation,
        now: Timestamp,
    ) -> (r: PaymentResult)
        requires
            old(self)@.wf(),
        ensures
            final(self)@.wf(),
            match operation {
                PaymentOperation::SendTip { room_id, amount, message, super_chat } => match ((
                tip_error(old(self)@, id_view(caller), room_id@, amount, msg_view(message))),
                caller) {
                    (Some(e), _) => final(self)@ == old(self)@ && r
                        == (PaymentResult::PaymentError { error: e }),
                    (None, Some(c)) => {
                        &&& final(self)@ == send_tip_state(
                            old(self)@,
                            c@,
                            room_id@,
                            amount,
                            msg_view(message),
                            super_chat,
                            now,
                        )
                        &&& (r matches PaymentResult::TipSent {
                            tip_id,
                            amount: a,
                            pending_settlement,
                        } && tip_id.room_id@ == room_id@ && tip_id.timestamp == now
                            && tip_id.amount == amount && a == amount && pending_settlement
                            == true)
                    },
                    (None, None) => true,
                },
                PaymentOperation::PayAccessFee { room_id, quality_tier } => match ((
                access_fee_error(old(self)@, id_view(caller), room_id@, quality_tier)), caller) {
                    (Some(e), _) => final(self)@ == old(self)@ && r
                        == (PaymentResult::PaymentError { error: e }),
                    (None, Some(c)) => {
                        &&& final(self)@ == apply_access_fee(
                            old(self)@,
                            c@,
                            room_id@,
                            quality_tier,
                            now,
                        )
                        &&& (r matches PaymentResult::AccessFeePaid {
                            room_id: rid,
                            quality_tier: qt,
                            pending_settlement,
                        } && rid@ == room_id@ && qt == quality_tier && pending_settlement == true)
                    },
                    (None, None) => true,
                },
                PaymentOperation::SettlePendingTransactions { user_id } => {
                    &&& !old(self)@.has_user(user_id@) ==> r == (PaymentResult::PaymentError {
                        error: PaymentError::UserNotFound,
                    }) && final(self)@ == old(self)@
                    &&& old(self)@.has_user(user_id@) ==> {
                        &&& final(self)@ == clear_user_txs(old(self)@, user_id@)
                        &&& (r matches PaymentResult::TransactionsSettled {
                            user_id: rid,
                            transaction_count,
                            total_amount,
                            settlement_hash,
                        } && rid@ == user_id@ && transaction_count == old(self)@.user_at(
                            user_id@,
                        ).pending_transactions.len() && total_amount == sum_tx_amounts(
                            old(self)@.user_at(user_id@).pending_transactions,
                        ) && settlement_hash == batch_hash(
                            old(self)@.user_at(user_id@).pending_transactions,
                        ))
                    }
                },
                PaymentOperation::UpdateRoomSettings { room_id, settings } => match (
                settings_error(old(self)@, id_view(caller), room_id@, settings)) {
                    Some(e) => final(self)@ == old(self)@ && r == (PaymentResult::PaymentError {
                        error: e,
                    }),
                    None => {
                        &&& final(self)@ == apply_settings(old(self)@, room_id@, settings)
                        &&& (r matches PaymentResult::RoomSettingsUpdated { room_id: rid } && rid@
                            == room_id@)
                    },
                },
                PaymentOperation::WithdrawFunds { room_id, amount } => {
                    &&& final(self)@ == old(self)@
                    &&& match withdraw_error(old(self)@, id_view(caller), room_id@, amount) {
                        Some(e) => r == (PaymentResult::PaymentError { error: e }),
                        None => (r matches PaymentResult::FundsWithdrawn {
                            room_id: rid,
                            amount: a,
                            withdrawal_hash,
                        } && rid@ == room_id@ && a == amount && withdrawal_hash
                            == withdrawal_commit(room_id@, amount, now)),
                    }
                },
            },
    {
        match operation {
            PaymentOperation::SendTip { room_id, amount, message, super_chat } => {
                self.process_tip(caller, &room_id, amount, message, super_chat, now)
            },
            PaymentOperation::PayAccessFee { room_id, quality_tier } => {
                self.process_access_fee(caller, &room_id, quality_tier, now)
            },
            PaymentOperation::SettlePendingTransactions { user_id } => {
                self.settle_user_transactions(&user_id)
            },
            PaymentOperation::UpdateRoomSettings { room_id, settings } => {
                self.update_room_settings(caller, &room_id, settings)
            },
            PaymentOperation::WithdrawFunds { room_id, amount } => {
                self.withdraw_funds(caller, &room_id, amount, now)
            },
        }
    }
}

} // verus!
