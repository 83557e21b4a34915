//! The ledger's laws: properties of the operation surface, stated over the
//! same spec functions that the operations' contracts use and proved once
//! for all inputs.  Together with each operation's `ensures` (errors leave
//! the ledger unchanged; admissions move it to the stated view) these pin
//! down the behaviour the tests exercise on concrete values.

use vstd::prelude::*;

use crate::engine::access_fee_error;
use crate::engine::apply_access_fee;
use crate::engine::apply_tip_admission;
use crate::engine::price_or_zero;
use crate::engine::auto_settle_due;
use crate::engine::clear_user_txs;
use crate::engine::lemma_wf_update_room;
use crate::engine::lemma_wf_update_user;
use crate::engine::message_too_long;
use crate::engine::sat_sub_u128;
use crate::engine::send_tip_state;
use crate::engine::settings_error;
use crate::engine::tip_error;
use crate::engine::withdraw_error;
use crate::ledger::lemma_room_idx_is;
use crate::ledger::lemma_user_idx_is;
use crate::ledger::LedgerView;
use crate::types::PaymentError;
use crate::types::PendingAccessFeeView;
use crate::types::PendingTipView;
use crate::types::PendingTransactionView;
use crate::types::RoomPaymentSettings;
use crate::types::StreamQuality;
use crate::types::Timestamp;
use crate::types::UserPaymentStateView;
use crate::types::sum_tx_amounts;

verus! {

/// For every admitted tip, the room's all-time tip total grows by exactly
/// the amount, and the caller's balance becomes the floor-clamped
/// difference — whether or not the admission triggered an auto-settlement.
pub proof fn lemma_tip_conservation(
    pre: LedgerView,
    caller: Seq<char>,
    room_id: Seq<char>,
    amount: u64,
    message: Option<Seq<char>>,
    super_chat: bool,
    now: Timestamp,
)
    requires
        pre.wf(),
        tip_error(pre, Some(caller), room_id, amount, message) is None,
    ensures
        ({
            let post = send_tip_state(pre, caller, room_id, amount, message, super_chat, now);
            &&& post.room_at(room_id).total_tips == pre.room_at(room_id).total_tips + amount
            &&& post.user_at(caller).balance == sat_sub_u128(
                pre.user_at(caller).balance,
                amount as u128,
            )
        }),
{
    let ri = pre.room_idx(room_id);
    let ui = pre.user_idx(caller);
    let mid = apply_tip_admission(pre, caller, room_id, amount, message, super_chat, now);
    lemma_wf_update_room(pre, ri, mid.rooms[ri]);
    lemma_wf_update_user(LedgerView { rooms: mid.rooms, ..pre }, ui, mid.users[ui]);
    lemma_room_idx_is(mid, room_id, ri);
    lemma_user_idx_is(mid, caller, ui);
    if auto_settle_due(mid.user_at(caller)) {
        let post = clear_user_txs(mid, caller);
        lemma_wf_update_user(mid, ui, post.users[ui]);
        lemma_room_idx_is(post, room_id, ri);
        lemma_user_idx_is(post, caller, ui);
    }
}

/// One admitted tip is recorded twice, as structurally identical twins:
/// appended to the room's pending tips and, wrapped as a transaction, to
/// the caller's queue.  When the admission triggers an auto-settlement the
/// caller's queue is cleared again, but the room-side record stays: room
/// queues are an append-only history.
pub proof fn lemma_tip_twin_records(
    pre: LedgerView,
    caller: Seq<char>,
    room_id: Seq<char>,
    amount: u64,
    message: Option<Seq<char>>,
    super_chat: bool,
    now: Timestamp,
)
    requires
        pre.wf(),
        tip_error(pre, Some(caller), room_id, amount, message) is None,
    ensures
        ({
            let tip = PendingTipView { from: caller, amount, message, timestamp: now, super_chat };
            let mid = apply_tip_admission(pre, caller, room_id, amount, message, super_chat, now);
            let post = send_tip_state(pre, caller, room_id, amount, message, super_chat, now);
            &&& post.room_at(room_id).pending_tips == pre.room_at(room_id).pending_tips.push(tip)
            &&& !auto_settle_due(mid.user_at(caller)) ==> post.user_at(
                caller,
            ).pending_transactions == pre.user_at(caller).pending_transactions.push(
                PendingTransactionView::Tip(tip),
            )
            &&& auto_settle_due(mid.user_at(caller)) ==> post.user_at(
                caller,
            ).pending_transactions =~= Seq::<PendingTransactionView>::empty()
        }),
{
    let ri = pre.room_idx(room_id);
    let ui = pre.user_idx(caller);
    let mid = apply_tip_admission(pre, caller, room_id, amount, message, super_chat, now);
    lemma_wf_update_room(pre, ri, mid.rooms[ri]);
    lemma_wf_update_user(LedgerView { rooms: mid.rooms, ..pre }, ui, mid.users[ui]);
    lemma_room_idx_is(mid, room_id, ri);
    lemma_user_idx_is(mid, caller, ui);
    if auto_settle_due(mid.user_at(caller)) {
        let post = clear_user_txs(mid, caller);
        lemma_wf_update_user(mid, ui, post.users[ui]);
        lemma_room_idx_is(post, room_id, ri);
        lemma_user_idx_is(post, caller, ui);
    }
}

/// One admitted access-fee purchase is recorded twice as well: appended to
/// the room's pending fees and, wrapped as a transaction, to the caller's
/// queue, both carrying the tier's price at admission time.
pub proof fn lemma_fee_twin_records(
    pre: LedgerView,
    caller: Seq<char>,
    room_id: Seq<char>,
    tier: StreamQuality,
    now: Timestamp,
)
    requires
        pre.wf(),
        access_fee_error(pre, Some(caller), room_id, tier) is None,
    ensures
        ({
            let fee = PendingAccessFeeView {
                user_id: caller,
                amount: price_or_zero(pre.room_at(room_id).settings.quality_tiers, tier),
                quality_tier: tier,
                timestamp: now,
            };
            let post = apply_access_fee(pre, caller, room_id, tier, now);
            &&& post.room_at(room_id).pending_access_fees == pre.room_at(
                room_id,
            ).pending_access_fees.push(fee)
            &&& post.user_at(caller).pending_transactions == pre.user_at(
                caller,
            ).pending_transactions.push(PendingTransactionView::AccessFee(fee))
        }),
{
    let ri = pre.room_idx(room_id);
    let ui = pre.user_idx(caller);
    let post = apply_access_fee(pre, caller, room_id, tier, now);
    lemma_wf_update_room(pre, ri, post.rooms[ri]);
    lemma_wf_update_user(LedgerView { rooms: post.rooms, ..pre }, ui, post.users[ui]);
    lemma_room_idx_is(post, room_id, ri);
    lemma_user_idx_is(post, caller, ui);
}

/// A tip of zero is always rejected as `InvalidAmount`; by the tip
/// engine's contract such a rejection leaves every account unchanged.
pub proof fn lemma_zero_tip_rejected(
    pre: LedgerView,
    caller: Option<Seq<char>>,
    room_id: Seq<char>,
    message: Option<Seq<char>>,
)
    ensures
        tip_error(pre, caller, room_id, 0, message) == Some(PaymentError::InvalidAmount),
{
}

/// A tip against a missing room is rejected as `RoomNotFound`, and one
/// from an unregistered user as `UserNotFound`; by the tip engine's
/// contract neither rejection mutates any account.
pub proof fn lemma_tip_unknown_ids(
    pre: LedgerView,
    caller: Seq<char>,
    room_id: Seq<char>,
    amount: u64,
    message: Option<Seq<char>>,
)
    requires
        amount != 0,
        !message_too_long(message),
    ensures
        !pre.has_room(room_id) ==> tip_error(pre, Some(caller), room_id, amount, message) == Some(
            PaymentError::RoomNotFound,
        ),
        pre.has_room(room_id) && !pre.has_user(caller) ==> tip_error(
            pre,
            Some(caller),
            room_id,
            amount,
            message,
        ) == Some(PaymentError::UserNotFound),
{
}

/// An access fee in a room whose payments are disabled is rejected as
/// `PaymentsDisabled` whatever the caller's balance, and one for a tier
/// absent from the room's price table as `InvalidQualityTier`.
pub proof fn lemma_fee_rejections(
    pre: LedgerView,
    caller: Seq<char>,
    room_id: Seq<char>,
    tier: StreamQuality,
)
    requires
        pre.has_room(room_id),
    ensures
        !pre.room_at(room_id).settings.payments_enabled ==> access_fee_error(
            pre,
            Some(caller),
            room_id,
            tier,
        ) == Some(PaymentError::PaymentsDisabled),
        pre.room_at(room_id).settings.payments_enabled && pre.room_at(
            room_id,
        ).settings.quality_tiers.spec_price(tier) is None ==> access_fee_error(
            pre,
            Some(caller),
            room_id,
            tier,
        ) == Some(PaymentError::InvalidQualityTier),
{
}

/// After a settlement the user's queue is empty and sums to zero, and a
/// second settlement of the same user changes nothing: it reports zero
/// transactions and a zero total by the settlement engine's contract.
pub proof fn lemma_settle_idempotent(pre: LedgerView, user_id: Seq<char>)
    requires
        pre.wf(),
        pre.has_user(user_id),
    ensures
        ({
            let post = clear_user_txs(pre, user_id);
            &&& post.wf()
            &&& post.has_user(user_id)
            &&& post.user_at(user_id).pending_transactions.len() == 0
            &&& sum_tx_amounts(post.user_at(user_id).pending_transactions) == 0
            &&& clear_user_txs(post, user_id) == post
        }),
{
    let ui = pre.user_idx(user_id);
    let post = clear_user_txs(pre, user_id);
    lemma_wf_update_user(pre, ui, post.users[ui]);
    lemma_user_idx_is(post, user_id, ui);
    assert(clear_user_txs(post, user_id).users =~= post.users);
    assert(clear_user_txs(post, user_id) =~= post);
}

/// The auto-settlement policy fires exactly when the balance has reached
/// the threshold or the queue has reached its maximum length; in
/// particular a queue one short of the maximum does not fire on its own,
/// and a queue at the maximum always does.
pub proof fn lemma_auto_settle_boundary(u: UserPaymentStateView)
    ensures
        auto_settle_due(u) <==> (u.balance >= u.preferences.auto_settle_threshold
            || u.pending_transactions.len() >= u.preferences.max_pending),
        u.balance < u.preferences.auto_settle_threshold && u.pending_transactions.len() + 1
            == u.preferences.max_pending ==> !auto_settle_due(u),
        u.pending_transactions.len() == u.preferences.max_pending ==> auto_settle_due(u),
{
}

/// A settings update with a zero minimum tip is rejected as
/// `InvalidRoomSettings`, and one by a caller other than the host as
/// `Unauthorized`; by the room admin's contract the settings then remain
/// unchanged.
pub proof fn lemma_settings_rejections(
    pre: LedgerView,
    caller: Seq<char>,
    room_id: Seq<char>,
    settings: RoomPaymentSettings,
)
    requires
        pre.has_room(room_id),
    ensures
        pre.room_at(room_id).host == caller && settings.min_tip == 0 ==> settings_error(
            pre,
            Some(caller),
            room_id,
            settings,
        ) == Some(PaymentError::InvalidRoomSettings),
        pre.room_at(room_id).host != caller ==> settings_error(
            pre,
            Some(caller),
            room_id,
            settings,
        ) == Some(PaymentError::Unauthorized),
{
}

/// A host's withdrawal of a positive amount is authorized exactly when the
/// amount does not exceed the room's accumulated revenue, and requesting
/// one unit above that revenue is refused as `InsufficientBalance`.
pub proof fn lemma_withdraw_exact(
    pre: LedgerView,
    caller: Seq<char>,
    room_id: Seq<char>,
    amount: u128,
)
    requires
        pre.has_room(room_id),
        pre.room_at(room_id).host == caller,
        amount > 0,
    ensures
        withdraw_error(pre, Some(caller), room_id, amount) is None <==> amount <= pre.room_at(
            room_id,
        ).total_tips + pre.room_at(room_id).total_access_fees,
        ({
            let revenue = pre.room_at(room_id).total_tips + pre.room_at(
                room_id,
            ).total_access_fees;
            amount == revenue + 1 ==> withdraw_error(pre, Some(caller), room_id, amount) == Some(
                PaymentError::InsufficientBalance,
            )
        }),
{
}

} // verus!
