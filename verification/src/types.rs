//! Data model of the ledger: rooms, users, pending transactions, settings,
//! global statistics, and the operation/query surface.
//!
//! Every type that carries a `String` or a `Vec` has a mathematical view
//! (`Seq<char>` for identifiers, `Seq` of views for queues); contracts are
//! stated over those views.

use vstd::prelude::*;

verus! {

/// Identifier of a room (a payment pool tied to one host).
pub type RoomId = String;

/// Identifier of a user (an opaque principal id).
pub type UserId = String;

/// Monotonic microsecond counter injected by the host environment.
pub type Timestamp = u64;

/// Stream quality levels; a closed enumeration.
#[derive(Debug, Clone, Copy, PartialEq, Eq, Structural)]
pub enum StreamQuality {
    Standard,
    High,
    Premium,
    Ultra,
}

impl StreamQuality {
    /// Short display label for the quality level.
    pub fn label(&self) -> (r: &'static str)
        ensures
            self is Standard ==> r@ == "SD"@,
            self is High ==> r@ == "HD"@,
            self is Premium ==> r@ == "FHD"@,
            self is Ultra ==> r@ == "4K"@,
    {
        match self {
            StreamQuality::Standard => "SD",
            StreamQuality::High => "HD",
            StreamQuality::Premium => "FHD",
            StreamQuality::Ultra => "4K",
        }
    }
}

/// Payment error taxonomy, surfaced directly to the caller.
#[derive(Debug, Clone, Copy, PartialEq, Eq, Structural)]
pub enum PaymentError {
    InsufficientBalance,
    InvalidAmount,
    RoomNotFound,
    UserNotFound,
    InvalidQualityTier,
    PaymentsDisabled,
    SettlementFailed,
    InvalidRoomSettings,
    Unauthorized,
}

/// Price of each quality tier for one room: a record with one slot per
/// quality level.  A tier whose slot is absent (`None`) cannot be
/// purchased.
#[derive(Debug, Clone, Copy)]
pub struct QualityTierPricing {
    pub standard: Option<u64>,
    pub high: Option<u64>,
    pub premium: Option<u64>,
    pub ultra: Option<u64>,
}

impl QualityTierPricing {
    /// The price of `tier`, or `None` when the tier is unpurchasable.
    pub open spec fn spec_price(self, tier: StreamQuality) -> Option<u64> {
        match tier {
            StreamQuality::Standard => self.standard,
            StreamQuality::High => self.high,
            StreamQuality::Premium => self.premium,
            StreamQuality::Ultra => self.ultra,
        }
    }

    /// Looks up the price of `tier`.
    pub fn price(&self, tier: StreamQuality) -> (r: Option<u64>)
        ensures
            r == self.spec_price(tier),
    {
        match tier {
            StreamQuality::Standard => self.standard,
            StreamQuality::High => self.high,
            StreamQuality::Premium => self.premium,
            StreamQuality::Ultra => self.ultra,
        }
    }

    /// A table with every tier absent.
    pub fn none() -> (r: Self)
        ensures
            forall|t: StreamQuality| r.spec_price(t) is None,
    {
        QualityTierPricing { standard: None, high: None, premium: None, ultra: None }
    }
}

/// Payment settings for a room.
#[derive(Debug, Clone, Copy)]
pub struct RoomPaymentSettings {
    /// Minimum tip amount; must be positive once settings are accepted.
    pub min_tip: u64,
    /// Legacy flat access fee for private rooms (unused by tiered pricing).
    pub access_fee: u64,
    /// Quality tier pricing.
    pub quality_tiers: QualityTierPricing,
    /// Whether payments are enabled for the room.
    pub payments_enabled: bool,
}

impl Default for RoomPaymentSettings {
    /// The stock configuration: tip floor of one unit, free standard
    /// quality, priced upper tiers, payments enabled.
    fn default() -> (r: Self)
        ensures
            r.min_tip == 1,
            r.access_fee == 0,
            r.quality_tiers.spec_price(StreamQuality::Standard) == Some(0u64),
            r.quality_tiers.spec_price(StreamQuality::High) == Some(100u64),
            r.quality_tiers.spec_price(StreamQuality::Premium) == Some(500u64),
            r.quality_tiers.spec_price(StreamQuality::Ultra) == Some(2000u64),
            r.payments_enabled,
    {
        RoomPaymentSettings {
            min_tip: 1,
            access_fee: 0,
            quality_tiers: QualityTierPricing {
                standard: Some(0),
                high: Some(100),
                premium: Some(500),
                ultra: Some(2000),
            },
            payments_enabled: true,
        }
    }
}

/// User payment preferences.
#[derive(Debug, Clone, Copy)]
pub struct UserPaymentPreferences {
    /// Default tip amount suggested to the user.
    pub default_tip: u64,
    /// Balance at or above which pending transactions are auto-settled.
    pub auto_settle_threshold: u128,
    /// Pending-transaction count at which auto-settlement fires.
    pub max_pending: usize,
}

impl Default for UserPaymentPreferences {
    fn default() -> (r: Self)
        ensures
            r.default_tip == 100,
            r.auto_settle_threshold == 10000,
            r.max_pending == 50,
    {
        UserPaymentPreferences { default_tip: 100, auto_settle_threshold: 10000, max_pending: 50 }
    }
}

/// A tip admitted to a room but not yet settled by its sender.
#[derive(Debug)]
pub struct PendingTip {
    /// Sender.
    pub from: UserId,
    /// Tip amount.
    pub amount: u64,
    /// Optional message shown in chat.
    pub message: Option<String>,
    /// Admission time.
    pub timestamp: Timestamp,
    /// Whether the tip is a highlighted "super chat".
    pub super_chat: bool,
}

/// Mathematical view of a [`PendingTip`].
#[verifier::ext_equal]
pub struct PendingTipView {
    pub from: Seq<char>,
    pub amount: u64,
    pub message: Option<Seq<char>>,
    pub timestamp: Timestamp,
    pub super_chat: bool,
}

impl View for PendingTip {
    type V = PendingTipView;

    open spec fn view(&self) -> PendingTipView {
        PendingTipView {
            from: self.from@,
            amount: self.amount,
            message: match self.message {
                Some(m) => Some(m@),
                None => None,
            },
            timestamp: self.timestamp,
            super_chat: self.super_chat,
        }
    }
}

impl Clone for PendingTip {
    /// A clone equals the original.
    fn clone(&self) -> (res: Self)
        ensures
            res == *self,
    {
        let message = self.message.clone();
        proof {
            assert(message == self.message);
        }
        PendingTip {
            from: self.from.clone(),
            amount: self.amount,
            message,
            timestamp: self.timestamp,
            super_chat: self.super_chat,
        }
    }
}

/// An access-fee purchase admitted to a room but not yet settled.
#[derive(Debug)]
pub struct PendingAccessFee {
    /// Payer.
    pub user_id: UserId,
    /// Amount paid (the tier's price at admission time).
    pub amount: u64,
    /// Quality tier purchased.
    pub quality_tier: StreamQuality,
    /// Admission time.
    pub timestamp: Timestamp,
}

/// Mathematical view of a [`PendingAccessFee`].
#[verifier::ext_equal]
pub struct PendingAccessFeeView {
    pub user_id: Seq<char>,
    pub amount: u64,
    pub quality_tier: StreamQuality,
    pub timestamp: Timestamp,
}

impl View for PendingAccessFee {
    type V = PendingAccessFeeView;

    open spec fn view(&self) -> PendingAccessFeeView {
        PendingAccessFeeView {
            user_id: self.user_id@,
            amount: self.amount,
            quality_tier: self.quality_tier,
            timestamp: self.timestamp,
        }
    }
}

impl Clone for PendingAccessFee {
    /// A clone equals the original.
    fn clone(&self) -> (res: Self)
        ensures
            res == *self,
    {
        PendingAccessFee {
            user_id: self.user_id.clone(),
            amount: self.amount,
            quality_tier: self.quality_tier,
            timestamp: self.timestamp,
        }
    }
}

/// One entry of a user's pending-transaction queue.
#[derive(Debug)]
pub enum PendingTransaction {
    Tip(PendingTip),
    AccessFee(PendingAccessFee),
}

/// Mathematical view of a [`PendingTransaction`].
#[verifier::ext_equal]
pub enum PendingTransactionView {
    Tip(PendingTipView),
    AccessFee(PendingAccessFeeView),
}

impl View for PendingTransaction {
    type V = PendingTransactionView;

    open spec fn view(&self) -> PendingTransactionView {
        match self {
            PendingTransaction::Tip(t) => PendingTransactionView::Tip(t@),
            PendingTransaction::AccessFee(f) => PendingTransactionView::AccessFee(f@),
        }
    }
}

impl Clone for PendingTransaction {
    /// A clone equals the original.
    fn clone(&self) -> (res: Self)
        ensures
            res == *self,
    {
        match self {
            PendingTransaction::Tip(t) => PendingTransaction::Tip(t.clone()),
            PendingTransaction::AccessFee(f) => PendingTransaction::AccessFee(f.clone()),
        }
    }
}

/// The amount carried by one pending transaction, whichever its kind.
pub open spec fn tx_amount(t: PendingTransactionView) -> u64 {
    match t {
        PendingTransactionView::Tip(tip) => tip.amount,
        PendingTransactionView::AccessFee(fee) => fee.amount,
    }
}

/// Payment pool of one room.
#[derive(Debug)]
pub struct RoomPaymentPool {
    /// Room identifier.
    pub room_id: RoomId,
    /// The host (streamer) who receives the room's payments.
    pub host: UserId,
    /// All-time accumulated tips; only ever grows, by checked addition.
    pub total_tips: u128,
    /// All-time accumulated access fees; only ever grows, by checked addition.
    pub total_access_fees: u128,
    /// Tips admitted to this room, append-only within the ledger.
    pub pending_tips: Vec<PendingTip>,
    /// Access fees admitted to this room, append-only within the ledger.
    pub pending_access_fees: Vec<PendingAccessFee>,
    /// Payment settings for the room.
    pub settings: RoomPaymentSettings,
}

/// Mathematical view of a [`RoomPaymentPool`].
#[verifier::ext_equal]
pub struct RoomPaymentPoolView {
    pub room_id: Seq<char>,
    pub host: Seq<char>,
    pub total_tips: u128,
    pub total_access_fees: u128,
    pub pending_tips: Seq<PendingTipView>,
    pub pending_access_fees: Seq<PendingAccessFeeView>,
    pub settings: RoomPaymentSettings,
}

impl View for RoomPaymentPool {
    type V = RoomPaymentPoolView;

    open spec fn view(&self) -> RoomPaymentPoolView {
        RoomPaymentPoolView {
            room_id: self.room_id@,
            host: self.host@,
            total_tips: self.total_tips,
            total_access_fees: self.total_access_fees,
            pending_tips: self.pending_tips@.map_values(|t: PendingTip| t@),
            pending_access_fees: self.pending_access_fees@.map_values(
                |f: PendingAccessFee| f@,
            ),
            settings: self.settings,
        }
    }
}

impl Clone for RoomPaymentPool {
    /// A clone denotes the same pool: the views are equal.
    fn clone(&self) -> (res: Self)
        ensures
            res@ == self@,
    {
        let pending_tips = self.pending_tips.clone();
        let pending_access_fees = self.pending_access_fees.clone();
        proof {
            assert forall|i: int|
                0 <= i < self.pending_tips@.len() implies pending_tips@[i]
                == self.pending_tips@[i] by {
                assert(vstd::pervasive::cloned::<PendingTip>(
                    self.pending_tips[i],
                    pending_tips[i],
                ));
            }
            assert(pending_tips@ =~= self.pending_tips@);
            assert forall|i: int|
                0 <= i < self.pending_access_fees@.len() implies pending_access_fees@[i]
                == self.pending_access_fees@[i] by {
                assert(vstd::pervasive::cloned::<PendingAccessFee>(
                    self.pending_access_fees[i],
                    pending_access_fees[i],
                ));
            }
            assert(pending_access_fees@ =~= self.pending_access_fees@);
        }
        let res = RoomPaymentPool {
            room_id: self.room_id.clone(),
            host: self.host.clone(),
            total_tips: self.total_tips,
            total_access_fees: self.total_access_fees,
            pending_tips,
            pending_access_fees,
            settings: self.settings,
        };
        proof {
            assert(res@ =~~= self@);
        }
        res
    }
}

/// Payment state of one user.
#[derive(Debug)]
pub struct UserPaymentState {
    /// User identifier.
    pub user_id: UserId,
    /// Spendable balance; spending never drives it below zero.
    pub balance: u128,
    /// Queue of admitted transactions, cleared as one batch on settlement.
    pub pending_transactions: Vec<PendingTransaction>,
    /// The user's payment preferences.
    pub preferences: UserPaymentPreferences,
}

/// Mathematical view of a [`UserPaymentState`].
#[verifier::ext_equal]
pub struct UserPaymentStateView {
    pub user_id: Seq<char>,
    pub balance: u128,
    pub pending_transactions: Seq<PendingTransactionView>,
    pub preferences: UserPaymentPreferences,
}

impl View for UserPaymentState {
    type V = UserPaymentStateView;

    open spec fn view(&self) -> UserPaymentStateView {
        UserPaymentStateView {
            user_id: self.user_id@,
            balance: self.balance,
            pending_transactions: self.pending_transactions@.map_values(
                |t: PendingTransaction| t@,
            ),
            preferences: self.preferences,
        }
    }
}

impl Clone for UserPaymentState {
    /// A clone denotes the same account: the views are equal.
    fn clone(&self) -> (res: Self)
        ensures
            res@ == self@,
    {
        let pending_transactions = self.pending_transactions.clone();
        proof {
            assert forall|i: int|
                0 <= i < self.pending_transactions@.len() implies pending_transactions@[i]
                == self.pending_transactions@[i] by {
                assert(vstd::pervasive::cloned::<PendingTransaction>(
                    self.pending_transactions[i],
                    pending_transactions[i],
                ));
            }
            assert(pending_transactions@ =~= self.pending_transactions@);
        }
        let res = UserPaymentState {
            user_id: self.user_id.clone(),
            balance: self.balance,
            pending_transactions,
            preferences: self.preferences,
        };
        proof {
            assert(res@ =~~= self@);
        }
        res
    }
}

/// Global aggregate counters; a single register replaced wholesale.
#[derive(Debug, Clone, Copy, PartialEq, Eq, Structural)]
pub struct PaymentStats {
    pub total_processed: u128,
    pub total_tips: u128,
    pub total_access_fees: u128,
    pub active_users: u64,
    pub active_rooms: u64,
}

impl Default for PaymentStats {
    fn default() -> (r: Self)
        ensures
            r == (PaymentStats {
                total_processed: 0,
                total_tips: 0,
                total_access_fees: 0,
                active_users: 0,
                active_rooms: 0,
            }),
    {
        PaymentStats {
            total_processed: 0,
            total_tips: 0,
            total_access_fees: 0,
            active_users: 0,
            active_rooms: 0,
        }
    }
}

/// Display identifier of an admitted tip, derived deterministically from the
/// room, the admission time and the amount.  Two tips with identical inputs
/// collide by design: this is a display id, not a deduplication key.
#[derive(Debug, Clone)]
pub struct TipId {
    pub room_id: RoomId,
    pub timestamp: Timestamp,
    pub amount: u64,
}

/// Result of one mutating operation.
#[derive(Debug, Clone)]
pub enum PaymentResult {
    TipSent { tip_id: TipId, amount: u64, pending_settlement: bool },
    AccessFeePaid { room_id: RoomId, quality_tier: StreamQuality, pending_settlement: bool },
    TransactionsSettled {
        user_id: UserId,
        transaction_count: usize,
        total_amount: u128,
        settlement_hash: u64,
    },
    RoomSettingsUpdated { room_id: RoomId },
    FundsWithdrawn { room_id: RoomId, amount: u128, withdrawal_hash: u64 },
    PaymentError { error: PaymentError },
}

/// The mutating operation surface.
#[derive(Debug, Clone)]
pub enum PaymentOperation {
    SendTip { room_id: RoomId, amount: u64, message: Option<String>, super_chat: bool },
    PayAccessFee { room_id: RoomId, quality_tier: StreamQuality },
    SettlePendingTransactions { user_id: UserId },
    UpdateRoomSettings { room_id: RoomId, settings: RoomPaymentSettings },
    WithdrawFunds { room_id: RoomId, amount: u128 },
}

/// The read-only query surface.
#[derive(Debug, Clone)]
pub enum PaymentQuery {
    GetRoomStats { room_id: RoomId },
    GetUserState { user_id: UserId },
    GetGlobalStats,
    GetPendingTips { room_id: RoomId },
    GetPendingAccessFees { room_id: RoomId },
    GetUserPendingTransactions { user_id: UserId },
    GetQualityTierPricing { room_id: RoomId },
    GetUserPaymentSummary { user_id: UserId, room_id: RoomId },
    GetRoomRevenueBreakdown { room_id: RoomId },
}

/// Response to one query.
#[derive(Debug, Clone)]
pub enum PaymentQueryResponse {
    RoomStats(Option<RoomPaymentPool>),
    UserState(Option<UserPaymentState>),
    GlobalStats(PaymentStats),
    PendingTips(Vec<PendingTip>),
    PendingAccessFees(Vec<PendingAccessFee>),
    UserPendingTransactions(Vec<PendingTransaction>),
    QualityTierPricing(QualityTierPricing),
    UserPaymentSummary(UserPaymentSummary),
    RoomRevenueBreakdown(RoomRevenueBreakdown),
    Error(PaymentError),
}

/// Per-user, per-room payment summary for frontend display.
#[derive(Debug, Clone)]
pub struct UserPaymentSummary {
    pub user_id: UserId,
    pub room_id: RoomId,
    pub balance: u128,
    pub pending_transactions: usize,
    pub pending_tips: usize,
    pub pending_access_fees: usize,
    pub can_afford_tips: bool,
    pub recommended_tip: u64,
    pub auto_settle_threshold: u128,
}

/// Revenue attributed to each quality tier over a room's pending fees.
#[derive(Debug, Clone, Copy, PartialEq, Eq, Structural)]
pub struct QualityTierRevenue {
    pub standard: u128,
    pub high: u128,
    pub premium: u128,
    pub ultra: u128,
}

impl QualityTierRevenue {
    /// The revenue slot of `tier`.
    pub open spec fn spec_for_tier(self, tier: StreamQuality) -> u128 {
        match tier {
            StreamQuality::Standard => self.standard,
            StreamQuality::High => self.high,
            StreamQuality::Premium => self.premium,
            StreamQuality::Ultra => self.ultra,
        }
    }
}

/// Revenue breakdown of one room for the host's dashboard.
#[derive(Debug, Clone)]
pub struct RoomRevenueBreakdown {
    pub room_id: RoomId,
    pub host: UserId,
    pub total_tips: u128,
    pub total_access_fees: u128,
    pub pending_tips: u128,
    pub pending_access_fees: u128,
    pub total_revenue: u128,
    pub pending_revenue: u128,
    pub active_tippers: usize,
    pub quality_tier_revenue: QualityTierRevenue,
}

/// Sum of the amounts of a sequence of pending tips.
pub open spec fn sum_tip_amounts(s: Seq<PendingTipView>) -> int
    decreases s.len(),
{
    if s.len() == 0 {
        0
    } else {
        sum_tip_amounts(s.drop_last()) + s.last().amount
    }
}

/// Sum of the amounts of a sequence of pending access fees.
pub open spec fn sum_fee_amounts(s: Seq<PendingAccessFeeView>) -> int
    decreases s.len(),
{
    if s.len() == 0 {
        0
    } else {
        sum_fee_amounts(s.drop_last()) + s.last().amount
    }
}

/// Sum of the amounts of a user's pending transactions.
pub open spec fn sum_tx_amounts(s: Seq<PendingTransactionView>) -> int
    decreases s.len(),
{
    if s.len() == 0 {
        0
    } else {
        sum_tx_amounts(s.drop_last()) + tx_amount(s.last())
    }
}

/// Sum of the amounts of the pending access fees bought at `tier`.
pub open spec fn sum_fee_amounts_for_tier(s: Seq<PendingAccessFeeView>, tier: StreamQuality) -> int
    decreases s.len(),
{
    if s.len() == 0 {
        0
    } else {
        sum_fee_amounts_for_tier(s.drop_last(), tier) + if s.last().quality_tier == tier {
            s.last().amount as int
        } else {
            0int
        }
    }
}

/// Whether some tip in `s` was sent by `from`.
pub open spec fn has_tip_from(s: Seq<PendingTipView>, from: Seq<char>) -> bool {
    exists|i: int| 0 <= i < s.len() && s[i].from == from
}

/// Number of distinct senders over a sequence of pending tips.
pub open spec fn count_distinct_tippers(s: Seq<PendingTipView>) -> int
    decreases s.len(),
{
    if s.len() == 0 {
        0
    } else {
        count_distinct_tippers(s.drop_last()) + if has_tip_from(s.drop_last(), s.last().from) {
            0int
        } else {
            1int
        }
    }
}

} // verus!
