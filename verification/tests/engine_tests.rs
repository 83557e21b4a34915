use chillie_payments::ledger::PaymentLedger;
use chillie_payments::types::PaymentError;
use chillie_payments::types::PaymentOperation;
use chillie_payments::types::PaymentResult;
use chillie_payments::types::PendingTransaction;
use chillie_payments::types::QualityTierPricing;
use chillie_payments::types::RoomPaymentPool;
use chillie_payments::types::RoomPaymentSettings;
use chillie_payments::types::StreamQuality;
use chillie_payments::types::UserPaymentPreferences;
use chillie_payments::types::UserPaymentState;

fn engine_room(id: &str, host: &str, min_tip: u64, high_price: Option<u64>) -> RoomPaymentPool {
    RoomPaymentPool {
        room_id: id.to_string(),
        host: host.to_string(),
        total_tips: 0,
        total_access_fees: 0,
        pending_tips: Vec::new(),
        pending_access_fees: Vec::new(),
        settings: RoomPaymentSettings {
            min_tip,
            access_fee: 0,
            quality_tiers: QualityTierPricing {
                standard: Some(0),
                high: high_price,
                premium: Some(500),
                ultra: Some(2000),
            },
            payments_enabled: true,
        },
    }
}

fn engine_user(id: &str, balance: u128, max_pending: usize) -> UserPaymentState {
    UserPaymentState {
        user_id: id.to_string(),
        balance,
        pending_transactions: Vec::new(),
        preferences: UserPaymentPreferences {
            default_tip: 100,
            auto_settle_threshold: 1_000_000_000,
            max_pending,
        },
    }
}

fn engine_ledger() -> PaymentLedger {
    let mut ledger = PaymentLedger::new();
    ledger.insert_room(engine_room("room-1", "host-1", 50, Some(200)));
    ledger.insert_user(engine_user("viewer-1", 1000, 50));
    ledger
}

#[test]
fn test_tip_updates_room_and_balance() {
    let mut ledger = engine_ledger();
    let viewer = "viewer-1".to_string();
    let room_id = "room-1".to_string();
    let result = ledger.process_tip(
        Some(&viewer),
        &room_id,
        150,
        Some("great show".to_string()),
        false,
        77,
    );
    match result {
        PaymentResult::TipSent { tip_id, amount, pending_settlement } => {
            assert_eq!(tip_id.room_id, "room-1");
            assert_eq!(tip_id.timestamp, 77);
            assert_eq!(tip_id.amount, 150);
            assert_eq!(amount, 150);
            assert!(pending_settlement);
        }
        other => panic!("expected TipSent, got {:?}", other),
    }
    let room = ledger.get_room_stats(&room_id).unwrap();
    assert_eq!(room.total_tips, 150);
    assert_eq!(room.pending_tips.len(), 1);
    assert_eq!(room.pending_tips[0].from, "viewer-1");
    assert_eq!(room.pending_tips[0].amount, 150);
    assert_eq!(room.pending_tips[0].message.as_deref(), Some("great show"));
    assert_eq!(room.pending_tips[0].timestamp, 77);
    assert!(!room.pending_tips[0].super_chat);
    let user = ledger.get_user_state(&viewer).unwrap();
    assert_eq!(user.balance, 850);
    assert_eq!(user.pending_transactions.len(), 1);
    match &user.pending_transactions[0] {
        PendingTransaction::Tip(tip) => assert_eq!(tip.amount, 150),
        other => panic!("expected a tip entry, got {:?}", other),
    }
}

#[test]
fn test_zero_tip_rejected() {
    let mut ledger = engine_ledger();
    let viewer = "viewer-1".to_string();
    let room_id = "room-1".to_string();
    let result = ledger.process_tip(Some(&viewer), &room_id, 0, None, false, 1);
    match result {
        PaymentResult::PaymentError { error } => assert_eq!(error, PaymentError::InvalidAmount),
        other => panic!("expected InvalidAmount, got {:?}", other),
    }
    let room = ledger.get_room_stats(&room_id).unwrap();
    assert_eq!(room.total_tips, 0);
    assert_eq!(room.pending_tips.len(), 0);
    let user = ledger.get_user_state(&viewer).unwrap();
    assert_eq!(user.balance, 1000);
    assert_eq!(user.pending_transactions.len(), 0);
}

#[test]
fn test_tip_unauthenticated() {
    let mut ledger = engine_ledger();
    let room_id = "room-1".to_string();
    let result = ledger.process_tip(None, &room_id, 10, None, false, 1);
    match result {
        PaymentResult::PaymentError { error } => assert_eq!(error, PaymentError::Unauthorized),
        other => panic!("expected Unauthorized, got {:?}", other),
    }
}

#[test]
fn test_tip_room_not_found() {
    let mut ledger = engine_ledger();
    let viewer = "viewer-1".to_string();
    let missing = "no-such-room".to_string();
    let result = ledger.process_tip(Some(&viewer), &missing, 10, None, false, 1);
    match result {
        PaymentResult::PaymentError { error } => assert_eq!(error, PaymentError::RoomNotFound),
        other => panic!("expected RoomNotFound, got {:?}", other),
    }
    let viewer_state = ledger.get_user_state(&viewer).unwrap();
    assert_eq!(viewer_state.balance, 1000);
    assert_eq!(viewer_state.pending_transactions.len(), 0);
}

#[test]
fn test_tip_user_not_found() {
    let mut ledger = engine_ledger();
    let stranger = "stranger".to_string();
    let room_id = "room-1".to_string();
    let result = ledger.process_tip(Some(&stranger), &room_id, 10, None, false, 1);
    match result {
        PaymentResult::PaymentError { error } => assert_eq!(error, PaymentError::UserNotFound),
        other => panic!("expected UserNotFound, got {:?}", other),
    }
    let room = ledger.get_room_stats(&room_id).unwrap();
    assert_eq!(room.total_tips, 0);
    assert_eq!(room.pending_tips.len(), 0);
}

#[test]
fn test_tip_insufficient_balance() {
    let mut ledger = engine_ledger();
    let viewer = "viewer-1".to_string();
    let room_id = "room-1".to_string();
    let result = ledger.process_tip(Some(&viewer), &room_id, 1001, None, false, 1);
    match result {
        PaymentResult::PaymentError { error } => {
            assert_eq!(error, PaymentError::InsufficientBalance)
        }
        other => panic!("expected InsufficientBalance, got {:?}", other),
    }
    assert_eq!(ledger.get_user_state(&viewer).unwrap().balance, 1000);
}

#[test]
fn test_tip_message_too_long() {
    let mut ledger = engine_ledger();
    let viewer = "viewer-1".to_string();
    let room_id = "room-1".to_string();
    let long_message: String = std::iter::repeat('x').take(501).collect();
    let result = ledger.process_tip(Some(&viewer), &room_id, 10, Some(long_message), false, 1);
    match result {
        PaymentResult::PaymentError { error } => assert_eq!(error, PaymentError::InvalidAmount),
        other => panic!("expected InvalidAmount, got {:?}", other),
    }
    let boundary_message: String = std::iter::repeat('x').take(500).collect();
    let result = ledger.process_tip(Some(&viewer), &room_id, 10, Some(boundary_message), false, 1);
    assert!(matches!(result, PaymentResult::TipSent { .. }));
    // The limit counts encoded bytes: 126 four-byte characters are only
    // 126 characters but 504 bytes, over the limit.
    let wide_message: String = std::iter::repeat('\u{1F980}').take(126).collect();
    assert_eq!(wide_message.len(), 504);
    let result = ledger.process_tip(Some(&viewer), &room_id, 10, Some(wide_message), false, 2);
    assert!(matches!(
        result,
        PaymentResult::PaymentError { error: PaymentError::InvalidAmount }
    ));
}

#[test]
fn test_settlement_totals_then_empty() {
    let mut ledger = engine_ledger();
    let viewer = "viewer-1".to_string();
    let room_id = "room-1".to_string();
    let first = ledger.process_tip(Some(&viewer), &room_id, 150, None, false, 1);
    assert!(matches!(first, PaymentResult::TipSent { .. }));
    let second = ledger.process_access_fee(Some(&viewer), &room_id, StreamQuality::High, 2);
    assert!(matches!(second, PaymentResult::AccessFeePaid { .. }));
    let settled = ledger.settle_user_transactions(&viewer);
    match settled {
        PaymentResult::TransactionsSettled {
            user_id,
            transaction_count,
            total_amount,
            settlement_hash: _,
        } => {
            assert_eq!(user_id, "viewer-1");
            assert_eq!(transaction_count, 2);
            assert_eq!(total_amount, 350);
        }
        other => panic!("expected TransactionsSettled, got {:?}", other),
    }
    assert_eq!(ledger.get_user_state(&viewer).unwrap().pending_transactions.len(), 0);
    let settled_again = ledger.settle_user_transactions(&viewer);
    match settled_again {
        PaymentResult::TransactionsSettled { transaction_count, total_amount, .. } => {
            assert_eq!(transaction_count, 0);
            assert_eq!(total_amount, 0);
        }
        other => panic!("expected TransactionsSettled, got {:?}", other),
    }
    let room = ledger.get_room_stats(&room_id).unwrap();
    assert_eq!(room.pending_tips.len(), 1);
    assert_eq!(room.pending_access_fees.len(), 1);
}

#[test]
fn test_settle_unknown_user() {
    let mut ledger = engine_ledger();
    let stranger = "stranger".to_string();
    let result = ledger.settle_user_transactions(&stranger);
    match result {
        PaymentResult::PaymentError { error } => assert_eq!(error, PaymentError::UserNotFound),
        other => panic!("expected UserNotFound, got {:?}", other),
    }
}

#[test]
fn test_auto_settle_boundary() {
    let mut ledger = PaymentLedger::new();
    ledger.insert_room(engine_room("room-1", "host-1", 50, Some(200)));
    ledger.insert_user(engine_user("viewer-1", 1000, 2));
    let viewer = "viewer-1".to_string();
    let room_id = "room-1".to_string();
    let first = ledger.process_tip(Some(&viewer), &room_id, 60, None, false, 1);
    assert!(matches!(first, PaymentResult::TipSent { .. }));
    // One short of max_pending: no auto-settlement.
    assert_eq!(ledger.get_user_state(&viewer).unwrap().pending_transactions.len(), 1);
    let second = ledger.process_tip(Some(&viewer), &room_id, 70, None, false, 2);
    assert!(matches!(second, PaymentResult::TipSent { .. }));
    // The queue reached max_pending, so the tip call settled it.
    assert_eq!(ledger.get_user_state(&viewer).unwrap().pending_transactions.len(), 0);
    assert_eq!(ledger.get_user_state(&viewer).unwrap().balance, 870);
    let room = ledger.get_room_stats(&room_id).unwrap();
    assert_eq!(room.total_tips, 130);
    assert_eq!(room.pending_tips.len(), 2);
}

#[test]
fn test_access_fee_checks() {
    let mut ledger = engine_ledger();
    let viewer = "viewer-1".to_string();
    let room_id = "room-1".to_string();
    let missing = "no-such-room".to_string();
    let unauthenticated = ledger.process_access_fee(None, &room_id, StreamQuality::High, 1);
    assert!(matches!(
        unauthenticated,
        PaymentResult::PaymentError { error: PaymentError::Unauthorized }
    ));
    let no_room = ledger.process_access_fee(Some(&viewer), &missing, StreamQuality::High, 1);
    assert!(matches!(
        no_room,
        PaymentResult::PaymentError { error: PaymentError::RoomNotFound }
    ));
    // The High tier is absent from this room's table.
    let mut no_high = PaymentLedger::new();
    no_high.insert_room(engine_room("room-1", "host-1", 50, None));
    no_high.insert_user(engine_user("viewer-1", 1000, 50));
    let absent_tier = no_high.process_access_fee(Some(&viewer), &room_id, StreamQuality::High, 1);
    assert!(matches!(
        absent_tier,
        PaymentResult::PaymentError { error: PaymentError::InvalidQualityTier }
    ));
    // Payments disabled beats a comfortable balance.
    let mut disabled = PaymentLedger::new();
    let mut closed_room = engine_room("room-1", "host-1", 50, Some(200));
    closed_room.settings.payments_enabled = false;
    disabled.insert_room(closed_room);
    disabled.insert_user(engine_user("viewer-1", 1_000_000, 50));
    let refused = disabled.process_access_fee(Some(&viewer), &room_id, StreamQuality::High, 1);
    assert!(matches!(
        refused,
        PaymentResult::PaymentError { error: PaymentError::PaymentsDisabled }
    ));
    // An admitted purchase charges the tier's price.
    let paid = ledger.process_access_fee(Some(&viewer), &room_id, StreamQuality::High, 9);
    match paid {
        PaymentResult::AccessFeePaid { room_id: rid, quality_tier, pending_settlement } => {
            assert_eq!(rid, "room-1");
            assert_eq!(quality_tier, StreamQuality::High);
            assert!(pending_settlement);
        }
        other => panic!("expected AccessFeePaid, got {:?}", other),
    }
    let room = ledger.get_room_stats(&room_id).unwrap();
    assert_eq!(room.total_access_fees, 200);
    assert_eq!(room.pending_access_fees.len(), 1);
    assert_eq!(room.pending_access_fees[0].user_id, "viewer-1");
    assert_eq!(room.pending_access_fees[0].amount, 200);
    assert_eq!(room.pending_access_fees[0].quality_tier, StreamQuality::High);
    assert_eq!(room.pending_access_fees[0].timestamp, 9);
    assert_eq!(ledger.get_user_state(&viewer).unwrap().balance, 800);
}

#[test]
fn test_access_fee_insufficient_balance() {
    let mut ledger = PaymentLedger::new();
    ledger.insert_room(engine_room("room-1", "host-1", 50, Some(200)));
    ledger.insert_user(engine_user("viewer-1", 199, 50));
    let viewer = "viewer-1".to_string();
    let room_id = "room-1".to_string();
    let result = ledger.process_access_fee(Some(&viewer), &room_id, StreamQuality::High, 1);
    assert!(matches!(
        result,
        PaymentResult::PaymentError { error: PaymentError::InsufficientBalance }
    ));
    assert_eq!(ledger.get_user_state(&viewer).unwrap().balance, 199);
}

#[test]
fn test_update_room_settings() {
    let mut ledger = engine_ledger();
    let host = "host-1".to_string();
    let viewer = "viewer-1".to_string();
    let room_id = "room-1".to_string();
    let new_settings = RoomPaymentSettings {
        min_tip: 75,
        access_fee: 0,
        quality_tiers: QualityTierPricing {
            standard: Some(0),
            high: Some(300),
            premium: None,
            ultra: None,
        },
        payments_enabled: true,
    };
    // A zero minimum tip is rejected and the settings stay as they were.
    let mut zero_min = new_settings;
    zero_min.min_tip = 0;
    let rejected = ledger.update_room_settings(Some(&host), &room_id, zero_min);
    assert!(matches!(
        rejected,
        PaymentResult::PaymentError { error: PaymentError::InvalidRoomSettings }
    ));
    assert_eq!(ledger.get_room_stats(&room_id).unwrap().settings.min_tip, 50);
    // A non-host caller is rejected.
    let not_host = ledger.update_room_settings(Some(&viewer), &room_id, new_settings);
    assert!(matches!(
        not_host,
        PaymentResult::PaymentError { error: PaymentError::Unauthorized }
    ));
    assert_eq!(ledger.get_room_stats(&room_id).unwrap().settings.min_tip, 50);
    // The host's valid update replaces the settings wholesale.
    let accepted = ledger.update_room_settings(Some(&host), &room_id, new_settings);
    match accepted {
        PaymentResult::RoomSettingsUpdated { room_id: rid } => assert_eq!(rid, "room-1"),
        other => panic!("expected RoomSettingsUpdated, got {:?}", other),
    }
    let room = ledger.get_room_stats(&room_id).unwrap();
    assert_eq!(room.settings.min_tip, 75);
    assert_eq!(room.settings.quality_tiers.high, Some(300));
    assert_eq!(room.settings.quality_tiers.premium, None);
}

#[test]
fn test_withdraw_funds_boundary() {
    let mut ledger = engine_ledger();
    let host = "host-1".to_string();
    let viewer = "viewer-1".to_string();
    let room_id = "room-1".to_string();
    let tip = ledger.process_tip(Some(&viewer), &room_id, 150, None, false, 1);
    assert!(matches!(tip, PaymentResult::TipSent { .. }));
    let fee = ledger.process_access_fee(Some(&viewer), &room_id, StreamQuality::High, 2);
    assert!(matches!(fee, PaymentResult::AccessFeePaid { .. }));
    // Accumulated revenue is 150 + 200 = 350.
    let not_host = ledger.withdraw_funds(Some(&viewer), &room_id, 350, 3);
    assert!(matches!(
        not_host,
        PaymentResult::PaymentError { error: PaymentError::Unauthorized }
    ));
    let zero = ledger.withdraw_funds(Some(&host), &room_id, 0, 3);
    assert!(matches!(zero, PaymentResult::PaymentError { error: PaymentError::InvalidAmount }));
    let too_much = ledger.withdraw_funds(Some(&host), &room_id, 351, 3);
    assert!(matches!(
        too_much,
        PaymentResult::PaymentError { error: PaymentError::InsufficientBalance }
    ));
    let exact = ledger.withdraw_funds(Some(&host), &room_id, 350, 3);
    match exact {
        PaymentResult::FundsWithdrawn { room_id: rid, amount, withdrawal_hash } => {
            assert_eq!(rid, "room-1");
            assert_eq!(amount, 350);
            assert_ne!(withdrawal_hash, 0);
        }
        other => panic!("expected FundsWithdrawn, got {:?}", other),
    }
    // Withdrawal does not debit the accumulated totals.
    let room = ledger.get_room_stats(&room_id).unwrap();
    assert_eq!(room.total_tips, 150);
    assert_eq!(room.total_access_fees, 200);
}

#[test]
fn test_scenario_pay_tip_auto_settle() {
    let mut ledger = PaymentLedger::new();
    ledger.insert_room(engine_room("R", "H", 50, Some(200)));
    ledger.insert_user(engine_user("U", 1000, 2));
    let u = "U".to_string();
    let r = "R".to_string();
    let fee = ledger.process_access_fee(Some(&u), &r, StreamQuality::High, 10);
    assert!(matches!(fee, PaymentResult::AccessFeePaid { .. }));
    assert_eq!(ledger.get_user_state(&u).unwrap().balance, 800);
    assert_eq!(ledger.get_room_stats(&r).unwrap().total_access_fees, 200);
    assert_eq!(ledger.get_user_state(&u).unwrap().pending_transactions.len(), 1);
    let tip = ledger.process_tip(Some(&u), &r, 150, None, false, 11);
    assert!(matches!(tip, PaymentResult::TipSent { .. }));
    assert_eq!(ledger.get_user_state(&u).unwrap().balance, 650);
    assert_eq!(ledger.get_room_stats(&r).unwrap().total_tips, 150);
    // With max_pending = 2 the tip brought the queue to 2 entries, so the
    // call settled them synchronously: the queue is empty again.
    assert_eq!(ledger.get_user_state(&u).unwrap().pending_transactions.len(), 0);
}

#[test]
fn test_tip_total_overflow_rejected() {
    let mut ledger = PaymentLedger::new();
    let mut room = engine_room("room-1", "host-1", 50, Some(200));
    room.total_tips = u128::MAX;
    ledger.insert_room(room);
    ledger.insert_user(engine_user("viewer-1", 1000, 50));
    let viewer = "viewer-1".to_string();
    let room_id = "room-1".to_string();
    let result = ledger.process_tip(Some(&viewer), &room_id, 10, None, false, 1);
    assert!(matches!(
        result,
        PaymentResult::PaymentError { error: PaymentError::InvalidAmount }
    ));
    // The rejection left both accounts untouched.
    assert_eq!(ledger.get_room_stats(&room_id).unwrap().total_tips, u128::MAX);
    assert_eq!(ledger.get_user_state(&viewer).unwrap().balance, 1000);
}

#[test]
fn test_withdraw_covers_overflowing_revenue() {
    // When the two all-time totals together exceed the widest integer,
    // any requested amount is covered by the accumulated revenue.
    let mut ledger = PaymentLedger::new();
    let mut room = engine_room("room-1", "host-1", 50, Some(200));
    room.total_tips = u128::MAX;
    room.total_access_fees = 5;
    ledger.insert_room(room);
    let host = "host-1".to_string();
    let room_id = "room-1".to_string();
    let result = ledger.withdraw_funds(Some(&host), &room_id, u128::MAX, 1);
    assert!(matches!(result, PaymentResult::FundsWithdrawn { .. }));
}

#[test]
fn test_execute_operation_dispatch() {
    let mut ledger = engine_ledger();
    let viewer = "viewer-1".to_string();
    let host = "host-1".to_string();
    let tip = ledger.execute_operation(
        Some(&viewer),
        PaymentOperation::SendTip {
            room_id: "room-1".to_string(),
            amount: 150,
            message: None,
            super_chat: true,
        },
        5,
    );
    assert!(matches!(tip, PaymentResult::TipSent { .. }));
    let fee = ledger.execute_operation(
        Some(&viewer),
        PaymentOperation::PayAccessFee {
            room_id: "room-1".to_string(),
            quality_tier: StreamQuality::High,
        },
        6,
    );
    assert!(matches!(fee, PaymentResult::AccessFeePaid { .. }));
    let settle = ledger.execute_operation(
        Some(&viewer),
        PaymentOperation::SettlePendingTransactions { user_id: "viewer-1".to_string() },
        7,
    );
    match settle {
        PaymentResult::TransactionsSettled { transaction_count, total_amount, .. } => {
            assert_eq!(transaction_count, 2);
            assert_eq!(total_amount, 350);
        }
        other => panic!("expected TransactionsSettled, got {:?}", other),
    }
    let withdraw = ledger.execute_operation(
        Some(&host),
        PaymentOperation::WithdrawFunds { room_id: "room-1".to_string(), amount: 350 },
        8,
    );
    assert!(matches!(withdraw, PaymentResult::FundsWithdrawn { .. }));
}
