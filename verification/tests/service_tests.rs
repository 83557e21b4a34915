use chillie_payments::ledger::PaymentLedger;
use chillie_payments::types::PaymentError;
use chillie_payments::types::PaymentQuery;
use chillie_payments::types::PaymentQueryResponse;
use chillie_payments::types::PaymentResult;
use chillie_payments::types::PaymentStats;
use chillie_payments::types::QualityTierPricing;
use chillie_payments::types::RoomPaymentPool;
use chillie_payments::types::RoomPaymentSettings;
use chillie_payments::types::StreamQuality;
use chillie_payments::types::UserPaymentPreferences;
use chillie_payments::types::UserPaymentState;

fn service_room(id: &str, host: &str, min_tip: u64) -> RoomPaymentPool {
    RoomPaymentPool {
        room_id: id.to_string(),
        host: host.to_string(),
        total_tips: 0,
        total_access_fees: 0,
        pending_tips: Vec::new(),
        pending_access_fees: Vec::new(),
        settings: RoomPaymentSettings {
            min_tip,
            access_fee: 0,
            quality_tiers: QualityTierPricing {
                standard: Some(0),
                high: Some(200),
                premium: Some(500),
                ultra: None,
            },
            payments_enabled: true,
        },
    }
}

fn service_user(id: &str, balance: u128, default_tip: u64) -> UserPaymentState {
    UserPaymentState {
        user_id: id.to_string(),
        balance,
        pending_transactions: Vec::new(),
        preferences: UserPaymentPreferences {
            default_tip,
            auto_settle_threshold: 1_000_000_000,
            max_pending: 50,
        },
    }
}

/// A ledger with one room and two viewers that already admitted a few
/// payments: tips of 150, 100 (viewer-1) and 75 (viewer-2), plus High and
/// Premium access fees by viewer-1.
fn service_ledger() -> PaymentLedger {
    let mut ledger = PaymentLedger::new();
    ledger.insert_room(service_room("room-1", "host-1", 50));
    ledger.insert_user(service_user("viewer-1", 10_000, 100));
    ledger.insert_user(service_user("viewer-2", 500, 30));
    let v1 = "viewer-1".to_string();
    let v2 = "viewer-2".to_string();
    let room_id = "room-1".to_string();
    assert!(matches!(
        ledger.process_tip(Some(&v1), &room_id, 150, None, false, 1),
        PaymentResult::TipSent { .. }
    ));
    assert!(matches!(
        ledger.process_tip(Some(&v1), &room_id, 100, None, true, 2),
        PaymentResult::TipSent { .. }
    ));
    assert!(matches!(
        ledger.process_tip(Some(&v2), &room_id, 75, None, false, 3),
        PaymentResult::TipSent { .. }
    ));
    assert!(matches!(
        ledger.process_access_fee(Some(&v1), &room_id, StreamQuality::High, 4),
        PaymentResult::AccessFeePaid { .. }
    ));
    assert!(matches!(
        ledger.process_access_fee(Some(&v1), &room_id, StreamQuality::Premium, 5),
        PaymentResult::AccessFeePaid { .. }
    ));
    ledger
}

#[test]
fn test_query_room_and_user_state() {
    let ledger = service_ledger();
    let room_id = "room-1".to_string();
    let missing = "no-such-room".to_string();
    let v1 = "viewer-1".to_string();
    let stranger = "stranger".to_string();
    let room = ledger.query_room_stats(&room_id).unwrap();
    assert_eq!(room.total_tips, 325);
    assert_eq!(room.total_access_fees, 700);
    assert_eq!(ledger.query_room_stats(&missing).unwrap_err(), PaymentError::RoomNotFound);
    let user = ledger.query_user_state(&v1).unwrap();
    assert_eq!(user.balance, 10_000 - 150 - 100 - 200 - 500);
    assert_eq!(user.pending_transactions.len(), 4);
    assert_eq!(ledger.query_user_state(&stranger).unwrap_err(), PaymentError::UserNotFound);
}

#[test]
fn test_query_global_stats_register() {
    let mut ledger = PaymentLedger::new();
    assert_eq!(ledger.query_global_stats().unwrap(), PaymentStats::default());
    let stats = PaymentStats {
        total_processed: 7,
        total_tips: 5,
        total_access_fees: 2,
        active_users: 3,
        active_rooms: 1,
    };
    ledger.update_stats(stats);
    assert_eq!(ledger.query_global_stats().unwrap(), stats);
}

#[test]
fn test_query_pending_queues() {
    let ledger = service_ledger();
    let room_id = "room-1".to_string();
    let v1 = "viewer-1".to_string();
    let tips = ledger.query_pending_tips(&room_id).unwrap();
    assert_eq!(tips.len(), 3);
    assert_eq!(tips[0].amount, 150);
    assert_eq!(tips[1].amount, 100);
    assert!(tips[1].super_chat);
    assert_eq!(tips[2].from, "viewer-2");
    let fees = ledger.query_pending_access_fees(&room_id).unwrap();
    assert_eq!(fees.len(), 2);
    assert_eq!(fees[0].quality_tier, StreamQuality::High);
    assert_eq!(fees[1].quality_tier, StreamQuality::Premium);
    let queue = ledger.query_user_pending_transactions(&v1).unwrap();
    assert_eq!(queue.len(), 4);
}

#[test]
fn test_recommended_tip_is_max() {
    let ledger = service_ledger();
    let room_id = "room-1".to_string();
    let v1 = "viewer-1".to_string();
    let v2 = "viewer-2".to_string();
    // viewer-1's default of 100 beats the room minimum of 50.
    assert_eq!(ledger.calculate_recommended_tip(&v1, &room_id).unwrap(), 100);
    // viewer-2's default of 30 is lifted to the room minimum.
    assert_eq!(ledger.calculate_recommended_tip(&v2, &room_id).unwrap(), 50);
}

#[test]
fn test_quality_tier_pricing_and_affordability() {
    let ledger = service_ledger();
    let room_id = "room-1".to_string();
    let v2 = "viewer-2".to_string();
    let pricing = ledger.get_quality_tier_pricing(&room_id).unwrap();
    assert_eq!(pricing.standard, Some(0));
    assert_eq!(pricing.high, Some(200));
    assert_eq!(pricing.premium, Some(500));
    assert_eq!(pricing.ultra, None);
    // viewer-2 holds 500 - 75 = 425: enough for High, not for Premium.
    assert!(ledger.can_afford_quality_tier(&v2, &room_id, &StreamQuality::High).unwrap());
    assert!(!ledger.can_afford_quality_tier(&v2, &room_id, &StreamQuality::Premium).unwrap());
    assert_eq!(
        ledger.can_afford_quality_tier(&v2, &room_id, &StreamQuality::Ultra).unwrap_err(),
        PaymentError::InvalidQualityTier
    );
}

#[test]
fn test_should_auto_settle_query() {
    let mut ledger = PaymentLedger::new();
    ledger.insert_user(UserPaymentState {
        user_id: "viewer-1".to_string(),
        balance: 10_000,
        pending_transactions: Vec::new(),
        preferences: UserPaymentPreferences {
            default_tip: 100,
            auto_settle_threshold: 10_000,
            max_pending: 50,
        },
    });
    let v1 = "viewer-1".to_string();
    let stranger = "stranger".to_string();
    // The balance sits exactly at the threshold.
    assert!(ledger.should_auto_settle(&v1).unwrap());
    assert_eq!(ledger.should_auto_settle(&stranger).unwrap_err(), PaymentError::UserNotFound);
}

#[test]
fn test_user_payment_summary_fields() {
    let ledger = service_ledger();
    let room_id = "room-1".to_string();
    let v1 = "viewer-1".to_string();
    let summary = ledger.get_user_payment_summary(&v1, &room_id).unwrap();
    assert_eq!(summary.user_id, "viewer-1");
    assert_eq!(summary.room_id, "room-1");
    assert_eq!(summary.balance, 9_050);
    assert_eq!(summary.pending_transactions, 4);
    assert_eq!(summary.pending_tips, 2);
    assert_eq!(summary.pending_access_fees, 2);
    assert!(summary.can_afford_tips);
    assert_eq!(summary.recommended_tip, 100);
    assert_eq!(summary.auto_settle_threshold, 1_000_000_000);
    // viewer-2's default of 30 sits below the room minimum of 50, so the
    // summary recommends the minimum.
    let v2 = "viewer-2".to_string();
    let lifted = ledger.get_user_payment_summary(&v2, &room_id).unwrap();
    assert_eq!(lifted.recommended_tip, 50);
    assert_eq!(lifted.pending_tips, 1);
    assert_eq!(lifted.pending_access_fees, 0);
}

#[test]
fn test_room_revenue_breakdown_fields() {
    let ledger = service_ledger();
    let room_id = "room-1".to_string();
    let breakdown = ledger.get_room_revenue_breakdown(&room_id).unwrap();
    assert_eq!(breakdown.room_id, "room-1");
    assert_eq!(breakdown.host, "host-1");
    assert_eq!(breakdown.total_tips, 325);
    assert_eq!(breakdown.total_access_fees, 700);
    assert_eq!(breakdown.pending_tips, 325);
    assert_eq!(breakdown.pending_access_fees, 700);
    assert_eq!(breakdown.total_revenue, 1025);
    assert_eq!(breakdown.pending_revenue, 1025);
    // viewer-1 tipped twice, viewer-2 once: two distinct tippers.
    assert_eq!(breakdown.active_tippers, 2);
    assert_eq!(breakdown.quality_tier_revenue.standard, 0);
    assert_eq!(breakdown.quality_tier_revenue.high, 200);
    assert_eq!(breakdown.quality_tier_revenue.premium, 500);
    assert_eq!(breakdown.quality_tier_revenue.ultra, 0);
}

#[test]
fn test_handle_query_arms() {
    let ledger = service_ledger();
    let stats = ledger.handle_query(PaymentQuery::GetRoomStats { room_id: "room-1".to_string() });
    match stats {
        PaymentQueryResponse::RoomStats(Some(room)) => assert_eq!(room.total_tips, 325),
        other => panic!("expected RoomStats, got {:?}", other),
    }
    let missing =
        ledger.handle_query(PaymentQuery::GetRoomStats { room_id: "no-such-room".to_string() });
    match missing {
        PaymentQueryResponse::Error(e) => assert_eq!(e, PaymentError::RoomNotFound),
        other => panic!("expected Error, got {:?}", other),
    }
    let tips = ledger.handle_query(PaymentQuery::GetPendingTips { room_id: "room-1".to_string() });
    match tips {
        PaymentQueryResponse::PendingTips(tips) => {
            assert_eq!(tips.len(), 3);
            assert_eq!(tips[0].amount, 150);
        }
        other => panic!("expected PendingTips, got {:?}", other),
    }
    let summary = ledger.handle_query(PaymentQuery::GetUserPaymentSummary {
        user_id: "viewer-2".to_string(),
        room_id: "room-1".to_string(),
    });
    match summary {
        PaymentQueryResponse::UserPaymentSummary(s) => {
            assert_eq!(s.pending_tips, 1);
            assert_eq!(s.pending_access_fees, 0);
            assert_eq!(s.balance, 425);
        }
        other => panic!("expected UserPaymentSummary, got {:?}", other),
    }
    let breakdown = ledger
        .handle_query(PaymentQuery::GetRoomRevenueBreakdown { room_id: "room-1".to_string() });
    match breakdown {
        PaymentQueryResponse::RoomRevenueBreakdown(b) => assert_eq!(b.pending_revenue, 1025),
        other => panic!("expected RoomRevenueBreakdown, got {:?}", other),
    }
}
