use e_transfer::domain::{
    Payment, PaymentEvent, PaymentState, PaymentStatuses, PayoutData, PayoutStatuses, RefundData, RefundStatuses, User,
    UserState,
};
use e_transfer::entities;
use e_transfer::gateway::pages::payout_allowed;
use e_transfer::ids::{PaymentId, PayoutId, RefundId, UserId};
use e_transfer::time::Timestamp;

const ALL: [PaymentState; 13] = [
    PaymentState::InboundCreated,
    PaymentState::InboundAuthorized,
    PaymentState::InboundExecuted,
    PaymentState::InboundSettled,
    PaymentState::InboundFailed,
    PaymentState::RefundCreated,
    PaymentState::RefundAuthorized,
    PaymentState::RefundExecuted,
    PaymentState::RefundFailed,
    PaymentState::OutboundCreated,
    PaymentState::OutboundAuthorized,
    PaymentState::OutboundExecuted,
    PaymentState::OutboundFailed,
];

fn at(secs: i64) -> Timestamp {
    Timestamp { secs, nanos: 0 }
}

fn created(secs: i64) -> PaymentStatuses {
    PaymentStatuses {
        inbound_created_at: at(secs),
        inbound_authorized_at: None,
        inbound_executed_at: None,
        inbound_settled_at: None,
        inbound_failed_at: None,
    }
}

fn sample_payment() -> Payment {
    Payment {
        payment_id: PaymentId(42),
        payer_full_name: "Ann Payer".to_string(),
        payer_email: "ann@example.com".to_string(),
        payee_full_name: "Bob Payee".to_string(),
        payee_email: "bob@example.com".to_string(),
        amount: 1500,
        security_question: "pet?".to_string(),
        security_answer: "$argon2id$stub".to_string(),
        payment_statuses: PaymentStatuses {
            inbound_created_at: at(10),
            inbound_authorized_at: Some(at(11)),
            inbound_executed_at: None,
            inbound_settled_at: None,
            inbound_failed_at: None,
        },
        payout_data: None,
        refund_data: None,
    }
}

#[test]
fn labels_of_states() {
    assert_eq!(PaymentState::InboundCreated.as_str(), "inbound_created");
    assert_eq!(PaymentState::InboundSettled.as_str(), "inbound_settled");
    assert_eq!(PaymentState::RefundAuthorized.as_str(), "refund_authorized");
    assert_eq!(PaymentState::OutboundFailed.as_str(), "outbound_failed");
}

#[test]
fn labels_are_distinct() {
    for (i, a) in ALL.iter().enumerate() {
        for (j, b) in ALL.iter().enumerate() {
            assert_eq!(i == j, a.as_str() == b.as_str());
        }
    }
}

#[test]
fn ordinals_follow_declaration_order() {
    for (i, s) in ALL.iter().enumerate() {
        assert_eq!(s.ordinal() as usize, i);
    }
    assert!(PaymentState::OutboundCreated.is_at_least(PaymentState::RefundFailed));
    assert!(!PaymentState::InboundFailed.is_at_least(PaymentState::RefundCreated));
    assert!(PaymentState::InboundCreated.is_at_least(PaymentState::InboundCreated));
}

#[test]
fn state_of_fresh_payment_is_created() {
    assert_eq!(created(1).state(), PaymentState::InboundCreated);
}

#[test]
fn furthest_step_decides_state() {
    let mut s = created(1);
    s.inbound_authorized_at = Some(at(2));
    assert_eq!(s.state(), PaymentState::InboundAuthorized);
    s.inbound_executed_at = Some(at(3));
    assert_eq!(s.state(), PaymentState::InboundExecuted);
    s.inbound_settled_at = Some(at(4));
    assert_eq!(s.state(), PaymentState::InboundSettled);
    s.inbound_failed_at = Some(at(5));
    assert_eq!(s.state(), PaymentState::InboundFailed);
}

#[test]
fn settled_without_earlier_steps_is_settled() {
    let mut s = created(1);
    s.inbound_settled_at = Some(at(9));
    assert_eq!(s.state(), PaymentState::InboundSettled);
}

#[test]
fn payment_state_reads_statuses() {
    assert_eq!(sample_payment().state(), PaymentState::InboundAuthorized);
}

#[test]
fn record_sets_only_its_step() {
    let mut s = created(1);
    s.record(PaymentEvent::Executed(at(7)));
    assert_eq!(s.inbound_executed_at, Some(at(7)));
    assert_eq!(s.inbound_authorized_at, None);
    assert_eq!(s.inbound_created_at, at(1));
    assert_eq!(s.state(), PaymentState::InboundExecuted);
}

#[test]
fn record_never_moves_back() {
    let mut s = created(1);
    s.record(PaymentEvent::Settled(at(5)));
    s.record(PaymentEvent::Authorized(at(6)));
    assert_eq!(s.state(), PaymentState::InboundSettled);
}

#[test]
fn failure_is_final() {
    let mut s = created(1);
    s.record(PaymentEvent::Failed(at(2)));
    assert_eq!(s.state(), PaymentState::InboundFailed);
    s.record(PaymentEvent::Settled(at(3)));
    assert_eq!(s.state(), PaymentState::InboundFailed);
}

#[test]
fn record_twice_is_record_once() {
    let mut a = created(1);
    a.record(PaymentEvent::Authorized(at(2)));
    let mut b = a.clone();
    b.record(PaymentEvent::Authorized(at(2)));
    assert_eq!(a.inbound_authorized_at, b.inbound_authorized_at);
    assert_eq!(a.state(), b.state());
}

#[test]
fn event_states() {
    assert_eq!(PaymentEvent::Authorized(at(0)).state(), PaymentState::InboundAuthorized);
    assert_eq!(PaymentEvent::Executed(at(0)).state(), PaymentState::InboundExecuted);
    assert_eq!(PaymentEvent::Settled(at(0)).state(), PaymentState::InboundSettled);
    assert_eq!(PaymentEvent::Failed(at(0)).state(), PaymentState::InboundFailed);
}

#[test]
fn user_accessors() {
    let u = User::Registering {
        user_id: UserId(5),
        email: "a@b.c".to_string(),
        first_name: "Ann".to_string(),
        last_name: "Lee".to_string(),
        code: "AB12cd34".to_string(),
        timestamp: at(3),
    };
    assert_eq!(u.state(), UserState::Registering);
    assert_eq!(u.user_id(), UserId(5));
    assert_eq!(u.email(), "a@b.c");
    assert_eq!(u.first_name(), "Ann");
    assert_eq!(u.last_name(), "Lee");
    let (code, t) = u.registration_code().unwrap();
    assert_eq!(code, "AB12cd34");
    assert_eq!(*t, at(3));
    let r = User::Registered {
        user_id: UserId(6),
        email: "x@y.z".to_string(),
        first_name: "X".to_string(),
        last_name: "Y".to_string(),
    };
    assert_eq!(r.state(), UserState::Registered);
    assert!(r.registration_code().is_none());
}

#[test]
fn payment_store_round_trip() {
    let p = sample_payment();
    let e: entities::Payment = p.clone().into();
    assert_eq!(e.payment_id, 42);
    let back = Payment::from(e);
    assert_eq!(back.payment_id, p.payment_id);
    assert_eq!(back.payer_full_name, p.payer_full_name);
    assert_eq!(back.payer_email, p.payer_email);
    assert_eq!(back.payee_full_name, p.payee_full_name);
    assert_eq!(back.payee_email, p.payee_email);
    assert_eq!(back.amount, p.amount);
    assert_eq!(back.security_question, p.security_question);
    assert_eq!(back.security_answer, p.security_answer);
    assert_eq!(back.payment_statuses.inbound_authorized_at, Some(at(11)));
    assert_eq!(back.state(), p.state());
}

#[test]
fn statuses_entity_round_trip() {
    let s = sample_payment().payment_statuses;
    let e = s.clone().into_entity();
    let back = PaymentStatuses::from_entity(e);
    assert_eq!(back.inbound_created_at, s.inbound_created_at);
    assert_eq!(back.inbound_authorized_at, s.inbound_authorized_at);
    assert_eq!(back.inbound_failed_at, s.inbound_failed_at);
}

#[test]
fn user_load_and_store() {
    let e = entities::User {
        user_id: 9,
        email: "u@v.w".to_string(),
        user_data: entities::UserData::V1(entities::UserDataV1::Registering {
            first_name: "F".to_string(),
            last_name: "L".to_string(),
            code: "c0de".to_string(),
            timestamp: at(4),
        }),
    };
    let u = User::from(e);
    assert_eq!(u.state(), UserState::Registering);
    assert_eq!(u.user_id(), UserId(9));
    assert_eq!(u.email(), "u@v.w");
    let back = entities::User::from(u);
    assert_eq!(back.user_id, 9);
    assert_eq!(back.email, "u@v.w");
    match back.user_data {
        entities::UserData::V1(d) => {
            assert_eq!(d.first_name(), "F");
            assert_eq!(d.last_name(), "L");
            assert!(matches!(d, entities::UserDataV1::Registering { .. }));
        }
    }
}

#[test]
fn registered_user_loads_registered() {
    let e = entities::User {
        user_id: 1,
        email: "r@s.t".to_string(),
        user_data: entities::UserData::V1(entities::UserDataV1::Registered {
            first_name: "R".to_string(),
            last_name: "S".to_string(),
        }),
    };
    let u = User::from(e);
    assert_eq!(u.state(), UserState::Registered);
    assert_eq!(u.first_name(), "R");
    assert_eq!(u.last_name(), "S");
}

#[test]
fn now_is_after_epoch_and_has_text() {
    let t = Timestamp::now();
    assert!(t.secs > 1_600_000_000);
    assert!(t.nanos < 1_000_000_000);
    let text = t.to_rfc3339();
    assert!(!text.is_empty());
    assert!(text.ends_with("+00:00"));
}

#[test]
fn recorded_payout_moves_payment_outbound() {
    let mut p = sample_payment();
    assert_eq!(p.state(), PaymentState::InboundAuthorized);
    p.record_payout(PayoutId(7), at(100));
    assert_eq!(p.state(), PaymentState::OutboundCreated);
    match &p.payout_data {
        Some(PayoutData::PayoutCreated { payout_id, payout_statuses }) => {
            assert_eq!(*payout_id, PayoutId(7));
            assert_eq!(payout_statuses.payout_created_at, at(100));
            assert!(payout_statuses.payout_executed_at.is_none());
            assert!(payout_statuses.payout_failed_at.is_none());
        }
        _ => panic!("payout not recorded"),
    }
    assert_eq!(p.payment_statuses.inbound_authorized_at, Some(at(11)));
    p.payment_statuses.record(PaymentEvent::Settled(at(120)));
    assert_eq!(p.state(), PaymentState::OutboundCreated);
}

#[test]
fn payout_and_refund_steps_give_states() {
    let mut p = sample_payment();
    p.refund_data = Some(RefundData {
        refund_id: RefundId(3),
        refund_statuses: RefundStatuses { refund_created_at: at(50), refund_executed_at: None, refund_failed_at: None },
    });
    assert_eq!(p.state(), PaymentState::RefundCreated);
    if let Some(r) = &mut p.refund_data {
        r.refund_statuses.refund_executed_at = Some(at(51));
    }
    assert_eq!(p.state(), PaymentState::RefundExecuted);
    p.payout_data = Some(PayoutData::PayoutRegistering { payout_registered_at: at(60) });
    assert_eq!(p.state(), PaymentState::OutboundCreated);
    p.payout_data = Some(PayoutData::PayoutCreated {
        payout_id: PayoutId(8),
        payout_statuses: PayoutStatuses {
            payout_created_at: at(61),
            payout_executed_at: Some(at(62)),
            payout_failed_at: None,
        },
    });
    assert_eq!(p.state(), PaymentState::OutboundExecuted);
    if let Some(PayoutData::PayoutCreated { payout_statuses, .. }) = &mut p.payout_data {
        payout_statuses.payout_failed_at = Some(at(63));
    }
    assert_eq!(p.state(), PaymentState::OutboundFailed);
}

#[test]
fn payout_and_refund_survive_storage() {
    let mut p = sample_payment();
    p.record_payout(PayoutId(9), at(70));
    p.refund_data = Some(RefundData {
        refund_id: RefundId(4),
        refund_statuses: RefundStatuses { refund_created_at: at(71), refund_executed_at: None, refund_failed_at: Some(at(72)) },
    });
    let e: entities::Payment = p.clone().into();
    match &e.payment_data {
        entities::PaymentData::V1 { payout_data: Some(entities::PayoutData::PayoutCreated { payout_id, .. }), refund_data: Some(r), .. } => {
            assert_eq!(*payout_id, 9);
            assert_eq!(r.refund_id, 4);
            assert_eq!(r.refund_statuses.refund_failed_at, Some(at(72)));
        }
        _ => panic!("payout or refund not stored"),
    }
    let back = Payment::from(e);
    assert_eq!(back.state(), PaymentState::OutboundCreated);
    match back.refund_data {
        Some(r) => assert_eq!(r.refund_id, RefundId(4)),
        None => panic!("refund lost"),
    }
}

#[test]
fn second_payout_is_refused() {
    let mut p = sample_payment();
    p.payment_statuses.record(PaymentEvent::Settled(at(20)));
    assert!(payout_allowed(p.state()));
    p.record_payout(PayoutId(5), at(30));
    assert!(!payout_allowed(p.state()));
    let stored: entities::Payment = p.into();
    let loaded = Payment::from(stored);
    assert!(!payout_allowed(loaded.state()));
}
