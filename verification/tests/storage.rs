use e_transfer::gateway::records::PaymentState;
use e_transfer::legacy;
use e_transfer::store::{upsert_outcome, version_from_db, version_to_db, DbError};

const ALL: [PaymentState; 14] = [
    PaymentState::InboundCreated,
    PaymentState::InboundAuthorizing,
    PaymentState::InboundAuthorized,
    PaymentState::InboundExecuted,
    PaymentState::InboundSettled,
    PaymentState::InboundFailed,
    PaymentState::RefundCreated,
    PaymentState::RefundAuthorized,
    PaymentState::RefundExecuted,
    PaymentState::RefundFailed,
    PaymentState::OutboundCreated,
    PaymentState::OutboundAuthorized,
    PaymentState::OutboundExecuted,
    PaymentState::OutboundFaild,
];

#[test]
fn state_codes() {
    let codes: Vec<u8> = ALL.iter().map(|s| s.code()).collect();
    assert_eq!(codes, vec![1, 2, 3, 4, 5, 6, 20, 21, 22, 23, 40, 41, 42, 43]);
}

#[test]
fn codes_round_trip() {
    for s in ALL {
        assert!(PaymentState::code_is_valid(s.code()));
        assert_eq!(PaymentState::from_code(s.code()), s);
    }
}

#[test]
fn invalid_codes() {
    for n in [0u8, 7, 19, 24, 39, 44, 255] {
        assert!(!PaymentState::code_is_valid(n));
    }
    let valid = (0..=255u8).filter(|n| PaymentState::code_is_valid(*n)).count();
    assert_eq!(valid, 14);
}

#[test]
fn legacy_states_exist() {
    let s = legacy::PaymentState::OutboundFaild;
    assert_ne!(s, legacy::PaymentState::InboundAuthorizing);
}

#[test]
fn versions_to_db() {
    assert!(matches!(version_to_db(0), Ok(0)));
    assert!(matches!(version_to_db(2147483647), Ok(2147483647)));
    match version_to_db(2147483648) {
        Err(DbError::Unknown(m)) => assert_eq!(m, "version overflow"),
        other => panic!("unexpected {:?}", other),
    }
}

#[test]
fn versions_from_db() {
    assert_eq!(version_from_db(7), 7);
    assert_eq!(version_from_db(-1), u32::MAX);
    for v in [0u32, 1, 1000, 2147483647] {
        let db = version_to_db(v).unwrap();
        assert_eq!(version_from_db(db), v);
    }
}

#[test]
fn upsert_outcomes() {
    assert!(matches!(upsert_outcome(0), Err(DbError::ConcurrentUpdate)));
    assert!(upsert_outcome(1).is_ok());
    match upsert_outcome(2) {
        Err(DbError::Unknown(m)) => assert_eq!(m, "More than one(2) row was updated"),
        other => panic!("unexpected {:?}", other),
    }
    match upsert_outcome(1234) {
        Err(DbError::Unknown(m)) => assert_eq!(m, "More than one(1234) row was updated"),
        other => panic!("unexpected {:?}", other),
    }
}
