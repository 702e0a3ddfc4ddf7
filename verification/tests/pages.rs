use e_transfer::domain::{PaymentState, User};
use e_transfer::gateway::api::PublicError;
use e_transfer::gateway::pages::{
    account_hashes, admin_authorized, admin_login_token, amount_feedback, confirmation_email,
    data_callback_location, deposit_callback_location, deposit_status_is_final, deposit_status_link,
    deposit_status_text, email_code_link, email_feedback, email_taken, find_admin_cookie,
    payment_callback_location, payment_sent_link, payment_status_is_final, payment_status_links,
    payment_status_text, payout_allowed, payout_iban, payout_link, payout_salt, registration,
    registration_code, registration_email_feedback, uuid_bytes_of, DEPOSIT_CREATE_PAYOUT,
};
use e_transfer::ids::{PaymentId, UserId};
use e_transfer::time::Timestamp;

use argon2::password_hash::SaltString;
use argon2::{Argon2, PasswordHasher};
use base64::Engine;

fn hash(password: &[u8], salt: &str) -> String {
    Argon2::default().hash_password(password, &SaltString::from_b64(salt).unwrap()).unwrap().to_string()
}

const ID: &str = "00000000-0000-0000-0000-000000000001";

#[test]
fn status_links() {
    let (deposit, update) = payment_status_links(PaymentId(1));
    assert_eq!(deposit, format!("/app/deposit?payment_id={ID}"));
    assert_eq!(update, format!("/app/payment/status_update?payment_id={ID}"));
    assert_eq!(deposit_status_link(PaymentId(1)), format!("/app/deposit/status_update?payment_id={ID}"));
    assert_eq!(payment_sent_link(PaymentId(1)), format!("/deposit?payment_id={ID}"));
}

#[test]
fn callback_locations() {
    assert_eq!(
        payment_callback_location(Some(PaymentState::InboundFailed), PaymentId(1)),
        format!("/payment_sent?payment_id={ID}")
    );
    assert_eq!(payment_callback_location(None, PaymentId(1)), "/error");
    assert_eq!(
        data_callback_location(Some(PaymentState::InboundCreated), PaymentId(1), "c0de"),
        format!("/deposit_select_account?payment_id={ID}&code=c0de")
    );
    assert_eq!(data_callback_location(None, PaymentId(1), "c0de"), "/error");
    assert_eq!(deposit_callback_location(true, PaymentId(1)), format!("/app/deposit/status?payment_id={ID}"));
    assert_eq!(deposit_callback_location(false, PaymentId(1)), "/error");
}

#[test]
fn payment_status_texts() {
    assert_eq!(payment_status_text(PaymentState::InboundCreated), Some("Payment Created..."));
    assert_eq!(payment_status_text(PaymentState::InboundSettled), Some("Payment Settled Into Landing Account"));
    assert_eq!(payment_status_text(PaymentState::OutboundExecuted), Some("Payment Deposit Executed"));
    assert_eq!(payment_status_text(PaymentState::RefundExecuted), Some("Payment Refunded"));
    assert_eq!(payment_status_text(PaymentState::RefundAuthorized), None);
    assert!(payment_status_is_final(PaymentState::InboundSettled));
    assert!(payment_status_is_final(PaymentState::InboundFailed));
    assert!(!payment_status_is_final(PaymentState::InboundExecuted));
    assert!(!payment_status_is_final(PaymentState::OutboundCreated));
}

#[test]
fn deposit_status_texts() {
    assert_eq!(deposit_status_text(PaymentState::OutboundAuthorized), Some("Payment Deposit Authorized..."));
    assert_eq!(deposit_status_text(PaymentState::InboundSettled), None);
    assert!(deposit_status_is_final(PaymentState::OutboundFailed));
    assert!(deposit_status_is_final(PaymentState::OutboundExecuted));
    assert!(!deposit_status_is_final(PaymentState::OutboundCreated));
    // both pages agree on the outbound states
    for s in [PaymentState::OutboundCreated, PaymentState::OutboundAuthorized, PaymentState::OutboundExecuted, PaymentState::OutboundFailed] {
        assert_eq!(deposit_status_text(s), payment_status_text(s));
    }
}

#[test]
fn amount_feedbacks() {
    assert_eq!(amount_feedback(Some(99), true), ("form-control is-invalid", "A minimum of 100 is required..."));
    assert_eq!(amount_feedback(Some(100), true), ("form-control is-valid", ""));
    assert_eq!(amount_feedback(None, true), ("form-control is-invalid", "A minimum of 100 is required..."));
    assert_eq!(amount_feedback(None, false), ("form-control", ""));
    assert_eq!(amount_feedback(Some(500), false), ("form-control is-valid", ""));
}

#[test]
fn email_feedbacks() {
    assert_eq!(email_feedback(Some("a@b.co"), true), ("form-control is-valid", ""));
    assert_eq!(email_feedback(Some("nope"), true), ("form-control is-invalid", "Please enter a valid email address..."));
    assert_eq!(email_feedback(None, false), ("form-control", ""));
    assert_eq!(
        registration_email_feedback("a@b.co", true, true),
        ("form-control is-invalid", "That email is already taken.  Please enter another email...")
    );
    assert_eq!(
        registration_email_feedback("nope", false, true),
        ("form-control is-invalid", "Please enter a valid email address...")
    );
    assert_eq!(registration_email_feedback("nope", true, false), ("form-control", ""));
    assert_eq!(registration_email_feedback("a@b.co", false, true), ("form-control is-valid", ""));
}

fn registering(id: u128, version_code: &str) -> User {
    User::Registering {
        user_id: UserId(id),
        email: "old@x.y".to_string(),
        first_name: "Old".to_string(),
        last_name: "Name".to_string(),
        code: version_code.to_string(),
        timestamp: Timestamp { secs: 1, nanos: 0 },
    }
}

#[test]
fn email_taken_only_for_registered() {
    let r = User::Registered { user_id: UserId(1), email: "e".to_string(), first_name: "f".to_string(), last_name: "l".to_string() };
    assert!(email_taken(Some(&r)));
    assert!(!email_taken(Some(&registering(1, "c"))));
    assert!(!email_taken(None));
}

#[test]
fn confirmation_emails() {
    assert_eq!(confirmation_email(Some(registering(1, "c"))).unwrap(), "old@x.y");
    let r = User::Registered { user_id: UserId(1), email: "e".to_string(), first_name: "f".to_string(), last_name: "l".to_string() };
    assert!(matches!(confirmation_email(Some(r)), Err(PublicError::InternalServerError)));
    assert!(matches!(confirmation_email(None), Err(PublicError::InternalServerError)));
}

#[test]
fn registration_of_new_user() {
    let now = Timestamp { secs: 5, nanos: 0 };
    let (u, v) = registration(None, "n@x.y".to_string(), "N".to_string(), "M".to_string(), "CODE".to_string(), now, UserId(9)).unwrap();
    assert_eq!(v, 0);
    assert_eq!(u.user_id(), UserId(9));
    assert_eq!(u.email(), "n@x.y");
    assert_eq!(u.registration_code().map(|(c, t)| (c.to_string(), *t)), Some(("CODE".to_string(), now)));
}

#[test]
fn registration_of_registering_user_updates() {
    let now = Timestamp { secs: 5, nanos: 0 };
    let (u, v) = registration(Some((registering(4, "OLD"), 3)), "other@x.y".to_string(), "N".to_string(), "M".to_string(), "NEW".to_string(), now, UserId(9)).unwrap();
    assert_eq!(v, 4);
    assert_eq!(u.user_id(), UserId(4));
    assert_eq!(u.email(), "old@x.y");
    assert_eq!(u.first_name(), "N");
    assert_eq!(u.registration_code().unwrap().0, "NEW");
}

#[test]
fn registration_of_registered_user_fails() {
    let r = User::Registered { user_id: UserId(1), email: "e".to_string(), first_name: "f".to_string(), last_name: "l".to_string() };
    let out = registration(Some((r, 2)), "e".to_string(), "N".to_string(), "M".to_string(), "C".to_string(), Timestamp { secs: 0, nanos: 0 }, UserId(2));
    assert!(matches!(out, Err(PublicError::InternalServerError)));
}

#[test]
fn registration_of_registered_user_fails_at_last_version() {
    let r = User::Registered { user_id: UserId(1), email: "e".to_string(), first_name: "f".to_string(), last_name: "l".to_string() };
    let out = registration(Some((r, u32::MAX)), "e".to_string(), "N".to_string(), "M".to_string(), "C".to_string(), Timestamp { secs: 0, nanos: 0 }, UserId(2));
    assert!(matches!(out, Err(PublicError::InternalServerError)));
}

#[test]
fn registration_codes_and_links() {
    let c = registration_code();
    assert_eq!(c.len(), 8);
    assert!(c.chars().all(|ch| ch.is_ascii_alphanumeric()));
    assert_eq!(email_code_link(UserId(1)), format!("/app/register/email_code?user_id={ID}"));
}

#[test]
fn admin_login_and_cookie() {
    assert_eq!(admin_login_token("wrong"), None);
    let token = admin_login_token("admin").unwrap();
    assert!(token.starts_with("$argon2"));
    let header = format!("theme=dark; admin={token}; other=1");
    assert_eq!(find_admin_cookie(&header), Some(token.clone()));
    assert_eq!(admin_authorized(Some(&header)), Some(true));
    assert_eq!(admin_authorized(None), Some(false));
    assert_eq!(admin_authorized(Some("theme=dark")), Some(false));
    assert_eq!(admin_authorized(Some("admin=garbage")), None);
    assert_eq!(find_admin_cookie("administrator=1;  admin=v  "), Some("v".to_string()));
}

#[test]
fn forged_admin_cookie_is_refused() {
    let other = hash(b"guess", "ZXRyYW5zZmVy");
    assert_eq!(admin_authorized(Some(&format!("admin={other}"))), Some(false));
}

#[test]
fn uuid_bytes_and_salt() {
    assert_eq!(uuid_bytes_of(0x0102030405060708090a0b0c0d0e0f10), (1..=16u8).collect::<Vec<u8>>());
    assert_eq!(payout_salt(PaymentId(0)), "AAAAAAAAAAAAAAAAAAAAAA");
}

#[test]
fn listed_account_is_accepted() {
    let ibans = vec!["GB33BUKB20201555555555".to_string(), "DE89370400440532013000".to_string()];
    let cookie = account_hashes(PaymentId(77), &ibans).unwrap();
    let salt = payout_salt(PaymentId(77));
    let h0 = hash(ibans[0].as_bytes(), &salt);
    let h1 = hash(ibans[1].as_bytes(), &salt);
    assert_eq!(cookie, format!("{h0},{h1}"));
    let link = payout_link(&ibans[1]);
    let param = link.strip_prefix(&format!("{DEPOSIT_CREATE_PAYOUT}?iban=")).unwrap();
    assert_eq!(payout_iban(PaymentId(77), param, &cookie), Some(ibans[1].clone()));
}

#[test]
fn unlisted_account_is_refused() {
    let cookie = account_hashes(PaymentId(77), &vec!["GB33BUKB20201555555555".to_string()]).unwrap();
    let param = base64::engine::general_purpose::URL_SAFE.encode(b"FR7630006000011234567890189");
    assert_eq!(payout_iban(PaymentId(77), &param, &cookie), None);
    assert_eq!(payout_iban(PaymentId(77), "%%%", &cookie), None);
    let not_utf8 = base64::engine::general_purpose::URL_SAFE.encode([0xff, 0xfe]);
    assert_eq!(payout_iban(PaymentId(77), &not_utf8, &cookie), None);
}

#[test]
fn empty_account_list() {
    assert_eq!(account_hashes(PaymentId(1), &vec![]), Some(String::new()));
}

#[test]
fn payouts_only_before_outbound() {
    assert!(payout_allowed(PaymentState::InboundSettled));
    assert!(payout_allowed(PaymentState::RefundFailed));
    assert!(!payout_allowed(PaymentState::OutboundCreated));
    assert!(!payout_allowed(PaymentState::OutboundFailed));
}
