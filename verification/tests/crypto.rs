use argon2::password_hash::SaltString;
use argon2::{Argon2, PasswordHasher};
use base64::Engine;
use e_transfer::gateway::pages::{
    account_hashes, admin_authorized, admin_login_token, email_feedback, find_admin_cookie,
    payout_iban, payout_link, payout_salt, registration_code,
};
use e_transfer::gateway::api::{check_deposit, hash_security_answer};
use e_transfer::domain::PaymentState;
use e_transfer::ids::PaymentId;

fn reference_hash(password: &[u8], salt: &str) -> String {
    Argon2::default()
        .hash_password(password, &SaltString::from_b64(salt).unwrap())
        .unwrap()
        .to_string()
}

#[test]
fn admin_token_is_the_argon2_hash_of_the_password() {
    let token = admin_login_token("admin").unwrap();
    assert_eq!(token, reference_hash(b"admin", "ZXRyYW5zZmVy"));
    assert_ne!(token, "admin");
}

#[test]
fn hashed_answer_is_not_the_answer_and_verifies() {
    let h = hash_security_answer("blue").unwrap();
    assert_ne!(h, "blue");
    assert!(h.starts_with("$argon2id$"));
    assert_eq!(check_deposit("blue", &h, PaymentState::InboundCreated), Some(true));
}

#[test]
fn answers_hash_under_different_salts() {
    let a = hash_security_answer("same").unwrap();
    let b = hash_security_answer("same").unwrap();
    assert_ne!(a, b);
}

#[test]
fn stored_hash_from_elsewhere_is_checked() {
    let h = reference_hash(b"green", "c2FsdHNhbHQ");
    assert_eq!(check_deposit("green", &h, PaymentState::InboundSettled), Some(true));
    assert_eq!(check_deposit("Green", &h, PaymentState::InboundSettled), Some(false));
    assert_eq!(check_deposit("green", "plain text", PaymentState::InboundSettled), None);
}

#[test]
fn payout_salt_is_base64_of_the_uuid_bytes() {
    let id: u128 = 0x67e5504410b1426f9247bb680e5fe0c8;
    let expected = base64::engine::general_purpose::STANDARD_NO_PAD.encode(id.to_be_bytes());
    assert_eq!(payout_salt(PaymentId(id)), expected);
    assert_ne!(payout_salt(PaymentId(id)), payout_salt(PaymentId(id + 1)));
}

#[test]
fn account_hashes_are_argon2_under_the_payout_salt() {
    let salt = payout_salt(PaymentId(5));
    let cookie = account_hashes(PaymentId(5), &vec!["GB33".to_string()]).unwrap();
    assert_eq!(cookie, reference_hash(b"GB33", &salt));
}

#[test]
fn payout_links_carry_base64() {
    let link = payout_link("GB33BUKB");
    let expected = base64::engine::general_purpose::URL_SAFE.encode("GB33BUKB");
    assert_eq!(link, format!("/app/deposit/create_payout?iban={expected}"));
}

#[test]
fn payout_iban_decodes_base64() {
    let cookie = account_hashes(PaymentId(5), &vec!["GB33".to_string()]).unwrap();
    let param = base64::engine::general_purpose::URL_SAFE.encode("GB33");
    assert_eq!(payout_iban(PaymentId(5), &param, &cookie), Some("GB33".to_string()));
    // the raw account number is not accepted in place of its encoding
    assert_eq!(payout_iban(PaymentId(5), "GB33", &cookie), None);
}

#[test]
fn email_validity_reaches_the_form() {
    assert_eq!(email_feedback(Some("ann@example.com"), true).0, "form-control is-valid");
    assert_eq!(email_feedback(Some("ann.example.com"), true).0, "form-control is-invalid");
    assert_eq!(email_feedback(Some(""), true).0, "form-control is-invalid");
}

#[test]
fn registration_codes_are_random() {
    let a = registration_code();
    let b = registration_code();
    assert_eq!(a.len(), 8);
    assert_ne!(a, b);
}

#[test]
fn cookies_are_parsed_and_trimmed() {
    assert_eq!(find_admin_cookie("a=1;   admin=xyz  ;b=2"), Some("xyz".to_string()));
    assert_eq!(find_admin_cookie("admin"), None);
    assert_eq!(find_admin_cookie("=admin; admin2=v"), None);
    assert_eq!(find_admin_cookie(""), None);
}

#[test]
fn admin_cookie_must_verify_the_admin_password() {
    let good = reference_hash(b"admin", "c2FsdHNhbHQ");
    let bad = reference_hash(b"nimda", "c2FsdHNhbHQ");
    assert_eq!(admin_authorized(Some(&format!("admin={good}"))), Some(true));
    assert_eq!(admin_authorized(Some(&format!("admin={bad}"))), Some(false));
}

#[test]
fn hashing_succeeds_on_ordinary_inputs() {
    assert!(hash_security_answer("").is_ok());
    assert!(hash_security_answer("a much longer answer with spaces and ünïcode").is_ok());
    assert_eq!(account_hashes(PaymentId(0), &vec![]), Some(String::new()));
    assert!(account_hashes(PaymentId(u128::MAX), &vec![String::new(), "DE89".to_string()]).is_some());
    assert!(admin_login_token("admin").is_some());
    assert!(admin_login_token("Admin").is_none());
}
