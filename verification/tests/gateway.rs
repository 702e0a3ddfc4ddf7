use argon2::password_hash::SaltString;
use argon2::{Argon2, PasswordHasher};
use base64::Engine;
use e_transfer::domain::{Payment, PaymentEvent, PaymentState, PaymentStatuses, User};
use e_transfer::gateway::admin::{admin_payment_link, admin_user_link, payment_line, payment_rows, user_line, user_rows};
use e_transfer::gateway::api::{
    check_deposit, data_auth_link, deposit_allowed, hash_security_answer, new_payment,
    payment_auth_link, PublicError, UriBuilder,
};
use e_transfer::gateway::truelayer::{
    accounts_endpoint, auth_endpoint, auth_payments_body, data_auth_body, data_auth_endpoint,
    payment_body, payments_endpoint, payout_body, payout_endpoint, TlEnviorment,
};
use e_transfer::gateway::webhook::{
    check_signature, is_permitted_jku, signature_jku, HookError, PaymentSource, Remitter, TlWebhook,
};
use e_transfer::ids::{PaymentId, PayoutId, RefundId, UserId};
use e_transfer::payment_manager::{endpoint, payment_id_from_reply, payout_id_from_reply};
use e_transfer::plaid::PlaidEnviorment;
use e_transfer::store::DbError;
use e_transfer::time::Timestamp;

fn at(secs: i64) -> Timestamp {
    Timestamp { secs, nanos: 0 }
}

#[test]
fn public_errors() {
    let e = PublicError::InternalServerError;
    assert_eq!(e.message(), "Something went wrong. Please retry later.");
    assert_eq!(e.status_code(), 500);
    let i = PublicError::Invalid("bad".to_string());
    assert_eq!(i.message(), "bad");
    assert_eq!(i.status_code(), 400);
    assert!(matches!(PublicError::from(DbError::ConcurrentUpdate), PublicError::InternalServerError));
    assert!(matches!(PublicError::from(DbError::Unknown("x".to_string())), PublicError::InternalServerError));
}

#[test]
fn uri_builder() {
    assert_eq!(UriBuilder::new("https://x/").build(), "https://x/");
    let u = UriBuilder::new("https://x/").add_param("a", "1").add_param("b", "2").add_param("c", "").build();
    assert_eq!(u, "https://x/?a=1&b=2&c=");
}

#[test]
fn deposit_link_for_sandbox() {
    let link = data_auth_link(TlEnviorment::Sandbox, "client-1", "https://gw/data_callback", PaymentId(1));
    assert_eq!(
        link,
        "https://auth.truelayer-sandbox.com/?response_type=code&client_id=client-1&scope=info%20accounts%20balance&redirect_uri=https://gw/data_callback&providers=uk-cs-mock%20uk-ob-all%20uk-oauth-all&state=00000000-0000-0000-0000-000000000001"
    );
}

#[test]
fn deposit_needs_right_answer_and_no_payout() {
    let h = Argon2::default().hash_password(b"blue", &SaltString::from_b64("c2FsdHNhbHQ").unwrap()).unwrap().to_string();
    assert!(deposit_allowed("blue", &h, PaymentState::InboundSettled));
    assert!(deposit_allowed("blue", &h, PaymentState::RefundFailed));
    assert!(!deposit_allowed("blue", &h, PaymentState::OutboundCreated));
    assert!(!deposit_allowed("red", &h, PaymentState::InboundSettled));
    assert_eq!(check_deposit("blue", &h, PaymentState::InboundCreated), Some(true));
    assert_eq!(check_deposit("blue", "not a hash", PaymentState::InboundCreated), None);
}

#[test]
fn security_answer_hash_verifies() {
    let h = hash_security_answer("my answer").unwrap();
    assert_ne!(h, "my answer");
    assert_eq!(check_deposit("my answer", &h, PaymentState::InboundCreated), Some(true));
    assert_eq!(check_deposit("other", &h, PaymentState::InboundCreated), Some(false));
}

#[test]
fn payment_auth_links() {
    assert_eq!(
        payment_auth_link(PaymentId(2), "tok", "https://gw/cb"),
        "https://payment.truelayer-sandbox.com/payments#payment_id=00000000-0000-0000-0000-000000000002&resource_token=tok&return_uri=https://gw/cb"
    );
}

#[test]
fn new_payments_are_created() {
    let p = new_payment(
        PaymentId(3),
        "A".to_string(),
        "a@x.y".to_string(),
        "B".to_string(),
        "b@x.y".to_string(),
        200,
        "q".to_string(),
        "h".to_string(),
        at(9),
    );
    assert_eq!(p.state(), PaymentState::InboundCreated);
    assert_eq!(p.payment_statuses.inbound_created_at, at(9));
    assert_eq!(p.amount, 200);
}

fn webhook_authorized() -> TlWebhook {
    TlWebhook::PaymentAuthorized {
        event_id: 1,
        event_version: 1,
        payment_id: PaymentId(7),
        authorized_at: at(5),
        payment_source: Some(PaymentSource { account_holder_name: "A".to_string(), account_identifiers: vec![] }),
    }
}

#[test]
fn webhook_payment_events() {
    let (id, ev) = webhook_authorized().payment_event().unwrap();
    assert_eq!(id, PaymentId(7));
    assert_eq!(ev, PaymentEvent::Authorized(at(5)));
    let failed = TlWebhook::PaymentFailed {
        event_id: 2,
        event_version: 1,
        payment_id: PaymentId(8),
        failed_at: at(6),
        failed_stage: "authorizing".to_string(),
        failure_reason: "declined".to_string(),
        payment_source: None,
    };
    assert_eq!(failed.payment_event(), Some((PaymentId(8), PaymentEvent::Failed(at(6)))));
    let payout = TlWebhook::PayoutExecuted { event_id: 3, event_version: 1, payout_id: PayoutId(1), executed_at: at(1) };
    assert_eq!(payout.payment_event(), None);
    let refund = TlWebhook::RefundFailed { event_id: 4, event_version: 1, refund_id: RefundId(1), payment_id: 8, failed_at: at(1) };
    assert_eq!(refund.payment_event(), None);
    let ext = TlWebhook::ExternalPaymentReceived {
        event_id: 5,
        event_version: 1,
        transaction_id: 9,
        currency: "GBP".to_string(),
        amount_in_minor: "100".to_string(),
        settled_at: at(1),
        merchant_account_id: "m".to_string(),
        remitter: Remitter { account_holder_name: "R".to_string(), account_identifiers: vec![] },
    };
    assert_eq!(ext.payment_event(), None);
}

#[test]
fn webhook_applied_to_payment() {
    let mut s = PaymentStatuses {
        inbound_created_at: at(1),
        inbound_authorized_at: None,
        inbound_executed_at: None,
        inbound_settled_at: None,
        inbound_failed_at: None,
    };
    let (_, ev) = webhook_authorized().payment_event().unwrap();
    s.record(ev);
    assert_eq!(s.state(), PaymentState::InboundAuthorized);
    assert_eq!(ev.state(), PaymentState::InboundAuthorized);
}

#[test]
fn permitted_jkus() {
    assert!(is_permitted_jku("https://webhooks.truelayer.com/.well-known/jwks"));
    assert!(is_permitted_jku("https://webhooks.truelayer-sandbox.com/.well-known/jwks"));
    assert!(!is_permitted_jku("https://evil.example/.well-known/jwks"));
    assert!(!is_permitted_jku(""));
}

#[test]
fn signature_header_checks() {
    assert!(matches!(signature_jku(None), Err(HookError::MissingSignature)));
    assert!(matches!(signature_jku(Some("garbage")), Err(HookError::InvalidSignatureHeader)));
}

#[test]
fn bad_signature_is_refused() {
    let r = check_signature(b"{\"keys\":[]}", "/api/tl_webhook", &vec![], b"{}", "a..b");
    assert!(matches!(r, Err(HookError::InvalidSignature)));
}

#[test]
fn truelayer_hosts_and_endpoints() {
    assert_eq!(TlEnviorment::Sandbox.uri(), "truelayer-sandbox.com");
    assert_eq!(TlEnviorment::Production.uri(), "truelayer.com");
    assert_eq!(auth_endpoint(TlEnviorment::Production), "http://auth.truelayer.com/connect/token");
    assert_eq!(payments_endpoint(TlEnviorment::Sandbox), "http://api.truelayer-sandbox.com/v3/payments");
    assert_eq!(payout_endpoint(), "https://api./v3/payout");
    assert_eq!(data_auth_endpoint(), "https://auth.turelayer.com/connect/token");
    assert_eq!(accounts_endpoint(), "https://api./data/v1/accounts");
}

#[test]
fn request_bodies() {
    let auth = auth_payments_body("cid", "sec");
    assert!(auth.contains("\"client_id\": \"cid\""));
    assert!(auth.contains("\"client_secret\": \"sec\""));
    assert!(auth.contains("\"grant_type\": \"client_credentials\""));
    let with_phone = payment_body(1500, 1, "ref", "Ann", "a@b.c", Some("0123"));
    assert!(with_phone.contains("\"amount_in_minor\": 1500,"));
    assert!(with_phone.contains("\"merchant_account_id\": \"00000000-0000-0000-0000-000000000001\""));
    assert!(with_phone.contains("\"email\": \"a@b.c\"\n                            ,\"phone\": \"0123\"\n"));
    let without = payment_body(1500, 1, "ref", "Ann", "a@b.c", None);
    assert!(!without.contains("phone"));
    assert!(without.contains("\"email\": \"a@b.c\"\n                            \n"));
    let payout = payout_body(20, 2, "r", "Bob", "GB33");
    assert!(payout.contains("\"iban\": \"GB33\","));
    assert!(payout.contains("\"account_holder_name\": \"Bob\","));
    assert!(data_auth_body().contains("\"client_id\": clinet_id,"));
}

#[test]
fn plaid_hosts() {
    assert_eq!(PlaidEnviorment::Sandbox.uri(), "sandbox.plaid.com");
    assert_eq!(PlaidEnviorment::Production.uri(), "plaid.com");
    assert_eq!(PlaidEnviorment::Mock { url: "http://localhost:1".to_string() }.uri(), "http://localhost:1");
}

#[test]
fn payment_manager_replies() {
    assert_eq!(endpoint("pm", 50051), "http://pm:50051");
    assert_eq!(
        payout_id_from_reply("00000000-0000-0000-0000-000000000005"),
        Ok(PayoutId(5))
    );
    assert_eq!(payout_id_from_reply("x"), Err("Failed to parse Payout ID: Invalid Uuid".to_string()));
    assert_eq!(payment_id_from_reply("x"), Err("Failed to parse Payment ID: Invalid Uuid".to_string()));
    assert_eq!(
        payment_id_from_reply("00000000-0000-0000-0000-000000000006"),
        Ok(PaymentId(6))
    );
}

fn sample_payment() -> Payment {
    Payment {
        payment_id: PaymentId(1),
        payer_full_name: "Ann".to_string(),
        payer_email: "ann@x.y".to_string(),
        payee_full_name: "Bob".to_string(),
        payee_email: "bob@x.y".to_string(),
        amount: 300,
        security_question: "q".to_string(),
        security_answer: "h".to_string(),
        payment_statuses: PaymentStatuses {
            inbound_created_at: at(0),
            inbound_authorized_at: Some(at(60)),
            inbound_executed_at: None,
            inbound_settled_at: None,
            inbound_failed_at: None,
        },
        payout_data: None,
        refund_data: None,
    }
}

#[test]
fn admin_payment_table() {
    let rows = payment_rows(&sample_payment());
    let expected: Vec<(&str, String)> = vec![
        ("payment_id", "00000000-0000-0000-0000-000000000001".to_string()),
        ("inbound_created_at", "1970-01-01T00:00:00+00:00".to_string()),
        ("inbound_authorized_at", "1970-01-01T00:01:00+00:00".to_string()),
        ("inbound_executed_at", String::new()),
        ("inbound_settled_at", String::new()),
        ("inbound_failed_at", String::new()),
    ];
    assert_eq!(rows, expected);
    assert_eq!(
        payment_line(&sample_payment()),
        vec!["00000000-0000-0000-0000-000000000001", "ann@x.y", "bob@x.y", "300", "inbound_authorized"]
    );
    assert_eq!(admin_payment_link(PaymentId(1)), "/admin/payment?payment_id=00000000-0000-0000-0000-000000000001");
}

#[test]
fn admin_user_table() {
    let u = User::Registering {
        user_id: UserId(2),
        email: "u@x.y".to_string(),
        first_name: "U".to_string(),
        last_name: "V".to_string(),
        code: "CODE1234".to_string(),
        timestamp: at(0),
    };
    let rows = user_rows(&u);
    assert_eq!(rows[0], ("user_id", "00000000-0000-0000-0000-000000000002".to_string()));
    assert_eq!(rows[4], ("code", "CODE1234".to_string()));
    assert_eq!(rows[5], ("code timestamp", "1970-01-01T00:00:00+00:00".to_string()));
    assert_eq!(user_line(&u), vec!["00000000-0000-0000-0000-000000000002", "u@x.y", "U", "V"]);
    let r = User::Registered { user_id: UserId(3), email: "r@x.y".to_string(), first_name: "R".to_string(), last_name: "S".to_string() };
    let rows = user_rows(&r);
    assert_eq!(rows[4], ("code", String::new()));
    assert_eq!(rows[5], ("code timestamp", String::new()));
    assert_eq!(admin_user_link(UserId(3)), "/admin/user?user_id=00000000-0000-0000-0000-000000000003");
}

#[test]
fn timestamps_in_rfc3339() {
    assert_eq!(at(86400).to_rfc3339(), "1970-01-02T00:00:00+00:00");
    assert_eq!(Timestamp { secs: i64::MAX, nanos: 0 }.to_rfc3339(), "");
    let now = Timestamp::now();
    assert!(now.secs > 1_600_000_000);
}


fn signature_with_header(header_json: &str) -> String {
    let h = base64::engine::general_purpose::URL_SAFE_NO_PAD.encode(header_json);
    format!("{h}..c2ln")
}

#[test]
fn signature_key_urls() {
    let ok = signature_with_header(
        r#"{"alg":"ES512","kid":"k1","tl_version":"2","tl_headers":"","jku":"https://webhooks.truelayer.com/.well-known/jwks"}"#,
    );
    assert_eq!(
        signature_jku(Some(&ok)).unwrap(),
        "https://webhooks.truelayer.com/.well-known/jwks"
    );
    let evil = signature_with_header(
        r#"{"alg":"ES512","kid":"k1","jku":"https://evil.example/jwks"}"#,
    );
    match signature_jku(Some(&evil)) {
        Err(HookError::UnpermittedJku(j)) => assert_eq!(j, "https://evil.example/jwks"),
        other => panic!("unexpected {:?}", other),
    }
    let none = signature_with_header(r#"{"alg":"ES512","kid":"k1"}"#);
    assert!(matches!(signature_jku(Some(&none)), Err(HookError::MissingJku)));
}
