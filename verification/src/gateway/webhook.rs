use vstd::prelude::*;

use crate::domain::{PaymentEvent, PaymentState, PaymentStatuses};
use crate::ids::{PaymentId, PayoutId, RefundId};
use crate::text::str_equal;
use crate::time::Timestamp;

verus! {

/// How an account is identified.
#[derive(Debug, Clone)]
pub enum AccountIdentifier {
    Iban { iban: String },
    SortCodeAccountNumber { sort_code: String, account_number: String },
}

/// The account a payment was paid from.
#[derive(Debug, Clone)]
pub struct PaymentSource {
    pub account_holder_name: String,
    pub account_identifiers: Vec<AccountIdentifier>,
}

/// The sender of a payment received from outside.
#[derive(Debug, Clone)]
pub struct Remitter {
    pub account_holder_name: String,
    pub account_identifiers: Vec<AccountIdentifier>,
}

/// A notification TrueLayer sends to the gateway.
#[derive(Debug, Clone)]
pub enum TlWebhook {
    PaymentAuthorized {
        event_id: u128,
        event_version: u32,
        payment_id: PaymentId,
        authorized_at: Timestamp,
        payment_source: Option<PaymentSource>,
    },
    PaymentExecuted {
        event_id: u128,
        event_version: u32,
        payment_id: PaymentId,
        executed_at: Timestamp,
        payment_source: Option<PaymentSource>,
    },
    PaymentFailed {
        event_id: u128,
        event_version: u32,
        payment_id: PaymentId,
        failed_at: Timestamp,
        failed_stage: String,
        failure_reason: String,
        payment_source: Option<PaymentSource>,
    },
    PaymentSettled {
        event_id: u128,
        event_version: u32,
        payment_id: PaymentId,
        settled_at: Timestamp,
        payment_source: Option<PaymentSource>,
        user_id: String,
    },
    ExternalPaymentReceived {
        event_id: u128,
        event_version: u32,
        transaction_id: u128,
        currency: String,
        amount_in_minor: String,
        settled_at: Timestamp,
        merchant_account_id: String,
        remitter: Remitter,
    },
    PayoutExecuted { event_id: u128, event_version: u32, payout_id: PayoutId, executed_at: Timestamp },
    PayoutFailed { event_id: u128, event_version: u32, payout_id: PayoutId, failed_at: Timestamp },
    RefundExecuted {
        event_id: u128,
        event_version: u32,
        refund_id: RefundId,
        payment_id: u128,
        executed_at: Timestamp,
    },
    RefundFailed {
        event_id: u128,
        event_version: u32,
        refund_id: RefundId,
        payment_id: u128,
        failed_at: Timestamp,
    },
}

impl TlWebhook {
    /// The payment a notification is about and the step it reports, for
    /// the notifications about the inbound leg of a payment; none for the
    /// others, which the gateway does not handle.
    pub open spec fn spec_payment_event(&self) -> Option<(PaymentId, PaymentEvent)> {
        match self {
            TlWebhook::PaymentAuthorized { payment_id, authorized_at, .. } => Some(
                (*payment_id, PaymentEvent::Authorized(*authorized_at)),
            ),
            TlWebhook::PaymentExecuted { payment_id, executed_at, .. } => Some(
                (*payment_id, PaymentEvent::Executed(*executed_at)),
            ),
            TlWebhook::PaymentSettled { payment_id, settled_at, .. } => Some(
                (*payment_id, PaymentEvent::Settled(*settled_at)),
            ),
            TlWebhook::PaymentFailed { payment_id, failed_at, .. } => Some(
                (*payment_id, PaymentEvent::Failed(*failed_at)),
            ),
            _ => None,
        }
    }

    pub fn payment_event(&self) -> (r: Option<(PaymentId, PaymentEvent)>)
        ensures
            r == self.spec_payment_event(),
    {
        match self {
            TlWebhook::PaymentAuthorized { payment_id, authorized_at, .. } => Some(
                (*payment_id, PaymentEvent::Authorized(*authorized_at)),
            ),
            TlWebhook::PaymentExecuted { payment_id, executed_at, .. } => Some(
                (*payment_id, PaymentEvent::Executed(*executed_at)),
            ),
            TlWebhook::PaymentSettled { payment_id, settled_at, .. } => Some(
                (*payment_id, PaymentEvent::Settled(*settled_at)),
            ),
            TlWebhook::PaymentFailed { payment_id, failed_at, .. } => Some(
                (*payment_id, PaymentEvent::Failed(*failed_at)),
            ),
            _ => None,
        }
    }
}

/// The key URL of TrueLayer's production webhooks.
pub open spec fn production_jku() -> Seq<char> {
    "https://webhooks.truelayer.com/.well-known/jwks"@
}

/// The key URL of TrueLayer's sandbox webhooks.
pub open spec fn sandbox_jku() -> Seq<char> {
    "https://webhooks.truelayer-sandbox.com/.well-known/jwks"@
}

/// Whether a signature may name this key URL: only TrueLayer's own.
pub fn is_permitted_jku(jku: &str) -> (r: bool)
    ensures
        r == (jku@ == production_jku() || jku@ == sandbox_jku()),
{
    str_equal(jku, "https://webhooks.truelayer.com/.well-known/jwks") || str_equal(
        jku,
        "https://webhooks.truelayer-sandbox.com/.well-known/jwks",
    )
}

/// The `jku` of the JWS header of a `Tl-Signature` value: none when the
/// header does not parse, none inside when it names no key URL.
pub uninterp spec fn jws_jku(signature: Seq<char>) -> Option<Option<Seq<char>>>;

/// `truelayer_signing::extract_jws_header(signature)`, its `jku` taken out.
#[verifier::external_body]
fn extract_jku(signature: &str) -> (r: Option<Option<String>>)
    ensures
        r is Some <==> jws_jku(signature@) is Some,
        r matches Some(j) ==> (j is Some <==> jws_jku(signature@)->0 is Some),
        r matches Some(Some(u)) ==> jws_jku(signature@) == Some(Some(u@)),
{
    match truelayer_signing::extract_jws_header(signature) {
        Ok(header) => Some(header.jku.map(|j| j.to_string())),
        Err(_) => None,
    }
}

/// Why a webhook's signature was not accepted.
#[derive(Debug, Clone)]
pub enum HookError {
    MissingSignature,
    NonStringSignature,
    InvalidSignatureHeader,
    MissingJku,
    UnpermittedJku(String),
    InvalidSignature,
}

/// The key URL to fetch the keys that check a webhook from, read from its
/// `Tl-Signature` header: refused when the header is missing, its JWS header
/// does not parse, names no key URL, or names one that is not TrueLayer's.
pub fn signature_jku(signature: Option<&str>) -> (r: Result<String, HookError>)
    ensures
        signature is None ==> r matches Err(HookError::MissingSignature),
        signature matches Some(s) ==> match jws_jku(s@) {
            None => r matches Err(HookError::InvalidSignatureHeader),
            Some(None) => r matches Err(HookError::MissingJku),
            Some(Some(u)) => if u == production_jku() || u == sandbox_jku() {
                r matches Ok(k) && k@ == u
            } else {
                r matches Err(HookError::UnpermittedJku(k)) && k@ == u
            },
        },
{
    let s = match signature {
        Some(s) => s,
        None => return Err(HookError::MissingSignature),
    };
    match extract_jku(s) {
        None => Err(HookError::InvalidSignatureHeader),
        Some(None) => Err(HookError::MissingJku),
        Some(Some(jku)) => {
            if is_permitted_jku(jku.as_str()) {
                Ok(jku)
            } else {
                Err(HookError::UnpermittedJku(jku))
            }
        },
    }
}

/// Whether `signature` is a valid TrueLayer signature of a `POST` to `path`
/// with these headers and body, under one of the keys of `jwks`.
pub uninterp spec fn tl_signature_verifies(
    jwks: Seq<u8>,
    path: Seq<char>,
    headers: Seq<(Seq<char>, Seq<u8>)>,
    body: Seq<u8>,
    signature: Seq<char>,
) -> bool;

/// The headers as names and byte values.
pub open spec fn header_views(headers: Seq<(String, Vec<u8>)>) -> Seq<(Seq<char>, Seq<u8>)> {
    headers.map_values(|h: (String, Vec<u8>)| (h.0@, h.1@))
}

/// Whether a request path has the form the signature library takes: it
/// starts with `/`.
pub open spec fn is_request_path(path: Seq<char>) -> bool {
    path.len() > 0 && path[0] == '/'
}

/// `truelayer_signing::verify_with_jwks(jwks).method(Post).path(path)
/// .headers(headers).body(body).build_verifier().verify(signature)`. The
/// builder's `path` panics on a path that does not start with `/`, so such a
/// path is not admitted.
#[verifier::external_body]
fn verify_tl_signature(
    jwks: &[u8],
    path: &str,
    headers: &Vec<(String, Vec<u8>)>,
    body: &[u8],
    signature: &str,
) -> (r: bool)
    requires
        is_request_path(path@),
    ensures
        r == tl_signature_verifies(jwks@, path@, header_views(headers@), body@, signature@),
{
    truelayer_signing::verify_with_jwks(jwks)
        .method(truelayer_signing::Method::Post)
        .path(path)
        .headers(headers.iter().map(|h| (h.0.as_str(), h.1.as_slice())))
        .body(body)
        .build_verifier()
        .verify(signature)
        .is_ok()
}

/// Checks a webhook's signature against the keys fetched from its key URL.
pub fn check_signature(
    jwks: &[u8],
    path: &str,
    headers: &Vec<(String, Vec<u8>)>,
    body: &[u8],
    signature: &str,
) -> (r: Result<(), HookError>)
    requires
        is_request_path(path@),
    ensures
        r is Ok <==> tl_signature_verifies(jwks@, path@, header_views(headers@), body@, signature@),
        r matches Err(e) ==> e is InvalidSignature,
{
    if verify_tl_signature(jwks, path, headers, body, signature) {
        Ok(())
    } else {
        Err(HookError::InvalidSignature)
    }
}

/// A notification about the inbound leg of a payment is applied to that
/// payment by recording its own time in the field of the step it reports:
/// an authorization sets the authorization time, an execution the
/// execution time, a settlement the settlement time and a failure the
/// failure time, each leaving the other steps as they were. The payment
/// then stands at the step the notification announces, unless it had
/// already failed (or, for an earlier step, gone further). Notifications
/// of other kinds name no payment step.
pub proof fn lemma_webhook_records_its_step(w: TlWebhook, s: PaymentStatuses)
    ensures
        match w {
            TlWebhook::PaymentAuthorized { payment_id, authorized_at, .. } => {
                &&& w.spec_payment_event() matches Some((id, e))
                &&& id == payment_id
                &&& s.spec_record(e) == (PaymentStatuses { inbound_authorized_at: Some(authorized_at), ..s })
                &&& (s.inbound_failed_at is None && s.inbound_settled_at is None
                    && s.inbound_executed_at is None) ==> s.spec_record(e).spec_state()
                    == PaymentState::InboundAuthorized
            },
            TlWebhook::PaymentExecuted { payment_id, executed_at, .. } => {
                &&& w.spec_payment_event() matches Some((id, e))
                &&& id == payment_id
                &&& s.spec_record(e) == (PaymentStatuses { inbound_executed_at: Some(executed_at), ..s })
                &&& (s.inbound_failed_at is None && s.inbound_settled_at is None) ==> s.spec_record(
                    e,
                ).spec_state() == PaymentState::InboundExecuted
            },
            TlWebhook::PaymentSettled { payment_id, settled_at, .. } => {
                &&& w.spec_payment_event() matches Some((id, e))
                &&& id == payment_id
                &&& s.spec_record(e) == (PaymentStatuses { inbound_settled_at: Some(settled_at), ..s })
                &&& s.inbound_failed_at is None ==> s.spec_record(e).spec_state()
                    == PaymentState::InboundSettled
            },
            TlWebhook::PaymentFailed { payment_id, failed_at, .. } => {
                &&& w.spec_payment_event() matches Some((id, e))
                &&& id == payment_id
                &&& s.spec_record(e) == (PaymentStatuses { inbound_failed_at: Some(failed_at), ..s })
                &&& s.spec_record(e).spec_state() == PaymentState::InboundFailed
            },
            _ => w.spec_payment_event() is None,
        },
{
}

} // verus!
