use vstd::prelude::*;
use vstd::std_specs::convert::FromSpecImpl;
use vstd::string::StringExecFns;
use vstd::utf8::encode_utf8;

use crate::crypto::{argon2_accepts, argon2_hash, argon2_phc, argon2_verify, base64_std_nopad, is_argon2_salt, phc_is_well_formed, phc_parses, random_salt};
use crate::domain::{Payment, PaymentState, PaymentStatuses};
use crate::time::Timestamp;
use crate::gateway::truelayer::TlEnviorment;
use crate::ids::{uuid_text, PaymentId};
use crate::store::DbError;
use crate::text::join;

verus! {

/// An error as the public endpoints answer it: a generic failure, or a
/// rejected request with the reason shown to the caller.
#[derive(Debug, Clone)]
pub enum PublicError {
    InternalServerError,
    Invalid(String),
}

impl PublicError {
    /// The text shown for the error.
    pub open spec fn spec_message(&self) -> Seq<char> {
        match self {
            PublicError::InternalServerError => "Something went wrong. Please retry later."@,
            PublicError::Invalid(reason) => reason@,
        }
    }

    /// The HTTP status of the error: 400 for a rejected request, 500 for the
    /// rest.
    pub open spec fn spec_status_code(&self) -> u16 {
        match self {
            PublicError::Invalid(_) => 400,
            _ => 500,
        }
    }

    pub fn message(&self) -> (r: String)
        ensures
            r@ == self.spec_message(),
    {
        match self {
            PublicError::InternalServerError => String::from_str(
                "Something went wrong. Please retry later.",
            ),
            PublicError::Invalid(reason) => reason.clone(),
        }
    }

    pub fn status_code(&self) -> (r: u16)
        ensures
            r == self.spec_status_code(),
    {
        match self {
            PublicError::Invalid(_) => 400,
            _ => 500,
        }
    }
}

impl FromSpecImpl<DbError> for PublicError {
    open spec fn obeys_from_spec() -> bool {
        true
    }

    /// A database failure is never shown to the public: it is a generic
    /// failure.
    open spec fn from_spec(err: DbError) -> PublicError {
        PublicError::InternalServerError
    }
}

impl From<DbError> for PublicError {
    fn from(err: DbError) -> PublicError {
        PublicError::InternalServerError
    }
}

/// The query string after adding `name=value` to `params`: `?` opens it,
/// `&` separates later parameters.
pub open spec fn next_params(params: Seq<char>, name: Seq<char>, value: Seq<char>) -> Seq<char> {
    params + (if params.len() == 0 {
        "?"@
    } else {
        "&"@
    }) + name + "="@ + value
}

/// The query string of the parameters `pairs`, added in order.
pub open spec fn query(pairs: Seq<(Seq<char>, Seq<char>)>) -> Seq<char>
    decreases pairs.len(),
{
    if pairs.len() == 0 {
        Seq::empty()
    } else {
        next_params(query(pairs.drop_last()), pairs.last().0, pairs.last().1)
    }
}

/// `name=value`.
pub open spec fn assignment(pair: (Seq<char>, Seq<char>)) -> Seq<char> {
    pair.0 + "="@ + pair.1
}

/// Builds a link from a path and query parameters, added one at a time.
pub struct UriBuilder<'a> {
    path: &'a str,
    params: String,
}

impl<'a> View for UriBuilder<'a> {
    /// The path, and the query string built so far.
    type V = (Seq<char>, Seq<char>);

    closed spec fn view(&self) -> (Seq<char>, Seq<char>) {
        (self.path@, self.params@)
    }
}

impl<'a> UriBuilder<'a> {
    pub fn new(path: &'a str) -> (r: UriBuilder<'a>)
        ensures
            r@ == (path@, Seq::<char>::empty()),
    {
        UriBuilder { path, params: String::new() }
    }

    pub fn add_param(self, name: &str, value: &str) -> (r: UriBuilder<'a>)
        ensures
            r@ == (self@.0, next_params(self@.1, name@, value@)),
    {
        proof {
            reveal_strlit("?");
            reveal_strlit("&");
            reveal_strlit("=");
        }
        let mut params = self.params;
        if !params.as_str().is_empty() {
            params.append("&");
        } else {
            params.append("?");
        }
        params.append(name);
        params.append("=");
        params.append(value);
        UriBuilder { path: self.path, params }
    }

    pub fn build(self) -> (r: String)
        ensures
            r@ == self@.0 + self@.1,
    {
        let mut r = String::from_str(self.path);
        r.append(self.params.as_str());
        r
    }
}

/// A built query string lists the parameters in the order they were added,
/// each as `name=value`: the first after `?`, the others after `&`.
pub proof fn lemma_query_lists_parameters(pairs: Seq<(Seq<char>, Seq<char>)>)
    ensures
        pairs.len() == 0 ==> query(pairs) == Seq::<char>::empty(),
        pairs.len() > 0 ==> query(pairs) == "?"@ + join(pairs.map_values(|p| assignment(p)), "&"@),
    decreases pairs.len(),
{
    reveal_strlit("?");
    reveal_strlit("&");
    reveal_strlit("=");
    if pairs.len() > 1 {
        let init = pairs.drop_last();
        let parts = pairs.map_values(|p| assignment(p));
        lemma_query_lists_parameters(init);
        assert(parts.drop_last() =~= init.map_values(|p| assignment(p)));
        assert(query(init).len() > 0);
        let last = pairs.last();
        assert(parts.last() == assignment(last));
        assert(query(pairs) == query(init) + "&"@ + last.0 + "="@ + last.1);
        assert(query(pairs) =~= "?"@ + (join(parts.drop_last(), "&"@) + "&"@ + parts.last()));
    } else if pairs.len() == 1 {
        let parts = pairs.map_values(|p| assignment(p));
        assert(pairs.drop_last() =~= Seq::<(Seq<char>, Seq<char>)>::empty());
        assert(query(pairs.drop_last()) == Seq::<char>::empty());
        assert(parts[0] == assignment(pairs[0]));
        assert(pairs.last() == pairs[0]);
        assert(query(pairs) =~= "?"@ + parts[0]);
    }
}

/// The parameters of the TrueLayer data authorization link for a deposit:
/// the payment's identifier travels as the `state`.
pub open spec fn data_auth_params(client_id: Seq<char>, redirect_uri: Seq<char>, payment_id: PaymentId) -> Seq<(Seq<char>, Seq<char>)> {
    seq![
        ("response_type"@, "code"@),
        ("client_id"@, client_id),
        ("scope"@, "info%20accounts%20balance"@),
        ("redirect_uri"@, redirect_uri),
        ("providers"@, "uk-cs-mock%20uk-ob-all%20uk-oauth-all"@),
        ("state"@, uuid_text(payment_id.0)),
    ]
}

/// The link that sends the payee to TrueLayer to pick the account to be
/// paid into.
pub open spec fn data_auth_link_text(env: TlEnviorment, client_id: Seq<char>, redirect_uri: Seq<char>, payment_id: PaymentId) -> Seq<char> {
    "https://auth."@ + env.spec_uri() + "/"@ + query(data_auth_params(client_id, redirect_uri, payment_id))
}

pub fn data_auth_link(env: TlEnviorment, client_id: &str, data_redirect_uri: &str, payment_id: PaymentId) -> (r: String)
    ensures
        r@ == data_auth_link_text(env, client_id@, data_redirect_uri@, payment_id),
{
    let mut path = String::from_str("https://auth.");
    path.append(env.uri());
    path.append("/");
    let state = payment_id.to_string();
    let r = UriBuilder::new(path.as_str())
        .add_param("response_type", "code")
        .add_param("client_id", client_id)
        .add_param("scope", "info%20accounts%20balance")
        .add_param("redirect_uri", data_redirect_uri)
        .add_param("providers", "uk-cs-mock%20uk-ob-all%20uk-oauth-all")
        .add_param("state", state.as_str())
        .build();
    proof {
        let ps = data_auth_params(client_id@, data_redirect_uri@, payment_id);
        assert(ps.drop_last().drop_last().drop_last().drop_last().drop_last().drop_last() =~= Seq::<(Seq<char>, Seq<char>)>::empty());
        assert(ps.drop_last().drop_last().drop_last().drop_last().drop_last() =~= seq![ps[0]]);
        assert(ps.drop_last().drop_last().drop_last().drop_last() =~= seq![ps[0], ps[1]]);
        assert(ps.drop_last().drop_last().drop_last() =~= seq![ps[0], ps[1], ps[2]]);
        assert(ps.drop_last().drop_last() =~= seq![ps[0], ps[1], ps[2], ps[3]]);
        assert(ps.drop_last() =~= seq![ps[0], ps[1], ps[2], ps[3], ps[4]]);
        reveal_with_fuel(query, 7);
    }
    r
}

/// Whether the payee may go on to collect the payment: the answer to the
/// security question matches the stored hash, and the payout has not
/// started yet.
pub open spec fn spec_deposit_allowed(answer: Seq<u8>, stored_hash: Seq<char>, state: PaymentState) -> bool {
    argon2_accepts(answer, stored_hash) && state.rank() < PaymentState::OutboundCreated.rank()
}

/// Checks a payee's answer against a payment's stored hash and state; the
/// stored hash must be a well-formed PHC string.
pub fn deposit_allowed(answer: &str, stored_hash: &str, state: PaymentState) -> (r: bool)
    requires
        phc_parses(stored_hash@),
    ensures
        r == spec_deposit_allowed(encode_utf8(answer@), stored_hash@, state),
{
    argon2_verify(answer.as_bytes(), stored_hash) && state.ordinal() < PaymentState::OutboundCreated.ordinal()
}

/// Like `deposit_allowed`, on any stored hash: none when the stored hash is
/// not a PHC string, which is a corrupt payment.
pub fn check_deposit(answer: &str, stored_hash: &str, state: PaymentState) -> (r: Option<bool>)
    ensures
        r is None <==> !phc_parses(stored_hash@),
        r matches Some(b) ==> b == spec_deposit_allowed(encode_utf8(answer@), stored_hash@, state),
{
    if phc_is_well_formed(stored_hash) {
        Some(deposit_allowed(answer, stored_hash, state))
    } else {
        None
    }
}

/// Hashes a payer's answer to the security question under a fresh random
/// salt. It succeeds on every answer of at most `0xFFFF_FFFF` bytes; a
/// failure of the hasher beyond that bound is a generic failure.
pub fn hash_security_answer(answer: &str) -> (r: Result<String, PublicError>)
    ensures
        encode_utf8(answer@).len() <= 0xFFFF_FFFF ==> r is Ok,
        r matches Ok(h) ==> phc_parses(h@) && argon2_accepts(encode_utf8(answer@), h@) && exists|salt: Seq<u8>|
            salt.len() == 16 && argon2_phc(encode_utf8(answer@), base64_std_nopad(salt)) == Some(h@),
        r matches Err(e) ==> e is InternalServerError,
{
    let salt = random_salt();
    let ghost bytes = choose|bytes: Seq<u8>| bytes.len() == 16 && salt@ == base64_std_nopad(bytes);
    assert(is_argon2_salt(salt@));
    match argon2_hash(answer.as_bytes(), salt.as_str()) {
        Some(h) => {
            assert(bytes.len() == 16 && argon2_phc(encode_utf8(answer@), base64_std_nopad(bytes)) == Some(h@));
            Ok(h)
        },
        None => Err(PublicError::InternalServerError),
    }
}

/// The link that sends the payer to TrueLayer's hosted page to authorize
/// the payment, coming back to `return_uri`.
pub open spec fn payment_auth_link_text(payment_id: PaymentId, resource_token: Seq<char>, return_uri: Seq<char>) -> Seq<char> {
    "https://payment.truelayer-sandbox.com/payments#payment_id="@ + uuid_text(payment_id.0)
        + "&resource_token="@ + resource_token + "&return_uri="@ + return_uri
}

pub fn payment_auth_link(payment_id: PaymentId, resource_token: &str, return_uri: &str) -> (r: String)
    ensures
        r@ == payment_auth_link_text(payment_id, resource_token@, return_uri@),
{
    let mut r = String::from_str("https://payment.truelayer-sandbox.com/payments#payment_id=");
    r.append(payment_id.to_string().as_str());
    r.append("&resource_token=");
    r.append(resource_token);
    r.append("&return_uri=");
    r.append(return_uri);
    r
}

/// A payment as it is first stored: created now, with no later step yet.
pub open spec fn spec_new_payment(
    payment_id: PaymentId,
    payer_full_name: String,
    payer_email: String,
    payee_full_name: String,
    payee_email: String,
    amount: u32,
    security_question: String,
    security_answer_hash: String,
    now: Timestamp,
) -> Payment {
    Payment {
        payment_id,
        payer_full_name,
        payer_email,
        payee_full_name,
        payee_email,
        amount,
        security_question,
        security_answer: security_answer_hash,
        payment_statuses: PaymentStatuses {
            inbound_created_at: now,
            inbound_authorized_at: None,
            inbound_executed_at: None,
            inbound_settled_at: None,
            inbound_failed_at: None,
        },
        payout_data: None,
        refund_data: None,
    }
}

pub fn new_payment(
    payment_id: PaymentId,
    payer_full_name: String,
    payer_email: String,
    payee_full_name: String,
    payee_email: String,
    amount: u32,
    security_question: String,
    security_answer_hash: String,
    now: Timestamp,
) -> (r: Payment)
    ensures
        r == spec_new_payment(
            payment_id,
            payer_full_name,
            payer_email,
            payee_full_name,
            payee_email,
            amount,
            security_question,
            security_answer_hash,
            now,
        ),
{
    Payment {
        payment_id,
        payer_full_name,
        payer_email,
        payee_full_name,
        payee_email,
        amount,
        security_question,
        security_answer: security_answer_hash,
        payment_statuses: PaymentStatuses {
            inbound_created_at: now,
            inbound_authorized_at: None,
            inbound_executed_at: None,
            inbound_settled_at: None,
            inbound_failed_at: None,
        },
        payout_data: None,
        refund_data: None,
    }
}

/// A new payment is in the created state, the state the gateway logs for
/// it, and a payee may go on to collect it.
pub proof fn lemma_new_payment_is_created(
    payment_id: PaymentId,
    payer_full_name: String,
    payer_email: String,
    payee_full_name: String,
    payee_email: String,
    amount: u32,
    security_question: String,
    security_answer_hash: String,
    now: Timestamp,
)
    ensures
        ({
            let p = spec_new_payment(
                payment_id,
                payer_full_name,
                payer_email,
                payee_full_name,
                payee_email,
                amount,
                security_question,
                security_answer_hash,
                now,
            );
            &&& p.spec_state() == PaymentState::InboundCreated
            &&& p.spec_state().rank() < PaymentState::OutboundCreated.rank()
        }),
{
}

/// A new payment holds each given detail under its own name: the payer's
/// name and email as the payer's, the payee's as the payee's, the amount,
/// the question and the answer's hash as given; it has reported no step
/// beyond its creation at the given time, and has neither payout nor
/// refund.
pub proof fn lemma_new_payment_keeps_its_details(
    payment_id: PaymentId,
    payer_full_name: String,
    payer_email: String,
    payee_full_name: String,
    payee_email: String,
    amount: u32,
    security_question: String,
    security_answer_hash: String,
    now: Timestamp,
)
    ensures
        ({
            let p = spec_new_payment(
                payment_id,
                payer_full_name,
                payer_email,
                payee_full_name,
                payee_email,
                amount,
                security_question,
                security_answer_hash,
                now,
            );
            &&& p.payment_id == payment_id
            &&& p.payer_full_name@ == payer_full_name@
            &&& p.payer_email@ == payer_email@
            &&& p.payee_full_name@ == payee_full_name@
            &&& p.payee_email@ == payee_email@
            &&& p.amount == amount
            &&& p.security_question@ == security_question@
            &&& p.security_answer@ == security_answer_hash@
            &&& p.payment_statuses.inbound_created_at == now
            &&& p.payment_statuses.inbound_authorized_at is None
            &&& p.payment_statuses.inbound_executed_at is None
            &&& p.payment_statuses.inbound_settled_at is None
            &&& p.payment_statuses.inbound_failed_at is None
            &&& p.payout_data is None
            &&& p.refund_data is None
        }),
{
}

/// A payee who gives the answer whose hash the payment stores may collect
/// the payment exactly until its payout starts; any other answer the hash
/// does not verify is refused.
pub proof fn lemma_right_answer_opens_deposit(answer: Seq<char>, stored_hash: Seq<char>, state: PaymentState)
    requires
        argon2_accepts(encode_utf8(answer), stored_hash),
    ensures
        spec_deposit_allowed(encode_utf8(answer), stored_hash, state) == (state.rank()
            < PaymentState::OutboundCreated.rank()),
{
}

} // verus!
