use vstd::prelude::*;
use vstd::string::StringExecFns;

use crate::ids::{uuid_text, uuid_to_string};
use crate::text::{decimal, decimal_string};

verus! {

/// Which TrueLayer deployment the gateway talks to.
#[derive(Debug, Clone, Copy, PartialEq, Eq, Structural)]
pub enum TlEnviorment {
    Sandbox,
    Production,
}

impl TlEnviorment {
    /// The domain of the deployment, below which its `auth.`, `api.` and
    /// `payment.` hosts live.
    pub open spec fn spec_uri(self) -> Seq<char> {
        match self {
            TlEnviorment::Sandbox => "truelayer-sandbox.com"@,
            TlEnviorment::Production => "truelayer.com"@,
        }
    }

    pub fn uri(self) -> (r: &'static str)
        ensures
            r@ == self.spec_uri(),
    {
        match self {
            TlEnviorment::Sandbox => "truelayer-sandbox.com",
            TlEnviorment::Production => "truelayer.com",
        }
    }
}

/// How a payment stood when TrueLayer created it.
#[derive(Debug, Clone)]
pub enum CreatePaymentStatus {
    AuthorizationRequired,
    Authorized,
    Failed { failure_reason: String },
}

/// The stage at which a payment failed.
#[derive(Debug, Clone, Copy, PartialEq, Eq, Structural)]
pub enum FailureStage {
    AuthorizationRequired,
    Authorizing,
    Authorized,
}

/// TrueLayer's user of a payment.
#[derive(Debug, Clone, Copy, PartialEq, Eq, Structural)]
pub struct UserObj {
    pub user_id: u128,
}

/// TrueLayer's answer to the creation of a payment.
#[derive(Debug, Clone)]
pub struct CreatePaymentResponse {
    pub payment_id: u128,
    pub user: UserObj,
    pub resource_token: String,
    pub status: CreatePaymentStatus,
}

/// An access token from TrueLayer's authorization server.
#[derive(Debug, Clone)]
pub struct AuthResponse {
    pub acesse_token: String,
    pub expires_in: u64,
    pub refresh_token: Option<String>,
    pub token_type: String,
}

/// The body of the token request for the payments API: client credentials with the `payments` scope.
pub open spec fn auth_payments_body_text(client_id: Seq<char>, client_secret: Seq<char>) -> Seq<char> {
    "\n                    {\n                        \"grant_type\": \"client_credentials\",\n                        \"client_id\": \""@
        + client_id
        + "\",\n                        \"client_secret\": \""@
        + client_secret
        + "\",\n                        \"scope\": \"payments\"\n                    }\n                "@
}

pub fn auth_payments_body(client_id: &str, client_secret: &str) -> (r: String)
    ensures
        r@ == auth_payments_body_text(client_id@, client_secret@),
{
    let mut r = String::from_str("\n                    {\n                        \"grant_type\": \"client_credentials\",\n                        \"client_id\": \"");
    r.append(client_id);
    r.append("\",\n                        \"client_secret\": \"");
    r.append(client_secret);
    r.append("\",\n                        \"scope\": \"payments\"\n                    }\n                ");
    r
}

/// The body of the request that creates a payment into the merchant account, chosen by the payer from their bank; `phone` is the payer's phone field, empty when there is none.
pub open spec fn payment_body_text(amount: u32, merchant_account_id: u128, reference: Seq<char>, payer_full_name: Seq<char>, payer_email: Seq<char>, phone: Seq<char>) -> Seq<char> {
    "\n                    {\n                        \"amount_in_minor\": "@
        + decimal(amount as nat)
        + ",\n                        \"currency\": \"GBP\",\n                        \"payment_method\": {\n                            \"type\": \"bank_transfer\",\n                            \"provider_selection\": {\n                                \"type\": \"user_selected\",\n                                \"scheme_selection\": {\n                                    \"type\": \"instant_only\",\n                                    \"allow_remitter_fee\": false\n                                }\n                            },\n                            \"beneficiary\": {\n                                \"type\": \"merchant_account\",\n                                \"merchant_account_id\": \""@
        + uuid_text(merchant_account_id)
        + "\",\n                                \"reference\": \""@
        + reference
        + "\"\n                            }\n                        },\n                        \"user\": {\n                            \"name\": \""@
        + payer_full_name
        + "\",\n                            \"email\": \""@
        + payer_email
        + "\"\n                            "@
        + phone
        + "\n                        }\n                    }\n                "@
}

fn payment_body_with_field(amount: u32, merchant_account_id: u128, reference: &str, payer_full_name: &str, payer_email: &str, phone: &str) -> (r: String)
    ensures
        r@ == payment_body_text(amount, merchant_account_id, reference@, payer_full_name@, payer_email@, phone@),
{
    let mut r = String::from_str("\n                    {\n                        \"amount_in_minor\": ");
    r.append(decimal_string(amount as u64).as_str());
    r.append(",\n                        \"currency\": \"GBP\",\n                        \"payment_method\": {\n                            \"type\": \"bank_transfer\",\n                            \"provider_selection\": {\n                                \"type\": \"user_selected\",\n                                \"scheme_selection\": {\n                                    \"type\": \"instant_only\",\n                                    \"allow_remitter_fee\": false\n                                }\n                            },\n                            \"beneficiary\": {\n                                \"type\": \"merchant_account\",\n                                \"merchant_account_id\": \"");
    r.append(uuid_to_string(merchant_account_id).as_str());
    r.append("\",\n                                \"reference\": \"");
    r.append(reference);
    r.append("\"\n                            }\n                        },\n                        \"user\": {\n                            \"name\": \"");
    r.append(payer_full_name);
    r.append("\",\n                            \"email\": \"");
    r.append(payer_email);
    r.append("\"\n                            ");
    r.append(phone);
    r.append("\n                        }\n                    }\n                ");
    r
}

/// The phone field of a payment's user.
pub open spec fn phone_field_text(phone: Seq<char>) -> Seq<char> {
    ",\"phone\": \""@
        + phone
        + "\""@
}

pub fn phone_field(phone: &str) -> (r: String)
    ensures
        r@ == phone_field_text(phone@),
{
    let mut r = String::from_str(",\"phone\": \"");
    r.append(phone);
    r.append("\"");
    r
}

/// The body of the request that pays out from the merchant account to an external account identified by IBAN.
pub open spec fn payout_body_text(amount: u32, merchant_account_id: u128, reference: Seq<char>, payee_full_name: Seq<char>, payee_iban: Seq<char>) -> Seq<char> {
    "\n                    {\n                        \"amount_in_minor\": "@
        + decimal(amount as nat)
        + ",\n                        \"merchant_account_id\": \""@
        + uuid_text(merchant_account_id)
        + "\",\n                        \"currency\": \"GBP\",\n                        \"benficiary\": {\n                            \"type\": \"external_account\",\n                            \"reference\": \""@
        + reference
        + "\",\n                            \"account_holder_name\": \""@
        + payee_full_name
        + "\",\n                            \"account_identifier\": {\n                                \"type\": \"iban\",\n                                \"iban\": \""@
        + payee_iban
        + "\",\n                            }\n                        }\n                    }\n                "@
}

pub fn payout_body(amount: u32, merchant_account_id: u128, reference: &str, payee_full_name: &str, payee_iban: &str) -> (r: String)
    ensures
        r@ == payout_body_text(amount, merchant_account_id, reference@, payee_full_name@, payee_iban@),
{
    let mut r = String::from_str("\n                    {\n                        \"amount_in_minor\": ");
    r.append(decimal_string(amount as u64).as_str());
    r.append(",\n                        \"merchant_account_id\": \"");
    r.append(uuid_to_string(merchant_account_id).as_str());
    r.append("\",\n                        \"currency\": \"GBP\",\n                        \"benficiary\": {\n                            \"type\": \"external_account\",\n                            \"reference\": \"");
    r.append(reference);
    r.append("\",\n                            \"account_holder_name\": \"");
    r.append(payee_full_name);
    r.append("\",\n                            \"account_identifier\": {\n                                \"type\": \"iban\",\n                                \"iban\": \"");
    r.append(payee_iban);
    r.append("\",\n                            }\n                        }\n                    }\n                ");
    r
}

/// The body of the token request for the data API, with the fields the
/// client sends.
pub fn data_auth_body() -> (r: String)
    ensures
        r@ == "\n                    {\n                        \"grant_type\": \"authoriztion_code\",\n                        \"client_id\": clinet_id,\n                        \"client_secret\": client_secret,\n                        \"code\": code,\n                        \"redirect_uri\": redirect_uri\n                    }\n                "@,
{
    String::from_str("\n                    {\n                        \"grant_type\": \"authoriztion_code\",\n                        \"client_id\": clinet_id,\n                        \"client_secret\": client_secret,\n                        \"code\": code,\n                        \"redirect_uri\": redirect_uri\n                    }\n                ")
}


/// The body of the request that creates a payment; the payer's phone
/// number is sent only when there is one.
pub fn payment_body(
    amount: u32,
    merchant_account_id: u128,
    reference: &str,
    payer_full_name: &str,
    payer_email: &str,
    payer_phonenumber: Option<&str>,
) -> (r: String)
    ensures
        r@ == payment_body_text(
            amount,
            merchant_account_id,
            reference@,
            payer_full_name@,
            payer_email@,
            match payer_phonenumber {
                Some(p) => phone_field_text(p@),
                None => Seq::empty(),
            },
        ),
{
    let field = match payer_phonenumber {
        Some(p) => phone_field(p),
        None => String::new(),
    };
    payment_body_with_field(amount, merchant_account_id, reference, payer_full_name, payer_email, field.as_str())
}

/// Where tokens for the payments API are requested.
pub fn auth_endpoint(env: TlEnviorment) -> (r: String)
    ensures
        r@ == "http://auth."@ + env.spec_uri() + "/connect/token"@,
{
    let mut r = String::from_str("http://auth.");
    r.append(env.uri());
    r.append("/connect/token");
    r
}

/// Where payments are created.
pub fn payments_endpoint(env: TlEnviorment) -> (r: String)
    ensures
        r@ == "http://api."@ + env.spec_uri() + "/v3/payments"@,
{
    let mut r = String::from_str("http://api.");
    r.append(env.uri());
    r.append("/v3/payments");
    r
}

/// Where payouts are created; the client fills in no domain.
pub fn payout_endpoint() -> (r: String)
    ensures
        r@ == "https://api./v3/payout"@,
{
    String::from_str("https://api./v3/payout")
}

/// Where tokens for the data API are requested.
pub fn data_auth_endpoint() -> (r: String)
    ensures
        r@ == "https://auth.turelayer.com/connect/token"@,
{
    String::from_str("https://auth.turelayer.com/connect/token")
}

/// Where the payee's accounts are listed; the client fills in no domain.
pub fn accounts_endpoint() -> (r: String)
    ensures
        r@ == "https://api./data/v1/accounts"@,
{
    String::from_str("https://api./data/v1/accounts")
}

/// The opening of both request bodies, up to the amount.
pub open spec fn amount_field_key() -> Seq<char> {
    "\n                    {\n                        \"amount_in_minor\": "@
}

/// Whether `body` opens with the amount field and that field holds
/// `numeral`, ended by a comma.
pub open spec fn has_amount_field(body: Seq<char>, numeral: Seq<char>) -> bool {
    let k = amount_field_key().len() as int;
    &&& body.len() > k + numeral.len()
    &&& body.subrange(0, k) == amount_field_key()
    &&& body.subrange(k, k + numeral.len()) == numeral
    &&& body[k + numeral.len()] == ','
}

/// The payout request and the payment request carry the amount they were
/// built with, written in decimal in minor units: the payee is paid out
/// exactly the amount the payer paid in.
pub proof fn lemma_bodies_carry_the_amount(
    amount: u32,
    merchant_account_id: u128,
    reference: Seq<char>,
    full_name: Seq<char>,
    payee_iban: Seq<char>,
    payer_email: Seq<char>,
    phone: Seq<char>,
)
    ensures
        has_amount_field(
            payout_body_text(amount, merchant_account_id, reference, full_name, payee_iban),
            decimal(amount as nat),
        ),
        has_amount_field(
            payment_body_text(amount, merchant_account_id, reference, full_name, payer_email, phone),
            decimal(amount as nat),
        ),
{
    reveal_strlit("\n                    {\n                        \"amount_in_minor\": ");
    reveal_strlit(",\n                        \"merchant_account_id\": \"");
    reveal_strlit(",\n                        \"currency\": \"GBP\",\n                        \"payment_method\": {\n                            \"type\": \"bank_transfer\",\n                            \"provider_selection\": {\n                                \"type\": \"user_selected\",\n                                \"scheme_selection\": {\n                                    \"type\": \"instant_only\",\n                                    \"allow_remitter_fee\": false\n                                }\n                            },\n                            \"beneficiary\": {\n                                \"type\": \"merchant_account\",\n                                \"merchant_account_id\": \"");
    let key = amount_field_key();
    let d = decimal(amount as nat);
    let payout = payout_body_text(amount, merchant_account_id, reference, full_name, payee_iban);
    let payment = payment_body_text(amount, merchant_account_id, reference, full_name, payer_email, phone);
    assert(payout.subrange(0, key.len() as int) =~= key);
    assert(payout.subrange(key.len() as int, (key.len() + d.len()) as int) =~= d);
    assert(payment.subrange(0, key.len() as int) =~= key);
    assert(payment.subrange(key.len() as int, (key.len() + d.len()) as int) =~= d);
}

} // verus!
