use vstd::prelude::*;
use vstd::string::StringExecFns;

use crate::ids::{uuid_parse, PaymentId, PayoutId};
use crate::text::{decimal, decimal_string};

verus! {

/// Where the payment manager service listens.
#[derive(Debug, Clone)]
pub struct PaymentManagerConfig {
    pub host: String,
    pub port: u16,
}

/// A payment to create through the payment manager.
#[derive(Debug, Clone)]
pub struct Payment {
    pub payer_full_name: String,
    pub payer_email: String,
    pub payee_full_name: String,
    pub payee_email: String,
    pub amount: u32,
    pub reference: String,
    pub security_question: String,
    pub security_answer: String,
}

/// The address the client connects to: plain HTTP on the host and port.
pub open spec fn endpoint_text(host: Seq<char>, port: u16) -> Seq<char> {
    "http://"@ + host + ":"@ + decimal(port as nat)
}

/// The address of the payment manager at `host` and `port`.
pub fn endpoint(host: &str, port: u16) -> (r: String)
    ensures
        r@ == endpoint_text(host@, port),
{
    let mut r = String::from_str("http://");
    r.append(host);
    r.append(":");
    r.append(decimal_string(port as u64).as_str());
    r
}

/// The message of the error returned when the service answers with a
/// payout identifier that is not a UUID.
pub open spec fn bad_payout_id_text() -> Seq<char> {
    "Failed to parse Payout ID: Invalid Uuid"@
}

/// The message of the error returned when the service answers with a
/// payment identifier that is not a UUID.
pub open spec fn bad_payment_id_text() -> Seq<char> {
    "Failed to parse Payment ID: Invalid Uuid"@
}

/// Reads the payout identifier of the service's answer; the error carries
/// the message the client reports.
pub fn payout_id_from_reply(text: &str) -> (r: Result<PayoutId, String>)
    ensures
        match uuid_parse(text@) {
            Some(v) => r == Ok::<PayoutId, String>(PayoutId(v)),
            None => r matches Err(m) && m@ == bad_payout_id_text(),
        },
{
    match PayoutId::parse_str(text) {
        Ok(id) => Ok(id),
        Err(_) => Err(String::from_str("Failed to parse Payout ID: Invalid Uuid")),
    }
}

/// Reads the payment identifier of the service's answer; the error carries
/// the message the client reports.
pub fn payment_id_from_reply(text: &str) -> (r: Result<PaymentId, String>)
    ensures
        match uuid_parse(text@) {
            Some(v) => r == Ok::<PaymentId, String>(PaymentId(v)),
            None => r matches Err(m) && m@ == bad_payment_id_text(),
        },
{
    match PaymentId::parse_str(text) {
        Ok(id) => Ok(id),
        Err(_) => Err(String::from_str("Failed to parse Payment ID: Invalid Uuid")),
    }
}

} // verus!
