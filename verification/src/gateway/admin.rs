use vstd::prelude::*;
use vstd::string::StringExecFns;

use crate::domain::{Payment, User};
use crate::ids::{uuid_text, PaymentId, UserId};
use crate::text::{decimal, decimal_string};
use crate::time::{optional_rfc3339, optional_text};

verus! {

/// The admin page of one payment.
pub fn admin_payment_link(payment_id: PaymentId) -> (r: String)
    ensures
        r@ == "/admin/payment?payment_id="@ + uuid_text(payment_id.0),
{
    let mut r = String::from_str("/admin/payment?payment_id=");
    r.append(payment_id.to_string().as_str());
    r
}

/// The admin page of one user.
pub fn admin_user_link(user_id: UserId) -> (r: String)
    ensures
        r@ == "/admin/user?user_id="@ + uuid_text(user_id.0),
{
    let mut r = String::from_str("/admin/user?user_id=");
    r.append(user_id.to_string().as_str());
    r
}

/// The rows of the admin table of a payment: its identifier and the time
/// of each inbound step, empty for a step that has not happened.
pub open spec fn payment_rows_text(p: Payment) -> Seq<(Seq<char>, Seq<char>)> {
    seq![
        ("payment_id"@, uuid_text(p.payment_id.0)),
        ("inbound_created_at"@, p.payment_statuses.inbound_created_at.spec_text()),
        ("inbound_authorized_at"@, optional_text(p.payment_statuses.inbound_authorized_at)),
        ("inbound_executed_at"@, optional_text(p.payment_statuses.inbound_executed_at)),
        ("inbound_settled_at"@, optional_text(p.payment_statuses.inbound_settled_at)),
        ("inbound_failed_at"@, optional_text(p.payment_statuses.inbound_failed_at)),
    ]
}

/// The table as field names and values.
pub open spec fn rows_view(rows: Seq<(&'static str, String)>) -> Seq<(Seq<char>, Seq<char>)> {
    rows.map_values(|r: (&'static str, String)| (r.0@, r.1@))
}

pub fn payment_rows(p: &Payment) -> (r: Vec<(&'static str, String)>)
    ensures
        rows_view(r@) == payment_rows_text(*p),
{
    let mut r: Vec<(&'static str, String)> = Vec::new();
    r.push(("payment_id", p.payment_id.to_string()));
    r.push(("inbound_created_at", p.payment_statuses.inbound_created_at.to_rfc3339()));
    r.push(("inbound_authorized_at", optional_rfc3339(p.payment_statuses.inbound_authorized_at)));
    r.push(("inbound_executed_at", optional_rfc3339(p.payment_statuses.inbound_executed_at)));
    r.push(("inbound_settled_at", optional_rfc3339(p.payment_statuses.inbound_settled_at)));
    r.push(("inbound_failed_at", optional_rfc3339(p.payment_statuses.inbound_failed_at)));
    assert(rows_view(r@) =~= payment_rows_text(*p));
    r
}

/// The code of a registering user and when it was issued; empty for a
/// registered user.
pub open spec fn code_texts(u: User) -> (Seq<char>, Seq<char>) {
    match u {
        User::Registering { code, timestamp, .. } => (code@, timestamp.spec_text()),
        User::Registered { .. } => (Seq::empty(), Seq::empty()),
    }
}

/// The rows of the admin table of a user.
pub open spec fn user_rows_text(u: User) -> Seq<(Seq<char>, Seq<char>)> {
    seq![
        ("user_id"@, uuid_text(u.spec_user_id().0)),
        ("email"@, u.spec_email()),
        ("firstname"@, u.spec_first_name()),
        ("lastname"@, u.spec_last_name()),
        ("code"@, code_texts(u).0),
        ("code timestamp"@, code_texts(u).1),
    ]
}

pub fn user_rows(u: &User) -> (r: Vec<(&'static str, String)>)
    ensures
        rows_view(r@) == user_rows_text(*u),
{
    let mut r: Vec<(&'static str, String)> = Vec::new();
    r.push(("user_id", u.user_id().to_string()));
    r.push(("email", u.email().to_owned()));
    r.push(("firstname", u.first_name().to_owned()));
    r.push(("lastname", u.last_name().to_owned()));
    let (code, at) = match u.registration_code() {
        Some((c, t)) => (c.to_owned(), t.to_rfc3339()),
        None => (String::new(), String::new()),
    };
    r.push(("code", code));
    r.push(("code timestamp", at));
    assert(rows_view(r@) =~= user_rows_text(*u));
    r
}

/// The cells of a payment's line in the admin list: identifier, payer's
/// and payee's emails, amount and state.
pub open spec fn payment_line_text(p: Payment) -> Seq<Seq<char>> {
    seq![
        uuid_text(p.payment_id.0),
        p.payer_email@,
        p.payee_email@,
        decimal(p.amount as nat),
        p.spec_state().label(),
    ]
}

pub fn payment_line(p: &Payment) -> (r: Vec<String>)
    ensures
        r@.map_values(|c: String| c@) == payment_line_text(*p),
{
    let mut r: Vec<String> = Vec::new();
    r.push(p.payment_id.to_string());
    r.push(p.payer_email.clone());
    r.push(p.payee_email.clone());
    r.push(decimal_string(p.amount as u64));
    r.push(p.state().as_str().to_owned());
    assert(r@.map_values(|c: String| c@) =~= payment_line_text(*p));
    r
}

/// The cells of a user's line in the admin list: identifier, email and
/// names.
pub open spec fn user_line_text(u: User) -> Seq<Seq<char>> {
    seq![uuid_text(u.spec_user_id().0), u.spec_email(), u.spec_first_name(), u.spec_last_name()]
}

pub fn user_line(u: &User) -> (r: Vec<String>)
    ensures
        r@.map_values(|c: String| c@) == user_line_text(*u),
{
    let mut r: Vec<String> = Vec::new();
    r.push(u.user_id().to_string());
    r.push(u.email().to_owned());
    r.push(u.first_name().to_owned());
    r.push(u.last_name().to_owned());
    assert(r@.map_values(|c: String| c@) =~= user_line_text(*u));
    r
}

} // verus!
