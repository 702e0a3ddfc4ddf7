use vstd::prelude::*;
use vstd::string::StringExecFns;
use vstd::utf8::{decode_utf8, encode_utf8, valid_utf8};

use crate::crypto::{
    argon2_accepts, argon2_hash, argon2_phc, argon2_verify, base64_encoded, base64_std_nopad, base64_url, is_argon2_salt,
    base64_url_decoded, cookie_parse, decode_url_safe, email_valid, encode_std_nopad,
    encode_url_safe, is_valid_email, parse_cookie, phc_is_well_formed, phc_parses,
};
use crate::domain::{Payment, PaymentEvent, PaymentState, User, UserState};
use crate::gateway::api::PublicError;
use crate::ids::{uuid_text, PaymentId, PayoutId, UserId};
use crate::text::{contains_text, join, join_strings, split_on, split_semicolons, str_contains, str_equal, trim, trimmed, utf8_string};
use crate::time::Timestamp;

verus! {

/// The root of the pages of the web app.
pub const APP_ROOT: &'static str = "/app";

/// The payment form.
pub const PAYMENT_FORM_PAGE: &'static str = "/app/payment";

/// Where the payment form is posted.
pub const PAYMENT_CREATE_PAGE: &'static str = "/app/payment/create_payout";

/// The page that follows a payment.
pub const PAYMENT_STATUS_PAGE: &'static str = "/app/payment/status";

/// The fragment the payment status page polls.
pub const PAYMENT_STATUS_UPDATE_PAGE: &'static str = "/app/payment/status_update";

/// Where TrueLayer sends the payer back to.
pub const PAYMENT_TL_CALLBACK_PAGE: &'static str = "/app/payment/tl_callback";

/// Where the payment form checks the payer's email.
pub const VLIDATE_PAYER_EMAIL: &'static str = "/app/payment/validate/payer_email";

/// Where the payment form checks the payee's email.
pub const VLIDATE_PAYEE_EMAIL: &'static str = "/app/payment/validate/payee_email";

/// Where the payment form checks the amount.
pub const VLIDATE_AMOUNT: &'static str = "/app/payment/validate/amount";

/// The deposit form.
pub const DESPOSIT_CREATE_PAGE: &'static str = "/app/deposit";

/// Where the deposit form is posted.
pub const DEPOSIT_AUTH_PAGE: &'static str = "/app/deposit/auth";

/// The page listing the payee's accounts.
pub const DESPOSIT_SELECT_ACCOUNT_PAGE: &'static str = "/app/deposit/select_account";

/// The page that follows a deposit.
pub const DESPOSIT_STATUS_PAGE: &'static str = "/app/deposit/status";

/// The fragment the deposit status page polls.
pub const DESPOSIT_STATUS_UPDATE_PAGE: &'static str = "/app/deposit/status_update";

/// Where a picked account is paid out to.
pub const DEPOSIT_CREATE_PAYOUT: &'static str = "/app/deposit/create_payout";

/// Where TrueLayer sends the payee back to.
pub const DESPOSIT_TL_CALLBACK_PAGE: &'static str = "/app/deposit/tl_callback";

/// The session entry that holds the hashes of the payee's accounts.
pub const PAYOUT_COOKIE: &'static str = "payout_init";

/// The registration form.
pub const REGISTER_PAGE: &'static str = "/app/register";

/// The page where a registering user confirms the emailed code.
pub const REGISTER_EMAIL_CODE_PAGE: &'static str = "/app/register/email_code";

/// `base` followed by `?payment_id=` and the payment's identifier.
pub open spec fn with_payment_id(base: Seq<char>, payment_id: PaymentId) -> Seq<char> {
    base + "?payment_id="@ + uuid_text(payment_id.0)
}

/// `base?payment_id=<id>`.
pub fn link_with_payment_id(base: &str, payment_id: PaymentId) -> (r: String)
    ensures
        r@ == with_payment_id(base@, payment_id),
{
    let mut r = String::from_str(base);
    r.append("?payment_id=");
    r.append(payment_id.to_string().as_str());
    r
}

/// The links of the payment status page: the deposit form of the payment,
/// and the status fragment it polls.
pub fn payment_status_links(payment_id: PaymentId) -> (r: (String, String))
    ensures
        r.0@ == with_payment_id(DESPOSIT_CREATE_PAGE@, payment_id),
        r.1@ == with_payment_id(PAYMENT_STATUS_UPDATE_PAGE@, payment_id),
{
    (
        link_with_payment_id(DESPOSIT_CREATE_PAGE, payment_id),
        link_with_payment_id(PAYMENT_STATUS_UPDATE_PAGE, payment_id),
    )
}

/// The status fragment the deposit status page polls.
pub fn deposit_status_link(payment_id: PaymentId) -> (r: String)
    ensures
        r@ == with_payment_id(DESPOSIT_STATUS_UPDATE_PAGE@, payment_id),
{
    link_with_payment_id(DESPOSIT_STATUS_UPDATE_PAGE, payment_id)
}

/// The deposit link of the page shown once a payment is sent.
pub fn payment_sent_link(payment_id: PaymentId) -> (r: String)
    ensures
        r@ == with_payment_id("/deposit"@, payment_id),
{
    link_with_payment_id("/deposit", payment_id)
}

/// The page that shows a payment as sent.
pub open spec fn payment_sent_page() -> Seq<char> {
    "/payment_sent"@
}

/// The page of an error.
pub open spec fn error_page() -> Seq<char> {
    "/error"@
}

/// Where the payer goes once TrueLayer sends them back: to the sent page
/// when the payment exists (every state a payment can be in is at least
/// created), to the error page otherwise.
pub fn payment_callback_location(state: Option<PaymentState>, payment_id: PaymentId) -> (r: String)
    ensures
        state is Some ==> r@ == with_payment_id(payment_sent_page(), payment_id),
        state is None ==> r@ == error_page(),
{
    match state {
        Some(s) => {
            if s.is_at_least(PaymentState::InboundCreated) {
                link_with_payment_id("/payment_sent", payment_id)
            } else {
                String::from_str("/error")
            }
        },
        None => String::from_str("/error"),
    }
}

/// Where the payee goes once TrueLayer sends them back with an
/// authorization code: to the account list when the payment exists, to the
/// error page otherwise.
pub fn data_callback_location(state: Option<PaymentState>, payment_id: PaymentId, code: &str) -> (r: String)
    ensures
        state is Some ==> r@ == with_payment_id("/deposit_select_account"@, payment_id) + "&code="@
            + code@,
        state is None ==> r@ == error_page(),
{
    match state {
        Some(s) => {
            if s.is_at_least(PaymentState::InboundCreated) {
                let mut r = link_with_payment_id("/deposit_select_account", payment_id);
                r.append("&code=");
                r.append(code);
                r
            } else {
                String::from_str("/error")
            }
        },
        None => String::from_str("/error"),
    }
}

/// Where the payee goes once TrueLayer sends them back from a deposit: to
/// the deposit status when the payment exists, to the error page otherwise.
pub fn deposit_callback_location(found: bool, payment_id: PaymentId) -> (r: String)
    ensures
        found ==> r@ == with_payment_id(DESPOSIT_STATUS_PAGE@, payment_id),
        !found ==> r@ == error_page(),
{
    if found {
        link_with_payment_id(DESPOSIT_STATUS_PAGE, payment_id)
    } else {
        String::from_str("/error")
    }
}

/// The text the payment status page shows for each state; none for a state
/// it has no text for.
pub open spec fn spec_payment_status_text(state: PaymentState) -> Option<Seq<char>> {
    match state {
        PaymentState::InboundCreated => Some("Payment Created..."@),
        PaymentState::InboundAuthorized => Some("Payment Authorized..."@),
        PaymentState::InboundExecuted => Some("Payment Executed..."@),
        PaymentState::InboundSettled => Some("Payment Settled Into Landing Account"@),
        PaymentState::InboundFailed => Some("Payment Failed"@),
        PaymentState::OutboundCreated => Some("Payment Deposit Created..."@),
        PaymentState::OutboundAuthorized => Some("Payment Deposit Authorized..."@),
        PaymentState::OutboundExecuted => Some("Payment Deposit Executed"@),
        PaymentState::OutboundFailed => Some("Payment Deposit Failed..."@),
        PaymentState::RefundCreated => Some("Payment Refund Created..."@),
        PaymentState::RefundExecuted => Some("Payment Refunded"@),
        PaymentState::RefundFailed => Some("Payment Refund Failed"@),
        PaymentState::RefundAuthorized => None,
    }
}

pub fn payment_status_text(state: PaymentState) -> (r: Option<&'static str>)
    ensures
        r is Some <==> spec_payment_status_text(state) is Some,
        r matches Some(t) ==> spec_payment_status_text(state) == Some(t@),
{
    match state {
        PaymentState::InboundCreated => Some("Payment Created..."),
        PaymentState::InboundAuthorized => Some("Payment Authorized..."),
        PaymentState::InboundExecuted => Some("Payment Executed..."),
        PaymentState::InboundSettled => Some("Payment Settled Into Landing Account"),
        PaymentState::InboundFailed => Some("Payment Failed"),
        PaymentState::OutboundCreated => Some("Payment Deposit Created..."),
        PaymentState::OutboundAuthorized => Some("Payment Deposit Authorized..."),
        PaymentState::OutboundExecuted => Some("Payment Deposit Executed"),
        PaymentState::OutboundFailed => Some("Payment Deposit Failed..."),
        PaymentState::RefundCreated => Some("Payment Refund Created..."),
        PaymentState::RefundExecuted => Some("Payment Refunded"),
        PaymentState::RefundFailed => Some("Payment Refund Failed"),
        PaymentState::RefundAuthorized => None,
    }
}

/// The states after which the payment status page stops polling: those no
/// later step follows.
pub open spec fn spec_payment_status_is_final(state: PaymentState) -> bool {
    match state {
        PaymentState::InboundFailed | PaymentState::RefundFailed | PaymentState::OutboundFailed
        | PaymentState::RefundExecuted | PaymentState::OutboundExecuted
        | PaymentState::InboundSettled => true,
        _ => false,
    }
}

pub fn payment_status_is_final(state: PaymentState) -> (r: bool)
    ensures
        r == spec_payment_status_is_final(state),
{
    match state {
        PaymentState::InboundFailed | PaymentState::RefundFailed | PaymentState::OutboundFailed
        | PaymentState::RefundExecuted | PaymentState::OutboundExecuted
        | PaymentState::InboundSettled => true,
        _ => false,
    }
}

/// The text the deposit status page shows for the outbound states; none
/// for the others, which that page answers with an error.
pub open spec fn spec_deposit_status_text(state: PaymentState) -> Option<Seq<char>> {
    match state {
        PaymentState::OutboundCreated => Some("Payment Deposit Created..."@),
        PaymentState::OutboundAuthorized => Some("Payment Deposit Authorized..."@),
        PaymentState::OutboundExecuted => Some("Payment Deposit Executed"@),
        PaymentState::OutboundFailed => Some("Payment Deposit Failed..."@),
        _ => None,
    }
}

pub fn deposit_status_text(state: PaymentState) -> (r: Option<&'static str>)
    ensures
        r is Some <==> spec_deposit_status_text(state) is Some,
        r matches Some(t) ==> spec_deposit_status_text(state) == Some(t@),
{
    match state {
        PaymentState::OutboundCreated => Some("Payment Deposit Created..."),
        PaymentState::OutboundAuthorized => Some("Payment Deposit Authorized..."),
        PaymentState::OutboundExecuted => Some("Payment Deposit Executed"),
        PaymentState::OutboundFailed => Some("Payment Deposit Failed..."),
        _ => None,
    }
}

/// Whether the deposit status page stops polling: the payout has executed
/// or failed.
pub fn deposit_status_is_final(state: PaymentState) -> (r: bool)
    ensures
        r == (state == PaymentState::OutboundFailed || state == PaymentState::OutboundExecuted),
{
    match state {
        PaymentState::OutboundFailed | PaymentState::OutboundExecuted => true,
        _ => false,
    }
}

/// The states of a payment that end a step in failure.
pub open spec fn is_failed_state(state: PaymentState) -> bool {
    state == PaymentState::InboundFailed || state == PaymentState::OutboundFailed || state
        == PaymentState::RefundFailed
}

/// The length of a shown state's text and the letter its second word
/// starts with.
spec fn status_text_key(state: PaymentState) -> (nat, char) {
    match state {
        PaymentState::InboundCreated => (18, 'C'),
        PaymentState::InboundAuthorized => (21, 'A'),
        PaymentState::InboundExecuted => (19, 'E'),
        PaymentState::InboundSettled => (36, 'S'),
        PaymentState::InboundFailed => (14, 'F'),
        PaymentState::OutboundCreated => (26, 'D'),
        PaymentState::OutboundAuthorized => (29, 'D'),
        PaymentState::OutboundExecuted => (24, 'D'),
        PaymentState::OutboundFailed => (25, 'D'),
        PaymentState::RefundCreated => (25, 'R'),
        PaymentState::RefundExecuted => (16, 'R'),
        PaymentState::RefundFailed => (21, 'R'),
        PaymentState::RefundAuthorized => (0, ' '),
    }
}

/// Where a word of a shown state's text starts: its failure, deposit or
/// refund word.
proof fn lemma_status_text_words(a: PaymentState)
    ensures
        spec_payment_status_text(a) is Some ==> ({
            let text = spec_payment_status_text(a)->0;
            &&& text.len() == status_text_key(a).0
            &&& text[8] == status_text_key(a).1
            &&& is_failed_state(a) ==> text.subrange(
                if a == PaymentState::InboundFailed {
                    8
                } else if a == PaymentState::OutboundFailed {
                    16
                } else {
                    15
                },
                if a == PaymentState::InboundFailed {
                    14
                } else if a == PaymentState::OutboundFailed {
                    22
                } else {
                    21
                },
            ) == "Failed"@
            &&& a.rank() >= PaymentState::OutboundCreated.rank() ==> text.subrange(8, 15)
                == "Deposit"@
            &&& PaymentState::RefundCreated.rank() <= a.rank() < PaymentState::OutboundCreated.rank()
                ==> text.subrange(8, 14) == "Refund"@
        }),
{
    reveal_strlit("Failed");
    reveal_strlit("Deposit");
    reveal_strlit("Refund");
    match a {
        PaymentState::InboundCreated => {
            reveal_strlit("Payment Created...");
        },
        PaymentState::InboundAuthorized => {
            reveal_strlit("Payment Authorized...");
        },
        PaymentState::InboundExecuted => {
            reveal_strlit("Payment Executed...");
        },
        PaymentState::InboundSettled => {
            reveal_strlit("Payment Settled Into Landing Account");
        },
        PaymentState::InboundFailed => {
            reveal_strlit("Payment Failed");
            assert("Payment Failed"@.subrange(8, 14) =~= "Failed"@);
        },
        PaymentState::OutboundCreated => {
            reveal_strlit("Payment Deposit Created...");
            assert("Payment Deposit Created..."@.subrange(8, 15) =~= "Deposit"@);
        },
        PaymentState::OutboundAuthorized => {
            reveal_strlit("Payment Deposit Authorized...");
            assert("Payment Deposit Authorized..."@.subrange(8, 15) =~= "Deposit"@);
        },
        PaymentState::OutboundExecuted => {
            reveal_strlit("Payment Deposit Executed");
            assert("Payment Deposit Executed"@.subrange(8, 15) =~= "Deposit"@);
        },
        PaymentState::OutboundFailed => {
            reveal_strlit("Payment Deposit Failed...");
            assert("Payment Deposit Failed..."@.subrange(8, 15) =~= "Deposit"@);
            assert("Payment Deposit Failed..."@.subrange(16, 22) =~= "Failed"@);
        },
        PaymentState::RefundCreated => {
            reveal_strlit("Payment Refund Created...");
            assert("Payment Refund Created..."@.subrange(8, 14) =~= "Refund"@);
        },
        PaymentState::RefundExecuted => {
            reveal_strlit("Payment Refunded");
            assert("Payment Refunded"@.subrange(8, 14) =~= "Refund"@);
        },
        PaymentState::RefundFailed => {
            reveal_strlit("Payment Refund Failed");
            assert("Payment Refund Failed"@.subrange(8, 14) =~= "Refund"@);
            assert("Payment Refund Failed"@.subrange(15, 21) =~= "Failed"@);
        },
        PaymentState::RefundAuthorized => {},
    }
}

/// Each state the payment status page shows has a text of its own, so the
/// payer can tell every shown state from every other; a failed state's
/// text says that it failed, a payout's text speaks of the deposit and a
/// refund's of the refund.
pub proof fn lemma_status_texts_tell_states_apart(a: PaymentState, b: PaymentState)
    ensures
        spec_payment_status_text(a) is Some && a != b ==> spec_payment_status_text(a)
            != spec_payment_status_text(b),
        spec_payment_status_text(a) is Some && is_failed_state(a) ==> contains_text(
            spec_payment_status_text(a)->0,
            "Failed"@,
        ),
        a.rank() >= PaymentState::OutboundCreated.rank() ==> contains_text(
            spec_payment_status_text(a)->0,
            "Deposit"@,
        ),
        spec_payment_status_text(a) is Some && PaymentState::RefundCreated.rank() <= a.rank()
            < PaymentState::OutboundCreated.rank() ==> contains_text(
            spec_payment_status_text(a)->0,
            "Refund"@,
        ),
{
    reveal_strlit("Failed");
    reveal_strlit("Deposit");
    reveal_strlit("Refund");
    lemma_status_text_words(a);
    lemma_status_text_words(b);
    let t = spec_payment_status_text(a);
    if t is Some {
        let text = t->0;
        if is_failed_state(a) {
            let at: int = if a == PaymentState::InboundFailed {
                8
            } else if a == PaymentState::OutboundFailed {
                16
            } else {
                15
            };
            assert(text.subrange(at, at + 6) == "Failed"@);
        }
        if a.rank() >= PaymentState::OutboundCreated.rank() {
            assert(text.subrange(8, 8 + 7int) == "Deposit"@);
        }
        if PaymentState::RefundCreated.rank() <= a.rank() < PaymentState::OutboundCreated.rank() {
            assert(text.subrange(8, 8 + 6int) == "Refund"@);
        }
        if a != b && spec_payment_status_text(b) == t {
            assert(status_text_key(a) == status_text_key(b));
        }
    }
}

/// Both status pages name every outbound state the same way, and a
/// deposit that the deposit page sees finish is finished for the payment
/// page too.
pub proof fn lemma_status_pages_agree(state: PaymentState)
    ensures
        spec_deposit_status_text(state) is Some ==> spec_deposit_status_text(state)
            == spec_payment_status_text(state),
        (state == PaymentState::OutboundFailed || state == PaymentState::OutboundExecuted)
            ==> spec_payment_status_is_final(state),
{
}

/// The class of an input that has not been checked.
pub open spec fn plain_class() -> Seq<char> {
    "form-control"@
}

/// The class of an input that was checked and accepted.
pub open spec fn valid_class() -> Seq<char> {
    "form-control is-valid"@
}

/// The class of an input that was checked and refused.
pub open spec fn invalid_class() -> Seq<char> {
    "form-control is-invalid"@
}

/// The smallest amount a payment may have.
pub const MINIMUM_AMOUNT: u32 = 100;

/// The class and error message of the amount field: an amount below the
/// minimum is refused once checked; until then the field is plain, and an
/// amount at the minimum or above shows as accepted.
pub open spec fn spec_amount_feedback(amount: Option<u32>, check: bool) -> (Seq<char>, Seq<char>) {
    let enough = match amount {
        Some(a) => a >= 100,
        None => false,
    };
    if check && !enough {
        (invalid_class(), "A minimum of 100 is required..."@)
    } else if !check && !enough {
        (plain_class(), ""@)
    } else {
        (valid_class(), ""@)
    }
}

pub fn amount_feedback(amount: Option<u32>, check: bool) -> (r: (&'static str, &'static str))
    ensures
        (r.0@, r.1@) == spec_amount_feedback(amount, check),
{
    let value = match amount {
        Some(a) => a,
        None => 0,
    };
    let enough = value >= MINIMUM_AMOUNT;
    if check && !enough {
        ("form-control is-invalid", "A minimum of 100 is required...")
    } else if !check && !enough {
        ("form-control", "")
    } else {
        ("form-control is-valid", "")
    }
}

/// The class and error message of an email field of the payment form: an
/// address that is not valid is refused once checked; until then the field
/// is plain, and a valid address shows as accepted.
pub open spec fn spec_email_feedback(email: Option<Seq<char>>, check: bool) -> (Seq<char>, Seq<char>) {
    let valid = email_valid(
        match email {
            Some(e) => e,
            None => ""@,
        },
    );
    if check && !valid {
        (invalid_class(), "Please enter a valid email address..."@)
    } else if !check && !valid {
        (plain_class(), ""@)
    } else {
        (valid_class(), ""@)
    }
}

pub fn email_feedback(email: Option<&str>, check: bool) -> (r: (&'static str, &'static str))
    ensures
        (r.0@, r.1@) == spec_email_feedback(
            match email {
                Some(e) => Some(e@),
                None => None,
            },
            check,
        ),
{
    let text = match email {
        Some(e) => e,
        None => "",
    };
    let valid = is_valid_email(text);
    if check && !valid {
        ("form-control is-invalid", "Please enter a valid email address...")
    } else if !check && !valid {
        ("form-control", "")
    } else {
        ("form-control is-valid", "")
    }
}

/// The class and error message of the email field of the registration
/// form: once checked, an address already registered is refused first, then
/// an address that is not valid; unchecked, the field is plain.
pub open spec fn spec_registration_email_feedback(email: Seq<char>, registered: bool, check: bool) -> (Seq<char>, Seq<char>) {
    if check && registered {
        (invalid_class(), "That email is already taken.  Please enter another email..."@)
    } else if check && !email_valid(email) {
        (invalid_class(), "Please enter a valid email address..."@)
    } else if !check {
        (plain_class(), ""@)
    } else {
        (valid_class(), ""@)
    }
}

pub fn registration_email_feedback(email: &str, registered: bool, check: bool) -> (r: (&'static str, &'static str))
    ensures
        (r.0@, r.1@) == spec_registration_email_feedback(email@, registered, check),
{
    let valid = is_valid_email(email);
    if check && registered {
        ("form-control is-invalid", "That email is already taken.  Please enter another email...")
    } else if check && !valid {
        ("form-control is-invalid", "Please enter a valid email address...")
    } else if !check {
        ("form-control", "")
    } else {
        ("form-control is-valid", "")
    }
}

/// Whether the address belongs to a user who finished registering.
pub fn email_taken(existing: Option<&User>) -> (r: bool)
    ensures
        r == match existing {
            Some(u) => u.spec_state() == UserState::Registered,
            None => false,
        },
{
    match existing {
        Some(u) => u.state() == UserState::Registered,
        None => false,
    }
}

/// The email to confirm the code for: only a registering user has one; a
/// registered or unknown user is a generic failure.
pub fn confirmation_email(user: Option<User>) -> (r: Result<String, PublicError>)
    ensures
        match user {
            Some(User::Registering { email, .. }) => r == Ok::<String, PublicError>(email),
            _ => r matches Err(PublicError::InternalServerError),
        },
{
    match user {
        Some(User::Registering { email, .. }) => Ok(email),
        Some(User::Registered { .. }) => Err(PublicError::InternalServerError),
        None => Err(PublicError::InternalServerError),
    }
}

/// The length of the code emailed to a registering user.
pub const REGISTRATION_CODE_LEN: usize = 8;

/// A fresh code to email to a registering user: eight random ASCII letters
/// and digits.
pub fn registration_code() -> (r: String)
    ensures
        r@.len() == 8,
        forall|i: int| 0 <= i < 8 ==> crate::crypto::is_alphanumeric(#[trigger] r@[i]),
{
    crate::crypto::random_alphanumeric(REGISTRATION_CODE_LEN)
}

/// What a registration request stores: a registering user with the new
/// names and code, under the identifier and email of the user already
/// registering with that address (one version on), or under a fresh
/// identifier and the given email (version 0); an address already
/// registered is a generic failure.
pub open spec fn spec_registration(
    existing: Option<(User, u32)>,
    email: String,
    first_name: String,
    last_name: String,
    code: String,
    now: Timestamp,
    fresh_id: UserId,
) -> Result<(User, u32), PublicError> {
    match existing {
        Some((User::Registered { .. }, _)) => Err(PublicError::InternalServerError),
        Some((User::Registering { user_id, email: known, .. }, v)) => Ok(
            (
                User::Registering {
                    user_id,
                    email: known,
                    first_name,
                    last_name,
                    code,
                    timestamp: now,
                },
                (v + 1) as u32,
            ),
        ),
        None => Ok(
            (
                User::Registering {
                    user_id: fresh_id,
                    email,
                    first_name,
                    last_name,
                    code,
                    timestamp: now,
                },
                0,
            ),
        ),
    }
}

/// Plans a registration; the stored version of a user still registering
/// must leave room for one more.
pub fn registration(
    existing: Option<(User, u32)>,
    email: String,
    first_name: String,
    last_name: String,
    code: String,
    now: Timestamp,
    fresh_id: UserId,
) -> (r: Result<(User, u32), PublicError>)
    requires
        existing matches Some((User::Registering { .. }, v)) ==> v < u32::MAX,
    ensures
        r == spec_registration(existing, email, first_name, last_name, code, now, fresh_id),
{
    match existing {
        Some((User::Registered { .. }, _)) => Err(PublicError::InternalServerError),
        Some((User::Registering { user_id, email: known, .. }, v)) => Ok(
            (
                User::Registering {
                    user_id,
                    email: known,
                    first_name,
                    last_name,
                    code,
                    timestamp: now,
                },
                v + 1,
            ),
        ),
        None => Ok(
            (
                User::Registering {
                    user_id: fresh_id,
                    email,
                    first_name,
                    last_name,
                    code,
                    timestamp: now,
                },
                0,
            ),
        ),
    }
}

/// A registration never completes a user: whatever it stores is a user
/// still registering with the new names and code, and a user who already
/// registered is never overwritten.
pub proof fn lemma_registration_keeps_registered_users(
    existing: Option<(User, u32)>,
    email: String,
    first_name: String,
    last_name: String,
    code: String,
    now: Timestamp,
    fresh_id: UserId,
)
    ensures
        ({
            let r = spec_registration(existing, email, first_name, last_name, code, now, fresh_id);
            &&& (existing matches Some((u, _)) && u.spec_state() == UserState::Registered) ==> r is Err
            &&& r matches Ok((u, _)) ==> u.spec_state() == UserState::Registering && u.spec_first_name()
                == first_name@ && u.spec_last_name() == last_name@
            &&& r matches Ok((u, _)) ==> (existing matches Some((old, _)) ==> u.spec_user_id()
                == old.spec_user_id() && u.spec_email() == old.spec_email())
        }),
{
}

/// The page where the user confirms the emailed code.
pub fn email_code_link(user_id: UserId) -> (r: String)
    ensures
        r@ == REGISTER_EMAIL_CODE_PAGE@ + "?user_id="@ + uuid_text(user_id.0),
{
    let mut r = String::from_str(REGISTER_EMAIL_CODE_PAGE);
    r.append("?user_id=");
    r.append(user_id.to_string().as_str());
    r
}

/// The password of the admin pages.
pub open spec fn admin_password() -> Seq<char> {
    "admin"@
}

/// The name of the cookie that carries the admin session token.
pub open spec fn admin_cookie_name() -> Seq<char> {
    "admin"@
}

/// The fixed salt the admin session hash is made with.
pub open spec fn admin_salt() -> Seq<char> {
    "ZXRyYW5zZmVy"@
}

/// The admin session token: the Argon2 hash of the admin password under
/// the fixed salt, if hashing succeeds.
pub open spec fn admin_token() -> Option<Seq<char>> {
    argon2_phc(encode_utf8(admin_password()), admin_salt())
}

/// The admin salt is the B64 of the nine bytes of `etransfer`, a salt
/// Argon2 hashes with.
proof fn lemma_admin_salt_is_argon2_salt()
    ensures
        is_argon2_salt(admin_salt()),
{
    reveal_strlit("ZXRyYW5zZmVy");
    reveal_with_fuel(base64_encoded, 4);
    let bytes: Seq<u8> = seq![101u8, 116u8, 114u8, 97u8, 110u8, 115u8, 102u8, 101u8, 114u8];
    assert(bytes.subrange(3, 9) =~= seq![97u8, 110u8, 115u8, 102u8, 101u8, 114u8]);
    assert(bytes.subrange(3, 9).subrange(3, 6) =~= seq![102u8, 101u8, 114u8]);
    assert(seq![102u8, 101u8, 114u8].subrange(3, 3) =~= Seq::<u8>::empty());
    assert(base64_std_nopad(bytes) =~= admin_salt());
}

/// The token to store in the admin cookie after a login: only the admin
/// password gets one.
pub fn admin_login_token(password: &str) -> (r: Option<String>)
    ensures
        r is Some <==> password@ == admin_password(),
        r matches Some(t) ==> t@ == admin_token()->0 && phc_parses(t@) && argon2_accepts(
            encode_utf8(admin_password()),
            t@,
        ),
{
    if str_equal(password, "admin") {
        proof {
            lemma_admin_salt_is_argon2_salt();
            reveal_strlit("admin");
            assert(vstd::utf8::is_ascii_chars("admin"@));
            vstd::utf8::is_ascii_chars_encode_utf8("admin"@);
        }
        argon2_hash("admin".as_bytes(), "ZXRyYW5zZmVy")
    } else {
        None
    }
}

/// The value of the first cookie among `pieces` (each trimmed before it is
/// read) that bears the admin cookie's name.
pub open spec fn first_admin_value(pieces: Seq<Seq<char>>) -> Option<Seq<char>>
    decreases pieces.len(),
{
    if pieces.len() == 0 {
        None
    } else {
        match cookie_parse(trimmed(pieces[0])) {
            Some((name, value)) => if name == admin_cookie_name() {
                Some(value)
            } else {
                first_admin_value(pieces.drop_first())
            },
            None => first_admin_value(pieces.drop_first()),
        }
    }
}

/// The value of the admin cookie of a `Cookie` header.
pub open spec fn admin_cookie_value(header: Option<Seq<char>>) -> Option<Seq<char>> {
    match header {
        Some(h) => first_admin_value(split_on(h, ';')),
        None => None,
    }
}

/// Finds the admin cookie of a `Cookie` header: the pieces between
/// semicolons are trimmed and read as cookies, and the first named `admin`
/// gives its value.
pub fn find_admin_cookie(header: &str) -> (r: Option<String>)
    ensures
        r is Some <==> admin_cookie_value(Some(header@)) is Some,
        r matches Some(v) ==> v@ == admin_cookie_value(Some(header@))->0,
{
    let pieces = split_semicolons(header);
    let ghost views = pieces@.map_values(|p: String| p@);
    assert(views.skip(0) =~= views);
    let mut i: usize = 0;
    while i < pieces.len()
        invariant
            i <= pieces.len(),
            views == pieces@.map_values(|p: String| p@),
            views == split_on(header@, ';'),
            first_admin_value(views.skip(i as int)) == first_admin_value(views),
        decreases pieces.len() - i,
    {
        assert(views.skip(i as int).drop_first() =~= views.skip(i + 1));
        assert(views.skip(i as int)[0] == pieces@[i as int]@);
        let piece = trim(pieces[i].as_str());
        match parse_cookie(piece) {
            Some((name, value)) => {
                if str_equal(name.as_str(), "admin") {
                    return Some(value);
                }
            },
            None => {},
        }
        i = i + 1;
    }
    assert(views.skip(i as int).len() == 0);
    None
}

/// Whether a request with this `Cookie` header may see the admin pages:
/// its admin cookie holds a hash that the admin password verifies against;
/// a request without one may not. None when the admin cookie is not a PHC
/// string, a request the gateway does not serve.
pub open spec fn spec_admin_authorized(header: Option<Seq<char>>) -> Option<bool> {
    match admin_cookie_value(header) {
        None => Some(false),
        Some(v) => if phc_parses(v) {
            Some(argon2_accepts(encode_utf8(admin_password()), v))
        } else {
            None
        },
    }
}

pub fn admin_authorized(cookie_header: Option<&str>) -> (r: Option<bool>)
    ensures
        r == spec_admin_authorized(
            match cookie_header {
                Some(h) => Some(h@),
                None => None,
            },
        ),
{
    let value = match cookie_header {
        Some(h) => find_admin_cookie(h),
        None => None,
    };
    match value {
        None => Some(false),
        Some(v) => {
            if phc_is_well_formed(v.as_str()) {
                Some(argon2_verify("admin".as_bytes(), v.as_str()))
            } else {
                None
            }
        },
    }
}

/// The sixteen bytes of a UUID, most significant first.
pub open spec fn uuid_bytes(value: u128) -> Seq<u8> {
    Seq::new(16, |i: int| (value >> (((15 - i) * 8) as u128)) as u8)
}

pub fn uuid_bytes_of(value: u128) -> (r: Vec<u8>)
    ensures
        r@ == uuid_bytes(value),
{
    let mut r: Vec<u8> = Vec::new();
    let mut i: usize = 0;
    while i < 16
        invariant
            i <= 16,
            r@.len() == i,
            forall|j: int| 0 <= j < i ==> r@[j] == uuid_bytes(value)[j],
        decreases 16 - i,
    {
        let shift: u128 = ((15 - i) * 8) as u128;
        r.push((value >> shift) as u8);
        i = i + 1;
    }
    assert(r@ =~= uuid_bytes(value));
    r
}

/// The salt the payee's accounts are hashed with: the payment's UUID in
/// standard Base64 without padding.
pub open spec fn payout_salt_text(payment_id: PaymentId) -> Seq<char> {
    base64_std_nopad(uuid_bytes(payment_id.0))
}

pub fn payout_salt(payment_id: PaymentId) -> (r: String)
    ensures
        r@ == payout_salt_text(payment_id),
{
    let bytes = uuid_bytes_of(payment_id.0);
    encode_std_nopad(bytes.as_slice())
}

/// The payout salt is the B64 of the sixteen bytes of the payment's UUID,
/// a salt Argon2 hashes with.
proof fn lemma_payout_salt_is_argon2_salt(payment_id: PaymentId)
    ensures
        is_argon2_salt(payout_salt_text(payment_id)),
{
    let bytes = uuid_bytes(payment_id.0);
    assert(8 <= bytes.len() <= 48 && payout_salt_text(payment_id) == base64_std_nopad(bytes));
}

/// The hash an account number is remembered by for a payment.
pub open spec fn iban_hash(payment_id: PaymentId, iban: Seq<char>) -> Option<Seq<char>> {
    argon2_phc(encode_utf8(iban), payout_salt_text(payment_id))
}

/// The session entry that remembers which accounts the payee may be paid
/// into: their hashes joined by commas; none when an account cannot be
/// hashed.
pub fn account_hashes(payment_id: PaymentId, ibans: &Vec<String>) -> (r: Option<String>)
    ensures
        r is Some <==> forall|i: int| 0 <= i < ibans@.len() ==> (#[trigger] iban_hash(payment_id, ibans@[i]@)) is Some,
        (forall|i: int| 0 <= i < ibans@.len() ==> encode_utf8(#[trigger] ibans@[i]@).len() <= 0xFFFF_FFFF)
            ==> r is Some,
        r matches Some(c) ==> c@ == join(
            Seq::new(ibans@.len(), |i: int| iban_hash(payment_id, ibans@[i]@)->0),
            ","@,
        ),
{
    let salt = payout_salt(payment_id);
    proof {
        lemma_payout_salt_is_argon2_salt(payment_id);
    }
    let mut hashes: Vec<String> = Vec::new();
    let mut i: usize = 0;
    while i < ibans.len()
        invariant
            i <= ibans.len(),
            salt@ == payout_salt_text(payment_id),
            hashes@.len() == i,
            forall|j: int| 0 <= j < i ==> (#[trigger] iban_hash(payment_id, ibans@[j]@)) is Some
                && hashes@[j]@ == iban_hash(payment_id, ibans@[j]@)->0,
        decreases ibans.len() - i,
    {
        match argon2_hash(ibans[i].as_str().as_bytes(), salt.as_str()) {
            Some(h) => {
                hashes.push(h);
            },
            None => {
                assert(iban_hash(payment_id, ibans@[i as int]@) is None);
                assert(encode_utf8(ibans@[i as int]@).len() > 0xFFFF_FFFF);
                return None;
            },
        }
        i = i + 1;
    }
    let r = join_strings(&hashes, ",");
    assert(hashes@.map_values(|p: String| p@) =~= Seq::new(
        ibans@.len(),
        |i: int| iban_hash(payment_id, ibans@[i]@)->0,
    ));
    Some(r)
}

/// The link that pays out to an account, which carries the account number
/// in URL-safe Base64.
pub fn payout_link(iban: &str) -> (r: String)
    ensures
        r@ == DEPOSIT_CREATE_PAYOUT@ + "?iban="@ + base64_url(encode_utf8(iban@)),
{
    let mut r = String::from_str(DEPOSIT_CREATE_PAYOUT);
    r.append("?iban=");
    r.append(encode_url_safe(iban.as_bytes()).as_str());
    r
}

/// The account a payout goes to: the account number carried by the link,
/// if it decodes to text and its hash is among those the session
/// remembers. None where the request is refused: the gateway does not pay
/// out then.
pub open spec fn spec_payout_iban(payment_id: PaymentId, iban_param: Seq<char>, remembered: Seq<char>) -> Option<Seq<char>> {
    match base64_url_decoded(iban_param) {
        Some(bytes) => if valid_utf8(bytes) {
            let iban = decode_utf8(bytes);
            match iban_hash(payment_id, iban) {
                Some(h) => if contains_text(remembered, h) {
                    Some(iban)
                } else {
                    None
                },
                None => None,
            }
        } else {
            None
        },
        None => None,
    }
}

/// Hashing the account a link carries succeeds whenever the link decodes
/// to UTF-8 text of at most `0xFFFF_FFFF` bytes.
pub fn payout_iban(payment_id: PaymentId, iban_param: &str, remembered: &str) -> (r: Option<String>)
    ensures
        r is Some <==> spec_payout_iban(payment_id, iban_param@, remembered@) is Some,
        r matches Some(i) ==> i@ == spec_payout_iban(payment_id, iban_param@, remembered@)->0,
        match base64_url_decoded(iban_param@) {
            Some(bytes) => valid_utf8(bytes) && bytes.len() <= 0xFFFF_FFFF ==> iban_hash(
                payment_id,
                decode_utf8(bytes),
            ) is Some,
            None => true,
        },
{
    let bytes = match decode_url_safe(iban_param) {
        Some(b) => b,
        None => return None,
    };
    let ghost decoded = bytes@;
    let iban = match utf8_string(bytes) {
        Some(s) => s,
        None => return None,
    };
    let salt = payout_salt(payment_id);
    proof {
        lemma_payout_salt_is_argon2_salt(payment_id);
        vstd::utf8::decode_utf8_encode_utf8(decoded);
    }
    let hash = match argon2_hash(iban.as_str().as_bytes(), salt.as_str()) {
        Some(h) => h,
        None => return None,
    };
    proof {
        vstd::utf8::encode_utf8_decode_utf8(iban@);
    }
    if str_contains(remembered, hash.as_str()) {
        Some(iban)
    } else {
        None
    }
}

/// Whether a payment in `state` may be paid out: its state is short of an
/// outbound one, so no payout has begun.
pub open spec fn spec_payout_allowed(state: PaymentState) -> bool {
    state.rank() < PaymentState::OutboundCreated.rank()
}

/// Whether a payout may start: none has started yet.
pub fn payout_allowed(state: PaymentState) -> (r: bool)
    ensures
        r == spec_payout_allowed(state),
{
    !state.is_at_least(PaymentState::OutboundCreated)
}

/// A payment is paid out at most once: once a payout is recorded on it,
/// its state refuses another, and so it stays whatever steps of the inbound
/// leg are reported afterwards; and a payment whose state allows a payout
/// has none recorded.
pub proof fn lemma_no_second_payout(p: Payment, payout_id: PayoutId, created_at: Timestamp, event: PaymentEvent)
    ensures
        !spec_payout_allowed(
            (Payment { payout_data: Some(Payment::spec_created_payout(payout_id, created_at)), ..p }).spec_state(),
        ),
        p.payout_data is Some ==> !spec_payout_allowed(p.spec_state()),
        p.payout_data is Some ==> !spec_payout_allowed(
            (Payment { payment_statuses: p.payment_statuses.spec_record(event), ..p }).spec_state(),
        ),
        spec_payout_allowed(p.spec_state()) ==> p.payout_data is None,
{
}

/// A payee who follows the payout link of one of the listed accounts is
/// paid into that account: the account number the link carries decodes
/// back, and its hash is among those the session remembers.
pub proof fn lemma_listed_account_is_accepted(
    payment_id: PaymentId,
    ibans: Seq<Seq<char>>,
    k: int,
    iban_param: Seq<char>,
)
    requires
        0 <= k < ibans.len(),
        forall|i: int| 0 <= i < ibans.len() ==> (#[trigger] iban_hash(payment_id, ibans[i])) is Some,
        iban_param == base64_url(encode_utf8(ibans[k])),
    ensures
        spec_payout_iban(
            payment_id,
            iban_param,
            join(Seq::new(ibans.len(), |i: int| iban_hash(payment_id, ibans[i])->0), ","@),
        ) == Some(ibans[k]),
{
    let hashes = Seq::new(ibans.len(), |i: int| iban_hash(payment_id, ibans[i])->0);
    crate::crypto::lemma_base64_url_round_trip(encode_utf8(ibans[k]));
    vstd::utf8::encode_utf8_valid_utf8(ibans[k]);
    vstd::utf8::encode_utf8_decode_utf8(ibans[k]);
    assert(iban_hash(payment_id, ibans[k]) is Some);
    crate::text::lemma_join_contains(hashes, ","@, k);
}

/// The token a login hands out admits its bearer: a request whose admin
/// cookie holds it may see the admin pages.
pub proof fn lemma_login_token_admits(token: Seq<char>, header: Seq<char>)
    requires
        phc_parses(token),
        argon2_accepts(encode_utf8(admin_password()), token),
        admin_cookie_value(Some(header)) == Some(token),
    ensures
        spec_admin_authorized(Some(header)) == Some(true),
{
}

/// A request without an admin cookie is never admitted.
pub proof fn lemma_no_cookie_no_admission(header: Option<Seq<char>>)
    requires
        admin_cookie_value(header) is None,
    ensures
        spec_admin_authorized(header) == Some(false),
{
}

} // verus!
