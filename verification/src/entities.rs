use vstd::prelude::*;

use crate::time::Timestamp;

verus! {

/// Stored times of the inbound steps of a payment, first version.
#[derive(Debug, Clone)]
pub struct PaymentStatusesV1 {
    pub inbound_created_at: Timestamp,
    pub inbound_authorized_at: Option<Timestamp>,
    pub inbound_executed_at: Option<Timestamp>,
    pub inbound_settled_at: Option<Timestamp>,
    pub inbound_failed_at: Option<Timestamp>,
}

/// Stored payment statuses, tagged with the version of their layout.
#[derive(Debug, Clone)]
pub enum PaymentStatuses {
    V1(PaymentStatusesV1),
}

/// Stored times of the steps of a payout.
#[derive(Debug, Clone)]
pub struct PayoutStatuses {
    pub payout_created_at: Timestamp,
    pub payout_executed_at: Option<Timestamp>,
    pub payout_failed_at: Option<Timestamp>,
}

/// The stored record of the payout of a payment to its payee: registered
/// before the provider has created it, then created under its UUID.
#[derive(Debug, Clone)]
pub enum PayoutData {
    PayoutRegistering { payout_registered_at: Timestamp },
    PayoutCreated { payout_id: u128, payout_statuses: PayoutStatuses },
}

/// Stored times of the steps of a refund.
#[derive(Debug, Clone)]
pub struct RefundStatuses {
    pub refund_created_at: Timestamp,
    pub refund_executed_at: Option<Timestamp>,
    pub refund_failed_at: Option<Timestamp>,
}

/// The stored record of the refund of a payment to its payer.
#[derive(Debug, Clone)]
pub struct RefundData {
    pub refund_id: u128,
    pub refund_statuses: RefundStatuses,
}

/// The stored document of a payment, tagged with the version of its layout.
#[derive(Debug, Clone)]
pub enum PaymentData {
    V1 {
        payer_full_name: String,
        payer_email: String,
        payee_full_name: String,
        payee_email: String,
        amount: u32,
        security_question: String,
        security_answer: String,
        payment_statuses: PaymentStatuses,
        payout_data: Option<PayoutData>,
        refund_data: Option<RefundData>,
    },
}

/// A row of the payments table: the payment's UUID and its document.
#[derive(Debug, Clone)]
pub struct Payment {
    pub payment_id: u128,
    pub payment_data: PaymentData,
}

/// The stored document of a user, first version.
#[derive(Debug, Clone)]
pub enum UserDataV1 {
    Registering { first_name: String, last_name: String, code: String, timestamp: Timestamp },
    Registered { first_name: String, last_name: String },
}

impl UserDataV1 {
    pub open spec fn spec_first_name(&self) -> Seq<char> {
        match self {
            UserDataV1::Registering { first_name, .. } => first_name@,
            UserDataV1::Registered { first_name, .. } => first_name@,
        }
    }

    pub open spec fn spec_last_name(&self) -> Seq<char> {
        match self {
            UserDataV1::Registering { last_name, .. } => last_name@,
            UserDataV1::Registered { last_name, .. } => last_name@,
        }
    }

    pub fn first_name(&self) -> (r: &str)
        ensures
            r@ == self.spec_first_name(),
    {
        match self {
            UserDataV1::Registering { first_name, .. } => first_name.as_str(),
            UserDataV1::Registered { first_name, .. } => first_name.as_str(),
        }
    }

    pub fn last_name(&self) -> (r: &str)
        ensures
            r@ == self.spec_last_name(),
    {
        match self {
            UserDataV1::Registering { last_name, .. } => last_name.as_str(),
            UserDataV1::Registered { last_name, .. } => last_name.as_str(),
        }
    }
}

/// The stored document of a user, tagged with the version of its layout.
#[derive(Debug, Clone)]
pub enum UserData {
    V1(UserDataV1),
}

/// A row of the users table: the user's UUID, email and document.
#[derive(Debug, Clone)]
pub struct User {
    pub user_id: u128,
    pub email: String,
    pub user_data: UserData,
}

} // verus!
