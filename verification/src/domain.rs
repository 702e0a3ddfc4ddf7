use vstd::prelude::*;

use vstd::std_specs::convert::{FromSpec, FromSpecImpl};

use crate::entities;
use crate::ids::{PaymentId, PayoutId, RefundId, UserId};
use crate::time::Timestamp;

verus! {

/// Where a payment stands in its life: the inbound leg (payer to the
/// merchant account), a refund, or the outbound leg (merchant account to the
/// payee).
#[derive(Debug, Clone, Copy, PartialEq, Eq, Structural, PartialOrd, Ord)]
pub enum PaymentState {
    InboundCreated,
    InboundAuthorized,
    InboundExecuted,
    InboundSettled,
    InboundFailed,
    RefundCreated,
    RefundAuthorized,
    RefundExecuted,
    RefundFailed,
    OutboundCreated,
    OutboundAuthorized,
    OutboundExecuted,
    OutboundFailed,
}

impl PaymentState {
    /// Position of the state in the declaration order, which is the order
    /// the states are compared in.
    pub open spec fn rank(self) -> nat {
        match self {
            PaymentState::InboundCreated => 0,
            PaymentState::InboundAuthorized => 1,
            PaymentState::InboundExecuted => 2,
            PaymentState::InboundSettled => 3,
            PaymentState::InboundFailed => 4,
            PaymentState::RefundCreated => 5,
            PaymentState::RefundAuthorized => 6,
            PaymentState::RefundExecuted => 7,
            PaymentState::RefundFailed => 8,
            PaymentState::OutboundCreated => 9,
            PaymentState::OutboundAuthorized => 10,
            PaymentState::OutboundExecuted => 11,
            PaymentState::OutboundFailed => 12,
        }
    }

    /// The state's position in declaration order.
    pub fn ordinal(self) -> (r: u8)
        ensures
            r == self.rank(),
    {
        match self {
            PaymentState::InboundCreated => 0,
            PaymentState::InboundAuthorized => 1,
            PaymentState::InboundExecuted => 2,
            PaymentState::InboundSettled => 3,
            PaymentState::InboundFailed => 4,
            PaymentState::RefundCreated => 5,
            PaymentState::RefundAuthorized => 6,
            PaymentState::RefundExecuted => 7,
            PaymentState::RefundFailed => 8,
            PaymentState::OutboundCreated => 9,
            PaymentState::OutboundAuthorized => 10,
            PaymentState::OutboundExecuted => 11,
            PaymentState::OutboundFailed => 12,
        }
    }

    /// `self >= other` in the order of the states.
    pub fn is_at_least(self, other: PaymentState) -> (r: bool)
        ensures
            r == (self.rank() >= other.rank()),
    {
        self.ordinal() >= other.ordinal()
    }

    /// The snake-case label of the state.
    pub open spec fn label(self) -> Seq<char> {
        match self {
            PaymentState::InboundCreated => "inbound_created"@,
            PaymentState::InboundAuthorized => "inbound_authorized"@,
            PaymentState::InboundExecuted => "inbound_executed"@,
            PaymentState::InboundSettled => "inbound_settled"@,
            PaymentState::InboundFailed => "inbound_failed"@,
            PaymentState::RefundCreated => "refund_created"@,
            PaymentState::RefundAuthorized => "refund_authorized"@,
            PaymentState::RefundExecuted => "refund_executed"@,
            PaymentState::RefundFailed => "refund_failed"@,
            PaymentState::OutboundCreated => "outbound_created"@,
            PaymentState::OutboundAuthorized => "outbound_authorized"@,
            PaymentState::OutboundExecuted => "outbound_executed"@,
            PaymentState::OutboundFailed => "outbound_failed"@,
        }
    }

    /// The label under which the state is logged and shown.
    pub fn as_str(self) -> (r: &'static str)
        ensures
            r@ == self.label(),
    {
        match self {
            PaymentState::InboundCreated => "inbound_created",
            PaymentState::InboundAuthorized => "inbound_authorized",
            PaymentState::InboundExecuted => "inbound_executed",
            PaymentState::InboundSettled => "inbound_settled",
            PaymentState::InboundFailed => "inbound_failed",
            PaymentState::RefundCreated => "refund_created",
            PaymentState::RefundAuthorized => "refund_authorized",
            PaymentState::RefundExecuted => "refund_executed",
            PaymentState::RefundFailed => "refund_failed",
            PaymentState::OutboundCreated => "outbound_created",
            PaymentState::OutboundAuthorized => "outbound_authorized",
            PaymentState::OutboundExecuted => "outbound_executed",
            PaymentState::OutboundFailed => "outbound_failed",
        }
    }
}

spec fn label_key(s: PaymentState) -> (nat, char, char) {
    match s {
        PaymentState::InboundCreated => (15, 'i', 'r'),
        PaymentState::InboundAuthorized => (18, 'i', 'u'),
        PaymentState::InboundExecuted => (16, 'i', 'x'),
        PaymentState::InboundSettled => (15, 'i', 'e'),
        PaymentState::InboundFailed => (14, 'i', 'a'),
        PaymentState::RefundCreated => (14, 'r', 'e'),
        PaymentState::RefundAuthorized => (17, 'r', 't'),
        PaymentState::RefundExecuted => (15, 'r', 'e'),
        PaymentState::RefundFailed => (13, 'r', 'i'),
        PaymentState::OutboundCreated => (16, 'o', 'c'),
        PaymentState::OutboundAuthorized => (19, 'o', 'a'),
        PaymentState::OutboundExecuted => (17, 'o', 'e'),
        PaymentState::OutboundFailed => (15, 'o', 'f'),
    }
}

proof fn lemma_label_key(s: PaymentState)
    ensures
        s.label().len() == label_key(s).0,
        s.label()[0] == label_key(s).1,
        s.label()[9] == label_key(s).2,
{
    match s {
        PaymentState::InboundCreated => {
            reveal_strlit("inbound_created");
        },
        PaymentState::InboundAuthorized => {
            reveal_strlit("inbound_authorized");
        },
        PaymentState::InboundExecuted => {
            reveal_strlit("inbound_executed");
        },
        PaymentState::InboundSettled => {
            reveal_strlit("inbound_settled");
        },
        PaymentState::InboundFailed => {
            reveal_strlit("inbound_failed");
        },
        PaymentState::RefundCreated => {
            reveal_strlit("refund_created");
        },
        PaymentState::RefundAuthorized => {
            reveal_strlit("refund_authorized");
        },
        PaymentState::RefundExecuted => {
            reveal_strlit("refund_executed");
        },
        PaymentState::RefundFailed => {
            reveal_strlit("refund_failed");
        },
        PaymentState::OutboundCreated => {
            reveal_strlit("outbound_created");
        },
        PaymentState::OutboundAuthorized => {
            reveal_strlit("outbound_authorized");
        },
        PaymentState::OutboundExecuted => {
            reveal_strlit("outbound_executed");
        },
        PaymentState::OutboundFailed => {
            reveal_strlit("outbound_failed");
        },
    }
}

/// Two states with the same label are the same state: the label names the
/// state without ambiguity.
pub proof fn lemma_label_injective(a: PaymentState, b: PaymentState)
    requires
        a.label() == b.label(),
    ensures
        a == b,
{
    lemma_label_key(a);
    lemma_label_key(b);
}

/// When each step of the inbound leg of a payment happened; a step that has
/// not happened has no time.
#[derive(Debug, Clone)]
pub struct PaymentStatuses {
    pub inbound_created_at: Timestamp,
    pub inbound_authorized_at: Option<Timestamp>,
    pub inbound_executed_at: Option<Timestamp>,
    pub inbound_settled_at: Option<Timestamp>,
    pub inbound_failed_at: Option<Timestamp>,
}

impl PaymentStatuses {
    /// The state the recorded steps put the payment in: the furthest step
    /// recorded, a failure overriding everything, creation when nothing else
    /// is recorded.
    pub open spec fn spec_state(&self) -> PaymentState {
        if self.inbound_failed_at is Some {
            PaymentState::InboundFailed
        } else if self.inbound_settled_at is Some {
            PaymentState::InboundSettled
        } else if self.inbound_executed_at is Some {
            PaymentState::InboundExecuted
        } else if self.inbound_authorized_at is Some {
            PaymentState::InboundAuthorized
        } else {
            PaymentState::InboundCreated
        }
    }

    pub fn state(&self) -> (r: PaymentState)
        ensures
            r == self.spec_state(),
    {
        if self.inbound_failed_at.is_some() {
            PaymentState::InboundFailed
        } else if self.inbound_settled_at.is_some() {
            PaymentState::InboundSettled
        } else if self.inbound_executed_at.is_some() {
            PaymentState::InboundExecuted
        } else if self.inbound_authorized_at.is_some() {
            PaymentState::InboundAuthorized
        } else {
            PaymentState::InboundCreated
        }
    }
}

/// A transfer from a payer to a payee, guarded by a security question whose
/// answer is kept as a password hash.
#[derive(Debug, Clone)]
pub struct Payment {
    pub payment_id: PaymentId,
    pub payer_full_name: String,
    pub payer_email: String,
    pub payee_full_name: String,
    pub payee_email: String,
    pub amount: u32,
    pub security_question: String,
    pub security_answer: String,
    pub payment_statuses: PaymentStatuses,
    pub payout_data: Option<PayoutData>,
    pub refund_data: Option<RefundData>,
}

/// When each step of the payout to the payee happened.
#[derive(Debug, Clone)]
pub struct PayoutStatuses {
    pub payout_created_at: Timestamp,
    pub payout_executed_at: Option<Timestamp>,
    pub payout_failed_at: Option<Timestamp>,
}

impl PayoutStatuses {
    /// The state of the payout: failed, executed, or else created.
    pub open spec fn spec_state(&self) -> PaymentState {
        if self.payout_failed_at is Some {
            PaymentState::OutboundFailed
        } else if self.payout_executed_at is Some {
            PaymentState::OutboundExecuted
        } else {
            PaymentState::OutboundCreated
        }
    }

    pub fn state(&self) -> (r: PaymentState)
        ensures
            r == self.spec_state(),
    {
        if self.payout_failed_at.is_some() {
            PaymentState::OutboundFailed
        } else if self.payout_executed_at.is_some() {
            PaymentState::OutboundExecuted
        } else {
            PaymentState::OutboundCreated
        }
    }
}

/// The payout of a payment to its payee: registered before the provider has
/// created it, then created under the provider's identifier.
#[derive(Debug, Clone)]
pub enum PayoutData {
    PayoutRegistering { payout_registered_at: Timestamp },
    PayoutCreated { payout_id: PayoutId, payout_statuses: PayoutStatuses },
}

impl PayoutData {
    /// A payout that has begun is at least created; once the provider has
    /// created it, its own steps decide.
    pub open spec fn spec_state(&self) -> PaymentState {
        match self {
            PayoutData::PayoutRegistering { .. } => PaymentState::OutboundCreated,
            PayoutData::PayoutCreated { payout_statuses, .. } => payout_statuses.spec_state(),
        }
    }

    pub fn state(&self) -> (r: PaymentState)
        ensures
            r == self.spec_state(),
    {
        match self {
            PayoutData::PayoutRegistering { .. } => PaymentState::OutboundCreated,
            PayoutData::PayoutCreated { payout_statuses, .. } => payout_statuses.state(),
        }
    }
}

/// When each step of the refund to the payer happened.
#[derive(Debug, Clone)]
pub struct RefundStatuses {
    pub refund_created_at: Timestamp,
    pub refund_executed_at: Option<Timestamp>,
    pub refund_failed_at: Option<Timestamp>,
}

impl RefundStatuses {
    /// The state of the refund: failed, executed, or else created.
    pub open spec fn spec_state(&self) -> PaymentState {
        if self.refund_failed_at is Some {
            PaymentState::RefundFailed
        } else if self.refund_executed_at is Some {
            PaymentState::RefundExecuted
        } else {
            PaymentState::RefundCreated
        }
    }

    pub fn state(&self) -> (r: PaymentState)
        ensures
            r == self.spec_state(),
    {
        if self.refund_failed_at.is_some() {
            PaymentState::RefundFailed
        } else if self.refund_executed_at.is_some() {
            PaymentState::RefundExecuted
        } else {
            PaymentState::RefundCreated
        }
    }
}

/// The refund of a payment to its payer, under the provider's identifier.
#[derive(Debug, Clone)]
pub struct RefundData {
    pub refund_id: RefundId,
    pub refund_statuses: RefundStatuses,
}

impl Payment {
    /// The state of the payment: that of its payout once one has begun, else
    /// that of its refund once one exists, else that of its inbound leg.
    pub open spec fn spec_state(&self) -> PaymentState {
        match self.payout_data {
            Some(payout) => payout.spec_state(),
            None => match self.refund_data {
                Some(refund) => refund.refund_statuses.spec_state(),
                None => self.payment_statuses.spec_state(),
            },
        }
    }

    pub fn state(&self) -> (r: PaymentState)
        ensures
            r == self.spec_state(),
    {
        match &self.payout_data {
            Some(payout) => payout.state(),
            None => match &self.refund_data {
                Some(refund) => refund.refund_statuses.state(),
                None => self.payment_statuses.state(),
            },
        }
    }

    /// The payout the provider has just created: created at `created_at`,
    /// with no later step.
    pub open spec fn spec_created_payout(payout_id: PayoutId, created_at: Timestamp) -> PayoutData {
        PayoutData::PayoutCreated {
            payout_id,
            payout_statuses: PayoutStatuses {
                payout_created_at: created_at,
                payout_executed_at: None,
                payout_failed_at: None,
            },
        }
    }

    /// Records on the payment that its payout was created, under the
    /// provider's identifier and at the given time; nothing else changes.
    pub fn record_payout(&mut self, payout_id: PayoutId, created_at: Timestamp)
        ensures
            *final(self) == (Payment {
                payout_data: Some(Self::spec_created_payout(payout_id, created_at)),
                ..*old(self)
            }),
    {
        self.payout_data = Some(
            PayoutData::PayoutCreated {
                payout_id,
                payout_statuses: PayoutStatuses {
                    payout_created_at: created_at,
                    payout_executed_at: None,
                    payout_failed_at: None,
                },
            },
        );
    }
}

/// A user, either still confirming the emailed code or registered.
#[derive(Debug, Clone)]
pub enum User {
    Registering {
        user_id: UserId,
        email: String,
        first_name: String,
        last_name: String,
        code: String,
        timestamp: Timestamp,
    },
    Registered { user_id: UserId, email: String, first_name: String, last_name: String },
}

/// Whether a user has finished registering.
#[derive(Debug, Clone, Copy, PartialEq, Eq, Structural)]
pub enum UserState {
    Registering,
    Registered,
}

impl User {
    pub open spec fn spec_state(&self) -> UserState {
        match self {
            User::Registered { .. } => UserState::Registered,
            User::Registering { .. } => UserState::Registering,
        }
    }

    pub open spec fn spec_user_id(&self) -> UserId {
        match self {
            User::Registered { user_id, .. } => *user_id,
            User::Registering { user_id, .. } => *user_id,
        }
    }

    pub open spec fn spec_email(&self) -> Seq<char> {
        match self {
            User::Registered { email, .. } => email@,
            User::Registering { email, .. } => email@,
        }
    }

    pub open spec fn spec_first_name(&self) -> Seq<char> {
        match self {
            User::Registered { first_name, .. } => first_name@,
            User::Registering { first_name, .. } => first_name@,
        }
    }

    pub open spec fn spec_last_name(&self) -> Seq<char> {
        match self {
            User::Registered { last_name, .. } => last_name@,
            User::Registering { last_name, .. } => last_name@,
        }
    }

    pub fn state(&self) -> (r: UserState)
        ensures
            r == self.spec_state(),
    {
        match self {
            User::Registered { .. } => UserState::Registered,
            User::Registering { .. } => UserState::Registering,
        }
    }

    pub fn user_id(&self) -> (r: UserId)
        ensures
            r == self.spec_user_id(),
    {
        match self {
            User::Registered { user_id, .. } => *user_id,
            User::Registering { user_id, .. } => *user_id,
        }
    }

    pub fn email(&self) -> (r: &str)
        ensures
            r@ == self.spec_email(),
    {
        match self {
            User::Registered { email, .. } => email.as_str(),
            User::Registering { email, .. } => email.as_str(),
        }
    }

    pub fn first_name(&self) -> (r: &str)
        ensures
            r@ == self.spec_first_name(),
    {
        match self {
            User::Registered { first_name, .. } => first_name.as_str(),
            User::Registering { first_name, .. } => first_name.as_str(),
        }
    }

    pub fn last_name(&self) -> (r: &str)
        ensures
            r@ == self.spec_last_name(),
    {
        match self {
            User::Registered { last_name, .. } => last_name.as_str(),
            User::Registering { last_name, .. } => last_name.as_str(),
        }
    }

    /// The code the user must confirm and when it was issued; a registered
    /// user has none.
    pub fn registration_code(&self) -> (r: Option<(&str, &Timestamp)>)
        ensures
            match self {
                User::Registered { .. } => r is None,
                User::Registering { code, timestamp, .. } => r matches Some(
                    (c, t),
                ) && c@ == code@ && *t == *timestamp,
            },
    {
        match self {
            User::Registered { .. } => None,
            User::Registering { timestamp, code, .. } => Some((code.as_str(), timestamp)),
        }
    }
}

} // verus!

verus! {

impl PaymentStatuses {
    pub open spec fn spec_from_entity(value: entities::PaymentStatuses) -> PaymentStatuses {
        match value {
            entities::PaymentStatuses::V1(s) => PaymentStatuses {
                inbound_created_at: s.inbound_created_at,
                inbound_authorized_at: s.inbound_authorized_at,
                inbound_executed_at: s.inbound_executed_at,
                inbound_settled_at: s.inbound_settled_at,
                inbound_failed_at: s.inbound_failed_at,
            },
        }
    }

    pub open spec fn spec_into_entity(self) -> entities::PaymentStatuses {
        entities::PaymentStatuses::V1(
            entities::PaymentStatusesV1 {
                inbound_created_at: self.inbound_created_at,
                inbound_authorized_at: self.inbound_authorized_at,
                inbound_executed_at: self.inbound_executed_at,
                inbound_settled_at: self.inbound_settled_at,
                inbound_failed_at: self.inbound_failed_at,
            },
        )
    }

    /// Reads stored statuses of any layout version.
    pub fn from_entity(value: entities::PaymentStatuses) -> (r: PaymentStatuses)
        ensures
            r == Self::spec_from_entity(value),
    {
        match value {
            entities::PaymentStatuses::V1(s) => PaymentStatuses {
                inbound_created_at: s.inbound_created_at,
                inbound_authorized_at: s.inbound_authorized_at,
                inbound_executed_at: s.inbound_executed_at,
                inbound_settled_at: s.inbound_settled_at,
                inbound_failed_at: s.inbound_failed_at,
            },
        }
    }

    /// Writes the statuses in the current layout version.
    pub fn into_entity(self) -> (r: entities::PaymentStatuses)
        ensures
            r == self.spec_into_entity(),
    {
        entities::PaymentStatuses::V1(
            entities::PaymentStatusesV1 {
                inbound_created_at: self.inbound_created_at,
                inbound_authorized_at: self.inbound_authorized_at,
                inbound_executed_at: self.inbound_executed_at,
                inbound_settled_at: self.inbound_settled_at,
                inbound_failed_at: self.inbound_failed_at,
            },
        )
    }
}

impl PayoutData {
    pub open spec fn spec_from_entity(value: entities::PayoutData) -> PayoutData {
        match value {
            entities::PayoutData::PayoutRegistering { payout_registered_at } => {
                PayoutData::PayoutRegistering { payout_registered_at }
            },
            entities::PayoutData::PayoutCreated { payout_id, payout_statuses } => {
                PayoutData::PayoutCreated {
                    payout_id: PayoutId(payout_id),
                    payout_statuses: PayoutStatuses {
                        payout_created_at: payout_statuses.payout_created_at,
                        payout_executed_at: payout_statuses.payout_executed_at,
                        payout_failed_at: payout_statuses.payout_failed_at,
                    },
                }
            },
        }
    }

    pub open spec fn spec_into_entity(self) -> entities::PayoutData {
        match self {
            PayoutData::PayoutRegistering { payout_registered_at } => {
                entities::PayoutData::PayoutRegistering { payout_registered_at }
            },
            PayoutData::PayoutCreated { payout_id, payout_statuses } => {
                entities::PayoutData::PayoutCreated {
                    payout_id: payout_id.0,
                    payout_statuses: entities::PayoutStatuses {
                        payout_created_at: payout_statuses.payout_created_at,
                        payout_executed_at: payout_statuses.payout_executed_at,
                        payout_failed_at: payout_statuses.payout_failed_at,
                    },
                }
            },
        }
    }

    /// Reads a stored payout record.
    pub fn from_entity(value: entities::PayoutData) -> (r: PayoutData)
        ensures
            r == Self::spec_from_entity(value),
    {
        match value {
            entities::PayoutData::PayoutRegistering { payout_registered_at } => {
                PayoutData::PayoutRegistering { payout_registered_at }
            },
            entities::PayoutData::PayoutCreated { payout_id, payout_statuses } => {
                PayoutData::PayoutCreated {
                    payout_id: PayoutId(payout_id),
                    payout_statuses: PayoutStatuses {
                        payout_created_at: payout_statuses.payout_created_at,
                        payout_executed_at: payout_statuses.payout_executed_at,
                        payout_failed_at: payout_statuses.payout_failed_at,
                    },
                }
            },
        }
    }

    /// Writes the payout record in its stored form.
    pub fn into_entity(self) -> (r: entities::PayoutData)
        ensures
            r == self.spec_into_entity(),
    {
        match self {
            PayoutData::PayoutRegistering { payout_registered_at } => {
                entities::PayoutData::PayoutRegistering { payout_registered_at }
            },
            PayoutData::PayoutCreated { payout_id, payout_statuses } => {
                entities::PayoutData::PayoutCreated {
                    payout_id: payout_id.0,
                    payout_statuses: entities::PayoutStatuses {
                        payout_created_at: payout_statuses.payout_created_at,
                        payout_executed_at: payout_statuses.payout_executed_at,
                        payout_failed_at: payout_statuses.payout_failed_at,
                    },
                }
            },
        }
    }
}

impl RefundData {
    pub open spec fn spec_from_entity(value: entities::RefundData) -> RefundData {
        RefundData {
            refund_id: RefundId(value.refund_id),
            refund_statuses: RefundStatuses {
                refund_created_at: value.refund_statuses.refund_created_at,
                refund_executed_at: value.refund_statuses.refund_executed_at,
                refund_failed_at: value.refund_statuses.refund_failed_at,
            },
        }
    }

    pub open spec fn spec_into_entity(self) -> entities::RefundData {
        entities::RefundData {
            refund_id: self.refund_id.0,
            refund_statuses: entities::RefundStatuses {
                refund_created_at: self.refund_statuses.refund_created_at,
                refund_executed_at: self.refund_statuses.refund_executed_at,
                refund_failed_at: self.refund_statuses.refund_failed_at,
            },
        }
    }

    /// Reads a stored refund record.
    pub fn from_entity(value: entities::RefundData) -> (r: RefundData)
        ensures
            r == Self::spec_from_entity(value),
    {
        RefundData {
            refund_id: RefundId(value.refund_id),
            refund_statuses: RefundStatuses {
                refund_created_at: value.refund_statuses.refund_created_at,
                refund_executed_at: value.refund_statuses.refund_executed_at,
                refund_failed_at: value.refund_statuses.refund_failed_at,
            },
        }
    }

    /// Writes the refund record in its stored form.
    pub fn into_entity(self) -> (r: entities::RefundData)
        ensures
            r == self.spec_into_entity(),
    {
        entities::RefundData {
            refund_id: self.refund_id.0,
            refund_statuses: entities::RefundStatuses {
                refund_created_at: self.refund_statuses.refund_created_at,
                refund_executed_at: self.refund_statuses.refund_executed_at,
                refund_failed_at: self.refund_statuses.refund_failed_at,
            },
        }
    }
}

/// A stored payout record, if there is one, read into the model.
pub open spec fn payout_from_entity(value: Option<entities::PayoutData>) -> Option<PayoutData> {
    match value {
        Some(p) => Some(PayoutData::spec_from_entity(p)),
        None => None,
    }
}

/// The model's payout record, if there is one, in its stored form.
pub open spec fn payout_into_entity(value: Option<PayoutData>) -> Option<entities::PayoutData> {
    match value {
        Some(p) => Some(p.spec_into_entity()),
        None => None,
    }
}

/// A stored refund record, if there is one, read into the model.
pub open spec fn refund_from_entity(value: Option<entities::RefundData>) -> Option<RefundData> {
    match value {
        Some(r) => Some(RefundData::spec_from_entity(r)),
        None => None,
    }
}

/// The model's refund record, if there is one, in its stored form.
pub open spec fn refund_into_entity(value: Option<RefundData>) -> Option<entities::RefundData> {
    match value {
        Some(r) => Some(r.spec_into_entity()),
        None => None,
    }
}

impl FromSpecImpl<entities::Payment> for Payment {
    open spec fn obeys_from_spec() -> bool {
        true
    }

    open spec fn from_spec(value: entities::Payment) -> Payment {
        match value.payment_data {
            entities::PaymentData::V1 {
                payer_full_name,
                payer_email,
                payee_full_name,
                payee_email,
                amount,
                security_question,
                security_answer,
                payment_statuses,
                payout_data,
                refund_data,
            } => Payment {
                payment_id: PaymentId(value.payment_id),
                payer_full_name,
                payer_email,
                payee_full_name,
                payee_email,
                amount,
                security_question,
                security_answer,
                payment_statuses: PaymentStatuses::spec_from_entity(payment_statuses),
                payout_data: payout_from_entity(payout_data),
                refund_data: refund_from_entity(refund_data),
            },
        }
    }
}

impl From<entities::Payment> for Payment {
    fn from(value: entities::Payment) -> Payment {
        match value.payment_data {
            entities::PaymentData::V1 {
                payer_full_name,
                payer_email,
                payee_full_name,
                payee_email,
                amount,
                security_question,
                security_answer,
                payment_statuses,
                payout_data,
                refund_data,
            } => Payment {
                payment_id: PaymentId(value.payment_id),
                payer_full_name,
                payer_email,
                payee_full_name,
                payee_email,
                amount,
                security_question,
                security_answer,
                payment_statuses: PaymentStatuses::from_entity(payment_statuses),
                payout_data: match payout_data {
                    Some(p) => Some(PayoutData::from_entity(p)),
                    None => None,
                },
                refund_data: match refund_data {
                    Some(r) => Some(RefundData::from_entity(r)),
                    None => None,
                },
            },
        }
    }
}

impl FromSpecImpl<Payment> for entities::Payment {
    open spec fn obeys_from_spec() -> bool {
        true
    }

    open spec fn from_spec(value: Payment) -> entities::Payment {
        entities::Payment {
            payment_id: value.payment_id.0,
            payment_data: entities::PaymentData::V1 {
                payer_full_name: value.payer_full_name,
                payer_email: value.payer_email,
                payee_full_name: value.payee_full_name,
                payee_email: value.payee_email,
                amount: value.amount,
                security_question: value.security_question,
                security_answer: value.security_answer,
                payment_statuses: value.payment_statuses.spec_into_entity(),
                payout_data: payout_into_entity(value.payout_data),
                refund_data: refund_into_entity(value.refund_data),
            },
        }
    }
}

impl From<Payment> for entities::Payment {
    fn from(value: Payment) -> entities::Payment {
        entities::Payment {
            payment_id: value.payment_id.0,
            payment_data: entities::PaymentData::V1 {
                payer_full_name: value.payer_full_name,
                payer_email: value.payer_email,
                payee_full_name: value.payee_full_name,
                payee_email: value.payee_email,
                amount: value.amount,
                security_question: value.security_question,
                security_answer: value.security_answer,
                payment_statuses: value.payment_statuses.into_entity(),
                payout_data: match value.payout_data {
                    Some(p) => Some(p.into_entity()),
                    None => None,
                },
                refund_data: match value.refund_data {
                    Some(r) => Some(r.into_entity()),
                    None => None,
                },
            },
        }
    }
}

impl FromSpecImpl<entities::User> for User {
    open spec fn obeys_from_spec() -> bool {
        true
    }

    open spec fn from_spec(value: entities::User) -> User {
        match value.user_data {
            entities::UserData::V1(entities::UserDataV1::Registered { first_name, last_name }) => {
                User::Registered {
                    user_id: UserId(value.user_id),
                    email: value.email,
                    first_name,
                    last_name,
                }
            },
            entities::UserData::V1(
                entities::UserDataV1::Registering { first_name, last_name, code, timestamp },
            ) => User::Registering {
                user_id: UserId(value.user_id),
                email: value.email,
                first_name,
                last_name,
                code,
                timestamp,
            },
        }
    }
}

impl From<entities::User> for User {
    fn from(value: entities::User) -> User {
        match value.user_data {
            entities::UserData::V1(entities::UserDataV1::Registered { first_name, last_name }) => {
                User::Registered {
                    user_id: UserId(value.user_id),
                    email: value.email,
                    first_name,
                    last_name,
                }
            },
            entities::UserData::V1(
                entities::UserDataV1::Registering { first_name, last_name, code, timestamp },
            ) => User::Registering {
                user_id: UserId(value.user_id),
                email: value.email,
                first_name,
                last_name,
                code,
                timestamp,
            },
        }
    }
}

impl FromSpecImpl<User> for entities::User {
    open spec fn obeys_from_spec() -> bool {
        true
    }

    open spec fn from_spec(value: User) -> entities::User {
        match value {
            User::Registering { user_id, email, first_name, last_name, code, timestamp } => {
                entities::User {
                    user_id: user_id.0,
                    email,
                    user_data: entities::UserData::V1(
                        entities::UserDataV1::Registering { first_name, last_name, code, timestamp },
                    ),
                }
            },
            User::Registered { user_id, email, first_name, last_name } => entities::User {
                user_id: user_id.0,
                email,
                user_data: entities::UserData::V1(
                    entities::UserDataV1::Registered { first_name, last_name },
                ),
            },
        }
    }
}

impl From<User> for entities::User {
    fn from(value: User) -> entities::User {
        match value {
            User::Registering { user_id, email, first_name, last_name, code, timestamp } => {
                entities::User {
                    user_id: user_id.0,
                    email,
                    user_data: entities::UserData::V1(
                        entities::UserDataV1::Registering { first_name, last_name, code, timestamp },
                    ),
                }
            },
            User::Registered { user_id, email, first_name, last_name } => entities::User {
                user_id: user_id.0,
                email,
                user_data: entities::UserData::V1(
                    entities::UserDataV1::Registered { first_name, last_name },
                ),
            },
        }
    }
}

/// Storing a payment and reading it back gives the same payment.
pub proof fn lemma_payment_store_round_trip(p: Payment)
    ensures
        <Payment as FromSpec<entities::Payment>>::from_spec(
            <entities::Payment as FromSpec<Payment>>::from_spec(p),
        ) == p,
{
}

/// Reading a stored payment and storing it again gives the same row, so no
/// stored field is lost on the way through the model.
pub proof fn lemma_payment_load_round_trip(e: entities::Payment)
    ensures
        <entities::Payment as FromSpec<Payment>>::from_spec(
            <Payment as FromSpec<entities::Payment>>::from_spec(e),
        ) == e,
{
}

/// Reading a stored payment keeps every detail under its own name: the
/// identifier, the payer's and payee's names and emails, the amount, the
/// security question and the answer's hash, the times of the inbound
/// steps, and the payout and refund records.
pub proof fn lemma_payment_load_keeps_fields(e: entities::Payment)
    ensures
        ({
            let p = <Payment as FromSpec<entities::Payment>>::from_spec(e);
            match e.payment_data {
                entities::PaymentData::V1 {
                    payer_full_name,
                    payer_email,
                    payee_full_name,
                    payee_email,
                    amount,
                    security_question,
                    security_answer,
                    payment_statuses: entities::PaymentStatuses::V1(s),
                    payout_data,
                    refund_data,
                } => {
                    &&& p.payment_id.0 == e.payment_id
                    &&& p.payer_full_name@ == payer_full_name@
                    &&& p.payer_email@ == payer_email@
                    &&& p.payee_full_name@ == payee_full_name@
                    &&& p.payee_email@ == payee_email@
                    &&& p.amount == amount
                    &&& p.security_question@ == security_question@
                    &&& p.security_answer@ == security_answer@
                    &&& p.payment_statuses.inbound_created_at == s.inbound_created_at
                    &&& p.payment_statuses.inbound_authorized_at == s.inbound_authorized_at
                    &&& p.payment_statuses.inbound_executed_at == s.inbound_executed_at
                    &&& p.payment_statuses.inbound_settled_at == s.inbound_settled_at
                    &&& p.payment_statuses.inbound_failed_at == s.inbound_failed_at
                    &&& (p.payout_data is Some <==> payout_data is Some)
                    &&& (p.refund_data is Some <==> refund_data is Some)
                },
            }
        }),
{
}

/// Storing a payment keeps every detail under its own name, the same
/// names as reading it back uses.
pub proof fn lemma_payment_store_keeps_fields(p: Payment)
    ensures
        ({
            let e = <entities::Payment as FromSpec<Payment>>::from_spec(p);
            match e.payment_data {
                entities::PaymentData::V1 {
                    payer_full_name,
                    payer_email,
                    payee_full_name,
                    payee_email,
                    amount,
                    security_question,
                    security_answer,
                    payment_statuses: entities::PaymentStatuses::V1(s),
                    payout_data,
                    refund_data,
                } => {
                    &&& e.payment_id == p.payment_id.0
                    &&& payer_full_name@ == p.payer_full_name@
                    &&& payer_email@ == p.payer_email@
                    &&& payee_full_name@ == p.payee_full_name@
                    &&& payee_email@ == p.payee_email@
                    &&& amount == p.amount
                    &&& security_question@ == p.security_question@
                    &&& security_answer@ == p.security_answer@
                    &&& s.inbound_created_at == p.payment_statuses.inbound_created_at
                    &&& s.inbound_authorized_at == p.payment_statuses.inbound_authorized_at
                    &&& s.inbound_executed_at == p.payment_statuses.inbound_executed_at
                    &&& s.inbound_settled_at == p.payment_statuses.inbound_settled_at
                    &&& s.inbound_failed_at == p.payment_statuses.inbound_failed_at
                    &&& (payout_data is Some <==> p.payout_data is Some)
                    &&& (refund_data is Some <==> p.refund_data is Some)
                },
            }
        }),
{
}

/// Storing a user keeps its identifier, email and names under their own
/// names, and writes a registering user as registering, with its code and
/// the time the code was issued, and a registered user as registered.
pub proof fn lemma_user_store_keeps_fields(u: User)
    ensures
        ({
            let e = <entities::User as FromSpec<User>>::from_spec(u);
            &&& e.user_id == u.spec_user_id().0
            &&& e.email@ == u.spec_email()
            &&& match e.user_data {
                entities::UserData::V1(d) => {
                    &&& d.spec_first_name() == u.spec_first_name()
                    &&& d.spec_last_name() == u.spec_last_name()
                    &&& match u {
                        User::Registering { code, timestamp, .. } => d matches entities::UserDataV1::Registering {
                            code: c,
                            timestamp: t,
                            ..
                        } && c@ == code@ && t == timestamp,
                        User::Registered { .. } => d is Registered,
                    }
                },
            }
        }),
{
}

/// Storing a user and reading it back gives the same user.
pub proof fn lemma_user_store_round_trip(u: User)
    ensures
        <User as FromSpec<entities::User>>::from_spec(<entities::User as FromSpec<User>>::from_spec(u))
            == u,
{
}

/// Reading a stored user and storing it again gives the same row.
pub proof fn lemma_user_load_round_trip(e: entities::User)
    ensures
        <entities::User as FromSpec<User>>::from_spec(<User as FromSpec<entities::User>>::from_spec(e))
            == e,
{
}

/// A stored user reads back in the state its document records, with the
/// stored email and names.
pub proof fn lemma_user_load_fields(e: entities::User)
    ensures
        ({
            let u = <User as FromSpec<entities::User>>::from_spec(e);
            &&& u.spec_user_id() == UserId(e.user_id)
            &&& u.spec_email() == e.email@
            &&& u.spec_first_name() == match e.user_data {
                entities::UserData::V1(d) => d.spec_first_name(),
            }
            &&& u.spec_last_name() == match e.user_data {
                entities::UserData::V1(d) => d.spec_last_name(),
            }
            &&& (u.spec_state() == UserState::Registered) == (e.user_data matches entities::UserData::V1(
                entities::UserDataV1::Registered { .. },
            ))
        }),
{
}

} // verus!

verus! {

/// A step of the inbound leg that the payment provider reports, with the
/// time it happened.
#[derive(Debug, Clone, Copy, PartialEq, Eq)]
pub enum PaymentEvent {
    Authorized(Timestamp),
    Executed(Timestamp),
    Settled(Timestamp),
    Failed(Timestamp),
}

impl PaymentEvent {
    /// The state the event announces.
    pub open spec fn spec_state(self) -> PaymentState {
        match self {
            PaymentEvent::Authorized(_) => PaymentState::InboundAuthorized,
            PaymentEvent::Executed(_) => PaymentState::InboundExecuted,
            PaymentEvent::Settled(_) => PaymentState::InboundSettled,
            PaymentEvent::Failed(_) => PaymentState::InboundFailed,
        }
    }

    pub fn state(&self) -> (r: PaymentState)
        ensures
            r == self.spec_state(),
    {
        match self {
            PaymentEvent::Authorized(_) => PaymentState::InboundAuthorized,
            PaymentEvent::Executed(_) => PaymentState::InboundExecuted,
            PaymentEvent::Settled(_) => PaymentState::InboundSettled,
            PaymentEvent::Failed(_) => PaymentState::InboundFailed,
        }
    }
}

impl PaymentStatuses {
    /// The statuses with the event's time recorded in the event's field.
    pub open spec fn spec_record(self, event: PaymentEvent) -> PaymentStatuses {
        match event {
            PaymentEvent::Authorized(t) => PaymentStatuses { inbound_authorized_at: Some(t), ..self },
            PaymentEvent::Executed(t) => PaymentStatuses { inbound_executed_at: Some(t), ..self },
            PaymentEvent::Settled(t) => PaymentStatuses { inbound_settled_at: Some(t), ..self },
            PaymentEvent::Failed(t) => PaymentStatuses { inbound_failed_at: Some(t), ..self },
        }
    }

    /// Records the time of a reported step, replacing an earlier record of
    /// the same step and leaving the others as they were.
    pub fn record(&mut self, event: PaymentEvent)
        ensures
            *final(self) == old(self).spec_record(event),
    {
        match event {
            PaymentEvent::Authorized(t) => {
                self.inbound_authorized_at = Some(t);
            },
            PaymentEvent::Executed(t) => {
                self.inbound_executed_at = Some(t);
            },
            PaymentEvent::Settled(t) => {
                self.inbound_settled_at = Some(t);
            },
            PaymentEvent::Failed(t) => {
                self.inbound_failed_at = Some(t);
            },
        }
    }
}

/// The inbound steps alone always put a payment in a state of its inbound
/// leg.
pub proof fn lemma_state_is_inbound(s: PaymentStatuses)
    ensures
        s.spec_state().rank() <= PaymentState::InboundFailed.rank(),
{
}

/// A payment is in a state of its inbound leg exactly while it has neither
/// a payout nor a refund; with a payout it is in an outbound state, with a
/// refund and no payout in a refund state.
pub proof fn lemma_payment_state_leg(p: Payment)
    ensures
        (p.spec_state().rank() <= PaymentState::InboundFailed.rank()) <==> (p.payout_data is None
            && p.refund_data is None),
        p.payout_data is Some ==> p.spec_state().rank() >= PaymentState::OutboundCreated.rank(),
        p.payout_data is None && p.refund_data is Some ==> PaymentState::RefundCreated.rank()
            <= p.spec_state().rank() < PaymentState::OutboundCreated.rank(),
{
}

/// Recording a created payout puts the payment in the outbound created
/// state, and reports of the inbound leg afterwards leave it there.
pub proof fn lemma_recorded_payout_state(p: Payment, payout_id: PayoutId, created_at: Timestamp, event: PaymentEvent)
    ensures
        ({
            let q = Payment { payout_data: Some(Payment::spec_created_payout(payout_id, created_at)), ..p };
            &&& q.spec_state() == PaymentState::OutboundCreated
            &&& (Payment { payment_statuses: q.payment_statuses.spec_record(event), ..q }).spec_state()
                == PaymentState::OutboundCreated
        }),
{
}

/// Recording a step never moves a payment back: the new state is the later
/// of the old state and the step's state.
pub proof fn lemma_record_advances_state(s: PaymentStatuses, event: PaymentEvent)
    ensures
        s.spec_record(event).spec_state().rank() == if s.spec_state().rank()
            >= event.spec_state().rank() {
            s.spec_state().rank()
        } else {
            event.spec_state().rank()
        },
{
}

/// A failed payment stays failed whatever is reported later, and reporting
/// a failure fails the payment whatever happened before.
pub proof fn lemma_failure_is_final(s: PaymentStatuses, event: PaymentEvent)
    ensures
        s.spec_state() == PaymentState::InboundFailed ==> s.spec_record(event).spec_state()
            == PaymentState::InboundFailed,
        event is Failed ==> s.spec_record(event).spec_state() == PaymentState::InboundFailed,
{
}

/// Recording the same report twice is the same as recording it once.
pub proof fn lemma_record_idempotent(s: PaymentStatuses, event: PaymentEvent)
    ensures
        s.spec_record(event).spec_record(event) == s.spec_record(event),
{
}

/// Recording a step keeps the creation time and the other steps' times.
pub proof fn lemma_record_keeps_other_steps(s: PaymentStatuses, event: PaymentEvent)
    ensures
        s.spec_record(event).inbound_created_at == s.inbound_created_at,
        !(event is Authorized) ==> s.spec_record(event).inbound_authorized_at
            == s.inbound_authorized_at,
        !(event is Executed) ==> s.spec_record(event).inbound_executed_at == s.inbound_executed_at,
        !(event is Settled) ==> s.spec_record(event).inbound_settled_at == s.inbound_settled_at,
        !(event is Failed) ==> s.spec_record(event).inbound_failed_at == s.inbound_failed_at,
{
}

} // verus!
