use vstd::prelude::*;

verus! {

/// The state of a payment as the gateway's payments table stores it: a
/// small number per state, inbound states from 1, refund states from 20 and
/// outbound states from 40.
#[derive(Debug, Clone, Copy, PartialEq, Eq, Structural)]
pub enum PaymentState {
    InboundCreated,
    InboundAuthorizing,
    InboundAuthorized,
    InboundExecuted,
    InboundSettled,
    InboundFailed,
    RefundCreated,
    RefundAuthorized,
    RefundExecuted,
    RefundFailed,
    OutboundCreated,
    OutboundAuthorized,
    OutboundExecuted,
    OutboundFaild,
}

impl PaymentState {
    /// The number stored for the state.
    pub open spec fn spec_code(self) -> u8 {
        match self {
            PaymentState::InboundCreated => 1,
            PaymentState::InboundAuthorizing => 2,
            PaymentState::InboundAuthorized => 3,
            PaymentState::InboundExecuted => 4,
            PaymentState::InboundSettled => 5,
            PaymentState::InboundFailed => 6,
            PaymentState::RefundCreated => 20,
            PaymentState::RefundAuthorized => 21,
            PaymentState::RefundExecuted => 22,
            PaymentState::RefundFailed => 23,
            PaymentState::OutboundCreated => 40,
            PaymentState::OutboundAuthorized => 41,
            PaymentState::OutboundExecuted => 42,
            PaymentState::OutboundFaild => 43,
        }
    }

    /// The numbers that name a state.
    pub open spec fn is_code(n: u8) -> bool {
        (1 <= n <= 6) || (20 <= n <= 23) || (40 <= n <= 43)
    }

    /// The state a valid number names.
    pub open spec fn spec_from_code(n: u8) -> PaymentState {
        if n == 1 {
            PaymentState::InboundCreated
        } else if n == 2 {
            PaymentState::InboundAuthorizing
        } else if n == 3 {
            PaymentState::InboundAuthorized
        } else if n == 4 {
            PaymentState::InboundExecuted
        } else if n == 5 {
            PaymentState::InboundSettled
        } else if n == 6 {
            PaymentState::InboundFailed
        } else if n == 20 {
            PaymentState::RefundCreated
        } else if n == 21 {
            PaymentState::RefundAuthorized
        } else if n == 22 {
            PaymentState::RefundExecuted
        } else if n == 23 {
            PaymentState::RefundFailed
        } else if n == 40 {
            PaymentState::OutboundCreated
        } else if n == 41 {
            PaymentState::OutboundAuthorized
        } else if n == 42 {
            PaymentState::OutboundExecuted
        } else {
            PaymentState::OutboundFaild
        }
    }

    pub fn code(self) -> (r: u8)
        ensures
            r == self.spec_code(),
    {
        match self {
            PaymentState::InboundCreated => 1,
            PaymentState::InboundAuthorizing => 2,
            PaymentState::InboundAuthorized => 3,
            PaymentState::InboundExecuted => 4,
            PaymentState::InboundSettled => 5,
            PaymentState::InboundFailed => 6,
            PaymentState::RefundCreated => 20,
            PaymentState::RefundAuthorized => 21,
            PaymentState::RefundExecuted => 22,
            PaymentState::RefundFailed => 23,
            PaymentState::OutboundCreated => 40,
            PaymentState::OutboundAuthorized => 41,
            PaymentState::OutboundExecuted => 42,
            PaymentState::OutboundFaild => 43,
        }
    }

    /// Whether a stored number names a state.
    pub fn code_is_valid(n: u8) -> (r: bool)
        ensures
            r == Self::is_code(n),
    {
        (1 <= n && n <= 6) || (20 <= n && n <= 23) || (40 <= n && n <= 43)
    }

    /// The state a stored number names; a number that names none is a
    /// corrupt row, which callers reject before asking.
    pub fn from_code(n: u8) -> (r: PaymentState)
        requires
            Self::is_code(n),
        ensures
            r == Self::spec_from_code(n),
            r.spec_code() == n,
    {
        if n == 1 {
            PaymentState::InboundCreated
        } else if n == 2 {
            PaymentState::InboundAuthorizing
        } else if n == 3 {
            PaymentState::InboundAuthorized
        } else if n == 4 {
            PaymentState::InboundExecuted
        } else if n == 5 {
            PaymentState::InboundSettled
        } else if n == 6 {
            PaymentState::InboundFailed
        } else if n == 20 {
            PaymentState::RefundCreated
        } else if n == 21 {
            PaymentState::RefundAuthorized
        } else if n == 22 {
            PaymentState::RefundExecuted
        } else if n == 23 {
            PaymentState::RefundFailed
        } else if n == 40 {
            PaymentState::OutboundCreated
        } else if n == 41 {
            PaymentState::OutboundAuthorized
        } else if n == 42 {
            PaymentState::OutboundExecuted
        } else {
            PaymentState::OutboundFaild
        }
    }
}

/// Every state is stored as a valid number and read back as itself.
pub proof fn lemma_code_round_trip(s: PaymentState)
    ensures
        PaymentState::is_code(s.spec_code()),
        PaymentState::spec_from_code(s.spec_code()) == s,
{
}

/// Every valid stored number is the number of the state it reads as, so no
/// two states share a number.
pub proof fn lemma_from_code_round_trip(n: u8)
    requires
        PaymentState::is_code(n),
    ensures
        PaymentState::spec_from_code(n).spec_code() == n,
{
}

/// Where the database is and how to log in to it.
#[derive(Debug, Clone)]
pub struct DbConfig {
    pub name: String,
    pub host: String,
    pub port: u16,
    pub username: String,
    pub password: String,
}

/// A payment row of the gateway's payments table.
#[derive(Debug, Clone)]
pub struct CreatePayment {
    pub payment_id: u128,
    pub payer_full_name: String,
    pub payer_email: String,
    pub payee_full_name: String,
    pub payee_email: String,
    pub amount: u32,
    pub security_question: String,
    pub security_answer: String,
    pub state: PaymentState,
}

/// A user row of the gateway's users table.
#[derive(Debug, Clone)]
pub struct User {
    pub user_id: u128,
    pub first_name: String,
    pub last_name: String,
    pub email: String,
    pub primary_account_id: Option<u128>,
}

} // verus!
