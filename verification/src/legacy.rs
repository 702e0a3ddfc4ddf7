use vstd::prelude::*;

verus! {

/// The state of a payment as the first layout of the payments table stored
/// it, before the state was derived from the times of its steps.
#[derive(Debug, Clone, Copy, PartialEq, Eq, Structural)]
pub enum PaymentState {
    InboundCreated,
    InboundAuthorizing,
    InboundAuthorized,
    InboundExecuted,
    InboundSettled,
    InboundFailed,
    RefundCreated,
    RefundAuthorized,
    RefundExecuted,
    RefundFailed,
    OutboundCreated,
    OutboundAuthorized,
    OutboundExecuted,
    OutboundFaild,
}

} // verus!
