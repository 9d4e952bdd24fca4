//! The errors a request can be rejected with. Every error aborts the whole
//! request; nothing partially commits.

use vstd::prelude::*;

verus! {

/// Why an attached payment was rejected.
#[derive(Debug, Clone, PartialEq, Eq)]
pub enum PaymentFault {
    /// No coin was attached, or the attached coin's amount is zero.
    NoFunds,
    /// More than one coin was attached.
    MultipleDenoms,
    /// Exactly one nonzero coin was attached, but of the wrong denomination.
    MissingDenom,
}

/// The error taxonomy of the proxy.
#[derive(Debug, Clone, PartialEq, Eq)]
pub enum ContractError {
    /// A privileged operation was called by someone other than the owner.
    Unauthorized,
    /// The direct-share fraction lies outside `[0, 1]` at instantiation.
    InvalidConfiguration,
    /// The payment attached to a donation is absent, zero, or in the wrong
    /// denomination.
    InvalidPayment(PaymentFault),
    /// A reply arrived with an identifier the state machine does not expect.
    UnrecognizedReplyId(u64),
    /// A sub-call's result reports failure.
    DownstreamFailure,
    /// A reply continuation fired but found no staged record.
    MissingPendingState,
}

} // verus!
