//! The reply continuations: the second halves of the two-phase withdrawal
//! and membership-proposal workflows. Each runs in a later invocation, when
//! the host reports the watched sub-call's outcome.

use vstd::prelude::*;

use crate::error::ContractError;
use crate::msg::{is_pay, OutMsg, ReplyResult, Response, SubCall};
use crate::state::{spec_complete_withdrawal, ProxyState, StateV};

verus! {

/// The amount a confirmed withdrawal pays out: the staged amount when one was
/// requested, otherwise the whole balance the downstream call released.
pub open spec fn spec_payout(staged: Option<u128>, balance: u128) -> u128 {
    match staged {
        Some(a) => a,
        None => balance,
    }
}

/// What a withdrawal confirmation leaves behind. Without a staged record it
/// fails with `MissingPendingState` and nothing moves — in particular a
/// replayed confirmation cannot pay twice. With one, the staged record is
/// consumed and one fire-and-forget transfer pays the staged receiver.
pub open spec fn withdraw_reply_post(
    pre: StateV,
    post: StateV,
    balance: u128,
    r: Result<Response, ContractError>,
) -> bool {
    match pre.pending_withdrawal {
        None => {
            &&& r matches Err(e) && e == ContractError::MissingPendingState
            &&& post == pre
        },
        Some(p) => {
            &&& post == spec_complete_withdrawal(pre)
            &&& r matches Ok(resp) && {
                &&& resp.messages@.len() == 1
                &&& is_pay(resp.messages@[0], p.receiver, pre.config.denom, spec_payout(p.amount, balance))
                &&& resp.attributes@.len() == 0
            }
        },
    }
}

/// Completes a confirmed withdrawal: pays the staged receiver and clears the
/// single-slot pending record. `balance` is the proxy's current holding of
/// the configured denomination, which the host reads for us; it is paid out
/// in full when no explicit amount was staged.
pub fn withdraw(state: &mut ProxyState, balance: u128) -> (r: Result<Response, ContractError>)
    ensures
        withdraw_reply_post(old(state)@, final(state)@, balance, r),
{
    let pending = match state.pending_withdrawal.take() {
        Some(p) => p,
        None => {
            return Err(ContractError::MissingPendingState);
        },
    };
    let amount = match pending.amount {
        Some(a) => a,
        None => balance,
    };

    let mut messages: Vec<SubCall> = Vec::new();
    messages.push(
        SubCall {
            msg: OutMsg::Pay {
                receiver: pending.receiver,
                denom: state.config.denom.clone(),
                amount,
            },
            reply_on_success: None,
        },
    );

    proof {
        assert(state@ =~= spec_complete_withdrawal(old(state)@));
    }
    Ok(Response { messages, attributes: Vec::new() })
}

/// What a membership-proposal reply leaves behind: nothing but a success
/// acknowledgement. A downstream failure is surfaced as `DownstreamFailure`;
/// a success performs no further effect (a hook point for future extension).
pub open spec fn propose_member_reply_post(
    result: ReplyResult,
    r: Result<Response, ContractError>,
) -> bool {
    match result {
        ReplyResult::Failure => r matches Err(e) && e == ContractError::DownstreamFailure,
        ReplyResult::Success => r matches Ok(resp) && resp.messages@.len() == 0
            && resp.attributes@.len() == 0,
    }
}

/// Completes a membership proposal: validates that the downstream call
/// succeeded and acknowledges it without touching durable state.
pub fn propose_member(result: ReplyResult) -> (r: Result<Response, ContractError>)
    ensures
        propose_member_reply_post(result, r),
{
    match result {
        ReplyResult::Failure => Err(ContractError::DownstreamFailure),
        ReplyResult::Success => Ok(Response { messages: Vec::new(), attributes: Vec::new() }),
    }
}

} // verus!
