//! The entry points of the proxy: instantiation, request dispatch, reply
//! dispatch, and the (empty) query interface.

pub mod exec;
pub mod reply;

use vstd::prelude::*;

use crate::error::ContractError;
use crate::fraction::FRACTION_ONE;
use crate::msg::{
    ExecMsg, InstantiateMsg, ReplyResult, Response, PROPOSE_MEMBER_REPLY_ID, WITHDRAW_REPLY_ID,
};
use crate::payment::Coin;
use crate::state::{Config, ConfigV, ProxyState, StateV};

verus! {

/// Creates a proxy instance. Rejects a direct-share fraction above one with
/// `InvalidConfiguration` (below zero is unrepresentable); otherwise every
/// field is taken from the message, the donation counter starts at zero, the
/// proxy starts open, the update time starts at `now`, and no withdrawal is
/// pending.
pub fn instantiate(msg: InstantiateMsg, now: u64) -> (r: Result<ProxyState, ContractError>)
    ensures
        msg.direct_part > FRACTION_ONE <==> r is Err,
        r matches Err(e) ==> e == ContractError::InvalidConfiguration,
        r matches Ok(s) ==> s@ == (StateV {
            owner: msg.owner@,
            config: ConfigV {
                denom: msg.denom@,
                direct_part: msg.direct_part,
                distribution_contract: msg.distribution_contract@,
                membership_contract: msg.membership_contract@,
                is_closed: false,
            },
            weight: msg.weight,
            donations: 0,
            halftime: msg.halftime,
            last_updated: now,
            pending_withdrawal: None,
        }),
        r matches Ok(s) ==> s@.wf(),
{
    if msg.direct_part > FRACTION_ONE {
        return Err(ContractError::InvalidConfiguration);
    }
    let state = ProxyState {
        owner: msg.owner,
        config: Config {
            denom: msg.denom,
            direct_part: msg.direct_part,
            distribution_contract: msg.distribution_contract,
            membership_contract: msg.membership_contract,
            is_closed: false,
        },
        weight: msg.weight,
        donations: 0,
        halftime: msg.halftime,
        last_updated: now,
        pending_withdrawal: None,
    };
    Ok(state)
}

/// Routes a state-mutating request, arriving at time `now` from `sender` with
/// `funds` attached, to its handler. The preconditions are those of the
/// handlers: counters small enough for the 64-bit differential arithmetic,
/// and a clock that has not run backwards past the last update.
pub fn execute(
    state: &mut ProxyState,
    now: u64,
    sender: &String,
    funds: &Vec<Coin>,
    msg: ExecMsg,
) -> (r: Result<Response, ContractError>)
    requires
        old(state)@.wf(),
        msg is Donate ==> old(state).donations < u64::MAX,
        msg is Withdraw && sender@ == old(state).owner@ ==> old(state).donations <= i64::MAX as u64
            && old(state).weight <= i64::MAX as u64,
        msg is UpdateWeight ==> now >= old(state).last_updated,
    ensures
        final(state)@.wf(),
        (match msg {
            ExecMsg::Donate => exec::donate_post(old(state)@, final(state)@, sender@, funds@, r),
            ExecMsg::Withdraw { receiver, amount } => exec::withdraw_post(
                old(state)@,
                final(state)@,
                sender@,
                now,
                receiver,
                amount,
                r,
            ),
            ExecMsg::Close => exec::close_post(old(state)@, final(state)@, sender@, r),
            ExecMsg::ProposeMember { addr } => exec::propose_member_post(
                old(state)@,
                final(state)@,
                sender@,
                addr@,
                r,
            ),
            ExecMsg::UpdateWeight => exec::update_weight_post(
                old(state)@,
                final(state)@,
                sender@,
                now,
                r,
            ),
        }),
{
    match msg {
        ExecMsg::Donate => exec::donate(state, sender, funds),
        ExecMsg::Withdraw { receiver, amount } => exec::withdraw(state, sender, now, receiver, amount),
        ExecMsg::Close => exec::close(state, sender),
        ExecMsg::ProposeMember { addr } => exec::propose_member(state, sender, addr),
        ExecMsg::UpdateWeight => exec::update_weight(state, now, sender),
    }
}

/// What the reply router leaves behind. The withdrawal identifier routes a
/// success to the completion continuation; a failure is surfaced as
/// `DownstreamFailure` with the pending record left intact for inspection and
/// no transfer made. The proposal identifier touches no durable state either
/// way. Any other identifier is a protocol violation.
pub open spec fn reply_post(
    pre: StateV,
    post: StateV,
    id: u64,
    result: ReplyResult,
    balance: u128,
    r: Result<Response, ContractError>,
) -> bool {
    if id == WITHDRAW_REPLY_ID {
        match result {
            ReplyResult::Failure => {
                &&& r matches Err(e) && e == ContractError::DownstreamFailure
                &&& post == pre
            },
            ReplyResult::Success => reply::withdraw_reply_post(pre, post, balance, r),
        }
    } else if id == PROPOSE_MEMBER_REPLY_ID {
        &&& post == pre
        &&& reply::propose_member_reply_post(result, r)
    } else {
        &&& r matches Err(e) && e == ContractError::UnrecognizedReplyId(id)
        &&& post == pre
    }
}

/// Routes a reply from a watched sub-call to its continuation. `balance` is
/// the proxy's current holding of the configured denomination, read by the
/// host for the withdrawal completion.
pub fn reply(state: &mut ProxyState, id: u64, result: ReplyResult, balance: u128) -> (r: Result<
    Response,
    ContractError,
>)
    ensures
        reply_post(old(state)@, final(state)@, id, result, balance, r),
{
    if id == WITHDRAW_REPLY_ID {
        match result {
            ReplyResult::Failure => Err(ContractError::DownstreamFailure),
            ReplyResult::Success => reply::withdraw(state, balance),
        }
    } else if id == PROPOSE_MEMBER_REPLY_ID {
        reply::propose_member(result)
    } else {
        Err(ContractError::UnrecognizedReplyId(id))
    }
}

/// The query interface of this core is empty: every query is answered with
/// empty bytes.
pub fn query(state: &ProxyState) -> (r: Vec<u8>)
    ensures
        r@ == Seq::<u8>::empty(),
{
    Vec::new()
}

} // verus!
