//! The five state-mutating handlers. Each is specified against the spec-level
//! transitions of [`crate::state`] and the message predicates of
//! [`crate::msg`].

use vstd::prelude::*;

use crate::error::ContractError;
use crate::fraction::{lemma_scaled_fraction_le, mul_fraction, scaled_fraction};
use crate::msg::{
    attr_flag, attr_text, attr_uint, is_distribute, is_distribution_withdraw, is_propose_member,
    AttrValue, Attribute, OutMsg, Response, SubCall, PROPOSE_MEMBER_REPLY_ID, WITHDRAW_REPLY_ID,
};
use crate::payment;
use crate::payment::{spec_must_pay, Coin};
use crate::state::{
    rebalance_due, spec_close, spec_donate_state, spec_rebalance, spec_withdraw_bookkeeping,
    ProxyState, StateV, WithdrawalData,
};

verus! {

/// What a donation leaves behind. If the attached funds break the payment
/// rule the request fails with `InvalidPayment` naming that rule and the
/// state does not move. Otherwise the donation counter grows by exactly one
/// (whatever the amount), and one fire-and-forget distribute-call carries the
/// pooled share — the amount minus its direct share, rounded up because the
/// direct share rounds down — to the distribution ledger.
pub open spec fn donate_post(
    pre: StateV,
    post: StateV,
    sender: Seq<char>,
    funds: Seq<Coin>,
    r: Result<Response, ContractError>,
) -> bool {
    match spec_must_pay(funds, pre.config.denom) {
        Err(fault) => {
            &&& r matches Err(e) && e == ContractError::InvalidPayment(fault)
            &&& post == pre
        },
        Ok(amount) => {
            &&& post == spec_donate_state(pre)
            &&& r matches Ok(resp) && {
                &&& resp.messages@.len() == 1
                &&& is_distribute(
                    resp.messages@[0],
                    pre.config.distribution_contract,
                    pre.config.denom,
                    amount - scaled_fraction(amount, pre.config.direct_part),
                )
                &&& resp.attributes@.len() == 3
                &&& attr_text(resp.attributes@[0], "action"@, "donate"@)
                &&& attr_text(resp.attributes@[1], "sender"@, sender)
                &&& attr_uint(resp.attributes@[2], "amount"@, amount as int)
            }
        },
    }
}

/// Splits an attached payment between the direct share and the pooled share,
/// forwards the pooled share to the distribution ledger, and counts the
/// donation.
pub fn donate(state: &mut ProxyState, sender: &String, funds: &Vec<Coin>) -> (r: Result<
    Response,
    ContractError,
>)
    requires
        old(state)@.wf(),
        old(state).donations < u64::MAX,
    ensures
        donate_post(old(state)@, final(state)@, sender@, funds@, r),
        final(state)@.wf(),
{
    let amount = match payment::must_pay(funds, &state.config.denom) {
        Ok(a) => a,
        Err(fault) => {
            return Err(ContractError::InvalidPayment(fault));
        },
    };
    proof {
        lemma_scaled_fraction_le(amount, state.config.direct_part);
    }
    let direct_amount = mul_fraction(amount, state.config.direct_part);
    let to_distribute = amount - direct_amount;

    let mut messages: Vec<SubCall> = Vec::new();
    messages.push(
        SubCall {
            msg: OutMsg::Distribute {
                contract: state.config.distribution_contract.clone(),
                denom: state.config.denom.clone(),
                amount: to_distribute,
            },
            reply_on_success: None,
        },
    );

    state.donations = state.donations + 1;

    let mut attributes: Vec<Attribute> = Vec::new();
    attributes.push(Attribute { key: "action".to_owned(), value: AttrValue::Text("donate".to_owned()) });
    attributes.push(Attribute { key: "sender".to_owned(), value: AttrValue::Text(sender.clone()) });
    attributes.push(Attribute { key: "amount".to_owned(), value: AttrValue::Uint(amount) });

    proof {
        assert(state@ =~= spec_donate_state(old(state)@));
    }
    Ok(Response { messages, attributes })
}

/// The receiver a withdrawal resolves to: the explicitly supplied address,
/// or the caller when none was supplied.
pub open spec fn resolved_receiver(receiver: Option<String>, sender: Seq<char>) -> Seq<char> {
    match receiver {
        Some(rc) => rc@,
        None => sender,
    }
}

/// What a withdrawal leaves behind. A caller other than the owner is always
/// rejected with `Unauthorized` and the state does not move. For the owner
/// the bookkeeping of [`spec_withdraw_bookkeeping`] happens, and one sub-call
/// carries the prior weight and the differential `donations - weight` to the
/// distribution ledger, registered to confirm back on success. The attribute
/// named `new weight` reports the weight the sub-call carries, the prior one.
pub open spec fn withdraw_post(
    pre: StateV,
    post: StateV,
    sender: Seq<char>,
    now: u64,
    receiver: Option<String>,
    amount: Option<u128>,
    r: Result<Response, ContractError>,
) -> bool {
    if sender != pre.owner {
        &&& r matches Err(e) && e == ContractError::Unauthorized
        &&& post == pre
    } else {
        &&& post == spec_withdraw_bookkeeping(pre, now, resolved_receiver(receiver, sender), amount)
        &&& r matches Ok(resp) && {
            &&& resp.messages@.len() == 1
            &&& is_distribution_withdraw(
                resp.messages@[0],
                pre.config.distribution_contract,
                pre.weight,
                pre.donations - pre.weight,
                Some(WITHDRAW_REPLY_ID),
            )
            &&& resp.attributes@.len() == 3
            &&& attr_text(resp.attributes@[0], "action"@, "withdraw"@)
            &&& attr_text(resp.attributes@[1], "sender"@, sender)
            &&& attr_uint(resp.attributes@[2], "new weight"@, pre.weight as int)
        }
    }
}

/// Owner-only: stages a pending withdrawal, resets the counters, and asks the
/// distribution ledger to release funds, deferring the actual transfer to the
/// reply continuation. The counter bounds are forced by the differential
/// being carried in a 64-bit signed field.
pub fn withdraw(
    state: &mut ProxyState,
    sender: &String,
    now: u64,
    receiver: Option<String>,
    amount: Option<u128>,
) -> (r: Result<Response, ContractError>)
    requires
        old(state)@.wf(),
        sender@ == old(state).owner@ ==> old(state).donations <= i64::MAX as u64
            && old(state).weight <= i64::MAX as u64,
    ensures
        withdraw_post(old(state)@, final(state)@, sender@, now, receiver, amount, r),
        final(state)@.wf(),
{
    if !(state.owner == *sender) {
        return Err(ContractError::Unauthorized);
    }

    let weight = state.weight;
    let donations = state.donations;
    let diff = donations as i64 - weight as i64;

    state.weight = donations;
    state.donations = 1;
    state.last_updated = now;

    let receiver_addr = match receiver {
        Some(rc) => rc,
        None => sender.clone(),
    };
    state.pending_withdrawal = Some(WithdrawalData { receiver: receiver_addr, amount });

    let mut messages: Vec<SubCall> = Vec::new();
    messages.push(
        SubCall {
            msg: OutMsg::DistributionWithdraw {
                contract: state.config.distribution_contract.clone(),
                weight,
                diff,
            },
            reply_on_success: Some(WITHDRAW_REPLY_ID),
        },
    );

    let mut attributes: Vec<Attribute> = Vec::new();
    attributes.push(Attribute { key: "action".to_owned(), value: AttrValue::Text("withdraw".to_owned()) });
    attributes.push(Attribute { key: "sender".to_owned(), value: AttrValue::Text(sender.clone()) });
    attributes.push(Attribute { key: "new weight".to_owned(), value: AttrValue::Uint(weight as u128) });

    proof {
        assert(state@ =~= spec_withdraw_bookkeeping(
            old(state)@,
            now,
            resolved_receiver(receiver, sender@),
            amount,
        ));
    }
    Ok(Response { messages, attributes })
}

/// What a closure leaves behind: `Unauthorized` without movement for anyone
/// but the owner; for the owner the closed flag is set — already-closed
/// instances close again without complaint — and nothing else moves.
pub open spec fn close_post(
    pre: StateV,
    post: StateV,
    sender: Seq<char>,
    r: Result<Response, ContractError>,
) -> bool {
    if sender != pre.owner {
        &&& r matches Err(e) && e == ContractError::Unauthorized
        &&& post == pre
    } else {
        &&& post == spec_close(pre)
        &&& r matches Ok(resp) && {
            &&& resp.messages@.len() == 0
            &&& resp.attributes@.len() == 1
            &&& attr_text(resp.attributes@[0], "action"@, "close"@)
        }
    }
}

/// Owner-only: marks the proxy closed to further donations. No outbound
/// calls.
pub fn close(state: &mut ProxyState, sender: &String) -> (r: Result<Response, ContractError>)
    requires
        old(state)@.wf(),
    ensures
        close_post(old(state)@, final(state)@, sender@, r),
        final(state)@.wf(),
{
    if !(state.owner == *sender) {
        return Err(ContractError::Unauthorized);
    }
    state.config.is_closed = true;

    let mut attributes: Vec<Attribute> = Vec::new();
    attributes.push(Attribute { key: "action".to_owned(), value: AttrValue::Text("close".to_owned()) });

    proof {
        assert(state@ =~= spec_close(old(state)@));
    }
    Ok(Response { messages: Vec::new(), attributes })
}

/// What a membership proposal leaves behind: `Unauthorized` for anyone but
/// the owner; for the owner no durable change at all, and one sub-call
/// proposing the candidate to the membership registry, registered to confirm
/// back on success under its own continuation identifier.
pub open spec fn propose_member_post(
    pre: StateV,
    post: StateV,
    sender: Seq<char>,
    addr: Seq<char>,
    r: Result<Response, ContractError>,
) -> bool {
    &&& post == pre
    &&& if sender != pre.owner {
        r matches Err(e) && e == ContractError::Unauthorized
    } else {
        r matches Ok(resp) && {
            &&& resp.messages@.len() == 1
            &&& is_propose_member(
                resp.messages@[0],
                pre.config.membership_contract,
                addr,
                Some(PROPOSE_MEMBER_REPLY_ID),
            )
            &&& resp.attributes@.len() == 3
            &&& attr_text(resp.attributes@[0], "action"@, "propose member"@)
            &&& attr_text(resp.attributes@[1], "sender"@, sender)
            &&& attr_text(resp.attributes@[2], "new member"@, addr)
        }
    }
}

/// Owner-only: proposes a candidate to the membership registry. The only
/// effect is the outbound sub-call.
pub fn propose_member(state: &ProxyState, sender: &String, addr: String) -> (r: Result<
    Response,
    ContractError,
>)
    ensures
        propose_member_post(state@, state@, sender@, addr@, r),
{
    if !(state.owner == *sender) {
        return Err(ContractError::Unauthorized);
    }

    let mut messages: Vec<SubCall> = Vec::new();
    messages.push(
        SubCall {
            msg: OutMsg::ProposeMember {
                contract: state.config.membership_contract.clone(),
                addr: addr.clone(),
            },
            reply_on_success: Some(PROPOSE_MEMBER_REPLY_ID),
        },
    );

    let mut attributes: Vec<Attribute> = Vec::new();
    attributes.push(Attribute { key: "action".to_owned(), value: AttrValue::Text("propose member".to_owned()) });
    attributes.push(Attribute { key: "sender".to_owned(), value: AttrValue::Text(sender.clone()) });
    attributes.push(Attribute { key: "new member".to_owned(), value: AttrValue::Text(addr) });

    Ok(Response { messages, attributes })
}

/// What a rebalance leaves behind. It always succeeds, for any caller.
/// Before the halftime window has fully elapsed nothing moves and the
/// attributes report `performed: no`. Once it has, the weight is halved
/// (keeping the larger half when it is odd), one fire-and-forget sub-call
/// carries the prior weight and the negative differential `-(weight / 2)` to
/// the distribution ledger, and the attributes report `performed: yes` and
/// the new weight. The update time is not touched on either path.
pub open spec fn update_weight_post(
    pre: StateV,
    post: StateV,
    sender: Seq<char>,
    now: u64,
    r: Result<Response, ContractError>,
) -> bool {
    &&& r matches Ok(resp) && if !rebalance_due(pre, now) {
        &&& post == pre
        &&& resp.messages@.len() == 0
        &&& resp.attributes@.len() == 3
        &&& attr_text(resp.attributes@[0], "action"@, "update_weight"@)
        &&& attr_text(resp.attributes@[1], "sender"@, sender)
        &&& attr_flag(resp.attributes@[2], "performed"@, false)
    } else {
        &&& post == spec_rebalance(pre)
        &&& resp.messages@.len() == 1
        &&& is_distribution_withdraw(
            resp.messages@[0],
            pre.config.distribution_contract,
            pre.weight,
            -((pre.weight / 2) as int),
            None,
        )
        &&& resp.attributes@.len() == 4
        &&& attr_text(resp.attributes@[0], "action"@, "update_weight"@)
        &&& attr_text(resp.attributes@[1], "sender"@, sender)
        &&& attr_flag(resp.attributes@[2], "performed"@, true)
        &&& attr_uint(resp.attributes@[3], "new weight"@, post.weight as int)
    }
}

/// A public maintenance operation, deliberately unguarded: once the halftime
/// window has elapsed since the last update, halves the weight and asks the
/// distribution ledger to release the halved share, mutating the local weight
/// immediately rather than waiting for a confirmation. The clock never runs
/// backwards past the last update, which the host guarantees.
pub fn update_weight(state: &mut ProxyState, now: u64, sender: &String) -> (r: Result<
    Response,
    ContractError,
>)
    requires
        old(state)@.wf(),
        now >= old(state).last_updated,
    ensures
        update_weight_post(old(state)@, final(state)@, sender@, now, r),
        final(state)@.wf(),
{
    let elapsed_time = now - state.last_updated;

    let mut attributes: Vec<Attribute> = Vec::new();
    attributes.push(Attribute { key: "action".to_owned(), value: AttrValue::Text("update_weight".to_owned()) });
    attributes.push(Attribute { key: "sender".to_owned(), value: AttrValue::Text(sender.clone()) });

    if state.halftime > elapsed_time {
        attributes.push(Attribute { key: "performed".to_owned(), value: AttrValue::Flag(false) });
        return Ok(Response { messages: Vec::new(), attributes });
    }

    attributes.push(Attribute { key: "performed".to_owned(), value: AttrValue::Flag(true) });

    let weight = state.weight;
    let half = weight / 2;
    let diff = -(half as i64);

    let mut messages: Vec<SubCall> = Vec::new();
    messages.push(
        SubCall {
            msg: OutMsg::DistributionWithdraw {
                contract: state.config.distribution_contract.clone(),
                weight,
                diff,
            },
            reply_on_success: None,
        },
    );

    state.weight = weight - half;
    attributes.push(Attribute { key: "new weight".to_owned(), value: AttrValue::Uint(state.weight as u128) });

    proof {
        assert(state@ =~= spec_rebalance(old(state)@));
    }
    Ok(Response { messages, attributes })
}

} // verus!
