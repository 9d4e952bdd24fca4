use proxy::contract::{execute, instantiate, query, reply};
use proxy::error::{ContractError, PaymentFault};
use proxy::fraction::FRACTION_ONE;
use proxy::msg::{
    AttrValue, ExecMsg, InstantiateMsg, OutMsg, ReplyResult, PROPOSE_MEMBER_REPLY_ID,
    WITHDRAW_REPLY_ID,
};
use proxy::payment::Coin;
use proxy::state::ProxyState;

const PERCENT: u128 = FRACTION_ONE / 100;

fn base_msg() -> InstantiateMsg {
    InstantiateMsg {
        owner: "alice".to_string(),
        denom: "X".to_string(),
        direct_part: 30 * PERCENT,
        distribution_contract: "dist".to_string(),
        membership_contract: "memb".to_string(),
        weight: 5,
        halftime: 100,
    }
}

fn base_state() -> ProxyState {
    instantiate(base_msg(), 1000).unwrap()
}

fn coins(amount: u128, denom: &str) -> Vec<Coin> {
    vec![Coin { denom: denom.to_string(), amount }]
}

#[test]
fn instantiate_rejects_fraction_above_one() {
    let msg = InstantiateMsg { direct_part: FRACTION_ONE + 1, ..base_msg() };
    assert_eq!(instantiate(msg, 1000), Err(ContractError::InvalidConfiguration));
}

#[test]
fn instantiate_accepts_whole_range() {
    for part in [0, 1, 30 * PERCENT, FRACTION_ONE] {
        let msg = InstantiateMsg { direct_part: part, ..base_msg() };
        let state = instantiate(msg, 1000).unwrap();
        assert_eq!(state.config.direct_part, part);
        assert_eq!(state.donations, 0);
        assert_eq!(state.weight, 5);
        assert_eq!(state.last_updated, 1000);
        assert!(!state.config.is_closed);
        assert!(state.pending_withdrawal.is_none());
    }
}

#[test]
fn donate_splits_and_counts() {
    let mut state = base_state();
    let resp = execute(&mut state, 1000, &"bob".to_string(), &coins(1000, "X"), ExecMsg::Donate)
        .unwrap();
    assert_eq!(state.donations, 1);
    // 30% of 1000 stays with the beneficiary; 700 X is distributed.
    assert_eq!(resp.messages.len(), 1);
    assert_eq!(
        resp.messages[0].msg,
        OutMsg::Distribute {
            contract: "dist".to_string(),
            denom: "X".to_string(),
            amount: 700,
        }
    );
    assert_eq!(resp.messages[0].reply_on_success, None);
    assert_eq!(resp.attributes[0].key, "action");
    assert_eq!(resp.attributes[0].value, AttrValue::Text("donate".to_string()));
    assert_eq!(resp.attributes[1].value, AttrValue::Text("bob".to_string()));
    assert_eq!(resp.attributes[2].value, AttrValue::Uint(1000));

    // A second donation increments the counter to 2.
    execute(&mut state, 1001, &"carol".to_string(), &coins(40, "X"), ExecMsg::Donate).unwrap();
    assert_eq!(state.donations, 2);
}

#[test]
fn donate_rounds_direct_share_down() {
    let mut state = base_state();
    // 30% of 5 is 1.5, rounded down to 1: 4 X is distributed.
    let resp = execute(&mut state, 1000, &"bob".to_string(), &coins(5, "X"), ExecMsg::Donate)
        .unwrap();
    match &resp.messages[0].msg {
        OutMsg::Distribute { amount, .. } => assert_eq!(*amount, 4),
        other => panic!("expected a distribute call, got {other:?}"),
    }
}

#[test]
fn donate_rejects_bad_payments() {
    let mut state = base_state();
    let sender = "bob".to_string();
    let cases: Vec<(Vec<Coin>, PaymentFault)> = vec![
        (vec![], PaymentFault::NoFunds),
        (coins(0, "X"), PaymentFault::NoFunds),
        (coins(10, "Y"), PaymentFault::MissingDenom),
        (
            vec![
                Coin { denom: "X".to_string(), amount: 3 },
                Coin { denom: "Y".to_string(), amount: 4 },
            ],
            PaymentFault::MultipleDenoms,
        ),
    ];
    for (funds, fault) in cases {
        let before = state.clone();
        let r = execute(&mut state, 1000, &sender, &funds, ExecMsg::Donate);
        assert_eq!(r, Err(ContractError::InvalidPayment(fault)));
        assert_eq!(state, before);
    }
}

#[test]
fn withdraw_rejected_for_non_owner() {
    let mut state = base_state();
    state.weight = 5;
    state.donations = 8;
    let before = state.clone();
    let r = execute(
        &mut state,
        2000,
        &"mallory".to_string(),
        &vec![],
        ExecMsg::Withdraw { receiver: None, amount: None },
    );
    assert_eq!(r, Err(ContractError::Unauthorized));
    assert_eq!(state, before);
}

#[test]
fn withdraw_stages_and_reply_pays() {
    let mut state = base_state();
    state.weight = 5;
    state.donations = 8;
    let resp = execute(
        &mut state,
        2000,
        &"alice".to_string(),
        &vec![],
        ExecMsg::Withdraw { receiver: Some("dave".to_string()), amount: None },
    )
    .unwrap();
    assert_eq!(state.weight, 8);
    assert_eq!(state.donations, 1);
    assert_eq!(state.last_updated, 2000);
    let pending = state.pending_withdrawal.clone().unwrap();
    assert_eq!(pending.receiver, "dave");
    assert_eq!(pending.amount, None);
    // The sub-call carries the prior weight and the differential 8 - 5 = 3,
    // watched by the withdrawal continuation.
    assert_eq!(resp.messages.len(), 1);
    assert_eq!(
        resp.messages[0].msg,
        OutMsg::DistributionWithdraw { contract: "dist".to_string(), weight: 5, diff: 3 }
    );
    assert_eq!(resp.messages[0].reply_on_success, Some(WITHDRAW_REPLY_ID));

    // No funds move until the confirmation arrives.
    let resp = reply(&mut state, WITHDRAW_REPLY_ID, ReplyResult::Success, 350).unwrap();
    assert_eq!(
        resp.messages[0].msg,
        OutMsg::Pay { receiver: "dave".to_string(), denom: "X".to_string(), amount: 350 }
    );
    assert!(state.pending_withdrawal.is_none());
}

#[test]
fn withdraw_defaults_to_caller_and_staged_amount() {
    let mut state = base_state();
    state.donations = 2;
    execute(
        &mut state,
        2000,
        &"alice".to_string(),
        &vec![],
        ExecMsg::Withdraw { receiver: None, amount: Some(120) },
    )
    .unwrap();
    let pending = state.pending_withdrawal.clone().unwrap();
    assert_eq!(pending.receiver, "alice");
    assert_eq!(pending.amount, Some(120));
    let resp = reply(&mut state, WITHDRAW_REPLY_ID, ReplyResult::Success, 999).unwrap();
    assert_eq!(
        resp.messages[0].msg,
        OutMsg::Pay { receiver: "alice".to_string(), denom: "X".to_string(), amount: 120 }
    );
}

#[test]
fn failed_withdraw_reply_keeps_pending_record() {
    let mut state = base_state();
    execute(
        &mut state,
        2000,
        &"alice".to_string(),
        &vec![],
        ExecMsg::Withdraw { receiver: None, amount: None },
    )
    .unwrap();
    let before = state.clone();
    let r = reply(&mut state, WITHDRAW_REPLY_ID, ReplyResult::Failure, 500);
    assert_eq!(r, Err(ContractError::DownstreamFailure));
    assert_eq!(state, before);
    assert!(state.pending_withdrawal.is_some());
}

#[test]
fn replayed_withdraw_reply_fails() {
    let mut state = base_state();
    execute(
        &mut state,
        2000,
        &"alice".to_string(),
        &vec![],
        ExecMsg::Withdraw { receiver: None, amount: None },
    )
    .unwrap();
    reply(&mut state, WITHDRAW_REPLY_ID, ReplyResult::Success, 500).unwrap();
    let before = state.clone();
    let r = reply(&mut state, WITHDRAW_REPLY_ID, ReplyResult::Success, 500);
    assert_eq!(r, Err(ContractError::MissingPendingState));
    assert_eq!(state, before);
}

#[test]
fn unrecognized_reply_id_is_rejected() {
    let mut state = base_state();
    let r = reply(&mut state, 7, ReplyResult::Success, 0);
    assert_eq!(r, Err(ContractError::UnrecognizedReplyId(7)));
}

#[test]
fn close_twice_succeeds_and_stays_closed() {
    let mut state = base_state();
    let owner = "alice".to_string();
    execute(&mut state, 1000, &owner, &vec![], ExecMsg::Close).unwrap();
    assert!(state.config.is_closed);
    let resp = execute(&mut state, 1001, &owner, &vec![], ExecMsg::Close).unwrap();
    assert!(state.config.is_closed);
    assert!(resp.messages.is_empty());
    assert_eq!(resp.attributes[0].value, AttrValue::Text("close".to_string()));
}

#[test]
fn close_rejected_for_non_owner() {
    let mut state = base_state();
    let r = execute(&mut state, 1000, &"mallory".to_string(), &vec![], ExecMsg::Close);
    assert_eq!(r, Err(ContractError::Unauthorized));
    assert!(!state.config.is_closed);
}

#[test]
fn propose_member_emits_watched_sub_call() {
    let mut state = base_state();
    let before = state.clone();
    let resp = execute(
        &mut state,
        1000,
        &"alice".to_string(),
        &vec![],
        ExecMsg::ProposeMember { addr: "erin".to_string() },
    )
    .unwrap();
    assert_eq!(state, before);
    assert_eq!(
        resp.messages[0].msg,
        OutMsg::ProposeMember { contract: "memb".to_string(), addr: "erin".to_string() }
    );
    assert_eq!(resp.messages[0].reply_on_success, Some(PROPOSE_MEMBER_REPLY_ID));
    assert_eq!(resp.attributes[2].value, AttrValue::Text("erin".to_string()));

    // The continuation only acknowledges success and surfaces failure.
    assert!(reply(&mut state, PROPOSE_MEMBER_REPLY_ID, ReplyResult::Success, 0).is_ok());
    assert_eq!(
        reply(&mut state, PROPOSE_MEMBER_REPLY_ID, ReplyResult::Failure, 0),
        Err(ContractError::DownstreamFailure)
    );
    assert_eq!(state, before);
}

#[test]
fn propose_member_rejected_for_non_owner() {
    let mut state = base_state();
    let r = execute(
        &mut state,
        1000,
        &"mallory".to_string(),
        &vec![],
        ExecMsg::ProposeMember { addr: "erin".to_string() },
    );
    assert_eq!(r, Err(ContractError::Unauthorized));
}

#[test]
fn update_weight_is_gated_by_halftime() {
    let mut state = base_state();
    state.weight = 10;
    let before = state.clone();
    // 99 seconds elapsed, halftime 100: nothing happens.
    let resp = execute(&mut state, 1099, &"bob".to_string(), &vec![], ExecMsg::UpdateWeight)
        .unwrap();
    assert_eq!(state, before);
    assert!(resp.messages.is_empty());
    assert_eq!(resp.attributes[2].key, "performed");
    assert_eq!(resp.attributes[2].value, AttrValue::Flag(false));
}

#[test]
fn update_weight_halves_once_due() {
    let mut state = base_state();
    state.weight = 10;
    let resp = execute(&mut state, 1100, &"bob".to_string(), &vec![], ExecMsg::UpdateWeight)
        .unwrap();
    assert_eq!(state.weight, 5);
    // The update time is left where the last withdrawal put it.
    assert_eq!(state.last_updated, 1000);
    assert_eq!(
        resp.messages[0].msg,
        OutMsg::DistributionWithdraw { contract: "dist".to_string(), weight: 10, diff: -5 }
    );
    assert_eq!(resp.messages[0].reply_on_success, None);
    assert_eq!(resp.attributes[2].value, AttrValue::Flag(true));
    assert_eq!(resp.attributes[3].key, "new weight");
    assert_eq!(resp.attributes[3].value, AttrValue::Uint(5));
}

#[test]
fn update_weight_keeps_larger_half_of_odd_weight() {
    let mut state = base_state();
    state.weight = 11;
    let resp = execute(&mut state, 1100, &"bob".to_string(), &vec![], ExecMsg::UpdateWeight)
        .unwrap();
    assert_eq!(state.weight, 6);
    assert_eq!(
        resp.messages[0].msg,
        OutMsg::DistributionWithdraw { contract: "dist".to_string(), weight: 11, diff: -5 }
    );
}

#[test]
fn query_answers_empty() {
    let state = base_state();
    assert!(query(&state).is_empty());
}
