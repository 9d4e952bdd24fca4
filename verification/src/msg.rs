//! The requests the proxy accepts, the outbound calls it emits, and the
//! response shape every handler returns to the host.

use vstd::prelude::*;

verus! {

/// The continuation identifier registered for a withdrawal confirmation.
pub const WITHDRAW_REPLY_ID: u64 = 1;

/// The continuation identifier registered for a membership-proposal
/// confirmation.
pub const PROPOSE_MEMBER_REPLY_ID: u64 = 2;

/// The data instantiation receives.
#[derive(Debug, Clone, PartialEq, Eq)]
pub struct InstantiateMsg {
    pub owner: String,
    pub denom: String,
    /// The direct-share fraction, in atomic units out of
    /// [`crate::fraction::FRACTION_ONE`].
    pub direct_part: u128,
    pub distribution_contract: String,
    pub membership_contract: String,
    pub weight: u64,
    pub halftime: u64,
}

/// The state-mutating requests.
#[derive(Debug, Clone, PartialEq, Eq)]
pub enum ExecMsg {
    /// Split the attached payment and forward the pooled share.
    Donate,
    /// Owner-only: stage a withdrawal and ask the distribution ledger to
    /// release funds.
    Withdraw { receiver: Option<String>, amount: Option<u128> },
    /// Owner-only: close the proxy to further donations.
    Close,
    /// Owner-only: propose a candidate to the membership registry.
    ProposeMember { addr: String },
    /// Anyone: halve the weight once the halftime window has elapsed.
    UpdateWeight,
}

/// An outbound call to a collaborator.
#[derive(Debug, Clone, PartialEq, Eq)]
pub enum OutMsg {
    /// Ask the distribution ledger to distribute the attached funds.
    Distribute { contract: String, denom: String, amount: u128 },
    /// Ask the distribution ledger to adjust a share by `diff` against the
    /// recorded `weight`.
    DistributionWithdraw { contract: String, weight: u64, diff: i64 },
    /// Propose `addr` to the membership registry.
    ProposeMember { contract: String, addr: String },
    /// Transfer funds held by the proxy to `receiver`.
    Pay { receiver: String, denom: String, amount: u128 },
}

/// An outbound call together with the continuation registered for it:
/// `None` is fire-and-forget, `Some(id)` asks the host to run the reply
/// continuation `id` if and only if the call succeeds.
#[derive(Debug, Clone, PartialEq, Eq)]
pub struct SubCall {
    pub msg: OutMsg,
    pub reply_on_success: Option<u64>,
}

/// The value of one observability attribute.
#[derive(Debug, Clone, PartialEq, Eq)]
pub enum AttrValue {
    Text(String),
    Uint(u128),
    Flag(bool),
}

/// One observability attribute, for audit and logging collaborators.
#[derive(Debug, Clone, PartialEq, Eq)]
pub struct Attribute {
    pub key: String,
    pub value: AttrValue,
}

/// What a handler hands back to the host: outbound calls to perform and
/// attributes to record. The host commits the state, the calls and the reply
/// continuations as one atomic unit.
#[derive(Debug, Clone, PartialEq, Eq)]
pub struct Response {
    pub messages: Vec<SubCall>,
    pub attributes: Vec<Attribute>,
}

/// What the host reports back of a sub-call it was asked to watch.
#[derive(Debug, Clone, PartialEq, Eq)]
pub enum ReplyResult {
    Success,
    Failure,
}

/// `c` distributes `amount` of `denom` to the ledger at `contract`,
/// fire-and-forget.
pub open spec fn is_distribute(
    c: SubCall,
    contract: Seq<char>,
    denom: Seq<char>,
    amount: int,
) -> bool {
    &&& c.msg matches OutMsg::Distribute { contract: ct, denom: d, amount: a }
        && ct@ == contract && d@ == denom && a == amount
    &&& c.reply_on_success is None
}

/// `c` carries `(weight, diff)` to the ledger at `contract`, with the given
/// continuation registration.
pub open spec fn is_distribution_withdraw(
    c: SubCall,
    contract: Seq<char>,
    weight: u64,
    diff: int,
    reply: Option<u64>,
) -> bool {
    &&& c.msg matches OutMsg::DistributionWithdraw { contract: ct, weight: w, diff: df }
        && ct@ == contract && w == weight && df == diff
    &&& c.reply_on_success == reply
}

/// `c` proposes `addr` to the registry at `contract`, with the given
/// continuation registration.
pub open spec fn is_propose_member(
    c: SubCall,
    contract: Seq<char>,
    addr: Seq<char>,
    reply: Option<u64>,
) -> bool {
    &&& c.msg matches OutMsg::ProposeMember { contract: ct, addr: a } && ct@ == contract
        && a@ == addr
    &&& c.reply_on_success == reply
}

/// `c` transfers `amount` of `denom` to `receiver`, fire-and-forget.
pub open spec fn is_pay(c: SubCall, receiver: Seq<char>, denom: Seq<char>, amount: u128) -> bool {
    &&& c.msg matches OutMsg::Pay { receiver: rc, denom: d, amount: a } && rc@ == receiver
        && d@ == denom && a == amount
    &&& c.reply_on_success is None
}

/// `a` is the text attribute `key: value`.
pub open spec fn attr_text(a: Attribute, key: Seq<char>, value: Seq<char>) -> bool {
    &&& a.key@ == key
    &&& a.value matches AttrValue::Text(t) && t@ == value
}

/// `a` is the integer attribute `key: value`.
pub open spec fn attr_uint(a: Attribute, key: Seq<char>, value: int) -> bool {
    &&& a.key@ == key
    &&& a.value matches AttrValue::Uint(u) && u == value
}

/// `a` is the yes/no attribute `key: value`.
pub open spec fn attr_flag(a: Attribute, key: Seq<char>, value: bool) -> bool {
    &&& a.key@ == key
    &&& a.value matches AttrValue::Flag(f) && f == value
}

} // verus!
