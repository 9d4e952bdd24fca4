//! The durable state of one proxy instance, its mathematical view, and the
//! spec-level transitions the handlers are proved against.

use vstd::prelude::*;

use crate::fraction::FRACTION_ONE;

verus! {

/// The immutable configuration, plus the one flag that flips when the proxy
/// is closed to further donations.
#[derive(Debug, Clone, PartialEq, Eq)]
pub struct Config {
    /// The denomination donations must be paid in.
    pub denom: String,
    /// The direct-share fraction, in atomic units out of [`FRACTION_ONE`].
    pub direct_part: u128,
    /// The address of the downstream distribution ledger.
    pub distribution_contract: String,
    /// The address of the downstream membership registry.
    pub membership_contract: String,
    /// Whether the proxy has been closed to further donations.
    pub is_closed: bool,
}

/// The staged record of a withdrawal that has been issued downstream but not
/// yet confirmed. At most one is outstanding at a time.
#[derive(Debug, Clone, PartialEq, Eq)]
pub struct WithdrawalData {
    /// Who receives the funds once the downstream call confirms.
    pub receiver: String,
    /// The explicitly requested amount, if any; `None` means the whole
    /// balance released by the downstream call.
    pub amount: Option<u128>,
}

/// The whole durable record of one proxy instance.
#[derive(Debug, Clone, PartialEq, Eq)]
pub struct ProxyState {
    /// The one principal allowed to withdraw, close and propose members.
    pub owner: String,
    pub config: Config,
    /// The involvement metric that determines future payout shares.
    pub weight: u64,
    /// Donation events counted since the last withdrawal.
    pub donations: u64,
    /// Seconds that must elapse before a rebalance is eligible.
    pub halftime: u64,
    /// Timestamp (seconds) of instantiation or of the last withdrawal.
    pub last_updated: u64,
    /// The single-slot buffer bridging an issued withdrawal and its
    /// confirmation.
    pub pending_withdrawal: Option<WithdrawalData>,
}

/// The mathematical view of [`Config`].
#[verifier::ext_equal]
pub ghost struct ConfigV {
    pub denom: Seq<char>,
    pub direct_part: u128,
    pub distribution_contract: Seq<char>,
    pub membership_contract: Seq<char>,
    pub is_closed: bool,
}

/// The mathematical view of [`WithdrawalData`].
#[verifier::ext_equal]
pub ghost struct WithdrawalV {
    pub receiver: Seq<char>,
    pub amount: Option<u128>,
}

/// The mathematical view of [`ProxyState`].
#[verifier::ext_equal]
pub ghost struct StateV {
    pub owner: Seq<char>,
    pub config: ConfigV,
    pub weight: u64,
    pub donations: u64,
    pub halftime: u64,
    pub last_updated: u64,
    pub pending_withdrawal: Option<WithdrawalV>,
}

impl View for Config {
    type V = ConfigV;

    open spec fn view(&self) -> ConfigV {
        ConfigV {
            denom: self.denom@,
            direct_part: self.direct_part,
            distribution_contract: self.distribution_contract@,
            membership_contract: self.membership_contract@,
            is_closed: self.is_closed,
        }
    }
}

impl View for WithdrawalData {
    type V = WithdrawalV;

    open spec fn view(&self) -> WithdrawalV {
        WithdrawalV { receiver: self.receiver@, amount: self.amount }
    }
}

impl View for ProxyState {
    type V = StateV;

    open spec fn view(&self) -> StateV {
        StateV {
            owner: self.owner@,
            config: self.config@,
            weight: self.weight,
            donations: self.donations,
            halftime: self.halftime,
            last_updated: self.last_updated,
            pending_withdrawal: match self.pending_withdrawal {
                Some(w) => Some(w@),
                None => None,
            },
        }
    }
}

impl StateV {
    /// Well-formedness: the direct-share fraction lies in `[0, 1]`.
    /// Instantiation establishes it and every handler preserves it.
    pub open spec fn wf(self) -> bool {
        self.config.direct_part <= FRACTION_ONE
    }
}

/// The state after a donation is accepted: the donation counter grows by one
/// and nothing else moves.
pub open spec fn spec_donate_state(s: StateV) -> StateV {
    StateV { donations: (s.donations + 1) as u64, ..s }
}

/// The bookkeeping a withdrawal performs before its sub-call is issued:
/// the weight becomes the donation counter, the counter resets to one (not
/// zero: instantiation resets it to zero, a deliberate asymmetry), the update
/// time advances, and a pending record is staged.
pub open spec fn spec_withdraw_bookkeeping(
    s: StateV,
    now: u64,
    receiver: Seq<char>,
    amount: Option<u128>,
) -> StateV {
    StateV {
        weight: s.donations,
        donations: 1,
        last_updated: now,
        pending_withdrawal: Some(WithdrawalV { receiver, amount }),
        ..s
    }
}

/// The state after closure: the closed flag is set and nothing else moves.
pub open spec fn spec_close(s: StateV) -> StateV {
    StateV { config: ConfigV { is_closed: true, ..s.config }, ..s }
}

/// The state after a confirmed withdrawal completes: the staged record is
/// consumed and nothing else moves.
pub open spec fn spec_complete_withdrawal(s: StateV) -> StateV {
    StateV { pending_withdrawal: None, ..s }
}

/// The state after an eligible rebalance: the weight is halved (rounding the
/// released half down) and nothing else moves — in particular the update time
/// stays where the last withdrawal left it.
pub open spec fn spec_rebalance(s: StateV) -> StateV {
    StateV { weight: (s.weight - s.weight / 2) as u64, ..s }
}

/// Whether the rebalance window has fully elapsed at time `now`.
pub open spec fn rebalance_due(s: StateV, now: u64) -> bool {
    s.halftime <= now - s.last_updated
}

/// Closing is idempotent: it preserves the owner, so a second closure by the
/// same caller is authorized again; repeating it changes nothing further; and
/// the closed flag stays set.
pub proof fn lemma_close_twice(s: StateV)
    ensures
        spec_close(s).owner == s.owner,
        spec_close(spec_close(s)) == spec_close(s),
        spec_close(s).config.is_closed,
{
    assert(spec_close(spec_close(s)) =~= spec_close(s));
}

/// Once set, the closed flag never reverts: every transition preserves it.
pub proof fn lemma_closed_never_reverts(
    s: StateV,
    now: u64,
    receiver: Seq<char>,
    amount: Option<u128>,
)
    requires
        s.config.is_closed,
    ensures
        spec_donate_state(s).config.is_closed,
        spec_withdraw_bookkeeping(s, now, receiver, amount).config.is_closed,
        spec_close(s).config.is_closed,
        spec_complete_withdrawal(s).config.is_closed,
        spec_rebalance(s).config.is_closed,
{
}

/// A completed withdrawal confirmation consumes the staged record, so the
/// same continuation replayed afterwards finds nothing to pay: it must fail
/// rather than pay twice.
pub proof fn lemma_completion_consumes_pending(s: StateV)
    ensures
        spec_complete_withdrawal(s).pending_withdrawal is None,
        spec_complete_withdrawal(spec_complete_withdrawal(s)) == spec_complete_withdrawal(s),
{
    assert(spec_complete_withdrawal(spec_complete_withdrawal(s)) =~= spec_complete_withdrawal(s));
}

} // verus!
