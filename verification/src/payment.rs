//! Payments attached to a request, and the rule that accepts them: exactly
//! one coin, nonzero, in the configured denomination.

use vstd::prelude::*;

use crate::error::PaymentFault;

verus! {

/// One attached coin: an amount of a denomination.
#[derive(Debug, Clone, PartialEq, Eq)]
pub struct Coin {
    pub denom: String,
    pub amount: u128,
}

/// What accepting a payment returns: the amount of the single attached coin
/// of the requested denomination, or the rule it breaks. Empty funds or a
/// single zero coin count as no funds; two or more coins are rejected before
/// their denominations are looked at.
pub open spec fn spec_must_pay(funds: Seq<Coin>, denom: Seq<char>) -> Result<u128, PaymentFault> {
    if funds.len() == 0 {
        Err(PaymentFault::NoFunds)
    } else if funds.len() > 1 {
        Err(PaymentFault::MultipleDenoms)
    } else if funds[0].amount == 0 {
        Err(PaymentFault::NoFunds)
    } else if funds[0].denom@ != denom {
        Err(PaymentFault::MissingDenom)
    } else {
        Ok(funds[0].amount)
    }
}

/// Relies on cw_utils::must_pay: it returns the amount of the attached coin
/// when exactly one coin with a positive amount and the given denomination
/// is attached, and otherwise reports which rule the funds break, checking
/// the coin count before the denomination.
#[verifier::external_body]
pub(crate) fn must_pay(funds: &Vec<Coin>, denom: &String) -> (r: Result<u128, PaymentFault>)
    ensures
        r == spec_must_pay(funds@, denom@),
{
    let info = cosmwasm_std::MessageInfo {
        sender: cosmwasm_std::Addr::unchecked(""),
        funds: funds.iter().map(|c| cosmwasm_std::Coin::new(c.amount, c.denom.as_str())).collect(),
    };
    match cw_utils::must_pay(&info, denom) {
        Ok(a) => Ok(cosmwasm_std::Uint128::try_from(a).expect("the amount came from a u128").u128()),
        Err(cw_utils::PaymentError::NoFunds {}) => Err(PaymentFault::NoFunds),
        Err(cw_utils::PaymentError::MultipleDenoms {}) => Err(PaymentFault::MultipleDenoms),
        Err(_) => Err(PaymentFault::MissingDenom),
    }
}

} // verus!
