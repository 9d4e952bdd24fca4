//! Fixed-point fractions in the range `[0, 1]`, stored as a number of atomic
//! units out of [`FRACTION_ONE`] (the representation the host ledger's
//! 18-decimal fixed-point numbers use).

use vstd::prelude::*;

verus! {

/// The number of atomic units that make up the fraction `1.0`: `10^18`.
pub const FRACTION_ONE: u128 = 1_000_000_000_000_000_000;

/// The product of `amount` and the fraction `part / FRACTION_ONE`,
/// rounded down.
pub open spec fn scaled_fraction(amount: u128, part: u128) -> int {
    (amount * part) / (FRACTION_ONE as int)
}

/// Scaling by a fraction no greater than one never enlarges the amount.
pub proof fn lemma_scaled_fraction_le(amount: u128, part: u128)
    requires
        part <= FRACTION_ONE,
    ensures
        0 <= scaled_fraction(amount, part) <= amount,
{
    assert(0 <= (amount * part) / (FRACTION_ONE as int) <= amount) by (nonlinear_arith)
        requires
            part <= FRACTION_ONE,
    ;
}

/// Relies on cosmwasm_std's fixed-point multiplication
/// (`Uint256::mul_floor` with a `Decimal` of `part` atomic units):
/// the product `amount * part / 10^18`, rounded down.
#[verifier::external_body]
pub(crate) fn mul_fraction(amount: u128, part: u128) -> (r: u128)
    requires
        part <= FRACTION_ONE,
    ensures
        r == scaled_fraction(amount, part),
{
    let part_decimal = cosmwasm_std::Decimal::new(cosmwasm_std::Uint128::new(part));
    let scaled = cosmwasm_std::Uint256::from(amount).mul_floor(part_decimal);
    cosmwasm_std::Uint128::try_from(scaled)
        .expect("a fraction of at most one cannot enlarge a 128-bit amount")
        .u128()
}

} // verus!
