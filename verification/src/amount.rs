//! Token amounts: unsigned 128-bit integers whose arithmetic reports failure
//! instead of wrapping.

use vstd::prelude::*;

verus! {

/// `cosmwasm_std::OverflowError`, the error of checked arithmetic, carried
/// through as it is.
#[verifier::external_type_specification]
#[verifier::external_body]
pub struct ExOverflowError(cosmwasm_std::OverflowError);

/// The decimal text of an amount, as `cosmwasm_std::Uint128` prints it.
pub uninterp spec fn decimal_text(amount: u128) -> Seq<char>;

/// Calls `cosmwasm_std::Uint128::checked_add`. Trusted: the sum when it fits
/// in 128 bits, an error when it does not.
#[verifier::external_body]
pub(crate) fn checked_add(left: u128, right: u128) -> (sum: Result<u128, cosmwasm_std::OverflowError>)
    ensures
        left + right <= u128::MAX ==> sum is Ok && sum->Ok_0 == left + right,
        left + right > u128::MAX ==> sum is Err,
{
    match cosmwasm_std::Uint128::new(left).checked_add(cosmwasm_std::Uint128::new(right)) {
        Ok(value) => Ok(value.u128()),
        Err(error) => Err(error),
    }
}

/// Calls `cosmwasm_std::Uint128::checked_sub`. Trusted: the difference when
/// `right` is at most `left`, an error when it is larger.
#[verifier::external_body]
pub(crate) fn checked_sub(left: u128, right: u128) -> (difference: Result<
    u128,
    cosmwasm_std::OverflowError,
>)
    ensures
        right <= left ==> difference is Ok && difference->Ok_0 == left - right,
        right > left ==> difference is Err,
{
    match cosmwasm_std::Uint128::new(left).checked_sub(cosmwasm_std::Uint128::new(right)) {
        Ok(value) => Ok(value.u128()),
        Err(error) => Err(error),
    }
}

/// Calls `to_string` of `cosmwasm_std::Uint128`. Trusted: the text is a
/// function of the amount alone.
#[verifier::external_body]
pub(crate) fn to_text(amount: u128) -> (text: String)
    ensures
        text@ == decimal_text(amount),
{
    cosmwasm_std::Uint128::new(amount).to_string()
}

/// `left + right`, or `None` when the sum does not fit in 128 bits.
pub fn add_amounts(left: u128, right: u128) -> (sum: Option<u128>)
    ensures
        sum == if left + right <= u128::MAX {
            Some((left + right) as u128)
        } else {
            None
        },
{
    match self::checked_add(left, right) {
        Ok(value) => Some(value),
        Err(_) => None,
    }
}

/// `left - right`, or `None` when `right` is larger than `left`.
pub fn sub_amounts(left: u128, right: u128) -> (difference: Option<u128>)
    ensures
        difference == if right <= left {
            Some((left - right) as u128)
        } else {
            None
        },
{
    match self::checked_sub(left, right) {
        Ok(value) => Some(value),
        Err(_) => None,
    }
}

} // verus!
