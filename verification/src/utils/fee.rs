use vstd::prelude::*;

use crate::constants::PERCENT;
use crate::error::ErrorMessage;

verus! {

/// The fee at `rate` basis points of `amount`, rounded down.
pub open spec fn fee_at(amount: u64, rate: u16) -> int {
    (amount * rate) / (PERCENT as int)
}

/// The inputs on which `calculate_fee` completes: both products fit in a
/// `u64` and the two fees together do not exceed the amount.
pub open spec fn fee_inputs_valid(max_amount: u64, fee_platform: u16, fee_fund: u16) -> bool {
    &&& max_amount * fee_platform <= u64::MAX
    &&& max_amount * fee_fund <= u64::MAX
    &&& fee_at(max_amount, fee_platform) + fee_at(max_amount, fee_fund) <= max_amount
}

/// Splits `max_amount` into what remains after both fees, the platform fee
/// and the fund fee, each fee taken at its rate in basis points.
pub fn calculate_fee(max_amount: u64, fee_platform: u16, fee_fund: u16) -> (res: Result<
    (u64, u64, u64),
    ErrorMessage,
>)
    requires
        fee_inputs_valid(max_amount, fee_platform, fee_fund),
    ensures
        res matches Ok((amount_sol, amount_fee_platform, amount_fee_fund)) && {
            &&& amount_fee_platform == fee_at(max_amount, fee_platform)
            &&& amount_fee_fund == fee_at(max_amount, fee_fund)
            &&& amount_sol == max_amount - amount_fee_platform - amount_fee_fund
            &&& amount_fee_platform == (max_amount * fee_platform) / 10000
            &&& amount_fee_fund == (max_amount * fee_fund) / 10000
        },
{
    let amount_fee_platform = max_amount.checked_mul(fee_platform as u64).unwrap().checked_div(
        PERCENT,
    ).unwrap();
    let amount_fee_fund = max_amount.checked_mul(fee_fund as u64).unwrap().checked_div(
        PERCENT,
    ).unwrap();
    let amount_sol = max_amount.checked_sub(amount_fee_platform).unwrap().checked_sub(
        amount_fee_fund,
    ).unwrap();
    Ok((amount_sol, amount_fee_platform, amount_fee_fund))
}

} // verus!
