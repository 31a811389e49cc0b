use vstd::prelude::*;

use crate::error::ErrorMessage;

verus! {

/// The virtual output reserve left after `amount_in` enters the curve
/// `k = in_reserve * out_reserve`, rounded down.
pub open spec fn curve_out_reserve_after(
    k: u128,
    virtual_in_reserve: u128,
    amount_in: u128,
) -> int {
    k as int / (virtual_in_reserve + amount_in)
}

/// The amount that leaves the curve for `amount_in`.
pub open spec fn curve_amount_out(
    k: u128,
    virtual_in_reserve: u128,
    virtual_out_reserve: u128,
    amount_in: u128,
) -> int {
    virtual_out_reserve - curve_out_reserve_after(k, virtual_in_reserve, amount_in)
}

/// The inputs on which `calculate_token_out` completes: the sums fit in a
/// `u128`, the new input reserve is positive, and the curve does not ask
/// for more than the virtual output reserve holds.
pub open spec fn token_out_inputs_valid(
    k: u128,
    virtual_in_reserve: u128,
    virtual_out_reserve: u128,
    token_in_reserve: u128,
    amount_in: u128,
) -> bool {
    &&& virtual_in_reserve + amount_in <= u128::MAX
    &&& virtual_in_reserve + amount_in > 0
    &&& curve_out_reserve_after(k, virtual_in_reserve, amount_in) <= virtual_out_reserve
    &&& token_in_reserve + amount_in <= u128::MAX
}

/// Trades `amount_in` against the constant-product curve with the given
/// product constant `invarient` and virtual reserves. Returns the real output reserve after the
/// trade (zero where the output exceeds it), the real input reserve after the
/// trade, and the amount that leaves the curve.
pub fn calculate_token_out(
    invarient: u128,
    virtual_in_reserve: u128,
    virtual_out_reserve: u128,
    token_in_reserve: u128,
    token_out_reserve: u128,
    amount_in: u128,
) -> (res: Result<(u128, u128, u128), ErrorMessage>)
    requires
        token_out_inputs_valid(
            invarient,
            virtual_in_reserve,
            virtual_out_reserve,
            token_in_reserve,
            amount_in,
        ),
    ensures
        res matches Ok((token_out_reserve_after, token_in_reserve_after, amount_out)) && {
            &&& amount_out == curve_amount_out(
                invarient,
                virtual_in_reserve,
                virtual_out_reserve,
                amount_in,
            )
            &&& token_in_reserve_after == token_in_reserve + amount_in
            &&& token_out_reserve_after == if amount_out <= token_out_reserve {
                token_out_reserve - amount_out
            } else {
                0
            }
        },
{
    let virtual_in_reserve_after = virtual_in_reserve.checked_add(amount_in).unwrap();
    let virtual_out_reserve_after = invarient.checked_div(virtual_in_reserve_after).unwrap();
    let amount_out = virtual_out_reserve.checked_sub(virtual_out_reserve_after).unwrap();
    let token_in_reserve_after = token_in_reserve.checked_add(amount_in).unwrap();
    let token_out_reserve_after = token_out_reserve.checked_sub(amount_out).unwrap_or(0);
    Ok((token_out_reserve_after, token_in_reserve_after, amount_out))
}

} // verus!
