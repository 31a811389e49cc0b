use vstd::arithmetic::div_mod::{lemma_div_is_ordered_by_denominator, lemma_fundamental_div_mod, lemma_mod_bound};
use vstd::arithmetic::mul::lemma_mul_is_distributive_add;
use vstd::prelude::*;

use crate::constants::PERCENT;
use crate::effects::{
    lamport_delta,
    lamports_created,
    lamports_created_by,
    net_lamports,
    net_tokens,
    token_delta,
    tokens_created,
    tokens_created_by,
    Effect,
    Role,
};
use crate::utils::calculate::{curve_amount_out, curve_out_reserve_after};
use crate::utils::fee::{fee_at, fee_inputs_valid};

verus! {

// ---------------------------------------------------------------------------
// Fees
// ---------------------------------------------------------------------------

/// When both fee rates together are at most 100% and the products fit, the
/// fee split can always be made: the two fees never exceed the amount.
pub proof fn lemma_fees_within_amount(max_amount: u64, fee_platform: u16, fee_fund: u16)
    requires
        max_amount * fee_platform <= u64::MAX,
        max_amount * fee_fund <= u64::MAX,
        fee_platform + fee_fund <= PERCENT,
    ensures
        fee_inputs_valid(max_amount, fee_platform, fee_fund),
{
    let x = max_amount * fee_platform;
    let y = max_amount * fee_fund;
    assert(x + y <= max_amount * 10000) by (nonlinear_arith)
        requires
            x == max_amount * fee_platform,
            y == max_amount * fee_fund,
            fee_platform + fee_fund <= 10000,
            max_amount >= 0,
    {
        assert(max_amount * (fee_platform + fee_fund) <= max_amount * 10000);
    }
}

/// The fee split loses and creates nothing: what remains plus both fees is
/// the amount.
pub proof fn lemma_fee_split_conserves(max_amount: u64, fee_platform: u16, fee_fund: u16)
    requires
        fee_inputs_valid(max_amount, fee_platform, fee_fund),
    ensures
        (max_amount - fee_at(max_amount, fee_platform) - fee_at(max_amount, fee_fund))
            + fee_at(max_amount, fee_platform) + fee_at(max_amount, fee_fund) == max_amount,
        0 <= fee_at(max_amount, fee_platform) <= max_amount,
        0 <= fee_at(max_amount, fee_fund) <= max_amount,
{
}

/// A fee never falls as the amount grows.
pub proof fn lemma_fee_monotone(a1: u64, a2: u64, rate: u16)
    requires
        a1 <= a2,
    ensures
        fee_at(a1, rate) <= fee_at(a2, rate),
{
    assert(a1 * rate <= a2 * rate) by (nonlinear_arith)
        requires
            a1 <= a2,
            rate >= 0,
    ;
    vstd::arithmetic::div_mod::lemma_div_is_ordered(a1 * rate, a2 * rate, 10000);
}

// ---------------------------------------------------------------------------
// The constant-product curve
// ---------------------------------------------------------------------------

/// After a trade, the new virtual reserves multiply to at most the product
/// constant, and one more unit of output reserve would exceed it: the curve
/// rounds in its own favour by less than one unit.
pub proof fn lemma_curve_keeps_product(k: u128, virtual_in_reserve: u128, amount_in: u128)
    requires
        virtual_in_reserve + amount_in > 0,
    ensures
        ({
            let d = virtual_in_reserve + amount_in;
            let r = curve_out_reserve_after(k, virtual_in_reserve, amount_in);
            &&& d * r <= k
            &&& k < d * (r + 1)
        }),
{
    let d = virtual_in_reserve + amount_in;
    let r = k as int / d;
    lemma_fundamental_div_mod(k as int, d);
    lemma_mod_bound(k as int, d);
    lemma_mul_is_distributive_add(d, r, 1);
}

/// A larger input never buys less output from the curve.
pub proof fn lemma_curve_output_monotone(
    k: u128,
    virtual_in_reserve: u128,
    virtual_out_reserve: u128,
    a1: u128,
    a2: u128,
)
    requires
        virtual_in_reserve + a1 > 0,
        a1 <= a2,
    ensures
        curve_amount_out(k, virtual_in_reserve, virtual_out_reserve, a1) <= curve_amount_out(
            k,
            virtual_in_reserve,
            virtual_out_reserve,
            a2,
        ),
{
    lemma_div_is_ordered_by_denominator(k as int, virtual_in_reserve + a1, virtual_in_reserve + a2);
}

/// Where the product constant is the product of the virtual reserves, the
/// curve never gives out more than the virtual output reserve holds.
pub proof fn lemma_curve_output_bounded(
    virtual_in_reserve: u128,
    virtual_out_reserve: u128,
    amount_in: u128,
)
    requires
        virtual_in_reserve > 0,
        virtual_in_reserve * virtual_out_reserve <= u128::MAX,
    ensures
        0 <= curve_amount_out(
            (virtual_in_reserve * virtual_out_reserve) as u128,
            virtual_in_reserve,
            virtual_out_reserve,
            amount_in,
        ) <= virtual_out_reserve,
{
    let k = virtual_in_reserve * virtual_out_reserve;
    let d = virtual_in_reserve + amount_in;
    lemma_div_is_ordered_by_denominator(k, virtual_in_reserve as int, d);
    vstd::arithmetic::div_mod::lemma_div_by_multiple(virtual_out_reserve as int, virtual_in_reserve as int);
    assert(k == virtual_out_reserve * virtual_in_reserve) by (nonlinear_arith)
        requires
            k == virtual_in_reserve * virtual_out_reserve,
    ;
    vstd::arithmetic::div_mod::lemma_div_pos_is_pos(k, d);
}

// ---------------------------------------------------------------------------
// Sums over effects
// ---------------------------------------------------------------------------

/// Appending an effect adds its contribution to each sum.
pub proof fn lemma_effect_sums_push(es: Seq<Effect>, e: Effect, r: Role)
    ensures
        net_lamports(es.push(e), r) == net_lamports(es, r) + lamport_delta(e, r),
        net_tokens(es.push(e), r) == net_tokens(es, r) + token_delta(e, r),
        lamports_created(es.push(e)) == lamports_created(es) + lamports_created_by(e),
        tokens_created(es.push(e)) == tokens_created(es) + tokens_created_by(e),
{
    assert(es.push(e).drop_last() =~= es);
}

/// The sums over a list of effects are the sums of their contributions.
pub proof fn lemma_effect_sums_list(es: Seq<Effect>, r: Role)
    ensures
        es.len() == 0 ==> net_lamports(es, r) == 0 && net_tokens(es, r) == 0
            && lamports_created(es) == 0 && tokens_created(es) == 0,
        es.len() == 1 ==> {
            &&& net_lamports(es, r) == lamport_delta(es[0], r)
            &&& net_tokens(es, r) == token_delta(es[0], r)
            &&& lamports_created(es) == lamports_created_by(es[0])
            &&& tokens_created(es) == tokens_created_by(es[0])
        },
        es.len() == 2 ==> {
            &&& net_lamports(es, r) == lamport_delta(es[0], r) + lamport_delta(es[1], r)
            &&& net_tokens(es, r) == token_delta(es[0], r) + token_delta(es[1], r)
            &&& lamports_created(es) == lamports_created_by(es[0]) + lamports_created_by(es[1])
            &&& tokens_created(es) == tokens_created_by(es[0]) + tokens_created_by(es[1])
        },
        es.len() == 3 ==> {
            &&& net_lamports(es, r) == lamport_delta(es[0], r) + lamport_delta(es[1], r)
                + lamport_delta(es[2], r)
            &&& net_tokens(es, r) == token_delta(es[0], r) + token_delta(es[1], r) + token_delta(
                es[2],
                r,
            )
            &&& lamports_created(es) == lamports_created_by(es[0]) + lamports_created_by(es[1])
                + lamports_created_by(es[2])
            &&& tokens_created(es) == tokens_created_by(es[0]) + tokens_created_by(es[1])
                + tokens_created_by(es[2])
        },
        es.len() == 4 ==> {
            &&& net_lamports(es, r) == lamport_delta(es[0], r) + lamport_delta(es[1], r)
                + lamport_delta(es[2], r) + lamport_delta(es[3], r)
            &&& net_tokens(es, r) == token_delta(es[0], r) + token_delta(es[1], r) + token_delta(
                es[2],
                r,
            ) + token_delta(es[3], r)
            &&& lamports_created(es) == lamports_created_by(es[0]) + lamports_created_by(es[1])
                + lamports_created_by(es[2]) + lamports_created_by(es[3])
            &&& tokens_created(es) == tokens_created_by(es[0]) + tokens_created_by(es[1])
                + tokens_created_by(es[2]) + tokens_created_by(es[3])
        },
        es.len() == 5 ==> {
            &&& net_lamports(es, r) == lamport_delta(es[0], r) + lamport_delta(es[1], r)
                + lamport_delta(es[2], r) + lamport_delta(es[3], r) + lamport_delta(es[4], r)
            &&& net_tokens(es, r) == token_delta(es[0], r) + token_delta(es[1], r) + token_delta(
                es[2],
                r,
            ) + token_delta(es[3], r) + token_delta(es[4], r)
            &&& lamports_created(es) == lamports_created_by(es[0]) + lamports_created_by(es[1])
                + lamports_created_by(es[2]) + lamports_created_by(es[3]) + lamports_created_by(
                es[4],
            )
            &&& tokens_created(es) == tokens_created_by(es[0]) + tokens_created_by(es[1])
                + tokens_created_by(es[2]) + tokens_created_by(es[3]) + tokens_created_by(es[4])
        },
    decreases es.len(),
{
    if es.len() > 0 && es.len() <= 5 {
        let init = es.drop_last();
        lemma_effect_sums_list(init, r);
        assert(init.push(es.last()) =~= es);
        lemma_effect_sums_push(init, es.last(), r);
    }
}

} // verus!
