use vstd::prelude::*;

use crate::effects::{lamports_created, net_lamports, net_tokens, tokens_created, Role};
use crate::error::ErrorMessage;
use crate::instructions::buy::{
    buy_accounts_after,
    buy_amount_sol,
    buy_completes_trading,
    buy_effects,
    buy_error,
    buy_fee_fund,
    buy_in_range,
    buy_token_out,
    buy_total_after,
    buy_total_before,
    Buy,
};
use crate::instructions::creator_buy::{
    creator_buy_accounts_after,
    creator_buy_effects,
    creator_buy_error,
    creator_share,
    CreatorBuy,
};
use crate::instructions::sell::{
    sell_effects,
    sell_error,
    sell_fee_fund,
    sell_in_range,
    sell_sol_out,
    Sell,
};
use crate::constants::MIN_SOL_TARGET;
use crate::instructions::mint::{mint_accounts_after, mint_effects, mint_in_range, MintToken};
use crate::instructions::update_config::config_after_update;
use crate::instructions::withdraw::{
    lp_share,
    withdraw_effects,
    withdraw_error,
    withdraw_in_range,
    withdraw_sol,
    Withdraw,
};
use crate::constants::TOKEN_UNIT;
use crate::laws::lemma_effect_sums_list;
use crate::utils::fee::fee_at;
use crate::state::{Config, Pubkey};

verus! {

// ---------------------------------------------------------------------------
// Buying
// ---------------------------------------------------------------------------

/// A buy moves tokens only from the vault to the buyer, the bought amount,
/// and lamports only from the buyer: the whole amount to the vault and the
/// fund fee to the fund. It creates no lamports and no tokens.
pub proof fn lemma_buy_moves_balances(a: Buy, max_amount_sol: u64)
    requires
        buy_in_range(a, max_amount_sol),
        buy_error(a, max_amount_sol) is None,
    ensures
        net_tokens(buy_effects(a, max_amount_sol), Role::VaultTokens) == -buy_token_out(
            a,
            max_amount_sol,
        ),
        net_tokens(buy_effects(a, max_amount_sol), Role::UserTokens) == buy_token_out(
            a,
            max_amount_sol,
        ),
        net_lamports(buy_effects(a, max_amount_sol), Role::Vault) == max_amount_sol,
        net_lamports(buy_effects(a, max_amount_sol), Role::Fund) == buy_fee_fund(a, max_amount_sol),
        net_lamports(buy_effects(a, max_amount_sol), Role::User) == -(max_amount_sol + buy_fee_fund(
            a,
            max_amount_sol,
        )),
        lamports_created(buy_effects(a, max_amount_sol)) == 0,
        tokens_created(buy_effects(a, max_amount_sol)) == 0,
        net_tokens(buy_effects(a, max_amount_sol), Role::UserTokens) == ((max_amount_sol
            * 1000000) / (a.vault.price as int)) % 0x1_0000_0000_0000_0000,
        net_lamports(buy_effects(a, max_amount_sol), Role::Fund) == (max_amount_sol
            * a.config.fee_fund) / 10000,
        net_tokens(buy_effects(a, max_amount_sol), Role::Fund) == 0,
        net_lamports(buy_effects(a, max_amount_sol), Role::UserTokens) == 0,
{
    let es = buy_effects(a, max_amount_sol);
    lemma_effect_sums_list(es, Role::VaultTokens);
    lemma_effect_sums_list(es, Role::UserTokens);
    lemma_effect_sums_list(es, Role::Vault);
    lemma_effect_sums_list(es, Role::Fund);
    lemma_effect_sums_list(es, Role::User);
}

/// A buy never takes the vault's SOL past the target by more than the fund
/// fee; the fee is left out only where the target is checked. Trading
/// completes exactly where the vault's SOL then equals the target.
pub proof fn lemma_buy_target_overshoot(a: Buy, max_amount_sol: u64)
    requires
        buy_in_range(a, max_amount_sol),
        buy_error(a, max_amount_sol) is None,
    ensures
        buy_total_before(a) + buy_amount_sol(a, max_amount_sol) <= a.vault.sol_target,
        buy_total_after(a, max_amount_sol) <= a.vault.sol_target + buy_fee_fund(a, max_amount_sol),
        buy_accounts_after(a, max_amount_sol).vault.completed <==> buy_total_after(
            a,
            max_amount_sol,
        ) == a.vault.sol_target,
{
}

/// A buyer other than the creator never ends a buy holding more than the
/// vault's limit.
pub proof fn lemma_buy_respects_holding_limit(a: Buy, max_amount_sol: u64)
    requires
        buy_in_range(a, max_amount_sol),
        buy_error(a, max_amount_sol) is None,
        a.buyer != a.vault.creator,
    ensures
        a.associate_user_amount + buy_token_out(a, max_amount_sol) <= a.vault.max_token_buy,
{
}

/// A buy that succeeds pays and receives something, and never takes more
/// tokens than the vault holds.
pub proof fn lemma_buy_is_never_empty(a: Buy, max_amount_sol: u64)
    requires
        buy_in_range(a, max_amount_sol),
        buy_error(a, max_amount_sol) is None,
    ensures
        max_amount_sol > 0,
        0 < buy_token_out(a, max_amount_sol) <= a.associate_vault_amount,
{
}

// ---------------------------------------------------------------------------
// Completion
// ---------------------------------------------------------------------------

/// Once a vault has completed, nothing more is traded: every buy, creator's
/// buy and sell is refused, with `TradingEnd` wherever the account checks
/// that come first pass.
pub proof fn lemma_no_trading_after_completion(
    b: Buy,
    max_amount_sol: u64,
    c: CreatorBuy,
    s: Sell,
    max_amount_token: u64,
)
    requires
        b.vault.completed,
        c.vault.completed,
        s.vault.completed,
    ensures
        buy_error(b, max_amount_sol) is Some,
        creator_buy_error(c) is Some,
        sell_error(s, max_amount_token) is Some,
        b.operator_signed && !b.pda_buyer_exists && b.buyer_lamports >= max_amount_sol
            && b.config.fund == b.fund
            && b.config.operator == b.operator ==> buy_error(b, max_amount_sol) == Some(
            ErrorMessage::TradingEnd,
        ),
        c.config.fund == c.fund && c.config.fee_receiver == c.fee_receiver ==> creator_buy_error(c)
            == Some(ErrorMessage::TradingEnd),
        s.config.fund == s.fund && s.config.fee_receiver == s.fee_receiver ==> sell_error(
            s,
            max_amount_token,
        ) == Some(ErrorMessage::TradingEnd),
{
}

/// A buyer buys each token once: after a buy succeeds, the buyer's marker
/// exists, and a further buy with the operator's signature is refused with
/// `AccountAlreadyInUse`, whatever its amount.
pub proof fn lemma_buyer_buys_once(a: Buy, max_amount_sol: u64, next_amount_sol: u64)
    requires
        buy_error(a, max_amount_sol) is None,
    ensures
        buy_accounts_after(a, max_amount_sol).pda_buyer_exists,
        buy_error(buy_accounts_after(a, max_amount_sol), next_amount_sol) == Some(
            ErrorMessage::AccountAlreadyInUse,
        ),
{
}

/// Selling the tokens that a buy of `max_amount_sol` lamports returned, at the
/// same price with one whole token per slot, never fetches more lamports than
/// the buy paid, so the seller's gain after the fund fee cannot exceed them
/// either.
pub proof fn lemma_buy_then_sell_pays_back_at_most_the_price(
    a: Buy,
    max_amount_sol: u64,
    s: Sell,
    max_amount_token: u64,
)
    requires
        a.vault.price > 0,
        s.vault.price == a.vault.price,
        s.vault.amount_token_received_per_slot == TOKEN_UNIT,
        max_amount_token == buy_token_out(a, max_amount_sol),
    ensures
        sell_sol_out(s, max_amount_token) <= max_amount_sol,
        sell_sol_out(s, max_amount_token) - sell_fee_fund(s, max_amount_token) <= max_amount_sol,
{
    let p = a.vault.price as int;
    let m = max_amount_sol as int;
    let q = (m * 1000000) / p;
    let t = max_amount_token as int;
    assert(t <= q) by {
        vstd::arithmetic::div_mod::lemma_mod_decreases(q as nat, 0x1_0000_0000_0000_0000nat);
    }
    assert(q * p <= m * 1000000) by {
        vstd::arithmetic::div_mod::lemma_fundamental_div_mod(m * 1000000, p);
        vstd::arithmetic::div_mod::lemma_mod_bound(m * 1000000, p);
        vstd::arithmetic::mul::lemma_mul_is_commutative(p, q);
    }
    assert(t * p <= q * p) by {
        vstd::arithmetic::mul::lemma_mul_inequality(t, q, p);
    }
    let x = t * p;
    assert(x / 1000000 <= m) by {
        vstd::arithmetic::div_mod::lemma_div_is_ordered(x, m * 1000000, 1000000);
        vstd::arithmetic::div_mod::lemma_div_by_multiple(m, 1000000);
    }
    assert(sell_sol_out(s, max_amount_token) <= x / 1000000) by {
        vstd::arithmetic::div_mod::lemma_mod_decreases((x / 1000000) as nat, 0x1_0000_0000_0000_0000nat);
    }
    lemma_fee_split_nonnegative(sell_sol_out(s, max_amount_token) as u64, s.config.fee_fund);
}

/// A fee is never negative.
proof fn lemma_fee_split_nonnegative(amount: u64, rate: u16)
    ensures
        fee_at(amount, rate) >= 0,
{
    assert(amount * rate >= 0) by (nonlinear_arith);
}

/// A successful buy never reopens trading: its vault was still trading and
/// ends completed only by reaching the target.
pub proof fn lemma_buy_only_completes(a: Buy, max_amount_sol: u64)
    requires
        buy_in_range(a, max_amount_sol),
        buy_error(a, max_amount_sol) is None,
    ensures
        !a.vault.completed,
        buy_accounts_after(a, max_amount_sol).vault.completed == buy_completes_trading(
            a,
            max_amount_sol,
        ),
        buy_accounts_after(a, max_amount_sol).vault.creator_buy == a.vault.creator_buy,
        buy_accounts_after(a, max_amount_sol).vault.sol_target == a.vault.sol_target,
        buy_accounts_after(a, max_amount_sol).vault.price == a.vault.price,
{
}

// ---------------------------------------------------------------------------
// The creator's buy
// ---------------------------------------------------------------------------

/// The creator takes the creator's share at most once: after it succeeds, a
/// second attempt on the same vault is refused, with `TradingEnd` if the
/// first completed trading and with `BuyOnce` otherwise.
pub proof fn lemma_creator_buys_once(c: CreatorBuy)
    requires
        creator_buy_error(c) is None,
    ensures
        creator_buy_error(creator_buy_accounts_after(c)) == if creator_buy_accounts_after(
            c,
        ).vault.completed {
            Some(ErrorMessage::TradingEnd)
        } else {
            Some(ErrorMessage::BuyOnce)
        },
{
}

/// The creator's buy moves exactly the creator's share from the vault to the
/// creator and moves no lamports.
pub proof fn lemma_creator_buy_moves_balances(c: CreatorBuy)
    ensures
        net_tokens(creator_buy_effects(c), Role::VaultTokens) == -creator_share(c),
        net_tokens(creator_buy_effects(c), Role::UserTokens) == creator_share(c),
        tokens_created(creator_buy_effects(c)) == 0,
        net_lamports(creator_buy_effects(c), Role::Vault) == 0,
        lamports_created(creator_buy_effects(c)) == 0,
        net_tokens(creator_buy_effects(c), Role::UserTokens) == c.vault.initial_token_reserve / 100,
        net_lamports(creator_buy_effects(c), Role::User) == 0,
{
    let es = creator_buy_effects(c);
    lemma_effect_sums_list(es, Role::VaultTokens);
    lemma_effect_sums_list(es, Role::UserTokens);
    lemma_effect_sums_list(es, Role::Vault);
    lemma_effect_sums_list(es, Role::User);
}

// ---------------------------------------------------------------------------
// Selling
// ---------------------------------------------------------------------------

/// A sell returns the sold tokens to the vault and pays out of the vault
/// exactly what the fund and the seller receive: no lamports or tokens are
/// created or lost.
pub proof fn lemma_sell_moves_balances(s: Sell, max_amount_token: u64)
    requires
        sell_in_range(s, max_amount_token),
        sell_error(s, max_amount_token) is None,
    ensures
        net_tokens(sell_effects(s, max_amount_token), Role::UserTokens) == -max_amount_token,
        net_tokens(sell_effects(s, max_amount_token), Role::VaultTokens) == max_amount_token,
        tokens_created(sell_effects(s, max_amount_token)) == 0,
        net_lamports(sell_effects(s, max_amount_token), Role::Vault) == -sell_sol_out(
            s,
            max_amount_token,
        ),
        net_lamports(sell_effects(s, max_amount_token), Role::Fund) == sell_fee_fund(
            s,
            max_amount_token,
        ),
        net_lamports(sell_effects(s, max_amount_token), Role::User) == sell_sol_out(
            s,
            max_amount_token,
        ) - sell_fee_fund(s, max_amount_token),
        lamports_created(sell_effects(s, max_amount_token)) == 0,
        ({
            let sol_out = ((max_amount_token * s.vault.price) / (
            s.vault.amount_token_received_per_slot as int)) % 0x1_0000_0000_0000_0000;
            let fee = (sol_out * s.config.fee_fund) / 10000;
            &&& net_lamports(sell_effects(s, max_amount_token), Role::Vault) == -sol_out
            &&& net_lamports(sell_effects(s, max_amount_token), Role::Fund) == fee
            &&& net_lamports(sell_effects(s, max_amount_token), Role::User) == sol_out - fee
        }),
{
    let es = sell_effects(s, max_amount_token);
    lemma_effect_sums_list(es, Role::UserTokens);
    lemma_effect_sums_list(es, Role::VaultTokens);
    lemma_effect_sums_list(es, Role::Vault);
    lemma_effect_sums_list(es, Role::Fund);
    lemma_effect_sums_list(es, Role::User);
}

// ---------------------------------------------------------------------------
// Withdrawal
// ---------------------------------------------------------------------------

/// A withdrawal empties the vault of tokens and lamports and splits the
/// tokens between the operator and the dev without loss. Of the lamports,
/// the two shares fall short of the vault's balance by one lamport exactly
/// where the traded SOL is not a multiple of ten, and by none otherwise.
pub proof fn lemma_withdraw_moves_balances(w: Withdraw)
    requires
        withdraw_in_range(w),
        withdraw_error(w) is None,
    ensures
        net_tokens(withdraw_effects(w), Role::VaultTokens) == -w.ata_vault_amount,
        net_tokens(withdraw_effects(w), Role::OperatorLpTokens) == lp_share(
            w.ata_vault_amount as int,
        ),
        tokens_created(withdraw_effects(w)) == 0,
        net_lamports(withdraw_effects(w), Role::Vault) == -w.vault_lamports,
        lamports_created(withdraw_effects(w)) == if withdraw_sol(w) % 10 == 0 {
            0int
        } else {
            -1int
        },
        ({
            let sol = w.vault_lamports - 1746960;
            let t = w.ata_vault_amount as int;
            &&& net_tokens(withdraw_effects(w), Role::OperatorLpTokens) == t * 90 / 100
            &&& net_tokens(withdraw_effects(w), Role::DevTokens) == t - t * 90 / 100
            &&& net_lamports(withdraw_effects(w), Role::OperatorLp) == sol * 90 / 100
            &&& net_lamports(withdraw_effects(w), Role::Dev) == sol * 10 / 100 + 1746960
        }),
{
    let es = withdraw_effects(w);
    lemma_effect_sums_list(es, Role::VaultTokens);
    lemma_effect_sums_list(es, Role::OperatorLpTokens);
    lemma_effect_sums_list(es, Role::DevTokens);
    lemma_effect_sums_list(es, Role::Vault);
    lemma_effect_sums_list(es, Role::OperatorLp);
    lemma_effect_sums_list(es, Role::Dev);
    let sol = withdraw_sol(w);
    assert(sol * 90 / 100 + sol * 10 / 100 == sol - (if sol % 10 == 0 { 0int } else { 1int }))
        by (nonlinear_arith)
        requires
            sol >= 0,
    {
        let q = sol / 10;
        let r = sol % 10;
        assert(sol == 10 * q + r);
        assert(0 <= r < 10);
        assert(sol * 90 == 100 * (9 * q) + 90 * r);
        assert(sol * 10 == 100 * q + 10 * r);
        assert((100 * (9 * q) + 90 * r) / 100 == 9 * q + (90 * r) / 100);
        assert((100 * q + 10 * r) / 100 == q + (10 * r) / 100);
    }
    assert(lp_share(w.ata_vault_amount as int) <= w.ata_vault_amount);
}

// ---------------------------------------------------------------------------
// Minting
// ---------------------------------------------------------------------------

/// Minting creates exactly the configured supply, all of it in the vault's
/// token account, and moves no lamports.
pub proof fn lemma_mint_creates_the_supply(m: MintToken)
    ensures
        tokens_created(mint_effects(m)) == m.config.initial_token_reserve,
        net_tokens(mint_effects(m), Role::VaultTokens) == m.config.initial_token_reserve,
        lamports_created(mint_effects(m)) == 0,
{
    lemma_effect_sums_list(mint_effects(m), Role::VaultTokens);
}

/// A successful mint sets the vault's initial reserve and supply to exactly
/// the amount it mints into the vault, so the creator's later share is one
/// percent of what was minted; the rest of the vault is set from the call.
pub proof fn lemma_mint_records_what_it_mints(
    m: MintToken,
    creator: Pubkey,
    price: u64,
    sol_target: u128,
    max_buy: u64,
)
    requires
        mint_in_range(sol_target, max_buy),
        sol_target > MIN_SOL_TARGET,
    ensures
        ({
            let v = mint_accounts_after(m, creator, price, sol_target, max_buy).vault;
            &&& v.initial_token_reserve == tokens_created(mint_effects(m))
            &&& v.token_supply == tokens_created(mint_effects(m))
            &&& v.initial_token_reserve == net_tokens(mint_effects(m), Role::VaultTokens)
            &&& v.initial_token_reserve == m.config.initial_token_reserve
            &&& v.creator == creator
            &&& v.price == price
            &&& v.sol_target == sol_target
            &&& v.max_token_buy == max_buy * TOKEN_UNIT
            &&& v.mint == m.mint
            &&& v.decimal == m.config.decimal
        }),
        forall|c: CreatorBuy|
            c.vault == mint_accounts_after(m, creator, price, sol_target, max_buy).vault
                ==> #[trigger] creator_share(c) == tokens_created(mint_effects(m)) / 100,
{
    lemma_effect_sums_list(mint_effects(m), Role::VaultTokens);
}

// ---------------------------------------------------------------------------
// Configuration updates
// ---------------------------------------------------------------------------

/// An update writes each given setting into its own field and keeps every
/// field whose setting is not given: a new fund fee changes the fund fee and
/// nothing else, a new liquidity operator changes the liquidity operator and
/// nothing else, and so on.
pub proof fn lemma_update_sets_each_field_from_its_own_setting(
    c: Config,
    initial_token_reserve: Option<u64>,
    fee_platform: Option<u16>,
    fee_fund: Option<u16>,
    fund: Option<Pubkey>,
    new_operator_lp: Option<Pubkey>,
    new_fee_receiver: Option<Pubkey>,
    new_operator: Option<Pubkey>,
)
    ensures
        ({
            let n = config_after_update(
                c,
                initial_token_reserve,
                fee_platform,
                fee_fund,
                fund,
                new_operator_lp,
                new_fee_receiver,
                new_operator,
            );
            &&& (match initial_token_reserve {
                Some(v) => n.initial_token_reserve == v,
                None => n.initial_token_reserve == c.initial_token_reserve,
            })
            &&& (match fee_platform {
                Some(v) => n.fee_platform == v,
                None => n.fee_platform == c.fee_platform,
            })
            &&& (match fee_fund {
                Some(v) => n.fee_fund == v,
                None => n.fee_fund == c.fee_fund,
            })
            &&& (match fund {
                Some(k) => n.fund == k,
                None => n.fund == c.fund,
            })
            &&& (match new_operator_lp {
                Some(k) => n.operator_lp == k,
                None => n.operator_lp == c.operator_lp,
            })
            &&& (match new_fee_receiver {
                Some(k) => n.fee_receiver == k,
                None => n.fee_receiver == c.fee_receiver,
            })
            &&& (match new_operator {
                Some(k) => n.operator == k,
                None => n.operator == c.operator,
            })
            &&& n.decimal == c.decimal
        }),
{
}

/// Updating the fund fee alone leaves the platform fee, the operators and
/// every other setting as they were, and the new fund fee is what buys and
/// sells then charge.
pub proof fn lemma_fund_fee_update_touches_only_the_fund_fee(c: Config, v: u16)
    ensures
        ({
            let n = config_after_update(c, None, None, Some(v), None, None, None, None);
            n == Config { fee_fund: v, ..c }
        }),
        forall|b: Buy, x: u64|
            b.config == config_after_update(c, None, None, Some(v), None, None, None, None)
                ==> #[trigger] buy_fee_fund(b, x) == fee_at(x, v),
{
}

/// Updating the liquidity operator alone leaves the operator who co-signs
/// buys, and every other setting, as they were; afterwards the new liquidity
/// operator passes the withdrawal's account check and the old one does not.
pub proof fn lemma_operator_lp_update_touches_only_the_operator_lp(c: Config, k: Pubkey)
    ensures
        ({
            let n = config_after_update(c, None, None, None, None, Some(k), None, None);
            n == Config { operator_lp: k, ..c }
        }),
        forall|w: Withdraw|
            w.config == config_after_update(c, None, None, None, None, Some(k), None, None)
                && w.vault.completed ==> (#[trigger] withdraw_error(w) is None <==> w.operator_lp
                == k),
{
}

/// An update that gives no setting leaves the configuration as it was.
pub proof fn lemma_empty_update_changes_nothing(c: Config)
    ensures
        config_after_update(c, None, None, None, None, None, None, None) == c,
{
}

/// Applying the same update twice has the effect of applying it once.
pub proof fn lemma_update_is_idempotent(
    c: Config,
    initial_token_reserve: Option<u64>,
    fee_platform: Option<u16>,
    fee_fund: Option<u16>,
    fund: Option<Pubkey>,
    new_operator_lp: Option<Pubkey>,
    new_fee_receiver: Option<Pubkey>,
    new_operator: Option<Pubkey>,
)
    ensures
        ({
            let once = config_after_update(
                c,
                initial_token_reserve,
                fee_platform,
                fee_fund,
                fund,
                new_operator_lp,
                new_fee_receiver,
                new_operator,
            );
            config_after_update(
                once,
                initial_token_reserve,
                fee_platform,
                fee_fund,
                fund,
                new_operator_lp,
                new_fee_receiver,
                new_operator,
            ) == once
        }),
{
}

} // verus!
