use vstd::prelude::*;

use crate::constants::{PERCENT, TOKEN_UNIT, VAULT_RENT_LAMPORTS};
use crate::effects::{Effect, Role};
use crate::error::ErrorMessage;
use crate::state::{Config, Pubkey, Vault};
use crate::utils::fee::{calculate_fee, fee_at, fee_inputs_valid};

verus! {

/// What a buy reads of its accounts.
#[derive(Clone, Copy, Debug)]
pub struct Buy {
    pub buyer: Pubkey,
    /// Lamports the buyer holds.
    pub buyer_lamports: u64,
    pub config: Config,
    pub mint: Pubkey,
    pub vault: Vault,
    /// Lamports the vault holds, its rent included.
    pub vault_lamports: u64,
    /// Tokens left in the vault's token account.
    pub associate_vault_amount: u64,
    /// Tokens in the buyer's token account.
    pub associate_user_amount: u64,
    /// The account given as the fund.
    pub fund: Pubkey,
    /// The account given as the operator.
    pub operator: Pubkey,
    /// Whether the operator signed the instruction.
    pub operator_signed: bool,
    /// Whether the account that marks this buyer's buy of this token exists
    /// already.
    pub pda_buyer_exists: bool,
}

/// SOL the vault has collected before the buy.
pub open spec fn buy_total_before(a: Buy) -> int {
    a.vault_lamports - VAULT_RENT_LAMPORTS
}

/// The fund fee that a buy of `max_amount_sol` pays.
pub open spec fn buy_fee_fund(a: Buy, max_amount_sol: u64) -> int {
    fee_at(max_amount_sol, a.config.fee_fund)
}

/// What counts against the SOL target: the amount less the fund fee.
pub open spec fn buy_amount_sol(a: Buy, max_amount_sol: u64) -> int {
    max_amount_sol - buy_fee_fund(a, max_amount_sol)
}

/// Tokens that `max_amount_sol` buys at the vault's price: `max_amount_sol *
/// 10^6 / price`, kept to its low 64 bits.
pub open spec fn buy_token_out(a: Buy, max_amount_sol: u64) -> int {
    ((max_amount_sol * TOKEN_UNIT) / (a.vault.price as int)) % 0x1_0000_0000_0000_0000
}

/// SOL the vault has collected after the buy: the whole amount, fee included.
pub open spec fn buy_total_after(a: Buy, max_amount_sol: u64) -> int {
    buy_total_before(a) + max_amount_sol
}

/// Whether a buy completes trading: the vault's SOL then equals the target.
pub open spec fn buy_completes_trading(a: Buy, max_amount_sol: u64) -> bool {
    buy_total_after(a, max_amount_sol) == a.vault.sol_target
}

/// The accounts after a buy that succeeds: the buyer's marker exists, and
/// of the vault only `completed` may change.
pub open spec fn buy_accounts_after(a: Buy, max_amount_sol: u64) -> Buy {
    Buy {
        vault: Vault { completed: buy_completes_trading(a, max_amount_sol), ..a.vault },
        pda_buyer_exists: true,
        ..a
    }
}

/// The movements of a buy that succeeds: the buyer's marker account, of
/// eight bytes, paid by the buyer; the fund fee to the fund where it is not
/// zero; the whole amount to the vault; and the tokens to the buyer.
pub open spec fn buy_effects(a: Buy, max_amount_sol: u64) -> Seq<Effect> {
    seq![Effect::CreateAccount { account: Role::BuyerMarker, payer: Role::User, space: 8 }] + (if buy_fee_fund(a, max_amount_sol) > 0 {
        seq![
            Effect::SystemTransfer {
                from: Role::User,
                to: Role::Fund,
                lamports: buy_fee_fund(a, max_amount_sol) as u64,
            },
        ]
    } else {
        seq![]
    }) + seq![
        Effect::SystemTransfer { from: Role::User, to: Role::Vault, lamports: max_amount_sol },
        Effect::TokenTransfer {
            from: Role::VaultTokens,
            to: Role::UserTokens,
            amount: buy_token_out(a, max_amount_sol) as u64,
            vault_signs: true,
        },
    ]
}

/// The error of the account checks that precede a buy, if any: the
/// operator's signature, the buyer's marker not existing yet (a buyer buys
/// each token once), the buyer's balance, the configured fund and operator,
/// and the vault still trading, in that order.
pub open spec fn buy_account_error(a: Buy, max_amount_sol: u64) -> Option<ErrorMessage> {
    if !a.operator_signed {
        Some(ErrorMessage::AccountNotSigner)
    } else if a.pda_buyer_exists {
        Some(ErrorMessage::AccountAlreadyInUse)
    } else if a.buyer_lamports < max_amount_sol {
        Some(ErrorMessage::InsufficientFund)
    } else if a.config.fund != a.fund || a.config.operator != a.operator {
        Some(ErrorMessage::ConstraintHasOne)
    } else if a.vault.completed {
        Some(ErrorMessage::TradingEnd)
    } else {
        None
    }
}

/// The error that a buy returns, if any, in the order the checks are made:
/// the account checks, then the buy's own rules.
pub open spec fn buy_error(a: Buy, max_amount_sol: u64) -> Option<ErrorMessage> {
    if buy_account_error(a, max_amount_sol) is Some {
        buy_account_error(a, max_amount_sol)
    } else if max_amount_sol == 0 {
        Some(ErrorMessage::InvalidAmountSol)
    } else if buy_amount_sol(a, max_amount_sol) == 0 {
        Some(ErrorMessage::InvalidAmountSol)
    } else if buy_amount_sol(a, max_amount_sol) + buy_total_before(a) > a.vault.sol_target {
        Some(ErrorMessage::InvalidAmountSolTrade)
    } else if buy_token_out(a, max_amount_sol) == 0 {
        Some(ErrorMessage::InvalidAmountToken)
    } else if !(a.associate_user_amount + buy_token_out(a, max_amount_sol) <= a.vault.max_token_buy
        || a.buyer == a.vault.creator) {
        Some(ErrorMessage::ExceedMaximum)
    } else {
        None
    }
}

/// The inputs on which a buy runs to an answer: every subtraction, division
/// and sum that it reaches stays in range. A buy that would take more tokens
/// than the vault holds is among the excluded inputs.
pub open spec fn buy_in_range(a: Buy, max_amount_sol: u64) -> bool {
    ||| buy_account_error(a, max_amount_sol) is Some
    ||| {
        &&& a.vault_lamports >= VAULT_RENT_LAMPORTS
        &&& max_amount_sol == 0 || {
            &&& fee_inputs_valid(max_amount_sol, 0, a.config.fee_fund)
            &&& buy_amount_sol(a, max_amount_sol) == 0 || {
                &&& buy_amount_sol(a, max_amount_sol) + buy_total_before(a) <= u64::MAX
                &&& buy_amount_sol(a, max_amount_sol) + buy_total_before(a) > a.vault.sol_target
                    || {
                    &&& buy_total_after(a, max_amount_sol) <= u64::MAX
                    &&& a.vault.price > 0
                    &&& buy_token_out(a, max_amount_sol) <= a.associate_vault_amount
                    &&& buy_token_out(a, max_amount_sol) == 0 || a.associate_user_amount
                        + buy_token_out(a, max_amount_sol) <= u64::MAX
                }
            }
        }
    }
}

/// The account checks that precede a buy.
pub fn buy_account_check(accounts: &Buy, max_amount_sol: u64) -> (r: Option<ErrorMessage>)
    ensures
        r == buy_account_error(*accounts, max_amount_sol),
{
    if !accounts.operator_signed {
        Some(ErrorMessage::AccountNotSigner)
    } else if accounts.pda_buyer_exists {
        Some(ErrorMessage::AccountAlreadyInUse)
    } else if accounts.buyer_lamports < max_amount_sol {
        Some(ErrorMessage::InsufficientFund)
    } else if !accounts.config.fund.key_eq(&accounts.fund) || !accounts.config.operator.key_eq(
        &accounts.operator,
    ) {
        Some(ErrorMessage::ConstraintHasOne)
    } else if accounts.vault.completed {
        Some(ErrorMessage::TradingEnd)
    } else {
        None
    }
}

/// Whether a buy of `max_amount_sol` runs to an answer on these accounts.
pub fn buy_in_range_check(accounts: &Buy, max_amount_sol: u64) -> (r: bool)
    ensures
        r == buy_in_range(*accounts, max_amount_sol),
{
    if buy_account_check(accounts, max_amount_sol).is_some() {
        return true;
    }
    if accounts.vault_lamports < VAULT_RENT_LAMPORTS {
        return false;
    }
    if max_amount_sol == 0 {
        return true;
    }
    let fee_fund = match max_amount_sol.checked_mul(accounts.config.fee_fund as u64) {
        Some(p) => p / PERCENT,
        None => return false,
    };
    if fee_fund > max_amount_sol {
        return false;
    }
    let amount_sol = max_amount_sol - fee_fund;
    if amount_sol == 0 {
        return true;
    }
    let total = accounts.vault_lamports - VAULT_RENT_LAMPORTS;
    let counted = match amount_sol.checked_add(total) {
        Some(c) => c,
        None => return false,
    };
    if counted as u128 > accounts.vault.sol_target {
        return true;
    }
    if total.checked_add(max_amount_sol).is_none() || accounts.vault.price == 0 {
        return false;
    }
    let quotient = (max_amount_sol as u128) * (TOKEN_UNIT as u128) / (accounts.vault.price as u128);
    let amount_token_out = quotient as u64;
    assert(quotient as u64 == quotient % 0x1_0000_0000_0000_0000) by (bit_vector);
    if amount_token_out > accounts.associate_vault_amount {
        return false;
    }
    amount_token_out == 0 || accounts.associate_user_amount.checked_add(amount_token_out).is_some()
}

/// The inputs on which the buy instruction runs to an answer: the handler
/// does, and it fails, if at all, only in the account checks. A failure of
/// the buy's own rules stops the program.
pub open spec fn buy_entry_runs(a: Buy, max_amount_sol: u64) -> bool {
    &&& buy_in_range(a, max_amount_sol)
    &&& (buy_account_error(a, max_amount_sol) is Some || buy_error(a, max_amount_sol) is None)
}

/// Buys tokens from the vault for `max_amount_sol` lamports at the vault's
/// fixed price. The buyer pays the fund fee on top, to the fund, and the whole
/// amount to the vault; the fee is left out only where the SOL target is
/// checked. Trading completes once the vault's SOL equals the target exactly.
///
/// Returns the mint, the buyer, the vault's SOL after the buy, the tokens the
/// vault has left, the amount paid and the tokens bought, whether trading has
/// completed, and the movements to make. The buyer's marker comes to exist and
/// only `completed` of the vault changes.
pub fn handler_buy(accounts: &mut Buy, max_amount_sol: u64) -> (res: Result<
    ((Pubkey, Pubkey, u64, u64, u64, u64, bool), Vec<Effect>),
    ErrorMessage,
>)
    requires
        buy_in_range(*old(accounts), max_amount_sol),
    ensures
        match buy_error(*old(accounts), max_amount_sol) {
            Some(e) => res == Err::<((Pubkey, Pubkey, u64, u64, u64, u64, bool), Vec<Effect>), ErrorMessage>(e)
                && *final(accounts) == *old(accounts),
            None => res matches Ok((out, effects)) && {
                let a = *old(accounts);
                &&& out.0 == a.mint
                &&& out.1 == a.buyer
                &&& out.2 == buy_total_after(a, max_amount_sol)
                &&& out.3 == a.associate_vault_amount - buy_token_out(a, max_amount_sol)
                &&& out.4 == max_amount_sol
                &&& out.5 == buy_token_out(a, max_amount_sol)
                &&& out.6 == buy_completes_trading(a, max_amount_sol)
                &&& *final(accounts) == buy_accounts_after(a, max_amount_sol)
                &&& effects@ == buy_effects(a, max_amount_sol)
                &&& out.2 == a.vault_lamports - 1746960 + max_amount_sol
                &&& out.5 == ((max_amount_sol * 1000000) / (a.vault.price as int))
                    % 0x1_0000_0000_0000_0000
                &&& out.3 == a.associate_vault_amount - out.5
                &&& out.6 == (out.2 == a.vault.sol_target)
                &&& final(accounts).vault.completed == out.6
                &&& final(accounts).pda_buyer_exists
            },
        },
{
    if let Some(e) = buy_account_check(accounts, max_amount_sol) {
        return Err(e);
    }
    let mut current_total_sol = accounts.vault_lamports - VAULT_RENT_LAMPORTS;
    if !(max_amount_sol > 0) {
        return Err(ErrorMessage::InvalidAmountSol);
    }
    let fees = calculate_fee(max_amount_sol, 0, accounts.config.fee_fund);
    let (amount_sol, _fee_platform, fee_fund) = match fees {
        Ok(t) => t,
        Err(e) => return Err(e),
    };
    if !(amount_sol > 0) {
        return Err(ErrorMessage::InvalidAmountSol);
    }
    let counted = amount_sol.checked_add(current_total_sol).unwrap();
    if !(counted as u128 <= accounts.vault.sol_target) {
        return Err(ErrorMessage::InvalidAmountSolTrade);
    }
    let mut effects: Vec<Effect> = Vec::new();
    effects.push(Effect::CreateAccount { account: Role::BuyerMarker, payer: Role::User, space: 8 });
    if fee_fund > 0 {
        effects.push(
            Effect::SystemTransfer { from: Role::User, to: Role::Fund, lamports: fee_fund },
        );
    }
    effects.push(
        Effect::SystemTransfer { from: Role::User, to: Role::Vault, lamports: max_amount_sol },
    );
    current_total_sol = current_total_sol.checked_add(max_amount_sol).unwrap();

    let token_reserve = accounts.associate_vault_amount;
    let price = accounts.vault.price;
    let quotient = (max_amount_sol as u128).checked_mul(TOKEN_UNIT as u128).unwrap().checked_div(
        price as u128,
    ).unwrap();
    let amount_token_out = quotient as u64;
    assert(quotient as u64 == quotient % 0x1_0000_0000_0000_0000) by (bit_vector);
    let remaining_token = token_reserve.checked_sub(amount_token_out).unwrap();

    if !(amount_token_out > 0 && amount_token_out <= token_reserve) {
        return Err(ErrorMessage::InvalidAmountToken);
    }
    let amount_token_holding = accounts.associate_user_amount + amount_token_out;
    if !(amount_token_holding <= accounts.vault.max_token_buy || accounts.buyer.key_eq(
        &accounts.vault.creator,
    )) {
        return Err(ErrorMessage::ExceedMaximum);
    }
    effects.push(
        Effect::TokenTransfer {
            from: Role::VaultTokens,
            to: Role::UserTokens,
            amount: amount_token_out,
            vault_signs: true,
        },
    );
    if current_total_sol as u128 == accounts.vault.sol_target {
        accounts.vault.completed = true;
    }
    accounts.pda_buyer_exists = true;
    Ok(
        (
            (
                accounts.mint,
                accounts.buyer,
                current_total_sol,
                remaining_token,
                max_amount_sol,
                amount_token_out,
                accounts.vault.completed,
            ),
            effects,
        ),
    )
}

/// Whether the buy instruction runs to an answer on these accounts.
pub fn buy_entry_check(accounts: &Buy, max_amount_sol: u64) -> (r: bool)
    ensures
        r == buy_entry_runs(*accounts, max_amount_sol),
{
    if !buy_in_range_check(accounts, max_amount_sol) {
        return false;
    }
    if buy_account_check(accounts, max_amount_sol).is_some() {
        return true;
    }
    let mut trial = *accounts;
    handler_buy(&mut trial, max_amount_sol).is_ok()
}

} // verus!
