use vstd::prelude::*;

use crate::constants::{PERCENT, VAULT_RENT_LAMPORTS};
use crate::effects::{Effect, Role};
use crate::error::ErrorMessage;
use crate::state::{Config, Holder, Pubkey, Vault};
use crate::utils::fee::{calculate_fee, fee_at, fee_inputs_valid};

verus! {

/// What a sell reads of its accounts.
#[derive(Clone, Copy, Debug)]
pub struct Sell {
    pub seller: Pubkey,
    pub config: Config,
    pub mint: Pubkey,
    pub vault: Vault,
    /// Lamports the vault holds, its rent included.
    pub vault_lamports: u64,
    /// Tokens in the vault's token account.
    pub ata_vault_amount: u64,
    /// The seller's holder record for this token.
    pub pda_holder: Holder,
    /// Tokens in the seller's token account.
    pub associate_user_amount: u64,
    /// The account given as the fee receiver.
    pub fee_receiver: Pubkey,
    /// The account given as the fund.
    pub fund: Pubkey,
}

/// SOL the vault has collected before the sell.
pub open spec fn sell_total_before(a: Sell) -> int {
    a.vault_lamports - VAULT_RENT_LAMPORTS
}

/// Lamports that `max_amount_token` tokens fetch: `max_amount_token * price /
/// amount_token_received_per_slot`, kept to its low 64 bits.
pub open spec fn sell_sol_out(a: Sell, max_amount_token: u64) -> int {
    ((max_amount_token * a.vault.price) / (a.vault.amount_token_received_per_slot as int))
        % 0x1_0000_0000_0000_0000
}

/// The fund fee taken from the lamports a sell fetches.
pub open spec fn sell_fee_fund(a: Sell, max_amount_token: u64) -> int {
    fee_at(sell_sol_out(a, max_amount_token) as u64, a.config.fee_fund)
}

/// The accounts after a sell succeeds: the holder record drops by the
/// tokens sold.
pub open spec fn sell_accounts_after(a: Sell, max_amount_token: u64) -> Sell {
    Sell {
        pda_holder: Holder {
            amount_token_received: (a.pda_holder.amount_token_received - max_amount_token) as u64,
            ..a.pda_holder
        },
        ..a
    }
}

/// The movements of a sell that succeeds: the tokens to the vault, the
/// lamports out of the vault, the fund fee to the fund and the rest to the
/// seller.
pub open spec fn sell_effects(a: Sell, max_amount_token: u64) -> Seq<Effect> {
    let sol_out = sell_sol_out(a, max_amount_token);
    let fee_fund = sell_fee_fund(a, max_amount_token);
    seq![
        Effect::TokenTransfer {
            from: Role::UserTokens,
            to: Role::VaultTokens,
            amount: max_amount_token,
            vault_signs: false,
        },
        Effect::Debit { account: Role::Vault, lamports: sol_out as u64 },
        Effect::Credit { account: Role::Fund, lamports: fee_fund as u64 },
        Effect::Credit { account: Role::User, lamports: (sol_out - fee_fund) as u64 },
    ]
}

/// The error of the account checks that precede a sell, if any: the
/// configured fund and fee receiver, the vault still trading, the holder
/// record belonging to the seller, and the seller holding the tokens.
pub open spec fn sell_account_error(a: Sell, max_amount_token: u64) -> Option<ErrorMessage> {
    if a.config.fund != a.fund || a.config.fee_receiver != a.fee_receiver {
        Some(ErrorMessage::ConstraintHasOne)
    } else if a.vault.completed {
        Some(ErrorMessage::TradingEnd)
    } else if a.pda_holder.holder != a.seller {
        Some(ErrorMessage::InvalidPda)
    } else if a.associate_user_amount < max_amount_token {
        Some(ErrorMessage::InsufficientToken)
    } else {
        None
    }
}

/// The error that a sell returns, if any, in the order the checks are made.
pub open spec fn sell_error(a: Sell, max_amount_token: u64) -> Option<ErrorMessage> {
    if sell_account_error(a, max_amount_token) is Some {
        sell_account_error(a, max_amount_token)
    } else if !(sell_sol_out(a, max_amount_token) > 0 && sell_sol_out(a, max_amount_token)
        <= sell_total_before(a)) {
        Some(ErrorMessage::InvalidAmountSolTrade)
    } else if sell_sol_out(a, max_amount_token) - sell_fee_fund(a, max_amount_token) == 0 {
        Some(ErrorMessage::InvalidAmountSol)
    } else {
        None
    }
}

/// The inputs on which a sell runs to an answer: the vault holds its rent,
/// the per-slot amount is not zero, the fee can be taken, the vault's token
/// account can take the tokens, and the holder record covers them.
pub open spec fn sell_in_range(a: Sell, max_amount_token: u64) -> bool {
    ||| sell_account_error(a, max_amount_token) is Some
    ||| {
        &&& a.vault_lamports >= VAULT_RENT_LAMPORTS
        &&& a.vault.amount_token_received_per_slot > 0
        &&& !(sell_sol_out(a, max_amount_token) > 0 && sell_sol_out(a, max_amount_token)
            <= sell_total_before(a)) || {
            &&& fee_inputs_valid(sell_sol_out(a, max_amount_token) as u64, 0, a.config.fee_fund)
            &&& sell_sol_out(a, max_amount_token) - sell_fee_fund(a, max_amount_token) == 0 || {
                &&& a.ata_vault_amount + max_amount_token <= u64::MAX
                &&& a.pda_holder.amount_token_received >= max_amount_token
            }
        }
    }
}

/// The account checks that precede a sell.
pub fn sell_account_check(accounts: &Sell, max_amount_token: u64) -> (r: Option<ErrorMessage>)
    ensures
        r == sell_account_error(*accounts, max_amount_token),
{
    if !accounts.config.fund.key_eq(&accounts.fund) || !accounts.config.fee_receiver.key_eq(
        &accounts.fee_receiver,
    ) {
        Some(ErrorMessage::ConstraintHasOne)
    } else if accounts.vault.completed {
        Some(ErrorMessage::TradingEnd)
    } else if !accounts.pda_holder.holder.key_eq(&accounts.seller) {
        Some(ErrorMessage::InvalidPda)
    } else if accounts.associate_user_amount < max_amount_token {
        Some(ErrorMessage::InsufficientToken)
    } else {
        None
    }
}

/// Whether a sell of `max_amount_token` runs to an answer on these accounts.
pub fn sell_in_range_check(accounts: &Sell, max_amount_token: u64) -> (r: bool)
    ensures
        r == sell_in_range(*accounts, max_amount_token),
{
    if sell_account_check(accounts, max_amount_token).is_some() {
        return true;
    }
    if accounts.vault_lamports < VAULT_RENT_LAMPORTS
        || accounts.vault.amount_token_received_per_slot == 0 {
        return false;
    }
    let price = accounts.vault.price;
    assert((max_amount_token as int) * (price as int) <= u128::MAX) by (nonlinear_arith)
        requires
            max_amount_token <= u64::MAX,
            price <= u64::MAX,
    {
        assert((max_amount_token as int) * (price as int) <= (u64::MAX as int) * (u64::MAX as int));
    }
    let quotient = (max_amount_token as u128) * (price as u128)
        / (accounts.vault.amount_token_received_per_slot as u128);
    let amount_sol_out = quotient as u64;
    assert(quotient as u64 == quotient % 0x1_0000_0000_0000_0000) by (bit_vector);
    let total = accounts.vault_lamports - VAULT_RENT_LAMPORTS;
    if !(amount_sol_out > 0 && amount_sol_out <= total) {
        return true;
    }
    let fee_fund = match amount_sol_out.checked_mul(accounts.config.fee_fund as u64) {
        Some(p) => p / PERCENT,
        None => return false,
    };
    if fee_fund > amount_sol_out {
        return false;
    }
    amount_sol_out - fee_fund == 0 || (accounts.ata_vault_amount.checked_add(
        max_amount_token,
    ).is_some() && accounts.pda_holder.amount_token_received >= max_amount_token)
}

/// The inputs on which the sell instruction runs to an answer: the handler
/// does, and it fails, if at all, only in the account checks. A failure of
/// the sell's own rules stops the program.
pub open spec fn sell_entry_runs(a: Sell, max_amount_token: u64) -> bool {
    &&& sell_in_range(a, max_amount_token)
    &&& (sell_account_error(a, max_amount_token) is Some || sell_error(a, max_amount_token) is None)
}

/// Sells `max_amount_token` tokens back to the vault at the vault's price.
/// The vault pays out the lamports they fetch, the fund fee to the fund and
/// the rest to the seller, and the holder record drops by the tokens sold.
///
/// Returns the mint, the seller, the vault's SOL after the sell, the vault's
/// tokens after the sell, the lamports paid out and the tokens sold, and the
/// movements to make. Only the holder record changes.
pub fn handler_sell(accounts: &mut Sell, max_amount_token: u64) -> (res: Result<
    ((Pubkey, Pubkey, u128, u64, u64, u64), Vec<Effect>),
    ErrorMessage,
>)
    requires
        sell_in_range(*old(accounts), max_amount_token),
    ensures
        match sell_error(*old(accounts), max_amount_token) {
            Some(e) => res == Err::<((Pubkey, Pubkey, u128, u64, u64, u64), Vec<Effect>), ErrorMessage>(e)
                && *final(accounts) == *old(accounts),
            None => res matches Ok((out, effects)) && {
                let a = *old(accounts);
                &&& out.0 == a.mint
                &&& out.1 == a.seller
                &&& out.2 == sell_total_before(a) - sell_sol_out(a, max_amount_token)
                &&& out.3 == a.ata_vault_amount + max_amount_token
                &&& out.4 == sell_sol_out(a, max_amount_token)
                &&& out.5 == max_amount_token
                &&& *final(accounts) == sell_accounts_after(a, max_amount_token)
                &&& effects@ == sell_effects(a, max_amount_token)
                &&& out.4 == ((max_amount_token * a.vault.price) / (
                a.vault.amount_token_received_per_slot as int)) % 0x1_0000_0000_0000_0000
                &&& out.2 == a.vault_lamports - 1746960 - out.4
                &&& final(accounts).pda_holder.amount_token_received
                    == a.pda_holder.amount_token_received - max_amount_token
            },
        },
{
    if let Some(e) = sell_account_check(accounts, max_amount_token) {
        return Err(e);
    }
    let price = accounts.vault.price;
    let amount_token_recevied_per_slot = accounts.vault.amount_token_received_per_slot;
    let mut current_total_sol = accounts.vault_lamports as u128 - VAULT_RENT_LAMPORTS as u128;
    let mut current_total_token = accounts.ata_vault_amount;
    assert((max_amount_token as int) * (price as int) <= u128::MAX) by (nonlinear_arith)
        requires
            max_amount_token <= u64::MAX,
            price <= u64::MAX,
    {
        assert((max_amount_token as int) * (price as int) <= (u64::MAX as int) * (u64::MAX as int));
    }
    let quotient = (max_amount_token as u128).checked_mul(price as u128).unwrap().checked_div(
        amount_token_recevied_per_slot as u128,
    ).unwrap();
    let amount_sol_out = quotient as u64;
    assert(quotient as u64 == quotient % 0x1_0000_0000_0000_0000) by (bit_vector);
    if !(amount_sol_out > 0 && (amount_sol_out as u128) <= current_total_sol) {
        return Err(ErrorMessage::InvalidAmountSolTrade);
    }
    let fees = calculate_fee(amount_sol_out, 0, accounts.config.fee_fund);
    let (amount_sol, _fee_platform, fee_fund) = match fees {
        Ok(t) => t,
        Err(e) => return Err(e),
    };
    if !(amount_sol > 0) {
        return Err(ErrorMessage::InvalidAmountSol);
    }
    let mut effects: Vec<Effect> = Vec::new();
    effects.push(
        Effect::TokenTransfer {
            from: Role::UserTokens,
            to: Role::VaultTokens,
            amount: max_amount_token,
            vault_signs: false,
        },
    );
    current_total_token = current_total_token.checked_add(max_amount_token).unwrap();
    accounts.pda_holder.amount_token_received =
        accounts.pda_holder.amount_token_received.checked_sub(max_amount_token).unwrap();
    effects.push(Effect::Debit { account: Role::Vault, lamports: amount_sol_out });
    effects.push(Effect::Credit { account: Role::Fund, lamports: fee_fund });
    effects.push(Effect::Credit { account: Role::User, lamports: amount_sol_out - fee_fund });
    current_total_sol = current_total_sol.checked_sub(amount_sol_out as u128).unwrap();
    Ok(
        (
            (
                accounts.mint,
                accounts.seller,
                current_total_sol,
                current_total_token,
                amount_sol_out,
                max_amount_token,
            ),
            effects,
        ),
    )
}

/// Whether the sell instruction runs to an answer on these accounts.
pub fn sell_entry_check(accounts: &Sell, max_amount_token: u64) -> (r: bool)
    ensures
        r == sell_entry_runs(*accounts, max_amount_token),
{
    if !sell_in_range_check(accounts, max_amount_token) {
        return false;
    }
    if sell_account_check(accounts, max_amount_token).is_some() {
        return true;
    }
    let mut trial = *accounts;
    handler_sell(&mut trial, max_amount_token).is_ok()
}

} // verus!
