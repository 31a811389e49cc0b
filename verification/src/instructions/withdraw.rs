use vstd::prelude::*;

use crate::constants::VAULT_RENT_LAMPORTS;
use crate::effects::{Effect, Role};
use crate::error::ErrorMessage;
use crate::state::{Config, Pubkey, Vault};

verus! {

/// What a withdrawal reads of its accounts.
#[derive(Clone, Copy, Debug)]
pub struct Withdraw {
    pub operator_lp: Pubkey,
    pub config: Config,
    pub mint: Pubkey,
    pub vault: Vault,
    /// Lamports the vault holds, its rent included.
    pub vault_lamports: u64,
    /// Tokens in the vault's token account.
    pub ata_vault_amount: u64,
    pub dev: Pubkey,
}

/// The liquidity operator's share of `amount`: ninety percent, rounded down.
pub open spec fn lp_share(amount: int) -> int {
    amount * 90 / 100
}

/// The dev's share of `amount`: ten percent, rounded down.
pub open spec fn dev_share(amount: int) -> int {
    amount * 10 / 100
}

/// SOL the vault has collected, its rent left out.
pub open spec fn withdraw_sol(a: Withdraw) -> int {
    a.vault_lamports - VAULT_RENT_LAMPORTS
}

/// The movements of a withdrawal: ninety percent of the vault's tokens to
/// the operator and the rest to the dev; the vault's whole balance out, ninety
/// percent of its SOL to the operator, and ten percent with the rent to the dev.
pub open spec fn withdraw_effects(a: Withdraw) -> Seq<Effect> {
    let token_lp = lp_share(a.ata_vault_amount as int);
    let sol = withdraw_sol(a);
    seq![
        Effect::TokenTransfer {
            from: Role::VaultTokens,
            to: Role::OperatorLpTokens,
            amount: token_lp as u64,
            vault_signs: true,
        },
        Effect::TokenTransfer {
            from: Role::VaultTokens,
            to: Role::DevTokens,
            amount: (a.ata_vault_amount - token_lp) as u64,
            vault_signs: true,
        },
        Effect::Debit { account: Role::Vault, lamports: a.vault_lamports },
        Effect::Credit { account: Role::OperatorLp, lamports: lp_share(sol) as u64 },
        Effect::Credit { account: Role::Dev, lamports: (dev_share(sol) + VAULT_RENT_LAMPORTS) as u64 },
    ]
}

/// The error of the account checks that precede a withdrawal, if any: the
/// signer being the configured liquidity operator, then the vault having
/// completed.
pub open spec fn withdraw_error(a: Withdraw) -> Option<ErrorMessage> {
    if a.config.operator_lp != a.operator_lp {
        Some(ErrorMessage::ConstraintHasOne)
    } else if !a.vault.completed {
        Some(ErrorMessage::TradingNotEnd)
    } else {
        None
    }
}

/// The inputs on which a withdrawal runs to an answer: the vault holds its
/// rent and ninety times its tokens and its SOL fit in a `u64`.
pub open spec fn withdraw_in_range(a: Withdraw) -> bool {
    ||| withdraw_error(a) is Some
    ||| {
        &&& a.ata_vault_amount * 90 <= u64::MAX
        &&& a.vault_lamports >= VAULT_RENT_LAMPORTS
        &&& withdraw_sol(a) * 90 <= u64::MAX
    }
}

/// The account checks that precede a withdrawal.
pub fn withdraw_check(accounts: &Withdraw) -> (r: Option<ErrorMessage>)
    ensures
        r == withdraw_error(*accounts),
{
    if !accounts.config.operator_lp.key_eq(&accounts.operator_lp) {
        Some(ErrorMessage::ConstraintHasOne)
    } else if !accounts.vault.completed {
        Some(ErrorMessage::TradingNotEnd)
    } else {
        None
    }
}

/// Whether a withdrawal runs to an answer on these accounts.
pub fn withdraw_in_range_check(accounts: &Withdraw) -> (r: bool)
    ensures
        r == withdraw_in_range(*accounts),
{
    withdraw_check(accounts).is_some() || (accounts.ata_vault_amount.checked_mul(90).is_some()
        && accounts.vault_lamports >= VAULT_RENT_LAMPORTS && (accounts.vault_lamports
        - VAULT_RENT_LAMPORTS).checked_mul(90).is_some())
}

/// Empties a completed vault for the configured liquidity operator: ninety percent of its tokens and SOL go to the
/// liquidity operator, the rest of the tokens, ten percent of the SOL and the
/// vault's rent to the dev account. The vault's whole balance is taken.
///
/// Returns the mint, the operator, two zeros, the operator's SOL and the
/// operator's tokens, and the movements to make.
pub fn handler_withdraw(accounts: &Withdraw) -> (res: Result<
    ((Pubkey, Pubkey, u64, u64, u64, u64), Vec<Effect>),
    ErrorMessage,
>)
    requires
        withdraw_in_range(*accounts),
    ensures
        withdraw_error(*accounts) matches Some(e) ==> res == Err::<
            ((Pubkey, Pubkey, u64, u64, u64, u64), Vec<Effect>),
            ErrorMessage,
        >(e),
        withdraw_error(*accounts) is None ==> (res matches Ok((out, effects)) && {
            let a = *accounts;
            let token_lp = lp_share(a.ata_vault_amount as int);
            let sol = withdraw_sol(a);
            &&& out == (a.mint, a.operator_lp, 0u64, 0u64, lp_share(sol) as u64, token_lp as u64)
            &&& effects@ == withdraw_effects(a)
            &&& out.4 == (a.vault_lamports - 1746960) * 90 / 100
            &&& out.5 == a.ata_vault_amount * 90 / 100
        }),
{
    if let Some(e) = withdraw_check(accounts) {
        return Err(e);
    }
    let amount_token = accounts.ata_vault_amount;
    let amount_token_lp = amount_token.checked_mul(90).unwrap().checked_div(100).unwrap();
    let mut effects: Vec<Effect> = Vec::new();
    effects.push(
        Effect::TokenTransfer {
            from: Role::VaultTokens,
            to: Role::OperatorLpTokens,
            amount: amount_token_lp,
            vault_signs: true,
        },
    );
    effects.push(
        Effect::TokenTransfer {
            from: Role::VaultTokens,
            to: Role::DevTokens,
            amount: amount_token.checked_sub(amount_token_lp).unwrap(),
            vault_signs: true,
        },
    );
    let amount_sol = accounts.vault_lamports - VAULT_RENT_LAMPORTS;
    effects.push(Effect::Debit { account: Role::Vault, lamports: amount_sol + VAULT_RENT_LAMPORTS });
    let amount_sol_lp = amount_sol.checked_mul(90).unwrap().checked_div(100).unwrap();
    effects.push(Effect::Credit { account: Role::OperatorLp, lamports: amount_sol_lp });
    effects.push(
        Effect::Credit {
            account: Role::Dev,
            lamports: amount_sol.checked_mul(10).unwrap().checked_div(100).unwrap()
                + VAULT_RENT_LAMPORTS,
        },
    );
    Ok(((accounts.mint, accounts.operator_lp, 0, 0, amount_sol_lp, amount_token_lp), effects))
}

} // verus!
