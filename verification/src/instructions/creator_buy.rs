use vstd::prelude::*;

use crate::constants::VAULT_RENT_LAMPORTS;
use crate::effects::{Effect, Role};
use crate::error::ErrorMessage;
use crate::state::{Config, Pubkey, Vault};

verus! {

/// What the creator's first buy reads of its accounts.
#[derive(Clone, Copy, Debug)]
pub struct CreatorBuy {
    pub buyer: Pubkey,
    pub config: Config,
    pub mint: Pubkey,
    pub vault: Vault,
    /// Lamports the vault holds, its rent included.
    pub vault_lamports: u64,
    /// Tokens left in the vault's token account.
    pub associate_vault_amount: u64,
    /// The account given as the fee receiver.
    pub fee_receiver: Pubkey,
    /// The account given as the fund.
    pub fund: Pubkey,
}

/// The creator's share: one percent of the initial reserve, free of charge.
pub open spec fn creator_share(a: CreatorBuy) -> int {
    a.vault.initial_token_reserve as int / 100
}

/// SOL the vault has collected.
pub open spec fn creator_buy_total_sol(a: CreatorBuy) -> int {
    a.vault_lamports - VAULT_RENT_LAMPORTS
}

/// Whether the creator's buy completes trading: the vault's SOL already
/// equals the target.
pub open spec fn creator_buy_completes_trading(a: CreatorBuy) -> bool {
    creator_buy_total_sol(a) == a.vault.sol_target
}

/// The accounts after the creator's buy succeeds: the vault records the buy
/// and may complete.
pub open spec fn creator_buy_accounts_after(a: CreatorBuy) -> CreatorBuy {
    CreatorBuy {
        vault: Vault {
            completed: creator_buy_completes_trading(a),
            creator_buy: true,
            ..a.vault
        },
        ..a
    }
}

/// The transfer of the creator's buy: the share from the vault to the creator.
pub open spec fn creator_buy_effects(a: CreatorBuy) -> Seq<Effect> {
    seq![
        Effect::TokenTransfer {
            from: Role::VaultTokens,
            to: Role::UserTokens,
            amount: creator_share(a) as u64,
            vault_signs: true,
        },
    ]
}

/// The error of the account checks that precede the creator's buy, if any:
/// the configured fund and fee receiver, then the vault still trading, its
/// creator being the buyer, and its creator's share not yet taken.
pub open spec fn creator_buy_account_error(a: CreatorBuy) -> Option<ErrorMessage> {
    if a.config.fund != a.fund || a.config.fee_receiver != a.fee_receiver {
        Some(ErrorMessage::ConstraintHasOne)
    } else if a.vault.completed {
        Some(ErrorMessage::TradingEnd)
    } else if a.vault.creator != a.buyer {
        Some(ErrorMessage::InvalidCreator)
    } else if a.vault.creator_buy {
        Some(ErrorMessage::BuyOnce)
    } else {
        None
    }
}

/// The error that the creator's buy returns, if any, in the order the checks
/// are made.
pub open spec fn creator_buy_error(a: CreatorBuy) -> Option<ErrorMessage> {
    if creator_buy_account_error(a) is Some {
        creator_buy_account_error(a)
    } else if creator_share(a) == 0 {
        Some(ErrorMessage::InvalidAmountToken)
    } else {
        None
    }
}

/// The inputs on which the creator's buy runs to an answer: the vault holds
/// its rent and the creator's share is not more than the vault's tokens.
pub open spec fn creator_buy_in_range(a: CreatorBuy) -> bool {
    ||| creator_buy_account_error(a) is Some
    ||| {
        &&& a.vault_lamports >= VAULT_RENT_LAMPORTS
        &&& creator_share(a) <= a.associate_vault_amount
    }
}

/// The account checks that precede the creator's buy.
pub fn creator_buy_account_check(accounts: &CreatorBuy) -> (r: Option<ErrorMessage>)
    ensures
        r == creator_buy_account_error(*accounts),
{
    if !accounts.config.fund.key_eq(&accounts.fund) || !accounts.config.fee_receiver.key_eq(
        &accounts.fee_receiver,
    ) {
        Some(ErrorMessage::ConstraintHasOne)
    } else if accounts.vault.completed {
        Some(ErrorMessage::TradingEnd)
    } else if !accounts.vault.creator.key_eq(&accounts.buyer) {
        Some(ErrorMessage::InvalidCreator)
    } else if accounts.vault.creator_buy {
        Some(ErrorMessage::BuyOnce)
    } else {
        None
    }
}

/// Whether the creator's buy runs to an answer on these accounts.
pub fn creator_buy_in_range_check(accounts: &CreatorBuy) -> (r: bool)
    ensures
        r == creator_buy_in_range(*accounts),
{
    creator_buy_account_check(accounts).is_some() || (accounts.vault_lamports >= VAULT_RENT_LAMPORTS
        && accounts.vault.initial_token_reserve / 100 <= accounts.associate_vault_amount)
}

/// The inputs on which the creator's buy instruction runs to an answer: the
/// handler does, and it fails, if at all, only in the account checks. A
/// failure of the buy's own rule stops the program.
pub open spec fn creator_buy_entry_runs(a: CreatorBuy) -> bool {
    &&& creator_buy_in_range(a)
    &&& (creator_buy_account_error(a) is Some || creator_buy_error(a) is None)
}

/// Gives the token's creator, once, one percent of the initial reserve without
/// payment. Trading completes where the vault's SOL already equals the target.
///
/// Returns the mint, the creator, the vault's SOL, the tokens the vault has
/// left, the amount paid (zero), the tokens received, whether trading has
/// completed, and the transfer to make. Of the vault, `creator_buy` becomes
/// true and `completed` may become true.
pub fn handler_creator_buy(accounts: &mut CreatorBuy) -> (res: Result<
    ((Pubkey, Pubkey, u128, u64, u64, u64, bool), Vec<Effect>),
    ErrorMessage,
>)
    requires
        creator_buy_in_range(*old(accounts)),
    ensures
        match creator_buy_error(*old(accounts)) {
            Some(e) => res == Err::<((Pubkey, Pubkey, u128, u64, u64, u64, bool), Vec<Effect>), ErrorMessage>(e)
                && *final(accounts) == *old(accounts),
            None => res matches Ok((out, effects)) && {
                let a = *old(accounts);
                &&& out.0 == a.mint
                &&& out.1 == a.buyer
                &&& out.2 == creator_buy_total_sol(a)
                &&& out.3 == a.associate_vault_amount - creator_share(a)
                &&& out.4 == 0
                &&& out.5 == creator_share(a)
                &&& out.6 == creator_buy_completes_trading(a)
                &&& *final(accounts) == creator_buy_accounts_after(a)
                &&& effects@ == creator_buy_effects(a)
                &&& out.5 == a.vault.initial_token_reserve / 100
                &&& out.2 == a.vault_lamports - 1746960
                &&& out.6 == (out.2 == a.vault.sol_target)
                &&& final(accounts).vault.completed == out.6
                &&& final(accounts).vault.creator_buy
            },
        },
{
    if let Some(e) = creator_buy_account_check(accounts) {
        return Err(e);
    }
    let current_total_sol = accounts.vault_lamports as u128 - VAULT_RENT_LAMPORTS as u128;
    let token_reserve = accounts.associate_vault_amount;
    let amount_token_out = (accounts.vault.initial_token_reserve as u128).checked_div(
        100,
    ).unwrap() as u64;
    let remaining_token = token_reserve.checked_sub(amount_token_out).unwrap();
    if !(amount_token_out > 0 && amount_token_out <= token_reserve) {
        return Err(ErrorMessage::InvalidAmountToken);
    }
    let mut effects: Vec<Effect> = Vec::new();
    effects.push(
        Effect::TokenTransfer {
            from: Role::VaultTokens,
            to: Role::UserTokens,
            amount: amount_token_out,
            vault_signs: true,
        },
    );
    if current_total_sol == accounts.vault.sol_target {
        accounts.vault.completed = true;
    }
    accounts.vault.creator_buy = true;
    Ok(
        (
            (
                accounts.mint,
                accounts.buyer,
                current_total_sol,
                remaining_token,
                0u64,
                amount_token_out,
                accounts.vault.completed,
            ),
            effects,
        ),
    )
}

/// Whether the creator's buy instruction runs to an answer on these accounts.
pub fn creator_buy_entry_check(accounts: &CreatorBuy) -> (r: bool)
    ensures
        r == creator_buy_entry_runs(*accounts),
{
    if !creator_buy_in_range_check(accounts) {
        return false;
    }
    if creator_buy_account_check(accounts).is_some() {
        return true;
    }
    let mut trial = *accounts;
    handler_creator_buy(&mut trial).is_ok()
}

} // verus!
