use vstd::prelude::*;

use crate::constants::{MIN_SOL_TARGET, TOKEN_UNIT};
use crate::effects::{Effect, Role};
use crate::error::ErrorMessage;
use crate::state::{Config, Pubkey, Vault};

verus! {

/// What minting a token's supply reads of its accounts.
#[derive(Clone, Copy, Debug)]
pub struct MintToken {
    pub payer: Pubkey,
    pub config: Config,
    pub mint: Pubkey,
    /// The vault, as freshly created.
    pub vault: Vault,
}

/// The inputs on which minting runs to an answer: where the target is
/// accepted, the holding limit in base units fits in a `u64`.
pub open spec fn mint_in_range(sol_target: u128, max_buy: u64) -> bool {
    sol_target <= MIN_SOL_TARGET || max_buy * TOKEN_UNIT <= u64::MAX
}

/// The accounts after minting succeeds: the vault is set up for trading and
/// keeps its other fields.
pub open spec fn mint_accounts_after(
    a: MintToken,
    creator: Pubkey,
    price: u64,
    sol_target: u128,
    max_buy: u64,
) -> MintToken {
    MintToken {
        vault: Vault {
            mint: a.mint,
            decimal: a.config.decimal,
            token_supply: a.config.initial_token_reserve,
            initial_token_reserve: a.config.initial_token_reserve,
            price,
            sol_target,
            creator,
            max_token_buy: (max_buy * TOKEN_UNIT) as u64,
            ..a.vault
        },
        ..a
    }
}

/// The movement of minting: the configured supply, minted into the vault's
/// token account.
pub open spec fn mint_effects(a: MintToken) -> Seq<Effect> {
    seq![Effect::MintTo { to: Role::VaultTokens, amount: a.config.initial_token_reserve }]
}

/// Whether minting with this target and limit runs to an answer.
pub fn mint_in_range_check(sol_target: u128, max_buy: u64) -> (r: bool)
    ensures
        r == mint_in_range(sol_target, max_buy),
{
    sol_target <= MIN_SOL_TARGET || max_buy.checked_mul(TOKEN_UNIT).is_some()
}

/// Mints the configured initial reserve into the vault's token account and
/// sets the vault up for trading at `price` lamports per whole token, with
/// the given creator, SOL target, and holding limit of `max_buy` whole tokens.
/// Fails with `InvalidSolTarget` unless the target exceeds 10 SOL, and then
/// changes nothing.
pub fn handler_mint(
    accounts: &mut MintToken,
    creator: Pubkey,
    price: u64,
    sol_target: u128,
    max_buy: u64,
) -> (res: Result<Vec<Effect>, ErrorMessage>)
    requires
        mint_in_range(sol_target, max_buy),
    ensures
        sol_target <= MIN_SOL_TARGET ==> res == Err::<Vec<Effect>, ErrorMessage>(
            ErrorMessage::InvalidSolTarget,
        ) && *final(accounts) == *old(accounts),
        sol_target > MIN_SOL_TARGET ==> (res matches Ok(effects) && {
            let a = *old(accounts);
            &&& effects@ == mint_effects(a)
            &&& *final(accounts) == mint_accounts_after(a, creator, price, sol_target, max_buy)
        }),
        sol_target > MIN_SOL_TARGET ==> (res matches Ok(effects) && {
            &&& effects@.len() == 1
            &&& effects@[0] == (Effect::MintTo {
                to: Role::VaultTokens,
                amount: old(accounts).config.initial_token_reserve,
            })
            &&& final(accounts).vault.initial_token_reserve == old(accounts).config.initial_token_reserve
            &&& final(accounts).vault.token_supply == old(accounts).config.initial_token_reserve
            &&& final(accounts).vault.decimal == old(accounts).config.decimal
            &&& final(accounts).vault.mint == old(accounts).mint
            &&& final(accounts).vault.creator == creator
            &&& final(accounts).vault.price == price
            &&& final(accounts).vault.sol_target == sol_target
            &&& final(accounts).vault.max_token_buy == max_buy * TOKEN_UNIT
            &&& final(accounts).config == old(accounts).config
        }),
{
    if !(sol_target > MIN_SOL_TARGET) {
        return Err(ErrorMessage::InvalidSolTarget);
    }
    let mut effects: Vec<Effect> = Vec::new();
    effects.push(
        Effect::MintTo { to: Role::VaultTokens, amount: accounts.config.initial_token_reserve },
    );
    accounts.vault.mint = accounts.mint;
    accounts.vault.decimal = accounts.config.decimal;
    accounts.vault.token_supply = accounts.config.initial_token_reserve;
    accounts.vault.initial_token_reserve = accounts.config.initial_token_reserve;
    accounts.vault.price = price;
    accounts.vault.sol_target = sol_target;
    accounts.vault.creator = creator;
    accounts.vault.max_token_buy = max_buy.checked_mul(TOKEN_UNIT).unwrap();
    Ok(effects)
}

} // verus!
