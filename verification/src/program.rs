use vstd::prelude::*;

use crate::constants::{MIN_SOL_TARGET, TOKEN_UNIT};
use crate::effects::{Effect, Role};
use crate::error::ErrorMessage;
use crate::event::{TokenCreatedEvent, TradingEvent, WithdrawEvent};
use crate::instructions::buy::{
    buy_accounts_after,
    buy_completes_trading,
    buy_effects,
    buy_account_error,
    buy_entry_runs,
    buy_token_out,
    buy_total_after,
    handler_buy,
    Buy,
};
use crate::instructions::create_token::{
    handler_create,
    is_new_token_metadata,
    TokenInit,
    TokenMetadata,
};
use crate::instructions::creator_buy::{
    creator_buy_accounts_after,
    creator_buy_completes_trading,
    creator_buy_effects,
    creator_buy_account_error,
    creator_buy_entry_runs,
    creator_buy_total_sol,
    creator_share,
    handler_creator_buy,
    CreatorBuy,
};
use crate::instructions::initialize::{handler_initialize, initialize_accounts_after, Initialize};
use crate::instructions::mint::{handler_mint, mint_accounts_after, mint_effects, mint_in_range, MintToken};
use crate::instructions::sell::{
    handler_sell,
    sell_accounts_after,
    sell_effects,
    sell_account_error,
    sell_entry_runs,
    sell_sol_out,
    sell_total_before,
    Sell,
};
use crate::instructions::update_config::{config_after_update, handle_update, Update};
use crate::instructions::withdraw::{
    handler_withdraw,
    lp_share,
    withdraw_effects,
    withdraw_error,
    withdraw_in_range,
    withdraw_sol,
    Withdraw,
};
use crate::state::Pubkey;

verus! {

/// Sets the program's configuration up.
pub fn initialize(accounts: &mut Initialize) -> (res: Result<(), ErrorMessage>)
    ensures
        res == Ok::<(), ErrorMessage>(()),
        *final(accounts) == initialize_accounts_after(*old(accounts)),
{
    handler_initialize(accounts)
}

/// Describes a new token's metadata and announces the token.
pub fn create_token(
    accounts: &TokenInit,
    name: String,
    ticker: String,
    uri: String,
    target_jeets_score: u16,
) -> (res: Result<(TokenCreatedEvent, TokenMetadata), ErrorMessage>)
    ensures
        res matches Ok((event, metadata)) && {
            &&& event == (TokenCreatedEvent {
                token: accounts.mint,
                creator: accounts.payer,
                total_supply: accounts.config.initial_token_reserve,
                target_jeets_score,
            })
            &&& is_new_token_metadata(metadata, name, ticker, uri)
        },
{
    let ((token, creator, total_supply), metadata) = match handler_create(
        accounts,
        name,
        ticker,
        uri,
    ) {
        Ok(v) => v,
        Err(e) => return Err(e),
    };
    Ok((TokenCreatedEvent { token, creator, total_supply, target_jeets_score }, metadata))
}

/// Mints a token's supply into its vault and opens trading.
pub fn mint(
    accounts: &mut MintToken,
    creator: Pubkey,
    price: u64,
    sol_target: u128,
    max_buy: u64,
) -> (res: Result<Vec<Effect>, ErrorMessage>)
    requires
        mint_in_range(sol_target, max_buy),
    ensures
        sol_target <= MIN_SOL_TARGET ==> res == Err::<Vec<Effect>, ErrorMessage>(
            ErrorMessage::InvalidSolTarget,
        ) && *final(accounts) == *old(accounts),
        sol_target > MIN_SOL_TARGET ==> (res matches Ok(effects) && {
            &&& effects@ == mint_effects(*old(accounts))
            &&& *final(accounts) == mint_accounts_after(
                *old(accounts),
                creator,
                price,
                sol_target,
                max_buy,
            )
        }),
        sol_target > MIN_SOL_TARGET ==> (res matches Ok(effects) && {
            &&& effects@.len() == 1
            &&& effects@[0] == (Effect::MintTo {
                to: Role::VaultTokens,
                amount: old(accounts).config.initial_token_reserve,
            })
            &&& final(accounts).vault.initial_token_reserve == old(accounts).config.initial_token_reserve
            &&& final(accounts).vault.token_supply == old(accounts).config.initial_token_reserve
            &&& final(accounts).vault.decimal == old(accounts).config.decimal
            &&& final(accounts).vault.mint == old(accounts).mint
            &&& final(accounts).vault.creator == creator
            &&& final(accounts).vault.price == price
            &&& final(accounts).vault.sol_target == sol_target
            &&& final(accounts).vault.max_token_buy == max_buy * TOKEN_UNIT
            &&& final(accounts).config == old(accounts).config
        }),
{
    handler_mint(accounts, creator, price, sol_target, max_buy)
}

/// Buys tokens and announces the trade. A buy that the account checks refuse
/// returns their error and changes nothing; one that the buy's own rules
/// refuse stops the program, so it is left out here.
pub fn buy(accounts: &mut Buy, amount_sol: u64) -> (res: Result<
    (TradingEvent, Vec<Effect>),
    ErrorMessage,
>)
    requires
        buy_entry_runs(*old(accounts), amount_sol),
    ensures
        buy_account_error(*old(accounts), amount_sol) matches Some(e) ==> res == Err::<
            (TradingEvent, Vec<Effect>),
            ErrorMessage,
        >(e) && *final(accounts) == *old(accounts),
        buy_account_error(*old(accounts), amount_sol) is None ==> (res matches Ok((event, effects)) && {
            let a = *old(accounts);
            &&& event == (TradingEvent {
                token: a.mint,
                account: a.buyer,
                amount_sol,
                amount_token: buy_token_out(a, amount_sol) as u64,
                is_buy: true,
                virtual_sol_reserve: buy_total_after(a, amount_sol) as u64,
                virtual_token_reserve: (a.associate_vault_amount - buy_token_out(
                    a,
                    amount_sol,
                )) as u64,
                completed: buy_completes_trading(a, amount_sol),
            })
            &&& effects@ == buy_effects(a, amount_sol)
            &&& *final(accounts) == buy_accounts_after(a, amount_sol)
        }),
{
    match handler_buy(accounts, amount_sol) {
        Ok(
            (
                (
                    token,
                    account,
                    virtual_sol_reserve,
                    virtual_token_reserve,
                    amount_sol,
                    amount_token,
                    completed,
                ),
                effects,
            ),
        ) => {
            Ok(
                (
                    TradingEvent {
                        token,
                        account,
                        amount_sol,
                        amount_token,
                        is_buy: true,
                        virtual_sol_reserve,
                        virtual_token_reserve,
                        completed,
                    },
                    effects,
                ),
            )
        },
        Err(e) => Err(e),
    }
}

/// Gives the creator the creator's share and announces it as a buy. A call
/// that the account checks refuse returns their error and changes nothing;
/// one that the buy's own rule refuses stops the program, so it is left out
/// here.
pub fn creator_buy(accounts: &mut CreatorBuy) -> (res: Result<
    (TradingEvent, Vec<Effect>),
    ErrorMessage,
>)
    requires
        creator_buy_entry_runs(*old(accounts)),
    ensures
        creator_buy_account_error(*old(accounts)) matches Some(e) ==> res == Err::<
            (TradingEvent, Vec<Effect>),
            ErrorMessage,
        >(e) && *final(accounts) == *old(accounts),
        creator_buy_account_error(*old(accounts)) is None ==> (res matches Ok((event, effects)) && {
            let a = *old(accounts);
            &&& event == (TradingEvent {
                token: a.mint,
                account: a.buyer,
                amount_sol: 0,
                amount_token: creator_share(a) as u64,
                is_buy: true,
                virtual_sol_reserve: creator_buy_total_sol(a) as u64,
                virtual_token_reserve: (a.associate_vault_amount - creator_share(a)) as u64,
                completed: creator_buy_completes_trading(a),
            })
            &&& effects@ == creator_buy_effects(a)
            &&& *final(accounts) == creator_buy_accounts_after(a)
        }),
{
    match handler_creator_buy(accounts) {
        Ok(
            (
                (
                    token,
                    account,
                    virtual_sol_reserve,
                    virtual_token_reserve,
                    amount_sol,
                    amount_token,
                    completed,
                ),
                effects,
            ),
        ) => {
            Ok(
                (
                    TradingEvent {
                        token,
                        account,
                        amount_sol,
                        amount_token,
                        is_buy: true,
                        virtual_sol_reserve: virtual_sol_reserve as u64,
                        virtual_token_reserve,
                        completed,
                    },
                    effects,
                ),
            )
        },
        Err(e) => Err(e),
    }
}

/// Sells tokens and announces the trade. A sell that the account checks
/// refuse returns their error and changes nothing; one that the sell's own
/// rules refuse stops the program, so it is left out here.
pub fn sell(accounts: &mut Sell, amount_token: u64) -> (res: Result<
    (TradingEvent, Vec<Effect>),
    ErrorMessage,
>)
    requires
        sell_entry_runs(*old(accounts), amount_token),
    ensures
        sell_account_error(*old(accounts), amount_token) matches Some(e) ==> res == Err::<
            (TradingEvent, Vec<Effect>),
            ErrorMessage,
        >(e) && *final(accounts) == *old(accounts),
        sell_account_error(*old(accounts), amount_token) is None ==> (res matches Ok((event, effects)) && {
            let a = *old(accounts);
            &&& event == (TradingEvent {
                token: a.mint,
                account: a.seller,
                amount_sol: sell_sol_out(a, amount_token) as u64,
                amount_token,
                is_buy: false,
                virtual_sol_reserve: (sell_total_before(a) - sell_sol_out(a, amount_token)) as u64,
                virtual_token_reserve: (a.ata_vault_amount + amount_token) as u64,
                completed: false,
            })
            &&& effects@ == sell_effects(a, amount_token)
            &&& *final(accounts) == sell_accounts_after(a, amount_token)
        }),
{
    match handler_sell(accounts, amount_token) {
        Ok(
            (
                (
                    token,
                    account,
                    virtual_sol_reserve,
                    virtual_token_reserve,
                    amount_sol,
                    amount_token,
                ),
                effects,
            ),
        ) => {
            Ok(
                (
                    TradingEvent {
                        token,
                        account,
                        amount_sol,
                        amount_token,
                        is_buy: false,
                        virtual_sol_reserve: virtual_sol_reserve as u64,
                        virtual_token_reserve,
                        completed: false,
                    },
                    effects,
                ),
            )
        },
        Err(e) => Err(e),
    }
}

/// Empties a completed vault and announces it; where the account checks
/// refuse, returns their error.
pub fn withdraw(accounts: &Withdraw) -> (res: Result<(WithdrawEvent, Vec<Effect>), ErrorMessage>)
    requires
        withdraw_in_range(*accounts),
    ensures
        withdraw_error(*accounts) matches Some(e) ==> res == Err::<
            (WithdrawEvent, Vec<Effect>),
            ErrorMessage,
        >(e),
        withdraw_error(*accounts) is None ==> (res matches Ok((event, effects)) && {
            &&& event == (WithdrawEvent {
                token: accounts.mint,
                account: accounts.operator_lp,
                amount_sol: lp_share(withdraw_sol(*accounts)) as u64,
                amount_token: lp_share(accounts.ata_vault_amount as int) as u64,
            })
            &&& effects@ == withdraw_effects(*accounts)
        }),
{
    match handler_withdraw(accounts) {
        Ok(((token, account, _, _, amount_sol, amount_token), effects)) => {
            Ok((WithdrawEvent { token, account, amount_sol, amount_token }, effects))
        },
        Err(e) => Err(e),
    }
}

/// Replaces the given configuration settings.
pub fn update_config(
    accounts: &mut Update,
    initial_token_reserve: Option<u64>,
    fee_platform: Option<u16>,
    fee_fund: Option<u16>,
    fund: Option<Pubkey>,
    new_operator_lp: Option<Pubkey>,
    new_fee_receiver: Option<Pubkey>,
    new_operator: Option<Pubkey>,
) -> (res: Result<(), ErrorMessage>)
    ensures
        res == Ok::<(), ErrorMessage>(()),
        match initial_token_reserve {
            Some(v) => final(accounts).config.initial_token_reserve == v,
            None => final(accounts).config.initial_token_reserve == old(accounts).config.initial_token_reserve,
        },
        match fee_platform {
            Some(v) => final(accounts).config.fee_platform == v,
            None => final(accounts).config.fee_platform == old(accounts).config.fee_platform,
        },
        match fee_fund {
            Some(v) => final(accounts).config.fee_fund == v,
            None => final(accounts).config.fee_fund == old(accounts).config.fee_fund,
        },
        match fund {
            Some(k) => final(accounts).config.fund == k,
            None => final(accounts).config.fund == old(accounts).config.fund,
        },
        match new_operator_lp {
            Some(k) => final(accounts).config.operator_lp == k,
            None => final(accounts).config.operator_lp == old(accounts).config.operator_lp,
        },
        match new_fee_receiver {
            Some(k) => final(accounts).config.fee_receiver == k,
            None => final(accounts).config.fee_receiver == old(accounts).config.fee_receiver,
        },
        match new_operator {
            Some(k) => final(accounts).config.operator == k,
            None => final(accounts).config.operator == old(accounts).config.operator,
        },
        final(accounts).config.decimal == old(accounts).config.decimal,
        final(accounts).operator == old(accounts).operator,
        final(accounts).config == config_after_update(
            old(accounts).config,
            initial_token_reserve,
            fee_platform,
            fee_fund,
            fund,
            new_operator_lp,
            new_fee_receiver,
            new_operator,
        ),
{
    handle_update(
        accounts,
        initial_token_reserve,
        fee_platform,
        fee_fund,
        fund,
        new_operator_lp,
        new_fee_receiver,
        new_operator,
    )
}

} // verus!
