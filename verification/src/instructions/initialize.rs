use vstd::prelude::*;

use crate::constants::DEFAULT_INITIAL_TOKEN_RESERVE;
use crate::error::ErrorMessage;
use crate::state::{Config, Pubkey};

verus! {

/// What setting up the program reads of its accounts.
#[derive(Clone, Copy, Debug)]
pub struct Initialize {
    pub authority: Pubkey,
    pub operator: Pubkey,
    /// The configuration, as freshly created.
    pub config: Config,
}

/// The accounts after setting up: the configuration as `handler_initialize`
/// describes it.
pub open spec fn initialize_accounts_after(a: Initialize) -> Initialize {
    Initialize {
        config: Config {
            decimal: 6,
            initial_token_reserve: DEFAULT_INITIAL_TOKEN_RESERVE,
            operator: a.authority,
            operator_lp: a.operator,
            fee_receiver: a.authority,
            fee_platform: 50,
            fee_fund: 50,
            ..a.config
        },
        ..a
    }
}

/// Sets the configuration up: six decimals, the default supply, the
/// authority as operator and fee receiver, the given operator as liquidity
/// operator, and both fee rates at 0.5%. The fund is left as it is.
pub fn handler_initialize(accounts: &mut Initialize) -> (res: Result<(), ErrorMessage>)
    ensures
        res == Ok::<(), ErrorMessage>(()),
        *final(accounts) == initialize_accounts_after(*old(accounts)),
        final(accounts).authority == old(accounts).authority,
        final(accounts).operator == old(accounts).operator,
        final(accounts).config.decimal == 6,
        final(accounts).config.initial_token_reserve == 100_000_000_000_000_000,
        final(accounts).config.operator == old(accounts).authority,
        final(accounts).config.operator_lp == old(accounts).operator,
        final(accounts).config.fee_receiver == old(accounts).authority,
        final(accounts).config.fund == old(accounts).config.fund,
        final(accounts).config.fee_platform == 50,
        final(accounts).config.fee_fund == 50,
{
    accounts.config.decimal = 6;
    accounts.config.initial_token_reserve = DEFAULT_INITIAL_TOKEN_RESERVE;
    accounts.config.operator = accounts.authority;
    accounts.config.operator_lp = accounts.operator;
    accounts.config.fee_receiver = accounts.authority;
    accounts.config.fee_platform = 50;
    accounts.config.fee_fund = 50;
    Ok(())
}

} // verus!
