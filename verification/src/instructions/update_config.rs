use vstd::prelude::*;

use crate::error::ErrorMessage;
use crate::state::{Config, Pubkey};

verus! {

/// What updating the configuration reads of its accounts.
#[derive(Clone, Copy, Debug)]
pub struct Update {
    pub operator: Pubkey,
    pub config: Config,
}

/// `new` where it is given, else `current`.
pub open spec fn updated<T>(current: T, new: Option<T>) -> T {
    match new {
        Some(v) => v,
        None => current,
    }
}

/// The configuration with every given setting replaced and every other kept.
pub open spec fn config_after_update(
    c: Config,
    initial_token_reserve: Option<u64>,
    fee_platform: Option<u16>,
    fee_fund: Option<u16>,
    fund: Option<Pubkey>,
    new_operator_lp: Option<Pubkey>,
    new_fee_receiver: Option<Pubkey>,
    new_operator: Option<Pubkey>,
) -> Config {
    Config {
        initial_token_reserve: updated(c.initial_token_reserve, initial_token_reserve),
        decimal: c.decimal,
        operator: updated(c.operator, new_operator),
        operator_lp: updated(c.operator_lp, new_operator_lp),
        fund: updated(c.fund, fund),
        fee_receiver: updated(c.fee_receiver, new_fee_receiver),
        fee_platform: updated(c.fee_platform, fee_platform),
        fee_fund: updated(c.fee_fund, fee_fund),
    }
}

/// Replaces each configuration setting that is given and keeps the others.
/// No setting is checked: any fee rate and any address is taken.
pub fn handle_update(
    accounts: &mut Update,
    initial_token_reserve: Option<u64>,
    fee_platform: Option<u16>,
    fee_fund: Option<u16>,
    fund: Option<Pubkey>,
    new_operator_lp: Option<Pubkey>,
    new_fee_receiver: Option<Pubkey>,
    new_operator: Option<Pubkey>,
) -> (res: Result<(), ErrorMessage>)
    ensures
        res == Ok::<(), ErrorMessage>(()),
        match initial_token_reserve {
            Some(v) => final(accounts).config.initial_token_reserve == v,
            None => final(accounts).config.initial_token_reserve == old(accounts).config.initial_token_reserve,
        },
        match fee_platform {
            Some(v) => final(accounts).config.fee_platform == v,
            None => final(accounts).config.fee_platform == old(accounts).config.fee_platform,
        },
        match fee_fund {
            Some(v) => final(accounts).config.fee_fund == v,
            None => final(accounts).config.fee_fund == old(accounts).config.fee_fund,
        },
        match fund {
            Some(k) => final(accounts).config.fund == k,
            None => final(accounts).config.fund == old(accounts).config.fund,
        },
        match new_operator_lp {
            Some(k) => final(accounts).config.operator_lp == k,
            None => final(accounts).config.operator_lp == old(accounts).config.operator_lp,
        },
        match new_fee_receiver {
            Some(k) => final(accounts).config.fee_receiver == k,
            None => final(accounts).config.fee_receiver == old(accounts).config.fee_receiver,
        },
        match new_operator {
            Some(k) => final(accounts).config.operator == k,
            None => final(accounts).config.operator == old(accounts).config.operator,
        },
        final(accounts).config.decimal == old(accounts).config.decimal,
        final(accounts).operator == old(accounts).operator,
        final(accounts).config == config_after_update(
            old(accounts).config,
            initial_token_reserve,
            fee_platform,
            fee_fund,
            fund,
            new_operator_lp,
            new_fee_receiver,
            new_operator,
        ),
{
    if let Some(new_operator) = new_operator {
        accounts.config.operator = new_operator;
    }
    if let Some(new_operator_lp) = new_operator_lp {
        accounts.config.operator_lp = new_operator_lp;
    }
    if let Some(new_fee_receiver) = new_fee_receiver {
        accounts.config.fee_receiver = new_fee_receiver;
    }
    if let Some(fund) = fund {
        accounts.config.fund = fund;
    }
    if let Some(fee_fund) = fee_fund {
        accounts.config.fee_fund = fee_fund;
    }
    if let Some(fee_platform) = fee_platform {
        accounts.config.fee_platform = fee_platform;
    }
    if let Some(initial_token_reserve) = initial_token_reserve {
        accounts.config.initial_token_reserve = initial_token_reserve;
    }
    Ok(())
}

} // verus!
