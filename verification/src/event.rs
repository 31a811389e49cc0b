use vstd::prelude::*;

use crate::state::Pubkey;

verus! {

/// Announces a new token.
#[derive(Clone, Copy, Debug, PartialEq, Eq)]
pub struct TokenCreatedEvent {
    pub token: Pubkey,
    pub creator: Pubkey,
    pub total_supply: u64,
    pub target_jeets_score: u16,
}

/// Announces a buy or a sell.
#[derive(Clone, Copy, Debug, PartialEq, Eq)]
pub struct TradingEvent {
    pub token: Pubkey,
    pub account: Pubkey,
    pub amount_sol: u64,
    pub amount_token: u64,
    pub is_buy: bool,
    pub virtual_sol_reserve: u64,
    pub virtual_token_reserve: u64,
    pub completed: bool,
}

/// Announces a transfer of the remainder.
#[derive(Clone, Copy, Debug, PartialEq, Eq)]
pub struct Transfer {
    pub timestamp: u64,
    pub remain: Pubkey,
    pub transfer_amount: u64,
}

/// Announces a withdrawal from a completed vault.
#[derive(Clone, Copy, Debug, PartialEq, Eq)]
pub struct WithdrawEvent {
    pub token: Pubkey,
    pub account: Pubkey,
    pub amount_sol: u64,
    pub amount_token: u64,
}

} // verus!
