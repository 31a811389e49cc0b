use soljeets_smc::constants::{DEFAULT_INITIAL_TOKEN_RESERVE, VAULT_RENT_LAMPORTS};
use soljeets_smc::event::{TokenCreatedEvent, TradingEvent, WithdrawEvent};
use soljeets_smc::instructions::buy::Buy;
use soljeets_smc::instructions::create_token::TokenInit;
use soljeets_smc::instructions::creator_buy::CreatorBuy;
use soljeets_smc::instructions::initialize::Initialize;
use soljeets_smc::instructions::mint::MintToken;
use soljeets_smc::instructions::sell::Sell;
use soljeets_smc::instructions::update_config::Update;
use soljeets_smc::instructions::withdraw::Withdraw;
use soljeets_smc::program::{buy, create_token, creator_buy, initialize, mint, sell, update_config, withdraw};
use soljeets_smc::state::{Config, Holder, Pubkey, Vault};

fn key(b: u8) -> Pubkey {
    Pubkey { bytes: [b; 32] }
}

fn empty_config() -> Config {
    Config {
        initial_token_reserve: 0,
        decimal: 0,
        operator: Pubkey::zeroed(),
        operator_lp: Pubkey::zeroed(),
        fund: Pubkey::zeroed(),
        fee_receiver: Pubkey::zeroed(),
        fee_platform: 0,
        fee_fund: 0,
    }
}

fn empty_vault() -> Vault {
    Vault {
        token_supply: 0,
        decimal: 0,
        initial_token_reserve: 0,
        sol_target: 0,
        max_token_buy: 0,
        mint: Pubkey::zeroed(),
        creator: Pubkey::zeroed(),
        creator_buy: false,
        amount_token_received_per_slot: 0,
        price: 0,
        completed: false,
    }
}

#[test]
fn a_token_from_launch_to_withdrawal() {
    let mut init = Initialize { authority: key(1), operator: key(2), config: empty_config() };
    initialize(&mut init).unwrap();
    let mut upd = Update { operator: key(1), config: init.config };
    update_config(&mut upd, None, None, None, Some(key(3)), None, None, None).unwrap();
    let config = upd.config;
    assert_eq!(config.fund, key(3));

    let (created, _) = create_token(
        &TokenInit { payer: key(7), config, mint: key(9) },
        "Jeet".to_string(),
        "JT".to_string(),
        "u".to_string(),
        42,
    )
    .unwrap();
    assert_eq!(
        created,
        TokenCreatedEvent { token: key(9), creator: key(7), total_supply: DEFAULT_INITIAL_TOKEN_RESERVE, target_jeets_score: 42 }
    );

    let mut m = MintToken { payer: key(7), config, mint: key(9), vault: empty_vault() };
    // 20 SOL target, 1_000 lamports per whole token, a limit of 10^11 whole tokens
    mint(&mut m, key(7), 1_000, 20_000_000_000, 100_000_000_000).unwrap();
    let mut vault = m.vault;

    let mut cb = CreatorBuy {
        buyer: key(7),
        config,
        mint: key(9),
        vault,
        vault_lamports: VAULT_RENT_LAMPORTS,
        associate_vault_amount: DEFAULT_INITIAL_TOKEN_RESERVE,
        fee_receiver: key(1),
        fund: key(3),
    };
    let (ev, _) = creator_buy(&mut cb).unwrap();
    assert_eq!(ev.amount_token, DEFAULT_INITIAL_TOKEN_RESERVE / 100);
    assert_eq!(ev.amount_sol, 0);
    assert!(ev.is_buy && !ev.completed);
    vault = cb.vault;
    let mut reserve = DEFAULT_INITIAL_TOKEN_RESERVE - ev.amount_token;

    // 10 SOL at 1_000 lamports per whole token buys 10^7 whole tokens.
    let mut b = Buy {
        buyer: key(5),
        buyer_lamports: 30_000_000_000,
        config,
        mint: key(9),
        vault,
        vault_lamports: VAULT_RENT_LAMPORTS,
        associate_vault_amount: reserve,
        associate_user_amount: 0,
        fund: key(3),
        operator: key(1),
        operator_signed: true,
        pda_buyer_exists: false,
    };
    let (ev, _) = buy(&mut b, 10_000_000_000).unwrap();
    assert_eq!(
        ev,
        TradingEvent {
            token: key(9),
            account: key(5),
            amount_sol: 10_000_000_000,
            amount_token: 10_000_000_000_000,
            is_buy: true,
            virtual_sol_reserve: 10_000_000_000,
            virtual_token_reserve: reserve - 10_000_000_000_000,
            completed: false,
        }
    );
    reserve -= ev.amount_token;
    vault = b.vault;

    let mut b2 = Buy {
        buyer: key(6),
        buyer_lamports: 30_000_000_000,
        config,
        mint: key(9),
        vault,
        vault_lamports: VAULT_RENT_LAMPORTS + 10_000_000_000,
        associate_vault_amount: reserve,
        associate_user_amount: 0,
        fund: key(3),
        operator: key(1),
        operator_signed: true,
        pda_buyer_exists: false,
    };
    let (ev, _) = buy(&mut b2, 10_000_000_000).unwrap();
    assert!(ev.completed);
    assert!(b2.vault.completed);
    vault = b2.vault;

    let (w, _) = withdraw(&Withdraw {
        operator_lp: key(2),
        config,
        mint: key(9),
        vault,
        vault_lamports: VAULT_RENT_LAMPORTS + 20_000_000_000,
        ata_vault_amount: 100,
        dev: key(8),
    })
    .unwrap();
    assert_eq!(w, WithdrawEvent { token: key(9), account: key(2), amount_sol: 18_000_000_000, amount_token: 90 });
}

#[test]
fn sell_announces_a_sell() {
    let mut v = empty_vault();
    v.price = 10;
    v.amount_token_received_per_slot = 2;
    let mut config = empty_config();
    config.fee_fund = 100;
    let mut s = Sell {
        seller: key(5),
        config,
        mint: key(9),
        vault: v,
        vault_lamports: VAULT_RENT_LAMPORTS + 1_000,
        ata_vault_amount: 7,
        pda_holder: Holder { mint: key(9), holder: key(5), amount_token_received: 50 },
        associate_user_amount: 50,
        fee_receiver: Pubkey::zeroed(),
        fund: Pubkey::zeroed(),
    };
    let (ev, effects) = sell(&mut s, 40).unwrap();
    assert_eq!(
        ev,
        TradingEvent {
            token: key(9),
            account: key(5),
            amount_sol: 200,
            amount_token: 40,
            is_buy: false,
            virtual_sol_reserve: 800,
            virtual_token_reserve: 47,
            completed: false,
        }
    );
    assert_eq!(effects.len(), 4);
    assert_eq!(s.pda_holder.amount_token_received, 10);
}

#[test]
fn account_check_failures_come_back_as_errors() {
    let mut config = empty_config();
    config.fund = key(3);
    config.operator = key(1);
    let mut v = empty_vault();
    v.completed = true;
    let mut b = Buy {
        buyer: key(5),
        buyer_lamports: 100,
        config,
        mint: key(9),
        vault: v,
        vault_lamports: VAULT_RENT_LAMPORTS,
        associate_vault_amount: 0,
        associate_user_amount: 0,
        fund: key(3),
        operator: key(1),
        operator_signed: true,
        pda_buyer_exists: false,
    };
    assert_eq!(buy(&mut b, 10).unwrap_err(), soljeets_smc::error::ErrorMessage::TradingEnd);
    b.operator_signed = false;
    assert_eq!(buy(&mut b, 10).unwrap_err(), soljeets_smc::error::ErrorMessage::AccountNotSigner);
    assert!(b.vault.completed);
}
