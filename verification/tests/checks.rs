use soljeets_smc::constants::VAULT_RENT_LAMPORTS;
use soljeets_smc::error::ErrorMessage;
use soljeets_smc::instructions::buy::{buy_entry_check, buy_in_range_check, handler_buy, Buy};
use soljeets_smc::instructions::creator_buy::{creator_buy_entry_check, creator_buy_in_range_check, CreatorBuy};
use soljeets_smc::instructions::mint::mint_in_range_check;
use soljeets_smc::instructions::sell::{sell_entry_check, sell_in_range_check, Sell};
use soljeets_smc::instructions::withdraw::{withdraw_in_range_check, Withdraw};
use soljeets_smc::program::{buy, creator_buy, sell, withdraw};
use soljeets_smc::state::{Config, Holder, Pubkey, Vault};

fn key(b: u8) -> Pubkey {
    Pubkey { bytes: [b; 32] }
}

fn config(fee_fund: u16) -> Config {
    Config {
        initial_token_reserve: 1_000,
        decimal: 6,
        operator: key(1),
        operator_lp: key(2),
        fund: key(3),
        fee_receiver: key(4),
        fee_platform: 0,
        fee_fund,
    }
}

fn vault() -> Vault {
    Vault {
        token_supply: 1_000_000_000,
        decimal: 6,
        initial_token_reserve: 1_000_000_000,
        sol_target: 1_000_000_000,
        max_token_buy: u64::MAX,
        mint: key(9),
        creator: key(7),
        creator_buy: false,
        amount_token_received_per_slot: 1_000_000,
        price: 1_000_000,
        completed: false,
    }
}

fn buy_accounts() -> Buy {
    Buy {
        buyer: key(5),
        buyer_lamports: u64::MAX,
        config: config(50),
        mint: key(9),
        vault: vault(),
        vault_lamports: VAULT_RENT_LAMPORTS,
        associate_vault_amount: 1_000_000_000,
        associate_user_amount: 0,
        fund: key(3),
        operator: key(1),
        operator_signed: true,
        pda_buyer_exists: false,
    }
}

#[test]
fn layout_sizes() {
    assert_eq!(Config::LEN, 149);
    assert_eq!(Holder::LEN, 80);
    assert_eq!(Vault::LEN, 131);
}

#[test]
fn buy_range_check() {
    assert!(buy_in_range_check(&buy_accounts(), 1_000_000));
    // the vault lacks its rent
    let mut a = buy_accounts();
    a.vault_lamports = VAULT_RENT_LAMPORTS - 1;
    assert!(!buy_in_range_check(&a, 1_000_000));
    // refused before the rent is looked at
    a.vault.completed = true;
    assert!(buy_in_range_check(&a, 1_000_000));
    // the fee product overflows
    let mut a = buy_accounts();
    a.config.fee_fund = 65535;
    assert!(!buy_in_range_check(&a, u64::MAX / 2));
    // a fee rate above 100% takes more than the amount
    a.config.fee_fund = 20000;
    assert!(!buy_in_range_check(&a, 10_000));
    // no price
    let mut a = buy_accounts();
    a.vault.price = 0;
    assert!(!buy_in_range_check(&a, 1_000_000));
    // more tokens than the vault holds
    let mut a = buy_accounts();
    a.associate_vault_amount = 10;
    assert!(!buy_in_range_check(&a, 1_000_000));
    // over the target: answered with an error, so in range
    let mut a = buy_accounts();
    a.associate_vault_amount = 10;
    assert!(buy_in_range_check(&a, 2_000_000_000));
    assert_eq!(handler_buy(&mut a, 2_000_000_000).unwrap_err(), ErrorMessage::InvalidAmountSolTrade);
    // a refusal by the buy's own rules stops the instruction
    assert!(!buy_entry_check(&a, 2_000_000_000));
    // one by the account checks comes back as an error
    a.vault.completed = true;
    assert!(buy_entry_check(&a, 2_000_000_000));
    assert_eq!(buy(&mut a, 2_000_000_000).unwrap_err(), ErrorMessage::TradingEnd);
    assert!(buy_entry_check(&buy_accounts(), 1_000_000));
}

#[test]
fn creator_buy_range_check() {
    let mut a = CreatorBuy {
        buyer: key(7),
        config: config(50),
        mint: key(9),
        vault: vault(),
        vault_lamports: VAULT_RENT_LAMPORTS,
        associate_vault_amount: 10,
        fee_receiver: key(4),
        fund: key(3),
    };
    assert!(!creator_buy_in_range_check(&a));
    a.associate_vault_amount = 10_000_000;
    assert!(creator_buy_in_range_check(&a));
    assert!(creator_buy_entry_check(&a));
    a.vault.initial_token_reserve = 50;
    assert!(creator_buy_in_range_check(&a));
    assert!(!creator_buy_entry_check(&a));
    a.vault.initial_token_reserve = 1_000_000_000;
    a.vault_lamports = 0;
    assert!(!creator_buy_in_range_check(&a));
    a.buyer = key(8);
    assert!(creator_buy_in_range_check(&a));
    assert_eq!(creator_buy(&mut a).unwrap_err(), ErrorMessage::InvalidCreator);
}

#[test]
fn sell_range_check() {
    let mut a = Sell {
        seller: key(5),
        config: config(50),
        mint: key(9),
        vault: vault(),
        vault_lamports: VAULT_RENT_LAMPORTS + 1_000_000_000,
        ata_vault_amount: 0,
        pda_holder: Holder { mint: key(9), holder: key(5), amount_token_received: 5 },
        associate_user_amount: 1_000_000,
        fee_receiver: key(4),
        fund: key(3),
    };
    // the holder record does not cover the tokens sold
    assert!(!sell_in_range_check(&a, 1_000_000));
    a.pda_holder.amount_token_received = 1_000_000;
    assert!(sell_in_range_check(&a, 1_000_000));
    assert!(sell_entry_check(&a, 1_000_000));
    // fetches nothing: refused by the sell's own rules
    assert!(sell_in_range_check(&a, 0));
    assert!(!sell_entry_check(&a, 0));
    // no per-slot amount to divide by
    a.vault.amount_token_received_per_slot = 0;
    assert!(!sell_in_range_check(&a, 1_000_000));
    a.vault.completed = true;
    assert!(sell_in_range_check(&a, 1_000_000));
    assert_eq!(sell(&mut a, 1_000_000).unwrap_err(), ErrorMessage::TradingEnd);
}

#[test]
fn withdraw_range_check() {
    let mut w = Withdraw {
        operator_lp: key(2),
        config: config(50),
        mint: key(9),
        vault: vault(),
        vault_lamports: VAULT_RENT_LAMPORTS,
        ata_vault_amount: u64::MAX,
        dev: key(8),
    };
    assert!(withdraw_in_range_check(&w));
    assert_eq!(withdraw(&w).unwrap_err(), ErrorMessage::TradingNotEnd);
    w.vault.completed = true;
    assert!(!withdraw_in_range_check(&w));
    w.ata_vault_amount = 1000;
    assert!(withdraw_in_range_check(&w));
}

#[test]
fn mint_range_check() {
    assert!(mint_in_range_check(10_000_000_000, u64::MAX));
    assert!(!mint_in_range_check(10_000_000_001, u64::MAX));
    assert!(mint_in_range_check(10_000_000_001, 1_000));
}
