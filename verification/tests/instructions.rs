use soljeets_smc::constants::{DEFAULT_INITIAL_TOKEN_RESERVE, VAULT_RENT_LAMPORTS};
use soljeets_smc::effects::{Effect, Role};
use soljeets_smc::error::ErrorMessage;
use soljeets_smc::instructions::buy::{handler_buy, Buy};
use soljeets_smc::instructions::create_token::{handler_create, TokenInit};
use soljeets_smc::instructions::creator_buy::{handler_creator_buy, CreatorBuy};
use soljeets_smc::instructions::initialize::{handler_initialize, Initialize};
use soljeets_smc::instructions::mint::{handler_mint, MintToken};
use soljeets_smc::instructions::sell::{handler_sell, Sell};
use soljeets_smc::instructions::update_config::{handle_update, Update};
use soljeets_smc::instructions::withdraw::{handler_withdraw, Withdraw};
use soljeets_smc::state::{Config, Holder, Pubkey, Vault};
use soljeets_smc::utils::seeds::{buyer_marker_signer_seeds, mint_authority_signer_seeds, vault_signer_seeds};

fn key(b: u8) -> Pubkey {
    Pubkey { bytes: [b; 32] }
}

fn config() -> Config {
    Config {
        initial_token_reserve: DEFAULT_INITIAL_TOKEN_RESERVE,
        decimal: 6,
        operator: key(1),
        operator_lp: key(2),
        fund: key(3),
        fee_receiver: key(4),
        fee_platform: 50,
        fee_fund: 50,
    }
}

fn fresh_vault() -> Vault {
    Vault {
        token_supply: 0,
        decimal: 0,
        initial_token_reserve: 0,
        sol_target: 0,
        max_token_buy: 0,
        mint: Pubkey { bytes: [0; 32] },
        creator: Pubkey { bytes: [0; 32] },
        creator_buy: false,
        amount_token_received_per_slot: 0,
        price: 0,
        completed: false,
    }
}

/// A vault for mint key(9) by creator key(7): 1000 whole tokens in reserve,
/// 1 SOL target, 1_000_000 lamports per whole token, 100 whole tokens limit.
fn trading_vault() -> Vault {
    Vault {
        token_supply: 1_000_000_000,
        decimal: 6,
        initial_token_reserve: 1_000_000_000,
        sol_target: 1_000_000_000,
        max_token_buy: 100_000_000,
        mint: key(9),
        creator: key(7),
        creator_buy: false,
        amount_token_received_per_slot: 1_000_000,
        price: 1_000_000,
        completed: false,
    }
}

fn buy_accounts() -> Buy {
    Buy {
        buyer: key(5),
        buyer_lamports: 10_000_000_000,
        config: config(),
        mint: key(9),
        vault: trading_vault(),
        vault_lamports: VAULT_RENT_LAMPORTS,
        associate_vault_amount: 1_000_000_000,
        associate_user_amount: 0,
        fund: key(3),
        operator: key(1),
        operator_signed: true,
        pda_buyer_exists: false,
    }
}

fn net_tokens(effects: &[Effect], role: Role) -> i128 {
    let mut n = 0i128;
    for e in effects {
        match *e {
            Effect::TokenTransfer { from, to, amount, .. } => {
                if to == role {
                    n += amount as i128;
                }
                if from == role {
                    n -= amount as i128;
                }
            }
            Effect::MintTo { to, amount } => {
                if to == role {
                    n += amount as i128;
                }
            }
            _ => {}
        }
    }
    n
}

fn net_lamports(effects: &[Effect], role: Role) -> i128 {
    let mut n = 0i128;
    for e in effects {
        match *e {
            Effect::SystemTransfer { from, to, lamports } => {
                if to == role {
                    n += lamports as i128;
                }
                if from == role {
                    n -= lamports as i128;
                }
            }
            Effect::Debit { account, lamports } => {
                if account == role {
                    n -= lamports as i128;
                }
            }
            Effect::Credit { account, lamports } => {
                if account == role {
                    n += lamports as i128;
                }
            }
            _ => {}
        }
    }
    n
}

fn lamports_created(effects: &[Effect]) -> i128 {
    let mut n = 0i128;
    for e in effects {
        match *e {
            Effect::Debit { lamports, .. } => n -= lamports as i128,
            Effect::Credit { lamports, .. } => n += lamports as i128,
            _ => {}
        }
    }
    n
}

#[test]
fn key_equality_is_byte_wise() {
    assert!(key(3).key_eq(&key(3)));
    let mut k = key(3);
    k.bytes[31] = 4;
    assert!(!key(3).key_eq(&k));
    assert!(Pubkey::zeroed().key_eq(&Pubkey { bytes: [0; 32] }));
}

#[test]
fn initialize_sets_defaults() {
    let mut a = Initialize {
        authority: key(1),
        operator: key(2),
        config: Config {
            initial_token_reserve: 0,
            decimal: 0,
            operator: Pubkey::zeroed(),
            operator_lp: Pubkey::zeroed(),
            fund: key(8),
            fee_receiver: Pubkey::zeroed(),
            fee_platform: 0,
            fee_fund: 0,
        },
    };
    assert_eq!(handler_initialize(&mut a), Ok(()));
    assert_eq!(a.config.decimal, 6);
    assert_eq!(a.config.initial_token_reserve, 100_000_000_000_000_000);
    assert_eq!(a.config.operator, key(1));
    assert_eq!(a.config.operator_lp, key(2));
    assert_eq!(a.config.fee_receiver, key(1));
    assert_eq!(a.config.fee_platform, 50);
    assert_eq!(a.config.fee_fund, 50);
    assert_eq!(a.config.fund, key(8));
}

#[test]
fn update_replaces_only_given_settings() {
    let mut u = Update { operator: key(1), config: config() };
    handle_update(&mut u, None, Some(70), None, Some(key(20)), None, None, Some(key(21))).unwrap();
    assert_eq!(u.config.fee_platform, 70);
    assert_eq!(u.config.fee_fund, 50);
    assert_eq!(u.config.fund, key(20));
    assert_eq!(u.config.operator, key(21));
    assert_eq!(u.config.operator_lp, key(2));
    assert_eq!(u.config.initial_token_reserve, DEFAULT_INITIAL_TOKEN_RESERVE);
    let before = u.config;
    handle_update(&mut u, None, None, None, None, None, None, None).unwrap();
    assert_eq!(u.config, before);
}

#[test]
fn update_twice_is_update_once() {
    let mut u = Update { operator: key(1), config: config() };
    handle_update(&mut u, Some(5), Some(1), Some(2), Some(key(11)), Some(key(12)), Some(key(13)), Some(key(14))).unwrap();
    let once = u.config;
    handle_update(&mut u, Some(5), Some(1), Some(2), Some(key(11)), Some(key(12)), Some(key(13)), Some(key(14))).unwrap();
    assert_eq!(u.config, once);
}

#[test]
fn create_describes_the_metadata() {
    let a = TokenInit { payer: key(5), config: config(), mint: key(9) };
    let ((token, creator, supply), md) =
        handler_create(&a, "Jeet".to_string(), "JT".to_string(), "https://x/y".to_string()).unwrap();
    assert!(md.creators.is_none() && md.collection.is_none() && md.uses.is_none());
    assert!(md.collection_details.is_none());
    assert_eq!((md.payer, md.mint_authority, md.update_authority), (Role::User, Role::MintAuthority, Role::MintAuthority));
    assert_eq!((token, creator, supply), (key(9), key(5), DEFAULT_INITIAL_TOKEN_RESERVE));
    assert_eq!(md.name, "Jeet");
    assert_eq!(md.symbol, "JT");
    assert_eq!(md.uri, "https://x/y");
    assert_eq!(md.seller_fee_basis_points, 0);
    assert!(md.is_mutable && md.update_authority_is_signer);
}

#[test]
fn mint_rejects_a_small_target() {
    let mut a = MintToken { payer: key(5), config: config(), mint: key(9), vault: fresh_vault() };
    assert_eq!(
        handler_mint(&mut a, key(7), 1_000_000, 10_000_000_000, 100),
        Err(ErrorMessage::InvalidSolTarget)
    );
    assert_eq!(a.vault, fresh_vault());
}

#[test]
fn mint_sets_the_vault_up() {
    let mut a = MintToken { payer: key(5), config: config(), mint: key(9), vault: fresh_vault() };
    let effects = handler_mint(&mut a, key(7), 123, 10_000_000_001, 100).unwrap();
    assert_eq!(effects, vec![Effect::MintTo { to: Role::VaultTokens, amount: DEFAULT_INITIAL_TOKEN_RESERVE }]);
    assert_eq!(a.vault.mint, key(9));
    assert_eq!(a.vault.creator, key(7));
    assert_eq!(a.vault.price, 123);
    assert_eq!(a.vault.sol_target, 10_000_000_001);
    assert_eq!(a.vault.max_token_buy, 100_000_000);
    assert_eq!(a.vault.token_supply, DEFAULT_INITIAL_TOKEN_RESERVE);
    assert_eq!(a.vault.initial_token_reserve, DEFAULT_INITIAL_TOKEN_RESERVE);
    assert_eq!(a.vault.decimal, 6);
    assert!(!a.vault.completed && !a.vault.creator_buy);
}

#[test]
fn buy_at_fixed_price_with_fund_fee() {
    let mut a = buy_accounts();
    let (out, effects) = handler_buy(&mut a, 100_000_000).unwrap();
    // 0.1 SOL at 1_000_000 lamports per whole token buys 100 whole tokens.
    assert_eq!(out, (key(9), key(5), 100_000_000, 900_000_000, 100_000_000, 100_000_000, false));
    assert_eq!(
        effects,
        vec![
            Effect::CreateAccount { account: Role::BuyerMarker, payer: Role::User, space: 8 },
            Effect::SystemTransfer { from: Role::User, to: Role::Fund, lamports: 500_000 },
            Effect::SystemTransfer { from: Role::User, to: Role::Vault, lamports: 100_000_000 },
            Effect::TokenTransfer {
                from: Role::VaultTokens,
                to: Role::UserTokens,
                amount: 100_000_000,
                vault_signs: true
            },
        ]
    );
    assert!(!a.vault.completed);
    assert!(a.pda_buyer_exists);
    assert_eq!(handler_buy(&mut a, 100_000_000), Err(ErrorMessage::AccountAlreadyInUse));
    assert_eq!(net_tokens(&effects, Role::VaultTokens), -100_000_000);
    assert_eq!(net_tokens(&effects, Role::UserTokens), 100_000_000);
    assert_eq!(net_lamports(&effects, Role::User), -100_500_000);
    assert_eq!(lamports_created(&effects), 0);
}

#[test]
fn buy_without_fee_skips_the_fund_transfer() {
    let mut a = buy_accounts();
    a.config.fee_fund = 0;
    let (_, effects) = handler_buy(&mut a, 1_000_000).unwrap();
    assert_eq!(effects.len(), 3);
    assert_eq!(effects[1], Effect::SystemTransfer { from: Role::User, to: Role::Vault, lamports: 1_000_000 });
}

#[test]
fn buy_completes_on_reaching_the_target() {
    let mut a = buy_accounts();
    a.config.fee_fund = 0;
    a.vault.max_token_buy = u64::MAX;
    let (out, _) = handler_buy(&mut a, 1_000_000_000).unwrap();
    assert_eq!(out.2, 1_000_000_000);
    assert!(out.6);
    assert!(a.vault.completed);
}

#[test]
fn buy_with_fee_can_pass_the_target_and_not_complete() {
    let mut a = buy_accounts();
    a.vault.max_token_buy = u64::MAX;
    // counted: 1_000_000_000 - 5_000_000 = 995_000_000 <= target; collected 1 SOL... plus the earlier SOL
    a.vault_lamports = VAULT_RENT_LAMPORTS + 5_000_000;
    let (out, _) = handler_buy(&mut a, 1_000_000_000).unwrap();
    assert_eq!(out.2, 1_005_000_000);
    assert!(!out.6);
    assert!(!a.vault.completed);
}

#[test]
fn buy_errors() {
    let base = buy_accounts();

    let mut a = base;
    a.buyer_lamports = 10;
    assert_eq!(handler_buy(&mut a, 11), Err(ErrorMessage::InsufficientFund));

    let mut a = base;
    a.vault.completed = true;
    assert_eq!(handler_buy(&mut a, 11), Err(ErrorMessage::TradingEnd));

    let mut a = base;
    assert_eq!(handler_buy(&mut a, 0), Err(ErrorMessage::InvalidAmountSol));

    let mut a = base;
    a.config.fee_fund = 10000;
    assert_eq!(handler_buy(&mut a, 5), Err(ErrorMessage::InvalidAmountSol));

    let mut a = base;
    a.vault_lamports = VAULT_RENT_LAMPORTS + 999_999_999;
    assert_eq!(handler_buy(&mut a, 1_000_000), Err(ErrorMessage::InvalidAmountSolTrade));

    let mut a = base;
    a.vault.price = 2_000_000;
    // 1 lamport buys 0 base units at this price
    a.config.fee_fund = 0;
    assert_eq!(handler_buy(&mut a, 1), Err(ErrorMessage::InvalidAmountToken));

    let mut a = base;
    a.associate_user_amount = 99_000_000;
    assert_eq!(handler_buy(&mut a, 2_000_000), Err(ErrorMessage::ExceedMaximum));
    assert_eq!(a.vault, base.vault);
}

#[test]
fn buy_account_checks() {
    let base = buy_accounts();

    let mut a = base;
    a.operator_signed = false;
    a.buyer_lamports = 0;
    assert_eq!(handler_buy(&mut a, 11), Err(ErrorMessage::AccountNotSigner));

    let mut a = base;
    a.pda_buyer_exists = true;
    a.buyer_lamports = 0;
    assert_eq!(handler_buy(&mut a, 11), Err(ErrorMessage::AccountAlreadyInUse));

    let mut a = base;
    a.fund = key(30);
    a.vault.completed = true;
    assert_eq!(handler_buy(&mut a, 11), Err(ErrorMessage::ConstraintHasOne));

    let mut a = base;
    a.operator = key(31);
    assert_eq!(handler_buy(&mut a, 11), Err(ErrorMessage::ConstraintHasOne));

    let mut a = base;
    a.fund = key(30);
    a.buyer_lamports = 10;
    assert_eq!(handler_buy(&mut a, 11), Err(ErrorMessage::InsufficientFund));
}

#[test]
fn creator_is_exempt_from_the_holding_limit() {
    let mut a = buy_accounts();
    a.buyer = key(7);
    a.associate_user_amount = 99_000_000;
    assert!(handler_buy(&mut a, 2_000_000).is_ok());
}

fn creator_accounts() -> CreatorBuy {
    CreatorBuy {
        buyer: key(7),
        config: config(),
        mint: key(9),
        vault: trading_vault(),
        vault_lamports: VAULT_RENT_LAMPORTS + 5,
        associate_vault_amount: 1_000_000_000,
        fee_receiver: key(4),
        fund: key(3),
    }
}

#[test]
fn creator_takes_one_percent_once() {
    let mut a = creator_accounts();
    let (out, effects) = handler_creator_buy(&mut a).unwrap();
    assert_eq!(out, (key(9), key(7), 5u128, 990_000_000, 0, 10_000_000, false));
    assert_eq!(
        effects,
        vec![Effect::TokenTransfer {
            from: Role::VaultTokens,
            to: Role::UserTokens,
            amount: 10_000_000,
            vault_signs: true
        }]
    );
    assert!(a.vault.creator_buy);
    assert_eq!(handler_creator_buy(&mut a), Err(ErrorMessage::BuyOnce));
}

#[test]
fn creator_buy_errors() {
    let mut a = creator_accounts();
    a.vault.completed = true;
    assert_eq!(handler_creator_buy(&mut a), Err(ErrorMessage::TradingEnd));

    let mut a = creator_accounts();
    a.buyer = key(6);
    assert_eq!(handler_creator_buy(&mut a), Err(ErrorMessage::InvalidCreator));

    let mut a = creator_accounts();
    a.vault.initial_token_reserve = 99;
    assert_eq!(handler_creator_buy(&mut a), Err(ErrorMessage::InvalidAmountToken));
    assert!(!a.vault.creator_buy);
}

#[test]
fn creator_buy_checks_the_configured_accounts() {
    let mut a = creator_accounts();
    a.fee_receiver = key(40);
    a.vault.completed = true;
    assert_eq!(handler_creator_buy(&mut a), Err(ErrorMessage::ConstraintHasOne));
    let mut a = creator_accounts();
    a.fund = key(40);
    assert_eq!(handler_creator_buy(&mut a), Err(ErrorMessage::ConstraintHasOne));
}

#[test]
fn creator_buy_completes_at_the_target() {
    let mut a = creator_accounts();
    a.vault_lamports = VAULT_RENT_LAMPORTS + 1_000_000_000;
    let (out, _) = handler_creator_buy(&mut a).unwrap();
    assert!(out.6);
    assert!(a.vault.completed);
    assert_eq!(handler_creator_buy(&mut a), Err(ErrorMessage::TradingEnd));
}

fn sell_accounts() -> Sell {
    Sell {
        seller: key(5),
        config: config(),
        mint: key(9),
        vault: trading_vault(),
        vault_lamports: VAULT_RENT_LAMPORTS + 500_000_000,
        ata_vault_amount: 500_000_000,
        pda_holder: Holder { mint: key(9), holder: key(5), amount_token_received: 200_000_000 },
        associate_user_amount: 200_000_000,
        fee_receiver: key(4),
        fund: key(3),
    }
}

#[test]
fn sell_pays_out_of_the_vault() {
    let mut a = sell_accounts();
    let (out, effects) = handler_sell(&mut a, 100_000_000).unwrap();
    // 100 whole tokens at 1_000_000 lamports each
    assert_eq!(out, (key(9), key(5), 400_000_000u128, 600_000_000, 100_000_000, 100_000_000));
    assert_eq!(
        effects,
        vec![
            Effect::TokenTransfer {
                from: Role::UserTokens,
                to: Role::VaultTokens,
                amount: 100_000_000,
                vault_signs: false
            },
            Effect::Debit { account: Role::Vault, lamports: 100_000_000 },
            Effect::Credit { account: Role::Fund, lamports: 500_000 },
            Effect::Credit { account: Role::User, lamports: 99_500_000 },
        ]
    );
    assert_eq!(a.pda_holder.amount_token_received, 100_000_000);
    assert_eq!(lamports_created(&effects), 0);
    assert_eq!(net_tokens(&effects, Role::VaultTokens), 100_000_000);
}

#[test]
fn sell_errors() {
    let mut a = sell_accounts();
    a.fund = key(60);
    a.vault.completed = true;
    assert_eq!(handler_sell(&mut a, 1), Err(ErrorMessage::ConstraintHasOne));

    let mut a = sell_accounts();
    a.fee_receiver = key(60);
    assert_eq!(handler_sell(&mut a, 1), Err(ErrorMessage::ConstraintHasOne));

    let mut a = sell_accounts();
    a.vault.completed = true;
    assert_eq!(handler_sell(&mut a, 1), Err(ErrorMessage::TradingEnd));

    let mut a = sell_accounts();
    a.pda_holder.holder = key(6);
    assert_eq!(handler_sell(&mut a, 1), Err(ErrorMessage::InvalidPda));

    let mut a = sell_accounts();
    assert_eq!(handler_sell(&mut a, 200_000_001), Err(ErrorMessage::InsufficientToken));

    let mut a = sell_accounts();
    a.vault_lamports = VAULT_RENT_LAMPORTS + 10;
    assert_eq!(handler_sell(&mut a, 100_000_000), Err(ErrorMessage::InvalidAmountSolTrade));

    let mut a = sell_accounts();
    a.config.fee_fund = 10000;
    assert_eq!(handler_sell(&mut a, 1), Err(ErrorMessage::InvalidAmountSol));
    assert_eq!(a.pda_holder.amount_token_received, 200_000_000);
}

fn withdraw_accounts(completed: bool, sol: u64) -> Withdraw {
    let mut v = trading_vault();
    v.completed = completed;
    Withdraw {
        operator_lp: key(2),
        config: config(),
        mint: key(9),
        vault: v,
        vault_lamports: VAULT_RENT_LAMPORTS + sol,
        ata_vault_amount: 1_001,
        dev: key(8),
    }
}

#[test]
fn withdraw_requires_completion() {
    assert_eq!(handler_withdraw(&withdraw_accounts(false, 10)), Err(ErrorMessage::TradingNotEnd));
}

#[test]
fn withdraw_requires_the_configured_operator() {
    let mut w = withdraw_accounts(false, 10);
    w.operator_lp = key(50);
    assert_eq!(handler_withdraw(&w), Err(ErrorMessage::ConstraintHasOne));
}

#[test]
fn withdraw_splits_ninety_ten() {
    let (out, effects) = handler_withdraw(&withdraw_accounts(true, 1_000_000_000)).unwrap();
    assert_eq!(out, (key(9), key(2), 0, 0, 900_000_000, 900));
    assert_eq!(
        effects,
        vec![
            Effect::TokenTransfer { from: Role::VaultTokens, to: Role::OperatorLpTokens, amount: 900, vault_signs: true },
            Effect::TokenTransfer { from: Role::VaultTokens, to: Role::DevTokens, amount: 101, vault_signs: true },
            Effect::Debit { account: Role::Vault, lamports: VAULT_RENT_LAMPORTS + 1_000_000_000 },
            Effect::Credit { account: Role::OperatorLp, lamports: 900_000_000 },
            Effect::Credit { account: Role::Dev, lamports: 100_000_000 + VAULT_RENT_LAMPORTS },
        ]
    );
    assert_eq!(lamports_created(&effects), 0);
    assert_eq!(net_tokens(&effects, Role::VaultTokens), -1001);
}

#[test]
fn withdraw_loses_one_lamport_off_multiples_of_ten() {
    for sol in [1u64, 9, 11, 15, 1_000_000_007] {
        let (_, effects) = handler_withdraw(&withdraw_accounts(true, sol)).unwrap();
        assert_eq!(lamports_created(&effects), -1);
    }
    for sol in [0u64, 10, 1_000_000_000] {
        let (_, effects) = handler_withdraw(&withdraw_accounts(true, sol)).unwrap();
        assert_eq!(lamports_created(&effects), 0);
    }
}

#[test]
fn signer_seeds_hold_the_seed_text_key_and_bump() {
    let s = vault_signer_seeds(&key(9), 254);
    assert_eq!(s, vec![b"vault".to_vec(), vec![9u8; 32], vec![254u8]]);
    let b = buyer_marker_signer_seeds(&key(5), &key(9), 3);
    assert_eq!(b, vec![b"pda_buyer".to_vec(), vec![5u8; 32], vec![9u8; 32], vec![3u8]]);
    let m = mint_authority_signer_seeds(7);
    assert_eq!(m, vec![b"mint_authority".to_vec(), vec![7u8]]);
}

#[test]
fn selling_what_a_buy_returned_pays_back_at_most_the_price() {
    for price in [1u64, 7, 999_999, 1_000_000, 3_333_333, 1 << 40] {
        for m in [1u64, 13, 1_000_000, 123_456_789, 10_000_000_000] {
            let mut b = buy_accounts();
            b.config.fee_fund = 0;
            b.vault.price = price;
            b.vault.sol_target = u128::MAX;
            b.vault.max_token_buy = u64::MAX;
            b.associate_vault_amount = u64::MAX;
            let Ok((out, _)) = handler_buy(&mut b, m) else { continue };
            let tokens = out.5;
            let mut s = sell_accounts();
            s.vault.price = price;
            s.vault.amount_token_received_per_slot = 1_000_000;
            s.vault_lamports = u64::MAX;
            s.associate_user_amount = tokens;
            s.pda_holder.amount_token_received = tokens;
            s.ata_vault_amount = 0;
            if let Ok((sold, _)) = handler_sell(&mut s, tokens) {
                assert!(sold.4 <= m);
            }
        }
    }
}
