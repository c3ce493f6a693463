use sol_option_protocol::account_key::AccountKey;
use sol_option_protocol::errors::ErrorCode;
use sol_option_protocol::option::{
    MintInfo, OptionContext, OptionCreate, OptionData, TokenAccountInfo,
};
use sol_option_protocol::pda::{get_option_context_signer_seeds, series_seeds};
use sol_option_protocol::sol_option_protocol::{
    burn, create_option, exercise, mint, redeem, redeem_consideration,
};
use sol_option_protocol::token_actions::{Authority, Holding, TokenAction};

fn key(b: u8) -> AccountKey {
    AccountKey::new([b; 32])
}

fn account(b: u8, amount: u64) -> TokenAccountInfo {
    TokenAccountInfo { key: key(b), amount }
}

fn mint_info(b: u8, decimals: u8, supply: u64) -> MintInfo {
    MintInfo { key: key(b), decimals, supply }
}

fn record() -> OptionData {
    OptionData {
        collateral_mint: key(1),
        consideration_mint: key(2),
        strike_price: 4_000_000,
        expiration: 1_000,
        is_put: false,
        bump: 254,
        option_mint: key(3),
        redemption_mint: key(4),
        collateral_vault: key(5),
        consideration_vault: key(6),
        total_supply: 0,
        exercised_amount: 0,
    }
}

fn context() -> OptionContext {
    OptionContext {
        user: key(9),
        option_context: record(),
        collateral_mint: mint_info(1, 5, 1_000_000_000),
        consideration_mint: mint_info(2, 6, 1_000_000_000),
        option_mint: mint_info(3, 5, 0),
        redemption_mint: mint_info(4, 5, 0),
        collateral_vault: account(5, 0),
        consideration_vault: account(6, 0),
        user_collateral_account: account(10, 1_000_000),
        user_consideration_account: account(11, 50_000_000),
        user_option_account: account(12, 0),
        user_redemption_account: account(13, 0),
    }
}

fn holding(ctx: &mut OptionContext, h: Holding) -> &mut TokenAccountInfo {
    match h {
        Holding::CollateralVault => &mut ctx.collateral_vault,
        Holding::ConsiderationVault => &mut ctx.consideration_vault,
        Holding::UserCollateral => &mut ctx.user_collateral_account,
        Holding::UserConsideration => &mut ctx.user_consideration_account,
        Holding::UserOption => &mut ctx.user_option_account,
        Holding::UserRedemption => &mut ctx.user_redemption_account,
    }
}

fn issued(ctx: &mut OptionContext, h: Holding) -> &mut MintInfo {
    match h {
        Holding::UserOption => &mut ctx.option_mint,
        Holding::UserRedemption => &mut ctx.redemption_mint,
        _ => panic!("not a series token"),
    }
}

/// Carries out the actions as the token ledger would.
fn settle(ctx: &mut OptionContext, actions: &[TokenAction]) {
    for a in actions {
        match *a {
            TokenAction::Transfer { from, to, amount, .. } => {
                let f = holding(ctx, from);
                f.amount = f.amount.checked_sub(amount).unwrap();
                let t = holding(ctx, to);
                t.amount = t.amount.checked_add(amount).unwrap();
            }
            TokenAction::MintTo { to, amount } => {
                let t = holding(ctx, to);
                t.amount = t.amount.checked_add(amount).unwrap();
                let m = issued(ctx, to);
                m.supply = m.supply.checked_add(amount).unwrap();
            }
            TokenAction::Burn { from, amount } => {
                let f = holding(ctx, from);
                f.amount = f.amount.checked_sub(amount).unwrap();
                let m = issued(ctx, from);
                m.supply = m.supply.checked_sub(amount).unwrap();
            }
        }
    }
}

fn balances(ctx: &OptionContext) -> [u64; 10] {
    [
        ctx.collateral_vault.amount,
        ctx.consideration_vault.amount,
        ctx.user_collateral_account.amount,
        ctx.user_consideration_account.amount,
        ctx.user_option_account.amount,
        ctx.user_redemption_account.amount,
        ctx.option_mint.supply,
        ctx.redemption_mint.supply,
        ctx.option_context.total_supply,
        ctx.option_context.exercised_amount,
    ]
}

#[test]
fn mint_issues_both_legs_and_raises_supply() {
    let mut ctx = context();
    ctx.option_context.total_supply = 40;
    let actions = mint(&mut ctx, 500).unwrap();
    assert_eq!(
        actions,
        vec![
            TokenAction::Transfer {
                from: Holding::UserCollateral,
                to: Holding::CollateralVault,
                amount: 500,
                authority: Authority::User,
            },
            TokenAction::MintTo { to: Holding::UserOption, amount: 500 },
            TokenAction::MintTo { to: Holding::UserRedemption, amount: 500 },
        ]
    );
    assert_eq!(ctx.option_context.total_supply, 540);
    settle(&mut ctx, &actions);
    assert_eq!(ctx.user_option_account.amount, 500);
    assert_eq!(ctx.user_redemption_account.amount, 500);
    assert_eq!(ctx.collateral_vault.amount, 500);
    assert_eq!(ctx.user_collateral_account.amount, 999_500);
}

#[test]
fn mint_zero_is_rejected() {
    let mut ctx = context();
    let before = balances(&ctx);
    assert_eq!(mint(&mut ctx, 0), Err(ErrorCode::InvalidAmount));
    assert_eq!(balances(&ctx), before);
}

#[test]
fn mint_past_largest_supply_fails_without_issuing() {
    let mut ctx = context();
    ctx.option_context.total_supply = u64::MAX;
    assert_eq!(mint(&mut ctx, 1), Err(ErrorCode::MathOverflow));
    assert_eq!(ctx.option_context.total_supply, u64::MAX);
    ctx.option_context.total_supply = u64::MAX - 1;
    assert!(mint(&mut ctx, 1).is_ok());
    assert_eq!(ctx.option_context.total_supply, u64::MAX);
}

#[test]
fn burn_paired_undoes_mint() {
    let mut ctx = context();
    ctx.option_context.total_supply = 7;
    let start = balances(&ctx);
    let minted = mint(&mut ctx, 300).unwrap();
    settle(&mut ctx, &minted);
    let burned = burn(&mut ctx, 300).unwrap();
    assert_eq!(
        burned,
        vec![
            TokenAction::Burn { from: Holding::UserOption, amount: 300 },
            TokenAction::Burn { from: Holding::UserRedemption, amount: 300 },
            TokenAction::Transfer {
                from: Holding::CollateralVault,
                to: Holding::UserCollateral,
                amount: 300,
                authority: Authority::Series,
            },
        ]
    );
    settle(&mut ctx, &burned);
    assert_eq!(balances(&ctx), start);
}

#[test]
fn burn_needs_collateral_and_supply() {
    let mut ctx = context();
    ctx.collateral_vault.amount = 10;
    ctx.option_context.total_supply = 100;
    assert_eq!(burn(&mut ctx, 11), Err(ErrorCode::InsufficientCollateral));
    ctx.collateral_vault.amount = 100;
    ctx.option_context.total_supply = 5;
    assert_eq!(burn(&mut ctx, 6), Err(ErrorCode::MathOverflow));
    assert_eq!(ctx.option_context.total_supply, 5);
    assert_eq!(burn(&mut ctx, 0), Err(ErrorCode::InvalidAmount));
}

#[test]
fn exercise_pays_strike_for_collateral() {
    let mut ctx = context();
    let minted = mint(&mut ctx, 200_000).unwrap();
    settle(&mut ctx, &minted);
    let before = ctx;
    let actions = exercise(&mut ctx, 100_000).unwrap();
    assert_eq!(
        actions,
        vec![
            TokenAction::Burn { from: Holding::UserOption, amount: 100_000 },
            TokenAction::Transfer {
                from: Holding::UserConsideration,
                to: Holding::ConsiderationVault,
                amount: 4_000_000,
                authority: Authority::User,
            },
            TokenAction::Transfer {
                from: Holding::CollateralVault,
                to: Holding::UserCollateral,
                amount: 100_000,
                authority: Authority::Series,
            },
        ]
    );
    settle(&mut ctx, &actions);
    assert_eq!(ctx.user_option_account.amount, before.user_option_account.amount - 100_000);
    assert_eq!(ctx.consideration_vault.amount, before.consideration_vault.amount + 4_000_000);
    assert_eq!(ctx.collateral_vault.amount, before.collateral_vault.amount - 100_000);
    assert_eq!(ctx.option_context.exercised_amount, 100_000);
    assert_eq!(ctx.option_context.total_supply, 200_000);
    assert_eq!(ctx.user_redemption_account.amount, 200_000);
}

#[test]
fn exercise_of_one_hundred_units() {
    let mut ctx = context();
    let minted = mint(&mut ctx, 100).unwrap();
    settle(&mut ctx, &minted);
    let actions = exercise(&mut ctx, 100).unwrap();
    assert_eq!(
        actions[1],
        TokenAction::Transfer {
            from: Holding::UserConsideration,
            to: Holding::ConsiderationVault,
            amount: 4_000,
            authority: Authority::User,
        }
    );
    settle(&mut ctx, &actions);
    assert_eq!(ctx.user_option_account.amount, 0);
    assert_eq!(ctx.collateral_vault.amount, 0);
    assert_eq!(ctx.consideration_vault.amount, 4_000);
}

#[test]
fn exercise_rejections() {
    let mut ctx = context();
    ctx.collateral_vault.amount = 50;
    assert_eq!(exercise(&mut ctx, 51), Err(ErrorCode::InsufficientCollateral));
    assert_eq!(exercise(&mut ctx, 0), Err(ErrorCode::InvalidAmount));
    ctx.option_context.strike_price = u64::MAX;
    assert_eq!(exercise(&mut ctx, 2), Err(ErrorCode::MathOverflow));
    ctx.option_context.strike_price = 1;
    ctx.option_context.exercised_amount = u64::MAX;
    assert_eq!(exercise(&mut ctx, 1), Err(ErrorCode::MathOverflow));
    assert_eq!(ctx.option_context.exercised_amount, u64::MAX);
}

#[test]
fn redeem_pays_pro_rata_after_expiry() {
    let mut ctx = context();
    ctx.collateral_vault.amount = 1000;
    ctx.consideration_vault.amount = 0;
    ctx.option_context.total_supply = 200;
    ctx.user_redemption_account.amount = 50;
    ctx.redemption_mint.supply = 200;
    let actions = redeem(&mut ctx, 50, 1_000).unwrap();
    assert_eq!(
        actions,
        vec![
            TokenAction::Burn { from: Holding::UserRedemption, amount: 50 },
            TokenAction::Transfer {
                from: Holding::CollateralVault,
                to: Holding::UserCollateral,
                amount: 250,
                authority: Authority::Series,
            },
        ]
    );
    assert_eq!(ctx.option_context.total_supply, 200);
}

#[test]
fn redeem_pays_both_vaults() {
    let mut ctx = context();
    ctx.collateral_vault.amount = 1001;
    ctx.consideration_vault.amount = 333;
    ctx.option_context.total_supply = 3;
    ctx.user_redemption_account.amount = 1;
    let actions = redeem(&mut ctx, 1, 2_000).unwrap();
    assert_eq!(actions.len(), 3);
    assert_eq!(
        actions[1],
        TokenAction::Transfer {
            from: Holding::CollateralVault,
            to: Holding::UserCollateral,
            amount: 333,
            authority: Authority::Series,
        }
    );
    assert_eq!(
        actions[2],
        TokenAction::Transfer {
            from: Holding::ConsiderationVault,
            to: Holding::UserConsideration,
            amount: 111,
            authority: Authority::Series,
        }
    );
}

#[test]
fn redeem_from_empty_vaults_only_burns() {
    let mut ctx = context();
    ctx.option_context.total_supply = 200;
    let actions = redeem(&mut ctx, 50, 1_000).unwrap();
    assert_eq!(actions, vec![TokenAction::Burn { from: Holding::UserRedemption, amount: 50 }]);
}

#[test]
fn redeem_rejections() {
    let mut ctx = context();
    ctx.collateral_vault.amount = 1000;
    ctx.option_context.total_supply = 200;
    assert_eq!(redeem(&mut ctx, 50, 999), Err(ErrorCode::OptionNotExpired));
    assert_eq!(redeem(&mut ctx, 0, 1_000), Err(ErrorCode::InvalidAmount));
    ctx.option_context.total_supply = 0;
    assert_eq!(redeem(&mut ctx, 50, 1_000), Err(ErrorCode::NoTokensIssued));
    ctx.option_context.total_supply = 1;
    ctx.collateral_vault.amount = u64::MAX;
    assert_eq!(redeem(&mut ctx, 2, 1_000), Err(ErrorCode::MathOverflow));
}

#[test]
fn repeated_consideration_claims_shrink_the_vault() {
    let mut ctx = context();
    ctx.consideration_vault.amount = 1000;
    ctx.option_context.total_supply = 200;
    ctx.user_redemption_account.amount = 100;
    let first = redeem_consideration(&mut ctx).unwrap();
    assert_eq!(
        first,
        vec![TokenAction::Transfer {
            from: Holding::ConsiderationVault,
            to: Holding::UserConsideration,
            amount: 500,
            authority: Authority::Series,
        }]
    );
    settle(&mut ctx, &first);
    assert_eq!(ctx.option_context.total_supply, 200);
    let second = redeem_consideration(&mut ctx).unwrap();
    assert_eq!(
        second,
        vec![TokenAction::Transfer {
            from: Holding::ConsiderationVault,
            to: Holding::UserConsideration,
            amount: 250,
            authority: Authority::Series,
        }]
    );
    settle(&mut ctx, &second);
    assert_eq!(ctx.consideration_vault.amount, 250);
    assert_eq!(ctx.user_redemption_account.amount, 100);
}

#[test]
fn consideration_claim_is_capped_by_the_vault() {
    let mut ctx = context();
    ctx.consideration_vault.amount = 1000;
    ctx.option_context.total_supply = 200;
    ctx.user_redemption_account.amount = 300;
    let first = redeem_consideration(&mut ctx).unwrap();
    assert_eq!(
        first,
        vec![TokenAction::Transfer {
            from: Holding::ConsiderationVault,
            to: Holding::UserConsideration,
            amount: 1000,
            authority: Authority::Series,
        }]
    );
    settle(&mut ctx, &first);
    assert_eq!(redeem_consideration(&mut ctx), Err(ErrorCode::NoCashAvailable));
}

#[test]
fn consideration_claim_rejections() {
    let mut ctx = context();
    ctx.consideration_vault.amount = 1000;
    ctx.option_context.total_supply = 200;
    assert_eq!(redeem_consideration(&mut ctx), Err(ErrorCode::NoShortTokens));
    ctx.user_redemption_account.amount = 1;
    ctx.consideration_vault.amount = 0;
    assert_eq!(redeem_consideration(&mut ctx), Err(ErrorCode::NoCashAvailable));
    ctx.consideration_vault.amount = 100;
    assert_eq!(redeem_consideration(&mut ctx), Err(ErrorCode::NoCashAvailable));
    ctx.option_context.total_supply = 0;
    assert_eq!(redeem_consideration(&mut ctx), Err(ErrorCode::NoTokensIssued));
    ctx.option_context.total_supply = 1;
    ctx.consideration_vault.amount = u64::MAX;
    ctx.user_redemption_account.amount = 2;
    assert_eq!(redeem_consideration(&mut ctx), Err(ErrorCode::MathOverflow));
}

#[test]
fn foreign_accounts_are_rejected() {
    let cases: [(fn(&mut OptionContext), ErrorCode); 6] = [
        (|c| c.collateral_mint.key = key(77), ErrorCode::InvalidUnderlyingMint),
        (|c| c.consideration_mint.key = key(77), ErrorCode::InvalidStrikeCurrency),
        (|c| c.option_mint.key = key(77), ErrorCode::InvalidOptionMint),
        (|c| c.redemption_mint.key = key(77), ErrorCode::InvalidRedemptionMint),
        (|c| c.collateral_vault.key = key(77), ErrorCode::InvalidCollateralVault),
        (|c| c.consideration_vault.key = key(77), ErrorCode::InvalidCashVault),
    ];
    for (tamper, expected) in cases {
        let mut ctx = context();
        tamper(&mut ctx);
        assert_eq!(mint(&mut ctx, 1), Err(expected));
        assert_eq!(exercise(&mut ctx, 1), Err(expected));
        assert_eq!(burn(&mut ctx, 1), Err(expected));
        assert_eq!(redeem(&mut ctx, 1, 5_000), Err(expected));
        assert_eq!(redeem_consideration(&mut ctx), Err(expected));
    }
}

#[test]
fn zero_amount_is_rejected_before_accounts_are_checked() {
    let mut ctx = context();
    ctx.collateral_mint.key = key(77);
    ctx.consideration_vault.key = key(78);
    let before = balances(&ctx);
    assert_eq!(mint(&mut ctx, 0), Err(ErrorCode::InvalidAmount));
    assert_eq!(exercise(&mut ctx, 0), Err(ErrorCode::InvalidAmount));
    assert_eq!(burn(&mut ctx, 0), Err(ErrorCode::InvalidAmount));
    assert_eq!(redeem(&mut ctx, 0, 0), Err(ErrorCode::InvalidAmount));
    assert_eq!(balances(&ctx), before);
    assert_eq!(mint(&mut ctx, 1), Err(ErrorCode::InvalidUnderlyingMint));
}

fn create_accounts() -> OptionCreate {
    OptionCreate {
        user: key(9),
        collateral_mint: mint_info(1, 5, 0),
        consideration_mint: mint_info(2, 6, 0),
        option_mint: key(3),
        redemption_mint: key(4),
        collateral_vault: key(5),
        consideration_vault: key(6),
        bump: 254,
    }
}

#[test]
fn create_series_records_parameters() {
    let rec = create_option(&create_accounts(), key(1), key(2), 4_000_000, 1_000, true, 999).unwrap();
    assert_eq!(rec.strike_price, 4_000_000);
    assert_eq!(rec.expiration, 1_000);
    assert!(rec.is_put);
    assert_eq!(rec.bump, 254);
    assert_eq!(rec.total_supply, 0);
    assert_eq!(rec.exercised_amount, 0);
    assert_eq!(rec.collateral_vault.bytes, [5; 32]);
    assert_eq!(rec.option_mint.bytes, [3; 32]);
}

#[test]
fn create_series_rejections() {
    let ctx = create_accounts();
    assert_eq!(
        create_option(&ctx, key(1), key(2), 4_000_000, 1_000, false, 1_000).err(),
        Some(ErrorCode::ExpirationInPast)
    );
    assert_eq!(
        create_option(&ctx, key(1), key(2), 0, 1_000, false, 10).err(),
        Some(ErrorCode::InvalidStrikePrice)
    );
    assert_eq!(
        create_option(&ctx, key(1), key(2), 0, 5, false, 10).err(),
        Some(ErrorCode::ExpirationInPast)
    );
}

#[test]
fn signer_seeds_hold_the_series_parameters() {
    let mut rec = record();
    rec.expiration = -2;
    rec.is_put = true;
    let seeds = get_option_context_signer_seeds(&rec);
    assert_eq!(seeds.len(), 7);
    assert_eq!(seeds[0], b"option_context".to_vec());
    assert_eq!(seeds[1], vec![1u8; 32]);
    assert_eq!(seeds[2], vec![2u8; 32]);
    assert_eq!(seeds[3], 4_000_000u64.to_le_bytes().to_vec());
    assert_eq!(seeds[4], (-2i64).to_le_bytes().to_vec());
    assert_eq!(seeds[5], vec![1u8]);
    assert_eq!(seeds[6], vec![254u8]);
}

#[test]
fn series_seeds_identify_the_series() {
    let a = series_seeds(&key(1), &key(2), 7, 1_700_000_000, false);
    let b = series_seeds(&key(1), &key(2), 7, 1_700_000_000, false);
    let c = series_seeds(&key(1), &key(2), 8, 1_700_000_000, false);
    assert_eq!(a, b);
    assert_ne!(a, c);
    assert_eq!(a.len(), 6);
    assert_eq!(a[4], 1_700_000_000i64.to_le_bytes().to_vec());
    assert_eq!(a[5], vec![0u8]);
}

#[test]
fn account_keys_compare_by_bytes() {
    let mut bytes = [4u8; 32];
    assert!(key(4).same_as(&AccountKey::new(bytes)));
    bytes[31] = 5;
    assert!(!key(4).same_as(&AccountKey::new(bytes)));
    assert_eq!(AccountKey::new(bytes).to_vec(), bytes.to_vec());
}
