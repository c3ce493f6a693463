use vstd::prelude::*;

use crate::errors::ErrorCode;
use crate::math::{calculate_pro_rata_share, pro_rata_share};
use crate::option::{account_mismatch, OptionContext, OptionData};
use crate::token_actions::{carries_out, Authority, Holding, TokenAction};
use crate::validation::{validate_amount, validate_expired};

verus! {

/// The payouts of a redemption, where each is non-zero.
pub open spec fn payout_actions(collateral_payout: u64, consideration_payout: u64) -> Seq<
    TokenAction,
> {
    (if collateral_payout > 0 {
        seq![
            TokenAction::Transfer {
                from: Holding::CollateralVault,
                to: Holding::UserCollateral,
                amount: collateral_payout,
                authority: Authority::Series,
            },
        ]
    } else {
        Seq::<TokenAction>::empty()
    }) + (if consideration_payout > 0 {
        seq![
            TokenAction::Transfer {
                from: Holding::ConsiderationVault,
                to: Holding::UserConsideration,
                amount: consideration_payout,
                authority: Authority::Series,
            },
        ]
    } else {
        Seq::<TokenAction>::empty()
    })
}

/// Redeeming `amount` redemption tokens at or after expiry burns them and
/// pays out the pro-rata share of both vaults against the total supply. The
/// series record, and with it the total supply, stays as it is.
pub open spec fn redeem_outcome(ctx: OptionContext, amount: u64, now: i64) -> Result<
    (OptionData, Seq<TokenAction>),
    ErrorCode,
> {
    let rec = ctx.option_context;
    if amount == 0 {
        Err(ErrorCode::InvalidAmount)
    } else {
        match account_mismatch(ctx) {
            Some(e) => Err(e),
            None => {
                if now < rec.expiration {
                    Err(ErrorCode::OptionNotExpired)
                } else {
                    match pro_rata_share(ctx.collateral_vault.amount, amount, rec.total_supply) {
                        Err(e) => Err(e),
                        Ok(collateral_payout) => {
                            match pro_rata_share(
                                ctx.consideration_vault.amount,
                                amount,
                                rec.total_supply,
                            ) {
                                Err(e) => Err(e),
                                Ok(consideration_payout) => Ok(
                                    (
                                        rec,
                                        seq![TokenAction::Burn { from: Holding::UserRedemption, amount }]
                                            + payout_actions(collateral_payout, consideration_payout),
                                    ),
                                ),
                            }
                        },
                    }
                }
            },
        }
    }
}

/// Redeems `amount` redemption tokens after expiry, at time `now`, for their
/// pro-rata share of the collateral and consideration vaults.
pub fn handler(ctx: &mut OptionContext, amount: u64, now: i64) -> (r: Result<
    Vec<TokenAction>,
    ErrorCode,
>)
    ensures
        carries_out(*old(ctx), *final(ctx), r, redeem_outcome(*old(ctx), amount, now)),
{
    match validate_amount(amount) {
        Err(e) => return Err(e),
        Ok(()) => {},
    }
    match ctx.validate_accounts() {
        Err(e) => return Err(e),
        Ok(()) => {},
    }
    match validate_expired(ctx.option_context.expiration, now) {
        Err(e) => return Err(e),
        Ok(()) => {},
    }
    let total_supply = ctx.option_context.total_supply;
    let collateral_payout = match calculate_pro_rata_share(
        ctx.collateral_vault.amount,
        amount,
        total_supply,
    ) {
        Err(e) => return Err(e),
        Ok(p) => p,
    };
    let consideration_payout = match calculate_pro_rata_share(
        ctx.consideration_vault.amount,
        amount,
        total_supply,
    ) {
        Err(e) => return Err(e),
        Ok(p) => p,
    };
    let mut actions = vec![TokenAction::Burn { from: Holding::UserRedemption, amount }];
    if collateral_payout > 0 {
        actions.push(
            TokenAction::Transfer {
                from: Holding::CollateralVault,
                to: Holding::UserCollateral,
                amount: collateral_payout,
                authority: Authority::Series,
            },
        );
    }
    if consideration_payout > 0 {
        actions.push(
            TokenAction::Transfer {
                from: Holding::ConsiderationVault,
                to: Holding::UserConsideration,
                amount: consideration_payout,
                authority: Authority::Series,
            },
        );
    }
    assert(actions@ =~= redeem_outcome(*old(ctx), amount, now)->Ok_0.1);
    Ok(actions)
}

} // verus!
