use vstd::prelude::*;

use crate::errors::ErrorCode;
use crate::math::{calculate_pro_rata_share_u128, pro_rata_share_wide};
use crate::option::{account_mismatch, OptionContext, OptionData};
use crate::token_actions::{carries_out, Authority, Holding, TokenAction};

verus! {

/// What a claim pays: the pro-rata share, capped at the vault's balance.
pub open spec fn claimable(ctx: OptionContext) -> u64
    recommends
        pro_rata_share_wide(
            ctx.consideration_vault.amount,
            ctx.user_redemption_account.amount,
            ctx.option_context.total_supply,
        ) is Ok,
{
    let share = pro_rata_share_wide(
        ctx.consideration_vault.amount,
        ctx.user_redemption_account.amount,
        ctx.option_context.total_supply,
    )->Ok_0;
    if share < ctx.consideration_vault.amount {
        share
    } else {
        ctx.consideration_vault.amount
    }
}

/// A claim pays the caller the pro-rata share of the consideration vault
/// that their redemption tokens stand for against the total supply, capped
/// at what the vault holds. It burns nothing and leaves the record as it is.
pub open spec fn claim_outcome(ctx: OptionContext) -> Result<(OptionData, Seq<TokenAction>), ErrorCode> {
    let rec = ctx.option_context;
    let short_balance = ctx.user_redemption_account.amount;
    let vault_balance = ctx.consideration_vault.amount;
    match account_mismatch(ctx) {
        Some(e) => Err(e),
        None => {
            if short_balance == 0 {
                Err(ErrorCode::NoShortTokens)
            } else if vault_balance == 0 {
                Err(ErrorCode::NoCashAvailable)
            } else {
                match pro_rata_share_wide(vault_balance, short_balance, rec.total_supply) {
                    Err(e) => Err(e),
                    Ok(share) => {
                        if claimable(ctx) == 0 {
                            Err(ErrorCode::NoCashAvailable)
                        } else {
                            Ok(
                                (
                                    rec,
                                    seq![
                                        TokenAction::Transfer {
                                            from: Holding::ConsiderationVault,
                                            to: Holding::UserConsideration,
                                            amount: claimable(ctx),
                                            authority: Authority::Series,
                                        },
                                    ],
                                ),
                            )
                        }
                    },
                }
            }
        },
    }
}

/// Pays a holder of redemption tokens their share of the strike payments
/// collected so far. Allowed at any time, before expiry too, and repeatable.
pub fn handler(ctx: &mut OptionContext) -> (r: Result<Vec<TokenAction>, ErrorCode>)
    ensures
        carries_out(*old(ctx), *final(ctx), r, claim_outcome(*old(ctx))),
{
    match ctx.validate_accounts() {
        Err(e) => return Err(e),
        Ok(()) => {},
    }
    let short_balance = ctx.user_redemption_account.amount;
    if short_balance == 0 {
        return Err(ErrorCode::NoShortTokens);
    }
    let vault_balance = ctx.consideration_vault.amount;
    if vault_balance == 0 {
        return Err(ErrorCode::NoCashAvailable);
    }
    let share = match calculate_pro_rata_share_u128(
        vault_balance,
        short_balance,
        ctx.option_context.total_supply,
    ) {
        Err(e) => return Err(e),
        Ok(s) => s,
    };
    let claimable = if share < vault_balance {
        share
    } else {
        vault_balance
    };
    if claimable == 0 {
        return Err(ErrorCode::NoCashAvailable);
    }
    let actions = vec![
        TokenAction::Transfer {
            from: Holding::ConsiderationVault,
            to: Holding::UserConsideration,
            amount: claimable,
            authority: Authority::Series,
        },
    ];
    assert(actions@ =~= claim_outcome(*old(ctx))->Ok_0.1);
    Ok(actions)
}

} // verus!
