use vstd::prelude::*;

use crate::errors::ErrorCode;
use crate::option::{account_mismatch, OptionContext, OptionData};
use crate::token_actions::{carries_out, Authority, Holding, TokenAction};
use crate::validation::validate_amount;

verus! {

/// Minting `amount` deposits that much collateral into the collateral vault,
/// issues that many option and redemption tokens to the caller, and raises
/// the series' total supply by `amount`.
pub open spec fn mint_outcome(ctx: OptionContext, amount: u64) -> Result<
    (OptionData, Seq<TokenAction>),
    ErrorCode,
> {
    let rec = ctx.option_context;
    if amount == 0 {
        Err(ErrorCode::InvalidAmount)
    } else {
        match account_mismatch(ctx) {
            Some(e) => Err(e),
            None => {
                if rec.total_supply + amount > u64::MAX {
                    Err(ErrorCode::MathOverflow)
                } else {
                    Ok(
                        (
                            OptionData { total_supply: (rec.total_supply + amount) as u64, ..rec },
                            seq![
                                TokenAction::Transfer {
                                    from: Holding::UserCollateral,
                                    to: Holding::CollateralVault,
                                    amount,
                                    authority: Authority::User,
                                },
                                TokenAction::MintTo { to: Holding::UserOption, amount },
                                TokenAction::MintTo { to: Holding::UserRedemption, amount },
                            ],
                        ),
                    )
                }
            },
        }
    }
}

/// Deposits `amount` collateral and issues `amount` option and redemption
/// tokens to the caller. Minting is allowed before and after expiry.
pub fn handler(ctx: &mut OptionContext, amount: u64) -> (r: Result<Vec<TokenAction>, ErrorCode>)
    ensures
        carries_out(*old(ctx), *final(ctx), r, mint_outcome(*old(ctx), amount)),
{
    match validate_amount(amount) {
        Err(e) => return Err(e),
        Ok(()) => {},
    }
    match ctx.validate_accounts() {
        Err(e) => return Err(e),
        Ok(()) => {},
    }
    let total_supply = match ctx.option_context.total_supply.checked_add(amount) {
        None => return Err(ErrorCode::MathOverflow),
        Some(s) => s,
    };
    let actions = vec![
        TokenAction::Transfer {
            from: Holding::UserCollateral,
            to: Holding::CollateralVault,
            amount,
            authority: Authority::User,
        },
        TokenAction::MintTo { to: Holding::UserOption, amount },
        TokenAction::MintTo { to: Holding::UserRedemption, amount },
    ];
    ctx.option_context.total_supply = total_supply;
    assert(actions@ =~= mint_outcome(*old(ctx), amount)->Ok_0.1);
    Ok(actions)
}

} // verus!
