use vstd::prelude::*;

use crate::errors::ErrorCode;
use crate::option::{account_mismatch, OptionContext, OptionData};
use crate::token_actions::{carries_out, Authority, Holding, TokenAction};
use crate::validation::{validate_amount, validate_vault_balance};

verus! {

/// Burning a pair of `amount` destroys that many of the caller's option and
/// redemption tokens, returns `amount` collateral from the vault to the
/// caller, and lowers the total supply by `amount`.
pub open spec fn burn_outcome(ctx: OptionContext, amount: u64) -> Result<
    (OptionData, Seq<TokenAction>),
    ErrorCode,
> {
    let rec = ctx.option_context;
    if amount == 0 {
        Err(ErrorCode::InvalidAmount)
    } else {
        match account_mismatch(ctx) {
            Some(e) => Err(e),
            None => {
                if ctx.collateral_vault.amount < amount {
                    Err(ErrorCode::InsufficientCollateral)
                } else if rec.total_supply < amount {
                    Err(ErrorCode::MathOverflow)
                } else {
                    Ok(
                        (
                            OptionData { total_supply: (rec.total_supply - amount) as u64, ..rec },
                            seq![
                                TokenAction::Burn { from: Holding::UserOption, amount },
                                TokenAction::Burn { from: Holding::UserRedemption, amount },
                                TokenAction::Transfer {
                                    from: Holding::CollateralVault,
                                    to: Holding::UserCollateral,
                                    amount,
                                    authority: Authority::Series,
                                },
                            ],
                        ),
                    )
                }
            },
        }
    }
}

/// Unwinds `amount` paired tokens into collateral, one for one, at any time.
pub fn handler(ctx: &mut OptionContext, amount: u64) -> (r: Result<Vec<TokenAction>, ErrorCode>)
    ensures
        carries_out(*old(ctx), *final(ctx), r, burn_outcome(*old(ctx), amount)),
{
    match validate_amount(amount) {
        Err(e) => return Err(e),
        Ok(()) => {},
    }
    match ctx.validate_accounts() {
        Err(e) => return Err(e),
        Ok(()) => {},
    }
    match validate_vault_balance(ctx.collateral_vault.amount, amount) {
        Err(e) => return Err(e),
        Ok(()) => {},
    }
    let total_supply = match ctx.option_context.total_supply.checked_sub(amount) {
        None => return Err(ErrorCode::MathOverflow),
        Some(s) => s,
    };
    let actions = vec![
        TokenAction::Burn { from: Holding::UserOption, amount },
        TokenAction::Burn { from: Holding::UserRedemption, amount },
        TokenAction::Transfer {
            from: Holding::CollateralVault,
            to: Holding::UserCollateral,
            amount,
            authority: Authority::Series,
        },
    ];
    ctx.option_context.total_supply = total_supply;
    assert(actions@ =~= burn_outcome(*old(ctx), amount)->Ok_0.1);
    Ok(actions)
}

} // verus!
