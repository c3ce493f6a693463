use vstd::prelude::*;

use crate::option::{OptionContext, OptionData, TokenAccountInfo, MintInfo};
use crate::errors::ErrorCode;

verus! {

/// One of the token accounts that an operation on a series touches.
#[derive(Clone, Copy, Debug, PartialEq, Eq, Structural)]
pub enum Holding {
    CollateralVault,
    ConsiderationVault,
    UserCollateral,
    UserConsideration,
    UserOption,
    UserRedemption,
}

/// Who signs a movement of tokens: the caller, or the series record through
/// its derived signing authority.
#[derive(Clone, Copy, Debug, PartialEq, Eq, Structural)]
pub enum Authority {
    User,
    Series,
}

/// A movement of tokens that an operation asks the token ledger to perform.
/// Issuing is signed by the series, which is the authority of both token
/// types; burning is signed by the caller.
#[derive(Clone, Copy, Debug, PartialEq, Eq, Structural)]
pub enum TokenAction {
    Transfer { from: Holding, to: Holding, amount: u64, authority: Authority },
    MintTo { to: Holding, amount: u64 },
    Burn { from: Holding, amount: u64 },
}

/// The authority recorded on each account: the vaults belong to the series,
/// the other accounts to the caller.
pub open spec fn owner_of(h: Holding) -> Authority {
    match h {
        Holding::CollateralVault | Holding::ConsiderationVault => Authority::Series,
        _ => Authority::User,
    }
}

pub open spec fn account_of(ctx: OptionContext, h: Holding) -> TokenAccountInfo {
    match h {
        Holding::CollateralVault => ctx.collateral_vault,
        Holding::ConsiderationVault => ctx.consideration_vault,
        Holding::UserCollateral => ctx.user_collateral_account,
        Holding::UserConsideration => ctx.user_consideration_account,
        Holding::UserOption => ctx.user_option_account,
        Holding::UserRedemption => ctx.user_redemption_account,
    }
}

pub open spec fn balance_of(ctx: OptionContext, h: Holding) -> u64 {
    account_of(ctx, h).amount
}

/// `ctx` with the balance of `h` replaced.
pub open spec fn with_balance(ctx: OptionContext, h: Holding, amount: u64) -> OptionContext {
    let acct = TokenAccountInfo { amount, ..account_of(ctx, h) };
    match h {
        Holding::CollateralVault => OptionContext { collateral_vault: acct, ..ctx },
        Holding::ConsiderationVault => OptionContext { consideration_vault: acct, ..ctx },
        Holding::UserCollateral => OptionContext { user_collateral_account: acct, ..ctx },
        Holding::UserConsideration => OptionContext { user_consideration_account: acct, ..ctx },
        Holding::UserOption => OptionContext { user_option_account: acct, ..ctx },
        Holding::UserRedemption => OptionContext { user_redemption_account: acct, ..ctx },
    }
}

/// The token type whose tokens `h` holds, where it is one of the series' own.
pub open spec fn series_mint_of(ctx: OptionContext, h: Holding) -> Option<MintInfo> {
    match h {
        Holding::UserOption => Some(ctx.option_mint),
        Holding::UserRedemption => Some(ctx.redemption_mint),
        _ => None,
    }
}

/// `ctx` with the supply of the token type held in `h` replaced.
pub open spec fn with_supply(ctx: OptionContext, h: Holding, supply: u64) -> OptionContext {
    match h {
        Holding::UserOption => OptionContext {
            option_mint: MintInfo { supply, ..ctx.option_mint },
            ..ctx
        },
        Holding::UserRedemption => OptionContext {
            redemption_mint: MintInfo { supply, ..ctx.redemption_mint },
            ..ctx
        },
        _ => ctx,
    }
}

/// What the token ledger makes of one action: `None` where it refuses it
/// (wrong signer, a balance or supply too small, a balance or supply that
/// would leave the 64-bit range, a token type the series does not issue).
pub open spec fn apply_action(ctx: OptionContext, a: TokenAction) -> Option<OptionContext> {
    match a {
        TokenAction::Transfer { from, to, amount, authority } => {
            if authority != owner_of(from) || balance_of(ctx, from) < amount {
                None
            } else {
                let c1 = with_balance(ctx, from, (balance_of(ctx, from) - amount) as u64);
                if balance_of(c1, to) + amount > u64::MAX {
                    None
                } else {
                    Some(with_balance(c1, to, (balance_of(c1, to) + amount) as u64))
                }
            }
        },
        TokenAction::MintTo { to, amount } => {
            match series_mint_of(ctx, to) {
                None => None,
                Some(m) => {
                    if m.supply + amount > u64::MAX || balance_of(ctx, to) + amount > u64::MAX {
                        None
                    } else {
                        Some(
                            with_supply(
                                with_balance(ctx, to, (balance_of(ctx, to) + amount) as u64),
                                to,
                                (m.supply + amount) as u64,
                            ),
                        )
                    }
                },
            }
        },
        TokenAction::Burn { from, amount } => {
            match series_mint_of(ctx, from) {
                None => None,
                Some(m) => {
                    if m.supply < amount || balance_of(ctx, from) < amount {
                        None
                    } else {
                        Some(
                            with_supply(
                                with_balance(ctx, from, (balance_of(ctx, from) - amount) as u64),
                                from,
                                (m.supply - amount) as u64,
                            ),
                        )
                    }
                },
            }
        },
    }
}

/// The ledger applies a list of actions in order, all or nothing.
pub open spec fn settle(ctx: OptionContext, actions: Seq<TokenAction>) -> Option<OptionContext>
    decreases actions.len(),
{
    if actions.len() == 0 {
        Some(ctx)
    } else {
        match apply_action(ctx, actions[0]) {
            None => None,
            Some(c) => settle(c, actions.subrange(1, actions.len() as int)),
        }
    }
}

/// The state after an operation's outcome has taken effect: its new series
/// record stored and its token actions settled. `None` where the operation
/// failed or the ledger refused one of its actions; in either case nothing
/// changes.
pub open spec fn execute(
    ctx: OptionContext,
    outcome: Result<(OptionData, Seq<TokenAction>), ErrorCode>,
) -> Option<OptionContext> {
    match outcome {
        Ok((rec, actions)) => settle(OptionContext { option_context: rec, ..ctx }, actions),
        Err(_) => None,
    }
}

/// An operation on `before` that returned `r` and left `after` did what
/// `outcome` prescribes: on success it stored the new record and handed back
/// exactly the prescribed actions; on failure it changed nothing.
pub open spec fn carries_out(
    before: OptionContext,
    after: OptionContext,
    r: Result<Vec<TokenAction>, ErrorCode>,
    outcome: Result<(OptionData, Seq<TokenAction>), ErrorCode>,
) -> bool {
    match outcome {
        Ok((rec, actions)) => {
            &&& r is Ok
            &&& r->Ok_0@ == actions
            &&& after == OptionContext { option_context: rec, ..before }
        },
        Err(e) => r == Err::<Vec<TokenAction>, ErrorCode>(e) && after == before,
    }
}

} // verus!
