use vstd::prelude::*;

use crate::account_key::AccountKey;
use crate::spl_marketplace::errors::ErrorCode;
use crate::spl_marketplace::order::{remaining_of, Order};

verus! {

/// What cancelling reads: the caller, the order, and its escrow's balance.
#[derive(Clone, Copy, Debug)]
pub struct CancelOrder {
    pub user: AccountKey,
    pub order: Order,
    pub escrow_amount: u64,
}

/// Only the owner may cancel, and only an order with something left to fill;
/// the whole escrow goes back to the owner.
pub open spec fn cancel_outcome(ctx: CancelOrder) -> Result<u64, ErrorCode> {
    if ctx.order.owner@ != ctx.user@ {
        Err(ErrorCode::UnauthorizedAccess)
    } else if remaining_of(ctx.order) == 0 {
        Err(ErrorCode::OrderFullyFilled)
    } else {
        Ok(ctx.escrow_amount)
    }
}

/// Cancels an order: the amount to return from its escrow to the owner.
pub fn handler(ctx: &CancelOrder) -> (r: Result<u64, ErrorCode>)
    ensures
        r == cancel_outcome(*ctx),
{
    if !ctx.order.owner.same_as(&ctx.user) {
        return Err(ErrorCode::UnauthorizedAccess);
    }
    if ctx.order.remaining() == 0 {
        return Err(ErrorCode::OrderFullyFilled);
    }
    Ok(ctx.escrow_amount)
}

} // verus!
