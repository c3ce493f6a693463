use vstd::prelude::*;

use crate::option::MintInfo;
use crate::spl_marketplace::market::Market;

verus! {

/// What creating a market reads: the two token types and the salt of the
/// market's address.
#[derive(Clone, Copy, Debug)]
pub struct CreateMarket {
    pub base_mint: MintInfo,
    pub quote_mint: MintInfo,
    pub bump: u8,
}

/// Builds a new market for the pair, with its counters and statistics at zero.
pub fn handler(ctx: &CreateMarket) -> (r: Market)
    ensures
        r == (Market {
            base_mint: ctx.base_mint.key,
            quote_mint: ctx.quote_mint.key,
            bump: ctx.bump,
            next_order_id: 0,
            total_orders_placed: 0,
            total_orders_filled: 0,
            total_base_volume: 0,
            total_quote_volume: 0,
        }),
{
    Market {
        base_mint: ctx.base_mint.key,
        quote_mint: ctx.quote_mint.key,
        bump: ctx.bump,
        next_order_id: 0,
        total_orders_placed: 0,
        total_orders_filled: 0,
        total_base_volume: 0,
        total_quote_volume: 0,
    }
}

} // verus!
