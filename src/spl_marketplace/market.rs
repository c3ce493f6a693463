use vstd::prelude::*;

use crate::account_key::AccountKey;

verus! {

/// A market for one pair of token types, with its order counter and statistics.
#[derive(Clone, Copy, Debug)]
pub struct Market {
    pub base_mint: AccountKey,
    pub quote_mint: AccountKey,
    pub bump: u8,
    pub next_order_id: u64,
    pub total_orders_placed: u64,
    pub total_orders_filled: u64,
    pub total_base_volume: u64,
    pub total_quote_volume: u64,
}

impl Market {
    /// Bytes a stored market takes, its 8-byte type tag included.
    pub const SIZE: usize = 8 + 32 + 32 + 1 + 8 + 8 + 8 + 8 + 8;
}

} // verus!
