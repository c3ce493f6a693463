use vstd::prelude::*;

use crate::account_key::AccountKey;

verus! {

/// A limit order resting in a market, with its deposit held in escrow.
#[derive(Clone, Copy, Debug)]
pub struct Order {
    pub market: AccountKey,
    pub order_id: u64,
    pub owner: AccountKey,
    pub is_buy: bool,
    pub price: u64,
    pub size: u64,
    pub filled: u64,
    pub bump: u8,
    pub created_at: i64,
}

/// What is left to fill of an order: its size less what was filled, and
/// never below zero.
pub open spec fn remaining_of(order: Order) -> u64 {
    if order.size >= order.filled {
        (order.size - order.filled) as u64
    } else {
        0
    }
}

impl Order {
    /// Bytes a stored order takes, its 8-byte type tag included.
    pub const SIZE: usize = 8 + 32 + 8 + 32 + 1 + 8 + 8 + 8 + 1 + 8;

    pub fn remaining(&self) -> (r: u64)
        ensures
            r == remaining_of(*self),
    {
        self.size.saturating_sub(self.filled)
    }
}

} // verus!
