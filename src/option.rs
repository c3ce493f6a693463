use vstd::prelude::*;

use crate::account_key::AccountKey;
use crate::errors::ErrorCode;

verus! {

/// The record of one option series: its defining parameters, the addresses
/// of the two token types and two vaults it controls, and its running counters.
#[derive(Clone, Copy, Debug)]
pub struct OptionData {
    pub collateral_mint: AccountKey,
    pub consideration_mint: AccountKey,
    pub strike_price: u64,
    pub expiration: i64,
    pub is_put: bool,
    pub bump: u8,
    pub option_mint: AccountKey,
    pub redemption_mint: AccountKey,
    pub collateral_vault: AccountKey,
    pub consideration_vault: AccountKey,
    pub total_supply: u64,
    pub exercised_amount: u64,
}

/// A token type as read from the ledger: its address, decimals and supply.
#[derive(Clone, Copy, Debug)]
pub struct MintInfo {
    pub key: AccountKey,
    pub decimals: u8,
    pub supply: u64,
}

/// A token account as read from the ledger: its address and balance.
#[derive(Clone, Copy, Debug)]
pub struct TokenAccountInfo {
    pub key: AccountKey,
    pub amount: u64,
}

/// Everything that an operation on an existing series reads: the series
/// record, the token types and vaults the caller supplied, and the caller's
/// own token accounts.
#[derive(Clone, Copy, Debug)]
pub struct OptionContext {
    pub user: AccountKey,
    pub option_context: OptionData,
    pub collateral_mint: MintInfo,
    pub consideration_mint: MintInfo,
    pub option_mint: MintInfo,
    pub redemption_mint: MintInfo,
    pub collateral_vault: TokenAccountInfo,
    pub consideration_vault: TokenAccountInfo,
    pub user_collateral_account: TokenAccountInfo,
    pub user_consideration_account: TokenAccountInfo,
    pub user_option_account: TokenAccountInfo,
    pub user_redemption_account: TokenAccountInfo,
}

/// What creating a series reads: the freshly allocated token types and
/// vaults, and the salt that completes the series' address derivation.
#[derive(Clone, Copy, Debug)]
pub struct OptionCreate {
    pub user: AccountKey,
    pub collateral_mint: MintInfo,
    pub consideration_mint: MintInfo,
    pub option_mint: AccountKey,
    pub redemption_mint: AccountKey,
    pub collateral_vault: AccountKey,
    pub consideration_vault: AccountKey,
    pub bump: u8,
}

/// The first supplied token type or vault whose address differs from the one
/// the series record holds, as the error that names it.
pub open spec fn account_mismatch(ctx: OptionContext) -> Option<ErrorCode> {
    let rec = ctx.option_context;
    if ctx.collateral_mint.key@ != rec.collateral_mint@ {
        Some(ErrorCode::InvalidUnderlyingMint)
    } else if ctx.consideration_mint.key@ != rec.consideration_mint@ {
        Some(ErrorCode::InvalidStrikeCurrency)
    } else if ctx.option_mint.key@ != rec.option_mint@ {
        Some(ErrorCode::InvalidOptionMint)
    } else if ctx.redemption_mint.key@ != rec.redemption_mint@ {
        Some(ErrorCode::InvalidRedemptionMint)
    } else if ctx.collateral_vault.key@ != rec.collateral_vault@ {
        Some(ErrorCode::InvalidCollateralVault)
    } else if ctx.consideration_vault.key@ != rec.consideration_vault@ {
        Some(ErrorCode::InvalidCashVault)
    } else {
        None
    }
}

impl OptionContext {
    /// Checks that the supplied token types and vaults are the series' own.
    pub fn validate_accounts(&self) -> (r: Result<(), ErrorCode>)
        ensures
            r == (match account_mismatch(*self) {
                Some(e) => Err(e),
                None => Ok(()),
            }),
    {
        let rec = &self.option_context;
        if !self.collateral_mint.key.same_as(&rec.collateral_mint) {
            return Err(ErrorCode::InvalidUnderlyingMint);
        }
        if !self.consideration_mint.key.same_as(&rec.consideration_mint) {
            return Err(ErrorCode::InvalidStrikeCurrency);
        }
        if !self.option_mint.key.same_as(&rec.option_mint) {
            return Err(ErrorCode::InvalidOptionMint);
        }
        if !self.redemption_mint.key.same_as(&rec.redemption_mint) {
            return Err(ErrorCode::InvalidRedemptionMint);
        }
        if !self.collateral_vault.key.same_as(&rec.collateral_vault) {
            return Err(ErrorCode::InvalidCollateralVault);
        }
        if !self.consideration_vault.key.same_as(&rec.consideration_vault) {
            return Err(ErrorCode::InvalidCashVault);
        }
        Ok(())
    }
}

} // verus!
