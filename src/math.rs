use vstd::prelude::*;

use crate::errors::ErrorCode;

verus! {

/// `10` raised to `exp`.
pub open spec fn pow10(exp: nat) -> nat
    decreases exp,
{
    if exp == 0 {
        1
    } else {
        10 * pow10((exp - 1) as nat)
    }
}

/// The holder's part of a pool: `floor(vault_balance * user_amount / total_supply)`.
pub open spec fn pro_rata(vault_balance: nat, user_amount: nat, total_supply: nat) -> nat
    recommends
        total_supply > 0,
{
    (vault_balance * user_amount / total_supply) as nat
}

/// Outcome of the 64-bit proportional share: the product itself must fit in 64 bits.
pub open spec fn pro_rata_share(vault_balance: u64, user_amount: u64, total_supply: u64) -> Result<
    u64,
    ErrorCode,
> {
    if total_supply == 0 {
        Err(ErrorCode::NoTokensIssued)
    } else if vault_balance == 0 {
        Ok(0)
    } else if vault_balance * user_amount > u64::MAX {
        Err(ErrorCode::MathOverflow)
    } else {
        Ok(pro_rata(vault_balance as nat, user_amount as nat, total_supply as nat) as u64)
    }
}

/// Outcome of the widened proportional share: the product is formed in 128 bits,
/// and only a quotient beyond the 64-bit range is an overflow.
pub open spec fn pro_rata_share_wide(vault_balance: u64, user_amount: u64, total_supply: u64) -> Result<
    u64,
    ErrorCode,
> {
    if total_supply == 0 {
        Err(ErrorCode::NoTokensIssued)
    } else if vault_balance == 0 {
        Ok(0)
    } else if pro_rata(vault_balance as nat, user_amount as nat, total_supply as nat) > u64::MAX {
        Err(ErrorCode::MathOverflow)
    } else {
        Ok(pro_rata(vault_balance as nat, user_amount as nat, total_supply as nat) as u64)
    }
}

/// `floor(a * b / 10^decimals)` where the product and the power of ten both
/// fit in 64 bits; `None` where either does not.
pub open spec fn scaled_product(a: u64, b: u64, decimals: u8) -> Option<u64> {
    if a * b > u64::MAX || pow10(decimals as nat) > u64::MAX {
        None
    } else {
        Some(((a * b) / (pow10(decimals as nat) as int)) as u64)
    }
}

/// Outcome of the strike payment `floor(amount * strike_price / 10^collateral_decimals)`.
pub open spec fn strike_payment(amount: u64, strike_price: u64, collateral_decimals: u8) -> Result<
    u64,
    ErrorCode,
> {
    match scaled_product(amount, strike_price, collateral_decimals) {
        Some(p) => Ok(p),
        None => Err(ErrorCode::MathOverflow),
    }
}

/// Powers of ten grow with the exponent.
pub proof fn lemma_pow10_monotonic(a: nat, b: nat)
    requires
        a <= b,
    ensures
        1 <= pow10(a) <= pow10(b),
    decreases b,
{
    if b > a {
        lemma_pow10_monotonic(a, (b - 1) as nat);
    } else if a > 0 {
        lemma_pow10_monotonic((a - 1) as nat, (a - 1) as nat);
    }
}

/// `10^exp` when it fits in 64 bits.
fn checked_pow10(exp: u8) -> (r: Option<u64>)
    ensures
        r == (if pow10(exp as nat) <= u64::MAX { Some(pow10(exp as nat) as u64) } else { None }),
{
    proof {
        reveal_with_fuel(pow10, 21);
        assert(pow10(19) == 10_000_000_000_000_000_000nat);
        assert(pow10(20) > u64::MAX);
    }
    if exp > 19 {
        proof {
            lemma_pow10_monotonic(20, exp as nat);
        }
        return None;
    }
    let mut p: u64 = 1;
    let mut i: u8 = 0;
    while i < exp
        invariant
            i <= exp <= 19,
            p == pow10(i as nat),
            pow10(19) == 10_000_000_000_000_000_000nat,
        decreases exp - i,
    {
        proof {
            lemma_pow10_monotonic((i + 1) as nat, 19);
        }
        p = p * 10;
        i = i + 1;
    }
    proof {
        lemma_pow10_monotonic(exp as nat, 19);
    }
    Some(p)
}

/// Pro-rata share of a pool with every step in 64 bits:
/// `floor(vault_balance * user_amount / total_supply)`.
/// Fails with `NoTokensIssued` when nothing was issued, is `0` for an empty pool,
/// and fails with `MathOverflow` when the product leaves the 64-bit range.
pub fn calculate_pro_rata_share(vault_balance: u64, user_amount: u64, total_supply: u64) -> (r:
    Result<u64, ErrorCode>)
    ensures
        r == pro_rata_share(vault_balance, user_amount, total_supply),
{
    if total_supply == 0 {
        return Err(ErrorCode::NoTokensIssued);
    }
    if vault_balance == 0 {
        return Ok(0);
    }
    match vault_balance.checked_mul(user_amount) {
        None => Err(ErrorCode::MathOverflow),
        Some(product) => Ok(product / total_supply),
    }
}

/// Pro-rata share of a pool with the product widened to 128 bits, so that
/// only a quotient beyond the 64-bit range fails with `MathOverflow`;
/// every quotient within range comes back exactly.
pub fn calculate_pro_rata_share_u128(vault_balance: u64, user_amount: u64, total_supply: u64) -> (r:
    Result<u64, ErrorCode>)
    ensures
        r == pro_rata_share_wide(vault_balance, user_amount, total_supply),
{
    if total_supply == 0 {
        return Err(ErrorCode::NoTokensIssued);
    }
    if vault_balance == 0 {
        return Ok(0);
    }
    let v: u128 = vault_balance as u128;
    let u: u128 = user_amount as u128;
    assert(v * u <= u64::MAX * u64::MAX) by (nonlinear_arith)
        requires
            v <= u64::MAX,
            u <= u64::MAX,
    ;
    let numerator: u128 = v * u;
    let quotient: u128 = numerator / (total_supply as u128);
    if quotient > u64::MAX as u128 {
        Err(ErrorCode::MathOverflow)
    } else {
        Ok(quotient as u64)
    }
}

/// `floor(a * b / 10^decimals)` computed in 64 bits, or `None` where the
/// product or the power of ten does not fit.
pub fn checked_scaled_product(a: u64, b: u64, decimals: u8) -> (r: Option<u64>)
    ensures
        r == scaled_product(a, b, decimals),
{
    let product = match a.checked_mul(b) {
        None => return None,
        Some(p) => p,
    };
    let divisor = match checked_pow10(decimals) {
        None => return None,
        Some(d) => d,
    };
    proof {
        lemma_pow10_monotonic(0, decimals as nat);
    }
    Some(product / divisor)
}

/// Consideration owed when exercising `amount` collateral units:
/// `floor(amount * strike_price / 10^collateral_decimals)`.
/// Fails with `MathOverflow` when the product or the power of ten leaves the 64-bit range.
pub fn calculate_strike_payment(amount: u64, strike_price: u64, collateral_decimals: u8) -> (r:
    Result<u64, ErrorCode>)
    ensures
        r == strike_payment(amount, strike_price, collateral_decimals),
{
    match checked_scaled_product(amount, strike_price, collateral_decimals) {
        Some(p) => Ok(p),
        None => Err(ErrorCode::MathOverflow),
    }
}

} // verus!
