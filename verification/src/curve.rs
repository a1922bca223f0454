use vstd::arithmetic::mul::*;
use vstd::prelude::*;

use crate::errors::AmmError;
use crate::laws;

verus! {

/// A pair of token amounts, one per side of the reserve pair.
#[derive(Clone, Copy, Debug, PartialEq, Eq, Structural)]
pub struct TokenAmounts {
    pub x: u64,
    pub y: u64,
}

/// Ceiling division of a non-negative dividend by a positive divisor.
pub open spec fn ceil_div(a: int, d: int) -> int
    recommends
        0 <= a,
        0 < d,
{
    (a + d - 1) / d
}

/// Tokens a deposit must pay into one reserve in exchange for `lp` newly
/// minted shares: the proportional slice of `reserve`, rounded up so the
/// pool never under-collects relative to the shares it mints.
pub open spec fn deposit_amount(reserve: int, supply: int, lp: int) -> int
    recommends
        0 < supply,
{
    ceil_div(lp * reserve, supply)
}

/// Tokens a withdrawal takes out of one reserve in exchange for burning
/// `lp` shares: the proportional slice of `reserve`, rounded down so the
/// pool never over-pays relative to the shares it burns.
pub open spec fn withdraw_amount(reserve: int, supply: int, lp: int) -> int
    recommends
        0 < supply,
{
    lp * reserve / supply
}

/// The part of a swap input that remains once the fee, in basis points of
/// the input, has been charged (rounded down).
pub open spec fn effective_in(amount_in: int, fee_bps: int) -> int
    recommends
        0 <= fee_bps <= 10000,
{
    amount_in * (10000 - fee_bps) / 10000
}

/// Constant-product swap output for an effective input `eff` against the
/// given reserves (rounded down).
pub open spec fn swap_out(reserve_in: int, reserve_out: int, eff: int) -> int
    recommends
        0 < reserve_in + eff,
{
    reserve_out * eff / (reserve_in + eff)
}

/// `floor(a * b / d)` computed exactly: the 128-bit product of two 64-bit
/// factors cannot overflow.
pub(crate) fn mul_div_floor(a: u64, b: u64, d: u64) -> (r: u128)
    requires
        d > 0,
    ensures
        r == a as int * b as int / d as int,
{
    proof {
        lemma_mul_upper_bound(a as int, u64::MAX as int, b as int, u64::MAX as int);
    }
    let n: u128 = (a as u128) * (b as u128);
    n / (d as u128)
}

/// `ceil(a * b / d)` computed exactly in 128-bit arithmetic.
pub(crate) fn mul_div_ceil(a: u64, b: u64, d: u64) -> (r: u128)
    requires
        d > 0,
    ensures
        r == ceil_div(a as int * b as int, d as int),
{
    proof {
        lemma_mul_upper_bound(a as int, u64::MAX as int, b as int, u64::MAX as int);
    }
    let n: u128 = (a as u128) * (b as u128);
    (n + (d as u128) - 1) / (d as u128)
}

/// Quotes the exact cost of minting `lp_amount` new shares against live
/// reserves: each side is the proportional slice of its reserve, rounded
/// up. The first deposit (zero supply) is priced by the caller instead and
/// is handled by `ops::deposit`, so a zero supply is refused here.
pub fn quote_deposit(reserve_x: u64, reserve_y: u64, lp_supply: u64, lp_amount: u64) -> (r: Result<
    TokenAmounts,
    AmmError,
>)
    requires
        lp_supply > 0 ==> deposit_amount(reserve_x as int, lp_supply as int, lp_amount as int)
            <= u64::MAX,
        lp_supply > 0 ==> deposit_amount(reserve_y as int, lp_supply as int, lp_amount as int)
            <= u64::MAX,
    ensures
        lp_amount == 0 ==> r == Err::<TokenAmounts, AmmError>(
            AmmError::InsufficientLiquidityMinted,
        ),
        lp_amount > 0 && lp_supply == 0 ==> r == Err::<TokenAmounts, AmmError>(
            AmmError::DivideByZero,
        ),
        lp_amount > 0 && lp_supply > 0 ==> (r matches Ok(a) && a.x == deposit_amount(
            reserve_x as int,
            lp_supply as int,
            lp_amount as int,
        ) && a.y == deposit_amount(reserve_y as int, lp_supply as int, lp_amount as int)),
{
    if lp_amount == 0 {
        return Err(AmmError::InsufficientLiquidityMinted);
    }
    if lp_supply == 0 {
        return Err(AmmError::DivideByZero);
    }
    let ax: u128 = mul_div_ceil(lp_amount, reserve_x, lp_supply);
    let ay: u128 = mul_div_ceil(lp_amount, reserve_y, lp_supply);
    Ok(TokenAmounts { x: ax as u64, y: ay as u64 })
}

/// Quotes the exact payout for burning `lp_amount` shares against live
/// reserves: each side is the proportional slice of its reserve, rounded
/// down. A zero supply has no proportional share and is refused.
pub fn quote_withdraw(reserve_x: u64, reserve_y: u64, lp_supply: u64, lp_amount: u64) -> (r: Result<
    TokenAmounts,
    AmmError,
>)
    requires
        lp_supply > 0 ==> withdraw_amount(reserve_x as int, lp_supply as int, lp_amount as int)
            <= u64::MAX,
        lp_supply > 0 ==> withdraw_amount(reserve_y as int, lp_supply as int, lp_amount as int)
            <= u64::MAX,
    ensures
        lp_supply == 0 ==> r == Err::<TokenAmounts, AmmError>(AmmError::DivideByZero),
        lp_supply > 0 ==> (r matches Ok(a) && a.x == withdraw_amount(
            reserve_x as int,
            lp_supply as int,
            lp_amount as int,
        ) && a.y == withdraw_amount(reserve_y as int, lp_supply as int, lp_amount as int)),
        lp_amount <= lp_supply ==> (r matches Ok(a) ==> a.x <= reserve_x && a.y <= reserve_y),
{
    if lp_supply == 0 {
        return Err(AmmError::DivideByZero);
    }
    let wx: u128 = mul_div_floor(lp_amount, reserve_x, lp_supply);
    let wy: u128 = mul_div_floor(lp_amount, reserve_y, lp_supply);
    proof {
        laws::lemma_withdraw_never_overpays(reserve_x as int, lp_supply as int, lp_amount as int);
        laws::lemma_withdraw_never_overpays(reserve_y as int, lp_supply as int, lp_amount as int);
    }
    Ok(TokenAmounts { x: wx as u64, y: wy as u64 })
}

/// Prices a swap of `amount_in` against the curve: the fee is charged on
/// the input, and the output is the constant-product quote, rounded down.
/// An empty reserve on either side is refused, so on success the output is
/// strictly below the output reserve and the reserve product cannot shrink.
pub fn quote_swap(reserve_in: u64, reserve_out: u64, amount_in: u64, fee_bps: u16) -> (r: Result<
    u64,
    AmmError,
>)
    requires
        fee_bps <= 10000,
    ensures
        ({
            let eff = effective_in(amount_in as int, fee_bps as int);
            let out = swap_out(reserve_in as int, reserve_out as int, eff);
            &&& (reserve_in == 0 || reserve_out == 0) ==> r == Err::<u64, AmmError>(
                AmmError::InsufficientReserves,
            )
            &&& reserve_in > 0 && reserve_out > 0 && amount_in > 0 && out == 0 ==> r == Err::<
                u64,
                AmmError,
            >(AmmError::InsufficientReserves)
            &&& reserve_in > 0 && reserve_out > 0 && (amount_in == 0 || out > 0) ==> (r matches Ok(
                v,
            ) && v == out)
            &&& r matches Ok(v) ==> {
                &&& v == out
                &&& v < reserve_out
                &&& (reserve_in + amount_in) * (reserve_out - v) >= reserve_in * reserve_out
            }
        }),
{
    if reserve_in == 0 || reserve_out == 0 {
        return Err(AmmError::InsufficientReserves);
    }
    let fee_factor: u64 = (10000 - fee_bps) as u64;
    let eff: u128 = mul_div_floor(amount_in, fee_factor, 10000);
    proof {
        laws::lemma_effective_in_bounds(amount_in as int, fee_bps as int);
        laws::lemma_swap_preserves_product(
            reserve_in as int,
            reserve_out as int,
            amount_in as int,
            fee_bps as int,
        );
        lemma_mul_upper_bound(reserve_out as int, u64::MAX as int, eff as int, u64::MAX as int);
    }
    let denom: u128 = (reserve_in as u128) + eff;
    let num: u128 = (reserve_out as u128) * eff;
    let out_wide: u128 = num / denom;
    let out: u64 = out_wide as u64;
    if amount_in > 0 && out == 0 {
        return Err(AmmError::InsufficientReserves);
    }
    Ok(out)
}

} // verus!
