use vstd::prelude::*;

use crate::curve;
use crate::curve::{deposit_amount, effective_in, swap_out, withdraw_amount, TokenAmounts};
use crate::errors::AmmError;
use crate::laws;
use crate::state::Config;

verus! {

/// Creates the persisted record of a new pool. The fee must be a valid
/// basis-point rate and the asset pair must be supplied in canonical
/// (ascending) order, so the pair is distinct and the reversed pair cannot
/// name a second pool for the same seed. A new pool starts unlocked.
pub fn initialize(seed: u64, fee: u16, mint_x: u64, mint_y: u64, bump: u8, mint_lp_bump: u8) -> (r:
    Result<Config, AmmError>)
    ensures
        fee > 10000 || mint_x >= mint_y ==> r == Err::<Config, AmmError>(AmmError::InvalidAmount),
        fee <= 10000 && mint_x < mint_y ==> r == Ok::<Config, AmmError>(
            (Config { seed, mint_x, mint_y, fee, locked: false, bump, mint_lp_bump }),
        ),
        r matches Ok(c) ==> c.wf() && !c.locked,
{
    if fee > 10000 {
        return Err(AmmError::InvalidAmount);
    }
    if mint_x >= mint_y {
        return Err(AmmError::InvalidAmount);
    }
    Ok(Config { seed, mint_x, mint_y, fee, locked: false, bump, mint_lp_bump })
}

/// Quotes and validates a deposit of liquidity: how much of each reserve
/// the caller must pay in to mint `lp_amount` new shares. On a fresh pool
/// (zero supply) the caller's two bounds become the amounts and set the
/// initial exchange rate; otherwise each side is the proportional slice of
/// its reserve, rounded up, and must not exceed the caller's bound. The
/// caller applies the returned amounts and the mint to the ledger
/// atomically; on any error nothing must be applied.
pub fn deposit(
    config: &Config,
    reserve_x: u64,
    reserve_y: u64,
    lp_supply: u64,
    lp_amount: u64,
    max_x: u64,
    max_y: u64,
    expiration: i64,
    now: i64,
) -> (r: Result<TokenAmounts, AmmError>)
    ensures
        ({
            let ax = deposit_amount(reserve_x as int, lp_supply as int, lp_amount as int);
            let ay = deposit_amount(reserve_y as int, lp_supply as int, lp_amount as int);
            let checked = !config.locked && now <= expiration && lp_amount > 0;
            &&& config.locked ==> r == Err::<TokenAmounts, AmmError>(AmmError::PoolLocked)
            &&& !config.locked && now > expiration ==> r == Err::<TokenAmounts, AmmError>(
                AmmError::Expired,
            )
            &&& !config.locked && now <= expiration && lp_amount == 0 ==> r == Err::<
                TokenAmounts,
                AmmError,
            >(AmmError::InvalidAmount)
            &&& checked && lp_supply == 0 ==> r == Ok::<TokenAmounts, AmmError>(
                (TokenAmounts { x: max_x, y: max_y }),
            )
            &&& checked && lp_supply > 0 && (ax > max_x || ay > max_y) ==> r == Err::<
                TokenAmounts,
                AmmError,
            >(AmmError::SlippageExceeded)
            &&& checked && lp_supply > 0 && ax <= max_x && ay <= max_y ==> (r matches Ok(a)
                && a.x == ax && a.y == ay)
            &&& r matches Ok(a) ==> a.x <= max_x && a.y <= max_y
        }),
{
    if config.locked {
        return Err(AmmError::PoolLocked);
    }
    if now > expiration {
        return Err(AmmError::Expired);
    }
    if lp_amount == 0 {
        return Err(AmmError::InvalidAmount);
    }
    if lp_supply == 0 {
        return Ok(TokenAmounts { x: max_x, y: max_y });
    }
    let ax: u128 = curve::mul_div_ceil(lp_amount, reserve_x, lp_supply);
    let ay: u128 = curve::mul_div_ceil(lp_amount, reserve_y, lp_supply);
    if ax > (max_x as u128) || ay > (max_y as u128) {
        return Err(AmmError::SlippageExceeded);
    }
    Ok(TokenAmounts { x: ax as u64, y: ay as u64 })
}

/// Quotes and validates a withdrawal of liquidity: how much of each
/// reserve the caller receives for burning `lp_amount` shares, each side
/// rounded down — a burn of at most the whole supply can never take more
/// than a reserve holds. The caller must set at least one non-zero floor, and each
/// payout must reach its floor. A burn whose payout would not even fit the
/// ledger's balance range — possible only when more shares are burned than
/// exist — is rejected as a nonsensical amount. The caller applies the
/// returned amounts and the burn to the ledger atomically; on any error
/// nothing must be applied.
pub fn withdraw(
    config: &Config,
    reserve_x: u64,
    reserve_y: u64,
    lp_supply: u64,
    lp_amount: u64,
    min_x: u64,
    min_y: u64,
) -> (r: Result<TokenAmounts, AmmError>)
    ensures
        ({
            let wx = withdraw_amount(reserve_x as int, lp_supply as int, lp_amount as int);
            let wy = withdraw_amount(reserve_y as int, lp_supply as int, lp_amount as int);
            let checked = !config.locked && lp_amount > 0 && !(min_x == 0 && min_y == 0);
            let fits = wx <= u64::MAX && wy <= u64::MAX;
            &&& config.locked ==> r == Err::<TokenAmounts, AmmError>(AmmError::PoolLocked)
            &&& !config.locked && lp_amount == 0 ==> r == Err::<TokenAmounts, AmmError>(
                AmmError::InvalidAmount,
            )
            &&& !config.locked && lp_amount > 0 && min_x == 0 && min_y == 0 ==> r == Err::<
                TokenAmounts,
                AmmError,
            >(AmmError::InvalidAmount)
            &&& checked && lp_supply == 0 ==> r == Err::<TokenAmounts, AmmError>(
                AmmError::DivideByZero,
            )
            &&& checked && lp_supply > 0 && !fits ==> r == Err::<TokenAmounts, AmmError>(
                AmmError::InvalidAmount,
            )
            &&& checked && lp_supply > 0 && fits && (wx < min_x || wy < min_y) ==> r == Err::<
                TokenAmounts,
                AmmError,
            >(AmmError::SlippageExceeded)
            &&& checked && lp_supply > 0 && fits && wx >= min_x && wy >= min_y ==> (r matches Ok(a)
                && a.x == wx && a.y == wy)
            &&& r matches Ok(a) ==> a.x >= min_x && a.y >= min_y
            &&& lp_amount <= lp_supply ==> (r matches Ok(a) ==> a.x <= reserve_x && a.y
                <= reserve_y)
        }),
{
    if config.locked {
        return Err(AmmError::PoolLocked);
    }
    if lp_amount == 0 {
        return Err(AmmError::InvalidAmount);
    }
    if min_x == 0 && min_y == 0 {
        return Err(AmmError::InvalidAmount);
    }
    if lp_supply == 0 {
        return Err(AmmError::DivideByZero);
    }
    let wx: u128 = curve::mul_div_floor(lp_amount, reserve_x, lp_supply);
    let wy: u128 = curve::mul_div_floor(lp_amount, reserve_y, lp_supply);
    proof {
        laws::lemma_withdraw_never_overpays(reserve_x as int, lp_supply as int, lp_amount as int);
        laws::lemma_withdraw_never_overpays(reserve_y as int, lp_supply as int, lp_amount as int);
    }
    if wx > (u64::MAX as u128) || wy > (u64::MAX as u128) {
        return Err(AmmError::InvalidAmount);
    }
    let amount_x: u64 = wx as u64;
    let amount_y: u64 = wy as u64;
    if amount_x < min_x || amount_y < min_y {
        return Err(AmmError::SlippageExceeded);
    }
    Ok(TokenAmounts { x: amount_x, y: amount_y })
}

/// Quotes and validates a swap: `amount_in` of one side is traded for the
/// constant-product quote of the other, with the fee charged on the input
/// and the quote rounded down. The quote must reach the caller's floor.
/// On success the output is strictly below the output reserve, and paying
/// the full input in while paying the quote out cannot shrink the reserve
/// product. The caller applies the two transfers to the ledger atomically;
/// on any error nothing must be applied.
pub fn swap(
    config: &Config,
    reserve_x: u64,
    reserve_y: u64,
    is_x: bool,
    amount_in: u64,
    min_amount_out: u64,
) -> (r: Result<u64, AmmError>)
    requires
        config.wf(),
    ensures
        ({
            let ri = if is_x {
                reserve_x as int
            } else {
                reserve_y as int
            };
            let ro = if is_x {
                reserve_y as int
            } else {
                reserve_x as int
            };
            let out = swap_out(ri, ro, effective_in(amount_in as int, config.fee as int));
            let checked = !config.locked && amount_in > 0;
            &&& config.locked ==> r == Err::<u64, AmmError>(AmmError::PoolLocked)
            &&& !config.locked && amount_in == 0 ==> r == Err::<u64, AmmError>(
                AmmError::InvalidAmount,
            )
            &&& checked && (ri == 0 || ro == 0) ==> r == Err::<u64, AmmError>(
                AmmError::InsufficientReserves,
            )
            &&& checked && ri > 0 && ro > 0 && out == 0 ==> r == Err::<u64, AmmError>(
                AmmError::InsufficientReserves,
            )
            &&& checked && ri > 0 && ro > 0 && out > 0 && out < min_amount_out ==> r == Err::<
                u64,
                AmmError,
            >(AmmError::SlippageExceeded)
            &&& checked && ri > 0 && ro > 0 && out > 0 && out >= min_amount_out ==> (r matches Ok(v)
                && v == out)
            &&& r matches Ok(v) ==> {
                &&& v == out
                &&& v >= min_amount_out
                &&& v < ro
                &&& (ri + amount_in) * (ro - v) >= ri * ro
            }
        }),
{
    if config.locked {
        return Err(AmmError::PoolLocked);
    }
    if amount_in == 0 {
        return Err(AmmError::InvalidAmount);
    }
    let reserve_in: u64 = if is_x {
        reserve_x
    } else {
        reserve_y
    };
    let reserve_out: u64 = if is_x {
        reserve_y
    } else {
        reserve_x
    };
    let out: u64 = match curve::quote_swap(reserve_in, reserve_out, amount_in, config.fee) {
        Ok(v) => v,
        Err(e) => {
            return Err(e);
        },
    };
    if out < min_amount_out {
        return Err(AmmError::SlippageExceeded);
    }
    Ok(out)
}

} // verus!
