use vstd::arithmetic::div_mod::*;
use vstd::arithmetic::mul::*;
use vstd::prelude::*;

use crate::curve::{ceil_div, deposit_amount, effective_in, swap_out, withdraw_amount};

verus! {

/// Ceiling division rounds up: the quotient times the divisor covers the
/// dividend, and overshoots it by less than one divisor.
proof fn lemma_ceil_div_bounds(a: int, d: int)
    requires
        0 <= a,
        0 < d,
    ensures
        0 <= ceil_div(a, d),
        a <= ceil_div(a, d) * d,
        ceil_div(a, d) * d < a + d,
{
    let q = ceil_div(a, d);
    lemma_div_pos_is_pos(a + d - 1, d);
    lemma_fundamental_div_mod(a + d - 1, d);
    lemma_mod_division_less_than_divisor(a + d - 1, d);
    lemma_mul_is_commutative(q, d);
}

/// The fee keeps the effective input between zero and the full input.
pub proof fn lemma_effective_in_bounds(amount_in: int, fee_bps: int)
    requires
        0 <= amount_in,
        0 <= fee_bps <= 10000,
    ensures
        0 <= effective_in(amount_in, fee_bps),
        effective_in(amount_in, fee_bps) <= amount_in,
{
    let m = 10000 - fee_bps;
    lemma_mul_nonnegative(amount_in, m);
    lemma_div_pos_is_pos(amount_in * m, 10000);
    lemma_mul_inequality(m, 10000, amount_in);
    lemma_mul_is_commutative(amount_in, m);
    lemma_mul_is_commutative(amount_in, 10000);
    lemma_div_is_ordered(amount_in * m, amount_in * 10000, 10000);
    lemma_div_multiples_vanish(amount_in, 10000);
}

/// A deposit pays in proportion to the shares it mints, within one unit of
/// rounding and rounded up: on each side, `lp / supply <= amount / reserve`
/// holds exactly, and the over-collection is less than one part in
/// `supply`. Stated multiplied out to stay in integers.
pub proof fn lemma_deposit_proportional(reserve: int, supply: int, lp: int)
    requires
        0 < supply,
        0 <= lp,
        0 <= reserve,
    ensures
        lp * reserve <= deposit_amount(reserve, supply, lp) * supply,
        deposit_amount(reserve, supply, lp) * supply < lp * reserve + supply,
{
    lemma_mul_nonnegative(lp, reserve);
    lemma_ceil_div_bounds(lp * reserve, supply);
}

/// A withdrawal never over-pays: on each side the payout, multiplied back
/// by the supply, stays within the exact share `lp * reserve`, and a burn
/// of at most the whole supply can never take more than the reserve holds.
pub proof fn lemma_withdraw_never_overpays(reserve: int, supply: int, lp: int)
    requires
        0 < supply,
        0 <= lp,
        0 <= reserve,
    ensures
        0 <= withdraw_amount(reserve, supply, lp),
        withdraw_amount(reserve, supply, lp) * supply <= lp * reserve,
        lp <= supply ==> withdraw_amount(reserve, supply, lp) <= reserve,
{
    let q = withdraw_amount(reserve, supply, lp);
    lemma_mul_nonnegative(lp, reserve);
    lemma_div_pos_is_pos(lp * reserve, supply);
    lemma_fundamental_div_mod(lp * reserve, supply);
    lemma_mod_division_less_than_divisor(lp * reserve, supply);
    lemma_mul_is_commutative(q, supply);
    if lp <= supply {
        lemma_mul_inequality(lp, supply, reserve);
        lemma_div_is_ordered(lp * reserve, supply * reserve, supply);
        lemma_div_multiples_vanish(reserve, supply);
    }
}

/// Round trip: depositing for `lp` shares and immediately burning the same
/// `lp` shares, with no activity in between, returns at most what was paid
/// in on each side — rounding can only lose to the pool, never gain.
pub proof fn lemma_deposit_withdraw_round_trip(reserve: int, supply: int, lp: int)
    requires
        0 < supply,
        0 < lp,
        0 <= reserve,
    ensures
        withdraw_amount(reserve + deposit_amount(reserve, supply, lp), supply + lp, lp)
            <= deposit_amount(reserve, supply, lp),
{
    let dx = deposit_amount(reserve, supply, lp);
    let d = supply + lp;
    lemma_mul_nonnegative(lp, reserve);
    lemma_ceil_div_bounds(lp * reserve, supply);
    lemma_mul_is_distributive_add(lp, reserve, dx);
    lemma_mul_is_commutative(lp, dx);
    lemma_mul_is_distributive_add_other_way(d, dx, 1);
    lemma_mul_is_distributive_add(dx, supply, lp);
    lemma_multiply_divide_lt(lp * (reserve + dx), d, dx + 1);
}

/// Round trip on a fresh pool: the first deposit pays in a caller-chosen
/// amount against `lp` minted shares, and burning all `lp` shares right
/// away returns exactly that amount.
pub proof fn lemma_first_deposit_round_trip(amount: int, lp: int)
    requires
        0 < lp,
        0 <= amount,
    ensures
        withdraw_amount(amount, lp, lp) == amount,
{
    lemma_div_multiples_vanish(amount, lp);
}

/// A swap can never drain the output reserve, and the reserve product
/// never decreases: with the full input paid in and the quoted output paid
/// out, `(in + amountIn) * (out - quote)` is at least `in * out`.
pub proof fn lemma_swap_preserves_product(
    reserve_in: int,
    reserve_out: int,
    amount_in: int,
    fee_bps: int,
)
    requires
        0 < reserve_in,
        0 < reserve_out,
        0 <= amount_in,
        0 <= fee_bps <= 10000,
    ensures
        0 <= swap_out(reserve_in, reserve_out, effective_in(amount_in, fee_bps)),
        swap_out(reserve_in, reserve_out, effective_in(amount_in, fee_bps)) < reserve_out,
        (reserve_in + amount_in) * (reserve_out - swap_out(
            reserve_in,
            reserve_out,
            effective_in(amount_in, fee_bps),
        )) >= reserve_in * reserve_out,
{
    lemma_effective_in_bounds(amount_in, fee_bps);
    let e = effective_in(amount_in, fee_bps);
    let d = reserve_in + e;
    let q = swap_out(reserve_in, reserve_out, e);
    lemma_mul_nonnegative(reserve_out, e);
    lemma_div_pos_is_pos(reserve_out * e, d);
    lemma_mul_strict_inequality(e, d, reserve_out);
    lemma_mul_is_commutative(e, reserve_out);
    lemma_mul_is_commutative(d, reserve_out);
    lemma_multiply_divide_lt(reserve_out * e, d, reserve_out);
    lemma_fundamental_div_mod(reserve_out * e, d);
    lemma_mod_division_less_than_divisor(reserve_out * e, d);
    lemma_mul_is_distributive_sub(d, reserve_out, q);
    lemma_mul_is_distributive_sub(reserve_out, d, e);
    lemma_mul_is_commutative(reserve_out, reserve_in);
    lemma_mul_is_commutative(d, reserve_out - q);
    lemma_mul_inequality(d, reserve_in + amount_in, reserve_out - q);
    lemma_mul_is_commutative(reserve_in + amount_in, reserve_out - q);
}

/// With a zero fee the swap quote is the constant-product identity taken
/// at full precision: `out = reserveOut - reserveIn * reserveOut /
/// (reserveIn + amountIn)`, with the remaining-reserve quotient rounded up
/// (equivalently, the output rounded down).
pub proof fn lemma_swap_zero_fee_exact(reserve_in: int, reserve_out: int, amount_in: int)
    requires
        0 < reserve_in,
        0 <= reserve_out,
        0 <= amount_in,
    ensures
        effective_in(amount_in, 0) == amount_in,
        swap_out(reserve_in, reserve_out, amount_in) == reserve_out - ceil_div(
            reserve_in * reserve_out,
            reserve_in + amount_in,
        ),
{
    lemma_div_multiples_vanish(amount_in, 10000);
    lemma_mul_is_commutative(amount_in, 10000);
    let d = reserve_in + amount_in;
    lemma_mul_nonnegative(reserve_in, reserve_out);
    let q = ceil_div(reserve_in * reserve_out, d);
    lemma_ceil_div_bounds(reserve_in * reserve_out, d);
    lemma_mul_is_distributive_sub_other_way(d, reserve_out, q);
    lemma_mul_is_distributive_add(reserve_out, reserve_in, amount_in);
    lemma_mul_is_commutative(reserve_out, d);
    lemma_mul_is_commutative(reserve_in, reserve_out);
    let rem = reserve_out * amount_in - (reserve_out - q) * d;
    lemma_fundamental_div_mod_converse_div(reserve_out * amount_in, d, reserve_out - q, rem);
}

} // verus!
