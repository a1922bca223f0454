use amm_core::curve::TokenAmounts;
use amm_core::errors::AmmError;
use amm_core::ops::{deposit, initialize, swap, withdraw};
use amm_core::state::Config;

#[test]
fn initialize_builds_unlocked_pool() {
    let c: Config = initialize(7, 30, 11, 22, 254, 253).unwrap();
    assert_eq!(c.seed, 7);
    assert_eq!(c.mint_x, 11);
    assert_eq!(c.mint_y, 22);
    assert_eq!(c.fee, 30);
    assert!(!c.locked);
    assert_eq!(c.bump, 254);
    assert_eq!(c.mint_lp_bump, 253);
}

#[test]
fn initialize_rejects_fee_over_10000() {
    assert_eq!(initialize(7, 10001, 11, 22, 0, 0), Err(AmmError::InvalidAmount));
}

#[test]
fn initialize_rejects_non_canonical_pair() {
    assert_eq!(initialize(7, 30, 22, 11, 0, 0), Err(AmmError::InvalidAmount));
    assert_eq!(initialize(7, 30, 11, 11, 0, 0), Err(AmmError::InvalidAmount));
}

#[test]
fn locked_pool_rejects_every_operation() {
    let c: Config = Config { seed: 1, mint_x: 1, mint_y: 2, fee: 30, locked: true, bump: 0, mint_lp_bump: 0 };
    assert_eq!(deposit(&c, 1000, 4000, 100, 10, 1000, 1000, 10, 0), Err(AmmError::PoolLocked));
    assert_eq!(withdraw(&c, 1000, 4000, 100, 10, 1, 1), Err(AmmError::PoolLocked));
    assert_eq!(swap(&c, 1000, 4000, true, 100, 0), Err(AmmError::PoolLocked));
}

#[test]
fn unlocked_check_passes_on_fresh_pool() {
    let c: Config = initialize(1, 0, 1, 2, 0, 0).unwrap();
    assert_eq!(c.assert_unlocked(), Ok(()));
    let frozen: Config = Config { locked: true, ..c };
    assert_eq!(frozen.assert_unlocked(), Err(AmmError::PoolLocked));
}

#[test]
fn caller_bound_identity_is_checked() {
    let c: Config = initialize(9, 0, 1, 2, 0, 0).unwrap();
    assert_eq!(c.assert_caller_bound_identity(1, 2, 9), Ok(()));
    assert_eq!(c.assert_caller_bound_identity(2, 1, 9), Err(AmmError::AddressMismatch));
    assert_eq!(c.assert_caller_bound_identity(1, 2, 8), Err(AmmError::AddressMismatch));
}

#[test]
fn first_deposit_uses_caller_chosen_ratio() {
    let c: Config = Config { seed: 1, mint_x: 1, mint_y: 2, fee: 30, locked: false, bump: 0, mint_lp_bump: 0 };
    // Fresh pool: requesting 500 shares with bounds (1000, 1000) seeds the
    // reserves at exactly the caller's bounds.
    assert_eq!(deposit(&c, 0, 0, 0, 500, 1000, 1000, 10, 0), Ok(TokenAmounts { x: 1000, y: 1000 }));
}

#[test]
fn deposit_charges_proportionally_rounded_up() {
    let c: Config = Config { seed: 1, mint_x: 1, mint_y: 2, fee: 30, locked: false, bump: 0, mint_lp_bump: 0 };
    assert_eq!(
        deposit(&c, 101, 200, 100, 10, 11, 20, 10, 0),
        Ok(TokenAmounts { x: 11, y: 20 })
    );
}

#[test]
fn deposit_rejects_zero_shares() {
    let c: Config = Config { seed: 1, mint_x: 1, mint_y: 2, fee: 30, locked: false, bump: 0, mint_lp_bump: 0 };
    assert_eq!(deposit(&c, 1000, 4000, 100, 0, 1000, 1000, 10, 0), Err(AmmError::InvalidAmount));
}

#[test]
fn deposit_rejects_passed_deadline() {
    let c: Config = Config { seed: 1, mint_x: 1, mint_y: 2, fee: 30, locked: false, bump: 0, mint_lp_bump: 0 };
    assert_eq!(deposit(&c, 1000, 4000, 100, 10, 1000, 1000, 10, 11), Err(AmmError::Expired));
}

#[test]
fn deposit_rejects_amounts_over_bounds() {
    let c: Config = Config { seed: 1, mint_x: 1, mint_y: 2, fee: 30, locked: false, bump: 0, mint_lp_bump: 0 };
    // Cost is (11, 20); a bound of 10 on X is too tight.
    assert_eq!(deposit(&c, 101, 200, 100, 10, 10, 20, 10, 0), Err(AmmError::SlippageExceeded));
}

#[test]
fn withdraw_requires_a_floor() {
    let c: Config = Config { seed: 1, mint_x: 1, mint_y: 2, fee: 30, locked: false, bump: 0, mint_lp_bump: 0 };
    // Both floors zero is rejected before any quote: even on an empty pool
    // (zero supply) the error is InvalidAmount, not DivideByZero.
    assert_eq!(withdraw(&c, 0, 0, 0, 10, 0, 0), Err(AmmError::InvalidAmount));
}

#[test]
fn withdraw_rejects_zero_shares() {
    let c: Config = Config { seed: 1, mint_x: 1, mint_y: 2, fee: 30, locked: false, bump: 0, mint_lp_bump: 0 };
    assert_eq!(withdraw(&c, 1000, 4000, 100, 0, 1, 1), Err(AmmError::InvalidAmount));
}

#[test]
fn withdraw_rejects_zero_supply() {
    let c: Config = Config { seed: 1, mint_x: 1, mint_y: 2, fee: 30, locked: false, bump: 0, mint_lp_bump: 0 };
    assert_eq!(withdraw(&c, 1000, 4000, 0, 10, 1, 0), Err(AmmError::DivideByZero));
}

#[test]
fn withdraw_pays_proportionally_rounded_down() {
    let c: Config = Config { seed: 1, mint_x: 1, mint_y: 2, fee: 30, locked: false, bump: 0, mint_lp_bump: 0 };
    assert_eq!(withdraw(&c, 101, 200, 100, 10, 10, 20), Ok(TokenAmounts { x: 10, y: 20 }));
}

#[test]
fn withdraw_rejects_payout_under_floor() {
    let c: Config = Config { seed: 1, mint_x: 1, mint_y: 2, fee: 30, locked: false, bump: 0, mint_lp_bump: 0 };
    // Payout is (10, 20); a floor of 11 on X cannot be met.
    assert_eq!(withdraw(&c, 101, 200, 100, 10, 11, 0), Err(AmmError::SlippageExceeded));
}

#[test]
fn withdraw_rejects_burn_beyond_supply() {
    let c: Config = Config { seed: 1, mint_x: 1, mint_y: 2, fee: 30, locked: false, bump: 0, mint_lp_bump: 0 };
    // Burning u64::MAX shares of a supply of 1 would entitle the caller to
    // more tokens than any balance can hold.
    assert_eq!(withdraw(&c, 2, 2, 1, u64::MAX, 1, 1), Err(AmmError::InvalidAmount));
}

#[test]
fn deposit_then_withdraw_never_gains() {
    let c: Config = Config { seed: 1, mint_x: 1, mint_y: 2, fee: 30, locked: false, bump: 0, mint_lp_bump: 0 };
    let paid: TokenAmounts = deposit(&c, 1003, 4007, 100, 7, 1000, 1000, 10, 0).unwrap();
    assert_eq!(paid, TokenAmounts { x: 71, y: 281 });
    let got: TokenAmounts =
        withdraw(&c, 1003 + paid.x, 4007 + paid.y, 107, 7, 1, 1).unwrap();
    assert_eq!(got, TokenAmounts { x: 70, y: 280 });
    assert!(got.x <= paid.x && got.y <= paid.y);
}

#[test]
fn first_deposit_round_trip_returns_exactly() {
    let c: Config = Config { seed: 1, mint_x: 1, mint_y: 2, fee: 30, locked: false, bump: 0, mint_lp_bump: 0 };
    let paid: TokenAmounts = deposit(&c, 0, 0, 0, 500, 1000, 2000, 10, 0).unwrap();
    let got: TokenAmounts = withdraw(&c, paid.x, paid.y, 500, 500, 1, 1).unwrap();
    assert_eq!(got, paid);
}

#[test]
fn swap_x_for_y_scenario() {
    let c: Config = Config { seed: 1, mint_x: 1, mint_y: 2, fee: 30, locked: false, bump: 0, mint_lp_bump: 0 };
    assert_eq!(swap(&c, 1000, 4000, true, 100, 0), Ok(360));
}

#[test]
fn swap_y_for_x_uses_opposite_reserves() {
    let c: Config = Config { seed: 1, mint_x: 1, mint_y: 2, fee: 30, locked: false, bump: 0, mint_lp_bump: 0 };
    // effective = 99, out = floor(1000 * 99 / (4000 + 99)) = 24.
    assert_eq!(swap(&c, 1000, 4000, false, 100, 0), Ok(24));
}

#[test]
fn swap_rejects_zero_input() {
    let c: Config = Config { seed: 1, mint_x: 1, mint_y: 2, fee: 30, locked: false, bump: 0, mint_lp_bump: 0 };
    assert_eq!(swap(&c, 1000, 4000, true, 0, 0), Err(AmmError::InvalidAmount));
}

#[test]
fn swap_rejects_output_under_floor() {
    let c: Config = Config { seed: 1, mint_x: 1, mint_y: 2, fee: 30, locked: false, bump: 0, mint_lp_bump: 0 };
    assert_eq!(swap(&c, 1000, 4000, true, 100, 361), Err(AmmError::SlippageExceeded));
    assert_eq!(swap(&c, 1000, 4000, true, 100, 360), Ok(360));
}

#[test]
fn swap_rejects_empty_pool_side() {
    let c: Config = Config { seed: 1, mint_x: 1, mint_y: 2, fee: 30, locked: false, bump: 0, mint_lp_bump: 0 };
    assert_eq!(swap(&c, 0, 4000, true, 100, 0), Err(AmmError::InsufficientReserves));
    assert_eq!(swap(&c, 1000, 0, true, 100, 0), Err(AmmError::InsufficientReserves));
}
