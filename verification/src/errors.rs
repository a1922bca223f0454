use vstd::prelude::*;

verus! {

/// Every way an operation of the pool can be refused. Each failure is
/// surfaced with its specific kind, so a caller can tell a bound that was
/// too tight (`SlippageExceeded`) from a pool that cannot be used at all
/// (`PoolLocked`) from a degenerate computation (`DivideByZero`).
#[derive(Clone, Copy, Debug, PartialEq, Eq, Structural)]
pub enum AmmError {
    /// A caller-supplied quantity is zero or otherwise nonsensical.
    InvalidAmount,
    /// The pool is administratively frozen.
    PoolLocked,
    /// The deposit deadline has passed.
    Expired,
    /// A quoted amount violates the caller's slippage bound.
    SlippageExceeded,
    /// A deposit requested zero liquidity shares.
    InsufficientLiquidityMinted,
    /// A swap met an empty reserve or a trade too small to produce output.
    InsufficientReserves,
    /// A quote would divide by a zero liquidity supply.
    DivideByZero,
    /// A pool reference does not match the canonical custody derivation.
    AddressMismatch,
    /// The external ledger refused a transfer, mint or burn.
    LedgerError,
}

} // verus!
