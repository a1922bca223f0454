use vstd::prelude::*;

use crate::errors::AmmError;

verus! {

/// The persisted record of one pool instance: the identities of its asset
/// pair, a disambiguating seed, the swap fee in basis points, an
/// administrative lock, and the two derivation identifiers that bind the
/// pool to its custody accounts.
#[derive(Clone, Copy, Debug, PartialEq, Eq, Structural)]
pub struct Config {
    /// Disambiguator: several pools may exist for the same asset pair.
    pub seed: u64,
    /// Identity of asset X.
    pub mint_x: u64,
    /// Identity of asset Y.
    pub mint_y: u64,
    /// Swap fee in basis points, charged on the swap input; at most 10000.
    pub fee: u16,
    /// When set, deposit, withdraw and swap are all rejected.
    pub locked: bool,
    /// Derivation identifier of the pool's own custody authority.
    pub bump: u8,
    /// Derivation identifier of the liquidity-share mint.
    pub mint_lp_bump: u8,
}

impl Config {
    /// Well-formedness: the fee is a valid basis-point rate and the asset
    /// pair is held in canonical (ascending) order, so the two identities
    /// are distinct and no second pool can exist for the reversed pair
    /// under the same seed.
    pub open spec fn wf(self) -> bool {
        &&& self.fee <= 10000
        &&& self.mint_x < self.mint_y
    }

    /// Fails with `PoolLocked` exactly when the pool is frozen.
    pub fn assert_unlocked(&self) -> (r: Result<(), AmmError>)
        ensures
            !self.locked ==> r == Ok::<(), AmmError>(()),
            self.locked ==> r == Err::<(), AmmError>(AmmError::PoolLocked),
    {
        if self.locked {
            Err(AmmError::PoolLocked)
        } else {
            Ok(())
        }
    }

    /// Checks a caller-supplied pool identity against this pool's canonical
    /// derivation inputs (the ordered asset pair plus the seed); fails with
    /// `AddressMismatch` exactly when they differ.
    pub fn assert_caller_bound_identity(&self, mint_x: u64, mint_y: u64, seed: u64) -> (r: Result<
        (),
        AmmError,
    >)
        ensures
            (mint_x == self.mint_x && mint_y == self.mint_y && seed == self.seed) ==> r == Ok::<
                (),
                AmmError,
            >(()),
            !(mint_x == self.mint_x && mint_y == self.mint_y && seed == self.seed) ==> r == Err::<
                (),
                AmmError,
            >(AmmError::AddressMismatch),
    {
        if mint_x == self.mint_x && mint_y == self.mint_y && seed == self.seed {
            Ok(())
        } else {
            Err(AmmError::AddressMismatch)
        }
    }
}

} // verus!
