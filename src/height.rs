use vstd::prelude::*;

verus! {

/// Number of sats in one whole coin.
pub const COIN_VALUE: u64 = 100_000_000;

/// Sats issued by each block of the first subsidy epoch.
pub const FIRST_EPOCH_SUBSIDY: u64 = 5_000_000_000;

/// The first sat issued after the first subsidy halving.
pub const FIRST_HALVING_SAT: u64 = 1_050_000_000_000_000;

/// Total number of sats that will ever be issued; valid sat indices lie below it.
pub const SAT_SUPPLY: u64 = 2_099_999_997_690_000;

/// Height of the block that issued sat `n`.
pub uninterp spec fn sat_height(n: u64) -> u32;

/// Relies on `ordinals::Sat::height`: the height of the block that issued the
/// sat, which in the first subsidy epoch is the sat index divided by the block
/// subsidy of that epoch. It divides by zero at and past the supply.
#[verifier::external_body]
pub(crate) fn height_of_sat(n: u64) -> (h: u32)
    requires
        n < SAT_SUPPLY,
    ensures
        h == sat_height(n),
        n < FIRST_HALVING_SAT ==> h == n / FIRST_EPOCH_SUBSIDY,
{
    ordinals::Sat(n).height().n()
}

} // verus!
