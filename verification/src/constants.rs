//! Fixed scales and sizes shared by the contracts.

use vstd::prelude::*;

verus! {

/// Every response is padded to a multiple of this many bytes.
pub const RESPONSE_BLOCK_SIZE: usize = 256;

/// Denomination of the staked token as users see it: one unit of stake in the
/// books is this many units on the wire.
pub const INC_TOKEN_SCALE: u128 = 1_000_000_000_000;

/// Fixed-point scale of the per-share reward accumulator.
pub const REWARD_SCALE: u128 = 1_000_000_000_000;

/// Amount withheld from every reward deposit to absorb rounding residue.
pub const REWARD_DUST: u128 = 1_000_000;

} // verus!
