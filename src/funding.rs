//! How many blocks the funding wallet mines.

use vstd::prelude::*;

verus! {

/// Confirmations a block reward needs before it can be spent, on regtest.
pub const COINBASE_MATURITY: u64 = 100;

/// Blocks mined to confirm a pending transfer.
pub const CONFIRMING_BLOCKS: u64 = 1;

/// Blocks to mine to one address so that the reward of the first of them is
/// spendable: the first block, then `maturity` more on top of it.
pub fn blocks_until_spendable(maturity: u64) -> (r: u64)
    requires
        maturity < u64::MAX,
    ensures
        r == maturity + 1,
{
    maturity + 1
}

} // verus!
