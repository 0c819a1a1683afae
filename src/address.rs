//! Address validation against the regtest network.

use vstd::prelude::*;
use bitcoin::{Address, Network};
use bitcoin::address::NetworkUnchecked;
use std::str::FromStr;

verus! {

/// Whether the text is an address that parses and belongs to the regtest network.
pub uninterp spec fn is_regtest_address(s: Seq<char>) -> bool;

/// Relies on bitcoin's `Address::<NetworkUnchecked>::from_str` to parse the text and on
/// `Address::is_valid_for_network(Network::Regtest)` to check its network; the answer
/// depends on the text alone.
#[verifier::external_body]
pub(crate) fn regtest_address_valid(s: &str) -> (r: bool)
    ensures
        r == is_regtest_address(s@),
{
    match Address::<NetworkUnchecked>::from_str(s) {
        Ok(a) => a.is_valid_for_network(Network::Regtest),
        Err(_) => false,
    }
}

} // verus!
