use vstd::prelude::*;
use crate::address::Address;

verus! {

/// The record of one fill, as an indexer keeps it.
#[derive(Clone, Copy, Debug, PartialEq, Eq)]
pub struct Trade {
    pub offer_id: Address,
    pub taker: Address,
    pub in_amount: u64,
    pub out_amount: u64,
    pub timestamp: u64,
    pub fee_amount: u64,
}

} // verus!
