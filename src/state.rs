//! The accounts a deal reads and writes.
use crate::address::Address;
use vstd::prelude::*;

verus! {

/// A balance of one asset (`mint`) controlled by `owner`.
#[derive(Clone, Copy, Debug)]
pub struct TokenAccount {
    pub owner: Address,
    pub mint: Address,
    pub amount: u64,
}

/// The terms of one pending deal.
#[derive(Clone, Copy, Debug)]
pub struct EscrowRecord {
    /// The maker, who deposited and may cancel.
    pub owner: Address,
    /// The maker's nonce that tells its deals apart.
    pub seed: u64,
    /// The asset held in custody.
    pub asset_offered: Address,
    /// The asset the maker wants.
    pub asset_wanted: Address,
    /// How much of `asset_wanted` the taker pays.
    pub amount_wanted: u64,
    /// The bump that, with the owner and seed, derives the record's address.
    pub derivation_tag: u8,
}

} // verus!
