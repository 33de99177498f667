use vstd::prelude::*;

use crate::pubkey::Pubkey;

verus! {

/// Audit record of a created swap.
#[derive(Clone, Debug, PartialEq, Eq)]
pub struct InitializedSwap {
    pub seller: Pubkey,
    pub amount: u64,
    pub expiry_timestamp: i64,
    pub whitelisted_buyers: Vec<Pubkey>,
    pub token_mint: Pubkey,
}

/// Audit record of a fill.
#[derive(Clone, Copy, Debug, PartialEq, Eq)]
pub struct ExecutedSwap {
    pub seller: Pubkey,
    pub buyer: Pubkey,
    pub amount: u64,
    pub token_mint: Pubkey,
}

/// Audit record of a cancellation.
#[derive(Clone, Copy, Debug, PartialEq, Eq)]
pub struct CancelledSwap {
    pub seller: Pubkey,
    pub amount: u64,
    pub refund: u64,
    pub sold: u64,
    pub token_mint: Pubkey,
}

} // verus!
