use vstd::prelude::*;

pub mod error;
pub mod events;
pub mod guards;
pub mod instructions;
pub mod laws;
pub mod otc_swaps;
pub mod pubkey;
pub mod state;

verus! {

/// Accounts of the program's empty setup instruction.
#[derive(Clone, Copy, Debug, PartialEq, Eq)]
pub struct Initialize {}

} // verus!
