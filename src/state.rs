use vstd::prelude::*;
use vstd::arithmetic::div_mod::{lemma_div_is_ordered, lemma_div_multiples_vanish};
use vstd::arithmetic::mul::lemma_mul_inequality;

use crate::pubkey::Pubkey;

verus! {

/// Largest number of buyers a swap may whitelist.
pub const MAX_WHITELIST: usize = 10;

/// Longest time, in seconds, between creation and expiry (48 hours).
pub const MAX_EXPIRY_WINDOW: i64 = 172800;

/// The persisted state of one swap.
#[derive(Clone, Debug, PartialEq, Eq)]
pub struct SwapAccount {
    pub seller: Pubkey,
    pub escrow_account: Pubkey,
    pub token_mint: Pubkey,
    pub total_amount: u64,
    pub amount_remaining: u64,
    pub expiry_timestamp: i64,
    pub whitelisted_buyers: Vec<Pubkey>,
    pub recipient: Pubkey,
    pub is_active: bool,
    pub swap_account_bump: u8,
    pub price_total: u64,
}

/// `floor(quantity * price_total / total_amount)`.
pub open spec fn payment_for(total_amount: nat, price_total: nat, quantity: nat) -> nat
    recommends
        total_amount > 0,
{
    (quantity * price_total) / total_amount
}

impl SwapAccount {
    /// The invariant of a stored swap.
    pub open spec fn wf(&self) -> bool {
        &&& 0 < self.total_amount
        &&& self.amount_remaining <= self.total_amount
        &&& self.amount_remaining == 0 ==> !self.is_active
        &&& 0 < self.whitelisted_buyers@.len() <= MAX_WHITELIST
    }

    /// Whether `buyer` is one of the whitelisted addresses.
    pub open spec fn whitelists(&self, buyer: Seq<u8>) -> bool {
        exists|i: int| 0 <= i < self.whitelisted_buyers@.len() && #[trigger] self.whitelisted_buyers@[i]@ == buyer
    }

    /// The whitelist as a set of addresses.
    pub open spec fn whitelist_set(&self) -> Set<Seq<u8>> {
        Set::new(|b: Seq<u8>| self.whitelists(b))
    }

    pub open spec fn is_expired_at(&self, now: int) -> bool {
        now > self.expiry_timestamp
    }

    /// Settlement-currency amount owed for `quantity` tokens of this swap.
    pub open spec fn payment_spec(&self, quantity: nat) -> nat {
        payment_for(self.total_amount as nat, self.price_total as nat, quantity)
    }

    /// Settlement-currency amount owed for `quantity` tokens, rounded down.
    pub fn required_payment(&self, quantity: u64) -> (r: u64)
        requires
            0 < self.total_amount,
            quantity <= self.total_amount,
        ensures
            r == self.payment_spec(quantity as nat),
            r <= self.price_total,
    {
        let q = quantity as u128;
        let p = self.price_total as u128;
        let t = self.total_amount as u128;
        proof {
            lemma_mul_inequality(q as int, t as int, p as int);
            assert(q * p <= t * p) by (nonlinear_arith)
                requires q <= t;
            assert(t * p <= 0xffff_ffff_ffff_ffffu128 * 0xffff_ffff_ffff_ffffu128) by (nonlinear_arith)
                requires t <= 0xffff_ffff_ffff_ffffu128, p <= 0xffff_ffff_ffff_ffffu128;
            lemma_div_is_ordered((q * p) as int, (t * p) as int, t as int);
            lemma_div_multiples_vanish(p as int, t as int);
            assert((t * p) as int == t as int * p as int);
            assert(p as int * t as int == t as int * p as int) by (nonlinear_arith);
        }
        let r = q * p / t;
        r as u64
    }

    /// Whether the record satisfies its invariant.
    pub fn is_well_formed(&self) -> (r: bool)
        ensures
            r == self.wf(),
    {
        0 < self.total_amount
            && self.amount_remaining <= self.total_amount
            && (self.amount_remaining != 0 || !self.is_active)
            && 0 < self.whitelisted_buyers.len()
            && self.whitelisted_buyers.len() <= MAX_WHITELIST
    }

    /// Whether `buyer` appears in the whitelist.
    pub fn is_whitelisted(&self, buyer: &Pubkey) -> (r: bool)
        ensures
            r == self.whitelists(buyer@),
    {
        let mut i: usize = 0;
        while i < self.whitelisted_buyers.len()
            invariant
                0 <= i <= self.whitelisted_buyers@.len(),
                forall|j: int| 0 <= j < i ==> self.whitelisted_buyers@[j]@ != buyer@,
            decreases self.whitelisted_buyers@.len() - i,
        {
            if self.whitelisted_buyers[i].key_eq(buyer) {
                return true;
            }
            i = i + 1;
        }
        false
    }
}

} // verus!

verus! {

impl SwapAccount {
    /// The record after `quantity` tokens were sold out of it.
    pub open spec fn after_fill(self, quantity: u64) -> SwapAccount {
        SwapAccount {
            amount_remaining: (self.amount_remaining - quantity) as u64,
            is_active: self.amount_remaining - quantity > 0,
            ..self
        }
    }

    /// The record after its seller cancelled it.
    pub open spec fn after_cancel(self) -> SwapAccount {
        SwapAccount { is_active: false, ..self }
    }
}

} // verus!
