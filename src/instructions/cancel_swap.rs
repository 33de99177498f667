use vstd::prelude::*;

use crate::error::SwapError;
use crate::events::CancelledSwap;
use crate::guards::{require_active, require_owner};
use crate::pubkey::Pubkey;
use crate::state::SwapAccount;

verus! {

/// What a cancellation reads: who asks for it, and the swap.
#[derive(Clone, Debug, PartialEq, Eq)]
pub struct CancelSwap {
    pub seller: Pubkey,
    pub swap: SwapAccount,
}

/// What a cancellation settled: the unsold tokens go back to the seller.
#[derive(Clone, Copy, Debug, PartialEq, Eq)]
pub struct CancelReceipt {
    pub amount_refunded: u64,
    pub amount_sold: u64,
}

/// The first failed check of a cancellation, in the order they are made.
pub open spec fn cancel_error(ctx: CancelSwap) -> Option<SwapError> {
    if !ctx.swap.is_active {
        Some(SwapError::SwapNotActive)
    } else if ctx.swap.seller@ != ctx.seller@ {
        Some(SwapError::UnauthorizedCancellation)
    } else {
        None
    }
}

/// Closes the swap at its seller's request and refunds what was not sold.
///
/// The remaining amount is kept as a record of what stayed unsold; expiry
/// does not gate cancellation. On failure nothing changes.
pub fn handle(ctx: &mut CancelSwap) -> (r: Result<(CancelReceipt, CancelledSwap), SwapError>)
    requires
        old(ctx).swap.wf(),
    ensures
        final(ctx).swap.wf(),
        final(ctx).seller == old(ctx).seller,
        match cancel_error(*old(ctx)) {
            Some(e) => r == Err::<(CancelReceipt, CancelledSwap), SwapError>(e) && *final(ctx) == *old(ctx),
            None => {
                &&& r is Ok
                &&& final(ctx).swap == old(ctx).swap.after_cancel()
                &&& r.unwrap().0.amount_refunded == old(ctx).swap.amount_remaining
                &&& r.unwrap().0.amount_sold == old(ctx).swap.total_amount - old(ctx).swap.amount_remaining
                &&& r.unwrap().1.seller == old(ctx).seller
                &&& r.unwrap().1.amount == old(ctx).swap.total_amount
                &&& r.unwrap().1.refund == old(ctx).swap.amount_remaining
                &&& r.unwrap().1.sold == old(ctx).swap.total_amount - old(ctx).swap.amount_remaining
                &&& r.unwrap().1.token_mint == old(ctx).swap.token_mint
            },
        },
{
    require_active(&ctx.swap)?;
    require_owner(&ctx.swap, &ctx.seller)?;
    let refund = ctx.swap.amount_remaining;
    let sold = ctx.swap.total_amount - ctx.swap.amount_remaining;
    ctx.swap.is_active = false;
    let event = CancelledSwap {
        seller: ctx.seller,
        amount: ctx.swap.total_amount,
        refund,
        sold,
        token_mint: ctx.swap.token_mint,
    };
    Ok((CancelReceipt { amount_refunded: refund, amount_sold: sold }, event))
}

} // verus!
