use vstd::prelude::*;

use crate::error::SwapError;
use crate::events::{CancelledSwap, ExecutedSwap, InitializedSwap};
use crate::instructions::cancel_swap::{self, cancel_error, CancelReceipt, CancelSwap};
use crate::instructions::execute_swap::{self, fill_error, ExecuteSwap, FillReceipt};
use crate::instructions::initialize_swap::{self, create_error, is_created, InitializeSwap};
use crate::pubkey::Pubkey;
use crate::state::SwapAccount;

verus! {

/// Entry point of swap creation; see `initialize_swap::handle`.
pub fn initialize_swap(
    ctx: &InitializeSwap,
    amount: u64,
    expiry_timestamp: i64,
    whitelisted_buyers: Vec<Pubkey>,
    recipient: Pubkey,
    price_total: u64,
) -> (r: Result<(SwapAccount, InitializedSwap), SwapError>)
    ensures
        match create_error(*ctx, amount, expiry_timestamp, whitelisted_buyers@) {
            Some(e) => r == Err::<(SwapAccount, InitializedSwap), SwapError>(e),
            None => {
                &&& r is Ok
                &&& r.unwrap().0.wf()
                &&& is_created(r.unwrap().0, *ctx, amount, expiry_timestamp, whitelisted_buyers@, recipient, price_total)
                &&& r.unwrap().1.seller == ctx.seller
                &&& r.unwrap().1.amount == amount
                &&& r.unwrap().1.expiry_timestamp == expiry_timestamp
                &&& r.unwrap().1.whitelisted_buyers@ == whitelisted_buyers@
                &&& r.unwrap().1.token_mint == ctx.token_mint
            },
        },
{
    initialize_swap::handle(ctx, amount, expiry_timestamp, whitelisted_buyers, recipient, price_total)
}

/// Entry point of a fill; see `execute_swap::handle`.
pub fn execute_swap(ctx: &mut ExecuteSwap, amount_to_buy: u64) -> (r: Result<(FillReceipt, ExecutedSwap), SwapError>)
    requires
        old(ctx).swap.wf(),
    ensures
        final(ctx).swap.wf(),
        match fill_error(*old(ctx), amount_to_buy) {
            Some(e) => r == Err::<(FillReceipt, ExecutedSwap), SwapError>(e) && *final(ctx) == *old(ctx),
            None => {
                &&& r is Ok
                &&& final(ctx).swap == old(ctx).swap.after_fill(amount_to_buy)
                &&& final(ctx).buyer == old(ctx).buyer
                &&& final(ctx).buyer_lamports == old(ctx).buyer_lamports
                &&& final(ctx).buyer_recipient_account == old(ctx).buyer_recipient_account
                &&& final(ctx).now == old(ctx).now
                &&& r.unwrap().0.quantity_filled == amount_to_buy
                &&& r.unwrap().0.payment_charged == old(ctx).swap.payment_spec(amount_to_buy as nat)
                &&& r.unwrap().1.seller == old(ctx).swap.seller
                &&& r.unwrap().1.buyer == old(ctx).buyer
                &&& r.unwrap().1.amount == amount_to_buy
                &&& r.unwrap().1.token_mint == old(ctx).swap.token_mint
            },
        },
{
    execute_swap::handle(ctx, amount_to_buy)
}

/// Entry point of a cancellation; see `cancel_swap::handle`.
pub fn cancel_swap(ctx: &mut CancelSwap) -> (r: Result<(CancelReceipt, CancelledSwap), SwapError>)
    requires
        old(ctx).swap.wf(),
    ensures
        final(ctx).swap.wf(),
        final(ctx).seller == old(ctx).seller,
        match cancel_error(*old(ctx)) {
            Some(e) => r == Err::<(CancelReceipt, CancelledSwap), SwapError>(e) && *final(ctx) == *old(ctx),
            None => {
                &&& r is Ok
                &&& final(ctx).swap == old(ctx).swap.after_cancel()
                &&& r.unwrap().0.amount_refunded == old(ctx).swap.amount_remaining
                &&& r.unwrap().0.amount_sold == old(ctx).swap.total_amount - old(ctx).swap.amount_remaining
                &&& r.unwrap().1.seller == old(ctx).seller
                &&& r.unwrap().1.amount == old(ctx).swap.total_amount
                &&& r.unwrap().1.refund == old(ctx).swap.amount_remaining
                &&& r.unwrap().1.sold == old(ctx).swap.total_amount - old(ctx).swap.amount_remaining
                &&& r.unwrap().1.token_mint == old(ctx).swap.token_mint
            },
        },
{
    cancel_swap::handle(ctx)
}

} // verus!
