use vstd::prelude::*;

use crate::error::SwapError;
use crate::events::ExecutedSwap;
use crate::guards::{
    require_active, require_not_expired, require_whitelisted, token_account_error,
    verify_spl_token, TokenAccount,
};
use crate::pubkey::Pubkey;
use crate::state::SwapAccount;

verus! {

/// What a fill reads: the buyer, their settlement balance, the swap, the
/// account that receives the tokens, and the current time.
#[derive(Clone, Debug, PartialEq, Eq)]
pub struct ExecuteSwap {
    pub buyer: Pubkey,
    pub buyer_lamports: u64,
    pub swap: SwapAccount,
    pub buyer_recipient_account: TokenAccount,
    pub now: i64,
}

/// What a successful fill moved: tokens out of escrow to the buyer, and
/// settlement currency from the buyer to the seller.
#[derive(Clone, Copy, Debug, PartialEq, Eq)]
pub struct FillReceipt {
    pub quantity_filled: u64,
    pub payment_charged: u64,
}

/// The first failed check of a fill, in the order they are made.
pub open spec fn fill_error(ctx: ExecuteSwap, amount_to_buy: u64) -> Option<SwapError> {
    let swap = ctx.swap;
    if !swap.is_active {
        Some(SwapError::SwapNotActive)
    } else if swap.is_expired_at(ctx.now as int) {
        Some(SwapError::SwapExpired)
    } else if !swap.whitelists(ctx.buyer@) {
        Some(SwapError::BuyerNotWhitelisted)
    } else if token_account_error(swap.token_mint@, ctx.buyer_recipient_account) is Some {
        token_account_error(swap.token_mint@, ctx.buyer_recipient_account)
    } else if amount_to_buy == 0 || amount_to_buy > swap.amount_remaining {
        Some(SwapError::InvalidAmountToBuy)
    } else if ctx.buyer_lamports < swap.payment_spec(amount_to_buy as nat) {
        Some(SwapError::InsufficientBalance)
    } else {
        None
    }
}

/// Sells `amount_to_buy` tokens of the swap to the buyer.
///
/// On success the remaining amount drops by `amount_to_buy`, the swap closes
/// when nothing is left, and the receipt gives the payment owed to the seller.
/// On failure nothing changes.
pub fn handle(ctx: &mut ExecuteSwap, amount_to_buy: u64) -> (r: Result<(FillReceipt, ExecutedSwap), SwapError>)
    requires
        old(ctx).swap.wf(),
    ensures
        final(ctx).swap.wf(),
        match fill_error(*old(ctx), amount_to_buy) {
            Some(e) => r == Err::<(FillReceipt, ExecutedSwap), SwapError>(e) && *final(ctx) == *old(ctx),
            None => {
                &&& r is Ok
                &&& final(ctx).swap == old(ctx).swap.after_fill(amount_to_buy)
                &&& final(ctx).buyer == old(ctx).buyer
                &&& final(ctx).buyer_lamports == old(ctx).buyer_lamports
                &&& final(ctx).buyer_recipient_account == old(ctx).buyer_recipient_account
                &&& final(ctx).now == old(ctx).now
                &&& r.unwrap().0.quantity_filled == amount_to_buy
                &&& r.unwrap().0.payment_charged == old(ctx).swap.payment_spec(amount_to_buy as nat)
                &&& r.unwrap().1.seller == old(ctx).swap.seller
                &&& r.unwrap().1.buyer == old(ctx).buyer
                &&& r.unwrap().1.amount == amount_to_buy
                &&& r.unwrap().1.token_mint == old(ctx).swap.token_mint
            },
        },
{
    require_active(&ctx.swap)?;
    require_not_expired(&ctx.swap, ctx.now)?;
    require_whitelisted(&ctx.swap, &ctx.buyer)?;
    verify_spl_token(&ctx.swap.token_mint, &ctx.buyer_recipient_account)?;
    if amount_to_buy == 0 || amount_to_buy > ctx.swap.amount_remaining {
        return Err(SwapError::InvalidAmountToBuy);
    }
    let payment = ctx.swap.required_payment(amount_to_buy);
    if ctx.buyer_lamports < payment {
        return Err(SwapError::InsufficientBalance);
    }
    ctx.swap.amount_remaining = ctx.swap.amount_remaining - amount_to_buy;
    if ctx.swap.amount_remaining == 0 {
        ctx.swap.is_active = false;
    }
    let event = ExecutedSwap {
        seller: ctx.swap.seller,
        buyer: ctx.buyer,
        amount: amount_to_buy,
        token_mint: ctx.swap.token_mint,
    };
    Ok((FillReceipt { quantity_filled: amount_to_buy, payment_charged: payment }, event))
}

} // verus!
