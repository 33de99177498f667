use vstd::prelude::*;

use crate::error::SwapError;
use crate::events::InitializedSwap;
use crate::guards::{token_account_error, verify_spl_token, TokenAccount};
use crate::pubkey::Pubkey;
use crate::state::{SwapAccount, MAX_EXPIRY_WINDOW, MAX_WHITELIST};

verus! {

/// What a creation reads: the seller, their funding token account, the mint,
/// the escrow account designated for the swap, and the current time.
#[derive(Clone, Copy, Debug, PartialEq, Eq)]
pub struct InitializeSwap {
    pub seller: Pubkey,
    pub seller_token_account: TokenAccount,
    pub token_mint: Pubkey,
    pub swap_token_account: Pubkey,
    pub swap_account_bump: u8,
    pub now: i64,
}

/// Whether `expiry` lies in `(now, now + 48h]`.
pub open spec fn valid_expiry(now: int, expiry: int) -> bool {
    now < expiry <= now + MAX_EXPIRY_WINDOW
}

/// The first failed check of a creation, in the order they are made.
pub open spec fn create_error(
    ctx: InitializeSwap,
    amount: u64,
    expiry_timestamp: i64,
    whitelisted_buyers: Seq<Pubkey>,
) -> Option<SwapError> {
    if token_account_error(ctx.token_mint@, ctx.seller_token_account) is Some {
        token_account_error(ctx.token_mint@, ctx.seller_token_account)
    } else if amount == 0 {
        Some(SwapError::InvalidAmount)
    } else if whitelisted_buyers.len() == 0 {
        Some(SwapError::EmptyWhitelist)
    } else if whitelisted_buyers.len() > MAX_WHITELIST {
        Some(SwapError::WhitelistTooLarge)
    } else if !valid_expiry(ctx.now as int, expiry_timestamp as int) {
        Some(SwapError::InvalidExpiryTime)
    } else if ctx.seller_token_account.amount < amount {
        Some(SwapError::InsufficientBalance)
    } else {
        None
    }
}

/// The record a successful creation stores.
pub open spec fn is_created(
    swap: SwapAccount,
    ctx: InitializeSwap,
    amount: u64,
    expiry_timestamp: i64,
    whitelisted_buyers: Seq<Pubkey>,
    recipient: Pubkey,
    price_total: u64,
) -> bool {
    &&& swap.seller == ctx.seller
    &&& swap.escrow_account == ctx.swap_token_account
    &&& swap.token_mint == ctx.token_mint
    &&& swap.total_amount == amount
    &&& swap.amount_remaining == amount
    &&& swap.expiry_timestamp == expiry_timestamp
    &&& swap.whitelisted_buyers@ == whitelisted_buyers
    &&& swap.recipient == recipient
    &&& swap.is_active
    &&& swap.swap_account_bump == ctx.swap_account_bump
    &&& swap.price_total == price_total
}

fn copy_keys(keys: &Vec<Pubkey>) -> (r: Vec<Pubkey>)
    ensures
        r@ == keys@,
{
    let mut r: Vec<Pubkey> = Vec::new();
    let mut i: usize = 0;
    while i < keys.len()
        invariant
            0 <= i <= keys@.len(),
            r@ == keys@.subrange(0, i as int),
        decreases keys@.len() - i,
    {
        r.push(keys[i]);
        i = i + 1;
    }
    assert(r@ =~= keys@);
    r
}

/// Opens a swap selling `amount` tokens of the seller's account for
/// `price_total` in settlement currency, to the whitelisted buyers only,
/// until `expiry_timestamp`.
///
/// On success the returned record is active with nothing sold yet, and
/// `amount` tokens are to move from the seller's account into escrow.
pub fn handle(
    ctx: &InitializeSwap,
    amount: u64,
    expiry_timestamp: i64,
    whitelisted_buyers: Vec<Pubkey>,
    recipient: Pubkey,
    price_total: u64,
) -> (r: Result<(SwapAccount, InitializedSwap), SwapError>)
    ensures
        match create_error(*ctx, amount, expiry_timestamp, whitelisted_buyers@) {
            Some(e) => r == Err::<(SwapAccount, InitializedSwap), SwapError>(e),
            None => {
                &&& r is Ok
                &&& r.unwrap().0.wf()
                &&& is_created(r.unwrap().0, *ctx, amount, expiry_timestamp, whitelisted_buyers@, recipient, price_total)
                &&& r.unwrap().1.seller == ctx.seller
                &&& r.unwrap().1.amount == amount
                &&& r.unwrap().1.expiry_timestamp == expiry_timestamp
                &&& r.unwrap().1.whitelisted_buyers@ == whitelisted_buyers@
                &&& r.unwrap().1.token_mint == ctx.token_mint
            },
        },
{
    verify_spl_token(&ctx.token_mint, &ctx.seller_token_account)?;
    if amount == 0 {
        return Err(SwapError::InvalidAmount);
    }
    if whitelisted_buyers.len() == 0 {
        return Err(SwapError::EmptyWhitelist);
    }
    if whitelisted_buyers.len() > MAX_WHITELIST {
        return Err(SwapError::WhitelistTooLarge);
    }
    let latest = ctx.now as i128 + MAX_EXPIRY_WINDOW as i128;
    if !(expiry_timestamp > ctx.now && (expiry_timestamp as i128) <= latest) {
        return Err(SwapError::InvalidExpiryTime);
    }
    if ctx.seller_token_account.amount < amount {
        return Err(SwapError::InsufficientBalance);
    }
    let snapshot = copy_keys(&whitelisted_buyers);
    let swap = SwapAccount {
        seller: ctx.seller,
        escrow_account: ctx.swap_token_account,
        token_mint: ctx.token_mint,
        total_amount: amount,
        amount_remaining: amount,
        expiry_timestamp,
        whitelisted_buyers,
        recipient,
        is_active: true,
        swap_account_bump: ctx.swap_account_bump,
        price_total,
    };
    let event = InitializedSwap {
        seller: ctx.seller,
        amount,
        expiry_timestamp,
        whitelisted_buyers: snapshot,
        token_mint: ctx.token_mint,
    };
    Ok((swap, event))
}

} // verus!
