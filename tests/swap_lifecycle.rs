use otc_swaps::error::SwapError;
use otc_swaps::guards::TokenAccount;
use otc_swaps::instructions::cancel_swap::CancelSwap;
use otc_swaps::instructions::execute_swap::ExecuteSwap;
use otc_swaps::instructions::initialize_swap::InitializeSwap;
use otc_swaps::otc_swaps::{cancel_swap, execute_swap, initialize_swap};
use otc_swaps::pubkey::Pubkey;
use otc_swaps::state::SwapAccount;

const NOW: i64 = 1_700_000_000;

fn key(b: u8) -> Pubkey {
    Pubkey::new([b; 32])
}

fn seller() -> Pubkey {
    key(1)
}

fn mint() -> Pubkey {
    key(2)
}

fn b1() -> Pubkey {
    key(11)
}

fn b2() -> Pubkey {
    key(12)
}

fn b3() -> Pubkey {
    key(13)
}

fn token_account(owner: Pubkey, k: u8, amount: u64) -> TokenAccount {
    TokenAccount { key: key(k), mint: mint(), owner, amount, is_frozen: false }
}

fn init_ctx(balance: u64) -> InitializeSwap {
    InitializeSwap {
        seller: seller(),
        seller_token_account: token_account(seller(), 3, balance),
        token_mint: mint(),
        swap_token_account: key(4),
        swap_account_bump: 254,
        now: NOW,
    }
}

fn create(total: u64, price: u64, expiry: i64, whitelist: Vec<Pubkey>) -> SwapAccount {
    let (swap, _) = initialize_swap(&init_ctx(total), total, expiry, whitelist, key(5), price).unwrap();
    swap
}

fn standard_swap() -> SwapAccount {
    create(1000, 100, NOW + 3600, vec![b1(), b2()])
}

fn fill_ctx(swap: SwapAccount, buyer: Pubkey, now: i64) -> ExecuteSwap {
    ExecuteSwap {
        buyer,
        buyer_lamports: 1_000_000,
        swap,
        buyer_recipient_account: token_account(buyer, 20, 0),
        now,
    }
}

fn fill(swap: &mut SwapAccount, buyer: Pubkey, quantity: u64, now: i64) -> Result<(u64, u64), SwapError> {
    let mut ctx = fill_ctx(swap.clone(), buyer, now);
    let r = execute_swap(&mut ctx, quantity);
    *swap = ctx.swap;
    r.map(|(receipt, _)| (receipt.quantity_filled, receipt.payment_charged))
}

#[test]
fn create_sets_up_active_record() {
    let ctx = init_ctx(5000);
    let (swap, event) = initialize_swap(&ctx, 1000, NOW + 3600, vec![b1(), b2()], key(5), 100).unwrap();
    assert_eq!(swap.seller, seller());
    assert_eq!(swap.escrow_account, key(4));
    assert_eq!(swap.token_mint, mint());
    assert_eq!(swap.total_amount, 1000);
    assert_eq!(swap.amount_remaining, 1000);
    assert_eq!(swap.expiry_timestamp, NOW + 3600);
    assert_eq!(swap.whitelisted_buyers, vec![b1(), b2()]);
    assert_eq!(swap.recipient, key(5));
    assert!(swap.is_active);
    assert_eq!(swap.swap_account_bump, 254);
    assert_eq!(swap.price_total, 100);
    assert_eq!(event.seller, seller());
    assert_eq!(event.amount, 1000);
    assert_eq!(event.expiry_timestamp, NOW + 3600);
    assert_eq!(event.whitelisted_buyers, vec![b1(), b2()]);
    assert_eq!(event.token_mint, mint());
}

#[test]
fn two_partial_fills_sell_out_then_close() {
    let mut swap = standard_swap();
    assert_eq!(fill(&mut swap, b1(), 400, NOW + 10), Ok((400, 40)));
    assert_eq!(swap.amount_remaining, 600);
    assert!(swap.is_active);
    assert_eq!(fill(&mut swap, b2(), 600, NOW + 20), Ok((600, 60)));
    assert_eq!(swap.amount_remaining, 0);
    assert!(!swap.is_active);
    assert_eq!(fill(&mut swap, b1(), 1, NOW + 30), Err(SwapError::SwapNotActive));
    assert_eq!(fill(&mut swap, b2(), 1, NOW + 30), Err(SwapError::SwapNotActive));
}

#[test]
fn fill_event_names_both_parties() {
    let mut ctx = fill_ctx(standard_swap(), b1(), NOW);
    let (_, event) = execute_swap(&mut ctx, 250).unwrap();
    assert_eq!(event.seller, seller());
    assert_eq!(event.buyer, b1());
    assert_eq!(event.amount, 250);
    assert_eq!(event.token_mint, mint());
}

#[test]
fn fill_after_expiry_fails() {
    let mut swap = create(1000, 100, NOW + 10, vec![b1(), b2()]);
    let before = swap.clone();
    assert_eq!(fill(&mut swap, b1(), 100, NOW + 11), Err(SwapError::SwapExpired));
    assert_eq!(swap, before);
}

#[test]
fn fill_at_expiry_instant_succeeds() {
    let mut swap = create(1000, 100, NOW + 10, vec![b1()]);
    assert_eq!(fill(&mut swap, b1(), 100, NOW + 10), Ok((100, 10)));
}

#[test]
fn non_whitelisted_buyer_cannot_fill() {
    let mut swap = standard_swap();
    let before = swap.clone();
    assert_eq!(fill(&mut swap, b3(), 100, NOW), Err(SwapError::BuyerNotWhitelisted));
    assert_eq!(swap, before);
}

#[test]
fn seller_cancel_refunds_unsold_remainder() {
    let mut swap = standard_swap();
    fill(&mut swap, b1(), 400, NOW).unwrap();
    let mut ctx = CancelSwap { seller: seller(), swap };
    let (receipt, event) = cancel_swap(&mut ctx).unwrap();
    assert_eq!(receipt.amount_refunded, 600);
    assert_eq!(receipt.amount_sold, 400);
    assert!(!ctx.swap.is_active);
    assert_eq!(ctx.swap.amount_remaining, 600);
    assert_eq!(event.seller, seller());
    assert_eq!(event.amount, 1000);
    assert_eq!(event.refund, 600);
    assert_eq!(event.sold, 400);
    assert_eq!(event.token_mint, mint());
    // The escrow held 1000, released 400 to buyers and 600 back to the seller.
    assert_eq!(1000 - receipt.amount_sold - receipt.amount_refunded, 0);
}

#[test]
fn non_seller_cancel_is_refused() {
    let swap = standard_swap();
    let mut ctx = CancelSwap { seller: b1(), swap: swap.clone() };
    assert_eq!(cancel_swap(&mut ctx).unwrap_err(), SwapError::UnauthorizedCancellation);
    assert_eq!(ctx.swap, swap);
}

#[test]
fn cancel_before_expiry_is_allowed() {
    let mut ctx = CancelSwap { seller: seller(), swap: standard_swap() };
    let (receipt, _) = cancel_swap(&mut ctx).unwrap();
    assert_eq!(receipt.amount_refunded, 1000);
    assert_eq!(receipt.amount_sold, 0);
}

#[test]
fn closed_record_refuses_cancel_and_fill() {
    let mut ctx = CancelSwap { seller: seller(), swap: standard_swap() };
    cancel_swap(&mut ctx).unwrap();
    let closed = ctx.swap.clone();
    assert_eq!(cancel_swap(&mut ctx).unwrap_err(), SwapError::SwapNotActive);
    assert_eq!(ctx.swap, closed);
    let mut swap = closed.clone();
    assert_eq!(fill(&mut swap, b1(), 1, NOW), Err(SwapError::SwapNotActive));
    assert_eq!(swap, closed);
}

#[test]
fn sold_plus_remaining_equals_total() {
    let mut swap = create(997, 31, NOW + 3600, vec![b1(), b2()]);
    let mut sold: u64 = 0;
    let mut last = swap.amount_remaining;
    for (buyer, q) in [(b1(), 100u64), (b2(), 1), (b1(), 500), (b2(), 396)] {
        let (filled, _) = fill(&mut swap, buyer, q, NOW).unwrap();
        sold += filled;
        assert_eq!(sold + swap.amount_remaining, swap.total_amount);
        assert!(swap.amount_remaining <= last);
        last = swap.amount_remaining;
    }
    assert_eq!(swap.amount_remaining, 0);
    assert!(!swap.is_active);
}

#[test]
fn failed_fill_does_not_lower_remaining() {
    let mut swap = standard_swap();
    assert_eq!(fill(&mut swap, b1(), 1001, NOW), Err(SwapError::InvalidAmountToBuy));
    assert_eq!(swap.amount_remaining, 1000);
}

#[test]
fn whitelist_is_kept_through_fills_and_cancel() {
    let mut swap = standard_swap();
    fill(&mut swap, b1(), 10, NOW).unwrap();
    assert_eq!(swap.whitelisted_buyers, vec![b1(), b2()]);
    assert!(!swap.is_whitelisted(&b3()));
    let mut ctx = CancelSwap { seller: seller(), swap };
    cancel_swap(&mut ctx).unwrap();
    assert_eq!(ctx.swap.whitelisted_buyers, vec![b1(), b2()]);
}

#[test]
fn price_is_linear_and_rounds_down() {
    let swap = standard_swap();
    assert_eq!(swap.required_payment(1000), 100);
    assert_eq!(swap.required_payment(0), 0);
    assert_eq!(swap.required_payment(400), 40);
    assert_eq!(swap.required_payment(333), 33);
    assert_eq!(swap.required_payment(9), 0);
    let mut prev = 0;
    for q in 0..=1000u64 {
        let p = swap.required_payment(q);
        assert!(p >= prev);
        prev = p;
    }
}

#[test]
fn price_at_the_largest_sizes_does_not_overflow() {
    let mut swap = standard_swap();
    swap.total_amount = u64::MAX;
    swap.price_total = u64::MAX;
    assert_eq!(swap.required_payment(u64::MAX), u64::MAX);
    assert_eq!(swap.required_payment(u64::MAX / 2), u64::MAX / 2);
    swap.price_total = 3;
    assert_eq!(swap.required_payment(u64::MAX - 1), 2);
}

#[test]
fn create_rejects_zero_amount() {
    let r = initialize_swap(&init_ctx(10), 0, NOW + 60, vec![b1()], key(5), 1);
    assert_eq!(r.unwrap_err(), SwapError::InvalidAmount);
}

#[test]
fn create_rejects_empty_whitelist() {
    let r = initialize_swap(&init_ctx(10), 5, NOW + 60, vec![], key(5), 1);
    assert_eq!(r.unwrap_err(), SwapError::EmptyWhitelist);
}

#[test]
fn create_accepts_ten_buyers_and_rejects_eleven() {
    let ten: Vec<Pubkey> = (0..10u8).map(|i| key(100 + i)).collect();
    assert!(initialize_swap(&init_ctx(10), 5, NOW + 60, ten.clone(), key(5), 1).is_ok());
    let mut eleven = ten;
    eleven.push(key(200));
    let r = initialize_swap(&init_ctx(10), 5, NOW + 60, eleven, key(5), 1);
    assert_eq!(r.unwrap_err(), SwapError::WhitelistTooLarge);
}

#[test]
fn create_checks_expiry_window() {
    let ctx = init_ctx(10);
    assert_eq!(initialize_swap(&ctx, 5, NOW, vec![b1()], key(5), 1).unwrap_err(), SwapError::InvalidExpiryTime);
    assert_eq!(initialize_swap(&ctx, 5, NOW - 1, vec![b1()], key(5), 1).unwrap_err(), SwapError::InvalidExpiryTime);
    assert_eq!(
        initialize_swap(&ctx, 5, NOW + 48 * 3600 + 1, vec![b1()], key(5), 1).unwrap_err(),
        SwapError::InvalidExpiryTime
    );
    assert!(initialize_swap(&ctx, 5, NOW + 48 * 3600, vec![b1()], key(5), 1).is_ok());
    assert!(initialize_swap(&ctx, 5, NOW + 1, vec![b1()], key(5), 1).is_ok());
}

#[test]
fn create_expiry_window_near_time_limit() {
    let mut ctx = init_ctx(10);
    ctx.now = i64::MAX - 5;
    assert!(initialize_swap(&ctx, 5, i64::MAX, vec![b1()], key(5), 1).is_ok());
}

#[test]
fn create_rejects_wrong_mint() {
    let mut ctx = init_ctx(10);
    ctx.seller_token_account.mint = key(9);
    let r = initialize_swap(&ctx, 5, NOW + 60, vec![b1()], key(5), 1);
    assert_eq!(r.unwrap_err(), SwapError::InvalidTokenMint);
}

#[test]
fn create_rejects_frozen_account() {
    let mut ctx = init_ctx(10);
    ctx.seller_token_account.is_frozen = true;
    let r = initialize_swap(&ctx, 5, NOW + 60, vec![b1()], key(5), 1);
    assert_eq!(r.unwrap_err(), SwapError::TokenAccountFrozen);
}

#[test]
fn create_rejects_short_balance() {
    let r = initialize_swap(&init_ctx(4), 5, NOW + 60, vec![b1()], key(5), 1);
    assert_eq!(r.unwrap_err(), SwapError::InsufficientBalance);
    assert!(initialize_swap(&init_ctx(5), 5, NOW + 60, vec![b1()], key(5), 1).is_ok());
}

#[test]
fn fill_rejects_wrong_mint_and_frozen_destination() {
    let mut ctx = fill_ctx(standard_swap(), b1(), NOW);
    ctx.buyer_recipient_account.mint = key(9);
    assert_eq!(execute_swap(&mut ctx, 10).unwrap_err(), SwapError::InvalidTokenMint);
    ctx.buyer_recipient_account.mint = mint();
    ctx.buyer_recipient_account.is_frozen = true;
    assert_eq!(execute_swap(&mut ctx, 10).unwrap_err(), SwapError::TokenAccountFrozen);
    assert_eq!(ctx.swap.amount_remaining, 1000);
}

#[test]
fn fill_rejects_zero_or_excess_quantity() {
    let mut swap = standard_swap();
    assert_eq!(fill(&mut swap, b1(), 0, NOW), Err(SwapError::InvalidAmountToBuy));
    assert_eq!(fill(&mut swap, b1(), 1001, NOW), Err(SwapError::InvalidAmountToBuy));
    assert_eq!(fill(&mut swap, b1(), 1000, NOW), Ok((1000, 100)));
}

#[test]
fn fill_rejects_buyer_short_of_payment() {
    let mut ctx = fill_ctx(standard_swap(), b1(), NOW);
    ctx.buyer_lamports = 39;
    assert_eq!(execute_swap(&mut ctx, 400).unwrap_err(), SwapError::InsufficientBalance);
    ctx.buyer_lamports = 40;
    assert_eq!(execute_swap(&mut ctx, 400).unwrap().0.payment_charged, 40);
}

#[test]
fn fill_checks_run_in_stated_order() {
    // Expired, not whitelisted, and over-sized at once: expiry is reported first.
    let mut swap = create(1000, 100, NOW + 10, vec![b1()]);
    assert_eq!(fill(&mut swap, b3(), 5000, NOW + 100), Err(SwapError::SwapExpired));
    // Not whitelisted and over-sized: whitelist is reported first.
    assert_eq!(fill(&mut swap, b3(), 5000, NOW), Err(SwapError::BuyerNotWhitelisted));
}

#[test]
fn pubkey_comparison_is_bytewise() {
    let a = key(7);
    let mut bytes = [7u8; 32];
    assert!(a.key_eq(&Pubkey::new(bytes)));
    bytes[31] = 8;
    assert!(!a.key_eq(&Pubkey::new(bytes)));
}

#[test]
fn error_messages_are_distinct() {
    assert_eq!(SwapError::SwapExpired.message(), "Swap has expired");
    assert_eq!(SwapError::InvalidRecipientAddress.message(), "Invalid recipient address");
    assert_ne!(SwapError::InvalidAmount.message(), SwapError::InvalidAmountToBuy.message());
}
