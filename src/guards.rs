use vstd::prelude::*;

use crate::error::SwapError;
use crate::pubkey::Pubkey;
use crate::state::SwapAccount;

verus! {

/// What the logic reads of a token account held on the ledger.
#[derive(Clone, Copy, Debug, PartialEq, Eq)]
pub struct TokenAccount {
    pub key: Pubkey,
    pub mint: Pubkey,
    pub owner: Pubkey,
    pub amount: u64,
    pub is_frozen: bool,
}

/// Fails unless the swap is still open.
pub fn require_active(swap: &SwapAccount) -> (r: Result<(), SwapError>)
    ensures
        r == (if swap.is_active { Ok(()) } else { Err(SwapError::SwapNotActive) }),
{
    if swap.is_active {
        Ok(())
    } else {
        Err(SwapError::SwapNotActive)
    }
}

/// Fails when `now` lies strictly after the swap's expiry.
pub fn require_not_expired(swap: &SwapAccount, now: i64) -> (r: Result<(), SwapError>)
    ensures
        r == (if swap.is_expired_at(now as int) { Err(SwapError::SwapExpired) } else { Ok(()) }),
{
    if now > swap.expiry_timestamp {
        Err(SwapError::SwapExpired)
    } else {
        Ok(())
    }
}

/// Fails unless `actor` is one of the swap's whitelisted buyers.
pub fn require_whitelisted(swap: &SwapAccount, actor: &Pubkey) -> (r: Result<(), SwapError>)
    ensures
        r == (if swap.whitelists(actor@) { Ok(()) } else { Err(SwapError::BuyerNotWhitelisted) }),
{
    if swap.is_whitelisted(actor) {
        Ok(())
    } else {
        Err(SwapError::BuyerNotWhitelisted)
    }
}

/// Fails unless `actor` is the seller who created the swap.
pub fn require_owner(swap: &SwapAccount, actor: &Pubkey) -> (r: Result<(), SwapError>)
    ensures
        r == (if swap.seller@ == actor@ { Ok(()) } else { Err(SwapError::UnauthorizedCancellation) }),
{
    if swap.seller.key_eq(actor) {
        Ok(())
    } else {
        Err(SwapError::UnauthorizedCancellation)
    }
}

/// The error, if any, that makes `account` unusable for tokens of `token_mint`.
pub open spec fn token_account_error(token_mint: Seq<u8>, account: TokenAccount) -> Option<SwapError> {
    if account.mint@ != token_mint {
        Some(SwapError::InvalidTokenMint)
    } else if account.is_frozen {
        Some(SwapError::TokenAccountFrozen)
    } else {
        None
    }
}

/// Checks that `token_account` holds tokens of `token_mint` and is not frozen.
pub fn verify_spl_token(token_mint: &Pubkey, token_account: &TokenAccount) -> (r: Result<(), SwapError>)
    ensures
        r == (match token_account_error(token_mint@, *token_account) {
            Some(e) => Err(e),
            None => Ok(()),
        }),
{
    if !token_account.mint.key_eq(token_mint) {
        return Err(SwapError::InvalidTokenMint);
    }
    if token_account.is_frozen {
        return Err(SwapError::TokenAccountFrozen);
    }
    Ok(())
}

} // verus!
