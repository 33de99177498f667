use vstd::prelude::*;

verus! {

/// Every way a swap operation can be refused.
#[derive(Clone, Copy, Debug, PartialEq, Eq, Structural)]
pub enum SwapError {
    SwapExpired,
    SwapNotActive,
    BuyerNotWhitelisted,
    InvalidExpiryTime,
    UnauthorizedCancellation,
    InvalidAmount,
    EmptyWhitelist,
    WhitelistTooLarge,
    InvalidTokenMint,
    TokenAccountFrozen,
    InvalidRecipientAddress,
    InsufficientBalance,
    InvalidAmountToBuy,
}

impl SwapError {
    /// Human-readable description of the error.
    pub fn message(&self) -> (r: &'static str) {
        match self {
            SwapError::SwapExpired => "Swap has expired",
            SwapError::SwapNotActive => "Swap is not active",
            SwapError::BuyerNotWhitelisted => "Buyer is not whitelisted",
            SwapError::InvalidExpiryTime => "Invalid expiry time",
            SwapError::UnauthorizedCancellation => "Unauthorized cancellation attempt",
            SwapError::InvalidAmount => "Amount must be greater than 0",
            SwapError::EmptyWhitelist => "Whitelist cannot be empty",
            SwapError::WhitelistTooLarge => "Whitelist holds more than ten buyers",
            SwapError::InvalidTokenMint => "Invalid token mint",
            SwapError::TokenAccountFrozen => "Token account is frozen",
            SwapError::InvalidRecipientAddress => "Invalid recipient address",
            SwapError::InsufficientBalance => "Insufficient balance",
            SwapError::InvalidAmountToBuy => "Invalid amount to buy",
        }
    }
}

} // verus!
