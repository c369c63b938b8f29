use vstd::prelude::*;

verus! {

/// The errors that the token sale's instructions report.
#[derive(Clone, Copy, Debug, PartialEq, Eq, Structural)]
pub enum AuctionError {
    /// Custom error message
    CustomError,
    /// Auction has already ended
    AuctionEnded,
    /// Auction time Invalid
    InvalidAuctionTime,
    /// User is already in the whitelist
    UserAlreadyInWhitelist,
    /// Purchase limit exceeded
    PurchaseLimitExceeded,
    /// Insufficient tokens in pool
    InsufficientTokens,
    /// User not whitelisted
    UserNotWhitelisted,
}

impl AuctionError {
    /// The message that goes with each error.
    pub fn message(&self) -> (r: &'static str)
        ensures
            r@ == self.spec_message(),
    {
        match self {
            AuctionError::CustomError => "Custom error message",
            AuctionError::AuctionEnded => "Auction has already ended",
            AuctionError::InvalidAuctionTime => "Auction time Invalid",
            AuctionError::UserAlreadyInWhitelist => "User is already in the whitelist",
            AuctionError::PurchaseLimitExceeded => "Purchase limit exceeded",
            AuctionError::InsufficientTokens => "Insufficient tokens in pool",
            AuctionError::UserNotWhitelisted => "User not whitelisted",
        }
    }

    pub open spec fn spec_message(&self) -> Seq<char> {
        match self {
            AuctionError::CustomError => "Custom error message"@,
            AuctionError::AuctionEnded => "Auction has already ended"@,
            AuctionError::InvalidAuctionTime => "Auction time Invalid"@,
            AuctionError::UserAlreadyInWhitelist => "User is already in the whitelist"@,
            AuctionError::PurchaseLimitExceeded => "Purchase limit exceeded"@,
            AuctionError::InsufficientTokens => "Insufficient tokens in pool"@,
            AuctionError::UserNotWhitelisted => "User not whitelisted"@,
        }
    }
}

/// The errors of the withdrawal: the sale's own, or an invalid argument
/// reported when a lamport balance would leave the range of a `u64`.
#[derive(Clone, Copy, Debug, PartialEq, Eq, Structural)]
pub enum WithdrawError {
    Auction(AuctionError),
    InvalidArgument,
}

} // verus!
