//! The logic of a whitelisted token sale: an admin sets up an auction of a
//! token with a sale window, a pool, a per-buyer limit and a price; fills the
//! pool; admits buyers to a whitelist or takes them off it; whitelisted
//! buyers buy inside the window; and once the sale is over the admin takes
//! back what is left of the pool and the lamports collected.
//!
//! Each instruction is a function from the accounts' state and the
//! instruction's arguments to the new state and what has to be moved; the
//! moving itself (token and lamport transfers, the clock) is left to the
//! program that calls these functions.

pub mod address;
pub mod error;
pub mod instructions;
pub mod laws;
pub mod state;

pub use address::Address;
pub use error::{AuctionError, WithdrawError};
pub use instructions::{InitAuctionArgs, Withdrawal};
pub use state::{Auction, Consumer, InitAuctionParams, TokenDetails, Whitelist};
