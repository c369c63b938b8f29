use vstd::prelude::*;

use crate::address::Address;
use crate::error::AuctionError;
use crate::state::auction::{Auction, InitAuctionParams};

verus! {

/// What the admin sets an auction up with.
#[derive(Clone, Debug)]
pub struct InitAuctionArgs {
    pub name: String,
    pub start_time: i64,
    pub end_time: i64,
    /// pool of total tokens
    pub tokens_in_pool: u64,
    pub purchase_limit: u64,
    pub price_per_token: u64,
}

/// The parameters that a new auction of `auction_token`, run by `admin`,
/// gets from `args`.
pub open spec fn params_of(auction_token: Address, admin: Address, args: InitAuctionArgs) -> InitAuctionParams {
    InitAuctionParams {
        auction_token,
        admin,
        name: args.name,
        start_time: args.start_time,
        end_time: args.end_time,
        tokens_in_pool: args.tokens_in_pool,
        purchase_limit: args.purchase_limit,
        price_per_token: args.price_per_token,
    }
}

/// Sets up `auction` for `auction_token` with `admin` as its owner. An end
/// that does not lie after the start is refused with `AuctionEnded`, and the
/// auction is then left as it was.
pub fn handler(auction: &mut Auction, auction_token: Address, admin: Address, args: InitAuctionArgs) -> (r: Result<(), AuctionError>)
    ensures
        args.start_time >= args.end_time ==> r == Err::<(), AuctionError>(AuctionError::AuctionEnded)
            && *final(auction) == *old(auction),
        args.start_time < args.end_time ==> r == Ok::<(), AuctionError>(())
            && final(auction).initialized_from(params_of(auction_token, admin, args)),
{
    // Ensure auction end time is greater than auction start time
    if args.start_time >= args.end_time {
        return Err(AuctionError::AuctionEnded);
    }
    auction.init(InitAuctionParams {
        auction_token,
        admin,
        name: args.name,
        start_time: args.start_time,
        end_time: args.end_time,
        tokens_in_pool: args.tokens_in_pool,
        purchase_limit: args.purchase_limit,
        price_per_token: args.price_per_token,
    });
    Ok(())
}

} // verus!
