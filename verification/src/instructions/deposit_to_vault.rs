use vstd::prelude::*;

use crate::error::AuctionError;
use crate::state::auction::{Auction, TokenDetails};

verus! {

/// Records `amount` more tokens in the pool, once they have been moved into
/// the vault. The sum must fit in a `u64`.
pub fn handler(auction: &mut Auction, amount: u64) -> (r: Result<(), AuctionError>)
    requires
        old(auction).token_details.tokens_in_pool + amount <= u64::MAX,
    ensures
        r == Ok::<(), AuctionError>(()),
        *final(auction) == (Auction {
            token_details: (TokenDetails {
                tokens_in_pool: (old(auction).token_details.tokens_in_pool + amount) as u64,
                ..old(auction).token_details
            }),
            ..*old(auction)
        }),
{
    auction.token_details.tokens_in_pool = auction.token_details.tokens_in_pool + amount;
    Ok(())
}

} // verus!
