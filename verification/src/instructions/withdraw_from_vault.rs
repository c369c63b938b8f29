use vstd::prelude::*;

use crate::error::{AuctionError, WithdrawError};
use crate::state::auction::{Auction, TokenDetails};

verus! {

/// What the admin's withdrawal moves: the tokens left in the pool (none to
/// move when this is 0) and the lamport balances that the vault and the
/// admin are left with.
#[derive(Clone, Copy, Debug, PartialEq, Eq, Structural)]
pub struct Withdrawal {
    pub tokens_to_transfer: u64,
    pub vault_lamports: u64,
    pub admin_lamports: u64,
}

/// The outcome of a withdrawal at `now` from a vault that holds
/// `vault_lamports`, to an admin that holds `admin_lamports`: refused while
/// the sale is not over; refused as an invalid argument when the vault holds
/// less than the lamports collected, or the admin's balance would not fit in
/// a `u64`; otherwise the whole pool and the collected lamports go to the
/// admin.
pub open spec fn withdrawal_outcome(auction: Auction, now: i64, vault_lamports: u64, admin_lamports: u64) -> Result<Withdrawal, WithdrawError> {
    if !auction.spec_is_ended(now) {
        Err(WithdrawError::Auction(AuctionError::InvalidAuctionTime))
    } else if vault_lamports < auction.sol_accumulated {
        Err(WithdrawError::InvalidArgument)
    } else if admin_lamports + auction.sol_accumulated > u64::MAX {
        Err(WithdrawError::InvalidArgument)
    } else {
        Ok(Withdrawal {
            tokens_to_transfer: auction.token_details.tokens_in_pool,
            vault_lamports: (vault_lamports - auction.sol_accumulated) as u64,
            admin_lamports: (admin_lamports + auction.sol_accumulated) as u64,
        })
    }
}

/// Closes the books of an auction that is over at `now`: returns what is to
/// be moved (see `withdrawal_outcome`) and empties the pool and the
/// collected lamports. A refusal leaves the auction as it was.
pub fn handler(auction: &mut Auction, now: i64, vault_lamports: u64, admin_lamports: u64) -> (r: Result<Withdrawal, WithdrawError>)
    ensures
        r == withdrawal_outcome(*old(auction), now, vault_lamports, admin_lamports),
        r is Err ==> *final(auction) == *old(auction),
        r is Ok ==> *final(auction) == (Auction {
            sol_accumulated: 0,
            token_details: (TokenDetails { tokens_in_pool: 0, ..old(auction).token_details }),
            ..*old(auction)
        }),
{
    if !auction.is_ended(now) {
        return Err(WithdrawError::Auction(AuctionError::InvalidAuctionTime));
    }
    let tokens_to_transfer = auction.token_details.tokens_in_pool;
    let accumulated_sol = auction.sol_accumulated;
    let vault_after = match vault_lamports.checked_sub(accumulated_sol) {
        Some(v) => v,
        None => {
            return Err(WithdrawError::InvalidArgument);
        },
    };
    let admin_after = match admin_lamports.checked_add(accumulated_sol) {
        Some(v) => v,
        None => {
            return Err(WithdrawError::InvalidArgument);
        },
    };
    auction.token_details.tokens_in_pool = 0;
    auction.sol_accumulated = 0;
    Ok(Withdrawal { tokens_to_transfer, vault_lamports: vault_after, admin_lamports: admin_after })
}

} // verus!
