use vstd::prelude::*;

use crate::address::Address;
use crate::error::AuctionError;
use crate::state::whitelist::{removed, Whitelist};

verus! {

/// Takes `users` off the whitelist; it always succeeds.
pub fn handler(whitelist: &mut Whitelist, users: Vec<Address>) -> (r: Result<(), AuctionError>)
    ensures
        r == Ok::<(), AuctionError>(()),
        final(whitelist).whitelist_addresses@ == removed(old(whitelist).whitelist_addresses@, users@),
{
    whitelist.remove_addressess(users);
    Ok(())
}

} // verus!
