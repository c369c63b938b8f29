use vstd::prelude::*;

use crate::address::Address;
use crate::error::AuctionError;
use crate::state::whitelist::{added, Whitelist};

verus! {

/// Admits `users` to the whitelist; it always succeeds.
pub fn handler(whitelist: &mut Whitelist, users: Vec<Address>) -> (r: Result<(), AuctionError>)
    ensures
        r == Ok::<(), AuctionError>(()),
        final(whitelist).whitelist_addresses@ == added(old(whitelist).whitelist_addresses@, users@),
{
    whitelist.add_addressess(users);
    Ok(())
}

} // verus!
