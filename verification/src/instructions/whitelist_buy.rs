use vstd::prelude::*;

use crate::address::Address;
use crate::error::AuctionError;
use crate::state::auction::{Auction, TokenDetails};
use crate::state::consumer::Consumer;
use crate::state::whitelist::Whitelist;

verus! {

/// Ten to the power `n`.
pub open spec fn pow10(n: nat) -> nat
    decreases n,
{
    if n == 0 {
        1
    } else {
        10 * pow10((n - 1) as nat)
    }
}

/// `pow10` grows with its exponent.
pub proof fn lemma_pow10_monotone(a: nat, b: nat)
    requires
        a <= b,
    ensures
        pow10(a) <= pow10(b),
        pow10(a) >= 1,
    decreases b,
{
    if b > 0 {
        if a < b {
            lemma_pow10_monotone(a, (b - 1) as nat);
        } else {
            lemma_pow10_monotone((a - 1) as nat, (b - 1) as nat);
        }
    }
}

/// Ten to the nineteenth is the largest power of ten that a `u64` holds.
pub proof fn lemma_pow10_u64_bound()
    ensures
        pow10(19) <= u64::MAX,
        pow10(20) > u64::MAX,
{
    reveal_with_fuel(pow10, 21);
}

/// The lamports that `amount` base units cost: the whole tokens among them
/// (a token has `decimals` decimal places), each at `price_per_token`.
pub open spec fn sol_cost(amount: u64, decimals: u8, price_per_token: u64) -> int {
    (amount as nat / pow10(decimals as nat)) as int * price_per_token
}

/// Why a purchase of `amount` by `user` at `now` is refused, checked in this
/// order: outside the sale's window, not whitelisted, past the buyer's
/// limit, more than the pool holds. `None` when it is not refused.
pub open spec fn purchase_refusal(
    auction: Auction,
    whitelist: Whitelist,
    buyer: Consumer,
    user: Address,
    amount: u64,
    now: i64,
) -> Option<AuctionError> {
    if !(!auction.spec_is_ended(now) && auction.spec_is_started(now)) {
        Some(AuctionError::InvalidAuctionTime)
    } else if !whitelist.whitelist_addresses@.contains(user) {
        Some(AuctionError::UserNotWhitelisted)
    } else if buyer.token_purchased + amount > auction.token_details.purchase_limit {
        Some(AuctionError::PurchaseLimitExceeded)
    } else if amount > auction.token_details.tokens_in_pool {
        Some(AuctionError::InsufficientTokens)
    } else {
        None
    }
}

/// The purchase runs out of the range of a `u64` before it is refused or
/// done: the buyer's total, ten to the `decimals`, the price or the
/// lamports collected would not fit.
pub open spec fn purchase_overflows(
    auction: Auction,
    whitelist: Whitelist,
    buyer: Consumer,
    user: Address,
    amount: u64,
    now: i64,
    decimals: u8,
) -> bool {
    let time_ok = !auction.spec_is_ended(now) && auction.spec_is_started(now);
    let listed = whitelist.whitelist_addresses@.contains(user);
    if !time_ok || !listed {
        false
    } else if buyer.token_purchased + amount > u64::MAX {
        true
    } else if purchase_refusal(auction, whitelist, buyer, user, amount, now) is Some {
        false
    } else {
        ||| decimals >= 20
        ||| sol_cost(amount, decimals, auction.token_details.price_per_token) > u64::MAX
        ||| auction.sol_accumulated + sol_cost(amount, decimals, auction.token_details.price_per_token)
            > u64::MAX
    }
}

/// Ten to the power `decimals`, for `decimals` at most 19.
fn ten_pow(decimals: u8) -> (r: u64)
    requires
        decimals < 20,
    ensures
        r == pow10(decimals as nat),
        r >= 1,
{
    proof {
        lemma_pow10_monotone(0, decimals as nat);
    }
    let mut p: u64 = 1;
    let mut i: u8 = 0;
    while i < decimals
        invariant
            i <= decimals < 20,
            p == pow10(i as nat),
            pow10(decimals as nat) >= 1,
        decreases decimals - i,
    {
        proof {
            lemma_pow10_monotone((i + 1) as nat, 19);
            lemma_pow10_u64_bound();
        }
        p = p * 10;
        i = i + 1;
    }
    p
}

/// Whether the purchase would run out of the range of a `u64`.
pub fn purchase_would_overflow(
    auction: &Auction,
    whitelist: &Whitelist,
    buyer: &Consumer,
    user: &Address,
    amount: u64,
    now: i64,
    decimals: u8,
) -> (r: bool)
    ensures
        r == purchase_overflows(*auction, *whitelist, *buyer, *user, amount, now, decimals),
{
    if !(!auction.is_ended(now) && auction.is_started(now)) || !whitelist.is_whitelisted(user) {
        return false;
    }
    let total = buyer.token_purchased.checked_add(amount);
    if total.is_none() {
        return true;
    }
    if total.unwrap() > auction.token_details.purchase_limit
        || amount > auction.token_details.tokens_in_pool {
        return false;
    }
    if decimals >= 20 {
        return true;
    }
    let unit = ten_pow(decimals);
    let cost = (amount / unit).checked_mul(auction.token_details.price_per_token);
    match cost {
        None => true,
        Some(c) => auction.sol_accumulated.checked_add(c).is_none(),
    }
}

/// Sells `amount` base units of the auction's token to `user` at `now`:
/// checks the sale's window, the whitelist, the buyer's limit and the pool,
/// in that order, and on success moves the tokens from the pool to the
/// buyer's total and books their cost, which it returns in lamports. A
/// refusal leaves every account as it was. The token has `decimals` decimal
/// places; the tokens and lamports themselves are moved by the caller.
pub fn handler(
    auction: &mut Auction,
    whitelist: &Whitelist,
    buyer: &mut Consumer,
    user: &Address,
    amount: u64,
    now: i64,
    decimals: u8,
) -> (r: Result<u64, AuctionError>)
    requires
        !purchase_overflows(*old(auction), *whitelist, *old(buyer), *user, amount, now, decimals),
    ensures
        match purchase_refusal(*old(auction), *whitelist, *old(buyer), *user, amount, now) {
            Some(e) => {
                &&& r == Err::<u64, AuctionError>(e)
                &&& *final(auction) == *old(auction)
                &&& *final(buyer) == *old(buyer)
            },
            None => {
                let cost = sol_cost(amount, decimals, old(auction).token_details.price_per_token);
                &&& r == Ok::<u64, AuctionError>(cost as u64)
                &&& final(buyer).token_purchased == old(buyer).token_purchased + amount
                &&& *final(auction) == (Auction {
                    sol_accumulated: (old(auction).sol_accumulated + cost) as u64,
                    token_details: (TokenDetails {
                        tokens_in_pool: (old(auction).token_details.tokens_in_pool - amount) as u64,
                        ..old(auction).token_details
                    }),
                    ..*old(auction)
                })
            },
        },
        r is Ok ==> final(auction).token_details.tokens_in_pool + final(buyer).token_purchased
            == old(auction).token_details.tokens_in_pool + old(buyer).token_purchased,
        r is Ok ==> final(buyer).token_purchased <= final(auction).token_details.purchase_limit,
{
    let remaining_tokens = auction.token_details.tokens_in_pool;
    let limit = auction.token_details.purchase_limit;

    // Ensure auction has not ended
    if !(!auction.is_ended(now) && auction.is_started(now)) {
        return Err(AuctionError::InvalidAuctionTime);
    }
    // Ensure user is whitelisted
    if !whitelist.is_whitelisted(user) {
        return Err(AuctionError::UserNotWhitelisted);
    }
    // Ensure user has not exceeded purchase limit
    if !(buyer.token_purchased + amount <= limit) {
        return Err(AuctionError::PurchaseLimitExceeded);
    }
    // Ensure user is not purchasing more tokens than are available
    if !(amount <= remaining_tokens) {
        return Err(AuctionError::InsufficientTokens);
    }

    let sol_price_per_token = auction.token_details.price_per_token;
    let sol_amount = amount / ten_pow(decimals) * sol_price_per_token;

    buyer.token_purchased = buyer.token_purchased + amount;
    auction.token_details.tokens_in_pool = auction.token_details.tokens_in_pool - amount;
    auction.sol_accumulated = auction.sol_accumulated + sol_amount;
    Ok(sol_amount)
}

} // verus!
