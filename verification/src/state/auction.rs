use vstd::prelude::*;

use crate::address::Address;

verus! {

/// What the sale offers: which token, how many are left, how many one buyer
/// may take and what one whole token costs in lamports.
#[derive(Clone, Copy, Debug)]
pub struct TokenDetails {
    pub auction_token: Address,
    pub tokens_in_pool: u64,
    pub purchase_limit: u64,
    pub price_per_token: u64,
}

/// The state of one token sale.
#[derive(Clone, Debug)]
pub struct Auction {
    pub owner: Address,
    pub name: String,
    pub start_time: i64,
    pub end_time: i64,
    pub sol_accumulated: u64,
    pub token_details: TokenDetails,
}

/// What an auction is set up with.
#[derive(Clone, Debug)]
pub struct InitAuctionParams {
    pub auction_token: Address,
    pub admin: Address,
    pub name: String,
    pub start_time: i64,
    pub end_time: i64,
    pub tokens_in_pool: u64,
    pub purchase_limit: u64,
    pub price_per_token: u64,
}

impl Default for TokenDetails {
    fn default() -> (r: TokenDetails)
        ensures
            r.auction_token.is_zero(),
            r.tokens_in_pool == 0,
            r.purchase_limit == 0,
            r.price_per_token == 0,
    {
        TokenDetails {
            auction_token: Address::zero(),
            tokens_in_pool: 0,
            purchase_limit: 0,
            price_per_token: 0,
        }
    }
}

impl Default for Auction {
    fn default() -> (r: Auction)
        ensures
            r.owner.is_zero(),
            r.name@ == Seq::<char>::empty(),
            r.start_time == 0,
            r.end_time == 0,
            r.sol_accumulated == 0,
            r.token_details.auction_token.is_zero(),
            r.token_details.tokens_in_pool == 0,
            r.token_details.purchase_limit == 0,
            r.token_details.price_per_token == 0,
    {
        Auction {
            owner: Address::zero(),
            name: String::new(),
            start_time: 0,
            end_time: 0,
            token_details: TokenDetails::default(),
            sol_accumulated: 0,
        }
    }
}

impl Auction {
    /// The auction is over at `current_time` when its end lies strictly
    /// before it.
    pub open spec fn spec_is_ended(&self, current_time: i64) -> bool {
        self.end_time < current_time
    }

    /// The auction has begun at `current_time` when its start lies strictly
    /// before it.
    pub open spec fn spec_is_started(&self, current_time: i64) -> bool {
        self.start_time < current_time
    }

    /// The auction that `init` makes of `params`: the parameters copied in,
    /// with nothing accumulated yet.
    pub open spec fn initialized_from(self, params: InitAuctionParams) -> bool {
        &&& self.owner == params.admin
        &&& self.name@ == params.name@
        &&& self.start_time == params.start_time
        &&& self.end_time == params.end_time
        &&& self.sol_accumulated == 0
        &&& self.token_details.auction_token == params.auction_token
        &&& self.token_details.tokens_in_pool == params.tokens_in_pool
        &&& self.token_details.purchase_limit == params.purchase_limit
        &&& self.token_details.price_per_token == params.price_per_token
    }

    /// Resets the auction and sets it up with `params`.
    pub fn init(&mut self, params: InitAuctionParams)
        ensures
            final(self).initialized_from(params),
    {
        *self = Self::default();
        self.owner = params.admin;
        self.name = params.name;
        self.start_time = params.start_time;
        self.end_time = params.end_time;
        self.token_details.auction_token = params.auction_token;
        self.token_details.tokens_in_pool = params.tokens_in_pool;
        self.token_details.purchase_limit = params.purchase_limit;
        self.token_details.price_per_token = params.price_per_token;
    }

    /// Whether the auction is over at `current_time`.
    pub fn is_ended(&self, current_time: i64) -> (r: bool)
        ensures
            r == self.spec_is_ended(current_time),
    {
        self.end_time < current_time
    }

    /// Whether the auction has begun at `current_time`.
    pub fn is_started(&self, current_time: i64) -> (r: bool)
        ensures
            r == self.spec_is_started(current_time),
    {
        self.start_time < current_time
    }
}

} // verus!
