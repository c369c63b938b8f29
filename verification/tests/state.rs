use token_sale::address::Address;
use token_sale::error::AuctionError;
use token_sale::state::auction::{Auction, InitAuctionParams, TokenDetails};
use token_sale::state::consumer::Consumer;
use token_sale::state::whitelist::Whitelist;

fn addr(b: u8) -> Address {
    Address::new_from_array([b; 32])
}

fn list(w: &Whitelist) -> Vec<u8> {
    w.whitelist_addresses.iter().map(|a| a.to_bytes()[0]).collect()
}

#[test]
fn address_equality_is_bytewise() {
    assert!(addr(1) == addr(1));
    assert!(addr(1) != addr(2));
    let mut bytes = [1u8; 32];
    bytes[31] = 2;
    assert!(addr(1) != Address::new_from_array(bytes));
    assert!(Address::zero() == Address::new_from_array([0u8; 32]));
}

#[test]
fn defaults_are_empty() {
    let a = Auction::default();
    assert!(a.owner == Address::zero());
    assert_eq!(a.name, "");
    assert_eq!(a.start_time, 0);
    assert_eq!(a.end_time, 0);
    assert_eq!(a.sol_accumulated, 0);
    assert!(a.token_details.auction_token == Address::zero());
    assert_eq!(a.token_details.tokens_in_pool, 0);
    assert_eq!(a.token_details.purchase_limit, 0);
    assert_eq!(a.token_details.price_per_token, 0);
    let t = TokenDetails::default();
    assert_eq!(t.tokens_in_pool, 0);
    assert_eq!(Consumer::default().token_purchased, 0);
    assert!(Whitelist::default().whitelist_addresses.is_empty());
}

#[test]
fn init_copies_params_and_resets_collected_sol() {
    let mut a = Auction::default();
    a.sol_accumulated = 99;
    a.init(InitAuctionParams {
        auction_token: addr(3),
        admin: addr(4),
        name: "sale".to_string(),
        start_time: 10,
        end_time: 20,
        tokens_in_pool: 1000,
        purchase_limit: 50,
        price_per_token: 7,
    });
    assert!(a.owner == addr(4));
    assert_eq!(a.name, "sale");
    assert_eq!(a.start_time, 10);
    assert_eq!(a.end_time, 20);
    assert_eq!(a.sol_accumulated, 0);
    assert!(a.token_details.auction_token == addr(3));
    assert_eq!(a.token_details.tokens_in_pool, 1000);
    assert_eq!(a.token_details.purchase_limit, 50);
    assert_eq!(a.token_details.price_per_token, 7);
}

#[test]
fn started_and_ended_are_strict() {
    let mut a = Auction::default();
    a.start_time = 10;
    a.end_time = 20;
    assert!(!a.is_started(10));
    assert!(a.is_started(11));
    assert!(!a.is_ended(20));
    assert!(a.is_ended(21));
    assert!(!a.is_started(-5));
}

#[test]
fn buy_limit_exceeded_compares_the_sum() {
    let mut c = Consumer { token_purchased: 40 };
    assert!(!c.buy_limit_exceeded(10, 50));
    assert!(c.buy_limit_exceeded(11, 50));
    assert_eq!(c.token_purchased, 40);
}

#[test]
fn add_appends_new_users_in_order_once() {
    let mut w = Whitelist { whitelist_addresses: vec![addr(1)] };
    w.add_addressess(vec![addr(2), addr(1), addr(3), addr(2)]);
    assert_eq!(list(&w), vec![1, 2, 3]);
    assert!(w.is_whitelisted(&addr(2)));
    assert!(!w.is_whitelisted(&addr(4)));
}

#[test]
fn add_twice_is_add_once() {
    let mut once = Whitelist::default();
    once.add_addressess(vec![addr(5), addr(6)]);
    let mut twice = once.clone();
    twice.add_addressess(vec![addr(5), addr(6)]);
    assert_eq!(list(&once), list(&twice));
}

#[test]
fn remove_drops_users_and_keeps_order() {
    let mut w = Whitelist { whitelist_addresses: vec![addr(1), addr(2), addr(3), addr(4)] };
    w.remove_addressess(vec![addr(3), addr(1), addr(9)]);
    assert_eq!(list(&w), vec![2, 4]);
    assert!(!w.is_whitelisted(&addr(1)));
    assert!(w.is_whitelisted(&addr(4)));
    w.remove_addressess(vec![addr(3), addr(1), addr(9)]);
    assert_eq!(list(&w), vec![2, 4]);
}

#[test]
fn remove_from_empty_list_and_empty_removal() {
    let mut w = Whitelist::default();
    w.remove_addressess(vec![addr(1)]);
    assert!(w.whitelist_addresses.is_empty());
    let mut w = Whitelist { whitelist_addresses: vec![addr(1)] };
    w.remove_addressess(vec![]);
    assert_eq!(list(&w), vec![1]);
}

#[test]
fn remove_undoes_add_of_new_users() {
    let mut w = Whitelist { whitelist_addresses: vec![addr(1), addr(2)] };
    w.add_addressess(vec![addr(7), addr(8)]);
    w.remove_addressess(vec![addr(7), addr(8)]);
    assert_eq!(list(&w), vec![1, 2]);
}

#[test]
fn error_messages() {
    assert_eq!(AuctionError::CustomError.message(), "Custom error message");
    assert_eq!(AuctionError::AuctionEnded.message(), "Auction has already ended");
    assert_eq!(AuctionError::InvalidAuctionTime.message(), "Auction time Invalid");
    assert_eq!(AuctionError::UserAlreadyInWhitelist.message(), "User is already in the whitelist");
    assert_eq!(AuctionError::PurchaseLimitExceeded.message(), "Purchase limit exceeded");
    assert_eq!(AuctionError::InsufficientTokens.message(), "Insufficient tokens in pool");
    assert_eq!(AuctionError::UserNotWhitelisted.message(), "User not whitelisted");
}
