use token_sale::address::Address;
use token_sale::error::{AuctionError, WithdrawError};
use token_sale::instructions::init_auction::InitAuctionArgs;
use token_sale::instructions::withdraw_from_vault::Withdrawal;
use token_sale::instructions::{
    add_whitelist, deposit_to_vault, init_auction, remove_whitelist, whitelist_buy,
    withdraw_from_vault,
};
use token_sale::state::auction::Auction;
use token_sale::state::consumer::Consumer;
use token_sale::state::whitelist::Whitelist;

fn addr(b: u8) -> Address {
    Address::new_from_array([b; 32])
}

fn args(start: i64, end: i64) -> InitAuctionArgs {
    InitAuctionArgs {
        name: "sale".to_string(),
        start_time: start,
        end_time: end,
        tokens_in_pool: 1_000,
        purchase_limit: 500,
        price_per_token: 2,
    }
}

fn running_auction() -> Auction {
    let mut a = Auction::default();
    assert_eq!(init_auction::handler(&mut a, addr(3), addr(4), args(0, 100)), Ok(()));
    a
}

fn listed(user: Address) -> Whitelist {
    let mut w = Whitelist::default();
    assert_eq!(add_whitelist::handler(&mut w, vec![user]), Ok(()));
    w
}

#[test]
fn init_auction_sets_up() {
    let a = running_auction();
    assert!(a.owner == addr(4));
    assert!(a.token_details.auction_token == addr(3));
    assert_eq!(a.name, "sale");
    assert_eq!((a.start_time, a.end_time), (0, 100));
    assert_eq!(a.token_details.tokens_in_pool, 1_000);
    assert_eq!(a.token_details.purchase_limit, 500);
    assert_eq!(a.token_details.price_per_token, 2);
    assert_eq!(a.sol_accumulated, 0);
}

#[test]
fn init_auction_refuses_end_not_after_start() {
    let mut a = Auction::default();
    assert_eq!(init_auction::handler(&mut a, addr(3), addr(4), args(5, 5)), Err(AuctionError::AuctionEnded));
    assert_eq!(init_auction::handler(&mut a, addr(3), addr(4), args(6, 5)), Err(AuctionError::AuctionEnded));
    assert!(a.owner == Address::zero());
    assert_eq!(a.token_details.tokens_in_pool, 0);
}

#[test]
fn initialised_auction_never_ended_before_started() {
    let a = running_auction();
    for now in [-10i64, 0, 1, 50, 100, 101, 1_000] {
        assert!(!a.is_ended(now) || a.is_started(now));
    }
}

#[test]
fn deposit_adds_to_pool() {
    let mut a = running_auction();
    assert_eq!(deposit_to_vault::handler(&mut a, 250), Ok(()));
    assert_eq!(a.token_details.tokens_in_pool, 1_250);
    assert_eq!(a.sol_accumulated, 0);
}

#[test]
fn whitelist_handlers() {
    let mut w = Whitelist::default();
    assert_eq!(add_whitelist::handler(&mut w, vec![addr(1), addr(2), addr(1)]), Ok(()));
    assert_eq!(w.whitelist_addresses.len(), 2);
    assert_eq!(remove_whitelist::handler(&mut w, vec![addr(1)]), Ok(()));
    assert!(!w.is_whitelisted(&addr(1)));
    assert!(w.is_whitelisted(&addr(2)));
}

#[test]
fn buy_moves_tokens_and_books_lamports() {
    let mut a = running_auction();
    let w = listed(addr(9));
    let mut b = Consumer::default();
    // 55 base units with one decimal are 5 whole tokens at 2 lamports each
    assert_eq!(whitelist_buy::handler(&mut a, &w, &mut b, &addr(9), 55, 50, 1), Ok(10));
    assert_eq!(b.token_purchased, 55);
    assert_eq!(a.token_details.tokens_in_pool, 945);
    assert_eq!(a.sol_accumulated, 10);
    assert_eq!(a.token_details.tokens_in_pool + b.token_purchased, 1_000);
}

#[test]
fn buy_with_no_decimals_and_on_the_last_moment() {
    let mut a = running_auction();
    let w = listed(addr(9));
    let mut b = Consumer::default();
    assert_eq!(whitelist_buy::handler(&mut a, &w, &mut b, &addr(9), 3, 100, 0), Ok(6));
    assert_eq!(a.sol_accumulated, 6);
}

#[test]
fn buy_refusals_in_order() {
    let mut a = running_auction();
    let w = listed(addr(9));
    let mut b = Consumer::default();
    assert_eq!(whitelist_buy::handler(&mut a, &w, &mut b, &addr(9), 1, 0, 0), Err(AuctionError::InvalidAuctionTime));
    assert_eq!(whitelist_buy::handler(&mut a, &w, &mut b, &addr(9), 1, 101, 0), Err(AuctionError::InvalidAuctionTime));
    assert_eq!(whitelist_buy::handler(&mut a, &w, &mut b, &addr(8), 1, 50, 0), Err(AuctionError::UserNotWhitelisted));
    assert_eq!(whitelist_buy::handler(&mut a, &w, &mut b, &addr(9), 501, 50, 0), Err(AuctionError::PurchaseLimitExceeded));
    a.token_details.tokens_in_pool = 10;
    assert_eq!(whitelist_buy::handler(&mut a, &w, &mut b, &addr(9), 11, 50, 0), Err(AuctionError::InsufficientTokens));
    assert_eq!(b.token_purchased, 0);
    assert_eq!(a.token_details.tokens_in_pool, 10);
    assert_eq!(a.sol_accumulated, 0);
}

#[test]
fn buy_up_to_the_limit_then_refused() {
    let mut a = running_auction();
    let w = listed(addr(9));
    let mut b = Consumer::default();
    assert!(whitelist_buy::handler(&mut a, &w, &mut b, &addr(9), 500, 50, 0).is_ok());
    assert_eq!(whitelist_buy::handler(&mut a, &w, &mut b, &addr(9), 1, 50, 0), Err(AuctionError::PurchaseLimitExceeded));
    assert!(b.token_purchased <= a.token_details.purchase_limit);
}

#[test]
fn overflow_detection() {
    let a = running_auction();
    let w = listed(addr(9));
    let b = Consumer { token_purchased: u64::MAX };
    assert!(whitelist_buy::purchase_would_overflow(&a, &w, &b, &addr(9), 1, 50, 0));
    // refused before the sum is taken
    assert!(!whitelist_buy::purchase_would_overflow(&a, &w, &b, &addr(8), 1, 50, 0));
    let b = Consumer::default();
    assert!(!whitelist_buy::purchase_would_overflow(&a, &w, &b, &addr(9), 1, 50, 19));
    assert!(whitelist_buy::purchase_would_overflow(&a, &w, &b, &addr(9), 1, 50, 20));
    let mut dear = running_auction();
    dear.token_details.price_per_token = u64::MAX;
    assert!(whitelist_buy::purchase_would_overflow(&dear, &w, &b, &addr(9), 2, 50, 0));
    assert!(!whitelist_buy::purchase_would_overflow(&dear, &w, &b, &addr(9), 1, 50, 0));
    dear.sol_accumulated = 1;
    assert!(whitelist_buy::purchase_would_overflow(&dear, &w, &b, &addr(9), 1, 50, 0));
}

#[test]
fn withdraw_after_end() {
    let mut a = running_auction();
    a.sol_accumulated = 40;
    assert_eq!(
        withdraw_from_vault::handler(&mut a, 101, 100, 5),
        Ok(Withdrawal { tokens_to_transfer: 1_000, vault_lamports: 60, admin_lamports: 45 })
    );
    assert_eq!(a.token_details.tokens_in_pool, 0);
    assert_eq!(a.sol_accumulated, 0);
}

#[test]
fn withdraw_refusals() {
    let mut a = running_auction();
    a.sol_accumulated = 40;
    assert_eq!(withdraw_from_vault::handler(&mut a, 100, 100, 5), Err(WithdrawError::Auction(AuctionError::InvalidAuctionTime)));
    assert_eq!(withdraw_from_vault::handler(&mut a, 101, 39, 5), Err(WithdrawError::InvalidArgument));
    assert_eq!(withdraw_from_vault::handler(&mut a, 101, 100, u64::MAX - 39), Err(WithdrawError::InvalidArgument));
    assert_eq!(a.sol_accumulated, 40);
    assert_eq!(a.token_details.tokens_in_pool, 1_000);
}

#[test]
fn purchase_and_withdrawal_never_both_succeed() {
    let w = listed(addr(9));
    for now in [0i64, 1, 50, 100, 101] {
        let mut a = running_auction();
        let mut b = Consumer::default();
        let bought = whitelist_buy::handler(&mut a, &w, &mut b, &addr(9), 1, now, 0).is_ok();
        let mut a = running_auction();
        let withdrawn = withdraw_from_vault::handler(&mut a, now, 0, 0).is_ok();
        assert!(!(bought && withdrawn));
    }
}

#[test]
fn withdraw_keeps_lamports() {
    let mut a = running_auction();
    a.sol_accumulated = 7;
    let w = withdraw_from_vault::handler(&mut a, 200, 10, 3).unwrap();
    assert_eq!(w.vault_lamports + w.admin_lamports, 13);
}

#[test]
fn limit_refusal_agrees_with_buyer_check() {
    let w = listed(addr(9));
    for (bought, amount) in [(0u64, 500u64), (0, 501), (499, 1), (499, 2), (500, 0)] {
        let mut a = running_auction();
        let mut b = Consumer { token_purchased: bought };
        let exceeded = b.buy_limit_exceeded(amount, a.token_details.purchase_limit);
        let r = whitelist_buy::handler(&mut a, &w, &mut b, &addr(9), amount, 50, 0);
        assert_eq!(r == Err(AuctionError::PurchaseLimitExceeded), exceeded);
    }
}
