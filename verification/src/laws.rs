use vstd::prelude::*;

use crate::address::Address;
use crate::error::{AuctionError, WithdrawError};
use crate::instructions::init_auction::params_of;
use crate::instructions::init_auction::InitAuctionArgs;
use crate::instructions::whitelist_buy::{
    lemma_pow10_monotone,
    pow10,
    purchase_overflows,
    purchase_refusal,
    sol_cost,
};
use crate::instructions::withdraw_from_vault::{withdrawal_outcome, Withdrawal};
use crate::state::auction::{Auction, InitAuctionParams};
use crate::state::consumer::Consumer;
use crate::state::whitelist::{
    added,
    lemma_added_contents,
    lemma_added_no_duplicates,
    lemma_removed_contents,
    no_duplicates,
    removed,
    Whitelist,
};

verus! {

/// After users are admitted, each of them is whitelisted, everyone who was
/// listed before still is, in the same places, and nobody else is.
pub proof fn law_admitted_users_are_whitelisted(list: Seq<Address>, users: Seq<Address>)
    ensures
        forall|u: Address| users.contains(u) ==> #[trigger] added(list, users).contains(u),
        forall|a: Address| #[trigger] added(list, users).contains(a) <==> (list.contains(a) || users.contains(a)),
        added(list, users).subrange(0, list.len() as int) == list,
{
    lemma_added_contents(list, users);
}

/// After users are removed, none of them is whitelisted, and everyone else
/// who was listed still is.
pub proof fn law_removed_users_are_not_whitelisted(list: Seq<Address>, users: Seq<Address>)
    ensures
        forall|u: Address| users.contains(u) ==> !#[trigger] removed(list, users).contains(u),
        forall|a: Address| #[trigger] removed(list, users).contains(a) <==> (list.contains(a) && !users.contains(a)),
{
    lemma_removed_contents(list, users);
}

/// A whitelist that starts empty and is changed only by admitting and
/// removing never lists an address twice.
pub proof fn law_whitelist_never_repeats(list: Seq<Address>, users: Seq<Address>)
    requires
        no_duplicates(list),
    ensures
        no_duplicates(Seq::<Address>::empty()),
        no_duplicates(added(list, users)),
        no_duplicates(removed(list, users)),
{
    lemma_added_no_duplicates(list, users);
    lemma_removed_contents(list, users);
}

/// Admitting users who are all listed already changes nothing.
proof fn lemma_added_all_present(list: Seq<Address>, users: Seq<Address>)
    requires
        forall|u: Address| users.contains(u) ==> list.contains(u),
    ensures
        added(list, users) == list,
    decreases users.len(),
{
    if users.len() > 0 {
        assert forall|u: Address| users.drop_last().contains(u) implies list.contains(u) by {
            let k = choose|k: int| 0 <= k < users.drop_last().len() && users.drop_last()[k] == u;
            assert(users[k] == u);
        }
        lemma_added_all_present(list, users.drop_last());
        assert(users.contains(users[users.len() - 1]));
    }
}

/// Admitting the same users twice is the same as admitting them once.
pub proof fn law_admit_idempotent(list: Seq<Address>, users: Seq<Address>)
    ensures
        added(added(list, users), users) == added(list, users),
{
    lemma_added_contents(list, users);
    lemma_added_all_present(added(list, users), users);
}

/// Removing the same users twice is the same as removing them once.
pub proof fn law_remove_idempotent(list: Seq<Address>, users: Seq<Address>)
    ensures
        removed(removed(list, users), users) == removed(list, users),
{
    let pred = |x: Address| !users.contains(x);
    let once = removed(list, users);
    lemma_removed_contents(list, users);
    assert(once.all(pred)) by {
        assert forall|i: int| 0 <= i < once.len() implies #[trigger] pred(once[i]) by {
            assert(once.contains(once[i]));
        }
    }
    lemma_filter_keeps_all(once, pred);
}

proof fn lemma_filter_keeps_all(s: Seq<Address>, pred: spec_fn(Address) -> bool)
    requires
        s.all(pred),
    ensures
        s.filter(pred) == s,
    decreases s.len(),
{
    reveal(Seq::filter);
    if s.len() > 0 {
        let rest = s.drop_last();
        assert(rest.all(pred)) by {
            assert forall|i: int| 0 <= i < rest.len() implies #[trigger] pred(rest[i]) by {
                assert(rest[i] == s[i]);
            }
        }
        lemma_filter_keeps_all(rest, pred);
        assert(pred(s[s.len() - 1]));
        assert(rest.push(s.last()) =~= s);
    }
}

/// What `added` appends lies after the old list and is drawn from `users`.
proof fn lemma_added_tail(list: Seq<Address>, users: Seq<Address>)
    ensures
        added(list, users) =~= list + added(list, users).subrange(list.len() as int, added(list, users).len() as int),
        forall|k: int| list.len() <= k < added(list, users).len() ==> users.contains(#[trigger] added(list, users)[k]),
    decreases users.len(),
{
    lemma_added_contents(list, users);
    if users.len() > 0 {
        let prev = added(list, users.drop_last());
        lemma_added_tail(list, users.drop_last());
        assert forall|k: int| list.len() <= k < added(list, users).len()
            implies users.contains(#[trigger] added(list, users)[k]) by {
            if k < prev.len() {
                assert(added(list, users)[k] == prev[k]);
                let u = prev[k];
                assert(users.drop_last().contains(u));
                let j = choose|j: int| 0 <= j < users.drop_last().len() && users.drop_last()[j] == u;
                assert(users[j] == u);
            } else {
                assert(added(list, users)[k] == users.last());
                assert(users[users.len() - 1] == users.last());
            }
        }
    }
}

/// Removing users right after admitting them leaves the list as removing
/// them alone would: in particular, admitting and then removing users who
/// were not listed gives back the list as it was.
pub proof fn law_remove_undoes_admit(list: Seq<Address>, users: Seq<Address>)
    ensures
        removed(added(list, users), users) == removed(list, users),
        (forall|u: Address| users.contains(u) ==> !list.contains(u))
            ==> removed(added(list, users), users) == list,
{
    let pred = |x: Address| !users.contains(x);
    let both = added(list, users);
    let tail = both.subrange(list.len() as int, both.len() as int);
    lemma_added_contents(list, users);
    lemma_added_tail(list, users);
    Seq::filter_distributes_over_add(list, tail, pred);
    assert(tail.all(|x: Address| !pred(x))) by {
        assert forall|i: int| 0 <= i < tail.len() implies !pred(#[trigger] tail[i]) by {
            assert(tail[i] == both[list.len() + i]);
        }
    }
    tail.lemma_all_neg_filter_empty(pred);
    assert(list.filter(pred) + tail.filter(pred) =~= list.filter(pred));
    assert(list + tail == both);
    if forall|u: Address| users.contains(u) ==> !list.contains(u) {
        assert(list.all(pred)) by {
            assert forall|i: int| 0 <= i < list.len() implies #[trigger] pred(list[i]) by {
                assert(list.contains(list[i]));
            }
        }
        lemma_filter_keeps_all(list, pred);
    }
}

/// An auction that was set up successfully cannot be over without having
/// begun: at every moment at which it is over, it has also started.
pub proof fn law_set_up_auction_starts_before_it_ends(
    auction: Auction,
    auction_token: Address,
    admin: Address,
    args: InitAuctionArgs,
    now: i64,
)
    requires
        args.start_time < args.end_time,
        auction.initialized_from(params_of(auction_token, admin, args)),
    ensures
        auction.spec_is_ended(now) ==> auction.spec_is_started(now),
{
}

/// A purchase goes through only inside the sale's window, for a listed
/// buyer, within the buyer's limit and within what the pool holds; so no
/// sale takes a buyer past the limit or the pool below nothing.
pub proof fn law_purchase_only_when_allowed(
    auction: Auction,
    whitelist: Whitelist,
    buyer: Consumer,
    user: Address,
    amount: u64,
    now: i64,
)
    requires
        purchase_refusal(auction, whitelist, buyer, user, amount, now) is None,
    ensures
        auction.start_time < now <= auction.end_time,
        whitelist.whitelist_addresses@.contains(user),
        buyer.token_purchased + amount <= auction.token_details.purchase_limit,
        amount <= auction.token_details.tokens_in_pool,
{
}

/// The purchase is refused for the buyer's limit exactly when the window
/// and the whitelist let it through and the buyer's own limit check says
/// the limit would be exceeded.
pub proof fn law_limit_refusal_matches_buyer_check(
    auction: Auction,
    whitelist: Whitelist,
    buyer: Consumer,
    user: Address,
    amount: u64,
    now: i64,
)
    ensures
        (purchase_refusal(auction, whitelist, buyer, user, amount, now)
            == Some(AuctionError::PurchaseLimitExceeded)) <==> ({
            &&& !auction.spec_is_ended(now) && auction.spec_is_started(now)
            &&& whitelist.whitelist_addresses@.contains(user)
            &&& buyer.spec_buy_limit_exceeded(amount, auction.token_details.purchase_limit)
        }),
{
}

/// A withdrawal goes through only once the sale is over, and it moves
/// lamports from the vault to the admin without making or losing any.
pub proof fn law_withdrawal_after_end_keeps_lamports(
    auction: Auction,
    now: i64,
    vault_lamports: u64,
    admin_lamports: u64,
)
    ensures
        withdrawal_outcome(auction, now, vault_lamports, admin_lamports) matches Ok(w) ==> {
            &&& auction.end_time < now
            &&& w.vault_lamports + w.admin_lamports == vault_lamports + admin_lamports
            &&& w.admin_lamports == admin_lamports + auction.sol_accumulated
            &&& w.tokens_to_transfer == auction.token_details.tokens_in_pool
        },
{
}

/// At no moment can both a purchase and the withdrawal go through on the
/// same auction: one needs the sale running, the other needs it over.
pub proof fn law_purchase_and_withdrawal_exclusive(
    auction: Auction,
    whitelist: Whitelist,
    buyer: Consumer,
    user: Address,
    amount: u64,
    now: i64,
    vault_lamports: u64,
    admin_lamports: u64,
)
    ensures
        !(purchase_refusal(auction, whitelist, buyer, user, amount, now) is None
            && withdrawal_outcome(auction, now, vault_lamports, admin_lamports) is Ok),
{
}

} // verus!

verus! {

/// An auction set up from `params` holds exactly what it was given, each
/// field on its own: the owner, name, window, pool, per-buyer limit, price
/// and token are the ones passed in, and nothing has been collected yet.
pub proof fn law_set_up_auction_holds_its_parameters(auction: Auction, params: InitAuctionParams)
    requires
        auction.initialized_from(params),
    ensures
        auction.owner == params.admin,
        auction.name@ == params.name@,
        auction.start_time == params.start_time,
        auction.end_time == params.end_time,
        auction.sol_accumulated == 0,
        auction.token_details.auction_token == params.auction_token,
        auction.token_details.tokens_in_pool == params.tokens_in_pool,
        auction.token_details.purchase_limit == params.purchase_limit,
        auction.token_details.price_per_token == params.price_per_token,
{
}

/// The init instruction, when it succeeds, sets the auction up with exactly
/// the arguments given, whatever the pool.
pub proof fn law_init_instruction_stores_arguments(
    auction: Auction,
    auction_token: Address,
    admin: Address,
    args: InitAuctionArgs,
)
    requires
        auction.initialized_from(params_of(auction_token, admin, args)),
    ensures
        auction.owner == admin,
        auction.token_details.auction_token == auction_token,
        auction.start_time == args.start_time,
        auction.end_time == args.end_time,
        auction.token_details.tokens_in_pool == args.tokens_in_pool,
        auction.token_details.purchase_limit == args.purchase_limit,
        auction.token_details.price_per_token == args.price_per_token,
        auction.sol_accumulated == 0,
{
}

/// A purchase is refused for exactly these reasons, each checked only once
/// the ones before it pass: the moment lies outside `start_time < now <=
/// end_time`; the buyer is not listed; the buyer's total would pass the
/// limit; the amount itself is more than the pool holds. When none holds,
/// the purchase is not refused.
pub proof fn law_purchase_refused_exactly_for_its_reasons(
    auction: Auction,
    whitelist: Whitelist,
    buyer: Consumer,
    user: Address,
    amount: u64,
    now: i64,
)
    ensures
        ({
            let refusal = purchase_refusal(auction, whitelist, buyer, user, amount, now);
            let in_window = auction.start_time < now && now <= auction.end_time;
            let listed = whitelist.whitelist_addresses@.contains(user);
            let within_limit = buyer.token_purchased + amount <= auction.token_details.purchase_limit;
            let within_pool = amount <= auction.token_details.tokens_in_pool;
            &&& (refusal == Some(AuctionError::InvalidAuctionTime)) <==> !in_window
            &&& (refusal == Some(AuctionError::UserNotWhitelisted)) <==> (in_window && !listed)
            &&& (refusal == Some(AuctionError::PurchaseLimitExceeded)) <==> (in_window && listed && !within_limit)
            &&& (refusal == Some(AuctionError::InsufficientTokens))
                <==> (in_window && listed && within_limit && !within_pool)
            &&& (refusal is None) <==> (in_window && listed && within_limit && within_pool)
        }),
{
}

/// Ten to the power `n`, as vstd's `pow` computes it.
pub proof fn law_pow10_is_power_of_ten(n: nat)
    ensures
        pow10(n) == vstd::arithmetic::power::pow(10, n),
    decreases n,
{
    reveal(vstd::arithmetic::power::pow);
    if n > 0 {
        law_pow10_is_power_of_ten((n - 1) as nat);
    }
}

/// The lamport cost of a purchase is the number of whole tokens bought,
/// a whole token being `10^decimals` base units and any remainder below a
/// whole token being free, times the price: buying `k` whole tokens and `r`
/// base units more (`r < 10^decimals`) costs exactly `k * price`.
pub proof fn law_cost_is_whole_tokens_times_price(amount: u64, decimals: u8, price: u64, k: nat, r: nat)
    requires
        r < vstd::arithmetic::power::pow(10, decimals as nat),
        amount == k * vstd::arithmetic::power::pow(10, decimals as nat) + r,
    ensures
        sol_cost(amount, decimals, price) == k * price,
        sol_cost(amount, decimals, price)
            == (amount as int / vstd::arithmetic::power::pow(10, decimals as nat)) * price,
{
    law_pow10_is_power_of_ten(decimals as nat);
    let u = vstd::arithmetic::power::pow(10, decimals as nat);
    lemma_pow10_monotone(0, decimals as nat);
    vstd::arithmetic::div_mod::lemma_fundamental_div_mod_converse(amount as int, u, k as int, r as int);
}

/// The purchase runs out of range only where a computed value really does:
/// it is never reported for a purchase refused by the window or the
/// whitelist; it is reported when the buyer's total would not fit; and a
/// purchase that is not refused, whose token has at most 19 decimals and
/// whose cost and new collected sum fit in a `u64`, does not run out.
pub proof fn law_overflow_only_when_a_value_does_not_fit(
    auction: Auction,
    whitelist: Whitelist,
    buyer: Consumer,
    user: Address,
    amount: u64,
    now: i64,
    decimals: u8,
)
    ensures
        !(auction.start_time < now && now <= auction.end_time)
            ==> !purchase_overflows(auction, whitelist, buyer, user, amount, now, decimals),
        !whitelist.whitelist_addresses@.contains(user)
            ==> !purchase_overflows(auction, whitelist, buyer, user, amount, now, decimals),
        (auction.start_time < now && now <= auction.end_time
            && whitelist.whitelist_addresses@.contains(user)
            && buyer.token_purchased + amount > u64::MAX)
            ==> purchase_overflows(auction, whitelist, buyer, user, amount, now, decimals),
        (purchase_refusal(auction, whitelist, buyer, user, amount, now) is None
            && decimals <= 19
            && (amount as int / vstd::arithmetic::power::pow(10, decimals as nat)) * auction.token_details.price_per_token <= u64::MAX
            && auction.sol_accumulated + (amount as int / vstd::arithmetic::power::pow(10, decimals as nat))
                * auction.token_details.price_per_token <= u64::MAX)
            ==> !purchase_overflows(auction, whitelist, buyer, user, amount, now, decimals),
{
    law_pow10_is_power_of_ten(decimals as nat);
}

/// Once the sale is over, the withdrawal is refused only when a lamport
/// balance would leave the range of a `u64`; otherwise it hands the admin
/// the whole pool (possibly nothing) and the lamports collected (possibly
/// none), taken from the vault. Before the end it is refused for the time.
pub proof fn law_withdrawal_refused_only_for_time_or_range(
    auction: Auction,
    now: i64,
    vault_lamports: u64,
    admin_lamports: u64,
)
    ensures
        now <= auction.end_time ==> withdrawal_outcome(auction, now, vault_lamports, admin_lamports)
            == Err::<Withdrawal, WithdrawError>(WithdrawError::Auction(AuctionError::InvalidAuctionTime)),
        (auction.end_time < now
            && (vault_lamports < auction.sol_accumulated
                || admin_lamports + auction.sol_accumulated > u64::MAX))
            ==> withdrawal_outcome(auction, now, vault_lamports, admin_lamports)
                == Err::<Withdrawal, WithdrawError>(WithdrawError::InvalidArgument),
        (auction.end_time < now
            && vault_lamports >= auction.sol_accumulated
            && admin_lamports + auction.sol_accumulated <= u64::MAX)
            ==> withdrawal_outcome(auction, now, vault_lamports, admin_lamports)
                == Ok::<Withdrawal, WithdrawError>(Withdrawal {
                    tokens_to_transfer: auction.token_details.tokens_in_pool,
                    vault_lamports: (vault_lamports - auction.sol_accumulated) as u64,
                    admin_lamports: (admin_lamports + auction.sol_accumulated) as u64,
                }),
{
}

} // verus!

verus! {

/// Admitting users who are all new and all different appends them to the
/// list in the order given.
pub proof fn law_new_users_are_appended_in_order(list: Seq<Address>, users: Seq<Address>)
    requires
        no_duplicates(users),
        forall|u: Address| users.contains(u) ==> !list.contains(u),
    ensures
        added(list, users) == list + users,
    decreases users.len(),
{
    if users.len() == 0 {
        assert(list + users =~= list);
    } else {
        let rest = users.drop_last();
        assert(no_duplicates(rest)) by {
            assert forall|i: int, j: int| 0 <= i < rest.len() && 0 <= j < rest.len() && i != j
                implies rest[i] != rest[j] by {
                assert(rest[i] == users[i] && rest[j] == users[j]);
            }
        }
        assert forall|u: Address| rest.contains(u) implies !list.contains(u) by {
            let k = choose|k: int| 0 <= k < rest.len() && rest[k] == u;
            assert(users[k] == u);
        }
        law_new_users_are_appended_in_order(list, rest);
        let last = users.last();
        assert(users[users.len() - 1] == last);
        assert(!list.contains(last));
        assert(!rest.contains(last)) by {
            if rest.contains(last) {
                let k = choose|k: int| 0 <= k < rest.len() && rest[k] == last;
                assert(users[k] == users[users.len() - 1]);
            }
        }
        assert(!(list + rest).contains(last)) by {
            if (list + rest).contains(last) {
                let k = choose|k: int| 0 <= k < (list + rest).len() && (list + rest)[k] == last;
                if k < list.len() {
                    assert(list[k] == last);
                } else {
                    assert(rest[k - list.len()] == last);
                }
            }
        }
        assert((list + rest).push(last) =~= list + users);
    }
}

/// A purchase that is refused, and whose buyer total fits in a `u64`, is
/// never reported as running out of range.
pub proof fn law_refused_purchase_does_not_overflow(
    auction: Auction,
    whitelist: Whitelist,
    buyer: Consumer,
    user: Address,
    amount: u64,
    now: i64,
    decimals: u8,
)
    requires
        purchase_refusal(auction, whitelist, buyer, user, amount, now) is Some,
        buyer.token_purchased + amount <= u64::MAX,
    ensures
        !purchase_overflows(auction, whitelist, buyer, user, amount, now, decimals),
{
}

} // verus!
