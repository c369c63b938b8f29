use vstd::prelude::*;

use crate::address::Address;

verus! {

/// The addresses that may buy from one auction, in the order they were
/// admitted.
#[derive(Clone, Debug)]
pub struct Whitelist {
    pub whitelist_addresses: Vec<Address>,
}

/// `list` with each of `users` appended in turn, unless it is already there
/// by then.
pub open spec fn added(list: Seq<Address>, users: Seq<Address>) -> Seq<Address>
    decreases users.len(),
{
    if users.len() == 0 {
        list
    } else {
        let prev = added(list, users.drop_last());
        if prev.contains(users.last()) {
            prev
        } else {
            prev.push(users.last())
        }
    }
}

/// `list` without any address that occurs in `users`, the rest in order.
pub open spec fn removed(list: Seq<Address>, users: Seq<Address>) -> Seq<Address> {
    list.filter(|x: Address| !users.contains(x))
}

/// No address occurs twice in `list`.
pub open spec fn no_duplicates(list: Seq<Address>) -> bool {
    forall|i: int, j: int| 0 <= i < list.len() && 0 <= j < list.len() && i != j
        ==> list[i] != list[j]
}

/// What `added` holds: exactly the addresses of `list` and of `users`, with
/// `list` kept in front.
pub proof fn lemma_added_contents(list: Seq<Address>, users: Seq<Address>)
    ensures
        forall|a: Address| #[trigger] added(list, users).contains(a)
            <==> (list.contains(a) || users.contains(a)),
        added(list, users).len() >= list.len(),
        added(list, users).subrange(0, list.len() as int) == list,
    decreases users.len(),
{
    if users.len() > 0 {
        let prev = added(list, users.drop_last());
        lemma_added_contents(list, users.drop_last());
        assert forall|a: Address| #[trigger] added(list, users).contains(a)
            <==> (list.contains(a) || users.contains(a)) by {
            if users.contains(a) && !users.drop_last().contains(a) {
                let k = choose|k: int| 0 <= k < users.len() && users[k] == a;
                if k < users.len() - 1 {
                    assert(users.drop_last()[k] == a);
                }
            }
            if users.drop_last().contains(a) {
                let k = choose|k: int| 0 <= k < users.drop_last().len() && users.drop_last()[k] == a;
                assert(users[k] == a);
            }
            if !prev.contains(users.last()) {
                assert(prev.push(users.last())[prev.len() as int] == users.last());
                if prev.push(users.last()).contains(a) && a != users.last() {
                    let k = choose|k: int| 0 <= k < prev.push(users.last()).len()
                        && prev.push(users.last())[k] == a;
                    assert(prev[k] == a);
                }
                if prev.contains(a) {
                    let k = choose|k: int| 0 <= k < prev.len() && prev[k] == a;
                    assert(prev.push(users.last())[k] == a);
                }
            }
            assert(users[users.len() - 1] == users.last());
        }
        if !prev.contains(users.last()) {
            assert(prev.push(users.last()).subrange(0, list.len() as int)
                =~= prev.subrange(0, list.len() as int));
        }
    } else {
        assert(list.subrange(0, list.len() as int) =~= list);
    }
}

/// Appending with `added` keeps a list free of duplicates.
pub proof fn lemma_added_no_duplicates(list: Seq<Address>, users: Seq<Address>)
    requires
        no_duplicates(list),
    ensures
        no_duplicates(added(list, users)),
    decreases users.len(),
{
    if users.len() > 0 {
        let prev = added(list, users.drop_last());
        lemma_added_no_duplicates(list, users.drop_last());
        if !prev.contains(users.last()) {
            let next = prev.push(users.last());
            assert forall|i: int, j: int| 0 <= i < next.len() && 0 <= j < next.len() && i != j
                implies next[i] != next[j] by {
                if i == prev.len() {
                    assert(prev[j] == next[j]);
                } else if j == prev.len() {
                    assert(prev[i] == next[i]);
                }
            }
        }
    }
}

/// Removing keeps a list free of duplicates, and leaves exactly the
/// addresses of `list` that are not in `users`.
pub proof fn lemma_removed_contents(list: Seq<Address>, users: Seq<Address>)
    ensures
        forall|a: Address| #[trigger] removed(list, users).contains(a)
            <==> (list.contains(a) && !users.contains(a)),
        no_duplicates(list) ==> no_duplicates(removed(list, users)),
    decreases list.len(),
{
    broadcast use Seq::lemma_filter_contains_rev, Seq::lemma_filter_contains, Seq::lemma_filter_pred;
    let pred = |x: Address| !users.contains(x);
    assert forall|a: Address| #[trigger] removed(list, users).contains(a)
        <==> (list.contains(a) && !users.contains(a)) by {
        if list.contains(a) && !users.contains(a) {
            let k = choose|k: int| 0 <= k < list.len() && list[k] == a;
            list.lemma_filter_contains(pred, k);
        }
        if removed(list, users).contains(a) {
            list.lemma_filter_contains_rev(pred, a);
            let k = choose|k: int| 0 <= k < removed(list, users).len() && removed(list, users)[k] == a;
            list.lemma_filter_pred(pred, k);
        }
    }
    if no_duplicates(list) && list.len() > 0 {
        reveal(Seq::filter);
        let rest = list.drop_last();
        lemma_removed_contents(rest, users);
        assert(no_duplicates(rest)) by {
            assert forall|i: int, j: int| 0 <= i < rest.len() && 0 <= j < rest.len() && i != j
                implies rest[i] != rest[j] by {
                assert(rest[i] == list[i] && rest[j] == list[j]);
            }
        }
        let sub = removed(rest, users);
        assert(list.filter(pred) == if pred(list.last()) { rest.filter(pred).push(list.last()) } else { rest.filter(pred) });
        assert(rest.filter(pred) == sub);
        if pred(list.last()) {
            assert(!rest.contains(list.last())) by {
                if rest.contains(list.last()) {
                    let k = choose|k: int| 0 <= k < rest.len() && rest[k] == list.last();
                    assert(list[k] == list[list.len() - 1]);
                }
            }
            assert(!sub.contains(list.last()));
            let next = sub.push(list.last());
            assert forall|i: int, j: int| 0 <= i < next.len() && 0 <= j < next.len() && i != j
                implies next[i] != next[j] by {
                if i == sub.len() {
                    assert(sub[j] == next[j]);
                    assert(sub.contains(sub[j]));
                } else if j == sub.len() {
                    assert(sub[i] == next[i]);
                    assert(sub.contains(sub[i]));
                }
            }
        }
    }
}

fn list_contains(list: &Vec<Address>, address: &Address) -> (r: bool)
    ensures
        r == list@.contains(*address),
{
    let n = list.len();
    let mut i: usize = 0;
    while i < n
        invariant
            n == list.len(),
            0 <= i <= n,
            forall|j: int| 0 <= j < i ==> list@[j] != *address,
        decreases n - i,
    {
        if list[i] == *address {
            assert(list@[i as int] == *address);
            return true;
        }
        i = i + 1;
    }
    false
}

impl Default for Whitelist {
    fn default() -> (r: Whitelist)
        ensures
            r.whitelist_addresses@ == Seq::<Address>::empty(),
    {
        Whitelist { whitelist_addresses: Vec::new() }
    }
}

impl Whitelist {
    /// Appends each of `users` that is not on the list yet, in order.
    pub fn add_addressess(&mut self, users: Vec<Address>)
        ensures
            final(self).whitelist_addresses@ == added(old(self).whitelist_addresses@, users@),
    {
        let ghost start = self.whitelist_addresses@;
        let n = users.len();
        let mut i: usize = 0;
        while i < n
            invariant
                n == users.len(),
                0 <= i <= n,
                self.whitelist_addresses@ == added(start, users@.take(i as int)),
            decreases n - i,
        {
            let user = &users[i];
            proof {
                assert(users@.take(i + 1).drop_last() =~= users@.take(i as int));
                assert(users@.take(i + 1).last() == users@[i as int]);
            }
            if list_contains(&self.whitelist_addresses, user) {
                i = i + 1;
                continue;
            } else {
                self.whitelist_addresses.push(*user);
            }
            i = i + 1;
        }
        proof {
            assert(users@.take(n as int) =~= users@);
        }
    }

    /// Drops every address that occurs in `address`, keeping the rest in
    /// order.
    pub fn remove_addressess(&mut self, address: Vec<Address>)
        ensures
            final(self).whitelist_addresses@ == removed(old(self).whitelist_addresses@, address@),
    {
        let ghost pred = |x: Address| !address@.contains(x);
        if self.whitelist_addresses.len() == 0 {
            proof {
                reveal(Seq::filter);
                assert(self.whitelist_addresses@.filter(pred) =~= self.whitelist_addresses@);
            }
            return;
        }
        let n = self.whitelist_addresses.len();
        let mut kept: Vec<Address> = Vec::new();
        let mut i: usize = 0;
        while i < n
            invariant
                n == self.whitelist_addresses.len(),
                0 <= i <= n,
                pred == (|x: Address| !address@.contains(x)),
                kept@ == self.whitelist_addresses@.take(i as int).filter(pred),
            decreases n - i,
        {
            let x = self.whitelist_addresses[i];
            proof {
                reveal(Seq::filter);
                assert(self.whitelist_addresses@.take(i + 1).drop_last()
                    =~= self.whitelist_addresses@.take(i as int));
                assert(self.whitelist_addresses@.take(i + 1).last() == x);
            }
            if !list_contains(&address, &x) {
                kept.push(x);
            }
            i = i + 1;
        }
        proof {
            assert(self.whitelist_addresses@.take(n as int) =~= self.whitelist_addresses@);
        }
        self.whitelist_addresses = kept;
    }

    /// Whether `address` is on the list.
    pub fn is_whitelisted(&self, address: &Address) -> (r: bool)
        ensures
            r == self.whitelist_addresses@.contains(*address),
    {
        list_contains(&self.whitelist_addresses, address)
    }
}

} // verus!
