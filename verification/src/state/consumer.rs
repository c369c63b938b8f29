use vstd::prelude::*;

verus! {

/// What one buyer has bought from one auction.
#[derive(Clone, Copy, Debug)]
pub struct Consumer {
    pub token_purchased: u64,
}

impl Default for Consumer {
    fn default() -> (r: Consumer)
        ensures
            r.token_purchased == 0,
    {
        Consumer { token_purchased: 0 }
    }
}

impl Consumer {
    /// Buying `amount` more would take the buyer past `limit`.
    pub open spec fn spec_buy_limit_exceeded(&self, amount: u64, limit: u64) -> bool {
        self.token_purchased + amount > limit
    }

    /// Whether buying `amount` more would take the buyer past `limit`.
    pub fn buy_limit_exceeded(&mut self, amount: u64, limit: u64) -> (r: bool)
        requires
            old(self).token_purchased + amount <= u64::MAX,
        ensures
            r == old(self).spec_buy_limit_exceeded(amount, limit),
            *final(self) == *old(self),
    {
        if self.token_purchased + amount > limit {
            return true;
        }
        false
    }
}

} // verus!
