//! A product reduced to its price and served-request counter: the shape
//! the quota arithmetic works against.

use vstd::prelude::*;

verus! {

/// A metered product: what one request costs, and how many were served.
#[derive(Debug)]
pub struct Product {
    pub price: u128,
    pub requests: u128,
}

impl Product {
    /// Count `amount` more served requests: refused only when the sum
    /// would not fit.
    pub fn add_request(&mut self, amount: u128) -> (r: Option<()>)
        ensures
            match r {
                Some(_) => old(self).requests + amount <= u128::MAX && final(self).requests == old(
                    self,
                ).requests + amount,
                None => old(self).requests + amount > u128::MAX && final(self).requests == old(
                    self,
                ).requests,
            },
            final(self).price == old(self).price,
    {
        if amount > u128::MAX - self.requests {
            return None;
        }
        self.requests = self.requests + amount;
        Some(())
    }
}

} // verus!
