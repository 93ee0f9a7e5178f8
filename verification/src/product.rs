//! Products: the leaf entity a service points at.

pub mod metered;
pub mod product_list;

use vstd::prelude::*;

use crate::record::attr_or;
use crate::record::Record;
use crate::text::digits_val;
use crate::text::lemma_small_digit_literals;
use crate::text::parse_u128;
use crate::text::parse_uint_spec;

verus! {

/// A product: an addressable offering with a served-request counter.
#[derive(Debug)]
pub struct Product {
    pub id: u128,
    pub slug: String,
    pub requests: u128,
}

/// The model of a [`Product`].
pub ghost struct ProductView {
    pub id: u128,
    pub slug: Seq<char>,
    pub requests: u128,
}

impl View for Product {
    type V = ProductView;

    open spec fn view(&self) -> ProductView {
        ProductView { id: self.id, slug: self.slug@, requests: self.requests }
    }
}

/// What [`Product::fake`] builds from an attribute map.
pub open spec fn product_fake_spec(m: Map<Seq<char>, Seq<char>>) -> ProductView {
    ProductView {
        id: digits_val(attr_or(m, "price"@, "1"@)) as u128,
        slug: attr_or(m, "slug"@, "default_product"@),
        requests: digits_val(attr_or(m, "requests"@, "10"@)) as u128,
    }
}

impl Product {
    /// Build a product from explicit attributes, with defaults for
    /// whatever is absent; meant for composing tests. The id is read from
    /// the `price` attribute, as its callers supply it.
    pub fn fake(attr: &Record) -> (r: Product)
        requires
            attr@.contains_key("price"@) ==> parse_uint_spec(attr@["price"@], u128::MAX as nat)
                is Some,
            attr@.contains_key("requests"@) ==> parse_uint_spec(
                attr@["requests"@],
                u128::MAX as nat,
            ) is Some,
        ensures
            r@ == product_fake_spec(attr@),
    {
        proof {
            lemma_small_digit_literals();
        }
        let id: u128 = match attr.get("price") {
            Some(v) => match parse_u128(v.as_str()) {
                Some(n) => n,
                None => {
                    proof {
                        assert(false);
                    }
                    0
                },
            },
            None => 1,
        };
        let slug: String = match attr.get("slug") {
            Some(v) => v,
            None => String::from_str("default_product"),
        };
        let requests: u128 = match attr.get("requests") {
            Some(v) => match parse_u128(v.as_str()) {
                Some(n) => n,
                None => {
                    proof {
                        assert(false);
                    }
                    0
                },
            },
            None => 10,
        };
        Product { id, slug, requests }
    }

    /// Count `amount` more served requests: refused only when the sum
    /// would not fit.
    pub fn add_request(&mut self, amount: u128) -> (r: Option<()>)
        ensures
            match r {
                Some(_) => old(self).requests + amount <= u128::MAX && final(self).requests == old(
                    self,
                ).requests + amount,
                None => old(self).requests + amount > u128::MAX && final(self).requests == old(
                    self,
                ).requests,
            },
            final(self).id == old(self).id,
            final(self).slug == old(self).slug,
    {
        if amount > u128::MAX - self.requests {
            return None;
        }
        self.requests = self.requests + amount;
        Some(())
    }
}

} // verus!
