//! Subscribers and their subscriptions. A subscriber's `subscription`
//! field is a foreign key: conversion resolves it by opening a fresh
//! store for the subscriptions table.

pub mod subscriber_list;

use vstd::prelude::*;

use crate::db::SourceView;
use crate::errors::Fatal;
use crate::errors::FatalView;
use crate::provider::StoreProvider;
use crate::record::attr_or;
use crate::record::Record;
use crate::store::get_by_attr_spec;
use crate::store::get_table_instance;
use crate::store::SyncTable;
use crate::text::dec_rep;
use crate::text::digits_val;
use crate::text::lemma_small_digit_literals;
use crate::text::parse_u128;
use crate::text::parse_u8;
use crate::text::parse_uint_spec;

use self::subscriber_list::SubscriptionList;

verus! {

/// A subscription plan: quota and price bookkeeping for one subscriber.
#[derive(Debug)]
pub struct Subscription {
    pub id: u128,
    pub name: String,
    pub status: u8,
    pub price: u128,
    pub quota: u128,
    pub expiry_date: String,
}

/// The model of a [`Subscription`].
pub ghost struct SubscriptionView {
    pub id: u128,
    pub name: Seq<char>,
    pub status: u8,
    pub price: u128,
    pub quota: u128,
    pub expiry_date: Seq<char>,
}

impl View for Subscription {
    type V = SubscriptionView;

    open spec fn view(&self) -> SubscriptionView {
        SubscriptionView {
            id: self.id,
            name: self.name@,
            status: self.status,
            price: self.price,
            quota: self.quota,
            expiry_date: self.expiry_date@,
        }
    }
}

/// What [`Subscription::fake`] builds from an attribute map.
pub open spec fn subscription_fake_spec(m: Map<Seq<char>, Seq<char>>) -> SubscriptionView {
    SubscriptionView {
        id: digits_val(attr_or(m, "id"@, "1"@)) as u128,
        name: attr_or(m, "name"@, "default_service"@),
        status: digits_val(attr_or(m, "status"@, "0"@)) as u8,
        price: digits_val(attr_or(m, "price"@, "1"@)) as u128,
        quota: digits_val(attr_or(m, "quota"@, "1"@)) as u128,
        expiry_date: attr_or(m, "expiry_date"@, "2001-01-01 00:00:00"@),
    }
}

impl Subscription {
    /// Build a subscription from explicit attributes, with defaults for
    /// whatever is absent; meant for composing tests.
    pub fn fake(attr: &Record) -> (r: Subscription)
        requires
            attr@.contains_key("id"@) ==> parse_uint_spec(attr@["id"@], u128::MAX as nat)
                is Some,
            attr@.contains_key("status"@) ==> parse_uint_spec(attr@["status"@], u8::MAX as nat)
                is Some,
            attr@.contains_key("price"@) ==> parse_uint_spec(attr@["price"@], u128::MAX as nat)
                is Some,
            attr@.contains_key("quota"@) ==> parse_uint_spec(attr@["quota"@], u128::MAX as nat)
                is Some,
        ensures
            r@ == subscription_fake_spec(attr@),
    {
        proof {
            lemma_small_digit_literals();
        }
        let id: u128 = match attr.get("id") {
            Some(v) => match parse_u128(v.as_str()) {
                Some(n) => n,
                None => {
                    proof {
                        assert(false);
                    }
                    0
                },
            },
            None => 1,
        };
        let name: String = match attr.get("name") {
            Some(v) => v,
            None => String::from_str("default_service"),
        };
        let status: u8 = match attr.get("status") {
            Some(v) => match parse_u8(v.as_str()) {
                Some(n) => n,
                None => {
                    proof {
                        assert(false);
                    }
                    0
                },
            },
            None => 0,
        };
        let price: u128 = match attr.get("price") {
            Some(v) => match parse_u128(v.as_str()) {
                Some(n) => n,
                None => {
                    proof {
                        assert(false);
                    }
                    0
                },
            },
            None => 1,
        };
        let quota: u128 = match attr.get("quota") {
            Some(v) => match parse_u128(v.as_str()) {
                Some(n) => n,
                None => {
                    proof {
                        assert(false);
                    }
                    0
                },
            },
            None => 1,
        };
        let expiry_date: String = match attr.get("expiry_date") {
            Some(v) => v,
            None => String::from_str("2001-01-01 00:00:00"),
        };
        Subscription { id, name, status, price, quota, expiry_date }
    }

    /// Spend `amount` of the quota: refused, leaving the quota unchanged,
    /// when less than `amount` is left.
    pub fn decrease_quota(&mut self, amount: u128) -> (r: Option<()>)
        ensures
            match r {
                Some(_) => amount <= old(self).quota && final(self).quota == old(self).quota
                    - amount,
                None => amount > old(self).quota && final(self).quota == old(self).quota,
            },
            final(self).id == old(self).id,
            final(self).name == old(self).name,
            final(self).status == old(self).status,
            final(self).price == old(self).price,
            final(self).expiry_date == old(self).expiry_date,
    {
        if amount > self.quota {
            return None;
        }
        self.quota = self.quota - amount;
        Some(())
    }

    /// Grant `amount` more quota: refused only when the sum would not fit.
    pub fn add_quota(&mut self, amount: u128) -> (r: Option<()>)
        ensures
            match r {
                Some(_) => old(self).quota + amount <= u128::MAX && final(self).quota == old(
                    self,
                ).quota + amount,
                None => old(self).quota + amount > u128::MAX && final(self).quota == old(
                    self,
                ).quota,
            },
            final(self).id == old(self).id,
            final(self).name == old(self).name,
            final(self).status == old(self).status,
            final(self).price == old(self).price,
            final(self).expiry_date == old(self).expiry_date,
    {
        if amount > u128::MAX - self.quota {
            return None;
        }
        self.quota = self.quota + amount;
        Some(())
    }
}

/// A subscriber: the holder of one subscription.
#[derive(Debug)]
pub struct Subscriber {
    pub id: u128,
    pub name: String,
    pub subscription: Subscription,
}

/// The model of a [`Subscriber`].
pub ghost struct SubscriberView {
    pub id: u128,
    pub name: Seq<char>,
    pub subscription: SubscriptionView,
}

impl View for Subscriber {
    type V = SubscriberView;

    open spec fn view(&self) -> SubscriberView {
        SubscriberView { id: self.id, name: self.name@, subscription: self.subscription@ }
    }
}

/// What resolving a subscription foreign key yields: the converted
/// related entity, or a fatal failure naming the id and table when the
/// related lookup misses.
pub open spec fn fetch_subscription_spec(
    p: Map<Seq<char>, Seq<char>>,
    src: SourceView,
    table: Seq<char>,
    id: u128,
) -> Result<SubscriptionView, FatalView> {
    match get_by_attr_spec::<Subscription>(p, src, "id"@, dec_rep(id as nat)) {
        Ok(Some(s)) => Ok(s),
        Ok(None) => Err(FatalView::RelatedEntityNotFound { id, table }),
        Err(f) => Err(f),
    }
}

/// A foreign key naming an id absent from the related table fails
/// fatally, and the failure names that id and the related table.
pub proof fn lemma_dangling_subscription_is_fatal(
    p: Map<Seq<char>, Seq<char>>,
    sid: u128,
    recs: Seq<Map<Seq<char>, Seq<char>>>,
)
    requires
        crate::db::source_records(p, SourceView::Named("subscriptions"@)) == Ok::<
            Seq<Map<Seq<char>, Seq<char>>>,
            crate::errors::DbErrorView,
        >(recs),
        forall|i: int|
            0 <= i < recs.len() ==> !crate::db::record_matches(
                #[trigger] recs[i],
                "id"@,
                dec_rep(sid as nat),
            ),
    ensures
        fetch_subscription_spec(p, SourceView::Named("subscriptions"@), "subscriptions"@, sid)
            == Err::<SubscriptionView, FatalView>(
            FatalView::RelatedEntityNotFound { id: sid, table: "subscriptions"@ },
        ),
{
    crate::db::lemma_find_first_none(recs, "id"@, dec_rep(sid as nat));
}

/// What [`Subscriber::fake`] builds from an attribute map.
pub open spec fn subscriber_fake_spec(m: Map<Seq<char>, Seq<char>>) -> SubscriberView {
    SubscriberView {
        id: digits_val(attr_or(m, "id"@, "1"@)) as u128,
        name: attr_or(m, "name"@, "default_service"@),
        subscription: subscription_fake_spec(
            if m.contains_key("subscription"@) {
                Map::empty().insert("id"@, m["subscription"@])
            } else {
                Map::empty()
            },
        ),
    }
}

impl Subscriber {
    /// Build a subscriber, resolving its subscription through the provider.
    pub fn new(provider: &StoreProvider, id: u128, name: String, subscription_id: u128) -> (r:
        Result<Subscriber, Fatal>)
        ensures
            (match r {
                Ok(s) => {
                    &&& s.id == id
                    &&& s.name == name
                    &&& fetch_subscription_spec(
                        provider@,
                        SourceView::Named("subscriptions"@),
                        "subscriptions"@,
                        subscription_id,
                    ) == Ok::<SubscriptionView, FatalView>(s.subscription@)
                },
                Err(f) => fetch_subscription_spec(
                    provider@,
                    SourceView::Named("subscriptions"@),
                    "subscriptions"@,
                    subscription_id,
                ) == Err::<SubscriptionView, FatalView>(f@),
            }),
    {
        match Subscriber::fetch_subscription(
            get_table_instance("subscriptions"),
            provider,
            subscription_id,
        ) {
            Ok(subscription) => Ok(Subscriber { id, name, subscription }),
            Err(f) => Err(f),
        }
    }

    /// Build a subscriber from explicit attributes, faking the related
    /// subscription rather than resolving it; meant for composing tests.
    pub fn fake(attr: &Record) -> (r: Subscriber)
        requires
            attr@.contains_key("id"@) ==> parse_uint_spec(attr@["id"@], u128::MAX as nat)
                is Some,
            attr@.contains_key("subscription"@) ==> parse_uint_spec(
                attr@["subscription"@],
                u128::MAX as nat,
            ) is Some,
        ensures
            r@ == subscriber_fake_spec(attr@),
    {
        proof {
            lemma_small_digit_literals();
        }
        let id: u128 = match attr.get("id") {
            Some(v) => match parse_u128(v.as_str()) {
                Some(n) => n,
                None => {
                    proof {
                        assert(false);
                    }
                    0
                },
            },
            None => 1,
        };
        let name: String = match attr.get("name") {
            Some(v) => v,
            None => String::from_str("default_service"),
        };
        let subscription = match attr.get("subscription") {
            Some(subscription_id) => {
                let mut inner = Record::new();
                inner.insert("id", subscription_id.as_str());
                proof {
                    reveal_strlit("id");
                    reveal_strlit("status");
                    reveal_strlit("price");
                    reveal_strlit("quota");
                    assert("id"@.len() == 2);
                    assert("status"@.len() == 6);
                    assert("price"@.len() == 5);
                    assert("quota"@.len() == 5 && "quota"@[0] == 'q' && "price"@[0] == 'p');
                    assert("id"@ != "status"@ && "id"@ != "price"@ && "id"@ != "quota"@);
                }
                Subscription::fake(&inner)
            },
            None => Subscription::fake(&Record::new()),
        };
        Subscriber { id, name, subscription }
    }

    /// Resolve a subscription id against the given store; a miss is fatal
    /// and names the id and the store's table.
    pub fn fetch_subscription(db: SyncTable, provider: &StoreProvider, subscription_id: u128) -> (r:
        Result<Subscription, Fatal>)
        ensures
            (match r {
                Ok(s) => fetch_subscription_spec(provider@, db.src(), db.name(), subscription_id)
                    == Ok::<SubscriptionView, FatalView>(s@),
                Err(f) => fetch_subscription_spec(
                    provider@,
                    db.src(),
                    db.name(),
                    subscription_id,
                ) == Err::<SubscriptionView, FatalView>(f@),
            }),
    {
        let table = db.table_name();
        let subscription_list = SubscriptionList::new(db);
        match subscription_list.get_by_id(provider, subscription_id) {
            Ok(Some(s)) => Ok(s),
            Ok(None) => Err(Fatal::RelatedEntityNotFound { id: subscription_id, table }),
            Err(f) => Err(f),
        }
    }
}

} // verus!
