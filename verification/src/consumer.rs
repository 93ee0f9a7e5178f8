//! Consumers: the callers the gateway authorizes. A consumer's
//! `subscriber` field is a foreign key, resolved by opening a fresh store
//! for the subscribers table.

pub mod account;
pub mod consumer_list;
pub mod factory;

use vstd::prelude::*;

use crate::db::SourceView;
use crate::errors::Fatal;
use crate::errors::FatalView;
use crate::provider::StoreProvider;
use crate::record::attr_or;
use crate::record::Record;
use crate::store::get_by_attr_spec;
use crate::store::get_table_instance;
use crate::store::SyncTable;
use crate::subscriber::subscriber_fake_spec;
use crate::subscriber::Subscriber;
use crate::subscriber::SubscriberView;
use crate::text::dec_rep;
use crate::text::digits_val;
use crate::text::lemma_small_digit_literals;
use crate::text::parse_u128;
use crate::text::parse_uint_spec;

use crate::subscriber::subscriber_list::SubscriberList;

verus! {

/// A consumer: an access token bound to a subscriber.
#[derive(Debug)]
pub struct Consumer {
    pub id: u128,
    pub access_token: String,
    pub subscriber: Subscriber,
}

/// The model of a [`Consumer`].
pub ghost struct ConsumerView {
    pub id: u128,
    pub access_token: Seq<char>,
    pub subscriber: SubscriberView,
}

impl View for Consumer {
    type V = ConsumerView;

    open spec fn view(&self) -> ConsumerView {
        ConsumerView {
            id: self.id,
            access_token: self.access_token@,
            subscriber: self.subscriber@,
        }
    }
}

/// What resolving a subscriber foreign key yields: the converted related
/// entity, or a fatal failure naming the id and table when the related
/// lookup misses.
pub open spec fn fetch_subscriber_spec(
    p: Map<Seq<char>, Seq<char>>,
    src: SourceView,
    table: Seq<char>,
    id: u128,
) -> Result<SubscriberView, FatalView> {
    match get_by_attr_spec::<Subscriber>(p, src, "id"@, dec_rep(id as nat)) {
        Ok(Some(s)) => Ok(s),
        Ok(None) => Err(FatalView::RelatedEntityNotFound { id, table }),
        Err(f) => Err(f),
    }
}

/// What [`Consumer::fake`] builds from an attribute map.
pub open spec fn consumer_fake_spec(m: Map<Seq<char>, Seq<char>>) -> ConsumerView {
    ConsumerView {
        id: digits_val(attr_or(m, "id"@, "1"@)) as u128,
        access_token: attr_or(m, "access_token"@, "A-B-C"@),
        subscriber: subscriber_fake_spec(
            if m.contains_key("subscriber"@) {
                Map::empty().insert("id"@, m["subscriber"@])
            } else {
                Map::empty()
            },
        ),
    }
}

impl Consumer {
    /// Build a consumer, resolving its subscriber through the provider.
    pub fn new(provider: &StoreProvider, id: u128, access_token: String, subscriber_id: u128) -> (r:
        Result<Consumer, Fatal>)
        ensures
            (match r {
                Ok(c) => {
                    &&& c.id == id
                    &&& c.access_token == access_token
                    &&& fetch_subscriber_spec(
                        provider@,
                        SourceView::Named("subscribers"@),
                        "subscribers"@,
                        subscriber_id,
                    ) == Ok::<SubscriberView, FatalView>(c.subscriber@)
                },
                Err(f) => fetch_subscriber_spec(
                    provider@,
                    SourceView::Named("subscribers"@),
                    "subscribers"@,
                    subscriber_id,
                ) == Err::<SubscriberView, FatalView>(f@),
            }),
    {
        match Consumer::fetch_subscriber(
            get_table_instance("subscribers"),
            provider,
            subscriber_id,
        ) {
            Ok(subscriber) => Ok(Consumer { id, access_token, subscriber }),
            Err(f) => Err(f),
        }
    }

    /// Build a consumer from explicit attributes, faking the related
    /// subscriber rather than resolving it; meant for composing tests.
    pub fn fake(attr: &Record) -> (r: Consumer)
        requires
            attr@.contains_key("id"@) ==> parse_uint_spec(attr@["id"@], u128::MAX as nat)
                is Some,
            attr@.contains_key("subscriber"@) ==> parse_uint_spec(
                attr@["subscriber"@],
                u128::MAX as nat,
            ) is Some,
        ensures
            r@ == consumer_fake_spec(attr@),
    {
        proof {
            lemma_small_digit_literals();
        }
        let id: u128 = match attr.get("id") {
            Some(v) => match parse_u128(v.as_str()) {
                Some(n) => n,
                None => {
                    proof {
                        assert(false);
                    }
                    0
                },
            },
            None => 1,
        };
        let access_token: String = match attr.get("access_token") {
            Some(v) => v,
            None => String::from_str("A-B-C"),
        };
        let subscriber = match attr.get("subscriber") {
            Some(subscriber_id) => {
                let mut inner = Record::new();
                inner.insert("id", subscriber_id.as_str());
                proof {
                    reveal_strlit("id");
                    reveal_strlit("subscription");
                    assert("id"@.len() == 2);
                    assert("subscription"@.len() == 12);
                    assert("id"@ != "subscription"@);
                }
                Subscriber::fake(&inner)
            },
            None => Subscriber::fake(&Record::new()),
        };
        Consumer { id, access_token, subscriber }
    }

    /// Resolve a subscriber id against the given store; a miss is fatal
    /// and names the id and the store's table.
    pub fn fetch_subscriber(db: SyncTable, provider: &StoreProvider, subscriber_id: u128) -> (r:
        Result<Subscriber, Fatal>)
        ensures
            (match r {
                Ok(s) => fetch_subscriber_spec(provider@, db.src(), db.name(), subscriber_id)
                    == Ok::<SubscriberView, FatalView>(s@),
                Err(f) => fetch_subscriber_spec(provider@, db.src(), db.name(), subscriber_id)
                    == Err::<SubscriberView, FatalView>(f@),
            }),
    {
        let table = db.table_name();
        let subscriber_list = SubscriberList::new(db);
        match subscriber_list.get_by_id(provider, subscriber_id) {
            Ok(Some(s)) => Ok(s),
            Ok(None) => Err(Fatal::RelatedEntityNotFound { id: subscriber_id, table }),
            Err(f) => Err(f),
        }
    }
}

} // verus!
