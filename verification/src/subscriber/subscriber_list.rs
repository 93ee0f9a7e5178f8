//! Lookup facades for subscriptions and subscribers, and their record
//! conversions.

use vstd::prelude::*;

use crate::db::SourceView;
use crate::errors::Fatal;
use crate::errors::FatalView;
use crate::provider::StoreProvider;
use crate::record::Record;
use crate::store::get_by_attr_spec;
use crate::store::get_table_instance;
use crate::store::ModelAble;
use crate::store::SyncTable;
use crate::store::ToStruct;
use crate::text::dec_rep;
use crate::text::parse_u128;
use crate::text::parse_u8;
use crate::text::parse_uint_spec;
use crate::text::to_dec;

use super::fetch_subscription_spec;
use super::Subscriber;
use super::SubscriberView;
use super::Subscription;
use super::SubscriptionView;

verus! {

/// A lookup facade over the subscriptions table.
pub struct SubscriptionList<D> {
    db: D,
    pub subscriptions: Vec<Subscription>,
}

pub type FlatSubscriptionList = SubscriptionList<SyncTable>;

impl FlatSubscriptionList {
    /// The source of the facade's store.
    pub closed spec fn src(&self) -> SourceView {
        self.db.src()
    }

    /// Bind the facade to a synchronized store.
    pub fn new(db: SyncTable) -> (r: Self)
        ensures
            r.src() == db.src(),
    {
        SubscriptionList { db, subscriptions: Vec::new() }
    }

    /// Look a subscription up by its id.
    pub fn get_by_id(&self, provider: &StoreProvider, id: u128) -> (r: Result<
        Option<Subscription>,
        Fatal,
    >)
        ensures
            (match r {
                Ok(None) => get_by_attr_spec::<Subscription>(
                    provider@,
                    self.src(),
                    "id"@,
                    dec_rep(id as nat),
                ) == Ok::<Option<SubscriptionView>, FatalView>(None),
                Ok(Some(s)) => get_by_attr_spec::<Subscription>(
                    provider@,
                    self.src(),
                    "id"@,
                    dec_rep(id as nat),
                ) == Ok::<Option<SubscriptionView>, FatalView>(Some(s@)),
                Err(f) => get_by_attr_spec::<Subscription>(
                    provider@,
                    self.src(),
                    "id"@,
                    dec_rep(id as nat),
                ) == Err::<Option<SubscriptionView>, FatalView>(f@),
            }),
    {
        let value = to_dec(id);
        Self::get_by_attr(&self.db, provider, "id", value.as_str())
    }
}

impl ModelAble<Subscription> for FlatSubscriptionList {
    fn get_by_attr(db: &SyncTable, provider: &StoreProvider, attr: &str, value: &str) -> (r:
        Result<Option<Subscription>, Fatal>) {
        match db.find_by(provider, attr, value) {
            Err(e) => Err(Fatal::Source(e)),
            Ok(None) => Ok(None),
            Ok(Some(rec)) => match Subscription::convert(&rec, provider) {
                Ok(s) => Ok(Some(s)),
                Err(f) => Err(f),
            },
        }
    }
}

/// What converting a record into a [`Subscription`] yields: every field
/// is required, and ids and quantities must parse to their widths.
pub open spec fn subscription_convert_spec(
    r: Map<Seq<char>, Seq<char>>,
    p: Map<Seq<char>, Seq<char>>,
) -> Result<SubscriptionView, FatalView> {
    if !r.contains_key("id"@) {
        Err(FatalView::ConversionFailure("id"@))
    } else if !r.contains_key("name"@) {
        Err(FatalView::ConversionFailure("name"@))
    } else if !r.contains_key("status"@) {
        Err(FatalView::ConversionFailure("status"@))
    } else if !r.contains_key("price"@) {
        Err(FatalView::ConversionFailure("price"@))
    } else if !r.contains_key("quota"@) {
        Err(FatalView::ConversionFailure("quota"@))
    } else if !r.contains_key("expiry_date"@) {
        Err(FatalView::ConversionFailure("expiry_date"@))
    } else {
        match parse_uint_spec(r["id"@], u128::MAX as nat) {
            None => Err(FatalView::ConversionFailure("id"@)),
            Some(id) => match parse_uint_spec(r["status"@], u8::MAX as nat) {
                None => Err(FatalView::ConversionFailure("status"@)),
                Some(status) => match parse_uint_spec(r["price"@], u128::MAX as nat) {
                    None => Err(FatalView::ConversionFailure("price"@)),
                    Some(price) => match parse_uint_spec(r["quota"@], u128::MAX as nat) {
                        None => Err(FatalView::ConversionFailure("quota"@)),
                        Some(quota) => Ok(
                            SubscriptionView {
                                id: id as u128,
                                name: r["name"@],
                                status: status as u8,
                                price: price as u128,
                                quota: quota as u128,
                                expiry_date: r["expiry_date"@],
                            },
                        ),
                    },
                },
            },
        }
    }
}

impl ToStruct for Subscription {
    open spec fn convert_spec(r: Map<Seq<char>, Seq<char>>, p: Map<Seq<char>, Seq<char>>) -> Result<
        SubscriptionView,
        FatalView,
    > {
        subscription_convert_spec(r, p)
    }

    fn convert(data: &Record, provider: &StoreProvider) -> (res: Result<Self, Fatal>) {
        let id_s = match data.get("id") {
            Some(v) => v,
            None => {
                return Err(Fatal::ConversionFailure(String::from_str("id")));
            },
        };
        let name = match data.get("name") {
            Some(v) => v,
            None => {
                return Err(Fatal::ConversionFailure(String::from_str("name")));
            },
        };
        let status_s = match data.get("status") {
            Some(v) => v,
            None => {
                return Err(Fatal::ConversionFailure(String::from_str("status")));
            },
        };
        let price_s = match data.get("price") {
            Some(v) => v,
            None => {
                return Err(Fatal::ConversionFailure(String::from_str("price")));
            },
        };
        let quota_s = match data.get("quota") {
            Some(v) => v,
            None => {
                return Err(Fatal::ConversionFailure(String::from_str("quota")));
            },
        };
        let expiry_date = match data.get("expiry_date") {
            Some(v) => v,
            None => {
                return Err(Fatal::ConversionFailure(String::from_str("expiry_date")));
            },
        };
        let id = match parse_u128(id_s.as_str()) {
            Some(v) => v,
            None => {
                return Err(Fatal::ConversionFailure(String::from_str("id")));
            },
        };
        let status = match parse_u8(status_s.as_str()) {
            Some(v) => v,
            None => {
                return Err(Fatal::ConversionFailure(String::from_str("status")));
            },
        };
        let price = match parse_u128(price_s.as_str()) {
            Some(v) => v,
            None => {
                return Err(Fatal::ConversionFailure(String::from_str("price")));
            },
        };
        let quota = match parse_u128(quota_s.as_str()) {
            Some(v) => v,
            None => {
                return Err(Fatal::ConversionFailure(String::from_str("quota")));
            },
        };
        Ok(Subscription { id, name, status, price, quota, expiry_date })
    }
}

/// A lookup facade over the subscribers table.
pub struct SubscriberList<D> {
    db: D,
    pub subscribers: Vec<Subscriber>,
}

pub type FlatSubscriberList = SubscriberList<SyncTable>;

impl FlatSubscriberList {
    /// The source of the facade's store.
    pub closed spec fn src(&self) -> SourceView {
        self.db.src()
    }

    /// Bind the facade to a synchronized store.
    pub fn new(db: SyncTable) -> (r: Self)
        ensures
            r.src() == db.src(),
    {
        SubscriberList { db, subscribers: Vec::new() }
    }

    /// Look a subscriber up by its id.
    pub fn get_by_id(&self, provider: &StoreProvider, id: u128) -> (r: Result<
        Option<Subscriber>,
        Fatal,
    >)
        ensures
            (match r {
                Ok(None) => get_by_attr_spec::<Subscriber>(
                    provider@,
                    self.src(),
                    "id"@,
                    dec_rep(id as nat),
                ) == Ok::<Option<SubscriberView>, FatalView>(None),
                Ok(Some(s)) => get_by_attr_spec::<Subscriber>(
                    provider@,
                    self.src(),
                    "id"@,
                    dec_rep(id as nat),
                ) == Ok::<Option<SubscriberView>, FatalView>(Some(s@)),
                Err(f) => get_by_attr_spec::<Subscriber>(
                    provider@,
                    self.src(),
                    "id"@,
                    dec_rep(id as nat),
                ) == Err::<Option<SubscriberView>, FatalView>(f@),
            }),
    {
        let value = to_dec(id);
        Self::get_by_attr(&self.db, provider, "id", value.as_str())
    }
}

impl ModelAble<Subscriber> for FlatSubscriberList {
    fn get_by_attr(db: &SyncTable, provider: &StoreProvider, attr: &str, value: &str) -> (r:
        Result<Option<Subscriber>, Fatal>) {
        match db.find_by(provider, attr, value) {
            Err(e) => Err(Fatal::Source(e)),
            Ok(None) => Ok(None),
            Ok(Some(rec)) => match Subscriber::convert(&rec, provider) {
                Ok(s) => Ok(Some(s)),
                Err(f) => Err(f),
            },
        }
    }
}

/// What converting a record into a [`Subscriber`] yields: the
/// `subscription` field is a foreign key, resolved against a freshly
/// opened subscriptions store.
pub open spec fn subscriber_convert_spec(
    r: Map<Seq<char>, Seq<char>>,
    p: Map<Seq<char>, Seq<char>>,
) -> Result<SubscriberView, FatalView> {
    if !r.contains_key("id"@) {
        Err(FatalView::ConversionFailure("id"@))
    } else if !r.contains_key("name"@) {
        Err(FatalView::ConversionFailure("name"@))
    } else if !r.contains_key("subscription"@) {
        Err(FatalView::ConversionFailure("subscription"@))
    } else {
        match parse_uint_spec(r["id"@], u128::MAX as nat) {
            None => Err(FatalView::ConversionFailure("id"@)),
            Some(id) => match parse_uint_spec(r["subscription"@], u128::MAX as nat) {
                None => Err(FatalView::ConversionFailure("subscription"@)),
                Some(sid) => match fetch_subscription_spec(
                    p,
                    SourceView::Named("subscriptions"@),
                    "subscriptions"@,
                    sid as u128,
                ) {
                    Ok(subscription) => Ok(
                        SubscriberView { id: id as u128, name: r["name"@], subscription },
                    ),
                    Err(f) => Err(f),
                },
            },
        }
    }
}

impl ToStruct for Subscriber {
    open spec fn convert_spec(r: Map<Seq<char>, Seq<char>>, p: Map<Seq<char>, Seq<char>>) -> Result<
        SubscriberView,
        FatalView,
    > {
        subscriber_convert_spec(r, p)
    }

    fn convert(data: &Record, provider: &StoreProvider) -> (res: Result<Self, Fatal>) {
        let id_s = match data.get("id") {
            Some(v) => v,
            None => {
                return Err(Fatal::ConversionFailure(String::from_str("id")));
            },
        };
        let name = match data.get("name") {
            Some(v) => v,
            None => {
                return Err(Fatal::ConversionFailure(String::from_str("name")));
            },
        };
        let subscription_s = match data.get("subscription") {
            Some(v) => v,
            None => {
                return Err(Fatal::ConversionFailure(String::from_str("subscription")));
            },
        };
        let id = match parse_u128(id_s.as_str()) {
            Some(v) => v,
            None => {
                return Err(Fatal::ConversionFailure(String::from_str("id")));
            },
        };
        let sid = match parse_u128(subscription_s.as_str()) {
            Some(v) => v,
            None => {
                return Err(Fatal::ConversionFailure(String::from_str("subscription")));
            },
        };
        match Subscriber::fetch_subscription(get_table_instance("subscriptions"), provider, sid) {
            Ok(subscription) => Ok(Subscriber { id, name, subscription }),
            Err(f) => Err(f),
        }
    }
}

} // verus!
