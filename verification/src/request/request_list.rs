//! Lookup facade for requests, and their record conversion.

use vstd::prelude::*;

use crate::db::SourceView;
use crate::errors::Fatal;
use crate::errors::FatalView;
use crate::provider::StoreProvider;
use crate::record::Record;
use crate::store::get_by_attr_spec;
use crate::store::get_table_instance;
use crate::store::ModelAble;
use crate::store::SyncTable;
use crate::store::ToStruct;
use crate::text::parse_u128;
use crate::text::parse_u32;
use crate::text::parse_uint_spec;

use super::fetch_consumer_spec;
use super::fetch_service_spec;
use super::Request;
use super::RequestView;

verus! {

/// A lookup facade over the requests table.
pub struct RequestList<D> {
    db: D,
    pub requests: Vec<Request>,
}

pub type FlatRequestList = RequestList<SyncTable>;

impl FlatRequestList {
    /// The source of the facade's store.
    pub closed spec fn src(&self) -> SourceView {
        self.db.src()
    }

    /// Bind the facade to a synchronized store.
    pub fn new(db: SyncTable) -> (r: Self)
        ensures
            r.src() == db.src(),
    {
        RequestList { db, requests: Vec::new() }
    }

    /// Look a request up by its id, which is free-form text.
    pub fn get_by_id(&self, provider: &StoreProvider, id: &str) -> (r: Result<
        Option<Request>,
        Fatal,
    >)
        ensures
            (match r {
                Ok(None) => get_by_attr_spec::<Request>(provider@, self.src(), "id"@, id@) == Ok::<
                    Option<RequestView>,
                    FatalView,
                >(None),
                Ok(Some(q)) => get_by_attr_spec::<Request>(provider@, self.src(), "id"@, id@)
                    == Ok::<Option<RequestView>, FatalView>(Some(q@)),
                Err(f) => get_by_attr_spec::<Request>(provider@, self.src(), "id"@, id@) == Err::<
                    Option<RequestView>,
                    FatalView,
                >(f@),
            }),
    {
        Self::get_by_attr(&self.db, provider, "id", id)
    }
}

impl ModelAble<Request> for FlatRequestList {
    fn get_by_attr(db: &SyncTable, provider: &StoreProvider, attr: &str, value: &str) -> (r:
        Result<Option<Request>, Fatal>) {
        match db.find_by(provider, attr, value) {
            Err(e) => Err(Fatal::Source(e)),
            Ok(None) => Ok(None),
            Ok(Some(rec)) => match Request::convert(&rec, provider) {
                Ok(q) => Ok(Some(q)),
                Err(f) => Err(f),
            },
        }
    }
}

/// What converting a record into a [`Request`] yields: every field is
/// required, numeric fields must parse to their widths, and the `service`
/// and `consumer` fields are foreign keys, each resolved against its own
/// freshly opened store.
pub open spec fn request_convert_spec(
    r: Map<Seq<char>, Seq<char>>,
    p: Map<Seq<char>, Seq<char>>,
) -> Result<RequestView, FatalView> {
    if !r.contains_key("id"@) {
        Err(FatalView::ConversionFailure("id"@))
    } else if !r.contains_key("product_slug"@) {
        Err(FatalView::ConversionFailure("product_slug"@))
    } else if !r.contains_key("service_slug"@) {
        Err(FatalView::ConversionFailure("service_slug"@))
    } else if !r.contains_key("service_version"@) {
        Err(FatalView::ConversionFailure("service_version"@))
    } else if !r.contains_key("url"@) {
        Err(FatalView::ConversionFailure("url"@))
    } else if !r.contains_key("status"@) {
        Err(FatalView::ConversionFailure("status"@))
    } else if !r.contains_key("price"@) {
        Err(FatalView::ConversionFailure("price"@))
    } else if !r.contains_key("service"@) {
        Err(FatalView::ConversionFailure("service"@))
    } else if !r.contains_key("consumer"@) {
        Err(FatalView::ConversionFailure("consumer"@))
    } else {
        match parse_uint_spec(r["status"@], u32::MAX as nat) {
            None => Err(FatalView::ConversionFailure("status"@)),
            Some(status) => match parse_uint_spec(r["price"@], u128::MAX as nat) {
                None => Err(FatalView::ConversionFailure("price"@)),
                Some(price) => match parse_uint_spec(r["service"@], u128::MAX as nat) {
                    None => Err(FatalView::ConversionFailure("service"@)),
                    Some(sid) => match parse_uint_spec(r["consumer"@], u128::MAX as nat) {
                        None => Err(FatalView::ConversionFailure("consumer"@)),
                        Some(cid) => match fetch_service_spec(
                            p,
                            SourceView::Named("services"@),
                            "services"@,
                            sid as u128,
                        ) {
                            Err(f) => Err(f),
                            Ok(service) => match fetch_consumer_spec(
                                p,
                                SourceView::Named("consumers"@),
                                "consumers"@,
                                cid as u128,
                            ) {
                                Err(f) => Err(f),
                                Ok(consumer) => Ok(
                                    RequestView {
                                        id: r["id"@],
                                        consumer,
                                        service,
                                        product_slug: r["product_slug"@],
                                        service_slug: r["service_slug"@],
                                        service_version: r["service_version"@],
                                        url: r["url"@],
                                        status: status as u32,
                                        price: price as u128,
                                    },
                                ),
                            },
                        },
                    },
                },
            },
        }
    }
}

impl ToStruct for Request {
    open spec fn convert_spec(r: Map<Seq<char>, Seq<char>>, p: Map<Seq<char>, Seq<char>>) -> Result<
        RequestView,
        FatalView,
    > {
        request_convert_spec(r, p)
    }

    fn convert(data: &Record, provider: &StoreProvider) -> (res: Result<Self, Fatal>) {
        let id = match data.get("id") {
            Some(v) => v,
            None => {
                return Err(Fatal::ConversionFailure(String::from_str("id")));
            },
        };
        let product_slug = match data.get("product_slug") {
            Some(v) => v,
            None => {
                return Err(Fatal::ConversionFailure(String::from_str("product_slug")));
            },
        };
        let service_slug = match data.get("service_slug") {
            Some(v) => v,
            None => {
                return Err(Fatal::ConversionFailure(String::from_str("service_slug")));
            },
        };
        let service_version = match data.get("service_version") {
            Some(v) => v,
            None => {
                return Err(Fatal::ConversionFailure(String::from_str("service_version")));
            },
        };
        let url = match data.get("url") {
            Some(v) => v,
            None => {
                return Err(Fatal::ConversionFailure(String::from_str("url")));
            },
        };
        let status_s = match data.get("status") {
            Some(v) => v,
            None => {
                return Err(Fatal::ConversionFailure(String::from_str("status")));
            },
        };
        let price_s = match data.get("price") {
            Some(v) => v,
            None => {
                return Err(Fatal::ConversionFailure(String::from_str("price")));
            },
        };
        let service_s = match data.get("service") {
            Some(v) => v,
            None => {
                return Err(Fatal::ConversionFailure(String::from_str("service")));
            },
        };
        let consumer_s = match data.get("consumer") {
            Some(v) => v,
            None => {
                return Err(Fatal::ConversionFailure(String::from_str("consumer")));
            },
        };
        let status = match parse_u32(status_s.as_str()) {
            Some(v) => v,
            None => {
                return Err(Fatal::ConversionFailure(String::from_str("status")));
            },
        };
        let price = match parse_u128(price_s.as_str()) {
            Some(v) => v,
            None => {
                return Err(Fatal::ConversionFailure(String::from_str("price")));
            },
        };
        let sid = match parse_u128(service_s.as_str()) {
            Some(v) => v,
            None => {
                return Err(Fatal::ConversionFailure(String::from_str("service")));
            },
        };
        let cid = match parse_u128(consumer_s.as_str()) {
            Some(v) => v,
            None => {
                return Err(Fatal::ConversionFailure(String::from_str("consumer")));
            },
        };
        let service = match Request::fetch_service(get_table_instance("services"), provider, sid) {
            Ok(s) => s,
            Err(f) => {
                return Err(f);
            },
        };
        let consumer = match Request::fetch_consumer(
            get_table_instance("consumers"),
            provider,
            cid,
        ) {
            Ok(c) => c,
            Err(f) => {
                return Err(f);
            },
        };
        Ok(
            Request {
                id,
                consumer,
                service,
                product_slug,
                service_slug,
                service_version,
                url,
                status,
                price,
            },
        )
    }
}

} // verus!
