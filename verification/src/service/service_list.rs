//! Lookup facade for services, and their record conversion.

use vstd::prelude::*;

use crate::db::SourceView;
use crate::errors::Fatal;
use crate::errors::FatalView;
use crate::provider::StoreProvider;
use crate::record::Record;
use crate::store::get_by_attr_spec;
use crate::store::get_table_instance;
use crate::store::ModelAble;
use crate::store::SyncTable;
use crate::store::ToStruct;
use crate::text::dec_rep;
use crate::text::parse_u128;
use crate::text::parse_u32;
use crate::text::parse_uint_spec;
use crate::text::to_dec;

use super::fetch_product_spec;
use super::Service;
use super::ServiceView;

verus! {

/// A lookup facade over the services table.
pub struct ServiceList<D> {
    db: D,
    pub services: Vec<Service>,
}

pub type FlatServiceList = ServiceList<SyncTable>;

impl FlatServiceList {
    /// The source of the facade's store.
    pub closed spec fn src(&self) -> SourceView {
        self.db.src()
    }

    /// Bind the facade to a synchronized store.
    pub fn new(db: SyncTable) -> (r: Self)
        ensures
            r.src() == db.src(),
    {
        ServiceList { db, services: Vec::new() }
    }

    /// Look a service up by its id.
    pub fn get_by_id(&self, provider: &StoreProvider, id: u128) -> (r: Result<
        Option<Service>,
        Fatal,
    >)
        ensures
            (match r {
                Ok(None) => get_by_attr_spec::<Service>(
                    provider@,
                    self.src(),
                    "id"@,
                    dec_rep(id as nat),
                ) == Ok::<Option<ServiceView>, FatalView>(None),
                Ok(Some(s)) => get_by_attr_spec::<Service>(
                    provider@,
                    self.src(),
                    "id"@,
                    dec_rep(id as nat),
                ) == Ok::<Option<ServiceView>, FatalView>(Some(s@)),
                Err(f) => get_by_attr_spec::<Service>(
                    provider@,
                    self.src(),
                    "id"@,
                    dec_rep(id as nat),
                ) == Err::<Option<ServiceView>, FatalView>(f@),
            }),
    {
        let value = to_dec(id);
        Self::get_by_attr(&self.db, provider, "id", value.as_str())
    }

    /// Look a service up by its slug.
    pub fn get_by_slug(&self, provider: &StoreProvider, slug: &str) -> (r: Result<
        Option<Service>,
        Fatal,
    >)
        ensures
            (match r {
                Ok(None) => get_by_attr_spec::<Service>(provider@, self.src(), "slug"@, slug@)
                    == Ok::<Option<ServiceView>, FatalView>(None),
                Ok(Some(s)) => get_by_attr_spec::<Service>(provider@, self.src(), "slug"@, slug@)
                    == Ok::<Option<ServiceView>, FatalView>(Some(s@)),
                Err(f) => get_by_attr_spec::<Service>(provider@, self.src(), "slug"@, slug@)
                    == Err::<Option<ServiceView>, FatalView>(f@),
            }),
    {
        Self::get_by_attr(&self.db, provider, "slug", slug)
    }
}

impl ModelAble<Service> for FlatServiceList {
    fn get_by_attr(db: &SyncTable, provider: &StoreProvider, attr: &str, value: &str) -> (r:
        Result<Option<Service>, Fatal>) {
        match db.find_by(provider, attr, value) {
            Err(e) => Err(Fatal::Source(e)),
            Ok(None) => Ok(None),
            Ok(Some(rec)) => match Service::convert(&rec, provider) {
                Ok(s) => Ok(Some(s)),
                Err(f) => Err(f),
            },
        }
    }
}

/// What converting a record into a [`Service`] yields: every field is
/// required, numeric fields must parse to their widths, and the
/// `product` field is a foreign key resolved against a freshly opened
/// products store.
pub open spec fn service_convert_spec(
    r: Map<Seq<char>, Seq<char>>,
    p: Map<Seq<char>, Seq<char>>,
) -> Result<ServiceView, FatalView> {
    if !r.contains_key("id"@) {
        Err(FatalView::ConversionFailure("id"@))
    } else if !r.contains_key("requests"@) {
        Err(FatalView::ConversionFailure("requests"@))
    } else if !r.contains_key("name"@) {
        Err(FatalView::ConversionFailure("name"@))
    } else if !r.contains_key("slug"@) {
        Err(FatalView::ConversionFailure("slug"@))
    } else if !r.contains_key("version"@) {
        Err(FatalView::ConversionFailure("version"@))
    } else if !r.contains_key("status"@) {
        Err(FatalView::ConversionFailure("status"@))
    } else if !r.contains_key("base_url"@) {
        Err(FatalView::ConversionFailure("base_url"@))
    } else if !r.contains_key("price"@) {
        Err(FatalView::ConversionFailure("price"@))
    } else if !r.contains_key("product"@) {
        Err(FatalView::ConversionFailure("product"@))
    } else {
        match parse_uint_spec(r["id"@], u128::MAX as nat) {
            None => Err(FatalView::ConversionFailure("id"@)),
            Some(id) => match parse_uint_spec(r["requests"@], u128::MAX as nat) {
                None => Err(FatalView::ConversionFailure("requests"@)),
                Some(requests) => match parse_uint_spec(r["status"@], u32::MAX as nat) {
                    None => Err(FatalView::ConversionFailure("status"@)),
                    Some(status) => match parse_uint_spec(r["price"@], u128::MAX as nat) {
                        None => Err(FatalView::ConversionFailure("price"@)),
                        Some(price) => match parse_uint_spec(r["product"@], u128::MAX as nat) {
                            None => Err(FatalView::ConversionFailure("product"@)),
                            Some(pid) => match fetch_product_spec(
                                p,
                                SourceView::Named("products"@),
                                "products"@,
                                pid as u128,
                            ) {
                                Ok(product) => Ok(
                                    ServiceView {
                                        id: id as u128,
                                        name: r["name"@],
                                        requests: requests as u128,
                                        slug: r["slug"@],
                                        status: status as u32,
                                        version: r["version"@],
                                        base_url: r["base_url"@],
                                        price: price as u128,
                                        product,
                                    },
                                ),
                                Err(f) => Err(f),
                            },
                        },
                    },
                },
            },
        }
    }
}

impl ToStruct for Service {
    open spec fn convert_spec(r: Map<Seq<char>, Seq<char>>, p: Map<Seq<char>, Seq<char>>) -> Result<
        ServiceView,
        FatalView,
    > {
        service_convert_spec(r, p)
    }

    fn convert(data: &Record, provider: &StoreProvider) -> (res: Result<Self, Fatal>) {
        let id_s = match data.get("id") {
            Some(v) => v,
            None => {
                return Err(Fatal::ConversionFailure(String::from_str("id")));
            },
        };
        let requests_s = match data.get("requests") {
            Some(v) => v,
            None => {
                return Err(Fatal::ConversionFailure(String::from_str("requests")));
            },
        };
        let name = match data.get("name") {
            Some(v) => v,
            None => {
                return Err(Fatal::ConversionFailure(String::from_str("name")));
            },
        };
        let slug = match data.get("slug") {
            Some(v) => v,
            None => {
                return Err(Fatal::ConversionFailure(String::from_str("slug")));
            },
        };
        let version = match data.get("version") {
            Some(v) => v,
            None => {
                return Err(Fatal::ConversionFailure(String::from_str("version")));
            },
        };
        let status_s = match data.get("status") {
            Some(v) => v,
            None => {
                return Err(Fatal::ConversionFailure(String::from_str("status")));
            },
        };
        let base_url = match data.get("base_url") {
            Some(v) => v,
            None => {
                return Err(Fatal::ConversionFailure(String::from_str("base_url")));
            },
        };
        let price_s = match data.get("price") {
            Some(v) => v,
            None => {
                return Err(Fatal::ConversionFailure(String::from_str("price")));
            },
        };
        let product_s = match data.get("product") {
            Some(v) => v,
            None => {
                return Err(Fatal::ConversionFailure(String::from_str("product")));
            },
        };
        let id = match parse_u128(id_s.as_str()) {
            Some(v) => v,
            None => {
                return Err(Fatal::ConversionFailure(String::from_str("id")));
            },
        };
        let requests = match parse_u128(requests_s.as_str()) {
            Some(v) => v,
            None => {
                return Err(Fatal::ConversionFailure(String::from_str("requests")));
            },
        };
        let status = match parse_u32(status_s.as_str()) {
            Some(v) => v,
            None => {
                return Err(Fatal::ConversionFailure(String::from_str("status")));
            },
        };
        let price = match parse_u128(price_s.as_str()) {
            Some(v) => v,
            None => {
                return Err(Fatal::ConversionFailure(String::from_str("price")));
            },
        };
        let pid = match parse_u128(product_s.as_str()) {
            Some(v) => v,
            None => {
                return Err(Fatal::ConversionFailure(String::from_str("product")));
            },
        };
        match Service::fetch_product(get_table_instance("products"), provider, pid) {
            Ok(product) => Ok(
                Service { id, name, requests, slug, status, version, base_url, price, product },
            ),
            Err(f) => Err(f),
        }
    }
}

} // verus!
