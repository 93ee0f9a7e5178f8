//! Lookup facade for products, and their record conversion.

use vstd::prelude::*;

use crate::db::SourceView;
use crate::errors::Fatal;
use crate::errors::FatalView;
use crate::provider::StoreProvider;
use crate::record::Record;
use crate::store::get_by_attr_spec;
use crate::store::ModelAble;
use crate::store::SyncTable;
use crate::store::ToStruct;
use crate::text::dec_rep;
use crate::text::parse_u128;
use crate::text::parse_uint_spec;
use crate::text::to_dec;

use super::Product;
use super::ProductView;

verus! {

/// A lookup facade over the products table.
pub struct ProductList<D> {
    db: D,
    pub products: Vec<Product>,
}

pub type FlatProductList = ProductList<SyncTable>;

impl FlatProductList {
    /// The source of the facade's store.
    pub closed spec fn src(&self) -> SourceView {
        self.db.src()
    }

    /// Bind the facade to a synchronized store.
    pub fn new(db: SyncTable) -> (r: Self)
        ensures
            r.src() == db.src(),
    {
        ProductList { db, products: Vec::new() }
    }

    /// Look a product up by its id.
    pub fn get_by_id(&self, provider: &StoreProvider, id: u128) -> (r: Result<
        Option<Product>,
        Fatal,
    >)
        ensures
            (match r {
                Ok(None) => get_by_attr_spec::<Product>(
                    provider@,
                    self.src(),
                    "id"@,
                    dec_rep(id as nat),
                ) == Ok::<Option<ProductView>, FatalView>(None),
                Ok(Some(s)) => get_by_attr_spec::<Product>(
                    provider@,
                    self.src(),
                    "id"@,
                    dec_rep(id as nat),
                ) == Ok::<Option<ProductView>, FatalView>(Some(s@)),
                Err(f) => get_by_attr_spec::<Product>(
                    provider@,
                    self.src(),
                    "id"@,
                    dec_rep(id as nat),
                ) == Err::<Option<ProductView>, FatalView>(f@),
            }),
    {
        let value = to_dec(id);
        Self::get_by_attr(&self.db, provider, "id", value.as_str())
    }

    /// Look a product up by its slug.
    pub fn get_by_slug(&self, provider: &StoreProvider, slug: &str) -> (r: Result<
        Option<Product>,
        Fatal,
    >)
        ensures
            (match r {
                Ok(None) => get_by_attr_spec::<Product>(provider@, self.src(), "slug"@, slug@)
                    == Ok::<Option<ProductView>, FatalView>(None),
                Ok(Some(s)) => get_by_attr_spec::<Product>(provider@, self.src(), "slug"@, slug@)
                    == Ok::<Option<ProductView>, FatalView>(Some(s@)),
                Err(f) => get_by_attr_spec::<Product>(provider@, self.src(), "slug"@, slug@)
                    == Err::<Option<ProductView>, FatalView>(f@),
            }),
    {
        Self::get_by_attr(&self.db, provider, "slug", slug)
    }
}

impl ModelAble<Product> for FlatProductList {
    fn get_by_attr(db: &SyncTable, provider: &StoreProvider, attr: &str, value: &str) -> (r:
        Result<Option<Product>, Fatal>) {
        match db.find_by(provider, attr, value) {
            Err(e) => Err(Fatal::Source(e)),
            Ok(None) => Ok(None),
            Ok(Some(rec)) => match Product::convert(&rec, provider) {
                Ok(s) => Ok(Some(s)),
                Err(f) => Err(f),
            },
        }
    }
}

/// What converting a record into a [`Product`] yields: every field is
/// required, and id and request count must parse.
pub open spec fn product_convert_spec(
    r: Map<Seq<char>, Seq<char>>,
    p: Map<Seq<char>, Seq<char>>,
) -> Result<ProductView, FatalView> {
    if !r.contains_key("id"@) {
        Err(FatalView::ConversionFailure("id"@))
    } else if !r.contains_key("requests"@) {
        Err(FatalView::ConversionFailure("requests"@))
    } else if !r.contains_key("slug"@) {
        Err(FatalView::ConversionFailure("slug"@))
    } else {
        match parse_uint_spec(r["id"@], u128::MAX as nat) {
            None => Err(FatalView::ConversionFailure("id"@)),
            Some(id) => match parse_uint_spec(r["requests"@], u128::MAX as nat) {
                None => Err(FatalView::ConversionFailure("requests"@)),
                Some(requests) => Ok(
                    ProductView { id: id as u128, slug: r["slug"@], requests: requests as u128 },
                ),
            },
        }
    }
}

impl ToStruct for Product {
    open spec fn convert_spec(r: Map<Seq<char>, Seq<char>>, p: Map<Seq<char>, Seq<char>>) -> Result<
        ProductView,
        FatalView,
    > {
        product_convert_spec(r, p)
    }

    fn convert(data: &Record, provider: &StoreProvider) -> (res: Result<Self, Fatal>) {
        let id_s = match data.get("id") {
            Some(v) => v,
            None => {
                return Err(Fatal::ConversionFailure(String::from_str("id")));
            },
        };
        let requests_s = match data.get("requests") {
            Some(v) => v,
            None => {
                return Err(Fatal::ConversionFailure(String::from_str("requests")));
            },
        };
        let slug = match data.get("slug") {
            Some(v) => v,
            None => {
                return Err(Fatal::ConversionFailure(String::from_str("slug")));
            },
        };
        let id = match parse_u128(id_s.as_str()) {
            Some(v) => v,
            None => {
                return Err(Fatal::ConversionFailure(String::from_str("id")));
            },
        };
        let requests = match parse_u128(requests_s.as_str()) {
            Some(v) => v,
            None => {
                return Err(Fatal::ConversionFailure(String::from_str("requests")));
            },
        };
        Ok(Product { id, slug, requests })
    }
}

} // verus!
