//! Services: the routed endpoints. A service's `product` field is a
//! foreign key, resolved by opening a fresh store for the products table.

pub mod service_list;

use vstd::prelude::*;

use crate::db::SourceView;
use crate::errors::Fatal;
use crate::errors::FatalView;
use crate::product::product_fake_spec;
use crate::product::Product;
use crate::product::ProductView;
use crate::product::product_list::ProductList;
use crate::provider::StoreProvider;
use crate::record::attr_or;
use crate::record::Record;
use crate::store::get_by_attr_spec;
use crate::store::get_table_instance;
use crate::store::SyncTable;
use crate::text::dec_rep;
use crate::text::digits_val;
use crate::text::lemma_small_digit_literals;
use crate::text::parse_u128;
use crate::text::parse_u32;
use crate::text::parse_uint_spec;

verus! {

/// A service: a versioned endpoint selling requests against a product.
#[derive(Debug)]
pub struct Service {
    pub id: u128,
    pub name: String,
    pub requests: u128,
    pub slug: String,
    pub status: u32,
    pub version: String,
    pub base_url: String,
    pub price: u128,
    pub product: Product,
}

/// The model of a [`Service`].
pub ghost struct ServiceView {
    pub id: u128,
    pub name: Seq<char>,
    pub requests: u128,
    pub slug: Seq<char>,
    pub status: u32,
    pub version: Seq<char>,
    pub base_url: Seq<char>,
    pub price: u128,
    pub product: ProductView,
}

impl View for Service {
    type V = ServiceView;

    open spec fn view(&self) -> ServiceView {
        ServiceView {
            id: self.id,
            name: self.name@,
            requests: self.requests,
            slug: self.slug@,
            status: self.status,
            version: self.version@,
            base_url: self.base_url@,
            price: self.price,
            product: self.product@,
        }
    }
}

/// What resolving a product foreign key yields: the converted related
/// entity, or a fatal failure naming the id and table when the related
/// lookup misses.
pub open spec fn fetch_product_spec(
    p: Map<Seq<char>, Seq<char>>,
    src: SourceView,
    table: Seq<char>,
    id: u128,
) -> Result<ProductView, FatalView> {
    match get_by_attr_spec::<Product>(p, src, "id"@, dec_rep(id as nat)) {
        Ok(Some(s)) => Ok(s),
        Ok(None) => Err(FatalView::RelatedEntityNotFound { id, table }),
        Err(f) => Err(f),
    }
}

/// What [`Service::fake`] builds from an attribute map. The request
/// count is read from the `quota` attribute, as its callers supply it,
/// and the faked product ignores the passed id, as [`product_fake_spec`]
/// reads its own keys.
pub open spec fn service_fake_spec(m: Map<Seq<char>, Seq<char>>) -> ServiceView {
    ServiceView {
        id: digits_val(attr_or(m, "id"@, "1"@)) as u128,
        name: attr_or(m, "name"@, "default_service"@),
        requests: digits_val(attr_or(m, "quota"@, "10"@)) as u128,
        slug: attr_or(m, "slug"@, "service_slug"@),
        status: digits_val(attr_or(m, "status"@, "0"@)) as u32,
        version: attr_or(m, "version"@, "v0.0.1"@),
        base_url: attr_or(m, "base_url"@, "A-B-C"@),
        price: digits_val(attr_or(m, "price"@, "1"@)) as u128,
        product: product_fake_spec(
            if m.contains_key("product"@) {
                Map::empty().insert("id"@, m["product"@])
            } else {
                Map::empty()
            },
        ),
    }
}

impl Service {
    /// Build a service, resolving its product through the provider.
    pub fn new(
        provider: &StoreProvider,
        id: u128,
        name: String,
        requests: u128,
        slug: String,
        status: u32,
        version: String,
        base_url: String,
        price: u128,
        product_id: u128,
    ) -> (r: Result<Service, Fatal>)
        ensures
            (match r {
                Ok(s) => {
                    &&& s.id == id
                    &&& s.name == name
                    &&& s.requests == requests
                    &&& s.slug == slug
                    &&& s.status == status
                    &&& s.version == version
                    &&& s.base_url == base_url
                    &&& s.price == price
                    &&& fetch_product_spec(
                        provider@,
                        SourceView::Named("products"@),
                        "products"@,
                        product_id,
                    ) == Ok::<ProductView, FatalView>(s.product@)
                },
                Err(f) => fetch_product_spec(
                    provider@,
                    SourceView::Named("products"@),
                    "products"@,
                    product_id,
                ) == Err::<ProductView, FatalView>(f@),
            }),
    {
        match Service::fetch_product(get_table_instance("products"), provider, product_id) {
            Ok(product) => Ok(
                Service { id, name, requests, slug, status, version, base_url, price, product },
            ),
            Err(f) => Err(f),
        }
    }

    /// Build a service from explicit attributes, faking the related
    /// product rather than resolving it; meant for composing tests.
    pub fn fake(attr: &Record) -> (r: Service)
        requires
            attr@.contains_key("id"@) ==> parse_uint_spec(attr@["id"@], u128::MAX as nat)
                is Some,
            attr@.contains_key("quota"@) ==> parse_uint_spec(attr@["quota"@], u128::MAX as nat)
                is Some,
            attr@.contains_key("status"@) ==> parse_uint_spec(attr@["status"@], u32::MAX as nat)
                is Some,
            attr@.contains_key("price"@) ==> parse_uint_spec(attr@["price"@], u128::MAX as nat)
                is Some,
        ensures
            r@ == service_fake_spec(attr@),
    {
        proof {
            lemma_small_digit_literals();
        }
        let id: u128 = match attr.get("id") {
            Some(v) => match parse_u128(v.as_str()) {
                Some(n) => n,
                None => {
                    proof {
                        assert(false);
                    }
                    0
                },
            },
            None => 1,
        };
        let name: String = match attr.get("name") {
            Some(v) => v,
            None => String::from_str("default_service"),
        };
        let requests: u128 = match attr.get("quota") {
            Some(v) => match parse_u128(v.as_str()) {
                Some(n) => n,
                None => {
                    proof {
                        assert(false);
                    }
                    0
                },
            },
            None => 10,
        };
        let slug: String = match attr.get("slug") {
            Some(v) => v,
            None => String::from_str("service_slug"),
        };
        let status: u32 = match attr.get("status") {
            Some(v) => match parse_u32(v.as_str()) {
                Some(n) => n,
                None => {
                    proof {
                        assert(false);
                    }
                    0
                },
            },
            None => 0,
        };
        let version: String = match attr.get("version") {
            Some(v) => v,
            None => String::from_str("v0.0.1"),
        };
        let base_url: String = match attr.get("base_url") {
            Some(v) => v,
            None => String::from_str("A-B-C"),
        };
        let price: u128 = match attr.get("price") {
            Some(v) => match parse_u128(v.as_str()) {
                Some(n) => n,
                None => {
                    proof {
                        assert(false);
                    }
                    0
                },
            },
            None => 1,
        };
        let product = match attr.get("product") {
            Some(product_id) => {
                let mut inner = Record::new();
                inner.insert("id", product_id.as_str());
                proof {
                    reveal_strlit("id");
                    reveal_strlit("price");
                    reveal_strlit("requests");
                    assert("id"@.len() == 2);
                    assert("price"@.len() == 5);
                    assert("requests"@.len() == 8);
                    assert("id"@ != "price"@ && "id"@ != "requests"@);
                }
                Product::fake(&inner)
            },
            None => Product::fake(&Record::new()),
        };
        Service { id, name, requests, slug, status, version, base_url, price, product }
    }

    /// Resolve a product id against the given store; a miss is fatal and
    /// names the id and the store's table.
    pub fn fetch_product(db: SyncTable, provider: &StoreProvider, product_id: u128) -> (r: Result<
        Product,
        Fatal,
    >)
        ensures
            (match r {
                Ok(s) => fetch_product_spec(provider@, db.src(), db.name(), product_id) == Ok::<
                    ProductView,
                    FatalView,
                >(s@),
                Err(f) => fetch_product_spec(provider@, db.src(), db.name(), product_id) == Err::<
                    ProductView,
                    FatalView,
                >(f@),
            }),
    {
        let table = db.table_name();
        let product_list = ProductList::new(db);
        match product_list.get_by_id(provider, product_id) {
            Ok(Some(s)) => Ok(s),
            Ok(None) => Err(Fatal::RelatedEntityNotFound { id: product_id, table }),
            Err(f) => Err(f),
        }
    }
}

} // verus!
