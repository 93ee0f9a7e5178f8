//! Requests: one routed call, binding a consumer to the service it hit.
//! Both the `consumer` and `service` fields are foreign keys, each
//! resolved against its own freshly opened store.

pub mod request_list;

use vstd::prelude::*;

use crate::consumer::consumer_list::ConsumerList;
use crate::consumer::consumer_fake_spec;
use crate::consumer::Consumer;
use crate::consumer::ConsumerView;
use crate::db::SourceView;
use crate::errors::Fatal;
use crate::errors::FatalView;
use crate::provider::StoreProvider;
use crate::record::attr_or;
use crate::record::Record;
use crate::service::service_fake_spec;
use crate::service::service_list::ServiceList;
use crate::service::Service;
use crate::service::ServiceView;
use crate::store::get_by_attr_spec;
use crate::store::get_table_instance;
use crate::store::SyncTable;
use crate::text::dec_rep;
use crate::text::digits_val;
use crate::text::lemma_small_digit_literals;
use crate::text::parse_u128;
use crate::text::parse_u32;
use crate::text::parse_uint_spec;

verus! {

/// One routed request: who called, what they hit, and what it cost.
#[derive(Debug)]
pub struct Request {
    pub id: String,
    pub consumer: Consumer,
    pub service: Service,
    pub product_slug: String,
    pub service_slug: String,
    pub service_version: String,
    pub url: String,
    pub status: u32,
    pub price: u128,
}

/// The model of a [`Request`].
pub ghost struct RequestView {
    pub id: Seq<char>,
    pub consumer: ConsumerView,
    pub service: ServiceView,
    pub product_slug: Seq<char>,
    pub service_slug: Seq<char>,
    pub service_version: Seq<char>,
    pub url: Seq<char>,
    pub status: u32,
    pub price: u128,
}

impl View for Request {
    type V = RequestView;

    open spec fn view(&self) -> RequestView {
        RequestView {
            id: self.id@,
            consumer: self.consumer@,
            service: self.service@,
            product_slug: self.product_slug@,
            service_slug: self.service_slug@,
            service_version: self.service_version@,
            url: self.url@,
            status: self.status,
            price: self.price,
        }
    }
}

/// What resolving a consumer foreign key yields: the converted related
/// entity, or a fatal failure naming the id and table when the related
/// lookup misses.
pub open spec fn fetch_consumer_spec(
    p: Map<Seq<char>, Seq<char>>,
    src: SourceView,
    table: Seq<char>,
    id: u128,
) -> Result<ConsumerView, FatalView> {
    match get_by_attr_spec::<Consumer>(p, src, "id"@, dec_rep(id as nat)) {
        Ok(Some(c)) => Ok(c),
        Ok(None) => Err(FatalView::RelatedEntityNotFound { id, table }),
        Err(f) => Err(f),
    }
}

/// What resolving a service foreign key yields: the converted related
/// entity, or a fatal failure naming the id and table when the related
/// lookup misses.
pub open spec fn fetch_service_spec(
    p: Map<Seq<char>, Seq<char>>,
    src: SourceView,
    table: Seq<char>,
    id: u128,
) -> Result<ServiceView, FatalView> {
    match get_by_attr_spec::<Service>(p, src, "id"@, dec_rep(id as nat)) {
        Ok(Some(s)) => Ok(s),
        Ok(None) => Err(FatalView::RelatedEntityNotFound { id, table }),
        Err(f) => Err(f),
    }
}

/// What [`Request::fake`] builds from an attribute map.
pub open spec fn request_fake_spec(m: Map<Seq<char>, Seq<char>>) -> RequestView {
    RequestView {
        id: attr_or(m, "id"@, "UUID"@),
        consumer: consumer_fake_spec(
            if m.contains_key("consumer"@) {
                Map::empty().insert("id"@, m["consumer"@])
            } else {
                Map::empty()
            },
        ),
        service: service_fake_spec(
            if m.contains_key("service"@) {
                Map::empty().insert("id"@, m["service"@])
            } else {
                Map::empty()
            },
        ),
        product_slug: attr_or(m, "product_slug"@, "default_product_service"@),
        service_slug: attr_or(m, "service_slug"@, "service_service_slug"@),
        service_version: attr_or(m, "service_version"@, "v0.0.1"@),
        url: attr_or(m, "url"@, "https://A-B-C.com"@),
        status: digits_val(attr_or(m, "status"@, "0"@)) as u32,
        price: digits_val(attr_or(m, "price"@, "2"@)) as u128,
    }
}

impl Request {
    /// Build a request, resolving its service and then its consumer
    /// through the provider.
    pub fn new(
        provider: &StoreProvider,
        id: String,
        product_slug: String,
        service_slug: String,
        service_version: String,
        url: String,
        service_id: u128,
        consumer_id: u128,
        status: u32,
        price: u128,
    ) -> (r: Result<Request, Fatal>)
        ensures
            (match r {
                Ok(q) => {
                    &&& q.id == id
                    &&& q.product_slug == product_slug
                    &&& q.service_slug == service_slug
                    &&& q.service_version == service_version
                    &&& q.url == url
                    &&& q.status == status
                    &&& q.price == price
                    &&& fetch_service_spec(
                        provider@,
                        SourceView::Named("services"@),
                        "services"@,
                        service_id,
                    ) == Ok::<ServiceView, FatalView>(q.service@)
                    &&& fetch_consumer_spec(
                        provider@,
                        SourceView::Named("consumers"@),
                        "consumers"@,
                        consumer_id,
                    ) == Ok::<ConsumerView, FatalView>(q.consumer@)
                },
                Err(f) => (match fetch_service_spec(
                    provider@,
                    SourceView::Named("services"@),
                    "services"@,
                    service_id,
                ) {
                    Err(e) => f@ == e,
                    Ok(_) => fetch_consumer_spec(
                        provider@,
                        SourceView::Named("consumers"@),
                        "consumers"@,
                        consumer_id,
                    ) == Err::<ConsumerView, FatalView>(f@),
                }),
            }),
    {
        let service = match Request::fetch_service(
            get_table_instance("services"),
            provider,
            service_id,
        ) {
            Ok(s) => s,
            Err(f) => {
                return Err(f);
            },
        };
        let consumer = match Request::fetch_consumer(
            get_table_instance("consumers"),
            provider,
            consumer_id,
        ) {
            Ok(c) => c,
            Err(f) => {
                return Err(f);
            },
        };
        Ok(
            Request {
                id,
                consumer,
                service,
                product_slug,
                service_slug,
                service_version,
                url,
                status,
                price,
            },
        )
    }

    /// Build a request from explicit attributes, faking the related
    /// consumer and service rather than resolving them; meant for
    /// composing tests.
    pub fn fake(attr: &Record) -> (r: Request)
        requires
            attr@.contains_key("status"@) ==> parse_uint_spec(attr@["status"@], u32::MAX as nat)
                is Some,
            attr@.contains_key("price"@) ==> parse_uint_spec(attr@["price"@], u128::MAX as nat)
                is Some,
            attr@.contains_key("service"@) ==> parse_uint_spec(
                attr@["service"@],
                u128::MAX as nat,
            ) is Some,
            attr@.contains_key("consumer"@) ==> parse_uint_spec(
                attr@["consumer"@],
                u128::MAX as nat,
            ) is Some,
        ensures
            r@ == request_fake_spec(attr@),
    {
        proof {
            lemma_small_digit_literals();
        }
        let id: String = match attr.get("id") {
            Some(v) => v,
            None => String::from_str("UUID"),
        };
        let product_slug: String = match attr.get("product_slug") {
            Some(v) => v,
            None => String::from_str("default_product_service"),
        };
        let service_slug: String = match attr.get("service_slug") {
            Some(v) => v,
            None => String::from_str("service_service_slug"),
        };
        let service_version: String = match attr.get("service_version") {
            Some(v) => v,
            None => String::from_str("v0.0.1"),
        };
        let url: String = match attr.get("url") {
            Some(v) => v,
            None => String::from_str("https://A-B-C.com"),
        };
        let status: u32 = match attr.get("status") {
            Some(v) => match parse_u32(v.as_str()) {
                Some(n) => n,
                None => {
                    proof {
                        assert(false);
                    }
                    0
                },
            },
            None => 0,
        };
        let price: u128 = match attr.get("price") {
            Some(v) => match parse_u128(v.as_str()) {
                Some(n) => n,
                None => {
                    proof {
                        assert(false);
                    }
                    0
                },
            },
            None => 2,
        };
        let service = match attr.get("service") {
            Some(service_id) => {
                let mut inner = Record::new();
                inner.insert("id", service_id.as_str());
                proof {
                    reveal_strlit("id");
                    reveal_strlit("quota");
                    reveal_strlit("status");
                    reveal_strlit("price");
                    assert("id"@.len() == 2);
                    assert("quota"@.len() == 5);
                    assert("status"@.len() == 6);
                    assert("price"@.len() == 5);
                    assert("id"@ != "quota"@ && "id"@ != "status"@ && "id"@ != "price"@);
                }
                Service::fake(&inner)
            },
            None => Service::fake(&Record::new()),
        };
        let consumer = match attr.get("consumer") {
            Some(consumer_id) => {
                let mut inner = Record::new();
                inner.insert("id", consumer_id.as_str());
                proof {
                    reveal_strlit("id");
                    reveal_strlit("subscriber");
                    assert("id"@.len() == 2);
                    assert("subscriber"@.len() == 10);
                    assert("id"@ != "subscriber"@);
                }
                Consumer::fake(&inner)
            },
            None => Consumer::fake(&Record::new()),
        };
        Request {
            id,
            consumer,
            service,
            product_slug,
            service_slug,
            service_version,
            url,
            status,
            price,
        }
    }

    /// Resolve a consumer id against the given store; a miss is fatal and
    /// names the id and the store's table.
    pub fn fetch_consumer(db: SyncTable, provider: &StoreProvider, consumer_id: u128) -> (r: Result<
        Consumer,
        Fatal,
    >)
        ensures
            (match r {
                Ok(c) => fetch_consumer_spec(provider@, db.src(), db.name(), consumer_id) == Ok::<
                    ConsumerView,
                    FatalView,
                >(c@),
                Err(f) => fetch_consumer_spec(provider@, db.src(), db.name(), consumer_id)
                    == Err::<ConsumerView, FatalView>(f@),
            }),
    {
        let table = db.table_name();
        let consumer_list = ConsumerList::new(db);
        match consumer_list.get_by_id(provider, consumer_id) {
            Ok(Some(c)) => Ok(c),
            Ok(None) => Err(Fatal::RelatedEntityNotFound { id: consumer_id, table }),
            Err(f) => Err(f),
        }
    }

    /// Resolve a service id against the given store; a miss is fatal and
    /// names the id and the store's table.
    pub fn fetch_service(db: SyncTable, provider: &StoreProvider, service_id: u128) -> (r: Result<
        Service,
        Fatal,
    >)
        ensures
            (match r {
                Ok(s) => fetch_service_spec(provider@, db.src(), db.name(), service_id) == Ok::<
                    ServiceView,
                    FatalView,
                >(s@),
                Err(f) => fetch_service_spec(provider@, db.src(), db.name(), service_id) == Err::<
                    ServiceView,
                    FatalView,
                >(f@),
            }),
    {
        let table = db.table_name();
        let service_list = ServiceList::new(db);
        match service_list.get_by_id(provider, service_id) {
            Ok(Some(s)) => Ok(s),
            Ok(None) => Err(Fatal::RelatedEntityNotFound { id: service_id, table }),
            Err(f) => Err(f),
        }
    }
}

} // verus!
