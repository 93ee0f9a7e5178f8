use uws_gateway::db::FlatTable;
use uws_gateway::errors::DbError;
use uws_gateway::errors::Fatal;
use uws_gateway::provider::StoreProvider;
use uws_gateway::record::Record;
use uws_gateway::service::service_list::ServiceList;
use uws_gateway::service::Service;
use uws_gateway::store::SyncTable;

fn products_provider() -> StoreProvider {
    let mut provider = StoreProvider::new();
    provider.add_table("products", "id, slug, requests\n1, product_a, 10\n2, product_b, 11");
    provider
}

#[test]
fn get_service_by_id() {
    let id: u128 = 2;

    let table = "\
        id, name, slug, version, status, base_url, price, requests, product
        1, Service A, service_a, v1.0.0, 1, http://128.0.0.1/123/45, 2, 10, 1
        2, Service B, service_a, v1.0.0, 2, http://129.0.0.1/123/45, 4, 109, 2
        "
    .to_string();

    let db = SyncTable::new(FlatTable::new_from_string(table).unwrap());
    let service_list = ServiceList::new(db);

    let service = service_list.get_by_id(&products_provider(), id).unwrap().unwrap();

    assert_eq!(service.id, id)
}

#[test]
fn get_service_by_slug() {
    let slug = "service_b";
    let id = 2;

    let table = "\
        id, name, slug, version, status, base_url, price, requests, product
        1, Service A, service_a, v1.0.0, 1, http://128.0.0.1/123/45, 2, 10, 1
        2, Service B, service_b, v1.0.0, 2, http://129.0.0.1/123/45, 4, 109, 2
        "
    .to_string();

    let db = SyncTable::new(FlatTable::new_from_string(table).unwrap());
    let service_list = ServiceList::new(db);
    let service = service_list.get_by_slug(&products_provider(), slug).unwrap().unwrap();

    assert_eq!(service.id, id);
    assert_eq!(service.slug, slug)
}

#[test]
fn service_fake_reads_quota_as_requests() {
    let mut attrs = Record::new();
    attrs.insert("quota", "42");
    attrs.insert("slug", "fast_service");
    let service = Service::fake(&attrs);
    assert_eq!(service.requests, 42);
    assert_eq!(service.slug, "fast_service");
    assert_eq!(service.version, "v0.0.1");
    assert_eq!(service.product.id, 1);
}

#[test]
fn service_lookup_without_products_table_is_fatal() {
    let table = "\
        id, name, slug, version, status, base_url, price, requests, product
        1, Service A, service_a, v1.0.0, 1, http://128.0.0.1/123/45, 2, 10, 1
        "
    .to_string();

    let db = SyncTable::new(FlatTable::new_from_string(table).unwrap());
    let service_list = ServiceList::new(db);

    let err = service_list.get_by_id(&StoreProvider::new(), 1).unwrap_err();
    assert_eq!(
        err,
        Fatal::Source(DbError::MissingSource("products".to_string()))
    );
}

#[test]
fn service_new_resolves_the_product() {
    let service = Service::new(
        &products_provider(),
        3,
        "Service C".to_string(),
        7,
        "service_c".to_string(),
        1,
        "v2.0.0".to_string(),
        "http://127.0.0.1/".to_string(),
        5,
        2,
    )
    .unwrap();

    assert_eq!(service.id, 3);
    assert_eq!(service.product.id, 2);
    assert_eq!(service.product.slug, "product_b");
}
