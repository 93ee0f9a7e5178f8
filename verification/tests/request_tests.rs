use uws_gateway::db::FlatTable;
use uws_gateway::provider::StoreProvider;
use uws_gateway::record::Record;
use uws_gateway::request::request_list::RequestList;
use uws_gateway::request::Request;
use uws_gateway::store::SyncTable;

fn full_provider() -> StoreProvider {
    let mut provider = StoreProvider::new();
    provider.add_table(
        "services",
        "id, name, slug, version, status, base_url, price, requests, product\n\
         1, Service A, service_a, v1.0.0, 1, http://128.0.0.1/123/45, 2, 10, 1\n\
         2, Service B, service_b, v2.0.0, 2, http://129.0.0.1/123/45, 4, 109, 2",
    );
    provider.add_table(
        "products",
        "id, slug, requests\n1, product_a, 10\n2, product_b, 11",
    );
    provider.add_table(
        "consumers",
        "id, subscriber, access_token\n1, 1, A-1\n2, 2, A-2",
    );
    provider.add_table(
        "subscribers",
        "id, name, subscription\n1, Sub A, 1\n2, Sub B, 1",
    );
    provider.add_table(
        "subscriptions",
        "id, name, status, price, quota, expiry_date\n1, Plan A, 1, 10, 100, 2030-01-01 00:00:00",
    );
    provider
}

#[test]
fn get_request_by_id() {
    let id = "UUID-1";

    let table = "\
        id, product_slug, service_slug, service_version, url, status, price, consumer, service
        UUID-1, product_a, service_slug_a, v1.0.0, http://128.0.0.1/123/45, 2, 0, 1, 1
        UUID-2, product_b, service_slug_b, v2.0.0, http://129.0.0.1/123/45, 3, 1, 2, 2
        "
    .to_string();

    let db = SyncTable::new(FlatTable::new_from_string(table).unwrap());
    let request_list = RequestList::new(db);

    let request = request_list.get_by_id(&full_provider(), id).unwrap().unwrap();

    assert_eq!(request.id, id)
}

#[test]
fn request_conversion_fills_every_field() {
    let table = "\
        id, product_slug, service_slug, service_version, url, status, price, consumer, service
        UUID-1, product_a, service_slug_a, v1.0.0, http://128.0.0.1/123/45, 2, 0, 1, 1
        "
    .to_string();

    let db = SyncTable::new(FlatTable::new_from_string(table).unwrap());
    let request_list = RequestList::new(db);

    let request = request_list.get_by_id(&full_provider(), "UUID-1").unwrap().unwrap();

    assert_eq!(request.status, 2);
    assert_eq!(request.price, 0);
    assert_eq!(request.product_slug, "product_a");
    assert_eq!(request.consumer.id, 1);
    assert_eq!(request.consumer.subscriber.id, 1);
    assert_eq!(request.service.id, 1);
    assert_eq!(request.service.product.id, 1);
}

#[test]
fn request_fake_uses_defaults() {
    let request = Request::fake(&Record::new());
    assert_eq!(request.id, "UUID");
    assert_eq!(request.status, 0);
    assert_eq!(request.price, 2);
    assert_eq!(request.service.id, 1);
    assert_eq!(request.consumer.id, 1);
    assert_eq!(request.url, "https://A-B-C.com");
}

#[test]
fn request_new_resolves_service_and_consumer() {
    let request = Request::new(
        &full_provider(),
        "UUID-9".to_string(),
        "product_a".to_string(),
        "service_a".to_string(),
        "v1.0.0".to_string(),
        "http://128.0.0.1/".to_string(),
        2,
        1,
        200,
        4,
    )
    .unwrap();

    assert_eq!(request.id, "UUID-9");
    assert_eq!(request.service.id, 2);
    assert_eq!(request.consumer.id, 1);
    assert_eq!(request.status, 200);
}
