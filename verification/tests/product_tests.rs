use uws_gateway::db::FlatTable;
use uws_gateway::product::metered;
use uws_gateway::product::product_list::ProductList;
use uws_gateway::product::Product;
use uws_gateway::provider::StoreProvider;
use uws_gateway::record::Record;
use uws_gateway::store::SyncTable;

#[test]
fn product_add_request() {
    let mut product = metered::Product { price: 1, requests: 5 };

    product.add_request(1);

    assert_eq!(product.requests, 6);
}

#[test]
fn mod_add_request() {
    let mut product = Product {
        id: 1,
        requests: 5,
        slug: String::from("product"),
    };

    product.add_request(1);

    assert_eq!(product.requests, 6);
}

#[test]
fn get_product_by_id() {
    let id: u128 = 2;

    let table = "\
        id, slug, requests
        1, product_a, 10
        2, product_b, 11
        "
    .to_string();

    let db = SyncTable::new(FlatTable::new_from_string(table).unwrap());
    let product_list = ProductList::new(db);

    let product = product_list.get_by_id(&StoreProvider::new(), id).unwrap().unwrap();

    assert_eq!(product.id, id)
}

#[test]
fn get_product_by_slug() {
    let slug = "product_b";
    let id = 2;

    let table = "\
        id, requests, slug
        1, 10, product_a
        2, 11, product_b
        "
    .to_string();

    let db = SyncTable::new(FlatTable::new_from_string(table).unwrap());
    let product_list = ProductList::new(db);
    let product = product_list.get_by_slug(&StoreProvider::new(), slug).unwrap().unwrap();

    assert_eq!(product.id, id);
    assert_eq!(product.slug, slug)
}

#[test]
fn product_fake_reads_price_as_id() {
    let mut attrs = Record::new();
    attrs.insert("price", "9");
    let product = Product::fake(&attrs);
    assert_eq!(product.id, 9);
    assert_eq!(product.slug, "default_product");
    assert_eq!(product.requests, 10);
}

#[test]
fn metered_add_request_refuses_overflow() {
    let mut product = metered::Product { price: 1, requests: u128::MAX };
    assert_eq!(product.add_request(1), None);
    assert_eq!(product.requests, u128::MAX);
}
