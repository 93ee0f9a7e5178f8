use uws_gateway::consumer::account;
use uws_gateway::consumer::consumer_list::ConsumerList;
use uws_gateway::consumer::factory::create_consumer;
use uws_gateway::consumer::Consumer;
use uws_gateway::db::FlatTable;
use uws_gateway::errors::DbError;
use uws_gateway::errors::Fatal;
use uws_gateway::provider::StoreProvider;
use uws_gateway::record::Record;
use uws_gateway::store::ModelAble;
use uws_gateway::store::SyncTable;

fn attrs(pairs: &[(&str, &str)]) -> Record {
    let mut record = Record::new();
    for (name, value) in pairs {
        record.insert(name, value);
    }
    record
}

fn related_tables() -> StoreProvider {
    let mut provider = StoreProvider::new();
    provider.add_table("subscribers", "id, name, subscription\n1, Sub A, 1\n2, Sub B, 1");
    provider.add_table(
        "subscriptions",
        "id, name, status, price, quota, expiry_date\n1, Plan A, 1, 10, 100, 2030-01-01 00:00:00",
    );
    provider
}

fn literal_store(table: &str) -> SyncTable {
    SyncTable::new(FlatTable::new_from_string(table.to_string()).unwrap())
}

#[test]
fn consumer_decrease_quota() {
    let mut consumer: account::Consumer = account::Consumer::new(&attrs(&[("quota", "128")]));

    consumer.decrease_quota(1);
    consumer.decrease_quota(2);

    assert_eq!(consumer.quota, 125)
}

#[test]
fn consumer_do_not_decrease_if_not_enough_quota() {
    let mut consumer: account::Consumer = account::Consumer::new(&attrs(&[("quota", "1")]));

    match consumer.decrease_quota(2) {
        Some(_) => (),
        None => println!("Not enough credit."),
    }

    assert_eq!(consumer.quota, 1)
}

#[test]
fn consumer_add_quota() {
    let mut consumer: account::Consumer = account::Consumer::new(&attrs(&[("quota", "1")]));

    match consumer.add_quota(100) {
        Some(_) => (),
        None => println!("Couldn't add quota."),
    }

    assert_eq!(consumer.quota, 101)
}

#[test]
fn create_consumer_reads_attributes_with_defaults() {
    let consumer = create_consumer(&attrs(&[("id", "7"), ("quota", "8"), ("access_token", "T-9")]));
    assert_eq!(consumer.id, 7);
    assert_eq!(consumer.quota, 8);
    assert_eq!(consumer.access_token, "T-9");

    let fallback = create_consumer(&Record::new());
    assert_eq!(fallback.id, 1);
    assert_eq!(fallback.quota, 10);
    assert_eq!(fallback.access_token, "A-B-C");
}

#[test]
fn get_consumer_by_id() {
    let id = 2;

    let table = "\
        id, subscriber, access_token
        1, 1, row1_value3
        2, 2, row2_value3\
        "
    .to_string();

    let db = SyncTable::new(FlatTable::new_from_string(table).unwrap());
    let consumer_list = ConsumerList::new(db);

    let consumer = consumer_list.get_by_id(&related_tables(), id).unwrap().unwrap();

    assert_eq!(consumer.id, id)
}

#[test]
fn get_consumer_by_access_token() {
    let access_token = "A-2";
    let id = 2;

    let table = "\
        id, subscriber, access_token
        1, 1, A-1
        2, 2, A-2\
        "
    .to_string();

    let db = SyncTable::new(FlatTable::new_from_string(table).unwrap());
    let consumer_list = ConsumerList::new(db);
    let consumer = consumer_list
        .get_by_access_token(&related_tables(), access_token)
        .unwrap()
        .unwrap();

    assert_eq!(consumer.id, id);
    assert_eq!(consumer.access_token, access_token)
}

#[test]
fn account_lookup_by_access_token() {
    let db = literal_store("id, quota, access_token\n1, 120, row1\n2, 130, row2");
    let provider = StoreProvider::new();

    let consumer = account::Consumer::get_by_attr(&db, &provider, "access_token", "row2")
        .unwrap()
        .unwrap();

    assert_eq!(consumer.id, 2);
    assert_eq!(consumer.quota, 130);
}

#[test]
fn consumer_lookup_miss_is_empty_not_fatal() {
    let db = literal_store("id, subscriber, access_token\n1, 1, A-1");
    let consumer_list = ConsumerList::new(db);

    let found = consumer_list.get_by_access_token(&related_tables(), "absent").unwrap();
    assert!(found.is_none());
}

#[test]
fn consumer_missing_subscriber_field_is_fatal() {
    let db = literal_store("id, access_token\n1, A-1");
    let consumer_list = ConsumerList::new(db);

    let err = consumer_list.get_by_id(&related_tables(), 1).unwrap_err();
    assert_eq!(err, Fatal::ConversionFailure("subscriber".to_string()));
    assert_eq!(
        err.message(),
        "Can't convert! Missing or invalid field: subscriber".to_string()
    );
}

#[test]
fn consumer_unparsable_id_is_fatal() {
    let db = literal_store("id, subscriber, access_token\nx1, 1, A-1");
    let consumer_list = ConsumerList::new(db);

    let err = consumer_list.get_by_access_token(&related_tables(), "A-1").unwrap_err();
    assert_eq!(err, Fatal::ConversionFailure("id".to_string()));
}

#[test]
fn consumer_without_subscribers_table_is_fatal() {
    let db = literal_store("id, subscriber, access_token\n1, 1, A-1");
    let consumer_list = ConsumerList::new(db);

    let err = consumer_list.get_by_id(&StoreProvider::new(), 1).unwrap_err();
    assert_eq!(
        err,
        Fatal::Source(DbError::MissingSource("subscribers".to_string()))
    );
}

#[test]
fn consumer_fake_links_the_given_subscriber() {
    let consumer = Consumer::fake(&attrs(&[("id", "5"), ("subscriber", "4")]));
    assert_eq!(consumer.id, 5);
    assert_eq!(consumer.subscriber.id, 4);
    assert_eq!(consumer.access_token, "A-B-C");
}

#[test]
fn consumer_new_resolves_the_subscriber() {
    let consumer = Consumer::new(&related_tables(), 9, "T-1".to_string(), 2).unwrap();
    assert_eq!(consumer.id, 9);
    assert_eq!(consumer.subscriber.id, 2);
    assert_eq!(consumer.subscriber.subscription.id, 1);
}

#[test]
fn fetch_subscriber_miss_names_id_and_table() {
    let mut provider = StoreProvider::new();
    provider.add_table("subscribers", "id, name, subscription\n1, Sub A, 1");

    let err = Consumer::new(&provider, 9, "T-1".to_string(), 8).unwrap_err();
    assert_eq!(
        err,
        Fatal::RelatedEntityNotFound { id: 8, table: "subscribers".to_string() }
    );
    assert_eq!(
        err.message(),
        "Entity with id:8 is not found in table subscribers!".to_string()
    );
}
