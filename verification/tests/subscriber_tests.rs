use uws_gateway::db::FlatTable;
use uws_gateway::errors::Fatal;
use uws_gateway::provider::StoreProvider;
use uws_gateway::record::Record;
use uws_gateway::store::SyncTable;
use uws_gateway::subscriber::subscriber_list::SubscriberList;
use uws_gateway::subscriber::subscriber_list::SubscriptionList;
use uws_gateway::subscriber::Subscriber;
use uws_gateway::subscriber::Subscription;

fn subscriber_attrs(pairs: &[(&str, &str)]) -> Record {
    let mut record = Record::new();
    for (name, value) in pairs {
        record.insert(name, value);
    }
    record
}

#[test]
fn test_fetching_subscription() {
    let id = 3;
    let subscriber = Subscriber::fake(&subscriber_attrs(&[
        ("id", "1"),
        ("subscription", id.to_string().as_str()),
    ]));
    assert_eq!(subscriber.subscription.id, id)
}

#[test]
fn mod_decrease_quota() {
    let mut subscription: Subscription =
        Subscription::fake(&subscriber_attrs(&[("quota", "128")]));

    subscription.decrease_quota(1);
    subscription.decrease_quota(2);

    assert_eq!(subscription.quota, 125)
}

#[test]
fn mod_do_not_decrease_if_not_enough_quota() {
    let mut subscription: Subscription = Subscription::fake(&subscriber_attrs(&[("quota", "1")]));

    match subscription.decrease_quota(2) {
        Some(_) => (),
        None => println!("Not enough credit."),
    }

    assert_eq!(subscription.quota, 1)
}

#[test]
fn mod_add_quota() {
    let mut subscription: Subscription = Subscription::fake(&subscriber_attrs(&[("quota", "1")]));

    match subscription.add_quota(100) {
        Some(_) => (),
        None => println!("Couldn't add quota."),
    }

    assert_eq!(subscription.quota, 101)
}

#[test]
fn get_subscriber_by_id() {
    let id: u128 = 2;

    let table = "\
        id, name, subscription
        1, Subscriber A, 1
        2, Subscriber B, 2
        "
    .to_string();

    let mut provider = StoreProvider::new();
    provider.add_table(
        "subscriptions",
        "id, name, status, price, quota, expiry_date\n\
         1, Startup 500, 1, 10000, 50, 2022-10-01 00:00:00\n\
         2, Golden 50, 2, 50000, 10, 2022-10-01 00:00:00",
    );

    let db = SyncTable::new(FlatTable::new_from_string(table).unwrap());
    let subscriber_list = SubscriberList::new(db);

    let subscriber = subscriber_list.get_by_id(&provider, id).unwrap().unwrap();

    assert_eq!(subscriber.id, id)
}

#[test]
fn get_subscription_by_id() {
    let id: u128 = 2;

    let table = "\
        id, name, status, price, quota, expiry_date
        1, Startup 500, 1, 10000, 50, 2022-10-01 00:00:00
        2, Golden 50, 2, 50000, 10, 2022-10-01 00:00:00
        "
    .to_string();

    let db = SyncTable::new(FlatTable::new_from_string(table).unwrap());
    let subscription_list = SubscriptionList::new(db);

    let subscription = subscription_list.get_by_id(&StoreProvider::new(), id).unwrap().unwrap();

    assert_eq!(subscription.id, id)
}

#[test]
fn dangling_subscription_names_id_and_table() {
    let table = "id, name, subscription\n1, Sub A, 3".to_string();
    let mut provider = StoreProvider::new();
    provider.add_table(
        "subscriptions",
        "id, name, status, price, quota, expiry_date\n1, Plan A, 1, 10, 100, 2030-01-01 00:00:00",
    );

    let db = SyncTable::new(FlatTable::new_from_string(table).unwrap());
    let subscriber_list = SubscriberList::new(db);

    let err = subscriber_list.get_by_id(&provider, 1).unwrap_err();
    assert_eq!(
        err,
        Fatal::RelatedEntityNotFound { id: 3, table: "subscriptions".to_string() }
    );
    assert_eq!(
        err.message(),
        "Entity with id:3 is not found in table subscriptions!".to_string()
    );
}

#[test]
fn subscription_status_too_wide_is_fatal() {
    let table = "\
        id, name, status, price, quota, expiry_date
        1, Plan A, 300, 10, 100, 2030-01-01 00:00:00
        "
    .to_string();

    let db = SyncTable::new(FlatTable::new_from_string(table).unwrap());
    let subscription_list = SubscriptionList::new(db);

    let err = subscription_list.get_by_id(&StoreProvider::new(), 1).unwrap_err();
    assert_eq!(err, Fatal::ConversionFailure("status".to_string()));
}

#[test]
fn subscription_add_quota_refuses_overflow() {
    let max = u128::MAX.to_string();
    let mut subscription =
        Subscription::fake(&subscriber_attrs(&[("quota", max.as_str())]));

    assert_eq!(subscription.add_quota(1), None);
    assert_eq!(subscription.quota, u128::MAX);
}

#[test]
fn subscriber_new_resolves_the_subscription() {
    let mut provider = StoreProvider::new();
    provider.add_table(
        "subscriptions",
        "id, name, status, price, quota, expiry_date\n4, Plan D, 1, 10, 100, 2030-01-01 00:00:00",
    );

    let subscriber = Subscriber::new(&provider, 6, "Someone".to_string(), 4).unwrap();
    assert_eq!(subscriber.id, 6);
    assert_eq!(subscriber.name, "Someone");
    assert_eq!(subscriber.subscription.id, 4);
    assert_eq!(subscriber.subscription.quota, 100);
}
