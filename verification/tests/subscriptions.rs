use trailbase::records::RecordAction;
use trailbase::subscriptions::{dead_subscriptions, Delivery, SubscriptionId, Subscriptions};

fn ids(v: Option<&Vec<(i64, &'static str)>>) -> Option<Vec<i64>> {
    v.map(|subs| subs.iter().map(|s| s.0).collect())
}

#[test]
fn hook_is_installed_with_the_first_subscription() {
    let mut subs: Subscriptions<&'static str> = Subscriptions::new();
    assert_eq!(subs.num_record_subscriptions(), 0);
    assert_eq!(subs.num_table_subscriptions(), 0);

    // The first record subscription installs the hook.
    assert!(subs.add_record_subscriber("t", 1, 10, "a"));
    assert!(!subs.add_record_subscriber("t", 1, 11, "b"));
    assert!(!subs.add_record_subscriber("t", 2, 12, "c"));
    // Table subscriptions exist already through records: no new hook.
    assert!(!subs.add_table_subscriber("t", 13, "d"));

    assert_eq!(subs.num_record_subscriptions(), 3);
    assert_eq!(subs.num_table_subscriptions(), 1);
    assert_eq!(ids(subs.record_subscribers("t", 1)), Some(vec![10, 11]));
    assert_eq!(ids(subs.record_subscribers("t", 2)), Some(vec![12]));
    assert_eq!(ids(subs.record_subscribers("t", 3)), None);
    assert_eq!(ids(subs.table_subscribers("t")), Some(vec![13]));
    assert!(subs.has_subscribers("t", 3));
    assert!(!subs.has_subscribers("u", 1));
}

#[test]
fn table_subscription_alone_installs_the_hook() {
    let mut subs: Subscriptions<&'static str> = Subscriptions::new();
    assert!(subs.add_table_subscriber("t", 1, "a"));
    assert!(!subs.add_table_subscriber("u", 2, "b"));
    // A first record subscription asks for the hook again; installing it twice is harmless.
    assert!(subs.add_record_subscriber("t", 5, 3, "c"));
}

#[test]
fn removing_the_last_subscription_removes_the_hook() {
    let mut subs: Subscriptions<&'static str> = Subscriptions::new();
    subs.add_record_subscriber("t", 1, 10, "a");
    subs.add_table_subscriber("t", 11, "b");

    let record = SubscriptionId {
        table_name: "t".to_string(),
        row_id: Some(1),
        sub_id: 10,
    };
    let table = SubscriptionId {
        table_name: "t".to_string(),
        row_id: None,
        sub_id: 11,
    };
    let unknown = SubscriptionId {
        table_name: "t".to_string(),
        row_id: Some(1),
        sub_id: 99,
    };

    assert!(!subs.remove_subscriber(&unknown));
    assert_eq!(subs.num_record_subscriptions(), 1);
    assert!(!subs.remove_subscriber(&record));
    assert_eq!(ids(subs.record_subscribers("t", 1)), None);
    assert!(subs.remove_subscriber(&table));
    assert_eq!(subs.num_table_subscriptions(), 0);
    // Nothing left to remove.
    assert!(!subs.remove_subscriber(&table));
}

#[test]
fn brokering_drops_dead_subscribers() {
    let deliveries = vec![
        Delivery::Sent,
        Delivery::ChannelClosed,
        Delivery::AccessDenied,
        Delivery::ChannelFull,
        Delivery::ApiMissing,
    ];
    assert_eq!(dead_subscriptions(&deliveries, true), vec![1, 2, 4]);
    assert_eq!(dead_subscriptions(&deliveries, false), vec![1, 4]);
    assert_eq!(dead_subscriptions(&vec![], true), Vec::<usize>::new());

    let mut subs: Subscriptions<&'static str> = Subscriptions::new();
    for (id, name) in [(0, "a"), (1, "b"), (2, "c"), (3, "d"), (4, "e")] {
        subs.add_record_subscriber("t", 7, id, name);
    }
    subs.add_table_subscriber("t", 20, "x");
    assert!(!subs.prune_record_subscribers("t", 7, &vec![1, 2, 4], RecordAction::Update));
    // `swap_remove` from the back: 4 goes, then 2 takes the last one's place, then 1.
    assert_eq!(ids(subs.record_subscribers("t", 7)), Some(vec![0, 3]));

    // A deleted record loses every subscriber.
    assert!(!subs.prune_record_subscribers("t", 7, &vec![], RecordAction::Delete));
    assert_eq!(ids(subs.record_subscribers("t", 7)), None);

    // Pruning the last table subscriber leaves nothing: the hook goes.
    assert!(subs.prune_table_subscribers("t", &vec![0]));
    assert_eq!(subs.num_table_subscriptions(), 0);
}

#[test]
fn missing_table_drops_all_its_subscriptions() {
    let mut subs: Subscriptions<&'static str> = Subscriptions::new();
    subs.add_record_subscriber("gone", 1, 1, "a");
    subs.add_record_subscriber("kept", 1, 2, "b");
    subs.add_table_subscriber("gone", 3, "c");

    assert!(!subs.remove_table("gone"));
    assert_eq!(ids(subs.record_subscribers("gone", 1)), None);
    assert_eq!(ids(subs.table_subscribers("gone")), None);
    assert_eq!(ids(subs.record_subscribers("kept", 1)), Some(vec![2]));

    assert!(subs.remove_table("kept"));
    assert_eq!(subs.num_record_subscriptions(), 0);
}
