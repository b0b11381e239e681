use ble_session::make_key;
use ble_session::stack::SubscriptionKind;
use ble_session::subscriptions::{forward, kind_name, Subscriptions};

#[test]
fn a_key_joins_its_parts_verbatim() {
    assert_eq!(make_key("dev", "180F", "2A19"), "dev|180F|2A19");
    assert_eq!(make_key("", "", ""), "||");
    assert_eq!(make_key("a|b", "c", "d"), "a|b|c|d");
    assert_eq!(make_key("a", "b|c", "d"), make_key("a|b", "c", "d"));
    assert_eq!(make_key("d\u{e9}v", " s ", "C"), "d\u{e9}v| s |C");
}

#[test]
fn subscribing_twice_leaves_one_entry() {
    let mut subscriptions: Subscriptions<u32> = Subscriptions::new();
    assert_eq!(subscriptions.len(), 0);
    assert_eq!(subscriptions.subscribe("dev", "180F", "2A19", 1), None);
    assert_eq!(subscriptions.len(), 1);
    assert_eq!(subscriptions.subscribe("dev", "180F", "2A19", 2), Some(1));
    assert_eq!(subscriptions.len(), 1);
    assert!(subscriptions.is_subscribed("dev", "180F", "2A19"));
}

#[test]
fn unsubscribing_twice_is_no_error() {
    let mut subscriptions: Subscriptions<u32> = Subscriptions::new();
    subscriptions.subscribe("dev", "180F", "2A19", 1);
    subscriptions.subscribe("dev", "180F", "2A19", 2);
    assert_eq!(subscriptions.unsubscribe("dev", "180F", "2A19"), Some(2));
    assert_eq!(subscriptions.len(), 0);
    assert!(!subscriptions.is_subscribed("dev", "180F", "2A19"));
    assert_eq!(subscriptions.unsubscribe("dev", "180F", "2A19"), None);
    assert_eq!(subscriptions.len(), 0);
}

#[test]
fn subscriptions_of_different_characteristics_live_side_by_side() {
    let mut subscriptions: Subscriptions<&str> = Subscriptions::new();
    subscriptions.subscribe("dev", "180F", "2A19", "battery");
    subscriptions.subscribe("dev", "180D", "2A37", "heart");
    subscriptions.subscribe("other", "180F", "2A19", "other battery");
    assert_eq!(subscriptions.len(), 3);
    assert_eq!(subscriptions.unsubscribe("dev", "180D", "2A37"), Some("heart"));
    assert!(subscriptions.is_subscribed("dev", "180F", "2A19"));
    assert!(subscriptions.is_subscribed("other", "180F", "2A19"));
    assert!(!subscriptions.is_subscribed("dev", "180f", "2A19"));
    assert_eq!(subscriptions.len(), 2);
}

#[test]
fn a_decoded_item_is_forwarded_in_uppercase_hexadecimal() {
    let event = forward("dev", "180F", "2A19", SubscriptionKind::Notify, Some(vec![0x00, 0x5a, 0xff])).unwrap();
    assert_eq!(event.device_id, "dev");
    assert_eq!(event.service_uuid, "180F");
    assert_eq!(event.characteristic_uuid, "2A19");
    assert_eq!(event.value, "005AFF");
    assert_eq!(event.kind, SubscriptionKind::Notify);
    let event = forward("dev", "s", "c", SubscriptionKind::Indicate, Some(Vec::new())).unwrap();
    assert_eq!(event.value, "");
    assert_eq!(event.kind, SubscriptionKind::Indicate);
}

#[test]
fn an_item_that_was_not_decoded_is_dropped() {
    assert!(forward("dev", "180F", "2A19", SubscriptionKind::Notify, None).is_none());
}

#[test]
fn subscription_kinds_have_lowercase_names() {
    assert_eq!(kind_name(SubscriptionKind::Notify), "notify");
    assert_eq!(kind_name(SubscriptionKind::Indicate), "indicate");
}
