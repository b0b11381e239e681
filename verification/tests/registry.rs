use ble_session::advert::Sighting;
use ble_session::device::keys_once;
use ble_session::registry::DeviceRegistry;
use ble_session::BleDevice;

fn device(identifier: &str, name: Option<&str>, rssi: Option<i16>) -> BleDevice {
    BleDevice {
        identifier: identifier.to_string(),
        name: name.map(|n| n.to_string()),
        address: format!("addr-of-{}", identifier),
        rssi,
        tx_power: None,
        connectable: true,
        paired: false,
        manufacturer_data: Vec::new(),
        services: Vec::new(),
        adv_data: None,
        raw_adv_data: None,
    }
}

#[test]
fn a_new_registry_is_empty() {
    let registry = DeviceRegistry::new();
    assert_eq!(registry.len(), 0);
    assert!(registry.find("a").is_none());
    assert_eq!(registry.position("a"), None);
    assert!(registry.snapshot().is_empty());
}

#[test]
fn first_sighting_inserts_the_whole_record() {
    let mut registry = DeviceRegistry::new();
    registry.upsert(device("a", Some("Alpha"), Some(-40)));
    assert_eq!(registry.len(), 1);
    let found = registry.find("a").unwrap();
    assert_eq!(found.name.as_deref(), Some("Alpha"));
    assert_eq!(found.rssi, Some(-40));
    assert_eq!(found.address, "addr-of-a");
}

#[test]
fn a_learned_name_survives_sightings_without_one() {
    let mut registry = DeviceRegistry::new();
    registry.upsert(device("a", None, Some(-40)));
    registry.upsert(device("a", Some("Alpha"), Some(-50)));
    registry.upsert(device("a", None, Some(-60)));
    registry.upsert(device("a", Some("Other"), Some(-70)));
    registry.upsert(device("a", None, None));
    assert_eq!(registry.len(), 1);
    let found = registry.find("a").unwrap();
    assert_eq!(found.name.as_deref(), Some("Alpha"));
    assert_eq!(found.rssi, None);
}

#[test]
fn volatile_fields_follow_the_latest_sighting() {
    let mut registry = DeviceRegistry::new();
    registry.upsert(device("a", None, Some(-40)));
    let mut later = device("a", None, Some(-71));
    later.address = "moved".to_string();
    later.tx_power = Some(8);
    later.connectable = false;
    later.paired = true;
    later.manufacturer_data = vec![("004C".to_string(), "0215".to_string())];
    later.services = vec!["180F".to_string()];
    later.adv_data = Some(vec![("connectable".to_string(), "false".to_string())]);
    later.raw_adv_data = Some("1EFF".to_string());
    registry.upsert(later);
    let found = registry.find("a").unwrap();
    assert_eq!(found.identifier, "a");
    assert_eq!(found.address, "addr-of-a");
    assert_eq!(found.rssi, Some(-71));
    assert_eq!(found.tx_power, Some(8));
    assert!(!found.connectable);
    assert!(found.paired);
    assert_eq!(found.manufacturer_data, vec![("004C".to_string(), "0215".to_string())]);
    assert_eq!(found.services, vec!["180F".to_string()]);
    assert_eq!(found.adv_data, Some(vec![("connectable".to_string(), "false".to_string())]));
    assert_eq!(found.raw_adv_data.as_deref(), Some("1EFF"));
}

#[test]
fn records_keep_the_order_of_first_sightings() {
    let mut registry = DeviceRegistry::new();
    registry.upsert(device("a", None, None));
    registry.upsert(device("b", None, None));
    registry.upsert(device("a", None, Some(-1)));
    registry.upsert(device("c", None, None));
    let all = registry.snapshot();
    let ids: Vec<&str> = all.iter().map(|d| d.identifier.as_str()).collect();
    assert_eq!(ids, vec!["a", "b", "c"]);
    assert_eq!(registry.position("b"), Some(1));
    assert_eq!(registry.get(2).identifier, "c");
    assert_eq!(registry.address_of("b"), Some("addr-of-b".to_string()));
    assert_eq!(registry.address_of("z"), None);
}

#[test]
fn set_paired_flips_one_record_only() {
    let mut registry = DeviceRegistry::new();
    registry.upsert(device("a", None, None));
    registry.upsert(device("b", Some("Beta"), Some(-3)));
    assert!(registry.set_paired("b", true));
    assert!(!registry.set_paired("z", true));
    assert!(!registry.find("a").unwrap().paired);
    let b = registry.find("b").unwrap();
    assert!(b.paired);
    assert_eq!(b.name.as_deref(), Some("Beta"));
    assert_eq!(b.rssi, Some(-3));
    assert!(registry.set_paired("b", false));
    assert!(!registry.find("b").unwrap().paired);
    assert_eq!(registry.len(), 2);
}

#[test]
fn observing_a_sighting_records_and_returns_its_description() {
    let mut registry = DeviceRegistry::new();
    let sighting = Sighting {
        identifier: Some("a".to_string()),
        address: Some("AA:BB:CC:DD:EE:FF".to_string()),
        rssi: Some(-40),
        tx_power: None,
        connectable: Some(true),
        paired: None,
        manufacturer_data: None,
        services: None,
    };
    let seen = registry.observe(&sighting);
    assert_eq!(seen.identifier, "a");
    assert_eq!(seen.rssi, Some(-40));
    assert_eq!(registry.len(), 1);
    assert_eq!(registry.find("a").unwrap().raw_adv_data, seen.raw_adv_data);
    let again = Sighting { rssi: Some(-80), address: Some("other".to_string()), ..sighting };
    let seen = registry.observe(&again);
    assert_eq!(seen.address, "other");
    assert_eq!(registry.len(), 1);
    let record = registry.find("a").unwrap();
    assert_eq!(record.rssi, Some(-80));
    assert_eq!(record.address, "AA:BB:CC:DD:EE:FF");
}

#[test]
fn a_record_is_valid_if_its_mappings_hold_each_key_once() {
    let pair = |k: &str, v: &str| (k.to_string(), v.to_string());
    assert!(keys_once(&Vec::new()));
    assert!(keys_once(&vec![pair("a", "1"), pair("b", "1"), pair("A", "1")]));
    assert!(!keys_once(&vec![pair("a", "1"), pair("b", "2"), pair("a", "3")]));
    assert!(!keys_once(&vec![pair("a", "1"), pair("a", "1")]));
    let mut record = device("a", None, None);
    assert!(record.is_valid());
    record.manufacturer_data = vec![pair("004C", "01"), pair("00E0", "02")];
    record.adv_data = Some(vec![pair("rssi", "-1"), pair("connectable", "true")]);
    assert!(record.is_valid());
    record.adv_data = Some(vec![pair("rssi", "-1"), pair("rssi", "-2")]);
    assert!(!record.is_valid());
    record.adv_data = None;
    record.manufacturer_data = vec![pair("004C", "01"), pair("004C", "02")];
    assert!(!record.is_valid());
}

#[test]
fn a_described_record_is_valid() {
    let sighting = Sighting {
        identifier: Some("a".to_string()),
        address: None,
        rssi: Some(-40),
        tx_power: Some(1),
        connectable: Some(true),
        paired: None,
        manufacturer_data: Some(vec![(1, vec![1]), (2, vec![2]), (1, vec![3])]),
        services: Some(vec!["180F".to_string()]),
    };
    let record = sighting.describe();
    assert!(record.is_valid());
    assert_eq!(record.manufacturer_data.len(), 2);
    assert_eq!(record.adv_data.as_ref().unwrap().len(), 10);
}

#[test]
fn a_copy_of_a_record_is_equal_field_by_field() {
    let mut record = device("a", Some("Alpha"), Some(-40));
    record.manufacturer_data = vec![("004C".to_string(), "0215".to_string())];
    record.services = vec!["180F".to_string()];
    record.adv_data = Some(vec![("k".to_string(), "v".to_string())]);
    record.raw_adv_data = Some("00".to_string());
    let copy = record.duplicate();
    assert_eq!(copy.identifier, record.identifier);
    assert_eq!(copy.name, record.name);
    assert_eq!(copy.address, record.address);
    assert_eq!(copy.rssi, record.rssi);
    assert_eq!(copy.manufacturer_data, record.manufacturer_data);
    assert_eq!(copy.services, record.services);
    assert_eq!(copy.adv_data, record.adv_data);
    assert_eq!(copy.raw_adv_data, record.raw_adv_data);
}
