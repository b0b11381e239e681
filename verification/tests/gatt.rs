use ble_session::errors::{BleError, Guidance, StackCall};
use ble_session::gatt::{describe_characteristic, describe_services, GattFlow, GattOutcome, Operation};
use ble_session::registry::DeviceRegistry;
use ble_session::resolver::PeripheralInfo;
use ble_session::stack::{
    CharacteristicInfo, ServiceInfo, StackReply, StackRequest, SubscriptionKind, Target, Tier, UuidForm,
    WriteKind,
};
use ble_session::uuid::uuid_in;
use ble_session::BleDevice;

fn peripheral(identifier: Option<&str>, address: Option<&str>) -> PeripheralInfo {
    PeripheralInfo { identifier: identifier.map(|s| s.to_string()), address: address.map(|s| s.to_string()) }
}

fn listing(items: Vec<PeripheralInfo>) -> StackReply {
    StackReply::Listing(Ok(items))
}

fn registry() -> DeviceRegistry {
    let mut registry = DeviceRegistry::new();
    registry.upsert(BleDevice {
        identifier: "dev".to_string(),
        name: None,
        address: "AA".to_string(),
        rssi: None,
        tx_power: None,
        connectable: true,
        paired: false,
        manufacturer_data: Vec::new(),
        services: Vec::new(),
        adv_data: None,
        raw_adv_data: None,
    });
    registry
}

fn scanned(index: usize) -> Target {
    Target { tier: Tier::Scanned, index }
}

fn characteristic(uuid: &str, flags: [bool; 5]) -> CharacteristicInfo {
    CharacteristicInfo {
        uuid: uuid.to_string(),
        can_read: flags[0],
        can_write_request: flags[1],
        can_write_command: flags[2],
        can_notify: flags[3],
        can_indicate: flags[4],
    }
}

/// Drives a read against a stack that knows the characteristic under one
/// UUID only, and counts the read calls.
fn read_against(known_service: &str, known_characteristic: &str, service: &str, given: &str) -> (Result<String, BleError>, usize) {
    let registry = registry();
    let (mut flow, mut request) = GattFlow::begin("dev", &registry, Operation::Read);
    let mut reads = 0;
    loop {
        let reply = match request {
            StackRequest::ListScanResults => listing(vec![peripheral(Some("dev"), Some("AA"))]),
            StackRequest::ListPaired => listing(Vec::new()),
            StackRequest::QueryConnection(_) => StackReply::Connection(Ok(true)),
            StackRequest::Connect { .. } => StackReply::Completed(Ok(())),
            StackRequest::Read { form, .. } => {
                reads += 1;
                if uuid_in(form, service) == known_service && uuid_in(form, given) == known_characteristic {
                    StackReply::Value(Ok(vec![0x01, 0xAB, 0xFF]))
                } else {
                    StackReply::Value(Err("characteristic not found".to_string()))
                }
            }
            other => panic!("unexpected request {:?}", other),
        };
        match flow.step(reply) {
            Some(next) => request = next,
            None => break,
        }
    }
    let result = match flow.conclude().unwrap() {
        Ok(GattOutcome::Value(text)) => Ok(text),
        Ok(other) => panic!("unexpected outcome {:?}", other),
        Err(error) => Err(error),
    };
    (result, reads)
}

#[test]
fn a_short_uuid_is_read_in_its_full_form() {
    let (result, reads) = read_against(
        "0000180F-0000-1000-8000-00805F9B34FB",
        "00002A19-0000-1000-8000-00805F9B34FB",
        "180f",
        "2a19",
    );
    assert_eq!(result.unwrap(), "01ABFF");
    assert_eq!(reads, 4);
}

#[test]
fn a_full_uuid_is_read_in_its_short_form() {
    let (result, reads) = read_against(
        "180F",
        "2A19",
        "0000180f-0000-1000-8000-00805f9b34fb",
        "00002a19-0000-1000-8000-00805f9b34fb",
    );
    assert_eq!(result.unwrap(), "01ABFF");
    assert_eq!(reads, 7);
}

#[test]
fn a_uuid_known_as_given_is_read_at_once() {
    let (result, reads) = read_against("180f", "2a19", "180f", "2a19");
    assert_eq!(result.unwrap(), "01ABFF");
    assert_eq!(reads, 1);
}

#[test]
fn a_read_is_given_up_after_nine_attempts() {
    let (result, reads) = read_against("nothing", "nothing", "180f", "2a19");
    let error = result.unwrap_err();
    assert!(matches!(error, BleError::ReadExhausted));
    assert_eq!(error.message(), "读取特征值失败：所有 UUID 形式均未成功");
    assert_eq!(reads, 9);
}

#[test]
fn a_read_pauses_before_each_retry_but_not_between_forms() {
    let registry = registry();
    let (mut flow, _) = GattFlow::begin("dev", &registry, Operation::Read);
    flow.step(listing(vec![peripheral(Some("dev"), None)]));
    let first = flow.step(StackReply::Connection(Ok(true)));
    assert_eq!(first, Some(StackRequest::Read { target: scanned(0), form: UuidForm::AsGiven, pause_ms: 0 }));
    let refused = || StackReply::Value(Err("no".to_string()));
    let mut seen: Vec<(UuidForm, u64)> = Vec::new();
    while let Some(StackRequest::Read { form, pause_ms, .. }) = flow.step(refused()) {
        seen.push((form, pause_ms));
    }
    assert_eq!(
        seen,
        vec![
            (UuidForm::AsGiven, 120),
            (UuidForm::AsGiven, 120),
            (UuidForm::Full, 0),
            (UuidForm::Full, 120),
            (UuidForm::Full, 120),
            (UuidForm::Short, 0),
            (UuidForm::Short, 120),
            (UuidForm::Short, 120),
        ]
    );
    assert!(flow.is_over());
}

#[test]
fn a_read_connects_a_disconnected_peripheral_and_goes_on() {
    let registry = registry();
    let (mut flow, request) = GattFlow::begin("dev", &registry, Operation::Read);
    assert_eq!(request, StackRequest::ListScanResults);
    assert_eq!(flow.step(StackReply::Listing(Err("x".to_string()))), Some(StackRequest::ListPaired));
    let paired = Target { tier: Tier::Paired, index: 1 };
    assert_eq!(
        flow.step(listing(vec![peripheral(Some("x"), None), peripheral(None, Some("AA"))])),
        Some(StackRequest::QueryConnection(paired))
    );
    assert_eq!(
        flow.step(StackReply::Connection(Ok(false))),
        Some(StackRequest::Connect { target: paired, settle_ms: 150 })
    );
    assert_eq!(
        flow.step(StackReply::Completed(Err("could not connect".to_string()))),
        Some(StackRequest::Read { target: paired, form: UuidForm::AsGiven, pause_ms: 0 })
    );
    assert_eq!(flow.step(StackReply::Value(Ok(Vec::new()))), None);
    assert!(matches!(flow.conclude(), Some(Ok(GattOutcome::Value(text))) if text.is_empty()));
}

#[test]
fn a_command_on_an_unknown_device_fails_with_its_advice() {
    let registry = registry();
    let cases = [
        (Operation::ListServices, Guidance::ScanOrConnect, "未找到设备: ghost，请确认已扫描或已连接"),
        (Operation::Read, Guidance::ScanOrConnect, "未找到设备: ghost，请确认已扫描或已连接"),
        (Operation::Write(WriteKind::Request), Guidance::Plain, "未找到设备: ghost"),
        (Operation::Subscribe(SubscriptionKind::Notify), Guidance::Plain, "未找到设备: ghost"),
        (Operation::QueryMtu, Guidance::Plain, "未找到设备: ghost"),
    ];
    for (operation, guidance, text) in cases {
        let (mut flow, _) = GattFlow::begin("ghost", &registry, operation);
        assert_eq!(flow.step(listing(vec![peripheral(Some("dev"), Some("AA"))])), Some(StackRequest::ListPaired));
        assert_eq!(flow.step(listing(Vec::new())), None);
        let error = flow.conclude().unwrap().unwrap_err();
        assert!(matches!(&error, BleError::DeviceNotFound { device_id, guidance: g } if device_id == "ghost" && *g == guidance));
        assert_eq!(error.message(), text);
    }
}

#[test]
fn unsubscribing_from_an_unknown_device_is_no_error() {
    let registry = registry();
    let (mut flow, _) = GattFlow::begin("ghost", &registry, Operation::Unsubscribe);
    flow.step(listing(Vec::new()));
    assert_eq!(flow.step(StackReply::Listing(Err("x".to_string()))), None);
    assert!(matches!(flow.conclude(), Some(Ok(GattOutcome::Nothing))));
}

#[test]
fn a_failed_unsubscribe_call_is_swallowed() {
    let registry = registry();
    let (mut flow, _) = GattFlow::begin("dev", &registry, Operation::Unsubscribe);
    assert_eq!(
        flow.step(listing(vec![peripheral(Some("dev"), None)])),
        Some(StackRequest::Unsubscribe { target: scanned(0) })
    );
    assert_eq!(flow.step(StackReply::Completed(Err("not subscribed".to_string()))), None);
    assert!(matches!(flow.conclude(), Some(Ok(GattOutcome::Nothing))));
}

#[test]
fn a_write_connects_first_and_reports_the_stack_error() {
    let registry = registry();
    for (kind, call, text) in [
        (WriteKind::Request, StackCall::WriteRequest, "写入(请求)失败: denied"),
        (WriteKind::Command, StackCall::WriteCommand, "写入(命令)失败: denied"),
    ] {
        let (mut flow, _) = GattFlow::begin("dev", &registry, Operation::Write(kind));
        assert_eq!(
            flow.step(listing(vec![peripheral(Some("dev"), None)])),
            Some(StackRequest::QueryConnection(scanned(0)))
        );
        assert_eq!(
            flow.step(StackReply::Connection(Ok(false))),
            Some(StackRequest::Connect { target: scanned(0), settle_ms: 0 })
        );
        assert_eq!(
            flow.step(StackReply::Completed(Ok(()))),
            Some(StackRequest::Write { target: scanned(0), kind })
        );
        assert!(!flow.is_over());
        assert_eq!(flow.step(StackReply::Completed(Err("denied".to_string()))), None);
        let error = flow.conclude().unwrap().unwrap_err();
        assert!(matches!(&error, BleError::StackOperationFailed { call: c, .. } if *c == call));
        assert_eq!(error.message(), text);
    }
}

#[test]
fn a_write_to_a_connected_peripheral_needs_no_connect() {
    let registry = registry();
    let (mut flow, _) = GattFlow::begin("dev", &registry, Operation::Write(WriteKind::Command));
    flow.step(listing(vec![peripheral(Some("dev"), None)]));
    assert_eq!(
        flow.step(StackReply::Connection(Err("?".to_string()))),
        Some(StackRequest::Write { target: scanned(0), kind: WriteKind::Command })
    );
    assert_eq!(flow.step(StackReply::Completed(Ok(()))), None);
    assert!(matches!(flow.conclude(), Some(Ok(GattOutcome::Nothing))));
}

#[test]
fn subscribing_opens_the_stream_without_connecting() {
    let registry = registry();
    for (mode, text) in [
        (SubscriptionKind::Notify, "订阅通知失败: busy"),
        (SubscriptionKind::Indicate, "订阅指示失败: busy"),
    ] {
        let (mut flow, _) = GattFlow::begin("dev", &registry, Operation::Subscribe(mode));
        assert_eq!(
            flow.step(listing(vec![peripheral(Some("dev"), None)])),
            Some(StackRequest::Subscribe { target: scanned(0), mode })
        );
        assert_eq!(flow.step(StackReply::Completed(Ok(()))), None);
        assert!(matches!(flow.conclude(), Some(Ok(GattOutcome::Nothing))));

        let (mut flow, _) = GattFlow::begin("dev", &registry, Operation::Subscribe(mode));
        flow.step(listing(vec![peripheral(Some("dev"), None)]));
        flow.step(StackReply::Completed(Err("busy".to_string())));
        assert_eq!(flow.conclude().unwrap().unwrap_err().message(), text);
    }
}

#[test]
fn a_command_acts_on_the_peripheral_with_the_identifier() {
    let registry = registry();
    let (mut flow, _) = GattFlow::begin("dev", &registry, Operation::QueryMtu);
    let scan = vec![peripheral(Some("x"), Some("AA")), peripheral(Some("dev"), None)];
    assert_eq!(flow.step(listing(scan)), Some(StackRequest::QueryMtu(scanned(1))));

    let (mut flow, _) = GattFlow::begin("dev", &registry, Operation::QueryMtu);
    let scan = vec![peripheral(Some("x"), Some("AA")), peripheral(Some("y"), Some("AA"))];
    assert_eq!(flow.step(listing(scan)), Some(StackRequest::QueryMtu(scanned(0))));

    let (mut flow, _) = GattFlow::begin("dev", &registry, Operation::QueryMtu);
    let scan = vec![peripheral(Some("x"), Some("AA"))];
    let paired = vec![peripheral(Some("dev"), None)];
    assert_eq!(flow.step(listing(scan)), Some(StackRequest::QueryMtu(scanned(0))));
    let (mut flow, _) = GattFlow::begin("dev", &registry, Operation::QueryMtu);
    assert_eq!(flow.step(listing(vec![peripheral(Some("x"), Some("BB"))])), Some(StackRequest::ListPaired));
    assert_eq!(
        flow.step(listing(paired)),
        Some(StackRequest::QueryMtu(Target { tier: Tier::Paired, index: 0 }))
    );
}

#[test]
fn the_mtu_is_handed_through() {
    let registry = registry();
    let (mut flow, _) = GattFlow::begin("dev", &registry, Operation::QueryMtu);
    assert_eq!(
        flow.step(listing(vec![peripheral(Some("dev"), None)])),
        Some(StackRequest::QueryMtu(scanned(0)))
    );
    assert_eq!(flow.step(StackReply::Mtu(Ok(247))), None);
    assert!(matches!(flow.conclude(), Some(Ok(GattOutcome::Mtu(247)))));

    let (mut flow, _) = GattFlow::begin("dev", &registry, Operation::QueryMtu);
    flow.step(listing(vec![peripheral(Some("dev"), None)]));
    flow.step(StackReply::Mtu(Err("no link".to_string())));
    assert_eq!(flow.conclude().unwrap().unwrap_err().message(), "获取 MTU 失败: no link");
}

#[test]
fn services_are_listed_with_property_names_in_order() {
    let registry = registry();
    let (mut flow, _) = GattFlow::begin("dev", &registry, Operation::ListServices);
    assert_eq!(
        flow.step(listing(vec![peripheral(Some("dev"), None)])),
        Some(StackRequest::ListServices(scanned(0)))
    );
    let services = vec![
        ServiceInfo {
            uuid: "180F".to_string(),
            characteristics: vec![
                characteristic("2A19", [true, false, false, true, false]),
                characteristic("2A1A", [true, true, true, true, true]),
            ],
        },
        ServiceInfo { uuid: "180A".to_string(), characteristics: Vec::new() },
    ];
    assert_eq!(flow.step(StackReply::Services(Ok(services))), None);
    let listed = match flow.conclude() {
        Some(Ok(GattOutcome::Services(listed))) => listed,
        other => panic!("unexpected result {:?}", other.map(|r| r.map(|_| ()))),
    };
    assert_eq!(listed.len(), 2);
    assert_eq!(listed[0].uuid, "180F");
    assert_eq!(listed[0].characteristics.len(), 2);
    assert_eq!(listed[0].characteristics[0].uuid, "2A19");
    assert_eq!(listed[0].characteristics[0].properties, vec!["Read".to_string(), "Notify".to_string()]);
    assert_eq!(
        listed[0].characteristics[1].properties,
        vec![
            "Read".to_string(),
            "WriteRequest".to_string(),
            "WriteCommand".to_string(),
            "Notify".to_string(),
            "Indicate".to_string(),
        ]
    );
    assert_eq!(listed[1].uuid, "180A");
    assert!(listed[1].characteristics.is_empty());

    let (mut flow, _) = GattFlow::begin("dev", &registry, Operation::ListServices);
    flow.step(listing(vec![peripheral(Some("dev"), None)]));
    flow.step(StackReply::Services(Err("not connected".to_string())));
    assert_eq!(flow.conclude().unwrap().unwrap_err().message(), "获取服务失败: not connected");
}

#[test]
fn a_characteristic_without_properties_lists_none() {
    let listed = describe_characteristic(&characteristic("2A19", [false; 5]));
    assert_eq!(listed.uuid, "2A19");
    assert!(listed.properties.is_empty());
    assert!(describe_services(&Vec::new()).is_empty());
}

#[test]
fn an_unexpected_reply_repeats_the_pending_gatt_request() {
    let registry = registry();
    let (mut flow, _) = GattFlow::begin("dev", &registry, Operation::QueryMtu);
    assert_eq!(flow.step(StackReply::Mtu(Ok(1))), Some(StackRequest::ListScanResults));
    flow.step(listing(vec![peripheral(Some("dev"), None)]));
    assert_eq!(flow.step(StackReply::Completed(Ok(()))), Some(StackRequest::QueryMtu(scanned(0))));
    assert!(flow.conclude().is_none());
}
