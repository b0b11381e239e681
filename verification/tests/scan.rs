use ble_session::advert::Sighting;
use ble_session::registry::DeviceRegistry;
use ble_session::scan::{
    requested_duration, scan_limit, ScanInput, ScanLimit, ScanNext, ScanPhase, ScanSession, ScanSignal,
};

fn sighting(identifier: &str) -> Sighting {
    Sighting {
        identifier: Some(identifier.to_string()),
        address: Some("AA:BB:CC:DD:EE:FF".to_string()),
        rssi: Some(-50),
        tx_power: None,
        connectable: Some(true),
        paired: Some(false),
        manufacturer_data: None,
        services: None,
    }
}

/// A time on the session's clock, given in milliseconds.
fn ms(millis: u64) -> u64 {
    millis * 1_000_000
}

fn started(requested: Option<u64>, now: u64) -> ScanSession {
    let mut session = ScanSession::begin(requested);
    let out = session.step(ScanInput::Started, ms(now), true);
    assert_eq!(out.next, ScanNext::Wait);
    assert!(out.signal.is_none());
    session
}

#[test]
fn zero_seconds_means_unbounded() {
    assert_eq!(scan_limit(Some(0)), ScanLimit::Unbounded);
}

#[test]
fn long_requests_are_cut_to_the_maximum() {
    assert_eq!(scan_limit(Some(500)), ScanLimit::Seconds(180));
    assert_eq!(scan_limit(Some(181)), ScanLimit::Seconds(180));
    assert_eq!(scan_limit(Some(u64::MAX)), ScanLimit::Seconds(180));
}

#[test]
fn requests_in_range_are_kept() {
    assert_eq!(scan_limit(Some(1)), ScanLimit::Seconds(1));
    assert_eq!(scan_limit(Some(5)), ScanLimit::Seconds(5));
    assert_eq!(scan_limit(Some(180)), ScanLimit::Seconds(180));
}

#[test]
fn no_request_means_ten_seconds_not_unbounded() {
    assert_eq!(scan_limit(None), ScanLimit::Seconds(10));
    assert_ne!(scan_limit(None), scan_limit(Some(0)));
}

#[test]
fn a_wrapped_duration_wins_over_a_direct_one() {
    assert_eq!(requested_duration(Some(3), Some(7)), Some(3));
    assert_eq!(requested_duration(None, Some(7)), Some(7));
    assert_eq!(requested_duration(Some(0), None), Some(0));
    assert_eq!(requested_duration(None, None), None);
}

#[test]
fn a_session_begins_by_starting_the_adapter() {
    let session = ScanSession::begin(Some(5));
    assert_eq!(session.phase, ScanPhase::Starting);
    assert_eq!(session.limit, ScanLimit::Seconds(5));
    assert_eq!(session.restart_count, 0);
    assert_eq!(session.last_restart_at, None);
    assert!(!session.is_over());
}

#[test]
fn a_failed_start_is_reported_and_finishes_the_session() {
    let mut session = ScanSession::begin(None);
    let out = session.step(ScanInput::StartFailed("no radio".to_string()), ms(10), true);
    assert_eq!(out.next, ScanNext::Finish);
    let signal = out.signal.unwrap();
    assert!(signal.is_error());
    assert_eq!(signal.message(), "启动连续扫描失败: no radio");
    assert!(session.is_over());
    let out = session.step(ScanInput::Tick, ms(20), true);
    assert_eq!(out.next, ScanNext::Idle);
    assert!(out.signal.is_none());
}

#[test]
fn bounded_scan_of_five_seconds_sees_two_devices_and_completes_once() {
    let mut registry = DeviceRegistry::new();
    let mut session = ScanSession::begin(Some(5));
    let mut finishes = 0;
    let mut next = session.step(ScanInput::Started, ms(0), true).next;
    let mut now: u64 = 0;
    let mut discovered: Vec<String> = Vec::new();
    while next != ScanNext::Idle && now < 20_000 {
        assert!(next == ScanNext::Wait || next == ScanNext::Finish);
        if next == ScanNext::Finish {
            finishes += 1;
            next = session.step(ScanInput::Tick, ms(now), false).next;
            continue;
        }
        now += 1000;
        next = if now == 1000 {
            let (device, out) = session.advertise(&mut registry, &sighting("first"), ms(now), true);
            discovered.push(device.identifier);
            out.next
        } else if now == 2000 {
            let (device, out) = session.advertise(&mut registry, &sighting("second"), ms(now), true);
            discovered.push(device.identifier);
            out.next
        } else {
            session.step(ScanInput::Tick, ms(now), true).next
        };
    }
    assert_eq!(now, 5000);
    assert_eq!(finishes, 1);
    assert!(session.is_over());
    assert_eq!(discovered, vec!["first".to_string(), "second".to_string()]);
    let devices = registry.snapshot();
    assert_eq!(devices.len(), 2);
    assert_eq!(devices[0].identifier, "first");
    assert_eq!(devices[1].identifier, "second");
}

#[test]
fn a_bounded_scan_still_runs_just_before_its_deadline() {
    let mut session = started(Some(5), 100);
    assert_eq!(session.step(ScanInput::Tick, ms(5099), true).next, ScanNext::Wait);
    assert_eq!(session.step(ScanInput::Tick, ms(5100), true).next, ScanNext::Finish);
}

#[test]
fn a_bounded_scan_never_probes_the_radio() {
    let mut session = started(Some(180), 0);
    let mut now = 0;
    while now + 5000 < 180_000 {
        now += 5000;
        assert_eq!(session.step(ScanInput::Tick, ms(now), true).next, ScanNext::Wait);
    }
    assert_eq!(session.restart_count, 0);
}

#[test]
fn silence_of_forty_six_seconds_restarts_an_unbounded_scan_once() {
    let mut session = started(Some(0), 0);
    let mut restarts = 0;
    let mut infos: Vec<String> = Vec::new();
    let mut ticks: Vec<u64> = (1..=9).map(|k| k * 5000).collect();
    ticks.push(46_000);
    ticks.push(50_000);
    ticks.push(55_000);
    for now in ticks {
        assert_eq!(session.step(ScanInput::Tick, ms(now), true).next, ScanNext::ProbeRadio);
        let out = session.step(ScanInput::Radio(Some(true)), ms(now), true);
        assert!(out.signal.is_none());
        if out.next == ScanNext::Restart {
            assert_eq!(now, 46_000);
            restarts += 1;
            let out = session.step(ScanInput::Restarted, ms(now + 200), true);
            assert_eq!(out.next, ScanNext::Wait);
            let signal = out.signal.unwrap();
            assert!(!signal.is_error());
            assert_eq!(signal.event(), "scan-info");
            infos.push(signal.message());
        } else {
            assert_eq!(out.next, ScanNext::Wait);
        }
    }
    assert_eq!(restarts, 1);
    assert_eq!(infos, vec!["扫描已自动重启".to_string()]);
    assert_eq!(session.restart_count, 1);
    assert_eq!(session.last_restart_at, Some(ms(46_200)));
    assert_eq!(session.last_event_at, ms(46_200));
}

#[test]
fn exactly_forty_five_seconds_of_silence_is_no_stall() {
    let mut session = started(Some(0), 0);
    assert_eq!(session.step(ScanInput::Tick, ms(45_000), true).next, ScanNext::ProbeRadio);
    assert_eq!(session.step(ScanInput::Radio(None), ms(45_000), true).next, ScanNext::Wait);
    assert_eq!(session.step(ScanInput::Tick, ms(45_001), true).next, ScanNext::ProbeRadio);
    assert_eq!(session.step(ScanInput::Radio(None), ms(45_001), true).next, ScanNext::Restart);
}

#[test]
fn one_nanosecond_past_forty_five_seconds_is_a_stall() {
    let mut session = started(Some(0), 7);
    assert_eq!(session.step(ScanInput::Tick, ms(45_007) + 1, true).next, ScanNext::ProbeRadio);
    assert_eq!(session.step(ScanInput::Radio(Some(true)), ms(45_007) + 1, true).next, ScanNext::Restart);
}

#[test]
fn events_keep_the_scan_from_stalling() {
    let mut session = started(Some(0), 0);
    assert_eq!(session.step(ScanInput::Advertisement, ms(40_000), true).next, ScanNext::Wait);
    assert_eq!(session.step(ScanInput::Tick, ms(80_000), true).next, ScanNext::ProbeRadio);
    assert_eq!(session.step(ScanInput::Radio(Some(true)), ms(80_000), true).next, ScanNext::Wait);
    assert_eq!(session.step(ScanInput::ScanStarted, ms(84_000), true).next, ScanNext::Wait);
    assert_eq!(session.last_event_at, ms(84_000));
}

#[test]
fn stall_restarts_stop_after_five() {
    let mut session = started(Some(0), 0);
    let mut now = 0;
    let mut restarts = 0;
    for _ in 0..20 {
        now += 50_000;
        assert_eq!(session.step(ScanInput::Tick, ms(now), true).next, ScanNext::ProbeRadio);
        let out = session.step(ScanInput::Radio(Some(true)), ms(now), true);
        if out.next == ScanNext::Restart {
            restarts += 1;
            assert_eq!(session.step(ScanInput::Restarted, ms(now), true).next, ScanNext::Wait);
        } else {
            assert_eq!(out.next, ScanNext::Wait);
        }
    }
    assert_eq!(restarts, 5);
    assert_eq!(session.restart_count, 5);
    assert!(!session.is_over());
}

#[test]
fn a_restart_waits_for_the_backoff() {
    let mut session = started(Some(0), 0);
    assert_eq!(session.step(ScanInput::StreamEnded, ms(1000), true).next, ScanNext::Restart);
    assert_eq!(session.step(ScanInput::Restarted, ms(1200), true).next, ScanNext::Wait);
    session.last_event_at = 0;
    assert_eq!(session.step(ScanInput::Tick, ms(31_200), true).next, ScanNext::ProbeRadio);
    assert_eq!(session.step(ScanInput::Radio(Some(true)), ms(31_200), true).next, ScanNext::Wait);
    session.last_event_at = 0;
    assert_eq!(session.step(ScanInput::Tick, ms(46_000), true).next, ScanNext::ProbeRadio);
    assert_eq!(session.step(ScanInput::Radio(Some(true)), ms(46_000), true).next, ScanNext::Restart);
}

#[test]
fn a_disabled_radio_stops_the_scan_with_an_error() {
    let mut session = started(Some(0), 0);
    assert_eq!(session.step(ScanInput::Tick, ms(5000), true).next, ScanNext::ProbeRadio);
    let out = session.step(ScanInput::Radio(Some(false)), ms(5000), true);
    assert_eq!(out.next, ScanNext::Finish);
    let signal = out.signal.unwrap();
    assert!(signal.is_error());
    assert_eq!(signal.event(), "scan-error");
    assert_eq!(signal.message(), "蓝牙适配器已关闭，停止扫描");
    assert!(session.is_over());
}

#[test]
fn a_failed_stall_restart_ends_the_scan_with_an_error() {
    let mut session = started(Some(0), 0);
    session.step(ScanInput::Tick, ms(50_000), true);
    assert_eq!(session.step(ScanInput::Radio(Some(true)), ms(50_000), true).next, ScanNext::Restart);
    let out = session.step(ScanInput::RestartFailed("busy".to_string()), ms(50_200), true);
    assert_eq!(out.next, ScanNext::Finish);
    assert_eq!(out.signal.unwrap().message(), "自动重启扫描失败: busy");
}

#[test]
fn a_lost_stream_restarts_an_unbounded_scan_without_limit() {
    let mut session = started(Some(0), 0);
    for k in 0..8u64 {
        let out = session.step(ScanInput::StreamEnded, ms(k * 10), true);
        assert_eq!(out.next, ScanNext::Restart);
        assert!(out.signal.is_none());
        let out = session.step(ScanInput::Restarted, ms(k * 10 + 5), true);
        assert_eq!(out.next, ScanNext::Wait);
        assert!(out.signal.is_none());
    }
    assert_eq!(session.restart_count, 8);
    let out = session.step(ScanInput::StreamFailed("reset".to_string()), ms(100), true);
    assert_eq!(out.next, ScanNext::Restart);
    assert_eq!(out.signal.unwrap().message(), "扫描事件流错误: reset");
    let out = session.step(ScanInput::RestartFailed("gone".to_string()), ms(300), true);
    assert_eq!(out.next, ScanNext::Finish);
    assert!(out.signal.is_none());
}

#[test]
fn a_lost_stream_ends_a_bounded_scan() {
    let mut session = started(Some(30), 0);
    assert_eq!(session.step(ScanInput::StreamEnded, ms(1000), true).next, ScanNext::Finish);
    let mut session = started(Some(30), 0);
    let out = session.step(ScanInput::StreamFailed("reset".to_string()), ms(1000), true);
    assert_eq!(out.next, ScanNext::Finish);
    assert!(matches!(out.signal, Some(ScanSignal::StreamFailed(_))));
}

#[test]
fn a_stop_event_and_a_cleared_flag_end_the_scan() {
    let mut session = started(Some(0), 0);
    assert_eq!(session.step(ScanInput::ScanStopped, ms(10), true).next, ScanNext::Finish);
    let mut session = started(Some(0), 0);
    assert_eq!(session.step(ScanInput::Advertisement, ms(10), false).next, ScanNext::Finish);
    let mut session = ScanSession::begin(Some(0));
    assert_eq!(session.step(ScanInput::Started, ms(10), false).next, ScanNext::Finish);
}

#[test]
fn an_unexpected_input_repeats_the_pending_request() {
    let mut session = ScanSession::begin(Some(0));
    assert_eq!(session.step(ScanInput::Tick, ms(10), true).next, ScanNext::Start);
    let mut session = started(Some(0), 0);
    assert_eq!(session.step(ScanInput::Restarted, ms(10), true).next, ScanNext::Wait);
    assert_eq!(session.restart_count, 0);
    session.step(ScanInput::Tick, ms(20), true);
    assert_eq!(session.step(ScanInput::Advertisement, ms(30), true).next, ScanNext::ProbeRadio);
    assert_eq!(session.last_event_at, 0);
}

#[test]
fn the_restart_counter_stops_at_its_largest_value() {
    let mut session = started(Some(0), 0);
    session.restart_count = u32::MAX;
    session.step(ScanInput::StreamEnded, ms(10), true);
    session.step(ScanInput::Restarted, ms(20), true);
    assert_eq!(session.restart_count, u32::MAX);
}
