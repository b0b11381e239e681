use ble_session::advert::{
    classify, compose_payload, fit, frame_manufacturer_data, list_companies, synthesize_payload,
    Sighting,
};
use ble_session::hexcode::value_text;

fn bare(identifier: &str, address: &str) -> Sighting {
    Sighting {
        identifier: Some(identifier.to_string()),
        address: Some(address.to_string()),
        rssi: None,
        tx_power: None,
        connectable: None,
        paired: None,
        manufacturer_data: None,
        services: None,
    }
}

fn pair(key: &str, value: &str) -> (String, String) {
    (key.to_string(), value.to_string())
}

#[test]
fn synthesized_payload_of_a_plain_device() {
    let payload = synthesize_payload("Speaker-01", "AA:BB:CC:DD:EE:FF", false);
    assert_eq!(payload.len(), 31);
    assert_eq!(
        value_text(&payload),
        "1EFF59030001002000AABBCCDDEEFF00505564010000000A0B0C0D0E0F1011"
    );
}

#[test]
fn synthesized_payload_marks_earbuds_and_pairing() {
    let payload = synthesize_payload("TWS-Buds", "Unknown", true);
    assert_eq!(
        value_text(&payload),
        "1EFFB902000100202354585530467A01505564010000002B2C2D2E2F303132"
    );
}

#[test]
fn synthesized_payload_skips_address_pieces_that_are_no_bytes() {
    let payload = synthesize_payload("My Earbud", "1:zz:+f:100:0a", false);
    assert_eq!(
        value_text(&payload),
        "1EFF39030001002023010F0A00000000505564010000002C2D2E2F30313233"
    );
}

#[test]
fn synthesized_payload_counts_identifier_bytes_not_characters() {
    let payload = synthesize_payload("\u{e9}", "", false);
    assert_eq!(
        value_text(&payload),
        "1EFFE9000001002000E9000000000000505564010000000203040506070809"
    );
}

#[test]
fn synthesized_payload_cuts_a_long_address_to_six_bytes() {
    let payload = synthesize_payload("x", "01:02:03:04:05:06:07:08", false);
    assert_eq!(&payload[9..15], &[1u8, 2, 3, 4, 5, 6]);
    assert_eq!(payload[15], 0);
}

#[test]
fn the_device_kind_is_read_from_a_lowercase_identifier() {
    assert_eq!(classify("my tws buds"), 0x23);
    assert_eq!(classify("earbud"), 0x23);
    assert_eq!(classify("left-earbuds"), 0x23);
    assert_eq!(classify("MY TWS BUDS"), 0x00);
    assert_eq!(classify("speaker"), 0x00);
    assert_eq!(classify("tw-s ear bud"), 0x00);
    assert_eq!(classify(""), 0x00);
}

#[test]
fn the_device_kind_enters_the_payload_twice() {
    let payload = compose_payload("Speaker-01", "AA:BB:CC:DD:EE:FF", false, 0x23);
    assert_eq!(
        value_text(&payload),
        "1EFF59030001002023AABBCCDDEEFF00505564010000002D2E2F3031323334"
    );
    let payload = compose_payload("Speaker-01", "AA:BB:CC:DD:EE:FF", false, 0xFF);
    assert_eq!(&payload[23..31], &[0x09u8, 0x0A, 0x0B, 0x0C, 0x0D, 0x0E, 0x0F, 0x10]);
}

#[test]
fn companies_are_listed_once_in_the_order_of_their_first_entries() {
    assert!(list_companies(&Vec::new()).is_empty());
    let listing = list_companies(&vec![
        (0x00E0, vec![0xDE, 0xAD]),
        (0x004C, vec![]),
        (0x00E0, vec![0x01]),
        (0xFFFF, vec![0x0A, 0xB0]),
        (0x004C, vec![0xFF]),
    ]);
    assert_eq!(listing, vec![pair("00E0", "01"), pair("004C", "ff"), pair("FFFF", "0ab0")]);
}

#[test]
fn manufacturer_frame_has_company_low_byte_first() {
    let framed = frame_manufacturer_data(0x004C, &vec![0x02, 0x15, 0xAA]);
    assert_eq!(framed, vec![0x1E, 0xFF, 0x4C, 0x00, 0x02, 0x15, 0xAA]);
}

#[test]
fn fit_pads_with_zeros_and_cuts() {
    assert_eq!(fit(vec![1, 2], 4), vec![1, 2, 0, 0]);
    assert_eq!(fit(vec![1, 2, 3, 4, 5], 3), vec![1, 2, 3]);
    assert_eq!(fit(vec![], 0), Vec::<u8>::new());
}

#[test]
fn a_silent_stack_gives_the_default_record() {
    let sighting = Sighting {
        identifier: None,
        address: None,
        rssi: None,
        tx_power: None,
        connectable: None,
        paired: None,
        manufacturer_data: None,
        services: None,
    };
    let device = sighting.describe();
    assert_eq!(device.identifier, "unknown");
    assert_eq!(device.address, "Unknown");
    assert_eq!(device.name, None);
    assert_eq!(device.rssi, None);
    assert_eq!(device.tx_power, None);
    assert!(!device.connectable);
    assert!(!device.paired);
    assert!(device.manufacturer_data.is_empty());
    assert!(device.services.is_empty());
    assert_eq!(
        device.adv_data,
        Some(vec![
            pair("connectable", "false"),
            pair("mac_address", "Unknown"),
            pair("identifier", "unknown"),
        ])
    );
    assert_eq!(
        device.raw_adv_data,
        Some("1EFF10030001002000756F6D71737C00505564010000000708090A0B0C0D0E".to_string())
    );
}

#[test]
fn a_full_sighting_is_summarized_in_order() {
    let sighting = Sighting {
        identifier: Some("Speaker-01".to_string()),
        address: Some("AA:BB:CC:DD:EE:FF".to_string()),
        rssi: Some(-57),
        tx_power: Some(4),
        connectable: Some(true),
        paired: Some(false),
        manufacturer_data: Some(vec![(0x004C, vec![0x02, 0x15, 0xAA]), (0xFFFE, vec![0xAB])]),
        services: Some(vec!["180F".to_string(), "180A".to_string()]),
    };
    let device = sighting.describe();
    assert_eq!(device.rssi, Some(-57));
    assert_eq!(device.tx_power, Some(4));
    assert!(device.connectable);
    assert_eq!(device.manufacturer_data, vec![pair("004C", "0215aa"), pair("FFFE", "ab")]);
    assert_eq!(device.services, vec!["180F".to_string(), "180A".to_string()]);
    assert_eq!(
        device.adv_data,
        Some(vec![
            pair("rssi", "-57"),
            pair("tx_power", "4"),
            pair("connectable", "true"),
            pair("services_count", "2"),
            pair("primary_service", "180F"),
            pair("manufacturer_data_entries", "2"),
            pair("manufacturer_company_id", "004C"),
            pair("manufacturer_data_length", "3"),
            pair("mac_address", "AA:BB:CC:DD:EE:FF"),
            pair("identifier", "Speaker-01"),
        ])
    );
    assert_eq!(
        device.raw_adv_data,
        Some("1EFF4C000215AA000000000000000000000000000000000000000000000000".to_string())
    );
}

#[test]
fn long_manufacturer_data_is_cut_to_the_payload_length() {
    let mut sighting = bare("x", "y");
    sighting.manufacturer_data = Some(vec![(0xFFFE, (0u8..40).collect())]);
    let device = sighting.describe();
    assert_eq!(
        device.raw_adv_data,
        Some("1EFFFEFF000102030405060708090A0B0C0D0E0F101112131415161718191A".to_string())
    );
}

#[test]
fn a_company_reported_twice_is_listed_once_with_its_last_data() {
    let mut sighting = bare("x", "y");
    sighting.manufacturer_data = Some(vec![(1, vec![0x11]), (2, vec![0x22]), (1, vec![0x33, 0x44])]);
    let device = sighting.describe();
    assert_eq!(device.manufacturer_data, vec![pair("0001", "3344"), pair("0002", "22")]);
    let summary = device.adv_data.unwrap();
    assert!(summary.contains(&pair("manufacturer_data_entries", "2")));
    assert!(summary.contains(&pair("manufacturer_company_id", "0001")));
    assert!(summary.contains(&pair("manufacturer_data_length", "2")));
    assert_eq!(
        device.raw_adv_data,
        Some("1EFF01003344000000000000000000000000000000000000000000000000".to_string() + "00")
    );
}

#[test]
fn device_kind_is_found_in_any_letter_case() {
    let upper = bare("MY EARBUD", "Unknown").describe().raw_adv_data.unwrap();
    let lower = bare("my earbud", "Unknown").describe().raw_adv_data.unwrap();
    let other = bare("my speaker", "Unknown").describe().raw_adv_data.unwrap();
    assert_eq!(&upper[16..18], "23");
    assert_eq!(&lower[16..18], "23");
    assert_eq!(&other[16..18], "00");
}

#[test]
fn describing_matches_the_synthesized_payload() {
    let mut sighting = bare("TWS-Buds", "Unknown");
    sighting.paired = Some(true);
    let device = sighting.describe();
    assert!(device.paired);
    assert_eq!(
        device.raw_adv_data,
        Some(value_text(&synthesize_payload("TWS-Buds", "Unknown", true)))
    );
}
