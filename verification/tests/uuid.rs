use ble_session::stack::UuidForm;
use ble_session::uuid::{compress, expand, to_full, to_short, uuid_in};

#[test]
fn a_short_uuid_is_set_into_the_base_uuid_in_uppercase() {
    assert_eq!(to_full("180f"), "0000180F-0000-1000-8000-00805F9B34FB");
    assert_eq!(to_full("2A19"), "00002A19-0000-1000-8000-00805F9B34FB");
}

#[test]
fn any_other_uuid_is_only_uppercased_by_expansion() {
    assert_eq!(to_full("180"), "180");
    assert_eq!(to_full("abcde"), "ABCDE");
    assert_eq!(
        to_full("12345678-1234-5678-1234-56789abcdef0"),
        "12345678-1234-5678-1234-56789ABCDEF0"
    );
    assert_eq!(to_full(""), "");
}

#[test]
fn expansion_counts_bytes() {
    assert_eq!(to_full("\u{e9}\u{e9}"), "0000\u{c9}\u{c9}-0000-1000-8000-00805F9B34FB");
    assert_eq!(expand("ABCD".to_string()), "0000ABCD-0000-1000-8000-00805F9B34FB");
    assert_eq!(expand("ABCDE".to_string()), "ABCDE");
}

#[test]
fn a_base_uuid_is_compressed_to_its_sixteen_bits() {
    assert_eq!(to_short("0000180f-0000-1000-8000-00805f9b34fb"), "180F");
    assert_eq!(to_short("00002A19-0000-1000-8000-00805F9B34FB"), "2A19");
}

#[test]
fn a_uuid_off_the_base_is_only_uppercased_by_compression() {
    assert_eq!(
        to_short("0001180f-0000-1000-8000-00805f9b34fb"),
        "0001180F-0000-1000-8000-00805F9B34FB"
    );
    assert_eq!(
        to_short("0000180g-0000-1000-8000-00805f9b34fb"),
        "0000180G-0000-1000-8000-00805F9B34FB"
    );
    assert_eq!(to_short("180f"), "180F");
    assert_eq!(to_short(""), "");
}

#[test]
fn compression_takes_the_capture_of_a_uuid_of_full_length_only() {
    let full = "0000180F-0000-1000-8000-00805F9B34FB".to_string();
    assert_eq!(compress(full.clone(), Some(Some("180F".to_string()))), "180F");
    assert_eq!(compress(full.clone(), Some(None)), full);
    assert_eq!(compress(full.clone(), None), full);
    assert_eq!(compress("180F".to_string(), Some(Some("zz".to_string()))), "180F");
}

#[test]
fn the_three_forms_of_a_uuid() {
    assert_eq!(uuid_in(UuidForm::AsGiven, "180f"), "180f");
    assert_eq!(uuid_in(UuidForm::Full, "180f"), "0000180F-0000-1000-8000-00805F9B34FB");
    assert_eq!(uuid_in(UuidForm::Short, "180f"), "180F");
    assert_eq!(uuid_in(UuidForm::Short, "0000180f-0000-1000-8000-00805f9b34fb"), "180F");
}
