use ble_session::parse_data_string;
use ble_session::payload::write_kind;
use ble_session::stack::WriteKind;

#[test]
fn prefixed_hexadecimal_is_read_pair_by_pair() {
    assert_eq!(parse_data_string("0x0102ff"), vec![0x01, 0x02, 0xFF]);
    assert_eq!(parse_data_string("0xAbCd"), vec![0xAB, 0xCD]);
    assert_eq!(parse_data_string("0x"), Vec::<u8>::new());
}

#[test]
fn bare_hexadecimal_is_read_pair_by_pair() {
    assert_eq!(parse_data_string("0102ff"), vec![0x01, 0x02, 0xFF]);
    assert_eq!(parse_data_string("DEADbeef"), vec![0xDE, 0xAD, 0xBE, 0xEF]);
}

#[test]
fn a_single_last_digit_is_a_byte_of_its_own() {
    assert_eq!(parse_data_string("abc"), vec![0xAB, 0x0C]);
    assert_eq!(parse_data_string("0x1"), vec![0x01]);
    assert_eq!(parse_data_string("7"), vec![0x07]);
}

#[test]
fn text_stands_for_its_own_bytes() {
    assert_eq!(parse_data_string("hello"), b"hello".to_vec());
    assert_eq!(parse_data_string("caf\u{e9}"), "caf\u{e9}".as_bytes().to_vec());
    assert_eq!(parse_data_string("12 34"), b"12 34".to_vec());
    assert_eq!(parse_data_string("0X12"), b"0X12".to_vec());
    assert_eq!(parse_data_string("+f"), b"+f".to_vec());
}

#[test]
fn white_space_around_the_payload_is_dropped() {
    assert_eq!(parse_data_string("  0x0a \n"), vec![0x0A]);
    assert_eq!(parse_data_string("\t hi there \r\n"), b"hi there".to_vec());
    assert_eq!(parse_data_string("\u{3000}\u{a0}ff\u{2003}\u{85}"), vec![0xFF]);
    assert_eq!(parse_data_string("\u{200b}ff"), "\u{200b}ff".as_bytes().to_vec());
}

#[test]
fn an_empty_payload_has_no_bytes() {
    assert_eq!(parse_data_string(""), Vec::<u8>::new());
    assert_eq!(parse_data_string("   "), Vec::<u8>::new());
}

#[test]
fn pairs_that_are_no_bytes_are_skipped_after_the_prefix() {
    assert_eq!(parse_data_string("0xzz01"), vec![0x01]);
    assert_eq!(parse_data_string("0x0g11"), vec![0x11]);
    assert_eq!(parse_data_string("0x+f"), vec![0x0F]);
    assert_eq!(parse_data_string("0x-1"), Vec::<u8>::new());
    assert_eq!(parse_data_string("0x+"), Vec::<u8>::new());
    assert_eq!(parse_data_string("0x\u{e9}01"), vec![0x01]);
    assert_eq!(parse_data_string("0x1\u{e9}"), Vec::<u8>::new());
}

#[test]
fn the_write_kind_is_command_only_by_name() {
    assert_eq!(write_kind(Some("command")), WriteKind::Command);
    assert_eq!(write_kind(Some("request")), WriteKind::Request);
    assert_eq!(write_kind(Some("Command")), WriteKind::Request);
    assert_eq!(write_kind(Some("")), WriteKind::Request);
    assert_eq!(write_kind(None), WriteKind::Request);
}
