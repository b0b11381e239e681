use ble_session::adapter::{describe_adapter, AdapterCache};
use ble_session::errors::{BleError, Guidance, StackCall};
use ble_session::hexcode::{bytes_of_hex, format_company, hex_digit_value, parse_octet, value_text};
use ble_session::resolver::{find_peripheral, next_candidate, PeripheralInfo};
use ble_session::table::KeyedTable;
use ble_session::text::{
    chars_of, contains_chars, format_bool, format_i16, format_unsigned, same_text,
};

fn chars(text: &str) -> Vec<char> {
    text.chars().collect()
}

#[test]
fn numbers_are_written_in_decimal() {
    assert_eq!(format_unsigned(0), "0");
    assert_eq!(format_unsigned(7), "7");
    assert_eq!(format_unsigned(10), "10");
    assert_eq!(format_unsigned(1234567890), "1234567890");
    assert_eq!(format_unsigned(u64::MAX), "18446744073709551615");
    assert_eq!(format_i16(0), "0");
    assert_eq!(format_i16(-1), "-1");
    assert_eq!(format_i16(-57), "-57");
    assert_eq!(format_i16(127), "127");
    assert_eq!(format_i16(i16::MAX), "32767");
    assert_eq!(format_i16(i16::MIN), "-32768");
}

#[test]
fn truth_values_are_written_as_words() {
    assert_eq!(format_bool(true), "true");
    assert_eq!(format_bool(false), "false");
}

#[test]
fn a_text_is_taken_apart_into_its_characters() {
    assert_eq!(chars_of("h\u{e9}llo"), vec!['h', '\u{e9}', 'l', 'l', 'o']);
    assert_eq!(chars_of("\u{4e2d}\u{6587}"), vec!['\u{4e2d}', '\u{6587}']);
    assert_eq!(chars_of(""), Vec::<char>::new());
}

#[test]
fn texts_are_compared_character_by_character() {
    assert!(same_text("abc", "abc"));
    assert!(same_text("", ""));
    assert!(!same_text("abc", "abd"));
    assert!(!same_text("abc", "ab"));
    assert!(!same_text("e", "\u{e9}"));
    assert!(same_text("\u{4e2d}\u{6587}", "\u{4e2d}\u{6587}"));
}

#[test]
fn substrings_are_found_anywhere() {
    assert!(contains_chars(&chars("my tws buds"), &chars("tws")));
    assert!(contains_chars(&chars("tws"), &chars("tws")));
    assert!(contains_chars(&chars("xxtws"), &chars("tws")));
    assert!(contains_chars(&chars("abc"), &chars("")));
    assert!(contains_chars(&chars(""), &chars("")));
    assert!(!contains_chars(&chars("tw"), &chars("tws")));
    assert!(!contains_chars(&chars("t-w-s"), &chars("tws")));
    assert!(!contains_chars(&chars(""), &chars("a")));
}

#[test]
fn values_are_written_in_uppercase_hexadecimal() {
    assert_eq!(value_text(&vec![0x00, 0x0f, 0xa5, 0xff]), "000FA5FF");
    assert_eq!(value_text(&Vec::new()), "");
}

#[test]
fn hexadecimal_text_reads_back_as_bytes() {
    assert_eq!(bytes_of_hex("0215aa"), Some(vec![0x02, 0x15, 0xAA]));
    assert_eq!(bytes_of_hex("aBcD"), Some(vec![0xAB, 0xCD]));
    assert_eq!(bytes_of_hex(""), Some(Vec::new()));
    assert_eq!(bytes_of_hex(&value_text(&vec![0, 1, 0x7f, 0x80, 0xff])), Some(vec![0, 1, 0x7f, 0x80, 0xff]));
    assert_eq!(bytes_of_hex("0215a"), None);
    assert_eq!(bytes_of_hex("zz"), None);
    assert_eq!(bytes_of_hex("0x12"), None);
    assert_eq!(bytes_of_hex("12 3"), None);
    assert_eq!(bytes_of_hex("\u{e9}"), None);
    assert_eq!(bytes_of_hex("1\u{e9}2"), None);
}

#[test]
fn company_identifiers_have_four_digits() {
    assert_eq!(format_company(0x004C), "004C");
    assert_eq!(format_company(0), "0000");
    assert_eq!(format_company(0xFFFF), "FFFF");
    assert_eq!(format_company(0xabcd), "ABCD");
}

#[test]
fn hexadecimal_digits_have_their_values() {
    assert_eq!(hex_digit_value('0'), Some(0));
    assert_eq!(hex_digit_value('9'), Some(9));
    assert_eq!(hex_digit_value('a'), Some(10));
    assert_eq!(hex_digit_value('F'), Some(15));
    assert_eq!(hex_digit_value('g'), None);
    assert_eq!(hex_digit_value('/'), None);
    assert_eq!(hex_digit_value(':'), None);
    assert_eq!(hex_digit_value('@'), None);
    assert_eq!(hex_digit_value('`'), None);
    assert_eq!(hex_digit_value('\u{ff11}'), None);
}

#[test]
fn a_byte_is_read_from_hexadecimal_text() {
    let read = |text: &str| {
        let chars = chars(text);
        parse_octet(&chars, 0, chars.len())
    };
    assert_eq!(read("0"), Some(0));
    assert_eq!(read("ff"), Some(255));
    assert_eq!(read("FF"), Some(255));
    assert_eq!(read("0A"), Some(10));
    assert_eq!(read("000000000a"), Some(10));
    assert_eq!(read("+7f"), Some(127));
    assert_eq!(read("100"), None);
    assert_eq!(read("fff"), None);
    assert_eq!(read(""), None);
    assert_eq!(read("+"), None);
    assert_eq!(read("-1"), None);
    assert_eq!(read("++1"), None);
    assert_eq!(read("1 "), None);
    assert_eq!(read("0x1"), None);
    let text = chars("aa:bb");
    assert_eq!(parse_octet(&text, 3, 5), Some(0xBB));
    assert_eq!(parse_octet(&text, 2, 3), None);
    assert_eq!(parse_octet(&text, 2, 2), None);
}

#[test]
fn an_adapter_is_listed_with_defaults() {
    let adapter = describe_adapter(Some("hci0".to_string()), Some("00:11".to_string()), Some(false));
    assert_eq!(adapter.identifier, "hci0");
    assert_eq!(adapter.address, "00:11");
    assert!(!adapter.powered);
    let adapter = describe_adapter(None, None, None);
    assert_eq!(adapter.identifier, "unknown");
    assert_eq!(adapter.address, "");
    assert!(adapter.powered);
    assert!(describe_adapter(None, None, Some(true)).powered);
}

#[test]
fn the_first_listed_adapter_is_adopted() {
    let mut cache: AdapterCache<&str> = AdapterCache::new();
    assert_eq!(cache.cached(), None);
    assert!(cache.adopt(Ok(vec!["first", "second", "third"])).is_ok());
    assert_eq!(cache.cached(), Some(&"first"));
    assert!(cache.adopt(Ok(vec!["other"])).is_ok());
    assert_eq!(cache.cached(), Some(&"other"));
}

#[test]
fn a_listing_without_adapters_is_an_error_and_changes_nothing() {
    let mut cache: AdapterCache<u8> = AdapterCache::new();
    let error = cache.adopt(Ok(Vec::new())).unwrap_err();
    assert!(matches!(error, BleError::NoAdapterAvailable));
    assert_eq!(error.message(), "未找到可用的蓝牙适配器");
    assert_eq!(cache.cached(), None);
    let error = cache.adopt(Err("dbus down".to_string())).unwrap_err();
    assert!(matches!(&error, BleError::StackOperationFailed { call: StackCall::ResolveAdapter, cause } if cause == "dbus down"));
    assert_eq!(error.message(), "获取蓝牙适配器失败: dbus down");
    assert_eq!(cache.cached(), None);
    cache.adopt(Ok(vec![3])).unwrap();
    assert!(cache.adopt(Ok(Vec::new())).is_err());
    assert!(cache.adopt(Err("x".to_string())).is_err());
    assert_eq!(cache.cached(), Some(&3));
}

#[test]
fn every_error_has_its_text() {
    assert_eq!(BleError::NoAdapterAvailable.message(), "未找到可用的蓝牙适配器");
    assert_eq!(BleError::ReadExhausted.message(), "读取特征值失败：所有 UUID 形式均未成功");
    assert_eq!(BleError::DisconnectStillConnected.message(), "断开命令执行后设备仍保持连接状态");
    assert_eq!(BleError::not_found("d", Guidance::Plain).message(), "未找到设备: d");
    assert_eq!(BleError::not_found("d", Guidance::ScanOrConnect).message(), "未找到设备: d，请确认已扫描或已连接");
    assert_eq!(
        BleError::stack(StackCall::EnumerateAdapters, "boom".to_string()).message(),
        "SimpleBLE 错误: boom"
    );
    assert_eq!(BleError::stack(StackCall::ScanResults, "".to_string()).message(), "获取扫描结果失败: ");
    assert_eq!(BleError::stack(StackCall::Services, "e".to_string()).message(), "获取服务失败: e");
    assert_eq!(BleError::stack(StackCall::Mtu, "e".to_string()).message(), "获取 MTU 失败: e");
}

#[test]
fn a_table_keeps_one_value_for_each_key() {
    let mut table: KeyedTable<String> = KeyedTable::new();
    assert_eq!(table.len(), 0);
    assert_eq!(table.insert("a".to_string(), "one".to_string()), None);
    assert_eq!(table.insert("b".to_string(), "two".to_string()), None);
    assert_eq!(table.insert("a".to_string(), "three".to_string()), Some("one".to_string()));
    assert_eq!(table.len(), 2);
    assert_eq!(table.get("a"), Some(&"three".to_string()));
    assert_eq!(table.get("b"), Some(&"two".to_string()));
    assert_eq!(table.get("c"), None);
    assert!(table.contains_key("b"));
    assert_eq!(table.remove("a"), Some("three".to_string()));
    assert_eq!(table.remove("a"), None);
    assert_eq!(table.get("b"), Some(&"two".to_string()));
    assert_eq!(table.len(), 1);
}

#[test]
fn the_identifier_comes_before_the_recorded_address() {
    let listing = vec![
        PeripheralInfo { identifier: Some("x".to_string()), address: Some("AA".to_string()) },
        PeripheralInfo { identifier: None, address: None },
        PeripheralInfo { identifier: Some("dev".to_string()), address: Some("BB".to_string()) },
        PeripheralInfo { identifier: None, address: Some("AA".to_string()) },
    ];
    let recorded = Some("AA".to_string());
    assert!(listing[0].answers("dev", &recorded));
    assert!(!listing[0].answers("dev", &None));
    assert!(!listing[1].answers("dev", &recorded));
    assert!(listing[2].answers("dev", &None));
    assert_eq!(find_peripheral(&listing, "dev", &recorded), Some(2));
    assert_eq!(find_peripheral(&listing, "dev", &None), Some(2));
    assert_eq!(find_peripheral(&listing, "ghost", &recorded), Some(0));
    assert_eq!(find_peripheral(&listing[3..].to_vec(), "ghost", &recorded), Some(0));
    assert_eq!(next_candidate(&listing, 0, "dev", &recorded), Some(0));
    assert_eq!(next_candidate(&listing, 1, "dev", &recorded), Some(2));
    assert_eq!(next_candidate(&listing, 3, "dev", &recorded), Some(3));
    assert_eq!(next_candidate(&listing, 3, "dev", &None), None);
    assert_eq!(next_candidate(&listing, 4, "dev", &recorded), None);
    assert_eq!(next_candidate(&listing, 9, "dev", &recorded), None);
    assert_eq!(find_peripheral(&listing, "ghost", &Some("CC".to_string())), None);
    assert_eq!(find_peripheral(&Vec::new(), "dev", &recorded), None);
}
