//! Hexadecimal text of byte strings.

use vstd::prelude::*;

verus! {

/// The hexadecimal digit of a value below sixteen, in the chosen letter case.
pub open spec fn hex_digit(nibble: int, upper: bool) -> char
    recommends
        0 <= nibble < 16,
{
    if nibble < 10 {
        (48 + nibble) as u8 as char
    } else if upper {
        (55 + nibble) as u8 as char
    } else {
        (87 + nibble) as u8 as char
    }
}

/// The hexadecimal text of a byte string: two digits for each byte, the high
/// half first.
pub open spec fn hex_text(bytes: Seq<u8>, upper: bool) -> Seq<char> {
    Seq::new(
        2 * bytes.len(),
        |i: int|
            hex_digit(
                if i % 2 == 0 {
                    bytes[i / 2] as int / 16
                } else {
                    bytes[i / 2] as int % 16
                },
                upper,
            ),
    )
}

/// Lowercase hexadecimal text of a byte string.
///
/// Trusted: wraps `hex::encode`, which writes every byte as two digits taken
/// from `0123456789abcdef`, the high four bits first.
#[verifier::external_body]
pub(crate) fn encode_lower(bytes: &[u8]) -> (text: String)
    ensures
        text@ == hex_text(bytes@, false),
{
    hex::encode(bytes)
}

/// Uppercase hexadecimal text of a byte string.
///
/// Trusted: wraps `hex::encode_upper`, which writes every byte as two digits
/// taken from `0123456789ABCDEF`, the high four bits first.
#[verifier::external_body]
pub(crate) fn encode_upper(bytes: &[u8]) -> (text: String)
    ensures
        text@ == hex_text(bytes@, true),
{
    hex::encode_upper(bytes)
}

/// The text in which a characteristic value is handed to the application:
/// uppercase hexadecimal, without a prefix.
pub fn value_text(bytes: &Vec<u8>) -> (text: String)
    ensures
        text@ == hex_text(bytes@, true),
{
    encode_upper(bytes.as_slice())
}

/// Whether a character is a hexadecimal digit, in either letter case.
pub open spec fn is_hex_char(c: char) -> bool {
    let v = c as u32;
    (48 <= v <= 57) || (65 <= v <= 70) || (97 <= v <= 102)
}

/// The value of a hexadecimal digit.
pub open spec fn hex_char_value(c: char) -> int
    recommends
        is_hex_char(c),
{
    let v = c as u32 as int;
    if v <= 57 {
        v - 48
    } else if v <= 70 {
        v - 55
    } else {
        v - 87
    }
}

/// Whether a text consists of hexadecimal digits only.
pub open spec fn all_hex(text: Seq<char>) -> bool {
    forall|i: int| 0 <= i < text.len() ==> is_hex_char(#[trigger] text[i])
}

/// The number that a run of hexadecimal digits denotes.
pub open spec fn hex_number(digits: Seq<char>) -> int
    decreases digits.len(),
{
    if digits.len() == 0 {
        0
    } else {
        hex_number(digits.drop_last()) * 16 + hex_char_value(digits.last())
    }
}

/// The digits of an unsigned numeral: a single leading plus sign is skipped
/// where something follows it.
pub open spec fn unsigned_digits(text: Seq<char>) -> Seq<char> {
    if text.len() > 1 && text[0] == '+' {
        text.skip(1)
    } else {
        text
    }
}

/// The byte that a text denotes in hexadecimal: an optional plus sign, then
/// one or more hexadecimal digits whose value is at most 255. Any other text
/// denotes no byte.
pub open spec fn octet_of(text: Seq<char>) -> Option<u8> {
    let digits = unsigned_digits(text);
    if digits.len() > 0 && all_hex(digits) && hex_number(digits) <= 255 {
        Some(hex_number(digits) as u8)
    } else {
        None
    }
}

/// The value of a hexadecimal digit, or nothing for any other character.
pub fn hex_digit_value(c: char) -> (value: Option<u8>)
    ensures
        value is Some <==> is_hex_char(c),
        value is Some ==> value->Some_0 as int == hex_char_value(c),
{
    let v: u32 = c as u32;
    if 48 <= v && v <= 57 {
        Some((v - 48) as u8)
    } else if 65 <= v && v <= 70 {
        Some((v - 55) as u8)
    } else if 97 <= v && v <= 102 {
        Some((v - 87) as u8)
    } else {
        None
    }
}

proof fn lemma_hex_number_grows(digits: Seq<char>, n: int)
    requires
        all_hex(digits),
        0 <= n <= digits.len(),
    ensures
        0 <= hex_number(digits.take(n)) <= hex_number(digits),
    decreases digits.len() - n,
{
    if n == 0 {
        lemma_hex_number_nonnegative(digits);
    } else if n == digits.len() {
        assert(digits.take(n) =~= digits);
        lemma_hex_number_nonnegative(digits);
    } else {
        lemma_hex_number_grows(digits, n + 1);
        let longer = digits.take(n + 1);
        assert(longer.drop_last() =~= digits.take(n));
    }
}

proof fn lemma_hex_number_nonnegative(digits: Seq<char>)
    requires
        all_hex(digits),
    ensures
        0 <= hex_number(digits),
    decreases digits.len(),
{
    if digits.len() > 0 {
        lemma_hex_number_nonnegative(digits.drop_last());
    }
}

/// Whether a text is the hexadecimal text of a byte string: an even number
/// of hexadecimal digits.
pub open spec fn is_hex_text(text: Seq<char>) -> bool {
    text.len() % 2 == 0 && all_hex(text)
}

/// The byte string that a hexadecimal text stands for: one byte for every
/// two digits, the high half first.
pub open spec fn hex_bytes(text: Seq<char>) -> Seq<u8>
    recommends
        is_hex_text(text),
{
    Seq::new(
        text.len() / 2,
        |i: int| (hex_char_value(text[2 * i]) * 16 + hex_char_value(text[2 * i + 1])) as u8,
    )
}

/// The error of the `hex` crate's decoding.
#[verifier::external_type_specification]
#[verifier::external_body]
pub struct ExFromHexError(hex::FromHexError);

/// The byte string of a hexadecimal text.
///
/// Trusted: wraps `hex::decode`, which refuses a text of odd length and one
/// that holds anything but the digits `0` to `9`, `a` to `f` and `A` to `F`,
/// and otherwise makes one byte of every two digits, the first of them the
/// high four bits.
#[verifier::external_body]
pub(crate) fn decode(text: &str) -> (bytes: Result<Vec<u8>, hex::FromHexError>)
    ensures
        bytes is Ok <==> is_hex_text(text@),
        bytes matches Ok(b) ==> b@ == hex_bytes(text@),
{
    hex::decode(text)
}

/// Reads a hexadecimal text as a byte string; nothing for a text that is
/// none.
pub fn bytes_of_hex(text: &str) -> (bytes: Option<Vec<u8>>)
    ensures
        bytes is Some <==> is_hex_text(text@),
        bytes matches Some(b) ==> b@ == hex_bytes(text@),
{
    match decode(text) {
        Ok(b) => Some(b),
        Err(_) => None,
    }
}

/// The hexadecimal text of a byte string reads back as that byte string, in
/// either letter case.
pub proof fn lemma_hex_round_trip(bytes: Seq<u8>, upper: bool)
    ensures
        is_hex_text(hex_text(bytes, upper)),
        hex_bytes(hex_text(bytes, upper)) == bytes,
{
}

/// Reads the characters from `from` up to `to` as a byte in hexadecimal.
pub fn parse_octet(chars: &Vec<char>, from: usize, to: usize) -> (octet: Option<u8>)
    requires
        from <= to <= chars.len(),
    ensures
        octet == octet_of(chars@.subrange(from as int, to as int)),
{
    let ghost text = chars@.subrange(from as int, to as int);
    let start: usize = if to - from > 1 && chars[from] == '+' {
        from + 1
    } else {
        from
    };
    let ghost digits = unsigned_digits(text);
    if start == to {
        return None;
    }
    let mut acc: u32 = 0;
    let mut i: usize = start;
    while i < to
        invariant
            start <= i <= to <= chars.len(),
            from <= to,
            digits == chars@.subrange(start as int, to as int),
            digits == unsigned_digits(chars@.subrange(from as int, to as int)),
            all_hex(digits.take(i - start)),
            acc as int == hex_number(digits.take(i - start)),
            acc <= 255,
        decreases to - i,
    {
        let ghost before = digits.take(i - start);
        let ghost after = digits.take(i - start + 1);
        assert(after.drop_last() =~= before);
        assert(after.last() == chars@[i as int]);
        match hex_digit_value(chars[i]) {
            None => {
                return None;
            },
            Some(v) => {
                let next: u32 = acc * 16 + v as u32;
                if next > 255 {
                    proof {
                        if all_hex(digits) {
                            lemma_hex_number_grows(digits, i - start + 1);
                        }
                    }
                    return None;
                }
                acc = next;
            },
        }
        i += 1;
    }
    assert(digits.take(to - start) =~= digits);
    Some(acc as u8)
}

/// The two bytes of a 16-bit number, the high byte first.
pub open spec fn be_bytes(v: u16) -> Seq<u8> {
    seq![(v / 256) as u8, (v % 256) as u8]
}

/// The key under which a company's manufacturer data is listed: the company
/// identifier as four uppercase hexadecimal digits.
pub open spec fn company_key(company_id: u16) -> Seq<char> {
    hex_text(be_bytes(company_id), true)
}

/// Four uppercase hexadecimal digits for a company identifier.
pub fn format_company(company_id: u16) -> (key: String)
    ensures
        key@ == company_key(company_id),
        key@.len() == 4,
{
    let mut bytes: Vec<u8> = Vec::new();
    bytes.push((company_id / 256) as u8);
    bytes.push((company_id % 256) as u8);
    encode_upper(bytes.as_slice())
}

} // verus!
