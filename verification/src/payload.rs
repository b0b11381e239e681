//! The payload of a write, as the application gives it: hexadecimal or
//! plain text.

use vstd::prelude::*;
use vstd::utf8::encode_utf8;
use crate::advert::octet_list;
use crate::hexcode::{all_hex, hex_digit_value, is_hex_char, octet_of, parse_octet};
use crate::stack::WriteKind;
use crate::text::{chars_of, same_text};

verus! {

/// Whether a character is white space in the sense of Unicode.
pub open spec fn is_whitespace(c: char) -> bool {
    let v = c as u32;
    ||| 0x09 <= v <= 0x0D
    ||| v == 0x20
    ||| v == 0x85
    ||| v == 0xA0
    ||| v == 0x1680
    ||| 0x2000 <= v <= 0x200A
    ||| v == 0x2028
    ||| v == 0x2029
    ||| v == 0x202F
    ||| v == 0x205F
    ||| v == 0x3000
}

/// The first place at or after `from` that holds no white space.
pub open spec fn skip_whitespace(text: Seq<char>, from: int) -> int
    decreases text.len() - from,
{
    if from >= text.len() || from < 0 || !is_whitespace(text[from]) {
        from
    } else {
        skip_whitespace(text, from + 1)
    }
}

/// The end of the text before `to` once trailing white space is dropped,
/// never before `start`.
pub open spec fn drop_whitespace(text: Seq<char>, start: int, to: int) -> int
    decreases to - start,
{
    if to <= start || to > text.len() || !is_whitespace(text[to - 1]) {
        to
    } else {
        drop_whitespace(text, start, to - 1)
    }
}

/// A text without its leading and trailing white space.
pub open spec fn trimmed(text: Seq<char>) -> Seq<char> {
    let start = skip_whitespace(text, 0);
    let end = drop_whitespace(text, start, text.len() as int);
    text.subrange(start, end)
}

/// Whether a text starts with `0x`.
pub open spec fn has_hex_prefix(text: Seq<char>) -> bool {
    text.len() >= 2 && text[0] == '0' && text[1] == 'x'
}

/// Bytes as characters, each byte as the character of its value.
pub open spec fn byte_chars(bytes: Seq<u8>) -> Seq<char> {
    Seq::new(bytes.len(), |i: int| bytes[i] as char)
}

/// The bytes that a text denotes pair by pair: every two characters, and a
/// last single one, are read as a byte in hexadecimal; a pair that is none
/// contributes nothing.
pub open spec fn hex_pairs(text: Seq<char>) -> Seq<u8>
    decreases text.len(),
{
    if text.len() == 0 {
        Seq::empty()
    } else if text.len() == 1 {
        octet_list(octet_of(text))
    } else {
        octet_list(octet_of(text.take(2))) + hex_pairs(text.skip(2))
    }
}

/// The bytes that a payload text stands for. The text is trimmed first. One
/// that starts with `0x` is hexadecimal after that prefix; one made of
/// hexadecimal digits only is hexadecimal as a whole; both are read pair by
/// pair over their UTF-8 bytes. Any other text stands for its own UTF-8
/// bytes.
pub open spec fn payload_of(data: Seq<char>) -> Seq<u8> {
    let text = trimmed(data);
    if has_hex_prefix(text) {
        hex_pairs(byte_chars(encode_utf8(text.skip(2))))
    } else if all_hex(text) {
        hex_pairs(byte_chars(encode_utf8(text)))
    } else {
        encode_utf8(text)
    }
}

fn is_space(c: char) -> (space: bool)
    ensures
        space == is_whitespace(c),
{
    let v: u32 = c as u32;
    (0x09 <= v && v <= 0x0D) || v == 0x20 || v == 0x85 || v == 0xA0 || v == 0x1680 || (0x2000 <= v && v
        <= 0x200A) || v == 0x2028 || v == 0x2029 || v == 0x202F || v == 0x205F || v == 0x3000
}

fn trim_bounds(chars: &Vec<char>) -> (bounds: (usize, usize))
    ensures
        bounds.0 == skip_whitespace(chars@, 0),
        bounds.1 == drop_whitespace(chars@, bounds.0 as int, chars@.len() as int),
        bounds.0 <= bounds.1 <= chars.len(),
{
    let mut start: usize = 0;
    while start < chars.len() && is_space(chars[start])
        invariant
            start <= chars.len(),
            skip_whitespace(chars@, start as int) == skip_whitespace(chars@, 0),
        decreases chars.len() - start,
    {
        start += 1;
    }
    let mut end: usize = chars.len();
    while end > start && is_space(chars[end - 1])
        invariant
            start <= end <= chars.len(),
            drop_whitespace(chars@, start as int, end as int) == drop_whitespace(
                chars@,
                start as int,
                chars@.len() as int,
            ),
        decreases end - start,
    {
        end -= 1;
    }
    (start, end)
}

fn only_hex(chars: &Vec<char>, from: usize, to: usize) -> (yes: bool)
    requires
        from <= to <= chars.len(),
    ensures
        yes == all_hex(chars@.subrange(from as int, to as int)),
{
    let mut i: usize = from;
    while i < to
        invariant
            from <= i <= to <= chars.len(),
            forall|k: int| from <= k < i ==> is_hex_char(chars@[k]),
        decreases to - i,
    {
        if hex_digit_value(chars[i]).is_none() {
            assert(chars@.subrange(from as int, to as int)[i - from] == chars@[i as int]);
            return false;
        }
        i += 1;
    }
    true
}

fn chars_of_bytes(bytes: &[u8]) -> (chars: Vec<char>)
    ensures
        chars@ == byte_chars(bytes@),
{
    let mut chars: Vec<char> = Vec::new();
    let mut i: usize = 0;
    while i < bytes.len()
        invariant
            i <= bytes.len(),
            chars.len() == i,
            forall|k: int| 0 <= k < chars.len() ==> chars@[k] == bytes@[k] as char,
        decreases bytes.len() - i,
    {
        chars.push(bytes[i] as char);
        i += 1;
    }
    chars
}

fn read_pairs(chars: &Vec<char>) -> (bytes: Vec<u8>)
    ensures
        bytes@ == hex_pairs(chars@),
{
    let mut bytes: Vec<u8> = Vec::new();
    let mut i: usize = 0;
    assert(chars@.skip(0) =~= chars@);
    while i < chars.len()
        invariant
            i <= chars.len(),
            bytes@ + hex_pairs(chars@.skip(i as int)) == hex_pairs(chars@),
        decreases chars.len() - i,
    {
        let rest: usize = chars.len() - i;
        let width: usize = if rest < 2 {
            rest
        } else {
            2
        };
        let ghost tail = chars@.skip(i as int);
        let octet = parse_octet(chars, i, i + width);
        proof {
            if rest > 1 {
                assert(chars@.subrange(i as int, i + 2) =~= tail.take(2));
                assert(chars@.skip(i + 2) =~= tail.skip(2));
            }
        }
        match octet {
            Some(b) => {
                bytes.push(b);
            },
            None => {},
        }
        i += width;
    }
    bytes
}

/// Reads the payload of a write. No text is rejected.
pub fn parse_data_string(data: &str) -> (bytes: Vec<u8>)
    ensures
        bytes@ == payload_of(data@),
{
    let chars = chars_of(data);
    let (start, end) = trim_bounds(&chars);
    let text = data.substring_char(start, end);
    let raw = text.as_bytes();
    let prefixed = end - start >= 2 && chars[start] == '0' && chars[start + 1] == 'x';
    if prefixed {
        let digits = data.substring_char(start + 2, end);
        assert(digits@ =~= text@.skip(2));
        let hex = chars_of_bytes(digits.as_bytes());
        read_pairs(&hex)
    } else if only_hex(&chars, start, end) {
        let hex = chars_of_bytes(raw);
        read_pairs(&hex)
    } else {
        let mut bytes: Vec<u8> = Vec::new();
        let mut i: usize = 0;
        while i < raw.len()
            invariant
                i <= raw.len(),
                bytes@ == raw@.take(i as int),
            decreases raw.len() - i,
        {
            bytes.push(raw[i]);
            i += 1;
        }
        bytes
    }
}

/// The write kind that a request names: `command` for a write without
/// response; any other name, and none, for a write with response.
pub open spec fn write_kind_of(requested: Option<Seq<char>>) -> WriteKind {
    if requested == Some("command"@) {
        WriteKind::Command
    } else {
        WriteKind::Request
    }
}

/// Reads the write kind of a request.
pub fn write_kind(requested: Option<&str>) -> (kind: WriteKind)
    ensures
        kind == write_kind_of(
            match requested {
                Some(name) => Some(name@),
                None => None,
            },
        ),
{
    match requested {
        Some(name) => {
            if same_text(name, "command") {
                WriteKind::Command
            } else {
                WriteKind::Request
            }
        },
        None => WriteKind::Request,
    }
}

} // verus!
