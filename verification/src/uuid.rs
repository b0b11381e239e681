//! The forms of a Bluetooth UUID: as given, expanded to 128 bits, and
//! compressed to 16 bits.
//!
//! Callers and peripherals do not agree on the form they expect, so a read
//! tries all three. Both derived forms start from the uppercase of the UUID
//! as given.

use vstd::prelude::*;
use vstd::utf8::encode_utf8;
use crate::stack::UuidForm;
use crate::text::{to_uppercase, uppercase_of};

verus! {

/// What the `regex` crate captures in group `group` at the first match of
/// `pattern` in `text`: nothing where the pattern does not compile, and
/// otherwise the text of the group, or nothing where there is no match or
/// the group took no part in it.
pub uninterp spec fn captured_group(pattern: Seq<char>, text: Seq<char>, group: nat) -> Option<Option<Seq<char>>>;

/// The text that a capture group of a regular expression matched.
///
/// Trusted: compiles the pattern with `regex::Regex::new`, searches the text
/// with `Regex::captures`, and takes the group with `Captures::get` and
/// `Match::as_str`. All of them depend on their arguments alone; the
/// contract only names the result.
#[verifier::external_body]
pub(crate) fn capture_group(pattern: &str, text: &str, group: usize) -> (found: Option<Option<String>>)
    ensures
        found.deep_view() == captured_group(pattern@, text@, group as nat),
{
    let re = match regex::Regex::new(pattern) {
        Ok(re) => re,
        Err(_) => return None,
    };
    let captures = match re.captures(text) {
        Some(captures) => captures,
        None => return Some(None),
    };
    match captures.get(group) {
        Some(found) => Some(Some(found.as_str().to_string())),
        None => Some(None),
    }
}

/// What follows the 16 bits in every UUID derived from the Bluetooth base
/// UUID.
pub const BASE_UUID_TAIL: &'static str = "-0000-1000-8000-00805F9B34FB";

/// The pattern of a UUID derived from the Bluetooth base UUID, with the 16
/// bits as its first group.
pub const BASE_UUID_PATTERN: &'static str = "^0000([0-9A-F]{4})-0000-1000-8000-00805F9B34FB$";

/// The full form of an uppercase UUID: one that is four bytes long is set
/// into the Bluetooth base UUID; any other stays as it is.
pub open spec fn expanded(upper: Seq<char>) -> Seq<char> {
    if encode_utf8(upper).len() == 4 {
        "0000"@ + upper + BASE_UUID_TAIL@
    } else {
        upper
    }
}

/// The short form of an uppercase UUID, given what the base UUID pattern
/// captured in it: the captured 16 bits of a UUID that is 36 bytes long;
/// any other stays as it is.
pub open spec fn compressed(upper: Seq<char>, capture: Option<Option<Seq<char>>>) -> Seq<char> {
    if encode_utf8(upper).len() == 36 {
        match capture {
            Some(Some(bits)) => bits,
            _ => upper,
        }
    } else {
        upper
    }
}

/// The full form of a UUID.
pub open spec fn full_form(uuid: Seq<char>) -> Seq<char> {
    expanded(uppercase_of(uuid))
}

/// The short form of a UUID.
pub open spec fn short_form(uuid: Seq<char>) -> Seq<char> {
    let upper = uppercase_of(uuid);
    compressed(upper, captured_group(BASE_UUID_PATTERN@, upper, 1))
}

/// A UUID in one of the three forms.
pub open spec fn uuid_form(form: UuidForm, uuid: Seq<char>) -> Seq<char> {
    match form {
        UuidForm::AsGiven => uuid,
        UuidForm::Full => full_form(uuid),
        UuidForm::Short => short_form(uuid),
    }
}

/// Sets an uppercase 16-bit UUID into the Bluetooth base UUID.
pub fn expand(upper: String) -> (full: String)
    ensures
        full@ == expanded(upper@),
{
    if upper.as_str().as_bytes().len() == 4 {
        let mut full = String::from_str("0000");
        full.append(upper.as_str());
        full.append(BASE_UUID_TAIL);
        full
    } else {
        upper
    }
}

/// Takes the 16 bits out of an uppercase UUID, given what the base UUID
/// pattern captured in it.
pub fn compress(upper: String, capture: Option<Option<String>>) -> (short: String)
    ensures
        short@ == compressed(upper@, capture.deep_view()),
{
    if upper.as_str().as_bytes().len() == 36 {
        match capture {
            Some(Some(bits)) => bits,
            _ => upper,
        }
    } else {
        upper
    }
}

/// The full form of a UUID.
pub fn to_full(uuid: &str) -> (full: String)
    ensures
        full@ == full_form(uuid@),
{
    expand(to_uppercase(uuid))
}

/// The short form of a UUID.
pub fn to_short(uuid: &str) -> (short: String)
    ensures
        short@ == short_form(uuid@),
{
    let upper = to_uppercase(uuid);
    if upper.as_str().as_bytes().len() == 36 {
        let capture = capture_group(BASE_UUID_PATTERN, upper.as_str(), 1);
        compress(upper, capture)
    } else {
        upper
    }
}

/// A UUID in one of the three forms.
pub fn uuid_in(form: UuidForm, uuid: &str) -> (text: String)
    ensures
        text@ == uuid_form(form, uuid@),
{
    match form {
        UuidForm::AsGiven => String::from_str(uuid),
        UuidForm::Full => to_full(uuid),
        UuidForm::Short => to_short(uuid),
    }
}

} // verus!
