//! From one sighting of a peripheral to the device record that the registry
//! keeps: defaults for what the stack could not report, the manufacturer data
//! listing, the advertisement summary, and the derived raw payload.
//!
//! The raw payload is synthesized. Where a peripheral advertises manufacturer
//! data it frames the first entry; where it advertises none, the payload is
//! made up from the identifier and the address with fixed filler values, which
//! say nothing about the device's real state.

use vstd::prelude::*;
use vstd::utf8::encode_utf8;
use crate::device::{BleDevice, DeviceModel, TextPairs, copy_texts, keyed_once, mapped};
use crate::hexcode::{
    be_bytes, bytes_of_hex, company_key, encode_lower, encode_upper, format_company, hex_text,
    lemma_hex_round_trip, octet_of, parse_octet,
};
use crate::lookup::{first_where, lemma_first_where, lemma_first_where_is, lemma_first_where_none};
use crate::text::{
    bool_text, chars_of, contains_chars, contains_text, decimal_text, format_bool, format_i16,
    format_unsigned, lowercase_of, to_lowercase,
};

verus! {

/// The length of every raw payload.
pub const RAW_PAYLOAD_LEN: usize = 31;

/// The length of a device address in bytes.
pub const MAC_LEN: usize = 6;

/// The low eight bits of a character's code point.
pub open spec fn low_byte(c: char) -> u8 {
    (c as u32 % 256) as u8
}

/// The sum of the low bytes of an identifier's characters, kept to 16 bits.
pub open spec fn identifier_sum(identifier: Seq<char>) -> int
    decreases identifier.len(),
{
    if identifier.len() == 0 {
        0
    } else {
        (identifier_sum(identifier.drop_last()) + low_byte(identifier.last())) % 65536
    }
}

/// The device kind for an identifier in lowercase: `0x23` where it contains
/// `tws` or `earbud`, and zero otherwise.
pub open spec fn kind_given(lower: Seq<char>) -> u8 {
    if contains_text(lower, "tws"@) || contains_text(lower, "earbud"@) {
        0x23
    } else {
        0
    }
}

/// The device kind that the raw payload carries, found in the lowercase of
/// the identifier.
pub open spec fn device_kind(identifier: Seq<char>) -> u8 {
    kind_given(lowercase_of(identifier))
}

/// A byte as a list of one, and no byte as the empty list.
pub open spec fn octet_list(octet: Option<u8>) -> Seq<u8> {
    match octet {
        Some(b) => seq![b],
        None => Seq::empty(),
    }
}

/// The bytes that the pieces of `text` between colons denote, read from
/// position `from` on, where the piece under way began at `piece`. A piece
/// that is no hexadecimal byte contributes nothing.
pub open spec fn address_octets(text: Seq<char>, from: int, piece: int) -> Seq<u8>
    decreases text.len() - from,
{
    if from >= text.len() {
        octet_list(octet_of(text.subrange(piece, text.len() as int)))
    } else if text[from] == ':' {
        octet_list(octet_of(text.subrange(piece, from))) + address_octets(text, from + 1, from + 1)
    } else {
        address_octets(text, from + 1, piece)
    }
}

/// Whether an address is written with colons.
pub open spec fn has_colon(address: Seq<char>) -> bool {
    exists|i: int| 0 <= i < address.len() && address[i] == ':'
}

/// The stand-in address bytes made from an identifier: the low byte of each
/// of its first six characters, plus the character's position.
pub open spec fn identifier_octets(identifier: Seq<char>) -> Seq<u8> {
    Seq::new(
        if identifier.len() < 6 {
            identifier.len()
        } else {
            6
        },
        |i: int| ((low_byte(identifier[i]) + i) % 256) as u8,
    )
}

/// A byte string cut or zero-padded to exactly `len` bytes.
pub open spec fn fitted(bytes: Seq<u8>, len: nat) -> Seq<u8> {
    Seq::new(
        len,
        |i: int|
            if i < bytes.len() {
                bytes[i]
            } else {
                0u8
            },
    )
}

/// The six address bytes of the raw payload: parsed from an address written
/// with colons, made from the identifier otherwise.
pub open spec fn payload_address(identifier: Seq<char>, address: Seq<char>) -> Seq<u8> {
    fitted(
        if has_colon(address) {
            address_octets(address, 0, 0)
        } else {
            identifier_octets(identifier)
        },
        6,
    )
}

/// The eight trailing bytes of the synthesized payload: the identifier's
/// length in UTF-8 plus the device kind, counted upward, each kept to a byte.
pub open spec fn payload_tail(identifier: Seq<char>, kind: u8) -> Seq<u8> {
    Seq::new(8, |i: int| ((encode_utf8(identifier).len() + kind + i) % 256) as u8)
}

/// The synthesized payload for a given device kind: two framing bytes, the
/// identifier's sum with its low byte first, four fixed bytes, the device
/// kind, six address bytes, the paired flag, seven fixed bytes, and the
/// eight trailing bytes.
pub open spec fn composed_payload(identifier: Seq<char>, address: Seq<char>, paired: bool, kind: u8) -> Seq<u8> {
    let sum = identifier_sum(identifier);
    seq![
        0x1Eu8,
        0xFFu8,
        (sum % 256) as u8,
        (sum / 256) as u8,
        0x00u8,
        0x01u8,
        0x00u8,
        0x20u8,
        kind,
    ] + payload_address(identifier, address) + seq![
        if paired {
            0x01u8
        } else {
            0x00u8
        },
        0x50u8,
        0x55u8,
        0x64u8,
        0x01u8,
        0x00u8,
        0x00u8,
        0x00u8,
    ] + payload_tail(identifier, kind)
}

/// The payload synthesized for a device that advertises no manufacturer data.
pub open spec fn synthetic_payload(identifier: Seq<char>, address: Seq<char>, paired: bool) -> Seq<u8> {
    composed_payload(identifier, address, paired, device_kind(identifier))
}

/// The payload that frames one entry of manufacturer data: length and type
/// bytes, the company identifier with its low byte first, then the data.
pub open spec fn manufacturer_payload(company_id: u16, data: Seq<u8>) -> Seq<u8> {
    seq![0x1Eu8, 0xFFu8, (company_id % 256) as u8, (company_id / 256) as u8] + data
}

fn sum_identifier(chars: &Vec<char>) -> (sum: u16)
    ensures
        sum as int == identifier_sum(chars@),
{
    let mut sum: u16 = 0;
    let mut i: usize = 0;
    while i < chars.len()
        invariant
            i <= chars.len(),
            sum as int == identifier_sum(chars@.take(i as int)),
        decreases chars.len() - i,
    {
        let low: u16 = (chars[i] as u32 % 256) as u16;
        assert(chars@.take(i + 1).drop_last() =~= chars@.take(i as int));
        sum = ((sum as u32 + low as u32) % 65536) as u16;
        i += 1;
    }
    assert(chars@.take(chars@.len() as int) =~= chars@);
    sum
}

/// The device kind for an identifier in lowercase.
pub fn classify(lower: &str) -> (kind: u8)
    ensures
        kind == kind_given(lower@),
{
    let lower_chars = chars_of(lower);
    let tws = chars_of("tws");
    let earbud = chars_of("earbud");
    if contains_chars(&lower_chars, &tws) || contains_chars(&lower_chars, &earbud) {
        0x23
    } else {
        0
    }
}

fn push_octet(out: &mut Vec<u8>, octet: Option<u8>)
    ensures
        final(out)@ == old(out)@ + octet_list(octet),
{
    match octet {
        Some(b) => {
            out.push(b);
        },
        None => {},
    }
}

fn split_address(chars: &Vec<char>) -> (octets: Vec<u8>)
    ensures
        octets@ == address_octets(chars@, 0, 0),
{
    let mut octets: Vec<u8> = Vec::new();
    let mut piece: usize = 0;
    let mut i: usize = 0;
    while i < chars.len()
        invariant
            piece <= i <= chars.len(),
            octets@ + address_octets(chars@, i as int, piece as int) == address_octets(chars@, 0, 0),
        decreases chars.len() - i,
    {
        if chars[i] == ':' {
            push_octet(&mut octets, parse_octet(chars, piece, i));
            piece = i + 1;
        }
        i += 1;
    }
    push_octet(&mut octets, parse_octet(chars, piece, chars.len()));
    octets
}

fn find_colon(chars: &Vec<char>) -> (found: bool)
    ensures
        found == has_colon(chars@),
{
    let mut i: usize = 0;
    while i < chars.len()
        invariant
            i <= chars.len(),
            forall|k: int| 0 <= k < i ==> chars@[k] != ':',
        decreases chars.len() - i,
    {
        if chars[i] == ':' {
            return true;
        }
        i += 1;
    }
    false
}

fn octets_of_identifier(chars: &Vec<char>) -> (octets: Vec<u8>)
    ensures
        octets@ == identifier_octets(chars@),
{
    let mut octets: Vec<u8> = Vec::new();
    let mut i: usize = 0;
    while i < chars.len() && i < 6
        invariant
            i <= chars.len(),
            i <= 6,
            octets.len() == i,
            forall|k: int| 0 <= k < i ==> octets@[k] == ((low_byte(chars@[k]) + k) % 256) as u8,
        decreases chars.len() - i,
    {
        let low: u32 = chars[i] as u32 % 256;
        octets.push(((low + i as u32) % 256) as u8);
        i += 1;
    }
    octets
}

/// Cuts or zero-pads a byte string to exactly `len` bytes.
pub fn fit(bytes: Vec<u8>, len: usize) -> (out: Vec<u8>)
    ensures
        out@ == fitted(bytes@, len as nat),
{
    let mut out = bytes;
    out.truncate(len);
    while out.len() < len
        invariant
            out.len() <= len,
            out.len() < len ==> bytes.len() <= out.len(),
            forall|k: int| 0 <= k < out.len() ==> out@[k] == fitted(bytes@, len as nat)[k],
        decreases len - out.len(),
    {
        out.push(0);
    }
    out
}

fn address_for_payload(id_chars: &Vec<char>, address: &str) -> (mac: Vec<u8>)
    ensures
        mac@ == payload_address(id_chars@, address@),
{
    let address_chars = chars_of(address);
    let raw = if find_colon(&address_chars) {
        split_address(&address_chars)
    } else {
        octets_of_identifier(id_chars)
    };
    fit(raw, MAC_LEN)
}

fn append_bytes(out: &mut Vec<u8>, more: &Vec<u8>)
    ensures
        final(out)@ == old(out)@ + more@,
{
    let mut i: usize = 0;
    while i < more.len()
        invariant
            i <= more.len(),
            out@ == old(out)@ + more@.take(i as int),
        decreases more.len() - i,
    {
        out.push(more[i]);
        i += 1;
    }
}

/// The synthesized payload of a device of a given kind.
pub fn compose_payload(identifier: &str, address: &str, paired: bool, kind: u8) -> (payload: Vec<u8>)
    ensures
        payload@ == composed_payload(identifier@, address@, paired, kind),
        payload@.len() == 31,
{
    let id_chars = chars_of(identifier);
    let sum = sum_identifier(&id_chars);
    let mac = address_for_payload(&id_chars, address);
    let mut payload: Vec<u8> = Vec::new();
    payload.push(0x1E);
    payload.push(0xFF);
    payload.push((sum % 256) as u8);
    payload.push((sum / 256) as u8);
    payload.push(0x00);
    payload.push(0x01);
    payload.push(0x00);
    payload.push(0x20);
    payload.push(kind);
    let ghost lead = payload@;
    assert(lead =~= seq![
        0x1Eu8,
        0xFFu8,
        (sum % 256) as u8,
        (sum / 256) as u8,
        0x00u8,
        0x01u8,
        0x00u8,
        0x20u8,
        kind,
    ]);
    append_bytes(&mut payload, &mac);
    let flag: u8 = if paired { 0x01 } else { 0x00 };
    payload.push(flag);
    payload.push(0x50);
    payload.push(0x55);
    payload.push(0x64);
    payload.push(0x01);
    payload.push(0x00);
    payload.push(0x00);
    payload.push(0x00);
    let base: usize = identifier.as_bytes().len() % 256 + kind as usize;
    let ghost head = payload@;
    let ghost width: int = encode_utf8(identifier@).len() as int;
    assert(head =~= lead + mac@ + seq![flag, 0x50u8, 0x55u8, 0x64u8, 0x01u8, 0x00u8, 0x00u8, 0x00u8]);
    let mut i: usize = 0;
    while i < 8
        invariant
            i <= 8,
            base == width % 256 + kind,
            payload@.len() == head.len() + i,
            payload@.take(head.len() as int) == head,
            forall|j: int|
                head.len() <= j < head.len() + i ==> #[trigger] payload@[j] == ((width + kind + (j
                    - head.len())) % 256) as u8,
        decreases 8 - i,
    {
        payload.push(((base + i) % 256) as u8);
        i += 1;
    }
    payload
}

/// The payload synthesized from an identifier, an address and the paired
/// flag, for a device that advertises no manufacturer data.
pub fn synthesize_payload(identifier: &str, address: &str, paired: bool) -> (payload: Vec<u8>)
    ensures
        payload@ == synthetic_payload(identifier@, address@, paired),
        payload@.len() == 31,
{
    let lower = to_lowercase(identifier);
    compose_payload(identifier, address, paired, classify(lower.as_str()))
}

/// The payload that frames one entry of manufacturer data.
pub fn frame_manufacturer_data(company_id: u16, data: &Vec<u8>) -> (payload: Vec<u8>)
    ensures
        payload@ == manufacturer_payload(company_id, data@),
{
    let mut payload: Vec<u8> = Vec::new();
    payload.push(0x1E);
    payload.push(0xFF);
    payload.push((company_id % 256) as u8);
    payload.push((company_id / 256) as u8);
    append_bytes(&mut payload, data);
    payload
}

/// Manufacturer data as the stack reports it: company identifiers with their
/// payloads.
pub type CompanyData = Seq<(u16, Seq<u8>)>;

/// The condition of being an entry of the given company.
pub open spec fn company_is(company: u16) -> spec_fn((u16, Seq<u8>)) -> bool {
    |entry: (u16, Seq<u8>)| entry.0 == company
}

/// A listing with the company's data set: in place where the company is
/// listed already, at the end otherwise.
pub open spec fn with_company(listed: CompanyData, company: u16, data: Seq<u8>) -> CompanyData {
    match first_where(listed, company_is(company)) {
        Some(i) => listed.update(i, (company, data)),
        None => listed.push((company, data)),
    }
}

/// The reported entries as a mapping: each company once, at the place of its
/// first entry, with the data of its last.
pub open spec fn distinct_companies(entries: CompanyData) -> CompanyData
    decreases entries.len(),
{
    if entries.len() == 0 {
        Seq::empty()
    } else {
        with_company(distinct_companies(entries.drop_last()), entries.last().0, entries.last().1)
    }
}

/// The manufacturer data of a device record: the company identifier as four
/// uppercase hexadecimal digits, the payload in lowercase hexadecimal.
pub open spec fn listing_of(companies: CompanyData) -> TextPairs {
    Seq::new(companies.len(), |i: int| (company_key(companies[i].0), hex_text(companies[i].1, false)))
}

/// A value as a list of one pair under `key`, and no value as the empty list.
pub open spec fn optional_pair(key: Seq<char>, value: Option<Seq<char>>) -> TextPairs {
    match value {
        Some(v) => seq![(key, v)],
        None => Seq::empty(),
    }
}

/// The decimal text of an optional number.
pub open spec fn optional_decimal(value: Option<i16>) -> Option<Seq<char>> {
    match value {
        Some(v) => Some(decimal_text(v as int)),
        None => None,
    }
}

/// The pairs that describe the advertised services: their count and the
/// first of them, or nothing where none is advertised.
pub open spec fn service_pairs(services: Seq<Seq<char>>) -> TextPairs {
    if services.len() > 0 {
        seq![
            ("services_count"@, decimal_text(services.len() as int)),
            ("primary_service"@, services[0]),
        ]
    } else {
        Seq::empty()
    }
}

/// The pairs that describe the manufacturer data: the number of entries, and
/// the company and payload length in bytes of the first entry; nothing where
/// there is no entry.
pub open spec fn manufacturer_pairs(listing: TextPairs) -> TextPairs {
    if listing.len() > 0 {
        seq![
            ("manufacturer_data_entries"@, decimal_text(listing.len() as int)),
            ("manufacturer_company_id"@, listing[0].0),
            ("manufacturer_data_length"@, decimal_text(listing[0].1.len() as int / 2)),
        ]
    } else {
        Seq::empty()
    }
}

/// The advertisement summary of a device, derived from its other fields.
pub open spec fn summary_of(
    identifier: Seq<char>,
    address: Seq<char>,
    rssi: Option<i16>,
    tx_power: Option<i16>,
    connectable: bool,
    services: Seq<Seq<char>>,
    listing: TextPairs,
) -> TextPairs {
    optional_pair("rssi"@, optional_decimal(rssi)) + optional_pair(
        "tx_power"@,
        optional_decimal(tx_power),
    ) + seq![("connectable"@, bool_text(connectable))] + service_pairs(services)
        + manufacturer_pairs(listing) + seq![("mac_address"@, address), ("identifier"@, identifier)]
}

/// The raw payload of a device: the first manufacturer entry framed, or the
/// synthesized payload where there is none, cut or padded to 31 bytes.
pub open spec fn raw_payload(
    identifier: Seq<char>,
    address: Seq<char>,
    paired: bool,
    companies: CompanyData,
) -> Seq<u8> {
    fitted(
        if companies.len() > 0 {
            manufacturer_payload(companies[0].0, companies[0].1)
        } else {
            synthetic_payload(identifier, address, paired)
        },
        31,
    )
}

/// Model of a [`Sighting`].
pub struct SightingModel {
    pub identifier: Option<Seq<char>>,
    pub address: Option<Seq<char>>,
    pub rssi: Option<i16>,
    pub tx_power: Option<i16>,
    pub connectable: Option<bool>,
    pub paired: Option<bool>,
    pub manufacturer_data: Option<CompanyData>,
    pub services: Option<Seq<Seq<char>>>,
}

/// What the stack reported of a peripheral at one scan event. A field is
/// absent where the stack's query for it failed.
#[derive(Debug, Clone)]
pub struct Sighting {
    pub identifier: Option<String>,
    pub address: Option<String>,
    pub rssi: Option<i16>,
    pub tx_power: Option<i16>,
    pub connectable: Option<bool>,
    pub paired: Option<bool>,
    pub manufacturer_data: Option<Vec<(u16, Vec<u8>)>>,
    pub services: Option<Vec<String>>,
}

impl View for Sighting {
    type V = SightingModel;

    open spec fn view(&self) -> SightingModel {
        SightingModel {
            identifier: self.identifier.deep_view(),
            address: self.address.deep_view(),
            rssi: self.rssi,
            tx_power: self.tx_power,
            connectable: self.connectable,
            paired: self.paired,
            manufacturer_data: self.manufacturer_data.deep_view(),
            services: self.services.deep_view(),
        }
    }
}

/// The identifier recorded for a sighting: `unknown` where the stack gave none.
pub open spec fn identifier_of(s: SightingModel) -> Seq<char> {
    match s.identifier {
        Some(id) => id,
        None => "unknown"@,
    }
}

/// The address recorded for a sighting: `Unknown` where the stack gave none.
pub open spec fn address_of(s: SightingModel) -> Seq<char> {
    match s.address {
        Some(a) => a,
        None => "Unknown"@,
    }
}

/// The manufacturer data of a sighting as a mapping; empty where the stack
/// gave none.
pub open spec fn companies_of(s: SightingModel) -> CompanyData {
    match s.manufacturer_data {
        Some(entries) => distinct_companies(entries),
        None => Seq::empty(),
    }
}

/// The services of a sighting; none where the stack gave none.
pub open spec fn services_of(s: SightingModel) -> Seq<Seq<char>> {
    match s.services {
        Some(services) => services,
        None => Seq::empty(),
    }
}

/// The device record that a sighting gives rise to. It carries no name: the
/// stack reports none. A flag that the stack could not report counts as false.
pub open spec fn device_of(s: SightingModel) -> DeviceModel {
    let identifier = identifier_of(s);
    let address = address_of(s);
    let connectable = s.connectable == Some(true);
    let paired = s.paired == Some(true);
    let companies = companies_of(s);
    DeviceModel {
        identifier,
        name: None,
        address,
        rssi: s.rssi,
        tx_power: s.tx_power,
        connectable,
        paired,
        manufacturer_data: listing_of(companies),
        services: services_of(s),
        adv_data: Some(
            summary_of(identifier, address, s.rssi, s.tx_power, connectable, services_of(s), listing_of(companies)),
        ),
        raw_adv_data: Some(hex_text(raw_payload(identifier, address, paired, companies), true)),
    }
}

fn push_pair(list: &mut Vec<(String, String)>, key: &str, value: String)
    ensures
        final(list).deep_view() == old(list).deep_view().push((key@, value@)),
{
    list.push((String::from_str(key), value));
}

fn position_of_company(keys: &Vec<u16>, company: u16) -> (at: Option<usize>)
    ensures
        match at {
            Some(i) => i < keys.len() && keys@[i as int] == company && forall|j: int|
                0 <= j < i ==> keys@[j] != company,
            None => forall|j: int| 0 <= j < keys.len() ==> keys@[j] != company,
        },
{
    let mut i: usize = 0;
    while i < keys.len()
        invariant
            i <= keys.len(),
            forall|j: int| 0 <= j < i ==> keys@[j] != company,
        decreases keys.len() - i,
    {
        if keys[i] == company {
            return Some(i);
        }
        i += 1;
    }
    None
}

/// The listing of manufacturer data: each company once, at the place of its
/// first entry, with the data of its last.
pub fn list_companies(entries: &Vec<(u16, Vec<u8>)>) -> (listing: Vec<(String, String)>)
    ensures
        listing.deep_view() == listing_of(distinct_companies(entries.deep_view())),
{
    let mut keys: Vec<u16> = Vec::new();
    let mut listing: Vec<(String, String)> = Vec::new();
    let ghost all = entries.deep_view();
    let ghost mut known: CompanyData = Seq::empty();
    let mut i: usize = 0;
    while i < entries.len()
        invariant
            i <= entries.len(),
            all == entries.deep_view(),
            known == distinct_companies(all.take(i as int)),
            keys.len() == known.len(),
            listing.len() == known.len(),
            forall|k: int| 0 <= k < known.len() ==> keys@[k] == (#[trigger] known[k]).0,
            listing.deep_view() == listing_of(known),
        decreases entries.len() - i,
    {
        let company: u16 = entries[i].0;
        let ghost data: Seq<u8> = entries@[i as int].1@;
        assert(all[i as int] == (company, data));
        assert(all.take(i + 1).drop_last() =~= all.take(i as int));
        let key = format_company(company);
        let value = encode_lower(entries[i].1.as_slice());
        let ghost before = known;
        match position_of_company(&keys, company) {
            Some(p) => {
                proof {
                    lemma_first_where_is(before, company_is(company), p as int);
                    known = before.update(p as int, (company, data));
                }
                let ghost old_listing = listing@;
                listing.set(p, (key, value));
                assert forall|k: int| 0 <= k < known.len() implies listing.deep_view()[k] == listing_of(known)[k] by {
                    if k != p {
                        assert(old_listing[k].deep_view() == listing_of(before)[k]);
                    }
                }
            },
            None => {
                proof {
                    lemma_first_where_none(before, company_is(company));
                    known = before.push((company, data));
                }
                let ghost old_listing = listing@;
                keys.push(company);
                listing.push((key, value));
                assert forall|k: int| 0 <= k < known.len() implies listing.deep_view()[k] == listing_of(known)[k] by {
                    if k < before.len() {
                        assert(old_listing[k].deep_view() == listing_of(before)[k]);
                    }
                }
            },
        }
        i += 1;
    }
    assert(all.take(entries.len() as int) =~= all);
    listing
}

fn summarize(
    identifier: &String,
    address: &String,
    rssi: Option<i16>,
    tx_power: Option<i16>,
    connectable: bool,
    services: &Vec<String>,
    listing: &Vec<(String, String)>,
) -> (summary: Vec<(String, String)>)
    ensures
        summary.deep_view() == summary_of(
            identifier@,
            address@,
            rssi,
            tx_power,
            connectable,
            services.deep_view(),
            listing.deep_view(),
        ),
{
    let mut summary: Vec<(String, String)> = Vec::new();
    if let Some(v) = rssi {
        push_pair(&mut summary, "rssi", format_i16(v));
    }
    if let Some(v) = tx_power {
        push_pair(&mut summary, "tx_power", format_i16(v));
    }
    push_pair(&mut summary, "connectable", format_bool(connectable));
    if services.len() > 0 {
        push_pair(&mut summary, "services_count", format_unsigned(services.len() as u64));
        push_pair(&mut summary, "primary_service", services[0].clone());
    }
    if listing.len() > 0 {
        push_pair(&mut summary, "manufacturer_data_entries", format_unsigned(listing.len() as u64));
        push_pair(&mut summary, "manufacturer_company_id", listing[0].0.clone());
        let digits: usize = listing[0].1.as_str().unicode_len();
        push_pair(&mut summary, "manufacturer_data_length", format_unsigned((digits / 2) as u64));
    }
    push_pair(&mut summary, "mac_address", address.clone());
    push_pair(&mut summary, "identifier", identifier.clone());
    summary
}

impl Sighting {
    /// The device record for this sighting. The record is valid: its
    /// manufacturer data and its summary hold each key once.
    pub fn describe(&self) -> (device: BleDevice)
        ensures
            device@ == device_of(self@),
            device.wf(),
    {
        proof {
            lemma_described_mappings(self@);
        }
        let identifier = match &self.identifier {
            Some(id) => id.clone(),
            None => String::from_str("unknown"),
        };
        let address = match &self.address {
            Some(a) => a.clone(),
            None => String::from_str("Unknown"),
        };
        let connectable = match self.connectable {
            Some(c) => c,
            None => false,
        };
        let paired = match self.paired {
            Some(p) => p,
            None => false,
        };
        let services = match &self.services {
            Some(list) => copy_texts(list),
            None => Vec::new(),
        };
        assert(services.deep_view() =~= services_of(self@));
        let no_entries: Vec<(u16, Vec<u8>)> = Vec::new();
        let entries = match &self.manufacturer_data {
            Some(entries) => entries,
            None => &no_entries,
        };
        let listing = list_companies(entries);
        let ghost companies = companies_of(self@);
        let framed = if entries.len() > 0 {
            proof {
                lemma_first_company(entries.deep_view());
                lemma_hex_round_trip(companies[0].1, false);
            }
            let data = match bytes_of_hex(listing[0].1.as_str()) {
                Some(data) => data,
                None => Vec::new(),
            };
            frame_manufacturer_data(entries[0].0, &data)
        } else {
            synthesize_payload(identifier.as_str(), address.as_str(), paired)
        };
        let raw = fit(framed, RAW_PAYLOAD_LEN);
        let summary = summarize(&identifier, &address, self.rssi, self.tx_power, connectable, &services, &listing);
        BleDevice {
            identifier,
            name: None,
            address,
            rssi: self.rssi,
            tx_power: self.tx_power,
            connectable,
            paired,
            manufacturer_data: listing,
            services,
            adv_data: Some(summary),
            raw_adv_data: Some(encode_upper(raw.as_slice())),
        }
    }
}

/// The first place of the mapping holds the company of the first entry.
pub proof fn lemma_first_company(entries: CompanyData)
    requires
        entries.len() > 0,
    ensures
        distinct_companies(entries).len() > 0,
        distinct_companies(entries)[0].0 == entries[0].0,
    decreases entries.len(),
{
    let front = entries.drop_last();
    let known = distinct_companies(front);
    let last = entries.last();
    lemma_first_where(known, company_is(last.0));
    if front.len() > 0 {
        lemma_first_company(front);
    }
}


/// The reported manufacturer data, taken as a mapping, holds each company
/// once.
pub proof fn lemma_companies_once(entries: CompanyData)
    ensures
        keyed_once(distinct_companies(entries)),
    decreases entries.len(),
{
    if entries.len() > 0 {
        let known = distinct_companies(entries.drop_last());
        lemma_companies_once(entries.drop_last());
        lemma_first_where(known, company_is(entries.last().0));
    }
}

/// Different companies have different keys.
pub proof fn lemma_company_keys_differ(a: u16, b: u16)
    requires
        a != b,
    ensures
        company_key(a) != company_key(b),
{
    lemma_hex_round_trip(be_bytes(a), true);
    lemma_hex_round_trip(be_bytes(b), true);
}

/// The place of a key among the keys of a summary, in the order in which a
/// summary lists them; zero for any other text.
pub open spec fn summary_place(key: Seq<char>) -> int {
    if key == "rssi"@ {
        1
    } else if key == "tx_power"@ {
        2
    } else if key == "connectable"@ {
        3
    } else if key == "services_count"@ {
        4
    } else if key == "primary_service"@ {
        5
    } else if key == "manufacturer_data_entries"@ {
        6
    } else if key == "manufacturer_company_id"@ {
        7
    } else if key == "manufacturer_data_length"@ {
        8
    } else if key == "mac_address"@ {
        9
    } else if key == "identifier"@ {
        10
    } else {
        0
    }
}

/// Whether the keys of a list of pairs are keys of a summary at places from
/// `low` to `high`, in the order of their places.
pub open spec fn placed_within(pairs: TextPairs, low: int, high: int) -> bool {
    &&& forall|i: int| 0 <= i < pairs.len() ==> low <= summary_place((#[trigger] pairs[i]).0) <= high
    &&& forall|i: int, j: int|
        0 <= i < j < pairs.len() ==> summary_place((#[trigger] pairs[i]).0) < summary_place(
            (#[trigger] pairs[j]).0,
        )
}

proof fn lemma_summary_places()
    ensures
        summary_place("rssi"@) == 1,
        summary_place("tx_power"@) == 2,
        summary_place("connectable"@) == 3,
        summary_place("services_count"@) == 4,
        summary_place("primary_service"@) == 5,
        summary_place("manufacturer_data_entries"@) == 6,
        summary_place("manufacturer_company_id"@) == 7,
        summary_place("manufacturer_data_length"@) == 8,
        summary_place("mac_address"@) == 9,
        summary_place("identifier"@) == 10,
{
    reveal_strlit("rssi");
    reveal_strlit("tx_power");
    reveal_strlit("connectable");
    reveal_strlit("services_count");
    reveal_strlit("primary_service");
    reveal_strlit("manufacturer_data_entries");
    reveal_strlit("manufacturer_company_id");
    reveal_strlit("manufacturer_data_length");
    reveal_strlit("mac_address");
    reveal_strlit("identifier");
    assert("rssi"@.len() == 4);
    assert("tx_power"@.len() == 8);
    assert("services_count"@.len() == 14);
    assert("primary_service"@.len() == 15);
    assert("manufacturer_data_entries"@.len() == 25);
    assert("manufacturer_company_id"@.len() == 23);
    assert("manufacturer_data_length"@.len() == 24);
    assert("connectable"@[0] != "mac_address"@[0]);
}

proof fn lemma_placed_together(a: TextPairs, b: TextPairs, low: int, middle: int, high: int)
    requires
        low <= middle <= high,
        placed_within(a, low, middle),
        placed_within(b, middle + 1, high),
    ensures
        placed_within(a + b, low, high),
{
    let all = a + b;
    assert forall|i: int, j: int| 0 <= i < j < all.len() implies summary_place((#[trigger] all[i]).0)
        < summary_place((#[trigger] all[j]).0) by {}
}

/// A summary lists each of its keys once, in a fixed order.
pub proof fn lemma_summary_is_ordered(
    identifier: Seq<char>,
    address: Seq<char>,
    rssi: Option<i16>,
    tx_power: Option<i16>,
    connectable: bool,
    services: Seq<Seq<char>>,
    listing: TextPairs,
)
    ensures
        placed_within(summary_of(identifier, address, rssi, tx_power, connectable, services, listing), 1, 10),
        keyed_once(summary_of(identifier, address, rssi, tx_power, connectable, services, listing)),
{
    lemma_summary_places();
    let signal = optional_pair("rssi"@, optional_decimal(rssi));
    let power = optional_pair("tx_power"@, optional_decimal(tx_power));
    let flag = seq![("connectable"@, bool_text(connectable))];
    let offered = service_pairs(services);
    let made = manufacturer_pairs(listing);
    let named = seq![("mac_address"@, address), ("identifier"@, identifier)];
    lemma_placed_together(signal, power, 1, 1, 2);
    lemma_placed_together(signal + power, flag, 1, 2, 3);
    lemma_placed_together(signal + power + flag, offered, 1, 3, 5);
    lemma_placed_together(signal + power + flag + offered, made, 1, 5, 8);
    lemma_placed_together(signal + power + flag + offered + made, named, 1, 8, 10);
}

/// A device record described from a sighting holds two mappings: its
/// manufacturer data lists each company key once, and its summary lists
/// each of its keys once.
pub proof fn lemma_described_mappings(s: SightingModel)
    ensures
        keyed_once(device_of(s).manufacturer_data),
        device_of(s).adv_data matches Some(summary) && keyed_once(summary),
        mapped(device_of(s)),
{
    let companies = companies_of(s);
    let listing = listing_of(companies);
    match s.manufacturer_data {
        Some(entries) => {
            lemma_companies_once(entries);
        },
        None => {},
    }
    assert forall|i: int, j: int| 0 <= i < j < listing.len() implies (#[trigger] listing[i]).0 != (
    #[trigger] listing[j]).0 by {
        lemma_company_keys_differ(companies[i].0, companies[j].0);
    }
    let d = device_of(s);
    lemma_summary_is_ordered(d.identifier, d.address, d.rssi, d.tx_power, d.connectable, d.services, listing);
}

} // verus!
