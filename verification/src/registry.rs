//! The device registry: the application's record of every device seen, keyed
//! by the stack's identifier.
//!
//! A record is created at the first sighting of an identifier and never
//! removed. A later sighting overwrites what changes from advertisement to
//! advertisement and keeps the identifier, the address and a name once learned.

use vstd::prelude::*;
use crate::advert::{Sighting, device_of};
use crate::device::{BleDevice, DeviceModel, copy_optional_text, mapped};
use crate::lookup::{first_where, lemma_first_where, lemma_first_where_is, lemma_first_where_none};
use crate::text::same_text;

verus! {

/// The condition of being the record of a given identifier.
pub open spec fn is_device(identifier: Seq<char>) -> spec_fn(DeviceModel) -> bool {
    |d: DeviceModel| d.identifier == identifier
}

/// The place of the record of an identifier among the records.
pub open spec fn place_of(records: Seq<DeviceModel>, identifier: Seq<char>) -> Option<int> {
    first_where(records, is_device(identifier))
}

/// Whether no two records have the same identifier.
pub open spec fn distinct_identifiers(records: Seq<DeviceModel>) -> bool {
    forall|i: int, j: int|
        0 <= i < j < records.len() ==> (#[trigger] records[i]).identifier != (#[trigger] records[j]).identifier
}

/// Whether every record is valid: its two mappings hold each key once.
pub open spec fn records_mapped(records: Seq<DeviceModel>) -> bool {
    forall|i: int| 0 <= i < records.len() ==> mapped(#[trigger] records[i])
}

/// The name that a record has after a sighting: the one it had, or the
/// incoming one where it had none.
pub open spec fn merged_name(existing: Option<Seq<char>>, incoming: Option<Seq<char>>) -> Option<Seq<char>> {
    if existing is None {
        incoming
    } else {
        existing
    }
}

/// A record after a later sighting of its device: identifier and address
/// stay, the name is only ever filled in, all else is the incoming record's.
pub open spec fn merged(existing: DeviceModel, incoming: DeviceModel) -> DeviceModel {
    DeviceModel {
        identifier: existing.identifier,
        name: merged_name(existing.name, incoming.name),
        address: existing.address,
        rssi: incoming.rssi,
        tx_power: incoming.tx_power,
        connectable: incoming.connectable,
        paired: incoming.paired,
        manufacturer_data: incoming.manufacturer_data,
        services: incoming.services,
        adv_data: incoming.adv_data,
        raw_adv_data: incoming.raw_adv_data,
    }
}

/// The records after one more sighting: merged into the record of the same
/// identifier, or added at the end as a new record.
pub open spec fn upserted(records: Seq<DeviceModel>, incoming: DeviceModel) -> Seq<DeviceModel> {
    match place_of(records, incoming.identifier) {
        Some(i) => records.update(i, merged(records[i], incoming)),
        None => records.push(incoming),
    }
}

/// A record with its paired flag set to `paired`.
pub open spec fn with_paired(record: DeviceModel, paired: bool) -> DeviceModel {
    DeviceModel { paired, ..record }
}

/// The records with the paired flag of one identifier set; unchanged where
/// the identifier has no record.
pub open spec fn paired_set(records: Seq<DeviceModel>, identifier: Seq<char>, paired: bool) -> Seq<DeviceModel> {
    match place_of(records, identifier) {
        Some(i) => records.update(i, with_paired(records[i], paired)),
        None => records,
    }
}

/// The registry of discovered devices.
pub struct DeviceRegistry {
    devices: Vec<BleDevice>,
}

impl View for DeviceRegistry {
    type V = Seq<DeviceModel>;

    closed spec fn view(&self) -> Seq<DeviceModel> {
        self.devices.deep_view()
    }
}

impl DeviceRegistry {
    /// The registry's invariant: one record for each identifier, and every
    /// record valid.
    pub open spec fn wf(&self) -> bool {
        distinct_identifiers(self@) && records_mapped(self@)
    }

    /// An empty registry.
    pub fn new() -> (registry: DeviceRegistry)
        ensures
            registry@ == Seq::<DeviceModel>::empty(),
            registry.wf(),
    {
        let registry = DeviceRegistry { devices: Vec::new() };
        registry
    }

    /// The number of records.
    pub fn len(&self) -> (n: usize)
        ensures
            n == self@.len(),
    {
        self.devices.len()
    }

    /// The place of the record of an identifier.
    pub fn position(&self, identifier: &str) -> (at: Option<usize>)
        ensures
            match at {
                Some(i) => place_of(self@, identifier@) == Some(i as int) && i < self@.len(),
                None => place_of(self@, identifier@) is None,
            },
    {
        let mut i: usize = 0;
        while i < self.devices.len()
            invariant
                i <= self.devices.len(),
                forall|j: int| 0 <= j < i ==> !is_device(identifier@)(#[trigger] self@[j]),
            decreases self.devices.len() - i,
        {
            if same_text(self.devices[i].identifier.as_str(), identifier) {
                proof {
                    lemma_first_where_is(self@, is_device(identifier@), i as int);
                }
                return Some(i);
            }
            i += 1;
        }
        proof {
            lemma_first_where_none(self@, is_device(identifier@));
        }
        None
    }

    /// The record at a place.
    pub fn get(&self, at: usize) -> (device: &BleDevice)
        requires
            at < self@.len(),
        ensures
            device@ == self@[at as int],
    {
        &self.devices[at]
    }

    /// The record of an identifier, if there is one.
    pub fn find(&self, identifier: &str) -> (device: Option<&BleDevice>)
        ensures
            match place_of(self@, identifier@) {
                Some(i) => device is Some && device->Some_0@ == self@[i],
                None => device is None,
            },
    {
        match self.position(identifier) {
            Some(i) => Some(&self.devices[i]),
            None => None,
        }
    }

    /// The address recorded for an identifier, if the identifier has a record.
    pub fn address_of(&self, identifier: &str) -> (address: Option<String>)
        ensures
            address.deep_view() == recorded_address(self@, identifier@),
    {
        match self.position(identifier) {
            Some(i) => Some(self.devices[i].address.clone()),
            None => None,
        }
    }

    /// A copy of all records, in the order of their first sightings.
    pub fn snapshot(&self) -> (devices: Vec<BleDevice>)
        ensures
            devices.deep_view() == self@,
    {
        let mut devices: Vec<BleDevice> = Vec::new();
        let mut i: usize = 0;
        while i < self.devices.len()
            invariant
                i <= self.devices.len(),
                devices.len() == i,
                forall|k: int| 0 <= k < i ==> devices@[k]@ == self@[k],
            decreases self.devices.len() - i,
        {
            devices.push(self.devices[i].duplicate());
            i += 1;
        }
        devices
    }

    /// Records a sighting that has been described as a device record:
    /// merges it into the record of its identifier, or adds it. The record
    /// must be valid, as every record described from a sighting is.
    pub fn upsert(&mut self, incoming: BleDevice)
        requires
            old(self).wf(),
            incoming.wf(),
        ensures
            final(self)@ == upserted(old(self)@, incoming@),
            final(self).wf(),
    {
        let ghost before = self@;
        proof {
            lemma_upsert_keeps_distinct(before, incoming@);
        }
        match self.position(incoming.identifier.as_str()) {
            Some(i) => {
                let existing = &self.devices[i];
                let name = match &existing.name {
                    Some(n) => Some(n.clone()),
                    None => copy_optional_text(&incoming.name),
                };
                let record = BleDevice {
                    identifier: existing.identifier.clone(),
                    name,
                    address: existing.address.clone(),
                    rssi: incoming.rssi,
                    tx_power: incoming.tx_power,
                    connectable: incoming.connectable,
                    paired: incoming.paired,
                    manufacturer_data: incoming.manufacturer_data,
                    services: incoming.services,
                    adv_data: incoming.adv_data,
                    raw_adv_data: incoming.raw_adv_data,
                };
                self.devices.set(i, record);
                assert(self@ =~= upserted(before, incoming@));
            },
            None => {
                self.devices.push(incoming);
            },
        }
    }

    /// Describes a sighting, records it, and returns the description for the
    /// application's notification.
    pub fn observe(&mut self, sighting: &Sighting) -> (device: BleDevice)
        requires
            old(self).wf(),
        ensures
            device@ == device_of(sighting@),
            final(self)@ == upserted(old(self)@, device_of(sighting@)),
            final(self).wf(),
    {
        let device = sighting.describe();
        self.upsert(device.duplicate());
        device
    }

    /// Sets the paired flag of an identifier's record. Returns whether the
    /// identifier has a record.
    pub fn set_paired(&mut self, identifier: &str, paired: bool) -> (found: bool)
        requires
            old(self).wf(),
        ensures
            final(self)@ == paired_set(old(self)@, identifier@, paired),
            found == (place_of(old(self)@, identifier@) is Some),
            record_of(final(self)@, identifier@) == match record_of(old(self)@, identifier@) {
                Some(record) => Some(with_paired(record, paired)),
                None => None,
            },
            final(self).wf(),
    {
        let ghost before = self@;
        proof {
            lemma_paired_set(before, identifier@, paired, identifier@);
        }
        match self.position(identifier) {
            Some(i) => {
                let mut record = self.devices[i].duplicate();
                record.paired = paired;
                self.devices.set(i, record);
                assert(self@ =~= paired_set(before, identifier@, paired));
                true
            },
            None => false,
        }
    }
}

/// The address recorded for an identifier.
pub open spec fn recorded_address(records: Seq<DeviceModel>, identifier: Seq<char>) -> Option<Seq<char>> {
    match place_of(records, identifier) {
        Some(i) => Some(records[i].address),
        None => None,
    }
}

/// An upsert keeps the identifiers distinct.
pub proof fn lemma_upsert_keeps_distinct(records: Seq<DeviceModel>, incoming: DeviceModel)
    requires
        distinct_identifiers(records),
    ensures
        distinct_identifiers(upserted(records, incoming)),
{
    lemma_first_where(records, is_device(incoming.identifier));
}

/// After the paired flag of an identifier is set, the identifier's record,
/// if it has one, carries the flag and is otherwise as before; every other
/// identifier's record is as before.
pub proof fn lemma_paired_set(records: Seq<DeviceModel>, identifier: Seq<char>, paired: bool, other: Seq<char>)
    ensures
        record_of(paired_set(records, identifier, paired), identifier) == match record_of(records, identifier) {
            Some(record) => Some(with_paired(record, paired)),
            None => None,
        },
        other != identifier ==> record_of(paired_set(records, identifier, paired), other) == record_of(
            records,
            other,
        ),
        paired_set(records, identifier, paired).len() == records.len(),
{
    let after = paired_set(records, identifier, paired);
    lemma_first_where(records, is_device(identifier));
    lemma_first_where(records, is_device(other));
    match place_of(records, identifier) {
        Some(q) => {
            lemma_first_where_is(after, is_device(identifier), q);
            if other != identifier {
                match place_of(records, other) {
                    Some(r) => {
                        lemma_first_where_is(after, is_device(other), r);
                    },
                    None => {
                        lemma_first_where_none(after, is_device(other));
                    },
                }
            }
        },
        None => {},
    }
}

/// Records stay, and stay under their identifier.
///
/// Neither a sighting nor a change of the paired flag removes a record or
/// moves it, and neither changes a record's identifier or address.
pub proof fn lemma_records_persist(records: Seq<DeviceModel>, incoming: DeviceModel, paired: bool, i: int)
    requires
        0 <= i < records.len(),
    ensures
        upserted(records, incoming).len() >= records.len(),
        upserted(records, incoming)[i].identifier == records[i].identifier,
        upserted(records, incoming)[i].address == records[i].address,
        paired_set(records, incoming.identifier, paired).len() == records.len(),
        paired_set(records, incoming.identifier, paired)[i].identifier == records[i].identifier,
        paired_set(records, incoming.identifier, paired)[i].address == records[i].address,
{
    lemma_first_where(records, is_device(incoming.identifier));
}

/// The records after a run of sightings, taken in order.
pub open spec fn upserted_all(records: Seq<DeviceModel>, sightings: Seq<DeviceModel>) -> Seq<DeviceModel>
    decreases sightings.len(),
{
    if sightings.len() == 0 {
        records
    } else {
        upserted(upserted_all(records, sightings.drop_last()), sightings.last())
    }
}

/// The record of an identifier, if there is one.
pub open spec fn record_of(records: Seq<DeviceModel>, identifier: Seq<char>) -> Option<DeviceModel> {
    match place_of(records, identifier) {
        Some(i) => Some(records[i]),
        None => None,
    }
}

/// Whether a record shows what a sighting reported, in every field that a
/// sighting overwrites.
pub open spec fn reflects(record: DeviceModel, sighting: DeviceModel) -> bool {
    &&& record.rssi == sighting.rssi
    &&& record.tx_power == sighting.tx_power
    &&& record.connectable == sighting.connectable
    &&& record.paired == sighting.paired
    &&& record.manufacturer_data == sighting.manufacturer_data
    &&& record.services == sighting.services
    &&& record.adv_data == sighting.adv_data
    &&& record.raw_adv_data == sighting.raw_adv_data
}

/// After an upsert the incoming identifier has a record: the merge of its
/// earlier record with the sighting, or the sighting itself where it had
/// none. Every other identifier's record is as before.
pub proof fn lemma_upsert_record(records: Seq<DeviceModel>, incoming: DeviceModel, other: Seq<char>)
    requires
        distinct_identifiers(records),
    ensures
        record_of(upserted(records, incoming), incoming.identifier) == Some(
            match record_of(records, incoming.identifier) {
                Some(existing) => merged(existing, incoming),
                None => incoming,
            },
        ),
        other != incoming.identifier ==> record_of(upserted(records, incoming), other) == record_of(
            records,
            other,
        ),
{
    let id = incoming.identifier;
    let after = upserted(records, incoming);
    lemma_first_where(records, is_device(id));
    lemma_first_where(records, is_device(other));
    match place_of(records, id) {
        Some(q) => {
            lemma_first_where_is(after, is_device(id), q);
        },
        None => {
            lemma_first_where_is(after, is_device(id), records.len() as int);
        },
    }
    if other != id {
        match place_of(records, other) {
            Some(r) => {
                lemma_first_where_is(after, is_device(other), r);
            },
            None => {
                lemma_first_where_none(after, is_device(other));
            },
        }
    }
}

/// A run of sightings keeps the identifiers distinct.
pub proof fn lemma_upserts_keep_distinct(records: Seq<DeviceModel>, sightings: Seq<DeviceModel>)
    requires
        distinct_identifiers(records),
    ensures
        distinct_identifiers(upserted_all(records, sightings)),
    decreases sightings.len(),
{
    if sightings.len() > 0 {
        lemma_upserts_keep_distinct(records, sightings.drop_last());
        lemma_upsert_keeps_distinct(upserted_all(records, sightings.drop_last()), sightings.last());
    }
}

/// Sightings of one device never lose a name and always show the latest
/// advertisement.
///
/// Let a registry take any non-empty run of sightings that all carry the same
/// identifier. Afterwards the identifier has a record, and that record shows
/// the last sighting in every field that a sighting overwrites. If the record
/// had a name after the first `k` of the sightings, for any `k` (none of them
/// included: the name it had before), it has that same name at the end.
pub proof fn lemma_resighting(
    records: Seq<DeviceModel>,
    sightings: Seq<DeviceModel>,
    identifier: Seq<char>,
    k: int,
)
    requires
        distinct_identifiers(records),
        sightings.len() > 0,
        forall|i: int| 0 <= i < sightings.len() ==> (#[trigger] sightings[i]).identifier == identifier,
        0 <= k <= sightings.len(),
    ensures
        record_of(upserted_all(records, sightings), identifier) is Some,
        reflects(record_of(upserted_all(records, sightings), identifier)->Some_0, sightings.last()),
        match record_of(upserted_all(records, sightings.take(k)), identifier) {
            Some(earlier) => earlier.name is Some ==> record_of(
                upserted_all(records, sightings),
                identifier,
            )->Some_0.name == earlier.name,
            None => true,
        },
    decreases sightings.len(),
{
    let front = sightings.drop_last();
    let last = sightings.last();
    let mid = upserted_all(records, front);
    lemma_upserts_keep_distinct(records, front);
    lemma_upsert_record(mid, last, identifier);
    if k == sightings.len() {
        assert(sightings.take(k) =~= sightings);
    } else {
        assert(sightings.take(k) =~= front.take(k));
        if front.len() > 0 {
            lemma_resighting(records, front, identifier, k);
        }
    }
}

} // verus!
