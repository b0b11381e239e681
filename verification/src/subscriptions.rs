//! Subscription keys and the table of running subscriptions.

use vstd::prelude::*;
use crate::hexcode::{hex_text, value_text};
use crate::lookup::lemma_first_where;
use crate::stack::SubscriptionKind;
use crate::table::{
    Entries, KeyedTable, distinct_keys, has_key, holds_once, inserted, lemma_insert_keeps_distinct,
    lemma_inserted, lemma_removed, removed, slot_of, value_of,
};

verus! {

/// The character that joins the three parts of a subscription key.
pub open spec fn key_separator() -> char {
    '|'
}

/// The key of a subscription: device identifier, service UUID and
/// characteristic UUID joined by the separator, each part taken verbatim.
pub open spec fn key_of(device_id: Seq<char>, service_uuid: Seq<char>, characteristic_uuid: Seq<char>) -> Seq<char> {
    device_id + seq![key_separator()] + service_uuid + seq![key_separator()] + characteristic_uuid
}

/// Builds the key under which a subscription is registered.
pub fn make_key(device_id: &str, service_uuid: &str, characteristic_uuid: &str) -> (key: String)
    ensures
        key@ == key_of(device_id@, service_uuid@, characteristic_uuid@),
{
    proof {
        reveal_strlit("|");
    }
    let mut key = String::from_str(device_id);
    key.append("|");
    assert("|"@ =~= seq![key_separator()]);
    key.append(service_uuid);
    key.append("|");
    key.append(characteristic_uuid);
    key
}

/// Whether a text holds no separator.
pub open spec fn separator_free(text: Seq<char>) -> bool {
    forall|i: int| 0 <= i < text.len() ==> text[i] != key_separator()
}

proof fn lemma_split_at_separator(a: Seq<char>, x: Seq<char>, b: Seq<char>, y: Seq<char>)
    requires
        separator_free(a),
        separator_free(b),
        a + seq![key_separator()] + x == b + seq![key_separator()] + y,
    ensures
        a == b,
        x == y,
{
    let left = a + seq![key_separator()] + x;
    let right = b + seq![key_separator()] + y;
    assert(left[a.len() as int] == key_separator());
    assert(right[b.len() as int] == key_separator());
    assert forall|i: int| 0 <= i < a.len() implies a[i] == b[i] by {
        assert(left[i] == a[i]);
    }
    assert(left.len() == right.len());
    assert forall|i: int| 0 <= i < x.len() implies x[i] == y[i] by {
        assert(left[a.len() + 1 + i] == x[i]);
    }
}

/// Keys tell subscriptions apart.
///
/// Where neither the device identifiers nor the service UUIDs hold the
/// separator, two subscriptions with the same key are the same: same device,
/// same service, same characteristic.
pub proof fn lemma_key_tells_apart(
    device_a: Seq<char>,
    service_a: Seq<char>,
    characteristic_a: Seq<char>,
    device_b: Seq<char>,
    service_b: Seq<char>,
    characteristic_b: Seq<char>,
)
    requires
        separator_free(device_a),
        separator_free(service_a),
        separator_free(device_b),
        separator_free(service_b),
        key_of(device_a, service_a, characteristic_a) == key_of(device_b, service_b, characteristic_b),
    ensures
        device_a == device_b,
        service_a == service_b,
        characteristic_a == characteristic_b,
{
    let rest_a = service_a + seq![key_separator()] + characteristic_a;
    let rest_b = service_b + seq![key_separator()] + characteristic_b;
    assert(key_of(device_a, service_a, characteristic_a) =~= device_a + seq![key_separator()] + rest_a);
    assert(key_of(device_b, service_b, characteristic_b) =~= device_b + seq![key_separator()] + rest_b);
    lemma_split_at_separator(device_a, rest_a, device_b, rest_b);
    lemma_split_at_separator(service_a, characteristic_a, service_b, characteristic_b);
}

/// The running subscriptions: for each key the handle of the task that
/// forwards the value changes. The handle type is the caller's.
pub struct Subscriptions<H> {
    tasks: KeyedTable<H>,
}

impl<H> View for Subscriptions<H> {
    type V = Entries<H>;

    closed spec fn view(&self) -> Entries<H> {
        self.tasks@
    }
}

impl<H> Subscriptions<H> {
    /// The table's invariant: one task for each key.
    pub closed spec fn wf(&self) -> bool {
        self.tasks.wf()
    }

    /// A table that meets its invariant holds each key once.
    pub proof fn lemma_keys_distinct(&self)
        requires
            self.wf(),
        ensures
            distinct_keys(self@),
    {
        self.tasks.lemma_keys_distinct();
    }

    /// No subscriptions.
    pub fn new() -> (subscriptions: Subscriptions<H>)
        ensures
            subscriptions@ == Entries::<H>::empty(),
            subscriptions.wf(),
    {
        Subscriptions { tasks: KeyedTable::new() }
    }

    /// The number of subscriptions.
    pub fn len(&self) -> (n: usize)
        ensures
            n == self@.len(),
    {
        self.tasks.len()
    }

    /// Whether a characteristic of a device is subscribed to.
    pub fn is_subscribed(&self, device_id: &str, service_uuid: &str, characteristic_uuid: &str) -> (yes: bool)
        requires
            self.wf(),
        ensures
            yes == (slot_of(self@, key_of(device_id@, service_uuid@, characteristic_uuid@)) is Some),
    {
        let key = make_key(device_id, service_uuid, characteristic_uuid);
        self.tasks.contains_key(key.as_str())
    }

    /// Registers the task of a subscription under its key. A task that was
    /// registered under the same key is displaced and handed back: it is the
    /// caller's to cancel or to leave running. Afterwards the table holds
    /// exactly one entry for the key, with the task just registered.
    pub fn subscribe(&mut self, device_id: &str, service_uuid: &str, characteristic_uuid: &str, task: H) -> (displaced:
        Option<H>)
        requires
            old(self).wf(),
        ensures
            final(self)@ == inserted(old(self)@, key_of(device_id@, service_uuid@, characteristic_uuid@), task),
            displaced == value_of(old(self)@, key_of(device_id@, service_uuid@, characteristic_uuid@)),
            value_of(final(self)@, key_of(device_id@, service_uuid@, characteristic_uuid@)) == Some(task),
            holds_once(final(self)@, key_of(device_id@, service_uuid@, characteristic_uuid@)),
            final(self).wf(),
    {
        let key = make_key(device_id, service_uuid, characteristic_uuid);
        self.tasks.insert(key, task)
    }

    /// Takes the task of a subscription out and hands it back for the caller
    /// to cancel. Afterwards the table holds no entry for the key. Where
    /// there is no such subscription nothing changes and nothing is handed
    /// back.
    pub fn unsubscribe(&mut self, device_id: &str, service_uuid: &str, characteristic_uuid: &str) -> (task: Option<H>)
        requires
            old(self).wf(),
        ensures
            final(self)@ == removed(old(self)@, key_of(device_id@, service_uuid@, characteristic_uuid@)),
            task == value_of(old(self)@, key_of(device_id@, service_uuid@, characteristic_uuid@)),
            slot_of(final(self)@, key_of(device_id@, service_uuid@, characteristic_uuid@)) is None,
            task is None ==> final(self)@ == old(self)@,
            final(self).wf(),
    {
        let key = make_key(device_id, service_uuid, characteristic_uuid);
        self.tasks.remove(key.as_str())
    }
}

/// One subscription for each key, and unsubscribing twice is harmless.
///
/// Subscribe twice to the same characteristic of the same device, with any
/// two tasks. Then the table holds exactly one entry for the key, with the
/// second task, and is no longer than after the first subscribe.
/// Unsubscribing takes that entry out, and unsubscribing once more leaves
/// the table as it is.
pub proof fn lemma_subscription_lifecycle<H>(
    entries: Entries<H>,
    device_id: Seq<char>,
    service_uuid: Seq<char>,
    characteristic_uuid: Seq<char>,
    first: H,
    second: H,
)
    requires
        distinct_keys(entries),
    ensures
        ({
            let key = key_of(device_id, service_uuid, characteristic_uuid);
            let once = inserted(entries, key, first);
            let twice = inserted(once, key, second);
            let gone = removed(twice, key);
            &&& holds_once(twice, key)
            &&& value_of(twice, key) == Some(second)
            &&& value_of(once, key) == Some(first)
            &&& twice.len() == once.len()
            &&& slot_of(gone, key) is None
            &&& gone.len() == twice.len() - 1
            &&& removed(gone, key) == gone
        }),
{
    let key = key_of(device_id, service_uuid, characteristic_uuid);
    let once = inserted(entries, key, first);
    let twice = inserted(once, key, second);
    lemma_inserted(entries, key, first, key);
    lemma_insert_keeps_distinct(entries, key, first);
    lemma_inserted(once, key, second, key);
    lemma_first_where(once, has_key::<H>(key));
    lemma_removed(twice, key);
}

/// The event under which a value change goes to the application.
pub const CHARACTERISTIC_VALUE_EVENT: &'static str = "characteristic-value";

/// The name under which a subscription kind is handed to the application.
pub open spec fn kind_text(kind: SubscriptionKind) -> Seq<char> {
    match kind {
        SubscriptionKind::Notify => "notify"@,
        SubscriptionKind::Indicate => "indicate"@,
    }
}

/// The name of a subscription kind.
pub fn kind_name(kind: SubscriptionKind) -> (name: &'static str)
    ensures
        name@ == kind_text(kind),
{
    match kind {
        SubscriptionKind::Notify => "notify",
        SubscriptionKind::Indicate => "indicate",
    }
}

/// Model of a [`CharacteristicValue`].
pub struct CharacteristicValueModel {
    pub device_id: Seq<char>,
    pub service_uuid: Seq<char>,
    pub characteristic_uuid: Seq<char>,
    pub value: Seq<char>,
    pub kind: SubscriptionKind,
}

/// A value change of a subscribed characteristic, for the application.
#[derive(Debug, Clone)]
pub struct CharacteristicValue {
    pub device_id: String,
    pub service_uuid: String,
    pub characteristic_uuid: String,
    /// The value in uppercase hexadecimal.
    pub value: String,
    pub kind: SubscriptionKind,
}

impl View for CharacteristicValue {
    type V = CharacteristicValueModel;

    open spec fn view(&self) -> CharacteristicValueModel {
        CharacteristicValueModel {
            device_id: self.device_id@,
            service_uuid: self.service_uuid@,
            characteristic_uuid: self.characteristic_uuid@,
            value: self.value@,
            kind: self.kind,
        }
    }
}

/// What is forwarded for one item of a subscription's stream: the value of
/// an item that was decoded, and nothing for one that was not.
pub open spec fn forwarded(
    device_id: Seq<char>,
    service_uuid: Seq<char>,
    characteristic_uuid: Seq<char>,
    kind: SubscriptionKind,
    item: Option<Seq<u8>>,
) -> Option<CharacteristicValueModel> {
    match item {
        Some(bytes) => Some(
            CharacteristicValueModel {
                device_id,
                service_uuid,
                characteristic_uuid,
                value: hex_text(bytes, true),
                kind,
            },
        ),
        None => None,
    }
}

/// Turns one item of a subscription's stream into the event for the
/// application. An item that could not be decoded is dropped.
pub fn forward(
    device_id: &str,
    service_uuid: &str,
    characteristic_uuid: &str,
    kind: SubscriptionKind,
    item: Option<Vec<u8>>,
) -> (event: Option<CharacteristicValue>)
    ensures
        match event {
            Some(e) => item is Some && Some(e@) == forwarded(
                device_id@,
                service_uuid@,
                characteristic_uuid@,
                kind,
                Some(item->Some_0@),
            ),
            None => item is None,
        },
{
    match item {
        Some(bytes) => Some(
            CharacteristicValue {
                device_id: String::from_str(device_id),
                service_uuid: String::from_str(service_uuid),
                characteristic_uuid: String::from_str(characteristic_uuid),
                value: value_text(&bytes),
                kind,
            },
        ),
        None => None,
    }
}

} // verus!
