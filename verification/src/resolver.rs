//! Matching a device identifier against the peripherals that the stack lists.
//!
//! A listing is a snapshot: for each peripheral of a stack listing, in the
//! stack's order, the identifier and the address that it reported.
//!
//! The peripheral that stands for a device in a listing is the first that
//! reports the device's identifier. The address that the registry has
//! recorded for the device is a fallback: only where no peripheral of the
//! listing reports the identifier, the first that reports that address
//! stands for the device. An address may be empty or a placeholder shared by
//! many peripherals, so it never overrules an identifier.
//!
//! A disconnect casts a wider net and walks through every peripheral that
//! answers to the device either way, in the listing's order.

use vstd::prelude::*;
use crate::text::same_text;

verus! {

/// Model of a [`PeripheralInfo`].
pub struct PeripheralModel {
    pub identifier: Option<Seq<char>>,
    pub address: Option<Seq<char>>,
}

/// What a listed peripheral reported of itself. A field is absent where the
/// stack's query for it failed.
#[derive(Debug, Clone)]
pub struct PeripheralInfo {
    pub identifier: Option<String>,
    pub address: Option<String>,
}

impl View for PeripheralInfo {
    type V = PeripheralModel;

    open spec fn view(&self) -> PeripheralModel {
        PeripheralModel { identifier: self.identifier.deep_view(), address: self.address.deep_view() }
    }
}

impl DeepView for PeripheralInfo {
    type V = PeripheralModel;

    open spec fn deep_view(&self) -> PeripheralModel {
        self@
    }
}

/// A stack listing, as a model.
pub type Listing = Seq<PeripheralModel>;

/// Whether a peripheral answers to a device identifier: by its identifier,
/// or by its address where an address is recorded for the device.
pub open spec fn answers_to(p: PeripheralModel, device_id: Seq<char>, recorded: Option<Seq<char>>) -> bool {
    p.identifier == Some(device_id) || (recorded is Some && p.address == recorded)
}

/// The first place at or after `from` whose peripheral answers to the
/// device identifier.
pub open spec fn candidate_from(
    listing: Listing,
    from: int,
    device_id: Seq<char>,
    recorded: Option<Seq<char>>,
) -> Option<int>
    decreases listing.len() - from,
{
    if from < 0 || from >= listing.len() {
        None
    } else if answers_to(listing[from], device_id, recorded) {
        Some(from)
    } else {
        candidate_from(listing, from + 1, device_id, recorded)
    }
}

/// The first peripheral of a listing that answers to the device identifier.
pub open spec fn candidate(listing: Listing, device_id: Seq<char>, recorded: Option<Seq<char>>) -> Option<int> {
    candidate_from(listing, 0, device_id, recorded)
}

/// The peripheral of a listing that stands for a device: the first that
/// reports the device's identifier, and only where none reports it, the
/// first that reports the address recorded for the device.
pub open spec fn resolved(listing: Listing, device_id: Seq<char>, recorded: Option<Seq<char>>) -> Option<int> {
    match candidate(listing, device_id, None) {
        Some(i) => Some(i),
        None => candidate(listing, device_id, recorded),
    }
}

/// Whether a peripheral reports the address recorded for a device.
pub open spec fn reports_recorded(p: PeripheralModel, recorded: Option<Seq<char>>) -> bool {
    recorded is Some && p.address == recorded
}

/// The identifier comes first.
///
/// Where a peripheral of the listing reports the device's identifier, the
/// first such peripheral stands for the device, whatever addresses are
/// reported before it. Where none reports the identifier, the first that
/// reports the recorded address stands for the device. Where none reports
/// either, none stands for the device.
pub proof fn lemma_identifier_comes_first(listing: Listing, device_id: Seq<char>, recorded: Option<Seq<char>>)
    ensures
        match resolved(listing, device_id, recorded) {
            Some(i) => {
                &&& 0 <= i < listing.len()
                &&& if listing[i].identifier == Some(device_id) {
                    forall|j: int| 0 <= j < i ==> (#[trigger] listing[j]).identifier != Some(device_id)
                } else {
                    &&& reports_recorded(listing[i], recorded)
                    &&& forall|j: int| 0 <= j < i ==> !reports_recorded(#[trigger] listing[j], recorded)
                    &&& forall|j: int|
                        0 <= j < listing.len() ==> (#[trigger] listing[j]).identifier != Some(device_id)
                }
            },
            None => forall|j: int|
                0 <= j < listing.len() ==> (#[trigger] listing[j]).identifier != Some(device_id)
                    && !reports_recorded(listing[j], recorded),
        },
{
    lemma_candidate_from(listing, 0, device_id, None);
    lemma_candidate_from(listing, 0, device_id, recorded);
}

/// `candidate_from` returns a place at or after `from` whose peripheral
/// answers and before which, from `from` on, none does; or nothing where
/// none answers from `from` on.
pub proof fn lemma_candidate_from(listing: Listing, from: int, device_id: Seq<char>, recorded: Option<Seq<char>>)
    requires
        0 <= from,
    ensures
        match candidate_from(listing, from, device_id, recorded) {
            Some(i) => from <= i < listing.len() && answers_to(listing[i], device_id, recorded) && forall|j: int|
                from <= j < i ==> !answers_to(#[trigger] listing[j], device_id, recorded),
            None => forall|j: int|
                from <= j < listing.len() ==> !answers_to(#[trigger] listing[j], device_id, recorded),
        },
    decreases listing.len() - from,
{
    if from < listing.len() && !answers_to(listing[from], device_id, recorded) {
        lemma_candidate_from(listing, from + 1, device_id, recorded);
    }
}

fn same_optional_text(reported: &Option<String>, wanted: &str) -> (same: bool)
    ensures
        same == (reported.deep_view() == Some(wanted@)),
{
    match reported {
        Some(text) => same_text(text.as_str(), wanted),
        None => false,
    }
}

impl PeripheralInfo {
    /// Whether the peripheral answers to a device identifier.
    pub fn answers(&self, device_id: &str, recorded: &Option<String>) -> (yes: bool)
        ensures
            yes == answers_to(self@, device_id@, recorded.deep_view()),
    {
        if same_optional_text(&self.identifier, device_id) {
            return true;
        }
        match recorded {
            Some(address) => same_optional_text(&self.address, address.as_str()),
            None => false,
        }
    }
}

/// The first place at or after `from` whose peripheral answers to the device
/// identifier.
pub fn next_candidate(
    listing: &Vec<PeripheralInfo>,
    from: usize,
    device_id: &str,
    recorded: &Option<String>,
) -> (at: Option<usize>)
    ensures
        match at {
            Some(i) => candidate_from(listing.deep_view(), from as int, device_id@, recorded.deep_view()) == Some(
                i as int,
            ) && from <= i < listing.len(),
            None => candidate_from(listing.deep_view(), from as int, device_id@, recorded.deep_view()) is None,
        },
{
    let mut i: usize = from;
    while i < listing.len()
        invariant
            from <= i,
            candidate_from(listing.deep_view(), i as int, device_id@, recorded.deep_view()) == candidate_from(
                listing.deep_view(),
                from as int,
                device_id@,
                recorded.deep_view(),
            ),
        decreases listing.len() - i,
    {
        if listing[i].answers(device_id, recorded) {
            return Some(i);
        }
        i += 1;
    }
    None
}

/// The peripheral of a listing that stands for a device: the first that
/// reports the device's identifier, and only where none reports it, the
/// first that reports the address recorded for the device.
pub fn find_peripheral(listing: &Vec<PeripheralInfo>, device_id: &str, recorded: &Option<String>) -> (at: Option<
    usize,
>)
    ensures
        match at {
            Some(i) => resolved(listing.deep_view(), device_id@, recorded.deep_view()) == Some(i as int) && i
                < listing.len(),
            None => resolved(listing.deep_view(), device_id@, recorded.deep_view()) is None,
        },
{
    let by_identifier: Option<String> = None;
    match next_candidate(listing, 0, device_id, &by_identifier) {
        Some(i) => Some(i),
        None => next_candidate(listing, 0, device_id, recorded),
    }
}

} // verus!
