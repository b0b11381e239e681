//! Connecting and disconnecting a device, step by step.
//!
//! Both flows are written for callers that repeat them: connecting a device
//! that the stack reports connected succeeds without a second connect call,
//! and disconnecting ends in success whatever the stack knows of the device,
//! unless a disconnect call itself fails or leaves the device connected.

use vstd::prelude::*;
use crate::errors::{BleError, BleErrorModel, Guidance, StackCall};
use crate::device::DeviceModel;
use crate::registry::{DeviceRegistry, lemma_paired_set, paired_set, record_of, recorded_address};
use crate::resolver::{
    Listing, PeripheralInfo, answers_to, candidate, candidate_from, find_peripheral,
    lemma_candidate_from, lemma_identifier_comes_first, next_candidate, resolved,
};
use crate::stack::{StackReply, StackReplyModel, StackRequest, Target, Tier};
use crate::table::{
    Entries, KeyedTable, distinct_keys, inserted, lemma_inserted, lemma_removed, removed, slot_of, value_of,
};

verus! {

/// How long to wait after disconnecting a cached peripheral, in
/// milliseconds.
pub const CACHED_SETTLE_MS: u64 = 800;

/// How long to wait after disconnecting a listed peripheral, in
/// milliseconds.
pub const LISTED_SETTLE_MS: u64 = 1000;

/// The event under which a change of connection state goes to the
/// application.
pub const CONNECTION_CHANGED_EVENT: &'static str = "device-connection-changed";

/// Model of a [`ConnectionChanged`].
pub struct ConnectionChangedModel {
    pub device_id: Seq<char>,
    pub paired: bool,
}

/// The notice that a device's connection state changed, for the
/// application.
#[derive(Debug, Clone)]
pub struct ConnectionChanged {
    pub device_id: String,
    pub paired: bool,
}

impl View for ConnectionChanged {
    type V = ConnectionChangedModel;

    open spec fn view(&self) -> ConnectionChangedModel {
        ConnectionChangedModel { device_id: self.device_id@, paired: self.paired }
    }
}

/// Where a disconnect stands.
#[derive(Debug, Clone, Copy, PartialEq, Eq, Structural)]
pub enum DisconnectStage {
    /// The peripheral is being asked whether it is connected.
    Probing(Target),
    /// The peripheral is being disconnected.
    Disconnecting(Target),
    /// The peripheral is being asked again, after the disconnect.
    Rechecking(Target),
    /// The paired peripherals are being listed.
    ListingPaired,
    /// The scan results are being listed.
    ListingScanned,
    /// Over: the device counts as disconnected.
    Synced,
    /// Over: the disconnect failed.
    Failed,
}

/// Model of a [`DisconnectFlow`].
pub struct DisconnectModel {
    pub device_id: Seq<char>,
    pub recorded: Option<Seq<char>>,
    pub stage: DisconnectStage,
    pub listing: Listing,
    pub failure: Option<BleErrorModel>,
}

/// A flow's state after a step, with the request to carry out next; no
/// request where the flow is over.
pub type DisconnectStep = (DisconnectModel, Option<StackRequest>);

/// The wait after a disconnect call, by the tier of the peripheral.
pub open spec fn settle_for(tier: Tier) -> u64 {
    if tier is Cached {
        800
    } else {
        1000
    }
}

/// The request that a stage is waiting on.
pub open spec fn disconnect_pending(stage: DisconnectStage) -> Option<StackRequest> {
    match stage {
        DisconnectStage::Probing(t) => Some(StackRequest::QueryConnection(t)),
        DisconnectStage::Disconnecting(t) => Some(StackRequest::Disconnect { target: t, settle_ms: settle_for(t.tier) }),
        DisconnectStage::Rechecking(t) => Some(StackRequest::QueryConnection(t)),
        DisconnectStage::ListingPaired => Some(StackRequest::ListPaired),
        DisconnectStage::ListingScanned => Some(StackRequest::ListScanResults),
        DisconnectStage::Synced => None,
        DisconnectStage::Failed => None,
    }
}

/// A flow at a given stage, with the request of that stage.
pub open spec fn disconnect_at(m: DisconnectModel, stage: DisconnectStage) -> DisconnectStep {
    (DisconnectModel { stage, ..m }, disconnect_pending(stage))
}

/// What follows a tier that gave no usable peripheral: the paired list after
/// the cache, the scan results after the paired list, and after those the
/// device simply counts as disconnected.
pub open spec fn after_tier(m: DisconnectModel, tier: Tier) -> DisconnectStep {
    match tier {
        Tier::Cached => disconnect_at(m, DisconnectStage::ListingPaired),
        Tier::Paired => disconnect_at(m, DisconnectStage::ListingScanned),
        Tier::Scanned => disconnect_at(m, DisconnectStage::Synced),
    }
}

/// The next peripheral of the listing at or after `from` that answers to the
/// device is asked for its state; where there is none, the tier is done.
pub open spec fn probe_from(m: DisconnectModel, tier: Tier, from: int) -> DisconnectStep {
    match candidate_from(m.listing, from, m.device_id, m.recorded) {
        Some(i) => disconnect_at(m, DisconnectStage::Probing(Target { tier, index: i as usize })),
        None => after_tier(m, tier),
    }
}

/// The start of a disconnect: with the cached peripheral where there is one,
/// with the paired list otherwise.
pub open spec fn disconnect_begin(device_id: Seq<char>, recorded: Option<Seq<char>>, cached: bool) -> DisconnectStep {
    let m = DisconnectModel {
        device_id,
        recorded,
        stage: DisconnectStage::ListingPaired,
        listing: Seq::empty(),
        failure: None,
    };
    if cached {
        disconnect_at(m, DisconnectStage::Probing(Target { tier: Tier::Cached, index: 0 }))
    } else {
        disconnect_at(m, DisconnectStage::ListingPaired)
    }
}

/// The flow as it fails.
pub open spec fn disconnect_failed(m: DisconnectModel, error: BleErrorModel) -> DisconnectStep {
    (DisconnectModel { stage: DisconnectStage::Failed, failure: Some(error), ..m }, None)
}

/// The rules of a disconnect: what each reply does at each stage.
///
/// A peripheral that reports itself disconnected ends the flow in success
/// without a stack call. One that reports itself connected is disconnected
/// and asked again: still connected is an error, disconnected or no answer
/// is success. One that cannot say is passed over: the cached one for the
/// paired list, a listed one for the next listed peripheral that answers to
/// the device. A disconnect call that fails is an error, except on the
/// cached peripheral, where the paired list is tried next. A listing that
/// fails counts as empty. A reply that the stage does not expect changes
/// nothing and repeats the pending request.
pub open spec fn disconnect_step(m: DisconnectModel, reply: StackReplyModel) -> DisconnectStep {
    match (m.stage, reply) {
        (DisconnectStage::Probing(t), StackReplyModel::Connection(state)) => match state {
            Ok(connected) => if connected {
                disconnect_at(m, DisconnectStage::Disconnecting(t))
            } else {
                disconnect_at(m, DisconnectStage::Synced)
            },
            Err(_) => if t.tier is Cached {
                after_tier(m, Tier::Cached)
            } else {
                probe_from(m, t.tier, t.index + 1)
            },
        },
        (DisconnectStage::Disconnecting(t), StackReplyModel::Completed(done)) => match done {
            Ok(_) => disconnect_at(m, DisconnectStage::Rechecking(t)),
            Err(cause) => if t.tier is Cached {
                after_tier(m, Tier::Cached)
            } else {
                disconnect_failed(m, BleErrorModel::StackOperationFailed { call: StackCall::Disconnect, cause })
            },
        },
        (DisconnectStage::Rechecking(t), StackReplyModel::Connection(state)) => if state == Ok::<bool, Seq<char>>(
            true,
        ) {
            disconnect_failed(m, BleErrorModel::DisconnectStillConnected)
        } else {
            disconnect_at(m, DisconnectStage::Synced)
        },
        (DisconnectStage::ListingPaired, StackReplyModel::Listing(listed)) => match listed {
            Ok(listing) => probe_from(DisconnectModel { listing, ..m }, Tier::Paired, 0),
            Err(_) => after_tier(m, Tier::Paired),
        },
        (DisconnectStage::ListingScanned, StackReplyModel::Listing(listed)) => match listed {
            Ok(listing) => probe_from(DisconnectModel { listing, ..m }, Tier::Scanned, 0),
            Err(_) => after_tier(m, Tier::Scanned),
        },
        _ => (m, disconnect_pending(m.stage)),
    }
}

/// Whether a flow's state is consistent: a listed target lies in the listing
/// at hand, and a failure is held exactly where the flow failed.
pub open spec fn disconnect_wf(m: DisconnectModel) -> bool {
    &&& match m.stage {
        DisconnectStage::Probing(t) => t.tier is Cached || t.index < m.listing.len(),
        DisconnectStage::Disconnecting(t) => t.tier is Cached || t.index < m.listing.len(),
        DisconnectStage::Rechecking(t) => t.tier is Cached || t.index < m.listing.len(),
        _ => true,
    }
    &&& (m.stage is Failed) == (m.failure is Some)
}

/// A disconnect of one device.
pub struct DisconnectFlow {
    device_id: String,
    recorded: Option<String>,
    stage: DisconnectStage,
    listing: Vec<PeripheralInfo>,
    failure: Option<BleError>,
}

impl View for DisconnectFlow {
    type V = DisconnectModel;

    closed spec fn view(&self) -> DisconnectModel {
        DisconnectModel {
            device_id: self.device_id@,
            recorded: self.recorded.deep_view(),
            stage: self.stage,
            listing: self.listing.deep_view(),
            failure: self.failure.deep_view(),
        }
    }
}

impl DisconnectFlow {
    /// The flow's invariant.
    pub open spec fn wf(&self) -> bool {
        disconnect_wf(self@)
    }

    /// Starts a disconnect. The address for matching is the one that the
    /// registry has recorded for the device; the cached peripheral is tried
    /// first where the cache holds one.
    pub fn begin<P>(device_id: &str, registry: &DeviceRegistry, cache: &KeyedTable<P>) -> (out: (
        DisconnectFlow,
        StackRequest,
    ))
        requires
            registry.wf(),
            cache.wf(),
        ensures
            (out.0@, Some(out.1)) == disconnect_begin(
                device_id@,
                recorded_address(registry@, device_id@),
                slot_of(cache@, device_id@) is Some,
            ),
            out.0.wf(),
    {
        let cached = cache.contains_key(device_id);
        let stage = if cached {
            DisconnectStage::Probing(Target { tier: Tier::Cached, index: 0 })
        } else {
            DisconnectStage::ListingPaired
        };
        let flow = DisconnectFlow {
            device_id: String::from_str(device_id),
            recorded: registry.address_of(device_id),
            stage,
            listing: Vec::new(),
            failure: None,
        };
        assert(flow.listing.deep_view() =~= Seq::empty());
        let request = flow.pending();
        (flow, request.unwrap())
    }

    /// The device that is being disconnected.
    pub fn device_id(&self) -> (id: &String)
        ensures
            id@ == self@.device_id,
    {
        &self.device_id
    }

    /// Whether the flow is over.
    pub fn is_over(&self) -> (over: bool)
        ensures
            over == (self@.stage is Synced || self@.stage is Failed),
    {
        match self.stage {
            DisconnectStage::Synced => true,
            DisconnectStage::Failed => true,
            _ => false,
        }
    }

    fn settle(tier: Tier) -> (ms: u64)
        ensures
            ms == settle_for(tier),
    {
        match tier {
            Tier::Cached => CACHED_SETTLE_MS,
            _ => LISTED_SETTLE_MS,
        }
    }

    fn pending(&self) -> (request: Option<StackRequest>)
        ensures
            request == disconnect_pending(self@.stage),
    {
        match self.stage {
            DisconnectStage::Probing(t) => Some(StackRequest::QueryConnection(t)),
            DisconnectStage::Disconnecting(t) => Some(
                StackRequest::Disconnect { target: t, settle_ms: Self::settle(t.tier) },
            ),
            DisconnectStage::Rechecking(t) => Some(StackRequest::QueryConnection(t)),
            DisconnectStage::ListingPaired => Some(StackRequest::ListPaired),
            DisconnectStage::ListingScanned => Some(StackRequest::ListScanResults),
            DisconnectStage::Synced => None,
            DisconnectStage::Failed => None,
        }
    }

    fn go(&mut self, stage: DisconnectStage) -> (request: Option<StackRequest>)
        requires
            !(stage is Failed),
            old(self).failure is None,
            match stage {
                DisconnectStage::Probing(t) => t.tier is Cached || t.index < old(self).listing.len(),
                DisconnectStage::Disconnecting(t) => t.tier is Cached || t.index < old(self).listing.len(),
                DisconnectStage::Rechecking(t) => t.tier is Cached || t.index < old(self).listing.len(),
                _ => true,
            },
        ensures
            (final(self)@, request) == disconnect_at(old(self)@, stage),
            final(self).wf(),
    {
        self.stage = stage;
        self.pending()
    }

    fn leave_tier(&mut self, tier: Tier) -> (request: Option<StackRequest>)
        requires
            old(self).failure is None,
        ensures
            (final(self)@, request) == after_tier(old(self)@, tier),
            final(self).wf(),
    {
        match tier {
            Tier::Cached => self.go(DisconnectStage::ListingPaired),
            Tier::Paired => self.go(DisconnectStage::ListingScanned),
            Tier::Scanned => self.go(DisconnectStage::Synced),
        }
    }

    fn probe(&mut self, tier: Tier, from: usize) -> (request: Option<StackRequest>)
        requires
            old(self).failure is None,
        ensures
            (final(self)@, request) == probe_from(old(self)@, tier, from as int),
            final(self).wf(),
    {
        match next_candidate(&self.listing, from, self.device_id.as_str(), &self.recorded) {
            Some(i) => self.go(DisconnectStage::Probing(Target { tier, index: i })),
            None => self.leave_tier(tier),
        }
    }

    fn fail(&mut self, error: BleError) -> (request: Option<StackRequest>)
        ensures
            (final(self)@, request) == disconnect_failed(old(self)@, error@),
            final(self).wf(),
    {
        self.stage = DisconnectStage::Failed;
        self.failure = Some(error);
        None
    }

    /// Takes the stack's reply to the pending request and names the next
    /// request; none where the flow is over.
    pub fn step(&mut self, reply: StackReply) -> (request: Option<StackRequest>)
        requires
            old(self).wf(),
        ensures
            (final(self)@, request) == disconnect_step(old(self)@, reply@),
            final(self).wf(),
    {
        match (self.stage, reply) {
            (DisconnectStage::Probing(t), StackReply::Connection(state)) => match state {
                Ok(connected) => {
                    if connected {
                        self.go(DisconnectStage::Disconnecting(t))
                    } else {
                        self.go(DisconnectStage::Synced)
                    }
                },
                Err(_) => {
                    match t.tier {
                        Tier::Cached => self.leave_tier(Tier::Cached),
                        _ => {
                            assert(t.index < self.listing.len());
                            self.probe(t.tier, t.index + 1)
                        },
                    }
                },
            },
            (DisconnectStage::Disconnecting(t), StackReply::Completed(done)) => match done {
                Ok(_) => self.go(DisconnectStage::Rechecking(t)),
                Err(cause) => {
                    match t.tier {
                        Tier::Cached => self.leave_tier(Tier::Cached),
                        _ => self.fail(BleError::stack(StackCall::Disconnect, cause)),
                    }
                },
            },
            (DisconnectStage::Rechecking(_), StackReply::Connection(state)) => {
                let still = match state {
                    Ok(connected) => connected,
                    Err(_) => false,
                };
                if still {
                    self.fail(BleError::DisconnectStillConnected)
                } else {
                    self.go(DisconnectStage::Synced)
                }
            },
            (DisconnectStage::ListingPaired, StackReply::Listing(listed)) => match listed {
                Ok(listing) => {
                    self.listing = listing;
                    self.probe(Tier::Paired, 0)
                },
                Err(_) => self.leave_tier(Tier::Paired),
            },
            (DisconnectStage::ListingScanned, StackReply::Listing(listed)) => match listed {
                Ok(listing) => {
                    self.listing = listing;
                    self.probe(Tier::Scanned, 0)
                },
                Err(_) => self.leave_tier(Tier::Scanned),
            },
            _ => self.pending(),
        }
    }

    /// Ends the flow. Where the device counts as disconnected, its entry
    /// leaves the cache, its record's paired flag is cleared, and the notice
    /// for the application is handed back: afterwards the device has no
    /// entry in the cache and no record that is paired. Where the disconnect
    /// failed, the error is handed back and nothing changes. Nothing is
    /// handed back, and nothing changes, while the flow is not over.
    pub fn conclude<P>(self, registry: &mut DeviceRegistry, cache: &mut KeyedTable<P>) -> (result: Option<
        Result<ConnectionChanged, BleError>,
    >)
        requires
            self.wf(),
            old(registry).wf(),
            old(cache).wf(),
        ensures
            final(registry).wf(),
            final(cache).wf(),
            match self@.stage {
                DisconnectStage::Synced => {
                    &&& result matches Some(Ok(change))
                    &&& change@ == (ConnectionChangedModel { device_id: self@.device_id, paired: false })
                    &&& final(registry)@ == paired_set(old(registry)@, self@.device_id, false)
                    &&& final(cache)@ == removed(old(cache)@, self@.device_id)
                    &&& (record_of(final(registry)@, self@.device_id) matches Some(record) ==> !record.paired)
                    &&& slot_of(final(cache)@, self@.device_id) is None
                },
                DisconnectStage::Failed => {
                    &&& result matches Some(Err(error))
                    &&& Some(error@) == self@.failure
                    &&& final(registry)@ == old(registry)@
                    &&& final(cache)@ == old(cache)@
                },
                _ => {
                    &&& result is None
                    &&& final(registry)@ == old(registry)@
                    &&& final(cache)@ == old(cache)@
                },
            },
    {
        match self.stage {
            DisconnectStage::Synced => Some(Ok(mark_disconnected(self.device_id, registry, cache))),
            DisconnectStage::Failed => {
                match self.failure {
                    Some(error) => Some(Err(error)),
                    None => None,
                }
            },
            _ => None,
        }
    }
}

/// Brings the application's state in line with a device that is
/// disconnected: its entry leaves the cache of connected peripherals and its
/// record's paired flag is cleared. Hands back the notice for the
/// application.
pub fn mark_disconnected<P>(device_id: String, registry: &mut DeviceRegistry, cache: &mut KeyedTable<P>) -> (change:
    ConnectionChanged)
    requires
        old(registry).wf(),
        old(cache).wf(),
    ensures
        change@ == (ConnectionChangedModel { device_id: device_id@, paired: false }),
        final(registry)@ == paired_set(old(registry)@, device_id@, false),
        final(cache)@ == removed(old(cache)@, device_id@),
        record_of(final(registry)@, device_id@) matches Some(record) ==> !record.paired,
        slot_of(final(cache)@, device_id@) is None,
        final(registry).wf(),
        final(cache).wf(),
{
    let _ = cache.remove(device_id.as_str());
    let _ = registry.set_paired(device_id.as_str(), false);
    ConnectionChanged { device_id, paired: false }
}

/// Disconnecting a device that nothing knows ends in success.
///
/// Take any device identifier that has no cached peripheral, and let neither
/// the paired list nor the scan results hold a peripheral that answers to it
/// (a listing that fails counts as empty). Then the flow asks for the two
/// listings and ends, and the device counts as disconnected.
pub proof fn lemma_unknown_device_disconnects(
    device_id: Seq<char>,
    recorded: Option<Seq<char>>,
    paired: Result<Listing, Seq<char>>,
    scanned: Result<Listing, Seq<char>>,
)
    requires
        paired matches Ok(listing) ==> candidate(listing, device_id, recorded) is None,
        scanned matches Ok(listing) ==> candidate(listing, device_id, recorded) is None,
    ensures
        ({
            let first = disconnect_begin(device_id, recorded, false);
            let second = disconnect_step(first.0, StackReplyModel::Listing(paired));
            let third = disconnect_step(second.0, StackReplyModel::Listing(scanned));
            &&& first.1 == Some(StackRequest::ListPaired)
            &&& second.1 == Some(StackRequest::ListScanResults)
            &&& third.1 is None
            &&& third.0.stage is Synced
        }),
{
}

/// A disconnect fails in two ways only, and never for a device not found.
///
/// Whatever the stage and the reply, a step keeps the flow consistent, and
/// if it ends the flow in failure, the failure is a disconnect call that the
/// stack refused or a device that is still connected after the call.
pub proof fn lemma_disconnect_failures(m: DisconnectModel, reply: StackReplyModel)
    requires
        disconnect_wf(m),
        !(m.stage is Failed),
    ensures
        disconnect_wf(disconnect_step(m, reply).0),
        disconnect_step(m, reply).0.stage is Failed ==> disconnect_step(m, reply).1 is None && (disconnect_step(
            m,
            reply,
        ).0.failure matches Some(error) && (error is DisconnectStillConnected || (error
            matches BleErrorModel::StackOperationFailed { call, .. } && call is Disconnect))),
{
    match (m.stage, reply) {
        (DisconnectStage::Probing(t), StackReplyModel::Connection(Err(_))) => {
            if !(t.tier is Cached) {
                lemma_candidate_from(m.listing, t.index + 1, m.device_id, m.recorded);
            }
        },
        (DisconnectStage::ListingPaired, StackReplyModel::Listing(Ok(listing))) => {
            lemma_candidate_from(listing, 0, m.device_id, m.recorded);
        },
        (DisconnectStage::ListingScanned, StackReplyModel::Listing(Ok(listing))) => {
            lemma_candidate_from(listing, 0, m.device_id, m.recorded);
        },
        _ => {},
    }
}

/// A disconnect that ends in success leaves the device disconnected in the
/// application's state: its record, if it has one, is not paired, and the
/// cache of connected peripherals holds no entry for it.
pub proof fn lemma_disconnected_state<P>(records: Seq<DeviceModel>, entries: Entries<P>, device_id: Seq<char>)
    requires
        distinct_keys(entries),
    ensures
        record_of(paired_set(records, device_id, false), device_id) matches Some(record) ==> !record.paired,
        slot_of(removed(entries, device_id), device_id) is None,
{
    lemma_paired_set(records, device_id, false, device_id);
    lemma_removed(entries, device_id);
}

/// Where a connect stands.
#[derive(Debug, Clone, Copy, PartialEq, Eq, Structural)]
pub enum ConnectStage {
    /// The paired peripherals are being listed.
    ListingPaired,
    /// The paired peripheral at this place is being asked whether it is
    /// connected.
    ProbingPaired(usize),
    /// The scan results are being listed.
    ListingScanned,
    /// The scan result at this place is being connected.
    Connecting(usize),
    /// Over: the stack reported the device connected already.
    AlreadyConnected,
    /// Over: the scan result at this place was connected.
    Connected(usize),
    /// Over: the connect failed.
    Failed,
}

/// Model of a [`ConnectFlow`].
pub struct ConnectModel {
    pub device_id: Seq<char>,
    pub recorded: Option<Seq<char>>,
    pub stage: ConnectStage,
    pub listing: Listing,
    pub failure: Option<BleErrorModel>,
}

/// A connect's state after a step, with the request to carry out next; no
/// request where the flow is over.
pub type ConnectStep = (ConnectModel, Option<StackRequest>);

/// The request that a stage is waiting on.
pub open spec fn connect_pending(stage: ConnectStage) -> Option<StackRequest> {
    match stage {
        ConnectStage::ListingPaired => Some(StackRequest::ListPaired),
        ConnectStage::ProbingPaired(i) => Some(
            StackRequest::QueryConnection(Target { tier: Tier::Paired, index: i }),
        ),
        ConnectStage::ListingScanned => Some(StackRequest::ListScanResults),
        ConnectStage::Connecting(i) => Some(
            StackRequest::Connect { target: Target { tier: Tier::Scanned, index: i }, settle_ms: 0 },
        ),
        ConnectStage::AlreadyConnected => None,
        ConnectStage::Connected(_) => None,
        ConnectStage::Failed => None,
    }
}

/// A flow at a given stage, with the request of that stage.
pub open spec fn connect_at(m: ConnectModel, stage: ConnectStage) -> ConnectStep {
    (ConnectModel { stage, ..m }, connect_pending(stage))
}

/// The flow as it fails.
pub open spec fn connect_failed(m: ConnectModel, error: BleErrorModel) -> ConnectStep {
    (ConnectModel { stage: ConnectStage::Failed, failure: Some(error), ..m }, None)
}

/// What follows the paired list once no paired peripheral reported the
/// device connected: a device without a record is not found, with the
/// advice to scan again; for a device with a record the scan results are
/// listed.
pub open spec fn after_paired(m: ConnectModel) -> ConnectStep {
    if m.recorded is None {
        connect_failed(m, BleErrorModel::DeviceNotFound { device_id: m.device_id, guidance: Guidance::Rescan })
    } else {
        connect_at(m, ConnectStage::ListingScanned)
    }
}

/// The next paired peripheral at or after `from` that reports the device's
/// identifier is asked for its state; where there is none, the paired list
/// is done.
pub open spec fn probe_paired_from(m: ConnectModel, from: int) -> ConnectStep {
    match candidate_from(m.listing, from, m.device_id, None) {
        Some(i) => connect_at(m, ConnectStage::ProbingPaired(i as usize)),
        None => after_paired(m),
    }
}

/// The start of a connect: the paired peripherals are listed.
pub open spec fn connect_begin(device_id: Seq<char>, recorded: Option<Seq<char>>) -> ConnectStep {
    connect_at(
        ConnectModel {
            device_id,
            recorded,
            stage: ConnectStage::ListingPaired,
            listing: Seq::empty(),
            failure: None,
        },
        ConnectStage::ListingPaired,
    )
}

/// The rules of a connect: what each reply does at each stage.
///
/// A paired peripheral with the device's identifier that reports itself
/// connected ends the flow in success at once. Otherwise the device must
/// have a record, and the scan result that stands for it is connected: the
/// first that reports the device's identifier, and only where none reports
/// it, the first that reports the recorded address. The paired list is not
/// searched for a peripheral to connect.
/// A failing list of paired peripherals counts as empty; a failing list of
/// scan results and a failing connect call end the flow with the stack's
/// error. A reply that the stage does not expect changes nothing and repeats
/// the pending request.
pub open spec fn connect_step(m: ConnectModel, reply: StackReplyModel) -> ConnectStep {
    match (m.stage, reply) {
        (ConnectStage::ListingPaired, StackReplyModel::Listing(listed)) => match listed {
            Ok(listing) => probe_paired_from(ConnectModel { listing, ..m }, 0),
            Err(_) => after_paired(m),
        },
        (ConnectStage::ProbingPaired(i), StackReplyModel::Connection(state)) => if state == Ok::<
            bool,
            Seq<char>,
        >(true) {
            connect_at(m, ConnectStage::AlreadyConnected)
        } else {
            probe_paired_from(m, i + 1)
        },
        (ConnectStage::ListingScanned, StackReplyModel::Listing(listed)) => match listed {
            Ok(listing) => match resolved(listing, m.device_id, m.recorded) {
                Some(i) => connect_at(ConnectModel { listing, ..m }, ConnectStage::Connecting(i as usize)),
                None => connect_failed(
                    ConnectModel { listing, ..m },
                    BleErrorModel::DeviceNotFound {
                        device_id: m.device_id,
                        guidance: if listing.len() == 0 {
                            Guidance::EmptyScan
                        } else {
                            Guidance::NotInScan
                        },
                    },
                ),
            },
            Err(cause) => connect_failed(
                m,
                BleErrorModel::StackOperationFailed { call: StackCall::ConnectScanResults, cause },
            ),
        },
        (ConnectStage::Connecting(i), StackReplyModel::Completed(done)) => match done {
            Ok(_) => connect_at(m, ConnectStage::Connected(i)),
            Err(cause) => connect_failed(m, BleErrorModel::StackOperationFailed { call: StackCall::Connect, cause }),
        },
        _ => (m, connect_pending(m.stage)),
    }
}

/// Whether a stage lies past the paired list, where only a device with a
/// record gets.
pub open spec fn past_paired_list(stage: ConnectStage) -> bool {
    stage is ListingScanned || stage is Connecting || stage is Connected
}

/// Whether a connect's state is consistent: a place lies in the listing at
/// hand, a failure is held exactly where the flow failed, and the device
/// has a record once the flow is past the paired list.
pub open spec fn connect_wf(m: ConnectModel) -> bool {
    &&& match m.stage {
        ConnectStage::ProbingPaired(i) => i < m.listing.len(),
        ConnectStage::Connecting(i) => i < m.listing.len(),
        ConnectStage::Connected(i) => i < m.listing.len(),
        _ => true,
    }
    &&& (m.stage is Failed) == (m.failure is Some)
    &&& past_paired_list(m.stage) ==> m.recorded is Some
}

/// What a connect came to.
#[derive(Debug, Clone, Copy, PartialEq, Eq, Structural)]
pub enum ConnectOutcome {
    /// The flow is not over.
    Pending,
    /// The device was connected already; nothing was done.
    AlreadyConnected,
    /// The scan result at this place was connected.
    Connected(usize),
    /// The connect failed.
    Failed,
}

/// The outcome that a stage stands for.
pub open spec fn outcome_of(stage: ConnectStage) -> ConnectOutcome {
    match stage {
        ConnectStage::AlreadyConnected => ConnectOutcome::AlreadyConnected,
        ConnectStage::Connected(i) => ConnectOutcome::Connected(i),
        ConnectStage::Failed => ConnectOutcome::Failed,
        _ => ConnectOutcome::Pending,
    }
}

/// A connect of one device.
pub struct ConnectFlow {
    device_id: String,
    recorded: Option<String>,
    stage: ConnectStage,
    listing: Vec<PeripheralInfo>,
    failure: Option<BleError>,
}

impl View for ConnectFlow {
    type V = ConnectModel;

    closed spec fn view(&self) -> ConnectModel {
        ConnectModel {
            device_id: self.device_id@,
            recorded: self.recorded.deep_view(),
            stage: self.stage,
            listing: self.listing.deep_view(),
            failure: self.failure.deep_view(),
        }
    }
}

impl ConnectFlow {
    /// The flow's invariant.
    pub open spec fn wf(&self) -> bool {
        connect_wf(self@)
    }

    /// Starts a connect. Whether the device has a record, and the address
    /// for matching, are taken from the registry.
    pub fn begin(device_id: &str, registry: &DeviceRegistry) -> (out: (ConnectFlow, StackRequest))
        requires
            registry.wf(),
        ensures
            (out.0@, Some(out.1)) == connect_begin(device_id@, recorded_address(registry@, device_id@)),
            out.0.wf(),
    {
        let flow = ConnectFlow {
            device_id: String::from_str(device_id),
            recorded: registry.address_of(device_id),
            stage: ConnectStage::ListingPaired,
            listing: Vec::new(),
            failure: None,
        };
        assert(flow.listing.deep_view() =~= Seq::empty());
        (flow, StackRequest::ListPaired)
    }

    /// The device that is being connected.
    pub fn device_id(&self) -> (id: &String)
        ensures
            id@ == self@.device_id,
    {
        &self.device_id
    }

    /// What the flow came to so far.
    pub fn outcome(&self) -> (outcome: ConnectOutcome)
        ensures
            outcome == outcome_of(self@.stage),
    {
        match self.stage {
            ConnectStage::AlreadyConnected => ConnectOutcome::AlreadyConnected,
            ConnectStage::Connected(i) => ConnectOutcome::Connected(i),
            ConnectStage::Failed => ConnectOutcome::Failed,
            _ => ConnectOutcome::Pending,
        }
    }

    fn pending(&self) -> (request: Option<StackRequest>)
        ensures
            request == connect_pending(self@.stage),
    {
        match self.stage {
            ConnectStage::ListingPaired => Some(StackRequest::ListPaired),
            ConnectStage::ProbingPaired(i) => Some(
                StackRequest::QueryConnection(Target { tier: Tier::Paired, index: i }),
            ),
            ConnectStage::ListingScanned => Some(StackRequest::ListScanResults),
            ConnectStage::Connecting(i) => Some(
                StackRequest::Connect { target: Target { tier: Tier::Scanned, index: i }, settle_ms: 0 },
            ),
            ConnectStage::AlreadyConnected => None,
            ConnectStage::Connected(_) => None,
            ConnectStage::Failed => None,
        }
    }

    fn go(&mut self, stage: ConnectStage) -> (request: Option<StackRequest>)
        requires
            !(stage is Failed),
            old(self).failure is None,
            past_paired_list(stage) ==> old(self).recorded is Some,
            match stage {
                ConnectStage::ProbingPaired(i) => i < old(self).listing.len(),
                ConnectStage::Connecting(i) => i < old(self).listing.len(),
                ConnectStage::Connected(i) => i < old(self).listing.len(),
                _ => true,
            },
        ensures
            (final(self)@, request) == connect_at(old(self)@, stage),
            final(self).wf(),
    {
        self.stage = stage;
        self.pending()
    }

    fn fail(&mut self, error: BleError) -> (request: Option<StackRequest>)
        ensures
            (final(self)@, request) == connect_failed(old(self)@, error@),
            final(self).wf(),
    {
        self.stage = ConnectStage::Failed;
        self.failure = Some(error);
        None
    }

    fn leave_paired(&mut self) -> (request: Option<StackRequest>)
        requires
            old(self).failure is None,
        ensures
            (final(self)@, request) == after_paired(old(self)@),
            final(self).wf(),
    {
        if self.recorded.is_none() {
            let error = BleError::not_found(self.device_id.as_str(), Guidance::Rescan);
            self.fail(error)
        } else {
            self.go(ConnectStage::ListingScanned)
        }
    }

    fn probe_paired(&mut self, from: usize) -> (request: Option<StackRequest>)
        requires
            old(self).failure is None,
        ensures
            (final(self)@, request) == probe_paired_from(old(self)@, from as int),
            final(self).wf(),
    {
        let by_identifier: Option<String> = None;
        match next_candidate(&self.listing, from, self.device_id.as_str(), &by_identifier) {
            Some(i) => self.go(ConnectStage::ProbingPaired(i)),
            None => self.leave_paired(),
        }
    }

    /// Takes the stack's reply to the pending request and names the next
    /// request; none where the flow is over.
    pub fn step(&mut self, reply: StackReply) -> (request: Option<StackRequest>)
        requires
            old(self).wf(),
        ensures
            (final(self)@, request) == connect_step(old(self)@, reply@),
            final(self).wf(),
    {
        match (self.stage, reply) {
            (ConnectStage::ListingPaired, StackReply::Listing(listed)) => match listed {
                Ok(listing) => {
                    self.listing = listing;
                    self.probe_paired(0)
                },
                Err(_) => self.leave_paired(),
            },
            (ConnectStage::ProbingPaired(i), StackReply::Connection(state)) => {
                let connected = match state {
                    Ok(connected) => connected,
                    Err(_) => false,
                };
                if connected {
                    self.go(ConnectStage::AlreadyConnected)
                } else {
                    assert(i < self.listing.len());
                    self.probe_paired(i + 1)
                }
            },
            (ConnectStage::ListingScanned, StackReply::Listing(listed)) => match listed {
                Ok(listing) => {
                    self.listing = listing;
                    match find_peripheral(&self.listing, self.device_id.as_str(), &self.recorded) {
                        Some(i) => self.go(ConnectStage::Connecting(i)),
                        None => {
                            let guidance = if self.listing.len() == 0 {
                                Guidance::EmptyScan
                            } else {
                                Guidance::NotInScan
                            };
                            let error = BleError::not_found(self.device_id.as_str(), guidance);
                            self.fail(error)
                        },
                    }
                },
                Err(cause) => self.fail(BleError::stack(StackCall::ConnectScanResults, cause)),
            },
            (ConnectStage::Connecting(i), StackReply::Completed(done)) => match done {
                Ok(_) => self.go(ConnectStage::Connected(i)),
                Err(cause) => self.fail(BleError::stack(StackCall::Connect, cause)),
            },
            _ => self.pending(),
        }
    }

    /// Ends a flow that failed and hands back its error; nothing for any
    /// other flow.
    pub fn into_failure(self) -> (failure: Option<BleError>)
        ensures
            failure.deep_view() == self@.failure,
    {
        self.failure
    }

    /// Ends the flow. Where a peripheral was connected, the device's record
    /// is marked paired, the peripheral handle that the caller passes is
    /// kept in the cache under the device identifier, and the notice for the
    /// application is handed back: afterwards the cache holds that handle
    /// for the device, and the device has a record that is paired. A cache
    /// entry is only ever made for a device with a record: where the
    /// registry that is passed holds none of the device, the connect ends
    /// as one of a device not found, and nothing changes. Where the device
    /// was connected already, nothing changes and there is no notice. Where
    /// the connect failed, the error is handed back and nothing changes.
    /// Nothing is handed back, and nothing changes, while the flow is not
    /// over.
    pub fn conclude<P>(self, registry: &mut DeviceRegistry, cache: &mut KeyedTable<P>, peripheral: P) -> (result:
        Option<Result<Option<ConnectionChanged>, BleError>>)
        requires
            self.wf(),
            old(registry).wf(),
            old(cache).wf(),
        ensures
            final(registry).wf(),
            final(cache).wf(),
            match self@.stage {
                ConnectStage::Connected(_) => if record_of(old(registry)@, self@.device_id) is Some {
                    &&& result matches Some(Ok(Some(change)))
                    &&& change@ == (ConnectionChangedModel { device_id: self@.device_id, paired: true })
                    &&& final(registry)@ == paired_set(old(registry)@, self@.device_id, true)
                    &&& final(cache)@ == inserted(old(cache)@, self@.device_id, peripheral)
                    &&& (record_of(final(registry)@, self@.device_id) matches Some(record) && record.paired)
                    &&& value_of(final(cache)@, self@.device_id) == Some(peripheral)
                } else {
                    &&& result matches Some(Err(error))
                    &&& error@ == (BleErrorModel::DeviceNotFound {
                        device_id: self@.device_id,
                        guidance: Guidance::Rescan,
                    })
                    &&& final(registry)@ == old(registry)@
                    &&& final(cache)@ == old(cache)@
                },
                ConnectStage::AlreadyConnected => {
                    &&& result matches Some(Ok(None))
                    &&& final(registry)@ == old(registry)@
                    &&& final(cache)@ == old(cache)@
                },
                ConnectStage::Failed => {
                    &&& result matches Some(Err(error))
                    &&& Some(error@) == self@.failure
                    &&& final(registry)@ == old(registry)@
                    &&& final(cache)@ == old(cache)@
                },
                _ => {
                    &&& result is None
                    &&& final(registry)@ == old(registry)@
                    &&& final(cache)@ == old(cache)@
                },
            },
    {
        match self.stage {
            ConnectStage::Connected(_) => {
                match mark_connected(self.device_id, registry, cache, peripheral) {
                    Ok(change) => Some(Ok(Some(change))),
                    Err(error) => Some(Err(error)),
                }
            },
            ConnectStage::AlreadyConnected => Some(Ok(None)),
            ConnectStage::Failed => {
                match self.failure {
                    Some(error) => Some(Err(error)),
                    None => None,
                }
            },
            _ => None,
        }
    }
}

/// Brings the application's state in line with a device that was just
/// connected: its record's paired flag is set and its peripheral handle is
/// kept in the cache of connected peripherals. Hands back the notice for the
/// application. The cache only ever holds devices that have a record: for a
/// device without one nothing changes, and the device counts as not found.
pub fn mark_connected<P>(
    device_id: String,
    registry: &mut DeviceRegistry,
    cache: &mut KeyedTable<P>,
    peripheral: P,
) -> (result: Result<ConnectionChanged, BleError>)
    requires
        old(registry).wf(),
        old(cache).wf(),
    ensures
        final(registry).wf(),
        final(cache).wf(),
        if record_of(old(registry)@, device_id@) is Some {
            &&& result matches Ok(change)
            &&& change@ == (ConnectionChangedModel { device_id: device_id@, paired: true })
            &&& final(registry)@ == paired_set(old(registry)@, device_id@, true)
            &&& final(cache)@ == inserted(old(cache)@, device_id@, peripheral)
            &&& (record_of(final(registry)@, device_id@) matches Some(record) && record.paired)
            &&& value_of(final(cache)@, device_id@) == Some(peripheral)
        } else {
            &&& result matches Err(error)
            &&& error@ == (BleErrorModel::DeviceNotFound { device_id: device_id@, guidance: Guidance::Rescan })
            &&& final(registry)@ == old(registry)@
            &&& final(cache)@ == old(cache)@
        },
{
    if registry.set_paired(device_id.as_str(), true) {
        let _ = cache.insert(device_id.clone(), peripheral);
        Ok(ConnectionChanged { device_id, paired: true })
    } else {
        Err(BleError::not_found(device_id.as_str(), Guidance::Rescan))
    }
}

/// What the paired peripherals answer when asked whether they are
/// connected, place by place.
pub type Answers = Seq<Result<bool, Seq<char>>>;

/// The flow after its questions to the paired peripherals: as long as it
/// asks a paired peripheral, that peripheral's answer is handed back; at
/// most `probes` times.
pub open spec fn after_probes(m: ConnectModel, answers: Answers, probes: nat) -> ConnectModel
    decreases probes,
{
    match m.stage {
        ConnectStage::ProbingPaired(i) => if probes > 0 && i < answers.len() {
            after_probes(
                connect_step(m, StackReplyModel::Connection(answers[i as int])).0,
                answers,
                (probes - 1) as nat,
            )
        } else {
            m
        },
        _ => m,
    }
}

/// Whether the flow, on its way through the paired peripherals, asks for
/// nothing but their state: none of its requests on that way is a connect.
pub open spec fn only_probes(m: ConnectModel, answers: Answers, probes: nat) -> bool
    decreases probes,
{
    match m.stage {
        ConnectStage::ProbingPaired(i) => if probes > 0 && i < answers.len() {
            let next = connect_step(m, StackReplyModel::Connection(answers[i as int]));
            &&& !(next.1 matches Some(StackRequest::Connect { .. }))
            &&& only_probes(next.0, answers, (probes - 1) as nat)
        } else {
            true
        },
        _ => true,
    }
}

proof fn lemma_probes_find_connected(m: ConnectModel, answers: Answers, probes: nat, at: usize, i: int)
    requires
        connect_wf(m),
        m.stage == ConnectStage::ProbingPaired(at),
        at <= i < m.listing.len(),
        m.listing.len() == answers.len(),
        m.listing.len() <= usize::MAX,
        m.listing[i].identifier == Some(m.device_id),
        answers[i] == Ok::<bool, Seq<char>>(true),
        probes >= i - at + 1,
    ensures
        after_probes(m, answers, probes).stage is AlreadyConnected,
        only_probes(m, answers, probes),
    decreases probes,
{
    let next = connect_step(m, StackReplyModel::Connection(answers[at as int]));
    let left = (probes - 1) as nat;
    assert(after_probes(m, answers, probes) == after_probes(next.0, answers, left));
    assert(only_probes(m, answers, probes) == (!(next.1 matches Some(StackRequest::Connect { .. })) && only_probes(
        next.0,
        answers,
        left,
    )));
    if answers[at as int] == Ok::<bool, Seq<char>>(true) {
        assert(next.0.stage is AlreadyConnected);
        assert(after_probes(next.0, answers, left) == next.0);
        assert(only_probes(next.0, answers, left));
    } else {
        lemma_candidate_from(m.listing, at + 1, m.device_id, None);
        assert(answers_to(m.listing[i], m.device_id, None));
        let k = candidate_from(m.listing, at + 1, m.device_id, None)->Some_0;
        assert(k <= i);
        assert(next.0.stage == ConnectStage::ProbingPaired(k as usize));
        lemma_probes_find_connected(next.0, answers, left, k as usize, i);
    }
}

/// Connecting a connected device succeeds without a connect call.
///
/// Let some paired peripheral, at any place of the paired list, report the
/// device's identifier and report itself connected, whatever the other
/// paired peripherals answer. Then the flow asks for the paired list, asks
/// paired peripherals for their state, and ends in success: no request to
/// connect is made on the way.
pub proof fn lemma_connected_device_connects_once(
    device_id: Seq<char>,
    recorded: Option<Seq<char>>,
    paired: Listing,
    answers: Answers,
    i: int,
)
    requires
        paired.len() <= usize::MAX,
        answers.len() == paired.len(),
        0 <= i < paired.len(),
        paired[i].identifier == Some(device_id),
        answers[i] == Ok::<bool, Seq<char>>(true),
    ensures
        ({
            let first = connect_begin(device_id, recorded);
            let second = connect_step(first.0, StackReplyModel::Listing(Ok(paired)));
            let end = after_probes(second.0, answers, paired.len());
            &&& first.1 == Some(StackRequest::ListPaired)
            &&& second.1 matches Some(StackRequest::QueryConnection(_))
            &&& only_probes(second.0, answers, paired.len())
            &&& end.stage is AlreadyConnected
        }),
{
    let first = connect_begin(device_id, recorded);
    let second = connect_step(first.0, StackReplyModel::Listing(Ok(paired)));
    lemma_candidate_from(paired, 0, device_id, None);
    assert(answers_to(paired[i], device_id, None));
    let k = candidate_from(paired, 0, device_id, None)->Some_0;
    assert(k <= i);
    assert(second.0.stage == ConnectStage::ProbingPaired(k as usize));
    lemma_probes_find_connected(second.0, answers, paired.len(), k as usize, i);
}

/// A connect call is only ever requested for a device with a record, after
/// the paired list gave no connected peripheral and the scan results were
/// searched; and a flow that found the device connected never requests one.
pub proof fn lemma_connect_requests(m: ConnectModel, reply: StackReplyModel)
    requires
        connect_wf(m),
    ensures
        connect_wf(connect_step(m, reply).0),
        connect_step(m, reply).1 matches Some(StackRequest::Connect { .. }) ==> m.recorded is Some && (m.stage
            is ListingScanned || m.stage is Connecting),
        connect_step(m, reply).0.stage is Connected ==> m.recorded is Some,
        m.stage is AlreadyConnected ==> connect_step(m, reply) == (m, None::<StackRequest>),
{
    match (m.stage, reply) {
        (ConnectStage::ListingPaired, StackReplyModel::Listing(Ok(listing))) => {
            lemma_candidate_from(listing, 0, m.device_id, None);
        },
        (ConnectStage::ProbingPaired(i), StackReplyModel::Connection(_)) => {
            lemma_candidate_from(m.listing, i + 1, m.device_id, None);
        },
        (ConnectStage::ListingScanned, StackReplyModel::Listing(Ok(listing))) => {
            lemma_identifier_comes_first(listing, m.device_id, m.recorded);
        },
        _ => {},
    }
}

/// Every entry that a connect makes in the cache is of a device with a
/// paired record.
///
/// Let a device with a record be marked connected. Then its record is
/// paired and its peripheral is the one in the cache. The cache gained no
/// other key, and lost none.
pub proof fn lemma_connected_state<P>(
    records: Seq<DeviceModel>,
    entries: Entries<P>,
    device_id: Seq<char>,
    peripheral: P,
    key: Seq<char>,
)
    requires
        distinct_keys(entries),
        record_of(records, device_id) is Some,
    ensures
        record_of(paired_set(records, device_id, true), device_id) matches Some(record) && record.paired,
        value_of(inserted(entries, device_id, peripheral), device_id) == Some(peripheral),
        slot_of(inserted(entries, device_id, peripheral), key) is Some && slot_of(entries, key) is None ==> key
            == device_id,
        slot_of(entries, key) is Some ==> slot_of(inserted(entries, device_id, peripheral), key) is Some,
{
    lemma_paired_set(records, device_id, true, device_id);
    lemma_inserted(entries, device_id, peripheral, device_id);
    lemma_inserted(entries, device_id, peripheral, key);
}

/// Where a connection check stands.
#[derive(Debug, Clone, Copy, PartialEq, Eq, Structural)]
pub enum CheckStage {
    /// The paired peripherals are being listed.
    ListingPaired,
    /// The scan results are being listed.
    ListingScanned,
    /// The peripheral is being asked whether it is connected.
    Probing(Target),
    /// Over: the peripheral answered.
    Answered(bool),
    /// Over: the check failed.
    Failed,
}

/// Model of a [`ConnectionCheck`].
pub struct CheckModel {
    pub device_id: Seq<char>,
    pub stage: CheckStage,
    pub failure: Option<BleErrorModel>,
}

/// A check's state after a step, with the request to carry out next; no
/// request where the check is over.
pub type CheckStep = (CheckModel, Option<StackRequest>);

/// The request that a stage is waiting on.
pub open spec fn check_pending(stage: CheckStage) -> Option<StackRequest> {
    match stage {
        CheckStage::ListingPaired => Some(StackRequest::ListPaired),
        CheckStage::ListingScanned => Some(StackRequest::ListScanResults),
        CheckStage::Probing(t) => Some(StackRequest::QueryConnection(t)),
        CheckStage::Answered(_) => None,
        CheckStage::Failed => None,
    }
}

/// A check at a given stage, with the request of that stage.
pub open spec fn check_at(m: CheckModel, stage: CheckStage) -> CheckStep {
    (CheckModel { stage, ..m }, check_pending(stage))
}

/// The check as it fails.
pub open spec fn check_failed(m: CheckModel, error: BleErrorModel) -> CheckStep {
    (CheckModel { stage: CheckStage::Failed, failure: Some(error), ..m }, None)
}

/// The start of a check: the paired peripherals are listed.
pub open spec fn check_begin(device_id: Seq<char>) -> CheckStep {
    check_at(
        CheckModel { device_id, stage: CheckStage::ListingPaired, failure: None },
        CheckStage::ListingPaired,
    )
}

/// The rules of a connection check.
///
/// The peripheral is the first paired peripheral with the device's
/// identifier, or else the first scan result with it. Its answer is the
/// check's answer, and its failure to answer the check's failure. A failing
/// list of paired peripherals counts as empty; a failing list of scan
/// results is the check's failure. A reply that the stage does not expect
/// changes nothing and repeats the pending request.
pub open spec fn check_step(m: CheckModel, reply: StackReplyModel) -> CheckStep {
    match (m.stage, reply) {
        (CheckStage::ListingPaired, StackReplyModel::Listing(Ok(listing))) => match candidate(
            listing,
            m.device_id,
            None,
        ) {
            Some(i) => check_at(m, CheckStage::Probing(Target { tier: Tier::Paired, index: i as usize })),
            None => check_at(m, CheckStage::ListingScanned),
        },
        (CheckStage::ListingPaired, StackReplyModel::Listing(Err(_))) => check_at(m, CheckStage::ListingScanned),
        (CheckStage::ListingScanned, StackReplyModel::Listing(Ok(listing))) => match candidate(
            listing,
            m.device_id,
            None,
        ) {
            Some(i) => check_at(m, CheckStage::Probing(Target { tier: Tier::Scanned, index: i as usize })),
            None => check_failed(
                m,
                BleErrorModel::DeviceNotFound { device_id: m.device_id, guidance: Guidance::Plain },
            ),
        },
        (CheckStage::ListingScanned, StackReplyModel::Listing(Err(cause))) => check_failed(
            m,
            BleErrorModel::StackOperationFailed { call: StackCall::ScanResults, cause },
        ),
        (CheckStage::Probing(_), StackReplyModel::Connection(Ok(connected))) => check_at(
            m,
            CheckStage::Answered(connected),
        ),
        (CheckStage::Probing(_), StackReplyModel::Connection(Err(cause))) => check_failed(
            m,
            BleErrorModel::StackOperationFailed { call: StackCall::ConnectionState, cause },
        ),
        _ => (m, check_pending(m.stage)),
    }
}

/// A check of whether a device is connected.
pub struct ConnectionCheck {
    device_id: String,
    stage: CheckStage,
    failure: Option<BleError>,
}

impl View for ConnectionCheck {
    type V = CheckModel;

    closed spec fn view(&self) -> CheckModel {
        CheckModel { device_id: self.device_id@, stage: self.stage, failure: self.failure.deep_view() }
    }
}

impl ConnectionCheck {
    /// The flow's invariant: a failure is held exactly where the check
    /// failed.
    pub open spec fn wf(&self) -> bool {
        (self@.stage is Failed) == (self@.failure is Some)
    }

    /// Starts a check.
    pub fn begin(device_id: &str) -> (out: (ConnectionCheck, StackRequest))
        ensures
            (out.0@, Some(out.1)) == check_begin(device_id@),
            out.0.wf(),
    {
        (
            ConnectionCheck {
                device_id: String::from_str(device_id),
                stage: CheckStage::ListingPaired,
                failure: None,
            },
            StackRequest::ListPaired,
        )
    }

    fn pending(&self) -> (request: Option<StackRequest>)
        ensures
            request == check_pending(self@.stage),
    {
        match self.stage {
            CheckStage::ListingPaired => Some(StackRequest::ListPaired),
            CheckStage::ListingScanned => Some(StackRequest::ListScanResults),
            CheckStage::Probing(t) => Some(StackRequest::QueryConnection(t)),
            CheckStage::Answered(_) => None,
            CheckStage::Failed => None,
        }
    }

    fn go(&mut self, stage: CheckStage) -> (request: Option<StackRequest>)
        requires
            !(stage is Failed),
            old(self).failure is None,
        ensures
            (final(self)@, request) == check_at(old(self)@, stage),
            final(self).wf(),
    {
        self.stage = stage;
        self.pending()
    }

    fn fail(&mut self, error: BleError) -> (request: Option<StackRequest>)
        ensures
            (final(self)@, request) == check_failed(old(self)@, error@),
            final(self).wf(),
    {
        self.stage = CheckStage::Failed;
        self.failure = Some(error);
        None
    }

    fn search(&self, listing: &Vec<PeripheralInfo>) -> (at: Option<usize>)
        ensures
            match at {
                Some(i) => candidate(listing.deep_view(), self@.device_id, None) == Some(i as int),
                None => candidate(listing.deep_view(), self@.device_id, None) is None,
            },
    {
        let by_identifier: Option<String> = None;
        next_candidate(listing, 0, self.device_id.as_str(), &by_identifier)
    }

    /// Takes the stack's reply to the pending request and names the next
    /// request; none where the check is over.
    pub fn step(&mut self, reply: StackReply) -> (request: Option<StackRequest>)
        requires
            old(self).wf(),
        ensures
            (final(self)@, request) == check_step(old(self)@, reply@),
            final(self).wf(),
    {
        match (self.stage, reply) {
            (CheckStage::ListingPaired, StackReply::Listing(Ok(listing))) => {
                match self.search(&listing) {
                    Some(i) => self.go(CheckStage::Probing(Target { tier: Tier::Paired, index: i })),
                    None => self.go(CheckStage::ListingScanned),
                }
            },
            (CheckStage::ListingPaired, StackReply::Listing(Err(_))) => self.go(CheckStage::ListingScanned),
            (CheckStage::ListingScanned, StackReply::Listing(Ok(listing))) => {
                match self.search(&listing) {
                    Some(i) => self.go(CheckStage::Probing(Target { tier: Tier::Scanned, index: i })),
                    None => {
                        let error = BleError::not_found(self.device_id.as_str(), Guidance::Plain);
                        self.fail(error)
                    },
                }
            },
            (CheckStage::ListingScanned, StackReply::Listing(Err(cause))) => {
                self.fail(BleError::stack(StackCall::ScanResults, cause))
            },
            (CheckStage::Probing(_), StackReply::Connection(Ok(connected))) => {
                self.go(CheckStage::Answered(connected))
            },
            (CheckStage::Probing(_), StackReply::Connection(Err(cause))) => {
                self.fail(BleError::stack(StackCall::ConnectionState, cause))
            },
            _ => self.pending(),
        }
    }

    /// Ends the check: hands back the peripheral's answer or the failure, or
    /// nothing while the check is not over.
    pub fn conclude(self) -> (result: Option<Result<bool, BleError>>)
        requires
            self.wf(),
        ensures
            match self@.stage {
                CheckStage::Answered(connected) => result matches Some(Ok(answer)) && answer == connected,
                CheckStage::Failed => result matches Some(Err(error)) && Some(error@) == self@.failure,
                _ => result is None,
            },
    {
        match self.stage {
            CheckStage::Answered(connected) => Some(Ok(connected)),
            CheckStage::Failed => {
                match self.failure {
                    Some(error) => Some(Err(error)),
                    None => None,
                }
            },
            _ => None,
        }
    }
}

/// How far a disconnect is from its end, by tier: the cache comes before
/// the paired list, the paired list before the scan results.
pub open spec fn disconnect_tier_rank(tier: Tier) -> int {
    match tier {
        Tier::Cached => 5,
        Tier::Paired => 3,
        Tier::Scanned => 1,
    }
}

/// The steps left in the tier at work, at most: up to three for the
/// peripheral at hand, of which `done` are made, and three for each listed
/// peripheral after it.
pub open spec fn steps_left_in_tier(m: DisconnectModel, t: Target, done: int) -> int {
    if t.tier is Cached {
        2 - done
    } else {
        3 * (m.listing.len() - t.index) + 2 - done
    }
}

/// How far a disconnect is from its end, as a pair that is compared first
/// by its first part: the tier at work, and the steps left in that tier at
/// most.
pub open spec fn disconnect_distance(m: DisconnectModel) -> (int, int) {
    match m.stage {
        DisconnectStage::Probing(t) => (disconnect_tier_rank(t.tier), steps_left_in_tier(m, t, 0)),
        DisconnectStage::Disconnecting(t) => (disconnect_tier_rank(t.tier), steps_left_in_tier(m, t, 1)),
        DisconnectStage::Rechecking(t) => (disconnect_tier_rank(t.tier), steps_left_in_tier(m, t, 2)),
        DisconnectStage::ListingPaired => (4, 0),
        DisconnectStage::ListingScanned => (2, 0),
        DisconnectStage::Synced => (0, 0),
        DisconnectStage::Failed => (0, 0),
    }
}

/// Whether a reply is of the kind that a stage waits for.
pub open spec fn disconnect_expects(stage: DisconnectStage, reply: StackReplyModel) -> bool {
    match stage {
        DisconnectStage::Probing(_) => reply is Connection,
        DisconnectStage::Disconnecting(_) => reply is Completed,
        DisconnectStage::Rechecking(_) => reply is Connection,
        DisconnectStage::ListingPaired => reply is Listing,
        DisconnectStage::ListingScanned => reply is Listing,
        DisconnectStage::Synced => false,
        DisconnectStage::Failed => false,
    }
}

/// Whether one distance is strictly less than another.
pub open spec fn nearer(a: (int, int), b: (int, int)) -> bool {
    a.0 < b.0 || (a.0 == b.0 && a.1 < b.1)
}

/// Every reply brings a disconnect nearer to its end.
///
/// Whatever the stack answers to the pending request, the flow moves on in
/// its tier or on to a later tier, never back. As a tier has finitely many
/// peripherals and there are three tiers, every disconnect ends. The
/// listings are as long as a vector can be at most.
pub proof fn lemma_disconnect_advances(m: DisconnectModel, reply: StackReplyModel)
    requires
        disconnect_wf(m),
        disconnect_expects(m.stage, reply),
        m.listing.len() <= usize::MAX,
        reply matches StackReplyModel::Listing(Ok(listing)) ==> listing.len() <= usize::MAX,
    ensures
        nearer(disconnect_distance(disconnect_step(m, reply).0), disconnect_distance(m)),
        disconnect_distance(disconnect_step(m, reply).0).0 >= 0,
        disconnect_distance(disconnect_step(m, reply).0).1 >= 0,
{
    match (m.stage, reply) {
        (DisconnectStage::Probing(t), StackReplyModel::Connection(Err(_))) => {
            if !(t.tier is Cached) {
                lemma_candidate_from(m.listing, t.index + 1, m.device_id, m.recorded);
            }
        },
        (DisconnectStage::ListingPaired, StackReplyModel::Listing(Ok(listing))) => {
            lemma_candidate_from(listing, 0, m.device_id, m.recorded);
        },
        (DisconnectStage::ListingScanned, StackReplyModel::Listing(Ok(listing))) => {
            lemma_candidate_from(listing, 0, m.device_id, m.recorded);
        },
        _ => {},
    }
}

/// How far a connect is from its end: the stage at work, and the paired
/// peripherals left to ask at most.
pub open spec fn connect_distance(m: ConnectModel) -> (int, int) {
    match m.stage {
        ConnectStage::ListingPaired => (4, 0),
        ConnectStage::ProbingPaired(i) => (3, m.listing.len() - i),
        ConnectStage::ListingScanned => (2, 0),
        ConnectStage::Connecting(_) => (1, 0),
        ConnectStage::AlreadyConnected => (0, 0),
        ConnectStage::Connected(_) => (0, 0),
        ConnectStage::Failed => (0, 0),
    }
}

/// Whether a reply is of the kind that a stage waits for.
pub open spec fn connect_expects(stage: ConnectStage, reply: StackReplyModel) -> bool {
    match stage {
        ConnectStage::ListingPaired => reply is Listing,
        ConnectStage::ProbingPaired(_) => reply is Connection,
        ConnectStage::ListingScanned => reply is Listing,
        ConnectStage::Connecting(_) => reply is Completed,
        _ => false,
    }
}

/// Every reply brings a connect nearer to its end, so every connect ends.
pub proof fn lemma_connect_advances(m: ConnectModel, reply: StackReplyModel)
    requires
        connect_wf(m),
        connect_expects(m.stage, reply),
        m.listing.len() <= usize::MAX,
        reply matches StackReplyModel::Listing(Ok(listing)) ==> listing.len() <= usize::MAX,
    ensures
        nearer(connect_distance(connect_step(m, reply).0), connect_distance(m)),
        connect_distance(connect_step(m, reply).0).0 >= 0,
        connect_distance(connect_step(m, reply).0).1 >= 0,
{
    match (m.stage, reply) {
        (ConnectStage::ListingPaired, StackReplyModel::Listing(Ok(listing))) => {
            lemma_candidate_from(listing, 0, m.device_id, None);
        },
        (ConnectStage::ProbingPaired(i), StackReplyModel::Connection(_)) => {
            lemma_candidate_from(m.listing, i + 1, m.device_id, None);
        },
        (ConnectStage::ListingScanned, StackReplyModel::Listing(Ok(listing))) => {
            lemma_identifier_comes_first(listing, m.device_id, m.recorded);
        },
        _ => {},
    }
}

} // verus!
