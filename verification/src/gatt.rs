//! The commands on a device's GATT services: listing them, reading and
//! writing a characteristic, subscribing and unsubscribing, and the MTU.
//!
//! Every command first finds the device's peripheral, in the scan results
//! and then in the paired list, and then puts its one request to it. A read
//! tries the UUIDs in three forms, each up to three times.

use vstd::prelude::*;
use crate::device::{CharacteristicModel, GattCharacteristic, GattService, ServiceModel};
use crate::errors::{BleError, BleErrorModel, Guidance, StackCall};
use crate::hexcode::{hex_text, value_text};
use crate::registry::{DeviceRegistry, recorded_address};
use crate::resolver::{Listing, PeripheralInfo, find_peripheral, lemma_identifier_comes_first, resolved};
use crate::stack::{
    CharacteristicInfo, CharacteristicInfoModel, ServiceInfo, ServiceInfoModel, StackReply, StackReplyModel,
    StackRequest, SubscriptionKind, Target, Tier, UuidForm, WriteKind,
};

verus! {

/// How often a read is tried with the UUIDs in one form.
pub const READ_ATTEMPTS: u8 = 3;

/// The pause before a read is tried again, in milliseconds.
pub const READ_RETRY_PAUSE_MS: u64 = 120;

/// The wait after connecting a peripheral for a read, in milliseconds.
pub const READ_CONNECT_SETTLE_MS: u64 = 150;

/// A text as a list of one, or the empty list.
pub open spec fn named_if(held: bool, name: Seq<char>) -> Seq<Seq<char>> {
    if held {
        seq![name]
    } else {
        Seq::empty()
    }
}

/// The names of what a characteristic supports, in a fixed order.
pub open spec fn properties_of(c: CharacteristicInfoModel) -> Seq<Seq<char>> {
    named_if(c.can_read, "Read"@) + named_if(c.can_write_request, "WriteRequest"@) + named_if(
        c.can_write_command,
        "WriteCommand"@,
    ) + named_if(c.can_notify, "Notify"@) + named_if(c.can_indicate, "Indicate"@)
}

/// A characteristic as it is listed to the application.
pub open spec fn listed_characteristic(c: CharacteristicInfoModel) -> CharacteristicModel {
    CharacteristicModel { uuid: c.uuid, properties: properties_of(c) }
}

/// A service as it is listed to the application.
pub open spec fn listed_service(s: ServiceInfoModel) -> ServiceModel {
    ServiceModel {
        uuid: s.uuid,
        characteristics: Seq::new(s.characteristics.len(), |i: int| listed_characteristic(s.characteristics[i])),
    }
}

/// The services of a device as they are listed to the application.
pub open spec fn listed_services(services: Seq<ServiceInfoModel>) -> Seq<ServiceModel> {
    Seq::new(services.len(), |i: int| listed_service(services[i]))
}

fn push_name(names: &mut Vec<String>, held: bool, name: &str)
    ensures
        final(names).deep_view() == old(names).deep_view() + named_if(held, name@),
{
    if held {
        names.push(String::from_str(name));
    }
}

/// Lists a characteristic with the names of what it supports.
pub fn describe_characteristic(c: &CharacteristicInfo) -> (listed: GattCharacteristic)
    ensures
        listed@ == listed_characteristic(c@),
{
    let mut properties: Vec<String> = Vec::new();
    push_name(&mut properties, c.can_read, "Read");
    push_name(&mut properties, c.can_write_request, "WriteRequest");
    push_name(&mut properties, c.can_write_command, "WriteCommand");
    push_name(&mut properties, c.can_notify, "Notify");
    push_name(&mut properties, c.can_indicate, "Indicate");
    GattCharacteristic { uuid: c.uuid.clone(), properties }
}

/// Lists a service with its characteristics.
pub fn describe_service(s: &ServiceInfo) -> (listed: GattService)
    ensures
        listed@ == listed_service(s@),
{
    let mut characteristics: Vec<GattCharacteristic> = Vec::new();
    let mut i: usize = 0;
    while i < s.characteristics.len()
        invariant
            i <= s.characteristics.len(),
            characteristics.len() == i,
            forall|k: int| 0 <= k < i ==> characteristics@[k]@ == listed_characteristic(s.characteristics@[k]@),
        decreases s.characteristics.len() - i,
    {
        characteristics.push(describe_characteristic(&s.characteristics[i]));
        i += 1;
    }
    assert(characteristics.deep_view() =~= listed_service(s@).characteristics);
    GattService { uuid: s.uuid.clone(), characteristics }
}

/// Lists the services of a device.
pub fn describe_services(services: &Vec<ServiceInfo>) -> (listed: Vec<GattService>)
    ensures
        listed.deep_view() == listed_services(services.deep_view()),
{
    let mut listed: Vec<GattService> = Vec::new();
    let mut i: usize = 0;
    while i < services.len()
        invariant
            i <= services.len(),
            listed.len() == i,
            forall|k: int| 0 <= k < i ==> listed@[k]@ == listed_service(services@[k]@),
        decreases services.len() - i,
    {
        listed.push(describe_service(&services[i]));
        i += 1;
    }
    listed
}

/// A command on a device's GATT services.
#[derive(Debug, Clone, Copy, PartialEq, Eq, Structural)]
pub enum Operation {
    ListServices,
    Read,
    Write(WriteKind),
    Subscribe(SubscriptionKind),
    Unsubscribe,
    QueryMtu,
}

/// Where a command stands.
#[derive(Debug, Clone, Copy, PartialEq, Eq, Structural)]
pub enum GattStage {
    /// The scan results are being listed.
    ListingScanned,
    /// The paired peripherals are being listed.
    ListingPaired,
    /// The peripheral is being asked whether it is connected.
    Probing(Target),
    /// The peripheral is being connected.
    Connecting(Target),
    /// The characteristic is being read with the UUIDs in the given form,
    /// after this many failures in that form.
    Reading { target: Target, form: UuidForm, failures: u8 },
    /// The command's own request is with the stack.
    Operating(Target),
    /// Over: the command was carried out.
    Finished,
    /// Over: the command failed.
    Failed,
}

/// Model of a [`GattOutcome`].
pub enum GattOutcomeModel {
    Nothing,
    Services(Seq<ServiceModel>),
    Value(Seq<char>),
    Mtu(u16),
}

/// What a command hands back.
#[derive(Debug, Clone)]
pub enum GattOutcome {
    /// Nothing but success.
    Nothing,
    /// The services of the device.
    Services(Vec<GattService>),
    /// The value read, in uppercase hexadecimal.
    Value(String),
    /// The negotiated MTU.
    Mtu(u16),
}

impl View for GattOutcome {
    type V = GattOutcomeModel;

    open spec fn view(&self) -> GattOutcomeModel {
        match self {
            GattOutcome::Nothing => GattOutcomeModel::Nothing,
            GattOutcome::Services(services) => GattOutcomeModel::Services(services.deep_view()),
            GattOutcome::Value(text) => GattOutcomeModel::Value(text@),
            GattOutcome::Mtu(mtu) => GattOutcomeModel::Mtu(*mtu),
        }
    }
}

/// Model of a [`GattFlow`].
pub struct GattModel {
    pub device_id: Seq<char>,
    pub recorded: Option<Seq<char>>,
    pub operation: Operation,
    pub stage: GattStage,
    pub outcome: GattOutcomeModel,
    pub failure: Option<BleErrorModel>,
}

/// A command's state after a step, with the request to carry out next; no
/// request where the command is over.
pub type GattStep = (GattModel, Option<StackRequest>);

/// The advice that goes with a device not found, by command.
pub open spec fn guidance_for(operation: Operation) -> Guidance {
    match operation {
        Operation::ListServices => Guidance::ScanOrConnect,
        Operation::Read => Guidance::ScanOrConnect,
        _ => Guidance::Plain,
    }
}

/// Whether a command connects a peripheral that reports itself
/// disconnected before it puts its request.
pub open spec fn connects_first(operation: Operation) -> bool {
    operation is Read || operation is Write
}

/// The wait after connecting for a command, in milliseconds.
pub open spec fn connect_settle_for(operation: Operation) -> u64 {
    if operation is Read {
        150
    } else {
        0
    }
}

/// The stack call of a write.
pub open spec fn write_call(kind: WriteKind) -> StackCall {
    match kind {
        WriteKind::Request => StackCall::WriteRequest,
        WriteKind::Command => StackCall::WriteCommand,
    }
}

/// The stack call of a subscribe.
pub open spec fn subscribe_call(mode: SubscriptionKind) -> StackCall {
    match mode {
        SubscriptionKind::Notify => StackCall::Notify,
        SubscriptionKind::Indicate => StackCall::Indicate,
    }
}

/// The pause before a read, by the failures so far in the same form.
pub open spec fn pause_after(failures: u8) -> u64 {
    if failures == 0 {
        0
    } else {
        120
    }
}

/// A command's own request.
pub open spec fn request_of(operation: Operation, target: Target) -> StackRequest {
    match operation {
        Operation::ListServices => StackRequest::ListServices(target),
        Operation::Read => StackRequest::Read { target, form: UuidForm::AsGiven, pause_ms: 0 },
        Operation::Write(kind) => StackRequest::Write { target, kind },
        Operation::Subscribe(mode) => StackRequest::Subscribe { target, mode },
        Operation::Unsubscribe => StackRequest::Unsubscribe { target },
        Operation::QueryMtu => StackRequest::QueryMtu(target),
    }
}

/// The request that a stage is waiting on.
pub open spec fn gatt_pending(operation: Operation, stage: GattStage) -> Option<StackRequest> {
    match stage {
        GattStage::ListingScanned => Some(StackRequest::ListScanResults),
        GattStage::ListingPaired => Some(StackRequest::ListPaired),
        GattStage::Probing(t) => Some(StackRequest::QueryConnection(t)),
        GattStage::Connecting(t) => Some(
            StackRequest::Connect { target: t, settle_ms: connect_settle_for(operation) },
        ),
        GattStage::Reading { target, form, failures } => Some(
            StackRequest::Read { target, form, pause_ms: pause_after(failures) },
        ),
        GattStage::Operating(t) => Some(request_of(operation, t)),
        GattStage::Finished => None,
        GattStage::Failed => None,
    }
}

/// A command at a given stage, with the request of that stage.
pub open spec fn gatt_at(m: GattModel, stage: GattStage) -> GattStep {
    (GattModel { stage, ..m }, gatt_pending(m.operation, stage))
}

/// The command as it fails.
pub open spec fn gatt_failed(m: GattModel, error: BleErrorModel) -> GattStep {
    (GattModel { stage: GattStage::Failed, failure: Some(error), ..m }, None)
}

/// The command as it succeeds.
pub open spec fn gatt_finished(m: GattModel, outcome: GattOutcomeModel) -> GattStep {
    (GattModel { stage: GattStage::Finished, outcome, ..m }, None)
}

/// The stage at which a command puts its own request to a peripheral.
pub open spec fn working_stage(operation: Operation, target: Target) -> GattStage {
    if operation is Read {
        GattStage::Reading { target, form: UuidForm::AsGiven, failures: 0 }
    } else {
        GattStage::Operating(target)
    }
}

/// What follows once the peripheral is found.
pub open spec fn gatt_found(m: GattModel, target: Target) -> GattStep {
    if connects_first(m.operation) {
        gatt_at(m, GattStage::Probing(target))
    } else {
        gatt_at(m, working_stage(m.operation, target))
    }
}

/// What follows where no listing holds the peripheral: an unsubscribe has
/// nothing left to do; every other command fails.
pub open spec fn gatt_not_found(m: GattModel) -> GattStep {
    if m.operation is Unsubscribe {
        gatt_finished(m, GattOutcomeModel::Nothing)
    } else {
        gatt_failed(
            m,
            BleErrorModel::DeviceNotFound { device_id: m.device_id, guidance: guidance_for(m.operation) },
        )
    }
}

/// The peripheral of a listing that stands for the command's device: the
/// first that reports the device's identifier, and only where none reports
/// it, the first that reports the recorded address; none where the listing
/// failed.
pub open spec fn found_in(m: GattModel, listed: Result<Listing, Seq<char>>) -> Option<int> {
    match listed {
        Ok(listing) => resolved(listing, m.device_id, m.recorded),
        Err(_) => None,
    }
}

/// What follows a read that failed: the same form once more, after a pause,
/// until it failed three times; then the next form; after the last form the
/// read is given up.
pub open spec fn after_failed_read(m: GattModel, target: Target, form: UuidForm, failures: u8) -> GattStep {
    if failures < 2 {
        gatt_at(m, GattStage::Reading { target, form, failures: (failures + 1) as u8 })
    } else {
        match form {
            UuidForm::AsGiven => gatt_at(m, GattStage::Reading { target, form: UuidForm::Full, failures: 0 }),
            UuidForm::Full => gatt_at(m, GattStage::Reading { target, form: UuidForm::Short, failures: 0 }),
            UuidForm::Short => gatt_failed(m, BleErrorModel::ReadExhausted),
        }
    }
}

/// What follows the reply to a command's own request.
pub open spec fn after_request(m: GattModel, reply: StackReplyModel) -> GattStep {
    match (m.operation, reply) {
        (Operation::ListServices, StackReplyModel::Services(Ok(services))) => gatt_finished(
            m,
            GattOutcomeModel::Services(listed_services(services)),
        ),
        (Operation::ListServices, StackReplyModel::Services(Err(cause))) => gatt_failed(
            m,
            BleErrorModel::StackOperationFailed { call: StackCall::Services, cause },
        ),
        (Operation::Write(_), StackReplyModel::Completed(Ok(_))) => gatt_finished(m, GattOutcomeModel::Nothing),
        (Operation::Write(kind), StackReplyModel::Completed(Err(cause))) => gatt_failed(
            m,
            BleErrorModel::StackOperationFailed { call: write_call(kind), cause },
        ),
        (Operation::Subscribe(_), StackReplyModel::Completed(Ok(_))) => gatt_finished(
            m,
            GattOutcomeModel::Nothing,
        ),
        (Operation::Subscribe(mode), StackReplyModel::Completed(Err(cause))) => gatt_failed(
            m,
            BleErrorModel::StackOperationFailed { call: subscribe_call(mode), cause },
        ),
        (Operation::Unsubscribe, StackReplyModel::Completed(_)) => gatt_finished(m, GattOutcomeModel::Nothing),
        (Operation::QueryMtu, StackReplyModel::Mtu(Ok(mtu))) => gatt_finished(m, GattOutcomeModel::Mtu(mtu)),
        (Operation::QueryMtu, StackReplyModel::Mtu(Err(cause))) => gatt_failed(
            m,
            BleErrorModel::StackOperationFailed { call: StackCall::Mtu, cause },
        ),
        _ => (m, gatt_pending(m.operation, m.stage)),
    }
}

/// The start of a command: the scan results are listed.
pub open spec fn gatt_begin(device_id: Seq<char>, recorded: Option<Seq<char>>, operation: Operation) -> GattStep {
    gatt_at(
        GattModel {
            device_id,
            recorded,
            operation,
            stage: GattStage::ListingScanned,
            outcome: GattOutcomeModel::Nothing,
            failure: None,
        },
        GattStage::ListingScanned,
    )
}

/// The rules of a command: what each reply does at each stage.
///
/// The peripheral is the scan result that stands for the device, or else
/// the paired peripheral that does: in either listing the first that
/// reports the device's identifier, and only where none reports it, the
/// first that reports the recorded address. A listing that fails counts as
/// empty. A read and a write connect a peripheral that reports itself
/// disconnected and go on whatever the connect call returns. A failing
/// stack call ends the command with the stack's error; a failing
/// unsubscribe call does not count. A reply that the stage does not expect
/// changes nothing and repeats the pending request.
pub open spec fn gatt_step(m: GattModel, reply: StackReplyModel) -> GattStep {
    match (m.stage, reply) {
        (GattStage::ListingScanned, StackReplyModel::Listing(listed)) => match found_in(m, listed) {
            Some(i) => gatt_found(m, Target { tier: Tier::Scanned, index: i as usize }),
            None => gatt_at(m, GattStage::ListingPaired),
        },
        (GattStage::ListingPaired, StackReplyModel::Listing(listed)) => match found_in(m, listed) {
            Some(i) => gatt_found(m, Target { tier: Tier::Paired, index: i as usize }),
            None => gatt_not_found(m),
        },
        (GattStage::Probing(t), StackReplyModel::Connection(state)) => if state == Ok::<bool, Seq<char>>(false) {
            gatt_at(m, GattStage::Connecting(t))
        } else {
            gatt_at(m, working_stage(m.operation, t))
        },
        (GattStage::Connecting(t), StackReplyModel::Completed(_)) => gatt_at(m, working_stage(m.operation, t)),
        (GattStage::Reading { target, form, failures }, StackReplyModel::Value(read)) => match read {
            Ok(bytes) => gatt_finished(m, GattOutcomeModel::Value(hex_text(bytes, true))),
            Err(_) => after_failed_read(m, target, form, failures),
        },
        (GattStage::Operating(_), _) => after_request(m, reply),
        _ => (m, gatt_pending(m.operation, m.stage)),
    }
}

/// Whether a command's state is consistent: a failure is held exactly where
/// the command failed, and a read has failed at most twice in the form at
/// hand.
pub open spec fn gatt_wf(m: GattModel) -> bool {
    &&& (m.stage is Failed) == (m.failure is Some)
    &&& m.stage matches GattStage::Reading { failures, .. } ==> failures <= 2
}

/// One command on a device's GATT services.
pub struct GattFlow {
    device_id: String,
    recorded: Option<String>,
    operation: Operation,
    stage: GattStage,
    outcome: GattOutcome,
    failure: Option<BleError>,
}

impl View for GattFlow {
    type V = GattModel;

    closed spec fn view(&self) -> GattModel {
        GattModel {
            device_id: self.device_id@,
            recorded: self.recorded.deep_view(),
            operation: self.operation,
            stage: self.stage,
            outcome: self.outcome@,
            failure: self.failure.deep_view(),
        }
    }
}

impl GattFlow {
    /// The flow's invariant.
    pub open spec fn wf(&self) -> bool {
        gatt_wf(self@)
    }

    /// Starts a command on a device. The address for matching is the one
    /// that the registry has recorded for the device.
    pub fn begin(device_id: &str, registry: &DeviceRegistry, operation: Operation) -> (out: (
        GattFlow,
        StackRequest,
    ))
        requires
            registry.wf(),
        ensures
            (out.0@, Some(out.1)) == gatt_begin(device_id@, recorded_address(registry@, device_id@), operation),
            out.0.wf(),
    {
        let flow = GattFlow {
            device_id: String::from_str(device_id),
            recorded: registry.address_of(device_id),
            operation,
            stage: GattStage::ListingScanned,
            outcome: GattOutcome::Nothing,
            failure: None,
        };
        (flow, StackRequest::ListScanResults)
    }

    /// Whether the command is over.
    pub fn is_over(&self) -> (over: bool)
        ensures
            over == (self@.stage is Finished || self@.stage is Failed),
    {
        match self.stage {
            GattStage::Finished => true,
            GattStage::Failed => true,
            _ => false,
        }
    }

    fn request_for(operation: Operation, target: Target) -> (request: StackRequest)
        ensures
            request == request_of(operation, target),
    {
        match operation {
            Operation::ListServices => StackRequest::ListServices(target),
            Operation::Read => StackRequest::Read { target, form: UuidForm::AsGiven, pause_ms: 0 },
            Operation::Write(kind) => StackRequest::Write { target, kind },
            Operation::Subscribe(mode) => StackRequest::Subscribe { target, mode },
            Operation::Unsubscribe => StackRequest::Unsubscribe { target },
            Operation::QueryMtu => StackRequest::QueryMtu(target),
        }
    }

    fn is_read(&self) -> (yes: bool)
        ensures
            yes == (self@.operation is Read),
    {
        match self.operation {
            Operation::Read => true,
            _ => false,
        }
    }

    fn pending(&self) -> (request: Option<StackRequest>)
        ensures
            request == gatt_pending(self@.operation, self@.stage),
    {
        match self.stage {
            GattStage::ListingScanned => Some(StackRequest::ListScanResults),
            GattStage::ListingPaired => Some(StackRequest::ListPaired),
            GattStage::Probing(t) => Some(StackRequest::QueryConnection(t)),
            GattStage::Connecting(t) => {
                let settle_ms: u64 = if self.is_read() {
                    READ_CONNECT_SETTLE_MS
                } else {
                    0
                };
                Some(StackRequest::Connect { target: t, settle_ms })
            },
            GattStage::Reading { target, form, failures } => {
                let pause_ms: u64 = if failures == 0 {
                    0
                } else {
                    READ_RETRY_PAUSE_MS
                };
                Some(StackRequest::Read { target, form, pause_ms })
            },
            GattStage::Operating(t) => Some(Self::request_for(self.operation, t)),
            GattStage::Finished => None,
            GattStage::Failed => None,
        }
    }

    fn go(&mut self, stage: GattStage) -> (request: Option<StackRequest>)
        requires
            !(stage is Failed),
            stage matches GattStage::Reading { failures, .. } ==> failures <= 2,
            old(self).failure is None,
        ensures
            (final(self)@, request) == gatt_at(old(self)@, stage),
            final(self).wf(),
    {
        self.stage = stage;
        self.pending()
    }

    fn fail(&mut self, error: BleError) -> (request: Option<StackRequest>)
        ensures
            (final(self)@, request) == gatt_failed(old(self)@, error@),
            final(self).wf(),
    {
        self.stage = GattStage::Failed;
        self.failure = Some(error);
        None
    }

    fn finish(&mut self, outcome: GattOutcome) -> (request: Option<StackRequest>)
        requires
            old(self).failure is None,
        ensures
            (final(self)@, request) == gatt_finished(old(self)@, outcome@),
            final(self).wf(),
    {
        self.stage = GattStage::Finished;
        self.outcome = outcome;
        None
    }

    fn work(&mut self, target: Target) -> (request: Option<StackRequest>)
        requires
            old(self).failure is None,
        ensures
            (final(self)@, request) == gatt_at(old(self)@, working_stage(old(self)@.operation, target)),
            final(self).wf(),
    {
        if self.is_read() {
            self.go(GattStage::Reading { target, form: UuidForm::AsGiven, failures: 0 })
        } else {
            self.go(GattStage::Operating(target))
        }
    }

    fn found(&mut self, target: Target) -> (request: Option<StackRequest>)
        requires
            old(self).failure is None,
        ensures
            (final(self)@, request) == gatt_found(old(self)@, target),
            final(self).wf(),
    {
        let connects = match self.operation {
            Operation::Read => true,
            Operation::Write(_) => true,
            _ => false,
        };
        if connects {
            self.go(GattStage::Probing(target))
        } else {
            self.work(target)
        }
    }

    fn not_found(&mut self) -> (request: Option<StackRequest>)
        requires
            old(self).failure is None,
        ensures
            (final(self)@, request) == gatt_not_found(old(self)@),
            final(self).wf(),
    {
        match self.operation {
            Operation::Unsubscribe => self.finish(GattOutcome::Nothing),
            Operation::ListServices => {
                let error = BleError::not_found(self.device_id.as_str(), Guidance::ScanOrConnect);
                self.fail(error)
            },
            Operation::Read => {
                let error = BleError::not_found(self.device_id.as_str(), Guidance::ScanOrConnect);
                self.fail(error)
            },
            _ => {
                let error = BleError::not_found(self.device_id.as_str(), Guidance::Plain);
                self.fail(error)
            },
        }
    }

    fn search(&self, listed: &Result<Vec<PeripheralInfo>, String>) -> (at: Option<usize>)
        ensures
            match at {
                Some(i) => Some(i as int) == found_in(
                    self@,
                    match listed {
                        Ok(listing) => Ok(listing.deep_view()),
                        Err(cause) => Err(cause@),
                    },
                ),
                None => found_in(
                    self@,
                    match listed {
                        Ok(listing) => Ok(listing.deep_view()),
                        Err(cause) => Err(cause@),
                    },
                ) is None,
            },
    {
        match listed {
            Ok(listing) => find_peripheral(listing, self.device_id.as_str(), &self.recorded),
            Err(_) => None,
        }
    }

    fn read_failed(&mut self, target: Target, form: UuidForm, failures: u8) -> (request: Option<StackRequest>)
        requires
            old(self).failure is None,
        ensures
            (final(self)@, request) == after_failed_read(old(self)@, target, form, failures),
            final(self).wf(),
    {
        if failures < READ_ATTEMPTS - 1 {
            self.go(GattStage::Reading { target, form, failures: failures + 1 })
        } else {
            match form {
                UuidForm::AsGiven => self.go(GattStage::Reading { target, form: UuidForm::Full, failures: 0 }),
                UuidForm::Full => self.go(GattStage::Reading { target, form: UuidForm::Short, failures: 0 }),
                UuidForm::Short => self.fail(BleError::ReadExhausted),
            }
        }
    }

    fn requested(&mut self, reply: StackReply) -> (request: Option<StackRequest>)
        requires
            old(self).failure is None,
            old(self).wf(),
        ensures
            (final(self)@, request) == after_request(old(self)@, reply@),
            final(self).wf(),
    {
        match (self.operation, reply) {
            (Operation::ListServices, StackReply::Services(Ok(services))) => {
                let listed = describe_services(&services);
                self.finish(GattOutcome::Services(listed))
            },
            (Operation::ListServices, StackReply::Services(Err(cause))) => {
                self.fail(BleError::stack(StackCall::Services, cause))
            },
            (Operation::Write(_), StackReply::Completed(Ok(_))) => self.finish(GattOutcome::Nothing),
            (Operation::Write(WriteKind::Request), StackReply::Completed(Err(cause))) => {
                self.fail(BleError::stack(StackCall::WriteRequest, cause))
            },
            (Operation::Write(WriteKind::Command), StackReply::Completed(Err(cause))) => {
                self.fail(BleError::stack(StackCall::WriteCommand, cause))
            },
            (Operation::Subscribe(_), StackReply::Completed(Ok(_))) => self.finish(GattOutcome::Nothing),
            (Operation::Subscribe(SubscriptionKind::Notify), StackReply::Completed(Err(cause))) => {
                self.fail(BleError::stack(StackCall::Notify, cause))
            },
            (Operation::Subscribe(SubscriptionKind::Indicate), StackReply::Completed(Err(cause))) => {
                self.fail(BleError::stack(StackCall::Indicate, cause))
            },
            (Operation::Unsubscribe, StackReply::Completed(_)) => self.finish(GattOutcome::Nothing),
            (Operation::QueryMtu, StackReply::Mtu(Ok(mtu))) => self.finish(GattOutcome::Mtu(mtu)),
            (Operation::QueryMtu, StackReply::Mtu(Err(cause))) => self.fail(BleError::stack(StackCall::Mtu, cause)),
            _ => self.pending(),
        }
    }

    /// Takes the stack's reply to the pending request and names the next
    /// request; none where the command is over.
    pub fn step(&mut self, reply: StackReply) -> (request: Option<StackRequest>)
        requires
            old(self).wf(),
        ensures
            (final(self)@, request) == gatt_step(old(self)@, reply@),
            final(self).wf(),
    {
        match (self.stage, reply) {
            (GattStage::ListingScanned, StackReply::Listing(listed)) => {
                match self.search(&listed) {
                    Some(i) => self.found(Target { tier: Tier::Scanned, index: i }),
                    None => self.go(GattStage::ListingPaired),
                }
            },
            (GattStage::ListingPaired, StackReply::Listing(listed)) => {
                match self.search(&listed) {
                    Some(i) => self.found(Target { tier: Tier::Paired, index: i }),
                    None => self.not_found(),
                }
            },
            (GattStage::Probing(t), StackReply::Connection(state)) => {
                let disconnected = match state {
                    Ok(connected) => !connected,
                    Err(_) => false,
                };
                if disconnected {
                    self.go(GattStage::Connecting(t))
                } else {
                    self.work(t)
                }
            },
            (GattStage::Connecting(t), StackReply::Completed(_)) => self.work(t),
            (GattStage::Reading { target, form, failures }, StackReply::Value(read)) => match read {
                Ok(bytes) => self.finish(GattOutcome::Value(value_text(&bytes))),
                Err(_) => self.read_failed(target, form, failures),
            },
            (GattStage::Operating(_), reply) => self.requested(reply),
            _ => self.pending(),
        }
    }

    /// Ends the flow: hands back what the command came to, or nothing while
    /// it is not over.
    pub fn conclude(self) -> (result: Option<Result<GattOutcome, BleError>>)
        requires
            self.wf(),
        ensures
            match self@.stage {
                GattStage::Finished => result matches Some(Ok(outcome)) && outcome@ == self@.outcome,
                GattStage::Failed => result matches Some(Err(error)) && Some(error@) == self@.failure,
                _ => result is None,
            },
    {
        match self.stage {
            GattStage::Finished => Some(Ok(self.outcome)),
            GattStage::Failed => {
                match self.failure {
                    Some(error) => Some(Err(error)),
                    None => None,
                }
            },
            _ => None,
        }
    }
}

/// A read falls back from the form as given to the full form.
///
/// Let a read stand before its first attempt, and let the stack refuse the
/// UUIDs as given three times. Then the read was tried twice more in that
/// form, each time after the pause, and moves on to the full form at once;
/// if the stack answers that attempt, the read ends with the value in
/// uppercase hexadecimal.
pub proof fn lemma_read_falls_back(
    m: GattModel,
    target: Target,
    refusals: Seq<Seq<char>>,
    bytes: Seq<u8>,
)
    requires
        gatt_wf(m),
        m.stage == (GattStage::Reading { target, form: UuidForm::AsGiven, failures: 0 }),
        refusals.len() == 3,
    ensures
        ({
            let first = gatt_step(m, StackReplyModel::Value(Err(refusals[0])));
            let second = gatt_step(first.0, StackReplyModel::Value(Err(refusals[1])));
            let third = gatt_step(second.0, StackReplyModel::Value(Err(refusals[2])));
            let fourth = gatt_step(third.0, StackReplyModel::Value(Ok(bytes)));
            &&& first.1 == Some(StackRequest::Read { target, form: UuidForm::AsGiven, pause_ms: 120 })
            &&& second.1 == Some(StackRequest::Read { target, form: UuidForm::AsGiven, pause_ms: 120 })
            &&& third.1 == Some(StackRequest::Read { target, form: UuidForm::Full, pause_ms: 0 })
            &&& fourth.1 is None
            &&& fourth.0.stage is Finished
            &&& fourth.0.outcome == GattOutcomeModel::Value(hex_text(bytes, true))
        }),
{
}

/// A read is given up after nine refusals, and not before.
///
/// However a read goes, a refusal ends it only at the third attempt in the
/// short form, and then with the error that says all forms were tried; any
/// value ends it in success.
pub proof fn lemma_read_gives_up_last(m: GattModel, target: Target, form: UuidForm, failures: u8, cause: Seq<char>)
    requires
        gatt_wf(m),
        m.stage == (GattStage::Reading { target, form, failures }),
    ensures
        ({
            let after = gatt_step(m, StackReplyModel::Value(Err(cause))).0;
            &&& gatt_wf(after)
            &&& after.stage is Failed <==> (form is Short && failures == 2)
            &&& after.stage is Failed ==> after.failure == Some(BleErrorModel::ReadExhausted)
            &&& !(after.stage is Finished)
        }),
{
}

/// Scan results come before the paired list.
///
/// A command takes the scan result that stands for its device and then
/// does not ask for the paired list. Only where the scan results hold none,
/// or could not be listed, it asks for the paired list and takes the paired
/// peripheral that stands for the device; where that list holds none
/// either, or could not be listed, the device is not found.
pub proof fn lemma_scan_results_come_first(
    device_id: Seq<char>,
    recorded: Option<Seq<char>>,
    operation: Operation,
    scanned: Result<Listing, Seq<char>>,
    paired: Result<Listing, Seq<char>>,
)
    ensures
        ({
            let first = gatt_begin(device_id, recorded, operation);
            let second = gatt_step(first.0, StackReplyModel::Listing(scanned));
            let third = gatt_step(second.0, StackReplyModel::Listing(paired));
            &&& first.1 == Some(StackRequest::ListScanResults)
            &&& match found_in(first.0, scanned) {
                Some(i) => second == gatt_found(first.0, Target { tier: Tier::Scanned, index: i as usize })
                    && second.1 != Some(StackRequest::ListPaired),
                None => second.1 == Some(StackRequest::ListPaired) && match found_in(first.0, paired) {
                    Some(j) => third == gatt_found(second.0, Target { tier: Tier::Paired, index: j as usize }),
                    None => third == gatt_not_found(second.0),
                },
            }
        }),
{
}

/// The place of a form among the three forms of a UUID.
pub open spec fn form_rank(form: UuidForm) -> int {
    match form {
        UuidForm::AsGiven => 0,
        UuidForm::Full => 1,
        UuidForm::Short => 2,
    }
}

/// The number of requests that a command puts to the stack at most before
/// it is over.
pub open spec fn requests_left(stage: GattStage) -> int {
    match stage {
        GattStage::ListingScanned => 13,
        GattStage::ListingPaired => 12,
        GattStage::Probing(_) => 11,
        GattStage::Connecting(_) => 10,
        GattStage::Reading { form, failures, .. } => 9 - 3 * form_rank(form) - failures,
        GattStage::Operating(_) => 1,
        GattStage::Finished => 0,
        GattStage::Failed => 0,
    }
}

/// Whether a reply is of the kind that a command waits for at a stage.
pub open spec fn gatt_expects(operation: Operation, stage: GattStage, reply: StackReplyModel) -> bool {
    match stage {
        GattStage::ListingScanned => reply is Listing,
        GattStage::ListingPaired => reply is Listing,
        GattStage::Probing(_) => reply is Connection,
        GattStage::Connecting(_) => reply is Completed,
        GattStage::Reading { .. } => reply is Value,
        GattStage::Operating(_) => match operation {
            Operation::ListServices => reply is Services,
            Operation::Read => false,
            Operation::Write(_) => reply is Completed,
            Operation::Subscribe(_) => reply is Completed,
            Operation::Unsubscribe => reply is Completed,
            Operation::QueryMtu => reply is Mtu,
        },
        GattStage::Finished => false,
        GattStage::Failed => false,
    }
}

/// Every command ends, a read after nine attempts at most.
///
/// Each reply of the kind that the command waits for lowers the number of
/// requests that it may still make, which is thirteen at the start and
/// never negative; a read that stands before its first attempt has nine
/// left.
pub proof fn lemma_command_advances(m: GattModel, reply: StackReplyModel)
    requires
        gatt_wf(m),
        gatt_expects(m.operation, m.stage, reply),
    ensures
        gatt_wf(gatt_step(m, reply).0),
        0 <= requests_left(gatt_step(m, reply).0.stage) < requests_left(m.stage),
        gatt_step(m, reply).1 is None <==> requests_left(gatt_step(m, reply).0.stage) == 0,
{
}

/// A command acts on the peripheral that reports the device's identifier.
///
/// Let a scan result report the identifier of the command's device, the
/// first of them at place `i`. Then the command goes on with that scan
/// result, whatever addresses the scan results before it report and
/// whatever address is recorded for the device. Where no scan result
/// reports the identifier, the same holds of the paired list.
pub proof fn lemma_command_goes_by_identifier(
    device_id: Seq<char>,
    recorded: Option<Seq<char>>,
    operation: Operation,
    scanned: Listing,
    paired: Listing,
    i: int,
)
    requires
        scanned.len() <= usize::MAX,
        paired.len() <= usize::MAX,
    ensures
        ({
            let first = gatt_begin(device_id, recorded, operation);
            let second = gatt_step(first.0, StackReplyModel::Listing(Ok(scanned)));
            let third = gatt_step(second.0, StackReplyModel::Listing(Ok(paired)));
            &&& (0 <= i < scanned.len() && scanned[i].identifier == Some(device_id) && (forall|j: int|
                0 <= j < i ==> (#[trigger] scanned[j]).identifier != Some(device_id))) ==> second == gatt_found(
                first.0,
                Target { tier: Tier::Scanned, index: i as usize },
            )
            &&& (resolved(scanned, device_id, recorded) is None && 0 <= i < paired.len() && paired[i].identifier
                == Some(device_id) && (forall|j: int|
                0 <= j < i ==> (#[trigger] paired[j]).identifier != Some(device_id))) ==> third == gatt_found(
                second.0,
                Target { tier: Tier::Paired, index: i as usize },
            )
        }),
{
    lemma_identifier_comes_first(scanned, device_id, recorded);
    lemma_identifier_comes_first(paired, device_id, recorded);
}

} // verus!
