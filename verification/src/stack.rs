//! The requests that a flow puts to the radio stack, and the stack's
//! replies as plain values.
//!
//! A flow never touches the stack. It names a request; the caller performs
//! it on the peripheral that the request's target denotes and hands the
//! reply back.

use vstd::prelude::*;
use crate::resolver::{Listing, PeripheralInfo};

verus! {

/// Where a peripheral handle comes from.
#[derive(Debug, Clone, Copy, PartialEq, Eq, Structural)]
pub enum Tier {
    /// The cache of connected peripherals.
    Cached,
    /// The stack's list of paired peripherals.
    Paired,
    /// The stack's current scan results.
    Scanned,
}

/// A peripheral handle: a tier, and the place in the listing last taken from
/// that tier. For the cache the place is zero: the handle kept under the
/// device identifier.
#[derive(Debug, Clone, Copy, PartialEq, Eq, Structural)]
pub struct Target {
    pub tier: Tier,
    pub index: usize,
}

/// How a characteristic is written.
#[derive(Debug, Clone, Copy, PartialEq, Eq, Structural)]
pub enum WriteKind {
    /// With response.
    Request,
    /// Without response.
    Command,
}

/// How value changes of a characteristic are delivered.
#[derive(Debug, Clone, Copy, PartialEq, Eq, Structural)]
pub enum SubscriptionKind {
    Notify,
    Indicate,
}

/// The three forms in which a UUID is tried.
#[derive(Debug, Clone, Copy, PartialEq, Eq, Structural)]
pub enum UuidForm {
    /// As the caller gave it.
    AsGiven,
    /// Expanded to 128 bits.
    Full,
    /// Compressed to 16 bits.
    Short,
}

/// A request to the stack.
#[derive(Debug, Clone, Copy, PartialEq, Eq, Structural)]
pub enum StackRequest {
    /// List the current scan results; reply with `Listing`.
    ListScanResults,
    /// List the paired peripherals; reply with `Listing`.
    ListPaired,
    /// Ask the peripheral whether it is connected; reply with `Connection`.
    QueryConnection(Target),
    /// Connect the peripheral, then wait `settle_ms` milliseconds whatever
    /// came of it; reply with `Completed`.
    Connect { target: Target, settle_ms: u64 },
    /// Disconnect the peripheral and, if that succeeds, wait `settle_ms`
    /// milliseconds; reply with `Completed`.
    Disconnect { target: Target, settle_ms: u64 },
    /// List the peripheral's services; reply with `Services`.
    ListServices(Target),
    /// Wait `pause_ms` milliseconds, then read the characteristic with the
    /// UUIDs in the given form; reply with `Value`.
    Read { target: Target, form: UuidForm, pause_ms: u64 },
    /// Write the payload to the characteristic; reply with `Completed`.
    Write { target: Target, kind: WriteKind },
    /// Open the stream of value changes; reply with `Completed`.
    Subscribe { target: Target, mode: SubscriptionKind },
    /// Close the stream of value changes; reply with `Completed`.
    Unsubscribe { target: Target },
    /// Ask for the negotiated MTU; reply with `Mtu`.
    QueryMtu(Target),
}

/// What a stack reports of one characteristic.
#[derive(Debug, Clone)]
pub struct CharacteristicInfo {
    pub uuid: String,
    pub can_read: bool,
    pub can_write_request: bool,
    pub can_write_command: bool,
    pub can_notify: bool,
    pub can_indicate: bool,
}

/// Model of a [`CharacteristicInfo`].
pub struct CharacteristicInfoModel {
    pub uuid: Seq<char>,
    pub can_read: bool,
    pub can_write_request: bool,
    pub can_write_command: bool,
    pub can_notify: bool,
    pub can_indicate: bool,
}

impl View for CharacteristicInfo {
    type V = CharacteristicInfoModel;

    open spec fn view(&self) -> CharacteristicInfoModel {
        CharacteristicInfoModel {
            uuid: self.uuid@,
            can_read: self.can_read,
            can_write_request: self.can_write_request,
            can_write_command: self.can_write_command,
            can_notify: self.can_notify,
            can_indicate: self.can_indicate,
        }
    }
}

impl DeepView for CharacteristicInfo {
    type V = CharacteristicInfoModel;

    open spec fn deep_view(&self) -> CharacteristicInfoModel {
        self@
    }
}

/// What a stack reports of one service.
#[derive(Debug, Clone)]
pub struct ServiceInfo {
    pub uuid: String,
    pub characteristics: Vec<CharacteristicInfo>,
}

/// Model of a [`ServiceInfo`].
pub struct ServiceInfoModel {
    pub uuid: Seq<char>,
    pub characteristics: Seq<CharacteristicInfoModel>,
}

impl View for ServiceInfo {
    type V = ServiceInfoModel;

    open spec fn view(&self) -> ServiceInfoModel {
        ServiceInfoModel { uuid: self.uuid@, characteristics: self.characteristics.deep_view() }
    }
}

impl DeepView for ServiceInfo {
    type V = ServiceInfoModel;

    open spec fn deep_view(&self) -> ServiceInfoModel {
        self@
    }
}

/// Model of a [`StackReply`].
pub enum StackReplyModel {
    Listing(Result<Listing, Seq<char>>),
    Connection(Result<bool, Seq<char>>),
    Completed(Result<(), Seq<char>>),
    Services(Result<Seq<ServiceInfoModel>, Seq<char>>),
    Value(Result<Seq<u8>, Seq<char>>),
    Mtu(Result<u16, Seq<char>>),
}

/// The stack's reply to a request. An error carries the stack's error text.
#[derive(Debug)]
pub enum StackReply {
    /// The peripherals of a listing, each with what it reported of itself.
    Listing(Result<Vec<PeripheralInfo>, String>),
    /// Whether the peripheral is connected.
    Connection(Result<bool, String>),
    /// The call was carried out.
    Completed(Result<(), String>),
    /// The services of the peripheral.
    Services(Result<Vec<ServiceInfo>, String>),
    /// The bytes read.
    Value(Result<Vec<u8>, String>),
    /// The negotiated MTU.
    Mtu(Result<u16, String>),
}

impl View for StackReply {
    type V = StackReplyModel;

    open spec fn view(&self) -> StackReplyModel {
        match self {
            StackReply::Listing(r) => StackReplyModel::Listing(
                match r {
                    Ok(listing) => Ok(listing.deep_view()),
                    Err(cause) => Err(cause@),
                },
            ),
            StackReply::Connection(r) => StackReplyModel::Connection(
                match r {
                    Ok(connected) => Ok(*connected),
                    Err(cause) => Err(cause@),
                },
            ),
            StackReply::Completed(r) => StackReplyModel::Completed(
                match r {
                    Ok(_) => Ok(()),
                    Err(cause) => Err(cause@),
                },
            ),
            StackReply::Services(r) => StackReplyModel::Services(
                match r {
                    Ok(services) => Ok(services.deep_view()),
                    Err(cause) => Err(cause@),
                },
            ),
            StackReply::Value(r) => StackReplyModel::Value(
                match r {
                    Ok(bytes) => Ok(bytes@),
                    Err(cause) => Err(cause@),
                },
            ),
            StackReply::Mtu(r) => StackReplyModel::Mtu(
                match r {
                    Ok(mtu) => Ok(*mtu),
                    Err(cause) => Err(cause@),
                },
            ),
        }
    }
}

} // verus!
