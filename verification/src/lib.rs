//! Session and scan orchestration for Bluetooth Low Energy devices.
//!
//! The crate holds the decisions of a BLE host application: how sightings are
//! merged into a device registry, how a device identifier is matched against
//! the peripherals a radio stack reports, how a scan session heals itself, and
//! how connect, disconnect, read and subscribe proceed step by step. It performs
//! no I/O: every flow is a state machine that names the next stack request and
//! takes the stack's reply as a plain value.
//!
//! * [`registry`] keeps one record for each device seen, fed by [`advert`].
//! * [`scan`] is the scan session with its health check and restarts.
//! * [`resolver`] matches a device identifier against a stack listing.
//! * [`connection`] holds the connect, disconnect and connection check flows.
//! * [`gatt`] holds the commands on services and characteristics, with
//!   [`uuid`] for the forms of a UUID and [`payload`] for the data of a write.
//! * [`subscriptions`] keeps the running subscriptions, [`adapter`] the
//!   adapter to work with, [`table`] the keyed table under both caches.
//! * [`errors`] names what a command can fail with, and the text for it.
//! * [`device`] and [`stack`] hold the records and the requests and replies
//!   that cross the crate's boundary; [`hexcode`], [`text`] and [`lookup`]
//!   are the helpers underneath.

pub mod adapter;
pub mod advert;
pub mod connection;
pub mod device;
pub mod errors;
pub mod gatt;
pub mod hexcode;
pub mod lookup;
pub mod payload;
pub mod registry;
pub mod resolver;
pub mod scan;
pub mod stack;
pub mod subscriptions;
pub mod table;
pub mod text;
pub mod uuid;

pub use crate::device::{BleAdapter, BleDevice, GattCharacteristic, GattService};
pub use crate::errors::BleError;
pub use crate::payload::parse_data_string;
pub use crate::subscriptions::make_key;
