//! Control of Bluetooth Low Energy LED fixtures: the command codec, the
//! connection state machine, the keep-alive job and the dispatch over the
//! known kinds of device.
//!
//! The library performs no I/O. Every operation on a device answers with a
//! [`Command`] for the caller to carry out on the radio, and takes the
//! outcome back as a [`Reply`].

pub mod address;
pub mod codec;
pub mod connection;
pub mod device;
pub mod error;
pub mod esp;
pub mod event;
pub mod gatt;
pub mod govee;
pub mod keep_alive;
pub mod peripheral;
pub mod protocol;
pub mod registry;

pub use address::{DeviceAddress, Uuid};
pub use device::{Devices, LedDevice, Other};
pub use error::{DeviceError, Target};
pub use event::{Event, SetLedEvent};
pub use protocol::{AdapterEvent, Command, Heartbeat, Reply};
pub use registry::DevicesState;
