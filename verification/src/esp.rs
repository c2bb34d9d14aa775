//! The ESP32 light: a device whose link is managed like any other, but
//! which has no command path yet. It takes every event and writes nothing.

use vstd::prelude::*;
use crate::address::{DeviceAddress, Uuid};
use crate::connection::Connection;
use crate::device::LedDevice;
use crate::event::{Event, EventView};
use crate::protocol::{Command, CommandView, Reply, ReplyView};

verus! {

/// An ESP32 light: its connection, and nothing else.
#[derive(Clone, Copy, Debug, PartialEq, Eq, Structural)]
pub struct EspLed {
    pub connection: Connection,
}

impl EspLed {
    /// The light at `addr`, whose commands would go to the characteristic
    /// `characteristic_uuid` of the service `service_uuid`. It starts out
    /// disconnected.
    pub fn new(addr: DeviceAddress, service_uuid: Uuid, characteristic_uuid: Uuid) -> (device:
        EspLed)
        ensures
            device == (EspLed {
                connection: Connection::new_spec(addr, service_uuid, characteristic_uuid),
            }),
    {
        EspLed { connection: Connection::new(addr, service_uuid, characteristic_uuid) }
    }
}

impl LedDevice for EspLed {
    open spec fn connect_spec(self) -> (EspLed, CommandView) {
        (EspLed { connection: self.connection.connect_spec().0 }, self.connection.connect_spec().1)
    }

    open spec fn disconnect_spec(self) -> (EspLed, CommandView) {
        (
            EspLed { connection: self.connection.disconnect_spec().0 },
            self.connection.disconnect_spec().1,
        )
    }

    open spec fn on_event_spec(self, event: EventView) -> (EspLed, CommandView) {
        (self, CommandView::Idle)
    }

    open spec fn resume_spec(self, reply: ReplyView) -> (EspLed, CommandView) {
        (
            EspLed { connection: self.connection.resume_spec(reply).0 },
            self.connection.resume_spec(reply).1,
        )
    }

    fn connect(&mut self) -> (command: Command) {
        self.connection.connect()
    }

    fn disconnect(&mut self) -> (command: Command) {
        self.connection.disconnect()
    }

    fn on_event(&mut self, event: Event) -> (command: Command) {
        Command::Idle
    }

    fn resume(&mut self, reply: Reply) -> (command: Command) {
        self.connection.resume(reply)
    }
}

} // verus!
