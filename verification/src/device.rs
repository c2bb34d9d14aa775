//! What every device can do, and the dispatch over the kinds of device.

use vstd::prelude::*;
use crate::esp::EspLed;
use crate::event::{Event, EventView};
use crate::govee::GoveeLed;
use crate::protocol::{Command, CommandView, Reply, ReplyView};

verus! {

/// The operations of a device.
///
/// Each operation changes the device and answers with the command that the
/// driver is to carry out. The four `_spec` functions say what each
/// operation does; the operations themselves do exactly that.
pub trait LedDevice: Sized {
    /// The device after `connect`, and the command it answers with.
    spec fn connect_spec(self) -> (Self, CommandView);

    /// The device after `disconnect`, and the command it answers with.
    spec fn disconnect_spec(self) -> (Self, CommandView);

    /// The device after `on_event`, and the command it answers with.
    spec fn on_event_spec(self, event: EventView) -> (Self, CommandView);

    /// The device after `resume`, and the command it answers with.
    spec fn resume_spec(self, reply: ReplyView) -> (Self, CommandView);

    /// Starts bringing the device to a state in which it takes commands.
    fn connect(&mut self) -> (command: Command)
        ensures
            (*final(self), command@) == old(self).connect_spec(),
    ;

    /// Lets go of the link to the device.
    fn disconnect(&mut self) -> (command: Command)
        ensures
            (*final(self), command@) == old(self).disconnect_spec(),
    ;

    /// Asks the device to act on an event.
    fn on_event(&mut self, event: Event) -> (command: Command)
        ensures
            (*final(self), command@) == old(self).on_event_spec(event@),
    ;

    /// Takes the outcome of the last command and answers with the next one.
    fn resume(&mut self, reply: Reply) -> (command: Command)
        ensures
            (*final(self), command@) == old(self).resume_spec(reply@),
    ;
}

/// A device of no known kind. It takes every event, does nothing with it,
/// and every operation on it succeeds at once.
#[derive(Clone, Copy, Debug, PartialEq, Eq, Structural)]
pub struct Other {}

impl Other {
    pub fn new() -> (device: Other)
        ensures
            device == (Other {  }),
    {
        Other {  }
    }
}

impl LedDevice for Other {
    open spec fn connect_spec(self) -> (Other, CommandView) {
        (self, CommandView::Idle)
    }

    open spec fn disconnect_spec(self) -> (Other, CommandView) {
        (self, CommandView::Idle)
    }

    open spec fn on_event_spec(self, event: EventView) -> (Other, CommandView) {
        (self, CommandView::Idle)
    }

    open spec fn resume_spec(self, reply: ReplyView) -> (Other, CommandView) {
        (self, CommandView::Ignored)
    }

    fn connect(&mut self) -> (command: Command) {
        Command::Idle
    }

    fn disconnect(&mut self) -> (command: Command) {
        Command::Idle
    }

    fn on_event(&mut self, event: Event) -> (command: Command) {
        Command::Idle
    }

    fn resume(&mut self, reply: Reply) -> (command: Command) {
        Command::Ignored
    }
}

/// A device of any of the known kinds.
#[derive(Clone, Copy, Debug, PartialEq, Eq, Structural)]
pub enum Devices {
    Govee(GoveeLed),
    Esp(EspLed),
    Other(Other),
}

impl LedDevice for Devices {
    open spec fn connect_spec(self) -> (Devices, CommandView) {
        match self {
            Devices::Govee(device) => (
                Devices::Govee(device.connect_spec().0),
                device.connect_spec().1,
            ),
            Devices::Esp(device) => (
                Devices::Esp(device.connect_spec().0),
                device.connect_spec().1,
            ),
            Devices::Other(device) => (
                Devices::Other(device.connect_spec().0),
                device.connect_spec().1,
            ),
        }
    }

    open spec fn disconnect_spec(self) -> (Devices, CommandView) {
        match self {
            Devices::Govee(device) => (
                Devices::Govee(device.disconnect_spec().0),
                device.disconnect_spec().1,
            ),
            Devices::Esp(device) => (
                Devices::Esp(device.disconnect_spec().0),
                device.disconnect_spec().1,
            ),
            Devices::Other(device) => (
                Devices::Other(device.disconnect_spec().0),
                device.disconnect_spec().1,
            ),
        }
    }

    open spec fn on_event_spec(self, event: EventView) -> (Devices, CommandView) {
        match self {
            Devices::Govee(device) => (
                Devices::Govee(device.on_event_spec(event).0),
                device.on_event_spec(event).1,
            ),
            Devices::Esp(device) => (
                Devices::Esp(device.on_event_spec(event).0),
                device.on_event_spec(event).1,
            ),
            Devices::Other(device) => (
                Devices::Other(device.on_event_spec(event).0),
                device.on_event_spec(event).1,
            ),
        }
    }

    open spec fn resume_spec(self, reply: ReplyView) -> (Devices, CommandView) {
        match self {
            Devices::Govee(device) => (
                Devices::Govee(device.resume_spec(reply).0),
                device.resume_spec(reply).1,
            ),
            Devices::Esp(device) => (
                Devices::Esp(device.resume_spec(reply).0),
                device.resume_spec(reply).1,
            ),
            Devices::Other(device) => (
                Devices::Other(device.resume_spec(reply).0),
                device.resume_spec(reply).1,
            ),
        }
    }

    fn connect(&mut self) -> (command: Command) {
        match self {
            Devices::Govee(device) => device.connect(),
            Devices::Esp(device) => device.connect(),
            Devices::Other(device) => device.connect(),
        }
    }

    fn disconnect(&mut self) -> (command: Command) {
        match self {
            Devices::Govee(device) => device.disconnect(),
            Devices::Esp(device) => device.disconnect(),
            Devices::Other(device) => device.disconnect(),
        }
    }

    fn on_event(&mut self, event: Event) -> (command: Command) {
        match self {
            Devices::Govee(device) => device.on_event(event),
            Devices::Esp(device) => device.on_event(event),
            Devices::Other(device) => device.on_event(event),
        }
    }

    fn resume(&mut self, reply: Reply) -> (command: Command) {
        match self {
            Devices::Govee(device) => device.resume(reply),
            Devices::Esp(device) => device.resume(reply),
            Devices::Other(device) => device.resume(reply),
        }
    }
}

impl Devices {
    /// Whether the keep-alive job started with `epoch` writes now, and what.
    pub open spec fn heartbeat(self, epoch: u64) -> Option<Seq<u8>> {
        match self {
            Devices::Govee(device) => device.heartbeat(epoch),
            _ => None,
        }
    }

    /// One tick of the keep-alive job started with `epoch`: the frame to
    /// write, or `None` when the job is to end. Only a device that keeps its
    /// link alive ever answers with a frame.
    pub fn keep_alive_tick(&self, epoch: u64) -> (frame: Option<Vec<u8>>)
        ensures
            match frame {
                Some(bytes) => self.heartbeat(epoch) == Some(bytes@),
                None => self.heartbeat(epoch) is None,
            },
    {
        match self {
            Devices::Govee(device) => device.keep_alive_tick(epoch),
            _ => None,
        }
    }

    /// The device after the keep-alive job started with `epoch` reported a
    /// failed write.
    pub open spec fn after_heartbeat_failure(self, epoch: u64) -> Devices {
        match self {
            Devices::Govee(device) => Devices::Govee(device.after_heartbeat_failure(epoch)),
            _ => self,
        }
    }

    /// Takes note that the keep-alive job started with `epoch` could not
    /// write its heartbeat.
    pub fn keep_alive_failed(&mut self, epoch: u64)
        ensures
            *final(self) == old(self).after_heartbeat_failure(epoch),
    {
        match self {
            Devices::Govee(device) => device.keep_alive_failed(epoch),
            _ => {},
        }
    }
}

impl Devices {
    /// The device is connected, with no check of its link under way. A
    /// device of no known kind always is.
    pub open spec fn is_connected(self) -> bool {
        match self {
            Devices::Govee(device) => device.connection.is_settled(),
            Devices::Esp(device) => device.connection.is_settled(),
            Devices::Other(_) => true,
        }
    }
}

/// Of whatever kind a connected device is, a connect on it asks for no scan
/// and for no connect attempt, and once its link is reported as up the
/// device is as it was before.
pub proof fn lemma_dispatched_connect_idempotent(device: Devices)
    requires
        device.is_connected(),
    ensures
        ({
            let (asked, first) = device.connect_spec();
            let (back, second) = asked.resume_spec(ReplyView::LinkStatus(true));
            &&& first == CommandView::QueryLink || first == CommandView::Idle
            &&& first == CommandView::Idle ==> asked == device
            &&& first == CommandView::QueryLink ==> second == CommandView::Idle && back == device
        }),
{
}

/// Of whatever kind a device is, after a disconnect no tick of any
/// keep-alive job is answered with a frame, and a second disconnect does
/// nothing.
pub proof fn lemma_dispatched_disconnect_is_final(device: Devices, epoch: u64)
    ensures
        ({
            let (released, command) = device.disconnect_spec();
            &&& released.heartbeat(epoch) is None
            &&& released.disconnect_spec() == (released, CommandView::Idle)
            &&& command == CommandView::Release || command == CommandView::Idle
        }),
{
}

} // verus!
