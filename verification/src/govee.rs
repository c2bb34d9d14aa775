//! The Govee light: a device with a managed link, a command path and a
//! keep-alive job.

use vstd::prelude::*;
use crate::address::{DeviceAddress, Uuid};
use crate::codec::{
    brightness_frame, color_frame, encode_brightness, encode_color, encode_keep_alive,
    encode_off, encode_on, encode_spec, keep_alive_frame, off_frame, on_frame, parse_color,
};
use crate::connection::{Connection, ConnectionState};
use crate::device::LedDevice;
use crate::error::{DeviceError, DeviceErrorView};
use crate::event::{Event, EventView};
use crate::keep_alive::KeepAlive;
use crate::protocol::{Command, CommandView, Reply, ReplyView};

verus! {

/// Seconds between two heartbeats of a Govee light.
pub const KEEP_ALIVE_INTERVAL_SECS: u64 = 2;

/// A Govee light: its connection and the keep-alive job that goes with it.
#[derive(Clone, Copy, Debug, PartialEq, Eq, Structural)]
pub struct GoveeLed {
    pub connection: Connection,
    pub keep_alive: KeepAlive,
}

impl GoveeLed {
    /// The keep-alive job is at rest unless the device holds a link.
    pub open spec fn wf(self) -> bool {
        !(self.keep_alive.status is Idle) ==> self.connection.holds_link()
    }

    /// The command for a frame: the frame is written if the characteristic
    /// is resolved, and the device is reported as not connected otherwise.
    pub open spec fn send(self, frame: Seq<u8>) -> CommandView {
        if self.connection.state is CharacteristicResolved {
            CommandView::Write(frame)
        } else {
            CommandView::Fail(DeviceErrorView::NotConnected)
        }
    }

    /// The command for a colour text: on a device that is not connected the
    /// text is not looked at.
    pub open spec fn send_color(self, color: Seq<char>) -> CommandView {
        if !(self.connection.state is CharacteristicResolved) {
            CommandView::Fail(DeviceErrorView::NotConnected)
        } else {
            match parse_color(color) {
                Some((red, green, blue)) => CommandView::Write(color_frame(red, green, blue)),
                None => CommandView::Fail(DeviceErrorView::MalformedInput),
            }
        }
    }

    /// The device once the connection has moved to `next` and answered with
    /// `command`: a fresh connection starts the keep-alive job, and a
    /// connection without a link stops it.
    pub open spec fn settle(self, next: Connection, command: CommandView) -> (
        GoveeLed,
        CommandView,
    ) {
        match command {
            CommandView::Hold { handle, heartbeat: _ } => (
                GoveeLed { connection: next, keep_alive: self.keep_alive.run_spec().0 },
                CommandView::Hold { handle, heartbeat: Some(self.keep_alive.run_spec().1) },
            ),
            _ => if next.holds_link() {
                (GoveeLed { connection: next, keep_alive: self.keep_alive }, command)
            } else {
                (GoveeLed { connection: next, keep_alive: self.keep_alive.stop_spec() }, command)
            },
        }
    }

    /// The heartbeat that the keep-alive job started with `epoch` writes
    /// now, if it may write.
    pub open spec fn heartbeat(self, epoch: u64) -> Option<Seq<u8>> {
        if self.keep_alive.may_write(epoch) {
            Some(keep_alive_frame())
        } else {
            None
        }
    }

    /// The device after the keep-alive job started with `epoch` reported a
    /// failed write.
    pub open spec fn after_heartbeat_failure(self, epoch: u64) -> GoveeLed {
        GoveeLed { keep_alive: self.keep_alive.write_failed_spec(epoch), ..self }
    }

    /// The light at `addr`, whose commands go to the characteristic
    /// `characteristic_uuid` of the service `service_uuid`. It starts out
    /// disconnected, with its keep-alive job at rest.
    pub fn new(addr: DeviceAddress, service_uuid: Uuid, characteristic_uuid: Uuid) -> (device:
        GoveeLed)
        ensures
            device == (GoveeLed {
                connection: Connection::new_spec(addr, service_uuid, characteristic_uuid),
                keep_alive: KeepAlive::new_spec(KEEP_ALIVE_INTERVAL_SECS),
            }),
            device.wf(),
    {
        let keep_alive = KeepAlive::new(KEEP_ALIVE_INTERVAL_SECS);
        GoveeLed {
            connection: Connection::new(addr, service_uuid, characteristic_uuid),
            keep_alive,
        }
    }

    /// Wraps a frame in the command that sends it.
    fn write(&self, frame: Vec<u8>) -> (command: Command)
        ensures
            command@ == self.send(frame@),
    {
        if self.connection.is_resolved() {
            Command::Write(frame)
        } else {
            Command::Fail(DeviceError::NotConnected)
        }
    }

    /// Switches the light on.
    pub fn turn_on(&self) -> (command: Command)
        ensures
            command@ == self.send(on_frame()),
    {
        self.write(encode_on())
    }

    /// Switches the light off.
    pub fn turn_off(&self) -> (command: Command)
        ensures
            command@ == self.send(off_frame()),
    {
        self.write(encode_off())
    }

    /// Sets the colour that `color` names, such as `#FF8000`.
    pub fn set_color(&self, color: String) -> (command: Command)
        ensures
            command@ == self.send_color(color@),
    {
        if !self.connection.is_resolved() {
            return Command::Fail(DeviceError::NotConnected);
        }
        match encode_color(color.as_str()) {
            Ok(frame) => Command::Write(frame),
            Err(error) => Command::Fail(error),
        }
    }

    /// Sets the brightness.
    pub fn set_brightness(&self, brightness: u8) -> (command: Command)
        ensures
            command@ == self.send(brightness_frame(brightness)),
    {
        self.write(encode_brightness(brightness))
    }

    /// One tick of the keep-alive job started with `epoch`: the heartbeat to
    /// write, or `None` when the job is to end.
    pub fn keep_alive_tick(&self, epoch: u64) -> (frame: Option<Vec<u8>>)
        ensures
            match frame {
                Some(bytes) => self.heartbeat(epoch) == Some(bytes@),
                None => self.heartbeat(epoch) is None,
            },
    {
        if self.keep_alive.tick(epoch) {
            Some(encode_keep_alive())
        } else {
            None
        }
    }

    /// Takes note that the keep-alive job started with `epoch` could not
    /// write its heartbeat: the job ends and the connection is degraded.
    pub fn keep_alive_failed(&mut self, epoch: u64)
        ensures
            *final(self) == old(self).after_heartbeat_failure(epoch),
    {
        self.keep_alive.write_failed(epoch);
    }

    /// Whether the keep-alive job ended on a failed write.
    pub fn is_degraded(&self) -> (degraded: bool)
        ensures
            degraded == (self.keep_alive.status is Failed),
    {
        self.keep_alive.is_degraded()
    }

    /// Adjusts the keep-alive job to where the connection has moved.
    fn settled(&mut self, command: Command) -> (settled: Command)
        ensures
            (*final(self), settled@) == old(self).settle(old(self).connection, command@),
    {
        match command {
            Command::Hold { handle, heartbeat: _ } => {
                let heartbeat = self.keep_alive.run();
                Command::Hold { handle, heartbeat: Some(heartbeat) }
            },
            other => {
                if !self.connection.is_resolved() {
                    self.keep_alive.stop();
                }
                other
            },
        }
    }
}

impl LedDevice for GoveeLed {
    open spec fn connect_spec(self) -> (GoveeLed, CommandView) {
        self.settle(self.connection.connect_spec().0, self.connection.connect_spec().1)
    }

    open spec fn disconnect_spec(self) -> (GoveeLed, CommandView) {
        self.settle(self.connection.disconnect_spec().0, self.connection.disconnect_spec().1)
    }

    open spec fn on_event_spec(self, event: EventView) -> (GoveeLed, CommandView) {
        (
            self,
            match event {
                EventView::On => self.send(on_frame()),
                EventView::Off => self.send(off_frame()),
                EventView::Color(color) => self.send_color(color),
                EventView::Brightness(level) => self.send(brightness_frame(level)),
                EventView::Other(_) => CommandView::Idle,
            },
        )
    }

    open spec fn resume_spec(self, reply: ReplyView) -> (GoveeLed, CommandView) {
        self.settle(self.connection.resume_spec(reply).0, self.connection.resume_spec(reply).1)
    }

    fn connect(&mut self) -> (command: Command) {
        let command = self.connection.connect();
        self.settled(command)
    }

    fn disconnect(&mut self) -> (command: Command) {
        let command = self.connection.disconnect();
        self.settled(command)
    }

    fn on_event(&mut self, event: Event) -> (command: Command) {
        match event {
            Event::On => self.turn_on(),
            Event::Off => self.turn_off(),
            Event::Color(color) => self.set_color(color),
            Event::Brightness(brightness) => self.set_brightness(brightness),
            Event::Other(_) => Command::Idle,
        }
    }

    fn resume(&mut self, reply: Reply) -> (command: Command) {
        let command = self.connection.resume(reply);
        self.settled(command)
    }
}

/// Whatever is done to a device, its keep-alive job is at rest unless the
/// device holds a link.
pub proof fn lemma_wf_preserved(device: GoveeLed, reply: ReplyView, event: EventView, epoch: u64)
    requires
        device.wf(),
    ensures
        device.connect_spec().0.wf(),
        device.disconnect_spec().0.wf(),
        device.resume_spec(reply).0.wf(),
        device.on_event_spec(event).0.wf(),
        device.after_heartbeat_failure(epoch).wf(),
{
}

/// A connect on a device whose characteristic is resolved and whose link is
/// up changes nothing: it asks for the state of the link and for nothing
/// else, starts no second keep-alive job, and leaves the device as it was.
pub proof fn lemma_connect_idempotent(device: GoveeLed)
    requires
        device.connection.is_settled(),
    ensures
        ({
            let (asked, first) = device.connect_spec();
            let (back, second) = asked.resume_spec(ReplyView::LinkStatus(true));
            &&& first == CommandView::QueryLink
            &&& second == CommandView::Idle
            &&& back == device
        }),
{
}

/// After a disconnect no heartbeat is written: no tick of any job is
/// answered with a frame, and nothing that the driver reports afterwards
/// changes that.
pub proof fn lemma_no_heartbeat_after_disconnect(
    device: GoveeLed,
    reply: ReplyView,
    failed: u64,
    epoch: u64,
)
    ensures
        ({
            let (released, command) = device.disconnect_spec();
            &&& released.connection.state is Disconnected
            &&& released.keep_alive.status is Idle
            &&& released.heartbeat(epoch) is None
            &&& released.resume_spec(reply) == (released, CommandView::Ignored)
            &&& released.after_heartbeat_failure(failed) == released
            &&& released.disconnect_spec() == (released, CommandView::Idle)
        }),
{
}

/// The keep-alive job starts with the resolution of the characteristic and
/// at no other time: the command that hands the characteristic over names
/// the job, that job may write from then on, and no other command starts one.
pub proof fn lemma_heartbeat_starts_on_hold(device: GoveeLed, reply: ReplyView)
    ensures
        ({
            let (next, command) = device.resume_spec(reply);
            &&& command matches CommandView::Hold { handle, heartbeat } ==> {
                &&& next.connection.state == (ConnectionState::CharacteristicResolved {
                    handle,
                    verifying: false,
                })
                &&& heartbeat matches Some(job)
                &&& job.interval_secs == device.keep_alive.interval_secs
                &&& next.keep_alive.may_write(job.epoch)
                &&& !next.keep_alive.may_write(device.keep_alive.epoch)
            }
            &&& !(command is Hold) ==> {
                ||| next.keep_alive == device.keep_alive
                ||| next.keep_alive == device.keep_alive.stop_spec()
            }
        }),
{
}

/// A heartbeat is only ever written over a link that is held.
pub proof fn lemma_heartbeat_needs_link(device: GoveeLed, epoch: u64)
    requires
        device.wf(),
        device.heartbeat(epoch) is Some,
    ensures
        device.connection.holds_link(),
        device.heartbeat(epoch) == Some(keep_alive_frame()),
{
}

/// A frame is written only while the characteristic is resolved, and an
/// event never changes the device.
pub proof fn lemma_write_needs_characteristic(device: GoveeLed, event: EventView)
    ensures
        device.on_event_spec(event).0 == device,
        device.on_event_spec(event).1 is Write
            ==> device.connection.state is CharacteristicResolved,
        device.connection.state is CharacteristicResolved ==> match encode_spec(event) {
            Ok(Some(frame)) => device.on_event_spec(event).1 == CommandView::Write(frame),
            Ok(None) => device.on_event_spec(event).1 == CommandView::Idle,
            Err(error) => device.on_event_spec(event).1 == CommandView::Fail(error),
        },
        !(device.connection.state is CharacteristicResolved) && !(event is Other)
            ==> device.on_event_spec(event).1 == CommandView::Fail(DeviceErrorView::NotConnected),
{
}

} // verus!
