//! The exchange between a device and the driver that owns the radio.
//!
//! A device never touches the radio. Each of its operations answers with a
//! [`Command`]; the driver carries the command out and, where the command
//! asks for an answer, hands the outcome back as a [`Reply`] through
//! `resume`, which answers with the next command. The exchange ends with one
//! of the closing commands: [`Command::Hold`], [`Command::Release`],
//! [`Command::Idle`] or [`Command::Fail`].

use vstd::prelude::*;
use crate::address::DeviceAddress;
use crate::error::{DeviceError, DeviceErrorView};
use crate::gatt::{listing_view, CharacteristicHandle, GattService, GattServiceView};

verus! {

/// What the adapter reports while it scans.
#[derive(Clone, Copy, Debug, PartialEq, Eq, Structural)]
pub enum AdapterEvent {
    /// A peripheral with this address appeared.
    DeviceAdded(DeviceAddress),
    /// A peripheral with this address went away.
    DeviceRemoved(DeviceAddress),
    /// Anything else, such as a change of an adapter property.
    PropertyChanged,
}

/// The keep-alive job to start for a fresh connection.
#[derive(Clone, Copy, Debug, PartialEq, Eq, Structural)]
pub struct Heartbeat {
    /// The connection that the job belongs to; the job passes it with every tick.
    pub epoch: u64,
    /// Seconds between two ticks.
    pub interval_secs: u64,
}

/// What the driver is to do next.
#[derive(Clone, Debug, PartialEq, Eq)]
pub enum Command {
    /// Ask the peer at hand whether its link is up; answer with
    /// [`Reply::LinkStatus`].
    QueryLink,
    /// Let go of any link held for this device, power the adapter and start a
    /// scan; answer with what the scan reports.
    Discover(DeviceAddress),
    /// Keep scanning; answer with what the scan reports next.
    NextAdapterEvent,
    /// Attempt the link-level connect to the discovered peer; answer with
    /// [`Reply::LinkConnected`] or [`Reply::LinkConnectFailed`].
    ConnectLink,
    /// Enumerate the services of the peer and their characteristics; answer
    /// with [`Reply::Listing`] or [`Reply::ListingFailed`].
    ListGatt,
    /// Write the frame to the resolved characteristic; answer with
    /// [`Reply::Written`] or [`Reply::WriteFailed`].
    Write(Vec<u8>),
    /// The connect succeeded: keep the link and the characteristic at
    /// `handle`, and start the keep-alive job if there is one.
    Hold { handle: CharacteristicHandle, heartbeat: Option<Heartbeat> },
    /// The disconnect succeeded: cancel the keep-alive job and let go of the
    /// characteristic and of the link.
    Release,
    /// The operation succeeded and leaves nothing to do.
    Idle,
    /// The operation failed. Unless the error is a write failure, the device
    /// is disconnected and the driver lets go of whatever it held for it.
    Fail(DeviceError),
    /// The reply answers no command that is outstanding; nothing changed.
    Ignored,
}

/// The mathematical value of a [`Command`].
pub enum CommandView {
    QueryLink,
    Discover(DeviceAddress),
    NextAdapterEvent,
    ConnectLink,
    ListGatt,
    Write(Seq<u8>),
    Hold { handle: CharacteristicHandle, heartbeat: Option<Heartbeat> },
    Release,
    Idle,
    Fail(DeviceErrorView),
    Ignored,
}

impl View for Command {
    type V = CommandView;

    open spec fn view(&self) -> CommandView {
        match *self {
            Command::QueryLink => CommandView::QueryLink,
            Command::Discover(address) => CommandView::Discover(address),
            Command::NextAdapterEvent => CommandView::NextAdapterEvent,
            Command::ConnectLink => CommandView::ConnectLink,
            Command::ListGatt => CommandView::ListGatt,
            Command::Write(frame) => CommandView::Write(frame@),
            Command::Hold { handle, heartbeat } => CommandView::Hold { handle, heartbeat },
            Command::Release => CommandView::Release,
            Command::Idle => CommandView::Idle,
            Command::Fail(error) => CommandView::Fail(error@),
            Command::Ignored => CommandView::Ignored,
        }
    }
}

/// The outcome of the command that the driver carried out last.
#[derive(Clone, Debug, PartialEq, Eq)]
pub enum Reply {
    /// Whether the peer reports its link as up. A query that fails counts as
    /// a link that is down.
    LinkStatus(bool),
    /// The scan reported an event.
    Adapter(AdapterEvent),
    /// The scan is over: its stream of events ended or broke.
    ScanEnded,
    /// The link-level connect succeeded.
    LinkConnected,
    /// The link-level connect failed, for the reason given.
    LinkConnectFailed(String),
    /// The services of the peer, in the order in which it lists them.
    Listing(Vec<GattService>),
    /// The services of the peer could not be enumerated.
    ListingFailed,
    /// The frame was written.
    Written,
    /// The write was rejected, for the reason given.
    WriteFailed(String),
}

/// The mathematical value of a [`Reply`].
pub enum ReplyView {
    LinkStatus(bool),
    Adapter(AdapterEvent),
    ScanEnded,
    LinkConnected,
    LinkConnectFailed(Seq<char>),
    Listing(Seq<GattServiceView>),
    ListingFailed,
    Written,
    WriteFailed(Seq<char>),
}

impl View for Reply {
    type V = ReplyView;

    open spec fn view(&self) -> ReplyView {
        match *self {
            Reply::LinkStatus(up) => ReplyView::LinkStatus(up),
            Reply::Adapter(event) => ReplyView::Adapter(event),
            Reply::ScanEnded => ReplyView::ScanEnded,
            Reply::LinkConnected => ReplyView::LinkConnected,
            Reply::LinkConnectFailed(cause) => ReplyView::LinkConnectFailed(cause@),
            Reply::Listing(services) => ReplyView::Listing(listing_view(services@)),
            Reply::ListingFailed => ReplyView::ListingFailed,
            Reply::Written => ReplyView::Written,
            Reply::WriteFailed(cause) => ReplyView::WriteFailed(cause@),
        }
    }
}

} // verus!
