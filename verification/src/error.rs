//! The failures that a device operation can report.

use vstd::prelude::*;
use crate::address::{DeviceAddress, Uuid};

verus! {

/// What a lookup was searching for when it found nothing.
#[derive(Clone, Copy, Debug, PartialEq, Eq, Structural)]
pub enum Target {
    /// A peripheral, by hardware address.
    Device(DeviceAddress),
    /// A GATT service or characteristic, by identifier.
    Attribute(Uuid),
}

/// A failed device operation.
#[derive(Clone, Debug, PartialEq, Eq)]
pub enum DeviceError {
    /// Discovery, or the lookup of a service or characteristic, found no match.
    NotFound(Target),
    /// Every link-level connect attempt failed; `cause` is the last failure.
    ConnectionError { address: DeviceAddress, cause: String },
    /// The codec was given a value that has no encoding.
    MalformedInput,
    /// The device has no resolved characteristic to write to.
    NotConnected,
    /// A GATT write was rejected; the payload is the transport's reason.
    WriteFailure(String),
}

/// The mathematical value of a [`DeviceError`].
pub enum DeviceErrorView {
    NotFound(Target),
    ConnectionError { address: DeviceAddress, cause: Seq<char> },
    MalformedInput,
    NotConnected,
    WriteFailure(Seq<char>),
}

impl View for DeviceError {
    type V = DeviceErrorView;

    open spec fn view(&self) -> DeviceErrorView {
        match *self {
            DeviceError::NotFound(target) => DeviceErrorView::NotFound(target),
            DeviceError::ConnectionError { address, cause } => DeviceErrorView::ConnectionError {
                address,
                cause: cause@,
            },
            DeviceError::MalformedInput => DeviceErrorView::MalformedInput,
            DeviceError::NotConnected => DeviceErrorView::NotConnected,
            DeviceError::WriteFailure(cause) => DeviceErrorView::WriteFailure(cause@),
        }
    }
}

} // verus!
