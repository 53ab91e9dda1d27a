//! Error taxonomy of a HID session.

use vstd::prelude::*;

verus! {

/// Why the USB transport refused or aborted an operation.
#[derive(Clone, Copy, Debug, PartialEq, Eq, Structural)]
pub enum UsbFailure {
    Io,
    InvalidParam,
    Access,
    NoDevice,
    NotFound,
    Busy,
    Timeout,
    Overflow,
    Pipe,
    Interrupted,
    NoMem,
    NotSupported,
    BadDescriptor,
    Other,
}

/// What a session operation reports when it does not succeed.
#[derive(Clone, Copy, Debug, PartialEq, Eq, Structural)]
pub enum TransportError {
    /// No attached device carries the wanted vendor and product identifiers.
    DeviceNotFound,
    /// The device has no HID interface with a fitting inbound endpoint.
    NoMatchingInterface,
    /// The session is not active.
    NotOpen,
    /// The session is already active.
    AlreadyOpen,
    /// A feature-report request exceeds the control buffer.
    RequestTooLarge,
    /// The transport failed a transfer or a step of bringing the device up.
    TransferError(UsbFailure),
    /// The device left the bus while the session was active.
    DeviceRemoved,
}

impl UsbFailure {
    /// A failure that ends the read loop: the device is gone.
    pub open spec fn is_fatal(self) -> bool {
        self == UsbFailure::NoDevice
    }

    /// Tells whether this failure means that the device left the bus.
    pub fn device_gone(self) -> (r: bool)
        ensures
            r == self.is_fatal(),
    {
        match self {
            UsbFailure::NoDevice => true,
            _ => false,
        }
    }
}

impl TransportError {
    /// The error with which a failed transfer surfaces to its caller.
    pub open spec fn of_failure(cause: UsbFailure) -> TransportError {
        TransportError::TransferError(cause)
    }

    /// Wraps a transport failure, keeping its cause.
    pub fn from_failure(cause: UsbFailure) -> (r: TransportError)
        ensures
            r == Self::of_failure(cause),
    {
        TransportError::TransferError(cause)
    }
}

} // verus!
