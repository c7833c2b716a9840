//! The failures of an acquisition, and what the operator can do about them.

use vstd::prelude::*;

verus! {

/// The kinds of failure that the USB transport reports.
#[derive(Clone, Copy, Debug, PartialEq, Eq, Structural)]
pub enum TransportError {
    /// Input or output failed.
    Io,
    /// A parameter was invalid.
    InvalidParam,
    /// Access was denied for want of permissions.
    Access,
    /// The device is gone; it may have been unplugged.
    NoDevice,
    /// What was asked for was not found.
    NotFound,
    /// The resource is busy.
    Busy,
    /// The operation timed out.
    Timeout,
    /// More data arrived than there was room for.
    Overflow,
    /// The pipe broke.
    Pipe,
    /// A system call was interrupted.
    Interrupted,
    /// Memory ran out.
    NoMem,
    /// The platform does not support the operation.
    NotSupported,
    /// The device sent a malformed descriptor.
    BadDescriptor,
    /// Any other failure.
    Other,
}

/// Why an acquisition was given up. Each of these ends the run: none is
/// retried, since none goes away by asking again.
#[derive(Clone, Copy, Debug, PartialEq, Eq, Structural)]
pub enum AcquireError {
    /// The bus could not be enumerated.
    TransportEnumeration(TransportError),
    /// The operating system refused to open the device.
    AccessDenied,
    /// The device could not be opened, for another reason than refused access.
    OpenFailure(TransportError),
    /// The transport could not tell whether a kernel driver is bound.
    DriverQueryFailure(TransportError),
    /// A kernel driver is bound to the control interface.
    DriverConflict,
    /// The control interface could not be claimed.
    ClaimFailure(TransportError),
}

/// What to do where the operating system refused access to the device.
pub const ACCESS_REMEDY: &'static str =
    "Please fix the device permissions, e.g. by installing the udev rules file rtl-sdr.rules";

/// What to do where a kernel driver holds the device.
pub const DRIVER_REMEDY: &'static str =
    "Kernel driver is active, or device is claimed by a second process. In the first case, please either detach or blacklist the kernel module (dvb_usb_rtl28xxu), or enable automatic detaching at compile time.";

impl AcquireError {
    /// The failure of an attempt to open a device: refused access, which the
    /// operator can mend, is told from the rest.
    pub open spec fn from_open(error: TransportError) -> AcquireError {
        if error == TransportError::Access {
            AcquireError::AccessDenied
        } else {
            AcquireError::OpenFailure(error)
        }
    }

    /// What the operator is told to do, for the two failures that the
    /// operator can mend.
    pub open spec fn spec_remediation(&self) -> Option<&'static str> {
        match *self {
            AcquireError::AccessDenied => Some(ACCESS_REMEDY),
            AcquireError::DriverConflict => Some(DRIVER_REMEDY),
            _ => None,
        }
    }

    /// The remedy to print with the diagnostic: an access rule to install
    /// where access was refused, the kernel module to detach or blacklist
    /// where a driver is in the way. The other failures have none and are
    /// reported as the transport gave them.
    #[verifier::when_used_as_spec(spec_remediation)]
    pub fn remediation(&self) -> (text: Option<&'static str>)
        ensures
            text == self.spec_remediation(),
    {
        match *self {
            AcquireError::AccessDenied => Some(ACCESS_REMEDY),
            AcquireError::DriverConflict => Some(DRIVER_REMEDY),
            _ => None,
        }
    }
}

} // verus!
