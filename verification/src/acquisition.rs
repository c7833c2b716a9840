//! The acquisition of a dongle, as a machine that decides and leaves the
//! talking to the bus to its caller.
//!
//! The caller asks the machine what to do next, does it, and hands back what
//! the transport answered. The machine never touches the bus itself, so every
//! decision on the way from a list of attached devices to an owned, claimed
//! device is taken here.
//!
//! The states follow one another in one order only: a device is discovered,
//! opened, found free of a kernel driver, and claimed. The first request that
//! the transport does not grant ends the acquisition, and nothing is tried
//! again. Between the driver check and the claim the device may change hands
//! or vanish; the transport offers no way to check and claim at once, so
//! such a change shows as a failed claim.

use vstd::prelude::*;
use crate::enumerator::{find_supported_device, is_supported, selection};
use crate::error::{AcquireError, TransportError};
use crate::first::{first_where, lemma_first_where_some};
use crate::matcher::{describes, DeviceDescriptor};
use crate::registry::{registry, Dongle};

verus! {

/// The interface of a dongle through which it is controlled, and the only
/// one that is claimed.
pub const CONTROL_INTERFACE: u8 = 0;

/// An acquired dongle: the open handle, with the control interface claimed,
/// and the model that the device was recognised as. The handle is moved in
/// and belongs to this value alone.
#[derive(Debug, PartialEq, Eq)]
pub struct Device<H> {
    pub device_handle: H,
    pub dongle_type: Dongle,
}

/// What the caller is to do next on the machine's behalf.
#[derive(Clone, Copy, Debug, PartialEq, Eq)]
pub enum Action {
    /// List the attached devices and read their descriptors.
    ListDevices,
    /// Open the device at position `candidate` of the list, found to be a
    /// `dongle`.
    Open { candidate: usize, dongle: Dongle },
    /// Ask whether a kernel driver is bound to `interface` of the open device.
    QueryKernelDriver { interface: u8 },
    /// Claim `interface` of the open device.
    ClaimInterface { interface: u8 },
    /// Nothing: the acquisition is over.
    Stop,
}

/// What the transport answered to an action.
#[derive(Debug)]
pub enum Event<H> {
    /// The descriptors of the attached devices in the order of enumeration,
    /// or why the bus could not be walked.
    Enumerated(Result<Vec<DeviceDescriptor>, TransportError>),
    /// The handle of the opened device, or why it could not be opened.
    OpenAttempted(Result<H, TransportError>),
    /// Whether a kernel driver is bound, or why that could not be told.
    DriverQueried(Result<bool, TransportError>),
    /// That the interface is claimed, or why it could not be.
    ClaimAttempted(Result<(), TransportError>),
}

/// How far an acquisition has come.
#[derive(Debug, PartialEq, Eq)]
pub enum Acquisition<H> {
    /// Nothing is known of the bus yet.
    Enumerating,
    /// A supported device was found at position `candidate` of the list.
    Discovered { candidate: usize, dongle: Dongle },
    /// The device is open.
    Opened { handle: H, dongle: Dongle },
    /// The device is open and no kernel driver is in the way.
    DriverChecked { handle: H, dongle: Dongle },
    /// The control interface is claimed: the device is acquired.
    Claimed(Device<H>),
    /// No attached device is supported.
    NothingFound,
    /// The acquisition was given up.
    Failed(AcquireError),
}

impl<H> Acquisition<H> {
    /// The acquisition is over: a device is acquired, none is there to
    /// acquire, or the attempt was given up.
    pub open spec fn finished(self) -> bool {
        self is Claimed || self is NothingFound || self is Failed
    }

    /// The model under which a device is held, from its discovery on, is an
    /// entry of the registry.
    pub open spec fn well_formed(self) -> bool {
        match self {
            Acquisition::Discovered { dongle, .. } => registry().contains(dongle),
            Acquisition::Opened { dongle, .. } => registry().contains(dongle),
            Acquisition::DriverChecked { dongle, .. } => registry().contains(dongle),
            Acquisition::Claimed(device) => registry().contains(device.dongle_type),
            _ => true,
        }
    }

    /// The action that the machine waits for in this state.
    pub open spec fn spec_pending(&self) -> Action {
        match *self {
            Acquisition::Enumerating => Action::ListDevices,
            Acquisition::Discovered { candidate, dongle } => Action::Open { candidate, dongle },
            Acquisition::Opened { .. } => Action::QueryKernelDriver { interface: CONTROL_INTERFACE },
            Acquisition::DriverChecked { .. } => Action::ClaimInterface {
                interface: CONTROL_INTERFACE,
            },
            _ => Action::Stop,
        }
    }

    /// The state after `event`. An event that does not answer the pending
    /// action changes nothing; in particular a finished acquisition stays as
    /// it is.
    pub open spec fn spec_step(self, event: Event<H>) -> Acquisition<H> {
        match (self, event) {
            (Acquisition::Enumerating, Event::Enumerated(Ok(descriptors))) => match selection(
                descriptors@,
            ) {
                Some((candidate, dongle)) => Acquisition::Discovered { candidate, dongle },
                None => Acquisition::NothingFound,
            },
            (Acquisition::Enumerating, Event::Enumerated(Err(error))) => Acquisition::Failed(
                AcquireError::TransportEnumeration(error),
            ),
            (Acquisition::Discovered { dongle, .. }, Event::OpenAttempted(Ok(handle))) => {
                Acquisition::Opened { handle, dongle }
            },
            (Acquisition::Discovered { .. }, Event::OpenAttempted(Err(error))) => {
                Acquisition::Failed(AcquireError::from_open(error))
            },
            (Acquisition::Opened { handle, dongle }, Event::DriverQueried(Ok(bound))) => {
                if bound {
                    Acquisition::Failed(AcquireError::DriverConflict)
                } else {
                    Acquisition::DriverChecked { handle, dongle }
                }
            },
            (Acquisition::Opened { .. }, Event::DriverQueried(Err(error))) => Acquisition::Failed(
                AcquireError::DriverQueryFailure(error),
            ),
            (Acquisition::DriverChecked { handle, dongle }, Event::ClaimAttempted(Ok(_))) => {
                Acquisition::Claimed(Device { device_handle: handle, dongle_type: dongle })
            },
            (Acquisition::DriverChecked { .. }, Event::ClaimAttempted(Err(error))) => {
                Acquisition::Failed(AcquireError::ClaimFailure(error))
            },
            (state, _) => state,
        }
    }

    /// The handle of the device, from the moment it is open.
    pub open spec fn spec_handle(&self) -> Option<&H> {
        match self {
            Acquisition::Opened { handle, .. } => Some(handle),
            Acquisition::DriverChecked { handle, .. } => Some(handle),
            Acquisition::Claimed(device) => Some(&device.device_handle),
            _ => None,
        }
    }

    /// No step brings a model into the state that the registry does not hold.
    pub proof fn step_keeps_well_formed(self, event: Event<H>)
        requires
            self.well_formed(),
        ensures
            self.spec_step(event).well_formed(),
    {
        if let (Acquisition::Enumerating, Event::Enumerated(Ok(descriptors))) = (self, event) {
            if let Some(k) = first_where(descriptors@, is_supported()) {
                lemma_first_where_some(descriptors@, is_supported());
                lemma_first_where_some(registry(), describes(descriptors@[k]));
            }
        }
    }

    /// An acquisition that has not begun.
    pub fn new() -> (start: Acquisition<H>)
        ensures
            start == Acquisition::<H>::Enumerating,
            start.well_formed(),
    {
        Acquisition::Enumerating
    }

    /// What the caller is to do next.
    #[verifier::when_used_as_spec(spec_pending)]
    pub fn pending(&self) -> (action: Action)
        ensures
            action == self.spec_pending(),
    {
        match self {
            Acquisition::Enumerating => Action::ListDevices,
            Acquisition::Discovered { candidate, dongle } => Action::Open {
                candidate: *candidate,
                dongle: *dongle,
            },
            Acquisition::Opened { .. } => Action::QueryKernelDriver { interface: CONTROL_INTERFACE },
            Acquisition::DriverChecked { .. } => Action::ClaimInterface {
                interface: CONTROL_INTERFACE,
            },
            _ => Action::Stop,
        }
    }

    /// The open handle, for the caller to put the pending question to. The
    /// machine keeps owning it.
    #[verifier::when_used_as_spec(spec_handle)]
    pub fn handle(&self) -> (handle: Option<&H>)
        ensures
            handle == self.spec_handle(),
    {
        match self {
            Acquisition::Opened { handle, .. } => Some(handle),
            Acquisition::DriverChecked { handle, .. } => Some(handle),
            Acquisition::Claimed(device) => Some(&device.device_handle),
            _ => None,
        }
    }

    /// Takes the transport's answer and moves on. The first failure ends the
    /// acquisition; a handle that was open by then is dropped with the state
    /// that held it.
    #[verifier::when_used_as_spec(spec_step)]
    pub fn step(self, event: Event<H>) -> (next: Acquisition<H>)
        ensures
            next == self.spec_step(event),
            self.well_formed() ==> next.well_formed(),
    {
        proof {
            if self.well_formed() {
                self.step_keeps_well_formed(event);
            }
        }
        match (self, event) {
            (Acquisition::Enumerating, Event::Enumerated(Ok(descriptors))) => {
                match find_supported_device(descriptors.as_slice()) {
                    Some((candidate, dongle)) => Acquisition::Discovered { candidate, dongle },
                    None => Acquisition::NothingFound,
                }
            },
            (Acquisition::Enumerating, Event::Enumerated(Err(error))) => Acquisition::Failed(
                AcquireError::TransportEnumeration(error),
            ),
            (Acquisition::Discovered { dongle, .. }, Event::OpenAttempted(Ok(handle))) => {
                Acquisition::Opened { handle, dongle }
            },
            (Acquisition::Discovered { .. }, Event::OpenAttempted(Err(error))) => {
                match error {
                    TransportError::Access => Acquisition::Failed(AcquireError::AccessDenied),
                    other => Acquisition::Failed(AcquireError::OpenFailure(other)),
                }
            },
            (Acquisition::Opened { handle, dongle }, Event::DriverQueried(Ok(bound))) => {
                if bound {
                    Acquisition::Failed(AcquireError::DriverConflict)
                } else {
                    Acquisition::DriverChecked { handle, dongle }
                }
            },
            (Acquisition::Opened { .. }, Event::DriverQueried(Err(error))) => Acquisition::Failed(
                AcquireError::DriverQueryFailure(error),
            ),
            (Acquisition::DriverChecked { handle, dongle }, Event::ClaimAttempted(Ok(_))) => {
                Acquisition::Claimed(Device { device_handle: handle, dongle_type: dongle })
            },
            (Acquisition::DriverChecked { .. }, Event::ClaimAttempted(Err(error))) => {
                Acquisition::Failed(AcquireError::ClaimFailure(error))
            },
            (state, _) => state,
        }
    }
}

} // verus!
