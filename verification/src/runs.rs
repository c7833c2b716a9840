//! What holds of every run of an acquisition, whatever the transport answers.

use vstd::prelude::*;
use crate::acquisition::{Acquisition, Action, Device, Event};
use crate::enumerator::{first_registered_device_is_selected, selection};
use crate::error::{AcquireError, TransportError};
use crate::matcher::{supported, DeviceDescriptor};
use crate::registry::{registry, Dongle};

verus! {

impl<H> Acquisition<H> {
    /// The state after the events, taken in their order.
    pub open spec fn after(self, events: Seq<Event<H>>) -> Acquisition<H>
        decreases events.len(),
    {
        if events.len() == 0 {
            self
        } else {
            self.after(events.drop_last()).spec_step(events.last())
        }
    }
}

/// Where an acquisition ends once a device is found, given what the
/// transport answers to each of the three requests. An answer counts only
/// if every request before it was granted.
pub open spec fn conclusion<H>(
    dongle: Dongle,
    open: Result<H, TransportError>,
    driver: Result<bool, TransportError>,
    claim: Result<(), TransportError>,
) -> Acquisition<H> {
    match open {
        Err(error) => Acquisition::Failed(AcquireError::from_open(error)),
        Ok(handle) => match driver {
            Err(error) => Acquisition::Failed(AcquireError::DriverQueryFailure(error)),
            Ok(true) => Acquisition::Failed(AcquireError::DriverConflict),
            Ok(false) => match claim {
                Err(error) => Acquisition::Failed(AcquireError::ClaimFailure(error)),
                Ok(_) => Acquisition::Claimed(Device { device_handle: handle, dongle_type: dongle }),
            },
        },
    }
}

/// Running through one more event is one more step.
pub proof fn after_one_more<H>(state: Acquisition<H>, events: Seq<Event<H>>, event: Event<H>)
    ensures
        state.after(events.push(event)) == state.after(events).spec_step(event),
{
    assert(events.push(event).drop_last() =~= events);
}

/// Running through two sequences of events in a row is running through the
/// first and then, from where that led, through the second.
pub proof fn after_both<H>(state: Acquisition<H>, first: Seq<Event<H>>, second: Seq<Event<H>>)
    ensures
        state.after(first + second) == state.after(first).after(second),
    decreases second.len(),
{
    if second.len() == 0 {
        assert(first + second =~= first);
    } else {
        after_both(state, first, second.drop_last());
        assert((first + second).drop_last() =~= first + second.drop_last());
    }
}

/// The machine asks for nothing exactly when the acquisition is over.
pub proof fn stops_when_finished<H>(state: Acquisition<H>)
    ensures
        state.spec_pending() == Action::Stop <==> state.finished(),
{
}

/// No event moves a finished acquisition.
pub proof fn finished_is_final<H>(state: Acquisition<H>, events: Seq<Event<H>>)
    requires
        state.finished(),
    ensures
        state.after(events) == state,
    decreases events.len(),
{
    if events.len() > 0 {
        finished_is_final(state, events.drop_last());
    }
}

/// Every run of a well-formed acquisition leads to a well-formed one: the
/// model of a device in hand is always one of the registry.
pub proof fn runs_stay_well_formed<H>(state: Acquisition<H>, events: Seq<Event<H>>)
    requires
        state.well_formed(),
    ensures
        state.after(events).well_formed(),
    decreases events.len(),
{
    if events.len() > 0 {
        runs_stay_well_formed(state, events.drop_last());
        state.after(events.drop_last()).step_keeps_well_formed(events.last());
    }
}

/// Where the transport reports no attached device, nothing is found, and
/// whatever follows, the machine never asks for a device to be opened: it
/// stays finished and asks for nothing.
pub proof fn empty_bus_is_left_alone<H>(descriptors: Vec<DeviceDescriptor>, rest: Seq<Event<H>>)
    requires
        descriptors@.len() == 0,
    ensures
        selection(descriptors@) is None,
        Acquisition::<H>::Enumerating.spec_step(Event::Enumerated(Ok(descriptors))).after(rest)
            == Acquisition::<H>::NothingFound,
        Acquisition::<H>::Enumerating.spec_step(Event::Enumerated(Ok(descriptors))).after(
            rest,
        ).spec_pending() == Action::Stop,
{
    finished_is_final(Acquisition::<H>::NothingFound, rest);
}

/// Where exactly one attached device is of a registered model, the run ends
/// either with that device acquired, under the registry entry that it
/// matched and with the handle that the transport gave, or with the failure
/// of the first request that the transport did not grant. After a failure
/// the machine asks for nothing more: a refused open is followed by no
/// driver check, a bound driver by no claim.
pub proof fn single_supported_device_decides<H>(
    descriptors: Vec<DeviceDescriptor>,
    k: int,
    i: int,
    open: Result<H, TransportError>,
    driver: Result<bool, TransportError>,
    claim: Result<(), TransportError>,
)
    requires
        0 <= k < descriptors@.len(),
        0 <= i < registry().len(),
        registry()[i].identity() == (descriptors@[k].vendor_id, descriptors@[k].product_id),
        forall|j: int| 0 <= j < descriptors@.len() && j != k ==> !supported(#[trigger] descriptors@[j]),
    ensures
        Acquisition::<H>::Enumerating.spec_step(Event::Enumerated(Ok(descriptors)))
            == (Acquisition::<H>::Discovered { candidate: k as usize, dongle: registry()[i] }),
        Acquisition::<H>::Enumerating.after(
            seq![
                Event::Enumerated(Ok(descriptors)),
                Event::OpenAttempted(open),
                Event::DriverQueried(driver),
                Event::ClaimAttempted(claim),
            ],
        ) == conclusion(registry()[i], open, driver, claim),
        match conclusion(registry()[i], open, driver, claim) {
            Acquisition::Claimed(device) => device.dongle_type == registry()[i],
            Acquisition::Failed(_) => open is Err || driver != Ok::<bool, TransportError>(false)
                || claim is Err,
            _ => false,
        },
        open is Err ==> Acquisition::<H>::Enumerating.after(
            seq![Event::Enumerated(Ok(descriptors)), Event::OpenAttempted(open)],
        ).spec_pending() == Action::Stop,
        open is Ok && driver != Ok::<bool, TransportError>(false) ==> Acquisition::<H>::Enumerating.after(
            seq![
                Event::Enumerated(Ok(descriptors)),
                Event::OpenAttempted(open),
                Event::DriverQueried(driver),
            ],
        ).spec_pending() == Action::Stop,
{
    let start = Acquisition::<H>::Enumerating;
    let listed = Event::<H>::Enumerated(Ok(descriptors));
    let opened = Event::<H>::OpenAttempted(open);
    let queried = Event::<H>::DriverQueried(driver);
    let claimed = Event::<H>::ClaimAttempted(claim);

    first_registered_device_is_selected(descriptors@, k, i);

    let none = Seq::<Event<H>>::empty();
    after_one_more(start, none, listed);
    after_one_more(start, none.push(listed), opened);
    after_one_more(start, none.push(listed).push(opened), queried);
    after_one_more(start, none.push(listed).push(opened).push(queried), claimed);
    assert(seq![listed, opened] =~= none.push(listed).push(opened));
    assert(seq![listed, opened, queried] =~= none.push(listed).push(opened).push(queried));
    assert(seq![listed, opened, queried, claimed] =~= none.push(listed).push(opened).push(
        queried,
    ).push(claimed));
}

/// The answers of a transport that opens the device and then reports a kernel
/// driver bound, followed by whatever else it may answer.
pub open spec fn answers_with_bound_driver<H>(handle: H, rest: Seq<Event<H>>) -> Seq<Event<H>> {
    seq![Event::OpenAttempted(Ok(handle)), Event::DriverQueried(Ok(true))] + rest
}

/// Where the device opens and a kernel driver is found bound, the
/// acquisition fails with the driver conflict, and at no point of the run,
/// however it goes on, does the machine ask for the interface to be claimed.
pub proof fn bound_driver_forbids_claim<H>(
    candidate: usize,
    dongle: Dongle,
    handle: H,
    rest: Seq<Event<H>>,
)
    ensures
        (Acquisition::<H>::Discovered { candidate, dongle }).after(
            answers_with_bound_driver(handle, rest),
        ) == Acquisition::<H>::Failed(AcquireError::DriverConflict),
        forall|n: int|
            0 <= n <= rest.len() + 2 ==> !((Acquisition::<H>::Discovered { candidate, dongle }).after(
                #[trigger] answers_with_bound_driver(handle, rest).take(n),
            ).spec_pending() is ClaimInterface),
{
    let start = Acquisition::<H>::Discovered { candidate, dongle };
    let opened = Event::<H>::OpenAttempted(Ok(handle));
    let queried = Event::<H>::DriverQueried(Ok(true));
    let conflict = Acquisition::<H>::Failed(AcquireError::DriverConflict);
    let head = seq![opened, queried];
    let events = answers_with_bound_driver(handle, rest);

    let none = Seq::<Event<H>>::empty();
    after_one_more(start, none, opened);
    after_one_more(start, none.push(opened), queried);
    assert(head =~= none.push(opened).push(queried));

    after_both(start, head, rest);
    finished_is_final(conflict, rest);

    assert forall|n: int| 0 <= n <= rest.len() + 2 implies !(start.after(
        #[trigger] events.take(n),
    ).spec_pending() is ClaimInterface) by {
        if n == 0 {
            assert(events.take(n) =~= none);
        } else if n == 1 {
            assert(events.take(n) =~= none.push(opened));
        } else {
            assert(events.take(n) =~= head + rest.take(n - 2));
            after_both(start, head, rest.take(n - 2));
            finished_is_final(conflict, rest.take(n - 2));
        }
    }
}

} // verus!
