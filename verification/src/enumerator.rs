//! Picks, among the devices that the bus reports, the one to acquire.

use vstd::prelude::*;
use crate::first::{first_where, is_first_where, lemma_first_where_is};
use crate::matcher::{
    classification, describes, registered_device_is_classified, supported, DeviceDescriptor,
};
use crate::registry::{registry, Dongle};

verus! {

/// The property of a device to be of a supported model.
pub open spec fn is_supported() -> spec_fn(DeviceDescriptor) -> bool {
    |device_descriptor: DeviceDescriptor| supported(device_descriptor)
}

/// The device to acquire: the first, in the order of enumeration, that the
/// registry describes, by its position and with its model. Further supported
/// devices behind it are passed over.
pub open spec fn selection(descriptors: Seq<DeviceDescriptor>) -> Option<(usize, Dongle)> {
    match first_where(descriptors, is_supported()) {
        Some(k) => Some((k as usize, classification(descriptors[k])->Ok_0)),
        None => None,
    }
}

/// Walks the descriptors of the attached devices in the order of enumeration
/// and selects the first supported one. That none is supported is an
/// ordinary outcome, not a failure.
pub fn find_supported_device(descriptors: &[DeviceDescriptor]) -> (found: Option<(usize, Dongle)>)
    ensures
        found == selection(descriptors@),
{
    let mut k: usize = 0;
    while k < descriptors.len()
        invariant
            k <= descriptors.len(),
            forall|j: int| 0 <= j < k ==> !#[trigger] is_supported()(descriptors@[j]),
        decreases descriptors.len() - k,
    {
        match Dongle::try_from(descriptors[k]) {
            Ok(dongle) => {
                proof {
                    lemma_first_where_is(descriptors@, is_supported(), k as int);
                }
                return Some((k, dongle));
            },
            Err(_) => {},
        }
        k += 1;
    }
    None
}

/// The device selected is the first whose identifiers are registered, and it
/// is selected under the registry entry that carries them.
pub proof fn first_registered_device_is_selected(
    descriptors: Seq<DeviceDescriptor>,
    k: int,
    i: int,
)
    requires
        0 <= k < descriptors.len(),
        0 <= i < registry().len(),
        registry()[i].identity() == (descriptors[k].vendor_id, descriptors[k].product_id),
        forall|j: int| 0 <= j < k ==> !supported(#[trigger] descriptors[j]),
    ensures
        selection(descriptors) == Some((k as usize, registry()[i])),
{
    registered_device_is_classified(descriptors[k], i);
    lemma_first_where_is(descriptors, is_supported(), k);
}

/// Where no attached device is supported, none is selected.
pub proof fn unsupported_devices_are_passed_over(descriptors: Seq<DeviceDescriptor>)
    requires
        forall|j: int| 0 <= j < descriptors.len() ==> !supported(#[trigger] descriptors[j]),
    ensures
        selection(descriptors) is None,
{
    assert forall|j: int| 0 <= j < descriptors.len() implies !#[trigger] is_supported()(
        descriptors[j],
    ) by {
        assert(!supported(descriptors[j]));
    }
}

} // verus!
