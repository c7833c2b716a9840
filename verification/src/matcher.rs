//! Classifies a device descriptor against the registry.

use vstd::prelude::*;
use crate::first::{first_where, holds_somewhere, is_first_where, lemma_first_where_is};
use crate::registry::{known_devices, registry, registry_identities_distinct, Dongle};

verus! {

/// What an attached device tells of itself: a snapshot of its vendor and
/// product identifiers, taken while the bus is walked.
#[derive(Clone, Copy, Debug, PartialEq, Eq, Structural)]
pub struct DeviceDescriptor {
    pub vendor_id: u16,
    pub product_id: u16,
}

/// A device that no entry of the registry describes, with the identifiers
/// that were looked up.
#[derive(Clone, Copy, Debug, PartialEq, Eq, Structural)]
pub struct UnsupportedDeviceError {
    pub vendor_id: u16,
    pub product_id: u16,
}

impl Dongle {
    /// The descriptor carries this model's vendor and product identifiers.
    pub open spec fn spec_is_an_instance(&self, device_descriptor: &DeviceDescriptor) -> bool {
        device_descriptor.vendor_id == self.vid && device_descriptor.product_id == self.pid
    }

    /// Whether the described device is of this model.
    #[verifier::when_used_as_spec(spec_is_an_instance)]
    pub fn is_an_instance(&self, device_descriptor: &DeviceDescriptor) -> (yes: bool)
        ensures
            yes == self.spec_is_an_instance(device_descriptor),
    {
        device_descriptor.vendor_id == self.vid && device_descriptor.product_id == self.pid
    }
}

/// The property of a model to describe the given device.
pub open spec fn describes(device_descriptor: DeviceDescriptor) -> spec_fn(Dongle) -> bool {
    |dongle: Dongle| dongle.spec_is_an_instance(&device_descriptor)
}

/// The position of the first of `entries` that describes the device.
pub fn first_match(entries: &[Dongle], device_descriptor: &DeviceDescriptor) -> (found: Option<usize>)
    ensures
        match found {
            Some(i) => {
                &&& is_first_where(entries@, describes(*device_descriptor), i as int)
                &&& first_where(entries@, describes(*device_descriptor)) == Some(i as int)
            },
            None => first_where(entries@, describes(*device_descriptor)) is None,
        },
{
    let mut i: usize = 0;
    while i < entries.len()
        invariant
            i <= entries.len(),
            forall|j: int| 0 <= j < i ==> !#[trigger] describes(*device_descriptor)(entries@[j]),
        decreases entries.len() - i,
    {
        if entries[i].is_an_instance(device_descriptor) {
            proof {
                lemma_first_where_is(entries@, describes(*device_descriptor), i as int);
            }
            return Some(i);
        }
        i += 1;
    }
    None
}

/// What the registry makes of a device: the first entry that describes it, or
/// the refusal, which repeats the identifiers that were looked up.
pub open spec fn classification(device_descriptor: DeviceDescriptor) -> Result<
    Dongle,
    UnsupportedDeviceError,
> {
    match first_where(registry(), describes(device_descriptor)) {
        Some(i) => Ok(registry()[i]),
        None => Err(
            UnsupportedDeviceError {
                vendor_id: device_descriptor.vendor_id,
                product_id: device_descriptor.product_id,
            },
        ),
    }
}

/// The registry holds a model for the device.
pub open spec fn supported(device_descriptor: DeviceDescriptor) -> bool {
    holds_somewhere(registry(), describes(device_descriptor))
}

impl TryFrom<DeviceDescriptor> for Dongle {
    type Error = UnsupportedDeviceError;

    /// Looks the device up in the registry: a device that carries the
    /// identifiers of an entry is that entry's model, any other is refused
    /// with the identifiers it came with.
    fn try_from(device_descriptor: DeviceDescriptor) -> (found: Result<Dongle, UnsupportedDeviceError>)
        ensures
            found == classification(device_descriptor),
            forall|i: int|
                0 <= i < registry().len() && #[trigger] registry()[i].identity() == (
                    device_descriptor.vendor_id,
                    device_descriptor.product_id,
                ) ==> found == Ok::<Dongle, UnsupportedDeviceError>(registry()[i]),
            !supported(device_descriptor) ==> found == Err::<Dongle, UnsupportedDeviceError>(
                UnsupportedDeviceError {
                    vendor_id: device_descriptor.vendor_id,
                    product_id: device_descriptor.product_id,
                },
            ),
    {
        proof {
            assert forall|i: int|
                0 <= i < registry().len() && #[trigger] registry()[i].identity() == (
                    device_descriptor.vendor_id,
                    device_descriptor.product_id,
                ) implies classification(device_descriptor) == Ok::<Dongle, UnsupportedDeviceError>(
                registry()[i],
            ) by {
                registered_device_is_classified(device_descriptor, i);
            }
        }
        let entries = known_devices();
        match first_match(entries.as_slice(), &device_descriptor) {
            Some(i) => Ok(entries[i]),
            None => Err(
                UnsupportedDeviceError {
                    vendor_id: device_descriptor.vendor_id,
                    product_id: device_descriptor.product_id,
                },
            ),
        }
    }
}

impl vstd::std_specs::convert::TryFromSpecImpl<DeviceDescriptor> for Dongle {
    open spec fn obeys_try_from_spec() -> bool {
        true
    }

    open spec fn try_from_spec(device_descriptor: DeviceDescriptor) -> Result<
        Dongle,
        UnsupportedDeviceError,
    > {
        classification(device_descriptor)
    }
}

/// A device whose identifiers are those of a registry entry is classified as
/// that entry.
pub proof fn registered_device_is_classified(device_descriptor: DeviceDescriptor, i: int)
    requires
        0 <= i < registry().len(),
        registry()[i].identity() == (device_descriptor.vendor_id, device_descriptor.product_id),
    ensures
        classification(device_descriptor) == Ok::<Dongle, UnsupportedDeviceError>(registry()[i]),
{
    let p = describes(device_descriptor);
    assert forall|j: int| 0 <= j < i implies !#[trigger] p(registry()[j]) by {
        registry_identities_distinct(i, j);
    }
    lemma_first_where_is(registry(), p, i);
}

/// A device whose identifiers are those of no registry entry is refused, and
/// the refusal carries exactly its identifiers.
pub proof fn unregistered_device_is_refused(device_descriptor: DeviceDescriptor)
    requires
        forall|i: int|
            0 <= i < registry().len() ==> #[trigger] registry()[i].identity() != (
                device_descriptor.vendor_id,
                device_descriptor.product_id,
            ),
    ensures
        classification(device_descriptor) == Err::<Dongle, UnsupportedDeviceError>(
            UnsupportedDeviceError {
                vendor_id: device_descriptor.vendor_id,
                product_id: device_descriptor.product_id,
            },
        ),
{
    let p = describes(device_descriptor);
    assert forall|i: int| 0 <= i < registry().len() implies !#[trigger] p(registry()[i]) by {
        assert(registry()[i].identity() != (
            device_descriptor.vendor_id,
            device_descriptor.product_id,
        ));
    }
}

} // verus!
