//! The table of supported hardware.

use vstd::prelude::*;

verus! {

/// One supported hardware model: a vendor and product identifier pair and the
/// name under which the model is reported.
#[derive(Clone, Copy, Debug, PartialEq, Eq)]
pub struct Dongle {
    pub vid: u16,
    pub pid: u16,
    pub name: &'static str,
}

impl Dongle {
    /// The pair by which a model is recognised on the bus.
    pub open spec fn identity(self) -> (u16, u16) {
        (self.vid, self.pid)
    }
}

/// The supported models, in the order in which they are tried.
pub open spec fn registry() -> Seq<Dongle> {
    seq![
        Dongle { vid: 0x0bda, pid: 0x2832, name: "Generic RTL2832U" },
        Dongle { vid: 0x0bda, pid: 0x2838, name: "Generic RTL2832U OEM" },
        Dongle { vid: 0x1209, pid: 0x2832, name: "Generic RTL2832U" },
    ]
}

/// The supported models as an executable value. The table is fixed: nothing
/// adds to it or takes from it.
pub fn known_devices() -> (devices: [Dongle; 3])
    ensures
        devices@ == registry(),
{
    [
        Dongle { vid: 0x0bda, pid: 0x2832, name: "Generic RTL2832U" },
        Dongle { vid: 0x0bda, pid: 0x2838, name: "Generic RTL2832U OEM" },
        Dongle { vid: 0x1209, pid: 0x2832, name: "Generic RTL2832U" },
    ]
}

/// No two entries of the registry share a vendor and product identifier pair.
pub proof fn registry_identities_distinct(i: int, j: int)
    requires
        0 <= i < registry().len(),
        0 <= j < registry().len(),
        i != j,
    ensures
        registry()[i].identity() != registry()[j].identity(),
{
}

} // verus!
