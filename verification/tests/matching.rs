use rtlsdr_dongle::matcher::{first_match, DeviceDescriptor, UnsupportedDeviceError};
use rtlsdr_dongle::registry::{known_devices, Dongle};

fn descriptor(vendor_id: u16, product_id: u16) -> DeviceDescriptor {
    DeviceDescriptor { vendor_id, product_id }
}

#[test]
fn registry_lists_the_supported_models_in_order() {
    let devices = known_devices();
    assert_eq!(devices.len(), 3);
    assert_eq!(devices[0], Dongle { vid: 0x0bda, pid: 0x2832, name: "Generic RTL2832U" });
    assert_eq!(devices[1], Dongle { vid: 0x0bda, pid: 0x2838, name: "Generic RTL2832U OEM" });
    assert_eq!(devices[2], Dongle { vid: 0x1209, pid: 0x2832, name: "Generic RTL2832U" });
}

#[test]
fn registry_is_the_same_on_every_call() {
    assert_eq!(known_devices(), known_devices());
}

#[test]
fn registry_identities_are_pairwise_distinct() {
    let devices = known_devices();
    for i in 0..devices.len() {
        for j in 0..devices.len() {
            if i != j {
                assert_ne!((devices[i].vid, devices[i].pid), (devices[j].vid, devices[j].pid));
            }
        }
    }
}

#[test]
fn is_an_instance_needs_both_identifiers() {
    let dongle = Dongle { vid: 0x0bda, pid: 0x2832, name: "Generic RTL2832U" };
    assert!(dongle.is_an_instance(&descriptor(0x0bda, 0x2832)));
    assert!(!dongle.is_an_instance(&descriptor(0x0bda, 0x2838)));
    assert!(!dongle.is_an_instance(&descriptor(0x1209, 0x2832)));
    assert!(!dongle.is_an_instance(&descriptor(0x2832, 0x0bda)));
    assert!(!dongle.is_an_instance(&descriptor(0, 0)));
}

#[test]
fn classify_generic_rtl2832u() {
    let found = Dongle::try_from(descriptor(0x0bda, 0x2832));
    assert_eq!(found, Ok(Dongle { vid: 0x0bda, pid: 0x2832, name: "Generic RTL2832U" }));
}

#[test]
fn classify_generic_rtl2832u_oem() {
    let found = Dongle::try_from(descriptor(0x0bda, 0x2838));
    assert_eq!(found, Ok(Dongle { vid: 0x0bda, pid: 0x2838, name: "Generic RTL2832U OEM" }));
}

#[test]
fn classify_generic_rtl2832u_under_its_other_vendor() {
    let found = Dongle::try_from(descriptor(0x1209, 0x2832));
    assert_eq!(found, Ok(Dongle { vid: 0x1209, pid: 0x2832, name: "Generic RTL2832U" }));
    assert_eq!(found.unwrap().name, "Generic RTL2832U");
}

#[test]
fn classify_unknown_device_is_refused_with_its_identifiers() {
    let found = Dongle::try_from(descriptor(0xffff, 0xffff));
    assert_eq!(found, Err(UnsupportedDeviceError { vendor_id: 0xffff, product_id: 0xffff }));
}

#[test]
fn classify_refuses_a_known_vendor_with_an_unknown_product() {
    let found = Dongle::try_from(descriptor(0x0bda, 0x2833));
    assert_eq!(found, Err(UnsupportedDeviceError { vendor_id: 0x0bda, product_id: 0x2833 }));
    let found = Dongle::try_from(descriptor(0x1209, 0x2838));
    assert_eq!(found, Err(UnsupportedDeviceError { vendor_id: 0x1209, product_id: 0x2838 }));
}

#[test]
fn classify_refuses_the_zero_descriptor() {
    let found = Dongle::try_from(descriptor(0, 0));
    assert_eq!(found, Err(UnsupportedDeviceError { vendor_id: 0, product_id: 0 }));
}

#[test]
fn classify_returns_each_registry_entry_for_its_own_identifiers() {
    for entry in known_devices() {
        assert_eq!(Dongle::try_from(descriptor(entry.vid, entry.pid)), Ok(entry));
    }
}

#[test]
fn classify_agrees_with_the_registry_on_every_product_of_a_vendor() {
    for product_id in 0..=u16::MAX {
        let found = Dongle::try_from(descriptor(0x0bda, product_id));
        if product_id == 0x2832 || product_id == 0x2838 {
            let dongle = found.unwrap();
            assert_eq!((dongle.vid, dongle.pid), (0x0bda, product_id));
        } else {
            assert_eq!(found, Err(UnsupportedDeviceError { vendor_id: 0x0bda, product_id }));
        }
    }
}

#[test]
fn first_match_gives_the_position_in_the_registry() {
    let devices = known_devices();
    assert_eq!(first_match(&devices, &descriptor(0x0bda, 0x2832)), Some(0));
    assert_eq!(first_match(&devices, &descriptor(0x0bda, 0x2838)), Some(1));
    assert_eq!(first_match(&devices, &descriptor(0x1209, 0x2832)), Some(2));
    assert_eq!(first_match(&devices, &descriptor(0xffff, 0xffff)), None);
}

#[test]
fn first_match_prefers_the_earlier_of_two_entries_with_the_same_identifiers() {
    let entries = [
        Dongle { vid: 1, pid: 1, name: "other" },
        Dongle { vid: 7, pid: 9, name: "earlier" },
        Dongle { vid: 7, pid: 9, name: "later" },
    ];
    assert_eq!(first_match(&entries, &descriptor(7, 9)), Some(1));
}

#[test]
fn first_match_finds_nothing_among_no_entries() {
    let entries: [Dongle; 0] = [];
    assert_eq!(first_match(&entries, &descriptor(0x0bda, 0x2832)), None);
}

#[test]
fn first_match_finds_the_last_entry() {
    let entries = [
        Dongle { vid: 1, pid: 1, name: "a" },
        Dongle { vid: 2, pid: 2, name: "b" },
        Dongle { vid: 3, pid: 3, name: "c" },
    ];
    assert_eq!(first_match(&entries, &descriptor(3, 3)), Some(2));
    assert_eq!(first_match(&entries, &descriptor(3, 2)), None);
}

#[test]
fn classify_through_try_into() {
    let found: Result<Dongle, UnsupportedDeviceError> = descriptor(0x0bda, 0x2838).try_into();
    assert_eq!(found.map(|dongle| dongle.name), Ok("Generic RTL2832U OEM"));
    let found: Result<Dongle, UnsupportedDeviceError> = descriptor(0x2838, 0x0bda).try_into();
    assert_eq!(found, Err(UnsupportedDeviceError { vendor_id: 0x2838, product_id: 0x0bda }));
}
