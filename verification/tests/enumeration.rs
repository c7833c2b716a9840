use rtlsdr_dongle::enumerator::find_supported_device;
use rtlsdr_dongle::matcher::DeviceDescriptor;
use rtlsdr_dongle::registry::Dongle;

fn descriptor(vendor_id: u16, product_id: u16) -> DeviceDescriptor {
    DeviceDescriptor { vendor_id, product_id }
}

#[test]
fn find_on_an_empty_bus_finds_nothing() {
    assert_eq!(find_supported_device(&[]), None);
}

#[test]
fn find_among_unsupported_devices_finds_nothing() {
    let attached = [descriptor(0x1d6b, 0x0002), descriptor(0x8087, 0x0024), descriptor(0xffff, 0xffff)];
    assert_eq!(find_supported_device(&attached), None);
}

#[test]
fn find_selects_the_only_supported_device() {
    let attached = [descriptor(0x1d6b, 0x0002), descriptor(0x0bda, 0x2838), descriptor(0x8087, 0x0024)];
    assert_eq!(
        find_supported_device(&attached),
        Some((1, Dongle { vid: 0x0bda, pid: 0x2838, name: "Generic RTL2832U OEM" }))
    );
}

#[test]
fn find_selects_a_supported_device_at_the_front() {
    let attached = [descriptor(0x0bda, 0x2832), descriptor(0x1d6b, 0x0002)];
    assert_eq!(
        find_supported_device(&attached),
        Some((0, Dongle { vid: 0x0bda, pid: 0x2832, name: "Generic RTL2832U" }))
    );
}

#[test]
fn find_selects_a_supported_device_at_the_back() {
    let attached = [descriptor(0x1d6b, 0x0002), descriptor(0x1d6b, 0x0003), descriptor(0x1209, 0x2832)];
    assert_eq!(
        find_supported_device(&attached),
        Some((2, Dongle { vid: 0x1209, pid: 0x2832, name: "Generic RTL2832U" }))
    );
}

#[test]
fn find_selects_the_first_of_several_supported_devices() {
    let attached = [
        descriptor(0x1d6b, 0x0002),
        descriptor(0x1209, 0x2832),
        descriptor(0x0bda, 0x2832),
        descriptor(0x0bda, 0x2838),
    ];
    assert_eq!(
        find_supported_device(&attached),
        Some((1, Dongle { vid: 0x1209, pid: 0x2832, name: "Generic RTL2832U" }))
    );
}

#[test]
fn find_goes_by_the_order_of_enumeration_not_of_the_registry() {
    let attached = [descriptor(0x0bda, 0x2838), descriptor(0x0bda, 0x2832)];
    assert_eq!(
        find_supported_device(&attached),
        Some((0, Dongle { vid: 0x0bda, pid: 0x2838, name: "Generic RTL2832U OEM" }))
    );
}

#[test]
fn find_selects_the_first_of_two_equal_devices() {
    let attached = [descriptor(0x0bda, 0x2832), descriptor(0x0bda, 0x2832)];
    assert_eq!(
        find_supported_device(&attached),
        Some((0, Dongle { vid: 0x0bda, pid: 0x2832, name: "Generic RTL2832U" }))
    );
}
