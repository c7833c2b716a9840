use rtlsdr_dongle::error::{AcquireError, TransportError, ACCESS_REMEDY, DRIVER_REMEDY};

fn all_transport_errors() -> Vec<TransportError> {
    vec![
        TransportError::Io,
        TransportError::InvalidParam,
        TransportError::Access,
        TransportError::NoDevice,
        TransportError::NotFound,
        TransportError::Busy,
        TransportError::Timeout,
        TransportError::Overflow,
        TransportError::Pipe,
        TransportError::Interrupted,
        TransportError::NoMem,
        TransportError::NotSupported,
        TransportError::BadDescriptor,
        TransportError::Other,
    ]
}

#[test]
fn refused_access_names_the_access_rule_to_install() {
    let text = AcquireError::AccessDenied.remediation();
    assert_eq!(text, Some(ACCESS_REMEDY));
    assert_eq!(
        text,
        Some("Please fix the device permissions, e.g. by installing the udev rules file rtl-sdr.rules")
    );
}

#[test]
fn driver_conflict_names_the_module_to_detach() {
    let text = AcquireError::DriverConflict.remediation();
    assert_eq!(text, Some(DRIVER_REMEDY));
    let text = text.unwrap();
    assert!(text.contains("detach"));
    assert!(text.contains("blacklist"));
    assert!(text.contains("dvb_usb_rtl28xxu"));
    assert!(text.contains("automatic detaching"));
}

#[test]
fn failures_of_the_transport_have_no_remedy_of_their_own() {
    for error in all_transport_errors() {
        assert_eq!(AcquireError::TransportEnumeration(error).remediation(), None);
        assert_eq!(AcquireError::OpenFailure(error).remediation(), None);
        assert_eq!(AcquireError::DriverQueryFailure(error).remediation(), None);
        assert_eq!(AcquireError::ClaimFailure(error).remediation(), None);
    }
}
