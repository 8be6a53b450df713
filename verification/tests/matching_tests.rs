use ddc_macos::error::Error;
use ddc_macos::identity::{find_framebuffer_port, port_matches_display, DisplayIdentity, PortCandidate};
use ddc_macos::registry::{get_display_av_service, i2c_address, RegistryEntry};

fn external_display(vendor_id: u32, product_id: u32, serial: u32) -> DisplayIdentity {
    DisplayIdentity { vendor_id, product_id, serial, is_builtin: false }
}

fn port(vendor_id: u32, product_id: u32, serial: Option<u32>) -> PortCandidate {
    PortCandidate { bus_count: 1, vendor_id: Some(vendor_id), product_id: Some(product_id), serial }
}

#[test]
fn test_single_matching_candidate_wins() {
    let target = external_display(0x10ac, 0x4080, 12345);
    let candidates = vec![
        port(0x10ac, 0x4080, Some(99)),
        port(0x5a63, 0x4080, Some(12345)),
        port(0x10ac, 0x4080, Some(12345)),
        port(0x10ac, 0x9999, Some(12345)),
    ];
    assert_eq!(find_framebuffer_port(&target, &candidates), Some(2));
}

#[test]
fn test_no_matching_candidate() {
    let target = external_display(0x10ac, 0x4080, 12345);
    let candidates = vec![port(0x10ac, 0x4080, Some(99)), port(0x5a63, 0x1234, None)];
    assert_eq!(find_framebuffer_port(&target, &candidates), None);
    assert_eq!(find_framebuffer_port(&target, &vec![]), None);
}

#[test]
fn test_absent_serial_counts_as_zero() {
    // A candidate without a serial in its properties matches a target whose
    // serial is zero, the host subsystem's default for an absent serial.
    let target = external_display(0x04c8, 0x1951, 0);
    let candidate = port(0x04c8, 0x1951, None);
    assert!(port_matches_display(&candidate, &target));
    assert_eq!(find_framebuffer_port(&target, &vec![candidate]), Some(0));
    // But it does not match a target that has a real serial.
    let serialed = external_display(0x04c8, 0x1951, 7);
    assert!(!port_matches_display(&port(0x04c8, 0x1951, None), &serialed));
}

#[test]
fn test_port_without_bus_never_matches() {
    let target = external_display(0x10ac, 0x4080, 0);
    let mut candidate = port(0x10ac, 0x4080, None);
    candidate.bus_count = 0;
    assert!(!port_matches_display(&candidate, &target));
}

#[test]
fn test_port_without_identity_numbers_never_matches() {
    let target = external_display(0, 0, 0);
    let candidate =
        PortCandidate { bus_count: 1, vendor_id: None, product_id: None, serial: None };
    assert!(!port_matches_display(&candidate, &target));
}

#[test]
fn test_builtin_display_never_matched() {
    // The protocol does not apply to the internal panel: even a candidate
    // with the exact triple is refused.
    let mut target = external_display(0x10ac, 0x4080, 12345);
    target.is_builtin = true;
    let candidates = vec![port(0x10ac, 0x4080, Some(12345))];
    assert_eq!(find_framebuffer_port(&target, &candidates), None);
}

fn entry(path: Option<&str>, name: &str, location: Option<&str>) -> RegistryEntry {
    RegistryEntry {
        path: path.map(String::from),
        name: Ok(String::from(name)),
        location: location.map(String::from),
        av_service_ok: true,
        parent_provider_class: None,
    }
}

#[test]
fn test_av_service_walk_finds_external_proxy() {
    let identity = external_display(0x10ac, 0x4080, 0);
    let location = Some(String::from("IOService:/display0"));
    let entries = vec![
        entry(Some("IOService:/other"), "IOPort", None),
        entry(Some("IOService:/display0"), "IOPort", None),
        entry(None, "DCPAVServiceProxy", Some("Embedded")),
        entry(Some("IOService:/child"), "DCPAVServiceProxy", Some("Embedded")),
        entry(None, "DCPAVServiceProxy", Some("External")),
    ];
    let r = get_display_av_service(&identity, &location, &entries);
    assert_eq!(r, Ok((4, 0x37)));
}

#[test]
fn test_av_service_walk_alternate_chip_address() {
    // A proxy whose parent is the known bridge chip answers on 0xb7.
    let identity = external_display(0x10ac, 0x4080, 0);
    let location = Some(String::from("IOService:/display0"));
    let mut proxy = entry(None, "DCPAVServiceProxy", Some("External"));
    proxy.parent_provider_class = Some(String::from("AppleDCPMCDP29XX"));
    let entries = vec![entry(Some("IOService:/display0"), "IOPort", None), proxy];
    let r = get_display_av_service(&identity, &location, &entries);
    assert_eq!(r, Ok((1, 0xb7)));
}

#[test]
fn test_av_service_walk_skips_unusable_proxies() {
    let identity = external_display(0x10ac, 0x4080, 0);
    let location = Some(String::from("IOService:/display0"));
    let mut no_handle = entry(None, "DCPAVServiceProxy", Some("External"));
    no_handle.av_service_ok = false;
    let entries = vec![
        entry(Some("IOService:/display0"), "IOPort", None),
        no_handle,
        entry(None, "DCPAVServiceProxy", Some("External")),
    ];
    let r = get_display_av_service(&identity, &location, &entries);
    assert_eq!(r, Ok((2, 0x37)));
}

#[test]
fn test_av_service_walk_location_not_listed() {
    let identity = external_display(0x10ac, 0x4080, 0);
    let location = Some(String::from("IOService:/display9"));
    let entries = vec![
        entry(Some("IOService:/display0"), "IOPort", None),
        entry(None, "DCPAVServiceProxy", Some("External")),
    ];
    let r = get_display_av_service(&identity, &location, &entries);
    assert_eq!(r, Err(Error::ServiceNotFound));
}

#[test]
fn test_av_service_walk_name_query_failure_is_io_error() {
    let identity = external_display(0x10ac, 0x4080, 0);
    let location = Some(String::from("IOService:/display0"));
    let broken = RegistryEntry {
        path: None,
        name: Err(-536870206),
        location: None,
        av_service_ok: false,
        parent_provider_class: None,
    };
    let entries = vec![entry(Some("IOService:/display0"), "IOPort", None), broken];
    let r = get_display_av_service(&identity, &location, &entries);
    assert_eq!(r, Err(Error::Io(-536870206)));
}

#[test]
fn test_av_service_builtin_and_missing_location() {
    let mut builtin = external_display(0x10ac, 0x4080, 0);
    builtin.is_builtin = true;
    let r = get_display_av_service(&builtin, &Some(String::from("x")), &vec![]);
    assert_eq!(r, Err(Error::ServiceNotFound));
    let external = external_display(0x10ac, 0x4080, 0);
    let r = get_display_av_service(&external, &None, &vec![]);
    assert_eq!(r, Err(Error::DisplayLocationNotFound));
}

#[test]
fn test_i2c_address_for_parent_class() {
    assert_eq!(i2c_address(&None), 0x37);
    assert_eq!(i2c_address(&Some(String::from("IODisplayBridge"))), 0x37);
    assert_eq!(i2c_address(&Some(String::from("AppleDCPMCDP29XX"))), 0xb7);
}
