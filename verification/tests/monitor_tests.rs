use ddc_macos::error::{verify_io, Error, ErrorCode};
use ddc_macos::identity::DisplayIdentity;
use ddc_macos::monitor::{Monitor, MonitorService};

fn identity(vendor_id: u32, product_id: u32, serial: u32) -> DisplayIdentity {
    DisplayIdentity { vendor_id, product_id, serial, is_builtin: false }
}

#[test]
fn test_attach_prefers_integrated_backend() {
    let m = Monitor::attach(identity(0x10ac, 0x4080, 1), Some(7u32), Some((9u32, 0xb7))).unwrap();
    assert!(matches!(m.service, MonitorService::Integrated(7)));
    assert_eq!(m.i2c_address, 0x37);
    assert_eq!(m.delay_ns, 0);
}

#[test]
fn test_attach_falls_back_to_unified_backend() {
    let m = Monitor::attach(identity(0x10ac, 0x4080, 1), None, Some((9u32, 0xb7))).unwrap();
    assert!(matches!(m.service, MonitorService::Unified(9, 0xb7)));
    assert_eq!(m.i2c_address, 0xb7);
}

#[test]
fn test_attach_unmatched_display_is_omitted() {
    assert!(Monitor::<u32>::attach(identity(0x10ac, 0x4080, 1), None, None).is_none());
}

#[test]
fn test_monitor_frames_commands_for_its_chip_address() {
    let m = Monitor::new(identity(0x10ac, 0x4080, 1), MonitorService::Integrated(3u32), 0x37);
    let packet = m.encode_command(&vec![0x01, 0x60]);
    assert_eq!(packet, vec![0x51, 0x82, 0x01, 0x60, 0xdc]);
    let mut echoed = packet.clone();
    echoed[4] ^= 1;
    assert_eq!(m.decode_response(&echoed), Ok(vec![0x01, 0x60]));
    let r = m.decode_response(&vec![0xaa, 0x85, 0x01]);
    assert_eq!(r, Err(Error::Ddc(ErrorCode::InvalidLength)));
}

#[test]
fn test_set_sleep_delay() {
    let mut m = Monitor::new(identity(0x10ac, 0x4080, 1), MonitorService::Integrated(3u32), 0x37);
    m.set_sleep_delay(40_000_000);
    assert_eq!(m.delay_ns, 40_000_000);
    assert_eq!(m.i2c_address, 0x37);
}

#[test]
fn test_description_uses_product_name_when_present() {
    let m = Monitor::new(identity(0x10ac, 0x4080, 1), MonitorService::Integrated(3u32), 0x37);
    let d = m.description(Some(String::from("DELL U2720Q")));
    assert_eq!(d, "DELL U2720Q");
}

#[test]
fn test_description_falls_back_to_identity_numbers() {
    let m = Monitor::new(identity(0x10ac, 0x4080, 1), MonitorService::Integrated(3u32), 0x37);
    assert_eq!(m.description(None), "10ac:4080");
    let m = Monitor::new(identity(0, 0xf, 1), MonitorService::Integrated(3u32), 0x37);
    assert_eq!(m.description(None), "0000:000f");
}

#[test]
fn test_serial_number_rendering() {
    let m = Monitor::new(identity(0x10ac, 0x4080, 1234567890), MonitorService::Integrated(3u32), 0x37);
    assert_eq!(m.serial_number(), Some(String::from("1234567890")));
    let m = Monitor::new(identity(0x10ac, 0x4080, 7), MonitorService::Integrated(3u32), 0x37);
    assert_eq!(m.serial_number(), Some(String::from("7")));
}

#[test]
fn test_serial_number_zero_means_absent() {
    let m = Monitor::new(identity(0x10ac, 0x4080, 0), MonitorService::Integrated(3u32), 0x37);
    assert_eq!(m.serial_number(), None);
}

#[test]
fn test_verify_io_maps_status_codes() {
    assert_eq!(verify_io(0), Ok(()));
    assert_eq!(verify_io(-536870206), Err(Error::Io(-536870206)));
}
