use std::io::{Error, ErrorKind};

use nix::errno::Errno;
use tippytap::{
    creation_error, open_error, CreationError, DeviceBuilder, DeviceMode, InterfaceFieldReplaceUnit,
    InterfaceName, InterfaceRequest, OpenFailure, StringError,
};

#[test]
fn flags_for_tun_without_packet_info() {
    let b = DeviceBuilder::new(DeviceMode::Tun);
    assert_eq!(b.flags(), 0x1001);
    assert_eq!(b.flags() as i32, libc::IFF_TUN | libc::IFF_NO_PI);
}

#[test]
fn flags_for_tap_with_packet_info() {
    let mut builder = DeviceBuilder::new(DeviceMode::Tap);
    let b = builder.packet_info(true);
    assert_eq!(b.flags(), 0x0002);
    assert_eq!(b.flags() as i32, libc::IFF_TAP);
}

#[test]
fn flags_for_tap_without_packet_info() {
    let mut builder = DeviceBuilder::new(DeviceMode::Tap);
    let b = builder.packet_info(true).packet_info(false);
    assert_eq!(b.flags(), 0x1002);
}

#[test]
fn field_unit_holds_flags() {
    assert_eq!(InterfaceFieldReplaceUnit::flags(0x1001).get_flags(), 0x1001);
}

#[test]
fn request_with_name() {
    let req = InterfaceRequest::tun_set_request("tap3", 0x1002).unwrap();
    assert_eq!(req.get_name().to_string().unwrap(), "tap3");
    assert_eq!(req.get_fru().get_flags(), 0x1002);
}

#[test]
fn request_with_bad_name() {
    let err = InterfaceRequest::tun_set_request("abcdefghijklmnopq", 1).unwrap_err();
    assert_eq!(err, StringError::StringTooLong(16));
}

#[test]
fn builder_request_without_name_is_empty() {
    let req = DeviceBuilder::new(DeviceMode::Tun).request().unwrap();
    assert_eq!(req.get_name().name, [0u8; 16]);
    assert_eq!(req.get_fru().get_flags(), 0x1001);
}

#[test]
fn builder_request_with_name() {
    let mut builder = DeviceBuilder::new(DeviceMode::Tap);
    let req = builder.name("vtap0").request().unwrap();
    assert_eq!(req.get_name().to_string().unwrap(), "vtap0");
    assert_eq!(req.get_fru().get_flags(), 0x1002);
}

#[test]
fn builder_request_with_invalid_name() {
    let mut builder = DeviceBuilder::new(DeviceMode::Tap);
    let err = builder.name("t\u{e4}p").request().unwrap_err();
    assert!(matches!(err, CreationError::InvalidName(StringError::InvalidCharacter(1))));
}

#[test]
fn finish_keeps_requested_name() {
    let mut builder = DeviceBuilder::new(DeviceMode::Tun);
    let b = builder.name("tun7");
    let req = b.request().unwrap();
    let dev = b.finish(5u32, Ok(()), &req).unwrap();
    assert_eq!(dev.name(), "tun7");
    assert_eq!(dev.mode(), DeviceMode::Tun);
    assert_eq!(*dev.file(), 5u32);
}

#[test]
fn finish_takes_assigned_name() {
    let b = DeviceBuilder::new(DeviceMode::Tap);
    let mut req = b.request().unwrap();
    req.set_name(InterfaceName::from_str("tap0").unwrap());
    assert_eq!(req.get_fru().get_flags(), 0x1002);
    let dev = b.finish((), Ok(()), &req).unwrap();
    assert_eq!(dev.name(), "tap0");
    assert_eq!(dev.describe(), "TapDevice(tap0)");
}

#[test]
fn finish_reports_control_call_error() {
    let b = DeviceBuilder::new(DeviceMode::Tun);
    let req = b.request().unwrap();
    let err = b.finish((), Err(Errno::EPERM), &req).unwrap_err();
    assert!(matches!(err, CreationError::IoctlError(Errno::EPERM)));
}

#[test]
fn finish_reports_mangled_name() {
    let b = DeviceBuilder::new(DeviceMode::Tun);
    let mut req = b.request().unwrap();
    req.set_name(InterfaceName { name: [b'x'; 16] });
    let err = b.finish((), Ok(()), &req).unwrap_err();
    assert!(matches!(err, CreationError::InvalidName(StringError::MangledString)));
}

#[test]
fn open_error_by_kind() {
    assert!(matches!(open_error(Error::from(ErrorKind::NotFound)), CreationError::FileNotFound));
    assert!(matches!(
        open_error(Error::from(ErrorKind::PermissionDenied)),
        CreationError::PermissionDenied
    ));
    match open_error(Error::from(ErrorKind::AlreadyExists)) {
        CreationError::UnableToOpenFile(e) => assert_eq!(e.kind(), ErrorKind::AlreadyExists),
        other => panic!("unexpected {:?}", other),
    }
}

#[test]
fn creation_error_by_failure() {
    assert!(matches!(
        creation_error(OpenFailure::NotFound, Error::from(ErrorKind::Other)),
        CreationError::FileNotFound
    ));
    assert!(matches!(
        creation_error(OpenFailure::PermissionDenied, Error::from(ErrorKind::Other)),
        CreationError::PermissionDenied
    ));
    assert!(matches!(
        creation_error(OpenFailure::Other, Error::from(ErrorKind::Interrupted)),
        CreationError::UnableToOpenFile(_)
    ));
}

#[test]
fn mode_names() {
    assert_eq!(DeviceMode::Tun.to_string(), "tun");
    assert_eq!(DeviceMode::Tap.to_string(), "tap");
}

#[test]
fn record_size_matches_platform() {
    assert_eq!(tippytap::IFREQ_SIZE, std::mem::size_of::<libc::ifreq>());
}

#[test]
fn record_layout() {
    let req = InterfaceRequest::tun_set_request("tun3", 0x1001).unwrap();
    let bytes = req.to_bytes();
    assert_eq!(&bytes[..4], b"tun3");
    assert!(bytes[4..16].iter().all(|b| *b == 0));
    assert_eq!([bytes[16], bytes[17]], 0x1001i16.to_ne_bytes());
    assert!(bytes[18..].iter().all(|b| *b == 0));
}

#[test]
fn record_name_read_back() {
    let req = InterfaceRequest::tun_set_request("", 0x1002).unwrap();
    let mut bytes = req.to_bytes();
    bytes[..5].copy_from_slice(b"tap9\0");
    let name = InterfaceRequest::name_of_record(&bytes);
    assert_eq!(name.to_string().unwrap(), "tap9");
}

#[test]
fn interface_map_fields() {
    let m = tippytap::InterfaceMap { mem_start: 1, mem_end: 2, base_addr: 3, irq: 4, dma: 5, port: 6 };
    let n = m;
    assert_eq!(m, n);
    assert_eq!(n.port, 6);
}
