use linux_video::structs::{Capability, VersionTriple};
use linux_video::types::{CapabilityFlag, ContentType};
use linux_video::utils::{
    check_dev_name, check_str, get_ascii, get_str, invalid_data, invalid_input, is_null,
    protocol_violation, ErrorKind, Internal,
};

#[test]
fn error_constructors_carry_kind_and_message() {
    let e = invalid_input("bad argument");
    assert_eq!(e.kind(), ErrorKind::InvalidInput);
    assert_eq!(e.message(), "bad argument");
    let e = invalid_data("bad reply");
    assert_eq!(e.kind(), ErrorKind::InvalidData);
    let e = protocol_violation("diverged");
    assert_eq!(e.kind(), ErrorKind::ProtocolViolation);
    assert_eq!(e.message(), "diverged");
}

#[test]
fn null_byte_predicate() {
    assert!(is_null(&0));
    assert!(!is_null(&1));
    assert!(!is_null(&b'a'));
}

#[test]
fn ascii_prefix_stops_at_terminator() {
    assert_eq!(get_ascii(b"uvcvideo\0\0\0\0"), b"uvcvideo".to_vec());
    assert_eq!(get_ascii(b"\0junk"), Vec::<u8>::new());
    assert_eq!(get_ascii(b"abc"), b"abc".to_vec());
    assert_eq!(get_ascii(b""), Vec::<u8>::new());
}

#[test]
fn c_string_decoding() {
    assert_eq!(get_str(b"uvcvideo\0garbage").unwrap(), "uvcvideo");
    assert_eq!(get_str(b"plain").unwrap(), "plain");
    assert!(check_str(b"ok\0").is_ok());
    // Invalid UTF-8 before the terminator is malformed device data.
    let bad = [0xffu8, 0xfe, 0x00];
    assert_eq!(get_str(&bad).err().unwrap().kind(), ErrorKind::InvalidData);
    assert!(check_str(&bad).is_err());
    // Invalid bytes after the terminator do not matter.
    let hidden = [b'o', b'k', 0x00, 0xff];
    assert_eq!(get_str(&hidden).unwrap(), "ok");
}

#[test]
fn device_name_prefixes() {
    assert_eq!(check_dev_name(b"video0"), Some(ContentType::Video));
    assert_eq!(check_dev_name(b"video"), Some(ContentType::Video));
    assert_eq!(check_dev_name(b"vbi3"), Some(ContentType::Vbi));
    assert_eq!(check_dev_name(b"radio1"), Some(ContentType::Sdr));
    assert_eq!(check_dev_name(b"swradio0"), Some(ContentType::Sdr));
    assert_eq!(check_dev_name(b"media0"), None);
    assert_eq!(check_dev_name(b"vid"), None);
    assert_eq!(check_dev_name(b""), None);
}

#[test]
fn capability_strings_decode() {
    let mut driver = [0u8; 16];
    driver[..8].copy_from_slice(b"uvcvideo");
    let mut card = [0u8; 32];
    card[..6].copy_from_slice(b"WebCam");
    let mut bus_info = [0u8; 32];
    bus_info[..3].copy_from_slice(b"usb");
    let caps = Capability {
        driver,
        card,
        bus_info,
        version: VersionTriple { major: 6, minor: 1, patch: 0 },
        capabilities: CapabilityFlag::new(0x04000001),
        device_capabilities: CapabilityFlag::new(0x04000001),
    };
    assert_eq!(caps.driver().unwrap(), "uvcvideo");
    assert_eq!(caps.card().unwrap(), "WebCam");
    assert_eq!(caps.bus_info().unwrap(), "usb");
    assert_eq!(caps.version().major, 6);
    assert!(caps.capabilities().contains(0x1));
}

#[test]
fn internal_wrapper_round_trip() {
    let w = Internal::new(42u32);
    assert_eq!(*w.inner(), 42);
    assert_eq!(w.into_inner(), 42);
}

#[test]
fn internal_map_applies_function() {
    let w = Internal::new(21u32);
    let doubled = w.map(|v| v * 2);
    assert_eq!(doubled.into_inner(), 42);
}
