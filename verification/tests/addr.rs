//! Tests of the address codec: encoding paths, decoding and classifying
//! returned address structures.

use uds_windows::is_utf8_bytes;
use uds_windows::netc;
use uds_windows::render_address;
use uds_windows::sockaddr_un;
use uds_windows::AddressKind;
use uds_windows::ErrorKind;
use uds_windows::SocketAddr;

#[test]
fn long_path() {
    let name = b"asdfasdfasdfasdfasdfasdfasdfasdfasdfasdfasdfasdfasdfasdfasdfa\
                 sasdfasdfasdasdfasdfasdfadfasdfasdfasdfasdfasdf";
    assert!(name.len() >= netc::SUN_PATH_LEN);
    match sockaddr_un(name) {
        Err(ref e) if e.kind() == ErrorKind::InvalidInput => {}
        Err(e) => panic!("unexpected error {}", e.message()),
        Ok(_) => panic!("unexpected success"),
    }
}

#[test]
fn abstract_namespace_not_allowed() {
    assert!(sockaddr_un(b"\0asdf").is_err());
}

#[test]
fn interior_nul_rejected() {
    let err = sockaddr_un(b"/tmp/\0sock").unwrap_err();
    assert_eq!(err.kind(), ErrorKind::InvalidInput);
    assert_eq!(err.message(), "paths may not contain interior null bytes");
}

#[test]
fn capacity_boundary() {
    // One byte below the field capacity still leaves room for the
    // terminator; at the capacity it no longer does.
    let just_fits = vec![b'a'; netc::SUN_PATH_LEN - 1];
    let (addr, len) = sockaddr_un(&just_fits).unwrap();
    assert_eq!(addr.sun_family, netc::AF_UNIX);
    assert_eq!(len as usize, netc::SOCKADDR_UN_LEN);

    let too_long = vec![b'a'; netc::SUN_PATH_LEN];
    let err = sockaddr_un(&too_long).unwrap_err();
    assert_eq!(err.kind(), ErrorKind::InvalidInput);
    assert_eq!(err.message(), "path must be shorter than SUN_LEN");
}

#[test]
fn encode_layout() {
    let (addr, len) = sockaddr_un(b"/tmp/sock").unwrap();
    assert_eq!(addr.sun_family, netc::AF_UNIX);
    assert_eq!(addr.sun_path.len(), netc::SUN_PATH_LEN);
    assert_eq!(&addr.sun_path[..9], b"/tmp/sock");
    assert!(addr.sun_path[9..].iter().all(|&b| b == 0));
    // offset + path bytes + the null terminator
    assert_eq!(len, 2 + 9 + 1);
}

#[test]
fn encode_decode_roundtrip() {
    let (addr, len) = sockaddr_un(b"/tmp/sock").unwrap();
    let sa = SocketAddr::from_parts(addr, len).unwrap();
    assert!(!sa.is_unnamed());
    assert_eq!(sa.as_pathname(), Some(b"/tmp/sock".to_vec()));
}

#[test]
fn largest_path_roundtrip() {
    let path = vec![b'a'; netc::SUN_PATH_LEN - 1];
    let (addr, len) = sockaddr_un(&path).unwrap();
    let sa = SocketAddr::from_parts(addr, len).unwrap();
    assert_eq!(sa.as_pathname(), Some(path));
}

#[test]
fn pathname_without_terminator_takes_the_whole_window() {
    // A platform may report a length that covers no null byte at all;
    // the pathname is then everything the declared length covers.
    let mut addr = uds_windows::netc::sockaddr_un {
        sun_family: netc::AF_UNIX,
        sun_path: vec![0u8; netc::SUN_PATH_LEN],
    };
    addr.sun_path[..4].copy_from_slice(b"abcd");
    let sa = SocketAddr::from_parts(addr, (netc::SUN_PATH_OFFSET + 4) as i32).unwrap();
    assert_eq!(sa.as_pathname(), Some(b"abcd".to_vec()));
}

#[test]
fn empty_path_decodes_unnamed() {
    let (addr, len) = sockaddr_un(b"").unwrap();
    assert_eq!(len as usize, netc::SUN_PATH_OFFSET);
    let sa = SocketAddr::from_parts(addr, len).unwrap();
    assert!(sa.is_unnamed());
    assert_eq!(sa.as_pathname(), None);
}

#[test]
fn zero_length_is_unnamed_whatever_the_buffer_holds() {
    let (addr, _) = sockaddr_un(b"/tmp/sock").unwrap();
    let sa = SocketAddr::from_parts(addr, 0).unwrap();
    assert!(sa.is_unnamed());
}

#[test]
fn family_mismatch_rejected() {
    let (mut addr, len) = sockaddr_un(b"/tmp/sock").unwrap();
    addr.sun_family = netc::AF_UNIX + 1;
    let err = SocketAddr::from_parts(addr, len).unwrap_err();
    assert_eq!(err.kind(), ErrorKind::InvalidInput);
}

#[test]
fn family_ignored_for_zero_length() {
    let (mut addr, _) = sockaddr_un(b"").unwrap();
    addr.sun_family = netc::AF_UNIX + 1;
    let sa = SocketAddr::from_parts(addr, 0).unwrap();
    assert!(sa.is_unnamed());
}

#[test]
fn pathname_stops_at_first_nul() {
    // A returned buffer is classified up to its first null byte, even
    // when the declared length covers more.
    let (mut addr, _) = sockaddr_un(b"/tmp/sock").unwrap();
    addr.sun_path[4] = 0;
    let sa = SocketAddr::from_parts(addr, 12).unwrap();
    assert_eq!(sa.as_pathname(), Some(b"/tmp".to_vec()));
}

#[test]
fn abstract_name_when_platform_supports_it() {
    let mut addr = uds_windows::netc::sockaddr_un {
        sun_family: netc::AF_UNIX,
        sun_path: vec![0u8; netc::SUN_PATH_LEN],
    };
    addr.sun_path[1] = b'a';
    addr.sun_path[2] = b'b';
    addr.sun_path[3] = b'c';
    let len: i32 = (netc::SUN_PATH_OFFSET + 4) as i32;

    // Where a leading zero byte is ambiguous with "no data", the
    // address reads as unnamed ...
    let kind = uds_windows::classify_addr(&addr, len, true);
    assert!(matches!(kind, AddressKind::Unnamed));

    // ... and where it is not, it marks an abstract name carrying the
    // bytes after the sentinel.
    let kind = uds_windows::classify_addr(&addr, len, false);
    match kind {
        AddressKind::Abstract(name) => assert_eq!(name, b"abc".to_vec()),
        _ => panic!("expected an abstract name"),
    }
}

#[test]
fn invalid_text_path_rejected_on_encode() {
    // a lone continuation byte is not valid text for the platform
    let err = sockaddr_un(&[b'/', b'a', 0x80]).unwrap_err();
    assert_eq!(err.kind(), ErrorKind::InvalidInput);
    assert_eq!(err.message(), "path contains invalid characters");
}

#[test]
fn invalid_text_pathname_rejected_on_decode() {
    let mut addr = uds_windows::netc::sockaddr_un {
        sun_family: netc::AF_UNIX,
        sun_path: vec![0u8; netc::SUN_PATH_LEN],
    };
    // a pathname window holding a stray non-text byte
    addr.sun_path[0] = b'/';
    addr.sun_path[1] = 0xff;
    let len: i32 = (netc::SUN_PATH_OFFSET + 3) as i32;
    let err = SocketAddr::from_parts(addr, len).unwrap_err();
    assert_eq!(err.kind(), ErrorKind::InvalidInput);
    assert_eq!(err.message(), "pathname in the address is not valid text");
}

#[test]
fn multibyte_text_roundtrip() {
    // two-, three- and four-byte scalars survive the round trip
    let path = "/tmp/s\u{e9}\u{20ac}\u{1f496}".as_bytes();
    let (addr, len) = sockaddr_un(path).unwrap();
    let sa = SocketAddr::from_parts(addr, len).unwrap();
    assert_eq!(sa.as_pathname(), Some(path.to_vec()));
}

#[test]
fn utf8_validity_boundaries() {
    assert!(is_utf8_bytes(b""));
    assert!(is_utf8_bytes(b"plain ascii"));
    assert!(is_utf8_bytes("caf\u{e9} \u{20ac} \u{1f496}".as_bytes()));
    // truncated sequence
    assert!(!is_utf8_bytes(&[0xe2, 0x82]));
    // overlong two-byte form of an ASCII value
    assert!(!is_utf8_bytes(&[0xc0, 0xaf]));
    // surrogate range
    assert!(!is_utf8_bytes(&[0xed, 0xa0, 0x80]));
    // beyond the last scalar value
    assert!(!is_utf8_bytes(&[0xf4, 0x90, 0x80, 0x80]));
    // stray continuation byte
    assert!(!is_utf8_bytes(&[0x80]));
}

#[test]
fn rendered_addresses() {
    let out = render_address(&AddressKind::Unnamed);
    assert_eq!(out, b"(unnamed)".to_vec());
    let out = render_address(&AddressKind::Pathname(b"/tmp/sock".to_vec()));
    assert_eq!(out, b"\"/tmp/sock\" (pathname)".to_vec());
    let out = render_address(&AddressKind::Abstract(vec![0x01, b'x']));
    assert_eq!(out, b"\"\\x01x\" (abstract)".to_vec());
}

#[test]
fn ascii_escaped_rendering() {
    let out = uds_windows::ascii_escaped(b"a\0\n\\");
    assert_eq!(out, b"\"a\\x00\\n\\\\\"".to_vec());

    let out = uds_windows::ascii_escaped(b"");
    assert_eq!(out, b"\"\"".to_vec());

    let out = uds_windows::ascii_escaped(&[0x9f, b'\t', b'"']);
    assert_eq!(out, b"\"\\x9f\\t\\\"\"".to_vec());
}
