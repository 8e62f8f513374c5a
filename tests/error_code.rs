use getrandom::{error_unavailable, error_unknown, Error, IoRepr, CODE_PREFIX, CODE_UNAVAILABLE, CODE_UNKNOWN};
use std::mem::size_of;

#[test]
fn test_size() {
    assert_eq!(size_of::<Error>(), 4);
    assert_eq!(size_of::<Result<(), Error>>(), 4);
}

#[test]
fn code_round_trips() {
    for c in [1u32, 2, 0x12345678, 0x7fffffff, 0x80000000, u32::MAX, CODE_UNKNOWN] {
        assert_eq!(Error::from_code(c).code(), c);
    }
}

#[test]
fn library_codes() {
    assert_eq!(CODE_PREFIX, 0x57f40000);
    assert_eq!(error_unknown().code(), CODE_PREFIX | 0);
    assert_eq!(error_unavailable().code(), CODE_PREFIX | 1);
    assert_eq!(error_unknown().code(), 1475608576);
    assert_eq!(error_unavailable().code(), 1475608577);
    assert!(error_unknown() != error_unavailable());
    assert_eq!(error_unknown().code() & 0xffff0000, CODE_PREFIX);
    assert_eq!(error_unavailable().code() & 0xffff0000, CODE_PREFIX);
    assert_eq!(CODE_UNAVAILABLE, 0x57f40001);
}

#[test]
fn display_of_library_codes() {
    assert_eq!(error_unknown().to_string(), "getrandom: unknown error");
    assert_eq!(error_unavailable().to_string(), "getrandom: unavailable");
}

#[test]
fn debug_of_library_codes() {
    assert_eq!(error_unknown().to_debug_string(), "Error(\"getrandom: unknown error\")");
    assert_eq!(error_unavailable().to_debug_string(), "Error(\"getrandom: unavailable\")");
}

#[test]
fn display_and_debug_of_unresolved_code() {
    let e = Error::from_code(0x12345678);
    assert_eq!(e.to_string(), "getrandom: unknown code 0x12345678");
    assert_eq!(e.to_debug_string(), "Error(0x12345678)");
}

#[test]
fn hex_is_zero_padded_and_upper_case() {
    assert_eq!(Error::from_code(1).to_string(), "getrandom: unknown code 0x00000001");
    assert_eq!(Error::from_code(0xdeadbeef).to_string(), "getrandom: unknown code 0xDEADBEEF");
    assert_eq!(Error::from_code(0xa0b).to_debug_string(), "Error(0x00000A0B)");
    assert_eq!(Error::from_code(u32::MAX).to_debug_string(), "Error(0xFFFFFFFF)");
}

#[test]
fn msg_resolves_library_codes_only() {
    assert_eq!(error_unknown().msg(), Some("getrandom: unknown error"));
    assert_eq!(error_unavailable().msg(), Some("getrandom: unavailable"));
    assert_eq!(Error::from_code(2).msg(), None);
    assert_eq!(Error::from_code(CODE_PREFIX | 2).msg(), None);
}

#[test]
fn platform_text_comes_first() {
    assert_eq!(Error::from_code(5).msg_with(Some("platform text")), Some("platform text"));
    assert_eq!(error_unknown().msg_with(Some("platform text")), Some("platform text"));
    assert_eq!(error_unavailable().msg_with(None), Some("getrandom: unavailable"));
    assert_eq!(Error::from_code(5).msg_with(None), None);
}

#[test]
fn from_raw_os_error_cases() {
    assert_eq!(Error::from_raw_os_error(Some(7)).code(), 7);
    assert_eq!(Error::from_raw_os_error(Some(-1)).code(), u32::MAX);
    assert!(Error::from_raw_os_error(Some(0)) == error_unknown());
    assert!(Error::from_raw_os_error(None) == error_unknown());
}

#[test]
fn io_repr_cases() {
    assert!(matches!(Error::from_code(7).io_repr(), IoRepr::Os(7)));
    assert!(matches!(Error::from_code(u32::MAX).io_repr(), IoRepr::Os(-1)));
    assert!(matches!(error_unknown().io_repr(), IoRepr::Message("getrandom: unknown error")));
    assert!(matches!(error_unavailable().io_repr(), IoRepr::Message("getrandom: unavailable")));
}

#[test]
fn io_error_with_code_round_trips() {
    for n in [1i32, 5, 1000, -1, i32::MIN, i32::MAX] {
        let e = Error::from(std::io::Error::from_raw_os_error(n));
        assert_eq!(e.code(), n as u32);
        let back = std::io::Error::from(e);
        assert_eq!(back.raw_os_error(), Some(n));
    }
}

#[test]
fn io_error_with_library_code_comes_back_as_message() {
    let e = Error::from(std::io::Error::from_raw_os_error(CODE_UNAVAILABLE as i32));
    assert!(e == error_unavailable());
    let back = std::io::Error::from(e);
    assert_eq!(back.raw_os_error(), None);
    assert_eq!(back.kind(), std::io::ErrorKind::Other);
    assert_eq!(back.to_string(), "getrandom: unavailable");
}

#[test]
fn io_error_without_code_is_unknown() {
    let e = Error::from(std::io::Error::new(std::io::ErrorKind::Other, "no number"));
    assert!(e == error_unknown());
    let back = std::io::Error::from(e);
    assert_eq!(back.raw_os_error(), None);
    assert_eq!(back.to_string(), "getrandom: unknown error");
}

#[test]
fn io_error_with_zero_code_is_unknown() {
    let e = Error::from(std::io::Error::from_raw_os_error(0));
    assert!(e == error_unknown());
}

#[test]
fn equality_follows_codes() {
    let a = Error::from_code(42);
    let b = Error::from_code(42);
    let c = Error::from_code(43);
    assert!(a == a);
    assert!(a == b && b == a);
    assert!(a != c && c != a);
    let d = b;
    assert!(a == b && b == d && a == d);
    assert!(Error::from_code(CODE_UNKNOWN) == error_unknown());
    assert!(Error::from_code(CODE_UNKNOWN) != Error::from_code(CODE_UNAVAILABLE));
}

#[test]
fn platform_text_in_display_debug_and_io_form() {
    let e = Error::from_code(0x12345678);
    assert_eq!(e.display_with(Some("platform text")), "platform text");
    assert_eq!(e.debug_with(Some("platform text")), "Error(\"platform text\")");
    assert!(matches!(e.io_repr_with(Some("platform text")), IoRepr::Message("platform text")));
    assert_eq!(e.display_with(None), "getrandom: unknown code 0x12345678");
    assert_eq!(e.debug_with(None), "Error(0x12345678)");
    assert!(matches!(e.io_repr_with(None), IoRepr::Os(0x12345678)));
    assert_eq!(error_unknown().display_with(Some("platform text")), "platform text");
    assert_eq!(error_unavailable().debug_with(None), "Error(\"getrandom: unavailable\")");
}
