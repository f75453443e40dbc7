//! Zero-terminated strings: construction is accepted exactly when the final
//! byte is already zero, and the logical view excludes that byte.

use pebble_skip::standard_c::CStr;
use pebble_skip::system::System;
use pebble_skip::Box;

#[test]
fn stack_string_accepted_iff_terminated() {
    let ok = CStr::try_from_stack("abc\0").unwrap();
    assert_eq!(ok.bytes, b"abc\0".to_vec());
    assert!(CStr::try_from_stack("abc").is_err());
    assert!(CStr::try_from_stack("").is_err());
}

#[test]
fn static_string_accepted_iff_terminated() {
    let ok = CStr::try_from_static("xy\0").unwrap();
    assert_eq!(ok.bytes, b"xy\0".to_vec());
    assert!(CStr::try_from_static("xy").is_err());
}

#[test]
fn interior_zero_is_not_enough() {
    assert!(CStr::try_from_stack("a\0b").is_err());
}

#[test]
fn logical_length_excludes_the_terminator() {
    let c = CStr::try_from_stack("abc\0").unwrap();
    assert_eq!(c.len(), 3);
    assert_eq!(c.as_c_str().len(), 4);
    assert_eq!(c.as_plain_bytes(), b"abc".to_vec());
}

#[test]
fn terminator_alone_is_the_empty_string() {
    let c = CStr::try_from_stack("\0").unwrap();
    assert_eq!(c.len(), 0);
    assert_eq!(c.as_plain_bytes(), Vec::<u8>::new());
}

#[test]
fn heap_reinterpretation_round_trips_without_allocating() {
    let mut sys = System::new();
    let plain = Box::new(&mut sys, b"hi\0".to_vec()).unwrap();
    let allocs = sys.allocation_count();
    let c = match CStr::try_from_plain(plain) {
        Ok(c) => c,
        Err(_) => panic!("terminated bytes should be accepted"),
    };
    assert_eq!(c.value.bytes, b"hi\0".to_vec());
    let back = CStr::into_plain(c);
    assert_eq!(back.value, b"hi\0".to_vec());
    assert_eq!(sys.allocation_count(), allocs);
}

#[test]
fn heap_reinterpretation_rejects_unterminated_bytes() {
    let mut sys = System::new();
    let plain = Box::new(&mut sys, b"hi".to_vec()).unwrap();
    let back = match CStr::try_from_plain(plain) {
        Ok(_) => panic!("unterminated bytes should be rejected"),
        Err(b) => b,
    };
    assert_eq!(back.value, b"hi".to_vec());
}

#[test]
fn from_static_unchecked_trusts_the_caller() {
    let c = CStr::from_static_zero_terminated_unchecked("lit\0");
    assert_eq!(c.bytes, b"lit\0".to_vec());
}
