//! Buffer operations: zeroed allocation, the shrink-then-reallocate
//! protocol, and the byte-range primitives.

use core::cmp::Ordering;
use pebble_skip::standard_c::memory::{
    buffer_from_vec, calloc, drop_free_buffer, memcmp, memcpy, memset, resize_realloc,
    ReallocError, ReallocOk,
};
use pebble_skip::system::{SysEvent, System};

#[test]
fn calloc_hands_out_zeroed_bytes() {
    let mut sys = System::new();
    let b = calloc(&mut sys, 4).unwrap();
    assert_eq!(b.items, vec![0u8; 4]);
    assert_eq!(b.cap, 4);
    assert_eq!(sys.events, vec![SysEvent::Alloc]);
}

#[test]
fn calloc_fails_cleanly_when_refused() {
    let mut sys = System::with_alloc_fuel(0);
    assert!(calloc(&mut sys, 4).is_err());
    assert!(sys.events.is_empty());
}

#[test]
fn shrinking_destroys_exactly_the_tail_before_reallocating() {
    let mut sys = System::new();
    let items: Vec<String> = vec!["a".into(), "b".into(), "c".into(), "d".into(), "e".into()];
    let buffer = buffer_from_vec(&mut sys, items).unwrap();
    let before = sys.events.len();
    let r = resize_realloc(&mut sys, buffer, 2);
    match r {
        Ok(ReallocOk::ShrunkenOrEqual(b)) => {
            assert_eq!(b.items, vec!["a".to_string(), "b".to_string()]);
            assert_eq!(b.cap, 2);
        }
        _ => panic!("shrink should succeed"),
    }
    assert_eq!(
        &sys.events[before..],
        &[
            SysEvent::ElemDropped,
            SysEvent::ElemDropped,
            SysEvent::ElemDropped,
            SysEvent::ReallocAttempt,
            SysEvent::Alloc,
        ]
    );
}

#[test]
fn failed_shrink_still_destroyed_the_tail_first() {
    let mut sys = System::with_alloc_fuel(1);
    let items: Vec<u32> = vec![1, 2, 3];
    let buffer = buffer_from_vec(&mut sys, items).unwrap();
    let before = sys.events.len();
    let r = resize_realloc(&mut sys, buffer, 1);
    match r {
        Err(ReallocError::CouldNotShrink(b)) => {
            assert_eq!(b.items, vec![1]);
            assert_eq!(b.cap, 3);
        }
        _ => panic!("the allocator was out of fuel"),
    }
    assert_eq!(
        &sys.events[before..],
        &[
            SysEvent::ElemDropped,
            SysEvent::ElemDropped,
            SysEvent::ReallocAttempt,
        ]
    );
}

#[test]
fn growing_reallocates_first_and_keeps_every_element() {
    let mut sys = System::new();
    let buffer = buffer_from_vec(&mut sys, vec![7u8, 8]).unwrap();
    let before = sys.events.len();
    match resize_realloc(&mut sys, buffer, 5) {
        Ok(ReallocOk::Grown(b)) => {
            assert_eq!(b.items, vec![7, 8]);
            assert_eq!(b.cap, 5);
        }
        _ => panic!("grow should succeed"),
    }
    assert_eq!(
        &sys.events[before..],
        &[SysEvent::ReallocAttempt, SysEvent::Alloc]
    );
}

#[test]
fn failed_grow_returns_the_buffer_unmodified() {
    let mut sys = System::with_alloc_fuel(1);
    let buffer = buffer_from_vec(&mut sys, vec![7u8, 8]).unwrap();
    match resize_realloc(&mut sys, buffer, 5) {
        Err(ReallocError::CouldNotGrowOrMove(b)) => {
            assert_eq!(b.items, vec![7, 8]);
            assert_eq!(b.cap, 2);
        }
        _ => panic!("the allocator was out of fuel"),
    }
}

#[test]
fn equal_length_resize_keeps_everything() {
    let mut sys = System::new();
    let buffer = buffer_from_vec(&mut sys, vec![1u8, 2]).unwrap();
    match resize_realloc(&mut sys, buffer, 2) {
        Ok(ReallocOk::ShrunkenOrEqual(b)) => assert_eq!(b.items, vec![1, 2]),
        _ => panic!("equal-length resize should succeed"),
    }
}

#[test]
fn buffer_free_is_balanced_in_the_trace() {
    let mut sys = System::new();
    let buffer = buffer_from_vec(&mut sys, vec![1u16, 2]).unwrap();
    drop_free_buffer(&mut sys, buffer);
    assert_eq!(sys.events, vec![SysEvent::Alloc, SysEvent::Free]);
}

#[test]
fn memcmp_equal_ranges() {
    assert_eq!(memcmp(b"abc", b"abc"), Ordering::Equal);
    assert_eq!(memcmp(b"", b""), Ordering::Equal);
}

#[test]
fn memcmp_first_difference_decides_with_platform_orientation() {
    assert_eq!(memcmp(b"abc", b"abd"), Ordering::Greater);
    assert_eq!(memcmp(b"abd", b"abc"), Ordering::Less);
    assert_eq!(memcmp(b"\x01", b"\x02"), Ordering::Greater);
}

#[test]
fn memcpy_copies_the_whole_range() {
    let mut dest = vec![0u8; 3];
    let src = vec![9u8, 8, 7];
    memcpy(&mut dest, &src);
    assert_eq!(dest, src);
}

#[test]
fn memset_fills_every_byte() {
    let mut dest = vec![1u8, 2, 3, 4];
    memset(&mut dest, 0xAB);
    assert_eq!(dest, vec![0xAB; 4]);
}
