//! Vibration pattern validation: boundary cases of the bounded-sequence
//! rules.

use pebble_skip::user_interface::vibes::{VibePattern, VibePatternError, MAX_SEGMENT_MS};

#[test]
fn a_reasonable_pattern_is_accepted_unchanged() {
    let p = match VibePattern::new(vec![100, 200, 300]) {
        Ok(p) => p,
        Err(_) => panic!("the pattern should be accepted"),
    };
    assert_eq!(p.durations, vec![100, 200, 300]);
}

#[test]
fn the_empty_pattern_is_rejected() {
    let err = match VibePattern::new(Vec::new()) {
        Ok(_) => panic!("the empty pattern should be rejected"),
        Err(e) => e,
    };
    assert_eq!(err, VibePatternError::Empty);
}

#[test]
fn a_segment_over_the_bound_is_rejected_with_its_index() {
    let err = match VibePattern::new(vec![100, 200, 10_001, 10_002]) {
        Ok(_) => panic!("an over-long segment should be rejected"),
        Err(e) => e,
    };
    assert_eq!(err, VibePatternError::DurationTooLong { index: 2 });
}

#[test]
fn the_bound_itself_is_still_accepted() {
    let p = match VibePattern::new(vec![MAX_SEGMENT_MS]) {
        Ok(p) => p,
        Err(_) => panic!("the pattern should be accepted"),
    };
    assert_eq!(p.durations, vec![MAX_SEGMENT_MS]);
}

#[test]
fn a_single_zero_segment_is_accepted() {
    let p = match VibePattern::new(vec![0]) {
        Ok(p) => p,
        Err(_) => panic!("the pattern should be accepted"),
    };
    assert_eq!(p.durations, vec![0]);
}
