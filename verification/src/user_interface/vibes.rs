//! Validation of custom vibration patterns.

use vstd::prelude::*;

verus! {

/// The longest single vibration segment the runtime accepts, in
/// milliseconds.
pub const MAX_SEGMENT_MS: u32 = 10_000;

/// A validated custom vibration pattern: a non-empty sequence of segment
/// durations, each within bounds, short enough to count in 32 bits.
pub struct VibePattern {
    /// The validated segment durations, in milliseconds.
    pub durations: Vec<u32>,
}

/// Why a duration sequence was rejected.
#[derive(Clone, Copy, Debug, PartialEq, Eq, Structural)]
pub enum VibePatternError {
    /// The sequence holds no segment at all.
    Empty,
    /// The sequence is longer than a 32-bit count can say.
    TooManyDurations,
    /// A segment exceeds [`MAX_SEGMENT_MS`]; the index names the first one
    /// that does.
    DurationTooLong { index: usize },
}

/// Whether a duration sequence is acceptable as a pattern.
pub open spec fn pattern_ok(durations: Seq<u32>) -> bool {
    &&& durations.len() > 0
    &&& durations.len() <= u32::MAX
    &&& forall|i: int| 0 <= i < durations.len() ==> durations[i] <= MAX_SEGMENT_MS
}

impl VibePattern {
    /// Validates a duration sequence and wraps it unchanged.
    ///
    /// Rejects — in this order of checks — an empty sequence, one whose
    /// length does not fit 32 bits, and one with a segment above
    /// [`MAX_SEGMENT_MS`], naming the first offending index.
    pub fn new(durations: Vec<u32>) -> (r: Result<VibePattern, VibePatternError>)
        ensures
            match r {
                Ok(p) => p.durations@ == durations@ && pattern_ok(durations@),
                Err(e) => !pattern_ok(durations@) && match e {
                    VibePatternError::Empty => durations@.len() == 0,
                    VibePatternError::TooManyDurations => durations@.len() > u32::MAX,
                    VibePatternError::DurationTooLong { index } => {
                        &&& 0 < durations@.len() <= u32::MAX
                        &&& index < durations@.len()
                        &&& durations@[index as int] > MAX_SEGMENT_MS
                        &&& forall|j: int| 0 <= j < index ==> durations@[j] <= MAX_SEGMENT_MS
                    },
                },
            },
    {
        if durations.len() == 0 {
            return Err(VibePatternError::Empty);
        }
        if durations.len() > u32::MAX as usize {
            return Err(VibePatternError::TooManyDurations);
        }
        let len = durations.len();
        let mut i: usize = 0;
        while i < len
            invariant
                i <= len,
                len == durations@.len(),
                0 < durations@.len() <= u32::MAX,
                forall|j: int| 0 <= j < i ==> durations@[j] <= MAX_SEGMENT_MS,
            decreases len - i,
        {
            if durations[i] > MAX_SEGMENT_MS {
                return Err(VibePatternError::DurationTooLong { index: i });
            }
            i = i + 1;
        }
        Ok(VibePattern { durations })
    }
}

} // verus!
