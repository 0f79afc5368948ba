//! A single exercise repetition event reported by a client device.

use vstd::prelude::*;

verus! {

/// One repetition event. Every metric is optional: clients may report
/// a bare event, so the minimal record carries no metric at all. The
/// service accepts these records and, by its current contract,
/// discards them (see the repetition handler).
#[derive(Debug, PartialEq)]
pub struct Repetition {
    /// Name of the exercise the repetition belongs to.
    pub exercise: Option<String>,
    /// Ordinal of the repetition within its set.
    pub number: Option<u64>,
    /// How long the repetition took, in whole milliseconds.
    pub duration_ms: Option<u64>,
}

impl Default for Repetition {
    /// The minimal repetition record: no metric reported.
    fn default() -> (r: Self)
        ensures
            r.exercise is None,
            r.number is None,
            r.duration_ms is None,
    {
        Repetition { exercise: None, number: None, duration_ms: None }
    }
}

} // verus!
