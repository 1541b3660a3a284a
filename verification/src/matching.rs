//! Pieces of the guest-star / remnant match result that hold no measurements.

use vstd::prelude::*;

verus! {

/// Verbal grades of one match candidate: how well position, date and
/// brightness agree, and the overall confidence.
#[derive(Clone, Debug)]
pub struct ScoreBreakdown {
    pub spatial_match: String,
    pub temporal_match: String,
    pub magnitude_match: String,
    pub overall_confidence: String,
}

impl Default for ScoreBreakdown {
    /// A breakdown with no grades yet: every grade is empty.
    fn default() -> (b: Self)
        ensures
            b.spatial_match@ == Seq::<char>::empty(),
            b.temporal_match@ == Seq::<char>::empty(),
            b.magnitude_match@ == Seq::<char>::empty(),
            b.overall_confidence@ == Seq::<char>::empty(),
    {
        ScoreBreakdown {
            spatial_match: String::new(),
            temporal_match: String::new(),
            magnitude_match: String::new(),
            overall_confidence: String::new(),
        }
    }
}

} // verus!
