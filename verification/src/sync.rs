//! The rule by which a depth diff is held against the book: whether it is
//! already covered, leaves a gap, continues the diff before it, or does not.

use vstd::prelude::*;

use crate::book::{DepthDiff, DepthDiffView};

verus! {

/// What is to be done with a depth diff.
#[derive(Debug, Clone, Copy, PartialEq, Eq, Structural)]
pub enum Verdict {
    /// The book already covers the diff, or has no snapshot yet: the diff is
    /// dropped.
    Stale,
    /// The diff is the first since the snapshot and does not join it: a
    /// fresh snapshot is to be fetched.
    Resync,
    /// The diff is to be merged into the book.
    Apply,
    /// The diff does not continue the diff that was merged last: it is
    /// dropped, and no snapshot is fetched.
    OutOfSync,
}

/// The verdict on `diff` for a book that was last brought up to
/// `last_update_id`, where the diff that was merged last ended at
/// `prev_applied_final_id`, or none was merged since the snapshot and
/// `prev_applied_final_id` is zero.
pub open spec fn verdict_of(last_update_id: u64, prev_applied_final_id: u64, diff: DepthDiffView)
    -> Verdict {
    if diff.final_id <= last_update_id || last_update_id == 0 {
        Verdict::Stale
    } else if prev_applied_final_id == 0 && (diff.first_id > last_update_id + 1 || last_update_id
        + 1 > diff.final_id) {
        Verdict::Resync
    } else if prev_applied_final_id == 0 || prev_applied_final_id == diff.prev_final_id {
        Verdict::Apply
    } else {
        Verdict::OutOfSync
    }
}

/// Holds a depth diff against the state of the book; see [`verdict_of`].
pub fn classify(last_update_id: u64, prev_applied_final_id: u64, diff: &DepthDiff) -> (verdict:
    Verdict)
    ensures
        verdict == verdict_of(last_update_id, prev_applied_final_id, diff@),
{
    if diff.final_id <= last_update_id || last_update_id == 0 {
        Verdict::Stale
    } else if prev_applied_final_id == 0 && diff.first_id > last_update_id + 1 {
        Verdict::Resync
    } else if prev_applied_final_id == 0 || prev_applied_final_id == diff.prev_final_id {
        Verdict::Apply
    } else {
        Verdict::OutOfSync
    }
}

} // verus!
