//! Merging a new road segment with the segments it continues, as a sequence
//! of steps: the chain is walked back from the segment's start, then forward
//! from its end, one connected segment at a time, as long as each junction
//! has exactly one segment not yet taken; a chain of more than the new
//! segment is merged into one segment that replaces its parts.
use vstd::prelude::*;
use vstd::string::*;
use crate::grid::GridCell;
use crate::road::chain::{other_end, spec_other_end, turn_for_chain};
use crate::text::{push_i64, signed_decimal};

verus! {

/// Why a merge failed.
#[derive(Clone, Copy, PartialEq, Eq, Structural, Debug)]
pub enum MergeError {
    /// The segment could not be loaded.
    LoadFailed,
    /// No segment has this id.
    NotFound(i64),
    /// The merged segment could not be saved.
    SaveFailed,
}

/// The text of a merge error; `detail` is the database error behind it,
/// where there is one.
pub open spec fn merge_error_text(error: MergeError, detail: Seq<char>) -> Seq<char> {
    match error {
        MergeError::LoadFailed => "Failed to load segment: "@ + detail,
        MergeError::NotFound(id) => "Segment "@ + signed_decimal(id as int) + " not found"@,
        MergeError::SaveFailed => "Failed to save merged segment: "@ + detail,
    }
}

/// The text of a merge error.
pub fn merge_error_message(error: MergeError, detail: &str) -> (s: String)
    ensures
        s@ == merge_error_text(error, detail@),
{
    match error {
        MergeError::LoadFailed => {
            let mut s = String::from_str("Failed to load segment: ");
            s.append(detail);
            s
        },
        MergeError::NotFound(id) => {
            let mut s = String::from_str("Segment ");
            push_i64(&mut s, id);
            s.append(" not found");
            s
        },
        MergeError::SaveFailed => {
            let mut s = String::from_str("Failed to save merged segment: ");
            s.append(detail);
            s
        },
    }
}

/// A segment of the chain: its id and its two ends.
#[derive(Clone, Copy, PartialEq, Eq, Structural, Debug)]
pub struct ChainLink {
    pub id: i64,
    pub start: GridCell,
    pub end: GridCell,
}

/// Where a merge stands. `taken` counts the segments added to the chain
/// besides the new one.
#[derive(Clone, Copy, PartialEq, Eq, Structural, Debug)]
pub enum MergeState {
    Loading { segment: i64 },
    CheckingEnds { segment: i64, start: GridCell, end: GridCell },
    WalkingBack { segment: i64, end: GridCell, at: GridCell, taken: u64 },
    WalkingForward { segment: i64, at: GridCell, taken: u64 },
    Saving,
    Replacing { merged: i64 },
    Redrawing { merged: i64 },
    Finished,
}

/// The outcome of the last action of a merge.
#[derive(Clone, Copy, PartialEq, Eq, Structural, Debug)]
pub enum MergeEvent {
    /// The segment; `None` when no segment has the id.
    Loaded(Option<ChainLink>),
    /// Loading the segment failed.
    LoadFailed,
    /// How many other segments touch its start and its end.
    Connections { at_start: u64, at_end: u64 },
    /// The one segment not yet taken at the junction (`find_linear_chain_segment`);
    /// `None` when there is none or more than one.
    Next(Option<ChainLink>),
    /// The merged segment was saved under this id, or saving it failed.
    Saved(Option<i64>),
    Done,
}

/// What to do next in a merge.
#[derive(Clone, Copy, PartialEq, Eq, Structural, Debug)]
pub enum MergeAction {
    /// Load the segments touching the segment's start and end.
    LoadConnections,
    /// Find the segment continuing the chain at `at`.
    FindNext { at: GridCell },
    /// Take segment `id` into the chain: before the pieces taken so far
    /// (walking back) or after them (walking forward), run the other way
    /// when `turned`; mark it taken.
    Take { id: i64, turned: bool, in_front: bool },
    /// Merge the chain (its cell paths laid end to end, the largest
    /// importance, a new spline) and save it as a new segment.
    SaveMerged,
    /// Delete the segments of the chain.
    DeleteParts,
    /// Redraw and send the road maps of the chunks the parts crossed.
    RedrawChunks,
    /// Nothing was merged: the segment stays as it is.
    Keep(i64),
    /// The chain is now the segment with this id.
    Merged(i64),
    Fail(MergeError),
    Stop,
}

/// One step of merging segment `segment` with the segments it continues.
pub open spec fn spec_merge_step(s: MergeState, e: MergeEvent) -> (MergeState, MergeAction) {
    match (s, e) {
        (MergeState::Loading { segment }, MergeEvent::Loaded(l)) => match l {
            Some(l) => (
                MergeState::CheckingEnds { segment, start: l.start, end: l.end },
                MergeAction::LoadConnections,
            ),
            None => (MergeState::Finished, MergeAction::Fail(MergeError::NotFound(segment))),
        },
        (MergeState::Loading { .. }, MergeEvent::LoadFailed) => (
            MergeState::Finished,
            MergeAction::Fail(MergeError::LoadFailed),
        ),
        (MergeState::CheckingEnds { segment, start, end }, MergeEvent::Connections { at_start, at_end }) => {
            if at_start == 0 && at_end == 0 {
                (MergeState::Finished, MergeAction::Keep(segment))
            } else {
                (
                    MergeState::WalkingBack { segment, end, at: start, taken: 0 },
                    MergeAction::FindNext { at: start },
                )
            }
        },
        (MergeState::WalkingBack { segment, end, at, taken }, MergeEvent::Next(n)) => match n {
            Some(k) => (
                MergeState::WalkingBack {
                    segment,
                    end,
                    at: spec_other_end(k.start, k.end, at),
                    taken: (taken + 1) as u64,
                },
                MergeAction::Take { id: k.id, turned: k.end == at, in_front: true },
            ),
            None => (
                MergeState::WalkingForward { segment, at: end, taken },
                MergeAction::FindNext { at: end },
            ),
        },
        (MergeState::WalkingForward { segment, at, taken }, MergeEvent::Next(n)) => match n {
            Some(k) => (
                MergeState::WalkingForward {
                    segment,
                    at: spec_other_end(k.start, k.end, at),
                    taken: (taken + 1) as u64,
                },
                MergeAction::Take { id: k.id, turned: k.start != at, in_front: false },
            ),
            None => {
                if taken == 0 {
                    (MergeState::Finished, MergeAction::Keep(segment))
                } else {
                    (MergeState::Saving, MergeAction::SaveMerged)
                }
            },
        },
        (MergeState::WalkingBack { segment, end, at, taken }, MergeEvent::Done) => (
            MergeState::WalkingBack { segment, end, at, taken },
            MergeAction::FindNext { at },
        ),
        (MergeState::WalkingForward { segment, at, taken }, MergeEvent::Done) => (
            MergeState::WalkingForward { segment, at, taken },
            MergeAction::FindNext { at },
        ),
        (MergeState::Saving, MergeEvent::Saved(o)) => match o {
            Some(merged) => (MergeState::Replacing { merged }, MergeAction::DeleteParts),
            None => (MergeState::Finished, MergeAction::Fail(MergeError::SaveFailed)),
        },
        (MergeState::Replacing { merged }, MergeEvent::Done) => (
            MergeState::Redrawing { merged },
            MergeAction::RedrawChunks,
        ),
        (MergeState::Redrawing { merged }, MergeEvent::Done) => (
            MergeState::Finished,
            MergeAction::Merged(merged),
        ),
        _ => (MergeState::Finished, MergeAction::Stop),
    }
}

/// One step of merging a segment with the segments it continues; see
/// `spec_merge_step`. After a `Take`, the caller reports `Done`, and the
/// walk goes on from the taken segment's far end.
pub fn merge_step(s: MergeState, e: MergeEvent) -> (r: (MergeState, MergeAction))
    requires
        s matches MergeState::WalkingBack { taken, .. } ==> taken < u64::MAX,
        s matches MergeState::WalkingForward { taken, .. } ==> taken < u64::MAX,
    ensures
        r == spec_merge_step(s, e),
{
    match (s, e) {
        (MergeState::Loading { segment }, MergeEvent::Loaded(l)) => match l {
            Some(l) => (
                MergeState::CheckingEnds { segment, start: l.start, end: l.end },
                MergeAction::LoadConnections,
            ),
            None => (MergeState::Finished, MergeAction::Fail(MergeError::NotFound(segment))),
        },
        (MergeState::Loading { .. }, MergeEvent::LoadFailed) => (
            MergeState::Finished,
            MergeAction::Fail(MergeError::LoadFailed),
        ),
        (MergeState::CheckingEnds { segment, start, end }, MergeEvent::Connections { at_start, at_end }) => {
            if at_start == 0 && at_end == 0 {
                (MergeState::Finished, MergeAction::Keep(segment))
            } else {
                (
                    MergeState::WalkingBack { segment, end, at: start, taken: 0 },
                    MergeAction::FindNext { at: start },
                )
            }
        },
        (MergeState::WalkingBack { segment, end, at, taken }, MergeEvent::Next(n)) => match n {
            Some(k) => (
                MergeState::WalkingBack { segment, end, at: other_end(k.start, k.end, at), taken: taken + 1 },
                MergeAction::Take { id: k.id, turned: turn_for_chain(k.start, k.end, at, false), in_front: true },
            ),
            None => (
                MergeState::WalkingForward { segment, at: end, taken },
                MergeAction::FindNext { at: end },
            ),
        },
        (MergeState::WalkingForward { segment, at, taken }, MergeEvent::Next(n)) => match n {
            Some(k) => (
                MergeState::WalkingForward { segment, at: other_end(k.start, k.end, at), taken: taken + 1 },
                MergeAction::Take { id: k.id, turned: turn_for_chain(k.start, k.end, at, true), in_front: false },
            ),
            None => {
                if taken == 0 {
                    (MergeState::Finished, MergeAction::Keep(segment))
                } else {
                    (MergeState::Saving, MergeAction::SaveMerged)
                }
            },
        },
        (MergeState::WalkingBack { segment, end, at, taken }, MergeEvent::Done) => (
            MergeState::WalkingBack { segment, end, at, taken },
            MergeAction::FindNext { at },
        ),
        (MergeState::WalkingForward { segment, at, taken }, MergeEvent::Done) => (
            MergeState::WalkingForward { segment, at, taken },
            MergeAction::FindNext { at },
        ),
        (MergeState::Saving, MergeEvent::Saved(o)) => match o {
            Some(merged) => (MergeState::Replacing { merged }, MergeAction::DeleteParts),
            None => (MergeState::Finished, MergeAction::Fail(MergeError::SaveFailed)),
        },
        (MergeState::Replacing { merged }, MergeEvent::Done) => (
            MergeState::Redrawing { merged },
            MergeAction::RedrawChunks,
        ),
        (MergeState::Redrawing { merged }, MergeEvent::Done) => (
            MergeState::Finished,
            MergeAction::Merged(merged),
        ),
        _ => (MergeState::Finished, MergeAction::Stop),
    }
}

/// Law: a segment with nothing to continue is kept as it is, a chain is
/// saved only once both walks ended with at least one segment taken, and
/// the old parts are deleted only after the merged segment was saved.
pub proof fn law_merge_steps(s: MergeState, e: MergeEvent)
    ensures
        spec_merge_step(s, e).1 is SaveMerged ==> (s matches MergeState::WalkingForward { taken, .. }
            && taken > 0 && e == MergeEvent::Next(None)),
        spec_merge_step(s, e).1 is DeleteParts ==> (s == MergeState::Saving && e matches MergeEvent::Saved(
            Some(_),
        )),
        s matches MergeState::CheckingEnds { segment, .. } ==> (e == MergeEvent::Connections {
            at_start: 0,
            at_end: 0,
        } ==> spec_merge_step(s, e).1 == MergeAction::Keep(segment)),
{
}

/// Law: the walks of a merge. A loaded segment with no other segment at
/// either end is kept; otherwise the walk starts back from its start. Walking
/// back, a continuing segment is taken in front of the chain (turned when it
/// ends at the junction) and the walk moves to its far end, counting it; when
/// none continues, the walk goes forward from the new segment's end with the
/// same count. Walking forward, a continuing segment is taken behind the chain
/// (turned when it does not start at the junction); when none continues, the
/// chain is saved if any segment was taken, else the new segment is kept.
pub proof fn law_merge_walks(
    segment: i64,
    link: ChainLink,
    start: GridCell,
    end: GridCell,
    at: GridCell,
    taken: u64,
    at_start: u64,
    at_end: u64,
)
    requires
        taken < u64::MAX,
    ensures
        spec_merge_step(MergeState::Loading { segment }, MergeEvent::Loaded(Some(link))) == (
            MergeState::CheckingEnds { segment, start: link.start, end: link.end },
            MergeAction::LoadConnections,
        ),
        spec_merge_step(MergeState::Loading { segment }, MergeEvent::Loaded(None)) == (
            MergeState::Finished,
            MergeAction::Fail(MergeError::NotFound(segment)),
        ),
        spec_merge_step(MergeState::Loading { segment }, MergeEvent::LoadFailed) == (
            MergeState::Finished,
            MergeAction::Fail(MergeError::LoadFailed),
        ),
        spec_merge_step(
            MergeState::CheckingEnds { segment, start, end },
            MergeEvent::Connections { at_start, at_end },
        ) == if at_start == 0 && at_end == 0 {
            (MergeState::Finished, MergeAction::Keep(segment))
        } else {
            (MergeState::WalkingBack { segment, end, at: start, taken: 0 }, MergeAction::FindNext { at: start })
        },
        spec_merge_step(MergeState::WalkingBack { segment, end, at, taken }, MergeEvent::Next(Some(link))) == (
            MergeState::WalkingBack {
                segment,
                end,
                at: if link.start == at { link.end } else { link.start },
                taken: (taken + 1) as u64,
            },
            MergeAction::Take { id: link.id, turned: link.end == at, in_front: true },
        ),
        spec_merge_step(MergeState::WalkingBack { segment, end, at, taken }, MergeEvent::Next(None)) == (
            MergeState::WalkingForward { segment, at: end, taken },
            MergeAction::FindNext { at: end },
        ),
        spec_merge_step(MergeState::WalkingForward { segment, at, taken }, MergeEvent::Next(Some(link))) == (
            MergeState::WalkingForward {
                segment,
                at: if link.start == at { link.end } else { link.start },
                taken: (taken + 1) as u64,
            },
            MergeAction::Take { id: link.id, turned: link.start != at, in_front: false },
        ),
        spec_merge_step(MergeState::WalkingForward { segment, at, taken }, MergeEvent::Next(None)) == if taken
            == 0 {
            (MergeState::Finished, MergeAction::Keep(segment))
        } else {
            (MergeState::Saving, MergeAction::SaveMerged)
        },
        spec_merge_step(MergeState::WalkingBack { segment, end, at, taken }, MergeEvent::Done) == (
            MergeState::WalkingBack { segment, end, at, taken },
            MergeAction::FindNext { at },
        ),
        spec_merge_step(MergeState::WalkingForward { segment, at, taken }, MergeEvent::Done) == (
            MergeState::WalkingForward { segment, at, taken },
            MergeAction::FindNext { at },
        ),
{
}

/// Law: once the chain is saved, the old parts are deleted, the chunks
/// redrawn, and the saved segment's id is the answer; a failed save fails the
/// merge.
pub proof fn law_merge_replaces(merged: i64)
    ensures
        spec_merge_step(MergeState::Saving, MergeEvent::Saved(Some(merged))) == (
            MergeState::Replacing { merged },
            MergeAction::DeleteParts,
        ),
        spec_merge_step(MergeState::Saving, MergeEvent::Saved(None)) == (
            MergeState::Finished,
            MergeAction::Fail(MergeError::SaveFailed),
        ),
        spec_merge_step(MergeState::Replacing { merged }, MergeEvent::Done) == (
            MergeState::Redrawing { merged },
            MergeAction::RedrawChunks,
        ),
        spec_merge_step(MergeState::Redrawing { merged }, MergeEvent::Done) == (
            MergeState::Finished,
            MergeAction::Merged(merged),
        ),
{
}

/// Law, across calls: a segment taken while walking back is merged even when
/// nothing continues forward. From the start of the backward walk, taking one
/// segment, confirming it, finding no more behind and none ahead ends in
/// saving the merged chain.
pub proof fn law_merge_keeps_backward_segments(segment: i64, end: GridCell, at: GridCell, link: ChainLink)
    ensures
        ({
            let s0 = MergeState::WalkingBack { segment, end, at, taken: 0 };
            let s1 = spec_merge_step(s0, MergeEvent::Next(Some(link))).0;
            let s2 = spec_merge_step(s1, MergeEvent::Done).0;
            let s3 = spec_merge_step(s2, MergeEvent::Next(None)).0;
            spec_merge_step(s3, MergeEvent::Next(None)) == (MergeState::Saving, MergeAction::SaveMerged)
        }),
{
}

} // verus!
