//! The road segments present in one chunk, with the flag that asks for its
//! road distance field to be rebuilt.
use vstd::prelude::*;
use crate::road::chain::PathSegment;

verus! {

/// The roads of one chunk.
pub struct ChunkRoads {
    /// The segments in the chunk.
    pub segments: Vec<PathSegment>,
    /// Whether the chunk's road field must be regenerated.
    pub dirty: bool,
}

/// The segments without those with id `id`.
pub open spec fn without_id(segs: Seq<PathSegment>, id: i64) -> Seq<PathSegment> {
    segs.filter(|s: PathSegment| s.id != id)
}

/// Whether some segment has id `id`.
pub open spec fn has_id(segs: Seq<PathSegment>, id: i64) -> bool {
    exists|i: int| 0 <= i < segs.len() && (#[trigger] segs[i]).id == id
}

impl ChunkRoads {
    /// A chunk with no road.
    pub fn new() -> (r: ChunkRoads)
        ensures
            r.segments@.len() == 0,
            !r.dirty,
    {
        ChunkRoads { segments: Vec::new(), dirty: false }
    }

    /// Adds a segment and marks the chunk for regeneration.
    pub fn add_segment(&mut self, segment: PathSegment)
        ensures
            final(self).segments@ == old(self).segments@.push(segment),
            final(self).dirty,
    {
        self.segments.push(segment);
        self.dirty = true;
    }

    /// Removes every segment with this id; when one was there, marks the
    /// chunk for regeneration. Returns whether one was removed.
    pub fn remove_segment(&mut self, segment_id: i64) -> (removed: bool)
        ensures
            final(self).segments@ == without_id(old(self).segments@, segment_id),
            removed == has_id(old(self).segments@, segment_id),
            final(self).dirty == (old(self).dirty || removed),
    {
        let ghost old_segs = self.segments@;
        let mut kept: Vec<PathSegment> = Vec::new();
        let mut found = false;
        let mut taken: Vec<PathSegment> = Vec::new();
        std::mem::swap(&mut taken, &mut self.segments);
        let ghost all = taken@;
        assert(all == old_segs);
        while taken.len() > 0
            invariant
                kept@ + without_id(taken@, segment_id) == without_id(all, segment_id),
                found || has_id(taken@, segment_id) <==> has_id(all, segment_id),
            decreases taken@.len(),
        {
            let ghost before = taken@;
            let s = taken.remove(0);
            proof {
                assert(before =~= seq![s] + taken@);
                taken@.lemma_filter_prepend(s, |x: PathSegment| x.id != segment_id);
                if has_id(before, segment_id) {
                    let i = choose|i: int| 0 <= i < before.len() && (#[trigger] before[i]).id == segment_id;
                    if i > 0 {
                        assert(taken@[i - 1] == before[i]);
                    }
                }
                if has_id(taken@, segment_id) {
                    let i = choose|i: int| 0 <= i < taken@.len() && (#[trigger] taken@[i]).id == segment_id;
                    assert(before[i + 1] == taken@[i]);
                }
            }
            if s.id != segment_id {
                let ghost k0 = kept@;
                kept.push(s);
                proof {
                    assert(kept@ + without_id(taken@, segment_id) =~= k0 + (seq![s] + without_id(
                        taken@,
                        segment_id,
                    )));
                }
            } else {
                found = true;
            }
        }
        proof {
            reveal(Seq::filter);
            assert(without_id(taken@, segment_id) =~= Seq::<PathSegment>::empty());
            assert(kept@ =~= without_id(all, segment_id));
        }
        self.segments = kept;
        if found {
            self.dirty = true;
        }
        found
    }

    /// Whether the chunk has any road.
    pub fn has_roads(&self) -> (r: bool)
        ensures
            r == (self.segments@.len() > 0),
    {
        self.segments.len() > 0
    }
}

/// After a segment is removed from a chunk, no segment of the chunk has its id.
pub proof fn law_removed_segment_is_gone(segs: Seq<PathSegment>, id: i64)
    ensures
        !has_id(without_id(segs, id), id),
{
    let kept = without_id(segs, id);
    if has_id(kept, id) {
        let i = choose|i: int| 0 <= i < kept.len() && (#[trigger] kept[i]).id == id;
        segs.lemma_filter_pred(|s: PathSegment| s.id != id, i);
    }
}

/// Removing a segment keeps every segment with another id.
pub proof fn law_remove_keeps_others(segs: Seq<PathSegment>, id: i64, i: int)
    requires
        0 <= i < segs.len(),
        segs[i].id != id,
    ensures
        without_id(segs, id).contains(segs[i]),
{
    segs.lemma_filter_contains(|s: PathSegment| s.id != id, i);
}

} // verus!
