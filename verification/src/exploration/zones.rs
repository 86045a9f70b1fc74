//! The exploration zones that an explorer reveals: those whose seed cell lies
//! within the explored radius.
use vstd::prelude::*;
use crate::grid::{hex_distance, GridCell};

verus! {

/// A Voronoi seed of the exploration map: its cell and its zone's id.
#[derive(Clone, Copy, PartialEq, Eq, Structural, Debug)]
pub struct ZoneSeed {
    pub cell_q: i32,
    pub cell_r: i32,
    pub zone_id: i64,
}

/// The seed's cell.
pub open spec fn seed_cell(s: ZoneSeed) -> GridCell {
    GridCell { q: s.cell_q, r: s.cell_r }
}

/// Whether the server's `i32` arithmetic of the distance from `center` to the
/// seed stays in range.
pub open spec fn distance_fits(center: GridCell, s: ZoneSeed) -> bool {
    &&& i32::MIN <= s.cell_q - center.q <= i32::MAX
    &&& i32::MIN <= s.cell_r - center.r <= i32::MAX
    &&& i32::MIN <= s.cell_q + s.cell_r <= i32::MAX
    &&& i32::MIN <= center.q + center.r <= i32::MAX
    &&& i32::MIN <= (s.cell_q + s.cell_r) - (center.q + center.r) <= i32::MAX
    &&& hex_distance(seed_cell(s), center) * 2 <= i32::MAX
    &&& s.cell_q - center.q != i32::MIN
    &&& s.cell_r - center.r != i32::MIN
    &&& (s.cell_q + s.cell_r) - (center.q + center.r) != i32::MIN
}

/// The zones, in the order of their seeds, whose seed lies at most `radius`
/// hex steps from `center`.
pub open spec fn zones_within_spec(center: GridCell, radius: i32, seeds: Seq<ZoneSeed>) -> Seq<i64> {
    seeds.filter(|s: ZoneSeed| hex_distance(seed_cell(s), center) <= radius).map_values(
        |s: ZoneSeed| s.zone_id,
    )
}

/// The zones whose seeds lie within `radius` of `center`, from the seeds of
/// the region around it.
pub fn zones_in_radius(center: &GridCell, radius: i32, seeds: &Vec<ZoneSeed>) -> (r: Vec<i64>)
    requires
        forall|i: int| 0 <= i < seeds@.len() ==> distance_fits(*center, #[trigger] seeds@[i]),
    ensures
        r@ == zones_within_spec(*center, radius, seeds@),
{
    let mut r: Vec<i64> = Vec::new();
    let mut i: usize = 0;
    while i < seeds.len()
        invariant
            i <= seeds@.len(),
            r@ == zones_within_spec(*center, radius, seeds@.subrange(0, i as int)),
        decreases seeds@.len() - i,
    {
        let s = seeds[i];
        let d = crate::grid::unsigned_distance(&GridCell { q: s.cell_q, r: s.cell_r }, center);
        proof {
            let pre = seeds@.subrange(0, i as int);
            let post = seeds@.subrange(0, i + 1);
            assert(post.drop_last() =~= pre);
            assert(post.last() == s);
            reveal(Seq::filter);
        }
        if d <= radius as u64 && radius >= 0 {
            r.push(s.zone_id);
            proof {
                assert(hex_distance(seed_cell(s), *center) <= radius);
            }
        } else {
            proof {
                assert(!(hex_distance(seed_cell(s), *center) <= radius));
            }
        }
        i = i + 1;
    }
    assert(seeds@.subrange(0, seeds@.len() as int) =~= seeds@);
    r
}

} // verus!
