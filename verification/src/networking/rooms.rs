//! Visibility rooms: a player sees the chunks within a fixed radius of its
//! lord's chunk, and changes rooms when the lord changes chunk.
use vstd::prelude::*;

verus! {

/// How many chunks around the lord's chunk the player sees, on each axis.
pub const ROOM_VIEW_RADIUS: i32 = 4;

/// The chunks seen from chunk `(cx, cy)`: the square of radius 4 around it,
/// column by column (`dx` from -4 to 4, then `dy` from -4 to 4).
pub open spec fn nearby_chunks_spec(cx: i32, cy: i32) -> Seq<(int, int)> {
    Seq::new(81, |k: int| (cx + k / 9 - 4, cy + k % 9 - 4))
}

/// The chunks whose rooms a player joins when its lord stands in chunk `(cx, cy)`.
pub fn nearby_room_chunks(cx: i32, cy: i32) -> (r: Vec<(i32, i32)>)
    requires
        i32::MIN + 4 <= cx <= i32::MAX - 4,
        i32::MIN + 4 <= cy <= i32::MAX - 4,
    ensures
        r@.len() == 81,
        forall|k: int|
            0 <= k < 81 ==> (#[trigger] r@[k]).0 == nearby_chunks_spec(cx, cy)[k].0 && r@[k].1
                == nearby_chunks_spec(cx, cy)[k].1,
{
    let mut r: Vec<(i32, i32)> = Vec::new();
    let mut dx: i32 = -ROOM_VIEW_RADIUS;
    while dx <= ROOM_VIEW_RADIUS
        invariant
            -4 <= dx <= 5,
            i32::MIN + 4 <= cx <= i32::MAX - 4,
            i32::MIN + 4 <= cy <= i32::MAX - 4,
            r@.len() == (dx + 4) * 9,
            forall|k: int|
                0 <= k < r@.len() ==> (#[trigger] r@[k]).0 == cx + k / 9 - 4 && r@[k].1 == cy + k % 9
                    - 4,
        decreases 5 - dx,
    {
        let mut dy: i32 = -ROOM_VIEW_RADIUS;
        while dy <= ROOM_VIEW_RADIUS
            invariant
                -4 <= dx <= 4,
                -4 <= dy <= 5,
                i32::MIN + 4 <= cx <= i32::MAX - 4,
                i32::MIN + 4 <= cy <= i32::MAX - 4,
                r@.len() == (dx + 4) * 9 + (dy + 4),
                forall|k: int|
                    0 <= k < r@.len() ==> (#[trigger] r@[k]).0 == cx + k / 9 - 4 && r@[k].1 == cy + k
                        % 9 - 4,
            decreases 5 - dy,
        {
            let ghost k = r@.len() as int;
            proof {
                vstd::arithmetic::div_mod::lemma_fundamental_div_mod_converse(k, 9, dx + 4, dy + 4);
            }
            r.push((cx + dx, cy + dy));
            dy = dy + 1;
        }
        dx = dx + 1;
    }
    proof {
        assert forall|k: int| 0 <= k < 81 implies (#[trigger] r@[k]).0 == nearby_chunks_spec(cx, cy)[k].0
            && r@[k].1 == nearby_chunks_spec(cx, cy)[k].1 by {}
    }
    r
}

/// Whether the lord moved to another chunk, so that its rooms change.
pub fn chunk_changed(old_x: i32, old_y: i32, new_x: i32, new_y: i32) -> (r: bool)
    ensures
        r == (old_x != new_x || old_y != new_y),
{
    old_x != new_x || old_y != new_y
}

} // verus!
