//! Walking the border of a territory of hex cells, edge by edge, as its
//! contour is traced.
use vstd::prelude::*;
use crate::grid::GridCell;

verus! {

/// The cell one step from `h` by offset `d`.
pub open spec fn step(h: GridCell, d: GridCell) -> GridCell {
    GridCell { q: (h.q + d.q) as i32, r: (h.r + d.r) as i32 }
}

/// Whether one step from `h` by `d` stays in `i32` coordinates.
pub open spec fn step_fits(h: GridCell, d: GridCell) -> bool {
    i32::MIN <= h.q + d.q <= i32::MAX && i32::MIN <= h.r + d.r <= i32::MAX
}

/// The first of the directions `(start + 6 - o) % 6` for `o` from `from` to
/// 5 (turning clockwise from `start`) whose neighbour of `center` lies outside
/// the territory.
pub open spec fn first_exterior(center: GridCell, start: int, territory: Seq<GridCell>, dirs: Seq<GridCell>, from: int) -> Option<int>
    decreases 6 - from,
{
    if from >= 6 || from < 1 {
        None
    } else {
        let d = (start + 6 - from) % 6;
        if !territory.contains(step(center, dirs[d])) {
            Some(d)
        } else {
            first_exterior(center, start, territory, dirs, from + 1)
        }
    }
}

/// The next exterior edge after the edge of `hex` in direction `dir`, turning
/// clockwise: on the corner cell when it belongs to the territory and has an
/// exterior edge, else on `hex` itself; `(hex, dir)` when there is none.
pub open spec fn next_edge(hex: GridCell, dir: int, territory: Seq<GridCell>, dirs: Seq<GridCell>) -> (GridCell, int) {
    let cw = (dir + 5) % 6;
    let corner = step(hex, dirs[cw]);
    let on_corner = first_exterior(corner, (cw + 3) % 6, territory, dirs, 1);
    if territory.contains(corner) && on_corner is Some {
        (corner, on_corner->0)
    } else {
        match first_exterior(hex, dir, territory, dirs, 1) {
            Some(d) => (hex, d),
            None => (hex, dir),
        }
    }
}

proof fn lemma_first_exterior_range(
    center: GridCell,
    start: int,
    territory: Seq<GridCell>,
    dirs: Seq<GridCell>,
    from: int,
)
    ensures
        first_exterior(center, start, territory, dirs, from) matches Some(d) ==> 0 <= d < 6,
    decreases 6 - from,
{
    if 1 <= from < 6 {
        lemma_first_exterior_range(center, start, territory, dirs, from + 1);
    }
}

fn contains_cell(territory: &Vec<GridCell>, c: GridCell) -> (b: bool)
    ensures
        b == territory@.contains(c),
{
    let mut i: usize = 0;
    while i < territory.len()
        invariant
            i <= territory@.len(),
            forall|j: int| 0 <= j < i ==> territory@[j] != c,
        decreases territory@.len() - i,
    {
        if territory[i] == c {
            assert(territory@[i as int] == c);
            return true;
        }
        i = i + 1;
    }
    false
}

fn find_exterior(center: GridCell, start: usize, territory: &Vec<GridCell>, dirs: &[GridCell; 6]) -> (r: Option<usize>)
    requires
        start < 6,
        forall|k: int| 0 <= k < 6 ==> step_fits(center, #[trigger] dirs@[k]),
    ensures
        match first_exterior(center, start as int, territory@, dirs@, 1) {
            Some(d) => (r matches Some(x) && x as int == d),
            None => r is None,
        },
{
    let mut from: usize = 1;
    while from < 6
        invariant
            1 <= from <= 6,
            start < 6,
            forall|k: int| 0 <= k < 6 ==> step_fits(center, #[trigger] dirs@[k]),
            first_exterior(center, start as int, territory@, dirs@, 1) == first_exterior(
                center,
                start as int,
                territory@,
                dirs@,
                from as int,
            ),
        decreases 6 - from,
    {
        let d = (start + 6 - from) % 6;
        let off = dirs[d];
        assert(step_fits(center, dirs@[d as int]));
        let n = GridCell { q: center.q + off.q, r: center.r + off.r };
        if !contains_cell(territory, n) {
            return Some(d);
        }
        from = from + 1;
    }
    None
}

/// The next edge of a territory's border, clockwise after the edge of `hex`
/// in direction `dir`; `dirs` are the six neighbour offsets, by direction.
pub fn next_exterior_edge(hex: GridCell, dir: usize, territory: &Vec<GridCell>, dirs: &[GridCell; 6]) -> (r: (GridCell, usize))
    requires
        dir < 6,
        forall|k: int| 0 <= k < 6 ==> step_fits(hex, #[trigger] dirs@[k]),
        forall|k: int, j: int|
            0 <= k < 6 && 0 <= j < 6 ==> step_fits(step(hex, #[trigger] dirs@[k]), #[trigger] dirs@[j]),
    ensures
        r.0 == next_edge(hex, dir as int, territory@, dirs@).0,
        r.1 == next_edge(hex, dir as int, territory@, dirs@).1,
{
    proof {
        lemma_first_exterior_range(hex, dir as int, territory@, dirs@, 1);
        lemma_first_exterior_range(
            step(hex, dirs@[((dir + 5) % 6) as int]),
            ((((dir + 5) % 6) + 3) % 6) as int,
            territory@,
            dirs@,
            1,
        );
    }
    let cw = (dir + 5) % 6;
    let off = dirs[cw];
    assert(step_fits(hex, dirs@[cw as int]));
    let corner = GridCell { q: hex.q + off.q, r: hex.r + off.r };
    if contains_cell(territory, corner) {
        let opposite = (cw + 3) % 6;
        assert forall|k: int| 0 <= k < 6 implies step_fits(corner, #[trigger] dirs@[k]) by {
            assert(step_fits(step(hex, dirs@[cw as int]), dirs@[k]));
        }
        match find_exterior(corner, opposite, territory, dirs) {
            Some(d) => {
                return (corner, d);
            },
            None => {},
        }
    }
    match find_exterior(hex, dir, territory, dirs) {
        Some(d) => (hex, d),
        None => (hex, dir),
    }
}

} // verus!
