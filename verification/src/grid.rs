//! Axial hex-grid coordinates.
use vstd::prelude::*;
use vstd::string::*;
use crate::text::{push_i64, signed_decimal};

verus! {

/// A cell of the hex grid, in axial coordinates.
#[derive(Clone, Copy, PartialEq, Eq, Structural, Debug, Hash)]
pub struct GridCell {
    pub q: i32,
    pub r: i32,
}

/// A terrain chunk, by its chunk coordinates.
#[derive(Clone, Copy, PartialEq, Eq, Structural, Debug, Hash)]
pub struct TerrainChunkId {
    pub x: i32,
    pub y: i32,
}

/// How `{:?}` prints a cell: `GridCell { q: .., r: .. }`.
pub open spec fn cell_debug_text(c: GridCell) -> Seq<char> {
    "GridCell { q: "@ + signed_decimal(c.q as int) + ", r: "@ + signed_decimal(c.r as int)
        + " }"@
}

/// The `{:?}` text of a cell.
pub fn cell_debug(c: &GridCell) -> (s: String)
    ensures
        s@ == cell_debug_text(*c),
{
    let mut s = String::from_str("GridCell { q: ");
    push_i64(&mut s, c.q as i64);
    s.append(", r: ");
    push_i64(&mut s, c.r as i64);
    s.append(" }");
    s
}

/// Hex distance between two cells: the number of steps between them.
pub open spec fn hex_distance(a: GridCell, b: GridCell) -> int {
    let dq = a.q - b.q;
    let dr = a.r - b.r;
    let ds = (a.q + a.r) - (b.q + b.r);
    (abs(dq) + abs(dr) + abs(ds)) / 2
}

/// Absolute value.
pub open spec fn abs(v: int) -> int {
    if v < 0 {
        -v
    } else {
        v
    }
}

fn abs_i64(v: i64) -> (r: i64)
    requires
        v > i64::MIN,
    ensures
        r == abs(v as int),
{
    if v < 0 {
        -v
    } else {
        v
    }
}

/// Hex distance between two cells (the number of single-cell steps between them).
pub fn unsigned_distance(a: &GridCell, b: &GridCell) -> (d: u64)
    ensures
        d == hex_distance(*a, *b),
{
    let dq = abs_i64(a.q as i64 - b.q as i64);
    let dr = abs_i64(a.r as i64 - b.r as i64);
    let ds = abs_i64((a.q as i64 + a.r as i64) - (b.q as i64 + b.r as i64));
    ((dq + dr + ds) / 2) as u64
}

/// The larger of two integers.
pub open spec fn larger(x: int, y: int) -> int {
    if x >= y {
        x
    } else {
        y
    }
}

/// Law: the hex distance between two cells is the largest of the differences
/// of their three cube coordinates (`q`, `r` and `q + r`); it is zero exactly
/// between a cell and itself, symmetric, and obeys the triangle inequality.
pub proof fn law_hex_distance(a: GridCell, b: GridCell, c: GridCell)
    ensures
        hex_distance(a, b) == larger(
            larger(abs(a.q - b.q), abs(a.r - b.r)),
            abs((a.q + a.r) - (b.q + b.r)),
        ),
        hex_distance(a, b) == 0 <==> a == b,
        hex_distance(a, b) == hex_distance(b, a),
        hex_distance(a, c) <= hex_distance(a, b) + hex_distance(b, c),
{
}

/// Law: each of a cell's six neighbours lies at distance 1, so the distance
/// counts single steps: two cells `k` steps apart along `q` (or along `r`, or
/// along the diagonal) are at distance `k`.
pub proof fn law_hex_steps(a: GridCell, k: int)
    requires
        0 <= k,
        i32::MIN + k <= a.q <= i32::MAX - k,
        i32::MIN + k <= a.r <= i32::MAX - k,
    ensures
        hex_distance(a, GridCell { q: (a.q + k) as i32, r: a.r }) == k,
        hex_distance(a, GridCell { q: (a.q - k) as i32, r: a.r }) == k,
        hex_distance(a, GridCell { q: a.q, r: (a.r + k) as i32 }) == k,
        hex_distance(a, GridCell { q: a.q, r: (a.r - k) as i32 }) == k,
        hex_distance(a, GridCell { q: (a.q + k) as i32, r: (a.r - k) as i32 }) == k,
        hex_distance(a, GridCell { q: (a.q - k) as i32, r: (a.r + k) as i32 }) == k,
        hex_distance(a, GridCell { q: (a.q + k) as i32, r: (a.r + k) as i32 }) == 2 * k,
{
}

} // verus!
