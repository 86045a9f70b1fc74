use vstd::prelude::*;
use vstd::string::*;
use std::collections::HashSet;
use crate::grid::GridCell;
use crate::text::push_i64;
use crate::text::signed_decimal;

verus! {

broadcast use vstd::std_specs::hash::group_hash_axioms;

/// A road segment as the chain logic sees it: its id, its two ends, the cells
/// it runs through and its importance (its spline is kept beside it).
pub struct PathSegment {
    pub id: i64,
    pub start_cell: GridCell,
    pub end_cell: GridCell,
    pub cell_path: Vec<GridCell>,
    pub importance: i32,
}

/// The merged path of segments laid end to end: all cells of the first, then
/// the cells of each next one but its first (shared with the previous end).
pub open spec fn merged_path(paths: Seq<Seq<GridCell>>) -> Seq<GridCell>
    decreases paths.len(),
{
    if paths.len() == 0 {
        Seq::empty()
    } else if paths.len() == 1 {
        paths[0]
    } else {
        let last = paths.last();
        merged_path(paths.drop_last()) + if last.len() == 0 {
            Seq::empty()
        } else {
            last.drop_first()
        }
    }
}

/// The cell paths of segments.
pub open spec fn paths_of(segments: Seq<PathSegment>) -> Seq<Seq<GridCell>> {
    segments.map_values(|s: PathSegment| s.cell_path@)
}

/// Merges the cell paths of a chain of segments, given in order and each
/// oriented from the previous one's end, into one continuous path.
pub fn merge_segment_paths(segments: &Vec<PathSegment>) -> (merged: Vec<GridCell>)
    ensures
        merged@ == merged_path(paths_of(segments@)),
{
    let mut merged: Vec<GridCell> = Vec::new();
    let mut i: usize = 0;
    while i < segments.len()
        invariant
            i <= segments@.len(),
            merged@ == merged_path(paths_of(segments@.subrange(0, i as int))),
        decreases segments@.len() - i,
    {
        let path = &segments[i].cell_path;
        let ghost before = merged@;
        let from: usize = if i == 0 || path.len() == 0 { 0 } else { 1 };
        let mut k: usize = from;
        while k < path.len()
            invariant
                from <= k <= path@.len(),
                merged@ == before + path@.subrange(from as int, k as int),
            decreases path@.len() - k,
        {
            merged.push(path[k]);
            assert(merged@ =~= before + path@.subrange(from as int, k + 1));
            k = k + 1;
        }
        proof {
            let pre = paths_of(segments@.subrange(0, i as int));
            let post = paths_of(segments@.subrange(0, i + 1));
            assert(post.drop_last() =~= pre);
            assert(post.last() == path@);
            if i == 0 {
                assert(post.len() == 1);
                assert(pre.len() == 0);
                assert(merged@ =~= path@);
            } else if path@.len() == 0 {
                assert(merged@ =~= before);
                assert(merged_path(post) =~= merged_path(pre));
            } else {
                assert(path@.subrange(1, path@.len() as int) =~= path@.drop_first());
            }
        }
        i = i + 1;
    }
    assert(segments@.subrange(0, segments@.len() as int) =~= segments@);
    merged
}

/// The path run the other way.
pub fn reversed_path(path: &Vec<GridCell>) -> (r: Vec<GridCell>)
    ensures
        r@ == path@.reverse(),
{
    let mut r: Vec<GridCell> = Vec::new();
    let mut k: usize = path.len();
    while k > 0
        invariant
            k <= path@.len(),
            r@ == path@.subrange(k as int, path@.len() as int).reverse(),
        decreases k,
    {
        k = k - 1;
        r.push(path[k]);
        assert(r@ =~= path@.subrange(k as int, path@.len() as int).reverse());
    }
    assert(path@.subrange(0, path@.len() as int) =~= path@);
    r
}

/// The ids among `connected` that are not yet in the chain.
pub open spec fn unvisited(connected: Seq<i64>, visited: Set<i64>) -> Seq<i64> {
    connected.filter(|id: i64| !visited.contains(id))
}

/// The segment that continues a chain at a cell: among the segments that meet
/// there (`connected`, by id), the one not yet in the chain when there is
/// exactly one. Several make a junction and none an end: `None` then.
pub fn find_linear_chain_segment(connected: &Vec<i64>, visited: &HashSet<i64>) -> (r: Option<i64>)
    ensures
        unvisited(connected@, visited@).len() == 1 ==> r == Some(unvisited(connected@, visited@)[0]),
        unvisited(connected@, visited@).len() != 1 ==> r is None,
{
    let mut found: Option<i64> = None;
    let mut count: usize = 0;
    let mut i: usize = 0;
    while i < connected.len()
        invariant
            i <= connected@.len(),
            count == unvisited(connected@.subrange(0, i as int), visited@).len(),
            count <= i,
            count >= 1 ==> found == Some(unvisited(connected@.subrange(0, i as int), visited@)[0]),
        decreases connected@.len() - i,
    {
        let id = connected[i];
        proof {
            let pre = connected@.subrange(0, i as int);
            let post = connected@.subrange(0, i + 1);
            assert(post.drop_last() =~= pre);
            assert(post.last() == id);
            reveal(Seq::filter);
        }
        if !visited.contains(&id) {
            if count == 0 {
                found = Some(id);
            }
            count = count + 1;
        }
        i = i + 1;
    }
    assert(connected@.subrange(0, connected@.len() as int) =~= connected@);
    if count == 1 {
        found
    } else {
        None
    }
}

/// The far end of a segment reached at `connection`.
pub open spec fn spec_other_end(start: GridCell, end: GridCell, connection: GridCell) -> GridCell {
    if start == connection {
        end
    } else {
        start
    }
}

/// The far end of a segment reached at `connection`: its end when it starts
/// there, else its start.
pub fn other_end(start: GridCell, end: GridCell, connection: GridCell) -> (r: GridCell)
    ensures
        r == spec_other_end(start, end, connection),
{
    if start == connection {
        end
    } else {
        start
    }
}

/// Whether a segment reached at `connection` must be run the other way to
/// keep the chain in order: walking back from the new segment, one that ends
/// at the connection is turned; walking forward, one that does not start there.
pub fn turn_for_chain(start: GridCell, end: GridCell, connection: GridCell, forwards: bool) -> (r:
    bool)
    ensures
        forwards ==> r == (start != connection),
        !forwards ==> r == (end == connection),
{
    if forwards {
        start != connection
    } else {
        end == connection
    }
}

/// The largest importance of merged segments (1 when there are none).
pub open spec fn max_importance(imps: Seq<i32>) -> int
    decreases imps.len(),
{
    if imps.len() == 0 {
        1
    } else if imps.len() == 1 {
        imps[0] as int
    } else {
        let m = max_importance(imps.drop_last());
        if imps.last() >= m {
            imps.last() as int
        } else {
            m
        }
    }
}

/// The importance of a merged segment: the largest among its parts.
pub fn merged_importance(imps: &Vec<i32>) -> (r: i32)
    ensures
        r == max_importance(imps@),
{
    if imps.len() == 0 {
        return 1;
    }
    let mut best: i32 = imps[0];
    let mut i: usize = 1;
    assert(imps@.subrange(0, 1) =~= seq![imps@[0]]);
    while i < imps.len()
        invariant
            1 <= i <= imps@.len(),
            best == max_importance(imps@.subrange(0, i as int)),
        decreases imps@.len() - i,
    {
        assert(imps@.subrange(0, i + 1).drop_last() =~= imps@.subrange(0, i as int));
        if imps[i] >= best {
            best = imps[i];
        }
        i = i + 1;
    }
    assert(imps@.subrange(0, imps@.len() as int) =~= imps@);
    best
}

/// The road ends that a neighbour cell `n` touches among segments `segs`: for
/// each segment in order with a non-empty path, `(index, true)` when its path
/// starts on `n`, else `(index, false)` when it ends on `n`.
pub open spec fn hits_at(n: GridCell, segs: Seq<PathSegment>) -> Seq<(int, bool)>
    decreases segs.len(),
{
    if segs.len() == 0 {
        Seq::empty()
    } else {
        let rest = hits_at(n, segs.drop_last());
        let i = segs.len() - 1;
        let p = segs.last().cell_path@;
        if p.len() == 0 {
            rest
        } else if p[0] == n {
            rest.push((i, true))
        } else if p.last() == n {
            rest.push((i, false))
        } else {
            rest
        }
    }
}

/// The road ends touched by the neighbour cells, neighbour by neighbour.
pub open spec fn all_hits(ns: Seq<GridCell>, segs: Seq<PathSegment>) -> Seq<(int, bool)>
    decreases ns.len(),
{
    if ns.len() == 0 {
        Seq::empty()
    } else {
        all_hits(ns.drop_last(), segs) + hits_at(ns.last(), segs)
    }
}

/// Whether a neighbour cell lies inside a segment's path, neither at its
/// start nor at its end.
pub open spec fn inner_cell(n: GridCell, p: Seq<GridCell>) -> bool {
    p.len() > 0 && p[0] != n && p.last() != n && p.contains(n)
}

/// Whether some neighbour cell lies inside some segment's path.
pub open spec fn touches_middle(ns: Seq<GridCell>, segs: Seq<PathSegment>) -> bool {
    exists|a: int, b: int|
        0 <= a < ns.len() && 0 <= b < segs.len() && #[trigger] inner_cell(ns[a], segs[b].cell_path@)
}

/// The hit, among a non-empty list, on the segment with the longest path;
/// the last of those when several are equally long.
pub open spec fn best_hit(hits: Seq<(int, bool)>, segs: Seq<PathSegment>) -> int
    decreases hits.len(),
{
    if hits.len() <= 1 {
        0
    } else {
        let b = best_hit(hits.drop_last(), segs);
        if segs[hits.last().0].cell_path@.len() >= segs[hits[b].0].cell_path@.len() {
            hits.len() - 1
        } else {
            b
        }
    }
}

/// The message refusing a road next to the middle of another road.
pub open spec fn middle_of_road_text(cell: GridCell) -> Seq<char> {
    "Cannot build road here: cell ("@ + signed_decimal(cell.q as int) + ","@ + signed_decimal(
        cell.r as int,
    ) + ") is adjacent to middle of existing road. Use intersection action instead."@
}

/// Which road a new road cell extends, from its neighbour cells and the
/// segments around: `Ok(Some((segment index, at its start)))` for the road end
/// it touches (the longest road when it touches several), `Ok(None)` when it
/// touches none (a new road starts), and a refusal when it touches only the
/// inside of roads.
pub open spec fn extension_choice(ns: Seq<GridCell>, segs: Seq<PathSegment>, cell: GridCell) -> Result<
    Option<(int, bool)>,
    Seq<char>,
> {
    let hits = all_hits(ns, segs);
    if hits.len() == 0 {
        if touches_middle(ns, segs) {
            Err(middle_of_road_text(cell))
        } else {
            Ok(None)
        }
    } else {
        Ok(Some(hits[best_hit(hits, segs)]))
    }
}

proof fn lemma_hits_in_range(n: GridCell, segs: Seq<PathSegment>)
    ensures
        forall|k: int| 0 <= k < hits_at(n, segs).len() ==> 0 <= (#[trigger] hits_at(n, segs)[k]).0 < segs.len(),
    decreases segs.len(),
{
    if segs.len() > 0 {
        lemma_hits_in_range(n, segs.drop_last());
        let rest = hits_at(n, segs.drop_last());
        assert forall|k: int| 0 <= k < hits_at(n, segs).len() implies 0 <= (#[trigger] hits_at(n, segs)[k]).0 < segs.len() by {
            if k < rest.len() {
                assert(hits_at(n, segs)[k] == rest[k]);
            }
        }
    }
}

proof fn lemma_all_hits_in_range(ns: Seq<GridCell>, segs: Seq<PathSegment>)
    ensures
        forall|k: int| 0 <= k < all_hits(ns, segs).len() ==> 0 <= (#[trigger] all_hits(ns, segs)[k]).0 < segs.len(),
    decreases ns.len(),
{
    if ns.len() > 0 {
        lemma_all_hits_in_range(ns.drop_last(), segs);
        lemma_hits_in_range(ns.last(), segs);
        let a = all_hits(ns.drop_last(), segs);
        let h = hits_at(ns.last(), segs);
        assert forall|k: int| 0 <= k < all_hits(ns, segs).len() implies 0 <= (#[trigger] all_hits(ns, segs)[k]).0 < segs.len() by {
            if k < a.len() {
                assert(all_hits(ns, segs)[k] == a[k]);
            } else {
                assert(all_hits(ns, segs)[k] == h[k - a.len()]);
            }
        }
    }
}

/// Scans the segments for the ends and insides that neighbour `n` touches.
fn scan_neighbour(
    n: GridCell,
    segs: &Vec<PathSegment>,
    hits: &mut Vec<(usize, bool)>,
    middle: &mut bool,
)
    ensures
        final(hits)@.len() == old(hits)@.len() + hits_at(n, segs@).len(),
        forall|k: int| 0 <= k < old(hits)@.len() ==> final(hits)@[k] == old(hits)@[k],
        forall|k: int|
            0 <= k < hits_at(n, segs@).len() ==> (#[trigger] final(hits)@[old(hits)@.len() + k]).0
                == hits_at(n, segs@)[k].0 && final(hits)@[old(hits)@.len() + k].1 == hits_at(
                n,
                segs@,
            )[k].1,
        *final(middle) == (*old(middle) || exists|b: int|
            0 <= b < segs@.len() && inner_cell(n, #[trigger] segs@[b].cell_path@)),
{
    let ghost h0 = hits@;
    let ghost m0 = *middle;
    let mut j: usize = 0;
    while j < segs.len()
        invariant
            j <= segs@.len(),
            hits@.len() == h0.len() + hits_at(n, segs@.subrange(0, j as int)).len(),
            forall|k: int| 0 <= k < h0.len() ==> hits@[k] == h0[k],
            forall|k: int|
                0 <= k < hits_at(n, segs@.subrange(0, j as int)).len() ==> (#[trigger] hits@[h0.len()
                    + k]).0 == hits_at(n, segs@.subrange(0, j as int))[k].0 && hits@[h0.len() + k].1
                    == hits_at(n, segs@.subrange(0, j as int))[k].1,
            *middle == (m0 || exists|b: int|
                0 <= b < j && inner_cell(n, #[trigger] segs@[b].cell_path@)),
        decreases segs@.len() - j,
    {
        let p = &segs[j].cell_path;
        let ghost pre = segs@.subrange(0, j as int);
        let ghost post = segs@.subrange(0, j + 1);
        proof {
            assert(post.drop_last() =~= pre);
            assert(post.last() == segs@[j as int]);
        }
        let ghost hits_before = hits@;
        if p.len() > 0 {
            let first = p[0];
            let last = p[p.len() - 1];
            if first == n {
                hits.push((j, true));
            } else if last == n {
                hits.push((j, false));
            } else {
                let mut inside = false;
                let mut m: usize = 0;
                while m < p.len()
                    invariant
                        m <= p@.len(),
                        inside <==> exists|x: int| 0 <= x < m && p@[x] == n,
                    decreases p@.len() - m,
                {
                    if p[m] == n {
                        inside = true;
                    }
                    m = m + 1;
                }
                if inside {
                    *middle = true;
                    assert(p@.contains(n));
                    assert(inner_cell(n, segs@[j as int].cell_path@));
                } else {
                    assert(!p@.contains(n));
                }
            }
        }
        proof {
            assert forall|k: int|
                0 <= k < hits_at(n, post).len() implies (#[trigger] hits@[h0.len() + k]).0
                == hits_at(n, post)[k].0 && hits@[h0.len() + k].1 == hits_at(n, post)[k].1 by {
                if k < hits_at(n, pre).len() {
                    assert(hits_at(n, post)[k] == hits_at(n, pre)[k]);
                    assert(hits@[h0.len() + k] == hits_before[h0.len() + k]);
                }
            }
            assert(*middle == (m0 || exists|b: int|
                0 <= b < j + 1 && inner_cell(n, #[trigger] segs@[b].cell_path@))) by {
                if exists|b: int| 0 <= b < j + 1 && inner_cell(n, #[trigger] segs@[b].cell_path@) {
                    let b = choose|b: int| 0 <= b < j + 1 && inner_cell(n, #[trigger] segs@[b].cell_path@);
                    if b < j {
                    } else {
                        assert(b == j);
                    }
                }
            }
        }
        j = j + 1;
    }
    assert(segs@.subrange(0, segs@.len() as int) =~= segs@);
}

/// Which road a new road cell extends (see `extension_choice`), from the cells
/// around it (`neighbours`, in order) and the road segments nearby.
pub fn choose_road_extension(cell: GridCell, neighbours: &Vec<GridCell>, segs: &Vec<PathSegment>) -> (r:
    Result<Option<(usize, bool)>, String>)
    ensures
        match extension_choice(neighbours@, segs@, cell) {
            Ok(None) => r == Ok::<Option<(usize, bool)>, String>(None),
            Ok(Some((i, at_start))) => (r matches Ok(Some((ri, rs))) && ri == i && rs == at_start),
            Err(t) => r is Err && r->Err_0@ == t,
        },
{
    let mut hits: Vec<(usize, bool)> = Vec::new();
    let mut middle = false;
    let mut a: usize = 0;
    while a < neighbours.len()
        invariant
            a <= neighbours@.len(),
            hits@.len() == all_hits(neighbours@.subrange(0, a as int), segs@).len(),
            forall|k: int|
                0 <= k < hits@.len() ==> (#[trigger] hits@[k]).0 == all_hits(
                    neighbours@.subrange(0, a as int),
                    segs@,
                )[k].0 && hits@[k].1 == all_hits(neighbours@.subrange(0, a as int), segs@)[k].1,
            middle == exists|x: int, b: int|
                0 <= x < a && 0 <= b < segs@.len() && #[trigger] inner_cell(
                    neighbours@[x],
                    segs@[b].cell_path@,
                ),
        decreases neighbours@.len() - a,
    {
        let ghost pre = neighbours@.subrange(0, a as int);
        let ghost post = neighbours@.subrange(0, a + 1);
        let ghost hits_before = hits@;
        let ghost middle_before = middle;
        let n = neighbours[a];
        scan_neighbour(n, segs, &mut hits, &mut middle);
        proof {
            assert(post.drop_last() =~= pre);
            assert(post.last() == n);
            let ap = all_hits(pre, segs@);
            let h = hits_at(n, segs@);
            assert(all_hits(post, segs@) == ap + h);
            assert forall|k: int| 0 <= k < hits@.len() implies (#[trigger] hits@[k]).0 == all_hits(
                post,
                segs@,
            )[k].0 && hits@[k].1 == all_hits(post, segs@)[k].1 by {
                if k < ap.len() {
                    assert(hits@[k] == hits_before[k]);
                } else {
                    assert(hits@[ap.len() + (k - ap.len())] == hits@[k]);
                }
            }
            if middle {
                if !middle_before {
                    let b = choose|b: int| 0 <= b < segs@.len() && inner_cell(n, #[trigger] segs@[b].cell_path@);
                    assert(neighbours@[a as int] == n);
                    assert(inner_cell(neighbours@[a as int], segs@[b].cell_path@));
                }
            } else {
                assert forall|x: int, b: int|
                    0 <= x < a + 1 && 0 <= b < segs@.len() implies !#[trigger] inner_cell(
                    neighbours@[x],
                    segs@[b].cell_path@,
                ) by {
                    if x == a {
                        assert(neighbours@[x] == n);
                    }
                }
            }
        }
        a = a + 1;
    }
    let ghost ns = neighbours@;
    assert(ns.subrange(0, ns.len() as int) =~= ns);
    let ghost hs = all_hits(ns, segs@);
    proof {
        lemma_all_hits_in_range(ns, segs@);
    }
    if hits.len() == 0 {
        if middle {
            let mut s = String::from_str("Cannot build road here: cell (");
            push_i64(&mut s, cell.q as i64);
            s.append(",");
            push_i64(&mut s, cell.r as i64);
            s.append(") is adjacent to middle of existing road. Use intersection action instead.");
            proof {
                let (x, b) = choose|x: int, b: int|
                    0 <= x < ns.len() && 0 <= b < segs@.len() && #[trigger] inner_cell(
                        ns[x],
                        segs@[b].cell_path@,
                    );
                assert(inner_cell(ns[x], segs@[b].cell_path@));
                assert(touches_middle(ns, segs@));
            }
            return Err(s);
        } else {
            assert(!touches_middle(ns, segs@));
            return Ok(None);
        }
    }
    let mut best: usize = 0;
    let mut i: usize = 1;
    assert(best_hit(hs.subrange(0, 1), segs@) == 0);
    while i < hits.len()
        invariant
            1 <= i <= hits@.len(),
            hits@.len() == hs.len(),
            forall|k: int| 0 <= k < hs.len() ==> 0 <= (#[trigger] hs[k]).0 < segs@.len(),
            forall|k: int| 0 <= k < hits@.len() ==> (#[trigger] hits@[k]).0 == hs[k].0 && hits@[k].1 == hs[k].1,
            best < i,
            best == best_hit(hs.subrange(0, i as int), segs@),
        decreases hits@.len() - i,
    {
        proof {
            let post = hs.subrange(0, i + 1);
            assert(post.drop_last() =~= hs.subrange(0, i as int));
            assert(post.last() == hs[i as int]);
            assert(post[best as int] == hs[best as int]);
        }
        let cand = hits[i].0;
        let cur = hits[best].0;
        assert(cand == hs[i as int].0 && cur == hs[best as int].0);
        if segs[cand].cell_path.len() >= segs[cur].cell_path.len() {
            best = i;
        }
        i = i + 1;
    }
    assert(hs.subrange(0, hs.len() as int) =~= hs);
    Ok(Some(hits[best]))
}

/// A segment's path, or its end cells when the path is empty.
pub open spec fn base_path(start: GridCell, end: GridCell, path: Seq<GridCell>) -> Seq<GridCell> {
    if path.len() > 0 {
        path
    } else if start == end {
        seq![start]
    } else {
        seq![start, end]
    }
}

/// The path of a road extended by `cell`, at its start or its end, with the
/// new start and end cells.
pub fn extended_path(existing: &PathSegment, cell: GridCell, at_start: bool) -> (r: (
    Vec<GridCell>,
    GridCell,
    GridCell,
))
    ensures
        at_start ==> r.0@ == seq![cell] + base_path(
            existing.start_cell,
            existing.end_cell,
            existing.cell_path@,
        ) && r.1 == cell && r.2 == base_path(
            existing.start_cell,
            existing.end_cell,
            existing.cell_path@,
        ).last(),
        !at_start ==> r.0@ == base_path(
            existing.start_cell,
            existing.end_cell,
            existing.cell_path@,
        ).push(cell) && r.1 == base_path(
            existing.start_cell,
            existing.end_cell,
            existing.cell_path@,
        )[0] && r.2 == cell,
{
    let ghost base = base_path(existing.start_cell, existing.end_cell, existing.cell_path@);
    let mut path: Vec<GridCell> = Vec::new();
    if existing.cell_path.len() == 0 {
        path.push(existing.start_cell);
        if existing.start_cell != existing.end_cell {
            path.push(existing.end_cell);
        }
    } else {
        let mut k: usize = 0;
        while k < existing.cell_path.len()
            invariant
                k <= existing.cell_path@.len(),
                path@ == existing.cell_path@.subrange(0, k as int),
            decreases existing.cell_path@.len() - k,
        {
            path.push(existing.cell_path[k]);
            assert(path@ =~= existing.cell_path@.subrange(0, k + 1));
            k = k + 1;
        }
        assert(existing.cell_path@.subrange(0, existing.cell_path@.len() as int) =~= existing.cell_path@);
    }
    assert(path@ =~= base);
    if at_start {
        path.insert(0, cell);
        assert(path@ =~= seq![cell] + base);
        let end = path[path.len() - 1];
        (path, cell, end)
    } else {
        let start = path[0];
        path.push(cell);
        (path, start, cell)
    }
}

/// The message when no path joins the two ends of a requested road.
pub open spec fn no_path_text(start: GridCell, end: GridCell) -> Seq<char> {
    "No path found from ("@ + signed_decimal(start.q as int) + ","@ + signed_decimal(start.r as int)
        + ") to ("@ + signed_decimal(end.q as int) + ","@ + signed_decimal(end.r as int) + ")"@
}

/// The cells of a new road from `start` to `end`: the one cell when they are
/// equal, the two when they are neighbours (`adjacent`), otherwise the path
/// that the path finder found (`found`), or a refusal when it found none.
pub fn road_cell_path(start: GridCell, end: GridCell, adjacent: bool, found: Option<Vec<GridCell>>) -> (r:
    Result<Vec<GridCell>, String>)
    ensures
        start == end ==> (r matches Ok(p) && p@ == seq![start]),
        start != end && adjacent ==> (r matches Ok(p) && p@ == seq![start, end]),
        start != end && !adjacent ==> match found {
            Some(p) => (r matches Ok(q) && q@ == p@),
            None => r is Err && r->Err_0@ == no_path_text(start, end),
        },
{
    if start == end {
        let mut p: Vec<GridCell> = Vec::new();
        p.push(start);
        Ok(p)
    } else if adjacent {
        let mut p: Vec<GridCell> = Vec::new();
        p.push(start);
        p.push(end);
        Ok(p)
    } else {
        match found {
            Some(p) => Ok(p),
            None => {
                let mut s = String::from_str("No path found from (");
                push_i64(&mut s, start.q as i64);
                s.append(",");
                push_i64(&mut s, start.r as i64);
                s.append(") to (");
                push_i64(&mut s, end.q as i64);
                s.append(",");
                push_i64(&mut s, end.r as i64);
                s.append(")");
                Err(s)
            },
        }
    }
}

/// The total number of cells of the paths.
pub open spec fn total_cells(paths: Seq<Seq<GridCell>>) -> int
    decreases paths.len(),
{
    if paths.len() == 0 {
        0
    } else {
        total_cells(paths.drop_last()) + paths.last().len()
    }
}

/// Merging segments whose paths are all non-empty drops exactly one shared
/// cell per joint: the merged path has the cells of all paths but one per
/// segment after the first.
pub proof fn law_merged_length(paths: Seq<Seq<GridCell>>)
    requires
        paths.len() > 0,
        forall|i: int| 0 <= i < paths.len() ==> (#[trigger] paths[i]).len() > 0,
    ensures
        merged_path(paths).len() == total_cells(paths) - (paths.len() - 1),
    decreases paths.len(),
{
    if paths.len() > 1 {
        let rest = paths.drop_last();
        assert forall|i: int| 0 <= i < rest.len() implies (#[trigger] rest[i]).len() > 0 by {
            assert(rest[i] == paths[i]);
        }
        law_merged_length(rest);
        assert(paths.last() == paths[paths.len() - 1]);
        assert(paths.last().len() > 0);
        assert(paths.last().drop_first().len() == paths.last().len() - 1);
    } else {
        assert(paths.drop_last().len() == 0);
        assert(total_cells(paths.drop_last()) == 0);
        assert(paths.last() == paths[0]);
    }
}

/// A new road cell that touches road ends extends the road with the longest
/// path among them.
pub proof fn law_extension_picks_longest(hits: Seq<(int, bool)>, segs: Seq<PathSegment>, k: int)
    requires
        0 <= k < hits.len(),
    ensures
        0 <= best_hit(hits, segs) < hits.len(),
        segs[hits[best_hit(hits, segs)].0].cell_path@.len() >= segs[hits[k].0].cell_path@.len(),
    decreases hits.len(),
{
    if hits.len() > 1 {
        let rest = hits.drop_last();
        let b = best_hit(rest, segs);
        if k < hits.len() - 1 {
            law_extension_picks_longest(rest, segs, k);
            assert(rest[k] == hits[k]);
        } else {
            law_extension_picks_longest(rest, segs, 0);
        }
        assert(rest[b] == hits[b]);
    }
}

} // verus!
