//! The texel rectangle of the exploration map that a newly explored area
//! touches, so that only that patch is redrawn and sent.
use vstd::prelude::*;
use crate::exploration::rasterizer::EXPLORATION_RESOLUTION;

verus! {

/// The smallest of `init` and the values.
pub open spec fn fold_min(v: Seq<int>, init: int) -> int
    decreases v.len(),
{
    if v.len() == 0 {
        init
    } else {
        let m = fold_min(v.drop_last(), init);
        if v.last() < m {
            v.last()
        } else {
            m
        }
    }
}

/// The largest of `init` and the values.
pub open spec fn fold_max(v: Seq<int>, init: int) -> int
    decreases v.len(),
{
    if v.len() == 0 {
        init
    } else {
        let m = fold_max(v.drop_last(), init);
        if v.last() > m {
            v.last()
        } else {
            m
        }
    }
}

/// Texels a Voronoi cell reaches beyond its seed, added to every patch margin.
pub const CELL_RADIUS_TEXELS: i32 = 10;

/// The patch `(x, y, width, height)` covering the seeds' texels (`ts`), widened
/// by the margin plus the cell radius and clamped to the texture of
/// `tex_w` × `tex_h` texels. With no seed the box starts from the texture's
/// far corner.
pub open spec fn patch_of(ts: Seq<(i32, i32)>, tex_w: int, tex_h: int, margin_texels: int) -> (int, int, int, int) {
    let xs = ts.map_values(|t: (i32, i32)| t.0 as int);
    let ys = ts.map_values(|t: (i32, i32)| t.1 as int);
    let margin = margin_texels + CELL_RADIUS_TEXELS;
    let lo_x = fold_min(xs, tex_w) - margin;
    let lo_y = fold_min(ys, tex_h) - margin;
    let hi_x = fold_max(xs, 0) + margin;
    let hi_y = fold_max(ys, 0) + margin;
    let px = if lo_x > 0 { lo_x } else { 0 };
    let py = if lo_y > 0 { lo_y } else { 0 };
    let ex = if hi_x < tex_w - 1 { hi_x } else { tex_w - 1 };
    let ey = if hi_y < tex_h - 1 { hi_y } else { tex_h - 1 };
    (px, py, ex - px + 1, ey - py + 1)
}

/// Whether the patch computation stays within `i32`, as the server computes it.
pub open spec fn patch_fits(ts: Seq<(i32, i32)>, n_chunk_x: i32, n_chunk_y: i32, margin_texels: i32) -> bool {
    let tex_w = n_chunk_x * EXPLORATION_RESOLUTION;
    let tex_h = n_chunk_y * EXPLORATION_RESOLUTION;
    let margin = margin_texels + CELL_RADIUS_TEXELS;
    let xs = ts.map_values(|t: (i32, i32)| t.0 as int);
    let ys = ts.map_values(|t: (i32, i32)| t.1 as int);
    &&& i32::MIN <= tex_w <= i32::MAX
    &&& i32::MIN <= tex_h <= i32::MAX
    &&& i32::MIN <= margin <= i32::MAX
    &&& i32::MIN <= fold_min(xs, tex_w) - margin <= i32::MAX
    &&& i32::MIN <= fold_min(ys, tex_h) - margin <= i32::MAX
    &&& i32::MIN <= fold_max(xs, 0) + margin <= i32::MAX
    &&& i32::MIN <= fold_max(ys, 0) + margin <= i32::MAX
    &&& i32::MIN <= tex_w - 1 && i32::MIN <= tex_h - 1
    &&& i32::MIN + 1 <= patch_of(ts, tex_w, tex_h, margin_texels as int).2 <= i32::MAX
    &&& i32::MIN + 1 <= patch_of(ts, tex_w, tex_h, margin_texels as int).3 <= i32::MAX
}

/// The texel rectangle to redraw around the seeds of newly explored zones,
/// from their texel positions.
pub fn compute_patch_bounds(texels: &Vec<(i32, i32)>, n_chunk_x: i32, n_chunk_y: i32, margin_texels: i32) -> (r: (i32, i32, i32, i32))
    requires
        patch_fits(texels@, n_chunk_x, n_chunk_y, margin_texels),
    ensures
        ({
            let p = patch_of(
                texels@,
                n_chunk_x * EXPLORATION_RESOLUTION,
                n_chunk_y * EXPLORATION_RESOLUTION,
                margin_texels as int,
            );
            r.0 == p.0 && r.1 == p.1 && r.2 == p.2 && r.3 == p.3
        }),
{
    let tex_w: i32 = n_chunk_x * EXPLORATION_RESOLUTION;
    let tex_h: i32 = n_chunk_y * EXPLORATION_RESOLUTION;
    let ghost xs = texels@.map_values(|t: (i32, i32)| t.0 as int);
    let ghost ys = texels@.map_values(|t: (i32, i32)| t.1 as int);
    let mut min_tx = tex_w;
    let mut min_ty = tex_h;
    let mut max_tx: i32 = 0;
    let mut max_ty: i32 = 0;
    let mut i: usize = 0;
    while i < texels.len()
        invariant
            i <= texels@.len(),
            xs == texels@.map_values(|t: (i32, i32)| t.0 as int),
            ys == texels@.map_values(|t: (i32, i32)| t.1 as int),
            min_tx == fold_min(texels@.subrange(0, i as int).map_values(|t: (i32, i32)| t.0 as int), tex_w as int),
            min_ty == fold_min(texels@.subrange(0, i as int).map_values(|t: (i32, i32)| t.1 as int), tex_h as int),
            max_tx == fold_max(texels@.subrange(0, i as int).map_values(|t: (i32, i32)| t.0 as int), 0),
            max_ty == fold_max(texels@.subrange(0, i as int).map_values(|t: (i32, i32)| t.1 as int), 0),
        decreases texels@.len() - i,
    {
        let (tx, ty) = texels[i];
        proof {
            let pre = texels@.subrange(0, i as int);
            let post = texels@.subrange(0, i + 1);
            assert(post.drop_last() =~= pre);
            assert(post.map_values(|t: (i32, i32)| t.0 as int).drop_last() =~= pre.map_values(
                |t: (i32, i32)| t.0 as int,
            ));
            assert(post.map_values(|t: (i32, i32)| t.1 as int).drop_last() =~= pre.map_values(
                |t: (i32, i32)| t.1 as int,
            ));
        }
        if tx < min_tx {
            min_tx = tx;
        }
        if ty < min_ty {
            min_ty = ty;
        }
        if tx > max_tx {
            max_tx = tx;
        }
        if ty > max_ty {
            max_ty = ty;
        }
        i = i + 1;
    }
    assert(texels@.subrange(0, texels@.len() as int) =~= texels@);
    let margin = margin_texels + CELL_RADIUS_TEXELS;
    let lo_x = min_tx - margin;
    let lo_y = min_ty - margin;
    let hi_x = max_tx + margin;
    let hi_y = max_ty + margin;
    let px = if lo_x > 0 { lo_x } else { 0 };
    let py = if lo_y > 0 { lo_y } else { 0 };
    let ex = if hi_x < tex_w - 1 { hi_x } else { tex_w - 1 };
    let ey = if hi_y < tex_h - 1 { hi_y } else { tex_h - 1 };
    (px, py, ex - px + 1, ey - py + 1)
}

} // verus!
