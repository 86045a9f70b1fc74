use vstd::prelude::*;

verus! {

/// Resolution multiplier: texels per chunk side.
pub const EXPLORATION_RESOLUTION: i32 = 32;

/// Blur radius in texels. At 32x resolution, 5 texels is about half a cell.
pub const BLUR_RADIUS: i32 = 5;

/// Number of texels a blur window covers along one axis.
pub const BLUR_KERNEL: u32 = 11;

/// `p` held inside `[0, hi]`.
pub open spec fn clamp_index(p: int, hi: int) -> int {
    if p < 0 {
        0
    } else if p > hi {
        hi
    } else {
        p
    }
}

/// Whether texel `(x, y)` lies in the rectangle `(rx, ry, rw, rh)`.
pub open spec fn in_region(x: int, y: int, rx: int, ry: int, rw: int, rh: int) -> bool {
    rx <= x < rx + rw && ry <= y < ry + rh
}


/// Flat index of texel `(x, y)` in a texture of width `w`.
pub open spec fn idx(w: int, x: int, y: int) -> int {
    y * w + x
}

/// Texel of row `y` at column `p`, the column clamped to the texture.
pub open spec fn row_texel(data: Seq<u8>, w: int, y: int, p: int) -> int {
    data[y * w + clamp_index(p, w - 1)] as int
}

/// Sum of the row texels at columns `a .. b` (clamped).
pub open spec fn row_sum(data: Seq<u8>, w: int, y: int, a: int, b: int) -> int
    decreases b - a,
{
    if b <= a {
        0
    } else {
        row_sum(data, w, y, a, b - 1) + row_texel(data, w, y, b - 1)
    }
}

/// Horizontal box blur of texel `(x, y)`: mean (rounded down) of the
/// `BLUR_KERNEL` texels of its row centred on `x`, columns clamped to the edge.
pub open spec fn h_blur(data: Seq<u8>, w: int, x: int, y: int) -> int {
    row_sum(data, w, y, x - BLUR_RADIUS, x + BLUR_RADIUS + 1) / (BLUR_KERNEL as int)
}

/// Sum of the horizontal blurs of column `x` at rows `a .. b`, each row
/// clamped to the texture's `h` rows.
pub open spec fn col_sum(data: Seq<u8>, w: int, h: int, x: int, a: int, b: int) -> int
    decreases b - a,
{
    if b <= a {
        0
    } else {
        col_sum(data, w, h, x, a, b - 1) + h_blur(data, w, x, clamp_index(b - 1, h - 1))
    }
}

/// Separable box blur of texel `(x, y)`: mean (rounded down) of the horizontal
/// blurs of the `BLUR_KERNEL` rows centred on `y`, rows clamped to the edge.
pub open spec fn blurred(data: Seq<u8>, w: int, h: int, x: int, y: int) -> int {
    col_sum(data, w, h, x, y - BLUR_RADIUS, y + BLUR_RADIUS + 1) / (BLUR_KERNEL as int)
}

proof fn lemma_row_sum_bounds(data: Seq<u8>, w: int, y: int, a: int, b: int)
    requires
        a <= b,
    ensures
        0 <= row_sum(data, w, y, a, b) <= 255 * (b - a),
    decreases b - a,
{
    if a < b {
        lemma_row_sum_bounds(data, w, y, a, b - 1);
        let t = row_texel(data, w, y, b - 1);
        assert(0 <= t <= 255);
    }
}

proof fn lemma_h_blur_bounds(data: Seq<u8>, w: int, x: int, y: int)
    ensures
        0 <= h_blur(data, w, x, y) <= 255,
{
    lemma_row_sum_bounds(data, w, y, x - BLUR_RADIUS, x + BLUR_RADIUS + 1);
}

proof fn lemma_col_sum_bounds(data: Seq<u8>, w: int, h: int, x: int, a: int, b: int)
    requires
        a <= b,
    ensures
        0 <= col_sum(data, w, h, x, a, b) <= 255 * (b - a),
    decreases b - a,
{
    if a < b {
        lemma_col_sum_bounds(data, w, h, x, a, b - 1);
        lemma_h_blur_bounds(data, w, x, clamp_index(b - 1, h - 1));
    }
}

proof fn lemma_index(w: int, h: int, x: int, y: int)
    requires
        0 <= x < w,
        0 <= y < h,
    ensures
        0 <= idx(w, x, y) < w * h,
        0 <= y * w,
        0 <= y * w + x < w * h,
{
    assert(0 <= y * w) by (nonlinear_arith)
        requires
            0 <= y,
            0 < w,
    ;
    assert(y * w + x < w * h) by (nonlinear_arith)
        requires
            0 <= x < w,
            0 <= y < h,
    ;
}

proof fn lemma_index_distinct(w: int, x1: int, y1: int, x2: int, y2: int)
    requires
        0 <= x1 < w,
        0 <= x2 < w,
        x1 != x2 || y1 != y2,
    ensures
        idx(w, x1, y1) != idx(w, x2, y2),
{
    if y1 < y2 {
        assert(y1 * w + x1 < y2 * w + x2) by (nonlinear_arith)
            requires
                0 <= x1 < w,
                0 <= x2,
                y1 < y2,
        ;
    } else if y2 < y1 {
        assert(y2 * w + x2 < y1 * w + x1) by (nonlinear_arith)
            requires
                0 <= x2 < w,
                0 <= x1,
                y2 < y1,
        ;
    }
}

/// An index of a row before `b`, or of a column before `a` in row `b`,
/// lies before the index of `(a, b)`.
proof fn lemma_index_before(w: int, x: int, y: int, a: int, b: int)
    requires
        0 <= x < w,
        0 <= a,
        0 <= y,
        y < b || (y == b && x < a),
    ensures
        0 <= idx(w, x, y) < idx(w, a, b),
{
    assert(0 <= y * w) by (nonlinear_arith)
        requires
            0 <= y,
            0 < w,
    ;
    if y < b {
        assert(y * w + x < b * w + a) by (nonlinear_arith)
            requires
                0 <= x < w,
                0 <= a,
                y < b,
        ;
    }
}

/// `v.clamp(0, hi)`.
fn clamp_to(v: i32, hi: i32) -> (r: i32)
    requires
        0 <= hi,
    ensures
        r == clamp_index(v as int, hi as int),
{
    if v < 0 {
        0
    } else if v > hi {
        hi
    } else {
        v
    }
}

/// Horizontal blur of texel `(x, y)` of a texture of width `tex_w`.
fn row_window(data: &Vec<u8>, tex_w: i32, x: i32, y: i32) -> (r: u8)
    requires
        1 <= tex_w <= i32::MAX - 2 * BLUR_RADIUS - 2,
        0 <= x < tex_w,
        0 <= y,
        (y + 1) * tex_w <= data@.len(),
    ensures
        r as int == h_blur(data@, tex_w as int, x as int, y as int),
{
    let ghost wi = tex_w as int;
    let w: usize = tex_w as usize;
    proof {
        assert(y * tex_w + tex_w == (y + 1) * tex_w) by (nonlinear_arith);
        assert(0 <= y * tex_w) by (nonlinear_arith)
            requires
                0 <= y,
                0 < tex_w,
        ;
    }
    let n: usize = data.len();
    assert(y * tex_w <= n);
    let base: usize = y as usize * w;
    let mut sum: u32 = 0;
    let mut k: i32 = 0;
    while k < BLUR_KERNEL as i32
        invariant
            0 <= k <= BLUR_KERNEL,
            wi == tex_w,
            w == tex_w,
            1 <= tex_w <= i32::MAX - 2 * BLUR_RADIUS - 2,
            0 <= x < tex_w,
            base == y * tex_w,
            base + tex_w <= data@.len(),
            n == data@.len(),
            sum as int == row_sum(data@, wi, y as int, x - BLUR_RADIUS, x - BLUR_RADIUS + k),
        decreases BLUR_KERNEL - k,
    {
        let p = clamp_to(x - BLUR_RADIUS + k, tex_w - 1);
        proof {
            lemma_row_sum_bounds(data@, wi, y as int, x - BLUR_RADIUS, x - BLUR_RADIUS + k);
        }
        sum = sum + data[base + p as usize] as u32;
        k = k + 1;
    }
    proof {
        lemma_row_sum_bounds(data@, wi, y as int, x - BLUR_RADIUS, x + BLUR_RADIUS + 1);
    }
    (sum / BLUR_KERNEL) as u8
}

/// Vertical sum of the horizontal blurs of column `rx + xo` over the rows
/// `y - BLUR_RADIUS ..= y + BLUR_RADIUS` (clamped), read from `temp`, which
/// holds the horizontal blurs of columns `rx .. rx + rw` at rows `lo ..= hi`.
fn col_window(
    temp: &Vec<u8>,
    rw: i32,
    lo: i32,
    hi: i32,
    tex_h: i32,
    xo: i32,
    y: i32,
    Ghost(d0): Ghost<Seq<u8>>,
    Ghost(w): Ghost<int>,
    Ghost(rx): Ghost<int>,
) -> (s: u32)
    requires
        1 <= rw,
        0 <= xo < rw,
        0 <= lo <= hi < tex_h,
        tex_h <= i32::MAX - 2 * BLUR_RADIUS - 2,
        0 <= y < tex_h,
        lo <= clamp_index(y - BLUR_RADIUS, tex_h - 1),
        clamp_index(y + BLUR_RADIUS, tex_h - 1) <= hi,
        temp@.len() == rw * (hi - lo + 1),
        forall|a: int, b: int|
            0 <= a < rw && 0 <= b <= hi - lo ==> #[trigger] temp@[idx(rw as int, a, b)] as int
                == h_blur(d0, w, rx + a, lo + b),
    ensures
        s as int == col_sum(d0, w, tex_h as int, rx + xo, y - BLUR_RADIUS, y + BLUR_RADIUS + 1),
{
    let rwu: usize = rw as usize;
    let mut sum: u32 = 0;
    let mut k: i32 = 0;
    while k < BLUR_KERNEL as i32
        invariant
            0 <= k <= BLUR_KERNEL,
            rwu == rw,
            1 <= rw,
            0 <= xo < rw,
            0 <= lo <= hi < tex_h,
            tex_h <= i32::MAX - 2 * BLUR_RADIUS - 2,
            0 <= y < tex_h,
            lo <= clamp_index(y - BLUR_RADIUS, tex_h - 1),
            clamp_index(y + BLUR_RADIUS, tex_h - 1) <= hi,
            temp@.len() == rw * (hi - lo + 1),
            forall|a: int, b: int|
                0 <= a < rw && 0 <= b <= hi - lo ==> #[trigger] temp@[idx(rw as int, a, b)] as int
                    == h_blur(d0, w, rx + a, lo + b),
            sum as int == col_sum(d0, w, tex_h as int, rx + xo, y - BLUR_RADIUS, y - BLUR_RADIUS + k),
        decreases BLUR_KERNEL - k,
    {
        let yy = clamp_to(y - BLUR_RADIUS + k, tex_h - 1);
        proof {
            lemma_col_sum_bounds(d0, w, tex_h as int, rx + xo, y - BLUR_RADIUS, y - BLUR_RADIUS + k);
            lemma_index(rw as int, hi - lo + 1, xo as int, yy - lo);
            assert(temp@.len() <= usize::MAX) by {
                assert(temp@.len() == temp.len());
            }
        }
        let j: usize = (yy - lo) as usize * rwu + xo as usize;
        sum = sum + temp[j] as u32;
        k = k + 1;
    }
    sum
}

/// Applies a separable box blur (radius `BLUR_RADIUS`) to the rectangle
/// `(region_x, region_y, region_w, region_h)` of a `tex_w` x `tex_h` texture
/// stored row by row in `data`.
///
/// Each texel of the rectangle becomes the mean of its 11 x 11 neighbourhood in
/// the texture, coordinates clamped to the texture's edge: first along rows,
/// then along columns of the row-blurred texture. Texels outside the rectangle
/// keep their value; an empty rectangle changes nothing.
pub fn blur_region(
    data: &mut Vec<u8>,
    tex_w: i32,
    tex_h: i32,
    region_x: i32,
    region_y: i32,
    region_w: i32,
    region_h: i32,
)
    requires
        0 <= tex_w <= i32::MAX - 2 * BLUR_RADIUS - 2,
        0 <= tex_h <= i32::MAX - 2 * BLUR_RADIUS - 2,
        tex_w * tex_h <= old(data)@.len(),
        0 <= region_x,
        0 <= region_y,
        0 <= region_w,
        0 <= region_h,
        region_x + region_w <= tex_w,
        region_y + region_h <= tex_h,
    ensures
        final(data)@.len() == old(data)@.len(),
        forall|x: int, y: int|
            0 <= x < tex_w && 0 <= y < tex_h ==> #[trigger] final(data)@[idx(tex_w as int, x, y)]
                as int == if in_region(
                x,
                y,
                region_x as int,
                region_y as int,
                region_w as int,
                region_h as int,
            ) {
                blurred(old(data)@, tex_w as int, tex_h as int, x, y)
            } else {
                old(data)@[idx(tex_w as int, x, y)] as int
            },
        forall|i: int|
            tex_w * tex_h <= i < old(data)@.len() ==> #[trigger] final(data)@[i] == old(data)@[i],
{
    if region_w == 0 || region_h == 0 {
        return ;
    }
    let ghost d0 = data@;
    let ghost wi = tex_w as int;
    let ghost hi_ = tex_h as int;
    let ghost rx = region_x as int;
    let ghost ry = region_y as int;
    let ghost rw = region_w as int;
    let ghost rh = region_h as int;
    let w: usize = tex_w as usize;
    let rwu: usize = region_w as usize;
    let lo: i32 = if region_y < BLUR_RADIUS {
        0
    } else {
        region_y - BLUR_RADIUS
    };
    let hi: i32 = if region_y + region_h + BLUR_RADIUS - 1 > tex_h - 1 {
        tex_h - 1
    } else {
        region_y + region_h + BLUR_RADIUS - 1
    };
    proof {
        assert((tex_h as int) * (tex_w as int) <= d0.len()) by (nonlinear_arith)
            requires
                tex_w * tex_h <= d0.len(),
        ;
        assert(rw * (hi - lo + 1) <= wi * hi_) by (nonlinear_arith)
            requires
                0 < rw <= wi,
                0 < hi - lo + 1 <= hi_,
        ;
    }
    // Pass 1: horizontal blur of the rows that the vertical pass reads.
    let mut temp: Vec<u8> = Vec::new();
    let mut yy: i32 = lo;
    while yy <= hi
        invariant
            data@ == d0,
            w == tex_w,
            rwu == region_w,
            wi == tex_w,
            hi_ == tex_h,
            rx == region_x,
            rw == region_w,
            1 <= tex_w <= i32::MAX - 2 * BLUR_RADIUS - 2,
            1 <= tex_h <= i32::MAX - 2 * BLUR_RADIUS - 2,
            (tex_h as int) * (tex_w as int) <= d0.len(),
            0 <= region_x,
            1 <= region_w,
            region_x + region_w <= tex_w,
            0 <= lo <= hi < tex_h,
            rw * (hi - lo + 1) <= wi * hi_,
            lo <= yy <= hi + 1,
            temp@.len() == (yy - lo) * rw,
            forall|a: int, b: int|
                0 <= a < rw && 0 <= b < yy - lo ==> #[trigger] temp@[idx(rw, a, b)] as int
                    == h_blur(d0, wi, rx + a, lo + b),
        decreases hi + 1 - yy,
    {
        proof {
            assert((yy + 1) * tex_w <= (tex_h as int) * (tex_w as int)) by (nonlinear_arith)
                requires
                    yy < tex_h,
                    0 < tex_w,
            ;
            assert((yy - lo) * rw + rw <= rw * (hi - lo + 1)) by (nonlinear_arith)
                requires
                    yy <= hi,
                    0 < rw,
            ;
        }
        let mut x: i32 = region_x;
        while x < region_x + region_w
            invariant
                data@ == d0,
                wi == tex_w,
                rx == region_x,
                rw == region_w,
                1 <= tex_w <= i32::MAX - 2 * BLUR_RADIUS - 2,
                0 <= region_x,
                1 <= region_w,
                region_x + region_w <= tex_w,
                0 <= lo <= yy <= hi,
                (yy + 1) * tex_w <= d0.len(),
                (yy - lo) * rw + rw <= rw * (hi - lo + 1),
                rw * (hi - lo + 1) <= wi * hi_,
                (tex_h as int) * (tex_w as int) <= d0.len(),
                region_x <= x <= region_x + region_w,
                temp@.len() == (yy - lo) * rw + (x - rx),
                forall|a: int, b: int|
                    (0 <= a < rw && 0 <= b < yy - lo) || (b == yy - lo && 0 <= a < x - rx)
                        ==> #[trigger] temp@[idx(rw, a, b)] as int == h_blur(
                        d0,
                        wi,
                        rx + a,
                        lo + b,
                    ),
            decreases region_x + region_w - x,
        {
            let v = row_window(data, tex_w, x, yy);
            let ghost before = temp@;
            temp.push(v);
            proof {
                assert forall|a: int, b: int|
                    (0 <= a < rw && 0 <= b < yy - lo) || (b == yy - lo && 0 <= a < x + 1 - rx)
                        implies #[trigger] temp@[idx(rw, a, b)] as int == h_blur(
                    d0,
                    wi,
                    rx + a,
                    lo + b,
                ) by {
                    if b == yy - lo && a == x - rx {
                        assert(idx(rw, a, b) == before.len());
                    } else {
                        lemma_index_before(rw, a, b, x - rx, yy - lo);
                        assert(temp@[idx(rw, a, b)] == before[idx(rw, a, b)]);
                    }
                }
            }
            x = x + 1;
        }
        proof {
            assert((yy - lo) * rw + rw == (yy + 1 - lo) * rw) by (nonlinear_arith);
        }
        yy = yy + 1;
    }
    proof {
        assert((hi + 1 - lo) * rw == rw * (hi - lo + 1)) by (nonlinear_arith);
    }
    // Pass 2: vertical blur of the row-blurred texture, into the region.
    let mut y: i32 = region_y;
    while y < region_y + region_h
        invariant
            wi == tex_w,
            hi_ == tex_h,
            rx == region_x,
            ry == region_y,
            rw == region_w,
            rh == region_h,
            w == tex_w,
            1 <= tex_w <= i32::MAX - 2 * BLUR_RADIUS - 2,
            1 <= tex_h <= i32::MAX - 2 * BLUR_RADIUS - 2,
            (tex_h as int) * (tex_w as int) <= d0.len(),
            tex_w * tex_h <= d0.len(),
            0 <= region_x,
            0 <= region_y,
            1 <= region_w,
            1 <= region_h,
            region_x + region_w <= tex_w,
            region_y + region_h <= tex_h,
            lo == (if region_y < BLUR_RADIUS { 0 } else { region_y - BLUR_RADIUS }),
            hi == (if region_y + region_h + BLUR_RADIUS - 1 > tex_h - 1 { tex_h - 1 } else {
                region_y + region_h + BLUR_RADIUS - 1 }),
            0 <= lo <= hi < tex_h,
            temp@.len() == rw * (hi - lo + 1),
            forall|a: int, b: int|
                0 <= a < rw && 0 <= b <= hi - lo ==> #[trigger] temp@[idx(rw, a, b)] as int
                    == h_blur(d0, wi, rx + a, lo + b),
            region_y <= y <= region_y + region_h,
            data@.len() == d0.len(),
            forall|px: int, py: int|
                0 <= px < wi && 0 <= py < hi_ ==> #[trigger] data@[idx(wi, px, py)] as int == if py
                    < y && in_region(px, py, rx, ry, rw, rh) {
                    blurred(d0, wi, hi_, px, py)
                } else {
                    d0[idx(wi, px, py)] as int
                },
            forall|i: int| wi * hi_ <= i < d0.len() ==> #[trigger] data@[i] == d0[i],
        decreases region_y + region_h - y,
    {
        let mut x: i32 = region_x;
        while x < region_x + region_w
            invariant
                wi == tex_w,
                hi_ == tex_h,
                rx == region_x,
                ry == region_y,
                rw == region_w,
                rh == region_h,
                w == tex_w,
                1 <= tex_w <= i32::MAX - 2 * BLUR_RADIUS - 2,
                1 <= tex_h <= i32::MAX - 2 * BLUR_RADIUS - 2,
                (tex_h as int) * (tex_w as int) <= d0.len(),
                tex_w * tex_h <= d0.len(),
                0 <= region_x,
                1 <= region_w,
                region_x + region_w <= tex_w,
                region_y <= y < region_y + region_h,
                region_y + region_h <= tex_h,
                0 <= region_y,
                0 <= lo <= hi < tex_h,
                lo <= clamp_index(y - BLUR_RADIUS, tex_h - 1),
                clamp_index(y + BLUR_RADIUS, tex_h - 1) <= hi,
                temp@.len() == rw * (hi - lo + 1),
                forall|a: int, b: int|
                    0 <= a < rw && 0 <= b <= hi - lo ==> #[trigger] temp@[idx(rw, a, b)] as int
                        == h_blur(d0, wi, rx + a, lo + b),
                region_x <= x <= region_x + region_w,
                data@.len() == d0.len(),
                forall|px: int, py: int|
                    0 <= px < wi && 0 <= py < hi_ ==> #[trigger] data@[idx(wi, px, py)] as int
                        == if (py < y || (py == y && px < x)) && in_region(
                        px,
                        py,
                        rx,
                        ry,
                        rw,
                        rh,
                    ) {
                        blurred(d0, wi, hi_, px, py)
                    } else {
                        d0[idx(wi, px, py)] as int
                    },
                forall|i: int| wi * hi_ <= i < d0.len() ==> #[trigger] data@[i] == d0[i],
            decreases region_x + region_w - x,
        {
            let s = col_window(
                &temp,
                region_w,
                lo,
                hi,
                tex_h,
                x - region_x,
                y,
                Ghost(d0),
                Ghost(wi),
                Ghost(rx),
            );
            proof {
                lemma_col_sum_bounds(d0, wi, hi_, x as int, y - BLUR_RADIUS, y + BLUR_RADIUS + 1);
                lemma_index(wi, hi_, x as int, y as int);
                assert(data@.len() <= usize::MAX) by {
                    assert(data@.len() == data.len());
                }
            }
            let i: usize = y as usize * w + x as usize;
            let ghost before = data@;
            data.set(i, (s / BLUR_KERNEL) as u8);
            proof {
                assert forall|px: int, py: int| 0 <= px < wi && 0 <= py < hi_ implies #[trigger] data@[idx(
                    wi,
                    px,
                    py,
                )] as int == if (py < y || (py == y && px < x + 1)) && in_region(
                    px,
                    py,
                    rx,
                    ry,
                    rw,
                    rh,
                ) {
                    blurred(d0, wi, hi_, px, py)
                } else {
                    d0[idx(wi, px, py)] as int
                } by {
                    if px != x || py != y {
                        lemma_index_distinct(wi, px, py, x as int, y as int);
                        lemma_index(wi, hi_, px, py);
                        assert(data@[idx(wi, px, py)] == before[idx(wi, px, py)]);
                    }
                }
                assert forall|i2: int| wi * hi_ <= i2 < d0.len() implies #[trigger] data@[i2]
                    == d0[i2] by {
                    assert(data@[i2] == before[i2]);
                }
            }
            x = x + 1;
        }
        proof {
            let ny = y + 1;
            if ny < region_y + region_h {
                assert(lo <= clamp_index(ny - BLUR_RADIUS, tex_h - 1));
                assert(clamp_index(ny + BLUR_RADIUS, tex_h - 1) <= hi);
            }
        }
        y = y + 1;
    }
}

proof fn lemma_row_sum_uniform(data: Seq<u8>, w: int, h: int, y: int, a: int, b: int, c: u8)
    requires
        1 <= w,
        0 <= y < h,
        a <= b,
        w * h <= data.len(),
        forall|i: int| 0 <= i < w * h ==> #[trigger] data[i] == c,
    ensures
        row_sum(data, w, y, a, b) == (b - a) * (c as int),
    decreases b - a,
{
    if a < b {
        lemma_row_sum_uniform(data, w, h, y, a, b - 1, c);
        lemma_index(w, h, clamp_index(b - 1, w - 1), y);
        assert(row_texel(data, w, y, b - 1) == c as int);
        assert((b - a) * (c as int) == (b - 1 - a) * (c as int) + c as int) by (nonlinear_arith);
    } else {
        assert((b - a) * (c as int) == 0) by (nonlinear_arith)
            requires
                a == b,
        ;
    }
}

proof fn lemma_col_sum_uniform(data: Seq<u8>, w: int, h: int, x: int, a: int, b: int, c: u8)
    requires
        1 <= w,
        1 <= h,
        a <= b,
        w * h <= data.len(),
        forall|i: int| 0 <= i < w * h ==> #[trigger] data[i] == c,
    ensures
        col_sum(data, w, h, x, a, b) == (b - a) * (c as int),
    decreases b - a,
{
    if a < b {
        lemma_col_sum_uniform(data, w, h, x, a, b - 1, c);
        let y = clamp_index(b - 1, h - 1);
        lemma_row_sum_uniform(data, w, h, y, x - BLUR_RADIUS, x + BLUR_RADIUS + 1, c);
        assert(row_sum(data, w, y, x - BLUR_RADIUS, x + BLUR_RADIUS + 1) == 11 * (c as int));
        assert((11 * (c as int)) / 11 == c as int);
        assert((b - a) * (c as int) == (b - 1 - a) * (c as int) + c as int) by (nonlinear_arith);
    } else {
        assert((b - a) * (c as int) == 0) by (nonlinear_arith)
            requires
                a == b,
        ;
    }
}

/// Law: the box blur of a texture of one uniform value is that value at every
/// texel, so blurring any region of it (or a whole patch) changes nothing.
pub proof fn law_blur_keeps_uniform(data: Seq<u8>, w: int, h: int, c: u8)
    requires
        1 <= w,
        1 <= h,
        w * h <= data.len(),
        forall|i: int| 0 <= i < w * h ==> #[trigger] data[i] == c,
    ensures
        forall|x: int, y: int| #[trigger] blurred(data, w, h, x, y) == c as int,
{
    assert forall|x: int, y: int| #[trigger] blurred(data, w, h, x, y) == c as int by {
        lemma_col_sum_uniform(data, w, h, x, y - BLUR_RADIUS, y + BLUR_RADIUS + 1, c);
        assert((11 * (c as int)) / 11 == c as int);
    }
}

/// Blurs a standalone patch buffer of `patch_w` x `patch_h` texels whole.
/// A patch with one side 0 must have the other side 0 too.
pub fn blur_patch(data: &mut Vec<u8>, patch_w: i32, patch_h: i32)
    requires
        0 <= patch_w <= i32::MAX - 2 * BLUR_RADIUS - 2,
        0 <= patch_h <= i32::MAX - 2 * BLUR_RADIUS - 2,
        (patch_w == 0) == (patch_h == 0),
        patch_w * patch_h <= old(data)@.len(),
    ensures
        final(data)@.len() == old(data)@.len(),
        forall|x: int, y: int|
            0 <= x < patch_w && 0 <= y < patch_h ==> #[trigger] final(data)@[idx(
                patch_w as int,
                x,
                y,
            )] as int == blurred(old(data)@, patch_w as int, patch_h as int, x, y),
        forall|i: int|
            patch_w * patch_h <= i < old(data)@.len() ==> #[trigger] final(data)@[i] == old(
                data,
            )@[i],
{
    blur_region(data, patch_w, patch_h, 0, 0, patch_w, patch_h);
}

} // verus!
