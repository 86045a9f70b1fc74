//! Morphology on 8-bit grey maps: erosion along the four axes, square
//! dilation, opening, and masking one map by another.
use vstd::prelude::*;
use vstd::arithmetic::div_mod::lemma_fundamental_div_mod_converse;

verus! {

/// A grey map of `width` × `height` pixels, stored row by row.
pub struct LumaMap {
    pub width: u32,
    pub height: u32,
    pub pixels: Vec<u8>,
}

/// Pixels at or above this level count as white.
pub const WHITE_THRESHOLD: u8 = 128;

/// Mask pixels above this level keep the source pixel.
pub const MASK_THRESHOLD: u8 = 30;

impl LumaMap {
    /// The map holds exactly one pixel per position.
    pub open spec fn wf(&self) -> bool {
        self.pixels@.len() == self.width * self.height
    }

    /// The pixel at `(x, y)`.
    pub open spec fn px(&self, x: int, y: int) -> u8 {
        at(self.pixels@, self.width as int, x, y)
    }
}

/// The pixel at `(x, y)` of the rows of width `w` in `p`.
pub open spec fn at(p: Seq<u8>, w: int, x: int, y: int) -> u8 {
    p[y * w + x]
}

/// The map built from the pixel at each position, in row order.
pub open spec fn map_of(w: int, h: int, f: spec_fn(int, int) -> u8) -> Seq<u8> {
    Seq::new((w * h) as nat, |k: int| f(k % w, k / w))
}

/// Whether the pixels at distance 1 to `r` from `(x, y)` straight up, down,
/// left and right are all white.
pub open spec fn cross_white(p: Seq<u8>, w: int, r: int, x: int, y: int) -> bool {
    forall|i: int| 1 <= i <= r ==> #[trigger] arms_white(p, w, x, y, i)
}

/// Whether the four pixels at distance `i` straight up, down, left and right
/// of `(x, y)` are white.
pub open spec fn arms_white(p: Seq<u8>, w: int, x: int, y: int, i: int) -> bool {
    at(p, w, x, y + i) >= WHITE_THRESHOLD && at(p, w, x, y - i) >= WHITE_THRESHOLD && at(
        p,
        w,
        x + i,
        y,
    ) >= WHITE_THRESHOLD && at(p, w, x - i, y) >= WHITE_THRESHOLD
}

/// The eroded pixel: white (255) where the pixel lies at least `r` from every
/// border and its cross of radius `r` is white; black (0) everywhere else.
pub open spec fn eroded(p: Seq<u8>, w: int, h: int, r: int, x: int, y: int) -> u8 {
    if r <= x < w - r && r <= y < h - r && cross_white(p, w, r, x, y) {
        255
    } else {
        0
    }
}

/// Whether some pixel of value 255 lies in the square of radius `r` around
/// `(x, y)`.
pub open spec fn white_near(p: Seq<u8>, w: int, h: int, r: int, x: int, y: int) -> bool {
    exists|sx: int, sy: int|
        0 <= sx < w && 0 <= sy < h && x - r <= sx <= x + r && y - r <= sy <= y + r
            && #[trigger] at(p, w, sx, sy) == 255
}

/// The dilated pixel: 255 where a pixel of value 255 lies in the square of
/// radius `r` around it, the pixel unchanged elsewhere.
pub open spec fn dilated(p: Seq<u8>, w: int, h: int, r: int, x: int, y: int) -> u8 {
    if white_near(p, w, h, r, x, y) {
        255
    } else {
        at(p, w, x, y)
    }
}

/// The masked pixel: black where the mask covers the position with a pixel
/// of at most 30, the source pixel elsewhere.
pub open spec fn masked(src: Seq<u8>, w: int, mask: Seq<u8>, mw: int, mh: int, x: int, y: int) -> u8 {
    if x < mw && y < mh && at(mask, mw, x, y) <= MASK_THRESHOLD {
        0
    } else {
        at(src, w, x, y)
    }
}

proof fn lemma_pos(w: int, h: int, x: int, y: int)
    requires
        0 <= x < w,
        0 <= y < h,
    ensures
        0 <= y * w + x < w * h,
        (y * w + x) % w == x,
        (y * w + x) / w == y,
{
    assert(0 <= y * w) by (nonlinear_arith)
        requires
            0 <= y,
            0 < w,
    ;
    assert(y * w + x < w * h) by (nonlinear_arith)
        requires
            0 <= x < w,
            0 <= y < h,
    ;
    lemma_fundamental_div_mod_converse(y * w + x, w, y, x);
}

fn pixel(m: &LumaMap, x: u32, y: u32) -> (p: u8)
    requires
        m.wf(),
        x < m.width,
        y < m.height,
    ensures
        p == m.px(x as int, y as int),
{
    let n = m.pixels.len();
    proof {
        lemma_pos(m.width as int, m.height as int, x as int, y as int);
        assert(y * m.width <= y * m.width + x);
    }
    let i: usize = (y as u64 * m.width as u64 + x as u64) as usize;
    m.pixels[i]
}

/// Erodes a binary map: a pixel stays white only where it lies at least
/// `radius` from every border and the `radius` pixels straight up, down, left
/// and right of it are all white; all other pixels become black.
pub fn erode_binary_map(m: &LumaMap, radius: u32) -> (out: LumaMap)
    requires
        m.wf(),
        radius <= m.width,
        radius <= m.height,
        m.width * m.height <= usize::MAX,
    ensures
        out.width == m.width,
        out.height == m.height,
        out.wf(),
        out.pixels@ == map_of(m.width as int, m.height as int, |x: int, y: int| eroded(m.pixels@, m.width as int, m.height as int, radius as int, x, y)),
{
    let w = m.width;
    let h = m.height;
    let ghost f = |x: int, y: int| eroded(m.pixels@, m.width as int, m.height as int, radius as int, x, y);
    let mut pixels: Vec<u8> = Vec::new();
    let mut y: u32 = 0;
    while y < h
        invariant
            m.wf(),
            w == m.width,
            h == m.height,
            radius <= w,
            radius <= h,
            y <= h,
            f == (|x: int, y: int| eroded(m.pixels@, m.width as int, m.height as int, radius as int, x, y)),
            pixels@ =~= map_of(w as int, y as int, f),
        decreases h - y,
    {
        let mut x: u32 = 0;
        assert(w * y == y * w) by (nonlinear_arith);
        while x < w
            invariant
                m.wf(),
                w == m.width,
                h == m.height,
                radius <= w,
                radius <= h,
                y < h,
                x <= w,
                f == (|x: int, y: int| eroded(m.pixels@, m.width as int, m.height as int, radius as int, x, y)),
                pixels@.len() == y * w + x,
                forall|k: int| 0 <= k < pixels@.len() ==> #[trigger] pixels@[k] == f(k % (w as int), k / (w as int)),
            decreases w - x,
        {
            let inside = radius <= x && x < w - radius && radius <= y && y < h - radius;
            let mut white = inside;
            if inside {
                let mut i: u32 = 1;
                while i <= radius
                    invariant
                        m.wf(),
                        w == m.width,
                        h == m.height,
                        radius <= x < w - radius,
                        radius <= y < h - radius,
                        1 <= i <= radius + 1,
                        white == forall|j: int|
                            1 <= j < i ==> #[trigger] arms_white(m.pixels@, m.width as int, x as int, y as int, j),
                    decreases radius + 1 - i,
                {
                    let down = pixel(m, x, y + i);
                    let up = pixel(m, x, y - i);
                    let right = pixel(m, x + i, y);
                    let left = pixel(m, x - i, y);
                    let ghost prev = white;
                    white = white && down >= WHITE_THRESHOLD && up >= WHITE_THRESHOLD && right
                        >= WHITE_THRESHOLD && left >= WHITE_THRESHOLD;
                    proof {
                        assert(arms_white(m.pixels@, m.width as int, x as int, y as int, i as int) == (down >= WHITE_THRESHOLD
                            && up >= WHITE_THRESHOLD && right >= WHITE_THRESHOLD && left
                            >= WHITE_THRESHOLD));
                        if white {
                            assert forall|j: int| 1 <= j < i + 1 implies #[trigger] arms_white(
                                m.pixels@,
                                m.width as int,
                                x as int,
                                y as int,
                                j,
                            ) by {
                                if j < i {
                                    assert(prev);
                                }
                            }
                        } else {
                            if !prev {
                                let j = choose|j: int|
                                    1 <= j < i && !#[trigger] arms_white(m.pixels@, m.width as int, x as int, y as int, j);
                                assert(1 <= j < i + 1 && !arms_white(m.pixels@, m.width as int, x as int, y as int, j));
                            } else {
                                assert(!arms_white(m.pixels@, m.width as int, x as int, y as int, i as int));
                            }
                        }
                    }
                    i = i + 1;
                }
            }
            let v: u8 = if white { 255 } else { 0 };
            proof {
                lemma_pos(w as int, h as int, x as int, y as int);
                assert(v == f(x as int, y as int));
            }
            let ghost before = pixels@;
            pixels.push(v);
            proof {
                assert forall|k: int| 0 <= k < pixels@.len() implies #[trigger] pixels@[k] == f(
                    k % (w as int),
                    k / (w as int),
                ) by {
                    if k < before.len() {
                        assert(pixels@[k] == before[k]);
                    }
                }
            }
            x = x + 1;
        }
        assert(pixels@ =~= map_of(w as int, y + 1, f)) by {
            assert(w * (y + 1) == y * w + w) by (nonlinear_arith);
        }
        y = y + 1;
    }
    LumaMap { width: w, height: h, pixels }
}

/// Whether a pixel of value 255 lies in the rectangle of columns `x0..x1`
/// and rows `y0..y1`.
pub open spec fn white_in_rect(p: Seq<u8>, w: int, x0: int, x1: int, y0: int, y1: int) -> bool {
    exists|sx: int, sy: int| x0 <= sx < x1 && y0 <= sy < y1 && #[trigger] at(p, w, sx, sy) == 255
}

fn white_in_row(m: &LumaMap, y: u32, x0: u32, x1: u32) -> (found: bool)
    requires
        m.wf(),
        y < m.height,
        x0 <= x1 <= m.width,
    ensures
        found == exists|sx: int| x0 <= sx < x1 && #[trigger] at(m.pixels@, m.width as int, sx, y as int) == 255,
{
    let mut found = false;
    let mut x = x0;
    while x < x1
        invariant
            m.wf(),
            y < m.height,
            x0 <= x <= x1 <= m.width,
            found == exists|sx: int| x0 <= sx < x && #[trigger] at(m.pixels@, m.width as int, sx, y as int) == 255,
        decreases x1 - x,
    {
        let p = pixel(m, x, y);
        if p == 255 {
            found = true;
        }
        proof {
            if !found {
                assert forall|sx: int| x0 <= sx < x + 1 implies #[trigger] at(m.pixels@, m.width as int, sx, y as int) != 255 by {
                    if sx < x {
                    }
                }
            }
        }
        x = x + 1;
    }
    found
}

fn white_in_window(m: &LumaMap, x0: u32, x1: u32, y0: u32, y1: u32) -> (found: bool)
    requires
        m.wf(),
        x0 <= x1 <= m.width,
        y0 <= y1 <= m.height,
    ensures
        found == white_in_rect(m.pixels@, m.width as int, x0 as int, x1 as int, y0 as int, y1 as int),
{
    let mut found = false;
    let mut y = y0;
    while y < y1
        invariant
            m.wf(),
            x0 <= x1 <= m.width,
            y0 <= y <= y1 <= m.height,
            found == white_in_rect(m.pixels@, m.width as int, x0 as int, x1 as int, y0 as int, y as int),
        decreases y1 - y,
    {
        let row = white_in_row(m, y, x0, x1);
        proof {
            if row {
                let sx = choose|sx: int| x0 <= sx < x1 && #[trigger] at(m.pixels@, m.width as int, sx, y as int) == 255;
                assert(at(m.pixels@, m.width as int, sx, y as int) == 255);
            }
            if found {
                let (sx, sy) = choose|sx: int, sy: int|
                    x0 <= sx < x1 && y0 <= sy < y && #[trigger] at(m.pixels@, m.width as int, sx, sy) == 255;
                assert(at(m.pixels@, m.width as int, sx, sy) == 255);
            }
            if !found && !row {
                assert forall|sx: int, sy: int| x0 <= sx < x1 && y0 <= sy < y + 1 implies #[trigger] at(m.pixels@, m.width as int, sx, sy) != 255 by {
                    if sy < y {
                    } else {
                        assert(sy == y);
                    }
                }
            }
        }
        found = found || row;
        y = y + 1;
    }
    found
}

/// Dilates a binary map: every pixel within the square of radius `radius`
/// around a pixel of value 255 becomes 255; the others keep their value.
pub fn dilate_binary_map(m: &LumaMap, radius: u32) -> (out: LumaMap)
    requires
        m.wf(),
        m.width + radius <= 0x8000_0000,
        m.height + radius <= 0x8000_0000,
    ensures
        out.width == m.width,
        out.height == m.height,
        out.wf(),
        out.pixels@ == map_of(m.width as int, m.height as int, |x: int, y: int| dilated(m.pixels@, m.width as int, m.height as int, radius as int, x, y)),
{
    let w = m.width;
    let h = m.height;
    let ghost f = |x: int, y: int| dilated(m.pixels@, m.width as int, m.height as int, radius as int, x, y);
    let mut pixels: Vec<u8> = Vec::new();
    let mut y: u32 = 0;
    while y < h
        invariant
            m.wf(),
            w == m.width,
            h == m.height,
            w + radius <= 0x8000_0000,
            h + radius <= 0x8000_0000,
            y <= h,
            f == (|x: int, y: int| dilated(m.pixels@, m.width as int, m.height as int, radius as int, x, y)),
            pixels@ =~= map_of(w as int, y as int, f),
        decreases h - y,
    {
        let mut x: u32 = 0;
        assert(w * y == y * w) by (nonlinear_arith);
        while x < w
            invariant
                m.wf(),
                w == m.width,
                h == m.height,
                w + radius <= 0x8000_0000,
                h + radius <= 0x8000_0000,
                y < h,
                x <= w,
                f == (|x: int, y: int| dilated(m.pixels@, m.width as int, m.height as int, radius as int, x, y)),
                pixels@.len() == y * w + x,
                forall|k: int| 0 <= k < pixels@.len() ==> #[trigger] pixels@[k] == f(k % (w as int), k / (w as int)),
            decreases w - x,
        {
            let x0: u32 = if x >= radius { x - radius } else { 0 };
            let x1: u32 = if x + radius + 1 <= w { x + radius + 1 } else { w };
            let y0: u32 = if y >= radius { y - radius } else { 0 };
            let y1: u32 = if y + radius + 1 <= h { y + radius + 1 } else { h };
            let near = white_in_window(m, x0, x1, y0, y1);
            proof {
                if near {
                    let (sx, sy) = choose|sx: int, sy: int|
                        x0 <= sx < x1 && y0 <= sy < y1 && #[trigger] at(m.pixels@, m.width as int, sx, sy) == 255;
                    assert(at(m.pixels@, m.width as int, sx, sy) == 255);
                    assert(white_near(m.pixels@, m.width as int, m.height as int, radius as int, x as int, y as int));
                }
                if white_near(m.pixels@, m.width as int, m.height as int, radius as int, x as int, y as int) {
                    let (sx, sy) = choose|sx: int, sy: int|
                        0 <= sx < m.width && 0 <= sy < m.height && x - radius <= sx <= x + radius
                            && y - radius <= sy <= y + radius && #[trigger] at(m.pixels@, m.width as int, sx, sy) == 255;
                    assert(at(m.pixels@, m.width as int, sx, sy) == 255);
                    assert(white_in_rect(m.pixels@, m.width as int, x0 as int, x1 as int, y0 as int, y1 as int));
                }
            }
            let v: u8 = if near { 255 } else { pixel(m, x, y) };
            proof {
                lemma_pos(w as int, h as int, x as int, y as int);
                assert(v == f(x as int, y as int));
            }
            let ghost before = pixels@;
            pixels.push(v);
            proof {
                assert forall|k: int| 0 <= k < pixels@.len() implies #[trigger] pixels@[k] == f(
                    k % (w as int),
                    k / (w as int),
                ) by {
                    if k < before.len() {
                        assert(pixels@[k] == before[k]);
                    }
                }
            }
            x = x + 1;
        }
        assert(pixels@ =~= map_of(w as int, y + 1, f)) by {
            assert(w * (y + 1) == y * w + w) by (nonlinear_arith);
        }
        y = y + 1;
    }
    LumaMap { width: w, height: h, pixels }
}

/// Opens a binary map: erodes it by `radius`, then dilates the result by
/// `radius + 2`.
pub fn open_binary_map(m: &LumaMap, radius: u32) -> (out: LumaMap)
    requires
        m.wf(),
        radius <= m.width,
        radius <= m.height,
        m.width * m.height <= usize::MAX,
        m.width + radius + 2 <= 0x8000_0000,
        m.height + radius + 2 <= 0x8000_0000,
    ensures
        out.width == m.width,
        out.height == m.height,
        out.wf(),
        out.pixels@ == map_of(
            m.width as int,
            m.height as int,
            |x: int, y: int|
                dilated(
                    map_of(
                        m.width as int,
                        m.height as int,
                        |x: int, y: int|
                            eroded(m.pixels@, m.width as int, m.height as int, radius as int, x, y),
                    ),
                    m.width as int,
                    m.height as int,
                    radius + 2,
                    x,
                    y,
                ),
        ),
{
    let eroded_map = erode_binary_map(m, radius);
    dilate_binary_map(&eroded_map, radius + 2)
}

/// Masks a map in place: every pixel that the mask covers with a value of at
/// most 30 becomes black; the others, and those outside the mask, stay.
pub fn mask_luma_map(source: &mut LumaMap, mask: &LumaMap)
    requires
        old(source).wf(),
        mask.wf(),
    ensures
        final(source).width == old(source).width,
        final(source).height == old(source).height,
        final(source).pixels@ == map_of(
            old(source).width as int,
            old(source).height as int,
            |x: int, y: int|
                masked(
                    old(source).pixels@,
                    old(source).width as int,
                    mask.pixels@,
                    mask.width as int,
                    mask.height as int,
                    x,
                    y,
                ),
        ),
{
    let ghost src = source.pixels@;
    let w = source.width;
    let h = source.height;
    let ghost f = |x: int, y: int|
        masked(src, w as int, mask.pixels@, mask.width as int, mask.height as int, x, y);
    let mut y: u32 = 0;
    while y < h
        invariant
            mask.wf(),
            w == source.width,
            h == source.height,
            source.pixels@.len() == w * h,
            src.len() == w * h,
            y <= h,
            f == (|x: int, y: int|
                masked(src, w as int, mask.pixels@, mask.width as int, mask.height as int, x, y)),
            forall|k: int| 0 <= k < y * w ==> #[trigger] source.pixels@[k] == f(k % (w as int), k / (w as int)),
            forall|k: int| y * w <= k < w * h ==> #[trigger] source.pixels@[k] == src[k],
        decreases h - y,
    {
        let mut x: u32 = 0;
        while x < w
            invariant
                mask.wf(),
                w == source.width,
                h == source.height,
                source.pixels@.len() == w * h,
                src.len() == w * h,
                y < h,
                x <= w,
                f == (|x: int, y: int|
                    masked(src, w as int, mask.pixels@, mask.width as int, mask.height as int, x, y)),
                forall|k: int| 0 <= k < y * w + x ==> #[trigger] source.pixels@[k] == f(k % (w as int), k / (w as int)),
                forall|k: int| y * w + x <= k < w * h ==> #[trigger] source.pixels@[k] == src[k],
            decreases w - x,
        {
            let n = source.pixels.len();
            proof {
                lemma_pos(w as int, h as int, x as int, y as int);
                assert(y * w <= y * w + x);
            }
            let i: usize = (y as u64 * w as u64 + x as u64) as usize;
            let covered = x < mask.width && y < mask.height && pixel(mask, x, y) <= MASK_THRESHOLD;
            if covered {
                source.pixels.set(i, 0);
            }
            proof {
                assert(source.pixels@[i as int] == f(x as int, y as int));
                assert forall|k: int| 0 <= k < y * w + x + 1 implies #[trigger] source.pixels@[k] == f(
                    k % (w as int),
                    k / (w as int),
                ) by {
                    if k == i {
                    }
                }
            }
            x = x + 1;
        }
        assert(y * w + w == (y + 1) * w) by (nonlinear_arith);
        y = y + 1;
    }
    assert(h * w == w * h) by (nonlinear_arith);
    assert(source.pixels@ =~= map_of(w as int, h as int, f));
}

/// Dilation never darkens: a pixel of value 255 stays 255.
pub proof fn law_dilation_keeps_white(p: Seq<u8>, w: int, h: int, r: int, x: int, y: int)
    requires
        0 <= x < w,
        0 <= y < h,
        0 <= r,
        at(p, w, x, y) == 255,
    ensures
        dilated(p, w, h, r, x, y) == 255,
{
    assert(at(p, w, x, y) == 255);
    assert(white_near(p, w, h, r, x, y));
}

} // verus!
