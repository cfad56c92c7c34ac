//! The integer side of the immersive view's backdrop: which mode paints it, the order its discs
//! are painted in, and where each texel of the uploaded texture takes its color from. The
//! painting itself is floating-point color math and stays outside the verified library.

use vstd::prelude::*;

use crate::theme::Rgb8;

verus! {

/// How the backdrop is painted. One mode today; a new one is a variant here.
#[derive(Clone, Copy, Debug, Default, PartialEq, Eq, Structural)]
pub enum BackdropMode {
    #[default]
    BlurredShapes,
}

/// What a backdrop is painted from: the playing cover, known by the address of its shared
/// artwork, or, when the track has no art, the theme's primary, secondary and highlight
/// colors.
#[derive(Clone, Copy, Debug, PartialEq, Eq, Structural)]
pub enum BackdropSource {
    Cover(usize),
    Theme(Rgb8, Rgb8, Rgb8),
}

/// The source of the backdrop: the cover when there is one, the theme's colors otherwise.
pub fn backdrop_source(cover: Option<usize>, primary: Rgb8, secondary: Rgb8, highlight: Rgb8) -> (source: BackdropSource)
    ensures
        source == match cover {
            Some(address) => BackdropSource::Cover(address),
            None => BackdropSource::Theme(primary, secondary, highlight),
        },
{
    match cover {
        Some(address) => BackdropSource::Cover(address),
        None => BackdropSource::Theme(primary, secondary, highlight),
    }
}

/// The last backdrop, the mode and source it was built for, and what it keeps alive: the
/// cover's artwork, so its address cannot be reused by another image while the entry lives.
/// A backdrop is rebuilt only when the mode or the source changes, never per frame.
pub struct BackdropCache<A, B> {
    last: Option<(BackdropMode, BackdropSource, A, B)>,
}

impl<A, B: Clone> BackdropCache<A, B> {
    /// The mode, source, kept artwork and backdrop last built, if any.
    pub closed spec fn last(&self) -> Option<(BackdropMode, BackdropSource, A, B)> {
        self.last
    }

    /// A cache that has built nothing yet.
    pub fn new() -> (cache: Self)
        ensures
            cache.last() is None,
    {
        BackdropCache { last: None }
    }

    /// The backdrop for `mode` painted from `source`. The last backdrop is handed out again
    /// when both the mode and the source are the ones it was built for; otherwise `build`
    /// paints a fresh one, which replaces it together with `keep`.
    pub fn get<Build: FnOnce(&BackdropSource) -> B>(
        &mut self,
        mode: BackdropMode,
        source: BackdropSource,
        keep: A,
        build: Build,
    ) -> (backdrop: B)
        requires
            build.requires((&source,)),
        ensures
            match old(self).last() {
                Some((last_mode, last_source, _, last_backdrop)) if last_mode == mode && last_source == source => {
                    final(self).last() == old(self).last() && cloned(last_backdrop, backdrop)
                },
                _ => exists|built: B| {
                    &&& build.ensures((&source,), built)
                    &&& final(self).last() == Some((mode, source, keep, built))
                    &&& cloned(built, backdrop)
                },
            },
    {
        match &self.last {
            Some((last_mode, last_source, _, last)) => {
                if *last_mode == mode && *last_source == source {
                    return last.clone();
                }
            },
            None => {},
        }
        let built = build(&source);
        let handed = built.clone();
        let ghost g_built = built;
        self.last = Some((mode, source, keep, built));
        proof {
            // The witness: the backdrop `build` made, which the cache now holds.
            assert(cloned(g_built, handed));
        }
        handed
    }
}

/// The number of discs the blurred-shapes mode paints.
pub const DISC_COUNT: usize = 4;

/// Radius of disc `ix`, in thousandths of the canvas width, prominent color first.
pub open spec fn disc_radius_spec(ix: int) -> u32 {
    if ix == 0 {
        260
    } else if ix == 1 {
        280
    } else if ix == 2 {
        200
    } else {
        220
    }
}

/// Radius of disc `ix`, in thousandths of the canvas width.
pub fn disc_radius(ix: usize) -> (radius: u32)
    requires
        ix < DISC_COUNT,
    ensures
        radius == disc_radius_spec(ix as int),
{
    if ix == 0 {
        260
    } else if ix == 1 {
        280
    } else if ix == 2 {
        200
    } else {
        220
    }
}

/// Whether disc `a` goes before disc `b` when painting largest first: a larger radius, or the
/// same radius and an earlier index (the sort is stable).
pub open spec fn paints_before(a: int, b: int) -> bool {
    disc_radius_spec(a) > disc_radius_spec(b) || (disc_radius_spec(a) == disc_radius_spec(b) && a < b)
}

/// `a` and `b` in painting order.
fn ordered_pair(a: usize, b: usize) -> (pair: (usize, usize))
    requires
        a < DISC_COUNT,
        b < DISC_COUNT,
    ensures
        (pair == (a, b) && disc_radius_spec(a as int) >= disc_radius_spec(b as int))
            || (pair == (b, a) && disc_radius_spec(a as int) < disc_radius_spec(b as int)),
{
    if disc_radius(a) < disc_radius(b) {
        (b, a)
    } else {
        (a, b)
    }
}

/// Disc indices largest first, so every disc paints over the bigger ones: a stable sort of
/// the indices by radius, descending, done as a bubble sort of adjacent pairs.
pub fn paint_order() -> (order: [usize; 4])
    ensures
        forall|i: int| 0 <= i < 4 ==> order@[i] < DISC_COUNT,
        forall|i: int, j: int| 0 <= i < j < 4 ==> order@[i] != order@[j],
        forall|i: int, j: int|
            0 <= i < j < 4 ==> paints_before(order@[i] as int, order@[j] as int),
{
    let (a, b) = ordered_pair(0, 1);
    let (b, c) = ordered_pair(b, 2);
    let (c, d) = ordered_pair(c, 3);
    let (a, b) = ordered_pair(a, b);
    let (b, c) = ordered_pair(b, c);
    let (a, b) = ordered_pair(a, b);
    [a, b, c, d]
}

/// The source pixel of texel `(x, y)` when a `width` x `height` picture is framed by `guard`
/// texels of replicated edge on every side: each coordinate steps back by the guard and is
/// clamped into the picture.
pub open spec fn guard_source(x: int, y: int, width: int, height: int, guard: int) -> int {
    let sx = if x < guard { 0 } else if x - guard > width - 1 { width - 1 } else { x - guard };
    let sy = if y < guard { 0 } else if y - guard > height - 1 { height - 1 } else { y - guard };
    sy * width + sx
}

/// For every texel of the framed texture, row by row, the index of the picture pixel it
/// shows. The texture is `width + 2 * guard` texels wide and `height + 2 * guard` tall.
pub fn guard_sources(width: usize, height: usize, guard: usize) -> (sources: Vec<usize>)
    requires
        width > 0,
        height > 0,
        width + 2 * guard <= usize::MAX,
        height + 2 * guard <= usize::MAX,
        (width + 2 * guard) * (height + 2 * guard) <= usize::MAX,
    ensures
        sources@.len() == (width + 2 * guard) * (height + 2 * guard),
        forall|y: int, x: int|
            0 <= y < height + 2 * guard && 0 <= x < width + 2 * guard ==> {
                &&& #[trigger] sources@[y * (width + 2 * guard) + x] == guard_source(
                    x,
                    y,
                    width as int,
                    height as int,
                    guard as int,
                )
                &&& sources@[y * (width + 2 * guard) + x] < width * height
            },
{
    let out_w = width + 2 * guard;
    let out_h = height + 2 * guard;
    assert(width * height <= out_w * out_h) by (nonlinear_arith)
        requires
            0 < width <= out_w,
            0 < height <= out_h,
    ;
    let mut sources: Vec<usize> = Vec::new();
    let mut y: usize = 0;
    while y < out_h
        invariant
            out_w == width + 2 * guard,
            out_h == height + 2 * guard,
            width > 0,
            height > 0,
            out_w * out_h <= usize::MAX,
            width * height <= out_w * out_h,
            y <= out_h,
            sources@.len() == y * out_w,
            forall|yy: int, x: int|
                0 <= yy < y && 0 <= x < out_w ==> {
                    &&& #[trigger] sources@[yy * out_w + x] == guard_source(
                        x,
                        yy,
                        width as int,
                        height as int,
                        guard as int,
                    )
                    &&& sources@[yy * out_w + x] < width * height
                },
        decreases out_h - y,
    {
        let sy = if y < guard {
            0
        } else if y - guard > height - 1 {
            height - 1
        } else {
            y - guard
        };
        let mut x: usize = 0;
        while x < out_w
            invariant
                out_w == width + 2 * guard,
                out_h == height + 2 * guard,
                width > 0,
                height > 0,
                out_w * out_h <= usize::MAX,
                width * height <= out_w * out_h,
                y < out_h,
                x <= out_w,
                sy < height,
                sy as int == (if y < guard { 0 } else if y - guard > height - 1 { height - 1 } else { y - guard }),
                sources@.len() == y * out_w + x,
                forall|yy: int, xx: int|
                    0 <= yy < y && 0 <= xx < out_w ==> {
                        &&& #[trigger] sources@[yy * out_w + xx] == guard_source(
                            xx,
                            yy,
                            width as int,
                            height as int,
                            guard as int,
                        )
                        &&& sources@[yy * out_w + xx] < width * height
                    },
                forall|xx: int|
                    0 <= xx < x ==> {
                        &&& #[trigger] sources@[y * out_w + xx] == guard_source(
                            xx,
                            y as int,
                            width as int,
                            height as int,
                            guard as int,
                        )
                        &&& sources@[y * out_w + xx] < width * height
                    },
            decreases out_w - x,
        {
            let sx = if x < guard {
                0
            } else if x - guard > width - 1 {
                width - 1
            } else {
                x - guard
            };
            proof {
                lemma_cell_index_bound(sx as int, sy as int, width as int, height as int);
                lemma_cell_index_bound(x as int, y as int, out_w as int, out_h as int);
            }
            let ghost before = sources@;
            sources.push(sy * width + sx);
            proof {
                assert forall|yy: int, xx: int| 0 <= yy < y && 0 <= xx < out_w implies
                    #[trigger] sources@[yy * out_w + xx] == before[yy * out_w + xx] by {
                    lemma_cell_index_bound(xx, yy, out_w as int, y as int);
                }
            }
            x = x + 1;
        }
        proof {
            assert forall|yy: int, xx: int| 0 <= yy < y + 1 && 0 <= xx < out_w implies {
                &&& #[trigger] sources@[yy * out_w + xx] == guard_source(
                    xx,
                    yy,
                    width as int,
                    height as int,
                    guard as int,
                )
                &&& sources@[yy * out_w + xx] < width * height
            } by {
                if yy == y {
                }
            }
            assert((y + 1) * out_w == y * out_w + out_w) by (nonlinear_arith);
        }
        y = y + 1;
    }
    assert(out_h * out_w == out_w * out_h) by (nonlinear_arith);
    sources
}

/// A cell `(x, y)` of a `width` x `height` grid has a row-major index inside the grid.
proof fn lemma_cell_index_bound(x: int, y: int, width: int, height: int)
    requires
        0 <= x < width,
        0 <= y < height,
    ensures
        0 <= y * width + x < width * height,
{
    assert(y * width + x < width * height) by (nonlinear_arith)
        requires
            0 <= x < width,
            0 <= y < height,
    ;
    assert(0 <= y * width) by (nonlinear_arith)
        requires
            0 <= y,
            0 <= width,
    ;
}

/// The framed texture shows the picture unchanged inside the guard band, and every texel,
/// band included, shows some pixel of the picture; a band texel shows the nearest edge pixel
/// in its row or column.
pub proof fn lemma_guard_frame_keeps_the_picture(x: int, y: int, width: int, height: int, guard: int)
    requires
        width > 0,
        height > 0,
        guard >= 0,
        0 <= x < width + 2 * guard,
        0 <= y < height + 2 * guard,
    ensures
        guard <= x < guard + width && guard <= y < guard + height ==> guard_source(x, y, width, height, guard)
            == (y - guard) * width + (x - guard),
        0 <= guard_source(x, y, width, height, guard) < width * height,
        x < guard && guard <= y < guard + height ==> guard_source(x, y, width, height, guard) == (y - guard)
            * width,
        x >= guard + width && guard <= y < guard + height ==> guard_source(x, y, width, height, guard) == (y
            - guard) * width + width - 1,
{
    let sx = if x < guard { 0 } else if x - guard > width - 1 { width - 1 } else { x - guard };
    let sy = if y < guard { 0 } else if y - guard > height - 1 { height - 1 } else { y - guard };
    lemma_cell_index_bound(sx, sy, width, height);
}

} // verus!
