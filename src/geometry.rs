use vstd::arithmetic::div_mod::*;
use vstd::arithmetic::mul::*;
use vstd::prelude::*;

use crate::raster::Image;

verus! {

/// Raises a count to at least one, so that nothing is rendered zero cells wide or tall.
pub open spec fn at_least_one(x: int) -> int {
    if x < 1 {
        1
    } else {
        x
    }
}

/// The cell box that an image of `w` × `h` pixels takes inside a box of `bw` × `bh` cells,
/// a cell being one pixel wide and two pixels tall.
///
/// An image that already fits keeps its size (it is never scaled up). Otherwise the axis
/// that binds is chosen by comparing cross products, that axis is pinned to the bound and
/// the other one is scaled by integer division.
pub open spec fn fit(w: int, h: int, bw: int, bh: int) -> (int, int) {
    let ph = 2 * bh;
    if w <= bw && h <= ph {
        (at_least_one(w), at_least_one(h / 2))
    } else if bw * h <= w * ph {
        let scaled = if w == 0 {
            0
        } else {
            h * bw / w
        };
        (at_least_one(bw), at_least_one(scaled / 2))
    } else {
        (at_least_one(w * ph / h), at_least_one(bh))
    }
}

/// The cell box that `find_best_fit` gives for an image of `iw` × `ih` pixels, the optional
/// width and height asked for, and a terminal of `tw` × `th` cells.
pub open spec fn best_fit(
    iw: int,
    ih: int,
    width: Option<u32>,
    height: Option<u32>,
    keep_ratio: bool,
    tw: int,
    th: int,
) -> (int, int) {
    match (width, height) {
        (None, None) => {
            let f = fit(iw, ih, tw, th);
            (f.0, if f.1 == th {
                f.1 - 1
            } else {
                f.1
            })
        },
        (Some(w), None) => fit(iw, ih, w as int, ih),
        (None, Some(h)) => fit(iw, ih, iw, h as int),
        (Some(w), Some(h)) => if keep_ratio {
            fit(iw, ih, w as int, h as int)
        } else {
            (w as int, h as int)
        },
    }
}

proof fn lemma_div_bounds(x: int, d: int)
    requires
        x >= 0,
        d > 0,
    ensures
        0 <= x / d,
        d * (x / d) <= x < d * (x / d) + d,
{
    lemma_fundamental_div_mod(x, d);
    lemma_mod_bound(x, d);
    lemma_div_pos_is_pos(x, d);
}

/// `x / d` is at most `c` whenever `x` is at most `d * c`.
proof fn lemma_div_at_most(x: int, d: int, c: int)
    requires
        x >= 0,
        d > 0,
        x <= d * c,
    ensures
        x / d <= c,
{
    lemma_div_bounds(x, d);
    assert(d * (x / d) <= d * c);
    lemma_mul_is_commutative(d, x / d);
    lemma_mul_is_commutative(d, c);
    lemma_mul_inequality_converse(x / d, c, d);
}

/// `x / d` is below `c` whenever `x` is below `d * c`.
proof fn lemma_div_below(x: int, d: int, c: int)
    requires
        x >= 0,
        d > 0,
        x < d * c,
    ensures
        x / d < c,
{
    lemma_div_bounds(x, d);
    assert(d * (x / d) < d * c);
    lemma_mul_is_commutative(d, x / d);
    lemma_mul_is_commutative(d, c);
    lemma_mul_strict_inequality_converse(x / d, c, d);
}

/// The fitted box never has an empty axis, and lies inside the bound when the bound is not
/// empty.
pub proof fn lemma_fit_bounds(w: int, h: int, bw: int, bh: int)
    requires
        w >= 0,
        h >= 0,
        bw >= 0,
        bh >= 0,
    ensures
        fit(w, h, bw, bh).0 >= 1,
        fit(w, h, bw, bh).1 >= 1,
        fit(w, h, bw, bh).0 <= at_least_one(bw),
        fit(w, h, bw, bh).1 <= at_least_one(bh),
{
    let ph = 2 * bh;
    if w <= bw && h <= ph {
    } else if bw * h <= w * ph {
        if w > 0 {
            lemma_div_bounds(h * bw, w);
            lemma_mul_is_commutative(h, bw);
            lemma_div_at_most(h * bw, w, ph);
        }
    } else {
        assert(h > 0) by (nonlinear_arith)
            requires
                h >= 0,
                w >= 0,
                ph >= 0,
                bw * h > w * ph,
        ;
        lemma_div_bounds(w * ph, h);
        lemma_mul_is_commutative(bw, h);
        lemma_div_below(w * ph, h, bw);
    }
}

/// Fitting keeps the image's proportions up to one cell of rounding on each axis: the box of
/// `cw` × `ch` cells covers `cw` × `2·ch` pixels, and `cw·h` differs from `2·ch·w` by at most
/// `h + 2·w`, the change that one column and one row make. The box has at least one cell on
/// each axis and lies inside the bound, or is a single cell on an axis where the bound is
/// empty.
pub proof fn lemma_fit_keeps_proportions(w: int, h: int, bw: int, bh: int)
    requires
        w >= 0,
        h >= 0,
        bw >= 0,
        bh >= 0,
    ensures
        ({
            let (cw, ch) = fit(w, h, bw, bh);
            &&& cw >= 1
            &&& ch >= 1
            &&& cw <= at_least_one(bw)
            &&& ch <= at_least_one(bh)
            &&& -(h + 2 * w) <= cw * h - 2 * ch * w <= h + 2 * w
        }),
{
    lemma_fit_bounds(w, h, bw, bh);
    let (cw, ch) = fit(w, h, bw, bh);
    let ph = 2 * bh;
    if w <= bw && h <= ph {
        let d = h - 2 * ch;
        assert(-2 <= d <= 1);
        if w >= 1 {
            assert(cw * h - 2 * ch * w == w * d) by (nonlinear_arith)
                requires
                    cw == w,
                    d == h - 2 * ch,
            ;
            assert(-2 * w <= w * d <= w) by (nonlinear_arith)
                requires
                    -2 <= d <= 1,
                    w >= 1,
            ;
        } else {
            assert(cw * h - 2 * ch * w == h) by (nonlinear_arith)
                requires
                    cw == 1,
                    w == 0,
            ;
        }
    } else if bw * h <= w * ph {
        if w == 0 || bw == 0 {
            // an empty image width or bound: a single column, and a single row
            assert(bw == 0) by (nonlinear_arith)
                requires
                    w >= 0,
                    h >= 0,
                    bw >= 0,
                    ph >= 0,
                    bw * h <= w * ph,
                    w == 0 || bw == 0,
                    !(w <= bw && h <= ph),
            ;
            if w > 0 {
                assert(h * bw == 0) by (nonlinear_arith)
                    requires
                        bw == 0,
                ;
            }
            assert(cw == 1 && ch == 1);
            assert(-(h + 2 * w) <= cw * h - 2 * ch * w <= h + 2 * w) by (nonlinear_arith)
                requires
                    cw == 1,
                    ch == 1,
                    w >= 0,
                    h >= 0,
            ;
        } else {
            let i = h * bw / w;
            lemma_div_bounds(h * bw, w);
            let t = 2 * ch;
            assert(cw == bw);
            if i >= 2 {
                assert(i - 1 <= t <= i);
                assert((i - 1) * w <= t * w <= i * w) by (nonlinear_arith)
                    requires
                        i - 1 <= t <= i,
                        w > 0,
                ;
                assert(0 <= cw * h - 2 * ch * w <= 2 * w) by (nonlinear_arith)
                    requires
                        (i - 1) * w <= t * w <= i * w,
                        w * i <= h * bw < w * i + w,
                        t == 2 * ch,
                        cw == bw,
                ;
            } else {
                assert(t == 2);
                assert(-2 * w <= cw * h - 2 * ch * w <= 0) by (nonlinear_arith)
                    requires
                        0 <= i < 2,
                        w * i <= h * bw < w * i + w,
                        ch == 1,
                        cw == bw,
                        w > 0,
                        h >= 0,
                        bw >= 1,
                ;
            }
        }
    } else {
        assert(h > 0) by (nonlinear_arith)
            requires
                h >= 0,
                w >= 0,
                ph >= 0,
                bw * h > w * ph,
        ;
        let j = w * ph / h;
        lemma_div_bounds(w * ph, h);
        if bh == 0 {
            assert(w * ph == 0) by (nonlinear_arith)
                requires
                    ph == 0,
            ;
            assert(cw == 1 && ch == 1);
            assert(-(h + 2 * w) <= cw * h - 2 * ch * w <= h + 2 * w) by (nonlinear_arith)
                requires
                    cw == 1,
                    ch == 1,
                    w >= 0,
                    h >= 0,
            ;
        } else if j >= 1 {
            assert(-h <= cw * h - 2 * ch * w <= 0) by (nonlinear_arith)
                requires
                    cw == j,
                    ch == bh,
                    ph == 2 * bh,
                    h * j <= w * ph < h * j + h,
            ;
        } else {
            assert(0 <= cw * h - 2 * ch * w <= h) by (nonlinear_arith)
                requires
                    cw == 1,
                    j == 0,
                    ch == bh,
                    ph == 2 * bh,
                    h * j <= w * ph < h * j + h,
            ;
        }
    }
}

/// An image that already fits in the bound keeps its size: it is never scaled up. Fitting is
/// idempotent in a bound of at least one cell on each axis: fitting the pixels of a fitted box
/// into the same bound gives that box again.
pub proof fn lemma_fit_idempotent(w: int, h: int, bw: int, bh: int)
    requires
        w >= 0,
        h >= 0,
        bw >= 0,
        bh >= 0,
    ensures
        w <= bw && h <= 2 * bh ==> fit(w, h, bw, bh) == (at_least_one(w), at_least_one(h / 2)),
        bw >= 1 && bh >= 1 ==> {
            let (cw, ch) = fit(w, h, bw, bh);
            fit(cw, 2 * ch, bw, bh) == (cw, ch)
        },
{
    lemma_fit_bounds(w, h, bw, bh);
}

/// Scales `width` × `height` pixels to fit in `bound_width` × `bound_height` cells, keeping the
/// aspect ratio; see `fit`. Returns the box in cells, at least one cell on each axis.
pub fn fit_dimensions(width: u32, height: u32, bound_width: u32, bound_height: u32) -> (r: (
    u32,
    u32,
))
    ensures
        r.0 as int == fit(width as int, height as int, bound_width as int, bound_height as int).0,
        r.1 as int == fit(width as int, height as int, bound_width as int, bound_height as int).1,
        r.0 >= 1,
        r.1 >= 1,
{
    proof {
        lemma_fit_bounds(width as int, height as int, bound_width as int, bound_height as int);
    }
    let w = width as u128;
    let h = height as u128;
    let bw = bound_width as u128;
    let ph = 2 * (bound_height as u128);
    if w <= bw && h <= ph {
        let half = height / 2;
        return (if width < 1 {
            1
        } else {
            width
        }, if half < 1 {
            1
        } else {
            half
        });
    }
    assert(w * ph < 0x1_0000_0000_0000_0000_0000_0000 && bw * h < 0x1_0000_0000_0000_0000_0000_0000)
        by (nonlinear_arith)
        requires
            w < 0x1_0000_0000,
            h < 0x1_0000_0000,
            bw < 0x1_0000_0000,
            ph < 0x2_0000_0000,
    ;
    let ratio = w * ph;
    let nratio = bw * h;
    if nratio <= ratio {
        let scaled = if w == 0 {
            0
        } else {
            h * bw / w
        };
        proof {
            if w > 0 {
                lemma_mul_is_commutative(h as int, bw as int);
                lemma_div_at_most((h * bw) as int, w as int, ph as int);
            }
        }
        let half = (scaled / 2) as u32;
        (if bound_width < 1 {
            1
        } else {
            bound_width
        }, if half < 1 {
            1
        } else {
            half
        })
    } else {
        assert(h > 0) by (nonlinear_arith)
            requires
                bw * h > w * ph,
        ;
        let scaled = w * ph / h;
        proof {
            lemma_div_bounds((w * ph) as int, h as int);
            lemma_mul_is_commutative(bw as int, h as int);
            lemma_div_below((w * ph) as int, h as int, bw as int);
        }
        let scaled = scaled as u32;
        (if scaled < 1 {
            1
        } else {
            scaled
        }, if bound_height < 1 {
            1
        } else {
            bound_height
        })
    }
}

/// Finds the cell box in which `img` is printed, from the width and height asked for.
///
/// - Neither given: the image is fitted into the terminal of `term_size` (columns, rows);
///   when it would take every row, one row is left free for the prompt that follows.
/// - Only one given: the image is fitted to that axis, keeping its aspect ratio.
/// - Both given: they are used as they are, unless `preserve_aspect_ratio` asks to fit the
///   image into them instead.
pub fn find_best_fit(
    img: &Image,
    width: Option<u32>,
    height: Option<u32>,
    preserve_aspect_ratio: bool,
    term_size: (u16, u16),
) -> (r: (u32, u32))
    ensures
        (r.0 as int, r.1 as int) == best_fit(
            img.width as int,
            img.height as int,
            width,
            height,
            preserve_aspect_ratio,
            term_size.0 as int,
            term_size.1 as int,
        ),
        width is Some && height is Some && !preserve_aspect_ratio ==> r == (
            width->0,
            height->0,
        ),
{
    let iw = img.width;
    let ih = img.height;
    match (width, height) {
        (None, None) => {
            let (term_w, term_h) = term_size;
            let (w, h) = fit_dimensions(iw, ih, term_w as u32, term_h as u32);
            let h = if h == term_h as u32 {
                h - 1
            } else {
                h
            };
            (w, h)
        },
        (Some(w), None) => fit_dimensions(iw, ih, w, ih),
        (None, Some(h)) => fit_dimensions(iw, ih, iw, h),
        (Some(w), Some(h)) => {
            if preserve_aspect_ratio {
                fit_dimensions(iw, ih, w, h)
            } else {
                (w, h)
            }
        },
    }
}

} // verus!
