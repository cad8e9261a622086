use crate::grid::{cell_range, expanded_times, index_hit, index_miss, Grid};
use crate::image::Size;
use crate::util::{div_ceil, spec_div_ceil};
use vstd::prelude::*;

verus! {

/// How `fill_alpha` fills transparent pixels.
pub enum FillMode {
    Fragment { iterations: u32, fragment_count: u32 },
    ExtendColor { iterations: u32 },
    Nearest { min_radius: u32, anti_aliasing: bool },
}

/// The value of `mask` at pixel `(x, y)` of an image `w` pixels wide.
pub open spec fn mask_at(mask: Seq<bool>, w: int, x: int, y: int) -> bool {
    mask[y * w + x]
}

/// Some pixel of cell `(cx, cy)` of an `n`-pixel grid over a `w` by `h` image has `mask` value
/// `want`.
pub open spec fn cell_has(mask: Seq<bool>, w: int, h: int, n: int, cx: int, cy: int, want: bool) -> bool {
    exists|x: int, y: int|
        cell_range(cx, n, w).0 <= x < cell_range(cx, n, w).1 && cell_range(cy, n, h).0 <= y
            < cell_range(cy, n, h).1 && #[trigger] mask_at(mask, w, x, y) == want
}

/// The pixel ranges of the cells of a grid over a `w` by `h` image lie within the image.
proof fn lemma_cell_in_image(c: int, cells: int, pixels: int, n: int)
    requires
        n > 0,
        pixels >= 0,
        0 <= c < cells,
        cells == spec_div_ceil(pixels, n),
    ensures
        0 <= cell_range(c, n, pixels).0,
        cell_range(c, n, pixels).1 <= pixels,
{
    vstd::arithmetic::mul::lemma_mul_nonnegative(c, n);
}

/// A grid whose cells are set exactly where the cell holds a pixel with `mask` value `want`.
fn mask_grid<const N: usize>(w: usize, h: usize, mask: &[bool], want: bool) -> (r: Grid<N>)
    requires
        N > 0,
        mask@.len() == w * h,
        w + N <= usize::MAX,
        h + N <= usize::MAX,
    ensures
        r.wf(),
        r.spec_pixels() == (Size { width: w, height: h }),
        r.spec_width() == spec_div_ceil(w as int, N as int),
        r.spec_height() == spec_div_ceil(h as int, N as int),
        forall|x: int, y: int|
            0 <= x < r.spec_width() && 0 <= y < r.spec_height() ==> (#[trigger] r.raw_cell(x, y)
                <==> cell_has(mask@, w as int, h as int, N as int, x, y, want)),
        forall|x: int, y: int|
            0 <= y < r.spec_height() && !(0 <= x < r.spec_width()) ==> !#[trigger] r.raw_cell(x, y),
{
    let size = Size::new(w, h);
    let len = mask.len();
    let mut grid: Grid<N> = Grid::new(size);
    let f = |i: usize| -> (b: bool)
        requires
            i < mask@.len(),
        ensures
            b == (mask@[i as int] == want),
        { mask[i] == want };
    grid.fill_with_pixels_index(f);
    assert forall|x: int, y: int|
        0 <= x < grid.spec_width() && 0 <= y < grid.spec_height() implies (#[trigger] grid.raw_cell(
        x,
        y,
    ) <==> cell_has(mask@, w as int, h as int, N as int, x, y, want)) by {
        let xr = cell_range(x, N as int, w as int);
        let yr = cell_range(y, N as int, h as int);
        lemma_cell_in_image(x, grid.spec_width() as int, w as int, N as int);
        lemma_cell_in_image(y, grid.spec_height() as int, h as int, N as int);
        if grid.raw_cell(x, y) {
            assert(index_hit(f, xr, yr, w as int));
            let (px, py) = choose|px: int, py: int|
                xr.0 <= px < xr.1 && yr.0 <= py < yr.1 && #[trigger] f.ensures(
                    ((py * w + px) as usize,),
                    true,
                );
            assert(0 <= py * w + px < w * h) by (nonlinear_arith)
                requires
                    0 <= px < w,
                    0 <= py < h,
            ;
            assert(((py * w + px) as usize) as int == py * w + px);
            assert(mask_at(mask@, w as int, px, py) == want);
        } else {
            assert(index_miss(f, xr, yr, w as int));
            assert forall|px: int, py: int|
                xr.0 <= px < xr.1 && yr.0 <= py < yr.1 implies #[trigger] mask_at(
                mask@,
                w as int,
                px,
                py,
            ) != want by {
                assert(f.ensures(((py * w + px) as usize,), false));
                assert(0 <= py * w + px < w * h) by (nonlinear_arith)
                    requires
                        0 <= px < w,
                        0 <= py < h,
                ;
                assert(((py * w + px) as usize) as int == py * w + px);
            }
        }
    }
    grid
}

/// Pixel `x` lies in cell `x / n`, which is a cell of the grid.
proof fn lemma_pixel_cell(x: int, pixels: int, n: int)
    requires
        n > 0,
        0 <= x < pixels,
    ensures
        0 <= x / n < spec_div_ceil(pixels, n),
        cell_range(x / n, n, pixels).0 <= x < cell_range(x / n, n, pixels).1,
{
    vstd::arithmetic::div_mod::lemma_fundamental_div_mod(x, n);
    vstd::arithmetic::div_mod::lemma_fundamental_div_mod(pixels, n);
    vstd::arithmetic::div_mod::lemma_div_is_ordered(x, pixels, n);
    vstd::arithmetic::div_mod::lemma_div_pos_is_pos(x, n);
    vstd::arithmetic::mul::lemma_mul_is_distributive_add_other_way(n, x / n, 1);
    vstd::arithmetic::mul::lemma_mul_is_commutative(n, x / n);
    vstd::arithmetic::mul::lemma_mul_is_commutative(n, pixels / n);
    if x / n == pixels / n {
        assert(pixels % n != 0);
    }
}

/// Pixels at most `r` apart lie in cells at most `ceil(r / n)` apart.
proof fn lemma_cell_distance(a: int, b: int, r: int, n: int)
    requires
        n > 0,
        0 <= a <= b,
        b - a <= r,
    ensures
        b / n - a / n <= spec_div_ceil(r, n),
{
    vstd::arithmetic::div_mod::lemma_fundamental_div_mod(a, n);
    vstd::arithmetic::div_mod::lemma_fundamental_div_mod(b, n);
    vstd::arithmetic::div_mod::lemma_fundamental_div_mod(r, n);
    let qa = a / n;
    let qb = b / n;
    let qr = r / n;
    vstd::arithmetic::mul::lemma_mul_is_commutative(n, qa);
    vstd::arithmetic::mul::lemma_mul_is_commutative(n, qb);
    vstd::arithmetic::mul::lemma_mul_is_commutative(n, qr);
    let d = qb - qa;
    assert(d * n == qb * n - qa * n) by {
        vstd::arithmetic::mul::lemma_mul_is_distributive_sub_other_way(n, qb, qa);
    }
    if d > spec_div_ceil(r, n) {
        let c = spec_div_ceil(r, n);
        assert(d >= c + 1);
        assert(d * n >= (c + 1) * n) by {
            vstd::arithmetic::mul::lemma_mul_inequality(c + 1, d, n);
        }
        assert((c + 1) * n == c * n + n) by {
            vstd::arithmetic::mul::lemma_mul_is_distributive_add_other_way(n, c, 1);
        }
        assert(c * n >= qr * n) by {
            vstd::arithmetic::mul::lemma_mul_inequality(qr, c, n);
        }
        if r % n != 0 {
            assert(c * n == qr * n + n) by {
                vstd::arithmetic::mul::lemma_mul_is_distributive_add_other_way(n, qr, 1);
            }
        }
    }
}

/// The stored cells of the grid with `N`-pixel cells over a `w` by `h` image whose cells are
/// set where the cell holds a pixel that `mask` marks `want`.
pub open spec fn mask_cells(mask: Seq<bool>, w: int, h: int, n: int, want: bool) -> spec_fn(int, int) -> bool {
    |x: int, y: int| 0 <= x < spec_div_ceil(w, n) && cell_has(mask, w, h, n, x, y, want)
}

/// The cells that `within_radius_grid` sets, for `transparent` over a `w` by `h` image: the
/// cells holding a transparent pixel, where the radius reaches across the image; else those
/// of them that the cells holding an opaque pixel reach in `ceil(radius / n)` rounds of
/// `expand_one`.
pub open spec fn within_radius_cells(
    transparent: Seq<bool>,
    w: int,
    h: int,
    n: int,
    radius: int,
    x: int,
    y: int,
) -> bool {
    &&& cell_has(transparent, w, h, n, x, y, true)
    &&& (radius >= w || radius >= h || expanded_times(
        mask_cells(transparent, w, h, n, false),
        spec_div_ceil(w, n),
        spec_div_ceil(h, n),
        spec_div_ceil(radius, n) as nat,
    )(x, y))
}

/// The cells of a grid with `N`-pixel cells over a `w` by `h` image that may hold a
/// transparent pixel within `radius` pixels of an opaque pixel.
///
/// The set cells are those of `within_radius_cells`. So every set cell holds a transparent
/// pixel, and the cell of every transparent pixel that is at most `radius` pixels away from an
/// opaque pixel in each direction is set.
pub fn within_radius_grid<const N: usize>(w: usize, h: usize, transparent: &[bool], radius: u32) -> (r:
    Grid<N>)
    requires
        N > 0,
        transparent@.len() == w * h,
        w + N <= usize::MAX,
        h + N <= usize::MAX,
    ensures
        r.wf(),
        r.spec_pixels() == (Size { width: w, height: h }),
        r.spec_width() == spec_div_ceil(w as int, N as int),
        r.spec_height() == spec_div_ceil(h as int, N as int),
        forall|x: int, y: int|
            0 <= x < r.spec_width() && 0 <= y < r.spec_height() ==> (#[trigger] r.raw_cell(x, y)
                <==> within_radius_cells(transparent@, w as int, h as int, N as int, radius as int, x, y)),
        forall|x: int, y: int|
            0 <= x < r.spec_width() && 0 <= y < r.spec_height() && #[trigger] r.raw_cell(x, y)
                ==> cell_has(transparent@, w as int, h as int, N as int, x, y, true),
        forall|tx: int, ty: int, ox: int, oy: int|
            0 <= tx < w && 0 <= ty < h && 0 <= ox < w && 0 <= oy < h && #[trigger] mask_at(
                transparent@,
                w as int,
                tx,
                ty,
            ) && !#[trigger] mask_at(transparent@, w as int, ox, oy) && tx - radius <= ox <= tx
                + radius && ty - radius <= oy <= ty + radius ==> r.raw_cell(tx / N as int, ty / N as int),
{
    let transparency_grid: Grid<N> = mask_grid(w, h, transparent, true);
    if radius as usize >= w || radius as usize >= h {
        proof {
            assert forall|tx: int, ty: int|
                0 <= tx < w && 0 <= ty < h && mask_at(transparent@, w as int, tx, ty) implies transparency_grid.raw_cell(
                tx / N as int,
                ty / N as int,
            ) by {
                lemma_pixel_cell(tx, w as int, N as int);
                lemma_pixel_cell(ty, h as int, N as int);
                assert(cell_has(
                    transparent@,
                    w as int,
                    h as int,
                    N as int,
                    tx / N as int,
                    ty / N as int,
                    true,
                ));
            }
        }
        return transparency_grid;
    }
    let mut opaque_grid: Grid<N> = mask_grid(w, h, transparent, false);
    let iters = div_ceil(radius as usize, opaque_grid.cell_size());
    let ghost start = opaque_grid;
    let ghost c0 = mask_cells(transparent@, w as int, h as int, N as int, false);
    let ghost gw = opaque_grid.spec_width() as int;
    let ghost gh = opaque_grid.spec_height() as int;
    let mut it: usize = 0;
    proof {
        assert forall|x: int, y: int| 0 <= y < gh implies #[trigger] opaque_grid.raw_cell(x, y)
            == expanded_times(c0, gw, gh, 0)(x, y) by {}
    }
    proof {
        assert forall|x: int, y: int|
            0 <= x < opaque_grid.spec_width() && 0 <= y < opaque_grid.spec_height()
                && start.set_within(x, y, 0) implies #[trigger] opaque_grid.raw_cell(x, y) by {
            let (a, b) = choose|a: int, b: int|
                0 <= a < start.spec_width() && 0 <= b < start.spec_height() && x - 0 <= a <= x + 0
                    && y - 0 <= b <= y + 0 && #[trigger] start.raw_cell(a, b);
        }
    }
    while it < iters
        invariant
            opaque_grid.wf(),
            it <= iters,
            opaque_grid.spec_width() == start.spec_width(),
            opaque_grid.spec_height() == start.spec_height(),
            opaque_grid.spec_pixels() == start.spec_pixels(),
            forall|x: int, y: int|
                0 <= x < opaque_grid.spec_width() && 0 <= y < opaque_grid.spec_height()
                    && start.set_within(x, y, it as int) ==> #[trigger] opaque_grid.raw_cell(x, y),
            gw == opaque_grid.spec_width(),
            gh == opaque_grid.spec_height(),
            forall|x: int, y: int|
                0 <= y < gh ==> #[trigger] opaque_grid.raw_cell(x, y) == expanded_times(
                    c0,
                    gw,
                    gh,
                    it as nat,
                )(x, y),
        decreases iters - it,
    {
        let ghost before = opaque_grid;
        opaque_grid.expand_one();
        proof {
            assert(before.expands_to(&opaque_grid));
            before.lemma_expand_one_grows(&start, &opaque_grid, it as int);
            before.lemma_expands_to_cells(&opaque_grid, expanded_times(c0, gw, gh, it as nat));
            assert forall|x: int, y: int| 0 <= y < gh implies #[trigger] opaque_grid.raw_cell(x, y)
                == expanded_times(c0, gw, gh, (it + 1) as nat)(x, y) by {}
        }
        it = it + 1;
    }
    let ghost expanded = opaque_grid;
    opaque_grid.and(&transparency_grid);
    proof {
        assert(iters as int == spec_div_ceil(radius as int, N as int));
        assert forall|x: int, y: int| 0 <= x < gw && 0 <= y < gh implies (#[trigger] opaque_grid.raw_cell(
            x,
            y,
        ) <==> within_radius_cells(transparent@, w as int, h as int, N as int, radius as int, x, y)) by {
            assert(expanded.raw_cell(x, y) == expanded_times(c0, gw, gh, iters as nat)(x, y));
        }
        assert forall|tx: int, ty: int, ox: int, oy: int|
            0 <= tx < w && 0 <= ty < h && 0 <= ox < w && 0 <= oy < h && #[trigger] mask_at(
                transparent@,
                w as int,
                tx,
                ty,
            ) && !#[trigger] mask_at(transparent@, w as int, ox, oy) && tx - radius <= ox <= tx
                + radius && ty - radius <= oy <= ty + radius implies opaque_grid.raw_cell(
            tx / N as int,
            ty / N as int,
        ) by {
            let n = N as int;
            lemma_pixel_cell(tx, w as int, n);
            lemma_pixel_cell(ty, h as int, n);
            lemma_pixel_cell(ox, w as int, n);
            lemma_pixel_cell(oy, h as int, n);
            if tx <= ox {
                lemma_cell_distance(tx, ox, radius as int, n);
                vstd::arithmetic::div_mod::lemma_div_is_ordered(tx, ox, n);
            } else {
                lemma_cell_distance(ox, tx, radius as int, n);
                vstd::arithmetic::div_mod::lemma_div_is_ordered(ox, tx, n);
            }
            if ty <= oy {
                lemma_cell_distance(ty, oy, radius as int, n);
                vstd::arithmetic::div_mod::lemma_div_is_ordered(ty, oy, n);
            } else {
                lemma_cell_distance(oy, ty, radius as int, n);
                vstd::arithmetic::div_mod::lemma_div_is_ordered(oy, ty, n);
            }
            assert(cell_has(transparent@, w as int, h as int, n, ox / n, oy / n, false));
            assert(start.raw_cell(ox / n, oy / n));
            assert(start.set_within(tx / n, ty / n, iters as int));
            assert(expanded.raw_cell(tx / n, ty / n));
            assert(cell_has(transparent@, w as int, h as int, n, tx / n, ty / n, true));
            assert(transparency_grid.raw_cell(tx / n, ty / n));
        }
    }
    opaque_grid
}

/// Pixel `(x, y)` of a `w` by `h` image is opaque and has a transparent pixel right above,
/// below, left or right of it.
pub open spec fn on_opaque_edge(transparent: Seq<bool>, w: int, h: int, x: int, y: int) -> bool {
    &&& !mask_at(transparent, w, x, y)
    &&& {
        ||| (x > 0 && mask_at(transparent, w, x - 1, y))
        ||| (x + 1 < w && mask_at(transparent, w, x + 1, y))
        ||| (y > 0 && mask_at(transparent, w, x, y - 1))
        ||| (y + 1 < h && mask_at(transparent, w, x, y + 1))
    }
}

/// Position `a` comes before position `b` in row-major order.
pub open spec fn row_major_before(a: (usize, usize), b: (usize, usize)) -> bool {
    a.1 < b.1 || (a.1 == b.1 && a.0 < b.0)
}

/// The opaque pixels of a `w` by `h` image that touch a transparent pixel, as `(x, y)`, in
/// row-major order: the pixels that the nearest-color fill samples from.
pub fn opaque_edge(w: usize, h: usize, transparent: &[bool]) -> (r: Vec<(usize, usize)>)
    requires
        transparent@.len() == w * h,
    ensures
        forall|k: int|
            0 <= k < r@.len() ==> (#[trigger] r@[k]).0 < w && r@[k].1 < h && on_opaque_edge(
                transparent@,
                w as int,
                h as int,
                r@[k].0 as int,
                r@[k].1 as int,
            ),
        forall|x: usize, y: usize|
            x < w && y < h && #[trigger] on_opaque_edge(transparent@, w as int, h as int, x as int, y as int)
                ==> r@.contains((x, y)),
        forall|k: int, j: int| 0 <= k < j < r@.len() ==> row_major_before(#[trigger] r@[k], #[trigger] r@[j]),
{
    let ghost t = transparent@;
    let _n = transparent.len();
    let mut r: Vec<(usize, usize)> = Vec::new();
    let mut y: usize = 0;
    while y < h
        invariant
            t == transparent@,
            t.len() == w * h,
            _n == t.len(),
            y <= h,
            forall|k: int|
                0 <= k < r@.len() ==> (#[trigger] r@[k]).0 < w && r@[k].1 < y && on_opaque_edge(
                    t,
                    w as int,
                    h as int,
                    r@[k].0 as int,
                    r@[k].1 as int,
                ),
            forall|px: usize, py: usize|
                px < w && py < y && #[trigger] on_opaque_edge(t, w as int, h as int, px as int, py as int)
                    ==> r@.contains((px, py)),
            forall|k: int, j: int| 0 <= k < j < r@.len() ==> row_major_before(#[trigger] r@[k], #[trigger] r@[j]),
        decreases h - y,
    {
        let mut x: usize = 0;
        while x < w
            invariant
                t == transparent@,
                t.len() == w * h,
                _n == t.len(),
                y < h,
                x <= w,
                forall|k: int|
                    0 <= k < r@.len() ==> (#[trigger] r@[k]).0 < w && r@[k].1 <= y && (r@[k].1 == y
                        ==> r@[k].0 < x) && on_opaque_edge(t, w as int, h as int, r@[k].0 as int, r@[k].1 as int),
                forall|px: usize, py: usize|
                    px < w && (py < y || (py == y && px < x)) && #[trigger] on_opaque_edge(
                        t,
                        w as int,
                        h as int,
                        px as int,
                        py as int,
                    ) ==> r@.contains((px, py)),
                forall|k: int, j: int| 0 <= k < j < r@.len() ==> row_major_before(#[trigger] r@[k], #[trigger] r@[j]),
            decreases w - x,
        {
            proof {
                assert(y * w + w <= w * h) by (nonlinear_arith)
                    requires
                        y < h,
                ;
                vstd::arithmetic::mul::lemma_mul_is_distributive_sub_other_way(w as int, y as int, 1);
                vstd::arithmetic::mul::lemma_mul_is_distributive_add_other_way(w as int, y as int, 1);
                if y + 1 < h {
                    assert((y + 1) * w + w <= w * h) by (nonlinear_arith)
                        requires
                            y + 1 < h,
                    ;
                }
            }
            let i = y * w + x;
            let edge = !transparent[i] && ((x > 0 && transparent[i - 1]) || (x + 1 < w && transparent[i
                + 1]) || (y > 0 && transparent[i - w]) || (y + 1 < h && transparent[i + w]));
            proof {
                assert(edge == on_opaque_edge(t, w as int, h as int, x as int, y as int));
            }
            let ghost before = r@;
            if edge {
                r.push((x, y));
                proof {
                    assert(r@[r@.len() - 1] == (x, y));
                    assert forall|px: usize, py: usize|
                        px < w && (py < y || (py == y && px < x + 1)) && #[trigger] on_opaque_edge(
                            t,
                            w as int,
                            h as int,
                            px as int,
                            py as int,
                        ) implies r@.contains((px, py)) by {
                        if px == x && py == y {
                            assert(r@[r@.len() - 1] == (px, py));
                        } else {
                            assert(before.contains((px, py)));
                            let k = choose|k: int| 0 <= k < before.len() && before[k] == (px, py);
                            assert(r@[k] == (px, py));
                        }
                    }
                }
            }
            x = x + 1;
        }
        y = y + 1;
    }
    r
}

} // verus!
