use vstd::prelude::*;

verus! {

/// The flag of `d` for pixel `(x + dx, y + dy)` of a `w` x `h` image, false outside the image.
pub open spec fn flag_at(d: Seq<bool>, w: int, h: int, x: int, y: int) -> bool {
    0 <= x < w && 0 <= y < h && d[y * w + x]
}

/// Pixel `(x, y)` of a `w` x `h` image lies next to an edge of the thresholded image. `across`
/// marks a pixel `(x2, y2)` with `x2 >= 1` that differs from the one to its left, `down` one
/// with `y2 >= 1` that differs from the one above it. A pixel lies next to an edge where such
/// a pair of pixels holds it, or lies right above or below it (for `across`), or right left or
/// right of it (for `down`).
pub open spec fn near_edge(across: Seq<bool>, down: Seq<bool>, w: int, h: int, x: int, y: int) -> bool {
    ||| (exists|x2: int, y2: int|
        1 <= x2 && (x2 == x || x2 == x + 1) && y - 1 <= y2 <= y + 1 && #[trigger] flag_at(
            across,
            w,
            h,
            x2,
            y2,
        ))
    ||| (exists|x2: int, y2: int|
        1 <= y2 && (y2 == y || y2 == y + 1) && x - 1 <= x2 <= x + 1 && #[trigger] flag_at(
            down,
            w,
            h,
            x2,
            y2,
        ))
}

/// The flag of `d` for the pixel `dx` columns and `dy` rows away from `(x, y)`, false outside
/// the image.
fn flag(d: &[bool], w: usize, h: usize, x: usize, y: usize, dx: isize, dy: isize) -> (r: bool)
    requires
        d@.len() == w * h,
        x < w,
        y < h,
        -1 <= dx <= 1,
        -1 <= dy <= 1,
    ensures
        r == flag_at(d@, w as int, h as int, x + dx, y + dy),
{
    let _n = d.len();
    if (dx < 0 && x == 0) || (dy < 0 && y == 0) || (dx > 0 && x + 1 >= w) || (dy > 0 && y + 1 >= h) {
        return false;
    }
    let xx = if dx < 0 { x - 1 } else if dx > 0 { x + 1 } else { x };
    let yy = if dy < 0 { y - 1 } else if dy > 0 { y + 1 } else { y };
    proof {
        assert(yy * w + xx < w * h) by (nonlinear_arith)
            requires
                yy < h,
                xx < w,
        ;
    }
    d[yy * w + xx]
}

/// Whether each pixel of a `w` x `h` image lies next to an edge, from the pixels that differ
/// from their left neighbour (`across`) and from their upper neighbour (`down`): the pixels
/// near which the anti-aliased threshold smooths the result.
pub fn threshold_edges(w: usize, h: usize, across: &[bool], down: &[bool]) -> (r: Vec<bool>)
    requires
        across@.len() == w * h,
        down@.len() == w * h,
    ensures
        r@.len() == w * h,
        forall|x: int, y: int|
            0 <= x < w && 0 <= y < h ==> #[trigger] r@[y * w + x] == near_edge(
                across@,
                down@,
                w as int,
                h as int,
                x,
                y,
            ),
{
    let mut r: Vec<bool> = Vec::new();
    let mut y: usize = 0;
    while y < h
        invariant
            across@.len() == w * h,
            down@.len() == w * h,
            y <= h,
            r@.len() == y * w,
            forall|px: int, py: int|
                0 <= px < w && 0 <= py < y ==> #[trigger] r@[py * w + px] == near_edge(
                    across@,
                    down@,
                    w as int,
                    h as int,
                    px,
                    py,
                ),
        decreases h - y,
    {
        let mut x: usize = 0;
        while x < w
            invariant
                across@.len() == w * h,
                down@.len() == w * h,
                y < h,
                x <= w,
                r@.len() == y * w + x,
                forall|px: int, py: int|
                    0 <= px < w && 0 <= py <= y && (py < y || px < x) ==> #[trigger] r@[py * w + px]
                        == near_edge(across@, down@, w as int, h as int, px, py),
            decreases w - x,
        {
            let a = (x >= 1 && (flag(across, w, h, x, y, 0, -1) || flag(across, w, h, x, y, 0, 0)
                || flag(across, w, h, x, y, 0, 1))) || flag(across, w, h, x, y, 1, -1) || flag(
                across,
                w,
                h,
                x,
                y,
                1,
                0,
            ) || flag(across, w, h, x, y, 1, 1);
            let b = (y >= 1 && (flag(down, w, h, x, y, -1, 0) || flag(down, w, h, x, y, 0, 0) || flag(
                down,
                w,
                h,
                x,
                y,
                1,
                0,
            ))) || flag(down, w, h, x, y, -1, 1) || flag(down, w, h, x, y, 0, 1) || flag(
                down,
                w,
                h,
                x,
                y,
                1,
                1,
            );
            let e = a || b;
            proof {
                let (xi, yi) = (x as int, y as int);
                let (wi, hi) = (w as int, h as int);
                if e {
                    if a {
                    } else {
                    }
                } else {
                    assert forall|x2: int, y2: int|
                        1 <= x2 && (x2 == xi || x2 == xi + 1) && yi - 1 <= y2 <= yi + 1 implies !#[trigger] flag_at(
                        across@,
                        wi,
                        hi,
                        x2,
                        y2,
                    ) by {
                        if x2 == xi {
                            assert(xi >= 1);
                        }
                    }
                    assert forall|x2: int, y2: int|
                        1 <= y2 && (y2 == yi || y2 == yi + 1) && xi - 1 <= x2 <= xi + 1 implies !#[trigger] flag_at(
                        down@,
                        wi,
                        hi,
                        x2,
                        y2,
                    ) by {
                        if y2 == yi {
                            assert(yi >= 1);
                        }
                    }
                }
                assert(e == near_edge(across@, down@, wi, hi, xi, yi));
            }
            let ghost old_r = r@;
            r.push(e);
            proof {
                assert forall|px: int, py: int|
                    0 <= px < w && 0 <= py <= y && (py < y || px < x + 1) implies #[trigger] r@[py * w
                    + px] == near_edge(across@, down@, w as int, h as int, px, py) by {
                    if !(py == y && px == x) {
                        if py < y {
                            assert(py * w + px < y * w) by (nonlinear_arith)
                                requires
                                    0 <= px < w,
                                    0 <= py < y,
                            ;
                        }
                        assert(r@[py * w + px] == old_r[py * w + px]);
                    }
                }
            }
            x = x + 1;
        }
        proof {
            assert((y + 1) * w == y * w + w) by (nonlinear_arith);
        }
        y = y + 1;
    }
    proof {
        assert(r@.len() == w * h) by (nonlinear_arith)
            requires
                r@.len() == y * w,
                y == h,
        ;
    }
    r
}

} // verus!
