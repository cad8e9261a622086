use vstd::prelude::*;
use zhang_hilbert::ArbHilbertScan32;

verus! {

/// The points of the pseudo-Hilbert scan of the `width` by `height` rectangle, in the order of
/// the scan.
pub uninterp spec fn hilbert_scan_points(width: u32, height: u32) -> Seq<(u32, u32)>;

/// The points `(x, y)` of the `width` by `height` rectangle.
pub open spec fn rectangle(width: u32, height: u32) -> Set<(u32, u32)> {
    Set::new(|p: (u32, u32)| p.0 < width && p.1 < height)
}

/// `zhang_hilbert::ArbHilbertScan32::new([width, height])`, collected: the pseudo-Hilbert scan
/// of the rectangle. The crate documents the scan as a sequence that holds every point of the
/// rectangle and never meets itself; its source scans consecutive parts of the rectangle one
/// after the other. So each point of the rectangle comes exactly once. The order itself is
/// left to the crate. The constructor divides the rectangle into parts, and that division
/// overflows where one side is `u32::MAX` and the other is 1; those sizes are excluded.
#[verifier::external_body]
fn hilbert_scan(width: u32, height: u32) -> (r: Vec<(u32, u32)>)
    requires
        !(width == u32::MAX && height == 1),
        !(width == 1 && height == u32::MAX),
    ensures
        r@ == hilbert_scan_points(width, height),
        r@.no_duplicates(),
        r@.to_set() == rectangle(width, height),
{
    ArbHilbertScan32::new([width, height]).map(|[x, y]| (x, y)).collect()
}

/// The row-major index of the point `p` of an image `width` pixels wide.
pub open spec fn index_of(p: (u32, u32), width: int) -> int {
    p.1 * width + p.0
}

/// The order in which Riemersma dithering visits the pixels of a `width` by `height` image: the
/// row-major indices of the points of the pseudo-Hilbert scan. It visits every pixel exactly
/// once. A strip one pixel thick and `u32::MAX` long cannot be scanned.
pub fn scan_order(width: usize, height: usize) -> (r: Vec<usize>)
    requires
        width <= u32::MAX,
        height <= u32::MAX,
        width * height <= usize::MAX,
        !(width == u32::MAX && height == 1),
        !(width == 1 && height == u32::MAX),
    ensures
        r@.len() == hilbert_scan_points(width as u32, height as u32).len(),
        forall|k: int|
            0 <= k < r@.len() ==> #[trigger] r@[k] == index_of(
                hilbert_scan_points(width as u32, height as u32)[k],
                width as int,
            ),
        r@.no_duplicates(),
        forall|k: int| 0 <= k < r@.len() ==> #[trigger] r@[k] < width * height,
        forall|i: usize| i < width * height ==> r@.contains(i),
{
    let points = hilbert_scan(width as u32, height as u32);
    let ghost pts = points@;
    let mut r: Vec<usize> = Vec::new();
    let mut k: usize = 0;
    while k < points.len()
        invariant
            width <= u32::MAX,
            height <= u32::MAX,
            width * height <= usize::MAX,
            pts == points@,
            pts.to_set() == rectangle(width as u32, height as u32),
            k <= pts.len(),
            r@.len() == k,
            forall|t: int| 0 <= t < k ==> #[trigger] r@[t] == index_of(pts[t], width as int),
        decreases pts.len() - k,
    {
        let (x, y) = points[k];
        proof {
            assert(pts.to_set().contains(pts[k as int]));
            assert(y * width + x < width * height) by (nonlinear_arith)
                requires
                    x < width,
                    y < height,
            ;
        }
        r.push(y as usize * width + x as usize);
        k = k + 1;
    }
    proof {
        assert forall|t: int| 0 <= t < r@.len() implies #[trigger] r@[t] < width * height by {
            assert(pts.to_set().contains(pts[t]));
            let (x, y) = pts[t];
            assert(y * width + x < width * height) by (nonlinear_arith)
                requires
                    x < width,
                    y < height,
            ;
        }
        assert forall|a: int, b: int| 0 <= a < r@.len() && 0 <= b < r@.len() && a != b implies r@[a]
            != r@[b] by {
            assert(pts.to_set().contains(pts[a]));
            assert(pts.to_set().contains(pts[b]));
            let (xa, ya) = pts[a];
            let (xb, yb) = pts[b];
            if r@[a] == r@[b] {
                vstd::arithmetic::div_mod::lemma_fundamental_div_mod_converse(
                    r@[a] as int,
                    width as int,
                    ya as int,
                    xa as int,
                );
                vstd::arithmetic::div_mod::lemma_fundamental_div_mod_converse(
                    r@[b] as int,
                    width as int,
                    yb as int,
                    xb as int,
                );
                assert(pts[a] == pts[b]);
            }
        }
        assert forall|i: usize| i < width * height implies r@.contains(i) by {
            assert(width > 0) by {
                if width == 0 {
                    assert(width * height == 0);
                }
            }
            vstd::arithmetic::div_mod::lemma_fundamental_div_mod(i as int, width as int);
            vstd::arithmetic::div_mod::lemma_mod_bound(i as int, width as int);
            vstd::arithmetic::div_mod::lemma_div_pos_is_pos(i as int, width as int);
            vstd::arithmetic::div_mod::lemma_multiply_divide_lt(i as int, width as int, height as int);
            let x = (i % width) as u32;
            let y = (i / width) as u32;
            assert(rectangle(width as u32, height as u32).contains((x, y)));
            assert(pts.to_set().contains((x, y)));
            let t = choose|t: int| 0 <= t < pts.len() && pts[t] == (x, y);
            assert(r@[t] == i) by {
                vstd::arithmetic::mul::lemma_mul_is_commutative(width as int, y as int);
            }
        }
    }
    r
}

} // verus!
