use vstd::prelude::*;
use vstd::std_specs::cmp::PartialEqSpec;

use crate::image::Image;

verus! {

/// The block of the `n`-times upscaled image that destination index `k` lies in, for a
/// destination row of `row` pixels: its x and y in source pixels.
pub open spec fn block_of(k: int, row: int, n: int) -> (int, int) {
    ((k % row) / n, (k / row) / n)
}

/// The position of destination index `k` inside its block, as the index `dy * n + dx` into the
/// block's pixels.
pub open spec fn offset_in_block(k: int, row: int, n: int) -> int {
    ((k / row) % n) * n + (k % row) % n
}

/// `dest` after writing the `n` x `n` block `block` at source position `(x, y)` of an
/// `n`-times upscaled image whose rows are `row` pixels long.
pub open spec fn with_block<T>(dest: Seq<T>, row: int, n: int, x: int, y: int, block: Seq<T>) -> Seq<T> {
    Seq::new(
        dest.len(),
        |k: int|
            if block_of(k, row, n) == (x, y) {
                block[offset_in_block(k, row, n)]
            } else {
                dest[k]
            },
    )
}

pub proof fn lemma_block_of_index(row: int, n: int, x: int, y: int, dx: int, dy: int)
    requires
        row > 0,
        n > 0,
        0 <= dx < n,
        0 <= dy < n,
        x >= 0,
        y >= 0,
        n * x + dx < row,
    ensures
        block_of((n * y + dy) * row + n * x + dx, row, n) == (x, y),
        offset_in_block((n * y + dy) * row + n * x + dx, row, n) == dy * n + dx,
{
    let k = (n * y + dy) * row + n * x + dx;
    vstd::arithmetic::mul::lemma_mul_nonnegative(n, y);
    vstd::arithmetic::mul::lemma_mul_nonnegative(n, x);
    vstd::arithmetic::div_mod::lemma_fundamental_div_mod_converse(k, row, n * y + dy, n * x + dx);
    vstd::arithmetic::mul::lemma_mul_is_commutative(n, y);
    vstd::arithmetic::mul::lemma_mul_is_commutative(n, x);
    vstd::arithmetic::div_mod::lemma_fundamental_div_mod_converse(n * y + dy, n, y, dy);
    vstd::arithmetic::div_mod::lemma_fundamental_div_mod_converse(n * x + dx, n, x, dx);
}

pub proof fn lemma_index_of_block(k: int, row: int, n: int)
    requires
        row > 0,
        n > 0,
        k >= 0,
    ensures
        k == (n * block_of(k, row, n).1 + (k / row) % n) * row + n * block_of(k, row, n).0 + (k
            % row) % n,
        0 <= (k / row) % n < n,
        0 <= (k % row) % n < n,
        block_of(k, row, n).0 >= 0,
        block_of(k, row, n).1 >= 0,
        n * block_of(k, row, n).0 + (k % row) % n < row,
{
    vstd::arithmetic::div_mod::lemma_fundamental_div_mod(k, row);
    vstd::arithmetic::div_mod::lemma_fundamental_div_mod(k / row, n);
    vstd::arithmetic::div_mod::lemma_fundamental_div_mod(k % row, n);
    vstd::arithmetic::div_mod::lemma_mod_bound(k, row);
    vstd::arithmetic::div_mod::lemma_mod_bound(k / row, n);
    vstd::arithmetic::div_mod::lemma_mod_bound(k % row, n);
    vstd::arithmetic::div_mod::lemma_div_pos_is_pos(k, row);
    vstd::arithmetic::div_mod::lemma_div_pos_is_pos(k / row, n);
    vstd::arithmetic::div_mod::lemma_div_pos_is_pos(k % row, n);
    vstd::arithmetic::mul::lemma_mul_is_commutative(n, (k / row) / n);
    vstd::arithmetic::mul::lemma_mul_is_commutative(n, (k % row) / n);
    vstd::arithmetic::mul::lemma_mul_is_commutative(row, k / row);
}

/// `v` clamped to the indices `0 ..= n - 1`.
pub open spec fn clamp_index(v: int, n: int) -> int {
    if v < 0 {
        0
    } else if v > n - 1 {
        n - 1
    } else {
        v
    }
}

/// The row-major index of the pixel `dx` columns and `dy` rows away from `(x, y)` in a
/// `w` x `h` image, with the coordinates clamped to the image: how the pixel-art upscalers
/// gather the neighbourhood of a pixel.
pub fn neighbour_index(w: usize, h: usize, x: usize, y: usize, dx: isize, dy: isize) -> (r: usize)
    requires
        x < w,
        y < h,
        w * h <= usize::MAX,
        -2 <= dx <= 2,
        -2 <= dy <= 2,
    ensures
        r == clamp_index(y + dy, h as int) * w + clamp_index(x + dx, w as int),
        r < w * h,
{
    let yy: usize = if dy < 0 {
        let d = (-dy) as usize;
        if y >= d { y - d } else { 0 }
    } else {
        let d = dy as usize;
        if d < h - y { y + d } else { h - 1 }
    };
    let xx: usize = if dx < 0 {
        let d = (-dx) as usize;
        if x >= d { x - d } else { 0 }
    } else {
        let d = dx as usize;
        if d < w - x { x + d } else { w - 1 }
    };
    proof {
        assert(yy * w + w <= w * h) by (nonlinear_arith)
            requires
                yy < h,
        ;
    }
    yy * w + xx
}

/// `v - 1`, saturating at zero.
pub open spec fn sat_dec(v: int) -> int {
    if v > 0 {
        v - 1
    } else {
        0
    }
}

/// `v + 1`, clamped to the last index `n - 1`.
pub open spec fn inc_clamped(v: int, n: int) -> int {
    if v + 1 <= n - 1 {
        v + 1
    } else {
        n - 1
    }
}

/// The pixel at `(x, y)` of the row-major pixels `s` of an image `w` pixels wide.
pub open spec fn src_px<T>(s: Seq<T>, w: int, x: int, y: int) -> T {
    s[y * w + x]
}

/// Two pixels compare equal.
pub open spec fn same<T: PartialEq>(a: T, b: T) -> bool {
    a.eq_spec(&b)
}

/// The `n`-times upscaled image of a `w` x `h` image whose block for source pixel `(x, y)`
/// is `block(x, y)` (its pixels row by row).
pub open spec fn upscaled<T>(block: spec_fn(int, int) -> Seq<T>, w: int, h: int, n: int) -> Seq<T> {
    Seq::new(
        (n * w * (n * h)) as nat,
        |k: int| block(block_of(k, n * w, n).0, block_of(k, n * w, n).1)[offset_in_block(k, n * w, n)],
    )
}

/// The `n`-times upscaled image of the `w` x `h` pixels `s` whose every block repeats its
/// source pixel.
pub open spec fn nearest_spec<T>(s: Seq<T>, w: int, h: int, n: int) -> Seq<T> {
    upscaled(|x: int, y: int| Seq::new((n * n) as nat, |i: int| src_px(s, w, x, y)), w, h, n)
}

/// Each pixel of `d` is the pixel at its place in `a` or the one at its place in `b`.
pub open spec fn each_of<T>(d: Seq<T>, a: Seq<T>, b: Seq<T>) -> bool {
    &&& d.len() == a.len()
    &&& forall|k: int| 0 <= k < d.len() ==> #[trigger] d[k] == a[k] || d[k] == b[k]
}

/// Where each pixel of a 3x upscaled image is its source pixel or the pixel at its place in
/// blocks whose centre is the source pixel, the centre of each block is its source pixel.
pub proof fn lemma_centre_of_3x<T>(
    d: Seq<T>,
    s: Seq<T>,
    w: int,
    h: int,
    other: spec_fn(int, int) -> Seq<T>,
)
    requires
        w > 0,
        h > 0,
        each_of(d, nearest_spec(s, w, h, 3), upscaled(other, w, h, 3)),
        forall|x: int, y: int| 0 <= x < w && 0 <= y < h ==> #[trigger] other(x, y)[4] == src_px(s, w, x, y),
    ensures
        forall|x: int, y: int|
            0 <= x < w && 0 <= y < h ==> #[trigger] d[(3 * y + 1) * (3 * w) + 3 * x + 1] == src_px(
                s,
                w,
                x,
                y,
            ),
{
    assert forall|x: int, y: int| 0 <= x < w && 0 <= y < h implies #[trigger] d[(3 * y + 1) * (3 * w)
        + 3 * x + 1] == src_px(s, w, x, y) by {
        let k = (3 * y + 1) * (3 * w) + 3 * x + 1;
        lemma_block_of_index(3 * w, 3, x, y, 1, 1);
        assert(0 <= k < 3 * w * (3 * h)) by (nonlinear_arith)
            requires
                0 <= x < w,
                0 <= y < h,
                k == (3 * y + 1) * (3 * w) + 3 * x + 1,
        ;
        assert(d[k] == nearest_spec(s, w, h, 3)[k] || d[k] == upscaled(other, w, h, 3)[k]);
    }
}

/// Neighbour `i` (`0 ..= 8`, row by row from the top left) of the 3 x 3 neighbourhood of
/// pixel `(x, y)` of the `w` x `h` pixels `s`, with coordinates clamped to the image; neighbour
/// 4 is the pixel itself.
pub open spec fn nb3<T>(s: Seq<T>, w: int, h: int, x: int, y: int, i: int) -> T {
    let xx = if i % 3 == 0 {
        sat_dec(x)
    } else if i % 3 == 1 {
        x
    } else {
        inc_clamped(x, w)
    };
    let yy = if i / 3 == 0 {
        sat_dec(y)
    } else if i / 3 == 1 {
        y
    } else {
        inc_clamped(y, h)
    };
    src_px(s, w, xx, yy)
}

/// The outcome that the comparison table `t` of a 3 x 3 neighbourhood gives for neighbours
/// `i` and `j`: entry `9 * i + j`.
pub open spec fn table_eq(t: Seq<bool>, i: int, j: int) -> bool {
    t[i * 9 + j]
}

/// `t` is the comparison table of the 3 x 3 neighbourhood of pixel `(x, y)` where `==` has a
/// spec.
pub open spec fn is_same_table<T: PartialEq>(t: Seq<bool>, s: Seq<T>, w: int, h: int, x: int, y: int) -> bool {
    forall|i: int, j: int|
        0 <= i < 9 && 0 <= j < 9 ==> #[trigger] table_eq(t, i, j) == same(nb3(s, w, h, x, y, i), nb3(s, w, h, x, y, j))
}

/// Entry `9 * i + j` of the comparison table `t`.
pub fn table_eq_at(t: &Vec<bool>, i: usize, j: usize) -> (r: bool)
    requires
        t@.len() == 81,
        i < 9,
        j < 9,
    ensures
        r == table_eq(t@, i as int, j as int),
{
    t[i * 9 + j]
}

/// The comparison table of the 3 x 3 neighbourhood of every pixel of `src`, row by row: entry
/// `9 * i + j` of the table of pixel `(x, y)` is what `==` gave on its neighbours `i` and `j`
/// (see `nb3`). Where `==` has a spec, the tables are those of `is_same_table`.
pub fn neighbour_comparisons<T: PartialEq + Copy>(src: &Image<T>) -> (r: Vec<Vec<bool>>)
    requires
        src.wf(),
    ensures
        r@.len() == src.spec_size().width * src.spec_size().height,
        forall|k: int| 0 <= k < r@.len() ==> (#[trigger] r@[k])@.len() == 81,
        T::obeys_eq_spec() ==> forall|x: int, y: int|
            0 <= x < src.spec_size().width && 0 <= y < src.spec_size().height ==> is_same_table(
                #[trigger] r@[y * src.spec_size().width + x]@,
                src.pixels(),
                src.spec_size().width as int,
                src.spec_size().height as int,
                x,
                y,
            ),
{
    let w = src.width();
    let h = src.height();
    let s = src.data();
    let _n = s.len();
    let mut r: Vec<Vec<bool>> = Vec::new();
    let mut y: usize = 0;
    while y < h
        invariant
            w == src.spec_size().width,
            h == src.spec_size().height,
            s@ == src.pixels(),
            s@.len() == w * h,
            _n == s@.len(),
            y <= h,
            r@.len() == y * w,
            forall|k: int| 0 <= k < r@.len() ==> (#[trigger] r@[k])@.len() == 81,
            T::obeys_eq_spec() ==> forall|px: int, py: int|
                0 <= px < w && 0 <= py < y ==> is_same_table(
                    #[trigger] r@[py * w + px]@,
                    s@,
                    w as int,
                    h as int,
                    px,
                    py,
                ),
        decreases h - y,
    {
        let y0 = if y > 0 { y - 1 } else { 0 };
        let y2 = if y + 1 <= h - 1 { y + 1 } else { h - 1 };
        proof {
            assert(y0 * w + w <= w * h) by (nonlinear_arith)
                requires y0 < h;
            assert(y * w + w <= w * h) by (nonlinear_arith)
                requires y < h;
            assert(y2 * w + w <= w * h) by (nonlinear_arith)
                requires y2 < h;
            assert((y + 1) * w == y * w + w) by (nonlinear_arith);
        }
        let mut x: usize = 0;
        while x < w
            invariant
                w == src.spec_size().width,
                h == src.spec_size().height,
                s@ == src.pixels(),
                s@.len() == w * h,
                _n == s@.len(),
                y < h,
                x <= w,
                y0 == sat_dec(y as int),
                y2 == inc_clamped(y as int, h as int),
                y0 * w + w <= w * h,
                y * w + w <= w * h,
                y2 * w + w <= w * h,
                r@.len() == y * w + x,
                forall|k: int| 0 <= k < r@.len() ==> (#[trigger] r@[k])@.len() == 81,
                T::obeys_eq_spec() ==> forall|px: int, py: int|
                    0 <= px < w && 0 <= py <= y && (py < y || px < x) ==> is_same_table(
                        #[trigger] r@[py * w + px]@,
                        s@,
                        w as int,
                        h as int,
                        px,
                        py,
                    ),
            decreases w - x,
        {
            let x0 = if x > 0 { x - 1 } else { 0 };
            let x2 = if x + 1 <= w - 1 { x + 1 } else { w - 1 };
            let mut nb: Vec<T> = Vec::new();
            nb.push(s[y0 * w + x0]);
            nb.push(s[y0 * w + x]);
            nb.push(s[y0 * w + x2]);
            nb.push(s[y * w + x0]);
            nb.push(s[y * w + x]);
            nb.push(s[y * w + x2]);
            nb.push(s[y2 * w + x0]);
            nb.push(s[y2 * w + x]);
            nb.push(s[y2 * w + x2]);
            proof {
                assert forall|i: int| 0 <= i < 9 implies #[trigger] nb@[i] == nb3(
                    s@,
                    w as int,
                    h as int,
                    x as int,
                    y as int,
                    i,
                ) by {
                    assert(i == 0 || i == 1 || i == 2 || i == 3 || i == 4 || i == 5 || i == 6 || i == 7
                        || i == 8);
                }
            }
            let mut t: Vec<bool> = Vec::new();
            let mut i: usize = 0;
            while i < 9
                invariant
                    nb@.len() == 9,
                    i <= 9,
                    t@.len() == 9 * i,
                    T::obeys_eq_spec() ==> forall|k: int|
                        0 <= k < t@.len() ==> #[trigger] t@[k] == same(nb@[k / 9], nb@[k % 9]),
                decreases 9 - i,
            {
                let mut j: usize = 0;
                while j < 9
                    invariant
                        nb@.len() == 9,
                        i < 9,
                        j <= 9,
                        t@.len() == 9 * i + j,
                        T::obeys_eq_spec() ==> forall|k: int|
                            0 <= k < t@.len() ==> #[trigger] t@[k] == same(nb@[k / 9], nb@[k % 9]),
                    decreases 9 - j,
                {
                    let b = nb[i] == nb[j];
                    t.push(b);
                    proof {
                        let k = 9 * i + j;
                        assert(k / 9 == i && k % 9 == j);
                    }
                    j = j + 1;
                }
                i = i + 1;
            }
            let ghost tv = t@;
            let ghost old_r = r@;
            r.push(t);
            proof {
                assert(r@[y * w + x]@ == tv);
                if T::obeys_eq_spec() {
                    assert forall|a: int, b: int| 0 <= a < 9 && 0 <= b < 9 implies #[trigger] table_eq(tv, a, b)
                        == same(nb3(s@, w as int, h as int, x as int, y as int, a), nb3(
                        s@,
                        w as int,
                        h as int,
                        x as int,
                        y as int,
                        b,
                    )) by {
                        let k = a * 9 + b;
                        assert(k / 9 == a && k % 9 == b);
                        assert(tv[k] == same(nb@[k / 9], nb@[k % 9]));
                    }
                    assert forall|px: int, py: int|
                        0 <= px < w && 0 <= py <= y && (py < y || px < x + 1) implies is_same_table(
                        #[trigger] r@[py * w + px]@,
                        s@,
                        w as int,
                        h as int,
                        px,
                        py,
                    ) by {
                        if py == y && px == x {
                        } else {
                            if py < y {
                                assert(py * w + px < y * w) by (nonlinear_arith)
                                    requires
                                        0 <= px < w,
                                        0 <= py < y,
                                ;
                            }
                            assert(r@[py * w + px] == old_r[py * w + px]);
                            assert(is_same_table(old_r[py * w + px]@, s@, w as int, h as int, px, py));
                        }
                    }
                }
            }
            x = x + 1;
        }
        y = y + 1;
    }
    proof {
        assert(r@.len() == w * h) by (nonlinear_arith)
            requires
                r@.len() == y * w,
                y == h,
        ;
    }
    r
}

/// Upscaled images whose blocks agree within the image are equal.
pub proof fn lemma_upscaled_ext<T>(
    f: spec_fn(int, int) -> Seq<T>,
    g: spec_fn(int, int) -> Seq<T>,
    w: int,
    h: int,
    n: int,
)
    requires
        w >= 0,
        h >= 0,
        n > 0,
        forall|x: int, y: int| 0 <= x < w && 0 <= y < h ==> #[trigger] f(x, y) == g(x, y),
    ensures
        upscaled(f, w, h, n) == upscaled(g, w, h, n),
{
    assert forall|k: int| 0 <= k < upscaled(f, w, h, n).len() implies #[trigger] upscaled(f, w, h, n)[k]
        == upscaled(g, w, h, n)[k] by {
        assert(w > 0) by (nonlinear_arith)
            requires
                0 <= k < (n * w * (n * h)) as nat,
                w >= 0,
                h >= 0,
                n > 0,
        ;
        vstd::arithmetic::mul::lemma_mul_nonnegative(n, w);
        vstd::arithmetic::mul::lemma_mul_nonnegative(n, h);
        vstd::arithmetic::mul::lemma_mul_nonnegative(n * w, n * h);
        lemma_block_in_image(k, w, h, n);
    }
    assert(upscaled(f, w, h, n) =~= upscaled(g, w, h, n));
}

/// Pixel `(dx, dy)` of the block of source pixel `(x, y)` in the `n`-times upscaled image `r`
/// of an image `w` pixels wide.
pub open spec fn block_pixel<T>(r: Seq<T>, w: int, n: int, x: int, y: int, dx: int, dy: int) -> T {
    r[(n * y + dy) * (n * w) + n * x + dx]
}

/// Pixel `(dx, dy)` of the block of source pixel `(x, y)` in an upscaled image is pixel
/// `dy * n + dx` of that block.
pub proof fn lemma_upscaled_at<T>(
    f: spec_fn(int, int) -> Seq<T>,
    w: int,
    h: int,
    n: int,
    x: int,
    y: int,
    dx: int,
    dy: int,
)
    requires
        n > 0,
        0 <= x < w,
        0 <= y < h,
        0 <= dx < n,
        0 <= dy < n,
    ensures
        0 <= (n * y + dy) * (n * w) + n * x + dx < upscaled(f, w, h, n).len(),
        block_pixel(upscaled(f, w, h, n), w, n, x, y, dx, dy) == f(x, y)[dy * n + dx],
{
    let k = (n * y + dy) * (n * w) + n * x + dx;
    assert(n * x + dx < n * w && n * w > 0) by (nonlinear_arith)
        requires
            n > 0,
            0 <= x < w,
            0 <= dx < n,
    ;
    assert(0 <= k < n * w * (n * h)) by (nonlinear_arith)
        requires
            n > 0,
            0 <= x < w,
            0 <= y < h,
            0 <= dx < n,
            0 <= dy < n,
            k == (n * y + dy) * (n * w) + n * x + dx,
    ;
    lemma_block_of_index(n * w, n, x, y, dx, dy);
}

/// Every pixel of the `w` x `h` row-major pixels `s` is `c`.
pub open spec fn all_pixels<T>(s: Seq<T>, w: int, h: int, c: T) -> bool {
    s.len() == w * h && forall|i: int| 0 <= i < s.len() ==> #[trigger] s[i] == c
}

/// In an image of one color, every pixel inside it, clamped neighbours included, has that
/// color.
pub proof fn lemma_neighbours_uniform<T>(s: Seq<T>, w: int, h: int, x: int, y: int, c: T)
    requires
        all_pixels(s, w, h, c),
        0 <= x < w,
        0 <= y < h,
    ensures
        src_px(s, w, x, y) == c,
        src_px(s, w, sat_dec(x), y) == c,
        src_px(s, w, inc_clamped(x, w), y) == c,
        src_px(s, w, x, sat_dec(y)) == c,
        src_px(s, w, x, inc_clamped(y, h)) == c,
        src_px(s, w, sat_dec(x), sat_dec(y)) == c,
        src_px(s, w, inc_clamped(x, w), sat_dec(y)) == c,
        src_px(s, w, sat_dec(x), inc_clamped(y, h)) == c,
        src_px(s, w, inc_clamped(x, w), inc_clamped(y, h)) == c,
{
    assert forall|px: int, py: int| 0 <= px < w && 0 <= py < h implies #[trigger] src_px(
        s,
        w,
        px,
        py,
    ) == c by {
        assert(0 <= py * w + px < w * h) by (nonlinear_arith)
            requires
                0 <= px < w,
                0 <= py < h,
        ;
    }
}

/// An upscaled image whose blocks hold only `c` holds only `c`.
pub proof fn lemma_upscaled_uniform<T>(block: spec_fn(int, int) -> Seq<T>, w: int, h: int, n: int, c: T)
    requires
        w > 0,
        h >= 0,
        n > 0,
        forall|x: int, y: int, i: int|
            0 <= x < w && 0 <= y < h && 0 <= i < n * n ==> #[trigger] block(x, y)[i] == c,
    ensures
        forall|k: int|
            0 <= k < upscaled(block, w, h, n).len() ==> #[trigger] upscaled(block, w, h, n)[k] == c,
{
    assert forall|k: int| 0 <= k < upscaled(block, w, h, n).len() implies #[trigger] upscaled(
        block,
        w,
        h,
        n,
    )[k] == c by {
        vstd::arithmetic::mul::lemma_mul_nonnegative(n, w);
        vstd::arithmetic::mul::lemma_mul_nonnegative(n, h);
        vstd::arithmetic::mul::lemma_mul_nonnegative(n * w, n * h);
        lemma_block_in_image(k, w, h, n);
        lemma_index_of_block(k, n * w, n);
        let dy = (k / (n * w)) % n;
        let dx = (k % (n * w)) % n;
        assert(0 <= dy * n + dx < n * n) by (nonlinear_arith)
            requires
                0 <= dy < n,
                0 <= dx < n,
        ;
    }
}

/// Block `b` comes before block `(x, y)` in row-major order.
pub open spec fn block_done(b: (int, int), x: int, y: int) -> bool {
    b.1 < y || (b.1 == y && b.0 < x)
}

pub proof fn lemma_block_in_image(k: int, w: int, h: int, n: int)
    requires
        w > 0,
        n > 0,
        0 <= k < n * w * (n * h),
    ensures
        0 <= block_of(k, n * w, n).0 < w,
        0 <= block_of(k, n * w, n).1 < h,
{
    let row = n * w;
    vstd::arithmetic::mul::lemma_mul_strictly_positive(n, w);
    vstd::arithmetic::div_mod::lemma_mod_bound(k, row);
    vstd::arithmetic::div_mod::lemma_div_pos_is_pos(k, row);
    vstd::arithmetic::div_mod::lemma_div_pos_is_pos(k % row, n);
    vstd::arithmetic::div_mod::lemma_div_pos_is_pos(k / row, n);
    vstd::arithmetic::div_mod::lemma_multiply_divide_lt(k, row, n * h);
    vstd::arithmetic::div_mod::lemma_multiply_divide_lt(k % row, n, w);
    vstd::arithmetic::div_mod::lemma_multiply_divide_lt(k / row, n, h);
}

/// Writes the 2 x 2 block `[r1, r2, r3, r4]` (row by row) for source pixel `(x, y)` into the
/// 2x upscaled image `dest` of a source image `w` pixels wide.
pub fn write_2x<T: Copy>(dest: &mut [T], w: usize, x: usize, y: usize, block: [T; 4])
    requires
        x < w,
        (y * 2 + 2) * (w * 2) <= old(dest)@.len(),
    ensures
        final(dest)@ == with_block(old(dest)@, 2 * w as int, 2, x as int, y as int, block@),
{
    let r1 = block[0];
    let r2 = block[1];
    let r3 = block[2];
    let r4 = block[3];
    let _n = dest.len();
    proof {
        vstd::arithmetic::mul::lemma_mul_inequality(1, w as int * 2, y as int * 2 + 2);
        vstd::arithmetic::mul::lemma_mul_inequality(1, y as int * 2 + 2, w as int * 2);
        vstd::arithmetic::mul::lemma_mul_is_commutative(w as int * 2, y as int * 2 + 2);
    }
    let y2 = y * 2;
    let x2 = x * 2;
    let w2 = w * 2;
    proof {
        vstd::arithmetic::mul::lemma_mul_inequality(y2 as int + 1, y2 as int + 2, w2 as int);
        vstd::arithmetic::mul::lemma_mul_is_distributive_add_other_way(w2 as int, y2 as int, 1);
        vstd::arithmetic::mul::lemma_mul_is_distributive_add_other_way(w2 as int, y2 as int + 1, 1);
    }
    let ghost before = dest@;
    dest[y2 * w2 + x2] = r1;
    dest[y2 * w2 + x2 + 1] = r2;
    dest[(y2 + 1) * w2 + x2] = r3;
    dest[(y2 + 1) * w2 + x2 + 1] = r4;
    proof {
        let row = w2 as int;
        let target = with_block(before, row, 2, x as int, y as int, block@);
        assert forall|k: int| 0 <= k < before.len() implies #[trigger] dest@[k] == target[k] by {
            lemma_index_of_block(k, row, 2);
            lemma_block_of_index(row, 2, x as int, y as int, 0, 0);
            lemma_block_of_index(row, 2, x as int, y as int, 1, 0);
            lemma_block_of_index(row, 2, x as int, y as int, 0, 1);
            lemma_block_of_index(row, 2, x as int, y as int, 1, 1);
        }
        assert(dest@ =~= target);
    }
}

/// Writes the 3 x 3 block `block` (row by row) for source pixel `(x, y)` into the 3x upscaled
/// image `dest` of a source image `w` pixels wide.
#[verifier::rlimit(60)]
pub fn write_3x<T: Copy>(dest: &mut [T], w: usize, x: usize, y: usize, block: [T; 9])
    requires
        x < w,
        (y * 3 + 3) * (w * 3) <= old(dest)@.len(),
    ensures
        final(dest)@ == with_block(old(dest)@, 3 * w as int, 3, x as int, y as int, block@),
{
    let _n = dest.len();
    proof {
        vstd::arithmetic::mul::lemma_mul_inequality(1, w as int * 3, y as int * 3 + 3);
        vstd::arithmetic::mul::lemma_mul_inequality(1, y as int * 3 + 3, w as int * 3);
        vstd::arithmetic::mul::lemma_mul_is_commutative(w as int * 3, y as int * 3 + 3);
    }
    let y3 = y * 3;
    let x3 = x * 3;
    let w3 = w * 3;
    proof {
        vstd::arithmetic::mul::lemma_mul_inequality(y3 as int + 2, y3 as int + 3, w3 as int);
        vstd::arithmetic::mul::lemma_mul_is_distributive_add_other_way(w3 as int, y3 as int, 1);
        vstd::arithmetic::mul::lemma_mul_is_distributive_add_other_way(w3 as int, y3 as int + 1, 1);
        vstd::arithmetic::mul::lemma_mul_is_distributive_add_other_way(w3 as int, y3 as int + 2, 1);
    }
    let ghost before = dest@;
    dest[y3 * w3 + x3] = block[0];
    dest[y3 * w3 + x3 + 1] = block[1];
    dest[y3 * w3 + x3 + 2] = block[2];
    dest[(y3 + 1) * w3 + x3] = block[3];
    dest[(y3 + 1) * w3 + x3 + 1] = block[4];
    dest[(y3 + 1) * w3 + x3 + 2] = block[5];
    dest[(y3 + 2) * w3 + x3] = block[6];
    dest[(y3 + 2) * w3 + x3 + 1] = block[7];
    dest[(y3 + 2) * w3 + x3 + 2] = block[8];
    proof {
        let row = w3 as int;
        let target = with_block(before, row, 3, x as int, y as int, block@);
        assert forall|k: int| 0 <= k < before.len() implies #[trigger] dest@[k] == target[k] by {
            lemma_index_of_block(k, row, 3);
            lemma_block_of_index(row, 3, x as int, y as int, 0, 0);
            lemma_block_of_index(row, 3, x as int, y as int, 1, 0);
            lemma_block_of_index(row, 3, x as int, y as int, 2, 0);
            lemma_block_of_index(row, 3, x as int, y as int, 0, 1);
            lemma_block_of_index(row, 3, x as int, y as int, 1, 1);
            lemma_block_of_index(row, 3, x as int, y as int, 2, 1);
            lemma_block_of_index(row, 3, x as int, y as int, 0, 2);
            lemma_block_of_index(row, 3, x as int, y as int, 1, 2);
            lemma_block_of_index(row, 3, x as int, y as int, 2, 2);
        }
        assert(dest@ =~= target);
    }
}

/// Writes the 4 x 4 block `buffer` (row by row) for source pixel `(x, y)` into the 4x upscaled
/// image `dest` of a source image `w` pixels wide.
#[verifier::rlimit(60)]
pub fn write_4x<T: Copy>(dest: &mut [T], w: usize, x: usize, y: usize, buffer: [T; 16])
    requires
        x < w,
        (y * 4 + 4) * (w * 4) <= old(dest)@.len(),
    ensures
        final(dest)@ == with_block(old(dest)@, 4 * w as int, 4, x as int, y as int, buffer@),
{
    let _n = dest.len();
    proof {
        vstd::arithmetic::mul::lemma_mul_inequality(1, w as int * 4, y as int * 4 + 4);
        vstd::arithmetic::mul::lemma_mul_inequality(1, y as int * 4 + 4, w as int * 4);
        vstd::arithmetic::mul::lemma_mul_is_commutative(w as int * 4, y as int * 4 + 4);
    }
    let y4 = y * 4;
    let x4 = x * 4;
    let w4 = w * 4;
    let ghost before = dest@;
    let ghost row = w4 as int;
    let mut yy: usize = 0;
    while yy < 4
        invariant
            x < w,
            y4 == y * 4,
            x4 == x * 4,
            w4 == w * 4,
            row == w4,
            (y4 + 4) * w4 <= before.len(),
            _n == before.len(),
            yy <= 4,
            dest@.len() == before.len(),
            forall|k: int|
                0 <= k < before.len() ==> #[trigger] dest@[k] == if block_of(k, row, 4) == (
                    x as int,
                    y as int,
                ) && (k / row) % 4 < yy {
                    buffer@[offset_in_block(k, row, 4)]
                } else {
                    before[k]
                },
        decreases 4 - yy,
    {
        proof {
            vstd::arithmetic::mul::lemma_mul_inequality(y4 + yy + 1, y4 as int + 4, w4 as int);
            vstd::arithmetic::mul::lemma_mul_is_distributive_add_other_way(w4 as int, y4 + yy, 1);
        }
        let base = (y4 + yy) * w4 + x4;
        let ghost mid = dest@;
        dest[base] = buffer[yy * 4];
        dest[base + 1] = buffer[yy * 4 + 1];
        dest[base + 2] = buffer[yy * 4 + 2];
        dest[base + 3] = buffer[yy * 4 + 3];
        proof {
            assert forall|k: int| 0 <= k < before.len() implies #[trigger] dest@[k] == if block_of(k, row, 4) == (
                x as int,
                y as int,
            ) && (k / row) % 4 < yy + 1 {
                buffer@[offset_in_block(k, row, 4)]
            } else {
                before[k]
            } by {
                assert(mid[k] == if block_of(k, row, 4) == (x as int, y as int) && (k / row) % 4 < yy {
                    buffer@[offset_in_block(k, row, 4)]
                } else {
                    before[k]
                });
                lemma_index_of_block(k, row, 4);
                lemma_block_of_index(row, 4, x as int, y as int, 0, yy as int);
                lemma_block_of_index(row, 4, x as int, y as int, 1, yy as int);
                lemma_block_of_index(row, 4, x as int, y as int, 2, yy as int);
                lemma_block_of_index(row, 4, x as int, y as int, 3, yy as int);
            }
        }
        yy = yy + 1;
    }
    proof {
        let target = with_block(before, row, 4, x as int, y as int, buffer@);
        assert forall|k: int| 0 <= k < before.len() implies #[trigger] dest@[k] == target[k] by {
            lemma_index_of_block(k, row, 4);
        }
        assert(dest@ =~= target);
    }
}

} // verus!
