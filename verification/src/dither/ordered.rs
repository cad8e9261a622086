use crate::image::{Image, Size};
use crate::util::image::from_image;
use crate::scale::is_pow2;
use vstd::arithmetic::power2::{
    lemma2_to64, lemma2_to64_rest, lemma_pow2_adds, lemma_pow2_pos, lemma_pow2_strictly_increases,
    lemma_pow2_unfold, pow2,
};
use vstd::prelude::*;

verus! {

/// Bit `t` of `v`.
pub open spec fn bit_at(v: usize, t: usize) -> usize {
    (v >> t) & 1
}

/// The bit of a threshold level that holds bit `m - 1 - s` of the row.
pub open spec fn level_row_bit(v: usize, s: usize) -> usize {
    bit_at(v, (2 * s) as usize)
}

/// The bit of a threshold level that holds bit `m - 1 - s` of row xor column.
pub open spec fn level_col_bit(v: usize, s: usize) -> usize {
    bit_at(v, (2 * s + 1) as usize)
}

/// `v` is the level at row `row`, column `col` of the `2^m` by `2^m` threshold map: its bits
/// interleave the bits of the row and of row xor column, most significant first, the row's
/// bit below the other's; it lies in `0..4^m`.
pub open spec fn threshold_level(v: usize, row: usize, col: usize, m: usize) -> bool {
    &&& forall|s: usize|
        s < m ==> #[trigger] level_row_bit(v, s) == bit_at(row, (m - 1 - s) as usize)
    &&& forall|s: usize|
        s < m ==> #[trigger] level_col_bit(v, s) == bit_at(row ^ col, (m - 1 - s) as usize)
    &&& v < pow2((2 * m) as nat)
}

/// The exponent `m` with `2^m == n`.
pub open spec fn log2(n: usize) -> usize {
    choose|m: usize| pow2(m as nat) == n
}

/// Setting the two bits above the used bits of `v` sets exactly those two.
proof fn lemma_set_bit_pair(v: usize, a: usize, b: usize, p: usize)
    requires
        v >> p == 0,
        a <= 1,
        b <= 1,
        p + 2 < usize::BITS,
    ensures
        ((v | (a << p) | (b << (p + 1) as usize)) >> p) & 1 == a,
        ((v | (a << p) | (b << (p + 1) as usize)) >> (p + 1) as usize) & 1 == b,
        (v | (a << p) | (b << (p + 1) as usize)) >> (p + 2) as usize == 0,
{
    assert(((v | (a << p) | (b << (p + 1) as usize)) >> p) & 1 == a) by (bit_vector)
        requires
            v >> p == 0,
            a <= 1,
            b <= 1,
            p + 2 < usize::BITS,
    ;
    assert(((v | (a << p) | (b << (p + 1) as usize)) >> (p + 1) as usize) & 1 == b) by (bit_vector)
        requires
            v >> p == 0,
            a <= 1,
            b <= 1,
            p + 2 < usize::BITS,
    ;
    assert((v | (a << p) | (b << (p + 1) as usize)) >> (p + 2) as usize == 0) by (bit_vector)
        requires
            v >> p == 0,
            a <= 1,
            b <= 1,
            p + 2 < usize::BITS,
    ;
}

/// Setting the two bits above the used bits of `v` keeps its used bits.
proof fn lemma_set_bit_pair_keeps(v: usize, a: usize, b: usize, p: usize, t: usize)
    requires
        v >> p == 0,
        a <= 1,
        b <= 1,
        p + 2 < usize::BITS,
        t < p,
    ensures
        ((v | (a << p) | (b << (p + 1) as usize)) >> t) & 1 == (v >> t) & 1,
{
    assert(((v | (a << p) | (b << (p + 1) as usize)) >> t) & 1 == (v >> t) & 1) by (bit_vector)
        requires
            v >> p == 0,
            a <= 1,
            b <= 1,
            p + 2 < usize::BITS,
            t < p,
    ;
}

/// Values that agree in their bits below `m` and have no bits from `m` up are equal.
proof fn lemma_equal_bits(a: usize, b: usize, m: usize)
    requires
        m < usize::BITS,
        a >> m == 0,
        b >> m == 0,
        forall|t: usize| t < m ==> #[trigger] bit_at(a, t) == bit_at(b, t),
    ensures
        a == b,
    decreases m,
{
    if m == 0 {
        assert(a == b) by (bit_vector)
            requires
                a >> 0usize == 0,
                b >> 0usize == 0,
        ;
    } else {
        let (a1, b1) = (a >> 1usize, b >> 1usize);
        assert forall|t: usize| t < m - 1 implies #[trigger] bit_at(a1, t) == bit_at(b1, t) by {
            let t1 = (t + 1) as usize;
            assert(bit_at(a, t1) == bit_at(b, t1));
            assert((a1 >> t) & 1 == (a >> t1) & 1) by (bit_vector)
                requires
                    a1 == a >> 1usize,
                    t1 == t + 1,
                    t1 < usize::BITS,
            ;
            assert((b1 >> t) & 1 == (b >> t1) & 1) by (bit_vector)
                requires
                    b1 == b >> 1usize,
                    t1 == t + 1,
                    t1 < usize::BITS,
            ;
        }
        let m1 = (m - 1) as usize;
        assert(a1 >> m1 == 0 && b1 >> m1 == 0) by (bit_vector)
            requires
                a >> m == 0,
                b >> m == 0,
                a1 == a >> 1usize,
                b1 == b >> 1usize,
                m1 + 1 == m,
                m < usize::BITS,
        ;
        lemma_equal_bits(a1, b1, m1);
        assert(bit_at(a, 0) == bit_at(b, 0));
        assert(a == b) by (bit_vector)
            requires
                a >> 1usize == b >> 1usize,
                (a >> 0usize) & 1 == (b >> 0usize) & 1,
        ;
    }
}

/// A value below `2^m` has no bits from `m` up.
proof fn lemma_below_pow2(a: usize, m: usize)
    requires
        m < usize::BITS,
        a < pow2(m as nat),
    ensures
        a >> m == 0,
{
    vstd::bits::lemma_usize_shr_is_div(a, m);
    lemma_pow2_pos(m as nat);
    vstd::arithmetic::div_mod::lemma_basic_div(a as int, pow2(m as nat) as int);
}

/// No two cells of the `2^m` by `2^m` threshold map share a level. As the map has `4^m` cells
/// and its levels lie in `0..4^m`, each level comes exactly once.
pub proof fn lemma_threshold_levels_distinct(
    v: usize,
    row1: usize,
    col1: usize,
    row2: usize,
    col2: usize,
    m: usize,
)
    requires
        m < usize::BITS,
        row1 < pow2(m as nat),
        col1 < pow2(m as nat),
        row2 < pow2(m as nat),
        col2 < pow2(m as nat),
        threshold_level(v, row1, col1, m),
        threshold_level(v, row2, col2, m),
    ensures
        row1 == row2,
        col1 == col2,
{
    lemma_below_pow2(row1, m);
    lemma_below_pow2(col1, m);
    lemma_below_pow2(row2, m);
    lemma_below_pow2(col2, m);
    assert forall|t: usize| t < m implies #[trigger] bit_at(row1, t) == bit_at(row2, t) by {
        let s = (m - 1 - t) as usize;
        assert(level_row_bit(v, s) == bit_at(row1, (m - 1 - s) as usize));
        assert(level_row_bit(v, s) == bit_at(row2, (m - 1 - s) as usize));
    }
    lemma_equal_bits(row1, row2, m);
    let (x1, x2) = (row1 ^ col1, row2 ^ col2);
    assert forall|t: usize| t < m implies #[trigger] bit_at(x1, t) == bit_at(x2, t) by {
        let s = (m - 1 - t) as usize;
        assert(level_col_bit(v, s) == bit_at(x1, (m - 1 - s) as usize));
        assert(level_col_bit(v, s) == bit_at(x2, (m - 1 - s) as usize));
    }
    assert(x1 >> m == 0 && x2 >> m == 0) by (bit_vector)
        requires
            x1 == row1 ^ col1,
            x2 == row2 ^ col2,
            row1 >> m == 0,
            col1 >> m == 0,
            row2 >> m == 0,
            col2 >> m == 0,
    ;
    lemma_equal_bits(x1, x2, m);
    assert(col1 == col2) by (bit_vector)
        requires
            row1 == row2,
            row1 ^ col1 == row2 ^ col2,
    ;
}

/// The exponent of the power of two `n`.
fn exponent_of(n: usize) -> (m: usize)
    requires
        is_pow2(n as int),
    ensures
        pow2(m as nat) == n,
        m < usize::BITS,
{
    let ghost e: nat = choose|e: nat| n == pow2(e);
    proof {
        lemma2_to64();
        lemma2_to64_rest();
        if e >= usize::BITS {
            lemma_pow2_strictly_increases(usize::BITS as nat, e);
            if e == usize::BITS {
            }
        }
    }
    let mut t = n;
    let mut m: usize = 0;
    while t > 1
        invariant
            m <= e,
            e < usize::BITS,
            t == pow2((e - m) as nat),
            n == pow2(e),
        decreases t,
    {
        proof {
            if e == m {
                assert(pow2(0) == 1) by {
                    lemma2_to64();
                }
            }
            lemma_pow2_unfold((e - m) as nat);
        }
        t = t / 2;
        m = m + 1;
    }
    proof {
        if e > m {
            lemma_pow2_strictly_increases(0, (e - m) as nat);
            lemma2_to64();
        }
        lemma2_to64();
        lemma2_to64_rest();
        if m >= usize::BITS {
            lemma_pow2_strictly_increases(usize::BITS as nat, m as nat);
            if m == usize::BITS {
            }
        }
    }
    m
}

/// Whether `pow2(m) == n` has only one solution.
proof fn lemma_log2_unique(n: usize, m: usize)
    requires
        pow2(m as nat) == n,
    ensures
        log2(n) == m,
{
    let c = log2(n);
    assert(pow2(c as nat) == n);
    if c < m {
        lemma_pow2_strictly_increases(c as nat, m as nat);
    } else if c > m {
        lemma_pow2_strictly_increases(m as nat, c as nat);
    }
}

/// The level of the `n` by `n` threshold map at row `i`, column `j`, with `n == 2^m`.
fn threshold_level_at(i: usize, j: usize, m: usize) -> (v: usize)
    requires
        2 * m < usize::BITS,
    ensures
        threshold_level(v, i, j, m),
{
    let mut v: usize = 0;
    let xc = i ^ j;
    let yc = i;
    let mut bit: usize = 0;
    let mut mask = m;
    assert(v >> bit == 0) by (bit_vector)
        requires
            v == 0,
    ;
    while mask > 0
        invariant
            2 * m < usize::BITS,
            mask <= m,
            bit == 2 * (m - mask),
            xc == i ^ j,
            yc == i,
            v >> bit == 0,
            forall|s: usize|
                s < m - mask ==> #[trigger] level_row_bit(v, s) == bit_at(yc, (m - 1 - s) as usize),
            forall|s: usize|
                s < m - mask ==> #[trigger] level_col_bit(v, s) == bit_at(xc, (m - 1 - s) as usize),
        decreases mask,
    {
        mask = mask - 1;
        let a = (yc >> mask) & 1;
        let b = (xc >> mask) & 1;
        assert(a <= 1 && b <= 1) by (bit_vector)
            requires
                a == (yc >> mask) & 1,
                b == (xc >> mask) & 1,
        ;
        let ghost old_v = v;
        let ghost p = bit;
        proof {
            let w = old_v | (a << p) | (b << (p + 1) as usize);
            assert forall|s: usize| s < m - mask implies #[trigger] level_row_bit(w, s) == bit_at(
                yc,
                (m - 1 - s) as usize,
            ) by {
                if s < m - mask - 1 {
                    assert(level_row_bit(old_v, s) == bit_at(yc, (m - 1 - s) as usize));
                    assert(level_col_bit(old_v, s) == bit_at(xc, (m - 1 - s) as usize));
                    lemma_set_bit_pair_keeps(old_v, a, b, p, (2 * s) as usize);
                    lemma_set_bit_pair_keeps(old_v, a, b, p, (2 * s + 1) as usize);
                } else {
                    assert(s == m - mask - 1);
                    assert((2 * s) as usize == p);
                    assert((m - 1 - s) as usize == mask);
                    lemma_set_bit_pair(old_v, a, b, p);
                }
            }
            assert forall|s: usize| s < m - mask implies #[trigger] level_col_bit(w, s) == bit_at(
                xc,
                (m - 1 - s) as usize,
            ) by {
                if s < m - mask - 1 {
                    assert(level_row_bit(old_v, s) == bit_at(yc, (m - 1 - s) as usize));
                    assert(level_col_bit(old_v, s) == bit_at(xc, (m - 1 - s) as usize));
                    lemma_set_bit_pair_keeps(old_v, a, b, p, (2 * s) as usize);
                    lemma_set_bit_pair_keeps(old_v, a, b, p, (2 * s + 1) as usize);
                } else {
                    assert(s == m - mask - 1);
                    assert((2 * s) as usize == p);
                    assert((m - 1 - s) as usize == mask);
                    lemma_set_bit_pair(old_v, a, b, p);
                }
            }
            lemma_set_bit_pair(old_v, a, b, p);
        }
        v = v | (a << bit);
        bit = bit + 1;
        v = v | (b << bit);
        bit = bit + 1;
    }
    proof {
        vstd::bits::lemma_usize_shr_is_div(v, bit);
        lemma_pow2_pos(bit as nat);
        if v >= pow2(bit as nat) {
            vstd::arithmetic::div_mod::lemma_div_is_ordered(
                pow2(bit as nat) as int,
                v as int,
                pow2(bit as nat) as int,
            );
            vstd::arithmetic::div_mod::lemma_div_by_self(pow2(bit as nat) as int);
        }
    }
    v
}

/// The threshold map for ordered dithering, as levels out of `n * n`: the `n` by `n` Bayer
/// matrix, whose level at row `i`, column `j` interleaves the bits of `i` and of `i ^ j`.
///
/// `n` must be a power of two.
pub fn threshold_levels(n: usize) -> (r: Image<usize>)
    requires
        is_pow2(n as int),
        n * n <= usize::MAX,
    ensures
        r.wf(),
        r.spec_size() == (Size { width: n, height: n }),
        forall|i: int, j: int|
            0 <= i < n && 0 <= j < n ==> threshold_level(
                #[trigger] r.at(j, i),
                i as usize,
                j as usize,
                log2(n),
            ),
        forall|k: int| 0 <= k < n * n ==> #[trigger] r.pixels()[k] < n * n,
{
    let m = exponent_of(n);
    proof {
        lemma_log2_unique(n, m);
        lemma_pow2_adds(m as nat, m as nat);
        assert(pow2((2 * m) as nat) == n * n);
        lemma2_to64();
        lemma2_to64_rest();
        if 2 * m >= usize::BITS {
            lemma_pow2_strictly_increases(usize::BITS as nat, (2 * m) as nat);
        }
    }
    let mut data: Vec<usize> = Vec::new();
    let mut i: usize = 0;
    while i < n
        invariant
            2 * m < usize::BITS,
            pow2((2 * m) as nat) == n * n,
            n * n <= usize::MAX,
            i <= n,
            data@.len() == i * n,
            forall|k: int|
                0 <= k < data@.len() ==> threshold_level(
                    #[trigger] data@[k],
                    (k / n as int) as usize,
                    (k % n as int) as usize,
                    m,
                ),
        decreases n - i,
    {
        let mut j: usize = 0;
        while j < n
            invariant
                2 * m < usize::BITS,
                pow2((2 * m) as nat) == n * n,
                n * n <= usize::MAX,
                i < n,
                j <= n,
                data@.len() == i * n + j,
                forall|k: int|
                    0 <= k < data@.len() ==> threshold_level(
                        #[trigger] data@[k],
                        (k / n as int) as usize,
                        (k % n as int) as usize,
                        m,
                    ),
            decreases n - j,
        {
            let v = threshold_level_at(i, j, m);
            proof {
                vstd::arithmetic::div_mod::lemma_fundamental_div_mod_converse(
                    (i * n + j) as int,
                    n as int,
                    i as int,
                    j as int,
                );
            }
            data.push(v);
            j = j + 1;
        }
        proof {
            vstd::arithmetic::mul::lemma_mul_is_distributive_add_other_way(n as int, i as int, 1);
        }
        i = i + 1;
    }
    let r = Image::new(Size::new(n, n), data);
    assert forall|i: int, j: int| 0 <= i < n && 0 <= j < n implies threshold_level(
        #[trigger] r.at(j, i),
        i as usize,
        j as usize,
        log2(n),
    ) by {
        assert(i * n + j < n * n) by (nonlinear_arith)
            requires
                0 <= i < n,
                0 <= j < n,
        ;
        vstd::arithmetic::div_mod::lemma_fundamental_div_mod_converse(i * n + j, n as int, i, j);
        assert(r.pixels()[i * n + j] == data@[i * n + j]);
    }
    r
}

/// In row-major order with rows of `w`, position `(x, y)` is at index `y * w + x`, which lies
/// before `w * h` where `y < h`.
proof fn lemma_row_major(x: int, y: int, w: int, h: int)
    requires
        0 <= x < w,
        0 <= y < h,
    ensures
        (y * w + x) / w == y,
        (y * w + x) % w == x,
        0 <= y * w + x < w * h,
{
    vstd::arithmetic::div_mod::lemma_fundamental_div_mod_converse(y * w + x, w, y, x);
    assert(0 <= y * w + x < w * h) by (nonlinear_arith)
        requires
            0 <= x < w,
            0 <= y < h,
    ;
}

/// Stretches the image horizontally by `factor`: each pixel is repeated `factor` times.
pub fn stretch_x<P: Copy + Default>(img: &Image<P>, factor: usize) -> (r: Image<P>)
    requires
        img.wf(),
        img.spec_size().width * factor <= usize::MAX,
        img.spec_size().width * factor * img.spec_size().height <= usize::MAX,
    ensures
        r.wf(),
        r.spec_size() == (Size {
            width: (img.spec_size().width * factor) as usize,
            height: img.spec_size().height,
        }),
        forall|x: int, y: int|
            0 <= x < img.spec_size().width * factor && 0 <= y < img.spec_size().height ==> #[trigger] r.at(
                x,
                y,
            ) == img.at(x / factor as int, y),
{
    if factor == 1 {
        return from_image(img, None);
    }
    let w = img.width();
    let h = img.height();
    let src = img.data();
    let n = src.len();
    let nw = w * factor;
    let ghost fw = factor as int;
    let mut data: Vec<P> = Vec::new();
    let mut y: usize = 0;
    while y < h
        invariant
            src@ == img.pixels(),
            src@.len() == w * h,
            w * h <= usize::MAX,
            nw == w * factor,
            fw == factor as int,
            nw * h <= usize::MAX,
            y <= h,
            data@.len() == y * nw,
            forall|t: int|
                0 <= t < data@.len() ==> #[trigger] data@[t] == src@[(t / nw as int) * w + (t
                    % nw as int) / fw],
        decreases h - y,
    {
        let mut x: usize = 0;
        while x < w
            invariant
                src@ == img.pixels(),
                src@.len() == w * h,
                w * h <= usize::MAX,
                nw == w * factor,
                fw == factor as int,
            fw == factor as int,
                nw * h <= usize::MAX,
                y < h,
                x <= w,
                data@.len() == y * nw + x * factor,
                forall|t: int|
                    0 <= t < data@.len() ==> #[trigger] data@[t] == src@[(t / nw as int) * w + (t
                        % nw as int) / fw],
            decreases w - x,
        {
            proof {
                lemma_row_major(x as int, y as int, w as int, h as int);
            }
            let p = src[y * w + x];
            let mut i: usize = 0;
            while i < factor
                invariant
                    src@ == img.pixels(),
                    src@.len() == w * h,
                    w * h <= usize::MAX,
                    nw == w * factor,
                    fw == factor as int,
                fw == factor as int,
            fw == factor as int,
                    nw * h <= usize::MAX,
                    y < h,
                    x < w,
                    i <= factor,
                    p == src@[y * w + x],
                    data@.len() == y * nw + x * factor + i,
                    forall|t: int|
                        0 <= t < data@.len() ==> #[trigger] data@[t] == src@[(t / nw as int) * w
                            + (t % nw as int) / fw],
                decreases factor - i,
            {
                proof {
                    let t = y * nw + x * factor + i;
                    assert(x * factor + i < nw) by (nonlinear_arith)
                        requires
                            x < w,
                            i < factor,
                            nw == w * factor,
                    fw == factor as int,
                fw == factor as int,
            fw == factor as int,
                    ;
                    assert(y * nw + (x * factor + i) < nw * h) by (nonlinear_arith)
                        requires
                            x * factor + i < nw,
                            y < h,
                    ;
                    vstd::arithmetic::div_mod::lemma_fundamental_div_mod_converse(
                        t as int,
                        nw as int,
                        y as int,
                        (x * factor + i) as int,
                    );
                    vstd::arithmetic::div_mod::lemma_fundamental_div_mod_converse(
                        (x * factor + i) as int,
                        factor as int,
                        x as int,
                        i as int,
                    );
                }
                data.push(p);
                i = i + 1;
            }
            proof {
                vstd::arithmetic::mul::lemma_mul_is_distributive_add_other_way(
                    factor as int,
                    x as int,
                    1,
                );
            }
            x = x + 1;
        }
        proof {
            vstd::arithmetic::mul::lemma_mul_is_distributive_add_other_way(nw as int, y as int, 1);
        }
        y = y + 1;
    }
    proof {
        vstd::arithmetic::mul::lemma_mul_is_commutative(nw as int, h as int);
    }
    let r = Image::new(Size::new(nw, h), data);
    assert forall|x: int, y: int|
        0 <= x < img.spec_size().width * factor && 0 <= y < img.spec_size().height implies #[trigger] r.at(
        x,
        y,
    ) == img.at(x / factor as int, y) by {
        lemma_row_major(x, y, nw as int, h as int);
        assert(x / fw < w) by {
            vstd::arithmetic::mul::lemma_mul_is_commutative(w as int, fw);
            vstd::arithmetic::div_mod::lemma_multiply_divide_lt(x, fw, w as int);
        }
    }
    r
}

/// Tiles the image horizontally to `new_width`: column `x` repeats column `x % width`.
pub fn tile_x<P: Copy + Default>(img: &Image<P>, new_width: usize) -> (r: Image<P>)
    requires
        img.wf(),
        new_width * img.spec_size().height <= usize::MAX,
        img.spec_size().width > 0 || new_width == 0 || img.spec_size().height == 0,
    ensures
        r.wf(),
        r.spec_size() == (Size { width: new_width, height: img.spec_size().height }),
        forall|x: int, y: int|
            0 <= x < new_width && 0 <= y < img.spec_size().height ==> #[trigger] r.at(x, y)
                == img.at(x % img.spec_size().width as int, y),
{
    let src_w = img.width();
    let h = img.height();
    let src = img.data();
    let n = src.len();
    let mut data: Vec<P> = Vec::new();
    let mut y: usize = 0;
    while y < h
        invariant
            src@ == img.pixels(),
            src@.len() == src_w * h,
            src_w * h <= usize::MAX,
            new_width * h <= usize::MAX,
            src_w > 0 || new_width == 0 || h == 0,
            y <= h,
            data@.len() == y * new_width,
            forall|t: int|
                0 <= t < data@.len() ==> #[trigger] data@[t] == src@[(t / new_width as int) * src_w
                    + (t % new_width as int) % src_w as int],
        decreases h - y,
    {
        let mut x: usize = 0;
        while x < new_width
            invariant
                src@ == img.pixels(),
                src@.len() == src_w * h,
                src_w * h <= usize::MAX,
                new_width * h <= usize::MAX,
                src_w > 0 || new_width == 0,
                y < h,
                x <= new_width,
                data@.len() == y * new_width + x,
                forall|t: int|
                    0 <= t < data@.len() ==> #[trigger] data@[t] == src@[(t / new_width as int)
                        * src_w + (t % new_width as int) % src_w as int],
            decreases new_width - x,
        {
            proof {
                lemma_row_major(x as int, y as int, new_width as int, h as int);
                vstd::arithmetic::div_mod::lemma_mod_bound(x as int, src_w as int);
                lemma_row_major((x % src_w) as int, y as int, src_w as int, h as int);
            }
            data.push(src[y * src_w + (x % src_w)]);
            x = x + 1;
        }
        proof {
            vstd::arithmetic::mul::lemma_mul_is_distributive_add_other_way(
                new_width as int,
                y as int,
                1,
            );
        }
        y = y + 1;
    }
    proof {
        vstd::arithmetic::mul::lemma_mul_is_commutative(new_width as int, h as int);
    }
    let r = Image::new(Size::new(new_width, h), data);
    assert forall|x: int, y: int|
        0 <= x < new_width && 0 <= y < img.spec_size().height implies #[trigger] r.at(x, y)
        == img.at(x % img.spec_size().width as int, y) by {
        lemma_row_major(x, y, new_width as int, h as int);
    }
    r
}

/// Column `x * ch + c` of a row made of `ch`-fold stretched columns of an `n`-column map,
/// repeated, comes from column `x % n` of the map, for every `c < ch`.
proof fn lemma_stretched_column(x: int, c: int, n: int, ch: int)
    requires
        0 <= x,
        0 <= c < ch,
        n > 0,
    ensures
        ((x * ch + c) % (n * ch)) / ch == x % n,
{
    let q = x / n;
    let r = x % n;
    vstd::arithmetic::div_mod::lemma_fundamental_div_mod(x, n);
    assert(0 <= r < n);
    assert(x * ch + c == q * (n * ch) + (r * ch + c)) by (nonlinear_arith)
        requires
            x == n * q + r,
    ;
    assert(0 <= r * ch + c < n * ch) by (nonlinear_arith)
        requires
            0 <= r < n,
            0 <= c < ch,
    ;
    vstd::arithmetic::div_mod::lemma_fundamental_div_mod_converse(
        x * ch + c,
        n * ch,
        q,
        r * ch + c,
    );
    vstd::arithmetic::div_mod::lemma_fundamental_div_mod_converse(r * ch + c, ch, r, c);
}

/// Stretching a map by the channel count `ch` and tiling the result to the width of a row of
/// `ch`-channel pixels puts, at channel `c` of pixel `x`, the map's value for column `x % n`:
/// a row of the tiled map lines up with a row of interleaved pixel data.
pub proof fn lemma_stretch_then_tile<P>(
    map: Image<P>,
    stretched: Image<P>,
    tiled: Image<P>,
    ch: int,
    x: int,
    c: int,
    y: int,
)
    requires
        map.spec_size().width > 0,
        ch > 0,
        stretched.spec_size().width == map.spec_size().width * ch,
        forall|sx: int, sy: int|
            0 <= sx < map.spec_size().width * ch && 0 <= sy < map.spec_size().height
                ==> #[trigger] stretched.at(sx, sy) == map.at(sx / ch, sy),
        forall|tx: int, ty: int|
            0 <= tx < tiled.spec_size().width && 0 <= ty < map.spec_size().height
                ==> #[trigger] tiled.at(tx, ty) == stretched.at(tx % stretched.spec_size().width as int, ty),
        0 <= x,
        0 <= c < ch,
        x * ch + c < tiled.spec_size().width,
        0 <= y < map.spec_size().height,
    ensures
        tiled.at(x * ch + c, y) == map.at(x % map.spec_size().width as int, y),
{
    let n = map.spec_size().width as int;
    lemma_stretched_column(x, c, n, ch);
    assert(0 <= (x * ch + c) % (n * ch) < n * ch) by {
        vstd::arithmetic::mul::lemma_mul_strictly_positive(n, ch);
        vstd::arithmetic::div_mod::lemma_mod_bound(x * ch + c, n * ch);
    }
    assert(0 <= x * ch + c) by (nonlinear_arith)
        requires
            0 <= x,
            0 <= c,
            ch > 0,
    ;
}

} // verus!
