use std::marker::PhantomData;
use vstd::prelude::*;

use crate::image::{Image, Size};

verus! {

/// The resampling filters of `scale`.
#[derive(Debug, Clone, Copy, PartialEq, Eq, Structural, Hash)]
pub enum Filter {
    Nearest,
    Box,
    Linear,
    Hermite,
    CubicCatrom,
    CubicMitchell,
    CubicBSpline,
    Hamming,
    Hann,
    Lanczos3,
    Lagrange,
    Gauss,
}

/// The pixel format of floating-point pixels of type `T`, as the resampler takes it.
pub struct FloatPixelFormat<T> {
    _marker: PhantomData<T>,
}

impl<T> FloatPixelFormat<T> {
    #[allow(clippy::new_without_default)]
    pub fn new() -> (r: Self) {
        Self { _marker: PhantomData }
    }
}

/// `2^32`, the unit of the fixed-point coordinates of nearest-neighbour scaling.
pub open spec fn fixed_one() -> int {
    4294967296
}

/// The source coordinate that nearest-neighbour scaling from `src_len` to `dst_len` pixels
/// takes for destination coordinate `i`, in 32.32 fixed point: with
/// `k = floor(src_len * 2^32 / dst_len)`, it is `floor((i * k + floor(k / 2)) / 2^32)`, which
/// approximates `floor((i + 0.5) * src_len / dst_len)`.
pub open spec fn nn_fixed(i: int, src_len: int, dst_len: int) -> int {
    let k = src_len * fixed_one() / dst_len;
    (i * k + k / 2) / fixed_one()
}

/// Whether `k == 2^e` for some `e`.
pub open spec fn is_pow2(k: int) -> bool {
    exists|e: nat| k == vstd::arithmetic::power2::pow2(e)
}

/// The integer factor by which `dst` is `src` scaled up, where that factor is a power of two.
pub open spec fn pow2_upscale(src: Size, dst: Size) -> Option<int> {
    let k = dst.width as int / src.width as int;
    if src.width > 0 && dst.width == src.width * k && dst.height == src.height * k && is_pow2(k) {
        Some(k)
    } else {
        None
    }
}

/// The source position that `nearest_neighbor` copies to destination position `(x, y)`.
pub open spec fn nn_source(src: Size, dst: Size, x: int, y: int) -> (int, int) {
    if src == dst {
        (x, y)
    } else if let Some(k) = pow2_upscale(src, dst) {
        (x / k, y / k)
    } else {
        (nn_fixed(x, src.width as int, dst.width as int), nn_fixed(y, src.height as int, dst.height as int))
    }
}

/// Whether `k` is a power of two.
fn is_power_of_two(k: usize) -> (r: bool)
    ensures
        r == is_pow2(k as int),
{
    if k == 0 {
        proof {
            assert forall|e: nat| vstd::arithmetic::power2::pow2(e) != 0 by {
                vstd::arithmetic::power2::lemma_pow2_pos(e);
            }
        }
        return false;
    }
    let mut v = k;
    let ghost mut e: nat = 0;
    proof {
        vstd::arithmetic::power2::lemma2_to64();
    }
    while v % 2 == 0
        invariant
            v > 0,
            k == v * vstd::arithmetic::power2::pow2(e),
        decreases v,
    {
        proof {
            vstd::arithmetic::power2::lemma_pow2_adds(e, 1);
            vstd::arithmetic::power2::lemma2_to64();
            vstd::arithmetic::mul::lemma_mul_is_associative(v as int / 2, 2, vstd::arithmetic::power2::pow2(e) as int);
        }
        v = v / 2;
        proof {
            e = e + 1;
        }
    }
    proof {
        if v == 1 {
            assert(k == vstd::arithmetic::power2::pow2(e));
        } else {
            assert forall|f: nat| k != vstd::arithmetic::power2::pow2(f) by {
                lemma_odd_factor(k as int, v as int, e, f);
            }
        }
    }
    v == 1
}

proof fn lemma_odd_factor(k: int, v: int, e: nat, f: nat)
    requires
        v > 1,
        v % 2 == 1,
        k == v * vstd::arithmetic::power2::pow2(e),
    ensures
        k != vstd::arithmetic::power2::pow2(f),
    decreases e,
{
    vstd::arithmetic::power2::lemma_pow2_pos(e);
    vstd::arithmetic::power2::lemma_pow2_pos(f);
    if e == 0 {
        vstd::arithmetic::power2::lemma2_to64();
        vstd::arithmetic::mul::lemma_mul_basics(v);
        assert(k == v);
        if f > 0 {
            vstd::arithmetic::power2::lemma_pow2_adds((f - 1) as nat, 1);
            assert(vstd::arithmetic::power2::pow2(f) % 2 == 0) by {
                vstd::arithmetic::div_mod::lemma_mod_multiples_basic(vstd::arithmetic::power2::pow2((f - 1) as nat) as int, 2);
            }
        }
    } else {
        vstd::arithmetic::power2::lemma_pow2_adds((e - 1) as nat, 1);
        vstd::arithmetic::power2::lemma2_to64();
        let k2 = v * vstd::arithmetic::power2::pow2((e - 1) as nat);
        vstd::arithmetic::mul::lemma_mul_is_associative(v, vstd::arithmetic::power2::pow2((e - 1) as nat) as int, 2);
        assert(k == k2 * 2);
        if f == 0 {
            vstd::arithmetic::power2::lemma_pow2_pos((e - 1) as nat);
            assert(k2 >= 1) by (nonlinear_arith)
                requires v > 1, vstd::arithmetic::power2::pow2((e - 1) as nat) > 0, k2 == v * vstd::arithmetic::power2::pow2((e - 1) as nat);
        } else {
            vstd::arithmetic::power2::lemma_pow2_adds((f - 1) as nat, 1);
            lemma_odd_factor(k2, v, (e - 1) as nat, (f - 1) as nat);
        }
    }
}

/// The inputs on which `nearest_neighbor` scales rather than copies: both sizes are non-empty
/// and, unless the destination is the source scaled up by a power of two, the source fits the
/// fixed-point arithmetic.
pub open spec fn nn_supported(src: Size, dst: Size) -> bool {
    &&& src.width > 0
    &&& src.height > 0
    &&& dst.width > 0
    &&& dst.height > 0
    &&& (pow2_upscale(src, dst) is Some || (src.width <= i32::MAX && src.height <= i32::MAX))
}

proof fn lemma_nn_fixed(i: int, s: int, d: int)
    requires
        0 < s <= i32::MAX,
        0 < d,
        0 <= i < d,
    ensures
        0 <= s * fixed_one() / d,
        i * (s * fixed_one() / d) + (s * fixed_one() / d) / 2 < s * fixed_one(),
        0 <= nn_fixed(i, s, d) < s,
{
    let k = s * fixed_one() / d;
    vstd::arithmetic::div_mod::lemma_fundamental_div_mod(s * fixed_one(), d);
    vstd::arithmetic::div_mod::lemma_mod_bound(s * fixed_one(), d);
    vstd::arithmetic::div_mod::lemma_div_pos_is_pos(s * fixed_one(), d);
    assert(k * d <= s * fixed_one()) by {
        vstd::arithmetic::mul::lemma_mul_is_commutative(k, d);
    }
    assert(i * k + k / 2 < s * fixed_one()) by (nonlinear_arith)
        requires
            0 <= i < d,
            k >= 0,
            k * d <= s * fixed_one(),
            s > 0,
    {
        assert(i * k <= (d - 1) * k);
        if k > 0 {
            assert((d - 1) * k + k / 2 < d * k);
        }
    }
    vstd::arithmetic::div_mod::lemma_div_pos_is_pos(i * k + k / 2, fixed_one());
    vstd::arithmetic::div_mod::lemma_multiply_divide_lt(i * k + k / 2, fixed_one(), s);
    vstd::arithmetic::mul::lemma_mul_is_commutative(fixed_one(), s);
}

/// Scales `src` to `size` by nearest-neighbour sampling: each destination pixel is a clone of
/// the source pixel at `nn_source`.
pub fn nearest_neighbor<P: Clone>(src: &Image<P>, size: Size) -> (r: Image<P>)
    requires
        src.wf(),
        size.fits(),
        src.spec_size() != size ==> nn_supported(src.spec_size(), size),
    ensures
        r.wf(),
        r.spec_size() == size,
        forall|k: int|
            0 <= k < size.area() ==> cloned(
                src.at(
                    nn_source(src.spec_size(), size, k % size.width as int, k / size.width as int).0,
                    nn_source(src.spec_size(), size, k % size.width as int, k / size.width as int).1,
                ),
                #[trigger] r.pixels()[k],
            ),
{
    if src.size() == size {
        let r = src.clone();
        proof {
            if size.width == 0 {
                vstd::arithmetic::mul::lemma_mul_basics(size.height as int);
            }
            assert forall|k: int| 0 <= k < size.area() implies cloned(
                src.at(
                    nn_source(src.spec_size(), size, k % size.width as int, k / size.width as int).0,
                    nn_source(src.spec_size(), size, k % size.width as int, k / size.width as int).1,
                ),
                #[trigger] r.pixels()[k],
            ) by {
                vstd::arithmetic::div_mod::lemma_fundamental_div_mod(k, size.width as int);
                vstd::arithmetic::mul::lemma_mul_is_commutative(size.width as int, k / size.width as int);
            }
        }
        return r;
    }
    let src_size = src.size();
    let w = src_size.width;
    let h = src_size.height;
    let ww = size.width;
    let hh = size.height;
    let data_src = src.data();
    let n = data_src.len();

    // optimization for power-of-2 scaling factors, e.g. 2x, 4x
    let scale_up = ww / w;
    proof {
        vstd::arithmetic::div_mod::lemma_fundamental_div_mod(ww as int, w as int);
        vstd::arithmetic::div_mod::lemma_mod_bound(ww as int, w as int);
    }
    let h_scaled = h.checked_mul(scale_up);
    if ww == w * scale_up && h_scaled == Some(hh) && is_power_of_two(scale_up) {
        assert(pow2_upscale(src_size, size) == Some(scale_up as int));
        let mut data: Vec<P> = Vec::with_capacity(size.len());
        let mut y: usize = 0;
        while y < hh
            invariant
                src.wf(),
                src_size == src.spec_size(),
                w == src_size.width,
                h == src_size.height,
                ww == size.width,
                hh == size.height,
                src_size != size,
                pow2_upscale(src_size, size) == Some(scale_up as int),
                ww == w * scale_up,
                hh == h * scale_up,
                w > 0,
                size.fits(),
                data_src@ == src.pixels(),
                n == data_src@.len(),
                y <= hh,
                data.len() == y * ww,
                forall|k: int|
                    0 <= k < data.len() ==> cloned(
                        src.at(
                            nn_source(src_size, size, k % ww as int, k / ww as int).0,
                            nn_source(src_size, size, k % ww as int, k / ww as int).1,
                        ),
                        #[trigger] data@[k],
                    ),
            decreases hh - y,
        {
            proof {
                vstd::arithmetic::mul::lemma_mul_inequality(y as int + 1, hh as int, ww as int);
                vstd::arithmetic::mul::lemma_mul_is_distributive_add_other_way(ww as int, y as int, 1);
                vstd::arithmetic::mul::lemma_mul_is_commutative(h as int, scale_up as int);
                vstd::arithmetic::div_mod::lemma_multiply_divide_lt(y as int, scale_up as int, h as int);
                assert((y / scale_up) * w + w <= h * w) by (nonlinear_arith)
                    requires y / scale_up < h;
                vstd::arithmetic::mul::lemma_mul_is_commutative(w as int, h as int);
            }
            let src_y = y / scale_up;
            let src_i = src_y * w;
            let mut x: usize = 0;
            while x < ww
                invariant
                    src.wf(),
                    src_size == src.spec_size(),
                    w == src_size.width,
                    h == src_size.height,
                    ww == size.width,
                    hh == size.height,
                    src_size != size,
                    pow2_upscale(src_size, size) == Some(scale_up as int),
                    ww == w * scale_up,
                    w > 0,
                    data_src@ == src.pixels(),
                    n == data_src@.len(),
                    y < hh,
                    (y + 1) * ww <= usize::MAX,
                    (y + 1) * ww == y * ww + ww,
                    src_y == y / scale_up,
                    src_i == src_y * w,
                    src_i + w <= n,
                    x <= ww,
                    data.len() == y * ww + x,
                    forall|k: int|
                        0 <= k < data.len() ==> cloned(
                            src.at(
                                nn_source(src_size, size, k % ww as int, k / ww as int).0,
                                nn_source(src_size, size, k % ww as int, k / ww as int).1,
                            ),
                            #[trigger] data@[k],
                        ),
                decreases ww - x,
            {
                proof {
                    vstd::arithmetic::div_mod::lemma_fundamental_div_mod_converse(
                        (y * ww + x) as int,
                        ww as int,
                        y as int,
                        x as int,
                    );
                    vstd::arithmetic::mul::lemma_mul_is_commutative(w as int, scale_up as int);
                    vstd::arithmetic::div_mod::lemma_multiply_divide_lt(x as int, scale_up as int, w as int);
                }
                let src_x = x / scale_up;
                data.push(data_src[src_i + src_x].clone());
                x = x + 1;
            }
            y = y + 1;
        }
        proof {
            vstd::arithmetic::mul::lemma_mul_is_commutative(ww as int, hh as int);
        }
        return Image::new(size, data);
    }

    // Fixed point arithmetic (32.32) avoids floating point and divisions: the source
    // coordinate of destination coordinate `i` is `floor((i + 0.5) * src_len / dst_len)`,
    // which is `floor(i * k + k / 2)` with `k = src_len / dst_len`, and `floor` is a shift.
    assert(!(pow2_upscale(src_size, size) is Some)) by {
        if pow2_upscale(src_size, size) is Some {
            assert(scale_up as int == ww as int / w as int);
            vstd::arithmetic::mul::lemma_mul_is_commutative(h as int, scale_up as int);
        }
    }
    assert(w <= 2147483647u64 && h <= 2147483647u64);
    let k_x: u64 = ((w as u64) << 32u64) / ww as u64;
    let k_y: u64 = ((h as u64) << 32u64) / hh as u64;
    proof {
        assert(((w as u64) << 32u64) == (w as u64) * 4294967296u64) by (bit_vector)
            requires w <= 2147483647u64;
        assert(((h as u64) << 32u64) == (h as u64) * 4294967296u64) by (bit_vector)
            requires h <= 2147483647u64;
    }
    let k_x_half: u64 = k_x >> 1u64;
    let k_y_half: u64 = k_y >> 1u64;
    proof {
        assert(k_x_half == k_x / 2) by (bit_vector)
            requires k_x_half == k_x >> 1u64;
        assert(k_y_half == k_y / 2) by (bit_vector)
            requires k_y_half == k_y >> 1u64;
    }
    let mut data: Vec<P> = Vec::with_capacity(size.len());
    let mut y: usize = 0;
    while y < hh
        invariant
            src.wf(),
            src_size == src.spec_size(),
            w == src_size.width,
            h == src_size.height,
            ww == size.width,
            hh == size.height,
            src_size != size,
            !(pow2_upscale(src_size, size) is Some),
            0 < w <= i32::MAX,
            0 < h <= i32::MAX,
            ww > 0,
            hh > 0,
            k_x == w * fixed_one() / ww as int,
            k_y == h * fixed_one() / hh as int,
            k_x_half == k_x / 2,
            k_y_half == k_y / 2,
            size.fits(),
            data_src@ == src.pixels(),
            n == data_src@.len(),
            y <= hh,
            data.len() == y * ww,
            forall|k: int|
                0 <= k < data.len() ==> cloned(
                    src.at(
                        nn_source(src_size, size, k % ww as int, k / ww as int).0,
                        nn_source(src_size, size, k % ww as int, k / ww as int).1,
                    ),
                    #[trigger] data@[k],
                ),
        decreases hh - y,
    {
        proof {
            vstd::arithmetic::mul::lemma_mul_inequality(y as int + 1, hh as int, ww as int);
            vstd::arithmetic::mul::lemma_mul_is_distributive_add_other_way(ww as int, y as int, 1);
            lemma_nn_fixed(y as int, h as int, hh as int);
        }
        let yk = (y as u64) * k_y + k_y_half;
        let src_y = (yk >> 32u64) as usize;
        proof {
            assert(yk >> 32u64 == yk / 4294967296u64) by (bit_vector);
            assert(src_y == nn_fixed(y as int, h as int, hh as int));
            assert(src_y * w + w <= h * w) by (nonlinear_arith)
                requires src_y < h;
            vstd::arithmetic::mul::lemma_mul_is_commutative(w as int, h as int);
        }
        let src_i = src_y * w;
        let mut x: usize = 0;
        while x < ww
            invariant
                src.wf(),
                src_size == src.spec_size(),
                w == src_size.width,
                h == src_size.height,
                ww == size.width,
                hh == size.height,
                src_size != size,
                !(pow2_upscale(src_size, size) is Some),
                0 < w <= i32::MAX,
                0 < h <= i32::MAX,
                ww > 0,
                k_x == w * fixed_one() / ww as int,
                k_x_half == k_x / 2,
                data_src@ == src.pixels(),
                n == data_src@.len(),
                y < hh,
                (y + 1) * ww <= usize::MAX,
                (y + 1) * ww == y * ww + ww,
                src_y == nn_fixed(y as int, h as int, hh as int),
                src_i == src_y * w,
                src_i + w <= n,
                x <= ww,
                data.len() == y * ww + x,
                forall|k: int|
                    0 <= k < data.len() ==> cloned(
                        src.at(
                            nn_source(src_size, size, k % ww as int, k / ww as int).0,
                            nn_source(src_size, size, k % ww as int, k / ww as int).1,
                        ),
                        #[trigger] data@[k],
                    ),
            decreases ww - x,
        {
            proof {
                vstd::arithmetic::div_mod::lemma_fundamental_div_mod_converse(
                    (y * ww + x) as int,
                    ww as int,
                    y as int,
                    x as int,
                );
                lemma_nn_fixed(x as int, w as int, ww as int);
            }
            let xk = (x as u64) * k_x + k_x_half;
            let src_x = (xk >> 32u64) as usize;
            proof {
                assert(xk >> 32u64 == xk / 4294967296u64) by (bit_vector);
            }
            data.push(data_src[src_i + src_x].clone());
            x = x + 1;
        }
        y = y + 1;
    }
    proof {
        vstd::arithmetic::mul::lemma_mul_is_commutative(ww as int, hh as int);
    }
    Image::new(size, data)
}

/// The power-of-two shortcut of `nearest_neighbor` agrees with its fixed-point formula: when
/// the destination is `k = 2^e <= 2^32` times as long as the source, destination coordinate
/// `i` samples source coordinate `i / k` either way.
pub proof fn lemma_pow2_shortcut_agrees(i: int, s: int, e: nat)
    requires
        s > 0,
        e <= 32,
        0 <= i,
    ensures
        nn_fixed(i, s, s * vstd::arithmetic::power2::pow2(e)) == i / vstd::arithmetic::power2::pow2(e) as int,
{
    let k = vstd::arithmetic::power2::pow2(e) as int;
    let m = vstd::arithmetic::power2::pow2((32 - e) as nat) as int;
    vstd::arithmetic::power2::lemma_pow2_adds(e, (32 - e) as nat);
    vstd::arithmetic::power2::lemma2_to64();
    vstd::arithmetic::power2::lemma_pow2_pos(e);
    vstd::arithmetic::power2::lemma_pow2_pos((32 - e) as nat);
    assert(k * m == fixed_one());
    assert(s * fixed_one() == (s * k) * m) by (nonlinear_arith)
        requires
            k * m == fixed_one(),
    ;
    assert(s * k > 0) by (nonlinear_arith)
        requires
            s > 0,
            k > 0,
    ;
    vstd::arithmetic::div_mod::lemma_div_multiples_vanish(m, s * k);
    vstd::arithmetic::mul::lemma_mul_is_commutative(s * k, m);
    assert(s * fixed_one() / (s * k) == m);
    let q = i / k;
    let r = i % k;
    vstd::arithmetic::div_mod::lemma_fundamental_div_mod(i, k);
    assert(i * m + m / 2 == q * fixed_one() + (r * m + m / 2)) by (nonlinear_arith)
        requires
            i == k * q + r,
            k * m == fixed_one(),
    ;
    assert(0 <= r * m + m / 2 < fixed_one()) by (nonlinear_arith)
        requires
            0 <= r < k,
            m > 0,
            k * m == fixed_one(),
    {
        assert(r * m <= (k - 1) * m);
    }
    vstd::arithmetic::div_mod::lemma_fundamental_div_mod_converse(
        i * m + m / 2,
        fixed_one(),
        q,
        r * m + m / 2,
    );
}

} // verus!
