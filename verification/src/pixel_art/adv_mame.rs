use vstd::prelude::*;
use vstd::std_specs::cmp::PartialEqSpec;

use super::util::{
    all_pixels, lemma_neighbours_uniform, lemma_upscaled_uniform,
    block_done, block_of, each_of, inc_clamped, lemma_block_in_image, lemma_centre_of_3x,
    block_pixel, is_same_table, lemma_index_of_block, lemma_upscaled_at, lemma_upscaled_ext, nb3, nearest_spec, neighbour_comparisons,
    offset_in_block, same, table_eq, table_eq_at, sat_dec, src_px, upscaled, write_2x, write_3x,
};
use crate::image::{Image, Size};

verus! {

/// The 2 x 2 block of AdvMAME2x for source pixel `(x, y)` of the `w` x `h` pixels `s`.
///
/// ```text
///   A
/// C P B
///   D
/// ```
pub open spec fn adv_mame_2x_block<T: PartialEq>(s: Seq<T>, w: int, h: int, x: int, y: int) -> Seq<T> {
    let p = src_px(s, w, x, y);
    let a = src_px(s, w, x, sat_dec(y));
    let b = src_px(s, w, inc_clamped(x, w), y);
    let c = src_px(s, w, sat_dec(x), y);
    let d = src_px(s, w, x, inc_clamped(y, h));
    let eq_ab = same(a, b);
    let eq_ac = same(a, c);
    let eq_bd = same(b, d);
    let eq_cd = same(c, d);
    seq![
        if eq_ac && !eq_cd && !eq_ab { a } else { p },
        if eq_ab && !eq_ac && !eq_bd { b } else { p },
        if eq_cd && !eq_ac && !eq_bd { c } else { p },
        if eq_bd && !eq_ab && !eq_cd { d } else { p },
    ]
}

/// The 2 x 2 block of `adv_mame_2x` for source pixel `(x, y)` of the `w` x `h` pixels `s`, where
/// `t` is the comparison table of its 3 x 3 neighbourhood (see `nb3`): `adv_mame_2x_block` with
/// each comparison read from `t`.
pub open spec fn adv_mame_2x_block_by<T>(s: Seq<T>, w: int, h: int, x: int, y: int, t: Seq<bool>) -> Seq<T> {
    let p = src_px(s, w, x, y);
    let a = src_px(s, w, x, sat_dec(y));
    let b = src_px(s, w, inc_clamped(x, w), y);
    let c = src_px(s, w, sat_dec(x), y);
    let d = src_px(s, w, x, inc_clamped(y, h));
    let eq_ab = table_eq(t, 1, 5);
    let eq_ac = table_eq(t, 1, 3);
    let eq_bd = table_eq(t, 5, 7);
    let eq_cd = table_eq(t, 3, 7);
    seq![
        if eq_ac && !eq_cd && !eq_ab { a } else { p },
        if eq_ab && !eq_ac && !eq_bd { b } else { p },
        if eq_cd && !eq_ac && !eq_bd { c } else { p },
        if eq_bd && !eq_ab && !eq_cd { d } else { p },
    ]
}

/// The `adv_mame_2x` upscaling of the `w` x `h` pixels `s`, where `o[y * w + x]` is the comparison
/// table of the 3 x 3 neighbourhood of pixel `(x, y)`.
pub open spec fn adv_mame_2x_by<T>(s: Seq<T>, w: int, h: int, o: Seq<Vec<bool>>) -> Seq<T> {
    upscaled(|x: int, y: int| adv_mame_2x_block_by(s, w, h, x, y, o[y * w + x]@), w, h, 2)
}

/// Where the comparison tables are those of `==` with a spec, `adv_mame_2x_by` is `adv_mame_2x_spec`.
proof fn lemma_adv_mame_2x_by_same<T: PartialEq>(s: Seq<T>, w: int, h: int, o: Seq<Vec<bool>>)
    requires
        w >= 0,
        h >= 0,
        forall|x: int, y: int|
            0 <= x < w && 0 <= y < h ==> is_same_table(#[trigger] o[y * w + x]@, s, w, h, x, y),
    ensures
        adv_mame_2x_by(s, w, h, o) == adv_mame_2x_spec(s, w, h),
{
    assert forall|x: int, y: int| 0 <= x < w && 0 <= y < h implies #[trigger] adv_mame_2x_block_by(
        s,
        w,
        h,
        x,
        y,
        o[y * w + x]@,
    ) == adv_mame_2x_block(s, w, h, x, y) by {
        assert(is_same_table(o[y * w + x]@, s, w, h, x, y));
        assert(adv_mame_2x_block_by(s, w, h, x, y, o[y * w + x]@) =~= adv_mame_2x_block(s, w, h, x, y));
    }
    lemma_upscaled_ext(
        |x: int, y: int| adv_mame_2x_block_by(s, w, h, x, y, o[y * w + x]@),
        |x: int, y: int| adv_mame_2x_block(s, w, h, x, y),
        w,
        h,
        2,
    );
}

/// The AdvMAME2x upscaling of the `w` x `h` pixels `s`.
pub open spec fn adv_mame_2x_spec<T: PartialEq>(s: Seq<T>, w: int, h: int) -> Seq<T> {
    upscaled(|x: int, y: int| adv_mame_2x_block(s, w, h, x, y), w, h, 2)
}

/// The 2x upscaled image of the `w` x `h` pixels `s` in which each pixel of a block is the
/// neighbour that AdvMAME2x may put there in place of the source pixel: above, right, left
/// and below.
pub open spec fn adv_mame_2x_other<T>(s: Seq<T>, w: int, h: int) -> Seq<T> {
    upscaled(
        |x: int, y: int|
            seq![
                src_px(s, w, x, sat_dec(y)),
                src_px(s, w, inc_clamped(x, w), y),
                src_px(s, w, sat_dec(x), y),
                src_px(s, w, x, inc_clamped(y, h)),
            ],
        w,
        h,
        2,
    )
}

/// `d` is a 2x upscaling of the `w` x `h` pixels `s` in which each pixel of a block is its
/// source pixel or the neighbour its corner points to.
pub open spec fn adv_mame_2x_step<T>(s: Seq<T>, w: int, h: int, d: Seq<T>) -> bool {
    each_of(d, nearest_spec(s, w, h, 2), adv_mame_2x_other(s, w, h))
}

/// `adv_mame_2x` where `o` holds the comparison table of the 3 x 3 neighbourhood of each pixel
/// (as `neighbour_comparisons` computes it): the result is `adv_mame_2x_by` over those tables,
/// whatever `==` does on `T`.
pub fn adv_mame_2x_with<T: Default + Copy>(src: &Image<T>, o: &Vec<Vec<bool>>) -> (r: Image<T>)
    requires
        src.wf(),
        o@.len() == src.spec_size().width * src.spec_size().height,
        forall|k: int| 0 <= k < o@.len() ==> (#[trigger] o@[k])@.len() == 81,
        4 * src.spec_size().width * src.spec_size().height <= usize::MAX,
        2 * src.spec_size().width <= usize::MAX,
        2 * src.spec_size().height <= usize::MAX,
    ensures
        r.wf(),
        r.spec_size().width == 2 * src.spec_size().width,
        r.spec_size().height == 2 * src.spec_size().height,
        each_of(
            r.pixels(),
            nearest_spec(src.pixels(), src.spec_size().width as int, src.spec_size().height as int, 2),
            adv_mame_2x_other(src.pixels(), src.spec_size().width as int, src.spec_size().height as int),
        ),
        r.pixels() == adv_mame_2x_by(
            src.pixels(),
            src.spec_size().width as int,
            src.spec_size().height as int,
            o@,
        ),
{
    let w = src.width();
    let h = src.height();
    proof {
        vstd::arithmetic::mul::lemma_mul_is_associative(2, w as int, 2 * h as int);
        vstd::arithmetic::mul::lemma_mul_is_associative(2, w as int, h as int);
        vstd::arithmetic::mul::lemma_mul_is_commutative(w as int, 2);
        vstd::arithmetic::mul::lemma_mul_is_associative(w as int, 2, h as int);
        vstd::arithmetic::mul::lemma_mul_is_associative(4, w as int, h as int);
        assert(2 * w * (2 * h) == 4 * w * h) by (nonlinear_arith);
    }
    let size = Size::new(w * 2, h * 2);
    let mut result = Image::from_const(size, T::default());
    let src = src.data();
    let n = src.len();
    let dest = result.data_mut();
    let ghost row = 2 * w as int;
    let ghost target = adv_mame_2x_by(src@, w as int, h as int, o@);
    let ghost near = nearest_spec(src@, w as int, h as int, 2);
    let ghost other = adv_mame_2x_other(src@, w as int, h as int);
    let mut y: usize = 0;
    while y < h
        invariant
            w == size.width / 2,
            h == size.height / 2,
            size.width == 2 * w,
            size.height == 2 * h,
            row == 2 * w,
            src@.len() == w * h,
            n == src@.len(),
            dest@.len() == 2 * w * (2 * h),
            target == adv_mame_2x_by(src@, w as int, h as int, o@),
                o@.len() == w * h,
                forall|k: int| 0 <= k < o@.len() ==> (#[trigger] o@[k])@.len() == 81,
            target.len() == dest@.len(),
            y <= h,
            forall|k: int|
                0 <= k < dest@.len() && block_done(block_of(k, row, 2), 0, y as int)
                    ==> #[trigger] dest@[k] == target[k],
            near == nearest_spec(src@, w as int, h as int, 2),
            other == adv_mame_2x_other(src@, w as int, h as int),
            forall|k: int|
                0 <= k < dest@.len() && block_done(block_of(k, row, 2), 0, y as int)
                    ==> #[trigger] dest@[k] == near[k] || dest@[k] == other[k],
        decreases h - y,
    {
        let y_m1 = if y > 0 { y - 1 } else { 0 };
        let y_p1 = if y + 1 <= h - 1 { y + 1 } else { h - 1 };
        let mut x: usize = 0;
        while x < w
            invariant
                w == size.width / 2,
                h == size.height / 2,
                row == 2 * w,
                src@.len() == w * h,
                n == src@.len(),
            n == src@.len(),
                dest@.len() == 2 * w * (2 * h),
                target == adv_mame_2x_by(src@, w as int, h as int, o@),
                o@.len() == w * h,
                forall|k: int| 0 <= k < o@.len() ==> (#[trigger] o@[k])@.len() == 81,
                target.len() == dest@.len(),
                y < h,
                x <= w,
                y_m1 == sat_dec(y as int),
                y_p1 == inc_clamped(y as int, h as int),
                forall|k: int|
                    0 <= k < dest@.len() && block_done(block_of(k, row, 2), x as int, y as int)
                        ==> #[trigger] dest@[k] == target[k],
                near == nearest_spec(src@, w as int, h as int, 2),
                other == adv_mame_2x_other(src@, w as int, h as int),
                forall|k: int|
                    0 <= k < dest@.len() && block_done(block_of(k, row, 2), x as int, y as int)
                        ==> #[trigger] dest@[k] == near[k] || dest@[k] == other[k],
            decreases w - x,
        {
            let x_m1 = if x > 0 { x - 1 } else { 0 };
            let x_p1 = if x + 1 <= w - 1 { x + 1 } else { w - 1 };
            proof {
                assert(y * w + w <= h * w) by (nonlinear_arith)
                    requires y < h;
                assert(y_m1 * w + w <= h * w) by (nonlinear_arith)
                    requires y_m1 < h;
                assert(y_p1 * w + w <= h * w) by (nonlinear_arith)
                    requires y_p1 < h;
                vstd::arithmetic::mul::lemma_mul_is_commutative(w as int, h as int);
            }

            //   A
            // C P B
            //   D
            let p = src[y * w + x];
            let a = src[y_m1 * w + x];
            let b = src[y * w + x_p1];
            let c = src[y * w + x_m1];
            let d = src[y_p1 * w + x];

            let t = &o[y * w + x];
            let mut r1 = p;
            let mut r2 = p;
            let mut r3 = p;
            let mut r4 = p;

            let eq_ab = table_eq_at(t, 1, 5);
            let eq_ac = table_eq_at(t, 1, 3);
            let eq_bd = table_eq_at(t, 5, 7);
            let eq_cd = table_eq_at(t, 3, 7);

            if eq_ac && !eq_cd && !eq_ab {
                r1 = a;
            }
            if eq_ab && !eq_ac && !eq_bd {
                r2 = b;
            }
            if eq_cd && !eq_ac && !eq_bd {
                r3 = c;
            }
            if eq_bd && !eq_ab && !eq_cd {
                r4 = d;
            }

            let ghost before = dest@;
            proof {
                assert((y * 2 + 2) * (w * 2) <= dest@.len()) by (nonlinear_arith)
                    requires y < h, dest@.len() == 2 * w * (2 * h);
            }
            write_2x(dest, w, x, y, [r1, r2, r3, r4]);
            proof {
                let out = [r1, r2, r3, r4]@;
                assert(out[0] == p || out[0] == a);
                assert(out[1] == p || out[1] == b);
                assert(out[2] == p || out[2] == c);
                assert(out[3] == p || out[3] == d);
                assert forall|k: int|
                    0 <= k < dest@.len() && block_done(block_of(k, row, 2), x + 1, y as int)
                        implies #[trigger] dest@[k] == near[k] || dest@[k] == other[k] by {
                    lemma_block_in_image(k, w as int, h as int, 2);
                    lemma_index_of_block(k, row, 2);
                }
                {
                    let blk = adv_mame_2x_block_by(src@, w as int, h as int, x as int, y as int, o@[y * w + x]@);
                    assert([r1, r2, r3, r4]@ =~= blk);
                    assert forall|k: int|
                        0 <= k < dest@.len() && block_done(block_of(k, row, 2), x + 1, y as int)
                            implies #[trigger] dest@[k] == target[k] by {
                        lemma_block_in_image(k, w as int, h as int, 2);
                    }
                }
            }
            x = x + 1;
        }
        y = y + 1;
    }
    proof {
        assert forall|k: int| 0 <= k < dest@.len() implies #[trigger] dest@[k] == near[k]
            || dest@[k] == other[k] by {
            lemma_block_in_image(k, w as int, h as int, 2);
        }
        {
            assert forall|k: int| 0 <= k < dest@.len() implies #[trigger] dest@[k] == target[k] by {
                lemma_block_in_image(k, w as int, h as int, 2);
            }
            assert(dest@ =~= target);
        }
    }
    result
}

/// Upscales the image 2x with the AdvMAME2x (EPX) pixel art algorithm.
///
/// Whatever `==` does on `T`, each pixel of the block of a source pixel is that pixel or the
/// neighbour its corner points to.
pub fn adv_mame_2x<T: Default + Copy + PartialEq>(src: &Image<T>) -> (r: Image<T>)
    requires
        src.wf(),
        4 * src.spec_size().width * src.spec_size().height <= usize::MAX,
        2 * src.spec_size().width <= usize::MAX,
        2 * src.spec_size().height <= usize::MAX,
    ensures
        r.wf(),
        r.spec_size().width == 2 * src.spec_size().width,
        r.spec_size().height == 2 * src.spec_size().height,
        each_of(
            r.pixels(),
            nearest_spec(src.pixels(), src.spec_size().width as int, src.spec_size().height as int, 2),
            adv_mame_2x_other(src.pixels(), src.spec_size().width as int, src.spec_size().height as int),
        ),
        T::obeys_eq_spec() ==> r.pixels() == adv_mame_2x_spec(
            src.pixels(),
            src.spec_size().width as int,
            src.spec_size().height as int,
        ),
{
    let o = neighbour_comparisons(src);
    let r = adv_mame_2x_with(src, &o);
    proof {
        if T::obeys_eq_spec() {
            lemma_adv_mame_2x_by_same(
                src.pixels(),
                src.spec_size().width as int,
                src.spec_size().height as int,
                o@,
            );
        }
    }
    r
}

/// The 3 x 3 block of AdvMAME3x for source pixel `(x, y)` of the `w` x `h` pixels `s`.
///
/// ```text
/// A B C
/// D E F
/// G H I
/// ```
pub open spec fn adv_mame_3x_block<T: PartialEq>(s: Seq<T>, w: int, ht: int, x: int, y: int) -> Seq<T> {
    let a = src_px(s, w, sat_dec(x), sat_dec(y));
    let b = src_px(s, w, x, sat_dec(y));
    let c = src_px(s, w, inc_clamped(x, w), sat_dec(y));
    let d = src_px(s, w, sat_dec(x), y);
    let e = src_px(s, w, x, y);
    let f = src_px(s, w, inc_clamped(x, w), y);
    let g = src_px(s, w, sat_dec(x), inc_clamped(y, ht));
    let h = src_px(s, w, x, inc_clamped(y, ht));
    let i = src_px(s, w, inc_clamped(x, w), inc_clamped(y, ht));
    seq![
        if same(b, d) && !same(d, h) && !same(b, f) { d } else { e },
        if (same(b, d) && !same(d, h) && !same(b, f) && !same(c, e)) || (same(b, f) && !same(b, d) && !same(f, h) && !same(a, e)) { b } else { e },
        if same(b, f) && !same(b, d) && !same(f, h) { f } else { e },
        if (same(d, h) && !same(f, h) && !same(b, d) && !same(a, e)) || (same(b, d) && !same(d, h) && !same(b, f) && !same(e, g)) { d } else { e },
        e,
        if (same(b, f) && !same(b, d) && !same(f, h) && !same(e, i)) || (same(f, h) && !same(b, f) && !same(d, h) && !same(c, e)) { f } else { e },
        if same(d, h) && !same(f, h) && !same(b, d) { d } else { e },
        if (same(f, h) && !same(b, f) && !same(d, h) && !same(e, g)) || (same(d, h) && !same(f, h) && !same(b, d) && !same(e, i)) { h } else { e },
        if same(f, h) && !same(b, f) && !same(d, h) { f } else { e },
    ]
}

/// The 3 x 3 block of `adv_mame_3x` for source pixel `(x, y)` of the `w` x `h` pixels `s`, where
/// `t` is the comparison table of its 3 x 3 neighbourhood (see `nb3`): `adv_mame_3x_block` with
/// each comparison read from `t`.
pub open spec fn adv_mame_3x_block_by<T>(s: Seq<T>, w: int, ht: int, x: int, y: int, t: Seq<bool>) -> Seq<T> {
    let a = src_px(s, w, sat_dec(x), sat_dec(y));
    let b = src_px(s, w, x, sat_dec(y));
    let c = src_px(s, w, inc_clamped(x, w), sat_dec(y));
    let d = src_px(s, w, sat_dec(x), y);
    let e = src_px(s, w, x, y);
    let f = src_px(s, w, inc_clamped(x, w), y);
    let g = src_px(s, w, sat_dec(x), inc_clamped(y, ht));
    let h = src_px(s, w, x, inc_clamped(y, ht));
    let i = src_px(s, w, inc_clamped(x, w), inc_clamped(y, ht));
    seq![
        if table_eq(t, 1, 3) && !table_eq(t, 3, 7) && !table_eq(t, 1, 5) { d } else { e },
        if (table_eq(t, 1, 3) && !table_eq(t, 3, 7) && !table_eq(t, 1, 5) && !table_eq(t, 2, 4)) || (table_eq(t, 1, 5) && !table_eq(t, 1, 3) && !table_eq(t, 5, 7) && !table_eq(t, 0, 4)) { b } else { e },
        if table_eq(t, 1, 5) && !table_eq(t, 1, 3) && !table_eq(t, 5, 7) { f } else { e },
        if (table_eq(t, 3, 7) && !table_eq(t, 5, 7) && !table_eq(t, 1, 3) && !table_eq(t, 0, 4)) || (table_eq(t, 1, 3) && !table_eq(t, 3, 7) && !table_eq(t, 1, 5) && !table_eq(t, 4, 6)) { d } else { e },
        e,
        if (table_eq(t, 1, 5) && !table_eq(t, 1, 3) && !table_eq(t, 5, 7) && !table_eq(t, 4, 8)) || (table_eq(t, 5, 7) && !table_eq(t, 1, 5) && !table_eq(t, 3, 7) && !table_eq(t, 2, 4)) { f } else { e },
        if table_eq(t, 3, 7) && !table_eq(t, 5, 7) && !table_eq(t, 1, 3) { d } else { e },
        if (table_eq(t, 5, 7) && !table_eq(t, 1, 5) && !table_eq(t, 3, 7) && !table_eq(t, 4, 6)) || (table_eq(t, 3, 7) && !table_eq(t, 5, 7) && !table_eq(t, 1, 3) && !table_eq(t, 4, 8)) { h } else { e },
        if table_eq(t, 5, 7) && !table_eq(t, 1, 5) && !table_eq(t, 3, 7) { f } else { e },
    ]
}

/// The `adv_mame_3x` upscaling of the `w` x `h` pixels `s`, where `o[y * w + x]` is the comparison
/// table of the 3 x 3 neighbourhood of pixel `(x, y)`.
pub open spec fn adv_mame_3x_by<T>(s: Seq<T>, w: int, h: int, o: Seq<Vec<bool>>) -> Seq<T> {
    upscaled(|x: int, y: int| adv_mame_3x_block_by(s, w, h, x, y, o[y * w + x]@), w, h, 3)
}

/// Where the comparison tables are those of `==` with a spec, `adv_mame_3x_by` is `adv_mame_3x_spec`.
proof fn lemma_adv_mame_3x_by_same<T: PartialEq>(s: Seq<T>, w: int, h: int, o: Seq<Vec<bool>>)
    requires
        w >= 0,
        h >= 0,
        forall|x: int, y: int|
            0 <= x < w && 0 <= y < h ==> is_same_table(#[trigger] o[y * w + x]@, s, w, h, x, y),
    ensures
        adv_mame_3x_by(s, w, h, o) == adv_mame_3x_spec(s, w, h),
{
    assert forall|x: int, y: int| 0 <= x < w && 0 <= y < h implies #[trigger] adv_mame_3x_block_by(
        s,
        w,
        h,
        x,
        y,
        o[y * w + x]@,
    ) == adv_mame_3x_block(s, w, h, x, y) by {
        assert(is_same_table(o[y * w + x]@, s, w, h, x, y));
        assert(adv_mame_3x_block_by(s, w, h, x, y, o[y * w + x]@) =~= adv_mame_3x_block(s, w, h, x, y));
    }
    lemma_upscaled_ext(
        |x: int, y: int| adv_mame_3x_block_by(s, w, h, x, y, o[y * w + x]@),
        |x: int, y: int| adv_mame_3x_block(s, w, h, x, y),
        w,
        h,
        3,
    );
}

/// The AdvMAME3x upscaling of the `w` x `h` pixels `s`.
pub open spec fn adv_mame_3x_spec<T: PartialEq>(s: Seq<T>, w: int, h: int) -> Seq<T> {
    upscaled(|x: int, y: int| adv_mame_3x_block(s, w, h, x, y), w, h, 3)
}

/// The 3x upscaled image of the `w` x `h` pixels `s` in which each pixel of a block is the
/// neighbour that AdvMAME3x may put there in place of the source pixel; the centre stays the
/// source pixel.
pub open spec fn adv_mame_3x_other<T>(s: Seq<T>, w: int, ht: int) -> Seq<T> {
    upscaled(
        |x: int, y: int|
            {
                let b = src_px(s, w, x, sat_dec(y));
                let d = src_px(s, w, sat_dec(x), y);
                let f = src_px(s, w, inc_clamped(x, w), y);
                let h = src_px(s, w, x, inc_clamped(y, ht));
                seq![d, b, f, d, src_px(s, w, x, y), f, d, h, f]
            },
        w,
        ht,
        3,
    )
}

/// `adv_mame_3x` where `o` holds the comparison table of the 3 x 3 neighbourhood of each pixel
/// (as `neighbour_comparisons` computes it): the result is `adv_mame_3x_by` over those tables,
/// whatever `==` does on `T`.
pub fn adv_mame_3x_with<T: Default + Copy>(src: &Image<T>, o: &Vec<Vec<bool>>) -> (r: Image<T>)
    requires
        src.wf(),
        o@.len() == src.spec_size().width * src.spec_size().height,
        forall|k: int| 0 <= k < o@.len() ==> (#[trigger] o@[k])@.len() == 81,
        9 * src.spec_size().width * src.spec_size().height <= usize::MAX,
        3 * src.spec_size().width <= usize::MAX,
        3 * src.spec_size().height <= usize::MAX,
    ensures
        r.wf(),
        r.spec_size().width == 3 * src.spec_size().width,
        r.spec_size().height == 3 * src.spec_size().height,
        each_of(
            r.pixels(),
            nearest_spec(src.pixels(), src.spec_size().width as int, src.spec_size().height as int, 3),
            adv_mame_3x_other(src.pixels(), src.spec_size().width as int, src.spec_size().height as int),
        ),
        forall|x: int, y: int|
            0 <= x < src.spec_size().width && 0 <= y < src.spec_size().height ==> #[trigger] r.pixels()[(3
                * y + 1) * (3 * src.spec_size().width) + 3 * x + 1] == src.pixels()[y
                * src.spec_size().width + x],
        r.pixels() == adv_mame_3x_by(
            src.pixels(),
            src.spec_size().width as int,
            src.spec_size().height as int,
            o@,
        ),
{
    let w = src.width();
    let ht = src.height();
    proof {
        assert(3 * w * (3 * ht) == 9 * w * ht) by (nonlinear_arith);
    }
    let size = Size::new(w * 3, ht * 3);
    let mut result = Image::from_const(size, T::default());
    let src = src.data();
    let n = src.len();
    let dest = result.data_mut();
    let ghost row = 3 * w as int;
    let ghost target = adv_mame_3x_by(src@, w as int, ht as int, o@);
    let ghost near = nearest_spec(src@, w as int, ht as int, 3);
    let ghost other = adv_mame_3x_other(src@, w as int, ht as int);
    proof {
        assert forall|k: int| 0 <= k < dest@.len() implies !block_done(block_of(k, row, 3), 0, 0) by {
            assert(w > 0 && ht > 0) by (nonlinear_arith)
                requires
                    0 <= k < dest@.len(),
                    dest@.len() == 3 * w * (3 * ht),
            ;
            lemma_block_in_image(k, w as int, ht as int, 3);
        }
    }
    let mut y: usize = 0;
    while y < ht
        invariant
            size.width == 3 * w,
            size.height == 3 * ht,
            row == 3 * w,
            src@.len() == w * ht,
            n == src@.len(),
            dest@.len() == 3 * w * (3 * ht),
            target == adv_mame_3x_by(src@, w as int, ht as int, o@),
                o@.len() == w * ht,
                forall|k: int| 0 <= k < o@.len() ==> (#[trigger] o@[k])@.len() == 81,
            target.len() == dest@.len(),
            y <= ht,
            forall|k: int|
                0 <= k < dest@.len() && block_done(block_of(k, row, 3), 0, y as int)
                    ==> #[trigger] dest@[k] == target[k],
            near == nearest_spec(src@, w as int, ht as int, 3),
            other == adv_mame_3x_other(src@, w as int, ht as int),
            forall|k: int|
                0 <= k < dest@.len() && block_done(block_of(k, row, 3), 0, y as int)
                    ==> #[trigger] dest@[k] == near[k] || dest@[k] == other[k],
        decreases ht - y,
    {
        let y_m1 = if y > 0 { y - 1 } else { 0 };
        let y_p1 = if y + 1 <= ht - 1 { y + 1 } else { ht - 1 };
        let mut x: usize = 0;
        while x < w
            invariant
                row == 3 * w,
                src@.len() == w * ht,
                n == src@.len(),
                dest@.len() == 3 * w * (3 * ht),
                target == adv_mame_3x_by(src@, w as int, ht as int, o@),
                o@.len() == w * ht,
                forall|k: int| 0 <= k < o@.len() ==> (#[trigger] o@[k])@.len() == 81,
                target.len() == dest@.len(),
                y < ht,
                x <= w,
                y_m1 == sat_dec(y as int),
                y_p1 == inc_clamped(y as int, ht as int),
                forall|k: int|
                    0 <= k < dest@.len() && block_done(block_of(k, row, 3), x as int, y as int)
                        ==> #[trigger] dest@[k] == target[k],
                near == nearest_spec(src@, w as int, ht as int, 3),
                other == adv_mame_3x_other(src@, w as int, ht as int),
                forall|k: int|
                    0 <= k < dest@.len() && block_done(block_of(k, row, 3), x as int, y as int)
                        ==> #[trigger] dest@[k] == near[k] || dest@[k] == other[k],
            decreases w - x,
        {
            let x_m1 = if x > 0 { x - 1 } else { 0 };
            let x_p1 = if x + 1 <= w - 1 { x + 1 } else { w - 1 };
            proof {
                assert(y * w + w <= ht * w) by (nonlinear_arith)
                    requires y < ht;
                assert(y_m1 * w + w <= ht * w) by (nonlinear_arith)
                    requires y_m1 < ht;
                assert(y_p1 * w + w <= ht * w) by (nonlinear_arith)
                    requires y_p1 < ht;
                vstd::arithmetic::mul::lemma_mul_is_commutative(w as int, ht as int);
            }

            // A B C
            // D E F
            // G H I
            let a = src[y_m1 * w + x_m1];
            let b = src[y_m1 * w + x];
            let c = src[y_m1 * w + x_p1];
            let d = src[y * w + x_m1];
            let e = src[y * w + x];
            let f = src[y * w + x_p1];
            let g = src[y_p1 * w + x_m1];
            let h = src[y_p1 * w + x];
            let i = src[y_p1 * w + x_p1];

            let t = &o[y * w + x];
            let mut r1 = e;
            let mut r2 = e;
            let mut r3 = e;
            let mut r4 = e;
            let r5 = e;
            let mut r6 = e;
            let mut r7 = e;
            let mut r8 = e;
            let mut r9 = e;

            if table_eq_at(t, 1, 3) && !table_eq_at(t, 3, 7) && !table_eq_at(t, 1, 5) {
                r1 = d;
            }
            if (table_eq_at(t, 1, 3) && !table_eq_at(t, 3, 7) && !table_eq_at(t, 1, 5) && !table_eq_at(t, 2, 4)) || (table_eq_at(t, 1, 5) && !table_eq_at(t, 1, 3) && !table_eq_at(t, 5, 7) && !table_eq_at(t, 0, 4)) {
                r2 = b;
            }
            if table_eq_at(t, 1, 5) && !table_eq_at(t, 1, 3) && !table_eq_at(t, 5, 7) {
                r3 = f;
            }
            if (table_eq_at(t, 3, 7) && !table_eq_at(t, 5, 7) && !table_eq_at(t, 1, 3) && !table_eq_at(t, 0, 4)) || (table_eq_at(t, 1, 3) && !table_eq_at(t, 3, 7) && !table_eq_at(t, 1, 5) && !table_eq_at(t, 4, 6)) {
                r4 = d;
            }
            if (table_eq_at(t, 1, 5) && !table_eq_at(t, 1, 3) && !table_eq_at(t, 5, 7) && !table_eq_at(t, 4, 8)) || (table_eq_at(t, 5, 7) && !table_eq_at(t, 1, 5) && !table_eq_at(t, 3, 7) && !table_eq_at(t, 2, 4)) {
                r6 = f;
            }
            if table_eq_at(t, 3, 7) && !table_eq_at(t, 5, 7) && !table_eq_at(t, 1, 3) {
                r7 = d;
            }
            if (table_eq_at(t, 5, 7) && !table_eq_at(t, 1, 5) && !table_eq_at(t, 3, 7) && !table_eq_at(t, 4, 6)) || (table_eq_at(t, 3, 7) && !table_eq_at(t, 5, 7) && !table_eq_at(t, 1, 3) && !table_eq_at(t, 4, 8)) {
                r8 = h;
            }
            if table_eq_at(t, 5, 7) && !table_eq_at(t, 1, 5) && !table_eq_at(t, 3, 7) {
                r9 = f;
            }

            proof {
                assert((y * 3 + 3) * (w * 3) <= dest@.len()) by (nonlinear_arith)
                    requires y < ht, dest@.len() == 3 * w * (3 * ht);
            }
            write_3x(dest, w, x, y, [r1, r2, r3, r4, r5, r6, r7, r8, r9]);
            proof {
                let out = [r1, r2, r3, r4, r5, r6, r7, r8, r9]@;
                let ob = seq![d, b, f, d, e, f, d, h, f];
                assert forall|i: int| 0 <= i < 9 implies out[i] == e || out[i] == #[trigger] ob[i] by {
                    assert(i == 0 || i == 1 || i == 2 || i == 3 || i == 4 || i == 5 || i == 6 || i == 7
                        || i == 8);
                }
                assert forall|k: int|
                    0 <= k < dest@.len() && block_done(block_of(k, row, 3), x + 1, y as int)
                        implies #[trigger] dest@[k] == near[k] || dest@[k] == other[k] by {
                    lemma_block_in_image(k, w as int, ht as int, 3);
                    lemma_index_of_block(k, row, 3);
                    if block_of(k, row, 3) == (x as int, y as int) {
                        assert(ob[offset_in_block(k, row, 3)] == other[k]);
                    }
                }
                {
                    let blk = adv_mame_3x_block_by(src@, w as int, ht as int, x as int, y as int, o@[y * w + x]@);
                    assert([r1, r2, r3, r4, r5, r6, r7, r8, r9]@ =~= blk);
                    assert forall|k: int|
                        0 <= k < dest@.len() && block_done(block_of(k, row, 3), x + 1, y as int)
                            implies #[trigger] dest@[k] == target[k] by {
                        lemma_block_in_image(k, w as int, ht as int, 3);
                    }
                }
            }
            x = x + 1;
        }
        y = y + 1;
    }
    proof {
        assert forall|k: int| 0 <= k < dest@.len() implies #[trigger] dest@[k] == near[k]
            || dest@[k] == other[k] by {
            assert(w > 0) by (nonlinear_arith)
                requires
                    0 <= k < dest@.len(),
                    dest@.len() == 3 * w * (3 * ht),
            ;
            lemma_block_in_image(k, w as int, ht as int, 3);
        }
        if w > 0 && ht > 0 {
            lemma_centre_of_3x(
                dest@,
                src@,
                w as int,
                ht as int,
                |x: int, y: int|
                    {
                        let b = src_px(src@, w as int, x, sat_dec(y));
                        let d = src_px(src@, w as int, sat_dec(x), y);
                        let f = src_px(src@, w as int, inc_clamped(x, w as int), y);
                        let h = src_px(src@, w as int, x, inc_clamped(y, ht as int));
                        seq![d, b, f, d, src_px(src@, w as int, x, y), f, d, h, f]
                    },
            );
        }
        {
            assert forall|k: int| 0 <= k < dest@.len() implies #[trigger] dest@[k] == target[k] by {
                lemma_block_in_image(k, w as int, ht as int, 3);
            }
            assert(dest@ =~= target);
        }
    }
    result
}

/// Upscales the image 3x with the AdvMAME3x (Scale3x) pixel art algorithm.
///
/// Whatever `==` does on `T`, the centre of the block of a source pixel is that pixel, and
/// each other pixel of the block is that pixel or one of its four nearest neighbours.
pub fn adv_mame_3x<T: Default + Copy + PartialEq>(src: &Image<T>) -> (r: Image<T>)
    requires
        src.wf(),
        9 * src.spec_size().width * src.spec_size().height <= usize::MAX,
        3 * src.spec_size().width <= usize::MAX,
        3 * src.spec_size().height <= usize::MAX,
    ensures
        r.wf(),
        r.spec_size().width == 3 * src.spec_size().width,
        r.spec_size().height == 3 * src.spec_size().height,
        each_of(
            r.pixels(),
            nearest_spec(src.pixels(), src.spec_size().width as int, src.spec_size().height as int, 3),
            adv_mame_3x_other(src.pixels(), src.spec_size().width as int, src.spec_size().height as int),
        ),
        forall|x: int, y: int|
            0 <= x < src.spec_size().width && 0 <= y < src.spec_size().height ==> #[trigger] r.pixels()[(3
                * y + 1) * (3 * src.spec_size().width) + 3 * x + 1] == src.pixels()[y
                * src.spec_size().width + x],
        T::obeys_eq_spec() ==> r.pixels() == adv_mame_3x_spec(
            src.pixels(),
            src.spec_size().width as int,
            src.spec_size().height as int,
        ),
{
    let o = neighbour_comparisons(src);
    let r = adv_mame_3x_with(src, &o);
    proof {
        if T::obeys_eq_spec() {
            lemma_adv_mame_3x_by_same(
                src.pixels(),
                src.spec_size().width as int,
                src.spec_size().height as int,
                o@,
            );
        }
    }
    r
}


/// Upscales the image 4x by applying AdvMAME2x twice.
///
/// Whatever `==` does on `T`, the image is made in two steps of the kind that `adv_mame_2x`
/// states: each pixel of a block is its source pixel or the neighbour its corner points to.
pub fn adv_mame_4x<T: Default + Copy + PartialEq>(src: &Image<T>) -> (r: Image<T>)
    requires
        src.wf(),
        16 * src.spec_size().width * src.spec_size().height <= usize::MAX,
        4 * src.spec_size().width <= usize::MAX,
        4 * src.spec_size().height <= usize::MAX,
    ensures
        r.wf(),
        r.spec_size().width == 4 * src.spec_size().width,
        r.spec_size().height == 4 * src.spec_size().height,
        exists|mid: Seq<T>|
            #[trigger] adv_mame_2x_step(
                src.pixels(),
                src.spec_size().width as int,
                src.spec_size().height as int,
                mid,
            ) && adv_mame_2x_step(
                mid,
                2 * src.spec_size().width,
                2 * src.spec_size().height,
                r.pixels(),
            ),
        T::obeys_eq_spec() ==> r.pixels() == adv_mame_2x_spec(
            adv_mame_2x_spec(
                src.pixels(),
                src.spec_size().width as int,
                src.spec_size().height as int,
            ),
            2 * src.spec_size().width,
            2 * src.spec_size().height,
        ),
{
    let ghost w = src.spec_size().width;
    let ghost h = src.spec_size().height;
    proof {
        assert(4 * (2 * w) * (2 * h) == 16 * w * h) by (nonlinear_arith);
        assert(4 * w * h <= 16 * w * h) by (nonlinear_arith);
    }
    let mid = adv_mame_2x(src);
    let r = adv_mame_2x(&mid);
    assert(adv_mame_2x_step(src.pixels(), w as int, h as int, mid.pixels()));
    r
}

/// AdvMAME2x turns an image of one color into an image of that color.
pub proof fn lemma_adv_mame_2x_uniform<T: PartialEq>(s: Seq<T>, w: int, h: int, c: T)
    requires
        w > 0,
        h > 0,
        all_pixels(s, w, h, c),
    ensures
        forall|k: int|
            0 <= k < adv_mame_2x_spec(s, w, h).len() ==> #[trigger] adv_mame_2x_spec(s, w, h)[k]
                == c,
{
    let block = |x: int, y: int| adv_mame_2x_block(s, w, h, x, y);
    assert forall|x: int, y: int, i: int| 0 <= x < w && 0 <= y < h && 0 <= i < 2 * 2 implies #[trigger] block(
        x,
        y,
    )[i] == c by {
        lemma_neighbours_uniform(s, w, h, x, y, c);
    }
    lemma_upscaled_uniform(block, w, h, 2, c);
}

/// AdvMAME3x turns an image of one color into an image of that color.
pub proof fn lemma_adv_mame_3x_uniform<T: PartialEq>(s: Seq<T>, w: int, h: int, c: T)
    requires
        w > 0,
        h > 0,
        all_pixels(s, w, h, c),
    ensures
        forall|k: int|
            0 <= k < adv_mame_3x_spec(s, w, h).len() ==> #[trigger] adv_mame_3x_spec(s, w, h)[k]
                == c,
{
    let block = |x: int, y: int| adv_mame_3x_block(s, w, h, x, y);
    assert forall|x: int, y: int, i: int| 0 <= x < w && 0 <= y < h && 0 <= i < 3 * 3 implies #[trigger] block(
        x,
        y,
    )[i] == c by {
        lemma_neighbours_uniform(s, w, h, x, y, c);
    }
    lemma_upscaled_uniform(block, w, h, 3, c);
}

/// AdvMAME4x, AdvMAME2x applied twice, turns an image of one color into an image of that
/// color.
pub proof fn lemma_adv_mame_4x_uniform<T: PartialEq>(s: Seq<T>, w: int, h: int, c: T)
    requires
        w > 0,
        h > 0,
        all_pixels(s, w, h, c),
    ensures
        forall|k: int|
            0 <= k < adv_mame_2x_spec(adv_mame_2x_spec(s, w, h), 2 * w, 2 * h).len()
                ==> #[trigger] adv_mame_2x_spec(adv_mame_2x_spec(s, w, h), 2 * w, 2 * h)[k] == c,
{
    lemma_adv_mame_2x_uniform(s, w, h, c);
    let once = adv_mame_2x_spec(s, w, h);
    assert(2 * w * (2 * h) == (2 * w) * (2 * h));
    assert(0 <= 2 * w * (2 * h)) by (nonlinear_arith)
        requires
            w > 0,
            h > 0,
    ;
    assert(all_pixels(once, 2 * w, 2 * h, c));
    lemma_adv_mame_2x_uniform(once, 2 * w, 2 * h, c);
}

/// The pixels `s` of an image `w` pixels wide, mirrored left to right.
pub open spec fn flip_columns<T>(s: Seq<T>, w: int) -> Seq<T> {
    Seq::new(s.len(), |k: int| s[(k / w) * w + (w - 1 - k % w)])
}

/// Pixel `x` of row `y` of an image `w` pixels wide lies at index `y * w + x`, and the
/// mirrored image holds there the pixel of column `w - 1 - x`.
proof fn lemma_flip_at<T>(s: Seq<T>, w: int, h: int, x: int, y: int)
    requires
        w > 0,
        0 <= x < w,
        0 <= y < h,
        s.len() == w * h,
    ensures
        0 <= y * w + x < w * h,
        0 <= y * w + (w - 1 - x) < w * h,
        flip_columns(s, w)[y * w + x] == s[y * w + (w - 1 - x)],
{
    vstd::arithmetic::div_mod::lemma_fundamental_div_mod_converse(y * w + x, w, y, x);
    assert(0 <= y * w + x < w * h && 0 <= y * w + (w - 1 - x) < w * h) by (nonlinear_arith)
        requires
            w > 0,
            0 <= x < w,
            0 <= y < h,
    ;
}

/// The mirrored image's block of the mirrored source pixel is the block of the source pixel
/// with its left and right halves exchanged.
proof fn lemma_adv_mame_2x_block_mirror<T: PartialEq>(s: Seq<T>, w: int, h: int, x: int, y: int)
    requires
        w > 0,
        h > 0,
        s.len() == w * h,
        0 <= x < w,
        0 <= y < h,
        forall|i: int, j: int|
            0 <= i < s.len() && 0 <= j < s.len() ==> (#[trigger] same(s[i], s[j]) <==> s[i] == s[j]),
    ensures
        adv_mame_2x_block(flip_columns(s, w), w, h, w - 1 - x, y) == seq![
            adv_mame_2x_block(s, w, h, x, y)[1],
            adv_mame_2x_block(s, w, h, x, y)[0],
            adv_mame_2x_block(s, w, h, x, y)[3],
            adv_mame_2x_block(s, w, h, x, y)[2],
        ],
{
    let f = flip_columns(s, w);
    let xf = w - 1 - x;
    let (yu, yd) = (sat_dec(y), inc_clamped(y, h));
    let (xl, xr) = (sat_dec(x), inc_clamped(x, w));
    lemma_flip_at(s, w, h, xf, y);
    lemma_flip_at(s, w, h, xf, yu);
    lemma_flip_at(s, w, h, xf, yd);
    lemma_flip_at(s, w, h, sat_dec(xf), y);
    lemma_flip_at(s, w, h, inc_clamped(xf, w), y);
    assert(w - 1 - sat_dec(xf) == xr);
    assert(w - 1 - inc_clamped(xf, w) == xl);
    lemma_flip_at(s, w, h, x, y);
    lemma_flip_at(s, w, h, x, yu);
    lemma_flip_at(s, w, h, x, yd);
    lemma_flip_at(s, w, h, xl, y);
    lemma_flip_at(s, w, h, xr, y);
    let p = s[y * w + x];
    let a = s[yu * w + x];
    let b = s[y * w + xr];
    let c = s[y * w + xl];
    let d = s[yd * w + x];
    assert(src_px(f, w, xf, y) == p);
    assert(src_px(f, w, xf, yu) == a);
    assert(src_px(f, w, inc_clamped(xf, w), y) == c);
    assert(src_px(f, w, sat_dec(xf), y) == b);
    assert(src_px(f, w, xf, yd) == d);
    assert(same(a, b) == (a == b) && same(a, c) == (a == c) && same(b, d) == (b == d)
        && same(c, d) == (c == d) && same(b, a) == (b == a) && same(c, a) == (c == a)
        && same(d, b) == (d == b) && same(d, c) == (d == c));
    assert(adv_mame_2x_block(f, w, h, xf, y) =~= seq![
        adv_mame_2x_block(s, w, h, x, y)[1],
        adv_mame_2x_block(s, w, h, x, y)[0],
        adv_mame_2x_block(s, w, h, x, y)[3],
        adv_mame_2x_block(s, w, h, x, y)[2],
    ]);
}

/// AdvMAME2x (EPX) treats left and right alike: upscaling the mirrored image gives the
/// mirrored upscaled image, where `==` on the image's pixels means that they are the same.
pub proof fn lemma_adv_mame_2x_mirror<T: PartialEq>(s: Seq<T>, w: int, h: int)
    requires
        w > 0,
        h > 0,
        s.len() == w * h,
        forall|i: int, j: int|
            0 <= i < s.len() && 0 <= j < s.len() ==> (#[trigger] same(s[i], s[j]) <==> s[i] == s[j]),
    ensures
        adv_mame_2x_spec(flip_columns(s, w), w, h) == flip_columns(adv_mame_2x_spec(s, w, h), 2 * w),
{
    let f = flip_columns(s, w);
    let out = adv_mame_2x_spec(s, w, h);
    let fout = adv_mame_2x_spec(f, w, h);
    let row = 2 * w;
    assert(fout.len() == out.len());
    assert forall|k: int| 0 <= k < fout.len() implies #[trigger] fout[k] == flip_columns(out, row)[k] by {
        assert(0 <= 2 * w * (2 * h)) by (nonlinear_arith)
            requires
                w > 0,
                h > 0,
        ;
        lemma_index_of_block(k, row, 2);
        lemma_block_in_image(k, w, h, 2);
        let r = k / row;
        let col = k % row;
        let m = r * row + (row - 1 - col);
        vstd::arithmetic::div_mod::lemma_fundamental_div_mod(k, row);
        vstd::arithmetic::div_mod::lemma_mod_bound(k, row);
        vstd::arithmetic::div_mod::lemma_fundamental_div_mod_converse(m, row, r, row - 1 - col);
        vstd::arithmetic::div_mod::lemma_fundamental_div_mod(r, 2);
        vstd::arithmetic::div_mod::lemma_div_pos_is_pos(k, row);
        assert(0 <= m < out.len()) by (nonlinear_arith)
            requires
                m == r * row + (row - 1 - col),
                0 <= col < row,
                0 <= r < 2 * h,
                row == 2 * w,
                out.len() == 2 * w * (2 * h),
        ;
        let (bx, by) = block_of(k, row, 2);
        let dx = col % 2;
        let dy = r % 2;
        vstd::arithmetic::div_mod::lemma_fundamental_div_mod(col, 2);
        vstd::arithmetic::div_mod::lemma_fundamental_div_mod_converse(row - 1 - col, 2, w - 1 - bx, 1 - dx);
        assert(block_of(m, row, 2) == (w - 1 - bx, by));
        assert(offset_in_block(m, row, 2) == dy * 2 + (1 - dx));
        lemma_adv_mame_2x_block_mirror(s, w, h, w - 1 - bx, by);
        assert(flip_columns(out, row)[k] == out[m]);
    }
    assert(fout =~= flip_columns(out, row));
}


/// AdvMAME2x (EPX), pixel by pixel, for the comparison table `t` of each source pixel's 3 x 3
/// neighbourhood (neighbours 1, 3, 5, 7 are above, left, right and below; 4 is the source
/// pixel `P`). Each pixel of the block takes the edge neighbour its corner points to (above
/// for the top left pixel) exactly where the two edge neighbours beside that corner compare
/// equal and neither compares equal to the edge neighbour across from the other (for the top
/// left pixel: above == left, left != below, above != right); otherwise it is `P`.
pub proof fn lemma_adv_mame_2x_pixels<T>(s: Seq<T>, w: int, h: int, o: Seq<Vec<bool>>)
    requires
        w > 0,
        h > 0,
    ensures
        forall|x: int, y: int|
            0 <= x < w && 0 <= y < h ==> {
                let t = #[trigger] o[y * w + x]@;
                let r = adv_mame_2x_by(s, w, h, o);
                &&& (table_eq(t, 1, 3) && !table_eq(t, 3, 7) && !table_eq(t, 1, 5)) ==> block_pixel(r, w, 2, x, y, 0, 0) == nb3(s, w, h, x, y, 1)
                &&& !(table_eq(t, 1, 3) && !table_eq(t, 3, 7) && !table_eq(t, 1, 5)) ==> block_pixel(r, w, 2, x, y, 0, 0) == nb3(s, w, h, x, y, 4)
                &&& (table_eq(t, 1, 5) && !table_eq(t, 1, 3) && !table_eq(t, 5, 7)) ==> block_pixel(r, w, 2, x, y, 1, 0) == nb3(s, w, h, x, y, 5)
                &&& !(table_eq(t, 1, 5) && !table_eq(t, 1, 3) && !table_eq(t, 5, 7)) ==> block_pixel(r, w, 2, x, y, 1, 0) == nb3(s, w, h, x, y, 4)
                &&& (table_eq(t, 3, 7) && !table_eq(t, 1, 3) && !table_eq(t, 5, 7)) ==> block_pixel(r, w, 2, x, y, 0, 1) == nb3(s, w, h, x, y, 3)
                &&& !(table_eq(t, 3, 7) && !table_eq(t, 1, 3) && !table_eq(t, 5, 7)) ==> block_pixel(r, w, 2, x, y, 0, 1) == nb3(s, w, h, x, y, 4)
                &&& (table_eq(t, 5, 7) && !table_eq(t, 1, 5) && !table_eq(t, 3, 7)) ==> block_pixel(r, w, 2, x, y, 1, 1) == nb3(s, w, h, x, y, 7)
                &&& !(table_eq(t, 5, 7) && !table_eq(t, 1, 5) && !table_eq(t, 3, 7)) ==> block_pixel(r, w, 2, x, y, 1, 1) == nb3(s, w, h, x, y, 4)
            },
{
    let f = |x: int, y: int| adv_mame_2x_block_by(s, w, h, x, y, o[y * w + x]@);
    assert forall|x: int, y: int| 0 <= x < w && 0 <= y < h implies {
        let t = #[trigger] o[y * w + x]@;
        let r = adv_mame_2x_by(s, w, h, o);
        &&& (table_eq(t, 1, 3) && !table_eq(t, 3, 7) && !table_eq(t, 1, 5)) ==> block_pixel(r, w, 2, x, y, 0, 0) == nb3(s, w, h, x, y, 1)
        &&& !(table_eq(t, 1, 3) && !table_eq(t, 3, 7) && !table_eq(t, 1, 5)) ==> block_pixel(r, w, 2, x, y, 0, 0) == nb3(s, w, h, x, y, 4)
        &&& (table_eq(t, 1, 5) && !table_eq(t, 1, 3) && !table_eq(t, 5, 7)) ==> block_pixel(r, w, 2, x, y, 1, 0) == nb3(s, w, h, x, y, 5)
        &&& !(table_eq(t, 1, 5) && !table_eq(t, 1, 3) && !table_eq(t, 5, 7)) ==> block_pixel(r, w, 2, x, y, 1, 0) == nb3(s, w, h, x, y, 4)
        &&& (table_eq(t, 3, 7) && !table_eq(t, 1, 3) && !table_eq(t, 5, 7)) ==> block_pixel(r, w, 2, x, y, 0, 1) == nb3(s, w, h, x, y, 3)
        &&& !(table_eq(t, 3, 7) && !table_eq(t, 1, 3) && !table_eq(t, 5, 7)) ==> block_pixel(r, w, 2, x, y, 0, 1) == nb3(s, w, h, x, y, 4)
        &&& (table_eq(t, 5, 7) && !table_eq(t, 1, 5) && !table_eq(t, 3, 7)) ==> block_pixel(r, w, 2, x, y, 1, 1) == nb3(s, w, h, x, y, 7)
        &&& !(table_eq(t, 5, 7) && !table_eq(t, 1, 5) && !table_eq(t, 3, 7)) ==> block_pixel(r, w, 2, x, y, 1, 1) == nb3(s, w, h, x, y, 4)
    } by {
        lemma_upscaled_at(f, w, h, 2, x, y, 0, 0);
        lemma_upscaled_at(f, w, h, 2, x, y, 1, 0);
        lemma_upscaled_at(f, w, h, 2, x, y, 0, 1);
        lemma_upscaled_at(f, w, h, 2, x, y, 1, 1);
    }
}


/// AdvMAME3x (Scale3x), pixel by pixel, for the comparison table `t` of each source pixel's
/// 3 x 3 neighbourhood (`A` ..= `I` are neighbours 0 ..= 8 row by row, `E` the source pixel).
/// A corner of the block takes an edge neighbour only where the two edge neighbours beside it
/// compare equal and the edge neighbours across do not (for the top left corner: B == D,
/// D != H and B != F, and then it is D); so where B == F the top left corner is `E`. Each edge
/// pixel takes its edge neighbour only where one of the two corners beside it would, and the
/// diagonal neighbour across from it does not compare equal to `E`. The centre is `E`.
pub proof fn lemma_adv_mame_3x_pixels<T>(s: Seq<T>, w: int, h: int, o: Seq<Vec<bool>>)
    requires
        w > 0,
        h > 0,
    ensures
        forall|x: int, y: int|
            0 <= x < w && 0 <= y < h ==> {
                let t = #[trigger] o[y * w + x]@;
                let r = adv_mame_3x_by(s, w, h, o);
                &&& (table_eq(t, 1, 3) && !table_eq(t, 3, 7) && !table_eq(t, 1, 5)) ==> block_pixel(r, w, 3, x, y, 0, 0) == nb3(s, w, h, x, y, 3)
                &&& !(table_eq(t, 1, 3) && !table_eq(t, 3, 7) && !table_eq(t, 1, 5)) ==> block_pixel(r, w, 3, x, y, 0, 0) == nb3(s, w, h, x, y, 4)
                &&& ((table_eq(t, 1, 3) && !table_eq(t, 3, 7) && !table_eq(t, 1, 5) && !table_eq(t, 2, 4)) || (table_eq(t, 1, 5) && !table_eq(t, 1, 3) && !table_eq(t, 5, 7) && !table_eq(t, 0, 4))) ==> block_pixel(r, w, 3, x, y, 1, 0) == nb3(s, w, h, x, y, 1)
                &&& !((table_eq(t, 1, 3) && !table_eq(t, 3, 7) && !table_eq(t, 1, 5) && !table_eq(t, 2, 4)) || (table_eq(t, 1, 5) && !table_eq(t, 1, 3) && !table_eq(t, 5, 7) && !table_eq(t, 0, 4))) ==> block_pixel(r, w, 3, x, y, 1, 0) == nb3(s, w, h, x, y, 4)
                &&& (table_eq(t, 1, 5) && !table_eq(t, 1, 3) && !table_eq(t, 5, 7)) ==> block_pixel(r, w, 3, x, y, 2, 0) == nb3(s, w, h, x, y, 5)
                &&& !(table_eq(t, 1, 5) && !table_eq(t, 1, 3) && !table_eq(t, 5, 7)) ==> block_pixel(r, w, 3, x, y, 2, 0) == nb3(s, w, h, x, y, 4)
                &&& ((table_eq(t, 3, 7) && !table_eq(t, 5, 7) && !table_eq(t, 1, 3) && !table_eq(t, 0, 4)) || (table_eq(t, 1, 3) && !table_eq(t, 3, 7) && !table_eq(t, 1, 5) && !table_eq(t, 4, 6))) ==> block_pixel(r, w, 3, x, y, 0, 1) == nb3(s, w, h, x, y, 3)
                &&& !((table_eq(t, 3, 7) && !table_eq(t, 5, 7) && !table_eq(t, 1, 3) && !table_eq(t, 0, 4)) || (table_eq(t, 1, 3) && !table_eq(t, 3, 7) && !table_eq(t, 1, 5) && !table_eq(t, 4, 6))) ==> block_pixel(r, w, 3, x, y, 0, 1) == nb3(s, w, h, x, y, 4)
                &&& block_pixel(r, w, 3, x, y, 1, 1) == nb3(s, w, h, x, y, 4)
                &&& ((table_eq(t, 1, 5) && !table_eq(t, 1, 3) && !table_eq(t, 5, 7) && !table_eq(t, 4, 8)) || (table_eq(t, 5, 7) && !table_eq(t, 1, 5) && !table_eq(t, 3, 7) && !table_eq(t, 2, 4))) ==> block_pixel(r, w, 3, x, y, 2, 1) == nb3(s, w, h, x, y, 5)
                &&& !((table_eq(t, 1, 5) && !table_eq(t, 1, 3) && !table_eq(t, 5, 7) && !table_eq(t, 4, 8)) || (table_eq(t, 5, 7) && !table_eq(t, 1, 5) && !table_eq(t, 3, 7) && !table_eq(t, 2, 4))) ==> block_pixel(r, w, 3, x, y, 2, 1) == nb3(s, w, h, x, y, 4)
                &&& (table_eq(t, 3, 7) && !table_eq(t, 5, 7) && !table_eq(t, 1, 3)) ==> block_pixel(r, w, 3, x, y, 0, 2) == nb3(s, w, h, x, y, 3)
                &&& !(table_eq(t, 3, 7) && !table_eq(t, 5, 7) && !table_eq(t, 1, 3)) ==> block_pixel(r, w, 3, x, y, 0, 2) == nb3(s, w, h, x, y, 4)
                &&& ((table_eq(t, 5, 7) && !table_eq(t, 1, 5) && !table_eq(t, 3, 7) && !table_eq(t, 4, 6)) || (table_eq(t, 3, 7) && !table_eq(t, 5, 7) && !table_eq(t, 1, 3) && !table_eq(t, 4, 8))) ==> block_pixel(r, w, 3, x, y, 1, 2) == nb3(s, w, h, x, y, 7)
                &&& !((table_eq(t, 5, 7) && !table_eq(t, 1, 5) && !table_eq(t, 3, 7) && !table_eq(t, 4, 6)) || (table_eq(t, 3, 7) && !table_eq(t, 5, 7) && !table_eq(t, 1, 3) && !table_eq(t, 4, 8))) ==> block_pixel(r, w, 3, x, y, 1, 2) == nb3(s, w, h, x, y, 4)
                &&& (table_eq(t, 5, 7) && !table_eq(t, 1, 5) && !table_eq(t, 3, 7)) ==> block_pixel(r, w, 3, x, y, 2, 2) == nb3(s, w, h, x, y, 5)
                &&& !(table_eq(t, 5, 7) && !table_eq(t, 1, 5) && !table_eq(t, 3, 7)) ==> block_pixel(r, w, 3, x, y, 2, 2) == nb3(s, w, h, x, y, 4)
            },
{
    let f = |x: int, y: int| adv_mame_3x_block_by(s, w, h, x, y, o[y * w + x]@);
    assert forall|x: int, y: int| 0 <= x < w && 0 <= y < h implies {
        let t = #[trigger] o[y * w + x]@;
        let r = adv_mame_3x_by(s, w, h, o);
        &&& (table_eq(t, 1, 3) && !table_eq(t, 3, 7) && !table_eq(t, 1, 5)) ==> block_pixel(r, w, 3, x, y, 0, 0) == nb3(s, w, h, x, y, 3)
        &&& !(table_eq(t, 1, 3) && !table_eq(t, 3, 7) && !table_eq(t, 1, 5)) ==> block_pixel(r, w, 3, x, y, 0, 0) == nb3(s, w, h, x, y, 4)
        &&& ((table_eq(t, 1, 3) && !table_eq(t, 3, 7) && !table_eq(t, 1, 5) && !table_eq(t, 2, 4)) || (table_eq(t, 1, 5) && !table_eq(t, 1, 3) && !table_eq(t, 5, 7) && !table_eq(t, 0, 4))) ==> block_pixel(r, w, 3, x, y, 1, 0) == nb3(s, w, h, x, y, 1)
        &&& !((table_eq(t, 1, 3) && !table_eq(t, 3, 7) && !table_eq(t, 1, 5) && !table_eq(t, 2, 4)) || (table_eq(t, 1, 5) && !table_eq(t, 1, 3) && !table_eq(t, 5, 7) && !table_eq(t, 0, 4))) ==> block_pixel(r, w, 3, x, y, 1, 0) == nb3(s, w, h, x, y, 4)
        &&& (table_eq(t, 1, 5) && !table_eq(t, 1, 3) && !table_eq(t, 5, 7)) ==> block_pixel(r, w, 3, x, y, 2, 0) == nb3(s, w, h, x, y, 5)
        &&& !(table_eq(t, 1, 5) && !table_eq(t, 1, 3) && !table_eq(t, 5, 7)) ==> block_pixel(r, w, 3, x, y, 2, 0) == nb3(s, w, h, x, y, 4)
        &&& ((table_eq(t, 3, 7) && !table_eq(t, 5, 7) && !table_eq(t, 1, 3) && !table_eq(t, 0, 4)) || (table_eq(t, 1, 3) && !table_eq(t, 3, 7) && !table_eq(t, 1, 5) && !table_eq(t, 4, 6))) ==> block_pixel(r, w, 3, x, y, 0, 1) == nb3(s, w, h, x, y, 3)
        &&& !((table_eq(t, 3, 7) && !table_eq(t, 5, 7) && !table_eq(t, 1, 3) && !table_eq(t, 0, 4)) || (table_eq(t, 1, 3) && !table_eq(t, 3, 7) && !table_eq(t, 1, 5) && !table_eq(t, 4, 6))) ==> block_pixel(r, w, 3, x, y, 0, 1) == nb3(s, w, h, x, y, 4)
        &&& block_pixel(r, w, 3, x, y, 1, 1) == nb3(s, w, h, x, y, 4)
        &&& ((table_eq(t, 1, 5) && !table_eq(t, 1, 3) && !table_eq(t, 5, 7) && !table_eq(t, 4, 8)) || (table_eq(t, 5, 7) && !table_eq(t, 1, 5) && !table_eq(t, 3, 7) && !table_eq(t, 2, 4))) ==> block_pixel(r, w, 3, x, y, 2, 1) == nb3(s, w, h, x, y, 5)
        &&& !((table_eq(t, 1, 5) && !table_eq(t, 1, 3) && !table_eq(t, 5, 7) && !table_eq(t, 4, 8)) || (table_eq(t, 5, 7) && !table_eq(t, 1, 5) && !table_eq(t, 3, 7) && !table_eq(t, 2, 4))) ==> block_pixel(r, w, 3, x, y, 2, 1) == nb3(s, w, h, x, y, 4)
        &&& (table_eq(t, 3, 7) && !table_eq(t, 5, 7) && !table_eq(t, 1, 3)) ==> block_pixel(r, w, 3, x, y, 0, 2) == nb3(s, w, h, x, y, 3)
        &&& !(table_eq(t, 3, 7) && !table_eq(t, 5, 7) && !table_eq(t, 1, 3)) ==> block_pixel(r, w, 3, x, y, 0, 2) == nb3(s, w, h, x, y, 4)
        &&& ((table_eq(t, 5, 7) && !table_eq(t, 1, 5) && !table_eq(t, 3, 7) && !table_eq(t, 4, 6)) || (table_eq(t, 3, 7) && !table_eq(t, 5, 7) && !table_eq(t, 1, 3) && !table_eq(t, 4, 8))) ==> block_pixel(r, w, 3, x, y, 1, 2) == nb3(s, w, h, x, y, 7)
        &&& !((table_eq(t, 5, 7) && !table_eq(t, 1, 5) && !table_eq(t, 3, 7) && !table_eq(t, 4, 6)) || (table_eq(t, 3, 7) && !table_eq(t, 5, 7) && !table_eq(t, 1, 3) && !table_eq(t, 4, 8))) ==> block_pixel(r, w, 3, x, y, 1, 2) == nb3(s, w, h, x, y, 4)
        &&& (table_eq(t, 5, 7) && !table_eq(t, 1, 5) && !table_eq(t, 3, 7)) ==> block_pixel(r, w, 3, x, y, 2, 2) == nb3(s, w, h, x, y, 5)
        &&& !(table_eq(t, 5, 7) && !table_eq(t, 1, 5) && !table_eq(t, 3, 7)) ==> block_pixel(r, w, 3, x, y, 2, 2) == nb3(s, w, h, x, y, 4)
    } by {
        lemma_upscaled_at(f, w, h, 3, x, y, 0, 0);
        lemma_upscaled_at(f, w, h, 3, x, y, 1, 0);
        lemma_upscaled_at(f, w, h, 3, x, y, 2, 0);
        lemma_upscaled_at(f, w, h, 3, x, y, 0, 1);
        lemma_upscaled_at(f, w, h, 3, x, y, 1, 1);
        lemma_upscaled_at(f, w, h, 3, x, y, 2, 1);
        lemma_upscaled_at(f, w, h, 3, x, y, 0, 2);
        lemma_upscaled_at(f, w, h, 3, x, y, 1, 2);
        lemma_upscaled_at(f, w, h, 3, x, y, 2, 2);
    }
}

} // verus!
