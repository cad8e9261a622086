use vstd::prelude::*;
use vstd::std_specs::cmp::PartialEqSpec;

use super::util::{
    all_pixels, lemma_neighbours_uniform, lemma_upscaled_uniform,
    block_done, block_of, each_of, inc_clamped, lemma_block_in_image, lemma_centre_of_3x,
    block_pixel, is_same_table, lemma_index_of_block, lemma_upscaled_at, lemma_upscaled_ext, nb3, nearest_spec, neighbour_comparisons,
    offset_in_block, same, table_eq, table_eq_at, sat_dec, src_px, upscaled, write_2x,
    write_3x,
};
use crate::image::{Image, Size};

verus! {

/// The 2 x 2 block of Eagle 2x for source pixel `(x, y)` of the `w` x `h` pixels `s`.
///
/// ```text
/// A B C
/// D E F
/// G H I
/// ```
pub open spec fn eagle_2x_block<T: PartialEq>(s: Seq<T>, w: int, ht: int, x: int, y: int) -> Seq<T> {
    let a = src_px(s, w, sat_dec(x), sat_dec(y));
    let b = src_px(s, w, x, sat_dec(y));
    let c = src_px(s, w, inc_clamped(x, w), sat_dec(y));
    let d = src_px(s, w, sat_dec(x), y);
    let e = src_px(s, w, x, y);
    let f = src_px(s, w, inc_clamped(x, w), y);
    let g = src_px(s, w, sat_dec(x), inc_clamped(y, ht));
    let h = src_px(s, w, x, inc_clamped(y, ht));
    let i = src_px(s, w, inc_clamped(x, w), inc_clamped(y, ht));
    seq![
        if same(d, a) && same(a, b) { a } else { e },
        if same(b, c) && same(c, f) { c } else { e },
        if same(h, g) && same(g, d) { g } else { e },
        if same(f, i) && same(i, h) { i } else { e },
    ]
}

/// The 2 x 2 block of `eagle_2x` for source pixel `(x, y)` of the `w` x `h` pixels `s`, where
/// `t` is the comparison table of its 3 x 3 neighbourhood (see `nb3`): `eagle_2x_block` with
/// each comparison read from `t`.
pub open spec fn eagle_2x_block_by<T>(s: Seq<T>, w: int, ht: int, x: int, y: int, t: Seq<bool>) -> Seq<T> {
    let a = src_px(s, w, sat_dec(x), sat_dec(y));
    let b = src_px(s, w, x, sat_dec(y));
    let c = src_px(s, w, inc_clamped(x, w), sat_dec(y));
    let d = src_px(s, w, sat_dec(x), y);
    let e = src_px(s, w, x, y);
    let f = src_px(s, w, inc_clamped(x, w), y);
    let g = src_px(s, w, sat_dec(x), inc_clamped(y, ht));
    let h = src_px(s, w, x, inc_clamped(y, ht));
    let i = src_px(s, w, inc_clamped(x, w), inc_clamped(y, ht));
    seq![
        if table_eq(t, 3, 0) && table_eq(t, 0, 1) { a } else { e },
        if table_eq(t, 1, 2) && table_eq(t, 2, 5) { c } else { e },
        if table_eq(t, 7, 6) && table_eq(t, 6, 3) { g } else { e },
        if table_eq(t, 5, 8) && table_eq(t, 8, 7) { i } else { e },
    ]
}

/// The `eagle_2x` upscaling of the `w` x `h` pixels `s`, where `o[y * w + x]` is the comparison
/// table of the 3 x 3 neighbourhood of pixel `(x, y)`.
pub open spec fn eagle_2x_by<T>(s: Seq<T>, w: int, h: int, o: Seq<Vec<bool>>) -> Seq<T> {
    upscaled(|x: int, y: int| eagle_2x_block_by(s, w, h, x, y, o[y * w + x]@), w, h, 2)
}

/// Where the comparison tables are those of `==` with a spec, `eagle_2x_by` is `eagle_2x_spec`.
proof fn lemma_eagle_2x_by_same<T: PartialEq>(s: Seq<T>, w: int, h: int, o: Seq<Vec<bool>>)
    requires
        w >= 0,
        h >= 0,
        forall|x: int, y: int|
            0 <= x < w && 0 <= y < h ==> is_same_table(#[trigger] o[y * w + x]@, s, w, h, x, y),
    ensures
        eagle_2x_by(s, w, h, o) == eagle_2x_spec(s, w, h),
{
    assert forall|x: int, y: int| 0 <= x < w && 0 <= y < h implies #[trigger] eagle_2x_block_by(
        s,
        w,
        h,
        x,
        y,
        o[y * w + x]@,
    ) == eagle_2x_block(s, w, h, x, y) by {
        assert(is_same_table(o[y * w + x]@, s, w, h, x, y));
        assert(eagle_2x_block_by(s, w, h, x, y, o[y * w + x]@) =~= eagle_2x_block(s, w, h, x, y));
    }
    lemma_upscaled_ext(
        |x: int, y: int| eagle_2x_block_by(s, w, h, x, y, o[y * w + x]@),
        |x: int, y: int| eagle_2x_block(s, w, h, x, y),
        w,
        h,
        2,
    );
}

/// The Eagle 2x upscaling of the `w` x `h` pixels `s`.
pub open spec fn eagle_2x_spec<T: PartialEq>(s: Seq<T>, w: int, h: int) -> Seq<T> {
    upscaled(|x: int, y: int| eagle_2x_block(s, w, h, x, y), w, h, 2)
}

/// The 2x upscaled image of the `w` x `h` pixels `s` in which each pixel of a block is the
/// diagonal neighbour that Eagle may put there in place of the source pixel.
pub open spec fn eagle_2x_other<T>(s: Seq<T>, w: int, h: int) -> Seq<T> {
    upscaled(
        |x: int, y: int|
            seq![
                src_px(s, w, sat_dec(x), sat_dec(y)),
                src_px(s, w, inc_clamped(x, w), sat_dec(y)),
                src_px(s, w, sat_dec(x), inc_clamped(y, h)),
                src_px(s, w, inc_clamped(x, w), inc_clamped(y, h)),
            ],
        w,
        h,
        2,
    )
}

/// `eagle_2x` where `o` holds the comparison table of the 3 x 3 neighbourhood of each pixel
/// (as `neighbour_comparisons` computes it): the result is `eagle_2x_by` over those tables,
/// whatever `==` does on `T`.
pub fn eagle_2x_with<T: Default + Copy>(src: &Image<T>, o: &Vec<Vec<bool>>) -> (r: Image<T>)
    requires
        src.wf(),
        o@.len() == src.spec_size().width * src.spec_size().height,
        forall|k: int| 0 <= k < o@.len() ==> (#[trigger] o@[k])@.len() == 81,
        4 * src.spec_size().width * src.spec_size().height <= usize::MAX,
        2 * src.spec_size().width <= usize::MAX,
        2 * src.spec_size().height <= usize::MAX,
    ensures
        r.wf(),
        r.spec_size().width == 2 * src.spec_size().width,
        r.spec_size().height == 2 * src.spec_size().height,
        each_of(
            r.pixels(),
            nearest_spec(src.pixels(), src.spec_size().width as int, src.spec_size().height as int, 2),
            eagle_2x_other(src.pixels(), src.spec_size().width as int, src.spec_size().height as int),
        ),
        r.pixels() == eagle_2x_by(
            src.pixels(),
            src.spec_size().width as int,
            src.spec_size().height as int,
            o@,
        ),
{
    let w = src.width();
    let ht = src.height();
    proof {
        assert(2 * w * (2 * ht) == 4 * w * ht) by (nonlinear_arith);
    }
    let size = Size::new(w * 2, ht * 2);
    let mut result = Image::from_const(size, T::default());
    let src = src.data();
    let n = src.len();
    let dest = result.data_mut();
    let ghost row = 2 * w as int;
    let ghost target = eagle_2x_by(src@, w as int, ht as int, o@);
    let ghost near = nearest_spec(src@, w as int, ht as int, 2);
    let ghost other = eagle_2x_other(src@, w as int, ht as int);
    proof {
        assert forall|k: int| 0 <= k < dest@.len() implies !block_done(block_of(k, row, 2), 0, 0) by {
            assert(w > 0 && ht > 0) by (nonlinear_arith)
                requires
                    0 <= k < dest@.len(),
                    dest@.len() == 2 * w * (2 * ht),
            ;
            lemma_block_in_image(k, w as int, ht as int, 2);
        }
    }
    let mut y: usize = 0;
    while y < ht
        invariant
            size.width == 2 * w,
            size.height == 2 * ht,
            row == 2 * w,
            src@.len() == w * ht,
            n == src@.len(),
            dest@.len() == 2 * w * (2 * ht),
            target == eagle_2x_by(src@, w as int, ht as int, o@),
                o@.len() == w * ht,
                forall|k: int| 0 <= k < o@.len() ==> (#[trigger] o@[k])@.len() == 81,
            target.len() == dest@.len(),
            y <= ht,
            forall|k: int|
                0 <= k < dest@.len() && block_done(block_of(k, row, 2), 0, y as int)
                    ==> #[trigger] dest@[k] == target[k],
            near == nearest_spec(src@, w as int, ht as int, 2),
            other == eagle_2x_other(src@, w as int, ht as int),
            forall|k: int|
                0 <= k < dest@.len() && block_done(block_of(k, row, 2), 0, y as int)
                    ==> #[trigger] dest@[k] == near[k] || dest@[k] == other[k],
        decreases ht - y,
    {
        let y_m1 = if y > 0 { y - 1 } else { 0 };
        let y_p1 = if y + 1 <= ht - 1 { y + 1 } else { ht - 1 };
        let mut x: usize = 0;
        while x < w
            invariant
                row == 2 * w,
                src@.len() == w * ht,
                n == src@.len(),
                dest@.len() == 2 * w * (2 * ht),
                target == eagle_2x_by(src@, w as int, ht as int, o@),
                o@.len() == w * ht,
                forall|k: int| 0 <= k < o@.len() ==> (#[trigger] o@[k])@.len() == 81,
                target.len() == dest@.len(),
                y < ht,
                x <= w,
                y_m1 == sat_dec(y as int),
                y_p1 == inc_clamped(y as int, ht as int),
                forall|k: int|
                    0 <= k < dest@.len() && block_done(block_of(k, row, 2), x as int, y as int)
                        ==> #[trigger] dest@[k] == target[k],
                near == nearest_spec(src@, w as int, ht as int, 2),
                other == eagle_2x_other(src@, w as int, ht as int),
                forall|k: int|
                    0 <= k < dest@.len() && block_done(block_of(k, row, 2), x as int, y as int)
                        ==> #[trigger] dest@[k] == near[k] || dest@[k] == other[k],
            decreases w - x,
        {
            let x_m1 = if x > 0 { x - 1 } else { 0 };
            let x_p1 = if x + 1 <= w - 1 { x + 1 } else { w - 1 };
            proof {
                assert(y * w + w <= ht * w) by (nonlinear_arith)
                    requires y < ht;
                assert(y_m1 * w + w <= ht * w) by (nonlinear_arith)
                    requires y_m1 < ht;
                assert(y_p1 * w + w <= ht * w) by (nonlinear_arith)
                    requires y_p1 < ht;
                vstd::arithmetic::mul::lemma_mul_is_commutative(w as int, ht as int);
            }

            // A B C
            // D E F
            // G H I
            let a = src[y_m1 * w + x_m1];
            let b = src[y_m1 * w + x];
            let c = src[y_m1 * w + x_p1];
            let d = src[y * w + x_m1];
            let e = src[y * w + x];
            let f = src[y * w + x_p1];
            let g = src[y_p1 * w + x_m1];
            let h = src[y_p1 * w + x];
            let i = src[y_p1 * w + x_p1];

            let t = &o[y * w + x];
            let mut r1 = e;
            let mut r2 = e;
            let mut r3 = e;
            let mut r4 = e;

            if table_eq_at(t, 3, 0) && table_eq_at(t, 0, 1) {
                r1 = a;
            }
            if table_eq_at(t, 1, 2) && table_eq_at(t, 2, 5) {
                r2 = c;
            }
            if table_eq_at(t, 7, 6) && table_eq_at(t, 6, 3) {
                r3 = g;
            }
            if table_eq_at(t, 5, 8) && table_eq_at(t, 8, 7) {
                r4 = i;
            }

            proof {
                assert((y * 2 + 2) * (w * 2) <= dest@.len()) by (nonlinear_arith)
                    requires y < ht, dest@.len() == 2 * w * (2 * ht);
            }
            write_2x(dest, w, x, y, [r1, r2, r3, r4]);
            proof {
                let out = [r1, r2, r3, r4]@;
                let ob = seq![a, c, g, i];
                assert forall|j: int| 0 <= j < 4 implies out[j] == e || out[j] == #[trigger] ob[j] by {
                    assert(j == 0 || j == 1 || j == 2 || j == 3);
                }
                assert forall|k: int|
                    0 <= k < dest@.len() && block_done(block_of(k, row, 2), x + 1, y as int)
                        implies #[trigger] dest@[k] == near[k] || dest@[k] == other[k] by {
                    lemma_block_in_image(k, w as int, ht as int, 2);
                    lemma_index_of_block(k, row, 2);
                    if block_of(k, row, 2) == (x as int, y as int) {
                        assert(ob[offset_in_block(k, row, 2)] == other[k]);
                    }
                }
                {
                    let blk = eagle_2x_block_by(src@, w as int, ht as int, x as int, y as int, o@[y * w + x]@);
                    assert([r1, r2, r3, r4]@ =~= blk);
                    assert forall|k: int|
                        0 <= k < dest@.len() && block_done(block_of(k, row, 2), x + 1, y as int)
                            implies #[trigger] dest@[k] == target[k] by {
                        lemma_block_in_image(k, w as int, ht as int, 2);
                    }
                }
            }
            x = x + 1;
        }
        y = y + 1;
    }
    proof {
        assert forall|k: int| 0 <= k < dest@.len() implies #[trigger] dest@[k] == near[k]
            || dest@[k] == other[k] by {
            assert(w > 0) by (nonlinear_arith)
                requires
                    0 <= k < dest@.len(),
                    dest@.len() == 2 * w * (2 * ht),
            ;
            lemma_block_in_image(k, w as int, ht as int, 2);
        }
        {
            assert forall|k: int| 0 <= k < dest@.len() implies #[trigger] dest@[k] == target[k] by {
                assert(w > 0) by (nonlinear_arith)
                    requires
                        0 <= k < dest@.len(),
                        dest@.len() == 2 * w * (2 * ht),
                ;
                lemma_block_in_image(k, w as int, ht as int, 2);
            }
            assert(dest@ =~= target);
        }
    }
    result
}

/// Upscales the image 2x with the Eagle pixel art algorithm.
///
/// Whatever `==` does on `T`, each pixel of the block of a source pixel is that pixel or the
/// diagonal neighbour its corner points to.
pub fn eagle_2x<T: Default + Copy + PartialEq>(src: &Image<T>) -> (r: Image<T>)
    requires
        src.wf(),
        4 * src.spec_size().width * src.spec_size().height <= usize::MAX,
        2 * src.spec_size().width <= usize::MAX,
        2 * src.spec_size().height <= usize::MAX,
    ensures
        r.wf(),
        r.spec_size().width == 2 * src.spec_size().width,
        r.spec_size().height == 2 * src.spec_size().height,
        each_of(
            r.pixels(),
            nearest_spec(src.pixels(), src.spec_size().width as int, src.spec_size().height as int, 2),
            eagle_2x_other(src.pixels(), src.spec_size().width as int, src.spec_size().height as int),
        ),
        T::obeys_eq_spec() ==> r.pixels() == eagle_2x_spec(
            src.pixels(),
            src.spec_size().width as int,
            src.spec_size().height as int,
        ),
{
    let o = neighbour_comparisons(src);
    let r = eagle_2x_with(src, &o);
    proof {
        if T::obeys_eq_spec() {
            lemma_eagle_2x_by_same(
                src.pixels(),
                src.spec_size().width as int,
                src.spec_size().height as int,
                o@,
            );
        }
    }
    r
}


/// The 3 x 3 block of Eagle 3x for source pixel `(x, y)` of the `w` x `h` pixels `s`.
///
/// ```text
/// A B C
/// D E F
/// G H I
/// ```
pub open spec fn eagle_3x_block<T: PartialEq>(s: Seq<T>, w: int, ht: int, x: int, y: int) -> Seq<T> {
    let a = src_px(s, w, sat_dec(x), sat_dec(y));
    let b = src_px(s, w, x, sat_dec(y));
    let c = src_px(s, w, inc_clamped(x, w), sat_dec(y));
    let d = src_px(s, w, sat_dec(x), y);
    let e = src_px(s, w, x, y);
    let f = src_px(s, w, inc_clamped(x, w), y);
    let g = src_px(s, w, sat_dec(x), inc_clamped(y, ht));
    let h = src_px(s, w, x, inc_clamped(y, ht));
    let i = src_px(s, w, inc_clamped(x, w), inc_clamped(y, ht));
    seq![
        if same(d, a) && same(a, b) { a } else { e },
        if same(a, b) && same(b, c) && (same(d, b) || same(b, f)) { b } else { e },
        if same(b, c) && same(c, f) { c } else { e },
        if same(a, d) && same(d, g) && (same(b, d) || same(d, h)) { d } else { e },
        e,
        if same(c, f) && same(f, i) && (same(b, f) || same(f, h)) { f } else { e },
        if same(h, g) && same(g, d) { g } else { e },
        if same(g, h) && same(h, i) && (same(d, h) || same(h, f)) { h } else { e },
        if same(f, i) && same(i, h) { i } else { e },
    ]
}

/// The 3 x 3 block of `eagle_3x` for source pixel `(x, y)` of the `w` x `h` pixels `s`, where
/// `t` is the comparison table of its 3 x 3 neighbourhood (see `nb3`): `eagle_3x_block` with
/// each comparison read from `t`.
pub open spec fn eagle_3x_block_by<T>(s: Seq<T>, w: int, ht: int, x: int, y: int, t: Seq<bool>) -> Seq<T> {
    let a = src_px(s, w, sat_dec(x), sat_dec(y));
    let b = src_px(s, w, x, sat_dec(y));
    let c = src_px(s, w, inc_clamped(x, w), sat_dec(y));
    let d = src_px(s, w, sat_dec(x), y);
    let e = src_px(s, w, x, y);
    let f = src_px(s, w, inc_clamped(x, w), y);
    let g = src_px(s, w, sat_dec(x), inc_clamped(y, ht));
    let h = src_px(s, w, x, inc_clamped(y, ht));
    let i = src_px(s, w, inc_clamped(x, w), inc_clamped(y, ht));
    seq![
        if table_eq(t, 3, 0) && table_eq(t, 0, 1) { a } else { e },
        if table_eq(t, 0, 1) && table_eq(t, 1, 2) && (table_eq(t, 3, 1) || table_eq(t, 1, 5)) { b } else { e },
        if table_eq(t, 1, 2) && table_eq(t, 2, 5) { c } else { e },
        if table_eq(t, 0, 3) && table_eq(t, 3, 6) && (table_eq(t, 1, 3) || table_eq(t, 3, 7)) { d } else { e },
        e,
        if table_eq(t, 2, 5) && table_eq(t, 5, 8) && (table_eq(t, 1, 5) || table_eq(t, 5, 7)) { f } else { e },
        if table_eq(t, 7, 6) && table_eq(t, 6, 3) { g } else { e },
        if table_eq(t, 6, 7) && table_eq(t, 7, 8) && (table_eq(t, 3, 7) || table_eq(t, 7, 5)) { h } else { e },
        if table_eq(t, 5, 8) && table_eq(t, 8, 7) { i } else { e },
    ]
}

/// The `eagle_3x` upscaling of the `w` x `h` pixels `s`, where `o[y * w + x]` is the comparison
/// table of the 3 x 3 neighbourhood of pixel `(x, y)`.
pub open spec fn eagle_3x_by<T>(s: Seq<T>, w: int, h: int, o: Seq<Vec<bool>>) -> Seq<T> {
    upscaled(|x: int, y: int| eagle_3x_block_by(s, w, h, x, y, o[y * w + x]@), w, h, 3)
}

/// Where the comparison tables are those of `==` with a spec, `eagle_3x_by` is `eagle_3x_spec`.
proof fn lemma_eagle_3x_by_same<T: PartialEq>(s: Seq<T>, w: int, h: int, o: Seq<Vec<bool>>)
    requires
        w >= 0,
        h >= 0,
        forall|x: int, y: int|
            0 <= x < w && 0 <= y < h ==> is_same_table(#[trigger] o[y * w + x]@, s, w, h, x, y),
    ensures
        eagle_3x_by(s, w, h, o) == eagle_3x_spec(s, w, h),
{
    assert forall|x: int, y: int| 0 <= x < w && 0 <= y < h implies #[trigger] eagle_3x_block_by(
        s,
        w,
        h,
        x,
        y,
        o[y * w + x]@,
    ) == eagle_3x_block(s, w, h, x, y) by {
        assert(is_same_table(o[y * w + x]@, s, w, h, x, y));
        assert(eagle_3x_block_by(s, w, h, x, y, o[y * w + x]@) =~= eagle_3x_block(s, w, h, x, y));
    }
    lemma_upscaled_ext(
        |x: int, y: int| eagle_3x_block_by(s, w, h, x, y, o[y * w + x]@),
        |x: int, y: int| eagle_3x_block(s, w, h, x, y),
        w,
        h,
        3,
    );
}

/// The Eagle 3x upscaling of the `w` x `h` pixels `s`.
pub open spec fn eagle_3x_spec<T: PartialEq>(s: Seq<T>, w: int, h: int) -> Seq<T> {
    upscaled(|x: int, y: int| eagle_3x_block(s, w, h, x, y), w, h, 3)
}

/// The 3x upscaled image of the `w` x `h` pixels `s` whose block of a source pixel is its
/// 3 x 3 neighbourhood: each pixel of the block is the neighbour that Eagle 3x may put there
/// in place of the source pixel, and the centre is the source pixel.
pub open spec fn eagle_3x_other<T>(s: Seq<T>, w: int, ht: int) -> Seq<T> {
    upscaled(
        |x: int, y: int|
            seq![
                src_px(s, w, sat_dec(x), sat_dec(y)),
                src_px(s, w, x, sat_dec(y)),
                src_px(s, w, inc_clamped(x, w), sat_dec(y)),
                src_px(s, w, sat_dec(x), y),
                src_px(s, w, x, y),
                src_px(s, w, inc_clamped(x, w), y),
                src_px(s, w, sat_dec(x), inc_clamped(y, ht)),
                src_px(s, w, x, inc_clamped(y, ht)),
                src_px(s, w, inc_clamped(x, w), inc_clamped(y, ht)),
            ],
        w,
        ht,
        3,
    )
}

/// `eagle_3x` where `o` holds the comparison table of the 3 x 3 neighbourhood of each pixel
/// (as `neighbour_comparisons` computes it): the result is `eagle_3x_by` over those tables,
/// whatever `==` does on `T`.
pub fn eagle_3x_with<T: Default + Copy>(src: &Image<T>, o: &Vec<Vec<bool>>) -> (r: Image<T>)
    requires
        src.wf(),
        o@.len() == src.spec_size().width * src.spec_size().height,
        forall|k: int| 0 <= k < o@.len() ==> (#[trigger] o@[k])@.len() == 81,
        9 * src.spec_size().width * src.spec_size().height <= usize::MAX,
        3 * src.spec_size().width <= usize::MAX,
        3 * src.spec_size().height <= usize::MAX,
    ensures
        r.wf(),
        r.spec_size().width == 3 * src.spec_size().width,
        r.spec_size().height == 3 * src.spec_size().height,
        each_of(
            r.pixels(),
            nearest_spec(src.pixels(), src.spec_size().width as int, src.spec_size().height as int, 3),
            eagle_3x_other(src.pixels(), src.spec_size().width as int, src.spec_size().height as int),
        ),
        forall|x: int, y: int|
            0 <= x < src.spec_size().width && 0 <= y < src.spec_size().height ==> #[trigger] r.pixels()[(3
                * y + 1) * (3 * src.spec_size().width) + 3 * x + 1] == src.pixels()[y
                * src.spec_size().width + x],
        r.pixels() == eagle_3x_by(
            src.pixels(),
            src.spec_size().width as int,
            src.spec_size().height as int,
            o@,
        ),
{
    let w = src.width();
    let ht = src.height();
    proof {
        assert(3 * w * (3 * ht) == 9 * w * ht) by (nonlinear_arith);
    }
    let size = Size::new(w * 3, ht * 3);
    let mut result = Image::from_const(size, T::default());
    let src = src.data();
    let n = src.len();
    let dest = result.data_mut();
    let ghost row = 3 * w as int;
    let ghost target = eagle_3x_by(src@, w as int, ht as int, o@);
    let ghost near = nearest_spec(src@, w as int, ht as int, 3);
    let ghost other = eagle_3x_other(src@, w as int, ht as int);
    proof {
        assert forall|k: int| 0 <= k < dest@.len() implies !block_done(block_of(k, row, 3), 0, 0) by {
            assert(w > 0 && ht > 0) by (nonlinear_arith)
                requires
                    0 <= k < dest@.len(),
                    dest@.len() == 3 * w * (3 * ht),
            ;
            lemma_block_in_image(k, w as int, ht as int, 3);
        }
    }
    let mut y: usize = 0;
    while y < ht
        invariant
            size.width == 3 * w,
            size.height == 3 * ht,
            row == 3 * w,
            src@.len() == w * ht,
            n == src@.len(),
            dest@.len() == 3 * w * (3 * ht),
            target == eagle_3x_by(src@, w as int, ht as int, o@),
                o@.len() == w * ht,
                forall|k: int| 0 <= k < o@.len() ==> (#[trigger] o@[k])@.len() == 81,
            target.len() == dest@.len(),
            y <= ht,
            forall|k: int|
                0 <= k < dest@.len() && block_done(block_of(k, row, 3), 0, y as int)
                    ==> #[trigger] dest@[k] == target[k],
            near == nearest_spec(src@, w as int, ht as int, 3),
            other == eagle_3x_other(src@, w as int, ht as int),
            forall|k: int|
                0 <= k < dest@.len() && block_done(block_of(k, row, 3), 0, y as int)
                    ==> #[trigger] dest@[k] == near[k] || dest@[k] == other[k],
        decreases ht - y,
    {
        let y_m1 = if y > 0 { y - 1 } else { 0 };
        let y_p1 = if y + 1 <= ht - 1 { y + 1 } else { ht - 1 };
        let mut x: usize = 0;
        while x < w
            invariant
                row == 3 * w,
                src@.len() == w * ht,
                n == src@.len(),
                dest@.len() == 3 * w * (3 * ht),
                target == eagle_3x_by(src@, w as int, ht as int, o@),
                o@.len() == w * ht,
                forall|k: int| 0 <= k < o@.len() ==> (#[trigger] o@[k])@.len() == 81,
                target.len() == dest@.len(),
                y < ht,
                x <= w,
                y_m1 == sat_dec(y as int),
                y_p1 == inc_clamped(y as int, ht as int),
                forall|k: int|
                    0 <= k < dest@.len() && block_done(block_of(k, row, 3), x as int, y as int)
                        ==> #[trigger] dest@[k] == target[k],
                near == nearest_spec(src@, w as int, ht as int, 3),
                other == eagle_3x_other(src@, w as int, ht as int),
                forall|k: int|
                    0 <= k < dest@.len() && block_done(block_of(k, row, 3), x as int, y as int)
                        ==> #[trigger] dest@[k] == near[k] || dest@[k] == other[k],
            decreases w - x,
        {
            let x_m1 = if x > 0 { x - 1 } else { 0 };
            let x_p1 = if x + 1 <= w - 1 { x + 1 } else { w - 1 };
            proof {
                assert(y * w + w <= ht * w) by (nonlinear_arith)
                    requires y < ht;
                assert(y_m1 * w + w <= ht * w) by (nonlinear_arith)
                    requires y_m1 < ht;
                assert(y_p1 * w + w <= ht * w) by (nonlinear_arith)
                    requires y_p1 < ht;
                vstd::arithmetic::mul::lemma_mul_is_commutative(w as int, ht as int);
            }

            // A B C
            // D E F
            // G H I
            let a = src[y_m1 * w + x_m1];
            let b = src[y_m1 * w + x];
            let c = src[y_m1 * w + x_p1];
            let d = src[y * w + x_m1];
            let e = src[y * w + x];
            let f = src[y * w + x_p1];
            let g = src[y_p1 * w + x_m1];
            let h = src[y_p1 * w + x];
            let i = src[y_p1 * w + x_p1];

            let t = &o[y * w + x];
            let mut r1 = e;
            let mut r2 = e;
            let mut r3 = e;
            let mut r4 = e;
            let r5 = e;
            let mut r6 = e;
            let mut r7 = e;
            let mut r8 = e;
            let mut r9 = e;

            if table_eq_at(t, 3, 0) && table_eq_at(t, 0, 1) {
                r1 = a;
            }
            if table_eq_at(t, 0, 1) && table_eq_at(t, 1, 2) && (table_eq_at(t, 3, 1) || table_eq_at(t, 1, 5)) {
                r2 = b;
            }
            if table_eq_at(t, 1, 2) && table_eq_at(t, 2, 5) {
                r3 = c;
            }
            if table_eq_at(t, 0, 3) && table_eq_at(t, 3, 6) && (table_eq_at(t, 1, 3) || table_eq_at(t, 3, 7)) {
                r4 = d;
            }
            if table_eq_at(t, 2, 5) && table_eq_at(t, 5, 8) && (table_eq_at(t, 1, 5) || table_eq_at(t, 5, 7)) {
                r6 = f;
            }
            if table_eq_at(t, 7, 6) && table_eq_at(t, 6, 3) {
                r7 = g;
            }
            if table_eq_at(t, 6, 7) && table_eq_at(t, 7, 8) && (table_eq_at(t, 3, 7) || table_eq_at(t, 7, 5)) {
                r8 = h;
            }
            if table_eq_at(t, 5, 8) && table_eq_at(t, 8, 7) {
                r9 = i;
            }

            proof {
                assert((y * 3 + 3) * (w * 3) <= dest@.len()) by (nonlinear_arith)
                    requires y < ht, dest@.len() == 3 * w * (3 * ht);
            }
            write_3x(dest, w, x, y, [r1, r2, r3, r4, r5, r6, r7, r8, r9]);
            proof {
                let out = [r1, r2, r3, r4, r5, r6, r7, r8, r9]@;
                let ob = seq![a, b, c, d, e, f, g, h, i];
                assert forall|j: int| 0 <= j < 9 implies out[j] == e || out[j] == #[trigger] ob[j] by {
                    assert(j == 0 || j == 1 || j == 2 || j == 3 || j == 4 || j == 5 || j == 6 || j == 7 || j == 8);
                }
                assert forall|k: int|
                    0 <= k < dest@.len() && block_done(block_of(k, row, 3), x + 1, y as int)
                        implies #[trigger] dest@[k] == near[k] || dest@[k] == other[k] by {
                    lemma_block_in_image(k, w as int, ht as int, 3);
                    lemma_index_of_block(k, row, 3);
                    if block_of(k, row, 3) == (x as int, y as int) {
                        assert(ob[offset_in_block(k, row, 3)] == other[k]);
                    }
                }
                {
                    let blk = eagle_3x_block_by(src@, w as int, ht as int, x as int, y as int, o@[y * w + x]@);
                    assert([r1, r2, r3, r4, r5, r6, r7, r8, r9]@ =~= blk);
                    assert forall|k: int|
                        0 <= k < dest@.len() && block_done(block_of(k, row, 3), x + 1, y as int)
                            implies #[trigger] dest@[k] == target[k] by {
                        lemma_block_in_image(k, w as int, ht as int, 3);
                    }
                }
            }
            x = x + 1;
        }
        y = y + 1;
    }
    proof {
        assert forall|k: int| 0 <= k < dest@.len() implies #[trigger] dest@[k] == near[k]
            || dest@[k] == other[k] by {
            assert(w > 0) by (nonlinear_arith)
                requires
                    0 <= k < dest@.len(),
                    dest@.len() == 3 * w * (3 * ht),
            ;
            lemma_block_in_image(k, w as int, ht as int, 3);
        }
        if w > 0 && ht > 0 {
            lemma_centre_of_3x(
                dest@,
                src@,
                w as int,
                ht as int,
                |x: int, y: int|
                    seq![
                        src_px(src@, w as int, sat_dec(x), sat_dec(y)),
                        src_px(src@, w as int, x, sat_dec(y)),
                        src_px(src@, w as int, inc_clamped(x, w as int), sat_dec(y)),
                        src_px(src@, w as int, sat_dec(x), y),
                        src_px(src@, w as int, x, y),
                        src_px(src@, w as int, inc_clamped(x, w as int), y),
                        src_px(src@, w as int, sat_dec(x), inc_clamped(y, ht as int)),
                        src_px(src@, w as int, x, inc_clamped(y, ht as int)),
                        src_px(src@, w as int, inc_clamped(x, w as int), inc_clamped(y, ht as int)),
                    ],
            );
        }
        {
            assert forall|k: int| 0 <= k < dest@.len() implies #[trigger] dest@[k] == target[k] by {
                assert(w > 0) by (nonlinear_arith)
                    requires
                        0 <= k < dest@.len(),
                        dest@.len() == 3 * w * (3 * ht),
                ;
                lemma_block_in_image(k, w as int, ht as int, 3);
            }
            assert(dest@ =~= target);
        }
    }
    result
}

/// Upscales the image 3x with the Eagle pixel art algorithm, extended naturally from 2x to 3x.
///
/// Whatever `==` does on `T`, the centre of the block of a source pixel is that pixel, and
/// each other pixel of the block is that pixel or the neighbour in its direction.
pub fn eagle_3x<T: Default + Copy + PartialEq>(src: &Image<T>) -> (r: Image<T>)
    requires
        src.wf(),
        9 * src.spec_size().width * src.spec_size().height <= usize::MAX,
        3 * src.spec_size().width <= usize::MAX,
        3 * src.spec_size().height <= usize::MAX,
    ensures
        r.wf(),
        r.spec_size().width == 3 * src.spec_size().width,
        r.spec_size().height == 3 * src.spec_size().height,
        each_of(
            r.pixels(),
            nearest_spec(src.pixels(), src.spec_size().width as int, src.spec_size().height as int, 3),
            eagle_3x_other(src.pixels(), src.spec_size().width as int, src.spec_size().height as int),
        ),
        forall|x: int, y: int|
            0 <= x < src.spec_size().width && 0 <= y < src.spec_size().height ==> #[trigger] r.pixels()[(3
                * y + 1) * (3 * src.spec_size().width) + 3 * x + 1] == src.pixels()[y
                * src.spec_size().width + x],
        T::obeys_eq_spec() ==> r.pixels() == eagle_3x_spec(
            src.pixels(),
            src.spec_size().width as int,
            src.spec_size().height as int,
        ),
{
    let o = neighbour_comparisons(src);
    let r = eagle_3x_with(src, &o);
    proof {
        if T::obeys_eq_spec() {
            lemma_eagle_3x_by_same(
                src.pixels(),
                src.spec_size().width as int,
                src.spec_size().height as int,
                o@,
            );
        }
    }
    r
}


/// Eagle 2x turns an image of one color into an image of that color.
pub proof fn lemma_eagle_2x_uniform<T: PartialEq>(s: Seq<T>, w: int, h: int, c: T)
    requires
        w > 0,
        h > 0,
        all_pixels(s, w, h, c),
    ensures
        forall|k: int|
            0 <= k < eagle_2x_spec(s, w, h).len() ==> #[trigger] eagle_2x_spec(s, w, h)[k] == c,
{
    let block = |x: int, y: int| eagle_2x_block(s, w, h, x, y);
    assert forall|x: int, y: int, i: int| 0 <= x < w && 0 <= y < h && 0 <= i < 2 * 2 implies #[trigger] block(
        x,
        y,
    )[i] == c by {
        lemma_neighbours_uniform(s, w, h, x, y, c);
    }
    lemma_upscaled_uniform(block, w, h, 2, c);
}

/// Eagle 3x turns an image of one color into an image of that color.
pub proof fn lemma_eagle_3x_uniform<T: PartialEq>(s: Seq<T>, w: int, h: int, c: T)
    requires
        w > 0,
        h > 0,
        all_pixels(s, w, h, c),
    ensures
        forall|k: int|
            0 <= k < eagle_3x_spec(s, w, h).len() ==> #[trigger] eagle_3x_spec(s, w, h)[k] == c,
{
    let block = |x: int, y: int| eagle_3x_block(s, w, h, x, y);
    assert forall|x: int, y: int, i: int| 0 <= x < w && 0 <= y < h && 0 <= i < 3 * 3 implies #[trigger] block(
        x,
        y,
    )[i] == c by {
        lemma_neighbours_uniform(s, w, h, x, y, c);
    }
    lemma_upscaled_uniform(block, w, h, 3, c);
}


/// Eagle 3x, pixel by pixel, for the comparison table `t` of each source pixel's 3 x 3
/// neighbourhood (neighbours 0 ..= 8 row by row, 4 the source pixel `E`). Each corner of the
/// block is its diagonal neighbour exactly where that neighbour compares equal to both edge
/// neighbours beside it (for the top left corner: left == above left and above left == above),
/// and the source pixel otherwise; each edge pixel is its neighbour exactly where that
/// neighbour compares equal to both neighbours beside it and to one of the two neighbours
/// next to the source pixel; the centre is the source pixel.
pub proof fn lemma_eagle_3x_pixels<T>(s: Seq<T>, w: int, h: int, o: Seq<Vec<bool>>)
    requires
        w > 0,
        h > 0,
    ensures
        forall|x: int, y: int|
            0 <= x < w && 0 <= y < h ==> {
                let t = #[trigger] o[y * w + x]@;
                let r = eagle_3x_by(s, w, h, o);
                &&& (table_eq(t, 3, 0) && table_eq(t, 0, 1)) ==> block_pixel(r, w, 3, x, y, 0, 0) == nb3(s, w, h, x, y, 0)
                &&& !(table_eq(t, 3, 0) && table_eq(t, 0, 1)) ==> block_pixel(r, w, 3, x, y, 0, 0) == nb3(s, w, h, x, y, 4)
                &&& (table_eq(t, 0, 1) && table_eq(t, 1, 2) && (table_eq(t, 3, 1) || table_eq(t, 1, 5))) ==> block_pixel(r, w, 3, x, y, 1, 0) == nb3(s, w, h, x, y, 1)
                &&& !(table_eq(t, 0, 1) && table_eq(t, 1, 2) && (table_eq(t, 3, 1) || table_eq(t, 1, 5))) ==> block_pixel(r, w, 3, x, y, 1, 0) == nb3(s, w, h, x, y, 4)
                &&& (table_eq(t, 1, 2) && table_eq(t, 2, 5)) ==> block_pixel(r, w, 3, x, y, 2, 0) == nb3(s, w, h, x, y, 2)
                &&& !(table_eq(t, 1, 2) && table_eq(t, 2, 5)) ==> block_pixel(r, w, 3, x, y, 2, 0) == nb3(s, w, h, x, y, 4)
                &&& (table_eq(t, 0, 3) && table_eq(t, 3, 6) && (table_eq(t, 1, 3) || table_eq(t, 3, 7))) ==> block_pixel(r, w, 3, x, y, 0, 1) == nb3(s, w, h, x, y, 3)
                &&& !(table_eq(t, 0, 3) && table_eq(t, 3, 6) && (table_eq(t, 1, 3) || table_eq(t, 3, 7))) ==> block_pixel(r, w, 3, x, y, 0, 1) == nb3(s, w, h, x, y, 4)
                &&& block_pixel(r, w, 3, x, y, 1, 1) == nb3(s, w, h, x, y, 4)
                &&& (table_eq(t, 2, 5) && table_eq(t, 5, 8) && (table_eq(t, 1, 5) || table_eq(t, 5, 7))) ==> block_pixel(r, w, 3, x, y, 2, 1) == nb3(s, w, h, x, y, 5)
                &&& !(table_eq(t, 2, 5) && table_eq(t, 5, 8) && (table_eq(t, 1, 5) || table_eq(t, 5, 7))) ==> block_pixel(r, w, 3, x, y, 2, 1) == nb3(s, w, h, x, y, 4)
                &&& (table_eq(t, 7, 6) && table_eq(t, 6, 3)) ==> block_pixel(r, w, 3, x, y, 0, 2) == nb3(s, w, h, x, y, 6)
                &&& !(table_eq(t, 7, 6) && table_eq(t, 6, 3)) ==> block_pixel(r, w, 3, x, y, 0, 2) == nb3(s, w, h, x, y, 4)
                &&& (table_eq(t, 6, 7) && table_eq(t, 7, 8) && (table_eq(t, 3, 7) || table_eq(t, 7, 5))) ==> block_pixel(r, w, 3, x, y, 1, 2) == nb3(s, w, h, x, y, 7)
                &&& !(table_eq(t, 6, 7) && table_eq(t, 7, 8) && (table_eq(t, 3, 7) || table_eq(t, 7, 5))) ==> block_pixel(r, w, 3, x, y, 1, 2) == nb3(s, w, h, x, y, 4)
                &&& (table_eq(t, 5, 8) && table_eq(t, 8, 7)) ==> block_pixel(r, w, 3, x, y, 2, 2) == nb3(s, w, h, x, y, 8)
                &&& !(table_eq(t, 5, 8) && table_eq(t, 8, 7)) ==> block_pixel(r, w, 3, x, y, 2, 2) == nb3(s, w, h, x, y, 4)
            },
{
    let f = |x: int, y: int| eagle_3x_block_by(s, w, h, x, y, o[y * w + x]@);
    assert forall|x: int, y: int| 0 <= x < w && 0 <= y < h implies {
        let t = #[trigger] o[y * w + x]@;
        let r = eagle_3x_by(s, w, h, o);
        &&& (table_eq(t, 3, 0) && table_eq(t, 0, 1)) ==> block_pixel(r, w, 3, x, y, 0, 0) == nb3(s, w, h, x, y, 0)
        &&& !(table_eq(t, 3, 0) && table_eq(t, 0, 1)) ==> block_pixel(r, w, 3, x, y, 0, 0) == nb3(s, w, h, x, y, 4)
        &&& (table_eq(t, 0, 1) && table_eq(t, 1, 2) && (table_eq(t, 3, 1) || table_eq(t, 1, 5))) ==> block_pixel(r, w, 3, x, y, 1, 0) == nb3(s, w, h, x, y, 1)
        &&& !(table_eq(t, 0, 1) && table_eq(t, 1, 2) && (table_eq(t, 3, 1) || table_eq(t, 1, 5))) ==> block_pixel(r, w, 3, x, y, 1, 0) == nb3(s, w, h, x, y, 4)
        &&& (table_eq(t, 1, 2) && table_eq(t, 2, 5)) ==> block_pixel(r, w, 3, x, y, 2, 0) == nb3(s, w, h, x, y, 2)
        &&& !(table_eq(t, 1, 2) && table_eq(t, 2, 5)) ==> block_pixel(r, w, 3, x, y, 2, 0) == nb3(s, w, h, x, y, 4)
        &&& (table_eq(t, 0, 3) && table_eq(t, 3, 6) && (table_eq(t, 1, 3) || table_eq(t, 3, 7))) ==> block_pixel(r, w, 3, x, y, 0, 1) == nb3(s, w, h, x, y, 3)
        &&& !(table_eq(t, 0, 3) && table_eq(t, 3, 6) && (table_eq(t, 1, 3) || table_eq(t, 3, 7))) ==> block_pixel(r, w, 3, x, y, 0, 1) == nb3(s, w, h, x, y, 4)
        &&& block_pixel(r, w, 3, x, y, 1, 1) == nb3(s, w, h, x, y, 4)
        &&& (table_eq(t, 2, 5) && table_eq(t, 5, 8) && (table_eq(t, 1, 5) || table_eq(t, 5, 7))) ==> block_pixel(r, w, 3, x, y, 2, 1) == nb3(s, w, h, x, y, 5)
        &&& !(table_eq(t, 2, 5) && table_eq(t, 5, 8) && (table_eq(t, 1, 5) || table_eq(t, 5, 7))) ==> block_pixel(r, w, 3, x, y, 2, 1) == nb3(s, w, h, x, y, 4)
        &&& (table_eq(t, 7, 6) && table_eq(t, 6, 3)) ==> block_pixel(r, w, 3, x, y, 0, 2) == nb3(s, w, h, x, y, 6)
        &&& !(table_eq(t, 7, 6) && table_eq(t, 6, 3)) ==> block_pixel(r, w, 3, x, y, 0, 2) == nb3(s, w, h, x, y, 4)
        &&& (table_eq(t, 6, 7) && table_eq(t, 7, 8) && (table_eq(t, 3, 7) || table_eq(t, 7, 5))) ==> block_pixel(r, w, 3, x, y, 1, 2) == nb3(s, w, h, x, y, 7)
        &&& !(table_eq(t, 6, 7) && table_eq(t, 7, 8) && (table_eq(t, 3, 7) || table_eq(t, 7, 5))) ==> block_pixel(r, w, 3, x, y, 1, 2) == nb3(s, w, h, x, y, 4)
        &&& (table_eq(t, 5, 8) && table_eq(t, 8, 7)) ==> block_pixel(r, w, 3, x, y, 2, 2) == nb3(s, w, h, x, y, 8)
        &&& !(table_eq(t, 5, 8) && table_eq(t, 8, 7)) ==> block_pixel(r, w, 3, x, y, 2, 2) == nb3(s, w, h, x, y, 4)
    } by {
        lemma_upscaled_at(f, w, h, 3, x, y, 0, 0);
        lemma_upscaled_at(f, w, h, 3, x, y, 1, 0);
        lemma_upscaled_at(f, w, h, 3, x, y, 2, 0);
        lemma_upscaled_at(f, w, h, 3, x, y, 0, 1);
        lemma_upscaled_at(f, w, h, 3, x, y, 1, 1);
        lemma_upscaled_at(f, w, h, 3, x, y, 2, 1);
        lemma_upscaled_at(f, w, h, 3, x, y, 0, 2);
        lemma_upscaled_at(f, w, h, 3, x, y, 1, 2);
        lemma_upscaled_at(f, w, h, 3, x, y, 2, 2);
    }
}


/// Eagle 2x, pixel by pixel, for the comparison table `t` of each source pixel's 3 x 3
/// neighbourhood (neighbours 0 ..= 8 row by row, 4 the source pixel). Each pixel of the block
/// is the diagonal neighbour its corner points to exactly where that neighbour compares equal
/// to both edge neighbours beside it (for the top left pixel: left == above left and above left
/// == above), and the source pixel otherwise.
pub proof fn lemma_eagle_2x_pixels<T>(s: Seq<T>, w: int, h: int, o: Seq<Vec<bool>>)
    requires
        w > 0,
        h > 0,
    ensures
        forall|x: int, y: int|
            0 <= x < w && 0 <= y < h ==> {
                let t = #[trigger] o[y * w + x]@;
                let r = eagle_2x_by(s, w, h, o);
                &&& (table_eq(t, 3, 0) && table_eq(t, 0, 1)) ==> block_pixel(r, w, 2, x, y, 0, 0) == nb3(s, w, h, x, y, 0)
                &&& !(table_eq(t, 3, 0) && table_eq(t, 0, 1)) ==> block_pixel(r, w, 2, x, y, 0, 0) == nb3(s, w, h, x, y, 4)
                &&& (table_eq(t, 1, 2) && table_eq(t, 2, 5)) ==> block_pixel(r, w, 2, x, y, 1, 0) == nb3(s, w, h, x, y, 2)
                &&& !(table_eq(t, 1, 2) && table_eq(t, 2, 5)) ==> block_pixel(r, w, 2, x, y, 1, 0) == nb3(s, w, h, x, y, 4)
                &&& (table_eq(t, 7, 6) && table_eq(t, 6, 3)) ==> block_pixel(r, w, 2, x, y, 0, 1) == nb3(s, w, h, x, y, 6)
                &&& !(table_eq(t, 7, 6) && table_eq(t, 6, 3)) ==> block_pixel(r, w, 2, x, y, 0, 1) == nb3(s, w, h, x, y, 4)
                &&& (table_eq(t, 5, 8) && table_eq(t, 8, 7)) ==> block_pixel(r, w, 2, x, y, 1, 1) == nb3(s, w, h, x, y, 8)
                &&& !(table_eq(t, 5, 8) && table_eq(t, 8, 7)) ==> block_pixel(r, w, 2, x, y, 1, 1) == nb3(s, w, h, x, y, 4)
            },
{
    let f = |x: int, y: int| eagle_2x_block_by(s, w, h, x, y, o[y * w + x]@);
    assert forall|x: int, y: int| 0 <= x < w && 0 <= y < h implies {
        let t = #[trigger] o[y * w + x]@;
        let r = eagle_2x_by(s, w, h, o);
        &&& (table_eq(t, 3, 0) && table_eq(t, 0, 1)) ==> block_pixel(r, w, 2, x, y, 0, 0) == nb3(s, w, h, x, y, 0)
        &&& !(table_eq(t, 3, 0) && table_eq(t, 0, 1)) ==> block_pixel(r, w, 2, x, y, 0, 0) == nb3(s, w, h, x, y, 4)
        &&& (table_eq(t, 1, 2) && table_eq(t, 2, 5)) ==> block_pixel(r, w, 2, x, y, 1, 0) == nb3(s, w, h, x, y, 2)
        &&& !(table_eq(t, 1, 2) && table_eq(t, 2, 5)) ==> block_pixel(r, w, 2, x, y, 1, 0) == nb3(s, w, h, x, y, 4)
        &&& (table_eq(t, 7, 6) && table_eq(t, 6, 3)) ==> block_pixel(r, w, 2, x, y, 0, 1) == nb3(s, w, h, x, y, 6)
        &&& !(table_eq(t, 7, 6) && table_eq(t, 6, 3)) ==> block_pixel(r, w, 2, x, y, 0, 1) == nb3(s, w, h, x, y, 4)
        &&& (table_eq(t, 5, 8) && table_eq(t, 8, 7)) ==> block_pixel(r, w, 2, x, y, 1, 1) == nb3(s, w, h, x, y, 8)
        &&& !(table_eq(t, 5, 8) && table_eq(t, 8, 7)) ==> block_pixel(r, w, 2, x, y, 1, 1) == nb3(s, w, h, x, y, 4)
    } by {
        lemma_upscaled_at(f, w, h, 2, x, y, 0, 0);
        lemma_upscaled_at(f, w, h, 2, x, y, 1, 0);
        lemma_upscaled_at(f, w, h, 2, x, y, 0, 1);
        lemma_upscaled_at(f, w, h, 2, x, y, 1, 1);
    }
}

} // verus!
