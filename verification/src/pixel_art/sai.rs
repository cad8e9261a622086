use vstd::prelude::*;
use vstd::std_specs::cmp::PartialEqSpec;

use super::util::same;

verus! {

/// The vote of the 2xSaI family on whether `a` (positive) or `b` (negative) continues into
/// the neighbours `c` and `d`: a neighbour counts for `a` where it equals `a`, else for `b`
/// where it equals `b`; `+1` when at most one counts for `a`, `-1` when at most one counts
/// for `b`.
pub open spec fn result_1_spec<T: PartialEq>(a: T, b: T, c: T, d: T) -> i32 {
    result_1_of(same(a, c), same(a, d), same(b, c), same(b, d))
}

/// The vote of `result_1_spec` from the outcomes of comparing `a` with `c` and `d` and `b`
/// with `c` and `d`.
pub open spec fn result_1_of(ac: bool, ad: bool, bc: bool, bd: bool) -> i32 {
    let x = (if ac { 1int } else { 0int }) + (if ad { 1int } else { 0int });
    let y = (if !ac && bc { 1int } else { 0int }) + (if !ad && bd { 1int } else { 0int });
    ((if x <= 1 { 1int } else { 0int }) - (if y <= 1 { 1int } else { 0int })) as i32
}

pub fn get_result_1<T: PartialEq>(a: T, b: T, c: T, d: T) -> (r: i32)
    ensures
        -1 <= r <= 1,
        T::obeys_eq_spec() ==> r == result_1_spec(a, b, c, d),
{
    let mut x: i32 = 0;
    let mut y: i32 = 0;
    let mut r: i32 = 0;
    if a == c {
        x += 1;
    } else if b == c {
        y += 1;
    }
    if a == d {
        x += 1;
    } else if b == d {
        y += 1;
    }
    if x <= 1 {
        r += 1
    }
    if y <= 1 {
        r -= 1
    }
    r
}

/// `get_result_2` is the vote of `get_result_1` with the sign flipped.
pub fn get_result_2<T: PartialEq>(a: T, b: T, c: T, d: T) -> (r: i32)
    ensures
        -1 <= r <= 1,
        T::obeys_eq_spec() ==> r == -result_1_spec(a, b, c, d),
{
    let mut x: i32 = 0;
    let mut y: i32 = 0;
    let mut r: i32 = 0;
    if a == c {
        x += 1;
    } else if b == c {
        y += 1;
    }
    if a == d {
        x += 1;
    } else if b == d {
        y += 1;
    }
    if x <= 1 {
        r -= 1
    }
    if y <= 1 {
        r += 1
    }
    r
}

/// One pixel of a 2 x 2 block of the 2xSaI family, as a blend of the 4 x 4 neighbourhood
/// `n[0]` ..= `n[15]` of its source pixel, taken row by row from the pixel above and to the left
/// of it, so that `n[5]` is the source pixel itself.
#[derive(Clone, Copy, Debug, PartialEq, Eq)]
pub enum Blend {
    /// `n[a]`
    Pick(u8),
    /// `(n[a] + n[b]) / 2`
    Avg2(u8, u8),
    /// `(n[a] + n[b] + n[c] + n[d]) / 4`
    Avg4(u8, u8, u8, u8),
    /// `(n[a] + (n[b] + n[c]) / 2) / 2`
    Avg2Of(u8, u8, u8),
    /// `(3 n[a] + (n[b] + n[c]) / 2) / 4`
    Avg4Of(u8, u8, u8),
}

/// The outcome that the comparison table `e` of a 4 x 4 neighbourhood gives for neighbours
/// `x` and `y`: entry `16 * x + y`.
pub open spec fn eq_in(e: Seq<bool>, x: u8, y: u8) -> bool {
    e[x as int * 16 + y as int]
}

/// The comparison table of the 4 x 4 neighbourhood `n`, where `==` has a spec: entry
/// `16 * x + y` tells whether `n[x]` and `n[y]` are equal.
pub open spec fn same_table<T: PartialEq>(n: Seq<T>) -> Seq<bool> {
    Seq::new(256, |k: int| same(n[k / 16], n[k % 16]))
}

/// The vote of `get_result_1` on the neighbours `a`, `b`, `c`, `d`, from the comparison
/// table `e`.
pub open spec fn vote(e: Seq<bool>, a: u8, b: u8, c: u8, d: u8) -> int {
    result_1_of(eq_in(e, a, c), eq_in(e, a, d), eq_in(e, b, c), eq_in(e, b, d)) as int
}

/// The comparisons of each neighbour of a 4 x 4 neighbourhood with each: entry `16 * x + y`
/// is what `n[x] == n[y]` gave. Where `==` has a spec, the table is `same_table(n)`.
pub fn comparisons<T: PartialEq>(n: &[T; 16]) -> (r: Vec<bool>)
    ensures
        r@.len() == 256,
        T::obeys_eq_spec() ==> r@ == same_table(n@),
{
    let mut r: Vec<bool> = Vec::new();
    let mut x: usize = 0;
    while x < 16
        invariant
            x <= 16,
            r@.len() == 16 * x,
            T::obeys_eq_spec() ==> forall|k: int| 0 <= k < r@.len() ==> #[trigger] r@[k] == same(
                n@[k / 16],
                n@[k % 16],
            ),
        decreases 16 - x,
    {
        let mut y: usize = 0;
        while y < 16
            invariant
                x < 16,
                y <= 16,
                r@.len() == 16 * x + y,
                T::obeys_eq_spec() ==> forall|k: int| 0 <= k < r@.len() ==> #[trigger] r@[k] == same(
                    n@[k / 16],
                    n@[k % 16],
                ),
            decreases 16 - y,
        {
            let b = n[x] == n[y];
            r.push(b);
            proof {
                let k = 16 * x + y;
                assert(k / 16 == x && k % 16 == y);
            }
            y = y + 1;
        }
        x = x + 1;
    }
    proof {
        if T::obeys_eq_spec() {
            assert(r@ =~= same_table(n@));
        }
    }
    r
}

/// Entry `16 * x + y` of the comparison table `e`.
fn eq_at(e: &[bool], x: usize, y: usize) -> (r: bool)
    requires
        e@.len() == 256,
        x < 16,
        y < 16,
    ensures
        r == eq_in(e@, x as u8, y as u8),
{
    e[x * 16 + y]
}

/// The vote of `get_result_1` on the neighbours `a`, `b`, `c`, `d`, from the comparison
/// table `e`.
fn vote_at(e: &[bool], a: usize, b: usize, c: usize, d: usize) -> (r: i32)
    requires
        e@.len() == 256,
        a < 16,
        b < 16,
        c < 16,
        d < 16,
    ensures
        r == vote(e@, a as u8, b as u8, c as u8, d as u8),
        -1 <= r <= 1,
{
    let ac = eq_at(e, a, c);
    let ad = eq_at(e, a, d);
    let bc = eq_at(e, b, c);
    let bd = eq_at(e, b, d);
    let mut x: i32 = 0;
    let mut y: i32 = 0;
    let mut r: i32 = 0;
    if ac {
        x += 1;
    } else if bc {
        y += 1;
    }
    if ad {
        x += 1;
    } else if bd {
        y += 1;
    }
    if x <= 1 {
        r += 1
    }
    if y <= 1 {
        r -= 1
    }
    r
}

/// The 2xSaI blends of the 2 x 2 block (row by row) of the source pixel whose 4 x 4
/// neighbourhood `n` has the comparison table `t`. In the names of the algorithm, `n` is
///
/// ```text
/// I E F J
/// G A B K
/// H C D L
/// M N O P
/// ```
pub open spec fn sai_2x_by(t: Seq<bool>) -> Seq<Blend> {
    let (i, e, f, j) = (0u8, 1u8, 2u8, 3u8);
    let (g, a, b, k) = (4u8, 5u8, 6u8, 7u8);
    let (h, c, d, l) = (8u8, 9u8, 10u8, 11u8);
    let (m, nn, o) = (12u8, 13u8, 14u8);
    let eq = |x: u8, y: u8| eq_in(t, x, y);
    if eq(a, d) && !eq(b, c) {
        seq![
            Blend::Pick(a),
            if (eq(a, e) && eq(b, l)) || (eq(a, c) && eq(a, f) && !eq(b, e) && eq(b, j)) {
                Blend::Pick(a)
            } else {
                Blend::Avg2(a, b)
            },
            if (eq(a, g) && eq(c, o)) || (eq(a, b) && eq(a, h) && !eq(g, c) && eq(c, m)) {
                Blend::Pick(a)
            } else {
                Blend::Avg2(a, c)
            },
            Blend::Pick(a),
        ]
    } else if eq(b, c) && !eq(a, d) {
        seq![
            Blend::Pick(a),
            if (eq(b, f) && eq(a, h)) || (eq(b, e) && eq(b, d) && !eq(a, f) && eq(a, i)) {
                Blend::Pick(b)
            } else {
                Blend::Avg2(a, b)
            },
            if (eq(c, h) && eq(a, f)) || (eq(c, g) && eq(c, d) && !eq(a, h) && eq(a, i)) {
                Blend::Pick(c)
            } else {
                Blend::Avg2(a, c)
            },
            Blend::Pick(b),
        ]
    } else if eq(a, d) && eq(b, c) {
        if eq(a, b) {
            seq![Blend::Pick(a), Blend::Pick(a), Blend::Pick(a), Blend::Pick(a)]
        } else {
            let r = vote(t, 5, 6, 4, 1) - vote(t, 6, 5, 7, 2) - vote(t, 6, 5, 8, 13) + vote(t, 5, 6, 11, 14);
            seq![
                Blend::Pick(a),
                Blend::Avg2(a, b),
                Blend::Avg2(a, c),
                if r > 0 {
                    Blend::Pick(a)
                } else if r < 0 {
                    Blend::Pick(b)
                } else {
                    Blend::Avg4(a, b, c, d)
                },
            ]
        }
    } else {
        seq![
            Blend::Pick(a),
            if eq(a, c) && eq(a, f) && !eq(b, e) && eq(b, j) {
                Blend::Pick(a)
            } else if eq(b, e) && eq(b, d) && !eq(a, f) && eq(a, i) {
                Blend::Pick(b)
            } else {
                Blend::Avg2(a, b)
            },
            if eq(a, b) && eq(a, h) && !eq(g, c) && eq(c, m) {
                Blend::Pick(a)
            } else if eq(c, g) && eq(c, d) && !eq(a, h) && eq(a, i) {
                Blend::Pick(c)
            } else {
                Blend::Avg2(a, c)
            },
            Blend::Avg4(a, b, c, d),
        ]
    }
}

/// `sai_2x_by` on the comparison table of `n`, where `==` has a spec.
pub open spec fn sai_2x_spec<T: PartialEq>(n: Seq<T>) -> Seq<Blend> {
    sai_2x_by(same_table(n))
}

/// The 2xSaI blends of the 2 x 2 block (row by row) of the source pixel whose 4 x 4
/// neighbourhood has the comparison table `eq` (see `sai_2x_by` and `comparisons`).
pub fn sai_2x_rule(eq: &[bool]) -> (r: [Blend; 4])
    requires
        eq@.len() == 256,
    ensures
        r@ == sai_2x_by(eq@),
{
    let product;
    let product1;
    let product2;
    if eq_at(eq, 5, 10) && !eq_at(eq, 6, 9) {
        if (eq_at(eq, 5, 1) && eq_at(eq, 6, 11)) || (eq_at(eq, 5, 9) && eq_at(eq, 5, 2) && !eq_at(eq, 6, 1) && eq_at(eq, 6, 3)) {
            product = Blend::Pick(5);
        } else {
            product = Blend::Avg2(5, 6);
        }
        if (eq_at(eq, 5, 4) && eq_at(eq, 9, 14)) || (eq_at(eq, 5, 6) && eq_at(eq, 5, 8) && !eq_at(eq, 4, 9) && eq_at(eq, 9, 12)) {
            product1 = Blend::Pick(5);
        } else {
            product1 = Blend::Avg2(5, 9);
        }
        product2 = Blend::Pick(5);
    } else if eq_at(eq, 6, 9) && !eq_at(eq, 5, 10) {
        if (eq_at(eq, 6, 2) && eq_at(eq, 5, 8)) || (eq_at(eq, 6, 1) && eq_at(eq, 6, 10) && !eq_at(eq, 5, 2) && eq_at(eq, 5, 0)) {
            product = Blend::Pick(6);
        } else {
            product = Blend::Avg2(5, 6);
        }
        if (eq_at(eq, 9, 8) && eq_at(eq, 5, 2)) || (eq_at(eq, 9, 4) && eq_at(eq, 9, 10) && !eq_at(eq, 5, 8) && eq_at(eq, 5, 0)) {
            product1 = Blend::Pick(9);
        } else {
            product1 = Blend::Avg2(5, 9);
        }
        product2 = Blend::Pick(6);
    } else if eq_at(eq, 5, 10) && eq_at(eq, 6, 9) {
        if eq_at(eq, 5, 6) {
            product = Blend::Pick(5);
            product1 = Blend::Pick(5);
            product2 = Blend::Pick(5);
        } else {
            product1 = Blend::Avg2(5, 9);
            product = Blend::Avg2(5, 6);
            let mut r: i32 = 0;
            r += vote_at(eq, 5, 6, 4, 1);
            r += -vote_at(eq, 6, 5, 7, 2);
            r += -vote_at(eq, 6, 5, 8, 13);
            r += vote_at(eq, 5, 6, 11, 14);
            product2 = if r > 0 {
                Blend::Pick(5)
            } else if r < 0 {
                Blend::Pick(6)
            } else {
                Blend::Avg4(5, 6, 9, 10)
            };
        }
    } else {
        product2 = Blend::Avg4(5, 6, 9, 10);
        if eq_at(eq, 5, 9) && eq_at(eq, 5, 2) && !eq_at(eq, 6, 1) && eq_at(eq, 6, 3) {
            product = Blend::Pick(5);
        } else if eq_at(eq, 6, 1) && eq_at(eq, 6, 10) && !eq_at(eq, 5, 2) && eq_at(eq, 5, 0) {
            product = Blend::Pick(6);
        } else {
            product = Blend::Avg2(5, 6);
        }
        if eq_at(eq, 5, 6) && eq_at(eq, 5, 8) && !eq_at(eq, 4, 9) && eq_at(eq, 9, 12) {
            product1 = Blend::Pick(5);
        } else if eq_at(eq, 9, 4) && eq_at(eq, 9, 10) && !eq_at(eq, 5, 8) && eq_at(eq, 5, 0) {
            product1 = Blend::Pick(9);
        } else {
            product1 = Blend::Avg2(5, 9);
        }
    }
    let r = [Blend::Pick(5), product, product1, product2];
    assert(r@ =~= sai_2x_by(eq@));
    r
}

/// The Super Eagle blends of the 2 x 2 block (row by row) of the source pixel whose 4 x 4
/// neighbourhood `n` has the comparison table `t`. In the names of the algorithm, `n` is
///
/// ```text
/// B0 B1 B2 B3
/// 4  5  6  S2
/// 1  2  3  S1
/// A0 A1 A2 A3
/// ```
pub open spec fn super_eagle_2x_by(t: Seq<bool>) -> Seq<Blend> {
    let (b1, b2) = (1u8, 2u8);
    let (c4, c5, c6, s2) = (4u8, 5u8, 6u8, 7u8);
    let (c1, c2, c3, s1) = (8u8, 9u8, 10u8, 11u8);
    let (a1, a2) = (13u8, 14u8);
    let eq = |x: u8, y: u8| eq_in(t, x, y);
    if eq(c2, c6) && !eq(c5, c3) {
        seq![
            if eq(c1, c2) || eq(c6, b2) { Blend::Avg2Of(c2, c2, c5) } else { Blend::Avg2(c5, c6) },
            Blend::Pick(c2),
            Blend::Pick(c2),
            if eq(c6, s2) || eq(c2, a1) { Blend::Avg2Of(c2, c2, c3) } else { Blend::Avg2(c2, c3) },
        ]
    } else if eq(c5, c3) && !eq(c2, c6) {
        seq![
            Blend::Pick(c5),
            if eq(b1, c5) || eq(c3, s1) { Blend::Avg2Of(c5, c5, c6) } else { Blend::Avg2(c5, c6) },
            if eq(c3, a2) || eq(c4, c5) { Blend::Avg2Of(c5, c5, c2) } else { Blend::Avg2(c2, c3) },
            Blend::Pick(c5),
        ]
    } else if eq(c5, c3) && eq(c2, c6) {
        let r = vote(t, 6, 5, 8, 13) + vote(t, 6, 5, 4, 1) + vote(t, 6, 5, 14, 11) + vote(t, 6, 5, 2, 7);
        if r > 0 {
            seq![Blend::Avg2(c5, c6), Blend::Pick(c2), Blend::Pick(c2), Blend::Avg2(c5, c6)]
        } else if r < 0 {
            seq![Blend::Pick(c5), Blend::Avg2(c5, c6), Blend::Avg2(c5, c6), Blend::Pick(c5)]
        } else {
            seq![Blend::Pick(c5), Blend::Pick(c2), Blend::Pick(c2), Blend::Pick(c5)]
        }
    } else {
        seq![
            Blend::Avg4Of(c5, c2, c6),
            Blend::Avg4Of(c6, c5, c3),
            Blend::Avg4Of(c2, c5, c3),
            Blend::Avg4Of(c3, c2, c6),
        ]
    }
}

/// `super_eagle_2x_by` on the comparison table of `n`, where `==` has a spec.
pub open spec fn super_eagle_2x_spec<T: PartialEq>(n: Seq<T>) -> Seq<Blend> {
    super_eagle_2x_by(same_table(n))
}

/// The Super Eagle blends of the 2 x 2 block (row by row) of the source pixel whose 4 x 4
/// neighbourhood has the comparison table `eq` (see `super_eagle_2x_by` and `comparisons`).
pub fn super_eagle_2x_rule(eq: &[bool]) -> (r: [Blend; 4])
    requires
        eq@.len() == 256,
    ensures
        r@ == super_eagle_2x_by(eq@),
{
    let product1a;
    let product1b;
    let product2a;
    let product2b;
    if eq_at(eq, 9, 6) && !eq_at(eq, 5, 10) {
        product1b = Blend::Pick(9);
        product2a = Blend::Pick(9);
        if eq_at(eq, 8, 9) || eq_at(eq, 6, 2) {
            product1a = Blend::Avg2Of(9, 9, 5);
        } else {
            product1a = Blend::Avg2(5, 6);
        }
        if eq_at(eq, 6, 7) || eq_at(eq, 9, 13) {
            product2b = Blend::Avg2Of(9, 9, 10);
        } else {
            product2b = Blend::Avg2(9, 10);
        }
    } else if eq_at(eq, 5, 10) && !eq_at(eq, 9, 6) {
        product2b = Blend::Pick(5);
        product1a = Blend::Pick(5);
        if eq_at(eq, 1, 5) || eq_at(eq, 10, 11) {
            product1b = Blend::Avg2Of(5, 5, 6);
        } else {
            product1b = Blend::Avg2(5, 6);
        }
        if eq_at(eq, 10, 14) || eq_at(eq, 4, 5) {
            product2a = Blend::Avg2Of(5, 5, 9);
        } else {
            product2a = Blend::Avg2(9, 10);
        }
    } else if eq_at(eq, 5, 10) && eq_at(eq, 9, 6) {
        let mut r: i32 = 0;
        r += vote_at(eq, 6, 5, 8, 13);
        r += vote_at(eq, 6, 5, 4, 1);
        r += vote_at(eq, 6, 5, 14, 11);
        r += vote_at(eq, 6, 5, 2, 7);
        if r > 0 {
            product1b = Blend::Pick(9);
            product2a = Blend::Pick(9);
            product1a = Blend::Avg2(5, 6);
            product2b = Blend::Avg2(5, 6);
        } else if r < 0 {
            product2b = Blend::Pick(5);
            product1a = Blend::Pick(5);
            product1b = Blend::Avg2(5, 6);
            product2a = Blend::Avg2(5, 6);
        } else {
            product2b = Blend::Pick(5);
            product1a = Blend::Pick(5);
            product1b = Blend::Pick(9);
            product2a = Blend::Pick(9);
        }
    } else {
        product2b = Blend::Avg4Of(10, 9, 6);
        product1a = Blend::Avg4Of(5, 9, 6);
        product2a = Blend::Avg4Of(9, 5, 10);
        product1b = Blend::Avg4Of(6, 5, 10);
    }
    let r = [product1a, product1b, product2a, product2b];
    assert(r@ =~= super_eagle_2x_by(eq@));
    r
}

/// The Super 2xSaI blends of the 2 x 2 block (row by row) of the source pixel whose 4 x 4
/// neighbourhood `n` has the comparison table `t`, named as in `super_eagle_2x_by`.
pub open spec fn super_sai_2x_by(t: Seq<bool>) -> Seq<Blend> {
    let (b0, b1, b2, b3) = (0u8, 1u8, 2u8, 3u8);
    let (c4, c5, c6) = (4u8, 5u8, 6u8);
    let (c1, c2, c3) = (8u8, 9u8, 10u8);
    let (a0, a1, a2, a3) = (12u8, 13u8, 14u8, 15u8);
    let eq = |x: u8, y: u8| eq_in(t, x, y);
    let right = if eq(c2, c6) && !eq(c5, c3) {
        (Blend::Pick(c2), Blend::Pick(c2))
    } else if eq(c5, c3) && !eq(c2, c6) {
        (Blend::Pick(c5), Blend::Pick(c5))
    } else if eq(c5, c3) && eq(c2, c6) {
        let r = vote(t, 6, 5, 8, 13) + vote(t, 6, 5, 4, 1) + vote(t, 6, 5, 14, 11) + vote(t, 6, 5, 2, 7);
        if r > 0 {
            (Blend::Pick(c6), Blend::Pick(c6))
        } else if r < 0 {
            (Blend::Pick(c5), Blend::Pick(c5))
        } else {
            (Blend::Avg2(c5, c6), Blend::Avg2(c5, c6))
        }
    } else {
        (
            if eq(c6, c3) && eq(c6, b1) && !eq(c5, b2) && !eq(c6, b0) {
                Blend::Avg4(c6, c6, c6, c5)
            } else if eq(c5, c2) && eq(c5, b2) && !eq(b1, c6) && !eq(c5, b3) {
                Blend::Avg4(c6, c5, c5, c5)
            } else {
                Blend::Avg2(c5, c6)
            },
            if eq(c6, c3) && eq(c3, a1) && !eq(c2, a2) && !eq(c3, a0) {
                Blend::Avg4(c3, c3, c3, c2)
            } else if eq(c5, c2) && eq(c2, a2) && !eq(a1, c3) && !eq(c2, a3) {
                Blend::Avg4(c2, c2, c2, c3)
            } else {
                Blend::Avg2(c2, c3)
            },
        )
    };
    seq![
        if (eq(c2, c6) && !eq(c5, c3) && eq(c1, c2) && !eq(c2, b2)) || (eq(c4, c2) && eq(c3, c2) && !eq(
            c1,
            c5,
        ) && !eq(c2, b0)) {
            Blend::Avg2(c2, c5)
        } else {
            Blend::Pick(c5)
        },
        right.0,
        if (eq(c5, c3) && !eq(c2, c6) && eq(c4, c5) && !eq(c5, a2)) || (eq(c5, c1) && eq(c6, c5) && !eq(
            c4,
            c2,
        ) && !eq(c5, a0)) {
            Blend::Avg2(c2, c5)
        } else {
            Blend::Pick(c2)
        },
        right.1,
    ]
}

/// `super_sai_2x_by` on the comparison table of `n`, where `==` has a spec.
pub open spec fn super_sai_2x_spec<T: PartialEq>(n: Seq<T>) -> Seq<Blend> {
    super_sai_2x_by(same_table(n))
}

/// The Super 2xSaI blends of the 2 x 2 block (row by row) of the source pixel whose 4 x 4
/// neighbourhood has the comparison table `eq` (see `super_sai_2x_by` and `comparisons`).
pub fn super_sai_2x_rule(eq: &[bool]) -> (r: [Blend; 4])
    requires
        eq@.len() == 256,
    ensures
        r@ == super_sai_2x_by(eq@),
{
    let product1a;
    let product1b;
    let product2a;
    let product2b;
    if eq_at(eq, 9, 6) && !eq_at(eq, 5, 10) {
        product2b = Blend::Pick(9);
        product1b = Blend::Pick(9);
    } else if eq_at(eq, 5, 10) && !eq_at(eq, 9, 6) {
        product2b = Blend::Pick(5);
        product1b = Blend::Pick(5);
    } else if eq_at(eq, 5, 10) && eq_at(eq, 9, 6) {
        let mut r: i32 = 0;
        r += vote_at(eq, 6, 5, 8, 13);
        r += vote_at(eq, 6, 5, 4, 1);
        r += vote_at(eq, 6, 5, 14, 11);
        r += vote_at(eq, 6, 5, 2, 7);
        if r > 0 {
            product2b = Blend::Pick(6);
            product1b = Blend::Pick(6);
        } else if r < 0 {
            product2b = Blend::Pick(5);
            product1b = Blend::Pick(5);
        } else {
            product2b = Blend::Avg2(5, 6);
            product1b = Blend::Avg2(5, 6);
        }
    } else {
        if eq_at(eq, 6, 10) && eq_at(eq, 10, 13) && !eq_at(eq, 9, 14) && !eq_at(eq, 10, 12) {
            product2b = Blend::Avg4(10, 10, 10, 9);
        } else if eq_at(eq, 5, 9) && eq_at(eq, 9, 14) && !eq_at(eq, 13, 10) && !eq_at(eq, 9, 15) {
            product2b = Blend::Avg4(9, 9, 9, 10);
        } else {
            product2b = Blend::Avg2(9, 10);
        }
        if eq_at(eq, 6, 10) && eq_at(eq, 6, 1) && !eq_at(eq, 5, 2) && !eq_at(eq, 6, 0) {
            product1b = Blend::Avg4(6, 6, 6, 5);
        } else if eq_at(eq, 5, 9) && eq_at(eq, 5, 2) && !eq_at(eq, 1, 6) && !eq_at(eq, 5, 3) {
            product1b = Blend::Avg4(6, 5, 5, 5);
        } else {
            product1b = Blend::Avg2(5, 6);
        }
    }
    if (eq_at(eq, 5, 10) && !eq_at(eq, 9, 6) && eq_at(eq, 4, 5) && !eq_at(eq, 5, 14)) || (eq_at(eq, 5, 8) && eq_at(eq, 6, 5) && !eq_at(eq, 4, 9) && !eq_at(eq, 5, 12)) {
        product2a = Blend::Avg2(9, 5);
    } else {
        product2a = Blend::Pick(9);
    }
    if (eq_at(eq, 9, 6) && !eq_at(eq, 5, 10) && eq_at(eq, 8, 9) && !eq_at(eq, 9, 2)) || (eq_at(eq, 4, 9) && eq_at(eq, 10, 9) && !eq_at(eq, 8, 5) && !eq_at(eq, 9, 0)) {
        product1a = Blend::Avg2(9, 5);
    } else {
        product1a = Blend::Pick(5);
    }
    let r = [product1a, product1b, product2a, product2b];
    assert(r@ =~= super_sai_2x_by(eq@));
    r
}

/// `c` where the neighbour index `a` is `k`, else nothing.
pub open spec fn share(a: u8, k: int, c: int) -> int {
    if a as int == k {
        c
    } else {
        0
    }
}

/// The weight, in eighths, that the blend `b` gives to the neighbour `n[k]`.
pub open spec fn blend_weight(b: Blend, k: int) -> int {
    match b {
        Blend::Pick(a) => share(a, k, 8),
        Blend::Avg2(a, c) => share(a, k, 4) + share(c, k, 4),
        Blend::Avg4(a, c, d, e) => share(a, k, 2) + share(c, k, 2) + share(d, k, 2) + share(e, k, 2),
        Blend::Avg2Of(a, c, d) => share(a, k, 4) + share(c, k, 2) + share(d, k, 2),
        Blend::Avg4Of(a, c, d) => share(a, k, 6) + share(c, k, 1) + share(d, k, 1),
    }
}

/// Where the mirror across the diagonal from the top left corner moves cell `k` of the 4 x 4
/// neighbourhood.
pub open spec fn mirrored(k: int) -> int {
    (k % 4) * 4 + k / 4
}

/// The 4 x 4 neighbourhood `n` mirrored across its diagonal from the top left corner.
pub open spec fn mirror16<T>(n: Seq<T>) -> Seq<T> {
    Seq::new(16, |i: int| n[mirrored(i)])
}

/// The blend `b` on the mirrored neighbours.
pub open spec fn mirror_blend(b: Blend) -> Blend {
    let m = |a: u8| mirrored(a as int) as u8;
    match b {
        Blend::Pick(a) => Blend::Pick(m(a)),
        Blend::Avg2(a, c) => Blend::Avg2(m(a), m(c)),
        Blend::Avg4(a, c, d, e) => Blend::Avg4(m(a), m(c), m(d), m(e)),
        Blend::Avg2Of(a, c, d) => Blend::Avg2Of(m(a), m(c), m(d)),
        Blend::Avg4Of(a, c, d) => Blend::Avg4Of(m(a), m(c), m(d)),
    }
}

/// Every neighbour index of the blend `b` names one of `n[0]` ..= `n[15]`.
pub open spec fn blend_in_range(b: Blend) -> bool {
    match b {
        Blend::Pick(a) => a < 16,
        Blend::Avg2(a, c) => a < 16 && c < 16,
        Blend::Avg4(a, c, d, e) => a < 16 && c < 16 && d < 16 && e < 16,
        Blend::Avg2Of(a, c, d) | Blend::Avg4Of(a, c, d) => a < 16 && c < 16 && d < 16,
    }
}

/// The mirror moves the sixteen neighbours onto the sixteen neighbours, none onto another's
/// place.
proof fn lemma_mirrored(a: int, k: int)
    requires
        0 <= a < 16,
        0 <= k < 16,
    ensures
        0 <= mirrored(a) < 16,
        (mirrored(a) == mirrored(k)) == (a == k),
{
    assert(0 <= a % 4 < 4 && 0 <= a / 4 < 4);
    assert(0 <= k % 4 < 4 && 0 <= k / 4 < 4);
    assert(a == 4 * (a / 4) + a % 4);
    assert(k == 4 * (k / 4) + k % 4);
}

/// The mirrored blend gives the mirrored neighbour of `n[k]` the weight that `b` gives `n[k]`.
proof fn lemma_mirror_blend_weight(b: Blend, k: int)
    requires
        blend_in_range(b),
        0 <= k < 16,
    ensures
        blend_weight(mirror_blend(b), mirrored(k)) == blend_weight(b, k),
{
    match b {
        Blend::Pick(a) => {
            lemma_mirrored(a as int, k);
        },
        Blend::Avg2(a, c) => {
            lemma_mirrored(a as int, k);
            lemma_mirrored(c as int, k);
        },
        Blend::Avg4(a, c, d, e) => {
            lemma_mirrored(a as int, k);
            lemma_mirrored(c as int, k);
            lemma_mirrored(d as int, k);
            lemma_mirrored(e as int, k);
        },
        Blend::Avg2Of(a, c, d) | Blend::Avg4Of(a, c, d) => {
            lemma_mirrored(a as int, k);
            lemma_mirrored(c as int, k);
            lemma_mirrored(d as int, k);
        },
    }
}

/// The comparison table of the mirrored neighbourhood: the outcome for neighbours `x` and `y`
/// is the one of `e` for the neighbours the mirror took them from.
pub open spec fn mirror_table(e: Seq<bool>) -> Seq<bool> {
    Seq::new(256, |k: int| e[mirrored(k / 16) * 16 + mirrored(k % 16)])
}

/// 2xSaI treats the two halves of the block across its diagonal alike: where the neighbours to
/// the right of and below the source pixel compare unequal, mirroring the neighbourhood across
/// the diagonal mirrors the block, its top right and bottom left pixels trading places, each
/// blending the mirrored neighbours with the same weights. (Where those two neighbours compare
/// equal, the rule picks the right one, so the mirror then picks the other.) The law asks of
/// the comparisons only that they do not depend on the order of the two pixels.
pub proof fn lemma_sai_2x_mirror(e: Seq<bool>)
    requires
        e.len() == 256,
        !eq_in(e, 6, 9),
        forall|x: u8, y: u8| x < 16 && y < 16 ==> #[trigger] eq_in(e, x, y) == eq_in(e, y, x),
    ensures
        forall|i: int, k: int|
            0 <= i < 4 && 0 <= k < 16 ==> blend_weight(
                sai_2x_by(mirror_table(e))[(i % 2) * 2 + i / 2],
                mirrored(k),
            ) == #[trigger] blend_weight(sai_2x_by(e)[i], k),
{
    let m = mirror_table(e);
    assert forall|x: u8, y: u8| x < 16 && y < 16 implies #[trigger] eq_in(m, x, y) == eq_in(
        e,
        mirrored(x as int) as u8,
        mirrored(y as int) as u8,
    ) by {
        vstd::arithmetic::div_mod::lemma_fundamental_div_mod_converse(
            x as int * 16 + y as int,
            16,
            x as int,
            y as int,
        );
        lemma_mirrored(x as int, y as int);
        lemma_mirrored(y as int, x as int);
    }
    assert(eq_in(e, 9, 6) == eq_in(e, 6, 9));
    let s1 = sai_2x_by(e);
    let s2 = sai_2x_by(m);
    assert(s2[0] == mirror_blend(s1[0]));
    assert(s2[2] == mirror_blend(s1[1]));
    assert(s2[1] == mirror_blend(s1[2]));
    assert(s2[3] == mirror_blend(s1[3]) || (s1[3] == Blend::Avg4(5, 6, 9, 10) && s2[3] == Blend::Avg4(
        5,
        6,
        9,
        10,
    )));
    assert forall|i: int, k: int| 0 <= i < 4 && 0 <= k < 16 implies blend_weight(
        s2[(i % 2) * 2 + i / 2],
        mirrored(k),
    ) == #[trigger] blend_weight(s1[i], k) by {
        assert(i == 0 || i == 1 || i == 2 || i == 3);
        assert(blend_in_range(s1[i]));
        lemma_mirror_blend_weight(s1[i], k);
        if i == 3 && s2[3] != mirror_blend(s1[3]) {
            lemma_mirrored(k, 5);
            lemma_mirrored(k, 6);
            lemma_mirrored(k, 9);
            lemma_mirrored(k, 10);
            assert(mirrored(5) == 5 && mirrored(6) == 9 && mirrored(9) == 6 && mirrored(10) == 10);
        }
    }
}

/// The blend `b` is a mean of the four pixels of the 2 x 2 core of the neighbourhood, the
/// source pixel `n[5]`, its right neighbour `n[6]`, the one below it `n[9]` and the one
/// diagonally below right `n[10]`: it gives them weights that sum to one and nothing to any
/// other neighbour.
pub open spec fn core_mean(b: Blend) -> bool {
    &&& blend_weight(b, 5) + blend_weight(b, 6) + blend_weight(b, 9) + blend_weight(b, 10) == 8
    &&& forall|k: int|
        0 <= k < 16 && k != 5 && k != 6 && k != 9 && k != 10 ==> #[trigger] blend_weight(b, k) == 0
}

/// `a` names one of the four pixels of the 2 x 2 core.
spec fn in_core(a: u8) -> bool {
    a == 5 || a == 6 || a == 9 || a == 10
}

/// Every neighbour that the blend `b` names is one of the core.
spec fn names_core(b: Blend) -> bool {
    match b {
        Blend::Pick(a) => in_core(a),
        Blend::Avg2(a, c) => in_core(a) && in_core(c),
        Blend::Avg4(a, c, d, e) => in_core(a) && in_core(c) && in_core(d) && in_core(e),
        Blend::Avg2Of(a, c, d) | Blend::Avg4Of(a, c, d) => in_core(a) && in_core(c) && in_core(d),
    }
}

proof fn lemma_share_core(a: u8, c: int)
    requires
        in_core(a),
    ensures
        share(a, 5, c) + share(a, 6, c) + share(a, 9, c) + share(a, 10, c) == c,
        forall|k: int| k != 5 && k != 6 && k != 9 && k != 10 ==> #[trigger] share(a, k, c) == 0,
{
}

proof fn lemma_core_mean(b: Blend)
    requires
        names_core(b),
    ensures
        core_mean(b),
{
    match b {
        Blend::Pick(a) => {
            lemma_share_core(a, 8);
        },
        Blend::Avg2(a, c) => {
            lemma_share_core(a, 4);
            lemma_share_core(c, 4);
        },
        Blend::Avg4(a, c, d, e) => {
            lemma_share_core(a, 2);
            lemma_share_core(c, 2);
            lemma_share_core(d, 2);
            lemma_share_core(e, 2);
        },
        Blend::Avg2Of(a, c, d) => {
            lemma_share_core(a, 4);
            lemma_share_core(c, 2);
            lemma_share_core(d, 2);
        },
        Blend::Avg4Of(a, c, d) => {
            lemma_share_core(a, 6);
            lemma_share_core(c, 1);
            lemma_share_core(d, 1);
        },
    }
}

/// 2xSaI follows the diagonals of the 2 x 2 core: the top left pixel is the source pixel `A`;
/// where `A` and the pixel `D` diagonally below right of it compare equal and the other diagonal
/// `B`, `C` does not, the bottom right pixel is `A`; where only `B` and `C` compare equal, it
/// is `B`; where neither diagonal does, it is the mean of all four; where both do and `A`
/// equals `B`, the whole block is `A`. Every pixel is a mean of the core.
pub proof fn lemma_sai_2x_diagonals(t: Seq<bool>)
    requires
        t.len() == 256,
    ensures
        sai_2x_by(t).len() == 4,
        sai_2x_by(t)[0] == Blend::Pick(5),
        eq_in(t, 5, 10) && !eq_in(t, 6, 9) ==> sai_2x_by(t)[3] == Blend::Pick(5),
        eq_in(t, 6, 9) && !eq_in(t, 5, 10) ==> sai_2x_by(t)[3] == Blend::Pick(6),
        !eq_in(t, 5, 10) && !eq_in(t, 6, 9) ==> sai_2x_by(t)[3] == Blend::Avg4(5, 6, 9, 10),
        eq_in(t, 5, 10) && eq_in(t, 6, 9) && eq_in(t, 5, 6) ==> sai_2x_by(t) == seq![
            Blend::Pick(5),
            Blend::Pick(5),
            Blend::Pick(5),
            Blend::Pick(5),
        ],
        forall|i: int| 0 <= i < 4 ==> core_mean(#[trigger] sai_2x_by(t)[i]),
{
    let r = sai_2x_by(t);
    assert(names_core(r[0]) && names_core(r[1]) && names_core(r[2]) && names_core(r[3]));
    assert forall|i: int| 0 <= i < 4 implies core_mean(#[trigger] r[i]) by {
        assert(i == 0 || i == 1 || i == 2 || i == 3);
        lemma_core_mean(r[i]);
    }
}

/// Super Eagle follows the diagonals of the 2 x 2 core (`c5` the source pixel, `c6` right of it,
/// `c2` below it, `c3` diagonally below right): where only the diagonal `c2`, `c6` compares
/// equal, the top right and bottom left pixels are `c2`; where only `c5`, `c3` does, the top
/// left and bottom right pixels are `c5`; where neither does, each pixel leans on its own corner
/// of the core with six eighths. Every pixel is a mean of the core.
pub proof fn lemma_super_eagle_2x_diagonals(t: Seq<bool>)
    requires
        t.len() == 256,
    ensures
        super_eagle_2x_by(t).len() == 4,
        eq_in(t, 9, 6) && !eq_in(t, 5, 10) ==> super_eagle_2x_by(t)[1] == Blend::Pick(9)
            && super_eagle_2x_by(t)[2] == Blend::Pick(9),
        eq_in(t, 5, 10) && !eq_in(t, 9, 6) ==> super_eagle_2x_by(t)[0] == Blend::Pick(5)
            && super_eagle_2x_by(t)[3] == Blend::Pick(5),
        !eq_in(t, 5, 10) && !eq_in(t, 9, 6) ==> blend_weight(super_eagle_2x_by(t)[0], 5) == 6
            && blend_weight(super_eagle_2x_by(t)[1], 6) == 6 && blend_weight(super_eagle_2x_by(t)[2], 9)
            == 6 && blend_weight(super_eagle_2x_by(t)[3], 10) == 6,
        forall|i: int| 0 <= i < 4 ==> core_mean(#[trigger] super_eagle_2x_by(t)[i]),
{
    let r = super_eagle_2x_by(t);
    assert(names_core(r[0]) && names_core(r[1]) && names_core(r[2]) && names_core(r[3]));
    assert forall|i: int| 0 <= i < 4 implies core_mean(#[trigger] r[i]) by {
        assert(i == 0 || i == 1 || i == 2 || i == 3);
        lemma_core_mean(r[i]);
    }
}

/// Super 2xSaI follows the diagonals of the 2 x 2 core (named as in Super Eagle): where only the
/// diagonal `c2`, `c6` compares equal, the right column of the block is `c2`; where only `c5`,
/// `c3` does, it is `c5`; the top left pixel gives the source pixel `c5` at least half, the
/// bottom left one gives `c2` at least half. Every pixel is a mean of the core.
pub proof fn lemma_super_sai_2x_diagonals(t: Seq<bool>)
    requires
        t.len() == 256,
    ensures
        super_sai_2x_by(t).len() == 4,
        eq_in(t, 9, 6) && !eq_in(t, 5, 10) ==> super_sai_2x_by(t)[1] == Blend::Pick(9)
            && super_sai_2x_by(t)[3] == Blend::Pick(9),
        eq_in(t, 5, 10) && !eq_in(t, 9, 6) ==> super_sai_2x_by(t)[1] == Blend::Pick(5)
            && super_sai_2x_by(t)[3] == Blend::Pick(5),
        blend_weight(super_sai_2x_by(t)[0], 5) >= 4,
        blend_weight(super_sai_2x_by(t)[2], 9) >= 4,
        forall|i: int| 0 <= i < 4 ==> core_mean(#[trigger] super_sai_2x_by(t)[i]),
{
    let r = super_sai_2x_by(t);
    assert(names_core(r[0]) && names_core(r[1]) && names_core(r[2]) && names_core(r[3]));
    assert forall|i: int| 0 <= i < 4 implies core_mean(#[trigger] r[i]) by {
        assert(i == 0 || i == 1 || i == 2 || i == 3);
        lemma_core_mean(r[i]);
    }
}

} // verus!
