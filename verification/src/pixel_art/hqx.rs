use vstd::prelude::*;

pub mod hq3x;
pub mod hq4x;

verus! {

/// How one pixel of an hqx output block blends the 3 x 3 neighbourhood `w[1]` ..= `w[9]` of its
/// source pixel, taken row by row so that `w[5]` is the source pixel itself: `Pick(a)` is
/// `w[a]` as it is, and `InterpN` is the weighted mean of the neighbours it names with the
/// weights of the N-th hqx interpolation, which `weight` gives.
#[derive(Clone, Copy, Debug, PartialEq, Eq)]
pub enum Mix {
    Pick(u8),
    Interp1(u8, u8),
    Interp2(u8, u8, u8),
    Interp3(u8, u8),
    Interp4(u8, u8, u8),
    Interp5(u8, u8),
    Interp6(u8, u8, u8),
    Interp7(u8, u8, u8),
    Interp8(u8, u8),
}

/// Which pairs of edge neighbours differ in color: `w[2]` and `w[6]` (`top_right`), `w[6]` and
/// `w[8]` (`bottom_right`), `w[8]` and `w[4]` (`bottom_left`), `w[4]` and `w[2]` (`top_left`).
#[derive(Clone, Copy, Debug, PartialEq, Eq)]
pub struct Edges {
    pub top_right: bool,
    pub bottom_right: bool,
    pub bottom_left: bool,
    pub top_left: bool,
}

/// `c` where the neighbour index `a` is `k`, else nothing.
pub open spec fn at(a: u8, k: int, c: int) -> int {
    if a as int == k {
        c
    } else {
        0
    }
}

/// The weight, in sixteenths, that the blend `m` gives to the neighbour `w[k]`:
/// `Interp1(a, b)` is `(3 w[a] + w[b]) / 4`, `Interp2(a, b, c)` is `(2 w[a] + w[b] + w[c]) / 4`,
/// `Interp3(a, b)` is `(7 w[a] + w[b]) / 8`, `Interp4(a, b, c)` is
/// `(2 w[a] + 7 w[b] + 7 w[c]) / 16`, `Interp5(a, b)` is `(w[a] + w[b]) / 2`,
/// `Interp6(a, b, c)` is `(5 w[a] + 2 w[b] + w[c]) / 8`, `Interp7(a, b, c)` is
/// `(6 w[a] + w[b] + w[c]) / 8` and `Interp8(a, b)` is `(5 w[a] + 3 w[b]) / 8`.
pub open spec fn weight(m: Mix, k: int) -> int {
    match m {
        Mix::Pick(a) => at(a, k, 16),
        Mix::Interp1(a, b) => at(a, k, 12) + at(b, k, 4),
        Mix::Interp2(a, b, c) => at(a, k, 8) + at(b, k, 4) + at(c, k, 4),
        Mix::Interp3(a, b) => at(a, k, 14) + at(b, k, 2),
        Mix::Interp4(a, b, c) => at(a, k, 2) + at(b, k, 7) + at(c, k, 7),
        Mix::Interp5(a, b) => at(a, k, 8) + at(b, k, 8),
        Mix::Interp6(a, b, c) => at(a, k, 10) + at(b, k, 4) + at(c, k, 2),
        Mix::Interp7(a, b, c) => at(a, k, 12) + at(b, k, 2) + at(c, k, 2),
        Mix::Interp8(a, b) => at(a, k, 10) + at(b, k, 6),
    }
}

/// The sum of the weights that the blend `m` gives to `w[1]` ..= `w[9]`.
pub open spec fn total_weight(m: Mix) -> int {
    weight(m, 1) + weight(m, 2) + weight(m, 3) + weight(m, 4) + weight(m, 5) + weight(m, 6) + weight(
        m,
        7,
    ) + weight(m, 8) + weight(m, 9)
}

/// The weights that a valid index `a` gets, over all nine neighbours, sum to `c`.
proof fn lemma_at_sum(a: u8, c: int)
    requires
        valid_index(a),
    ensures
        at(a, 1, c) + at(a, 2, c) + at(a, 3, c) + at(a, 4, c) + at(a, 5, c) + at(a, 6, c) + at(a, 7, c)
            + at(a, 8, c) + at(a, 9, c) == c,
{
    assert(a == 1 || a == 2 || a == 3 || a == 4 || a == 5 || a == 6 || a == 7 || a == 8 || a == 9);
}

/// A blend of valid neighbours is a weighted mean of the neighbourhood: its weights are not
/// negative and sum to one (sixteen sixteenths).
pub proof fn lemma_mix_is_mean(m: Mix)
    requires
        valid_mix(m),
    ensures
        total_weight(m) == 16,
        forall|k: int| #[trigger] weight(m, k) >= 0,
{
    match m {
        Mix::Pick(a) => {
            lemma_at_sum(a, 16);
        },
        Mix::Interp1(a, b) => {
            lemma_at_sum(a, 12);
            lemma_at_sum(b, 4);
        },
        Mix::Interp2(a, b, c) => {
            lemma_at_sum(a, 8);
            lemma_at_sum(b, 4);
            lemma_at_sum(c, 4);
        },
        Mix::Interp3(a, b) => {
            lemma_at_sum(a, 14);
            lemma_at_sum(b, 2);
        },
        Mix::Interp4(a, b, c) => {
            lemma_at_sum(a, 2);
            lemma_at_sum(b, 7);
            lemma_at_sum(c, 7);
        },
        Mix::Interp5(a, b) => {
            lemma_at_sum(a, 8);
            lemma_at_sum(b, 8);
        },
        Mix::Interp6(a, b, c) => {
            lemma_at_sum(a, 10);
            lemma_at_sum(b, 4);
            lemma_at_sum(c, 2);
        },
        Mix::Interp7(a, b, c) => {
            lemma_at_sum(a, 12);
            lemma_at_sum(b, 2);
            lemma_at_sum(c, 2);
        },
        Mix::Interp8(a, b) => {
            lemma_at_sum(a, 10);
            lemma_at_sum(b, 6);
        },
    }
}

/// The value of bit `j` of a pattern.
pub open spec fn bit_value(j: int) -> int {
    if j == 0 {
        1
    } else if j == 1 {
        2
    } else if j == 2 {
        4
    } else if j == 3 {
        8
    } else if j == 4 {
        16
    } else if j == 5 {
        32
    } else if j == 6 {
        64
    } else {
        128
    }
}

/// The bit of a pattern that stands for the neighbour `w[k]`: the bits stand for `w[1]`,
/// `w[2]`, `w[3]`, `w[4]`, `w[6]`, `w[7]`, `w[8]` and `w[9]` in turn.
pub open spec fn bit_of_neighbour(k: int) -> int {
    if k < 5 {
        k - 1
    } else {
        k - 2
    }
}

/// Whether bit `j` of `pattern` is set.
pub open spec fn bit_set(pattern: u8, j: int) -> bool {
    (pattern as int / bit_value(j)) % 2 == 1
}

/// In the neighbourhood of pattern `p`, the neighbour `w[k]` differs from the source pixel.
pub open spec fn differs(p: u8, k: int) -> bool {
    bit_set(p, bit_of_neighbour(k))
}

/// The corner pixel `m` of a block follows the two edge neighbours `w[a]` and `w[b]` beside its
/// corner, which differ from each other where `apart` says so: where both look like the source
/// pixel it blends both in; where both differ from it and from each other it leaves both out;
/// and where both differ from it but not from each other, while the four diagonal neighbours
/// all look like the source pixel, it blends both in again.
pub open spec fn corner_follows_edges(m: Mix, p: u8, a: int, b: int, apart: bool) -> bool {
    &&& !differs(p, a) && !differs(p, b) ==> weight(m, a) > 0 && weight(m, b) > 0
    &&& differs(p, a) && differs(p, b) && apart ==> weight(m, a) == 0 && weight(m, b) == 0
    &&& differs(p, a) && differs(p, b) && !apart && !differs(p, 1) && !differs(p, 3) && !differs(p, 7)
        && !differs(p, 9) ==> weight(m, a) > 0 && weight(m, b) > 0
}

/// The pattern of a neighbourhood in which `differs[j]` tells whether the neighbour of bit `j`
/// differs from the centre.
pub open spec fn pattern_value(differs: Seq<bool>) -> int {
    (if differs[0] { 1int } else { 0int }) + (if differs[1] { 2int } else { 0int }) + (if differs[2] {
        4int
    } else {
        0int
    }) + (if differs[3] { 8int } else { 0int }) + (if differs[4] { 16int } else { 0int }) + (
    if differs[5] {
        32int
    } else {
        0int
    }) + (if differs[6] { 64int } else { 0int }) + (if differs[7] { 128int } else { 0int })
}

/// The pattern that selects the hqx rule of a source pixel: bit `j` is set where the neighbour
/// of bit `j` differs from the centre, as `differs[j]` says.
pub fn neighbour_pattern(differs: [bool; 8]) -> (pattern: u8)
    ensures
        pattern == pattern_value(differs@),
{
    let mut pattern: u8 = 0;
    if differs[0] {
        pattern += 1;
    }
    if differs[1] {
        pattern += 2;
    }
    if differs[2] {
        pattern += 4;
    }
    if differs[3] {
        pattern += 8;
    }
    if differs[4] {
        pattern += 16;
    }
    if differs[5] {
        pattern += 32;
    }
    if differs[6] {
        pattern += 64;
    }
    if differs[7] {
        pattern += 128;
    }
    pattern
}

/// The two symmetries of the square that together make all eight: a quarter turn clockwise,
/// and the mirror across the diagonal from the top left corner to the bottom right one.
#[derive(Clone, Copy, Debug, PartialEq, Eq)]
pub enum Symmetry {
    Turn,
    Mirror,
}

/// Where the symmetry `s` moves cell `i` (row-major) of an `n` x `n` grid.
pub open spec fn moved(s: Symmetry, n: int, i: int) -> int {
    let row = i / n;
    let col = i % n;
    match s {
        Symmetry::Turn => col * n + (n - 1 - row),
        Symmetry::Mirror => col * n + row,
    }
}

/// Where the symmetry `s` moves the neighbour `w[k]`.
#[verifier::opaque]
pub open spec fn moved_neighbour(s: Symmetry, k: int) -> int {
    moved(s, 3, k - 1) + 1
}

/// Where `s` moves each of the nine neighbours, worked out.
pub proof fn lemma_moved_neighbours(s: Symmetry)
    ensures
        match s {
            Symmetry::Turn => {
                &&& moved_neighbour(s, 1) == 3
                &&& moved_neighbour(s, 2) == 6
                &&& moved_neighbour(s, 3) == 9
                &&& moved_neighbour(s, 4) == 2
                &&& moved_neighbour(s, 5) == 5
                &&& moved_neighbour(s, 6) == 8
                &&& moved_neighbour(s, 7) == 1
                &&& moved_neighbour(s, 8) == 4
                &&& moved_neighbour(s, 9) == 7
            },
            Symmetry::Mirror => {
                &&& moved_neighbour(s, 1) == 1
                &&& moved_neighbour(s, 2) == 4
                &&& moved_neighbour(s, 3) == 7
                &&& moved_neighbour(s, 4) == 2
                &&& moved_neighbour(s, 5) == 5
                &&& moved_neighbour(s, 6) == 8
                &&& moved_neighbour(s, 7) == 3
                &&& moved_neighbour(s, 8) == 6
                &&& moved_neighbour(s, 9) == 9
            },
        },
{
    reveal(moved_neighbour);
}

/// The pattern of the neighbourhood moved by `s`: its bit for the moved neighbour of `w[k]`
/// is the bit of `pattern` for `w[k]`.
#[verifier::opaque]
pub open spec fn sym_pattern(s: Symmetry, pattern: u8) -> u8 {
    ((if bit_set(pattern, 0) { bit_value(bit_of_neighbour(moved_neighbour(s, 1))) } else { 0 })
        + (if bit_set(pattern, 1) { bit_value(bit_of_neighbour(moved_neighbour(s, 2))) } else { 0 })
        + (if bit_set(pattern, 2) { bit_value(bit_of_neighbour(moved_neighbour(s, 3))) } else { 0 })
        + (if bit_set(pattern, 3) { bit_value(bit_of_neighbour(moved_neighbour(s, 4))) } else { 0 })
        + (if bit_set(pattern, 4) { bit_value(bit_of_neighbour(moved_neighbour(s, 6))) } else { 0 })
        + (if bit_set(pattern, 5) { bit_value(bit_of_neighbour(moved_neighbour(s, 7))) } else { 0 })
        + (if bit_set(pattern, 6) { bit_value(bit_of_neighbour(moved_neighbour(s, 8))) } else { 0 })
        + (if bit_set(pattern, 7) { bit_value(bit_of_neighbour(moved_neighbour(s, 9))) } else { 0 })) as u8
}

/// `sym_pattern` for the quarter turn, with the arithmetic worked out.
pub open spec fn turned_pattern(pattern: u8) -> int {
    (if (pattern as int) % 2 == 1 { 4int } else { 0int })
        + (if (pattern as int / 2) % 2 == 1 { 16int } else { 0int })
        + (if (pattern as int / 4) % 2 == 1 { 128int } else { 0int })
        + (if (pattern as int / 8) % 2 == 1 { 2int } else { 0int })
        + (if (pattern as int / 16) % 2 == 1 { 64int } else { 0int })
        + (if (pattern as int / 32) % 2 == 1 { 1int } else { 0int })
        + (if (pattern as int / 64) % 2 == 1 { 8int } else { 0int })
        + (if (pattern as int / 128) % 2 == 1 { 32int } else { 0int })
}

/// `sym_pattern` for the mirror, with the arithmetic worked out.
pub open spec fn mirrored_pattern(pattern: u8) -> int {
    (if (pattern as int) % 2 == 1 { 1int } else { 0int })
        + (if (pattern as int / 2) % 2 == 1 { 8int } else { 0int })
        + (if (pattern as int / 4) % 2 == 1 { 32int } else { 0int })
        + (if (pattern as int / 8) % 2 == 1 { 2int } else { 0int })
        + (if (pattern as int / 16) % 2 == 1 { 64int } else { 0int })
        + (if (pattern as int / 32) % 2 == 1 { 4int } else { 0int })
        + (if (pattern as int / 64) % 2 == 1 { 16int } else { 0int })
        + (if (pattern as int / 128) % 2 == 1 { 128int } else { 0int })
}

/// `sym_pattern` worked out for each symmetry.
pub proof fn lemma_sym_pattern(s: Symmetry, pattern: u8)
    ensures
        sym_pattern(s, pattern) as int == match s {
            Symmetry::Turn => turned_pattern(pattern),
            Symmetry::Mirror => mirrored_pattern(pattern),
        },
{
    reveal(sym_pattern);
    reveal(moved_neighbour);
}

/// The edge differences of the neighbourhood moved by `s`.
pub open spec fn sym_edges(s: Symmetry, e: Edges) -> Edges {
    match s {
        Symmetry::Turn => Edges {
            top_right: e.top_left,
            bottom_right: e.top_right,
            bottom_left: e.bottom_right,
            top_left: e.bottom_left,
        },
        Symmetry::Mirror => Edges {
            top_right: e.bottom_left,
            bottom_right: e.bottom_right,
            bottom_left: e.top_right,
            top_left: e.top_left,
        },
    }
}

/// The neighbour index `a` names one of `w[1]` ..= `w[9]`.
pub open spec fn valid_index(a: u8) -> bool {
    1 <= a <= 9
}

/// Every neighbour index of the blend `m` names one of `w[1]` ..= `w[9]`.
pub open spec fn valid_mix(m: Mix) -> bool {
    match m {
        Mix::Pick(a) => valid_index(a),
        Mix::Interp1(a, b) | Mix::Interp3(a, b) | Mix::Interp5(a, b) | Mix::Interp8(a, b) => valid_index(a)
            && valid_index(b),
        Mix::Interp2(a, b, c) | Mix::Interp4(a, b, c) | Mix::Interp6(a, b, c) | Mix::Interp7(
            a,
            b,
            c,
        ) => valid_index(a) && valid_index(b) && valid_index(c),
    }
}

/// `m2` is the blend `m1` of the neighbourhood moved by `s`: the same formula on the moved
/// neighbours, but for the order of two neighbours that the formula weighs alike.
pub open spec fn moves_to(s: Symmetry, m1: Mix, m2: Mix) -> bool {
    match (m1, m2) {
        (Mix::Pick(a), Mix::Pick(x)) => x as int == moved_neighbour(s, a as int),
        (Mix::Interp1(a, b), Mix::Interp1(x, y))
        | (Mix::Interp3(a, b), Mix::Interp3(x, y))
        | (Mix::Interp8(a, b), Mix::Interp8(x, y)) => x as int == moved_neighbour(s, a as int) && y as int
            == moved_neighbour(s, b as int),
        (Mix::Interp5(a, b), Mix::Interp5(x, y)) => (x as int == moved_neighbour(s, a as int) && y as int
            == moved_neighbour(s, b as int)) || (x as int == moved_neighbour(s, b as int) && y as int
            == moved_neighbour(s, a as int)),
        (Mix::Interp6(a, b, c), Mix::Interp6(x, y, z)) => x as int == moved_neighbour(s, a as int) && y as int
            == moved_neighbour(s, b as int) && z as int == moved_neighbour(s, c as int),
        (Mix::Interp2(a, b, c), Mix::Interp2(x, y, z))
        | (Mix::Interp4(a, b, c), Mix::Interp4(x, y, z))
        | (Mix::Interp7(a, b, c), Mix::Interp7(x, y, z)) => x as int == moved_neighbour(s, a as int) && ((y as int
            == moved_neighbour(s, b as int) && z as int == moved_neighbour(s, c as int)) || (y as int
            == moved_neighbour(s, c as int) && z as int == moved_neighbour(s, b as int))),
        _ => false,
    }
}

/// `s` moves the nine neighbours onto the nine neighbours, none onto another's place.
pub proof fn lemma_moved_neighbour(s: Symmetry, a: int, k: int)
    requires
        1 <= a <= 9,
        1 <= k <= 9,
    ensures
        1 <= moved_neighbour(s, a) <= 9,
        (moved_neighbour(s, a) == moved_neighbour(s, k)) == (a == k),
{
    reveal(moved_neighbour);
    assert(a == 1 || a == 2 || a == 3 || a == 4 || a == 5 || a == 6 || a == 7 || a == 8 || a == 9);
    assert(k == 1 || k == 2 || k == 3 || k == 4 || k == 5 || k == 6 || k == 7 || k == 8 || k == 9);
}

/// Where `m2` is the blend `m1` moved by `s`, it gives the moved neighbour of `w[k]` the weight
/// that `m1` gives `w[k]`.
pub proof fn lemma_moves_to_weight(s: Symmetry, m1: Mix, m2: Mix, k: int)
    requires
        valid_mix(m1),
        moves_to(s, m1, m2),
        1 <= k <= 9,
    ensures
        weight(m2, moved_neighbour(s, k)) == weight(m1, k),
{
    match m1 {
        Mix::Pick(a) => {
            lemma_moved_neighbour(s, a as int, k);
        },
        Mix::Interp1(a, b) | Mix::Interp3(a, b) | Mix::Interp5(a, b) | Mix::Interp8(a, b) => {
            lemma_moved_neighbour(s, a as int, k);
            lemma_moved_neighbour(s, b as int, k);
        },
        Mix::Interp2(a, b, c) | Mix::Interp4(a, b, c) | Mix::Interp6(a, b, c) | Mix::Interp7(
            a,
            b,
            c,
        ) => {
            lemma_moved_neighbour(s, a as int, k);
            lemma_moved_neighbour(s, b as int, k);
            lemma_moved_neighbour(s, c as int, k);
        },
    }
}

/// Each pixel of the 3 x 3 block of blends `t1` names valid neighbours, and `t2` is `t1` moved
/// by `s`: the pixel that `s` moves cell `i` to is the same formula on the moved neighbours (see
/// `moves_to`). The cells are those of `moved`, worked out.
pub open spec fn block3_moves(s: Symmetry, t1: Seq<Mix>, t2: Seq<Mix>) -> bool {
    match s {
        Symmetry::Turn => {
            &&& valid_mix(t1[0]) && moves_to(s, t1[0], t2[2])
            &&& valid_mix(t1[1]) && moves_to(s, t1[1], t2[5])
            &&& valid_mix(t1[2]) && moves_to(s, t1[2], t2[8])
            &&& valid_mix(t1[3]) && moves_to(s, t1[3], t2[1])
            &&& valid_mix(t1[4]) && moves_to(s, t1[4], t2[4])
            &&& valid_mix(t1[5]) && moves_to(s, t1[5], t2[7])
            &&& valid_mix(t1[6]) && moves_to(s, t1[6], t2[0])
            &&& valid_mix(t1[7]) && moves_to(s, t1[7], t2[3])
            &&& valid_mix(t1[8]) && moves_to(s, t1[8], t2[6])
        },
        Symmetry::Mirror => {
            &&& valid_mix(t1[0]) && moves_to(s, t1[0], t2[0])
            &&& valid_mix(t1[1]) && moves_to(s, t1[1], t2[3])
            &&& valid_mix(t1[2]) && moves_to(s, t1[2], t2[6])
            &&& valid_mix(t1[3]) && moves_to(s, t1[3], t2[1])
            &&& valid_mix(t1[4]) && moves_to(s, t1[4], t2[4])
            &&& valid_mix(t1[5]) && moves_to(s, t1[5], t2[7])
            &&& valid_mix(t1[6]) && moves_to(s, t1[6], t2[2])
            &&& valid_mix(t1[7]) && moves_to(s, t1[7], t2[5])
            &&& valid_mix(t1[8]) && moves_to(s, t1[8], t2[8])
        },
    }
}

/// The 4 x 4 block of blends `t2` is `t1` moved by `s`, as in `block3_moves`.
pub open spec fn block4_moves(s: Symmetry, t1: Seq<Mix>, t2: Seq<Mix>) -> bool {
    match s {
        Symmetry::Turn => {
            &&& valid_mix(t1[0]) && moves_to(s, t1[0], t2[3])
            &&& valid_mix(t1[1]) && moves_to(s, t1[1], t2[7])
            &&& valid_mix(t1[2]) && moves_to(s, t1[2], t2[11])
            &&& valid_mix(t1[3]) && moves_to(s, t1[3], t2[15])
            &&& valid_mix(t1[4]) && moves_to(s, t1[4], t2[2])
            &&& valid_mix(t1[5]) && moves_to(s, t1[5], t2[6])
            &&& valid_mix(t1[6]) && moves_to(s, t1[6], t2[10])
            &&& valid_mix(t1[7]) && moves_to(s, t1[7], t2[14])
            &&& valid_mix(t1[8]) && moves_to(s, t1[8], t2[1])
            &&& valid_mix(t1[9]) && moves_to(s, t1[9], t2[5])
            &&& valid_mix(t1[10]) && moves_to(s, t1[10], t2[9])
            &&& valid_mix(t1[11]) && moves_to(s, t1[11], t2[13])
            &&& valid_mix(t1[12]) && moves_to(s, t1[12], t2[0])
            &&& valid_mix(t1[13]) && moves_to(s, t1[13], t2[4])
            &&& valid_mix(t1[14]) && moves_to(s, t1[14], t2[8])
            &&& valid_mix(t1[15]) && moves_to(s, t1[15], t2[12])
        },
        Symmetry::Mirror => {
            &&& valid_mix(t1[0]) && moves_to(s, t1[0], t2[0])
            &&& valid_mix(t1[1]) && moves_to(s, t1[1], t2[4])
            &&& valid_mix(t1[2]) && moves_to(s, t1[2], t2[8])
            &&& valid_mix(t1[3]) && moves_to(s, t1[3], t2[12])
            &&& valid_mix(t1[4]) && moves_to(s, t1[4], t2[1])
            &&& valid_mix(t1[5]) && moves_to(s, t1[5], t2[5])
            &&& valid_mix(t1[6]) && moves_to(s, t1[6], t2[9])
            &&& valid_mix(t1[7]) && moves_to(s, t1[7], t2[13])
            &&& valid_mix(t1[8]) && moves_to(s, t1[8], t2[2])
            &&& valid_mix(t1[9]) && moves_to(s, t1[9], t2[6])
            &&& valid_mix(t1[10]) && moves_to(s, t1[10], t2[10])
            &&& valid_mix(t1[11]) && moves_to(s, t1[11], t2[14])
            &&& valid_mix(t1[12]) && moves_to(s, t1[12], t2[3])
            &&& valid_mix(t1[13]) && moves_to(s, t1[13], t2[7])
            &&& valid_mix(t1[14]) && moves_to(s, t1[14], t2[11])
            &&& valid_mix(t1[15]) && moves_to(s, t1[15], t2[15])
        },
    }
}

} // verus!
