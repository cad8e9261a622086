use vstd::prelude::*;

use super::{
    block4_moves, lemma_moved_neighbours, lemma_moves_to_weight, lemma_sym_pattern, moved,
    moved_neighbour, sym_edges, sym_pattern, weight, Edges, Mix, Symmetry,
};
use super::{corner_follows_edges, lemma_mix_is_mean, total_weight, valid_mix};

verus! {

/// The hq4x blends of the 4 x 4 block (row by row) of a source pixel whose neighbourhood has the
/// pattern `pattern` (see `neighbour_pattern`) and whose edge neighbours differ as `e` says.
#[verifier::opaque]
pub open spec fn hq4x_spec(pattern: u8, e: Edges) -> Seq<Mix> {
    match pattern {
        0 | 1 | 4 | 32 | 128 | 5 | 132 | 160 | 33 | 129 | 36 | 133 | 164 | 161 | 37 | 165 => seq![
            Mix::Interp2(5, 2, 4),
            Mix::Interp6(5, 2, 4),
            Mix::Interp6(5, 2, 6),
            Mix::Interp2(5, 2, 6),
            Mix::Interp6(5, 4, 2),
            Mix::Interp7(5, 4, 2),
            Mix::Interp7(5, 6, 2),
            Mix::Interp6(5, 6, 2),
            Mix::Interp6(5, 4, 8),
            Mix::Interp7(5, 4, 8),
            Mix::Interp7(5, 6, 8),
            Mix::Interp6(5, 6, 8),
            Mix::Interp2(5, 8, 4),
            Mix::Interp6(5, 8, 4),
            Mix::Interp6(5, 8, 6),
            Mix::Interp2(5, 8, 6),
        ],
        2 | 34 | 130 | 162 => seq![
            Mix::Interp8(5, 1), Mix::Interp1(5, 1), Mix::Interp1(5, 3), Mix::Interp8(5, 3),
            Mix::Interp6(5, 4, 1), Mix::Interp3(5, 1), Mix::Interp3(5, 3), Mix::Interp6(5, 6, 3),
            Mix::Interp6(5, 4, 8),
            Mix::Interp7(5, 4, 8),
            Mix::Interp7(5, 6, 8),
            Mix::Interp6(5, 6, 8),
            Mix::Interp2(5, 8, 4),
            Mix::Interp6(5, 8, 4),
            Mix::Interp6(5, 8, 6),
            Mix::Interp2(5, 8, 6),
        ],
        16 | 17 | 48 | 49 => seq![
            Mix::Interp2(5, 2, 4), Mix::Interp6(5, 2, 4), Mix::Interp6(5, 2, 3), Mix::Interp8(5, 3),
            Mix::Interp6(5, 4, 2), Mix::Interp7(5, 4, 2), Mix::Interp3(5, 3), Mix::Interp1(5, 3),
            Mix::Interp6(5, 4, 8), Mix::Interp7(5, 4, 8), Mix::Interp3(5, 9), Mix::Interp1(5, 9),
            Mix::Interp2(5, 8, 4), Mix::Interp6(5, 8, 4), Mix::Interp6(5, 8, 9), Mix::Interp8(5, 9),
        ],
        64 | 65 | 68 | 69 => seq![
            Mix::Interp2(5, 2, 4),
            Mix::Interp6(5, 2, 4),
            Mix::Interp6(5, 2, 6),
            Mix::Interp2(5, 2, 6),
            Mix::Interp6(5, 4, 2),
            Mix::Interp7(5, 4, 2),
            Mix::Interp7(5, 6, 2),
            Mix::Interp6(5, 6, 2),
            Mix::Interp6(5, 4, 7), Mix::Interp3(5, 7), Mix::Interp3(5, 9), Mix::Interp6(5, 6, 9),
            Mix::Interp8(5, 7), Mix::Interp1(5, 7), Mix::Interp1(5, 9), Mix::Interp8(5, 9),
        ],
        8 | 12 | 136 | 140 => seq![
            Mix::Interp8(5, 1), Mix::Interp6(5, 2, 1), Mix::Interp6(5, 2, 6), Mix::Interp2(5, 2, 6),
            Mix::Interp1(5, 1), Mix::Interp3(5, 1), Mix::Interp7(5, 6, 2), Mix::Interp6(5, 6, 2),
            Mix::Interp1(5, 7), Mix::Interp3(5, 7), Mix::Interp7(5, 6, 8), Mix::Interp6(5, 6, 8),
            Mix::Interp8(5, 7), Mix::Interp6(5, 8, 7), Mix::Interp6(5, 8, 6), Mix::Interp2(5, 8, 6),
        ],
        3 | 35 | 131 | 163 => seq![
            Mix::Interp8(5, 4), Mix::Interp3(5, 4), Mix::Interp1(5, 3), Mix::Interp8(5, 3),
            Mix::Interp8(5, 4), Mix::Interp3(5, 4), Mix::Interp3(5, 3), Mix::Interp6(5, 6, 3),
            Mix::Interp6(5, 4, 8),
            Mix::Interp7(5, 4, 8),
            Mix::Interp7(5, 6, 8),
            Mix::Interp6(5, 6, 8),
            Mix::Interp2(5, 8, 4),
            Mix::Interp6(5, 8, 4),
            Mix::Interp6(5, 8, 6),
            Mix::Interp2(5, 8, 6),
        ],
        6 | 38 | 134 | 166 => seq![
            Mix::Interp8(5, 1), Mix::Interp1(5, 1), Mix::Interp3(5, 6), Mix::Interp8(5, 6),
            Mix::Interp6(5, 4, 1), Mix::Interp3(5, 1), Mix::Interp3(5, 6), Mix::Interp8(5, 6),
            Mix::Interp6(5, 4, 8),
            Mix::Interp7(5, 4, 8),
            Mix::Interp7(5, 6, 8),
            Mix::Interp6(5, 6, 8),
            Mix::Interp2(5, 8, 4),
            Mix::Interp6(5, 8, 4),
            Mix::Interp6(5, 8, 6),
            Mix::Interp2(5, 8, 6),
        ],
        20 | 21 | 52 | 53 => seq![
            Mix::Interp2(5, 2, 4), Mix::Interp6(5, 2, 4), Mix::Interp8(5, 2), Mix::Interp8(5, 2),
            Mix::Interp6(5, 4, 2), Mix::Interp7(5, 4, 2), Mix::Interp3(5, 2), Mix::Interp3(5, 2),
            Mix::Interp6(5, 4, 8), Mix::Interp7(5, 4, 8), Mix::Interp3(5, 9), Mix::Interp1(5, 9),
            Mix::Interp2(5, 8, 4), Mix::Interp6(5, 8, 4), Mix::Interp6(5, 8, 9), Mix::Interp8(5, 9),
        ],
        144 | 145 | 176 | 177 => seq![
            Mix::Interp2(5, 2, 4), Mix::Interp6(5, 2, 4), Mix::Interp6(5, 2, 3), Mix::Interp8(5, 3),
            Mix::Interp6(5, 4, 2), Mix::Interp7(5, 4, 2), Mix::Interp3(5, 3), Mix::Interp1(5, 3),
            Mix::Interp6(5, 4, 8), Mix::Interp7(5, 4, 8), Mix::Interp3(5, 8), Mix::Interp3(5, 8),
            Mix::Interp2(5, 8, 4), Mix::Interp6(5, 8, 4), Mix::Interp8(5, 8), Mix::Interp8(5, 8),
        ],
        192 | 193 | 196 | 197 => seq![
            Mix::Interp2(5, 2, 4),
            Mix::Interp6(5, 2, 4),
            Mix::Interp6(5, 2, 6),
            Mix::Interp2(5, 2, 6),
            Mix::Interp6(5, 4, 2),
            Mix::Interp7(5, 4, 2),
            Mix::Interp7(5, 6, 2),
            Mix::Interp6(5, 6, 2),
            Mix::Interp6(5, 4, 7), Mix::Interp3(5, 7), Mix::Interp3(5, 6), Mix::Interp8(5, 6),
            Mix::Interp8(5, 7), Mix::Interp1(5, 7), Mix::Interp3(5, 6), Mix::Interp8(5, 6),
        ],
        96 | 97 | 100 | 101 => seq![
            Mix::Interp2(5, 2, 4),
            Mix::Interp6(5, 2, 4),
            Mix::Interp6(5, 2, 6),
            Mix::Interp2(5, 2, 6),
            Mix::Interp6(5, 4, 2),
            Mix::Interp7(5, 4, 2),
            Mix::Interp7(5, 6, 2),
            Mix::Interp6(5, 6, 2),
            Mix::Interp8(5, 4), Mix::Interp3(5, 4), Mix::Interp3(5, 9), Mix::Interp6(5, 6, 9),
            Mix::Interp8(5, 4), Mix::Interp3(5, 4), Mix::Interp1(5, 9), Mix::Interp8(5, 9),
        ],
        40 | 44 | 168 | 172 => seq![
            Mix::Interp8(5, 1), Mix::Interp6(5, 2, 1), Mix::Interp6(5, 2, 6), Mix::Interp2(5, 2, 6),
            Mix::Interp1(5, 1), Mix::Interp3(5, 1), Mix::Interp7(5, 6, 2), Mix::Interp6(5, 6, 2),
            Mix::Interp3(5, 8), Mix::Interp3(5, 8), Mix::Interp7(5, 6, 8), Mix::Interp6(5, 6, 8),
            Mix::Interp8(5, 8), Mix::Interp8(5, 8), Mix::Interp6(5, 8, 6), Mix::Interp2(5, 8, 6),
        ],
        9 | 13 | 137 | 141 => seq![
            Mix::Interp8(5, 2), Mix::Interp8(5, 2), Mix::Interp6(5, 2, 6), Mix::Interp2(5, 2, 6),
            Mix::Interp3(5, 2), Mix::Interp3(5, 2), Mix::Interp7(5, 6, 2), Mix::Interp6(5, 6, 2),
            Mix::Interp1(5, 7), Mix::Interp3(5, 7), Mix::Interp7(5, 6, 8), Mix::Interp6(5, 6, 8),
            Mix::Interp8(5, 7), Mix::Interp6(5, 8, 7), Mix::Interp6(5, 8, 6), Mix::Interp2(5, 8, 6),
        ],
        18 | 50 => seq![
            Mix::Interp8(5, 1),
            Mix::Interp1(5, 1),
            if e.top_right { Mix::Interp1(5, 3) } else { Mix::Interp5(2, 5) },
            if e.top_right { Mix::Interp8(5, 3) } else { Mix::Interp5(2, 6) },
            Mix::Interp6(5, 4, 1),
            Mix::Interp3(5, 1),
            if e.top_right { Mix::Interp3(5, 3) } else { Mix::Pick(5) },
            if e.top_right { Mix::Interp1(5, 3) } else { Mix::Interp5(6, 5) },
            Mix::Interp6(5, 4, 8), Mix::Interp7(5, 4, 8), Mix::Interp3(5, 9), Mix::Interp1(5, 9),
            Mix::Interp2(5, 8, 4), Mix::Interp6(5, 8, 4), Mix::Interp6(5, 8, 9), Mix::Interp8(5, 9),
        ],
        80 | 81 => seq![
            Mix::Interp2(5, 2, 4), Mix::Interp6(5, 2, 4), Mix::Interp6(5, 2, 3), Mix::Interp8(5, 3),
            Mix::Interp6(5, 4, 2), Mix::Interp7(5, 4, 2), Mix::Interp3(5, 3), Mix::Interp1(5, 3),
            Mix::Interp6(5, 4, 7),
            Mix::Interp3(5, 7),
            if e.bottom_right { Mix::Interp3(5, 9) } else { Mix::Pick(5) },
            if e.bottom_right { Mix::Interp1(5, 9) } else { Mix::Interp5(6, 5) },
            Mix::Interp8(5, 7),
            Mix::Interp1(5, 7),
            if e.bottom_right { Mix::Interp1(5, 9) } else { Mix::Interp5(8, 5) },
            if e.bottom_right { Mix::Interp8(5, 9) } else { Mix::Interp5(8, 6) },
        ],
        72 | 76 => seq![
            Mix::Interp8(5, 1), Mix::Interp6(5, 2, 1), Mix::Interp6(5, 2, 6), Mix::Interp2(5, 2, 6),
            Mix::Interp1(5, 1), Mix::Interp3(5, 1), Mix::Interp7(5, 6, 2), Mix::Interp6(5, 6, 2),
            if e.bottom_left { Mix::Interp1(5, 7) } else { Mix::Interp5(4, 5) },
            if e.bottom_left { Mix::Interp3(5, 7) } else { Mix::Pick(5) },
            Mix::Interp3(5, 9),
            Mix::Interp6(5, 6, 9),
            if e.bottom_left { Mix::Interp8(5, 7) } else { Mix::Interp5(8, 4) },
            if e.bottom_left { Mix::Interp1(5, 7) } else { Mix::Interp5(8, 5) },
            Mix::Interp1(5, 9),
            Mix::Interp8(5, 9),
        ],
        10 | 138 => seq![
            if e.top_left { Mix::Interp8(5, 1) } else { Mix::Interp5(2, 4) },
            if e.top_left { Mix::Interp1(5, 1) } else { Mix::Interp5(2, 5) },
            Mix::Interp1(5, 3),
            Mix::Interp8(5, 3),
            if e.top_left { Mix::Interp1(5, 1) } else { Mix::Interp5(4, 5) },
            if e.top_left { Mix::Interp3(5, 1) } else { Mix::Pick(5) },
            Mix::Interp3(5, 3),
            Mix::Interp6(5, 6, 3),
            Mix::Interp1(5, 7), Mix::Interp3(5, 7), Mix::Interp7(5, 6, 8), Mix::Interp6(5, 6, 8),
            Mix::Interp8(5, 7), Mix::Interp6(5, 8, 7), Mix::Interp6(5, 8, 6), Mix::Interp2(5, 8, 6),
        ],
        66 => seq![
            Mix::Interp8(5, 1), Mix::Interp1(5, 1), Mix::Interp1(5, 3), Mix::Interp8(5, 3),
            Mix::Interp6(5, 4, 1), Mix::Interp3(5, 1), Mix::Interp3(5, 3), Mix::Interp6(5, 6, 3),
            Mix::Interp6(5, 4, 7), Mix::Interp3(5, 7), Mix::Interp3(5, 9), Mix::Interp6(5, 6, 9),
            Mix::Interp8(5, 7), Mix::Interp1(5, 7), Mix::Interp1(5, 9), Mix::Interp8(5, 9),
        ],
        24 => seq![
            Mix::Interp8(5, 1), Mix::Interp6(5, 2, 1), Mix::Interp6(5, 2, 3), Mix::Interp8(5, 3),
            Mix::Interp1(5, 1), Mix::Interp3(5, 1), Mix::Interp3(5, 3), Mix::Interp1(5, 3),
            Mix::Interp1(5, 7), Mix::Interp3(5, 7), Mix::Interp3(5, 9), Mix::Interp1(5, 9),
            Mix::Interp8(5, 7), Mix::Interp6(5, 8, 7), Mix::Interp6(5, 8, 9), Mix::Interp8(5, 9),
        ],
        7 | 39 | 135 => seq![
            Mix::Interp8(5, 4), Mix::Interp3(5, 4), Mix::Interp3(5, 6), Mix::Interp8(5, 6),
            Mix::Interp8(5, 4), Mix::Interp3(5, 4), Mix::Interp3(5, 6), Mix::Interp8(5, 6),
            Mix::Interp6(5, 4, 8),
            Mix::Interp7(5, 4, 8),
            Mix::Interp7(5, 6, 8),
            Mix::Interp6(5, 6, 8),
            Mix::Interp2(5, 8, 4),
            Mix::Interp6(5, 8, 4),
            Mix::Interp6(5, 8, 6),
            Mix::Interp2(5, 8, 6),
        ],
        148 | 149 | 180 => seq![
            Mix::Interp2(5, 2, 4), Mix::Interp6(5, 2, 4), Mix::Interp8(5, 2), Mix::Interp8(5, 2),
            Mix::Interp6(5, 4, 2), Mix::Interp7(5, 4, 2), Mix::Interp3(5, 2), Mix::Interp3(5, 2),
            Mix::Interp6(5, 4, 8), Mix::Interp7(5, 4, 8), Mix::Interp3(5, 8), Mix::Interp3(5, 8),
            Mix::Interp2(5, 8, 4), Mix::Interp6(5, 8, 4), Mix::Interp8(5, 8), Mix::Interp8(5, 8),
        ],
        224 | 228 | 225 => seq![
            Mix::Interp2(5, 2, 4),
            Mix::Interp6(5, 2, 4),
            Mix::Interp6(5, 2, 6),
            Mix::Interp2(5, 2, 6),
            Mix::Interp6(5, 4, 2),
            Mix::Interp7(5, 4, 2),
            Mix::Interp7(5, 6, 2),
            Mix::Interp6(5, 6, 2),
            Mix::Interp8(5, 4), Mix::Interp3(5, 4), Mix::Interp3(5, 6), Mix::Interp8(5, 6),
            Mix::Interp8(5, 4), Mix::Interp3(5, 4), Mix::Interp3(5, 6), Mix::Interp8(5, 6),
        ],
        41 | 169 | 45 => seq![
            Mix::Interp8(5, 2), Mix::Interp8(5, 2), Mix::Interp6(5, 2, 6), Mix::Interp2(5, 2, 6),
            Mix::Interp3(5, 2), Mix::Interp3(5, 2), Mix::Interp7(5, 6, 2), Mix::Interp6(5, 6, 2),
            Mix::Interp3(5, 8), Mix::Interp3(5, 8), Mix::Interp7(5, 6, 8), Mix::Interp6(5, 6, 8),
            Mix::Interp8(5, 8), Mix::Interp8(5, 8), Mix::Interp6(5, 8, 6), Mix::Interp2(5, 8, 6),
        ],
        22 | 54 => seq![
            Mix::Interp8(5, 1),
            Mix::Interp1(5, 1),
            if e.top_right { Mix::Pick(5) } else { Mix::Interp5(2, 5) },
            if e.top_right { Mix::Pick(5) } else { Mix::Interp5(2, 6) },
            Mix::Interp6(5, 4, 1),
            Mix::Interp3(5, 1),
            Mix::Pick(5),
            if e.top_right { Mix::Pick(5) } else { Mix::Interp5(6, 5) },
            Mix::Interp6(5, 4, 8), Mix::Interp7(5, 4, 8), Mix::Interp3(5, 9), Mix::Interp1(5, 9),
            Mix::Interp2(5, 8, 4), Mix::Interp6(5, 8, 4), Mix::Interp6(5, 8, 9), Mix::Interp8(5, 9),
        ],
        208 | 209 => seq![
            Mix::Interp2(5, 2, 4), Mix::Interp6(5, 2, 4), Mix::Interp6(5, 2, 3), Mix::Interp8(5, 3),
            Mix::Interp6(5, 4, 2), Mix::Interp7(5, 4, 2), Mix::Interp3(5, 3), Mix::Interp1(5, 3),
            Mix::Interp6(5, 4, 7),
            Mix::Interp3(5, 7),
            Mix::Pick(5),
            if e.bottom_right { Mix::Pick(5) } else { Mix::Interp5(6, 5) },
            Mix::Interp8(5, 7),
            Mix::Interp1(5, 7),
            if e.bottom_right { Mix::Pick(5) } else { Mix::Interp5(8, 5) },
            if e.bottom_right { Mix::Pick(5) } else { Mix::Interp5(8, 6) },
        ],
        104 | 108 => seq![
            Mix::Interp8(5, 1), Mix::Interp6(5, 2, 1), Mix::Interp6(5, 2, 6), Mix::Interp2(5, 2, 6),
            Mix::Interp1(5, 1), Mix::Interp3(5, 1), Mix::Interp7(5, 6, 2), Mix::Interp6(5, 6, 2),
            if e.bottom_left { Mix::Pick(5) } else { Mix::Interp5(4, 5) },
            Mix::Pick(5),
            Mix::Interp3(5, 9),
            Mix::Interp6(5, 6, 9),
            if e.bottom_left { Mix::Pick(5) } else { Mix::Interp5(8, 4) },
            if e.bottom_left { Mix::Pick(5) } else { Mix::Interp5(8, 5) },
            Mix::Interp1(5, 9),
            Mix::Interp8(5, 9),
        ],
        11 | 139 => seq![
            if e.top_left { Mix::Pick(5) } else { Mix::Interp5(2, 4) },
            if e.top_left { Mix::Pick(5) } else { Mix::Interp5(2, 5) },
            Mix::Interp1(5, 3),
            Mix::Interp8(5, 3),
            if e.top_left { Mix::Pick(5) } else { Mix::Interp5(4, 5) },
            Mix::Pick(5),
            Mix::Interp3(5, 3),
            Mix::Interp6(5, 6, 3),
            Mix::Interp1(5, 7), Mix::Interp3(5, 7), Mix::Interp7(5, 6, 8), Mix::Interp6(5, 6, 8),
            Mix::Interp8(5, 7), Mix::Interp6(5, 8, 7), Mix::Interp6(5, 8, 6), Mix::Interp2(5, 8, 6),
        ],
        19 | 51 => seq![
            if e.top_right { Mix::Interp8(5, 4) } else { Mix::Interp1(5, 2) },
            if e.top_right { Mix::Interp3(5, 4) } else { Mix::Interp1(2, 5) },
            if e.top_right { Mix::Interp1(5, 3) } else { Mix::Interp8(2, 6) },
            if e.top_right { Mix::Interp8(5, 3) } else { Mix::Interp5(2, 6) },
            Mix::Interp8(5, 4),
            Mix::Interp3(5, 4),
            if e.top_right { Mix::Interp3(5, 3) } else { Mix::Interp7(5, 6, 2) },
            if e.top_right { Mix::Interp1(5, 3) } else { Mix::Interp2(6, 5, 2) },
            Mix::Interp6(5, 4, 8), Mix::Interp7(5, 4, 8), Mix::Interp3(5, 9), Mix::Interp1(5, 9),
            Mix::Interp2(5, 8, 4), Mix::Interp6(5, 8, 4), Mix::Interp6(5, 8, 9), Mix::Interp8(5, 9),
        ],
        146 | 178 => seq![
            Mix::Interp8(5, 1),
            Mix::Interp1(5, 1),
            if e.top_right { Mix::Interp1(5, 3) } else { Mix::Interp2(2, 5, 6) },
            if e.top_right { Mix::Interp8(5, 3) } else { Mix::Interp5(2, 6) },
            Mix::Interp6(5, 4, 1),
            Mix::Interp3(5, 1),
            if e.top_right { Mix::Interp3(5, 3) } else { Mix::Interp7(5, 6, 2) },
            if e.top_right { Mix::Interp1(5, 3) } else { Mix::Interp8(6, 2) },
            Mix::Interp6(5, 4, 8),
            Mix::Interp7(5, 4, 8),
            Mix::Interp3(5, 8),
            if e.top_right { Mix::Interp3(5, 8) } else { Mix::Interp1(6, 5) },
            Mix::Interp2(5, 8, 4),
            Mix::Interp6(5, 8, 4),
            Mix::Interp8(5, 8),
            if e.top_right { Mix::Interp8(5, 8) } else { Mix::Interp1(5, 6) },
        ],
        84 | 85 => seq![
            Mix::Interp2(5, 2, 4),
            Mix::Interp6(5, 2, 4),
            Mix::Interp8(5, 2),
            if e.bottom_right { Mix::Interp8(5, 2) } else { Mix::Interp1(5, 6) },
            Mix::Interp6(5, 4, 2),
            Mix::Interp7(5, 4, 2),
            Mix::Interp3(5, 2),
            if e.bottom_right { Mix::Interp3(5, 2) } else { Mix::Interp1(6, 5) },
            Mix::Interp6(5, 4, 7),
            Mix::Interp3(5, 7),
            if e.bottom_right { Mix::Interp3(5, 9) } else { Mix::Interp7(5, 6, 8) },
            if e.bottom_right { Mix::Interp1(5, 9) } else { Mix::Interp8(6, 8) },
            Mix::Interp8(5, 7),
            Mix::Interp1(5, 7),
            if e.bottom_right { Mix::Interp1(5, 9) } else { Mix::Interp2(8, 5, 6) },
            if e.bottom_right { Mix::Interp8(5, 9) } else { Mix::Interp5(8, 6) },
        ],
        112 | 113 => seq![
            Mix::Interp2(5, 2, 4), Mix::Interp6(5, 2, 4), Mix::Interp6(5, 2, 3), Mix::Interp8(5, 3),
            Mix::Interp6(5, 4, 2), Mix::Interp7(5, 4, 2), Mix::Interp3(5, 3), Mix::Interp1(5, 3),
            Mix::Interp8(5, 4),
            Mix::Interp3(5, 4),
            if e.bottom_right { Mix::Interp3(5, 9) } else { Mix::Interp7(5, 6, 8) },
            if e.bottom_right { Mix::Interp1(5, 9) } else { Mix::Interp2(6, 5, 8) },
            if e.bottom_right { Mix::Interp8(5, 4) } else { Mix::Interp1(5, 8) },
            if e.bottom_right { Mix::Interp3(5, 4) } else { Mix::Interp1(8, 5) },
            if e.bottom_right { Mix::Interp1(5, 9) } else { Mix::Interp8(8, 6) },
            if e.bottom_right { Mix::Interp8(5, 9) } else { Mix::Interp5(8, 6) },
        ],
        200 | 204 => seq![
            Mix::Interp8(5, 1), Mix::Interp6(5, 2, 1), Mix::Interp6(5, 2, 6), Mix::Interp2(5, 2, 6),
            Mix::Interp1(5, 1), Mix::Interp3(5, 1), Mix::Interp7(5, 6, 2), Mix::Interp6(5, 6, 2),
            if e.bottom_left { Mix::Interp1(5, 7) } else { Mix::Interp2(4, 5, 8) },
            if e.bottom_left { Mix::Interp3(5, 7) } else { Mix::Interp7(5, 4, 8) },
            Mix::Interp3(5, 6),
            Mix::Interp8(5, 6),
            if e.bottom_left { Mix::Interp8(5, 7) } else { Mix::Interp5(8, 4) },
            if e.bottom_left { Mix::Interp1(5, 7) } else { Mix::Interp8(8, 4) },
            if e.bottom_left { Mix::Interp3(5, 6) } else { Mix::Interp1(8, 5) },
            if e.bottom_left { Mix::Interp8(5, 6) } else { Mix::Interp1(5, 8) },
        ],
        73 | 77 => seq![
            if e.bottom_left { Mix::Interp8(5, 2) } else { Mix::Interp1(5, 4) },
            Mix::Interp8(5, 2),
            Mix::Interp6(5, 2, 6),
            Mix::Interp2(5, 2, 6),
            if e.bottom_left { Mix::Interp3(5, 2) } else { Mix::Interp1(4, 5) },
            Mix::Interp3(5, 2),
            Mix::Interp7(5, 6, 2),
            Mix::Interp6(5, 6, 2),
            if e.bottom_left { Mix::Interp1(5, 7) } else { Mix::Interp8(4, 8) },
            if e.bottom_left { Mix::Interp3(5, 7) } else { Mix::Interp7(5, 4, 8) },
            Mix::Interp3(5, 9),
            Mix::Interp6(5, 6, 9),
            if e.bottom_left { Mix::Interp8(5, 7) } else { Mix::Interp5(8, 4) },
            if e.bottom_left { Mix::Interp1(5, 7) } else { Mix::Interp2(8, 5, 4) },
            Mix::Interp1(5, 9),
            Mix::Interp8(5, 9),
        ],
        42 | 170 => seq![
            if e.top_left { Mix::Interp8(5, 1) } else { Mix::Interp5(2, 4) },
            if e.top_left { Mix::Interp1(5, 1) } else { Mix::Interp2(2, 5, 4) },
            Mix::Interp1(5, 3),
            Mix::Interp8(5, 3),
            if e.top_left { Mix::Interp1(5, 1) } else { Mix::Interp8(4, 2) },
            if e.top_left { Mix::Interp3(5, 1) } else { Mix::Interp7(5, 4, 2) },
            Mix::Interp3(5, 3),
            Mix::Interp6(5, 6, 3),
            if e.top_left { Mix::Interp3(5, 8) } else { Mix::Interp1(4, 5) },
            Mix::Interp3(5, 8),
            Mix::Interp7(5, 6, 8),
            Mix::Interp6(5, 6, 8),
            if e.top_left { Mix::Interp8(5, 8) } else { Mix::Interp1(5, 4) },
            Mix::Interp8(5, 8),
            Mix::Interp6(5, 8, 6),
            Mix::Interp2(5, 8, 6),
        ],
        14 | 142 => seq![
            if e.top_left { Mix::Interp8(5, 1) } else { Mix::Interp5(2, 4) },
            if e.top_left { Mix::Interp1(5, 1) } else { Mix::Interp8(2, 4) },
            if e.top_left { Mix::Interp3(5, 6) } else { Mix::Interp1(2, 5) },
            if e.top_left { Mix::Interp8(5, 6) } else { Mix::Interp1(5, 2) },
            if e.top_left { Mix::Interp1(5, 1) } else { Mix::Interp2(4, 5, 2) },
            if e.top_left { Mix::Interp3(5, 1) } else { Mix::Interp7(5, 4, 2) },
            Mix::Interp3(5, 6),
            Mix::Interp8(5, 6),
            Mix::Interp1(5, 7), Mix::Interp3(5, 7), Mix::Interp7(5, 6, 8), Mix::Interp6(5, 6, 8),
            Mix::Interp8(5, 7), Mix::Interp6(5, 8, 7), Mix::Interp6(5, 8, 6), Mix::Interp2(5, 8, 6),
        ],
        67 => seq![
            Mix::Interp8(5, 4), Mix::Interp3(5, 4), Mix::Interp1(5, 3), Mix::Interp8(5, 3),
            Mix::Interp8(5, 4), Mix::Interp3(5, 4), Mix::Interp3(5, 3), Mix::Interp6(5, 6, 3),
            Mix::Interp6(5, 4, 7), Mix::Interp3(5, 7), Mix::Interp3(5, 9), Mix::Interp6(5, 6, 9),
            Mix::Interp8(5, 7), Mix::Interp1(5, 7), Mix::Interp1(5, 9), Mix::Interp8(5, 9),
        ],
        70 => seq![
            Mix::Interp8(5, 1), Mix::Interp1(5, 1), Mix::Interp3(5, 6), Mix::Interp8(5, 6),
            Mix::Interp6(5, 4, 1), Mix::Interp3(5, 1), Mix::Interp3(5, 6), Mix::Interp8(5, 6),
            Mix::Interp6(5, 4, 7), Mix::Interp3(5, 7), Mix::Interp3(5, 9), Mix::Interp6(5, 6, 9),
            Mix::Interp8(5, 7), Mix::Interp1(5, 7), Mix::Interp1(5, 9), Mix::Interp8(5, 9),
        ],
        28 => seq![
            Mix::Interp8(5, 1), Mix::Interp6(5, 2, 1), Mix::Interp8(5, 2), Mix::Interp8(5, 2),
            Mix::Interp1(5, 1), Mix::Interp3(5, 1), Mix::Interp3(5, 2), Mix::Interp3(5, 2),
            Mix::Interp1(5, 7), Mix::Interp3(5, 7), Mix::Interp3(5, 9), Mix::Interp1(5, 9),
            Mix::Interp8(5, 7), Mix::Interp6(5, 8, 7), Mix::Interp6(5, 8, 9), Mix::Interp8(5, 9),
        ],
        152 => seq![
            Mix::Interp8(5, 1), Mix::Interp6(5, 2, 1), Mix::Interp6(5, 2, 3), Mix::Interp8(5, 3),
            Mix::Interp1(5, 1), Mix::Interp3(5, 1), Mix::Interp3(5, 3), Mix::Interp1(5, 3),
            Mix::Interp1(5, 7), Mix::Interp3(5, 7), Mix::Interp3(5, 8), Mix::Interp3(5, 8),
            Mix::Interp8(5, 7), Mix::Interp6(5, 8, 7), Mix::Interp8(5, 8), Mix::Interp8(5, 8),
        ],
        194 => seq![
            Mix::Interp8(5, 1), Mix::Interp1(5, 1), Mix::Interp1(5, 3), Mix::Interp8(5, 3),
            Mix::Interp6(5, 4, 1), Mix::Interp3(5, 1), Mix::Interp3(5, 3), Mix::Interp6(5, 6, 3),
            Mix::Interp6(5, 4, 7), Mix::Interp3(5, 7), Mix::Interp3(5, 6), Mix::Interp8(5, 6),
            Mix::Interp8(5, 7), Mix::Interp1(5, 7), Mix::Interp3(5, 6), Mix::Interp8(5, 6),
        ],
        98 => seq![
            Mix::Interp8(5, 1), Mix::Interp1(5, 1), Mix::Interp1(5, 3), Mix::Interp8(5, 3),
            Mix::Interp6(5, 4, 1), Mix::Interp3(5, 1), Mix::Interp3(5, 3), Mix::Interp6(5, 6, 3),
            Mix::Interp8(5, 4), Mix::Interp3(5, 4), Mix::Interp3(5, 9), Mix::Interp6(5, 6, 9),
            Mix::Interp8(5, 4), Mix::Interp3(5, 4), Mix::Interp1(5, 9), Mix::Interp8(5, 9),
        ],
        56 => seq![
            Mix::Interp8(5, 1), Mix::Interp6(5, 2, 1), Mix::Interp6(5, 2, 3), Mix::Interp8(5, 3),
            Mix::Interp1(5, 1), Mix::Interp3(5, 1), Mix::Interp3(5, 3), Mix::Interp1(5, 3),
            Mix::Interp3(5, 8), Mix::Interp3(5, 8), Mix::Interp3(5, 9), Mix::Interp1(5, 9),
            Mix::Interp8(5, 8), Mix::Interp8(5, 8), Mix::Interp6(5, 8, 9), Mix::Interp8(5, 9),
        ],
        25 => seq![
            Mix::Interp8(5, 2), Mix::Interp8(5, 2), Mix::Interp6(5, 2, 3), Mix::Interp8(5, 3),
            Mix::Interp3(5, 2), Mix::Interp3(5, 2), Mix::Interp3(5, 3), Mix::Interp1(5, 3),
            Mix::Interp1(5, 7), Mix::Interp3(5, 7), Mix::Interp3(5, 9), Mix::Interp1(5, 9),
            Mix::Interp8(5, 7), Mix::Interp6(5, 8, 7), Mix::Interp6(5, 8, 9), Mix::Interp8(5, 9),
        ],
        26 | 31 => seq![
            if e.top_left { Mix::Pick(5) } else { Mix::Interp5(2, 4) },
            if e.top_left { Mix::Pick(5) } else { Mix::Interp5(2, 5) },
            if e.top_right { Mix::Pick(5) } else { Mix::Interp5(2, 5) },
            if e.top_right { Mix::Pick(5) } else { Mix::Interp5(2, 6) },
            if e.top_left { Mix::Pick(5) } else { Mix::Interp5(4, 5) },
            Mix::Pick(5),
            Mix::Pick(5),
            if e.top_right { Mix::Pick(5) } else { Mix::Interp5(6, 5) },
            Mix::Interp1(5, 7), Mix::Interp3(5, 7), Mix::Interp3(5, 9), Mix::Interp1(5, 9),
            Mix::Interp8(5, 7), Mix::Interp6(5, 8, 7), Mix::Interp6(5, 8, 9), Mix::Interp8(5, 9),
        ],
        82 | 214 => seq![
            Mix::Interp8(5, 1),
            Mix::Interp1(5, 1),
            if e.top_right { Mix::Pick(5) } else { Mix::Interp5(2, 5) },
            if e.top_right { Mix::Pick(5) } else { Mix::Interp5(2, 6) },
            Mix::Interp6(5, 4, 1),
            Mix::Interp3(5, 1),
            Mix::Pick(5),
            if e.top_right { Mix::Pick(5) } else { Mix::Interp5(6, 5) },
            Mix::Interp6(5, 4, 7),
            Mix::Interp3(5, 7),
            Mix::Pick(5),
            if e.bottom_right { Mix::Pick(5) } else { Mix::Interp5(6, 5) },
            Mix::Interp8(5, 7),
            Mix::Interp1(5, 7),
            if e.bottom_right { Mix::Pick(5) } else { Mix::Interp5(8, 5) },
            if e.bottom_right { Mix::Pick(5) } else { Mix::Interp5(8, 6) },
        ],
        88 | 248 => seq![
            Mix::Interp8(5, 1), Mix::Interp6(5, 2, 1), Mix::Interp6(5, 2, 3), Mix::Interp8(5, 3),
            Mix::Interp1(5, 1), Mix::Interp3(5, 1), Mix::Interp3(5, 3), Mix::Interp1(5, 3),
            if e.bottom_left { Mix::Pick(5) } else { Mix::Interp5(4, 5) },
            Mix::Pick(5),
            Mix::Pick(5),
            if e.bottom_right { Mix::Pick(5) } else { Mix::Interp5(6, 5) },
            if e.bottom_left { Mix::Pick(5) } else { Mix::Interp5(8, 4) },
            if e.bottom_left { Mix::Pick(5) } else { Mix::Interp5(8, 5) },
            if e.bottom_right { Mix::Pick(5) } else { Mix::Interp5(8, 5) },
            if e.bottom_right { Mix::Pick(5) } else { Mix::Interp5(8, 6) },
        ],
        74 | 107 => seq![
            if e.top_left { Mix::Pick(5) } else { Mix::Interp5(2, 4) },
            if e.top_left { Mix::Pick(5) } else { Mix::Interp5(2, 5) },
            Mix::Interp1(5, 3),
            Mix::Interp8(5, 3),
            if e.top_left { Mix::Pick(5) } else { Mix::Interp5(4, 5) },
            Mix::Pick(5),
            Mix::Interp3(5, 3),
            Mix::Interp6(5, 6, 3),
            if e.bottom_left { Mix::Pick(5) } else { Mix::Interp5(4, 5) },
            Mix::Pick(5),
            Mix::Interp3(5, 9),
            Mix::Interp6(5, 6, 9),
            if e.bottom_left { Mix::Pick(5) } else { Mix::Interp5(8, 4) },
            if e.bottom_left { Mix::Pick(5) } else { Mix::Interp5(8, 5) },
            Mix::Interp1(5, 9),
            Mix::Interp8(5, 9),
        ],
        27 => seq![
            if e.top_left { Mix::Pick(5) } else { Mix::Interp5(2, 4) },
            if e.top_left { Mix::Pick(5) } else { Mix::Interp5(2, 5) },
            Mix::Interp1(5, 3),
            Mix::Interp8(5, 3),
            if e.top_left { Mix::Pick(5) } else { Mix::Interp5(4, 5) },
            Mix::Pick(5),
            Mix::Interp3(5, 3),
            Mix::Interp1(5, 3),
            Mix::Interp1(5, 7), Mix::Interp3(5, 7), Mix::Interp3(5, 9), Mix::Interp1(5, 9),
            Mix::Interp8(5, 7), Mix::Interp6(5, 8, 7), Mix::Interp6(5, 8, 9), Mix::Interp8(5, 9),
        ],
        86 => seq![
            Mix::Interp8(5, 1),
            Mix::Interp1(5, 1),
            if e.top_right { Mix::Pick(5) } else { Mix::Interp5(2, 5) },
            if e.top_right { Mix::Pick(5) } else { Mix::Interp5(2, 6) },
            Mix::Interp6(5, 4, 1),
            Mix::Interp3(5, 1),
            Mix::Pick(5),
            if e.top_right { Mix::Pick(5) } else { Mix::Interp5(6, 5) },
            Mix::Interp6(5, 4, 7), Mix::Interp3(5, 7), Mix::Interp3(5, 9), Mix::Interp1(5, 9),
            Mix::Interp8(5, 7), Mix::Interp1(5, 7), Mix::Interp1(5, 9), Mix::Interp8(5, 9),
        ],
        216 => seq![
            Mix::Interp8(5, 1), Mix::Interp6(5, 2, 1), Mix::Interp6(5, 2, 3), Mix::Interp8(5, 3),
            Mix::Interp1(5, 1), Mix::Interp3(5, 1), Mix::Interp3(5, 3), Mix::Interp1(5, 3),
            Mix::Interp1(5, 7),
            Mix::Interp3(5, 7),
            Mix::Pick(5),
            if e.bottom_right { Mix::Pick(5) } else { Mix::Interp5(6, 5) },
            Mix::Interp8(5, 7),
            Mix::Interp1(5, 7),
            if e.bottom_right { Mix::Pick(5) } else { Mix::Interp5(8, 5) },
            if e.bottom_right { Mix::Pick(5) } else { Mix::Interp5(8, 6) },
        ],
        106 => seq![
            Mix::Interp8(5, 1), Mix::Interp1(5, 1), Mix::Interp1(5, 3), Mix::Interp8(5, 3),
            Mix::Interp1(5, 1), Mix::Interp3(5, 1), Mix::Interp3(5, 3), Mix::Interp6(5, 6, 3),
            if e.bottom_left { Mix::Pick(5) } else { Mix::Interp5(4, 5) },
            Mix::Pick(5),
            Mix::Interp3(5, 9),
            Mix::Interp6(5, 6, 9),
            if e.bottom_left { Mix::Pick(5) } else { Mix::Interp5(8, 4) },
            if e.bottom_left { Mix::Pick(5) } else { Mix::Interp5(8, 5) },
            Mix::Interp1(5, 9),
            Mix::Interp8(5, 9),
        ],
        30 => seq![
            Mix::Interp8(5, 1),
            Mix::Interp1(5, 1),
            if e.top_right { Mix::Pick(5) } else { Mix::Interp5(2, 5) },
            if e.top_right { Mix::Pick(5) } else { Mix::Interp5(2, 6) },
            Mix::Interp1(5, 1),
            Mix::Interp3(5, 1),
            Mix::Pick(5),
            if e.top_right { Mix::Pick(5) } else { Mix::Interp5(6, 5) },
            Mix::Interp1(5, 7), Mix::Interp3(5, 7), Mix::Interp3(5, 9), Mix::Interp1(5, 9),
            Mix::Interp8(5, 7), Mix::Interp6(5, 8, 7), Mix::Interp6(5, 8, 9), Mix::Interp8(5, 9),
        ],
        210 => seq![
            Mix::Interp8(5, 1), Mix::Interp1(5, 1), Mix::Interp1(5, 3), Mix::Interp8(5, 3),
            Mix::Interp6(5, 4, 1), Mix::Interp3(5, 1), Mix::Interp3(5, 3), Mix::Interp1(5, 3),
            Mix::Interp6(5, 4, 7),
            Mix::Interp3(5, 7),
            Mix::Pick(5),
            if e.bottom_right { Mix::Pick(5) } else { Mix::Interp5(6, 5) },
            Mix::Interp8(5, 7),
            Mix::Interp1(5, 7),
            if e.bottom_right { Mix::Pick(5) } else { Mix::Interp5(8, 5) },
            if e.bottom_right { Mix::Pick(5) } else { Mix::Interp5(8, 6) },
        ],
        120 => seq![
            Mix::Interp8(5, 1), Mix::Interp6(5, 2, 1), Mix::Interp6(5, 2, 3), Mix::Interp8(5, 3),
            Mix::Interp1(5, 1), Mix::Interp3(5, 1), Mix::Interp3(5, 3), Mix::Interp1(5, 3),
            if e.bottom_left { Mix::Pick(5) } else { Mix::Interp5(4, 5) },
            Mix::Pick(5),
            Mix::Interp3(5, 9),
            Mix::Interp1(5, 9),
            if e.bottom_left { Mix::Pick(5) } else { Mix::Interp5(8, 4) },
            if e.bottom_left { Mix::Pick(5) } else { Mix::Interp5(8, 5) },
            Mix::Interp1(5, 9),
            Mix::Interp8(5, 9),
        ],
        75 => seq![
            if e.top_left { Mix::Pick(5) } else { Mix::Interp5(2, 4) },
            if e.top_left { Mix::Pick(5) } else { Mix::Interp5(2, 5) },
            Mix::Interp1(5, 3),
            Mix::Interp8(5, 3),
            if e.top_left { Mix::Pick(5) } else { Mix::Interp5(4, 5) },
            Mix::Pick(5),
            Mix::Interp3(5, 3),
            Mix::Interp6(5, 6, 3),
            Mix::Interp1(5, 7), Mix::Interp3(5, 7), Mix::Interp3(5, 9), Mix::Interp6(5, 6, 9),
            Mix::Interp8(5, 7), Mix::Interp1(5, 7), Mix::Interp1(5, 9), Mix::Interp8(5, 9),
        ],
        29 => seq![
            Mix::Interp8(5, 2), Mix::Interp8(5, 2), Mix::Interp8(5, 2), Mix::Interp8(5, 2),
            Mix::Interp3(5, 2), Mix::Interp3(5, 2), Mix::Interp3(5, 2), Mix::Interp3(5, 2),
            Mix::Interp1(5, 7), Mix::Interp3(5, 7), Mix::Interp3(5, 9), Mix::Interp1(5, 9),
            Mix::Interp8(5, 7), Mix::Interp6(5, 8, 7), Mix::Interp6(5, 8, 9), Mix::Interp8(5, 9),
        ],
        198 => seq![
            Mix::Interp8(5, 1), Mix::Interp1(5, 1), Mix::Interp3(5, 6), Mix::Interp8(5, 6),
            Mix::Interp6(5, 4, 1), Mix::Interp3(5, 1), Mix::Interp3(5, 6), Mix::Interp8(5, 6),
            Mix::Interp6(5, 4, 7), Mix::Interp3(5, 7), Mix::Interp3(5, 6), Mix::Interp8(5, 6),
            Mix::Interp8(5, 7), Mix::Interp1(5, 7), Mix::Interp3(5, 6), Mix::Interp8(5, 6),
        ],
        184 => seq![
            Mix::Interp8(5, 1), Mix::Interp6(5, 2, 1), Mix::Interp6(5, 2, 3), Mix::Interp8(5, 3),
            Mix::Interp1(5, 1), Mix::Interp3(5, 1), Mix::Interp3(5, 3), Mix::Interp1(5, 3),
            Mix::Interp3(5, 8), Mix::Interp3(5, 8), Mix::Interp3(5, 8), Mix::Interp3(5, 8),
            Mix::Interp8(5, 8), Mix::Interp8(5, 8), Mix::Interp8(5, 8), Mix::Interp8(5, 8),
        ],
        99 => seq![
            Mix::Interp8(5, 4), Mix::Interp3(5, 4), Mix::Interp1(5, 3), Mix::Interp8(5, 3),
            Mix::Interp8(5, 4), Mix::Interp3(5, 4), Mix::Interp3(5, 3), Mix::Interp6(5, 6, 3),
            Mix::Interp8(5, 4), Mix::Interp3(5, 4), Mix::Interp3(5, 9), Mix::Interp6(5, 6, 9),
            Mix::Interp8(5, 4), Mix::Interp3(5, 4), Mix::Interp1(5, 9), Mix::Interp8(5, 9),
        ],
        57 => seq![
            Mix::Interp8(5, 2), Mix::Interp8(5, 2), Mix::Interp6(5, 2, 3), Mix::Interp8(5, 3),
            Mix::Interp3(5, 2), Mix::Interp3(5, 2), Mix::Interp3(5, 3), Mix::Interp1(5, 3),
            Mix::Interp3(5, 8), Mix::Interp3(5, 8), Mix::Interp3(5, 9), Mix::Interp1(5, 9),
            Mix::Interp8(5, 8), Mix::Interp8(5, 8), Mix::Interp6(5, 8, 9), Mix::Interp8(5, 9),
        ],
        71 => seq![
            Mix::Interp8(5, 4), Mix::Interp3(5, 4), Mix::Interp3(5, 6), Mix::Interp8(5, 6),
            Mix::Interp8(5, 4), Mix::Interp3(5, 4), Mix::Interp3(5, 6), Mix::Interp8(5, 6),
            Mix::Interp6(5, 4, 7), Mix::Interp3(5, 7), Mix::Interp3(5, 9), Mix::Interp6(5, 6, 9),
            Mix::Interp8(5, 7), Mix::Interp1(5, 7), Mix::Interp1(5, 9), Mix::Interp8(5, 9),
        ],
        156 => seq![
            Mix::Interp8(5, 1), Mix::Interp6(5, 2, 1), Mix::Interp8(5, 2), Mix::Interp8(5, 2),
            Mix::Interp1(5, 1), Mix::Interp3(5, 1), Mix::Interp3(5, 2), Mix::Interp3(5, 2),
            Mix::Interp1(5, 7), Mix::Interp3(5, 7), Mix::Interp3(5, 8), Mix::Interp3(5, 8),
            Mix::Interp8(5, 7), Mix::Interp6(5, 8, 7), Mix::Interp8(5, 8), Mix::Interp8(5, 8),
        ],
        226 => seq![
            Mix::Interp8(5, 1), Mix::Interp1(5, 1), Mix::Interp1(5, 3), Mix::Interp8(5, 3),
            Mix::Interp6(5, 4, 1), Mix::Interp3(5, 1), Mix::Interp3(5, 3), Mix::Interp6(5, 6, 3),
            Mix::Interp8(5, 4), Mix::Interp3(5, 4), Mix::Interp3(5, 6), Mix::Interp8(5, 6),
            Mix::Interp8(5, 4), Mix::Interp3(5, 4), Mix::Interp3(5, 6), Mix::Interp8(5, 6),
        ],
        60 => seq![
            Mix::Interp8(5, 1), Mix::Interp6(5, 2, 1), Mix::Interp8(5, 2), Mix::Interp8(5, 2),
            Mix::Interp1(5, 1), Mix::Interp3(5, 1), Mix::Interp3(5, 2), Mix::Interp3(5, 2),
            Mix::Interp3(5, 8), Mix::Interp3(5, 8), Mix::Interp3(5, 9), Mix::Interp1(5, 9),
            Mix::Interp8(5, 8), Mix::Interp8(5, 8), Mix::Interp6(5, 8, 9), Mix::Interp8(5, 9),
        ],
        195 => seq![
            Mix::Interp8(5, 4), Mix::Interp3(5, 4), Mix::Interp1(5, 3), Mix::Interp8(5, 3),
            Mix::Interp8(5, 4), Mix::Interp3(5, 4), Mix::Interp3(5, 3), Mix::Interp6(5, 6, 3),
            Mix::Interp6(5, 4, 7), Mix::Interp3(5, 7), Mix::Interp3(5, 6), Mix::Interp8(5, 6),
            Mix::Interp8(5, 7), Mix::Interp1(5, 7), Mix::Interp3(5, 6), Mix::Interp8(5, 6),
        ],
        102 => seq![
            Mix::Interp8(5, 1), Mix::Interp1(5, 1), Mix::Interp3(5, 6), Mix::Interp8(5, 6),
            Mix::Interp6(5, 4, 1), Mix::Interp3(5, 1), Mix::Interp3(5, 6), Mix::Interp8(5, 6),
            Mix::Interp8(5, 4), Mix::Interp3(5, 4), Mix::Interp3(5, 9), Mix::Interp6(5, 6, 9),
            Mix::Interp8(5, 4), Mix::Interp3(5, 4), Mix::Interp1(5, 9), Mix::Interp8(5, 9),
        ],
        153 => seq![
            Mix::Interp8(5, 2), Mix::Interp8(5, 2), Mix::Interp6(5, 2, 3), Mix::Interp8(5, 3),
            Mix::Interp3(5, 2), Mix::Interp3(5, 2), Mix::Interp3(5, 3), Mix::Interp1(5, 3),
            Mix::Interp1(5, 7), Mix::Interp3(5, 7), Mix::Interp3(5, 8), Mix::Interp3(5, 8),
            Mix::Interp8(5, 7), Mix::Interp6(5, 8, 7), Mix::Interp8(5, 8), Mix::Interp8(5, 8),
        ],
        58 => seq![
            if e.top_left { Mix::Interp8(5, 1) } else { Mix::Interp2(5, 2, 4) },
            if e.top_left { Mix::Interp1(5, 1) } else { Mix::Interp1(5, 2) },
            if e.top_right { Mix::Interp1(5, 3) } else { Mix::Interp1(5, 2) },
            if e.top_right { Mix::Interp8(5, 3) } else { Mix::Interp2(5, 2, 6) },
            if e.top_left { Mix::Interp1(5, 1) } else { Mix::Interp1(5, 4) },
            if e.top_left { Mix::Interp3(5, 1) } else { Mix::Pick(5) },
            if e.top_right { Mix::Interp3(5, 3) } else { Mix::Pick(5) },
            if e.top_right { Mix::Interp1(5, 3) } else { Mix::Interp1(5, 6) },
            Mix::Interp3(5, 8), Mix::Interp3(5, 8), Mix::Interp3(5, 9), Mix::Interp1(5, 9),
            Mix::Interp8(5, 8), Mix::Interp8(5, 8), Mix::Interp6(5, 8, 9), Mix::Interp8(5, 9),
        ],
        83 => seq![
            Mix::Interp8(5, 4),
            Mix::Interp3(5, 4),
            if e.top_right { Mix::Interp1(5, 3) } else { Mix::Interp1(5, 2) },
            if e.top_right { Mix::Interp8(5, 3) } else { Mix::Interp2(5, 2, 6) },
            Mix::Interp8(5, 4),
            Mix::Interp3(5, 4),
            if e.top_right { Mix::Interp3(5, 3) } else { Mix::Pick(5) },
            if e.top_right { Mix::Interp1(5, 3) } else { Mix::Interp1(5, 6) },
            Mix::Interp6(5, 4, 7),
            Mix::Interp3(5, 7),
            if e.bottom_right { Mix::Interp3(5, 9) } else { Mix::Pick(5) },
            if e.bottom_right { Mix::Interp1(5, 9) } else { Mix::Interp1(5, 6) },
            Mix::Interp8(5, 7),
            Mix::Interp1(5, 7),
            if e.bottom_right { Mix::Interp1(5, 9) } else { Mix::Interp1(5, 8) },
            if e.bottom_right { Mix::Interp8(5, 9) } else { Mix::Interp2(5, 8, 6) },
        ],
        92 => seq![
            Mix::Interp8(5, 1), Mix::Interp6(5, 2, 1), Mix::Interp8(5, 2), Mix::Interp8(5, 2),
            Mix::Interp1(5, 1), Mix::Interp3(5, 1), Mix::Interp3(5, 2), Mix::Interp3(5, 2),
            if e.bottom_left { Mix::Interp1(5, 7) } else { Mix::Interp1(5, 4) },
            if e.bottom_left { Mix::Interp3(5, 7) } else { Mix::Pick(5) },
            if e.bottom_right { Mix::Interp3(5, 9) } else { Mix::Pick(5) },
            if e.bottom_right { Mix::Interp1(5, 9) } else { Mix::Interp1(5, 6) },
            if e.bottom_left { Mix::Interp8(5, 7) } else { Mix::Interp2(5, 8, 4) },
            if e.bottom_left { Mix::Interp1(5, 7) } else { Mix::Interp1(5, 8) },
            if e.bottom_right { Mix::Interp1(5, 9) } else { Mix::Interp1(5, 8) },
            if e.bottom_right { Mix::Interp8(5, 9) } else { Mix::Interp2(5, 8, 6) },
        ],
        202 => seq![
            if e.top_left { Mix::Interp8(5, 1) } else { Mix::Interp2(5, 2, 4) },
            if e.top_left { Mix::Interp1(5, 1) } else { Mix::Interp1(5, 2) },
            Mix::Interp1(5, 3),
            Mix::Interp8(5, 3),
            if e.top_left { Mix::Interp1(5, 1) } else { Mix::Interp1(5, 4) },
            if e.top_left { Mix::Interp3(5, 1) } else { Mix::Pick(5) },
            Mix::Interp3(5, 3),
            Mix::Interp6(5, 6, 3),
            if e.bottom_left { Mix::Interp1(5, 7) } else { Mix::Interp1(5, 4) },
            if e.bottom_left { Mix::Interp3(5, 7) } else { Mix::Pick(5) },
            Mix::Interp3(5, 6),
            Mix::Interp8(5, 6),
            if e.bottom_left { Mix::Interp8(5, 7) } else { Mix::Interp2(5, 8, 4) },
            if e.bottom_left { Mix::Interp1(5, 7) } else { Mix::Interp1(5, 8) },
            Mix::Interp3(5, 6),
            Mix::Interp8(5, 6),
        ],
        78 => seq![
            if e.top_left { Mix::Interp8(5, 1) } else { Mix::Interp2(5, 2, 4) },
            if e.top_left { Mix::Interp1(5, 1) } else { Mix::Interp1(5, 2) },
            Mix::Interp3(5, 6),
            Mix::Interp8(5, 6),
            if e.top_left { Mix::Interp1(5, 1) } else { Mix::Interp1(5, 4) },
            if e.top_left { Mix::Interp3(5, 1) } else { Mix::Pick(5) },
            Mix::Interp3(5, 6),
            Mix::Interp8(5, 6),
            if e.bottom_left { Mix::Interp1(5, 7) } else { Mix::Interp1(5, 4) },
            if e.bottom_left { Mix::Interp3(5, 7) } else { Mix::Pick(5) },
            Mix::Interp3(5, 9),
            Mix::Interp6(5, 6, 9),
            if e.bottom_left { Mix::Interp8(5, 7) } else { Mix::Interp2(5, 8, 4) },
            if e.bottom_left { Mix::Interp1(5, 7) } else { Mix::Interp1(5, 8) },
            Mix::Interp1(5, 9),
            Mix::Interp8(5, 9),
        ],
        154 => seq![
            if e.top_left { Mix::Interp8(5, 1) } else { Mix::Interp2(5, 2, 4) },
            if e.top_left { Mix::Interp1(5, 1) } else { Mix::Interp1(5, 2) },
            if e.top_right { Mix::Interp1(5, 3) } else { Mix::Interp1(5, 2) },
            if e.top_right { Mix::Interp8(5, 3) } else { Mix::Interp2(5, 2, 6) },
            if e.top_left { Mix::Interp1(5, 1) } else { Mix::Interp1(5, 4) },
            if e.top_left { Mix::Interp3(5, 1) } else { Mix::Pick(5) },
            if e.top_right { Mix::Interp3(5, 3) } else { Mix::Pick(5) },
            if e.top_right { Mix::Interp1(5, 3) } else { Mix::Interp1(5, 6) },
            Mix::Interp1(5, 7), Mix::Interp3(5, 7), Mix::Interp3(5, 8), Mix::Interp3(5, 8),
            Mix::Interp8(5, 7), Mix::Interp6(5, 8, 7), Mix::Interp8(5, 8), Mix::Interp8(5, 8),
        ],
        114 => seq![
            Mix::Interp8(5, 1),
            Mix::Interp1(5, 1),
            if e.top_right { Mix::Interp1(5, 3) } else { Mix::Interp1(5, 2) },
            if e.top_right { Mix::Interp8(5, 3) } else { Mix::Interp2(5, 2, 6) },
            Mix::Interp6(5, 4, 1),
            Mix::Interp3(5, 1),
            if e.top_right { Mix::Interp3(5, 3) } else { Mix::Pick(5) },
            if e.top_right { Mix::Interp1(5, 3) } else { Mix::Interp1(5, 6) },
            Mix::Interp8(5, 4),
            Mix::Interp3(5, 4),
            if e.bottom_right { Mix::Interp3(5, 9) } else { Mix::Pick(5) },
            if e.bottom_right { Mix::Interp1(5, 9) } else { Mix::Interp1(5, 6) },
            Mix::Interp8(5, 4),
            Mix::Interp3(5, 4),
            if e.bottom_right { Mix::Interp1(5, 9) } else { Mix::Interp1(5, 8) },
            if e.bottom_right { Mix::Interp8(5, 9) } else { Mix::Interp2(5, 8, 6) },
        ],
        89 => seq![
            Mix::Interp8(5, 2), Mix::Interp8(5, 2), Mix::Interp6(5, 2, 3), Mix::Interp8(5, 3),
            Mix::Interp3(5, 2), Mix::Interp3(5, 2), Mix::Interp3(5, 3), Mix::Interp1(5, 3),
            if e.bottom_left { Mix::Interp1(5, 7) } else { Mix::Interp1(5, 4) },
            if e.bottom_left { Mix::Interp3(5, 7) } else { Mix::Pick(5) },
            if e.bottom_right { Mix::Interp3(5, 9) } else { Mix::Pick(5) },
            if e.bottom_right { Mix::Interp1(5, 9) } else { Mix::Interp1(5, 6) },
            if e.bottom_left { Mix::Interp8(5, 7) } else { Mix::Interp2(5, 8, 4) },
            if e.bottom_left { Mix::Interp1(5, 7) } else { Mix::Interp1(5, 8) },
            if e.bottom_right { Mix::Interp1(5, 9) } else { Mix::Interp1(5, 8) },
            if e.bottom_right { Mix::Interp8(5, 9) } else { Mix::Interp2(5, 8, 6) },
        ],
        90 => seq![
            if e.top_left { Mix::Interp8(5, 1) } else { Mix::Interp2(5, 2, 4) },
            if e.top_left { Mix::Interp1(5, 1) } else { Mix::Interp1(5, 2) },
            if e.top_right { Mix::Interp1(5, 3) } else { Mix::Interp1(5, 2) },
            if e.top_right { Mix::Interp8(5, 3) } else { Mix::Interp2(5, 2, 6) },
            if e.top_left { Mix::Interp1(5, 1) } else { Mix::Interp1(5, 4) },
            if e.top_left { Mix::Interp3(5, 1) } else { Mix::Pick(5) },
            if e.top_right { Mix::Interp3(5, 3) } else { Mix::Pick(5) },
            if e.top_right { Mix::Interp1(5, 3) } else { Mix::Interp1(5, 6) },
            if e.bottom_left { Mix::Interp1(5, 7) } else { Mix::Interp1(5, 4) },
            if e.bottom_left { Mix::Interp3(5, 7) } else { Mix::Pick(5) },
            if e.bottom_right { Mix::Interp3(5, 9) } else { Mix::Pick(5) },
            if e.bottom_right { Mix::Interp1(5, 9) } else { Mix::Interp1(5, 6) },
            if e.bottom_left { Mix::Interp8(5, 7) } else { Mix::Interp2(5, 8, 4) },
            if e.bottom_left { Mix::Interp1(5, 7) } else { Mix::Interp1(5, 8) },
            if e.bottom_right { Mix::Interp1(5, 9) } else { Mix::Interp1(5, 8) },
            if e.bottom_right { Mix::Interp8(5, 9) } else { Mix::Interp2(5, 8, 6) },
        ],
        55 | 23 => seq![
            if e.top_right { Mix::Interp8(5, 4) } else { Mix::Interp1(5, 2) },
            if e.top_right { Mix::Interp3(5, 4) } else { Mix::Interp1(2, 5) },
            if e.top_right { Mix::Pick(5) } else { Mix::Interp8(2, 6) },
            if e.top_right { Mix::Pick(5) } else { Mix::Interp5(2, 6) },
            Mix::Interp8(5, 4),
            Mix::Interp3(5, 4),
            if e.top_right { Mix::Pick(5) } else { Mix::Interp7(5, 6, 2) },
            if e.top_right { Mix::Pick(5) } else { Mix::Interp2(6, 5, 2) },
            Mix::Interp6(5, 4, 8), Mix::Interp7(5, 4, 8), Mix::Interp3(5, 9), Mix::Interp1(5, 9),
            Mix::Interp2(5, 8, 4), Mix::Interp6(5, 8, 4), Mix::Interp6(5, 8, 9), Mix::Interp8(5, 9),
        ],
        182 | 150 => seq![
            Mix::Interp8(5, 1),
            Mix::Interp1(5, 1),
            if e.top_right { Mix::Pick(5) } else { Mix::Interp2(2, 5, 6) },
            if e.top_right { Mix::Pick(5) } else { Mix::Interp5(2, 6) },
            Mix::Interp6(5, 4, 1),
            Mix::Interp3(5, 1),
            if e.top_right { Mix::Pick(5) } else { Mix::Interp7(5, 6, 2) },
            if e.top_right { Mix::Pick(5) } else { Mix::Interp8(6, 2) },
            Mix::Interp6(5, 4, 8),
            Mix::Interp7(5, 4, 8),
            Mix::Interp3(5, 8),
            if e.top_right { Mix::Interp3(5, 8) } else { Mix::Interp1(6, 5) },
            Mix::Interp2(5, 8, 4),
            Mix::Interp6(5, 8, 4),
            Mix::Interp8(5, 8),
            if e.top_right { Mix::Interp8(5, 8) } else { Mix::Interp1(5, 6) },
        ],
        213 | 212 => seq![
            Mix::Interp2(5, 2, 4),
            Mix::Interp6(5, 2, 4),
            Mix::Interp8(5, 2),
            if e.bottom_right { Mix::Interp8(5, 2) } else { Mix::Interp1(5, 6) },
            Mix::Interp6(5, 4, 2),
            Mix::Interp7(5, 4, 2),
            Mix::Interp3(5, 2),
            if e.bottom_right { Mix::Interp3(5, 2) } else { Mix::Interp1(6, 5) },
            Mix::Interp6(5, 4, 7),
            Mix::Interp3(5, 7),
            if e.bottom_right { Mix::Pick(5) } else { Mix::Interp7(5, 6, 8) },
            if e.bottom_right { Mix::Pick(5) } else { Mix::Interp8(6, 8) },
            Mix::Interp8(5, 7),
            Mix::Interp1(5, 7),
            if e.bottom_right { Mix::Pick(5) } else { Mix::Interp2(8, 5, 6) },
            if e.bottom_right { Mix::Pick(5) } else { Mix::Interp5(8, 6) },
        ],
        241 | 240 => seq![
            Mix::Interp2(5, 2, 4), Mix::Interp6(5, 2, 4), Mix::Interp6(5, 2, 3), Mix::Interp8(5, 3),
            Mix::Interp6(5, 4, 2), Mix::Interp7(5, 4, 2), Mix::Interp3(5, 3), Mix::Interp1(5, 3),
            Mix::Interp8(5, 4),
            Mix::Interp3(5, 4),
            if e.bottom_right { Mix::Pick(5) } else { Mix::Interp7(5, 6, 8) },
            if e.bottom_right { Mix::Pick(5) } else { Mix::Interp2(6, 5, 8) },
            if e.bottom_right { Mix::Interp8(5, 4) } else { Mix::Interp1(5, 8) },
            if e.bottom_right { Mix::Interp3(5, 4) } else { Mix::Interp1(8, 5) },
            if e.bottom_right { Mix::Pick(5) } else { Mix::Interp8(8, 6) },
            if e.bottom_right { Mix::Pick(5) } else { Mix::Interp5(8, 6) },
        ],
        236 | 232 => seq![
            Mix::Interp8(5, 1), Mix::Interp6(5, 2, 1), Mix::Interp6(5, 2, 6), Mix::Interp2(5, 2, 6),
            Mix::Interp1(5, 1), Mix::Interp3(5, 1), Mix::Interp7(5, 6, 2), Mix::Interp6(5, 6, 2),
            if e.bottom_left { Mix::Pick(5) } else { Mix::Interp2(4, 5, 8) },
            if e.bottom_left { Mix::Pick(5) } else { Mix::Interp7(5, 4, 8) },
            Mix::Interp3(5, 6),
            Mix::Interp8(5, 6),
            if e.bottom_left { Mix::Pick(5) } else { Mix::Interp5(8, 4) },
            if e.bottom_left { Mix::Pick(5) } else { Mix::Interp8(8, 4) },
            if e.bottom_left { Mix::Interp3(5, 6) } else { Mix::Interp1(8, 5) },
            if e.bottom_left { Mix::Interp8(5, 6) } else { Mix::Interp1(5, 8) },
        ],
        109 | 105 => seq![
            if e.bottom_left { Mix::Interp8(5, 2) } else { Mix::Interp1(5, 4) },
            Mix::Interp8(5, 2),
            Mix::Interp6(5, 2, 6),
            Mix::Interp2(5, 2, 6),
            if e.bottom_left { Mix::Interp3(5, 2) } else { Mix::Interp1(4, 5) },
            Mix::Interp3(5, 2),
            Mix::Interp7(5, 6, 2),
            Mix::Interp6(5, 6, 2),
            if e.bottom_left { Mix::Pick(5) } else { Mix::Interp8(4, 8) },
            if e.bottom_left { Mix::Pick(5) } else { Mix::Interp7(5, 4, 8) },
            Mix::Interp3(5, 9),
            Mix::Interp6(5, 6, 9),
            if e.bottom_left { Mix::Pick(5) } else { Mix::Interp5(8, 4) },
            if e.bottom_left { Mix::Pick(5) } else { Mix::Interp2(8, 5, 4) },
            Mix::Interp1(5, 9),
            Mix::Interp8(5, 9),
        ],
        171 | 43 => seq![
            if e.top_left { Mix::Pick(5) } else { Mix::Interp5(2, 4) },
            if e.top_left { Mix::Pick(5) } else { Mix::Interp2(2, 5, 4) },
            Mix::Interp1(5, 3),
            Mix::Interp8(5, 3),
            if e.top_left { Mix::Pick(5) } else { Mix::Interp8(4, 2) },
            if e.top_left { Mix::Pick(5) } else { Mix::Interp7(5, 4, 2) },
            Mix::Interp3(5, 3),
            Mix::Interp6(5, 6, 3),
            if e.top_left { Mix::Interp3(5, 8) } else { Mix::Interp1(4, 5) },
            Mix::Interp3(5, 8),
            Mix::Interp7(5, 6, 8),
            Mix::Interp6(5, 6, 8),
            if e.top_left { Mix::Interp8(5, 8) } else { Mix::Interp1(5, 4) },
            Mix::Interp8(5, 8),
            Mix::Interp6(5, 8, 6),
            Mix::Interp2(5, 8, 6),
        ],
        143 | 15 => seq![
            if e.top_left { Mix::Pick(5) } else { Mix::Interp5(2, 4) },
            if e.top_left { Mix::Pick(5) } else { Mix::Interp8(2, 4) },
            if e.top_left { Mix::Interp3(5, 6) } else { Mix::Interp1(2, 5) },
            if e.top_left { Mix::Interp8(5, 6) } else { Mix::Interp1(5, 2) },
            if e.top_left { Mix::Pick(5) } else { Mix::Interp2(4, 5, 2) },
            if e.top_left { Mix::Pick(5) } else { Mix::Interp7(5, 4, 2) },
            Mix::Interp3(5, 6),
            Mix::Interp8(5, 6),
            Mix::Interp1(5, 7), Mix::Interp3(5, 7), Mix::Interp7(5, 6, 8), Mix::Interp6(5, 6, 8),
            Mix::Interp8(5, 7), Mix::Interp6(5, 8, 7), Mix::Interp6(5, 8, 6), Mix::Interp2(5, 8, 6),
        ],
        124 => seq![
            Mix::Interp8(5, 1), Mix::Interp6(5, 2, 1), Mix::Interp8(5, 2), Mix::Interp8(5, 2),
            Mix::Interp1(5, 1), Mix::Interp3(5, 1), Mix::Interp3(5, 2), Mix::Interp3(5, 2),
            if e.bottom_left { Mix::Pick(5) } else { Mix::Interp5(4, 5) },
            Mix::Pick(5),
            Mix::Interp3(5, 9),
            Mix::Interp1(5, 9),
            if e.bottom_left { Mix::Pick(5) } else { Mix::Interp5(8, 4) },
            if e.bottom_left { Mix::Pick(5) } else { Mix::Interp5(8, 5) },
            Mix::Interp1(5, 9),
            Mix::Interp8(5, 9),
        ],
        203 => seq![
            if e.top_left { Mix::Pick(5) } else { Mix::Interp5(2, 4) },
            if e.top_left { Mix::Pick(5) } else { Mix::Interp5(2, 5) },
            Mix::Interp1(5, 3),
            Mix::Interp8(5, 3),
            if e.top_left { Mix::Pick(5) } else { Mix::Interp5(4, 5) },
            Mix::Pick(5),
            Mix::Interp3(5, 3),
            Mix::Interp6(5, 6, 3),
            Mix::Interp1(5, 7), Mix::Interp3(5, 7), Mix::Interp3(5, 6), Mix::Interp8(5, 6),
            Mix::Interp8(5, 7), Mix::Interp1(5, 7), Mix::Interp3(5, 6), Mix::Interp8(5, 6),
        ],
        62 => seq![
            Mix::Interp8(5, 1),
            Mix::Interp1(5, 1),
            if e.top_right { Mix::Pick(5) } else { Mix::Interp5(2, 5) },
            if e.top_right { Mix::Pick(5) } else { Mix::Interp5(2, 6) },
            Mix::Interp1(5, 1),
            Mix::Interp3(5, 1),
            Mix::Pick(5),
            if e.top_right { Mix::Pick(5) } else { Mix::Interp5(6, 5) },
            Mix::Interp3(5, 8), Mix::Interp3(5, 8), Mix::Interp3(5, 9), Mix::Interp1(5, 9),
            Mix::Interp8(5, 8), Mix::Interp8(5, 8), Mix::Interp6(5, 8, 9), Mix::Interp8(5, 9),
        ],
        211 => seq![
            Mix::Interp8(5, 4), Mix::Interp3(5, 4), Mix::Interp1(5, 3), Mix::Interp8(5, 3),
            Mix::Interp8(5, 4), Mix::Interp3(5, 4), Mix::Interp3(5, 3), Mix::Interp1(5, 3),
            Mix::Interp6(5, 4, 7),
            Mix::Interp3(5, 7),
            Mix::Pick(5),
            if e.bottom_right { Mix::Pick(5) } else { Mix::Interp5(6, 5) },
            Mix::Interp8(5, 7),
            Mix::Interp1(5, 7),
            if e.bottom_right { Mix::Pick(5) } else { Mix::Interp5(8, 5) },
            if e.bottom_right { Mix::Pick(5) } else { Mix::Interp5(8, 6) },
        ],
        118 => seq![
            Mix::Interp8(5, 1),
            Mix::Interp1(5, 1),
            if e.top_right { Mix::Pick(5) } else { Mix::Interp5(2, 5) },
            if e.top_right { Mix::Pick(5) } else { Mix::Interp5(2, 6) },
            Mix::Interp6(5, 4, 1),
            Mix::Interp3(5, 1),
            Mix::Pick(5),
            if e.top_right { Mix::Pick(5) } else { Mix::Interp5(6, 5) },
            Mix::Interp8(5, 4), Mix::Interp3(5, 4), Mix::Interp3(5, 9), Mix::Interp1(5, 9),
            Mix::Interp8(5, 4), Mix::Interp3(5, 4), Mix::Interp1(5, 9), Mix::Interp8(5, 9),
        ],
        217 => seq![
            Mix::Interp8(5, 2), Mix::Interp8(5, 2), Mix::Interp6(5, 2, 3), Mix::Interp8(5, 3),
            Mix::Interp3(5, 2), Mix::Interp3(5, 2), Mix::Interp3(5, 3), Mix::Interp1(5, 3),
            Mix::Interp1(5, 7),
            Mix::Interp3(5, 7),
            Mix::Pick(5),
            if e.bottom_right { Mix::Pick(5) } else { Mix::Interp5(6, 5) },
            Mix::Interp8(5, 7),
            Mix::Interp1(5, 7),
            if e.bottom_right { Mix::Pick(5) } else { Mix::Interp5(8, 5) },
            if e.bottom_right { Mix::Pick(5) } else { Mix::Interp5(8, 6) },
        ],
        110 => seq![
            Mix::Interp8(5, 1), Mix::Interp1(5, 1), Mix::Interp3(5, 6), Mix::Interp8(5, 6),
            Mix::Interp1(5, 1), Mix::Interp3(5, 1), Mix::Interp3(5, 6), Mix::Interp8(5, 6),
            if e.bottom_left { Mix::Pick(5) } else { Mix::Interp5(4, 5) },
            Mix::Pick(5),
            Mix::Interp3(5, 9),
            Mix::Interp6(5, 6, 9),
            if e.bottom_left { Mix::Pick(5) } else { Mix::Interp5(8, 4) },
            if e.bottom_left { Mix::Pick(5) } else { Mix::Interp5(8, 5) },
            Mix::Interp1(5, 9),
            Mix::Interp8(5, 9),
        ],
        155 => seq![
            if e.top_left { Mix::Pick(5) } else { Mix::Interp5(2, 4) },
            if e.top_left { Mix::Pick(5) } else { Mix::Interp5(2, 5) },
            Mix::Interp1(5, 3),
            Mix::Interp8(5, 3),
            if e.top_left { Mix::Pick(5) } else { Mix::Interp5(4, 5) },
            Mix::Pick(5),
            Mix::Interp3(5, 3),
            Mix::Interp1(5, 3),
            Mix::Interp1(5, 7), Mix::Interp3(5, 7), Mix::Interp3(5, 8), Mix::Interp3(5, 8),
            Mix::Interp8(5, 7), Mix::Interp6(5, 8, 7), Mix::Interp8(5, 8), Mix::Interp8(5, 8),
        ],
        188 => seq![
            Mix::Interp8(5, 1), Mix::Interp6(5, 2, 1), Mix::Interp8(5, 2), Mix::Interp8(5, 2),
            Mix::Interp1(5, 1), Mix::Interp3(5, 1), Mix::Interp3(5, 2), Mix::Interp3(5, 2),
            Mix::Interp3(5, 8), Mix::Interp3(5, 8), Mix::Interp3(5, 8), Mix::Interp3(5, 8),
            Mix::Interp8(5, 8), Mix::Interp8(5, 8), Mix::Interp8(5, 8), Mix::Interp8(5, 8),
        ],
        185 => seq![
            Mix::Interp8(5, 2), Mix::Interp8(5, 2), Mix::Interp6(5, 2, 3), Mix::Interp8(5, 3),
            Mix::Interp3(5, 2), Mix::Interp3(5, 2), Mix::Interp3(5, 3), Mix::Interp1(5, 3),
            Mix::Interp3(5, 8), Mix::Interp3(5, 8), Mix::Interp3(5, 8), Mix::Interp3(5, 8),
            Mix::Interp8(5, 8), Mix::Interp8(5, 8), Mix::Interp8(5, 8), Mix::Interp8(5, 8),
        ],
        61 => seq![
            Mix::Interp8(5, 2), Mix::Interp8(5, 2), Mix::Interp8(5, 2), Mix::Interp8(5, 2),
            Mix::Interp3(5, 2), Mix::Interp3(5, 2), Mix::Interp3(5, 2), Mix::Interp3(5, 2),
            Mix::Interp3(5, 8), Mix::Interp3(5, 8), Mix::Interp3(5, 9), Mix::Interp1(5, 9),
            Mix::Interp8(5, 8), Mix::Interp8(5, 8), Mix::Interp6(5, 8, 9), Mix::Interp8(5, 9),
        ],
        157 => seq![
            Mix::Interp8(5, 2), Mix::Interp8(5, 2), Mix::Interp8(5, 2), Mix::Interp8(5, 2),
            Mix::Interp3(5, 2), Mix::Interp3(5, 2), Mix::Interp3(5, 2), Mix::Interp3(5, 2),
            Mix::Interp1(5, 7), Mix::Interp3(5, 7), Mix::Interp3(5, 8), Mix::Interp3(5, 8),
            Mix::Interp8(5, 7), Mix::Interp6(5, 8, 7), Mix::Interp8(5, 8), Mix::Interp8(5, 8),
        ],
        103 => seq![
            Mix::Interp8(5, 4), Mix::Interp3(5, 4), Mix::Interp3(5, 6), Mix::Interp8(5, 6),
            Mix::Interp8(5, 4), Mix::Interp3(5, 4), Mix::Interp3(5, 6), Mix::Interp8(5, 6),
            Mix::Interp8(5, 4), Mix::Interp3(5, 4), Mix::Interp3(5, 9), Mix::Interp6(5, 6, 9),
            Mix::Interp8(5, 4), Mix::Interp3(5, 4), Mix::Interp1(5, 9), Mix::Interp8(5, 9),
        ],
        227 => seq![
            Mix::Interp8(5, 4), Mix::Interp3(5, 4), Mix::Interp1(5, 3), Mix::Interp8(5, 3),
            Mix::Interp8(5, 4), Mix::Interp3(5, 4), Mix::Interp3(5, 3), Mix::Interp6(5, 6, 3),
            Mix::Interp8(5, 4), Mix::Interp3(5, 4), Mix::Interp3(5, 6), Mix::Interp8(5, 6),
            Mix::Interp8(5, 4), Mix::Interp3(5, 4), Mix::Interp3(5, 6), Mix::Interp8(5, 6),
        ],
        230 => seq![
            Mix::Interp8(5, 1), Mix::Interp1(5, 1), Mix::Interp3(5, 6), Mix::Interp8(5, 6),
            Mix::Interp6(5, 4, 1), Mix::Interp3(5, 1), Mix::Interp3(5, 6), Mix::Interp8(5, 6),
            Mix::Interp8(5, 4), Mix::Interp3(5, 4), Mix::Interp3(5, 6), Mix::Interp8(5, 6),
            Mix::Interp8(5, 4), Mix::Interp3(5, 4), Mix::Interp3(5, 6), Mix::Interp8(5, 6),
        ],
        199 => seq![
            Mix::Interp8(5, 4), Mix::Interp3(5, 4), Mix::Interp3(5, 6), Mix::Interp8(5, 6),
            Mix::Interp8(5, 4), Mix::Interp3(5, 4), Mix::Interp3(5, 6), Mix::Interp8(5, 6),
            Mix::Interp6(5, 4, 7), Mix::Interp3(5, 7), Mix::Interp3(5, 6), Mix::Interp8(5, 6),
            Mix::Interp8(5, 7), Mix::Interp1(5, 7), Mix::Interp3(5, 6), Mix::Interp8(5, 6),
        ],
        220 => seq![
            Mix::Interp8(5, 1), Mix::Interp6(5, 2, 1), Mix::Interp8(5, 2), Mix::Interp8(5, 2),
            Mix::Interp1(5, 1), Mix::Interp3(5, 1), Mix::Interp3(5, 2), Mix::Interp3(5, 2),
            if e.bottom_left { Mix::Interp1(5, 7) } else { Mix::Interp1(5, 4) },
            if e.bottom_left { Mix::Interp3(5, 7) } else { Mix::Pick(5) },
            Mix::Pick(5),
            if e.bottom_right { Mix::Pick(5) } else { Mix::Interp5(6, 5) },
            if e.bottom_left { Mix::Interp8(5, 7) } else { Mix::Interp2(5, 8, 4) },
            if e.bottom_left { Mix::Interp1(5, 7) } else { Mix::Interp1(5, 8) },
            if e.bottom_right { Mix::Pick(5) } else { Mix::Interp5(8, 5) },
            if e.bottom_right { Mix::Pick(5) } else { Mix::Interp5(8, 6) },
        ],
        158 => seq![
            if e.top_left { Mix::Interp8(5, 1) } else { Mix::Interp2(5, 2, 4) },
            if e.top_left { Mix::Interp1(5, 1) } else { Mix::Interp1(5, 2) },
            if e.top_right { Mix::Pick(5) } else { Mix::Interp5(2, 5) },
            if e.top_right { Mix::Pick(5) } else { Mix::Interp5(2, 6) },
            if e.top_left { Mix::Interp1(5, 1) } else { Mix::Interp1(5, 4) },
            if e.top_left { Mix::Interp3(5, 1) } else { Mix::Pick(5) },
            Mix::Pick(5),
            if e.top_right { Mix::Pick(5) } else { Mix::Interp5(6, 5) },
            Mix::Interp1(5, 7), Mix::Interp3(5, 7), Mix::Interp3(5, 8), Mix::Interp3(5, 8),
            Mix::Interp8(5, 7), Mix::Interp6(5, 8, 7), Mix::Interp8(5, 8), Mix::Interp8(5, 8),
        ],
        234 => seq![
            if e.top_left { Mix::Interp8(5, 1) } else { Mix::Interp2(5, 2, 4) },
            if e.top_left { Mix::Interp1(5, 1) } else { Mix::Interp1(5, 2) },
            Mix::Interp1(5, 3),
            Mix::Interp8(5, 3),
            if e.top_left { Mix::Interp1(5, 1) } else { Mix::Interp1(5, 4) },
            if e.top_left { Mix::Interp3(5, 1) } else { Mix::Pick(5) },
            Mix::Interp3(5, 3),
            Mix::Interp6(5, 6, 3),
            if e.bottom_left { Mix::Pick(5) } else { Mix::Interp5(4, 5) },
            Mix::Pick(5),
            Mix::Interp3(5, 6),
            Mix::Interp8(5, 6),
            if e.bottom_left { Mix::Pick(5) } else { Mix::Interp5(8, 4) },
            if e.bottom_left { Mix::Pick(5) } else { Mix::Interp5(8, 5) },
            Mix::Interp3(5, 6),
            Mix::Interp8(5, 6),
        ],
        242 => seq![
            Mix::Interp8(5, 1),
            Mix::Interp1(5, 1),
            if e.top_right { Mix::Interp1(5, 3) } else { Mix::Interp1(5, 2) },
            if e.top_right { Mix::Interp8(5, 3) } else { Mix::Interp2(5, 2, 6) },
            Mix::Interp6(5, 4, 1),
            Mix::Interp3(5, 1),
            if e.top_right { Mix::Interp3(5, 3) } else { Mix::Pick(5) },
            if e.top_right { Mix::Interp1(5, 3) } else { Mix::Interp1(5, 6) },
            Mix::Interp8(5, 4),
            Mix::Interp3(5, 4),
            Mix::Pick(5),
            if e.bottom_right { Mix::Pick(5) } else { Mix::Interp5(6, 5) },
            Mix::Interp8(5, 4),
            Mix::Interp3(5, 4),
            if e.bottom_right { Mix::Pick(5) } else { Mix::Interp5(8, 5) },
            if e.bottom_right { Mix::Pick(5) } else { Mix::Interp5(8, 6) },
        ],
        59 => seq![
            if e.top_left { Mix::Pick(5) } else { Mix::Interp5(2, 4) },
            if e.top_left { Mix::Pick(5) } else { Mix::Interp5(2, 5) },
            if e.top_right { Mix::Interp1(5, 3) } else { Mix::Interp1(5, 2) },
            if e.top_right { Mix::Interp8(5, 3) } else { Mix::Interp2(5, 2, 6) },
            if e.top_left { Mix::Pick(5) } else { Mix::Interp5(4, 5) },
            Mix::Pick(5),
            if e.top_right { Mix::Interp3(5, 3) } else { Mix::Pick(5) },
            if e.top_right { Mix::Interp1(5, 3) } else { Mix::Interp1(5, 6) },
            Mix::Interp3(5, 8), Mix::Interp3(5, 8), Mix::Interp3(5, 9), Mix::Interp1(5, 9),
            Mix::Interp8(5, 8), Mix::Interp8(5, 8), Mix::Interp6(5, 8, 9), Mix::Interp8(5, 9),
        ],
        121 => seq![
            Mix::Interp8(5, 2), Mix::Interp8(5, 2), Mix::Interp6(5, 2, 3), Mix::Interp8(5, 3),
            Mix::Interp3(5, 2), Mix::Interp3(5, 2), Mix::Interp3(5, 3), Mix::Interp1(5, 3),
            if e.bottom_left { Mix::Pick(5) } else { Mix::Interp5(4, 5) },
            Mix::Pick(5),
            if e.bottom_right { Mix::Interp3(5, 9) } else { Mix::Pick(5) },
            if e.bottom_right { Mix::Interp1(5, 9) } else { Mix::Interp1(5, 6) },
            if e.bottom_left { Mix::Pick(5) } else { Mix::Interp5(8, 4) },
            if e.bottom_left { Mix::Pick(5) } else { Mix::Interp5(8, 5) },
            if e.bottom_right { Mix::Interp1(5, 9) } else { Mix::Interp1(5, 8) },
            if e.bottom_right { Mix::Interp8(5, 9) } else { Mix::Interp2(5, 8, 6) },
        ],
        87 => seq![
            Mix::Interp8(5, 4),
            Mix::Interp3(5, 4),
            if e.top_right { Mix::Pick(5) } else { Mix::Interp5(2, 5) },
            if e.top_right { Mix::Pick(5) } else { Mix::Interp5(2, 6) },
            Mix::Interp8(5, 4),
            Mix::Interp3(5, 4),
            Mix::Pick(5),
            if e.top_right { Mix::Pick(5) } else { Mix::Interp5(6, 5) },
            Mix::Interp6(5, 4, 7),
            Mix::Interp3(5, 7),
            if e.bottom_right { Mix::Interp3(5, 9) } else { Mix::Pick(5) },
            if e.bottom_right { Mix::Interp1(5, 9) } else { Mix::Interp1(5, 6) },
            Mix::Interp8(5, 7),
            Mix::Interp1(5, 7),
            if e.bottom_right { Mix::Interp1(5, 9) } else { Mix::Interp1(5, 8) },
            if e.bottom_right { Mix::Interp8(5, 9) } else { Mix::Interp2(5, 8, 6) },
        ],
        79 => seq![
            if e.top_left { Mix::Pick(5) } else { Mix::Interp5(2, 4) },
            if e.top_left { Mix::Pick(5) } else { Mix::Interp5(2, 5) },
            Mix::Interp3(5, 6),
            Mix::Interp8(5, 6),
            if e.top_left { Mix::Pick(5) } else { Mix::Interp5(4, 5) },
            Mix::Pick(5),
            Mix::Interp3(5, 6),
            Mix::Interp8(5, 6),
            if e.bottom_left { Mix::Interp1(5, 7) } else { Mix::Interp1(5, 4) },
            if e.bottom_left { Mix::Interp3(5, 7) } else { Mix::Pick(5) },
            Mix::Interp3(5, 9),
            Mix::Interp6(5, 6, 9),
            if e.bottom_left { Mix::Interp8(5, 7) } else { Mix::Interp2(5, 8, 4) },
            if e.bottom_left { Mix::Interp1(5, 7) } else { Mix::Interp1(5, 8) },
            Mix::Interp1(5, 9),
            Mix::Interp8(5, 9),
        ],
        122 => seq![
            if e.top_left { Mix::Interp8(5, 1) } else { Mix::Interp2(5, 2, 4) },
            if e.top_left { Mix::Interp1(5, 1) } else { Mix::Interp1(5, 2) },
            if e.top_right { Mix::Interp1(5, 3) } else { Mix::Interp1(5, 2) },
            if e.top_right { Mix::Interp8(5, 3) } else { Mix::Interp2(5, 2, 6) },
            if e.top_left { Mix::Interp1(5, 1) } else { Mix::Interp1(5, 4) },
            if e.top_left { Mix::Interp3(5, 1) } else { Mix::Pick(5) },
            if e.top_right { Mix::Interp3(5, 3) } else { Mix::Pick(5) },
            if e.top_right { Mix::Interp1(5, 3) } else { Mix::Interp1(5, 6) },
            if e.bottom_left { Mix::Pick(5) } else { Mix::Interp5(4, 5) },
            Mix::Pick(5),
            if e.bottom_right { Mix::Interp3(5, 9) } else { Mix::Pick(5) },
            if e.bottom_right { Mix::Interp1(5, 9) } else { Mix::Interp1(5, 6) },
            if e.bottom_left { Mix::Pick(5) } else { Mix::Interp5(8, 4) },
            if e.bottom_left { Mix::Pick(5) } else { Mix::Interp5(8, 5) },
            if e.bottom_right { Mix::Interp1(5, 9) } else { Mix::Interp1(5, 8) },
            if e.bottom_right { Mix::Interp8(5, 9) } else { Mix::Interp2(5, 8, 6) },
        ],
        94 => seq![
            if e.top_left { Mix::Interp8(5, 1) } else { Mix::Interp2(5, 2, 4) },
            if e.top_left { Mix::Interp1(5, 1) } else { Mix::Interp1(5, 2) },
            if e.top_right { Mix::Pick(5) } else { Mix::Interp5(2, 5) },
            if e.top_right { Mix::Pick(5) } else { Mix::Interp5(2, 6) },
            if e.top_left { Mix::Interp1(5, 1) } else { Mix::Interp1(5, 4) },
            if e.top_left { Mix::Interp3(5, 1) } else { Mix::Pick(5) },
            Mix::Pick(5),
            if e.top_right { Mix::Pick(5) } else { Mix::Interp5(6, 5) },
            if e.bottom_left { Mix::Interp1(5, 7) } else { Mix::Interp1(5, 4) },
            if e.bottom_left { Mix::Interp3(5, 7) } else { Mix::Pick(5) },
            if e.bottom_right { Mix::Interp3(5, 9) } else { Mix::Pick(5) },
            if e.bottom_right { Mix::Interp1(5, 9) } else { Mix::Interp1(5, 6) },
            if e.bottom_left { Mix::Interp8(5, 7) } else { Mix::Interp2(5, 8, 4) },
            if e.bottom_left { Mix::Interp1(5, 7) } else { Mix::Interp1(5, 8) },
            if e.bottom_right { Mix::Interp1(5, 9) } else { Mix::Interp1(5, 8) },
            if e.bottom_right { Mix::Interp8(5, 9) } else { Mix::Interp2(5, 8, 6) },
        ],
        218 => seq![
            if e.top_left { Mix::Interp8(5, 1) } else { Mix::Interp2(5, 2, 4) },
            if e.top_left { Mix::Interp1(5, 1) } else { Mix::Interp1(5, 2) },
            if e.top_right { Mix::Interp1(5, 3) } else { Mix::Interp1(5, 2) },
            if e.top_right { Mix::Interp8(5, 3) } else { Mix::Interp2(5, 2, 6) },
            if e.top_left { Mix::Interp1(5, 1) } else { Mix::Interp1(5, 4) },
            if e.top_left { Mix::Interp3(5, 1) } else { Mix::Pick(5) },
            if e.top_right { Mix::Interp3(5, 3) } else { Mix::Pick(5) },
            if e.top_right { Mix::Interp1(5, 3) } else { Mix::Interp1(5, 6) },
            if e.bottom_left { Mix::Interp1(5, 7) } else { Mix::Interp1(5, 4) },
            if e.bottom_left { Mix::Interp3(5, 7) } else { Mix::Pick(5) },
            Mix::Pick(5),
            if e.bottom_right { Mix::Pick(5) } else { Mix::Interp5(6, 5) },
            if e.bottom_left { Mix::Interp8(5, 7) } else { Mix::Interp2(5, 8, 4) },
            if e.bottom_left { Mix::Interp1(5, 7) } else { Mix::Interp1(5, 8) },
            if e.bottom_right { Mix::Pick(5) } else { Mix::Interp5(8, 5) },
            if e.bottom_right { Mix::Pick(5) } else { Mix::Interp5(8, 6) },
        ],
        91 => seq![
            if e.top_left { Mix::Pick(5) } else { Mix::Interp5(2, 4) },
            if e.top_left { Mix::Pick(5) } else { Mix::Interp5(2, 5) },
            if e.top_right { Mix::Interp1(5, 3) } else { Mix::Interp1(5, 2) },
            if e.top_right { Mix::Interp8(5, 3) } else { Mix::Interp2(5, 2, 6) },
            if e.top_left { Mix::Pick(5) } else { Mix::Interp5(4, 5) },
            Mix::Pick(5),
            if e.top_right { Mix::Interp3(5, 3) } else { Mix::Pick(5) },
            if e.top_right { Mix::Interp1(5, 3) } else { Mix::Interp1(5, 6) },
            if e.bottom_left { Mix::Interp1(5, 7) } else { Mix::Interp1(5, 4) },
            if e.bottom_left { Mix::Interp3(5, 7) } else { Mix::Pick(5) },
            if e.bottom_right { Mix::Interp3(5, 9) } else { Mix::Pick(5) },
            if e.bottom_right { Mix::Interp1(5, 9) } else { Mix::Interp1(5, 6) },
            if e.bottom_left { Mix::Interp8(5, 7) } else { Mix::Interp2(5, 8, 4) },
            if e.bottom_left { Mix::Interp1(5, 7) } else { Mix::Interp1(5, 8) },
            if e.bottom_right { Mix::Interp1(5, 9) } else { Mix::Interp1(5, 8) },
            if e.bottom_right { Mix::Interp8(5, 9) } else { Mix::Interp2(5, 8, 6) },
        ],
        229 => seq![
            Mix::Interp2(5, 2, 4),
            Mix::Interp6(5, 2, 4),
            Mix::Interp6(5, 2, 6),
            Mix::Interp2(5, 2, 6),
            Mix::Interp6(5, 4, 2),
            Mix::Interp7(5, 4, 2),
            Mix::Interp7(5, 6, 2),
            Mix::Interp6(5, 6, 2),
            Mix::Interp8(5, 4), Mix::Interp3(5, 4), Mix::Interp3(5, 6), Mix::Interp8(5, 6),
            Mix::Interp8(5, 4), Mix::Interp3(5, 4), Mix::Interp3(5, 6), Mix::Interp8(5, 6),
        ],
        167 => seq![
            Mix::Interp8(5, 4), Mix::Interp3(5, 4), Mix::Interp3(5, 6), Mix::Interp8(5, 6),
            Mix::Interp8(5, 4), Mix::Interp3(5, 4), Mix::Interp3(5, 6), Mix::Interp8(5, 6),
            Mix::Interp6(5, 4, 8),
            Mix::Interp7(5, 4, 8),
            Mix::Interp7(5, 6, 8),
            Mix::Interp6(5, 6, 8),
            Mix::Interp2(5, 8, 4),
            Mix::Interp6(5, 8, 4),
            Mix::Interp6(5, 8, 6),
            Mix::Interp2(5, 8, 6),
        ],
        173 => seq![
            Mix::Interp8(5, 2), Mix::Interp8(5, 2), Mix::Interp6(5, 2, 6), Mix::Interp2(5, 2, 6),
            Mix::Interp3(5, 2), Mix::Interp3(5, 2), Mix::Interp7(5, 6, 2), Mix::Interp6(5, 6, 2),
            Mix::Interp3(5, 8), Mix::Interp3(5, 8), Mix::Interp7(5, 6, 8), Mix::Interp6(5, 6, 8),
            Mix::Interp8(5, 8), Mix::Interp8(5, 8), Mix::Interp6(5, 8, 6), Mix::Interp2(5, 8, 6),
        ],
        181 => seq![
            Mix::Interp2(5, 2, 4), Mix::Interp6(5, 2, 4), Mix::Interp8(5, 2), Mix::Interp8(5, 2),
            Mix::Interp6(5, 4, 2), Mix::Interp7(5, 4, 2), Mix::Interp3(5, 2), Mix::Interp3(5, 2),
            Mix::Interp6(5, 4, 8), Mix::Interp7(5, 4, 8), Mix::Interp3(5, 8), Mix::Interp3(5, 8),
            Mix::Interp2(5, 8, 4), Mix::Interp6(5, 8, 4), Mix::Interp8(5, 8), Mix::Interp8(5, 8),
        ],
        186 => seq![
            if e.top_left { Mix::Interp8(5, 1) } else { Mix::Interp2(5, 2, 4) },
            if e.top_left { Mix::Interp1(5, 1) } else { Mix::Interp1(5, 2) },
            if e.top_right { Mix::Interp1(5, 3) } else { Mix::Interp1(5, 2) },
            if e.top_right { Mix::Interp8(5, 3) } else { Mix::Interp2(5, 2, 6) },
            if e.top_left { Mix::Interp1(5, 1) } else { Mix::Interp1(5, 4) },
            if e.top_left { Mix::Interp3(5, 1) } else { Mix::Pick(5) },
            if e.top_right { Mix::Interp3(5, 3) } else { Mix::Pick(5) },
            if e.top_right { Mix::Interp1(5, 3) } else { Mix::Interp1(5, 6) },
            Mix::Interp3(5, 8), Mix::Interp3(5, 8), Mix::Interp3(5, 8), Mix::Interp3(5, 8),
            Mix::Interp8(5, 8), Mix::Interp8(5, 8), Mix::Interp8(5, 8), Mix::Interp8(5, 8),
        ],
        115 => seq![
            Mix::Interp8(5, 4),
            Mix::Interp3(5, 4),
            if e.top_right { Mix::Interp1(5, 3) } else { Mix::Interp1(5, 2) },
            if e.top_right { Mix::Interp8(5, 3) } else { Mix::Interp2(5, 2, 6) },
            Mix::Interp8(5, 4),
            Mix::Interp3(5, 4),
            if e.top_right { Mix::Interp3(5, 3) } else { Mix::Pick(5) },
            if e.top_right { Mix::Interp1(5, 3) } else { Mix::Interp1(5, 6) },
            Mix::Interp8(5, 4),
            Mix::Interp3(5, 4),
            if e.bottom_right { Mix::Interp3(5, 9) } else { Mix::Pick(5) },
            if e.bottom_right { Mix::Interp1(5, 9) } else { Mix::Interp1(5, 6) },
            Mix::Interp8(5, 4),
            Mix::Interp3(5, 4),
            if e.bottom_right { Mix::Interp1(5, 9) } else { Mix::Interp1(5, 8) },
            if e.bottom_right { Mix::Interp8(5, 9) } else { Mix::Interp2(5, 8, 6) },
        ],
        93 => seq![
            Mix::Interp8(5, 2), Mix::Interp8(5, 2), Mix::Interp8(5, 2), Mix::Interp8(5, 2),
            Mix::Interp3(5, 2), Mix::Interp3(5, 2), Mix::Interp3(5, 2), Mix::Interp3(5, 2),
            if e.bottom_left { Mix::Interp1(5, 7) } else { Mix::Interp1(5, 4) },
            if e.bottom_left { Mix::Interp3(5, 7) } else { Mix::Pick(5) },
            if e.bottom_right { Mix::Interp3(5, 9) } else { Mix::Pick(5) },
            if e.bottom_right { Mix::Interp1(5, 9) } else { Mix::Interp1(5, 6) },
            if e.bottom_left { Mix::Interp8(5, 7) } else { Mix::Interp2(5, 8, 4) },
            if e.bottom_left { Mix::Interp1(5, 7) } else { Mix::Interp1(5, 8) },
            if e.bottom_right { Mix::Interp1(5, 9) } else { Mix::Interp1(5, 8) },
            if e.bottom_right { Mix::Interp8(5, 9) } else { Mix::Interp2(5, 8, 6) },
        ],
        206 => seq![
            if e.top_left { Mix::Interp8(5, 1) } else { Mix::Interp2(5, 2, 4) },
            if e.top_left { Mix::Interp1(5, 1) } else { Mix::Interp1(5, 2) },
            Mix::Interp3(5, 6),
            Mix::Interp8(5, 6),
            if e.top_left { Mix::Interp1(5, 1) } else { Mix::Interp1(5, 4) },
            if e.top_left { Mix::Interp3(5, 1) } else { Mix::Pick(5) },
            Mix::Interp3(5, 6),
            Mix::Interp8(5, 6),
            if e.bottom_left { Mix::Interp1(5, 7) } else { Mix::Interp1(5, 4) },
            if e.bottom_left { Mix::Interp3(5, 7) } else { Mix::Pick(5) },
            Mix::Interp3(5, 6),
            Mix::Interp8(5, 6),
            if e.bottom_left { Mix::Interp8(5, 7) } else { Mix::Interp2(5, 8, 4) },
            if e.bottom_left { Mix::Interp1(5, 7) } else { Mix::Interp1(5, 8) },
            Mix::Interp3(5, 6),
            Mix::Interp8(5, 6),
        ],
        205 | 201 => seq![
            Mix::Interp8(5, 2), Mix::Interp8(5, 2), Mix::Interp6(5, 2, 6), Mix::Interp2(5, 2, 6),
            Mix::Interp3(5, 2), Mix::Interp3(5, 2), Mix::Interp7(5, 6, 2), Mix::Interp6(5, 6, 2),
            if e.bottom_left { Mix::Interp1(5, 7) } else { Mix::Interp1(5, 4) },
            if e.bottom_left { Mix::Interp3(5, 7) } else { Mix::Pick(5) },
            Mix::Interp3(5, 6),
            Mix::Interp8(5, 6),
            if e.bottom_left { Mix::Interp8(5, 7) } else { Mix::Interp2(5, 8, 4) },
            if e.bottom_left { Mix::Interp1(5, 7) } else { Mix::Interp1(5, 8) },
            Mix::Interp3(5, 6),
            Mix::Interp8(5, 6),
        ],
        174 | 46 => seq![
            if e.top_left { Mix::Interp8(5, 1) } else { Mix::Interp2(5, 2, 4) },
            if e.top_left { Mix::Interp1(5, 1) } else { Mix::Interp1(5, 2) },
            Mix::Interp3(5, 6),
            Mix::Interp8(5, 6),
            if e.top_left { Mix::Interp1(5, 1) } else { Mix::Interp1(5, 4) },
            if e.top_left { Mix::Interp3(5, 1) } else { Mix::Pick(5) },
            Mix::Interp3(5, 6),
            Mix::Interp8(5, 6),
            Mix::Interp3(5, 8), Mix::Interp3(5, 8), Mix::Interp7(5, 6, 8), Mix::Interp6(5, 6, 8),
            Mix::Interp8(5, 8), Mix::Interp8(5, 8), Mix::Interp6(5, 8, 6), Mix::Interp2(5, 8, 6),
        ],
        179 | 147 => seq![
            Mix::Interp8(5, 4),
            Mix::Interp3(5, 4),
            if e.top_right { Mix::Interp1(5, 3) } else { Mix::Interp1(5, 2) },
            if e.top_right { Mix::Interp8(5, 3) } else { Mix::Interp2(5, 2, 6) },
            Mix::Interp8(5, 4),
            Mix::Interp3(5, 4),
            if e.top_right { Mix::Interp3(5, 3) } else { Mix::Pick(5) },
            if e.top_right { Mix::Interp1(5, 3) } else { Mix::Interp1(5, 6) },
            Mix::Interp6(5, 4, 8), Mix::Interp7(5, 4, 8), Mix::Interp3(5, 8), Mix::Interp3(5, 8),
            Mix::Interp2(5, 8, 4), Mix::Interp6(5, 8, 4), Mix::Interp8(5, 8), Mix::Interp8(5, 8),
        ],
        117 | 116 => seq![
            Mix::Interp2(5, 2, 4), Mix::Interp6(5, 2, 4), Mix::Interp8(5, 2), Mix::Interp8(5, 2),
            Mix::Interp6(5, 4, 2), Mix::Interp7(5, 4, 2), Mix::Interp3(5, 2), Mix::Interp3(5, 2),
            Mix::Interp8(5, 4),
            Mix::Interp3(5, 4),
            if e.bottom_right { Mix::Interp3(5, 9) } else { Mix::Pick(5) },
            if e.bottom_right { Mix::Interp1(5, 9) } else { Mix::Interp1(5, 6) },
            Mix::Interp8(5, 4),
            Mix::Interp3(5, 4),
            if e.bottom_right { Mix::Interp1(5, 9) } else { Mix::Interp1(5, 8) },
            if e.bottom_right { Mix::Interp8(5, 9) } else { Mix::Interp2(5, 8, 6) },
        ],
        189 => seq![
            Mix::Interp8(5, 2), Mix::Interp8(5, 2), Mix::Interp8(5, 2), Mix::Interp8(5, 2),
            Mix::Interp3(5, 2), Mix::Interp3(5, 2), Mix::Interp3(5, 2), Mix::Interp3(5, 2),
            Mix::Interp3(5, 8), Mix::Interp3(5, 8), Mix::Interp3(5, 8), Mix::Interp3(5, 8),
            Mix::Interp8(5, 8), Mix::Interp8(5, 8), Mix::Interp8(5, 8), Mix::Interp8(5, 8),
        ],
        231 => seq![
            Mix::Interp8(5, 4), Mix::Interp3(5, 4), Mix::Interp3(5, 6), Mix::Interp8(5, 6),
            Mix::Interp8(5, 4), Mix::Interp3(5, 4), Mix::Interp3(5, 6), Mix::Interp8(5, 6),
            Mix::Interp8(5, 4), Mix::Interp3(5, 4), Mix::Interp3(5, 6), Mix::Interp8(5, 6),
            Mix::Interp8(5, 4), Mix::Interp3(5, 4), Mix::Interp3(5, 6), Mix::Interp8(5, 6),
        ],
        126 => seq![
            Mix::Interp8(5, 1),
            Mix::Interp1(5, 1),
            if e.top_right { Mix::Pick(5) } else { Mix::Interp5(2, 5) },
            if e.top_right { Mix::Pick(5) } else { Mix::Interp5(2, 6) },
            Mix::Interp1(5, 1),
            Mix::Interp3(5, 1),
            Mix::Pick(5),
            if e.top_right { Mix::Pick(5) } else { Mix::Interp5(6, 5) },
            if e.bottom_left { Mix::Pick(5) } else { Mix::Interp5(4, 5) },
            Mix::Pick(5),
            Mix::Interp3(5, 9),
            Mix::Interp1(5, 9),
            if e.bottom_left { Mix::Pick(5) } else { Mix::Interp5(8, 4) },
            if e.bottom_left { Mix::Pick(5) } else { Mix::Interp5(8, 5) },
            Mix::Interp1(5, 9),
            Mix::Interp8(5, 9),
        ],
        219 => seq![
            if e.top_left { Mix::Pick(5) } else { Mix::Interp5(2, 4) },
            if e.top_left { Mix::Pick(5) } else { Mix::Interp5(2, 5) },
            Mix::Interp1(5, 3),
            Mix::Interp8(5, 3),
            if e.top_left { Mix::Pick(5) } else { Mix::Interp5(4, 5) },
            Mix::Pick(5),
            Mix::Interp3(5, 3),
            Mix::Interp1(5, 3),
            Mix::Interp1(5, 7),
            Mix::Interp3(5, 7),
            Mix::Pick(5),
            if e.bottom_right { Mix::Pick(5) } else { Mix::Interp5(6, 5) },
            Mix::Interp8(5, 7),
            Mix::Interp1(5, 7),
            if e.bottom_right { Mix::Pick(5) } else { Mix::Interp5(8, 5) },
            if e.bottom_right { Mix::Pick(5) } else { Mix::Interp5(8, 6) },
        ],
        125 => seq![
            if e.bottom_left { Mix::Interp8(5, 2) } else { Mix::Interp1(5, 4) },
            Mix::Interp8(5, 2),
            Mix::Interp8(5, 2),
            Mix::Interp8(5, 2),
            if e.bottom_left { Mix::Interp3(5, 2) } else { Mix::Interp1(4, 5) },
            Mix::Interp3(5, 2),
            Mix::Interp3(5, 2),
            Mix::Interp3(5, 2),
            if e.bottom_left { Mix::Pick(5) } else { Mix::Interp8(4, 8) },
            if e.bottom_left { Mix::Pick(5) } else { Mix::Interp7(5, 4, 8) },
            Mix::Interp3(5, 9),
            Mix::Interp1(5, 9),
            if e.bottom_left { Mix::Pick(5) } else { Mix::Interp5(8, 4) },
            if e.bottom_left { Mix::Pick(5) } else { Mix::Interp2(8, 5, 4) },
            Mix::Interp1(5, 9),
            Mix::Interp8(5, 9),
        ],
        221 => seq![
            Mix::Interp8(5, 2),
            Mix::Interp8(5, 2),
            Mix::Interp8(5, 2),
            if e.bottom_right { Mix::Interp8(5, 2) } else { Mix::Interp1(5, 6) },
            Mix::Interp3(5, 2),
            Mix::Interp3(5, 2),
            Mix::Interp3(5, 2),
            if e.bottom_right { Mix::Interp3(5, 2) } else { Mix::Interp1(6, 5) },
            Mix::Interp1(5, 7),
            Mix::Interp3(5, 7),
            if e.bottom_right { Mix::Pick(5) } else { Mix::Interp7(5, 6, 8) },
            if e.bottom_right { Mix::Pick(5) } else { Mix::Interp8(6, 8) },
            Mix::Interp8(5, 7),
            Mix::Interp1(5, 7),
            if e.bottom_right { Mix::Pick(5) } else { Mix::Interp2(8, 5, 6) },
            if e.bottom_right { Mix::Pick(5) } else { Mix::Interp5(8, 6) },
        ],
        207 => seq![
            if e.top_left { Mix::Pick(5) } else { Mix::Interp5(2, 4) },
            if e.top_left { Mix::Pick(5) } else { Mix::Interp8(2, 4) },
            if e.top_left { Mix::Interp3(5, 6) } else { Mix::Interp1(2, 5) },
            if e.top_left { Mix::Interp8(5, 6) } else { Mix::Interp1(5, 2) },
            if e.top_left { Mix::Pick(5) } else { Mix::Interp2(4, 5, 2) },
            if e.top_left { Mix::Pick(5) } else { Mix::Interp7(5, 4, 2) },
            Mix::Interp3(5, 6),
            Mix::Interp8(5, 6),
            Mix::Interp1(5, 7), Mix::Interp3(5, 7), Mix::Interp3(5, 6), Mix::Interp8(5, 6),
            Mix::Interp8(5, 7), Mix::Interp1(5, 7), Mix::Interp3(5, 6), Mix::Interp8(5, 6),
        ],
        238 => seq![
            Mix::Interp8(5, 1), Mix::Interp1(5, 1), Mix::Interp3(5, 6), Mix::Interp8(5, 6),
            Mix::Interp1(5, 1), Mix::Interp3(5, 1), Mix::Interp3(5, 6), Mix::Interp8(5, 6),
            if e.bottom_left { Mix::Pick(5) } else { Mix::Interp2(4, 5, 8) },
            if e.bottom_left { Mix::Pick(5) } else { Mix::Interp7(5, 4, 8) },
            Mix::Interp3(5, 6),
            Mix::Interp8(5, 6),
            if e.bottom_left { Mix::Pick(5) } else { Mix::Interp5(8, 4) },
            if e.bottom_left { Mix::Pick(5) } else { Mix::Interp8(8, 4) },
            if e.bottom_left { Mix::Interp3(5, 6) } else { Mix::Interp1(8, 5) },
            if e.bottom_left { Mix::Interp8(5, 6) } else { Mix::Interp1(5, 8) },
        ],
        190 => seq![
            Mix::Interp8(5, 1),
            Mix::Interp1(5, 1),
            if e.top_right { Mix::Pick(5) } else { Mix::Interp2(2, 5, 6) },
            if e.top_right { Mix::Pick(5) } else { Mix::Interp5(2, 6) },
            Mix::Interp1(5, 1),
            Mix::Interp3(5, 1),
            if e.top_right { Mix::Pick(5) } else { Mix::Interp7(5, 6, 2) },
            if e.top_right { Mix::Pick(5) } else { Mix::Interp8(6, 2) },
            Mix::Interp3(5, 8),
            Mix::Interp3(5, 8),
            Mix::Interp3(5, 8),
            if e.top_right { Mix::Interp3(5, 8) } else { Mix::Interp1(6, 5) },
            Mix::Interp8(5, 8),
            Mix::Interp8(5, 8),
            Mix::Interp8(5, 8),
            if e.top_right { Mix::Interp8(5, 8) } else { Mix::Interp1(5, 6) },
        ],
        187 => seq![
            if e.top_left { Mix::Pick(5) } else { Mix::Interp5(2, 4) },
            if e.top_left { Mix::Pick(5) } else { Mix::Interp2(2, 5, 4) },
            Mix::Interp1(5, 3),
            Mix::Interp8(5, 3),
            if e.top_left { Mix::Pick(5) } else { Mix::Interp8(4, 2) },
            if e.top_left { Mix::Pick(5) } else { Mix::Interp7(5, 4, 2) },
            Mix::Interp3(5, 3),
            Mix::Interp1(5, 3),
            if e.top_left { Mix::Interp3(5, 8) } else { Mix::Interp1(4, 5) },
            Mix::Interp3(5, 8),
            Mix::Interp3(5, 8),
            Mix::Interp3(5, 8),
            if e.top_left { Mix::Interp8(5, 8) } else { Mix::Interp1(5, 4) },
            Mix::Interp8(5, 8),
            Mix::Interp8(5, 8),
            Mix::Interp8(5, 8),
        ],
        243 => seq![
            Mix::Interp8(5, 4), Mix::Interp3(5, 4), Mix::Interp1(5, 3), Mix::Interp8(5, 3),
            Mix::Interp8(5, 4), Mix::Interp3(5, 4), Mix::Interp3(5, 3), Mix::Interp1(5, 3),
            Mix::Interp8(5, 4),
            Mix::Interp3(5, 4),
            if e.bottom_right { Mix::Pick(5) } else { Mix::Interp7(5, 6, 8) },
            if e.bottom_right { Mix::Pick(5) } else { Mix::Interp2(6, 5, 8) },
            if e.bottom_right { Mix::Interp8(5, 4) } else { Mix::Interp1(5, 8) },
            if e.bottom_right { Mix::Interp3(5, 4) } else { Mix::Interp1(8, 5) },
            if e.bottom_right { Mix::Pick(5) } else { Mix::Interp8(8, 6) },
            if e.bottom_right { Mix::Pick(5) } else { Mix::Interp5(8, 6) },
        ],
        119 => seq![
            if e.top_right { Mix::Interp8(5, 4) } else { Mix::Interp1(5, 2) },
            if e.top_right { Mix::Interp3(5, 4) } else { Mix::Interp1(2, 5) },
            if e.top_right { Mix::Pick(5) } else { Mix::Interp8(2, 6) },
            if e.top_right { Mix::Pick(5) } else { Mix::Interp5(2, 6) },
            Mix::Interp8(5, 4),
            Mix::Interp3(5, 4),
            if e.top_right { Mix::Pick(5) } else { Mix::Interp7(5, 6, 2) },
            if e.top_right { Mix::Pick(5) } else { Mix::Interp2(6, 5, 2) },
            Mix::Interp8(5, 4), Mix::Interp3(5, 4), Mix::Interp3(5, 9), Mix::Interp1(5, 9),
            Mix::Interp8(5, 4), Mix::Interp3(5, 4), Mix::Interp1(5, 9), Mix::Interp8(5, 9),
        ],
        237 | 233 => seq![
            Mix::Interp8(5, 2), Mix::Interp8(5, 2), Mix::Interp6(5, 2, 6), Mix::Interp2(5, 2, 6),
            Mix::Interp3(5, 2), Mix::Interp3(5, 2), Mix::Interp7(5, 6, 2), Mix::Interp6(5, 6, 2),
            Mix::Pick(5), Mix::Pick(5), Mix::Interp3(5, 6), Mix::Interp8(5, 6),
            if e.bottom_left { Mix::Pick(5) } else { Mix::Interp2(5, 8, 4) },
            Mix::Pick(5),
            Mix::Interp3(5, 6),
            Mix::Interp8(5, 6),
        ],
        175 | 47 => seq![
            if e.top_left { Mix::Pick(5) } else { Mix::Interp2(5, 2, 4) },
            Mix::Pick(5),
            Mix::Interp3(5, 6),
            Mix::Interp8(5, 6),
            Mix::Pick(5), Mix::Pick(5), Mix::Interp3(5, 6), Mix::Interp8(5, 6),
            Mix::Interp3(5, 8), Mix::Interp3(5, 8), Mix::Interp7(5, 6, 8), Mix::Interp6(5, 6, 8),
            Mix::Interp8(5, 8), Mix::Interp8(5, 8), Mix::Interp6(5, 8, 6), Mix::Interp2(5, 8, 6),
        ],
        183 | 151 => seq![
            Mix::Interp8(5, 4),
            Mix::Interp3(5, 4),
            Mix::Pick(5),
            if e.top_right { Mix::Pick(5) } else { Mix::Interp2(5, 2, 6) },
            Mix::Interp8(5, 4), Mix::Interp3(5, 4), Mix::Pick(5), Mix::Pick(5),
            Mix::Interp6(5, 4, 8), Mix::Interp7(5, 4, 8), Mix::Interp3(5, 8), Mix::Interp3(5, 8),
            Mix::Interp2(5, 8, 4), Mix::Interp6(5, 8, 4), Mix::Interp8(5, 8), Mix::Interp8(5, 8),
        ],
        245 | 244 => seq![
            Mix::Interp2(5, 2, 4), Mix::Interp6(5, 2, 4), Mix::Interp8(5, 2), Mix::Interp8(5, 2),
            Mix::Interp6(5, 4, 2), Mix::Interp7(5, 4, 2), Mix::Interp3(5, 2), Mix::Interp3(5, 2),
            Mix::Interp8(5, 4), Mix::Interp3(5, 4), Mix::Pick(5), Mix::Pick(5),
            Mix::Interp8(5, 4),
            Mix::Interp3(5, 4),
            Mix::Pick(5),
            if e.bottom_right { Mix::Pick(5) } else { Mix::Interp2(5, 8, 6) },
        ],
        250 => seq![
            Mix::Interp8(5, 1), Mix::Interp1(5, 1), Mix::Interp1(5, 3), Mix::Interp8(5, 3),
            Mix::Interp1(5, 1), Mix::Interp3(5, 1), Mix::Interp3(5, 3), Mix::Interp1(5, 3),
            if e.bottom_left { Mix::Pick(5) } else { Mix::Interp5(4, 5) },
            Mix::Pick(5),
            Mix::Pick(5),
            if e.bottom_right { Mix::Pick(5) } else { Mix::Interp5(6, 5) },
            if e.bottom_left { Mix::Pick(5) } else { Mix::Interp5(8, 4) },
            if e.bottom_left { Mix::Pick(5) } else { Mix::Interp5(8, 5) },
            if e.bottom_right { Mix::Pick(5) } else { Mix::Interp5(8, 5) },
            if e.bottom_right { Mix::Pick(5) } else { Mix::Interp5(8, 6) },
        ],
        123 => seq![
            if e.top_left { Mix::Pick(5) } else { Mix::Interp5(2, 4) },
            if e.top_left { Mix::Pick(5) } else { Mix::Interp5(2, 5) },
            Mix::Interp1(5, 3),
            Mix::Interp8(5, 3),
            if e.top_left { Mix::Pick(5) } else { Mix::Interp5(4, 5) },
            Mix::Pick(5),
            Mix::Interp3(5, 3),
            Mix::Interp1(5, 3),
            if e.bottom_left { Mix::Pick(5) } else { Mix::Interp5(4, 5) },
            Mix::Pick(5),
            Mix::Interp3(5, 9),
            Mix::Interp1(5, 9),
            if e.bottom_left { Mix::Pick(5) } else { Mix::Interp5(8, 4) },
            if e.bottom_left { Mix::Pick(5) } else { Mix::Interp5(8, 5) },
            Mix::Interp1(5, 9),
            Mix::Interp8(5, 9),
        ],
        95 => seq![
            if e.top_left { Mix::Pick(5) } else { Mix::Interp5(2, 4) },
            if e.top_left { Mix::Pick(5) } else { Mix::Interp5(2, 5) },
            if e.top_right { Mix::Pick(5) } else { Mix::Interp5(2, 5) },
            if e.top_right { Mix::Pick(5) } else { Mix::Interp5(2, 6) },
            if e.top_left { Mix::Pick(5) } else { Mix::Interp5(4, 5) },
            Mix::Pick(5),
            Mix::Pick(5),
            if e.top_right { Mix::Pick(5) } else { Mix::Interp5(6, 5) },
            Mix::Interp1(5, 7), Mix::Interp3(5, 7), Mix::Interp3(5, 9), Mix::Interp1(5, 9),
            Mix::Interp8(5, 7), Mix::Interp1(5, 7), Mix::Interp1(5, 9), Mix::Interp8(5, 9),
        ],
        222 => seq![
            Mix::Interp8(5, 1),
            Mix::Interp1(5, 1),
            if e.top_right { Mix::Pick(5) } else { Mix::Interp5(2, 5) },
            if e.top_right { Mix::Pick(5) } else { Mix::Interp5(2, 6) },
            Mix::Interp1(5, 1),
            Mix::Interp3(5, 1),
            Mix::Pick(5),
            if e.top_right { Mix::Pick(5) } else { Mix::Interp5(6, 5) },
            Mix::Interp1(5, 7),
            Mix::Interp3(5, 7),
            Mix::Pick(5),
            if e.bottom_right { Mix::Pick(5) } else { Mix::Interp5(6, 5) },
            Mix::Interp8(5, 7),
            Mix::Interp1(5, 7),
            if e.bottom_right { Mix::Pick(5) } else { Mix::Interp5(8, 5) },
            if e.bottom_right { Mix::Pick(5) } else { Mix::Interp5(8, 6) },
        ],
        252 => seq![
            Mix::Interp8(5, 1), Mix::Interp6(5, 2, 1), Mix::Interp8(5, 2), Mix::Interp8(5, 2),
            Mix::Interp1(5, 1), Mix::Interp3(5, 1), Mix::Interp3(5, 2), Mix::Interp3(5, 2),
            if e.bottom_left { Mix::Pick(5) } else { Mix::Interp5(4, 5) },
            Mix::Pick(5),
            Mix::Pick(5),
            Mix::Pick(5),
            if e.bottom_left { Mix::Pick(5) } else { Mix::Interp5(8, 4) },
            if e.bottom_left { Mix::Pick(5) } else { Mix::Interp5(8, 5) },
            Mix::Pick(5),
            if e.bottom_right { Mix::Pick(5) } else { Mix::Interp2(5, 8, 6) },
        ],
        249 => seq![
            Mix::Interp8(5, 2), Mix::Interp8(5, 2), Mix::Interp6(5, 2, 3), Mix::Interp8(5, 3),
            Mix::Interp3(5, 2), Mix::Interp3(5, 2), Mix::Interp3(5, 3), Mix::Interp1(5, 3),
            Mix::Pick(5),
            Mix::Pick(5),
            Mix::Pick(5),
            if e.bottom_right { Mix::Pick(5) } else { Mix::Interp5(6, 5) },
            if e.bottom_left { Mix::Pick(5) } else { Mix::Interp2(5, 8, 4) },
            Mix::Pick(5),
            if e.bottom_right { Mix::Pick(5) } else { Mix::Interp5(8, 5) },
            if e.bottom_right { Mix::Pick(5) } else { Mix::Interp5(8, 6) },
        ],
        235 => seq![
            if e.top_left { Mix::Pick(5) } else { Mix::Interp5(2, 4) },
            if e.top_left { Mix::Pick(5) } else { Mix::Interp5(2, 5) },
            Mix::Interp1(5, 3),
            Mix::Interp8(5, 3),
            if e.top_left { Mix::Pick(5) } else { Mix::Interp5(4, 5) },
            Mix::Pick(5),
            Mix::Interp3(5, 3),
            Mix::Interp6(5, 6, 3),
            Mix::Pick(5), Mix::Pick(5), Mix::Interp3(5, 6), Mix::Interp8(5, 6),
            if e.bottom_left { Mix::Pick(5) } else { Mix::Interp2(5, 8, 4) },
            Mix::Pick(5),
            Mix::Interp3(5, 6),
            Mix::Interp8(5, 6),
        ],
        111 => seq![
            if e.top_left { Mix::Pick(5) } else { Mix::Interp2(5, 2, 4) },
            Mix::Pick(5),
            Mix::Interp3(5, 6),
            Mix::Interp8(5, 6),
            Mix::Pick(5), Mix::Pick(5), Mix::Interp3(5, 6), Mix::Interp8(5, 6),
            if e.bottom_left { Mix::Pick(5) } else { Mix::Interp5(4, 5) },
            Mix::Pick(5),
            Mix::Interp3(5, 9),
            Mix::Interp6(5, 6, 9),
            if e.bottom_left { Mix::Pick(5) } else { Mix::Interp5(8, 4) },
            if e.bottom_left { Mix::Pick(5) } else { Mix::Interp5(8, 5) },
            Mix::Interp1(5, 9),
            Mix::Interp8(5, 9),
        ],
        63 => seq![
            if e.top_left { Mix::Pick(5) } else { Mix::Interp2(5, 2, 4) },
            Mix::Pick(5),
            if e.top_right { Mix::Pick(5) } else { Mix::Interp5(2, 5) },
            if e.top_right { Mix::Pick(5) } else { Mix::Interp5(2, 6) },
            Mix::Pick(5),
            Mix::Pick(5),
            Mix::Pick(5),
            if e.top_right { Mix::Pick(5) } else { Mix::Interp5(6, 5) },
            Mix::Interp3(5, 8), Mix::Interp3(5, 8), Mix::Interp3(5, 9), Mix::Interp1(5, 9),
            Mix::Interp8(5, 8), Mix::Interp8(5, 8), Mix::Interp6(5, 8, 9), Mix::Interp8(5, 9),
        ],
        159 => seq![
            if e.top_left { Mix::Pick(5) } else { Mix::Interp5(2, 4) },
            if e.top_left { Mix::Pick(5) } else { Mix::Interp5(2, 5) },
            Mix::Pick(5),
            if e.top_right { Mix::Pick(5) } else { Mix::Interp2(5, 2, 6) },
            if e.top_left { Mix::Pick(5) } else { Mix::Interp5(4, 5) },
            Mix::Pick(5),
            Mix::Pick(5),
            Mix::Pick(5),
            Mix::Interp1(5, 7), Mix::Interp3(5, 7), Mix::Interp3(5, 8), Mix::Interp3(5, 8),
            Mix::Interp8(5, 7), Mix::Interp6(5, 8, 7), Mix::Interp8(5, 8), Mix::Interp8(5, 8),
        ],
        215 => seq![
            Mix::Interp8(5, 4),
            Mix::Interp3(5, 4),
            Mix::Pick(5),
            if e.top_right { Mix::Pick(5) } else { Mix::Interp2(5, 2, 6) },
            Mix::Interp8(5, 4), Mix::Interp3(5, 4), Mix::Pick(5), Mix::Pick(5),
            Mix::Interp6(5, 4, 7),
            Mix::Interp3(5, 7),
            Mix::Pick(5),
            if e.bottom_right { Mix::Pick(5) } else { Mix::Interp5(6, 5) },
            Mix::Interp8(5, 7),
            Mix::Interp1(5, 7),
            if e.bottom_right { Mix::Pick(5) } else { Mix::Interp5(8, 5) },
            if e.bottom_right { Mix::Pick(5) } else { Mix::Interp5(8, 6) },
        ],
        246 => seq![
            Mix::Interp8(5, 1),
            Mix::Interp1(5, 1),
            if e.top_right { Mix::Pick(5) } else { Mix::Interp5(2, 5) },
            if e.top_right { Mix::Pick(5) } else { Mix::Interp5(2, 6) },
            Mix::Interp6(5, 4, 1),
            Mix::Interp3(5, 1),
            Mix::Pick(5),
            if e.top_right { Mix::Pick(5) } else { Mix::Interp5(6, 5) },
            Mix::Interp8(5, 4), Mix::Interp3(5, 4), Mix::Pick(5), Mix::Pick(5),
            Mix::Interp8(5, 4),
            Mix::Interp3(5, 4),
            Mix::Pick(5),
            if e.bottom_right { Mix::Pick(5) } else { Mix::Interp2(5, 8, 6) },
        ],
        254 => seq![
            Mix::Interp8(5, 1),
            Mix::Interp1(5, 1),
            if e.top_right { Mix::Pick(5) } else { Mix::Interp5(2, 5) },
            if e.top_right { Mix::Pick(5) } else { Mix::Interp5(2, 6) },
            Mix::Interp1(5, 1),
            Mix::Interp3(5, 1),
            Mix::Pick(5),
            if e.top_right { Mix::Pick(5) } else { Mix::Interp5(6, 5) },
            if e.bottom_left { Mix::Pick(5) } else { Mix::Interp5(4, 5) },
            Mix::Pick(5),
            Mix::Pick(5),
            Mix::Pick(5),
            if e.bottom_left { Mix::Pick(5) } else { Mix::Interp5(8, 4) },
            if e.bottom_left { Mix::Pick(5) } else { Mix::Interp5(8, 5) },
            Mix::Pick(5),
            if e.bottom_right { Mix::Pick(5) } else { Mix::Interp2(5, 8, 6) },
        ],
        253 => seq![
            Mix::Interp8(5, 2), Mix::Interp8(5, 2), Mix::Interp8(5, 2), Mix::Interp8(5, 2),
            Mix::Interp3(5, 2), Mix::Interp3(5, 2), Mix::Interp3(5, 2), Mix::Interp3(5, 2),
            Mix::Pick(5), Mix::Pick(5), Mix::Pick(5), Mix::Pick(5),
            if e.bottom_left { Mix::Pick(5) } else { Mix::Interp2(5, 8, 4) },
            Mix::Pick(5),
            Mix::Pick(5),
            if e.bottom_right { Mix::Pick(5) } else { Mix::Interp2(5, 8, 6) },
        ],
        251 => seq![
            if e.top_left { Mix::Pick(5) } else { Mix::Interp5(2, 4) },
            if e.top_left { Mix::Pick(5) } else { Mix::Interp5(2, 5) },
            Mix::Interp1(5, 3),
            Mix::Interp8(5, 3),
            if e.top_left { Mix::Pick(5) } else { Mix::Interp5(4, 5) },
            Mix::Pick(5),
            Mix::Interp3(5, 3),
            Mix::Interp1(5, 3),
            Mix::Pick(5),
            Mix::Pick(5),
            Mix::Pick(5),
            if e.bottom_right { Mix::Pick(5) } else { Mix::Interp5(6, 5) },
            if e.bottom_left { Mix::Pick(5) } else { Mix::Interp2(5, 8, 4) },
            Mix::Pick(5),
            if e.bottom_right { Mix::Pick(5) } else { Mix::Interp5(8, 5) },
            if e.bottom_right { Mix::Pick(5) } else { Mix::Interp5(8, 6) },
        ],
        239 => seq![
            if e.top_left { Mix::Pick(5) } else { Mix::Interp2(5, 2, 4) },
            Mix::Pick(5),
            Mix::Interp3(5, 6),
            Mix::Interp8(5, 6),
            Mix::Pick(5), Mix::Pick(5), Mix::Interp3(5, 6), Mix::Interp8(5, 6),
            Mix::Pick(5), Mix::Pick(5), Mix::Interp3(5, 6), Mix::Interp8(5, 6),
            if e.bottom_left { Mix::Pick(5) } else { Mix::Interp2(5, 8, 4) },
            Mix::Pick(5),
            Mix::Interp3(5, 6),
            Mix::Interp8(5, 6),
        ],
        127 => seq![
            if e.top_left { Mix::Pick(5) } else { Mix::Interp2(5, 2, 4) },
            Mix::Pick(5),
            if e.top_right { Mix::Pick(5) } else { Mix::Interp5(2, 5) },
            if e.top_right { Mix::Pick(5) } else { Mix::Interp5(2, 6) },
            Mix::Pick(5),
            Mix::Pick(5),
            Mix::Pick(5),
            if e.top_right { Mix::Pick(5) } else { Mix::Interp5(6, 5) },
            if e.bottom_left { Mix::Pick(5) } else { Mix::Interp5(4, 5) },
            Mix::Pick(5),
            Mix::Interp3(5, 9),
            Mix::Interp1(5, 9),
            if e.bottom_left { Mix::Pick(5) } else { Mix::Interp5(8, 4) },
            if e.bottom_left { Mix::Pick(5) } else { Mix::Interp5(8, 5) },
            Mix::Interp1(5, 9),
            Mix::Interp8(5, 9),
        ],
        191 => seq![
            if e.top_left { Mix::Pick(5) } else { Mix::Interp2(5, 2, 4) },
            Mix::Pick(5),
            Mix::Pick(5),
            if e.top_right { Mix::Pick(5) } else { Mix::Interp2(5, 2, 6) },
            Mix::Pick(5), Mix::Pick(5), Mix::Pick(5), Mix::Pick(5),
            Mix::Interp3(5, 8), Mix::Interp3(5, 8), Mix::Interp3(5, 8), Mix::Interp3(5, 8),
            Mix::Interp8(5, 8), Mix::Interp8(5, 8), Mix::Interp8(5, 8), Mix::Interp8(5, 8),
        ],
        223 => seq![
            if e.top_left { Mix::Pick(5) } else { Mix::Interp5(2, 4) },
            if e.top_left { Mix::Pick(5) } else { Mix::Interp5(2, 5) },
            Mix::Pick(5),
            if e.top_right { Mix::Pick(5) } else { Mix::Interp2(5, 2, 6) },
            if e.top_left { Mix::Pick(5) } else { Mix::Interp5(4, 5) },
            Mix::Pick(5),
            Mix::Pick(5),
            Mix::Pick(5),
            Mix::Interp1(5, 7),
            Mix::Interp3(5, 7),
            Mix::Pick(5),
            if e.bottom_right { Mix::Pick(5) } else { Mix::Interp5(6, 5) },
            Mix::Interp8(5, 7),
            Mix::Interp1(5, 7),
            if e.bottom_right { Mix::Pick(5) } else { Mix::Interp5(8, 5) },
            if e.bottom_right { Mix::Pick(5) } else { Mix::Interp5(8, 6) },
        ],
        247 => seq![
            Mix::Interp8(5, 4),
            Mix::Interp3(5, 4),
            Mix::Pick(5),
            if e.top_right { Mix::Pick(5) } else { Mix::Interp2(5, 2, 6) },
            Mix::Interp8(5, 4), Mix::Interp3(5, 4), Mix::Pick(5), Mix::Pick(5),
            Mix::Interp8(5, 4), Mix::Interp3(5, 4), Mix::Pick(5), Mix::Pick(5),
            Mix::Interp8(5, 4),
            Mix::Interp3(5, 4),
            Mix::Pick(5),
            if e.bottom_right { Mix::Pick(5) } else { Mix::Interp2(5, 8, 6) },
        ],
        255 => seq![
            if e.top_left { Mix::Pick(5) } else { Mix::Interp2(5, 2, 4) },
            Mix::Pick(5),
            Mix::Pick(5),
            if e.top_right { Mix::Pick(5) } else { Mix::Interp2(5, 2, 6) },
            Mix::Pick(5), Mix::Pick(5), Mix::Pick(5), Mix::Pick(5),
            Mix::Pick(5), Mix::Pick(5), Mix::Pick(5), Mix::Pick(5),
            if e.bottom_left { Mix::Pick(5) } else { Mix::Interp2(5, 8, 4) },
            Mix::Pick(5),
            Mix::Pick(5),
            if e.bottom_right { Mix::Pick(5) } else { Mix::Interp2(5, 8, 6) },
        ],
    }
}

/// The hq4x blends of the 4 x 4 block (row by row) of a source pixel whose neighbourhood has the
/// pattern `pattern` and whose edge neighbours differ as `e` says.
pub fn hq4x_rule(pattern: u8, e: Edges) -> (r: [Mix; 16])
    ensures
        r@ == hq4x_spec(pattern, e),
{
    proof {
        reveal(hq4x_spec);
    }
    match pattern {
        0 | 1 | 4 | 32 | 128 | 5 | 132 | 160 | 33 | 129 | 36 | 133 | 164 | 161 | 37 | 165 => [
            Mix::Interp2(5, 2, 4),
            Mix::Interp6(5, 2, 4),
            Mix::Interp6(5, 2, 6),
            Mix::Interp2(5, 2, 6),
            Mix::Interp6(5, 4, 2),
            Mix::Interp7(5, 4, 2),
            Mix::Interp7(5, 6, 2),
            Mix::Interp6(5, 6, 2),
            Mix::Interp6(5, 4, 8),
            Mix::Interp7(5, 4, 8),
            Mix::Interp7(5, 6, 8),
            Mix::Interp6(5, 6, 8),
            Mix::Interp2(5, 8, 4),
            Mix::Interp6(5, 8, 4),
            Mix::Interp6(5, 8, 6),
            Mix::Interp2(5, 8, 6),
        ],
        2 | 34 | 130 | 162 => [
            Mix::Interp8(5, 1), Mix::Interp1(5, 1), Mix::Interp1(5, 3), Mix::Interp8(5, 3),
            Mix::Interp6(5, 4, 1), Mix::Interp3(5, 1), Mix::Interp3(5, 3), Mix::Interp6(5, 6, 3),
            Mix::Interp6(5, 4, 8),
            Mix::Interp7(5, 4, 8),
            Mix::Interp7(5, 6, 8),
            Mix::Interp6(5, 6, 8),
            Mix::Interp2(5, 8, 4),
            Mix::Interp6(5, 8, 4),
            Mix::Interp6(5, 8, 6),
            Mix::Interp2(5, 8, 6),
        ],
        16 | 17 | 48 | 49 => [
            Mix::Interp2(5, 2, 4), Mix::Interp6(5, 2, 4), Mix::Interp6(5, 2, 3), Mix::Interp8(5, 3),
            Mix::Interp6(5, 4, 2), Mix::Interp7(5, 4, 2), Mix::Interp3(5, 3), Mix::Interp1(5, 3),
            Mix::Interp6(5, 4, 8), Mix::Interp7(5, 4, 8), Mix::Interp3(5, 9), Mix::Interp1(5, 9),
            Mix::Interp2(5, 8, 4), Mix::Interp6(5, 8, 4), Mix::Interp6(5, 8, 9), Mix::Interp8(5, 9),
        ],
        64 | 65 | 68 | 69 => [
            Mix::Interp2(5, 2, 4),
            Mix::Interp6(5, 2, 4),
            Mix::Interp6(5, 2, 6),
            Mix::Interp2(5, 2, 6),
            Mix::Interp6(5, 4, 2),
            Mix::Interp7(5, 4, 2),
            Mix::Interp7(5, 6, 2),
            Mix::Interp6(5, 6, 2),
            Mix::Interp6(5, 4, 7), Mix::Interp3(5, 7), Mix::Interp3(5, 9), Mix::Interp6(5, 6, 9),
            Mix::Interp8(5, 7), Mix::Interp1(5, 7), Mix::Interp1(5, 9), Mix::Interp8(5, 9),
        ],
        8 | 12 | 136 | 140 => [
            Mix::Interp8(5, 1), Mix::Interp6(5, 2, 1), Mix::Interp6(5, 2, 6), Mix::Interp2(5, 2, 6),
            Mix::Interp1(5, 1), Mix::Interp3(5, 1), Mix::Interp7(5, 6, 2), Mix::Interp6(5, 6, 2),
            Mix::Interp1(5, 7), Mix::Interp3(5, 7), Mix::Interp7(5, 6, 8), Mix::Interp6(5, 6, 8),
            Mix::Interp8(5, 7), Mix::Interp6(5, 8, 7), Mix::Interp6(5, 8, 6), Mix::Interp2(5, 8, 6),
        ],
        3 | 35 | 131 | 163 => [
            Mix::Interp8(5, 4), Mix::Interp3(5, 4), Mix::Interp1(5, 3), Mix::Interp8(5, 3),
            Mix::Interp8(5, 4), Mix::Interp3(5, 4), Mix::Interp3(5, 3), Mix::Interp6(5, 6, 3),
            Mix::Interp6(5, 4, 8),
            Mix::Interp7(5, 4, 8),
            Mix::Interp7(5, 6, 8),
            Mix::Interp6(5, 6, 8),
            Mix::Interp2(5, 8, 4),
            Mix::Interp6(5, 8, 4),
            Mix::Interp6(5, 8, 6),
            Mix::Interp2(5, 8, 6),
        ],
        6 | 38 | 134 | 166 => [
            Mix::Interp8(5, 1), Mix::Interp1(5, 1), Mix::Interp3(5, 6), Mix::Interp8(5, 6),
            Mix::Interp6(5, 4, 1), Mix::Interp3(5, 1), Mix::Interp3(5, 6), Mix::Interp8(5, 6),
            Mix::Interp6(5, 4, 8),
            Mix::Interp7(5, 4, 8),
            Mix::Interp7(5, 6, 8),
            Mix::Interp6(5, 6, 8),
            Mix::Interp2(5, 8, 4),
            Mix::Interp6(5, 8, 4),
            Mix::Interp6(5, 8, 6),
            Mix::Interp2(5, 8, 6),
        ],
        20 | 21 | 52 | 53 => [
            Mix::Interp2(5, 2, 4), Mix::Interp6(5, 2, 4), Mix::Interp8(5, 2), Mix::Interp8(5, 2),
            Mix::Interp6(5, 4, 2), Mix::Interp7(5, 4, 2), Mix::Interp3(5, 2), Mix::Interp3(5, 2),
            Mix::Interp6(5, 4, 8), Mix::Interp7(5, 4, 8), Mix::Interp3(5, 9), Mix::Interp1(5, 9),
            Mix::Interp2(5, 8, 4), Mix::Interp6(5, 8, 4), Mix::Interp6(5, 8, 9), Mix::Interp8(5, 9),
        ],
        144 | 145 | 176 | 177 => [
            Mix::Interp2(5, 2, 4), Mix::Interp6(5, 2, 4), Mix::Interp6(5, 2, 3), Mix::Interp8(5, 3),
            Mix::Interp6(5, 4, 2), Mix::Interp7(5, 4, 2), Mix::Interp3(5, 3), Mix::Interp1(5, 3),
            Mix::Interp6(5, 4, 8), Mix::Interp7(5, 4, 8), Mix::Interp3(5, 8), Mix::Interp3(5, 8),
            Mix::Interp2(5, 8, 4), Mix::Interp6(5, 8, 4), Mix::Interp8(5, 8), Mix::Interp8(5, 8),
        ],
        192 | 193 | 196 | 197 => [
            Mix::Interp2(5, 2, 4),
            Mix::Interp6(5, 2, 4),
            Mix::Interp6(5, 2, 6),
            Mix::Interp2(5, 2, 6),
            Mix::Interp6(5, 4, 2),
            Mix::Interp7(5, 4, 2),
            Mix::Interp7(5, 6, 2),
            Mix::Interp6(5, 6, 2),
            Mix::Interp6(5, 4, 7), Mix::Interp3(5, 7), Mix::Interp3(5, 6), Mix::Interp8(5, 6),
            Mix::Interp8(5, 7), Mix::Interp1(5, 7), Mix::Interp3(5, 6), Mix::Interp8(5, 6),
        ],
        96 | 97 | 100 | 101 => [
            Mix::Interp2(5, 2, 4),
            Mix::Interp6(5, 2, 4),
            Mix::Interp6(5, 2, 6),
            Mix::Interp2(5, 2, 6),
            Mix::Interp6(5, 4, 2),
            Mix::Interp7(5, 4, 2),
            Mix::Interp7(5, 6, 2),
            Mix::Interp6(5, 6, 2),
            Mix::Interp8(5, 4), Mix::Interp3(5, 4), Mix::Interp3(5, 9), Mix::Interp6(5, 6, 9),
            Mix::Interp8(5, 4), Mix::Interp3(5, 4), Mix::Interp1(5, 9), Mix::Interp8(5, 9),
        ],
        40 | 44 | 168 | 172 => [
            Mix::Interp8(5, 1), Mix::Interp6(5, 2, 1), Mix::Interp6(5, 2, 6), Mix::Interp2(5, 2, 6),
            Mix::Interp1(5, 1), Mix::Interp3(5, 1), Mix::Interp7(5, 6, 2), Mix::Interp6(5, 6, 2),
            Mix::Interp3(5, 8), Mix::Interp3(5, 8), Mix::Interp7(5, 6, 8), Mix::Interp6(5, 6, 8),
            Mix::Interp8(5, 8), Mix::Interp8(5, 8), Mix::Interp6(5, 8, 6), Mix::Interp2(5, 8, 6),
        ],
        9 | 13 | 137 | 141 => [
            Mix::Interp8(5, 2), Mix::Interp8(5, 2), Mix::Interp6(5, 2, 6), Mix::Interp2(5, 2, 6),
            Mix::Interp3(5, 2), Mix::Interp3(5, 2), Mix::Interp7(5, 6, 2), Mix::Interp6(5, 6, 2),
            Mix::Interp1(5, 7), Mix::Interp3(5, 7), Mix::Interp7(5, 6, 8), Mix::Interp6(5, 6, 8),
            Mix::Interp8(5, 7), Mix::Interp6(5, 8, 7), Mix::Interp6(5, 8, 6), Mix::Interp2(5, 8, 6),
        ],
        18 | 50 => [
            Mix::Interp8(5, 1),
            Mix::Interp1(5, 1),
            if e.top_right { Mix::Interp1(5, 3) } else { Mix::Interp5(2, 5) },
            if e.top_right { Mix::Interp8(5, 3) } else { Mix::Interp5(2, 6) },
            Mix::Interp6(5, 4, 1),
            Mix::Interp3(5, 1),
            if e.top_right { Mix::Interp3(5, 3) } else { Mix::Pick(5) },
            if e.top_right { Mix::Interp1(5, 3) } else { Mix::Interp5(6, 5) },
            Mix::Interp6(5, 4, 8), Mix::Interp7(5, 4, 8), Mix::Interp3(5, 9), Mix::Interp1(5, 9),
            Mix::Interp2(5, 8, 4), Mix::Interp6(5, 8, 4), Mix::Interp6(5, 8, 9), Mix::Interp8(5, 9),
        ],
        80 | 81 => [
            Mix::Interp2(5, 2, 4), Mix::Interp6(5, 2, 4), Mix::Interp6(5, 2, 3), Mix::Interp8(5, 3),
            Mix::Interp6(5, 4, 2), Mix::Interp7(5, 4, 2), Mix::Interp3(5, 3), Mix::Interp1(5, 3),
            Mix::Interp6(5, 4, 7),
            Mix::Interp3(5, 7),
            if e.bottom_right { Mix::Interp3(5, 9) } else { Mix::Pick(5) },
            if e.bottom_right { Mix::Interp1(5, 9) } else { Mix::Interp5(6, 5) },
            Mix::Interp8(5, 7),
            Mix::Interp1(5, 7),
            if e.bottom_right { Mix::Interp1(5, 9) } else { Mix::Interp5(8, 5) },
            if e.bottom_right { Mix::Interp8(5, 9) } else { Mix::Interp5(8, 6) },
        ],
        72 | 76 => [
            Mix::Interp8(5, 1), Mix::Interp6(5, 2, 1), Mix::Interp6(5, 2, 6), Mix::Interp2(5, 2, 6),
            Mix::Interp1(5, 1), Mix::Interp3(5, 1), Mix::Interp7(5, 6, 2), Mix::Interp6(5, 6, 2),
            if e.bottom_left { Mix::Interp1(5, 7) } else { Mix::Interp5(4, 5) },
            if e.bottom_left { Mix::Interp3(5, 7) } else { Mix::Pick(5) },
            Mix::Interp3(5, 9),
            Mix::Interp6(5, 6, 9),
            if e.bottom_left { Mix::Interp8(5, 7) } else { Mix::Interp5(8, 4) },
            if e.bottom_left { Mix::Interp1(5, 7) } else { Mix::Interp5(8, 5) },
            Mix::Interp1(5, 9),
            Mix::Interp8(5, 9),
        ],
        10 | 138 => [
            if e.top_left { Mix::Interp8(5, 1) } else { Mix::Interp5(2, 4) },
            if e.top_left { Mix::Interp1(5, 1) } else { Mix::Interp5(2, 5) },
            Mix::Interp1(5, 3),
            Mix::Interp8(5, 3),
            if e.top_left { Mix::Interp1(5, 1) } else { Mix::Interp5(4, 5) },
            if e.top_left { Mix::Interp3(5, 1) } else { Mix::Pick(5) },
            Mix::Interp3(5, 3),
            Mix::Interp6(5, 6, 3),
            Mix::Interp1(5, 7), Mix::Interp3(5, 7), Mix::Interp7(5, 6, 8), Mix::Interp6(5, 6, 8),
            Mix::Interp8(5, 7), Mix::Interp6(5, 8, 7), Mix::Interp6(5, 8, 6), Mix::Interp2(5, 8, 6),
        ],
        66 => [
            Mix::Interp8(5, 1), Mix::Interp1(5, 1), Mix::Interp1(5, 3), Mix::Interp8(5, 3),
            Mix::Interp6(5, 4, 1), Mix::Interp3(5, 1), Mix::Interp3(5, 3), Mix::Interp6(5, 6, 3),
            Mix::Interp6(5, 4, 7), Mix::Interp3(5, 7), Mix::Interp3(5, 9), Mix::Interp6(5, 6, 9),
            Mix::Interp8(5, 7), Mix::Interp1(5, 7), Mix::Interp1(5, 9), Mix::Interp8(5, 9),
        ],
        24 => [
            Mix::Interp8(5, 1), Mix::Interp6(5, 2, 1), Mix::Interp6(5, 2, 3), Mix::Interp8(5, 3),
            Mix::Interp1(5, 1), Mix::Interp3(5, 1), Mix::Interp3(5, 3), Mix::Interp1(5, 3),
            Mix::Interp1(5, 7), Mix::Interp3(5, 7), Mix::Interp3(5, 9), Mix::Interp1(5, 9),
            Mix::Interp8(5, 7), Mix::Interp6(5, 8, 7), Mix::Interp6(5, 8, 9), Mix::Interp8(5, 9),
        ],
        7 | 39 | 135 => [
            Mix::Interp8(5, 4), Mix::Interp3(5, 4), Mix::Interp3(5, 6), Mix::Interp8(5, 6),
            Mix::Interp8(5, 4), Mix::Interp3(5, 4), Mix::Interp3(5, 6), Mix::Interp8(5, 6),
            Mix::Interp6(5, 4, 8),
            Mix::Interp7(5, 4, 8),
            Mix::Interp7(5, 6, 8),
            Mix::Interp6(5, 6, 8),
            Mix::Interp2(5, 8, 4),
            Mix::Interp6(5, 8, 4),
            Mix::Interp6(5, 8, 6),
            Mix::Interp2(5, 8, 6),
        ],
        148 | 149 | 180 => [
            Mix::Interp2(5, 2, 4), Mix::Interp6(5, 2, 4), Mix::Interp8(5, 2), Mix::Interp8(5, 2),
            Mix::Interp6(5, 4, 2), Mix::Interp7(5, 4, 2), Mix::Interp3(5, 2), Mix::Interp3(5, 2),
            Mix::Interp6(5, 4, 8), Mix::Interp7(5, 4, 8), Mix::Interp3(5, 8), Mix::Interp3(5, 8),
            Mix::Interp2(5, 8, 4), Mix::Interp6(5, 8, 4), Mix::Interp8(5, 8), Mix::Interp8(5, 8),
        ],
        224 | 228 | 225 => [
            Mix::Interp2(5, 2, 4),
            Mix::Interp6(5, 2, 4),
            Mix::Interp6(5, 2, 6),
            Mix::Interp2(5, 2, 6),
            Mix::Interp6(5, 4, 2),
            Mix::Interp7(5, 4, 2),
            Mix::Interp7(5, 6, 2),
            Mix::Interp6(5, 6, 2),
            Mix::Interp8(5, 4), Mix::Interp3(5, 4), Mix::Interp3(5, 6), Mix::Interp8(5, 6),
            Mix::Interp8(5, 4), Mix::Interp3(5, 4), Mix::Interp3(5, 6), Mix::Interp8(5, 6),
        ],
        41 | 169 | 45 => [
            Mix::Interp8(5, 2), Mix::Interp8(5, 2), Mix::Interp6(5, 2, 6), Mix::Interp2(5, 2, 6),
            Mix::Interp3(5, 2), Mix::Interp3(5, 2), Mix::Interp7(5, 6, 2), Mix::Interp6(5, 6, 2),
            Mix::Interp3(5, 8), Mix::Interp3(5, 8), Mix::Interp7(5, 6, 8), Mix::Interp6(5, 6, 8),
            Mix::Interp8(5, 8), Mix::Interp8(5, 8), Mix::Interp6(5, 8, 6), Mix::Interp2(5, 8, 6),
        ],
        22 | 54 => [
            Mix::Interp8(5, 1),
            Mix::Interp1(5, 1),
            if e.top_right { Mix::Pick(5) } else { Mix::Interp5(2, 5) },
            if e.top_right { Mix::Pick(5) } else { Mix::Interp5(2, 6) },
            Mix::Interp6(5, 4, 1),
            Mix::Interp3(5, 1),
            Mix::Pick(5),
            if e.top_right { Mix::Pick(5) } else { Mix::Interp5(6, 5) },
            Mix::Interp6(5, 4, 8), Mix::Interp7(5, 4, 8), Mix::Interp3(5, 9), Mix::Interp1(5, 9),
            Mix::Interp2(5, 8, 4), Mix::Interp6(5, 8, 4), Mix::Interp6(5, 8, 9), Mix::Interp8(5, 9),
        ],
        208 | 209 => [
            Mix::Interp2(5, 2, 4), Mix::Interp6(5, 2, 4), Mix::Interp6(5, 2, 3), Mix::Interp8(5, 3),
            Mix::Interp6(5, 4, 2), Mix::Interp7(5, 4, 2), Mix::Interp3(5, 3), Mix::Interp1(5, 3),
            Mix::Interp6(5, 4, 7),
            Mix::Interp3(5, 7),
            Mix::Pick(5),
            if e.bottom_right { Mix::Pick(5) } else { Mix::Interp5(6, 5) },
            Mix::Interp8(5, 7),
            Mix::Interp1(5, 7),
            if e.bottom_right { Mix::Pick(5) } else { Mix::Interp5(8, 5) },
            if e.bottom_right { Mix::Pick(5) } else { Mix::Interp5(8, 6) },
        ],
        104 | 108 => [
            Mix::Interp8(5, 1), Mix::Interp6(5, 2, 1), Mix::Interp6(5, 2, 6), Mix::Interp2(5, 2, 6),
            Mix::Interp1(5, 1), Mix::Interp3(5, 1), Mix::Interp7(5, 6, 2), Mix::Interp6(5, 6, 2),
            if e.bottom_left { Mix::Pick(5) } else { Mix::Interp5(4, 5) },
            Mix::Pick(5),
            Mix::Interp3(5, 9),
            Mix::Interp6(5, 6, 9),
            if e.bottom_left { Mix::Pick(5) } else { Mix::Interp5(8, 4) },
            if e.bottom_left { Mix::Pick(5) } else { Mix::Interp5(8, 5) },
            Mix::Interp1(5, 9),
            Mix::Interp8(5, 9),
        ],
        11 | 139 => [
            if e.top_left { Mix::Pick(5) } else { Mix::Interp5(2, 4) },
            if e.top_left { Mix::Pick(5) } else { Mix::Interp5(2, 5) },
            Mix::Interp1(5, 3),
            Mix::Interp8(5, 3),
            if e.top_left { Mix::Pick(5) } else { Mix::Interp5(4, 5) },
            Mix::Pick(5),
            Mix::Interp3(5, 3),
            Mix::Interp6(5, 6, 3),
            Mix::Interp1(5, 7), Mix::Interp3(5, 7), Mix::Interp7(5, 6, 8), Mix::Interp6(5, 6, 8),
            Mix::Interp8(5, 7), Mix::Interp6(5, 8, 7), Mix::Interp6(5, 8, 6), Mix::Interp2(5, 8, 6),
        ],
        19 | 51 => [
            if e.top_right { Mix::Interp8(5, 4) } else { Mix::Interp1(5, 2) },
            if e.top_right { Mix::Interp3(5, 4) } else { Mix::Interp1(2, 5) },
            if e.top_right { Mix::Interp1(5, 3) } else { Mix::Interp8(2, 6) },
            if e.top_right { Mix::Interp8(5, 3) } else { Mix::Interp5(2, 6) },
            Mix::Interp8(5, 4),
            Mix::Interp3(5, 4),
            if e.top_right { Mix::Interp3(5, 3) } else { Mix::Interp7(5, 6, 2) },
            if e.top_right { Mix::Interp1(5, 3) } else { Mix::Interp2(6, 5, 2) },
            Mix::Interp6(5, 4, 8), Mix::Interp7(5, 4, 8), Mix::Interp3(5, 9), Mix::Interp1(5, 9),
            Mix::Interp2(5, 8, 4), Mix::Interp6(5, 8, 4), Mix::Interp6(5, 8, 9), Mix::Interp8(5, 9),
        ],
        146 | 178 => [
            Mix::Interp8(5, 1),
            Mix::Interp1(5, 1),
            if e.top_right { Mix::Interp1(5, 3) } else { Mix::Interp2(2, 5, 6) },
            if e.top_right { Mix::Interp8(5, 3) } else { Mix::Interp5(2, 6) },
            Mix::Interp6(5, 4, 1),
            Mix::Interp3(5, 1),
            if e.top_right { Mix::Interp3(5, 3) } else { Mix::Interp7(5, 6, 2) },
            if e.top_right { Mix::Interp1(5, 3) } else { Mix::Interp8(6, 2) },
            Mix::Interp6(5, 4, 8),
            Mix::Interp7(5, 4, 8),
            Mix::Interp3(5, 8),
            if e.top_right { Mix::Interp3(5, 8) } else { Mix::Interp1(6, 5) },
            Mix::Interp2(5, 8, 4),
            Mix::Interp6(5, 8, 4),
            Mix::Interp8(5, 8),
            if e.top_right { Mix::Interp8(5, 8) } else { Mix::Interp1(5, 6) },
        ],
        84 | 85 => [
            Mix::Interp2(5, 2, 4),
            Mix::Interp6(5, 2, 4),
            Mix::Interp8(5, 2),
            if e.bottom_right { Mix::Interp8(5, 2) } else { Mix::Interp1(5, 6) },
            Mix::Interp6(5, 4, 2),
            Mix::Interp7(5, 4, 2),
            Mix::Interp3(5, 2),
            if e.bottom_right { Mix::Interp3(5, 2) } else { Mix::Interp1(6, 5) },
            Mix::Interp6(5, 4, 7),
            Mix::Interp3(5, 7),
            if e.bottom_right { Mix::Interp3(5, 9) } else { Mix::Interp7(5, 6, 8) },
            if e.bottom_right { Mix::Interp1(5, 9) } else { Mix::Interp8(6, 8) },
            Mix::Interp8(5, 7),
            Mix::Interp1(5, 7),
            if e.bottom_right { Mix::Interp1(5, 9) } else { Mix::Interp2(8, 5, 6) },
            if e.bottom_right { Mix::Interp8(5, 9) } else { Mix::Interp5(8, 6) },
        ],
        112 | 113 => [
            Mix::Interp2(5, 2, 4), Mix::Interp6(5, 2, 4), Mix::Interp6(5, 2, 3), Mix::Interp8(5, 3),
            Mix::Interp6(5, 4, 2), Mix::Interp7(5, 4, 2), Mix::Interp3(5, 3), Mix::Interp1(5, 3),
            Mix::Interp8(5, 4),
            Mix::Interp3(5, 4),
            if e.bottom_right { Mix::Interp3(5, 9) } else { Mix::Interp7(5, 6, 8) },
            if e.bottom_right { Mix::Interp1(5, 9) } else { Mix::Interp2(6, 5, 8) },
            if e.bottom_right { Mix::Interp8(5, 4) } else { Mix::Interp1(5, 8) },
            if e.bottom_right { Mix::Interp3(5, 4) } else { Mix::Interp1(8, 5) },
            if e.bottom_right { Mix::Interp1(5, 9) } else { Mix::Interp8(8, 6) },
            if e.bottom_right { Mix::Interp8(5, 9) } else { Mix::Interp5(8, 6) },
        ],
        200 | 204 => [
            Mix::Interp8(5, 1), Mix::Interp6(5, 2, 1), Mix::Interp6(5, 2, 6), Mix::Interp2(5, 2, 6),
            Mix::Interp1(5, 1), Mix::Interp3(5, 1), Mix::Interp7(5, 6, 2), Mix::Interp6(5, 6, 2),
            if e.bottom_left { Mix::Interp1(5, 7) } else { Mix::Interp2(4, 5, 8) },
            if e.bottom_left { Mix::Interp3(5, 7) } else { Mix::Interp7(5, 4, 8) },
            Mix::Interp3(5, 6),
            Mix::Interp8(5, 6),
            if e.bottom_left { Mix::Interp8(5, 7) } else { Mix::Interp5(8, 4) },
            if e.bottom_left { Mix::Interp1(5, 7) } else { Mix::Interp8(8, 4) },
            if e.bottom_left { Mix::Interp3(5, 6) } else { Mix::Interp1(8, 5) },
            if e.bottom_left { Mix::Interp8(5, 6) } else { Mix::Interp1(5, 8) },
        ],
        73 | 77 => [
            if e.bottom_left { Mix::Interp8(5, 2) } else { Mix::Interp1(5, 4) },
            Mix::Interp8(5, 2),
            Mix::Interp6(5, 2, 6),
            Mix::Interp2(5, 2, 6),
            if e.bottom_left { Mix::Interp3(5, 2) } else { Mix::Interp1(4, 5) },
            Mix::Interp3(5, 2),
            Mix::Interp7(5, 6, 2),
            Mix::Interp6(5, 6, 2),
            if e.bottom_left { Mix::Interp1(5, 7) } else { Mix::Interp8(4, 8) },
            if e.bottom_left { Mix::Interp3(5, 7) } else { Mix::Interp7(5, 4, 8) },
            Mix::Interp3(5, 9),
            Mix::Interp6(5, 6, 9),
            if e.bottom_left { Mix::Interp8(5, 7) } else { Mix::Interp5(8, 4) },
            if e.bottom_left { Mix::Interp1(5, 7) } else { Mix::Interp2(8, 5, 4) },
            Mix::Interp1(5, 9),
            Mix::Interp8(5, 9),
        ],
        42 | 170 => [
            if e.top_left { Mix::Interp8(5, 1) } else { Mix::Interp5(2, 4) },
            if e.top_left { Mix::Interp1(5, 1) } else { Mix::Interp2(2, 5, 4) },
            Mix::Interp1(5, 3),
            Mix::Interp8(5, 3),
            if e.top_left { Mix::Interp1(5, 1) } else { Mix::Interp8(4, 2) },
            if e.top_left { Mix::Interp3(5, 1) } else { Mix::Interp7(5, 4, 2) },
            Mix::Interp3(5, 3),
            Mix::Interp6(5, 6, 3),
            if e.top_left { Mix::Interp3(5, 8) } else { Mix::Interp1(4, 5) },
            Mix::Interp3(5, 8),
            Mix::Interp7(5, 6, 8),
            Mix::Interp6(5, 6, 8),
            if e.top_left { Mix::Interp8(5, 8) } else { Mix::Interp1(5, 4) },
            Mix::Interp8(5, 8),
            Mix::Interp6(5, 8, 6),
            Mix::Interp2(5, 8, 6),
        ],
        14 | 142 => [
            if e.top_left { Mix::Interp8(5, 1) } else { Mix::Interp5(2, 4) },
            if e.top_left { Mix::Interp1(5, 1) } else { Mix::Interp8(2, 4) },
            if e.top_left { Mix::Interp3(5, 6) } else { Mix::Interp1(2, 5) },
            if e.top_left { Mix::Interp8(5, 6) } else { Mix::Interp1(5, 2) },
            if e.top_left { Mix::Interp1(5, 1) } else { Mix::Interp2(4, 5, 2) },
            if e.top_left { Mix::Interp3(5, 1) } else { Mix::Interp7(5, 4, 2) },
            Mix::Interp3(5, 6),
            Mix::Interp8(5, 6),
            Mix::Interp1(5, 7), Mix::Interp3(5, 7), Mix::Interp7(5, 6, 8), Mix::Interp6(5, 6, 8),
            Mix::Interp8(5, 7), Mix::Interp6(5, 8, 7), Mix::Interp6(5, 8, 6), Mix::Interp2(5, 8, 6),
        ],
        67 => [
            Mix::Interp8(5, 4), Mix::Interp3(5, 4), Mix::Interp1(5, 3), Mix::Interp8(5, 3),
            Mix::Interp8(5, 4), Mix::Interp3(5, 4), Mix::Interp3(5, 3), Mix::Interp6(5, 6, 3),
            Mix::Interp6(5, 4, 7), Mix::Interp3(5, 7), Mix::Interp3(5, 9), Mix::Interp6(5, 6, 9),
            Mix::Interp8(5, 7), Mix::Interp1(5, 7), Mix::Interp1(5, 9), Mix::Interp8(5, 9),
        ],
        70 => [
            Mix::Interp8(5, 1), Mix::Interp1(5, 1), Mix::Interp3(5, 6), Mix::Interp8(5, 6),
            Mix::Interp6(5, 4, 1), Mix::Interp3(5, 1), Mix::Interp3(5, 6), Mix::Interp8(5, 6),
            Mix::Interp6(5, 4, 7), Mix::Interp3(5, 7), Mix::Interp3(5, 9), Mix::Interp6(5, 6, 9),
            Mix::Interp8(5, 7), Mix::Interp1(5, 7), Mix::Interp1(5, 9), Mix::Interp8(5, 9),
        ],
        28 => [
            Mix::Interp8(5, 1), Mix::Interp6(5, 2, 1), Mix::Interp8(5, 2), Mix::Interp8(5, 2),
            Mix::Interp1(5, 1), Mix::Interp3(5, 1), Mix::Interp3(5, 2), Mix::Interp3(5, 2),
            Mix::Interp1(5, 7), Mix::Interp3(5, 7), Mix::Interp3(5, 9), Mix::Interp1(5, 9),
            Mix::Interp8(5, 7), Mix::Interp6(5, 8, 7), Mix::Interp6(5, 8, 9), Mix::Interp8(5, 9),
        ],
        152 => [
            Mix::Interp8(5, 1), Mix::Interp6(5, 2, 1), Mix::Interp6(5, 2, 3), Mix::Interp8(5, 3),
            Mix::Interp1(5, 1), Mix::Interp3(5, 1), Mix::Interp3(5, 3), Mix::Interp1(5, 3),
            Mix::Interp1(5, 7), Mix::Interp3(5, 7), Mix::Interp3(5, 8), Mix::Interp3(5, 8),
            Mix::Interp8(5, 7), Mix::Interp6(5, 8, 7), Mix::Interp8(5, 8), Mix::Interp8(5, 8),
        ],
        194 => [
            Mix::Interp8(5, 1), Mix::Interp1(5, 1), Mix::Interp1(5, 3), Mix::Interp8(5, 3),
            Mix::Interp6(5, 4, 1), Mix::Interp3(5, 1), Mix::Interp3(5, 3), Mix::Interp6(5, 6, 3),
            Mix::Interp6(5, 4, 7), Mix::Interp3(5, 7), Mix::Interp3(5, 6), Mix::Interp8(5, 6),
            Mix::Interp8(5, 7), Mix::Interp1(5, 7), Mix::Interp3(5, 6), Mix::Interp8(5, 6),
        ],
        98 => [
            Mix::Interp8(5, 1), Mix::Interp1(5, 1), Mix::Interp1(5, 3), Mix::Interp8(5, 3),
            Mix::Interp6(5, 4, 1), Mix::Interp3(5, 1), Mix::Interp3(5, 3), Mix::Interp6(5, 6, 3),
            Mix::Interp8(5, 4), Mix::Interp3(5, 4), Mix::Interp3(5, 9), Mix::Interp6(5, 6, 9),
            Mix::Interp8(5, 4), Mix::Interp3(5, 4), Mix::Interp1(5, 9), Mix::Interp8(5, 9),
        ],
        56 => [
            Mix::Interp8(5, 1), Mix::Interp6(5, 2, 1), Mix::Interp6(5, 2, 3), Mix::Interp8(5, 3),
            Mix::Interp1(5, 1), Mix::Interp3(5, 1), Mix::Interp3(5, 3), Mix::Interp1(5, 3),
            Mix::Interp3(5, 8), Mix::Interp3(5, 8), Mix::Interp3(5, 9), Mix::Interp1(5, 9),
            Mix::Interp8(5, 8), Mix::Interp8(5, 8), Mix::Interp6(5, 8, 9), Mix::Interp8(5, 9),
        ],
        25 => [
            Mix::Interp8(5, 2), Mix::Interp8(5, 2), Mix::Interp6(5, 2, 3), Mix::Interp8(5, 3),
            Mix::Interp3(5, 2), Mix::Interp3(5, 2), Mix::Interp3(5, 3), Mix::Interp1(5, 3),
            Mix::Interp1(5, 7), Mix::Interp3(5, 7), Mix::Interp3(5, 9), Mix::Interp1(5, 9),
            Mix::Interp8(5, 7), Mix::Interp6(5, 8, 7), Mix::Interp6(5, 8, 9), Mix::Interp8(5, 9),
        ],
        26 | 31 => [
            if e.top_left { Mix::Pick(5) } else { Mix::Interp5(2, 4) },
            if e.top_left { Mix::Pick(5) } else { Mix::Interp5(2, 5) },
            if e.top_right { Mix::Pick(5) } else { Mix::Interp5(2, 5) },
            if e.top_right { Mix::Pick(5) } else { Mix::Interp5(2, 6) },
            if e.top_left { Mix::Pick(5) } else { Mix::Interp5(4, 5) },
            Mix::Pick(5),
            Mix::Pick(5),
            if e.top_right { Mix::Pick(5) } else { Mix::Interp5(6, 5) },
            Mix::Interp1(5, 7), Mix::Interp3(5, 7), Mix::Interp3(5, 9), Mix::Interp1(5, 9),
            Mix::Interp8(5, 7), Mix::Interp6(5, 8, 7), Mix::Interp6(5, 8, 9), Mix::Interp8(5, 9),
        ],
        82 | 214 => [
            Mix::Interp8(5, 1),
            Mix::Interp1(5, 1),
            if e.top_right { Mix::Pick(5) } else { Mix::Interp5(2, 5) },
            if e.top_right { Mix::Pick(5) } else { Mix::Interp5(2, 6) },
            Mix::Interp6(5, 4, 1),
            Mix::Interp3(5, 1),
            Mix::Pick(5),
            if e.top_right { Mix::Pick(5) } else { Mix::Interp5(6, 5) },
            Mix::Interp6(5, 4, 7),
            Mix::Interp3(5, 7),
            Mix::Pick(5),
            if e.bottom_right { Mix::Pick(5) } else { Mix::Interp5(6, 5) },
            Mix::Interp8(5, 7),
            Mix::Interp1(5, 7),
            if e.bottom_right { Mix::Pick(5) } else { Mix::Interp5(8, 5) },
            if e.bottom_right { Mix::Pick(5) } else { Mix::Interp5(8, 6) },
        ],
        88 | 248 => [
            Mix::Interp8(5, 1), Mix::Interp6(5, 2, 1), Mix::Interp6(5, 2, 3), Mix::Interp8(5, 3),
            Mix::Interp1(5, 1), Mix::Interp3(5, 1), Mix::Interp3(5, 3), Mix::Interp1(5, 3),
            if e.bottom_left { Mix::Pick(5) } else { Mix::Interp5(4, 5) },
            Mix::Pick(5),
            Mix::Pick(5),
            if e.bottom_right { Mix::Pick(5) } else { Mix::Interp5(6, 5) },
            if e.bottom_left { Mix::Pick(5) } else { Mix::Interp5(8, 4) },
            if e.bottom_left { Mix::Pick(5) } else { Mix::Interp5(8, 5) },
            if e.bottom_right { Mix::Pick(5) } else { Mix::Interp5(8, 5) },
            if e.bottom_right { Mix::Pick(5) } else { Mix::Interp5(8, 6) },
        ],
        74 | 107 => [
            if e.top_left { Mix::Pick(5) } else { Mix::Interp5(2, 4) },
            if e.top_left { Mix::Pick(5) } else { Mix::Interp5(2, 5) },
            Mix::Interp1(5, 3),
            Mix::Interp8(5, 3),
            if e.top_left { Mix::Pick(5) } else { Mix::Interp5(4, 5) },
            Mix::Pick(5),
            Mix::Interp3(5, 3),
            Mix::Interp6(5, 6, 3),
            if e.bottom_left { Mix::Pick(5) } else { Mix::Interp5(4, 5) },
            Mix::Pick(5),
            Mix::Interp3(5, 9),
            Mix::Interp6(5, 6, 9),
            if e.bottom_left { Mix::Pick(5) } else { Mix::Interp5(8, 4) },
            if e.bottom_left { Mix::Pick(5) } else { Mix::Interp5(8, 5) },
            Mix::Interp1(5, 9),
            Mix::Interp8(5, 9),
        ],
        27 => [
            if e.top_left { Mix::Pick(5) } else { Mix::Interp5(2, 4) },
            if e.top_left { Mix::Pick(5) } else { Mix::Interp5(2, 5) },
            Mix::Interp1(5, 3),
            Mix::Interp8(5, 3),
            if e.top_left { Mix::Pick(5) } else { Mix::Interp5(4, 5) },
            Mix::Pick(5),
            Mix::Interp3(5, 3),
            Mix::Interp1(5, 3),
            Mix::Interp1(5, 7), Mix::Interp3(5, 7), Mix::Interp3(5, 9), Mix::Interp1(5, 9),
            Mix::Interp8(5, 7), Mix::Interp6(5, 8, 7), Mix::Interp6(5, 8, 9), Mix::Interp8(5, 9),
        ],
        86 => [
            Mix::Interp8(5, 1),
            Mix::Interp1(5, 1),
            if e.top_right { Mix::Pick(5) } else { Mix::Interp5(2, 5) },
            if e.top_right { Mix::Pick(5) } else { Mix::Interp5(2, 6) },
            Mix::Interp6(5, 4, 1),
            Mix::Interp3(5, 1),
            Mix::Pick(5),
            if e.top_right { Mix::Pick(5) } else { Mix::Interp5(6, 5) },
            Mix::Interp6(5, 4, 7), Mix::Interp3(5, 7), Mix::Interp3(5, 9), Mix::Interp1(5, 9),
            Mix::Interp8(5, 7), Mix::Interp1(5, 7), Mix::Interp1(5, 9), Mix::Interp8(5, 9),
        ],
        216 => [
            Mix::Interp8(5, 1), Mix::Interp6(5, 2, 1), Mix::Interp6(5, 2, 3), Mix::Interp8(5, 3),
            Mix::Interp1(5, 1), Mix::Interp3(5, 1), Mix::Interp3(5, 3), Mix::Interp1(5, 3),
            Mix::Interp1(5, 7),
            Mix::Interp3(5, 7),
            Mix::Pick(5),
            if e.bottom_right { Mix::Pick(5) } else { Mix::Interp5(6, 5) },
            Mix::Interp8(5, 7),
            Mix::Interp1(5, 7),
            if e.bottom_right { Mix::Pick(5) } else { Mix::Interp5(8, 5) },
            if e.bottom_right { Mix::Pick(5) } else { Mix::Interp5(8, 6) },
        ],
        106 => [
            Mix::Interp8(5, 1), Mix::Interp1(5, 1), Mix::Interp1(5, 3), Mix::Interp8(5, 3),
            Mix::Interp1(5, 1), Mix::Interp3(5, 1), Mix::Interp3(5, 3), Mix::Interp6(5, 6, 3),
            if e.bottom_left { Mix::Pick(5) } else { Mix::Interp5(4, 5) },
            Mix::Pick(5),
            Mix::Interp3(5, 9),
            Mix::Interp6(5, 6, 9),
            if e.bottom_left { Mix::Pick(5) } else { Mix::Interp5(8, 4) },
            if e.bottom_left { Mix::Pick(5) } else { Mix::Interp5(8, 5) },
            Mix::Interp1(5, 9),
            Mix::Interp8(5, 9),
        ],
        30 => [
            Mix::Interp8(5, 1),
            Mix::Interp1(5, 1),
            if e.top_right { Mix::Pick(5) } else { Mix::Interp5(2, 5) },
            if e.top_right { Mix::Pick(5) } else { Mix::Interp5(2, 6) },
            Mix::Interp1(5, 1),
            Mix::Interp3(5, 1),
            Mix::Pick(5),
            if e.top_right { Mix::Pick(5) } else { Mix::Interp5(6, 5) },
            Mix::Interp1(5, 7), Mix::Interp3(5, 7), Mix::Interp3(5, 9), Mix::Interp1(5, 9),
            Mix::Interp8(5, 7), Mix::Interp6(5, 8, 7), Mix::Interp6(5, 8, 9), Mix::Interp8(5, 9),
        ],
        210 => [
            Mix::Interp8(5, 1), Mix::Interp1(5, 1), Mix::Interp1(5, 3), Mix::Interp8(5, 3),
            Mix::Interp6(5, 4, 1), Mix::Interp3(5, 1), Mix::Interp3(5, 3), Mix::Interp1(5, 3),
            Mix::Interp6(5, 4, 7),
            Mix::Interp3(5, 7),
            Mix::Pick(5),
            if e.bottom_right { Mix::Pick(5) } else { Mix::Interp5(6, 5) },
            Mix::Interp8(5, 7),
            Mix::Interp1(5, 7),
            if e.bottom_right { Mix::Pick(5) } else { Mix::Interp5(8, 5) },
            if e.bottom_right { Mix::Pick(5) } else { Mix::Interp5(8, 6) },
        ],
        120 => [
            Mix::Interp8(5, 1), Mix::Interp6(5, 2, 1), Mix::Interp6(5, 2, 3), Mix::Interp8(5, 3),
            Mix::Interp1(5, 1), Mix::Interp3(5, 1), Mix::Interp3(5, 3), Mix::Interp1(5, 3),
            if e.bottom_left { Mix::Pick(5) } else { Mix::Interp5(4, 5) },
            Mix::Pick(5),
            Mix::Interp3(5, 9),
            Mix::Interp1(5, 9),
            if e.bottom_left { Mix::Pick(5) } else { Mix::Interp5(8, 4) },
            if e.bottom_left { Mix::Pick(5) } else { Mix::Interp5(8, 5) },
            Mix::Interp1(5, 9),
            Mix::Interp8(5, 9),
        ],
        75 => [
            if e.top_left { Mix::Pick(5) } else { Mix::Interp5(2, 4) },
            if e.top_left { Mix::Pick(5) } else { Mix::Interp5(2, 5) },
            Mix::Interp1(5, 3),
            Mix::Interp8(5, 3),
            if e.top_left { Mix::Pick(5) } else { Mix::Interp5(4, 5) },
            Mix::Pick(5),
            Mix::Interp3(5, 3),
            Mix::Interp6(5, 6, 3),
            Mix::Interp1(5, 7), Mix::Interp3(5, 7), Mix::Interp3(5, 9), Mix::Interp6(5, 6, 9),
            Mix::Interp8(5, 7), Mix::Interp1(5, 7), Mix::Interp1(5, 9), Mix::Interp8(5, 9),
        ],
        29 => [
            Mix::Interp8(5, 2), Mix::Interp8(5, 2), Mix::Interp8(5, 2), Mix::Interp8(5, 2),
            Mix::Interp3(5, 2), Mix::Interp3(5, 2), Mix::Interp3(5, 2), Mix::Interp3(5, 2),
            Mix::Interp1(5, 7), Mix::Interp3(5, 7), Mix::Interp3(5, 9), Mix::Interp1(5, 9),
            Mix::Interp8(5, 7), Mix::Interp6(5, 8, 7), Mix::Interp6(5, 8, 9), Mix::Interp8(5, 9),
        ],
        198 => [
            Mix::Interp8(5, 1), Mix::Interp1(5, 1), Mix::Interp3(5, 6), Mix::Interp8(5, 6),
            Mix::Interp6(5, 4, 1), Mix::Interp3(5, 1), Mix::Interp3(5, 6), Mix::Interp8(5, 6),
            Mix::Interp6(5, 4, 7), Mix::Interp3(5, 7), Mix::Interp3(5, 6), Mix::Interp8(5, 6),
            Mix::Interp8(5, 7), Mix::Interp1(5, 7), Mix::Interp3(5, 6), Mix::Interp8(5, 6),
        ],
        184 => [
            Mix::Interp8(5, 1), Mix::Interp6(5, 2, 1), Mix::Interp6(5, 2, 3), Mix::Interp8(5, 3),
            Mix::Interp1(5, 1), Mix::Interp3(5, 1), Mix::Interp3(5, 3), Mix::Interp1(5, 3),
            Mix::Interp3(5, 8), Mix::Interp3(5, 8), Mix::Interp3(5, 8), Mix::Interp3(5, 8),
            Mix::Interp8(5, 8), Mix::Interp8(5, 8), Mix::Interp8(5, 8), Mix::Interp8(5, 8),
        ],
        99 => [
            Mix::Interp8(5, 4), Mix::Interp3(5, 4), Mix::Interp1(5, 3), Mix::Interp8(5, 3),
            Mix::Interp8(5, 4), Mix::Interp3(5, 4), Mix::Interp3(5, 3), Mix::Interp6(5, 6, 3),
            Mix::Interp8(5, 4), Mix::Interp3(5, 4), Mix::Interp3(5, 9), Mix::Interp6(5, 6, 9),
            Mix::Interp8(5, 4), Mix::Interp3(5, 4), Mix::Interp1(5, 9), Mix::Interp8(5, 9),
        ],
        57 => [
            Mix::Interp8(5, 2), Mix::Interp8(5, 2), Mix::Interp6(5, 2, 3), Mix::Interp8(5, 3),
            Mix::Interp3(5, 2), Mix::Interp3(5, 2), Mix::Interp3(5, 3), Mix::Interp1(5, 3),
            Mix::Interp3(5, 8), Mix::Interp3(5, 8), Mix::Interp3(5, 9), Mix::Interp1(5, 9),
            Mix::Interp8(5, 8), Mix::Interp8(5, 8), Mix::Interp6(5, 8, 9), Mix::Interp8(5, 9),
        ],
        71 => [
            Mix::Interp8(5, 4), Mix::Interp3(5, 4), Mix::Interp3(5, 6), Mix::Interp8(5, 6),
            Mix::Interp8(5, 4), Mix::Interp3(5, 4), Mix::Interp3(5, 6), Mix::Interp8(5, 6),
            Mix::Interp6(5, 4, 7), Mix::Interp3(5, 7), Mix::Interp3(5, 9), Mix::Interp6(5, 6, 9),
            Mix::Interp8(5, 7), Mix::Interp1(5, 7), Mix::Interp1(5, 9), Mix::Interp8(5, 9),
        ],
        156 => [
            Mix::Interp8(5, 1), Mix::Interp6(5, 2, 1), Mix::Interp8(5, 2), Mix::Interp8(5, 2),
            Mix::Interp1(5, 1), Mix::Interp3(5, 1), Mix::Interp3(5, 2), Mix::Interp3(5, 2),
            Mix::Interp1(5, 7), Mix::Interp3(5, 7), Mix::Interp3(5, 8), Mix::Interp3(5, 8),
            Mix::Interp8(5, 7), Mix::Interp6(5, 8, 7), Mix::Interp8(5, 8), Mix::Interp8(5, 8),
        ],
        226 => [
            Mix::Interp8(5, 1), Mix::Interp1(5, 1), Mix::Interp1(5, 3), Mix::Interp8(5, 3),
            Mix::Interp6(5, 4, 1), Mix::Interp3(5, 1), Mix::Interp3(5, 3), Mix::Interp6(5, 6, 3),
            Mix::Interp8(5, 4), Mix::Interp3(5, 4), Mix::Interp3(5, 6), Mix::Interp8(5, 6),
            Mix::Interp8(5, 4), Mix::Interp3(5, 4), Mix::Interp3(5, 6), Mix::Interp8(5, 6),
        ],
        60 => [
            Mix::Interp8(5, 1), Mix::Interp6(5, 2, 1), Mix::Interp8(5, 2), Mix::Interp8(5, 2),
            Mix::Interp1(5, 1), Mix::Interp3(5, 1), Mix::Interp3(5, 2), Mix::Interp3(5, 2),
            Mix::Interp3(5, 8), Mix::Interp3(5, 8), Mix::Interp3(5, 9), Mix::Interp1(5, 9),
            Mix::Interp8(5, 8), Mix::Interp8(5, 8), Mix::Interp6(5, 8, 9), Mix::Interp8(5, 9),
        ],
        195 => [
            Mix::Interp8(5, 4), Mix::Interp3(5, 4), Mix::Interp1(5, 3), Mix::Interp8(5, 3),
            Mix::Interp8(5, 4), Mix::Interp3(5, 4), Mix::Interp3(5, 3), Mix::Interp6(5, 6, 3),
            Mix::Interp6(5, 4, 7), Mix::Interp3(5, 7), Mix::Interp3(5, 6), Mix::Interp8(5, 6),
            Mix::Interp8(5, 7), Mix::Interp1(5, 7), Mix::Interp3(5, 6), Mix::Interp8(5, 6),
        ],
        102 => [
            Mix::Interp8(5, 1), Mix::Interp1(5, 1), Mix::Interp3(5, 6), Mix::Interp8(5, 6),
            Mix::Interp6(5, 4, 1), Mix::Interp3(5, 1), Mix::Interp3(5, 6), Mix::Interp8(5, 6),
            Mix::Interp8(5, 4), Mix::Interp3(5, 4), Mix::Interp3(5, 9), Mix::Interp6(5, 6, 9),
            Mix::Interp8(5, 4), Mix::Interp3(5, 4), Mix::Interp1(5, 9), Mix::Interp8(5, 9),
        ],
        153 => [
            Mix::Interp8(5, 2), Mix::Interp8(5, 2), Mix::Interp6(5, 2, 3), Mix::Interp8(5, 3),
            Mix::Interp3(5, 2), Mix::Interp3(5, 2), Mix::Interp3(5, 3), Mix::Interp1(5, 3),
            Mix::Interp1(5, 7), Mix::Interp3(5, 7), Mix::Interp3(5, 8), Mix::Interp3(5, 8),
            Mix::Interp8(5, 7), Mix::Interp6(5, 8, 7), Mix::Interp8(5, 8), Mix::Interp8(5, 8),
        ],
        58 => [
            if e.top_left { Mix::Interp8(5, 1) } else { Mix::Interp2(5, 2, 4) },
            if e.top_left { Mix::Interp1(5, 1) } else { Mix::Interp1(5, 2) },
            if e.top_right { Mix::Interp1(5, 3) } else { Mix::Interp1(5, 2) },
            if e.top_right { Mix::Interp8(5, 3) } else { Mix::Interp2(5, 2, 6) },
            if e.top_left { Mix::Interp1(5, 1) } else { Mix::Interp1(5, 4) },
            if e.top_left { Mix::Interp3(5, 1) } else { Mix::Pick(5) },
            if e.top_right { Mix::Interp3(5, 3) } else { Mix::Pick(5) },
            if e.top_right { Mix::Interp1(5, 3) } else { Mix::Interp1(5, 6) },
            Mix::Interp3(5, 8), Mix::Interp3(5, 8), Mix::Interp3(5, 9), Mix::Interp1(5, 9),
            Mix::Interp8(5, 8), Mix::Interp8(5, 8), Mix::Interp6(5, 8, 9), Mix::Interp8(5, 9),
        ],
        83 => [
            Mix::Interp8(5, 4),
            Mix::Interp3(5, 4),
            if e.top_right { Mix::Interp1(5, 3) } else { Mix::Interp1(5, 2) },
            if e.top_right { Mix::Interp8(5, 3) } else { Mix::Interp2(5, 2, 6) },
            Mix::Interp8(5, 4),
            Mix::Interp3(5, 4),
            if e.top_right { Mix::Interp3(5, 3) } else { Mix::Pick(5) },
            if e.top_right { Mix::Interp1(5, 3) } else { Mix::Interp1(5, 6) },
            Mix::Interp6(5, 4, 7),
            Mix::Interp3(5, 7),
            if e.bottom_right { Mix::Interp3(5, 9) } else { Mix::Pick(5) },
            if e.bottom_right { Mix::Interp1(5, 9) } else { Mix::Interp1(5, 6) },
            Mix::Interp8(5, 7),
            Mix::Interp1(5, 7),
            if e.bottom_right { Mix::Interp1(5, 9) } else { Mix::Interp1(5, 8) },
            if e.bottom_right { Mix::Interp8(5, 9) } else { Mix::Interp2(5, 8, 6) },
        ],
        92 => [
            Mix::Interp8(5, 1), Mix::Interp6(5, 2, 1), Mix::Interp8(5, 2), Mix::Interp8(5, 2),
            Mix::Interp1(5, 1), Mix::Interp3(5, 1), Mix::Interp3(5, 2), Mix::Interp3(5, 2),
            if e.bottom_left { Mix::Interp1(5, 7) } else { Mix::Interp1(5, 4) },
            if e.bottom_left { Mix::Interp3(5, 7) } else { Mix::Pick(5) },
            if e.bottom_right { Mix::Interp3(5, 9) } else { Mix::Pick(5) },
            if e.bottom_right { Mix::Interp1(5, 9) } else { Mix::Interp1(5, 6) },
            if e.bottom_left { Mix::Interp8(5, 7) } else { Mix::Interp2(5, 8, 4) },
            if e.bottom_left { Mix::Interp1(5, 7) } else { Mix::Interp1(5, 8) },
            if e.bottom_right { Mix::Interp1(5, 9) } else { Mix::Interp1(5, 8) },
            if e.bottom_right { Mix::Interp8(5, 9) } else { Mix::Interp2(5, 8, 6) },
        ],
        202 => [
            if e.top_left { Mix::Interp8(5, 1) } else { Mix::Interp2(5, 2, 4) },
            if e.top_left { Mix::Interp1(5, 1) } else { Mix::Interp1(5, 2) },
            Mix::Interp1(5, 3),
            Mix::Interp8(5, 3),
            if e.top_left { Mix::Interp1(5, 1) } else { Mix::Interp1(5, 4) },
            if e.top_left { Mix::Interp3(5, 1) } else { Mix::Pick(5) },
            Mix::Interp3(5, 3),
            Mix::Interp6(5, 6, 3),
            if e.bottom_left { Mix::Interp1(5, 7) } else { Mix::Interp1(5, 4) },
            if e.bottom_left { Mix::Interp3(5, 7) } else { Mix::Pick(5) },
            Mix::Interp3(5, 6),
            Mix::Interp8(5, 6),
            if e.bottom_left { Mix::Interp8(5, 7) } else { Mix::Interp2(5, 8, 4) },
            if e.bottom_left { Mix::Interp1(5, 7) } else { Mix::Interp1(5, 8) },
            Mix::Interp3(5, 6),
            Mix::Interp8(5, 6),
        ],
        78 => [
            if e.top_left { Mix::Interp8(5, 1) } else { Mix::Interp2(5, 2, 4) },
            if e.top_left { Mix::Interp1(5, 1) } else { Mix::Interp1(5, 2) },
            Mix::Interp3(5, 6),
            Mix::Interp8(5, 6),
            if e.top_left { Mix::Interp1(5, 1) } else { Mix::Interp1(5, 4) },
            if e.top_left { Mix::Interp3(5, 1) } else { Mix::Pick(5) },
            Mix::Interp3(5, 6),
            Mix::Interp8(5, 6),
            if e.bottom_left { Mix::Interp1(5, 7) } else { Mix::Interp1(5, 4) },
            if e.bottom_left { Mix::Interp3(5, 7) } else { Mix::Pick(5) },
            Mix::Interp3(5, 9),
            Mix::Interp6(5, 6, 9),
            if e.bottom_left { Mix::Interp8(5, 7) } else { Mix::Interp2(5, 8, 4) },
            if e.bottom_left { Mix::Interp1(5, 7) } else { Mix::Interp1(5, 8) },
            Mix::Interp1(5, 9),
            Mix::Interp8(5, 9),
        ],
        154 => [
            if e.top_left { Mix::Interp8(5, 1) } else { Mix::Interp2(5, 2, 4) },
            if e.top_left { Mix::Interp1(5, 1) } else { Mix::Interp1(5, 2) },
            if e.top_right { Mix::Interp1(5, 3) } else { Mix::Interp1(5, 2) },
            if e.top_right { Mix::Interp8(5, 3) } else { Mix::Interp2(5, 2, 6) },
            if e.top_left { Mix::Interp1(5, 1) } else { Mix::Interp1(5, 4) },
            if e.top_left { Mix::Interp3(5, 1) } else { Mix::Pick(5) },
            if e.top_right { Mix::Interp3(5, 3) } else { Mix::Pick(5) },
            if e.top_right { Mix::Interp1(5, 3) } else { Mix::Interp1(5, 6) },
            Mix::Interp1(5, 7), Mix::Interp3(5, 7), Mix::Interp3(5, 8), Mix::Interp3(5, 8),
            Mix::Interp8(5, 7), Mix::Interp6(5, 8, 7), Mix::Interp8(5, 8), Mix::Interp8(5, 8),
        ],
        114 => [
            Mix::Interp8(5, 1),
            Mix::Interp1(5, 1),
            if e.top_right { Mix::Interp1(5, 3) } else { Mix::Interp1(5, 2) },
            if e.top_right { Mix::Interp8(5, 3) } else { Mix::Interp2(5, 2, 6) },
            Mix::Interp6(5, 4, 1),
            Mix::Interp3(5, 1),
            if e.top_right { Mix::Interp3(5, 3) } else { Mix::Pick(5) },
            if e.top_right { Mix::Interp1(5, 3) } else { Mix::Interp1(5, 6) },
            Mix::Interp8(5, 4),
            Mix::Interp3(5, 4),
            if e.bottom_right { Mix::Interp3(5, 9) } else { Mix::Pick(5) },
            if e.bottom_right { Mix::Interp1(5, 9) } else { Mix::Interp1(5, 6) },
            Mix::Interp8(5, 4),
            Mix::Interp3(5, 4),
            if e.bottom_right { Mix::Interp1(5, 9) } else { Mix::Interp1(5, 8) },
            if e.bottom_right { Mix::Interp8(5, 9) } else { Mix::Interp2(5, 8, 6) },
        ],
        89 => [
            Mix::Interp8(5, 2), Mix::Interp8(5, 2), Mix::Interp6(5, 2, 3), Mix::Interp8(5, 3),
            Mix::Interp3(5, 2), Mix::Interp3(5, 2), Mix::Interp3(5, 3), Mix::Interp1(5, 3),
            if e.bottom_left { Mix::Interp1(5, 7) } else { Mix::Interp1(5, 4) },
            if e.bottom_left { Mix::Interp3(5, 7) } else { Mix::Pick(5) },
            if e.bottom_right { Mix::Interp3(5, 9) } else { Mix::Pick(5) },
            if e.bottom_right { Mix::Interp1(5, 9) } else { Mix::Interp1(5, 6) },
            if e.bottom_left { Mix::Interp8(5, 7) } else { Mix::Interp2(5, 8, 4) },
            if e.bottom_left { Mix::Interp1(5, 7) } else { Mix::Interp1(5, 8) },
            if e.bottom_right { Mix::Interp1(5, 9) } else { Mix::Interp1(5, 8) },
            if e.bottom_right { Mix::Interp8(5, 9) } else { Mix::Interp2(5, 8, 6) },
        ],
        90 => [
            if e.top_left { Mix::Interp8(5, 1) } else { Mix::Interp2(5, 2, 4) },
            if e.top_left { Mix::Interp1(5, 1) } else { Mix::Interp1(5, 2) },
            if e.top_right { Mix::Interp1(5, 3) } else { Mix::Interp1(5, 2) },
            if e.top_right { Mix::Interp8(5, 3) } else { Mix::Interp2(5, 2, 6) },
            if e.top_left { Mix::Interp1(5, 1) } else { Mix::Interp1(5, 4) },
            if e.top_left { Mix::Interp3(5, 1) } else { Mix::Pick(5) },
            if e.top_right { Mix::Interp3(5, 3) } else { Mix::Pick(5) },
            if e.top_right { Mix::Interp1(5, 3) } else { Mix::Interp1(5, 6) },
            if e.bottom_left { Mix::Interp1(5, 7) } else { Mix::Interp1(5, 4) },
            if e.bottom_left { Mix::Interp3(5, 7) } else { Mix::Pick(5) },
            if e.bottom_right { Mix::Interp3(5, 9) } else { Mix::Pick(5) },
            if e.bottom_right { Mix::Interp1(5, 9) } else { Mix::Interp1(5, 6) },
            if e.bottom_left { Mix::Interp8(5, 7) } else { Mix::Interp2(5, 8, 4) },
            if e.bottom_left { Mix::Interp1(5, 7) } else { Mix::Interp1(5, 8) },
            if e.bottom_right { Mix::Interp1(5, 9) } else { Mix::Interp1(5, 8) },
            if e.bottom_right { Mix::Interp8(5, 9) } else { Mix::Interp2(5, 8, 6) },
        ],
        55 | 23 => [
            if e.top_right { Mix::Interp8(5, 4) } else { Mix::Interp1(5, 2) },
            if e.top_right { Mix::Interp3(5, 4) } else { Mix::Interp1(2, 5) },
            if e.top_right { Mix::Pick(5) } else { Mix::Interp8(2, 6) },
            if e.top_right { Mix::Pick(5) } else { Mix::Interp5(2, 6) },
            Mix::Interp8(5, 4),
            Mix::Interp3(5, 4),
            if e.top_right { Mix::Pick(5) } else { Mix::Interp7(5, 6, 2) },
            if e.top_right { Mix::Pick(5) } else { Mix::Interp2(6, 5, 2) },
            Mix::Interp6(5, 4, 8), Mix::Interp7(5, 4, 8), Mix::Interp3(5, 9), Mix::Interp1(5, 9),
            Mix::Interp2(5, 8, 4), Mix::Interp6(5, 8, 4), Mix::Interp6(5, 8, 9), Mix::Interp8(5, 9),
        ],
        182 | 150 => [
            Mix::Interp8(5, 1),
            Mix::Interp1(5, 1),
            if e.top_right { Mix::Pick(5) } else { Mix::Interp2(2, 5, 6) },
            if e.top_right { Mix::Pick(5) } else { Mix::Interp5(2, 6) },
            Mix::Interp6(5, 4, 1),
            Mix::Interp3(5, 1),
            if e.top_right { Mix::Pick(5) } else { Mix::Interp7(5, 6, 2) },
            if e.top_right { Mix::Pick(5) } else { Mix::Interp8(6, 2) },
            Mix::Interp6(5, 4, 8),
            Mix::Interp7(5, 4, 8),
            Mix::Interp3(5, 8),
            if e.top_right { Mix::Interp3(5, 8) } else { Mix::Interp1(6, 5) },
            Mix::Interp2(5, 8, 4),
            Mix::Interp6(5, 8, 4),
            Mix::Interp8(5, 8),
            if e.top_right { Mix::Interp8(5, 8) } else { Mix::Interp1(5, 6) },
        ],
        213 | 212 => [
            Mix::Interp2(5, 2, 4),
            Mix::Interp6(5, 2, 4),
            Mix::Interp8(5, 2),
            if e.bottom_right { Mix::Interp8(5, 2) } else { Mix::Interp1(5, 6) },
            Mix::Interp6(5, 4, 2),
            Mix::Interp7(5, 4, 2),
            Mix::Interp3(5, 2),
            if e.bottom_right { Mix::Interp3(5, 2) } else { Mix::Interp1(6, 5) },
            Mix::Interp6(5, 4, 7),
            Mix::Interp3(5, 7),
            if e.bottom_right { Mix::Pick(5) } else { Mix::Interp7(5, 6, 8) },
            if e.bottom_right { Mix::Pick(5) } else { Mix::Interp8(6, 8) },
            Mix::Interp8(5, 7),
            Mix::Interp1(5, 7),
            if e.bottom_right { Mix::Pick(5) } else { Mix::Interp2(8, 5, 6) },
            if e.bottom_right { Mix::Pick(5) } else { Mix::Interp5(8, 6) },
        ],
        241 | 240 => [
            Mix::Interp2(5, 2, 4), Mix::Interp6(5, 2, 4), Mix::Interp6(5, 2, 3), Mix::Interp8(5, 3),
            Mix::Interp6(5, 4, 2), Mix::Interp7(5, 4, 2), Mix::Interp3(5, 3), Mix::Interp1(5, 3),
            Mix::Interp8(5, 4),
            Mix::Interp3(5, 4),
            if e.bottom_right { Mix::Pick(5) } else { Mix::Interp7(5, 6, 8) },
            if e.bottom_right { Mix::Pick(5) } else { Mix::Interp2(6, 5, 8) },
            if e.bottom_right { Mix::Interp8(5, 4) } else { Mix::Interp1(5, 8) },
            if e.bottom_right { Mix::Interp3(5, 4) } else { Mix::Interp1(8, 5) },
            if e.bottom_right { Mix::Pick(5) } else { Mix::Interp8(8, 6) },
            if e.bottom_right { Mix::Pick(5) } else { Mix::Interp5(8, 6) },
        ],
        236 | 232 => [
            Mix::Interp8(5, 1), Mix::Interp6(5, 2, 1), Mix::Interp6(5, 2, 6), Mix::Interp2(5, 2, 6),
            Mix::Interp1(5, 1), Mix::Interp3(5, 1), Mix::Interp7(5, 6, 2), Mix::Interp6(5, 6, 2),
            if e.bottom_left { Mix::Pick(5) } else { Mix::Interp2(4, 5, 8) },
            if e.bottom_left { Mix::Pick(5) } else { Mix::Interp7(5, 4, 8) },
            Mix::Interp3(5, 6),
            Mix::Interp8(5, 6),
            if e.bottom_left { Mix::Pick(5) } else { Mix::Interp5(8, 4) },
            if e.bottom_left { Mix::Pick(5) } else { Mix::Interp8(8, 4) },
            if e.bottom_left { Mix::Interp3(5, 6) } else { Mix::Interp1(8, 5) },
            if e.bottom_left { Mix::Interp8(5, 6) } else { Mix::Interp1(5, 8) },
        ],
        109 | 105 => [
            if e.bottom_left { Mix::Interp8(5, 2) } else { Mix::Interp1(5, 4) },
            Mix::Interp8(5, 2),
            Mix::Interp6(5, 2, 6),
            Mix::Interp2(5, 2, 6),
            if e.bottom_left { Mix::Interp3(5, 2) } else { Mix::Interp1(4, 5) },
            Mix::Interp3(5, 2),
            Mix::Interp7(5, 6, 2),
            Mix::Interp6(5, 6, 2),
            if e.bottom_left { Mix::Pick(5) } else { Mix::Interp8(4, 8) },
            if e.bottom_left { Mix::Pick(5) } else { Mix::Interp7(5, 4, 8) },
            Mix::Interp3(5, 9),
            Mix::Interp6(5, 6, 9),
            if e.bottom_left { Mix::Pick(5) } else { Mix::Interp5(8, 4) },
            if e.bottom_left { Mix::Pick(5) } else { Mix::Interp2(8, 5, 4) },
            Mix::Interp1(5, 9),
            Mix::Interp8(5, 9),
        ],
        171 | 43 => [
            if e.top_left { Mix::Pick(5) } else { Mix::Interp5(2, 4) },
            if e.top_left { Mix::Pick(5) } else { Mix::Interp2(2, 5, 4) },
            Mix::Interp1(5, 3),
            Mix::Interp8(5, 3),
            if e.top_left { Mix::Pick(5) } else { Mix::Interp8(4, 2) },
            if e.top_left { Mix::Pick(5) } else { Mix::Interp7(5, 4, 2) },
            Mix::Interp3(5, 3),
            Mix::Interp6(5, 6, 3),
            if e.top_left { Mix::Interp3(5, 8) } else { Mix::Interp1(4, 5) },
            Mix::Interp3(5, 8),
            Mix::Interp7(5, 6, 8),
            Mix::Interp6(5, 6, 8),
            if e.top_left { Mix::Interp8(5, 8) } else { Mix::Interp1(5, 4) },
            Mix::Interp8(5, 8),
            Mix::Interp6(5, 8, 6),
            Mix::Interp2(5, 8, 6),
        ],
        143 | 15 => [
            if e.top_left { Mix::Pick(5) } else { Mix::Interp5(2, 4) },
            if e.top_left { Mix::Pick(5) } else { Mix::Interp8(2, 4) },
            if e.top_left { Mix::Interp3(5, 6) } else { Mix::Interp1(2, 5) },
            if e.top_left { Mix::Interp8(5, 6) } else { Mix::Interp1(5, 2) },
            if e.top_left { Mix::Pick(5) } else { Mix::Interp2(4, 5, 2) },
            if e.top_left { Mix::Pick(5) } else { Mix::Interp7(5, 4, 2) },
            Mix::Interp3(5, 6),
            Mix::Interp8(5, 6),
            Mix::Interp1(5, 7), Mix::Interp3(5, 7), Mix::Interp7(5, 6, 8), Mix::Interp6(5, 6, 8),
            Mix::Interp8(5, 7), Mix::Interp6(5, 8, 7), Mix::Interp6(5, 8, 6), Mix::Interp2(5, 8, 6),
        ],
        124 => [
            Mix::Interp8(5, 1), Mix::Interp6(5, 2, 1), Mix::Interp8(5, 2), Mix::Interp8(5, 2),
            Mix::Interp1(5, 1), Mix::Interp3(5, 1), Mix::Interp3(5, 2), Mix::Interp3(5, 2),
            if e.bottom_left { Mix::Pick(5) } else { Mix::Interp5(4, 5) },
            Mix::Pick(5),
            Mix::Interp3(5, 9),
            Mix::Interp1(5, 9),
            if e.bottom_left { Mix::Pick(5) } else { Mix::Interp5(8, 4) },
            if e.bottom_left { Mix::Pick(5) } else { Mix::Interp5(8, 5) },
            Mix::Interp1(5, 9),
            Mix::Interp8(5, 9),
        ],
        203 => [
            if e.top_left { Mix::Pick(5) } else { Mix::Interp5(2, 4) },
            if e.top_left { Mix::Pick(5) } else { Mix::Interp5(2, 5) },
            Mix::Interp1(5, 3),
            Mix::Interp8(5, 3),
            if e.top_left { Mix::Pick(5) } else { Mix::Interp5(4, 5) },
            Mix::Pick(5),
            Mix::Interp3(5, 3),
            Mix::Interp6(5, 6, 3),
            Mix::Interp1(5, 7), Mix::Interp3(5, 7), Mix::Interp3(5, 6), Mix::Interp8(5, 6),
            Mix::Interp8(5, 7), Mix::Interp1(5, 7), Mix::Interp3(5, 6), Mix::Interp8(5, 6),
        ],
        62 => [
            Mix::Interp8(5, 1),
            Mix::Interp1(5, 1),
            if e.top_right { Mix::Pick(5) } else { Mix::Interp5(2, 5) },
            if e.top_right { Mix::Pick(5) } else { Mix::Interp5(2, 6) },
            Mix::Interp1(5, 1),
            Mix::Interp3(5, 1),
            Mix::Pick(5),
            if e.top_right { Mix::Pick(5) } else { Mix::Interp5(6, 5) },
            Mix::Interp3(5, 8), Mix::Interp3(5, 8), Mix::Interp3(5, 9), Mix::Interp1(5, 9),
            Mix::Interp8(5, 8), Mix::Interp8(5, 8), Mix::Interp6(5, 8, 9), Mix::Interp8(5, 9),
        ],
        211 => [
            Mix::Interp8(5, 4), Mix::Interp3(5, 4), Mix::Interp1(5, 3), Mix::Interp8(5, 3),
            Mix::Interp8(5, 4), Mix::Interp3(5, 4), Mix::Interp3(5, 3), Mix::Interp1(5, 3),
            Mix::Interp6(5, 4, 7),
            Mix::Interp3(5, 7),
            Mix::Pick(5),
            if e.bottom_right { Mix::Pick(5) } else { Mix::Interp5(6, 5) },
            Mix::Interp8(5, 7),
            Mix::Interp1(5, 7),
            if e.bottom_right { Mix::Pick(5) } else { Mix::Interp5(8, 5) },
            if e.bottom_right { Mix::Pick(5) } else { Mix::Interp5(8, 6) },
        ],
        118 => [
            Mix::Interp8(5, 1),
            Mix::Interp1(5, 1),
            if e.top_right { Mix::Pick(5) } else { Mix::Interp5(2, 5) },
            if e.top_right { Mix::Pick(5) } else { Mix::Interp5(2, 6) },
            Mix::Interp6(5, 4, 1),
            Mix::Interp3(5, 1),
            Mix::Pick(5),
            if e.top_right { Mix::Pick(5) } else { Mix::Interp5(6, 5) },
            Mix::Interp8(5, 4), Mix::Interp3(5, 4), Mix::Interp3(5, 9), Mix::Interp1(5, 9),
            Mix::Interp8(5, 4), Mix::Interp3(5, 4), Mix::Interp1(5, 9), Mix::Interp8(5, 9),
        ],
        217 => [
            Mix::Interp8(5, 2), Mix::Interp8(5, 2), Mix::Interp6(5, 2, 3), Mix::Interp8(5, 3),
            Mix::Interp3(5, 2), Mix::Interp3(5, 2), Mix::Interp3(5, 3), Mix::Interp1(5, 3),
            Mix::Interp1(5, 7),
            Mix::Interp3(5, 7),
            Mix::Pick(5),
            if e.bottom_right { Mix::Pick(5) } else { Mix::Interp5(6, 5) },
            Mix::Interp8(5, 7),
            Mix::Interp1(5, 7),
            if e.bottom_right { Mix::Pick(5) } else { Mix::Interp5(8, 5) },
            if e.bottom_right { Mix::Pick(5) } else { Mix::Interp5(8, 6) },
        ],
        110 => [
            Mix::Interp8(5, 1), Mix::Interp1(5, 1), Mix::Interp3(5, 6), Mix::Interp8(5, 6),
            Mix::Interp1(5, 1), Mix::Interp3(5, 1), Mix::Interp3(5, 6), Mix::Interp8(5, 6),
            if e.bottom_left { Mix::Pick(5) } else { Mix::Interp5(4, 5) },
            Mix::Pick(5),
            Mix::Interp3(5, 9),
            Mix::Interp6(5, 6, 9),
            if e.bottom_left { Mix::Pick(5) } else { Mix::Interp5(8, 4) },
            if e.bottom_left { Mix::Pick(5) } else { Mix::Interp5(8, 5) },
            Mix::Interp1(5, 9),
            Mix::Interp8(5, 9),
        ],
        155 => [
            if e.top_left { Mix::Pick(5) } else { Mix::Interp5(2, 4) },
            if e.top_left { Mix::Pick(5) } else { Mix::Interp5(2, 5) },
            Mix::Interp1(5, 3),
            Mix::Interp8(5, 3),
            if e.top_left { Mix::Pick(5) } else { Mix::Interp5(4, 5) },
            Mix::Pick(5),
            Mix::Interp3(5, 3),
            Mix::Interp1(5, 3),
            Mix::Interp1(5, 7), Mix::Interp3(5, 7), Mix::Interp3(5, 8), Mix::Interp3(5, 8),
            Mix::Interp8(5, 7), Mix::Interp6(5, 8, 7), Mix::Interp8(5, 8), Mix::Interp8(5, 8),
        ],
        188 => [
            Mix::Interp8(5, 1), Mix::Interp6(5, 2, 1), Mix::Interp8(5, 2), Mix::Interp8(5, 2),
            Mix::Interp1(5, 1), Mix::Interp3(5, 1), Mix::Interp3(5, 2), Mix::Interp3(5, 2),
            Mix::Interp3(5, 8), Mix::Interp3(5, 8), Mix::Interp3(5, 8), Mix::Interp3(5, 8),
            Mix::Interp8(5, 8), Mix::Interp8(5, 8), Mix::Interp8(5, 8), Mix::Interp8(5, 8),
        ],
        185 => [
            Mix::Interp8(5, 2), Mix::Interp8(5, 2), Mix::Interp6(5, 2, 3), Mix::Interp8(5, 3),
            Mix::Interp3(5, 2), Mix::Interp3(5, 2), Mix::Interp3(5, 3), Mix::Interp1(5, 3),
            Mix::Interp3(5, 8), Mix::Interp3(5, 8), Mix::Interp3(5, 8), Mix::Interp3(5, 8),
            Mix::Interp8(5, 8), Mix::Interp8(5, 8), Mix::Interp8(5, 8), Mix::Interp8(5, 8),
        ],
        61 => [
            Mix::Interp8(5, 2), Mix::Interp8(5, 2), Mix::Interp8(5, 2), Mix::Interp8(5, 2),
            Mix::Interp3(5, 2), Mix::Interp3(5, 2), Mix::Interp3(5, 2), Mix::Interp3(5, 2),
            Mix::Interp3(5, 8), Mix::Interp3(5, 8), Mix::Interp3(5, 9), Mix::Interp1(5, 9),
            Mix::Interp8(5, 8), Mix::Interp8(5, 8), Mix::Interp6(5, 8, 9), Mix::Interp8(5, 9),
        ],
        157 => [
            Mix::Interp8(5, 2), Mix::Interp8(5, 2), Mix::Interp8(5, 2), Mix::Interp8(5, 2),
            Mix::Interp3(5, 2), Mix::Interp3(5, 2), Mix::Interp3(5, 2), Mix::Interp3(5, 2),
            Mix::Interp1(5, 7), Mix::Interp3(5, 7), Mix::Interp3(5, 8), Mix::Interp3(5, 8),
            Mix::Interp8(5, 7), Mix::Interp6(5, 8, 7), Mix::Interp8(5, 8), Mix::Interp8(5, 8),
        ],
        103 => [
            Mix::Interp8(5, 4), Mix::Interp3(5, 4), Mix::Interp3(5, 6), Mix::Interp8(5, 6),
            Mix::Interp8(5, 4), Mix::Interp3(5, 4), Mix::Interp3(5, 6), Mix::Interp8(5, 6),
            Mix::Interp8(5, 4), Mix::Interp3(5, 4), Mix::Interp3(5, 9), Mix::Interp6(5, 6, 9),
            Mix::Interp8(5, 4), Mix::Interp3(5, 4), Mix::Interp1(5, 9), Mix::Interp8(5, 9),
        ],
        227 => [
            Mix::Interp8(5, 4), Mix::Interp3(5, 4), Mix::Interp1(5, 3), Mix::Interp8(5, 3),
            Mix::Interp8(5, 4), Mix::Interp3(5, 4), Mix::Interp3(5, 3), Mix::Interp6(5, 6, 3),
            Mix::Interp8(5, 4), Mix::Interp3(5, 4), Mix::Interp3(5, 6), Mix::Interp8(5, 6),
            Mix::Interp8(5, 4), Mix::Interp3(5, 4), Mix::Interp3(5, 6), Mix::Interp8(5, 6),
        ],
        230 => [
            Mix::Interp8(5, 1), Mix::Interp1(5, 1), Mix::Interp3(5, 6), Mix::Interp8(5, 6),
            Mix::Interp6(5, 4, 1), Mix::Interp3(5, 1), Mix::Interp3(5, 6), Mix::Interp8(5, 6),
            Mix::Interp8(5, 4), Mix::Interp3(5, 4), Mix::Interp3(5, 6), Mix::Interp8(5, 6),
            Mix::Interp8(5, 4), Mix::Interp3(5, 4), Mix::Interp3(5, 6), Mix::Interp8(5, 6),
        ],
        199 => [
            Mix::Interp8(5, 4), Mix::Interp3(5, 4), Mix::Interp3(5, 6), Mix::Interp8(5, 6),
            Mix::Interp8(5, 4), Mix::Interp3(5, 4), Mix::Interp3(5, 6), Mix::Interp8(5, 6),
            Mix::Interp6(5, 4, 7), Mix::Interp3(5, 7), Mix::Interp3(5, 6), Mix::Interp8(5, 6),
            Mix::Interp8(5, 7), Mix::Interp1(5, 7), Mix::Interp3(5, 6), Mix::Interp8(5, 6),
        ],
        220 => [
            Mix::Interp8(5, 1), Mix::Interp6(5, 2, 1), Mix::Interp8(5, 2), Mix::Interp8(5, 2),
            Mix::Interp1(5, 1), Mix::Interp3(5, 1), Mix::Interp3(5, 2), Mix::Interp3(5, 2),
            if e.bottom_left { Mix::Interp1(5, 7) } else { Mix::Interp1(5, 4) },
            if e.bottom_left { Mix::Interp3(5, 7) } else { Mix::Pick(5) },
            Mix::Pick(5),
            if e.bottom_right { Mix::Pick(5) } else { Mix::Interp5(6, 5) },
            if e.bottom_left { Mix::Interp8(5, 7) } else { Mix::Interp2(5, 8, 4) },
            if e.bottom_left { Mix::Interp1(5, 7) } else { Mix::Interp1(5, 8) },
            if e.bottom_right { Mix::Pick(5) } else { Mix::Interp5(8, 5) },
            if e.bottom_right { Mix::Pick(5) } else { Mix::Interp5(8, 6) },
        ],
        158 => [
            if e.top_left { Mix::Interp8(5, 1) } else { Mix::Interp2(5, 2, 4) },
            if e.top_left { Mix::Interp1(5, 1) } else { Mix::Interp1(5, 2) },
            if e.top_right { Mix::Pick(5) } else { Mix::Interp5(2, 5) },
            if e.top_right { Mix::Pick(5) } else { Mix::Interp5(2, 6) },
            if e.top_left { Mix::Interp1(5, 1) } else { Mix::Interp1(5, 4) },
            if e.top_left { Mix::Interp3(5, 1) } else { Mix::Pick(5) },
            Mix::Pick(5),
            if e.top_right { Mix::Pick(5) } else { Mix::Interp5(6, 5) },
            Mix::Interp1(5, 7), Mix::Interp3(5, 7), Mix::Interp3(5, 8), Mix::Interp3(5, 8),
            Mix::Interp8(5, 7), Mix::Interp6(5, 8, 7), Mix::Interp8(5, 8), Mix::Interp8(5, 8),
        ],
        234 => [
            if e.top_left { Mix::Interp8(5, 1) } else { Mix::Interp2(5, 2, 4) },
            if e.top_left { Mix::Interp1(5, 1) } else { Mix::Interp1(5, 2) },
            Mix::Interp1(5, 3),
            Mix::Interp8(5, 3),
            if e.top_left { Mix::Interp1(5, 1) } else { Mix::Interp1(5, 4) },
            if e.top_left { Mix::Interp3(5, 1) } else { Mix::Pick(5) },
            Mix::Interp3(5, 3),
            Mix::Interp6(5, 6, 3),
            if e.bottom_left { Mix::Pick(5) } else { Mix::Interp5(4, 5) },
            Mix::Pick(5),
            Mix::Interp3(5, 6),
            Mix::Interp8(5, 6),
            if e.bottom_left { Mix::Pick(5) } else { Mix::Interp5(8, 4) },
            if e.bottom_left { Mix::Pick(5) } else { Mix::Interp5(8, 5) },
            Mix::Interp3(5, 6),
            Mix::Interp8(5, 6),
        ],
        242 => [
            Mix::Interp8(5, 1),
            Mix::Interp1(5, 1),
            if e.top_right { Mix::Interp1(5, 3) } else { Mix::Interp1(5, 2) },
            if e.top_right { Mix::Interp8(5, 3) } else { Mix::Interp2(5, 2, 6) },
            Mix::Interp6(5, 4, 1),
            Mix::Interp3(5, 1),
            if e.top_right { Mix::Interp3(5, 3) } else { Mix::Pick(5) },
            if e.top_right { Mix::Interp1(5, 3) } else { Mix::Interp1(5, 6) },
            Mix::Interp8(5, 4),
            Mix::Interp3(5, 4),
            Mix::Pick(5),
            if e.bottom_right { Mix::Pick(5) } else { Mix::Interp5(6, 5) },
            Mix::Interp8(5, 4),
            Mix::Interp3(5, 4),
            if e.bottom_right { Mix::Pick(5) } else { Mix::Interp5(8, 5) },
            if e.bottom_right { Mix::Pick(5) } else { Mix::Interp5(8, 6) },
        ],
        59 => [
            if e.top_left { Mix::Pick(5) } else { Mix::Interp5(2, 4) },
            if e.top_left { Mix::Pick(5) } else { Mix::Interp5(2, 5) },
            if e.top_right { Mix::Interp1(5, 3) } else { Mix::Interp1(5, 2) },
            if e.top_right { Mix::Interp8(5, 3) } else { Mix::Interp2(5, 2, 6) },
            if e.top_left { Mix::Pick(5) } else { Mix::Interp5(4, 5) },
            Mix::Pick(5),
            if e.top_right { Mix::Interp3(5, 3) } else { Mix::Pick(5) },
            if e.top_right { Mix::Interp1(5, 3) } else { Mix::Interp1(5, 6) },
            Mix::Interp3(5, 8), Mix::Interp3(5, 8), Mix::Interp3(5, 9), Mix::Interp1(5, 9),
            Mix::Interp8(5, 8), Mix::Interp8(5, 8), Mix::Interp6(5, 8, 9), Mix::Interp8(5, 9),
        ],
        121 => [
            Mix::Interp8(5, 2), Mix::Interp8(5, 2), Mix::Interp6(5, 2, 3), Mix::Interp8(5, 3),
            Mix::Interp3(5, 2), Mix::Interp3(5, 2), Mix::Interp3(5, 3), Mix::Interp1(5, 3),
            if e.bottom_left { Mix::Pick(5) } else { Mix::Interp5(4, 5) },
            Mix::Pick(5),
            if e.bottom_right { Mix::Interp3(5, 9) } else { Mix::Pick(5) },
            if e.bottom_right { Mix::Interp1(5, 9) } else { Mix::Interp1(5, 6) },
            if e.bottom_left { Mix::Pick(5) } else { Mix::Interp5(8, 4) },
            if e.bottom_left { Mix::Pick(5) } else { Mix::Interp5(8, 5) },
            if e.bottom_right { Mix::Interp1(5, 9) } else { Mix::Interp1(5, 8) },
            if e.bottom_right { Mix::Interp8(5, 9) } else { Mix::Interp2(5, 8, 6) },
        ],
        87 => [
            Mix::Interp8(5, 4),
            Mix::Interp3(5, 4),
            if e.top_right { Mix::Pick(5) } else { Mix::Interp5(2, 5) },
            if e.top_right { Mix::Pick(5) } else { Mix::Interp5(2, 6) },
            Mix::Interp8(5, 4),
            Mix::Interp3(5, 4),
            Mix::Pick(5),
            if e.top_right { Mix::Pick(5) } else { Mix::Interp5(6, 5) },
            Mix::Interp6(5, 4, 7),
            Mix::Interp3(5, 7),
            if e.bottom_right { Mix::Interp3(5, 9) } else { Mix::Pick(5) },
            if e.bottom_right { Mix::Interp1(5, 9) } else { Mix::Interp1(5, 6) },
            Mix::Interp8(5, 7),
            Mix::Interp1(5, 7),
            if e.bottom_right { Mix::Interp1(5, 9) } else { Mix::Interp1(5, 8) },
            if e.bottom_right { Mix::Interp8(5, 9) } else { Mix::Interp2(5, 8, 6) },
        ],
        79 => [
            if e.top_left { Mix::Pick(5) } else { Mix::Interp5(2, 4) },
            if e.top_left { Mix::Pick(5) } else { Mix::Interp5(2, 5) },
            Mix::Interp3(5, 6),
            Mix::Interp8(5, 6),
            if e.top_left { Mix::Pick(5) } else { Mix::Interp5(4, 5) },
            Mix::Pick(5),
            Mix::Interp3(5, 6),
            Mix::Interp8(5, 6),
            if e.bottom_left { Mix::Interp1(5, 7) } else { Mix::Interp1(5, 4) },
            if e.bottom_left { Mix::Interp3(5, 7) } else { Mix::Pick(5) },
            Mix::Interp3(5, 9),
            Mix::Interp6(5, 6, 9),
            if e.bottom_left { Mix::Interp8(5, 7) } else { Mix::Interp2(5, 8, 4) },
            if e.bottom_left { Mix::Interp1(5, 7) } else { Mix::Interp1(5, 8) },
            Mix::Interp1(5, 9),
            Mix::Interp8(5, 9),
        ],
        122 => [
            if e.top_left { Mix::Interp8(5, 1) } else { Mix::Interp2(5, 2, 4) },
            if e.top_left { Mix::Interp1(5, 1) } else { Mix::Interp1(5, 2) },
            if e.top_right { Mix::Interp1(5, 3) } else { Mix::Interp1(5, 2) },
            if e.top_right { Mix::Interp8(5, 3) } else { Mix::Interp2(5, 2, 6) },
            if e.top_left { Mix::Interp1(5, 1) } else { Mix::Interp1(5, 4) },
            if e.top_left { Mix::Interp3(5, 1) } else { Mix::Pick(5) },
            if e.top_right { Mix::Interp3(5, 3) } else { Mix::Pick(5) },
            if e.top_right { Mix::Interp1(5, 3) } else { Mix::Interp1(5, 6) },
            if e.bottom_left { Mix::Pick(5) } else { Mix::Interp5(4, 5) },
            Mix::Pick(5),
            if e.bottom_right { Mix::Interp3(5, 9) } else { Mix::Pick(5) },
            if e.bottom_right { Mix::Interp1(5, 9) } else { Mix::Interp1(5, 6) },
            if e.bottom_left { Mix::Pick(5) } else { Mix::Interp5(8, 4) },
            if e.bottom_left { Mix::Pick(5) } else { Mix::Interp5(8, 5) },
            if e.bottom_right { Mix::Interp1(5, 9) } else { Mix::Interp1(5, 8) },
            if e.bottom_right { Mix::Interp8(5, 9) } else { Mix::Interp2(5, 8, 6) },
        ],
        94 => [
            if e.top_left { Mix::Interp8(5, 1) } else { Mix::Interp2(5, 2, 4) },
            if e.top_left { Mix::Interp1(5, 1) } else { Mix::Interp1(5, 2) },
            if e.top_right { Mix::Pick(5) } else { Mix::Interp5(2, 5) },
            if e.top_right { Mix::Pick(5) } else { Mix::Interp5(2, 6) },
            if e.top_left { Mix::Interp1(5, 1) } else { Mix::Interp1(5, 4) },
            if e.top_left { Mix::Interp3(5, 1) } else { Mix::Pick(5) },
            Mix::Pick(5),
            if e.top_right { Mix::Pick(5) } else { Mix::Interp5(6, 5) },
            if e.bottom_left { Mix::Interp1(5, 7) } else { Mix::Interp1(5, 4) },
            if e.bottom_left { Mix::Interp3(5, 7) } else { Mix::Pick(5) },
            if e.bottom_right { Mix::Interp3(5, 9) } else { Mix::Pick(5) },
            if e.bottom_right { Mix::Interp1(5, 9) } else { Mix::Interp1(5, 6) },
            if e.bottom_left { Mix::Interp8(5, 7) } else { Mix::Interp2(5, 8, 4) },
            if e.bottom_left { Mix::Interp1(5, 7) } else { Mix::Interp1(5, 8) },
            if e.bottom_right { Mix::Interp1(5, 9) } else { Mix::Interp1(5, 8) },
            if e.bottom_right { Mix::Interp8(5, 9) } else { Mix::Interp2(5, 8, 6) },
        ],
        218 => [
            if e.top_left { Mix::Interp8(5, 1) } else { Mix::Interp2(5, 2, 4) },
            if e.top_left { Mix::Interp1(5, 1) } else { Mix::Interp1(5, 2) },
            if e.top_right { Mix::Interp1(5, 3) } else { Mix::Interp1(5, 2) },
            if e.top_right { Mix::Interp8(5, 3) } else { Mix::Interp2(5, 2, 6) },
            if e.top_left { Mix::Interp1(5, 1) } else { Mix::Interp1(5, 4) },
            if e.top_left { Mix::Interp3(5, 1) } else { Mix::Pick(5) },
            if e.top_right { Mix::Interp3(5, 3) } else { Mix::Pick(5) },
            if e.top_right { Mix::Interp1(5, 3) } else { Mix::Interp1(5, 6) },
            if e.bottom_left { Mix::Interp1(5, 7) } else { Mix::Interp1(5, 4) },
            if e.bottom_left { Mix::Interp3(5, 7) } else { Mix::Pick(5) },
            Mix::Pick(5),
            if e.bottom_right { Mix::Pick(5) } else { Mix::Interp5(6, 5) },
            if e.bottom_left { Mix::Interp8(5, 7) } else { Mix::Interp2(5, 8, 4) },
            if e.bottom_left { Mix::Interp1(5, 7) } else { Mix::Interp1(5, 8) },
            if e.bottom_right { Mix::Pick(5) } else { Mix::Interp5(8, 5) },
            if e.bottom_right { Mix::Pick(5) } else { Mix::Interp5(8, 6) },
        ],
        91 => [
            if e.top_left { Mix::Pick(5) } else { Mix::Interp5(2, 4) },
            if e.top_left { Mix::Pick(5) } else { Mix::Interp5(2, 5) },
            if e.top_right { Mix::Interp1(5, 3) } else { Mix::Interp1(5, 2) },
            if e.top_right { Mix::Interp8(5, 3) } else { Mix::Interp2(5, 2, 6) },
            if e.top_left { Mix::Pick(5) } else { Mix::Interp5(4, 5) },
            Mix::Pick(5),
            if e.top_right { Mix::Interp3(5, 3) } else { Mix::Pick(5) },
            if e.top_right { Mix::Interp1(5, 3) } else { Mix::Interp1(5, 6) },
            if e.bottom_left { Mix::Interp1(5, 7) } else { Mix::Interp1(5, 4) },
            if e.bottom_left { Mix::Interp3(5, 7) } else { Mix::Pick(5) },
            if e.bottom_right { Mix::Interp3(5, 9) } else { Mix::Pick(5) },
            if e.bottom_right { Mix::Interp1(5, 9) } else { Mix::Interp1(5, 6) },
            if e.bottom_left { Mix::Interp8(5, 7) } else { Mix::Interp2(5, 8, 4) },
            if e.bottom_left { Mix::Interp1(5, 7) } else { Mix::Interp1(5, 8) },
            if e.bottom_right { Mix::Interp1(5, 9) } else { Mix::Interp1(5, 8) },
            if e.bottom_right { Mix::Interp8(5, 9) } else { Mix::Interp2(5, 8, 6) },
        ],
        229 => [
            Mix::Interp2(5, 2, 4),
            Mix::Interp6(5, 2, 4),
            Mix::Interp6(5, 2, 6),
            Mix::Interp2(5, 2, 6),
            Mix::Interp6(5, 4, 2),
            Mix::Interp7(5, 4, 2),
            Mix::Interp7(5, 6, 2),
            Mix::Interp6(5, 6, 2),
            Mix::Interp8(5, 4), Mix::Interp3(5, 4), Mix::Interp3(5, 6), Mix::Interp8(5, 6),
            Mix::Interp8(5, 4), Mix::Interp3(5, 4), Mix::Interp3(5, 6), Mix::Interp8(5, 6),
        ],
        167 => [
            Mix::Interp8(5, 4), Mix::Interp3(5, 4), Mix::Interp3(5, 6), Mix::Interp8(5, 6),
            Mix::Interp8(5, 4), Mix::Interp3(5, 4), Mix::Interp3(5, 6), Mix::Interp8(5, 6),
            Mix::Interp6(5, 4, 8),
            Mix::Interp7(5, 4, 8),
            Mix::Interp7(5, 6, 8),
            Mix::Interp6(5, 6, 8),
            Mix::Interp2(5, 8, 4),
            Mix::Interp6(5, 8, 4),
            Mix::Interp6(5, 8, 6),
            Mix::Interp2(5, 8, 6),
        ],
        173 => [
            Mix::Interp8(5, 2), Mix::Interp8(5, 2), Mix::Interp6(5, 2, 6), Mix::Interp2(5, 2, 6),
            Mix::Interp3(5, 2), Mix::Interp3(5, 2), Mix::Interp7(5, 6, 2), Mix::Interp6(5, 6, 2),
            Mix::Interp3(5, 8), Mix::Interp3(5, 8), Mix::Interp7(5, 6, 8), Mix::Interp6(5, 6, 8),
            Mix::Interp8(5, 8), Mix::Interp8(5, 8), Mix::Interp6(5, 8, 6), Mix::Interp2(5, 8, 6),
        ],
        181 => [
            Mix::Interp2(5, 2, 4), Mix::Interp6(5, 2, 4), Mix::Interp8(5, 2), Mix::Interp8(5, 2),
            Mix::Interp6(5, 4, 2), Mix::Interp7(5, 4, 2), Mix::Interp3(5, 2), Mix::Interp3(5, 2),
            Mix::Interp6(5, 4, 8), Mix::Interp7(5, 4, 8), Mix::Interp3(5, 8), Mix::Interp3(5, 8),
            Mix::Interp2(5, 8, 4), Mix::Interp6(5, 8, 4), Mix::Interp8(5, 8), Mix::Interp8(5, 8),
        ],
        186 => [
            if e.top_left { Mix::Interp8(5, 1) } else { Mix::Interp2(5, 2, 4) },
            if e.top_left { Mix::Interp1(5, 1) } else { Mix::Interp1(5, 2) },
            if e.top_right { Mix::Interp1(5, 3) } else { Mix::Interp1(5, 2) },
            if e.top_right { Mix::Interp8(5, 3) } else { Mix::Interp2(5, 2, 6) },
            if e.top_left { Mix::Interp1(5, 1) } else { Mix::Interp1(5, 4) },
            if e.top_left { Mix::Interp3(5, 1) } else { Mix::Pick(5) },
            if e.top_right { Mix::Interp3(5, 3) } else { Mix::Pick(5) },
            if e.top_right { Mix::Interp1(5, 3) } else { Mix::Interp1(5, 6) },
            Mix::Interp3(5, 8), Mix::Interp3(5, 8), Mix::Interp3(5, 8), Mix::Interp3(5, 8),
            Mix::Interp8(5, 8), Mix::Interp8(5, 8), Mix::Interp8(5, 8), Mix::Interp8(5, 8),
        ],
        115 => [
            Mix::Interp8(5, 4),
            Mix::Interp3(5, 4),
            if e.top_right { Mix::Interp1(5, 3) } else { Mix::Interp1(5, 2) },
            if e.top_right { Mix::Interp8(5, 3) } else { Mix::Interp2(5, 2, 6) },
            Mix::Interp8(5, 4),
            Mix::Interp3(5, 4),
            if e.top_right { Mix::Interp3(5, 3) } else { Mix::Pick(5) },
            if e.top_right { Mix::Interp1(5, 3) } else { Mix::Interp1(5, 6) },
            Mix::Interp8(5, 4),
            Mix::Interp3(5, 4),
            if e.bottom_right { Mix::Interp3(5, 9) } else { Mix::Pick(5) },
            if e.bottom_right { Mix::Interp1(5, 9) } else { Mix::Interp1(5, 6) },
            Mix::Interp8(5, 4),
            Mix::Interp3(5, 4),
            if e.bottom_right { Mix::Interp1(5, 9) } else { Mix::Interp1(5, 8) },
            if e.bottom_right { Mix::Interp8(5, 9) } else { Mix::Interp2(5, 8, 6) },
        ],
        93 => [
            Mix::Interp8(5, 2), Mix::Interp8(5, 2), Mix::Interp8(5, 2), Mix::Interp8(5, 2),
            Mix::Interp3(5, 2), Mix::Interp3(5, 2), Mix::Interp3(5, 2), Mix::Interp3(5, 2),
            if e.bottom_left { Mix::Interp1(5, 7) } else { Mix::Interp1(5, 4) },
            if e.bottom_left { Mix::Interp3(5, 7) } else { Mix::Pick(5) },
            if e.bottom_right { Mix::Interp3(5, 9) } else { Mix::Pick(5) },
            if e.bottom_right { Mix::Interp1(5, 9) } else { Mix::Interp1(5, 6) },
            if e.bottom_left { Mix::Interp8(5, 7) } else { Mix::Interp2(5, 8, 4) },
            if e.bottom_left { Mix::Interp1(5, 7) } else { Mix::Interp1(5, 8) },
            if e.bottom_right { Mix::Interp1(5, 9) } else { Mix::Interp1(5, 8) },
            if e.bottom_right { Mix::Interp8(5, 9) } else { Mix::Interp2(5, 8, 6) },
        ],
        206 => [
            if e.top_left { Mix::Interp8(5, 1) } else { Mix::Interp2(5, 2, 4) },
            if e.top_left { Mix::Interp1(5, 1) } else { Mix::Interp1(5, 2) },
            Mix::Interp3(5, 6),
            Mix::Interp8(5, 6),
            if e.top_left { Mix::Interp1(5, 1) } else { Mix::Interp1(5, 4) },
            if e.top_left { Mix::Interp3(5, 1) } else { Mix::Pick(5) },
            Mix::Interp3(5, 6),
            Mix::Interp8(5, 6),
            if e.bottom_left { Mix::Interp1(5, 7) } else { Mix::Interp1(5, 4) },
            if e.bottom_left { Mix::Interp3(5, 7) } else { Mix::Pick(5) },
            Mix::Interp3(5, 6),
            Mix::Interp8(5, 6),
            if e.bottom_left { Mix::Interp8(5, 7) } else { Mix::Interp2(5, 8, 4) },
            if e.bottom_left { Mix::Interp1(5, 7) } else { Mix::Interp1(5, 8) },
            Mix::Interp3(5, 6),
            Mix::Interp8(5, 6),
        ],
        205 | 201 => [
            Mix::Interp8(5, 2), Mix::Interp8(5, 2), Mix::Interp6(5, 2, 6), Mix::Interp2(5, 2, 6),
            Mix::Interp3(5, 2), Mix::Interp3(5, 2), Mix::Interp7(5, 6, 2), Mix::Interp6(5, 6, 2),
            if e.bottom_left { Mix::Interp1(5, 7) } else { Mix::Interp1(5, 4) },
            if e.bottom_left { Mix::Interp3(5, 7) } else { Mix::Pick(5) },
            Mix::Interp3(5, 6),
            Mix::Interp8(5, 6),
            if e.bottom_left { Mix::Interp8(5, 7) } else { Mix::Interp2(5, 8, 4) },
            if e.bottom_left { Mix::Interp1(5, 7) } else { Mix::Interp1(5, 8) },
            Mix::Interp3(5, 6),
            Mix::Interp8(5, 6),
        ],
        174 | 46 => [
            if e.top_left { Mix::Interp8(5, 1) } else { Mix::Interp2(5, 2, 4) },
            if e.top_left { Mix::Interp1(5, 1) } else { Mix::Interp1(5, 2) },
            Mix::Interp3(5, 6),
            Mix::Interp8(5, 6),
            if e.top_left { Mix::Interp1(5, 1) } else { Mix::Interp1(5, 4) },
            if e.top_left { Mix::Interp3(5, 1) } else { Mix::Pick(5) },
            Mix::Interp3(5, 6),
            Mix::Interp8(5, 6),
            Mix::Interp3(5, 8), Mix::Interp3(5, 8), Mix::Interp7(5, 6, 8), Mix::Interp6(5, 6, 8),
            Mix::Interp8(5, 8), Mix::Interp8(5, 8), Mix::Interp6(5, 8, 6), Mix::Interp2(5, 8, 6),
        ],
        179 | 147 => [
            Mix::Interp8(5, 4),
            Mix::Interp3(5, 4),
            if e.top_right { Mix::Interp1(5, 3) } else { Mix::Interp1(5, 2) },
            if e.top_right { Mix::Interp8(5, 3) } else { Mix::Interp2(5, 2, 6) },
            Mix::Interp8(5, 4),
            Mix::Interp3(5, 4),
            if e.top_right { Mix::Interp3(5, 3) } else { Mix::Pick(5) },
            if e.top_right { Mix::Interp1(5, 3) } else { Mix::Interp1(5, 6) },
            Mix::Interp6(5, 4, 8), Mix::Interp7(5, 4, 8), Mix::Interp3(5, 8), Mix::Interp3(5, 8),
            Mix::Interp2(5, 8, 4), Mix::Interp6(5, 8, 4), Mix::Interp8(5, 8), Mix::Interp8(5, 8),
        ],
        117 | 116 => [
            Mix::Interp2(5, 2, 4), Mix::Interp6(5, 2, 4), Mix::Interp8(5, 2), Mix::Interp8(5, 2),
            Mix::Interp6(5, 4, 2), Mix::Interp7(5, 4, 2), Mix::Interp3(5, 2), Mix::Interp3(5, 2),
            Mix::Interp8(5, 4),
            Mix::Interp3(5, 4),
            if e.bottom_right { Mix::Interp3(5, 9) } else { Mix::Pick(5) },
            if e.bottom_right { Mix::Interp1(5, 9) } else { Mix::Interp1(5, 6) },
            Mix::Interp8(5, 4),
            Mix::Interp3(5, 4),
            if e.bottom_right { Mix::Interp1(5, 9) } else { Mix::Interp1(5, 8) },
            if e.bottom_right { Mix::Interp8(5, 9) } else { Mix::Interp2(5, 8, 6) },
        ],
        189 => [
            Mix::Interp8(5, 2), Mix::Interp8(5, 2), Mix::Interp8(5, 2), Mix::Interp8(5, 2),
            Mix::Interp3(5, 2), Mix::Interp3(5, 2), Mix::Interp3(5, 2), Mix::Interp3(5, 2),
            Mix::Interp3(5, 8), Mix::Interp3(5, 8), Mix::Interp3(5, 8), Mix::Interp3(5, 8),
            Mix::Interp8(5, 8), Mix::Interp8(5, 8), Mix::Interp8(5, 8), Mix::Interp8(5, 8),
        ],
        231 => [
            Mix::Interp8(5, 4), Mix::Interp3(5, 4), Mix::Interp3(5, 6), Mix::Interp8(5, 6),
            Mix::Interp8(5, 4), Mix::Interp3(5, 4), Mix::Interp3(5, 6), Mix::Interp8(5, 6),
            Mix::Interp8(5, 4), Mix::Interp3(5, 4), Mix::Interp3(5, 6), Mix::Interp8(5, 6),
            Mix::Interp8(5, 4), Mix::Interp3(5, 4), Mix::Interp3(5, 6), Mix::Interp8(5, 6),
        ],
        126 => [
            Mix::Interp8(5, 1),
            Mix::Interp1(5, 1),
            if e.top_right { Mix::Pick(5) } else { Mix::Interp5(2, 5) },
            if e.top_right { Mix::Pick(5) } else { Mix::Interp5(2, 6) },
            Mix::Interp1(5, 1),
            Mix::Interp3(5, 1),
            Mix::Pick(5),
            if e.top_right { Mix::Pick(5) } else { Mix::Interp5(6, 5) },
            if e.bottom_left { Mix::Pick(5) } else { Mix::Interp5(4, 5) },
            Mix::Pick(5),
            Mix::Interp3(5, 9),
            Mix::Interp1(5, 9),
            if e.bottom_left { Mix::Pick(5) } else { Mix::Interp5(8, 4) },
            if e.bottom_left { Mix::Pick(5) } else { Mix::Interp5(8, 5) },
            Mix::Interp1(5, 9),
            Mix::Interp8(5, 9),
        ],
        219 => [
            if e.top_left { Mix::Pick(5) } else { Mix::Interp5(2, 4) },
            if e.top_left { Mix::Pick(5) } else { Mix::Interp5(2, 5) },
            Mix::Interp1(5, 3),
            Mix::Interp8(5, 3),
            if e.top_left { Mix::Pick(5) } else { Mix::Interp5(4, 5) },
            Mix::Pick(5),
            Mix::Interp3(5, 3),
            Mix::Interp1(5, 3),
            Mix::Interp1(5, 7),
            Mix::Interp3(5, 7),
            Mix::Pick(5),
            if e.bottom_right { Mix::Pick(5) } else { Mix::Interp5(6, 5) },
            Mix::Interp8(5, 7),
            Mix::Interp1(5, 7),
            if e.bottom_right { Mix::Pick(5) } else { Mix::Interp5(8, 5) },
            if e.bottom_right { Mix::Pick(5) } else { Mix::Interp5(8, 6) },
        ],
        125 => [
            if e.bottom_left { Mix::Interp8(5, 2) } else { Mix::Interp1(5, 4) },
            Mix::Interp8(5, 2),
            Mix::Interp8(5, 2),
            Mix::Interp8(5, 2),
            if e.bottom_left { Mix::Interp3(5, 2) } else { Mix::Interp1(4, 5) },
            Mix::Interp3(5, 2),
            Mix::Interp3(5, 2),
            Mix::Interp3(5, 2),
            if e.bottom_left { Mix::Pick(5) } else { Mix::Interp8(4, 8) },
            if e.bottom_left { Mix::Pick(5) } else { Mix::Interp7(5, 4, 8) },
            Mix::Interp3(5, 9),
            Mix::Interp1(5, 9),
            if e.bottom_left { Mix::Pick(5) } else { Mix::Interp5(8, 4) },
            if e.bottom_left { Mix::Pick(5) } else { Mix::Interp2(8, 5, 4) },
            Mix::Interp1(5, 9),
            Mix::Interp8(5, 9),
        ],
        221 => [
            Mix::Interp8(5, 2),
            Mix::Interp8(5, 2),
            Mix::Interp8(5, 2),
            if e.bottom_right { Mix::Interp8(5, 2) } else { Mix::Interp1(5, 6) },
            Mix::Interp3(5, 2),
            Mix::Interp3(5, 2),
            Mix::Interp3(5, 2),
            if e.bottom_right { Mix::Interp3(5, 2) } else { Mix::Interp1(6, 5) },
            Mix::Interp1(5, 7),
            Mix::Interp3(5, 7),
            if e.bottom_right { Mix::Pick(5) } else { Mix::Interp7(5, 6, 8) },
            if e.bottom_right { Mix::Pick(5) } else { Mix::Interp8(6, 8) },
            Mix::Interp8(5, 7),
            Mix::Interp1(5, 7),
            if e.bottom_right { Mix::Pick(5) } else { Mix::Interp2(8, 5, 6) },
            if e.bottom_right { Mix::Pick(5) } else { Mix::Interp5(8, 6) },
        ],
        207 => [
            if e.top_left { Mix::Pick(5) } else { Mix::Interp5(2, 4) },
            if e.top_left { Mix::Pick(5) } else { Mix::Interp8(2, 4) },
            if e.top_left { Mix::Interp3(5, 6) } else { Mix::Interp1(2, 5) },
            if e.top_left { Mix::Interp8(5, 6) } else { Mix::Interp1(5, 2) },
            if e.top_left { Mix::Pick(5) } else { Mix::Interp2(4, 5, 2) },
            if e.top_left { Mix::Pick(5) } else { Mix::Interp7(5, 4, 2) },
            Mix::Interp3(5, 6),
            Mix::Interp8(5, 6),
            Mix::Interp1(5, 7), Mix::Interp3(5, 7), Mix::Interp3(5, 6), Mix::Interp8(5, 6),
            Mix::Interp8(5, 7), Mix::Interp1(5, 7), Mix::Interp3(5, 6), Mix::Interp8(5, 6),
        ],
        238 => [
            Mix::Interp8(5, 1), Mix::Interp1(5, 1), Mix::Interp3(5, 6), Mix::Interp8(5, 6),
            Mix::Interp1(5, 1), Mix::Interp3(5, 1), Mix::Interp3(5, 6), Mix::Interp8(5, 6),
            if e.bottom_left { Mix::Pick(5) } else { Mix::Interp2(4, 5, 8) },
            if e.bottom_left { Mix::Pick(5) } else { Mix::Interp7(5, 4, 8) },
            Mix::Interp3(5, 6),
            Mix::Interp8(5, 6),
            if e.bottom_left { Mix::Pick(5) } else { Mix::Interp5(8, 4) },
            if e.bottom_left { Mix::Pick(5) } else { Mix::Interp8(8, 4) },
            if e.bottom_left { Mix::Interp3(5, 6) } else { Mix::Interp1(8, 5) },
            if e.bottom_left { Mix::Interp8(5, 6) } else { Mix::Interp1(5, 8) },
        ],
        190 => [
            Mix::Interp8(5, 1),
            Mix::Interp1(5, 1),
            if e.top_right { Mix::Pick(5) } else { Mix::Interp2(2, 5, 6) },
            if e.top_right { Mix::Pick(5) } else { Mix::Interp5(2, 6) },
            Mix::Interp1(5, 1),
            Mix::Interp3(5, 1),
            if e.top_right { Mix::Pick(5) } else { Mix::Interp7(5, 6, 2) },
            if e.top_right { Mix::Pick(5) } else { Mix::Interp8(6, 2) },
            Mix::Interp3(5, 8),
            Mix::Interp3(5, 8),
            Mix::Interp3(5, 8),
            if e.top_right { Mix::Interp3(5, 8) } else { Mix::Interp1(6, 5) },
            Mix::Interp8(5, 8),
            Mix::Interp8(5, 8),
            Mix::Interp8(5, 8),
            if e.top_right { Mix::Interp8(5, 8) } else { Mix::Interp1(5, 6) },
        ],
        187 => [
            if e.top_left { Mix::Pick(5) } else { Mix::Interp5(2, 4) },
            if e.top_left { Mix::Pick(5) } else { Mix::Interp2(2, 5, 4) },
            Mix::Interp1(5, 3),
            Mix::Interp8(5, 3),
            if e.top_left { Mix::Pick(5) } else { Mix::Interp8(4, 2) },
            if e.top_left { Mix::Pick(5) } else { Mix::Interp7(5, 4, 2) },
            Mix::Interp3(5, 3),
            Mix::Interp1(5, 3),
            if e.top_left { Mix::Interp3(5, 8) } else { Mix::Interp1(4, 5) },
            Mix::Interp3(5, 8),
            Mix::Interp3(5, 8),
            Mix::Interp3(5, 8),
            if e.top_left { Mix::Interp8(5, 8) } else { Mix::Interp1(5, 4) },
            Mix::Interp8(5, 8),
            Mix::Interp8(5, 8),
            Mix::Interp8(5, 8),
        ],
        243 => [
            Mix::Interp8(5, 4), Mix::Interp3(5, 4), Mix::Interp1(5, 3), Mix::Interp8(5, 3),
            Mix::Interp8(5, 4), Mix::Interp3(5, 4), Mix::Interp3(5, 3), Mix::Interp1(5, 3),
            Mix::Interp8(5, 4),
            Mix::Interp3(5, 4),
            if e.bottom_right { Mix::Pick(5) } else { Mix::Interp7(5, 6, 8) },
            if e.bottom_right { Mix::Pick(5) } else { Mix::Interp2(6, 5, 8) },
            if e.bottom_right { Mix::Interp8(5, 4) } else { Mix::Interp1(5, 8) },
            if e.bottom_right { Mix::Interp3(5, 4) } else { Mix::Interp1(8, 5) },
            if e.bottom_right { Mix::Pick(5) } else { Mix::Interp8(8, 6) },
            if e.bottom_right { Mix::Pick(5) } else { Mix::Interp5(8, 6) },
        ],
        119 => [
            if e.top_right { Mix::Interp8(5, 4) } else { Mix::Interp1(5, 2) },
            if e.top_right { Mix::Interp3(5, 4) } else { Mix::Interp1(2, 5) },
            if e.top_right { Mix::Pick(5) } else { Mix::Interp8(2, 6) },
            if e.top_right { Mix::Pick(5) } else { Mix::Interp5(2, 6) },
            Mix::Interp8(5, 4),
            Mix::Interp3(5, 4),
            if e.top_right { Mix::Pick(5) } else { Mix::Interp7(5, 6, 2) },
            if e.top_right { Mix::Pick(5) } else { Mix::Interp2(6, 5, 2) },
            Mix::Interp8(5, 4), Mix::Interp3(5, 4), Mix::Interp3(5, 9), Mix::Interp1(5, 9),
            Mix::Interp8(5, 4), Mix::Interp3(5, 4), Mix::Interp1(5, 9), Mix::Interp8(5, 9),
        ],
        237 | 233 => [
            Mix::Interp8(5, 2), Mix::Interp8(5, 2), Mix::Interp6(5, 2, 6), Mix::Interp2(5, 2, 6),
            Mix::Interp3(5, 2), Mix::Interp3(5, 2), Mix::Interp7(5, 6, 2), Mix::Interp6(5, 6, 2),
            Mix::Pick(5), Mix::Pick(5), Mix::Interp3(5, 6), Mix::Interp8(5, 6),
            if e.bottom_left { Mix::Pick(5) } else { Mix::Interp2(5, 8, 4) },
            Mix::Pick(5),
            Mix::Interp3(5, 6),
            Mix::Interp8(5, 6),
        ],
        175 | 47 => [
            if e.top_left { Mix::Pick(5) } else { Mix::Interp2(5, 2, 4) },
            Mix::Pick(5),
            Mix::Interp3(5, 6),
            Mix::Interp8(5, 6),
            Mix::Pick(5), Mix::Pick(5), Mix::Interp3(5, 6), Mix::Interp8(5, 6),
            Mix::Interp3(5, 8), Mix::Interp3(5, 8), Mix::Interp7(5, 6, 8), Mix::Interp6(5, 6, 8),
            Mix::Interp8(5, 8), Mix::Interp8(5, 8), Mix::Interp6(5, 8, 6), Mix::Interp2(5, 8, 6),
        ],
        183 | 151 => [
            Mix::Interp8(5, 4),
            Mix::Interp3(5, 4),
            Mix::Pick(5),
            if e.top_right { Mix::Pick(5) } else { Mix::Interp2(5, 2, 6) },
            Mix::Interp8(5, 4), Mix::Interp3(5, 4), Mix::Pick(5), Mix::Pick(5),
            Mix::Interp6(5, 4, 8), Mix::Interp7(5, 4, 8), Mix::Interp3(5, 8), Mix::Interp3(5, 8),
            Mix::Interp2(5, 8, 4), Mix::Interp6(5, 8, 4), Mix::Interp8(5, 8), Mix::Interp8(5, 8),
        ],
        245 | 244 => [
            Mix::Interp2(5, 2, 4), Mix::Interp6(5, 2, 4), Mix::Interp8(5, 2), Mix::Interp8(5, 2),
            Mix::Interp6(5, 4, 2), Mix::Interp7(5, 4, 2), Mix::Interp3(5, 2), Mix::Interp3(5, 2),
            Mix::Interp8(5, 4), Mix::Interp3(5, 4), Mix::Pick(5), Mix::Pick(5),
            Mix::Interp8(5, 4),
            Mix::Interp3(5, 4),
            Mix::Pick(5),
            if e.bottom_right { Mix::Pick(5) } else { Mix::Interp2(5, 8, 6) },
        ],
        250 => [
            Mix::Interp8(5, 1), Mix::Interp1(5, 1), Mix::Interp1(5, 3), Mix::Interp8(5, 3),
            Mix::Interp1(5, 1), Mix::Interp3(5, 1), Mix::Interp3(5, 3), Mix::Interp1(5, 3),
            if e.bottom_left { Mix::Pick(5) } else { Mix::Interp5(4, 5) },
            Mix::Pick(5),
            Mix::Pick(5),
            if e.bottom_right { Mix::Pick(5) } else { Mix::Interp5(6, 5) },
            if e.bottom_left { Mix::Pick(5) } else { Mix::Interp5(8, 4) },
            if e.bottom_left { Mix::Pick(5) } else { Mix::Interp5(8, 5) },
            if e.bottom_right { Mix::Pick(5) } else { Mix::Interp5(8, 5) },
            if e.bottom_right { Mix::Pick(5) } else { Mix::Interp5(8, 6) },
        ],
        123 => [
            if e.top_left { Mix::Pick(5) } else { Mix::Interp5(2, 4) },
            if e.top_left { Mix::Pick(5) } else { Mix::Interp5(2, 5) },
            Mix::Interp1(5, 3),
            Mix::Interp8(5, 3),
            if e.top_left { Mix::Pick(5) } else { Mix::Interp5(4, 5) },
            Mix::Pick(5),
            Mix::Interp3(5, 3),
            Mix::Interp1(5, 3),
            if e.bottom_left { Mix::Pick(5) } else { Mix::Interp5(4, 5) },
            Mix::Pick(5),
            Mix::Interp3(5, 9),
            Mix::Interp1(5, 9),
            if e.bottom_left { Mix::Pick(5) } else { Mix::Interp5(8, 4) },
            if e.bottom_left { Mix::Pick(5) } else { Mix::Interp5(8, 5) },
            Mix::Interp1(5, 9),
            Mix::Interp8(5, 9),
        ],
        95 => [
            if e.top_left { Mix::Pick(5) } else { Mix::Interp5(2, 4) },
            if e.top_left { Mix::Pick(5) } else { Mix::Interp5(2, 5) },
            if e.top_right { Mix::Pick(5) } else { Mix::Interp5(2, 5) },
            if e.top_right { Mix::Pick(5) } else { Mix::Interp5(2, 6) },
            if e.top_left { Mix::Pick(5) } else { Mix::Interp5(4, 5) },
            Mix::Pick(5),
            Mix::Pick(5),
            if e.top_right { Mix::Pick(5) } else { Mix::Interp5(6, 5) },
            Mix::Interp1(5, 7), Mix::Interp3(5, 7), Mix::Interp3(5, 9), Mix::Interp1(5, 9),
            Mix::Interp8(5, 7), Mix::Interp1(5, 7), Mix::Interp1(5, 9), Mix::Interp8(5, 9),
        ],
        222 => [
            Mix::Interp8(5, 1),
            Mix::Interp1(5, 1),
            if e.top_right { Mix::Pick(5) } else { Mix::Interp5(2, 5) },
            if e.top_right { Mix::Pick(5) } else { Mix::Interp5(2, 6) },
            Mix::Interp1(5, 1),
            Mix::Interp3(5, 1),
            Mix::Pick(5),
            if e.top_right { Mix::Pick(5) } else { Mix::Interp5(6, 5) },
            Mix::Interp1(5, 7),
            Mix::Interp3(5, 7),
            Mix::Pick(5),
            if e.bottom_right { Mix::Pick(5) } else { Mix::Interp5(6, 5) },
            Mix::Interp8(5, 7),
            Mix::Interp1(5, 7),
            if e.bottom_right { Mix::Pick(5) } else { Mix::Interp5(8, 5) },
            if e.bottom_right { Mix::Pick(5) } else { Mix::Interp5(8, 6) },
        ],
        252 => [
            Mix::Interp8(5, 1), Mix::Interp6(5, 2, 1), Mix::Interp8(5, 2), Mix::Interp8(5, 2),
            Mix::Interp1(5, 1), Mix::Interp3(5, 1), Mix::Interp3(5, 2), Mix::Interp3(5, 2),
            if e.bottom_left { Mix::Pick(5) } else { Mix::Interp5(4, 5) },
            Mix::Pick(5),
            Mix::Pick(5),
            Mix::Pick(5),
            if e.bottom_left { Mix::Pick(5) } else { Mix::Interp5(8, 4) },
            if e.bottom_left { Mix::Pick(5) } else { Mix::Interp5(8, 5) },
            Mix::Pick(5),
            if e.bottom_right { Mix::Pick(5) } else { Mix::Interp2(5, 8, 6) },
        ],
        249 => [
            Mix::Interp8(5, 2), Mix::Interp8(5, 2), Mix::Interp6(5, 2, 3), Mix::Interp8(5, 3),
            Mix::Interp3(5, 2), Mix::Interp3(5, 2), Mix::Interp3(5, 3), Mix::Interp1(5, 3),
            Mix::Pick(5),
            Mix::Pick(5),
            Mix::Pick(5),
            if e.bottom_right { Mix::Pick(5) } else { Mix::Interp5(6, 5) },
            if e.bottom_left { Mix::Pick(5) } else { Mix::Interp2(5, 8, 4) },
            Mix::Pick(5),
            if e.bottom_right { Mix::Pick(5) } else { Mix::Interp5(8, 5) },
            if e.bottom_right { Mix::Pick(5) } else { Mix::Interp5(8, 6) },
        ],
        235 => [
            if e.top_left { Mix::Pick(5) } else { Mix::Interp5(2, 4) },
            if e.top_left { Mix::Pick(5) } else { Mix::Interp5(2, 5) },
            Mix::Interp1(5, 3),
            Mix::Interp8(5, 3),
            if e.top_left { Mix::Pick(5) } else { Mix::Interp5(4, 5) },
            Mix::Pick(5),
            Mix::Interp3(5, 3),
            Mix::Interp6(5, 6, 3),
            Mix::Pick(5), Mix::Pick(5), Mix::Interp3(5, 6), Mix::Interp8(5, 6),
            if e.bottom_left { Mix::Pick(5) } else { Mix::Interp2(5, 8, 4) },
            Mix::Pick(5),
            Mix::Interp3(5, 6),
            Mix::Interp8(5, 6),
        ],
        111 => [
            if e.top_left { Mix::Pick(5) } else { Mix::Interp2(5, 2, 4) },
            Mix::Pick(5),
            Mix::Interp3(5, 6),
            Mix::Interp8(5, 6),
            Mix::Pick(5), Mix::Pick(5), Mix::Interp3(5, 6), Mix::Interp8(5, 6),
            if e.bottom_left { Mix::Pick(5) } else { Mix::Interp5(4, 5) },
            Mix::Pick(5),
            Mix::Interp3(5, 9),
            Mix::Interp6(5, 6, 9),
            if e.bottom_left { Mix::Pick(5) } else { Mix::Interp5(8, 4) },
            if e.bottom_left { Mix::Pick(5) } else { Mix::Interp5(8, 5) },
            Mix::Interp1(5, 9),
            Mix::Interp8(5, 9),
        ],
        63 => [
            if e.top_left { Mix::Pick(5) } else { Mix::Interp2(5, 2, 4) },
            Mix::Pick(5),
            if e.top_right { Mix::Pick(5) } else { Mix::Interp5(2, 5) },
            if e.top_right { Mix::Pick(5) } else { Mix::Interp5(2, 6) },
            Mix::Pick(5),
            Mix::Pick(5),
            Mix::Pick(5),
            if e.top_right { Mix::Pick(5) } else { Mix::Interp5(6, 5) },
            Mix::Interp3(5, 8), Mix::Interp3(5, 8), Mix::Interp3(5, 9), Mix::Interp1(5, 9),
            Mix::Interp8(5, 8), Mix::Interp8(5, 8), Mix::Interp6(5, 8, 9), Mix::Interp8(5, 9),
        ],
        159 => [
            if e.top_left { Mix::Pick(5) } else { Mix::Interp5(2, 4) },
            if e.top_left { Mix::Pick(5) } else { Mix::Interp5(2, 5) },
            Mix::Pick(5),
            if e.top_right { Mix::Pick(5) } else { Mix::Interp2(5, 2, 6) },
            if e.top_left { Mix::Pick(5) } else { Mix::Interp5(4, 5) },
            Mix::Pick(5),
            Mix::Pick(5),
            Mix::Pick(5),
            Mix::Interp1(5, 7), Mix::Interp3(5, 7), Mix::Interp3(5, 8), Mix::Interp3(5, 8),
            Mix::Interp8(5, 7), Mix::Interp6(5, 8, 7), Mix::Interp8(5, 8), Mix::Interp8(5, 8),
        ],
        215 => [
            Mix::Interp8(5, 4),
            Mix::Interp3(5, 4),
            Mix::Pick(5),
            if e.top_right { Mix::Pick(5) } else { Mix::Interp2(5, 2, 6) },
            Mix::Interp8(5, 4), Mix::Interp3(5, 4), Mix::Pick(5), Mix::Pick(5),
            Mix::Interp6(5, 4, 7),
            Mix::Interp3(5, 7),
            Mix::Pick(5),
            if e.bottom_right { Mix::Pick(5) } else { Mix::Interp5(6, 5) },
            Mix::Interp8(5, 7),
            Mix::Interp1(5, 7),
            if e.bottom_right { Mix::Pick(5) } else { Mix::Interp5(8, 5) },
            if e.bottom_right { Mix::Pick(5) } else { Mix::Interp5(8, 6) },
        ],
        246 => [
            Mix::Interp8(5, 1),
            Mix::Interp1(5, 1),
            if e.top_right { Mix::Pick(5) } else { Mix::Interp5(2, 5) },
            if e.top_right { Mix::Pick(5) } else { Mix::Interp5(2, 6) },
            Mix::Interp6(5, 4, 1),
            Mix::Interp3(5, 1),
            Mix::Pick(5),
            if e.top_right { Mix::Pick(5) } else { Mix::Interp5(6, 5) },
            Mix::Interp8(5, 4), Mix::Interp3(5, 4), Mix::Pick(5), Mix::Pick(5),
            Mix::Interp8(5, 4),
            Mix::Interp3(5, 4),
            Mix::Pick(5),
            if e.bottom_right { Mix::Pick(5) } else { Mix::Interp2(5, 8, 6) },
        ],
        254 => [
            Mix::Interp8(5, 1),
            Mix::Interp1(5, 1),
            if e.top_right { Mix::Pick(5) } else { Mix::Interp5(2, 5) },
            if e.top_right { Mix::Pick(5) } else { Mix::Interp5(2, 6) },
            Mix::Interp1(5, 1),
            Mix::Interp3(5, 1),
            Mix::Pick(5),
            if e.top_right { Mix::Pick(5) } else { Mix::Interp5(6, 5) },
            if e.bottom_left { Mix::Pick(5) } else { Mix::Interp5(4, 5) },
            Mix::Pick(5),
            Mix::Pick(5),
            Mix::Pick(5),
            if e.bottom_left { Mix::Pick(5) } else { Mix::Interp5(8, 4) },
            if e.bottom_left { Mix::Pick(5) } else { Mix::Interp5(8, 5) },
            Mix::Pick(5),
            if e.bottom_right { Mix::Pick(5) } else { Mix::Interp2(5, 8, 6) },
        ],
        253 => [
            Mix::Interp8(5, 2), Mix::Interp8(5, 2), Mix::Interp8(5, 2), Mix::Interp8(5, 2),
            Mix::Interp3(5, 2), Mix::Interp3(5, 2), Mix::Interp3(5, 2), Mix::Interp3(5, 2),
            Mix::Pick(5), Mix::Pick(5), Mix::Pick(5), Mix::Pick(5),
            if e.bottom_left { Mix::Pick(5) } else { Mix::Interp2(5, 8, 4) },
            Mix::Pick(5),
            Mix::Pick(5),
            if e.bottom_right { Mix::Pick(5) } else { Mix::Interp2(5, 8, 6) },
        ],
        251 => [
            if e.top_left { Mix::Pick(5) } else { Mix::Interp5(2, 4) },
            if e.top_left { Mix::Pick(5) } else { Mix::Interp5(2, 5) },
            Mix::Interp1(5, 3),
            Mix::Interp8(5, 3),
            if e.top_left { Mix::Pick(5) } else { Mix::Interp5(4, 5) },
            Mix::Pick(5),
            Mix::Interp3(5, 3),
            Mix::Interp1(5, 3),
            Mix::Pick(5),
            Mix::Pick(5),
            Mix::Pick(5),
            if e.bottom_right { Mix::Pick(5) } else { Mix::Interp5(6, 5) },
            if e.bottom_left { Mix::Pick(5) } else { Mix::Interp2(5, 8, 4) },
            Mix::Pick(5),
            if e.bottom_right { Mix::Pick(5) } else { Mix::Interp5(8, 5) },
            if e.bottom_right { Mix::Pick(5) } else { Mix::Interp5(8, 6) },
        ],
        239 => [
            if e.top_left { Mix::Pick(5) } else { Mix::Interp2(5, 2, 4) },
            Mix::Pick(5),
            Mix::Interp3(5, 6),
            Mix::Interp8(5, 6),
            Mix::Pick(5), Mix::Pick(5), Mix::Interp3(5, 6), Mix::Interp8(5, 6),
            Mix::Pick(5), Mix::Pick(5), Mix::Interp3(5, 6), Mix::Interp8(5, 6),
            if e.bottom_left { Mix::Pick(5) } else { Mix::Interp2(5, 8, 4) },
            Mix::Pick(5),
            Mix::Interp3(5, 6),
            Mix::Interp8(5, 6),
        ],
        127 => [
            if e.top_left { Mix::Pick(5) } else { Mix::Interp2(5, 2, 4) },
            Mix::Pick(5),
            if e.top_right { Mix::Pick(5) } else { Mix::Interp5(2, 5) },
            if e.top_right { Mix::Pick(5) } else { Mix::Interp5(2, 6) },
            Mix::Pick(5),
            Mix::Pick(5),
            Mix::Pick(5),
            if e.top_right { Mix::Pick(5) } else { Mix::Interp5(6, 5) },
            if e.bottom_left { Mix::Pick(5) } else { Mix::Interp5(4, 5) },
            Mix::Pick(5),
            Mix::Interp3(5, 9),
            Mix::Interp1(5, 9),
            if e.bottom_left { Mix::Pick(5) } else { Mix::Interp5(8, 4) },
            if e.bottom_left { Mix::Pick(5) } else { Mix::Interp5(8, 5) },
            Mix::Interp1(5, 9),
            Mix::Interp8(5, 9),
        ],
        191 => [
            if e.top_left { Mix::Pick(5) } else { Mix::Interp2(5, 2, 4) },
            Mix::Pick(5),
            Mix::Pick(5),
            if e.top_right { Mix::Pick(5) } else { Mix::Interp2(5, 2, 6) },
            Mix::Pick(5), Mix::Pick(5), Mix::Pick(5), Mix::Pick(5),
            Mix::Interp3(5, 8), Mix::Interp3(5, 8), Mix::Interp3(5, 8), Mix::Interp3(5, 8),
            Mix::Interp8(5, 8), Mix::Interp8(5, 8), Mix::Interp8(5, 8), Mix::Interp8(5, 8),
        ],
        223 => [
            if e.top_left { Mix::Pick(5) } else { Mix::Interp5(2, 4) },
            if e.top_left { Mix::Pick(5) } else { Mix::Interp5(2, 5) },
            Mix::Pick(5),
            if e.top_right { Mix::Pick(5) } else { Mix::Interp2(5, 2, 6) },
            if e.top_left { Mix::Pick(5) } else { Mix::Interp5(4, 5) },
            Mix::Pick(5),
            Mix::Pick(5),
            Mix::Pick(5),
            Mix::Interp1(5, 7),
            Mix::Interp3(5, 7),
            Mix::Pick(5),
            if e.bottom_right { Mix::Pick(5) } else { Mix::Interp5(6, 5) },
            Mix::Interp8(5, 7),
            Mix::Interp1(5, 7),
            if e.bottom_right { Mix::Pick(5) } else { Mix::Interp5(8, 5) },
            if e.bottom_right { Mix::Pick(5) } else { Mix::Interp5(8, 6) },
        ],
        247 => [
            Mix::Interp8(5, 4),
            Mix::Interp3(5, 4),
            Mix::Pick(5),
            if e.top_right { Mix::Pick(5) } else { Mix::Interp2(5, 2, 6) },
            Mix::Interp8(5, 4), Mix::Interp3(5, 4), Mix::Pick(5), Mix::Pick(5),
            Mix::Interp8(5, 4), Mix::Interp3(5, 4), Mix::Pick(5), Mix::Pick(5),
            Mix::Interp8(5, 4),
            Mix::Interp3(5, 4),
            Mix::Pick(5),
            if e.bottom_right { Mix::Pick(5) } else { Mix::Interp2(5, 8, 6) },
        ],
        255 => [
            if e.top_left { Mix::Pick(5) } else { Mix::Interp2(5, 2, 4) },
            Mix::Pick(5),
            Mix::Pick(5),
            if e.top_right { Mix::Pick(5) } else { Mix::Interp2(5, 2, 6) },
            Mix::Pick(5), Mix::Pick(5), Mix::Pick(5), Mix::Pick(5),
            Mix::Pick(5), Mix::Pick(5), Mix::Pick(5), Mix::Pick(5),
            if e.bottom_left { Mix::Pick(5) } else { Mix::Interp2(5, 8, 4) },
            Mix::Pick(5),
            Mix::Pick(5),
            if e.bottom_right { Mix::Pick(5) } else { Mix::Interp2(5, 8, 6) },
        ],
    }
}

/// The hq4x block of pattern `p` and edges `e`, moved by `s`, is the block of the moved
/// neighbourhood.
#[verifier::opaque]
pub open spec fn symmetric_at(s: Symmetry, p: u8, e: Edges) -> bool {
    block4_moves(s, hq4x_spec(p, e), hq4x_spec(sym_pattern(s, p), sym_edges(s, e)))
}

/// `symmetric_at` for the quarter turn and the patterns from 0 to 15.
proof fn turn_0(p: u8, e: Edges)
    requires
        0 <= p < 16,
    ensures
        symmetric_at(Symmetry::Turn, p, e),
{
    reveal(hq4x_spec);
    reveal(symmetric_at);
    lemma_sym_pattern(Symmetry::Turn, p);
    lemma_moved_neighbours(Symmetry::Turn);
    assert(p == 0 || p == 1 || p == 2 || p == 3 || p == 4 || p == 5 || p == 6 || p == 7 || p == 8
        || p == 9 || p == 10 || p == 11 || p == 12 || p == 13 || p == 14 || p == 15);
}

/// `symmetric_at` for the mirror and the patterns from 0 to 15.
proof fn mirror_0(p: u8, e: Edges)
    requires
        0 <= p < 16,
    ensures
        symmetric_at(Symmetry::Mirror, p, e),
{
    reveal(hq4x_spec);
    reveal(symmetric_at);
    lemma_sym_pattern(Symmetry::Mirror, p);
    lemma_moved_neighbours(Symmetry::Mirror);
    assert(p == 0 || p == 1 || p == 2 || p == 3 || p == 4 || p == 5 || p == 6 || p == 7 || p == 8
        || p == 9 || p == 10 || p == 11 || p == 12 || p == 13 || p == 14 || p == 15);
}

/// `symmetric_at` for the quarter turn and the patterns from 16 to 31.
proof fn turn_1(p: u8, e: Edges)
    requires
        16 <= p < 32,
    ensures
        symmetric_at(Symmetry::Turn, p, e),
{
    reveal(hq4x_spec);
    reveal(symmetric_at);
    lemma_sym_pattern(Symmetry::Turn, p);
    lemma_moved_neighbours(Symmetry::Turn);
    assert(p == 16 || p == 17 || p == 18 || p == 19 || p == 20 || p == 21 || p == 22 || p == 23
        || p == 24 || p == 25 || p == 26 || p == 27 || p == 28 || p == 29 || p == 30 || p == 31);
}

/// `symmetric_at` for the mirror and the patterns from 16 to 31.
proof fn mirror_1(p: u8, e: Edges)
    requires
        16 <= p < 32,
    ensures
        symmetric_at(Symmetry::Mirror, p, e),
{
    reveal(hq4x_spec);
    reveal(symmetric_at);
    lemma_sym_pattern(Symmetry::Mirror, p);
    lemma_moved_neighbours(Symmetry::Mirror);
    assert(p == 16 || p == 17 || p == 18 || p == 19 || p == 20 || p == 21 || p == 22 || p == 23
        || p == 24 || p == 25 || p == 26 || p == 27 || p == 28 || p == 29 || p == 30 || p == 31);
}

/// `symmetric_at` for the quarter turn and the patterns from 32 to 47.
proof fn turn_2(p: u8, e: Edges)
    requires
        32 <= p < 48,
    ensures
        symmetric_at(Symmetry::Turn, p, e),
{
    reveal(hq4x_spec);
    reveal(symmetric_at);
    lemma_sym_pattern(Symmetry::Turn, p);
    lemma_moved_neighbours(Symmetry::Turn);
    assert(p == 32 || p == 33 || p == 34 || p == 35 || p == 36 || p == 37 || p == 38 || p == 39
        || p == 40 || p == 41 || p == 42 || p == 43 || p == 44 || p == 45 || p == 46 || p == 47);
}

/// `symmetric_at` for the mirror and the patterns from 32 to 47.
proof fn mirror_2(p: u8, e: Edges)
    requires
        32 <= p < 48,
    ensures
        symmetric_at(Symmetry::Mirror, p, e),
{
    reveal(hq4x_spec);
    reveal(symmetric_at);
    lemma_sym_pattern(Symmetry::Mirror, p);
    lemma_moved_neighbours(Symmetry::Mirror);
    assert(p == 32 || p == 33 || p == 34 || p == 35 || p == 36 || p == 37 || p == 38 || p == 39
        || p == 40 || p == 41 || p == 42 || p == 43 || p == 44 || p == 45 || p == 46 || p == 47);
}

/// `symmetric_at` for the quarter turn and the patterns from 48 to 63.
proof fn turn_3(p: u8, e: Edges)
    requires
        48 <= p < 64,
    ensures
        symmetric_at(Symmetry::Turn, p, e),
{
    reveal(hq4x_spec);
    reveal(symmetric_at);
    lemma_sym_pattern(Symmetry::Turn, p);
    lemma_moved_neighbours(Symmetry::Turn);
    assert(p == 48 || p == 49 || p == 50 || p == 51 || p == 52 || p == 53 || p == 54 || p == 55
        || p == 56 || p == 57 || p == 58 || p == 59 || p == 60 || p == 61 || p == 62 || p == 63);
}

/// `symmetric_at` for the mirror and the patterns from 48 to 63.
proof fn mirror_3(p: u8, e: Edges)
    requires
        48 <= p < 64,
    ensures
        symmetric_at(Symmetry::Mirror, p, e),
{
    reveal(hq4x_spec);
    reveal(symmetric_at);
    lemma_sym_pattern(Symmetry::Mirror, p);
    lemma_moved_neighbours(Symmetry::Mirror);
    assert(p == 48 || p == 49 || p == 50 || p == 51 || p == 52 || p == 53 || p == 54 || p == 55
        || p == 56 || p == 57 || p == 58 || p == 59 || p == 60 || p == 61 || p == 62 || p == 63);
}

/// `symmetric_at` for the quarter turn and the patterns from 64 to 79.
proof fn turn_4(p: u8, e: Edges)
    requires
        64 <= p < 80,
    ensures
        symmetric_at(Symmetry::Turn, p, e),
{
    reveal(hq4x_spec);
    reveal(symmetric_at);
    lemma_sym_pattern(Symmetry::Turn, p);
    lemma_moved_neighbours(Symmetry::Turn);
    assert(p == 64 || p == 65 || p == 66 || p == 67 || p == 68 || p == 69 || p == 70 || p == 71
        || p == 72 || p == 73 || p == 74 || p == 75 || p == 76 || p == 77 || p == 78 || p == 79);
}

/// `symmetric_at` for the mirror and the patterns from 64 to 79.
proof fn mirror_4(p: u8, e: Edges)
    requires
        64 <= p < 80,
    ensures
        symmetric_at(Symmetry::Mirror, p, e),
{
    reveal(hq4x_spec);
    reveal(symmetric_at);
    lemma_sym_pattern(Symmetry::Mirror, p);
    lemma_moved_neighbours(Symmetry::Mirror);
    assert(p == 64 || p == 65 || p == 66 || p == 67 || p == 68 || p == 69 || p == 70 || p == 71
        || p == 72 || p == 73 || p == 74 || p == 75 || p == 76 || p == 77 || p == 78 || p == 79);
}

/// `symmetric_at` for the quarter turn and the patterns from 80 to 95.
proof fn turn_5(p: u8, e: Edges)
    requires
        80 <= p < 96,
    ensures
        symmetric_at(Symmetry::Turn, p, e),
{
    reveal(hq4x_spec);
    reveal(symmetric_at);
    lemma_sym_pattern(Symmetry::Turn, p);
    lemma_moved_neighbours(Symmetry::Turn);
    assert(p == 80 || p == 81 || p == 82 || p == 83 || p == 84 || p == 85 || p == 86 || p == 87
        || p == 88 || p == 89 || p == 90 || p == 91 || p == 92 || p == 93 || p == 94 || p == 95);
}

/// `symmetric_at` for the mirror and the patterns from 80 to 95.
proof fn mirror_5(p: u8, e: Edges)
    requires
        80 <= p < 96,
    ensures
        symmetric_at(Symmetry::Mirror, p, e),
{
    reveal(hq4x_spec);
    reveal(symmetric_at);
    lemma_sym_pattern(Symmetry::Mirror, p);
    lemma_moved_neighbours(Symmetry::Mirror);
    assert(p == 80 || p == 81 || p == 82 || p == 83 || p == 84 || p == 85 || p == 86 || p == 87
        || p == 88 || p == 89 || p == 90 || p == 91 || p == 92 || p == 93 || p == 94 || p == 95);
}

/// `symmetric_at` for the quarter turn and the patterns from 96 to 111.
proof fn turn_6(p: u8, e: Edges)
    requires
        96 <= p < 112,
    ensures
        symmetric_at(Symmetry::Turn, p, e),
{
    reveal(hq4x_spec);
    reveal(symmetric_at);
    lemma_sym_pattern(Symmetry::Turn, p);
    lemma_moved_neighbours(Symmetry::Turn);
    assert(p == 96 || p == 97 || p == 98 || p == 99 || p == 100 || p == 101 || p == 102 || p == 103
        || p == 104 || p == 105 || p == 106 || p == 107 || p == 108 || p == 109 || p == 110
        || p == 111);
}

/// `symmetric_at` for the mirror and the patterns from 96 to 111.
proof fn mirror_6(p: u8, e: Edges)
    requires
        96 <= p < 112,
    ensures
        symmetric_at(Symmetry::Mirror, p, e),
{
    reveal(hq4x_spec);
    reveal(symmetric_at);
    lemma_sym_pattern(Symmetry::Mirror, p);
    lemma_moved_neighbours(Symmetry::Mirror);
    assert(p == 96 || p == 97 || p == 98 || p == 99 || p == 100 || p == 101 || p == 102 || p == 103
        || p == 104 || p == 105 || p == 106 || p == 107 || p == 108 || p == 109 || p == 110
        || p == 111);
}

/// `symmetric_at` for the quarter turn and the patterns from 112 to 127.
proof fn turn_7(p: u8, e: Edges)
    requires
        112 <= p < 128,
    ensures
        symmetric_at(Symmetry::Turn, p, e),
{
    reveal(hq4x_spec);
    reveal(symmetric_at);
    lemma_sym_pattern(Symmetry::Turn, p);
    lemma_moved_neighbours(Symmetry::Turn);
    assert(p == 112 || p == 113 || p == 114 || p == 115 || p == 116 || p == 117 || p == 118
        || p == 119 || p == 120 || p == 121 || p == 122 || p == 123 || p == 124 || p == 125
        || p == 126 || p == 127);
}

/// `symmetric_at` for the mirror and the patterns from 112 to 127.
proof fn mirror_7(p: u8, e: Edges)
    requires
        112 <= p < 128,
    ensures
        symmetric_at(Symmetry::Mirror, p, e),
{
    reveal(hq4x_spec);
    reveal(symmetric_at);
    lemma_sym_pattern(Symmetry::Mirror, p);
    lemma_moved_neighbours(Symmetry::Mirror);
    assert(p == 112 || p == 113 || p == 114 || p == 115 || p == 116 || p == 117 || p == 118
        || p == 119 || p == 120 || p == 121 || p == 122 || p == 123 || p == 124 || p == 125
        || p == 126 || p == 127);
}

/// `symmetric_at` for the quarter turn and the patterns from 128 to 143.
proof fn turn_8(p: u8, e: Edges)
    requires
        128 <= p < 144,
    ensures
        symmetric_at(Symmetry::Turn, p, e),
{
    reveal(hq4x_spec);
    reveal(symmetric_at);
    lemma_sym_pattern(Symmetry::Turn, p);
    lemma_moved_neighbours(Symmetry::Turn);
    assert(p == 128 || p == 129 || p == 130 || p == 131 || p == 132 || p == 133 || p == 134
        || p == 135 || p == 136 || p == 137 || p == 138 || p == 139 || p == 140 || p == 141
        || p == 142 || p == 143);
}

/// `symmetric_at` for the mirror and the patterns from 128 to 143.
proof fn mirror_8(p: u8, e: Edges)
    requires
        128 <= p < 144,
    ensures
        symmetric_at(Symmetry::Mirror, p, e),
{
    reveal(hq4x_spec);
    reveal(symmetric_at);
    lemma_sym_pattern(Symmetry::Mirror, p);
    lemma_moved_neighbours(Symmetry::Mirror);
    assert(p == 128 || p == 129 || p == 130 || p == 131 || p == 132 || p == 133 || p == 134
        || p == 135 || p == 136 || p == 137 || p == 138 || p == 139 || p == 140 || p == 141
        || p == 142 || p == 143);
}

/// `symmetric_at` for the quarter turn and the patterns from 144 to 159.
proof fn turn_9(p: u8, e: Edges)
    requires
        144 <= p < 160,
    ensures
        symmetric_at(Symmetry::Turn, p, e),
{
    reveal(hq4x_spec);
    reveal(symmetric_at);
    lemma_sym_pattern(Symmetry::Turn, p);
    lemma_moved_neighbours(Symmetry::Turn);
    assert(p == 144 || p == 145 || p == 146 || p == 147 || p == 148 || p == 149 || p == 150
        || p == 151 || p == 152 || p == 153 || p == 154 || p == 155 || p == 156 || p == 157
        || p == 158 || p == 159);
}

/// `symmetric_at` for the mirror and the patterns from 144 to 159.
proof fn mirror_9(p: u8, e: Edges)
    requires
        144 <= p < 160,
    ensures
        symmetric_at(Symmetry::Mirror, p, e),
{
    reveal(hq4x_spec);
    reveal(symmetric_at);
    lemma_sym_pattern(Symmetry::Mirror, p);
    lemma_moved_neighbours(Symmetry::Mirror);
    assert(p == 144 || p == 145 || p == 146 || p == 147 || p == 148 || p == 149 || p == 150
        || p == 151 || p == 152 || p == 153 || p == 154 || p == 155 || p == 156 || p == 157
        || p == 158 || p == 159);
}

/// `symmetric_at` for the quarter turn and the patterns from 160 to 175.
proof fn turn_10(p: u8, e: Edges)
    requires
        160 <= p < 176,
    ensures
        symmetric_at(Symmetry::Turn, p, e),
{
    reveal(hq4x_spec);
    reveal(symmetric_at);
    lemma_sym_pattern(Symmetry::Turn, p);
    lemma_moved_neighbours(Symmetry::Turn);
    assert(p == 160 || p == 161 || p == 162 || p == 163 || p == 164 || p == 165 || p == 166
        || p == 167 || p == 168 || p == 169 || p == 170 || p == 171 || p == 172 || p == 173
        || p == 174 || p == 175);
}

/// `symmetric_at` for the mirror and the patterns from 160 to 175.
proof fn mirror_10(p: u8, e: Edges)
    requires
        160 <= p < 176,
    ensures
        symmetric_at(Symmetry::Mirror, p, e),
{
    reveal(hq4x_spec);
    reveal(symmetric_at);
    lemma_sym_pattern(Symmetry::Mirror, p);
    lemma_moved_neighbours(Symmetry::Mirror);
    assert(p == 160 || p == 161 || p == 162 || p == 163 || p == 164 || p == 165 || p == 166
        || p == 167 || p == 168 || p == 169 || p == 170 || p == 171 || p == 172 || p == 173
        || p == 174 || p == 175);
}

/// `symmetric_at` for the quarter turn and the patterns from 176 to 191.
proof fn turn_11(p: u8, e: Edges)
    requires
        176 <= p < 192,
    ensures
        symmetric_at(Symmetry::Turn, p, e),
{
    reveal(hq4x_spec);
    reveal(symmetric_at);
    lemma_sym_pattern(Symmetry::Turn, p);
    lemma_moved_neighbours(Symmetry::Turn);
    assert(p == 176 || p == 177 || p == 178 || p == 179 || p == 180 || p == 181 || p == 182
        || p == 183 || p == 184 || p == 185 || p == 186 || p == 187 || p == 188 || p == 189
        || p == 190 || p == 191);
}

/// `symmetric_at` for the mirror and the patterns from 176 to 191.
proof fn mirror_11(p: u8, e: Edges)
    requires
        176 <= p < 192,
    ensures
        symmetric_at(Symmetry::Mirror, p, e),
{
    reveal(hq4x_spec);
    reveal(symmetric_at);
    lemma_sym_pattern(Symmetry::Mirror, p);
    lemma_moved_neighbours(Symmetry::Mirror);
    assert(p == 176 || p == 177 || p == 178 || p == 179 || p == 180 || p == 181 || p == 182
        || p == 183 || p == 184 || p == 185 || p == 186 || p == 187 || p == 188 || p == 189
        || p == 190 || p == 191);
}

/// `symmetric_at` for the quarter turn and the patterns from 192 to 207.
proof fn turn_12(p: u8, e: Edges)
    requires
        192 <= p < 208,
    ensures
        symmetric_at(Symmetry::Turn, p, e),
{
    reveal(hq4x_spec);
    reveal(symmetric_at);
    lemma_sym_pattern(Symmetry::Turn, p);
    lemma_moved_neighbours(Symmetry::Turn);
    assert(p == 192 || p == 193 || p == 194 || p == 195 || p == 196 || p == 197 || p == 198
        || p == 199 || p == 200 || p == 201 || p == 202 || p == 203 || p == 204 || p == 205
        || p == 206 || p == 207);
}

/// `symmetric_at` for the mirror and the patterns from 192 to 207.
proof fn mirror_12(p: u8, e: Edges)
    requires
        192 <= p < 208,
    ensures
        symmetric_at(Symmetry::Mirror, p, e),
{
    reveal(hq4x_spec);
    reveal(symmetric_at);
    lemma_sym_pattern(Symmetry::Mirror, p);
    lemma_moved_neighbours(Symmetry::Mirror);
    assert(p == 192 || p == 193 || p == 194 || p == 195 || p == 196 || p == 197 || p == 198
        || p == 199 || p == 200 || p == 201 || p == 202 || p == 203 || p == 204 || p == 205
        || p == 206 || p == 207);
}

/// `symmetric_at` for the quarter turn and the patterns from 208 to 223.
proof fn turn_13(p: u8, e: Edges)
    requires
        208 <= p < 224,
    ensures
        symmetric_at(Symmetry::Turn, p, e),
{
    reveal(hq4x_spec);
    reveal(symmetric_at);
    lemma_sym_pattern(Symmetry::Turn, p);
    lemma_moved_neighbours(Symmetry::Turn);
    assert(p == 208 || p == 209 || p == 210 || p == 211 || p == 212 || p == 213 || p == 214
        || p == 215 || p == 216 || p == 217 || p == 218 || p == 219 || p == 220 || p == 221
        || p == 222 || p == 223);
}

/// `symmetric_at` for the mirror and the patterns from 208 to 223.
proof fn mirror_13(p: u8, e: Edges)
    requires
        208 <= p < 224,
    ensures
        symmetric_at(Symmetry::Mirror, p, e),
{
    reveal(hq4x_spec);
    reveal(symmetric_at);
    lemma_sym_pattern(Symmetry::Mirror, p);
    lemma_moved_neighbours(Symmetry::Mirror);
    assert(p == 208 || p == 209 || p == 210 || p == 211 || p == 212 || p == 213 || p == 214
        || p == 215 || p == 216 || p == 217 || p == 218 || p == 219 || p == 220 || p == 221
        || p == 222 || p == 223);
}

/// `symmetric_at` for the quarter turn and the patterns from 224 to 239.
proof fn turn_14(p: u8, e: Edges)
    requires
        224 <= p < 240,
    ensures
        symmetric_at(Symmetry::Turn, p, e),
{
    reveal(hq4x_spec);
    reveal(symmetric_at);
    lemma_sym_pattern(Symmetry::Turn, p);
    lemma_moved_neighbours(Symmetry::Turn);
    assert(p == 224 || p == 225 || p == 226 || p == 227 || p == 228 || p == 229 || p == 230
        || p == 231 || p == 232 || p == 233 || p == 234 || p == 235 || p == 236 || p == 237
        || p == 238 || p == 239);
}

/// `symmetric_at` for the mirror and the patterns from 224 to 239.
proof fn mirror_14(p: u8, e: Edges)
    requires
        224 <= p < 240,
    ensures
        symmetric_at(Symmetry::Mirror, p, e),
{
    reveal(hq4x_spec);
    reveal(symmetric_at);
    lemma_sym_pattern(Symmetry::Mirror, p);
    lemma_moved_neighbours(Symmetry::Mirror);
    assert(p == 224 || p == 225 || p == 226 || p == 227 || p == 228 || p == 229 || p == 230
        || p == 231 || p == 232 || p == 233 || p == 234 || p == 235 || p == 236 || p == 237
        || p == 238 || p == 239);
}

/// `symmetric_at` for the quarter turn and the patterns from 240 to 255.
proof fn turn_15(p: u8, e: Edges)
    requires
        240 <= p < 256,
    ensures
        symmetric_at(Symmetry::Turn, p, e),
{
    reveal(hq4x_spec);
    reveal(symmetric_at);
    lemma_sym_pattern(Symmetry::Turn, p);
    lemma_moved_neighbours(Symmetry::Turn);
    assert(p == 240 || p == 241 || p == 242 || p == 243 || p == 244 || p == 245 || p == 246
        || p == 247 || p == 248 || p == 249 || p == 250 || p == 251 || p == 252 || p == 253
        || p == 254 || p == 255);
}

/// `symmetric_at` for the mirror and the patterns from 240 to 255.
proof fn mirror_15(p: u8, e: Edges)
    requires
        240 <= p < 256,
    ensures
        symmetric_at(Symmetry::Mirror, p, e),
{
    reveal(hq4x_spec);
    reveal(symmetric_at);
    lemma_sym_pattern(Symmetry::Mirror, p);
    lemma_moved_neighbours(Symmetry::Mirror);
    assert(p == 240 || p == 241 || p == 242 || p == 243 || p == 244 || p == 245 || p == 246
        || p == 247 || p == 248 || p == 249 || p == 250 || p == 251 || p == 252 || p == 253
        || p == 254 || p == 255);
}

/// Every pattern passes `symmetric_at`.
proof fn symmetric_everywhere(s: Symmetry, p: u8, e: Edges)
    ensures
        symmetric_at(s, p, e),
{
    match s {
        Symmetry::Turn => {
            if p < 16 {
                turn_0(p, e);
            } else if p < 32 {
                turn_1(p, e);
            } else if p < 48 {
                turn_2(p, e);
            } else if p < 64 {
                turn_3(p, e);
            } else if p < 80 {
                turn_4(p, e);
            } else if p < 96 {
                turn_5(p, e);
            } else if p < 112 {
                turn_6(p, e);
            } else if p < 128 {
                turn_7(p, e);
            } else if p < 144 {
                turn_8(p, e);
            } else if p < 160 {
                turn_9(p, e);
            } else if p < 176 {
                turn_10(p, e);
            } else if p < 192 {
                turn_11(p, e);
            } else if p < 208 {
                turn_12(p, e);
            } else if p < 224 {
                turn_13(p, e);
            } else if p < 240 {
                turn_14(p, e);
            } else {
                turn_15(p, e);
            }
        },
        Symmetry::Mirror => {
            if p < 16 {
                mirror_0(p, e);
            } else if p < 32 {
                mirror_1(p, e);
            } else if p < 48 {
                mirror_2(p, e);
            } else if p < 64 {
                mirror_3(p, e);
            } else if p < 80 {
                mirror_4(p, e);
            } else if p < 96 {
                mirror_5(p, e);
            } else if p < 112 {
                mirror_6(p, e);
            } else if p < 128 {
                mirror_7(p, e);
            } else if p < 144 {
                mirror_8(p, e);
            } else if p < 160 {
                mirror_9(p, e);
            } else if p < 176 {
                mirror_10(p, e);
            } else if p < 192 {
                mirror_11(p, e);
            } else if p < 208 {
                mirror_12(p, e);
            } else if p < 224 {
                mirror_13(p, e);
            } else if p < 240 {
                mirror_14(p, e);
            } else {
                mirror_15(p, e);
            }
        },
    }
}

/// hq4x treats all directions alike: where the neighbourhood of a source pixel is turned a
/// quarter clockwise, or mirrored across its diagonal, each pixel of its block moves with it and
/// blends the moved neighbours with the same weights.
pub proof fn lemma_hq4x_symmetric(s: Symmetry, p: u8, e: Edges)
    ensures
        forall|i: int, k: int|
            0 <= i < 16 && 1 <= k <= 9 ==> weight(
                hq4x_spec(sym_pattern(s, p), sym_edges(s, e))[moved(s, 4, i)],
                moved_neighbour(s, k),
            ) == #[trigger] weight(hq4x_spec(p, e)[i], k),
{
    symmetric_everywhere(s, p, e);
    reveal(symmetric_at);
    let t1 = hq4x_spec(p, e);
    let t2 = hq4x_spec(sym_pattern(s, p), sym_edges(s, e));
    assert forall|i: int, k: int| 0 <= i < 16 && 1 <= k <= 9 implies weight(
        t2[moved(s, 4, i)],
        moved_neighbour(s, k),
    ) == #[trigger] weight(t1[i], k) by {
        assert(i == 0 || i == 1 || i == 2 || i == 3 || i == 4 || i == 5 || i == 6 || i == 7 || i == 8
            || i == 9 || i == 10 || i == 11 || i == 12 || i == 13 || i == 14 || i == 15);
        lemma_moves_to_weight(s, t1[i], t2[moved(s, 4, i)], k);
    }
}

/// Every pixel of every hq4x block is a weighted mean of the neighbourhood of its source pixel:
/// it names only the nine neighbours, with weights that are not negative and sum to one.
pub proof fn lemma_hq4x_means(p: u8, e: Edges)
    ensures
        forall|i: int|
            0 <= i < 16 ==> valid_mix(#[trigger] hq4x_spec(p, e)[i]) && total_weight(hq4x_spec(p, e)[i]) == 16,
{
    symmetric_everywhere(Symmetry::Turn, p, e);
    reveal(symmetric_at);
    assert forall|i: int| 0 <= i < 16 implies valid_mix(#[trigger] hq4x_spec(p, e)[i]) && total_weight(
        hq4x_spec(p, e)[i],
    ) == 16 by {
        assert(i == 0 || i == 1 || i == 2 || i == 3 || i == 4 || i == 5 || i == 6 || i == 7 || i == 8 || i == 9 || i == 10 || i == 11 || i == 12 || i == 13 || i == 14 || i == 15);
        lemma_mix_is_mean(hq4x_spec(p, e)[i]);
    }
}

/// `corner_follows_edges` for the four corners and the patterns from 0 to 15.
proof fn corners_0(p: u8, e: Edges)
    requires
        0 <= p < 16,
    ensures
        corner_follows_edges(hq4x_spec(p, e)[0], p, 2, 4, e.top_left),
        corner_follows_edges(hq4x_spec(p, e)[3], p, 2, 6, e.top_right),
        corner_follows_edges(hq4x_spec(p, e)[12], p, 8, 4, e.bottom_left),
        corner_follows_edges(hq4x_spec(p, e)[15], p, 6, 8, e.bottom_right),
{
    reveal(hq4x_spec);
    assert(p == 0 || p == 1 || p == 2 || p == 3 || p == 4 || p == 5 || p == 6 || p == 7 || p == 8 || p == 9 || p == 10 || p == 11 || p == 12 || p == 13 || p == 14 || p == 15);
}

/// `corner_follows_edges` for the four corners and the patterns from 16 to 31.
proof fn corners_1(p: u8, e: Edges)
    requires
        16 <= p < 32,
    ensures
        corner_follows_edges(hq4x_spec(p, e)[0], p, 2, 4, e.top_left),
        corner_follows_edges(hq4x_spec(p, e)[3], p, 2, 6, e.top_right),
        corner_follows_edges(hq4x_spec(p, e)[12], p, 8, 4, e.bottom_left),
        corner_follows_edges(hq4x_spec(p, e)[15], p, 6, 8, e.bottom_right),
{
    reveal(hq4x_spec);
    assert(p == 16 || p == 17 || p == 18 || p == 19 || p == 20 || p == 21 || p == 22 || p == 23 || p == 24 || p == 25 || p == 26 || p == 27 || p == 28 || p == 29 || p == 30 || p == 31);
}

/// `corner_follows_edges` for the four corners and the patterns from 32 to 47.
proof fn corners_2(p: u8, e: Edges)
    requires
        32 <= p < 48,
    ensures
        corner_follows_edges(hq4x_spec(p, e)[0], p, 2, 4, e.top_left),
        corner_follows_edges(hq4x_spec(p, e)[3], p, 2, 6, e.top_right),
        corner_follows_edges(hq4x_spec(p, e)[12], p, 8, 4, e.bottom_left),
        corner_follows_edges(hq4x_spec(p, e)[15], p, 6, 8, e.bottom_right),
{
    reveal(hq4x_spec);
    assert(p == 32 || p == 33 || p == 34 || p == 35 || p == 36 || p == 37 || p == 38 || p == 39 || p == 40 || p == 41 || p == 42 || p == 43 || p == 44 || p == 45 || p == 46 || p == 47);
}

/// `corner_follows_edges` for the four corners and the patterns from 48 to 63.
proof fn corners_3(p: u8, e: Edges)
    requires
        48 <= p < 64,
    ensures
        corner_follows_edges(hq4x_spec(p, e)[0], p, 2, 4, e.top_left),
        corner_follows_edges(hq4x_spec(p, e)[3], p, 2, 6, e.top_right),
        corner_follows_edges(hq4x_spec(p, e)[12], p, 8, 4, e.bottom_left),
        corner_follows_edges(hq4x_spec(p, e)[15], p, 6, 8, e.bottom_right),
{
    reveal(hq4x_spec);
    assert(p == 48 || p == 49 || p == 50 || p == 51 || p == 52 || p == 53 || p == 54 || p == 55 || p == 56 || p == 57 || p == 58 || p == 59 || p == 60 || p == 61 || p == 62 || p == 63);
}

/// `corner_follows_edges` for the four corners and the patterns from 64 to 79.
proof fn corners_4(p: u8, e: Edges)
    requires
        64 <= p < 80,
    ensures
        corner_follows_edges(hq4x_spec(p, e)[0], p, 2, 4, e.top_left),
        corner_follows_edges(hq4x_spec(p, e)[3], p, 2, 6, e.top_right),
        corner_follows_edges(hq4x_spec(p, e)[12], p, 8, 4, e.bottom_left),
        corner_follows_edges(hq4x_spec(p, e)[15], p, 6, 8, e.bottom_right),
{
    reveal(hq4x_spec);
    assert(p == 64 || p == 65 || p == 66 || p == 67 || p == 68 || p == 69 || p == 70 || p == 71 || p == 72 || p == 73 || p == 74 || p == 75 || p == 76 || p == 77 || p == 78 || p == 79);
}

/// `corner_follows_edges` for the four corners and the patterns from 80 to 95.
proof fn corners_5(p: u8, e: Edges)
    requires
        80 <= p < 96,
    ensures
        corner_follows_edges(hq4x_spec(p, e)[0], p, 2, 4, e.top_left),
        corner_follows_edges(hq4x_spec(p, e)[3], p, 2, 6, e.top_right),
        corner_follows_edges(hq4x_spec(p, e)[12], p, 8, 4, e.bottom_left),
        corner_follows_edges(hq4x_spec(p, e)[15], p, 6, 8, e.bottom_right),
{
    reveal(hq4x_spec);
    assert(p == 80 || p == 81 || p == 82 || p == 83 || p == 84 || p == 85 || p == 86 || p == 87 || p == 88 || p == 89 || p == 90 || p == 91 || p == 92 || p == 93 || p == 94 || p == 95);
}

/// `corner_follows_edges` for the four corners and the patterns from 96 to 111.
proof fn corners_6(p: u8, e: Edges)
    requires
        96 <= p < 112,
    ensures
        corner_follows_edges(hq4x_spec(p, e)[0], p, 2, 4, e.top_left),
        corner_follows_edges(hq4x_spec(p, e)[3], p, 2, 6, e.top_right),
        corner_follows_edges(hq4x_spec(p, e)[12], p, 8, 4, e.bottom_left),
        corner_follows_edges(hq4x_spec(p, e)[15], p, 6, 8, e.bottom_right),
{
    reveal(hq4x_spec);
    assert(p == 96 || p == 97 || p == 98 || p == 99 || p == 100 || p == 101 || p == 102 || p == 103 || p == 104 || p == 105 || p == 106 || p == 107 || p == 108 || p == 109 || p == 110 || p == 111);
}

/// `corner_follows_edges` for the four corners and the patterns from 112 to 127.
proof fn corners_7(p: u8, e: Edges)
    requires
        112 <= p < 128,
    ensures
        corner_follows_edges(hq4x_spec(p, e)[0], p, 2, 4, e.top_left),
        corner_follows_edges(hq4x_spec(p, e)[3], p, 2, 6, e.top_right),
        corner_follows_edges(hq4x_spec(p, e)[12], p, 8, 4, e.bottom_left),
        corner_follows_edges(hq4x_spec(p, e)[15], p, 6, 8, e.bottom_right),
{
    reveal(hq4x_spec);
    assert(p == 112 || p == 113 || p == 114 || p == 115 || p == 116 || p == 117 || p == 118 || p == 119 || p == 120 || p == 121 || p == 122 || p == 123 || p == 124 || p == 125 || p == 126 || p == 127);
}

/// `corner_follows_edges` for the four corners and the patterns from 128 to 143.
proof fn corners_8(p: u8, e: Edges)
    requires
        128 <= p < 144,
    ensures
        corner_follows_edges(hq4x_spec(p, e)[0], p, 2, 4, e.top_left),
        corner_follows_edges(hq4x_spec(p, e)[3], p, 2, 6, e.top_right),
        corner_follows_edges(hq4x_spec(p, e)[12], p, 8, 4, e.bottom_left),
        corner_follows_edges(hq4x_spec(p, e)[15], p, 6, 8, e.bottom_right),
{
    reveal(hq4x_spec);
    assert(p == 128 || p == 129 || p == 130 || p == 131 || p == 132 || p == 133 || p == 134 || p == 135 || p == 136 || p == 137 || p == 138 || p == 139 || p == 140 || p == 141 || p == 142 || p == 143);
}

/// `corner_follows_edges` for the four corners and the patterns from 144 to 159.
proof fn corners_9(p: u8, e: Edges)
    requires
        144 <= p < 160,
    ensures
        corner_follows_edges(hq4x_spec(p, e)[0], p, 2, 4, e.top_left),
        corner_follows_edges(hq4x_spec(p, e)[3], p, 2, 6, e.top_right),
        corner_follows_edges(hq4x_spec(p, e)[12], p, 8, 4, e.bottom_left),
        corner_follows_edges(hq4x_spec(p, e)[15], p, 6, 8, e.bottom_right),
{
    reveal(hq4x_spec);
    assert(p == 144 || p == 145 || p == 146 || p == 147 || p == 148 || p == 149 || p == 150 || p == 151 || p == 152 || p == 153 || p == 154 || p == 155 || p == 156 || p == 157 || p == 158 || p == 159);
}

/// `corner_follows_edges` for the four corners and the patterns from 160 to 175.
proof fn corners_10(p: u8, e: Edges)
    requires
        160 <= p < 176,
    ensures
        corner_follows_edges(hq4x_spec(p, e)[0], p, 2, 4, e.top_left),
        corner_follows_edges(hq4x_spec(p, e)[3], p, 2, 6, e.top_right),
        corner_follows_edges(hq4x_spec(p, e)[12], p, 8, 4, e.bottom_left),
        corner_follows_edges(hq4x_spec(p, e)[15], p, 6, 8, e.bottom_right),
{
    reveal(hq4x_spec);
    assert(p == 160 || p == 161 || p == 162 || p == 163 || p == 164 || p == 165 || p == 166 || p == 167 || p == 168 || p == 169 || p == 170 || p == 171 || p == 172 || p == 173 || p == 174 || p == 175);
}

/// `corner_follows_edges` for the four corners and the patterns from 176 to 191.
proof fn corners_11(p: u8, e: Edges)
    requires
        176 <= p < 192,
    ensures
        corner_follows_edges(hq4x_spec(p, e)[0], p, 2, 4, e.top_left),
        corner_follows_edges(hq4x_spec(p, e)[3], p, 2, 6, e.top_right),
        corner_follows_edges(hq4x_spec(p, e)[12], p, 8, 4, e.bottom_left),
        corner_follows_edges(hq4x_spec(p, e)[15], p, 6, 8, e.bottom_right),
{
    reveal(hq4x_spec);
    assert(p == 176 || p == 177 || p == 178 || p == 179 || p == 180 || p == 181 || p == 182 || p == 183 || p == 184 || p == 185 || p == 186 || p == 187 || p == 188 || p == 189 || p == 190 || p == 191);
}

/// `corner_follows_edges` for the four corners and the patterns from 192 to 207.
proof fn corners_12(p: u8, e: Edges)
    requires
        192 <= p < 208,
    ensures
        corner_follows_edges(hq4x_spec(p, e)[0], p, 2, 4, e.top_left),
        corner_follows_edges(hq4x_spec(p, e)[3], p, 2, 6, e.top_right),
        corner_follows_edges(hq4x_spec(p, e)[12], p, 8, 4, e.bottom_left),
        corner_follows_edges(hq4x_spec(p, e)[15], p, 6, 8, e.bottom_right),
{
    reveal(hq4x_spec);
    assert(p == 192 || p == 193 || p == 194 || p == 195 || p == 196 || p == 197 || p == 198 || p == 199 || p == 200 || p == 201 || p == 202 || p == 203 || p == 204 || p == 205 || p == 206 || p == 207);
}

/// `corner_follows_edges` for the four corners and the patterns from 208 to 223.
proof fn corners_13(p: u8, e: Edges)
    requires
        208 <= p < 224,
    ensures
        corner_follows_edges(hq4x_spec(p, e)[0], p, 2, 4, e.top_left),
        corner_follows_edges(hq4x_spec(p, e)[3], p, 2, 6, e.top_right),
        corner_follows_edges(hq4x_spec(p, e)[12], p, 8, 4, e.bottom_left),
        corner_follows_edges(hq4x_spec(p, e)[15], p, 6, 8, e.bottom_right),
{
    reveal(hq4x_spec);
    assert(p == 208 || p == 209 || p == 210 || p == 211 || p == 212 || p == 213 || p == 214 || p == 215 || p == 216 || p == 217 || p == 218 || p == 219 || p == 220 || p == 221 || p == 222 || p == 223);
}

/// `corner_follows_edges` for the four corners and the patterns from 224 to 239.
proof fn corners_14(p: u8, e: Edges)
    requires
        224 <= p < 240,
    ensures
        corner_follows_edges(hq4x_spec(p, e)[0], p, 2, 4, e.top_left),
        corner_follows_edges(hq4x_spec(p, e)[3], p, 2, 6, e.top_right),
        corner_follows_edges(hq4x_spec(p, e)[12], p, 8, 4, e.bottom_left),
        corner_follows_edges(hq4x_spec(p, e)[15], p, 6, 8, e.bottom_right),
{
    reveal(hq4x_spec);
    assert(p == 224 || p == 225 || p == 226 || p == 227 || p == 228 || p == 229 || p == 230 || p == 231 || p == 232 || p == 233 || p == 234 || p == 235 || p == 236 || p == 237 || p == 238 || p == 239);
}

/// `corner_follows_edges` for the four corners and the patterns from 240 to 255.
proof fn corners_15(p: u8, e: Edges)
    requires
        240 <= p < 256,
    ensures
        corner_follows_edges(hq4x_spec(p, e)[0], p, 2, 4, e.top_left),
        corner_follows_edges(hq4x_spec(p, e)[3], p, 2, 6, e.top_right),
        corner_follows_edges(hq4x_spec(p, e)[12], p, 8, 4, e.bottom_left),
        corner_follows_edges(hq4x_spec(p, e)[15], p, 6, 8, e.bottom_right),
{
    reveal(hq4x_spec);
    assert(p == 240 || p == 241 || p == 242 || p == 243 || p == 244 || p == 245 || p == 246 || p == 247 || p == 248 || p == 249 || p == 250 || p == 251 || p == 252 || p == 253 || p == 254 || p == 255);
}

/// The corners of every hq4x block follow the edge neighbours beside them (see
/// `corner_follows_edges`): each corner blends in the two edge neighbours next to it where they
/// look like the source pixel, leaves them out where they differ from it and from each other,
/// and blends them in where they differ from the source pixel alike, on an otherwise plain
/// diagonal neighbourhood.
pub proof fn lemma_hq4x_corners(p: u8, e: Edges)
    ensures
        corner_follows_edges(hq4x_spec(p, e)[0], p, 2, 4, e.top_left),
        corner_follows_edges(hq4x_spec(p, e)[3], p, 2, 6, e.top_right),
        corner_follows_edges(hq4x_spec(p, e)[12], p, 8, 4, e.bottom_left),
        corner_follows_edges(hq4x_spec(p, e)[15], p, 6, 8, e.bottom_right),
{
    if p < 16 {
        corners_0(p, e);
    } else if p < 32 {
        corners_1(p, e);
    } else if p < 48 {
        corners_2(p, e);
    } else if p < 64 {
        corners_3(p, e);
    } else if p < 80 {
        corners_4(p, e);
    } else if p < 96 {
        corners_5(p, e);
    } else if p < 112 {
        corners_6(p, e);
    } else if p < 128 {
        corners_7(p, e);
    } else if p < 144 {
        corners_8(p, e);
    } else if p < 160 {
        corners_9(p, e);
    } else if p < 176 {
        corners_10(p, e);
    } else if p < 192 {
        corners_11(p, e);
    } else if p < 208 {
        corners_12(p, e);
    } else if p < 224 {
        corners_13(p, e);
    } else if p < 240 {
        corners_14(p, e);
    } else {
        corners_15(p, e);
    }
}

} // verus!
