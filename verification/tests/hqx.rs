use chainner_ext::pixel_art::hqx::hq3x::hq3x_rule;
use chainner_ext::pixel_art::hqx::hq4x::hq4x_rule;
use chainner_ext::pixel_art::hqx::Mix::{
    Interp1, Interp2, Interp3, Interp4, Interp5, Interp6, Interp7, Interp8, Pick,
};
use chainner_ext::pixel_art::hqx::{neighbour_pattern, Edges, Mix};

fn edges(bits: u8) -> Edges {
    Edges {
        top_right: bits & 1 != 0,
        bottom_right: bits & 2 != 0,
        bottom_left: bits & 4 != 0,
        top_left: bits & 8 != 0,
    }
}

/// The weights, in sixteenths, that `m` gives to `w[0..=9]`.
fn weights(m: Mix) -> [i32; 10] {
    let mut w = [0; 10];
    let mut add = |i: u8, c: i32| w[i as usize] += c;
    match m {
        Mix::Pick(a) => add(a, 16),
        Mix::Interp1(a, b) => {
            add(a, 12);
            add(b, 4)
        }
        Mix::Interp2(a, b, c) => {
            add(a, 8);
            add(b, 4);
            add(c, 4)
        }
        Mix::Interp3(a, b) => {
            add(a, 14);
            add(b, 2)
        }
        Mix::Interp4(a, b, c) => {
            add(a, 2);
            add(b, 7);
            add(c, 7)
        }
        Mix::Interp5(a, b) => {
            add(a, 8);
            add(b, 8)
        }
        Mix::Interp6(a, b, c) => {
            add(a, 10);
            add(b, 4);
            add(c, 2)
        }
        Mix::Interp7(a, b, c) => {
            add(a, 12);
            add(b, 2);
            add(c, 2)
        }
        Mix::Interp8(a, b) => {
            add(a, 10);
            add(b, 6)
        }
    }
    w
}

/// Where a quarter turn clockwise (`turn`) or the mirror across the main diagonal moves cell
/// `i` of an `n` x `n` grid.
fn moved(turn: bool, n: usize, i: usize) -> usize {
    let (r, c) = (i / n, i % n);
    if turn {
        c * n + (n - 1 - r)
    } else {
        c * n + r
    }
}

const ORDER: [usize; 8] = [1, 2, 3, 4, 6, 7, 8, 9];

fn moved_pattern(turn: bool, p: u8) -> u8 {
    let mut r = 0;
    for (j, k) in ORDER.iter().enumerate() {
        if p & (1 << j) != 0 {
            let k2 = moved(turn, 3, k - 1) + 1;
            r |= 1 << ORDER.iter().position(|x| *x == k2).unwrap();
        }
    }
    r
}

fn moved_edges(turn: bool, e: Edges) -> Edges {
    if turn {
        Edges { top_right: e.top_left, bottom_right: e.top_right, bottom_left: e.bottom_right, top_left: e.bottom_left }
    } else {
        Edges { top_right: e.bottom_left, bottom_right: e.bottom_right, bottom_left: e.top_right, top_left: e.top_left }
    }
}

fn check_symmetric(n: usize, rule: impl Fn(u8, Edges) -> Vec<Mix>) {
    for turn in [true, false] {
        for p in 0..=255u8 {
            for bits in 0..16 {
                let e = edges(bits);
                let t1 = rule(p, e);
                let t2 = rule(moved_pattern(turn, p), moved_edges(turn, e));
                for i in 0..n * n {
                    let w1 = weights(t1[i]);
                    let w2 = weights(t2[moved(turn, n, i)]);
                    for k in 1..=9 {
                        assert_eq!(w2[moved(turn, 3, k - 1) + 1], w1[k], "pattern {p}, edges {bits}, cell {i}");
                    }
                    assert_eq!(w1.iter().sum::<i32>(), 16);
                }
            }
        }
    }
}

#[test]
fn neighbour_pattern_bits() {
    assert_eq!(neighbour_pattern([false; 8]), 0);
    assert_eq!(neighbour_pattern([true; 8]), 255);
    assert_eq!(neighbour_pattern([true, false, false, false, false, false, false, false]), 1);
    assert_eq!(neighbour_pattern([false, true, false, false, true, false, false, false]), 18);
    assert_eq!(neighbour_pattern([false, false, false, false, false, false, false, true]), 128);
}

#[test]
fn hq3x_rule_uniform_neighbourhood() {
    assert_eq!(
        hq3x_rule(0, edges(0)),
        [
            Interp2(5, 4, 2), Interp1(5, 2), Interp2(5, 2, 6),
            Interp1(5, 4), Pick(5), Interp1(5, 6),
            Interp2(5, 8, 4), Interp1(5, 8), Interp2(5, 6, 8),
        ]
    );
}

#[test]
fn hq3x_rule_follows_edges() {
    // Pattern 18: w[2] and w[6] differ from the centre.
    assert_eq!(
        hq3x_rule(18, edges(1)),
        [
            Interp1(5, 1), Pick(5), Interp1(5, 3),
            Interp1(5, 4), Pick(5), Pick(5),
            Interp2(5, 8, 4), Interp1(5, 8), Interp1(5, 9),
        ]
    );
    assert_eq!(
        hq3x_rule(18, edges(0)),
        [
            Interp1(5, 1), Interp3(5, 2), Interp4(5, 2, 6),
            Interp1(5, 4), Pick(5), Interp3(5, 6),
            Interp2(5, 8, 4), Interp1(5, 8), Interp1(5, 9),
        ]
    );
    assert_eq!(hq3x_rule(255, edges(15)), [Pick(5); 9]);
}

#[test]
fn hq4x_rule_examples() {
    assert_eq!(
        hq4x_rule(0, edges(0)),
        [
            Interp2(5, 2, 4), Interp6(5, 2, 4), Interp6(5, 2, 6), Interp2(5, 2, 6),
            Interp6(5, 4, 2), Interp7(5, 4, 2), Interp7(5, 6, 2), Interp6(5, 6, 2),
            Interp6(5, 4, 8), Interp7(5, 4, 8), Interp7(5, 6, 8), Interp6(5, 6, 8),
            Interp2(5, 8, 4), Interp6(5, 8, 4), Interp6(5, 8, 6), Interp2(5, 8, 6),
        ]
    );
    assert_eq!(
        hq4x_rule(18, edges(0)),
        [
            Interp8(5, 1), Interp1(5, 1), Interp5(2, 5), Interp5(2, 6),
            Interp6(5, 4, 1), Interp3(5, 1), Pick(5), Interp5(6, 5),
            Interp6(5, 4, 8), Interp7(5, 4, 8), Interp3(5, 9), Interp1(5, 9),
            Interp2(5, 8, 4), Interp6(5, 8, 4), Interp6(5, 8, 9), Interp8(5, 9),
        ]
    );
    assert_eq!(hq4x_rule(255, edges(15)), [Pick(5); 16]);
}

#[test]
fn hq3x_rule_turned_neighbourhood() {
    // w[2] differs; turned a quarter clockwise, w[6] differs instead.
    let t1 = hq3x_rule(2, edges(0));
    let t2 = hq3x_rule(16, edges(0));
    assert_eq!(weights(t2[2]), {
        let mut w = [0; 10];
        w[5] = 12;
        w[3] = 4;
        w
    });
    assert_eq!(weights(t1[0])[1], 4);
}

#[test]
fn hq3x_rules_are_symmetric() {
    check_symmetric(3, |p, e| hq3x_rule(p, e).to_vec());
}

#[test]
fn hq4x_rules_are_symmetric() {
    check_symmetric(4, |p, e| hq4x_rule(p, e).to_vec());
}

#[test]
fn hq3x_centre_is_the_source_pixel() {
    for p in 0..=255u8 {
        for bits in 0..16 {
            assert_eq!(hq3x_rule(p, edges(bits))[4], Pick(5));
        }
    }
}
