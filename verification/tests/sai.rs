use std::ops::{Add, Mul};

use chainner_ext::pixel_art::sai::{
    comparisons, get_result_1, get_result_2, sai_2x_rule, super_eagle_2x_rule, super_sai_2x_rule,
    Blend,
};

/// A pixel whose color decides the comparisons, carrying the weights with which it blends
/// the 16 neighbours.
#[derive(Clone, Copy, Debug)]
struct Px {
    color: u8,
    w: [f64; 16],
}

impl PartialEq for Px {
    fn eq(&self, other: &Self) -> bool {
        self.color == other.color
    }
}
impl Add for Px {
    type Output = Px;
    fn add(self, o: Px) -> Px {
        let mut w = self.w;
        for i in 0..16 {
            w[i] += o.w[i];
        }
        Px { color: 0, w }
    }
}
impl Mul<f32> for Px {
    type Output = Px;
    fn mul(self, f: f32) -> Px {
        let mut w = self.w;
        for x in w.iter_mut() {
            *x *= f as f64;
        }
        Px { color: 0, w }
    }
}

fn avg2<T: Add<T, Output = T> + Mul<f32, Output = T>>(a: T, b: T) -> T {
    (a + b) * 0.5
}
fn avg4<T: Add<T, Output = T> + Mul<f32, Output = T>>(a: T, b: T, c: T, d: T) -> T {
    (a + b + c + d) * 0.25
}

fn apply(b: Blend, n: &[Px; 16]) -> [f64; 16] {
    let at = |i: u8| n[i as usize];
    match b {
        Blend::Pick(a) => at(a),
        Blend::Avg2(a, b) => avg2(at(a), at(b)),
        Blend::Avg4(a, b, c, d) => avg4(at(a), at(b), at(c), at(d)),
        Blend::Avg2Of(a, b, c) => avg2(at(a), avg2(at(b), at(c))),
        Blend::Avg4Of(a, b, c) => avg4(at(a), at(a), at(a), avg2(at(b), at(c))),
    }
    .w
}

/// The block of sai_2x, computed as the algorithm's reference code does.
#[allow(clippy::all, unused_variables, unused_assignments)]
fn reference_sai_2x(n: &[Px; 16]) -> [Px; 4] {

            // I E F J
            // G A B K
            // H C D L
            // M N O P
            let color_i = n[0];
            let color_e = n[1];
            let color_f = n[2];
            let color_j = n[3];

            let color_g = n[4];
            let color_a = n[5];
            let color_b = n[6];
            let color_k = n[7];

            let color_h = n[8];
            let color_c = n[9];
            let color_d = n[10];
            let color_l = n[11];

            let color_m = n[12];
            let color_n = n[13];
            let color_o = n[14];
            // let color_p = n[15];

            let r1 = color_a;
            let product;
            let product1;
            let product2;

            if color_a == color_d && color_b != color_c {
                if (color_a == color_e && color_b == color_l)
                    || (color_a == color_c
                        && color_a == color_f
                        && color_b != color_e
                        && color_b == color_j)
                {
                    product = color_a;
                } else {
                    product = avg2(color_a, color_b);
                }

                if (color_a == color_g && color_c == color_o)
                    || (color_a == color_b
                        && color_a == color_h
                        && color_g != color_c
                        && color_c == color_m)
                {
                    product1 = color_a;
                } else {
                    product1 = avg2(color_a, color_c);
                }
                product2 = color_a;
            } else if color_b == color_c && color_a != color_d {
                if (color_b == color_f && color_a == color_h)
                    || (color_b == color_e
                        && color_b == color_d
                        && color_a != color_f
                        && color_a == color_i)
                {
                    product = color_b;
                } else {
                    product = avg2(color_a, color_b);
                }

                if (color_c == color_h && color_a == color_f)
                    || (color_c == color_g
                        && color_c == color_d
                        && color_a != color_h
                        && color_a == color_i)
                {
                    product1 = color_c;
                } else {
                    product1 = avg2(color_a, color_c);
                }
                product2 = color_b;
            } else if color_a == color_d && color_b == color_c {
                if color_a == color_b {
                    product = color_a;
                    product1 = color_a;
                    product2 = color_a;
                } else {
                    let mut r = 0;
                    product1 = avg2(color_a, color_c);
                    product = avg2(color_a, color_b);

                    r += get_result_1(color_a, color_b, color_g, color_e);
                    r += get_result_2(color_b, color_a, color_k, color_f);
                    r += get_result_2(color_b, color_a, color_h, color_n);
                    r += get_result_1(color_a, color_b, color_l, color_o);

                    product2 = if r > 0 {
                        color_a
                    } else if r < 0 {
                        color_b
                    } else {
                        avg4(color_a, color_b, color_c, color_d)
                    };
                }
            } else {
                product2 = avg4(color_a, color_b, color_c, color_d);

                if color_a == color_c
                    && color_a == color_f
                    && color_b != color_e
                    && color_b == color_j
                {
                    product = color_a;
                } else if color_b == color_e
                    && color_b == color_d
                    && color_a != color_f
                    && color_a == color_i
                {
                    product = color_b;
                } else {
                    product = avg2(color_a, color_b);
                }

                if color_a == color_b
                    && color_a == color_h
                    && color_g != color_c
                    && color_c == color_m
                {
                    product1 = color_a;
                } else if color_c == color_g
                    && color_c == color_d
                    && color_a != color_h
                    && color_a == color_i
                {
                    product1 = color_c;
                } else {
                    product1 = avg2(color_a, color_c);
                }
            }
    [r1, product, product1, product2]
}

/// The block of super_eagle_2x, computed as the algorithm's reference code does.
#[allow(clippy::all, unused_variables, unused_assignments)]
fn reference_super_eagle_2x(n: &[Px; 16]) -> [Px; 4] {

            let color_b1 = n[1];
            let color_b2 = n[2];

            let color4 = n[4];
            let color5 = n[5];
            let color6 = n[6];
            let color_s2 = n[7];

            let color1 = n[8];
            let color2 = n[9];
            let color3 = n[10];
            let color_s1 = n[11];

            let color_a1 = n[13];
            let color_a2 = n[14];

            let product1a;
            let product1b;
            let product2a;
            let product2b;

            if color2 == color6 && color5 != color3 {
                product1b = color2;
                product2a = color2;
                if color1 == color2 || color6 == color_b2 {
                    let i = avg2(color2, color5);
                    product1a = avg2(color2, i);
                } else {
                    product1a = avg2(color5, color6);
                }

                if color6 == color_s2 || color2 == color_a1 {
                    let i = avg2(color2, color3);
                    product2b = avg2(color2, i);
                } else {
                    product2b = avg2(color2, color3);
                }
            } else if color5 == color3 && color2 != color6 {
                product2b = color5;
                product1a = color5;

                if color_b1 == color5 || color3 == color_s1 {
                    let i = avg2(color5, color6);
                    product1b = avg2(color5, i);
                } else {
                    product1b = avg2(color5, color6);
                }

                if color3 == color_a2 || color4 == color5 {
                    let i = avg2(color5, color2);
                    product2a = avg2(color5, i);
                } else {
                    product2a = avg2(color2, color3);
                }
            } else if color5 == color3 && color2 == color6 {
                let mut r = 0;

                r += get_result_1(color6, color5, color1, color_a1);
                r += get_result_1(color6, color5, color4, color_b1);
                r += get_result_1(color6, color5, color_a2, color_s1);
                r += get_result_1(color6, color5, color_b2, color_s2);

                if r > 0 {
                    product1b = color2;
                    product2a = color2;
                    let i = avg2(color5, color6);
                    product1a = i;
                    product2b = i;
                } else if r < 0 {
                    product2b = color5;
                    product1a = color5;
                    let i = avg2(color5, color6);
                    product1b = i;
                    product2a = i;
                } else {
                    product2b = color5;
                    product1a = color5;
                    product1b = color2;
                    product2a = color2;
                }
            } else {
                let i = avg2(color2, color6);
                product2b = avg4(color3, color3, color3, i);
                product1a = avg4(color5, color5, color5, i);

                let i = avg2(color5, color3);
                product2a = avg4(color2, color2, color2, i);
                product1b = avg4(color6, color6, color6, i);
            }
    [product1a, product1b, product2a, product2b]
}

/// The block of super_sai_2x, computed as the algorithm's reference code does.
#[allow(clippy::all, unused_variables, unused_assignments)]
fn reference_super_sai_2x(n: &[Px; 16]) -> [Px; 4] {

            let color_b0 = n[0];
            let color_b1 = n[1];
            let color_b2 = n[2];
            let color_b3 = n[3];

            let color4 = n[4];
            let color5 = n[5];
            let color6 = n[6];
            let color_s2 = n[7];

            let color1 = n[8];
            let color2 = n[9];
            let color3 = n[10];
            let color_s1 = n[11];

            let color_a0 = n[12];
            let color_a1 = n[13];
            let color_a2 = n[14];
            let color_a3 = n[15];

            #[allow(clippy::needless_late_init)]
            let product1a;
            let product1b;
            #[allow(clippy::needless_late_init)]
            let product2a;
            let product2b;

            if color2 == color6 && color5 != color3 {
                product2b = color2;
                product1b = color2;
            } else if color5 == color3 && color2 != color6 {
                product2b = color5;
                product1b = color5;
            } else if color5 == color3 && color2 == color6 {
                let mut r = 0;

                r += get_result_1(color6, color5, color1, color_a1);
                r += get_result_1(color6, color5, color4, color_b1);
                r += get_result_1(color6, color5, color_a2, color_s1);
                r += get_result_1(color6, color5, color_b2, color_s2);

                if r > 0 {
                    product2b = color6;
                    product1b = color6;
                } else if r < 0 {
                    product2b = color5;
                    product1b = color5;
                } else {
                    let i = avg2(color5, color6);
                    product2b = i;
                    product1b = i;
                }
            } else {
                if color6 == color3
                    && color3 == color_a1
                    && color2 != color_a2
                    && color3 != color_a0
                {
                    product2b = avg4(color3, color3, color3, color2);
                } else if color5 == color2
                    && color2 == color_a2
                    && color_a1 != color3
                    && color2 != color_a3
                {
                    product2b = avg4(color2, color2, color2, color3);
                } else {
                    product2b = avg2(color2, color3);
                }

                if color6 == color3
                    && color6 == color_b1
                    && color5 != color_b2
                    && color6 != color_b0
                {
                    product1b = avg4(color6, color6, color6, color5);
                } else if color5 == color2
                    && color5 == color_b2
                    && color_b1 != color6
                    && color5 != color_b3
                {
                    product1b = avg4(color6, color5, color5, color5);
                } else {
                    product1b = avg2(color5, color6);
                }
            }

            if color5 == color3 && color2 != color6 && color4 == color5 && color5 != color_a2
                || color5 == color1 && color6 == color5 && color4 != color2 && color5 != color_a0
            {
                product2a = avg2(color2, color5);
            } else {
                product2a = color2;
            }

            if color2 == color6 && color5 != color3 && color1 == color2 && color2 != color_b2
                || color4 == color2 && color3 == color2 && color1 != color5 && color2 != color_b0
            {
                product1a = avg2(color2, color5);
            } else {
                product1a = color5;
            }
    [product1a, product1b, product2a, product2b]
}

/// A neighbourhood of colors drawn from `0..colors`, each pixel carrying its own position.
fn neighbourhood(seed: &mut u64, colors: u64) -> [Px; 16] {
    let mut n = [Px { color: 0, w: [0.0; 16] }; 16];
    for (i, p) in n.iter_mut().enumerate() {
        *seed = seed.wrapping_mul(6364136223846793005).wrapping_add(1442695040888963407);
        p.color = ((*seed >> 33) % colors) as u8;
        p.w[i] = 1.0;
    }
    n
}

fn check(rule: fn(&[bool]) -> [Blend; 4], reference: fn(&[Px; 16]) -> [Px; 4]) {
    let mut seed = 7;
    for colors in [1, 2, 3, 4] {
        for _ in 0..20000 {
            let n = neighbourhood(&mut seed, colors);
            let blends = rule(&comparisons(&n));
            let expected = reference(&n);
            for i in 0..4 {
                assert_eq!(apply(blends[i], &n), expected[i].w, "pixel {i} of {:?}", n.map(|p| p.color));
            }
        }
    }
}

#[test]
fn sai_2x_rule_matches_the_algorithm() {
    check(sai_2x_rule, reference_sai_2x);
}

#[test]
fn super_eagle_2x_rule_matches_the_algorithm() {
    check(super_eagle_2x_rule, reference_super_eagle_2x);
}

#[test]
fn super_sai_2x_rule_matches_the_algorithm() {
    check(super_sai_2x_rule, reference_super_sai_2x);
}

#[test]
fn sai_2x_rule_flat_neighbourhood() {
    let mut seed = 1;
    let n = neighbourhood(&mut seed, 1);
    assert_eq!(sai_2x_rule(&comparisons(&n)), [Blend::Pick(5); 4]);
}

#[test]
fn sai_2x_rule_mirrors_across_the_diagonal() {
    let mirrored = |k: usize| (k % 4) * 4 + k / 4;
    let mut seed = 11;
    for colors in [2, 3, 4] {
        for _ in 0..20000 {
            let n = neighbourhood(&mut seed, colors);
            if n[6].color == n[9].color {
                continue;
            }
            let m: [Px; 16] = std::array::from_fn(|i| n[mirrored(i)]);
            let a = sai_2x_rule(&comparisons(&n));
            let b = sai_2x_rule(&comparisons(&m));
            for (i, j) in [(0, 0), (1, 2), (2, 1), (3, 3)] {
                let wa = apply(a[i], &n);
                let wb = apply(b[j], &m);
                // `wb` is over the mirrored neighbourhood's pixels, which carry the weights of
                // the pixels they came from.
                assert_eq!(wa, wb, "pixel {i} of {:?}", n.map(|p| p.color));
            }
        }
    }
}

#[test]
fn sai_rules_stay_in_the_block_for_float_pixels() {
    let in_block = |a: u8| [5u8, 6, 9, 10].contains(&a);
    let blend_in_block = |b: Blend| match b {
        Blend::Pick(a) => in_block(a),
        Blend::Avg2(a, c) => in_block(a) && in_block(c),
        Blend::Avg4(a, c, d, e) => in_block(a) && in_block(c) && in_block(d) && in_block(e),
        Blend::Avg2Of(a, c, d) | Blend::Avg4Of(a, c, d) => in_block(a) && in_block(c) && in_block(d),
    };
    let mut n = [0.5f32; 16];
    n[6] = f32::NAN;
    n[9] = 0.25;
    n[10] = f32::NAN;
    for k in 0..16 {
        let mut m = n;
        m[k] = 1.0;
        let a = sai_2x_rule(&comparisons(&m));
        assert_eq!(a[0], Blend::Pick(5));
        assert!(matches!(a[1], Blend::Pick(5) | Blend::Pick(6) | Blend::Avg2(5, 6)));
        assert!(matches!(a[2], Blend::Pick(5) | Blend::Pick(9) | Blend::Avg2(5, 9)));
        assert!(matches!(a[3], Blend::Pick(5) | Blend::Pick(6) | Blend::Avg4(5, 6, 9, 10)));
        assert!(super_eagle_2x_rule(&comparisons(&m)).iter().all(|b| blend_in_block(*b)));
        assert!(super_sai_2x_rule(&comparisons(&m)).iter().all(|b| blend_in_block(*b)));
    }
}

#[test]
fn sai_rules_follow_the_comparison_table() {
    let all_equal = vec![true; 256];
    assert_eq!(sai_2x_rule(&all_equal), [Blend::Pick(5); 4]);
    let none_equal = vec![false; 256];
    assert_eq!(
        sai_2x_rule(&none_equal),
        [Blend::Pick(5), Blend::Avg2(5, 6), Blend::Avg2(5, 9), Blend::Avg4(5, 6, 9, 10)]
    );
    assert_eq!(
        super_eagle_2x_rule(&none_equal),
        [Blend::Avg4Of(5, 9, 6), Blend::Avg4Of(6, 5, 10), Blend::Avg4Of(9, 5, 10), Blend::Avg4Of(10, 9, 6)]
    );
    assert_eq!(
        super_sai_2x_rule(&none_equal),
        [Blend::Pick(5), Blend::Avg2(5, 6), Blend::Pick(9), Blend::Avg2(9, 10)]
    );
    // NaN never equals itself, so a flat NaN neighbourhood takes the no-equality blends
    let nan = [f32::NAN; 16];
    assert_eq!(comparisons(&nan), none_equal);
}
