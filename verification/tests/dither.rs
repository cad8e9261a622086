use chainner_ext::dither::diffusion::{
    kernel_weights, Atkinson, Burkes, DiffusionAlgorithm, ErrorRows, FloydSteinberg,
    JarvisJudiceNinke, Sierra, SierraLite, Stucki, TwoRowSierra, ERROR_ROW_OFFSET,
};
use chainner_ext::dither::ordered::{stretch_x, threshold_levels, tile_x};
use chainner_ext::dither::quant::{quantize, ColorLookup};
use chainner_ext::dither::riemersma::scan_order;
use chainner_ext::image::{Image, Size};

#[test]
fn threshold_levels_2x2() {
    let map = threshold_levels(2);
    assert_eq!(map.size(), Size::new(2, 2));
    assert_eq!(map.data(), &[0, 2, 3, 1][..]);
}

#[test]
fn threshold_levels_4x4_is_the_bayer_matrix() {
    let map = threshold_levels(4);
    assert_eq!(
        map.data(),
        &[0, 8, 2, 10, 12, 4, 14, 6, 3, 11, 1, 9, 15, 7, 13, 5][..]
    );
}

#[test]
fn threshold_levels_are_a_permutation() {
    for n in [1usize, 2, 4, 8, 16] {
        let map = threshold_levels(n);
        let mut seen = vec![false; n * n];
        for &v in map.data() {
            assert!(v < n * n);
            assert!(!seen[v]);
            seen[v] = true;
        }
    }
}

#[test]
fn stretch_x_repeats_pixels() {
    let img = Image::new(Size::new(2, 2), vec![1u8, 2, 3, 4]);
    let r = stretch_x(&img, 3);
    assert_eq!(r.size(), Size::new(6, 2));
    assert_eq!(r.data(), &[1, 1, 1, 2, 2, 2, 3, 3, 3, 4, 4, 4][..]);
    let same = stretch_x(&img, 1);
    assert_eq!(same.data(), img.data());
}

#[test]
fn tile_x_repeats_columns() {
    let img = Image::new(Size::new(2, 2), vec![1u8, 2, 3, 4]);
    let r = tile_x(&img, 5);
    assert_eq!(r.size(), Size::new(5, 2));
    assert_eq!(r.data(), &[1, 2, 1, 2, 1, 3, 4, 3, 4, 3][..]);
    let narrow = tile_x(&img, 1);
    assert_eq!(narrow.data(), &[1, 3][..]);
}

#[test]
fn error_rows_new_and_rotate() {
    let mut rows: ErrorRows<i32> = ErrorRows::new(3);
    assert_eq!(ERROR_ROW_OFFSET, 2);
    assert_eq!(rows.0.len(), 7);
    assert_eq!(rows.1.len(), 7);
    assert_eq!(rows.2.len(), 7);
    rows.0[0] = 1;
    rows.1[0] = 2;
    rows.2[0] = 3;
    rows.rotate();
    assert_eq!((rows.0[0], rows.1[0], rows.2[0]), (2, 3, 0));
    rows.rotate();
    assert_eq!((rows.0[0], rows.1[0], rows.2[0]), (3, 0, 0));
}

fn kernel(alg: &impl DiffusionAlgorithm) -> Vec<(usize, isize, u32, u32)> {
    kernel_weights(alg).iter().map(|w| (w.y, w.x, w.numerator, w.denominator)).collect()
}

fn share(k: &[(usize, isize, u32, u32)]) -> (u32, u32) {
    let d = k[0].3;
    assert!(k.iter().all(|w| w.3 == d));
    (k.iter().map(|w| w.2).sum(), d)
}

#[test]
fn floyd_steinberg_kernel() {
    assert_eq!(
        kernel(&FloydSteinberg),
        vec![(0, 1, 7, 16), (1, -1, 3, 16), (1, 0, 5, 16), (1, 1, 1, 16)]
    );
}

#[test]
fn kernels_spread_the_whole_error_except_atkinson() {
    assert_eq!(share(&kernel(&Burkes)), (32, 32));
    assert_eq!(share(&kernel(&FloydSteinberg)), (16, 16));
    assert_eq!(share(&kernel(&JarvisJudiceNinke)), (48, 48));
    assert_eq!(share(&kernel(&Sierra)), (32, 32));
    assert_eq!(share(&kernel(&TwoRowSierra)), (16, 16));
    assert_eq!(share(&kernel(&SierraLite)), (4, 4));
    assert_eq!(share(&kernel(&Stucki)), (42, 42));
    assert_eq!(share(&kernel(&Atkinson)), (6, 8));
}

#[test]
fn kernels_stay_in_the_window_and_move_forward() {
    let all = [
        kernel(&Atkinson),
        kernel(&Burkes),
        kernel(&FloydSteinberg),
        kernel(&JarvisJudiceNinke),
        kernel(&Sierra),
        kernel(&TwoRowSierra),
        kernel(&SierraLite),
        kernel(&Stucki),
    ];
    for k in all.iter() {
        for &(y, x, _, _) in k {
            assert!(y < 3 && (-2..=2).contains(&x));
            assert!(y > 0 || x > 0);
        }
    }
}

struct Levels(u8);

impl ColorLookup<u8> for Levels {
    type Nearest = u8;

    fn get_nearest_color(&self, color: u8) -> u8 {
        color / self.0 * self.0
    }

    fn get_error(&self, color: u8, nearest: u8) -> u8 {
        color - nearest
    }
}

#[test]
fn quantize_maps_every_pixel() {
    let mut img = Image::new(Size::new(3, 1), vec![5u8, 17, 250]);
    quantize(&mut img, &Levels(10));
    assert_eq!(img.data(), &[0, 10, 250][..]);
    assert_eq!(img.size(), Size::new(3, 1));
}

#[test]
fn scan_order_visits_every_pixel_once() {
    for (w, h) in [(0, 0), (1, 1), (3, 1), (1, 5), (4, 4), (11, 42), (40, 7), (64, 63)] {
        let order = scan_order(w, h);
        assert_eq!(order.len(), w * h);
        let mut seen = vec![false; w * h];
        for &i in &order {
            assert!(!seen[i]);
            seen[i] = true;
        }
    }
}

#[test]
fn scan_order_follows_the_hilbert_scan() {
    let expected: Vec<usize> = zhang_hilbert::ArbHilbertScan32::new([11, 42])
        .map(|[x, y]| y as usize * 11 + x as usize)
        .collect();
    assert_eq!(scan_order(11, 42), expected);
    assert_eq!(scan_order(11, 42)[0], 0);
    // Consecutive pixels of the scan are neighbours.
    let order = scan_order(8, 8);
    for pair in order.windows(2) {
        let (a, b) = (pair[0], pair[1]);
        let (ax, ay, bx, by) = (a % 8, a / 8, b % 8, b / 8);
        assert_eq!(ax.abs_diff(bx) + ay.abs_diff(by), 1);
    }
}
