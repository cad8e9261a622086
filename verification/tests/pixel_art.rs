use chainner_ext::image::{Image, Size};
use chainner_ext::pixel_art::adv_mame::{adv_mame_2x, adv_mame_2x_with, adv_mame_3x, adv_mame_4x};
use chainner_ext::pixel_art::util::neighbour_comparisons;
use chainner_ext::pixel_art::eagle::{eagle_2x, eagle_3x, eagle_3x_with};

fn img(w: usize, h: usize, data: Vec<u8>) -> Image<u8> {
    Image::new(Size::new(w, h), data)
}

#[test]
fn adv_mame_2x_uniform() {
    let src = img(2, 2, vec![7, 7, 7, 7]);
    let r = adv_mame_2x(&src);
    assert_eq!(r.size(), Size::new(4, 4));
    assert!(r.data().iter().all(|p| *p == 7));
}

#[test]
fn adv_mame_2x_diagonal_edge() {
    // A diagonal edge: the corner towards the matching neighbours takes their colour.
    // 1 0
    // 0 0  -> pixel (1,1) has A = C = 0 ... top-left pixel has neighbours from clamping
    let src = img(2, 2, vec![1, 0, 0, 0]);
    let r = adv_mame_2x(&src);
    assert_eq!(r.size(), Size::new(4, 4));
    assert_eq!(
        r.data(),
        &[1, 1, 0, 0, 1, 0, 0, 0, 0, 0, 0, 0, 0, 0, 0, 0][..]
    );
}

#[test]
fn eagle_2x_corner() {
    let src = img(3, 3, vec![1, 1, 0, 1, 0, 0, 0, 0, 0]);
    let r = eagle_2x(&src);
    assert_eq!(r.size(), Size::new(6, 6));
    // centre pixel (1, 1): d == a == b == 1, so its top-left quarter becomes 1
    assert_eq!(r.data()[2 * 6 + 2], 1);
    assert_eq!(r.data()[2 * 6 + 3], 0);
}

#[test]
fn sizes_3x_4x() {
    let src = img(3, 2, vec![1, 2, 3, 4, 5, 6]);
    assert_eq!(adv_mame_3x(&src).size(), Size::new(9, 6));
    assert_eq!(eagle_3x(&src).size(), Size::new(9, 6));
    assert_eq!(adv_mame_4x(&src).size(), Size::new(12, 8));
}

#[test]
fn adv_mame_2x_mirrors_left_to_right() {
    let flip = |d: &[u8], w: usize| -> Vec<u8> {
        d.chunks(w).flat_map(|row| row.iter().rev().copied()).collect()
    };
    let data = vec![1, 0, 2, 0, 1, 1, 2, 2, 0, 3, 1, 0];
    let src = img(4, 3, data.clone());
    let flipped = img(4, 3, flip(&data, 4));
    let a = adv_mame_2x(&flipped);
    let b = adv_mame_2x(&src);
    assert_eq!(a.data().to_vec(), flip(b.data(), 8));
}

#[test]
fn adv_mame_3x_and_eagle_3x_keep_the_centre_for_float_pixels() {
    let data = vec![0.5f32, f32::NAN, 0.25, 1.0, 0.5, f32::NAN];
    let src = Image::new(Size::new(3, 2), data.clone());
    for r in [adv_mame_3x(&src), eagle_3x(&src)] {
        assert_eq!(r.size(), Size::new(9, 6));
        for y in 0..2 {
            for x in 0..3 {
                let c = r.data()[(3 * y + 1) * 9 + 3 * x + 1];
                let s = data[y * 3 + x];
                assert!(c == s || (c.is_nan() && s.is_nan()), "centre of {x},{y}");
            }
        }
    }
}

#[test]
fn adv_mame_4x_is_adv_mame_2x_twice() {
    let src = img(3, 2, vec![1, 0, 2, 0, 1, 1]);
    let four = adv_mame_4x(&src);
    let twice = adv_mame_2x(&adv_mame_2x(&src));
    assert_eq!(four.size(), Size::new(12, 8));
    assert_eq!(four.data(), twice.data());
}

#[test]
fn upscalers_follow_the_comparison_tables() {
    let data = vec![1u8, 0, 0, 0];
    let src = img(2, 2, data.clone());
    let tables = neighbour_comparisons(&src);
    assert_eq!(tables.len(), 4);
    assert!(tables.iter().all(|t| t.len() == 81));
    assert_eq!(adv_mame_2x_with(&src, &tables).data(), adv_mame_2x(&src).data());
    // with no comparison holding, every block repeats its source pixel
    let none = vec![vec![false; 81]; 4];
    assert_eq!(
        adv_mame_2x_with(&src, &none).data(),
        &[1, 1, 0, 0, 1, 1, 0, 0, 0, 0, 0, 0, 0, 0, 0, 0][..]
    );
    // for float pixels, NaN compares unequal even to itself
    let nan = Image::new(Size::new(2, 2), vec![f32::NAN; 4]);
    let t = neighbour_comparisons(&nan);
    assert!(t.iter().all(|t| t.iter().all(|b| !b)));
    let r = eagle_3x_with(&nan, &t);
    assert_eq!(r.size(), Size::new(6, 6));
}
