use chainner_ext::bits::FixedBits;
use chainner_ext::grid::Grid;
use chainner_ext::image::{Image, Size};
use chainner_ext::ndim::Shape;
use chainner_ext::pixel_art::sai::{get_result_1, get_result_2};
use chainner_ext::scale::nearest_neighbor;
use chainner_ext::util::{
    div_ceil, move_range, move_range_i, process_pairs, slice_as_chunks, vec_into_flattened,
};
use chainner_ext::pixel_art::util::neighbour_index;
use chainner_ext::threshold::threshold_edges;

#[test]
fn div_ceil_rounds_up() {
    assert_eq!(div_ceil(0, 8), 0);
    assert_eq!(div_ceil(1, 8), 1);
    assert_eq!(div_ceil(8, 8), 1);
    assert_eq!(div_ceil(9, 8), 2);
    assert_eq!(div_ceil(17, 4), 5);
}

#[test]
fn move_ranges() {
    assert_eq!(move_range(&(2..5), 10), 12..15);
    assert_eq!(move_range_i(&(2..5), -2), 0..3);
    assert_eq!(move_range_i(&(2..5), 3), 5..8);
}

#[test]
fn process_pairs_carries_to_the_right() {
    let mut items = [1, 2, 3, 4];
    process_pairs(&mut items, |a, b| (a + b, a * 10));
    // (1,2) -> (3,10); (10,3) -> (13,100); (100,4) -> (104,1000)
    assert_eq!(items, [3, 13, 104, 1000]);
    let mut empty: [i32; 0] = [];
    process_pairs(&mut empty, |a, b| (a, b));
}

#[test]
fn size_and_image_basics() {
    let s = Size::new(3, 2);
    assert_eq!(s.len(), 6);
    assert_eq!(s.iter_pos(), vec![(0, 0), (1, 0), (2, 0), (0, 1), (1, 1), (2, 1)]);
    let img = Image::from_fn(s, |x, y| (x + 10 * y) as u8);
    assert_eq!(img.data(), &[0, 1, 2, 10, 11, 12][..]);
    assert_eq!((img.width(), img.height(), img.len()), (3, 2, 6));
    let rows = img.rows();
    assert_eq!(rows, vec![&[0u8, 1, 2][..], &[10, 11, 12][..]]);
    let doubled = img.map(|p| *p as u32 * 2);
    assert_eq!(doubled.data(), &[0, 2, 4, 20, 22, 24][..]);
    let pos = img.map_pos(|p, x, y| (*p, x, y));
    assert_eq!(pos.data()[4], (11, 1, 1));
    let mut changed = img.clone();
    changed.change::<u8, _>(|p| p + 1);
    assert_eq!(changed.data(), &[1, 2, 3, 11, 12, 13][..]);
    changed.fill(5);
    assert_eq!(changed.take(), vec![5; 6]);
    let c = Image::from_const(Size::new(2, 2), 9u16);
    assert_eq!(c.data(), &[9, 9, 9, 9][..]);
}

#[test]
fn shape_basics() {
    let s = Shape::new(3, 2, 4);
    assert_eq!(s.len(), 24);
    assert_eq!(s.size(), Size::new(3, 2));
    assert!(!s.is_empty());
    assert_eq!(Shape::from_size(Size::new(0, 5), 3).len(), 0);
    assert!(Shape::from_size(Size::new(0, 5), 3).is_empty());
}

#[test]
fn fixed_bits_get_set_and_ops() {
    let mut a = FixedBits::new(70);
    assert_eq!(a.len(), 70);
    assert!(!a.is_empty());
    assert_eq!(a.get(69), Some(false));
    assert_eq!(a.get(70), None);
    a.set(3, true);
    a.set(64, true);
    assert_eq!(a.get(3), Some(true));
    assert_eq!(a.get(64), Some(true));
    assert_eq!(a.get(4), Some(false));
    a.set(3, false);
    assert_eq!(a.get(3), Some(false));

    let b = FixedBits::from_slice(&[1, 0, 1, 1], |v| *v == 1);
    assert_eq!((0..4).map(|i| b.get(i).unwrap()).collect::<Vec<_>>(), vec![true, false, true, true]);

    let mut c = FixedBits::from_slice(&[true, true, false, false], |v| *v);
    let mut d = c.clone();
    c.and(&b);
    assert_eq!((0..4).map(|i| c.get(i).unwrap()).collect::<Vec<_>>(), vec![true, false, false, false]);
    d.or(&b);
    assert_eq!((0..4).map(|i| d.get(i).unwrap()).collect::<Vec<_>>(), vec![true, true, true, true]);

    let mut f = FixedBits::new(10);
    f.fill(true);
    assert!((0..10).all(|i| f.get(i) == Some(true)));
    f.fill(false);
    f.set(5, true);
    f.expand_one();
    assert_eq!(
        (0..10).map(|i| f.get(i).unwrap()).collect::<Vec<_>>(),
        vec![false, false, false, false, true, true, true, false, false, false]
    );
}

#[test]
fn grid_fill_and_expand() {
    let mut g: Grid<4> = Grid::new(Size::new(10, 9));
    assert_eq!((g.width(), g.height(), g.cell_size()), (3, 3, 4));
    assert_eq!(g.pixels(), Size::new(10, 9));
    assert!(!g.is_empty());
    g.set(0, 0, true);
    assert!(g.get(0, 0));
    g.expand_one();
    for y in 0..3 {
        for x in 0..3 {
            assert_eq!(g.get(x, y), x <= 1 && y <= 1);
        }
    }
    let cells = g.for_each_true();
    assert_eq!(cells.len(), 4);
    assert_eq!(cells[0], (0..4, 0..4, false));
    assert_eq!(cells[3], (4..8, 4..8, true));

    let mut h: Grid<4> = Grid::new(Size::new(10, 9));
    h.fill_with_pixels(|x, y| x == 9 && y == 8);
    assert!(h.get(2, 2));
    assert!(!h.get(1, 1));
    h.and(&g);
    assert!(!h.get(2, 2));
}

#[test]
fn grid_inner_cells() {
    let mut g: Grid<2> = Grid::new(Size::new(6, 6));
    g.fill_with_pixels_index(|_| true);
    let cells = g.for_each_true_cell();
    assert_eq!(cells.len(), 9);
    let inner: Vec<_> = cells.iter().filter(|c| c.2).collect();
    assert_eq!(inner.len(), 1);
    assert_eq!(inner[0], &(2..4, 2..4, true, 4));
}

#[test]
fn nearest_neighbor_paths() {
    let src = Image::new(Size::new(2, 2), vec![1u8, 2, 3, 4]);
    let same = nearest_neighbor(&src, Size::new(2, 2));
    assert_eq!(same.data(), src.data());
    let up = nearest_neighbor(&src, Size::new(4, 4));
    assert_eq!(
        up.data(),
        &[1, 1, 2, 2, 1, 1, 2, 2, 3, 3, 4, 4, 3, 3, 4, 4][..]
    );
    let up3 = nearest_neighbor(&src, Size::new(3, 1));
    // the fixed-point step floor(2 * 2^32 / 3) rounds the centre of column 1 down to 0,
    // and the single destination row samples source row 1
    assert_eq!(up3.data(), &[3, 3, 4][..]);
    let down = nearest_neighbor(&Image::new(Size::new(4, 1), vec![1u8, 2, 3, 4]), Size::new(2, 1));
    assert_eq!(down.data(), &[2, 4][..]);
}

#[test]
fn sai_votes() {
    assert_eq!(get_result_1(1, 2, 1, 1), -1);
    assert_eq!(get_result_1(1, 2, 3, 3), 0);
    assert_eq!(get_result_1(1, 2, 2, 2), 1);
    assert_eq!(get_result_1(1, 2, 1, 3), 0);
    for (a, b, c, d) in [(1, 2, 1, 1), (1, 2, 3, 3), (1, 2, 2, 2), (1, 2, 1, 3), (5, 5, 5, 5)] {
        assert_eq!(get_result_2(a, b, c, d), -get_result_1(a, b, c, d));
    }
}

#[test]
fn fixed_bits_from_iter() {
    let bools: Vec<bool> = (0..70).map(|i| i % 3 == 0).collect();
    let bits = FixedBits::from_iter(&bools);
    assert_eq!(bits.len(), 70);
    for (i, b) in bools.iter().enumerate() {
        assert_eq!(bits.get(i), Some(*b));
    }
    assert_eq!(bits.get(70), None);
    let empty = FixedBits::from_iter(&[]);
    assert!(empty.is_empty());
}

#[test]
fn grid_fill_by_index_matches_fill_by_pixels() {
    let w = 10;
    let marked = |i: usize| i % 7 == 3;
    let mut a: Grid<4> = Grid::new(Size::new(w, 9));
    a.fill_with_pixels_index(marked);
    let mut b: Grid<4> = Grid::new(Size::new(w, 9));
    b.fill_with_pixels(|x, y| marked(y * w + x));
    for y in 0..a.height() {
        for x in 0..a.width() {
            assert_eq!(a.get(x, y), b.get(x, y), "cell {x},{y}");
        }
    }
    let with_index = a.for_each_true_cell();
    let without = a.for_each_true();
    assert_eq!(
        without,
        with_index.into_iter().map(|(xr, yr, inner, _)| (xr, yr, inner)).collect::<Vec<_>>()
    );
}

#[test]
fn chunks_and_flattening() {
    let (chunks, rest) = slice_as_chunks::<u8, 3>(&[1, 2, 3, 4, 5, 6, 7, 8]);
    assert_eq!(chunks, vec![[1, 2, 3], [4, 5, 6]]);
    assert_eq!(rest, vec![7, 8]);
    let (none, all) = slice_as_chunks::<u8, 4>(&[1, 2]);
    assert!(none.is_empty());
    assert_eq!(all, vec![1, 2]);
    assert_eq!(vec_into_flattened(chunks), vec![1, 2, 3, 4, 5, 6]);
    assert_eq!(vec_into_flattened::<u8, 2>(Vec::new()), Vec::<u8>::new());
}

#[test]
fn neighbour_index_clamps_to_the_image() {
    // a 3 x 2 image
    assert_eq!(neighbour_index(3, 2, 0, 0, -1, -1), 0);
    assert_eq!(neighbour_index(3, 2, 1, 0, 1, 1), 5);
    assert_eq!(neighbour_index(3, 2, 2, 1, 2, 2), 5);
    assert_eq!(neighbour_index(3, 2, 2, 1, -2, -1), 0);
    assert_eq!(neighbour_index(3, 2, 1, 1, 0, -1), 1);
}

#[test]
fn threshold_edges_mark_both_sides_and_neighbouring_rows() {
    // 4 x 3 image; pixel (2, 1) differs from its left neighbour
    let (w, h) = (4, 3);
    let mut across = vec![false; w * h];
    across[1 * w + 2] = true;
    let down = vec![false; w * h];
    let e = threshold_edges(w, h, &across, &down);
    for y in 0..h {
        for x in 0..w {
            assert_eq!(e[y * w + x], x == 1 || x == 2, "pixel {x},{y}");
        }
    }
    // pixel (0, 2) differs from the one above it: rows 1 and 2, columns 0 and 1
    let mut down = vec![false; w * h];
    down[2 * w] = true;
    let e = threshold_edges(w, h, &vec![false; w * h], &down);
    for y in 0..h {
        for x in 0..w {
            assert_eq!(e[y * w + x], y >= 1 && x <= 1, "pixel {x},{y}");
        }
    }
}
