use chainner_ext::fill_alpha::{opaque_edge, within_radius_grid};
use chainner_ext::fragment_blur::offset_range;
use chainner_ext::grid::Grid;

fn opaque_corner(w: usize, h: usize) -> Vec<bool> {
    let mut t = vec![true; w * h];
    t[0] = false;
    t
}

#[test]
fn within_radius_grid_expands_by_cells() {
    let t = opaque_corner(20, 20);
    let g: Grid<8> = within_radius_grid(20, 20, &t, 3);
    assert_eq!((g.width(), g.height()), (3, 3));
    for y in 0..3 {
        for x in 0..3 {
            assert_eq!(g.get(x, y), x <= 1 && y <= 1, "cell {x},{y}");
        }
    }
}

#[test]
fn within_radius_grid_large_radius_keeps_transparency() {
    let t = opaque_corner(20, 20);
    let g: Grid<8> = within_radius_grid(20, 20, &t, 20);
    for y in 0..3 {
        for x in 0..3 {
            assert!(g.get(x, y));
        }
    }
    let opaque = vec![false; 16];
    let g: Grid<2> = within_radius_grid(4, 4, &opaque, 1);
    for y in 0..2 {
        for x in 0..2 {
            assert!(!g.get(x, y));
        }
    }
}

#[test]
fn within_radius_grid_radius_reaches_two_cells() {
    let t = opaque_corner(20, 20);
    // radius 9 with 8-pixel cells reaches two cells
    let g: Grid<8> = within_radius_grid(20, 20, &t, 9);
    for y in 0..3 {
        for x in 0..3 {
            assert!(g.get(x, y));
        }
    }
}

#[test]
fn offset_range_cases() {
    assert_eq!(offset_range(0, 5), 0..5);
    assert_eq!(offset_range(2, 5), 0..3);
    assert_eq!(offset_range(-2, 5), 2..5);
    assert_eq!(offset_range(7, 5), 0..0);
    assert_eq!(offset_range(-7, 5), 5..5);
    for off in -6isize..=6 {
        let r = offset_range(off, 5);
        for x in 0..5isize {
            let inside = (0..5).contains(&(x + off));
            assert_eq!(r.contains(&(x as usize)), inside);
        }
    }
}

#[test]
fn opaque_edge_lists_opaque_pixels_next_to_transparency() {
    // 3 x 3, only the centre is transparent
    let mut t = vec![false; 9];
    t[4] = true;
    assert_eq!(opaque_edge(3, 3, &t), vec![(1, 0), (0, 1), (2, 1), (1, 2)]);
    assert_eq!(opaque_edge(3, 3, &vec![false; 9]), Vec::<(usize, usize)>::new());
    assert_eq!(opaque_edge(3, 3, &vec![true; 9]), Vec::<(usize, usize)>::new());
    // the opaque corner of a transparent image
    assert_eq!(opaque_edge(4, 2, &opaque_corner(4, 2)), vec![(0, 0)]);
}

#[test]
fn within_radius_grid_drops_cells_far_from_opaque() {
    // 32 x 16 pixels of 8-pixel cells: one opaque pixel at the top left; radius 8 reaches one
    // cell further
    let t = opaque_corner(32, 16);
    let g: Grid<8> = within_radius_grid(32, 16, &t, 8);
    assert_eq!((g.width(), g.height()), (4, 2));
    for y in 0..2 {
        let row: Vec<bool> = (0..4).map(|x| g.get(x, y)).collect();
        assert_eq!(row, vec![true, true, false, false], "row {y}");
    }
    let g: Grid<8> = within_radius_grid(32, 16, &t, 0);
    let cells: Vec<bool> = (0..8).map(|i| g.get(i % 4, i / 4)).collect();
    assert_eq!(cells, vec![true, false, false, false, false, false, false, false]);
    // a radius that reaches across the image keeps every cell with a transparent pixel
    let g: Grid<8> = within_radius_grid(32, 16, &t, 16);
    assert!((0..8).all(|i| g.get(i % 4, i / 4)));
}
