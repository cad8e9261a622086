use std::ops::Range;
use vstd::prelude::*;

use crate::bits::{expanded_bit, seq_bit, word_bit, FixedBits};
use crate::image::Size;
use crate::util::{div_ceil, spec_div_ceil};

verus! {

/// The pixel range `start..end` covered by cell `cell` along a dimension of `image_size` pixels.
pub open spec fn cell_range(cell: int, cell_size: int, image_size: int) -> (int, int) {
    (cell * cell_size, if (cell + 1) * cell_size < image_size {
        (cell + 1) * cell_size
    } else {
        image_size
    })
}

/// Some pixel in the ranges made `f` answer `true`.
pub open spec fn pixel_hit<F: Fn(usize, usize) -> bool>(f: F, xr: (int, int), yr: (int, int)) -> bool {
    exists|x: usize, y: usize|
        xr.0 <= x < xr.1 && yr.0 <= y < yr.1 && #[trigger] f.ensures((x, y), true)
}

/// Every pixel in the ranges made `f` answer `false`.
pub open spec fn pixel_miss<F: Fn(usize, usize) -> bool>(f: F, xr: (int, int), yr: (int, int)) -> bool {
    forall|x: usize, y: usize|
        xr.0 <= x < xr.1 && yr.0 <= y < yr.1 ==> #[trigger] f.ensures((x, y), false)
}

/// Some pixel index `y * row + x` in the ranges made `f` answer `true`.
pub open spec fn index_hit<F: Fn(usize) -> bool>(f: F, xr: (int, int), yr: (int, int), row: int) -> bool {
    exists|x: int, y: int|
        xr.0 <= x < xr.1 && yr.0 <= y < yr.1 && #[trigger] f.ensures(((y * row + x) as usize,), true)
}

/// Every pixel index `y * row + x` in the ranges made `f` answer `false`.
pub open spec fn index_miss<F: Fn(usize) -> bool>(f: F, xr: (int, int), yr: (int, int), row: int) -> bool {
    forall|x: int, y: int|
        xr.0 <= x < xr.1 && yr.0 <= y < yr.1 ==> #[trigger] f.ensures(((y * row + x) as usize,), false)
}

proof fn lemma_cell_bound(c: int, cells: int, pixels: int, cell_size: int)
    requires
        cell_size > 0,
        pixels >= 0,
        0 <= c < cells,
        cells == spec_div_ceil(pixels, cell_size),
    ensures
        (c + 1) * cell_size <= pixels + cell_size,
        c * cell_size < pixels,
        (c + 1) * cell_size == c * cell_size + cell_size,
{
    vstd::arithmetic::div_mod::lemma_fundamental_div_mod(pixels, cell_size);
    vstd::arithmetic::div_mod::lemma_mod_bound(pixels, cell_size);
    let q = pixels / cell_size;
    vstd::arithmetic::mul::lemma_mul_is_distributive_add_other_way(cell_size, c, 1);
    vstd::arithmetic::mul::lemma_mul_is_commutative(cell_size, q);
    if pixels % cell_size != 0 {
        assert(c <= q);
        vstd::arithmetic::mul::lemma_mul_inequality(c, q, cell_size);
    } else {
        assert(c + 1 <= q);
        vstd::arithmetic::mul::lemma_mul_inequality(c + 1, q, cell_size);
    }
}

fn any_pixel<F: Fn(usize, usize) -> bool>(f: &F, xr: Range<usize>, yr: Range<usize>) -> (r: bool)
    requires
        forall|x: usize, y: usize|
            xr.start <= x < xr.end && yr.start <= y < yr.end ==> #[trigger] f.requires((x, y)),
    ensures
        r ==> pixel_hit(*f, (xr.start as int, xr.end as int), (yr.start as int, yr.end as int)),
        !r ==> pixel_miss(*f, (xr.start as int, xr.end as int), (yr.start as int, yr.end as int)),
{
    let mut y = yr.start;
    while y < yr.end
        invariant
            yr.start <= y,
            y <= yr.end || yr.start >= yr.end,
            forall|x: usize, y: usize|
                xr.start <= x < xr.end && yr.start <= y < yr.end ==> #[trigger] f.requires((x, y)),
            forall|xx: usize, yy: usize|
                xr.start <= xx < xr.end && yr.start <= yy < y ==> #[trigger] f.ensures((xx, yy), false),
        decreases yr.end - y,
    {
        let mut x = xr.start;
        while x < xr.end
            invariant
                yr.start <= y < yr.end,
                xr.start <= x,
                forall|x: usize, y: usize|
                    xr.start <= x < xr.end && yr.start <= y < yr.end ==> #[trigger] f.requires((x, y)),
                forall|xx: usize, yy: usize|
                    xr.start <= xx < xr.end && yr.start <= yy < y ==> #[trigger] f.ensures((xx, yy), false),
                forall|xx: usize| xr.start <= xx < x ==> #[trigger] f.ensures((xx, y), false),
            decreases xr.end - x,
        {
            if f(x, y) {
                return true;
            }
            x = x + 1;
        }
        y = y + 1;
    }
    false
}

fn any_index<F: Fn(usize) -> bool>(f: &F, xr: Range<usize>, yr: Range<usize>, row: usize) -> (r: bool)
    requires
        yr.end * row <= usize::MAX,
        xr.end <= row,
        forall|x: int, y: int|
            xr.start <= x < xr.end && yr.start <= y < yr.end ==> #[trigger] f.requires(((y * row + x) as usize,)),
    ensures
        r ==> index_hit(*f, (xr.start as int, xr.end as int), (yr.start as int, yr.end as int), row as int),
        !r ==> index_miss(*f, (xr.start as int, xr.end as int), (yr.start as int, yr.end as int), row as int),
{
    let mut y = yr.start;
    while y < yr.end
        invariant
            yr.start <= y,
            y <= yr.end || yr.start >= yr.end,
            yr.end * row <= usize::MAX,
            xr.end <= row,
            forall|x: int, y: int|
                xr.start <= x < xr.end && yr.start <= y < yr.end ==> #[trigger] f.requires(((y * row + x) as usize,)),
            forall|xx: int, yy: int|
                xr.start <= xx < xr.end && yr.start <= yy < y ==> #[trigger] f.ensures(((yy * row + xx) as usize,), false),
        decreases yr.end - y,
    {
        proof {
            vstd::arithmetic::mul::lemma_mul_inequality(y as int + 1, yr.end as int, row as int);
            vstd::arithmetic::mul::lemma_mul_is_distributive_add_other_way(row as int, y as int, 1);
        }
        let mut x = xr.start;
        while x < xr.end
            invariant
                yr.start <= y < yr.end,
                xr.start <= x,
                xr.end <= row,
                (y + 1) * row <= usize::MAX,
                (y + 1) * row == y * row + row,
                forall|x: int, y: int|
                    xr.start <= x < xr.end && yr.start <= y < yr.end ==> #[trigger] f.requires(((y * row + x) as usize,)),
                forall|xx: int, yy: int|
                    xr.start <= xx < xr.end && yr.start <= yy < y ==> #[trigger] f.ensures(((yy * row + xx) as usize,), false),
                forall|xx: int| xr.start <= xx < x ==> #[trigger] f.ensures(((y * row + xx) as usize,), false),
            decreases xr.end - x,
        {
            let i = y * row + x;
            if f(i) {
                assert(f.ensures(((y * row + x) as usize,), true));
                return true;
            }
            x = x + 1;
        }
        y = y + 1;
    }
    false
}

/// A grid of boolean cells, each covering `CELL_SIZE` x `CELL_SIZE` pixels of an image (cells
/// at the right and bottom border may cover fewer).
#[derive(Debug, Clone)]
pub struct Grid<const CELL_SIZE: usize> {
    lines: Vec<FixedBits>,
    width: usize,
    pixels: Size,
}

impl<const CELL_SIZE: usize> Grid<CELL_SIZE> {
    /// Number of cells per row.
    pub closed spec fn spec_width(&self) -> nat {
        self.width as nat
    }

    /// Number of rows of cells.
    pub closed spec fn spec_height(&self) -> nat {
        self.lines@.len()
    }

    /// Size of the image the grid covers.
    pub closed spec fn spec_pixels(&self) -> Size {
        self.pixels
    }

    /// Number of cells each row stores; cells at or beyond `width` are not part of the grid
    /// but are stored and take part in `expand_one`.
    pub open spec fn capacity(&self) -> int {
        spec_div_ceil(self.spec_width() as int, 8) * 64
    }

    /// The stored cell `(x, y)`.
    pub closed spec fn raw_cell(&self, x: int, y: int) -> bool {
        self.lines@[y].raw_bit(x)
    }

    pub closed spec fn line(&self, y: int) -> FixedBits {
        self.lines@[y]
    }

    pub closed spec fn wf(&self) -> bool {
        &&& CELL_SIZE > 0
        &&& self.pixels.width + CELL_SIZE <= usize::MAX
        &&& self.pixels.height + CELL_SIZE <= usize::MAX
        &&& self.width == spec_div_ceil(self.pixels.width as int, CELL_SIZE as int)
        &&& self.lines@.len() == spec_div_ceil(self.pixels.height as int, CELL_SIZE as int)
        &&& forall|y: int|
            0 <= y < self.lines@.len() ==> {
                &&& (#[trigger] self.lines@[y]).wf()
                &&& self.lines@[y].spec_len() == self.width
                &&& self.lines@[y].words().len() == spec_div_ceil(self.width as int, 8)
            }
    }

    pub fn cell_size(&self) -> (r: usize)
        ensures
            r == CELL_SIZE,
    {
        CELL_SIZE
    }

    fn cell_to_pixel_dimension(cell: usize, image_size: usize) -> (r: Range<usize>)
        requires
            (cell + 1) * CELL_SIZE <= usize::MAX,
        ensures
            (r.start as int, r.end as int) == cell_range(cell as int, CELL_SIZE as int, image_size as int),
    {
        proof {
            vstd::arithmetic::mul::lemma_mul_is_distributive_add_other_way(CELL_SIZE as int, cell as int, 1);
            vstd::arithmetic::mul::lemma_mul_nonnegative(cell as int, CELL_SIZE as int);
            assert((cell + 1) * CELL_SIZE == cell * CELL_SIZE + CELL_SIZE);
        }
        let start = cell * CELL_SIZE;
        let end_full = start + CELL_SIZE;
        let end = if end_full < image_size {
            end_full
        } else {
            image_size
        };
        start..end
    }

    fn cell_to_pixel(cell: (usize, usize), image_size: Size) -> (r: (Range<usize>, Range<usize>))
        requires
            (cell.0 + 1) * CELL_SIZE <= usize::MAX,
            (cell.1 + 1) * CELL_SIZE <= usize::MAX,
        ensures
            (r.0.start as int, r.0.end as int) == cell_range(cell.0 as int, CELL_SIZE as int, image_size.width as int),
            (r.1.start as int, r.1.end as int) == cell_range(cell.1 as int, CELL_SIZE as int, image_size.height as int),
    {
        (
            Self::cell_to_pixel_dimension(cell.0, image_size.width),
            Self::cell_to_pixel_dimension(cell.1, image_size.height),
        )
    }

    /// An empty grid (all cells unset) for an image of the given size.
    pub fn new(pixels: Size) -> (r: Self)
        requires
            CELL_SIZE > 0,
            pixels.width + CELL_SIZE <= usize::MAX,
            pixels.height + CELL_SIZE <= usize::MAX,
        ensures
            r.wf(),
            r.spec_pixels() == pixels,
            r.spec_width() == spec_div_ceil(pixels.width as int, CELL_SIZE as int),
            r.spec_height() == spec_div_ceil(pixels.height as int, CELL_SIZE as int),
            forall|x: int, y: int| 0 <= y < r.spec_height() ==> !#[trigger] r.raw_cell(x, y),
    {
        let width = div_ceil(pixels.width, CELL_SIZE);
        let height = div_ceil(pixels.height, CELL_SIZE);
        let mut lines: Vec<FixedBits> = Vec::new();
        let mut i: usize = 0;
        while i < height
            invariant
                i <= height,
                lines@.len() == i,
                forall|y: int|
                    0 <= y < i ==> {
                        &&& (#[trigger] lines@[y]).wf()
                        &&& lines@[y].spec_len() == width
                        &&& lines@[y].words().len() == spec_div_ceil(width as int, 8)
                        &&& forall|j: int| !#[trigger] lines@[y].raw_bit(j)
                    },
            decreases height - i,
        {
            lines.push(FixedBits::new(width));
            i = i + 1;
        }
        let r = Self { lines, width, pixels };
        assert forall|x: int, y: int| 0 <= y < r.spec_height() implies !#[trigger] r.raw_cell(x, y) by {
            if 0 <= y < height {
                assert(r.lines@[y].wf());
                assert(!r.lines@[y].raw_bit(x));
            }
        }
        r
    }

    pub fn width(&self) -> (r: usize)
        ensures
            r == self.spec_width(),
    {
        self.width
    }

    pub fn height(&self) -> (r: usize)
        ensures
            r == self.spec_height(),
    {
        self.lines.len()
    }

    pub fn is_empty(&self) -> (r: bool)
        ensures
            r == (self.spec_width() == 0 || self.spec_height() == 0),
    {
        self.width() == 0 || self.height() == 0
    }

    pub fn pixels(&self) -> (r: Size)
        ensures
            r == self.spec_pixels(),
    {
        self.pixels
    }

    pub fn get(&self, x: usize, y: usize) -> (r: bool)
        requires
            self.wf(),
            x < self.spec_width(),
            y < self.spec_height(),
        ensures
            r == self.raw_cell(x as int, y as int),
    {
        assert(self.lines@[y as int].wf());
        let v = self.lines[y].get(x);
        v.unwrap()
    }

    pub fn set(&mut self, x: usize, y: usize, value: bool)
        requires
            old(self).wf(),
            x < old(self).spec_width(),
            y < old(self).spec_height(),
        ensures
            final(self).wf(),
            final(self).spec_width() == old(self).spec_width(),
            final(self).spec_height() == old(self).spec_height(),
            final(self).spec_pixels() == old(self).spec_pixels(),
            forall|i: int, j: int|
                0 <= j < old(self).spec_height() ==> #[trigger] final(self).raw_cell(i, j) == if i == x && j == y {
                    value
                } else {
                    old(self).raw_cell(i, j)
                },
    {
        let ghost old_lines = self.lines@;
        assert(self.lines@[y as int].wf());
        self.lines[y].set(x, value);
        assert forall|i: int, j: int|
            0 <= j < old(self).spec_height() implies #[trigger] self.raw_cell(i, j) == if i == x && j == y {
                value
            } else {
                old(self).raw_cell(i, j)
            } by {
            if j != y {
                assert(self.lines@[j] == old_lines[j]);
            }
        }
    }
    /// Sets each cell to whether `f(x, y)` holds for some pixel `(x, y)` that the cell covers.
    pub fn fill_with_pixels<F: Fn(usize, usize) -> bool>(&mut self, f: F)
        requires
            old(self).wf(),
            forall|x: usize, y: usize|
                x < old(self).spec_pixels().width && y < old(self).spec_pixels().height ==> #[trigger] f.requires((x, y)),
        ensures
            final(self).wf(),
            final(self).spec_width() == old(self).spec_width(),
            final(self).spec_height() == old(self).spec_height(),
            final(self).spec_pixels() == old(self).spec_pixels(),
            forall|x: int, y: int|
                0 <= x < old(self).spec_width() && 0 <= y < old(self).spec_height() ==> (#[trigger] final(self).raw_cell(x, y) ==> pixel_hit(f, cell_range(x, CELL_SIZE as int, old(self).spec_pixels().width as int), cell_range(y, CELL_SIZE as int, old(self).spec_pixels().height as int))) && (!#[trigger] final(self).raw_cell(x, y) ==> pixel_miss(f, cell_range(x, CELL_SIZE as int, old(self).spec_pixels().width as int), cell_range(y, CELL_SIZE as int, old(self).spec_pixels().height as int))),
            forall|x: int, y: int|
                0 <= y < old(self).spec_height() && !(0 <= x < old(self).spec_width()) ==> #[trigger] final(self).raw_cell(x, y) == old(self).raw_cell(x, y),
    {
        let w = self.width();
        let h = self.height();
        let size = self.pixels();
        let mut y: usize = 0;
        while y < h
            invariant
                self.wf(),
                w == self.spec_width(),
                h == self.spec_height(),
                size == self.spec_pixels(),
                w == old(self).spec_width(),
                h == old(self).spec_height(),
                size == old(self).spec_pixels(),
                y <= h,
            forall|x: usize, y: usize|
                x < self.spec_pixels().width && y < self.spec_pixels().height ==> #[trigger] f.requires((x, y)),
                forall|xx: int, yy: int|
                    0 <= xx < w && 0 <= yy < y ==> (#[trigger] self.raw_cell(xx, yy) ==> pixel_hit(f, cell_range(xx, CELL_SIZE as int, self.spec_pixels().width as int), cell_range(yy, CELL_SIZE as int, self.spec_pixels().height as int))) && (!#[trigger] self.raw_cell(xx, yy) ==> pixel_miss(f, cell_range(xx, CELL_SIZE as int, self.spec_pixels().width as int), cell_range(yy, CELL_SIZE as int, self.spec_pixels().height as int))),
                forall|xx: int, yy: int|
                    0 <= yy < h && !(0 <= xx < w && 0 <= yy < y) ==> #[trigger] self.raw_cell(xx, yy) == old(self).raw_cell(xx, yy),
            decreases h - y,
        {
            let mut x: usize = 0;
            while x < w
                invariant
                    self.wf(),
                    w == self.spec_width(),
                    h == self.spec_height(),
                    size == self.spec_pixels(),
                    w == old(self).spec_width(),
                    h == old(self).spec_height(),
                    size == old(self).spec_pixels(),
                    y < h,
                    x <= w,
            forall|x: usize, y: usize|
                x < self.spec_pixels().width && y < self.spec_pixels().height ==> #[trigger] f.requires((x, y)),
                    forall|xx: int, yy: int|
                        (0 <= xx < w && 0 <= yy < y || 0 <= xx < x && yy == y) ==> (#[trigger] self.raw_cell(xx, yy) ==> pixel_hit(f, cell_range(xx, CELL_SIZE as int, self.spec_pixels().width as int), cell_range(yy, CELL_SIZE as int, self.spec_pixels().height as int))) && (!#[trigger] self.raw_cell(xx, yy) ==> pixel_miss(f, cell_range(xx, CELL_SIZE as int, self.spec_pixels().width as int), cell_range(yy, CELL_SIZE as int, self.spec_pixels().height as int))),
                    forall|xx: int, yy: int|
                        0 <= yy < h && !(0 <= xx < w && 0 <= yy < y || 0 <= xx < x && yy == y) ==> #[trigger] self.raw_cell(xx, yy) == old(self).raw_cell(xx, yy),
                decreases w - x,
            {
                proof {
                    lemma_cell_bound(x as int, w as int, size.width as int, CELL_SIZE as int);
                    lemma_cell_bound(y as int, h as int, size.height as int, CELL_SIZE as int);
                }
                let (x_range, y_range) = Self::cell_to_pixel((x, y), size);
                let v = any_pixel(&f, x_range, y_range);
                self.set(x, y, v);
                x = x + 1;
            }
            y = y + 1;
        }
    }

    /// Sets each cell to whether `f(y * width + x)` holds for some pixel `(x, y)` that the cell covers.
    pub fn fill_with_pixels_index<F: Fn(usize) -> bool>(&mut self, f: F)
        requires
            old(self).wf(),
            old(self).spec_pixels().fits(),
            forall|i: usize| i < old(self).spec_pixels().area() ==> #[trigger] f.requires((i,)),
        ensures
            final(self).wf(),
            final(self).spec_width() == old(self).spec_width(),
            final(self).spec_height() == old(self).spec_height(),
            final(self).spec_pixels() == old(self).spec_pixels(),
            forall|x: int, y: int|
                0 <= x < old(self).spec_width() && 0 <= y < old(self).spec_height() ==> (#[trigger] final(self).raw_cell(x, y) ==> index_hit(f, cell_range(x, CELL_SIZE as int, old(self).spec_pixels().width as int), cell_range(y, CELL_SIZE as int, old(self).spec_pixels().height as int), old(self).spec_pixels().width as int)) && (!#[trigger] final(self).raw_cell(x, y) ==> index_miss(f, cell_range(x, CELL_SIZE as int, old(self).spec_pixels().width as int), cell_range(y, CELL_SIZE as int, old(self).spec_pixels().height as int), old(self).spec_pixels().width as int)),
            forall|x: int, y: int|
                0 <= y < old(self).spec_height() && !(0 <= x < old(self).spec_width()) ==> #[trigger] final(self).raw_cell(x, y) == old(self).raw_cell(x, y),
    {
        let w = self.width();
        let h = self.height();
        let size = self.pixels();
        let mut y: usize = 0;
        while y < h
            invariant
                self.wf(),
                w == self.spec_width(),
                h == self.spec_height(),
                size == self.spec_pixels(),
                w == old(self).spec_width(),
                h == old(self).spec_height(),
                size == old(self).spec_pixels(),
                y <= h,
            self.spec_pixels().fits(),
            forall|i: usize| i < self.spec_pixels().area() ==> #[trigger] f.requires((i,)),
                forall|xx: int, yy: int|
                    0 <= xx < w && 0 <= yy < y ==> (#[trigger] self.raw_cell(xx, yy) ==> index_hit(f, cell_range(xx, CELL_SIZE as int, self.spec_pixels().width as int), cell_range(yy, CELL_SIZE as int, self.spec_pixels().height as int), self.spec_pixels().width as int)) && (!#[trigger] self.raw_cell(xx, yy) ==> index_miss(f, cell_range(xx, CELL_SIZE as int, self.spec_pixels().width as int), cell_range(yy, CELL_SIZE as int, self.spec_pixels().height as int), self.spec_pixels().width as int)),
                forall|xx: int, yy: int|
                    0 <= yy < h && !(0 <= xx < w && 0 <= yy < y) ==> #[trigger] self.raw_cell(xx, yy) == old(self).raw_cell(xx, yy),
            decreases h - y,
        {
            let mut x: usize = 0;
            while x < w
                invariant
                    self.wf(),
                    w == self.spec_width(),
                    h == self.spec_height(),
                    size == self.spec_pixels(),
                    w == old(self).spec_width(),
                    h == old(self).spec_height(),
                    size == old(self).spec_pixels(),
                    y < h,
                    x <= w,
            self.spec_pixels().fits(),
            forall|i: usize| i < self.spec_pixels().area() ==> #[trigger] f.requires((i,)),
                    forall|xx: int, yy: int|
                        (0 <= xx < w && 0 <= yy < y || 0 <= xx < x && yy == y) ==> (#[trigger] self.raw_cell(xx, yy) ==> index_hit(f, cell_range(xx, CELL_SIZE as int, self.spec_pixels().width as int), cell_range(yy, CELL_SIZE as int, self.spec_pixels().height as int), self.spec_pixels().width as int)) && (!#[trigger] self.raw_cell(xx, yy) ==> index_miss(f, cell_range(xx, CELL_SIZE as int, self.spec_pixels().width as int), cell_range(yy, CELL_SIZE as int, self.spec_pixels().height as int), self.spec_pixels().width as int)),
                    forall|xx: int, yy: int|
                        0 <= yy < h && !(0 <= xx < w && 0 <= yy < y || 0 <= xx < x && yy == y) ==> #[trigger] self.raw_cell(xx, yy) == old(self).raw_cell(xx, yy),
                decreases w - x,
            {
                proof {
                    lemma_cell_bound(x as int, w as int, size.width as int, CELL_SIZE as int);
                    lemma_cell_bound(y as int, h as int, size.height as int, CELL_SIZE as int);
                }
                let (x_range, y_range) = Self::cell_to_pixel((x, y), size);
                proof {
                    vstd::arithmetic::mul::lemma_mul_inequality(y_range.end as int, size.height as int, size.width as int);
                    vstd::arithmetic::mul::lemma_mul_is_commutative(size.height as int, size.width as int);
                    assert forall|xx: int, yy: int|
                        x_range.start <= xx < x_range.end && y_range.start <= yy < y_range.end implies #[trigger] f.requires(((yy * size.width + xx) as usize,)) by {
                        vstd::arithmetic::mul::lemma_mul_inequality(yy + 1, size.height as int, size.width as int);
                        vstd::arithmetic::mul::lemma_mul_is_distributive_add_other_way(size.width as int, yy, 1);
                    }
                }
                let v = any_index(&f, x_range, y_range, size.width);
                self.set(x, y, v);
                x = x + 1;
            }
            y = y + 1;
        }
    }

    /// Keeps each set cell set only where `f(x, y)` holds for some pixel `(x, y)` that it covers.
    pub fn and_any<F: Fn(usize, usize) -> bool>(&mut self, f: F)
        requires
            old(self).wf(),
            forall|x: usize, y: usize|
                x < old(self).spec_pixels().width && y < old(self).spec_pixels().height ==> #[trigger] f.requires((x, y)),
        ensures
            final(self).wf(),
            final(self).spec_width() == old(self).spec_width(),
            final(self).spec_height() == old(self).spec_height(),
            final(self).spec_pixels() == old(self).spec_pixels(),
            forall|x: int, y: int|
                0 <= x < old(self).spec_width() && 0 <= y < old(self).spec_height() ==> (#[trigger] final(self).raw_cell(x, y) ==> old(self).raw_cell(x, y) && pixel_hit(f, cell_range(x, CELL_SIZE as int, old(self).spec_pixels().width as int), cell_range(y, CELL_SIZE as int, old(self).spec_pixels().height as int))) && (!#[trigger] final(self).raw_cell(x, y) ==> !old(self).raw_cell(x, y) || pixel_miss(f, cell_range(x, CELL_SIZE as int, old(self).spec_pixels().width as int), cell_range(y, CELL_SIZE as int, old(self).spec_pixels().height as int))),
            forall|x: int, y: int|
                0 <= y < old(self).spec_height() && !(0 <= x < old(self).spec_width()) ==> #[trigger] final(self).raw_cell(x, y) == old(self).raw_cell(x, y),
    {
        let w = self.width();
        let h = self.height();
        let size = self.pixels();
        let mut y: usize = 0;
        while y < h
            invariant
                self.wf(),
                w == self.spec_width(),
                h == self.spec_height(),
                size == self.spec_pixels(),
                w == old(self).spec_width(),
                h == old(self).spec_height(),
                size == old(self).spec_pixels(),
                y <= h,
            forall|x: usize, y: usize|
                x < self.spec_pixels().width && y < self.spec_pixels().height ==> #[trigger] f.requires((x, y)),
                forall|xx: int, yy: int|
                    0 <= xx < w && 0 <= yy < y ==> (#[trigger] self.raw_cell(xx, yy) ==> old(self).raw_cell(xx, yy) && pixel_hit(f, cell_range(xx, CELL_SIZE as int, self.spec_pixels().width as int), cell_range(yy, CELL_SIZE as int, self.spec_pixels().height as int))) && (!#[trigger] self.raw_cell(xx, yy) ==> !old(self).raw_cell(xx, yy) || pixel_miss(f, cell_range(xx, CELL_SIZE as int, self.spec_pixels().width as int), cell_range(yy, CELL_SIZE as int, self.spec_pixels().height as int))),
                forall|xx: int, yy: int|
                    0 <= yy < h && !(0 <= xx < w && 0 <= yy < y) ==> #[trigger] self.raw_cell(xx, yy) == old(self).raw_cell(xx, yy),
            decreases h - y,
        {
            let mut x: usize = 0;
            while x < w
                invariant
                    self.wf(),
                    w == self.spec_width(),
                    h == self.spec_height(),
                    size == self.spec_pixels(),
                    w == old(self).spec_width(),
                    h == old(self).spec_height(),
                    size == old(self).spec_pixels(),
                    y < h,
                    x <= w,
            forall|x: usize, y: usize|
                x < self.spec_pixels().width && y < self.spec_pixels().height ==> #[trigger] f.requires((x, y)),
                    forall|xx: int, yy: int|
                        (0 <= xx < w && 0 <= yy < y || 0 <= xx < x && yy == y) ==> (#[trigger] self.raw_cell(xx, yy) ==> old(self).raw_cell(xx, yy) && pixel_hit(f, cell_range(xx, CELL_SIZE as int, self.spec_pixels().width as int), cell_range(yy, CELL_SIZE as int, self.spec_pixels().height as int))) && (!#[trigger] self.raw_cell(xx, yy) ==> !old(self).raw_cell(xx, yy) || pixel_miss(f, cell_range(xx, CELL_SIZE as int, self.spec_pixels().width as int), cell_range(yy, CELL_SIZE as int, self.spec_pixels().height as int))),
                    forall|xx: int, yy: int|
                        0 <= yy < h && !(0 <= xx < w && 0 <= yy < y || 0 <= xx < x && yy == y) ==> #[trigger] self.raw_cell(xx, yy) == old(self).raw_cell(xx, yy),
                decreases w - x,
            {
                proof {
                    lemma_cell_bound(x as int, w as int, size.width as int, CELL_SIZE as int);
                    lemma_cell_bound(y as int, h as int, size.height as int, CELL_SIZE as int);
                }
                let v = if self.get(x, y) {
                    let (x_range, y_range) = Self::cell_to_pixel((x, y), size);
                    any_pixel(&f, x_range, y_range)
                } else {
                    false
                };
                self.set(x, y, v);
                x = x + 1;
            }
            y = y + 1;
        }
    }

    /// Keeps each set cell set only where `f(y * width + x)` holds for some pixel `(x, y)` that it covers.
    pub fn and_any_index<F: Fn(usize) -> bool>(&mut self, f: F)
        requires
            old(self).wf(),
            old(self).spec_pixels().fits(),
            forall|i: usize| i < old(self).spec_pixels().area() ==> #[trigger] f.requires((i,)),
        ensures
            final(self).wf(),
            final(self).spec_width() == old(self).spec_width(),
            final(self).spec_height() == old(self).spec_height(),
            final(self).spec_pixels() == old(self).spec_pixels(),
            forall|x: int, y: int|
                0 <= x < old(self).spec_width() && 0 <= y < old(self).spec_height() ==> (#[trigger] final(self).raw_cell(x, y) ==> old(self).raw_cell(x, y) && index_hit(f, cell_range(x, CELL_SIZE as int, old(self).spec_pixels().width as int), cell_range(y, CELL_SIZE as int, old(self).spec_pixels().height as int), old(self).spec_pixels().width as int)) && (!#[trigger] final(self).raw_cell(x, y) ==> !old(self).raw_cell(x, y) || index_miss(f, cell_range(x, CELL_SIZE as int, old(self).spec_pixels().width as int), cell_range(y, CELL_SIZE as int, old(self).spec_pixels().height as int), old(self).spec_pixels().width as int)),
            forall|x: int, y: int|
                0 <= y < old(self).spec_height() && !(0 <= x < old(self).spec_width()) ==> #[trigger] final(self).raw_cell(x, y) == old(self).raw_cell(x, y),
    {
        let w = self.width();
        let h = self.height();
        let size = self.pixels();
        let mut y: usize = 0;
        while y < h
            invariant
                self.wf(),
                w == self.spec_width(),
                h == self.spec_height(),
                size == self.spec_pixels(),
                w == old(self).spec_width(),
                h == old(self).spec_height(),
                size == old(self).spec_pixels(),
                y <= h,
            self.spec_pixels().fits(),
            forall|i: usize| i < self.spec_pixels().area() ==> #[trigger] f.requires((i,)),
                forall|xx: int, yy: int|
                    0 <= xx < w && 0 <= yy < y ==> (#[trigger] self.raw_cell(xx, yy) ==> old(self).raw_cell(xx, yy) && index_hit(f, cell_range(xx, CELL_SIZE as int, self.spec_pixels().width as int), cell_range(yy, CELL_SIZE as int, self.spec_pixels().height as int), self.spec_pixels().width as int)) && (!#[trigger] self.raw_cell(xx, yy) ==> !old(self).raw_cell(xx, yy) || index_miss(f, cell_range(xx, CELL_SIZE as int, self.spec_pixels().width as int), cell_range(yy, CELL_SIZE as int, self.spec_pixels().height as int), self.spec_pixels().width as int)),
                forall|xx: int, yy: int|
                    0 <= yy < h && !(0 <= xx < w && 0 <= yy < y) ==> #[trigger] self.raw_cell(xx, yy) == old(self).raw_cell(xx, yy),
            decreases h - y,
        {
            let mut x: usize = 0;
            while x < w
                invariant
                    self.wf(),
                    w == self.spec_width(),
                    h == self.spec_height(),
                    size == self.spec_pixels(),
                    w == old(self).spec_width(),
                    h == old(self).spec_height(),
                    size == old(self).spec_pixels(),
                    y < h,
                    x <= w,
            self.spec_pixels().fits(),
            forall|i: usize| i < self.spec_pixels().area() ==> #[trigger] f.requires((i,)),
                    forall|xx: int, yy: int|
                        (0 <= xx < w && 0 <= yy < y || 0 <= xx < x && yy == y) ==> (#[trigger] self.raw_cell(xx, yy) ==> old(self).raw_cell(xx, yy) && index_hit(f, cell_range(xx, CELL_SIZE as int, self.spec_pixels().width as int), cell_range(yy, CELL_SIZE as int, self.spec_pixels().height as int), self.spec_pixels().width as int)) && (!#[trigger] self.raw_cell(xx, yy) ==> !old(self).raw_cell(xx, yy) || index_miss(f, cell_range(xx, CELL_SIZE as int, self.spec_pixels().width as int), cell_range(yy, CELL_SIZE as int, self.spec_pixels().height as int), self.spec_pixels().width as int)),
                    forall|xx: int, yy: int|
                        0 <= yy < h && !(0 <= xx < w && 0 <= yy < y || 0 <= xx < x && yy == y) ==> #[trigger] self.raw_cell(xx, yy) == old(self).raw_cell(xx, yy),
                decreases w - x,
            {
                proof {
                    lemma_cell_bound(x as int, w as int, size.width as int, CELL_SIZE as int);
                    lemma_cell_bound(y as int, h as int, size.height as int, CELL_SIZE as int);
                }
                let v = if self.get(x, y) {
                    let (x_range, y_range) = Self::cell_to_pixel((x, y), size);
                    proof {
                        vstd::arithmetic::mul::lemma_mul_inequality(y_range.end as int, size.height as int, size.width as int);
                        vstd::arithmetic::mul::lemma_mul_is_commutative(size.height as int, size.width as int);
                        assert forall|xx: int, yy: int|
                            x_range.start <= xx < x_range.end && y_range.start <= yy < y_range.end implies #[trigger] f.requires(((yy * size.width + xx) as usize,)) by {
                            vstd::arithmetic::mul::lemma_mul_inequality(yy + 1, size.height as int, size.width as int);
                            vstd::arithmetic::mul::lemma_mul_is_distributive_add_other_way(size.width as int, yy, 1);
                        }
                    }
                    let v = any_index(&f, x_range, y_range, size.width);
                    v
                } else {
                    false
                };
                self.set(x, y, v);
                x = x + 1;
            }
            y = y + 1;
        }
    }

    /// Sets each cell `(x, y)` to `f(old value, x, y)`.
    pub fn fill_cells<F: Fn(bool, usize, usize) -> bool>(&mut self, f: F)
        requires
            old(self).wf(),
            forall|b: bool, x: usize, y: usize| #[trigger] f.requires((b, x, y)),
        ensures
            final(self).wf(),
            final(self).spec_width() == old(self).spec_width(),
            final(self).spec_height() == old(self).spec_height(),
            final(self).spec_pixels() == old(self).spec_pixels(),
            forall|x: int, y: int|
                0 <= x < old(self).spec_width() && 0 <= y < old(self).spec_height() ==> f.ensures((old(self).raw_cell(x, y), x as usize, y as usize), #[trigger] final(self).raw_cell(x, y)),
            forall|x: int, y: int|
                0 <= y < old(self).spec_height() && !(0 <= x < old(self).spec_width()) ==> #[trigger] final(self).raw_cell(x, y) == old(self).raw_cell(x, y),
    {
        let w = self.width();
        let h = self.height();
        let size = self.pixels();
        let mut y: usize = 0;
        while y < h
            invariant
                self.wf(),
                w == self.spec_width(),
                h == self.spec_height(),
                size == self.spec_pixels(),
                w == old(self).spec_width(),
                h == old(self).spec_height(),
                size == old(self).spec_pixels(),
                y <= h,
            forall|b: bool, x: usize, y: usize| #[trigger] f.requires((b, x, y)),
                forall|xx: int, yy: int|
                    0 <= xx < w && 0 <= yy < y ==> f.ensures((old(self).raw_cell(xx, yy), xx as usize, yy as usize), #[trigger] self.raw_cell(xx, yy)),
                forall|xx: int, yy: int|
                    0 <= yy < h && !(0 <= xx < w && 0 <= yy < y) ==> #[trigger] self.raw_cell(xx, yy) == old(self).raw_cell(xx, yy),
            decreases h - y,
        {
            let mut x: usize = 0;
            while x < w
                invariant
                    self.wf(),
                    w == self.spec_width(),
                    h == self.spec_height(),
                    size == self.spec_pixels(),
                    w == old(self).spec_width(),
                    h == old(self).spec_height(),
                    size == old(self).spec_pixels(),
                    y < h,
                    x <= w,
            forall|b: bool, x: usize, y: usize| #[trigger] f.requires((b, x, y)),
                    forall|xx: int, yy: int|
                        (0 <= xx < w && 0 <= yy < y || 0 <= xx < x && yy == y) ==> f.ensures((old(self).raw_cell(xx, yy), xx as usize, yy as usize), #[trigger] self.raw_cell(xx, yy)),
                    forall|xx: int, yy: int|
                        0 <= yy < h && !(0 <= xx < w && 0 <= yy < y || 0 <= xx < x && yy == y) ==> #[trigger] self.raw_cell(xx, yy) == old(self).raw_cell(xx, yy),
                decreases w - x,
            {
                proof {
                    lemma_cell_bound(x as int, w as int, size.width as int, CELL_SIZE as int);
                    lemma_cell_bound(y as int, h as int, size.height as int, CELL_SIZE as int);
                }
                let old_v = self.get(x, y);
                let v = f(old_v, x, y);
                self.set(x, y, v);
                x = x + 1;
            }
            y = y + 1;
        }
    }
    /// Whether stored cell `(x, y)` lies in the part of the last storage word of a row that
    /// is beyond `width`: the cells that `FixedBits::expand_one` clears.
    pub open spec fn in_cleared_tail(&self, x: int) -> bool {
        &&& self.spec_width() % 64 != 0
        &&& spec_div_ceil(self.spec_width() as int, 8) > 0
        &&& x / 64 == spec_div_ceil(self.spec_width() as int, 8) - 1
        &&& x % 64 >= self.spec_width() % 64
    }

    /// Stored cell `(x, y)` or the one below it is set.
    spec fn downward(&self, x: int, y: int) -> bool {
        self.raw_cell(x, y) || (y + 1 < self.spec_height() && self.raw_cell(x, y + 1))
    }

    /// Stored cell `(x, y)` or one of its vertical neighbours is set.
    pub open spec fn vertical(&self, x: int, y: int) -> bool {
        ||| (y >= 1 && self.raw_cell(x, y - 1))
        ||| self.raw_cell(x, y)
        ||| (y + 1 < self.spec_height() && self.raw_cell(x, y + 1))
    }

    /// Cell `(x, y)` after `expand_one`, before the tail is cleared: the vertical spread, then
    /// the horizontal spread of `FixedBits::expand_one`.
    pub open spec fn expanded_cell(&self, x: int, y: int) -> bool {
        let v = |i: int| 0 <= i < self.capacity() && self.vertical(i, y);
        ||| v(x)
        ||| v(x - 1)
        ||| v(x + 1)
        ||| (x % 64 == 63 && v(x + 2))
        ||| (x % 64 == 0 && v(x - 2))
    }

    /// Cellwise and with `other`.
    pub fn and(&mut self, other: &Self)
        requires
            old(self).wf(),
            other.wf(),
            old(self).spec_width() == other.spec_width(),
            old(self).spec_height() == other.spec_height(),
        ensures
            final(self).wf(),
            final(self).spec_width() == old(self).spec_width(),
            final(self).spec_height() == old(self).spec_height(),
            final(self).spec_pixels() == old(self).spec_pixels(),
            forall|x: int, y: int|
                0 <= y < old(self).spec_height() ==> #[trigger] final(self).raw_cell(x, y) == (
                old(self).raw_cell(x, y) && other.raw_cell(x, y)),
    {
        let h = self.lines.len();
        let mut i: usize = 0;
        while i < h
            invariant
                self.wf(),
                h == self.spec_height(),
                self.spec_width() == old(self).spec_width(),
                self.spec_height() == old(self).spec_height(),
                self.spec_pixels() == old(self).spec_pixels(),
                self.spec_width() == other.spec_width(),
                self.spec_height() == other.spec_height(),
                other.wf(),
                i <= h,
                forall|x: int, y: int|
                    0 <= y < i ==> #[trigger] self.raw_cell(x, y) == (old(self).raw_cell(x, y)
                        && other.raw_cell(x, y)),
                forall|x: int, y: int|
                    i <= y < h ==> #[trigger] self.raw_cell(x, y) == old(self).raw_cell(x, y),
            decreases h - i,
        {
            let ghost before = *self;
            assert(self.line(i as int).wf());
            assert(other.line(i as int).wf());
            self.lines[i].and(&other.lines[i]);
            proof {
                assert forall|y: int| 0 <= y < h && y != i implies #[trigger] self.line(y) == before.line(y) by {}
                assert forall|x: int, y: int| 0 <= y < h implies #[trigger] self.raw_cell(x, y) == if y == i {
                    before.raw_cell(x, y) && other.raw_cell(x, y)
                } else {
                    before.raw_cell(x, y)
                } by {
                    if y == i {
                        if !(0 <= x < self.capacity()) {
                            assert(!before.raw_cell(x, y));
                        }
                    } else {
                        assert(self.line(y) == before.line(y));
                    }
                }
            }
            i = i + 1;
        }
    }

    /// Sets every cell that has a set neighbour, diagonal neighbours included: first each row
    /// takes in both vertical neighbours, then each row spreads horizontally as
    /// `FixedBits::expand_one` does.
    pub fn expand_one(&mut self)
        requires
            old(self).wf(),
        ensures
            final(self).wf(),
            final(self).spec_width() == old(self).spec_width(),
            final(self).spec_height() == old(self).spec_height(),
            final(self).spec_pixels() == old(self).spec_pixels(),
            forall|x: int, y: int|
                0 <= y < old(self).spec_height() && 0 <= x < old(self).capacity()
                    ==> #[trigger] final(self).raw_cell(x, y) == (old(self).expanded_cell(x, y)
                    && !old(self).in_cleared_tail(x)),
    {
        let ghost orig = *self;
        let h = self.lines.len();
        if h > 1 {
            let mut i: usize = 0;
            while i + 1 < h
                invariant
                    self.wf(),
                    h == self.spec_height(),
                    h > 1,
                    i + 1 <= h,
                    self.spec_width() == orig.spec_width(),
                    self.spec_height() == orig.spec_height(),
                    self.spec_pixels() == orig.spec_pixels(),
                    orig.wf(),
                    forall|x: int, y: int| 0 <= y < i ==> #[trigger] self.raw_cell(x, y) == orig.downward(x, y),
                    forall|x: int, y: int| i <= y < h ==> #[trigger] self.raw_cell(x, y) == orig.raw_cell(x, y),
                decreases h - i,
            {
                let ghost before = *self;
                assert(self.line(i + 1).wf());
                let next = self.lines[i + 1].clone();
                assert(self.line(i as int).wf());
                self.lines[i].or(&next);
                proof {
                    assert forall|x: int, y: int| 0 <= y < h implies #[trigger] self.raw_cell(x, y) == if y == i {
                        before.raw_cell(x, y) || before.raw_cell(x, y + 1)
                    } else {
                        before.raw_cell(x, y)
                    } by {
                        if y == i {
                            if !(0 <= x < self.capacity()) {
                                assert(!before.raw_cell(x, y + 1));
                            }
                        } else {
                            assert(self.line(y) == before.line(y));
                        }
                    }
                    assert forall|x: int, y: int| 0 <= y <= i implies #[trigger] self.raw_cell(x, y) == orig.downward(x, y) by {
                        if y == i {
                            assert(before.raw_cell(x, y) == orig.raw_cell(x, y));
                            assert(before.raw_cell(x, y + 1) == orig.raw_cell(x, y + 1));
                            assert(self.raw_cell(x, y) == (before.raw_cell(x, y) || before.raw_cell(x, y + 1)));
                        } else {
                            assert(before.raw_cell(x, y) == orig.downward(x, y));
                        }
                    }
                }
                i = i + 1;
            }
            let mut i: usize = h - 1;
            while i > 0
                invariant
                    self.wf(),
                    h == self.spec_height(),
                    h > 1,
                    i < h,
                    self.spec_width() == orig.spec_width(),
                    self.spec_height() == orig.spec_height(),
                    self.spec_pixels() == orig.spec_pixels(),
                    orig.wf(),
                    forall|x: int, y: int| i < y < h ==> #[trigger] self.raw_cell(x, y) == orig.vertical(x, y),
                    forall|x: int, y: int| 0 <= y <= i ==> #[trigger] self.raw_cell(x, y) == orig.downward(x, y),
                decreases i,
            {
                let ghost before = *self;
                assert(self.line(i - 1).wf());
                let prev = self.lines[i - 1].clone();
                assert(self.line(i as int).wf());
                self.lines[i].or(&prev);
                proof {
                    assert forall|x: int, y: int| 0 <= y < h implies #[trigger] self.raw_cell(x, y) == if y == i {
                        before.raw_cell(x, y) || before.raw_cell(x, y - 1)
                    } else {
                        before.raw_cell(x, y)
                    } by {
                        if y == i {
                            if !(0 <= x < self.capacity()) {
                                assert(!before.raw_cell(x, y - 1));
                            }
                        } else {
                            assert(self.line(y) == before.line(y));
                        }
                    }
                    assert forall|x: int, y: int| i <= y < h implies #[trigger] self.raw_cell(x, y) == orig.vertical(x, y) by {
                        if y == i {
                            assert(before.raw_cell(x, y) == orig.downward(x, y));
                            assert(before.raw_cell(x, y - 1) == orig.downward(x, y - 1));
                        } else {
                            assert(before.raw_cell(x, y) == orig.vertical(x, y));
                        }
                    }
                }
                i = i - 1;
            }
        }
        proof {
            assert forall|x: int, y: int| 0 <= y < h implies #[trigger] self.raw_cell(x, y) == orig.vertical(x, y) by {
                if h > 1 {
                    if y == 0 {
                        assert(self.raw_cell(x, y) == orig.downward(x, y));
                    } else {
                        assert(self.raw_cell(x, y) == orig.vertical(x, y));
                    }
                }
            }
        }
        let ghost vert = *self;
        let mut i: usize = 0;
        while i < h
            invariant
                self.wf(),
                vert.wf(),
                h == self.spec_height(),
                h == vert.spec_height(),
                self.spec_width() == orig.spec_width(),
                self.spec_height() == orig.spec_height(),
                self.spec_pixels() == orig.spec_pixels(),
                vert.spec_width() == orig.spec_width(),
                orig.wf(),
                i <= h,
                forall|x: int, y: int| 0 <= y < h ==> #[trigger] vert.raw_cell(x, y) == orig.vertical(x, y),
                forall|x: int, y: int|
                    0 <= y < i && 0 <= x < orig.capacity() ==> #[trigger] self.raw_cell(x, y) == (orig.expanded_cell(x, y)
                        && !orig.in_cleared_tail(x)),
                forall|y: int| i <= y < h ==> #[trigger] self.line(y) == vert.line(y),
            decreases h - i,
        {
            let ghost before = *self;
            assert(self.line(i as int).wf());
            self.lines[i].expand_one();
            proof {
                let ln = vert.line(i as int);
                assert(ln.wf());
                assert forall|x: int| 0 <= x < orig.capacity() implies #[trigger] self.raw_cell(x, i as int) == (orig.expanded_cell(x, i as int)
                    && !orig.in_cleared_tail(x)) by {
                    assert(self.raw_cell(x, i as int) == (expanded_bit(ln.words(), x) && !ln.in_cleared_tail(x)));
                    assert(vert.raw_cell(x, i as int) == orig.vertical(x, i as int));
                    assert(seq_bit(ln.words(), x) == (0 <= x < orig.capacity() && orig.vertical(x, i as int)));
                    assert(vert.raw_cell(x - 1, i as int) == orig.vertical(x - 1, i as int));
                    assert(seq_bit(ln.words(), x - 1) == (0 <= x - 1 < orig.capacity() && orig.vertical(x - 1, i as int)));
                    assert(vert.raw_cell(x + 1, i as int) == orig.vertical(x + 1, i as int));
                    assert(seq_bit(ln.words(), x + 1) == (0 <= x + 1 < orig.capacity() && orig.vertical(x + 1, i as int)));
                    assert(vert.raw_cell(x + 2, i as int) == orig.vertical(x + 2, i as int));
                    assert(seq_bit(ln.words(), x + 2) == (0 <= x + 2 < orig.capacity() && orig.vertical(x + 2, i as int)));
                    assert(vert.raw_cell(x - 2, i as int) == orig.vertical(x - 2, i as int));
                    assert(seq_bit(ln.words(), x - 2) == (0 <= x - 2 < orig.capacity() && orig.vertical(x - 2, i as int)));
                }
                assert forall|y: int| 0 <= y < h && y != i implies #[trigger] self.line(y) == before.line(y) by {}
                assert forall|x: int, y: int|
                    0 <= y < i + 1 && 0 <= x < orig.capacity() implies #[trigger] self.raw_cell(x, y) == (orig.expanded_cell(x, y)
                        && !orig.in_cleared_tail(x)) by {
                    if y < i {
                        assert(self.line(y) == before.line(y));
                        assert(before.raw_cell(x, y) == (orig.expanded_cell(x, y) && !orig.in_cleared_tail(x)));
                    }
                }
            }
            i = i + 1;
        }
    }
    /// Cell `(x, y)` is not at the border of the grid.
    pub open spec fn is_inner(&self, x: int, y: int) -> bool {
        1 <= x < self.spec_width() - 1 && 1 <= y < self.spec_height() - 1
    }

    /// The pixel ranges of cell `(x, y)`, whether it is inner, and its index `y * width + x`.
    pub open spec fn cell_entry(&self, x: int, y: int) -> (Range<usize>, Range<usize>, bool, usize) {
        let xr = cell_range(x, CELL_SIZE as int, self.spec_pixels().width as int);
        let yr = cell_range(y, CELL_SIZE as int, self.spec_pixels().height as int);
        (
            Range { start: xr.0 as usize, end: xr.1 as usize },
            Range { start: yr.0 as usize, end: yr.1 as usize },
            self.is_inner(x, y),
            (y * self.spec_width() + x) as usize,
        )
    }

    /// The entries of the set cells among the first `n` cells in row-major order.
    pub open spec fn set_cells_upto(&self, n: int) -> Seq<(Range<usize>, Range<usize>, bool, usize)>
        decreases n,
    {
        if n <= 0 {
            Seq::empty()
        } else {
            let prev = self.set_cells_upto(n - 1);
            let x = (n - 1) % (self.spec_width() as int);
            let y = (n - 1) / (self.spec_width() as int);
            if self.raw_cell(x, y) {
                prev.push(self.cell_entry(x, y))
            } else {
                prev
            }
        }
    }

    /// The entries of all set cells in row-major order.
    pub open spec fn set_cells(&self) -> Seq<(Range<usize>, Range<usize>, bool, usize)> {
        self.set_cells_upto((self.spec_width() * self.spec_height()) as int)
    }

    /// The set cells in row-major order, each with its pixel ranges, whether it is inner and
    /// its index `y * width + x`.
    pub fn for_each_true_cell(&self) -> (r: Vec<(Range<usize>, Range<usize>, bool, usize)>)
        requires
            self.wf(),
            self.spec_width() * self.spec_height() <= usize::MAX,
        ensures
            r@ == self.set_cells(),
    {
        let mut r: Vec<(Range<usize>, Range<usize>, bool, usize)> = Vec::new();
        if self.is_empty() {
            proof {
                vstd::arithmetic::mul::lemma_mul_basics(self.spec_width() as int);
                vstd::arithmetic::mul::lemma_mul_basics(self.spec_height() as int);
                assert(self.set_cells_upto(0) =~= Seq::empty());
            }
            return r;
        }
        let w = self.width();
        let h = self.height();
        let size = self.pixels();
        let mut y: usize = 0;
        while y < h
            invariant
                self.wf(),
                w == self.spec_width(),
                h == self.spec_height(),
                size == self.spec_pixels(),
                w > 0,
                h > 0,
                w * h <= usize::MAX,
                y <= h,
                r@ == self.set_cells_upto(y * w),
            decreases h - y,
        {
            proof {
                vstd::arithmetic::mul::lemma_mul_inequality(y as int + 1, h as int, w as int);
                vstd::arithmetic::mul::lemma_mul_is_distributive_add_other_way(w as int, y as int, 1);
                vstd::arithmetic::mul::lemma_mul_is_commutative(w as int, h as int);
                lemma_cell_bound(y as int, h as int, size.height as int, CELL_SIZE as int);
            }
            let y_range = Self::cell_to_pixel_dimension(y, size.height);
            let mut x: usize = 0;
            while x < w
                invariant
                    self.wf(),
                    w == self.spec_width(),
                    h == self.spec_height(),
                    size == self.spec_pixels(),
                    w > 0,
                    y < h,
                    (y + 1) * w <= usize::MAX,
                    (y + 1) * w == y * w + w,
                    x <= w,
                    (y_range.start as int, y_range.end as int) == cell_range(y as int, CELL_SIZE as int, size.height as int),
                    r@ == self.set_cells_upto(y * w + x),
                decreases w - x,
            {
                proof {
                    vstd::arithmetic::div_mod::lemma_fundamental_div_mod_converse(
                        (y * w + x) as int,
                        w as int,
                        y as int,
                        x as int,
                    );
                    lemma_cell_bound(x as int, w as int, size.width as int, CELL_SIZE as int);
                }
                if self.get(x, y) {
                    let x_range = Self::cell_to_pixel_dimension(x, size.width);
                    let is_inner = 1 <= x && x + 1 < w && 1 <= y && y + 1 < h;
                    let cell_index = y * w + x;
                    r.push((x_range, y_range.start..y_range.end, is_inner, cell_index));
                }
                x = x + 1;
            }
            y = y + 1;
        }
        proof {
            vstd::arithmetic::mul::lemma_mul_is_commutative(w as int, h as int);
        }
        r
    }

    /// The set cells in row-major order, each with its pixel ranges and whether it is inner.
    pub fn for_each_true(&self) -> (r: Vec<(Range<usize>, Range<usize>, bool)>)
        requires
            self.wf(),
        ensures
            r.len() == self.set_cells().len(),
            forall|k: int|
                0 <= k < r.len() ==> #[trigger] r@[k] == (
                    self.set_cells()[k].0,
                    self.set_cells()[k].1,
                    self.set_cells()[k].2,
                ),
    {
        let mut r: Vec<(Range<usize>, Range<usize>, bool)> = Vec::new();
        if self.is_empty() {
            proof {
                vstd::arithmetic::mul::lemma_mul_basics(self.spec_width() as int);
                vstd::arithmetic::mul::lemma_mul_basics(self.spec_height() as int);
            }
            return r;
        }
        let w = self.width();
        let h = self.height();
        let size = self.pixels();
        let ghost mut k: int = 0;
        let mut y: usize = 0;
        while y < h
            invariant
                self.wf(),
                w == self.spec_width(),
                h == self.spec_height(),
                size == self.spec_pixels(),
                w > 0,
                h > 0,
                y <= h,
                k == y * w,
                r.len() == self.set_cells_upto(k).len(),
                forall|j: int|
                    0 <= j < r.len() ==> #[trigger] r@[j] == (
                        self.set_cells_upto(k)[j].0,
                        self.set_cells_upto(k)[j].1,
                        self.set_cells_upto(k)[j].2,
                    ),
            decreases h - y,
        {
            proof {
                vstd::arithmetic::mul::lemma_mul_is_distributive_add_other_way(w as int, y as int, 1);
                lemma_cell_bound(y as int, h as int, size.height as int, CELL_SIZE as int);
            }
            let y_range = Self::cell_to_pixel_dimension(y, size.height);
            let mut x: usize = 0;
            while x < w
                invariant
                    self.wf(),
                    w == self.spec_width(),
                    h == self.spec_height(),
                    size == self.spec_pixels(),
                    w > 0,
                    y < h,
                    x <= w,
                    k == y * w + x,
                    (y_range.start as int, y_range.end as int) == cell_range(y as int, CELL_SIZE as int, size.height as int),
                    r.len() == self.set_cells_upto(k).len(),
                    forall|j: int|
                        0 <= j < r.len() ==> #[trigger] r@[j] == (
                            self.set_cells_upto(k)[j].0,
                            self.set_cells_upto(k)[j].1,
                            self.set_cells_upto(k)[j].2,
                        ),
                decreases w - x,
            {
                proof {
                    vstd::arithmetic::div_mod::lemma_fundamental_div_mod_converse(
                        k,
                        w as int,
                        y as int,
                        x as int,
                    );
                    lemma_cell_bound(x as int, w as int, size.width as int, CELL_SIZE as int);
                }
                if self.get(x, y) {
                    let x_range = Self::cell_to_pixel_dimension(x, size.width);
                    let is_inner = 1 <= x && x + 1 < w && 1 <= y && y + 1 < h;
                    r.push((x_range, y_range.start..y_range.end, is_inner));
                }
                proof {
                    k = k + 1;
                }
                x = x + 1;
            }
            y = y + 1;
        }
        proof {
            vstd::arithmetic::mul::lemma_mul_is_commutative(w as int, h as int);
        }
        r
    }
}

/// Cell `(x, y)` of the stored cells `c` of a grid `h` rows high, or one of its vertical
/// neighbours within the grid, is set.
pub open spec fn vertical_of(c: spec_fn(int, int) -> bool, h: int, x: int, y: int) -> bool {
    ||| (y >= 1 && c(x, y - 1))
    ||| c(x, y)
    ||| (y + 1 < h && c(x, y + 1))
}

/// Column `x` lies in the part of the last storage word of a row of a grid `w` cells wide that
/// `expand_one` clears.
pub open spec fn cleared_tail_of(w: int, x: int) -> bool {
    &&& w % 64 != 0
    &&& spec_div_ceil(w, 8) > 0
    &&& x / 64 == spec_div_ceil(w, 8) - 1
    &&& x % 64 >= w % 64
}

/// Stored cell `(x, y)` after one `expand_one` of a grid `w` cells wide and `h` high whose
/// stored cells are `c`: the vertical spread, then the horizontal spread of
/// `FixedBits::expand_one` over the row's storage, then the tail cleared.
pub open spec fn expand_of(c: spec_fn(int, int) -> bool, w: int, h: int, x: int, y: int) -> bool {
    let cap = spec_div_ceil(w, 8) * 64;
    let v = |i: int| 0 <= i < cap && vertical_of(c, h, i, y);
    &&& 0 <= x < cap
    &&& {
        ||| v(x)
        ||| v(x - 1)
        ||| v(x + 1)
        ||| (x % 64 == 63 && v(x + 2))
        ||| (x % 64 == 0 && v(x - 2))
    }
    &&& !cleared_tail_of(w, x)
}

/// The stored cells of a grid `w` cells wide and `h` high whose stored cells are `c`, after
/// `k` rounds of `expand_one`.
pub open spec fn expanded_times(c: spec_fn(int, int) -> bool, w: int, h: int, k: nat) -> spec_fn(
    int,
    int,
) -> bool
    decreases k,
{
    if k == 0 {
        c
    } else {
        let prev = expanded_times(c, w, h, (k - 1) as nat);
        |x: int, y: int| expand_of(prev, w, h, x, y)
    }
}

impl<const CELL_SIZE: usize> Grid<CELL_SIZE> {
    /// Where the stored cells of this grid are `c`, those of the grid that `expand_one` makes
    /// of it are `expand_of(c)`.
    pub proof fn lemma_expands_to_cells(&self, after: &Self, c: spec_fn(int, int) -> bool)
        requires
            self.wf(),
            after.wf(),
            self.expands_to(after),
            forall|x: int, y: int| 0 <= y < self.spec_height() ==> #[trigger] self.raw_cell(x, y) == c(x, y),
        ensures
            forall|x: int, y: int|
                0 <= y < self.spec_height() ==> #[trigger] after.raw_cell(x, y) == expand_of(
                    c,
                    self.spec_width() as int,
                    self.spec_height() as int,
                    x,
                    y,
                ),
    {
        let w = self.spec_width() as int;
        let h = self.spec_height() as int;
        assert forall|x: int, y: int| 0 <= y < h implies #[trigger] after.raw_cell(x, y) == expand_of(
            c,
            w,
            h,
            x,
            y,
        ) by {
            assert forall|i: int| #[trigger] self.vertical(i, y) == vertical_of(c, h, i, y) by {
                if y >= 1 {
                    assert(self.raw_cell(i, y - 1) == c(i, y - 1));
                }
                assert(self.raw_cell(i, y) == c(i, y));
                if y + 1 < h {
                    assert(self.raw_cell(i, y + 1) == c(i, y + 1));
                }
            }
            if 0 <= x < self.capacity() {
                assert(after.raw_cell(x, y) == (self.expanded_cell(x, y) && !self.in_cleared_tail(x)));
            } else {
                assert(!after.raw_cell(x, y));
            }
        }
    }
}

impl<const CELL_SIZE: usize> Grid<CELL_SIZE> {
    /// Some set cell of the grid lies at most `k` cells away from `(x, y)` in each direction.
    pub open spec fn set_within(&self, x: int, y: int, k: int) -> bool {
        exists|a: int, b: int|
            0 <= a < self.spec_width() && 0 <= b < self.spec_height() && x - k <= a <= x + k && y
                - k <= b <= y + k && #[trigger] self.raw_cell(a, b)
    }

    /// `after` is what `expand_one` makes of this grid.
    pub open spec fn expands_to(&self, after: &Self) -> bool {
        &&& after.spec_width() == self.spec_width()
        &&& after.spec_height() == self.spec_height()
        &&& forall|x: int, y: int|
            0 <= y < self.spec_height() && 0 <= x < self.capacity() ==> #[trigger] after.raw_cell(
                x,
                y,
            ) == (self.expanded_cell(x, y) && !self.in_cleared_tail(x))
    }

    /// The cells of the grid lie below its capacity and outside the cleared tail.
    proof fn lemma_cell_in_storage(&self, x: int)
        requires
            0 <= x < self.spec_width(),
        ensures
            x < self.capacity(),
            !self.in_cleared_tail(x),
    {
        let w = self.spec_width() as int;
        let d = spec_div_ceil(w, 8);
        assert(d * 8 >= w) by {
            vstd::arithmetic::div_mod::lemma_fundamental_div_mod(w, 8);
        }
        assert(x < self.capacity());
        if self.in_cleared_tail(x) {
            assert(x / 64 <= w / 64) by {
                vstd::arithmetic::div_mod::lemma_div_is_ordered(x, w, 64);
            }
            if x / 64 == w / 64 {
                vstd::arithmetic::div_mod::lemma_fundamental_div_mod(x, 64);
                vstd::arithmetic::div_mod::lemma_fundamental_div_mod(w, 64);
            } else {
                vstd::arithmetic::div_mod::lemma_fundamental_div_mod(w, 64);
            }
        }
    }

    /// Within the grid, `expand_one` sets every cell that has a set neighbour, diagonal
    /// neighbours included.
    pub proof fn lemma_expand_one_covers(&self, after: &Self, x: int, y: int)
        requires
            self.wf(),
            self.expands_to(after),
            0 <= x < self.spec_width(),
            0 <= y < self.spec_height(),
            self.set_within(x, y, 1),
        ensures
            after.raw_cell(x, y),
    {
        let (a, b) = choose|a: int, b: int|
            0 <= a < self.spec_width() && 0 <= b < self.spec_height() && x - 1 <= a <= x + 1 && y
                - 1 <= b <= y + 1 && #[trigger] self.raw_cell(a, b);
        self.lemma_cell_in_storage(x);
        self.lemma_cell_in_storage(a);
        assert(self.vertical(a, y));
        assert(self.expanded_cell(x, y));
    }

    /// After `k` further rounds of `expand_one`, from `start` to `self`, every cell of the grid
    /// with a set cell of `start` at most `k + 1` cells away in each direction is set,
    /// where one more round takes `self` to `after`.
    pub proof fn lemma_expand_one_grows(&self, start: &Self, after: &Self, k: int)
        requires
            self.wf(),
            self.expands_to(after),
            start.spec_width() == self.spec_width(),
            start.spec_height() == self.spec_height(),
            k >= 0,
            forall|x: int, y: int|
                0 <= x < self.spec_width() && 0 <= y < self.spec_height() && start.set_within(x, y, k)
                    ==> #[trigger] self.raw_cell(x, y),
        ensures
            forall|x: int, y: int|
                0 <= x < self.spec_width() && 0 <= y < self.spec_height() && start.set_within(
                    x,
                    y,
                    k + 1,
                ) ==> #[trigger] after.raw_cell(x, y),
    {
        assert forall|x: int, y: int|
            0 <= x < self.spec_width() && 0 <= y < self.spec_height() && start.set_within(
                x,
                y,
                k + 1,
            ) implies #[trigger] after.raw_cell(x, y) by {
            let (a, b) = choose|a: int, b: int|
                0 <= a < start.spec_width() && 0 <= b < start.spec_height() && x - (k + 1) <= a
                    <= x + (k + 1) && y - (k + 1) <= b <= y + (k + 1) && #[trigger] start.raw_cell(
                    a,
                    b,
                );
            let nx = if a > x {
                x + 1
            } else if a < x {
                x - 1
            } else {
                x
            };
            let ny = if b > y {
                y + 1
            } else if b < y {
                y - 1
            } else {
                y
            };
            assert(start.set_within(nx, ny, k));
            assert(self.raw_cell(nx, ny));
            assert(self.set_within(x, y, 1));
            self.lemma_expand_one_covers(after, x, y);
        }
    }
}

impl<const CELL_SIZE: usize> Grid<CELL_SIZE> {
    /// Every pixel of an inner cell has a neighbouring pixel on each side within the image.
    pub proof fn lemma_inner_cell_has_neighbours(&self, x: int, y: int)
        requires
            self.wf(),
            self.is_inner(x, y),
        ensures
            1 <= cell_range(x, CELL_SIZE as int, self.spec_pixels().width as int).0,
            cell_range(x, CELL_SIZE as int, self.spec_pixels().width as int).1 + 1
                <= self.spec_pixels().width,
            1 <= cell_range(y, CELL_SIZE as int, self.spec_pixels().height as int).0,
            cell_range(y, CELL_SIZE as int, self.spec_pixels().height as int).1 + 1
                <= self.spec_pixels().height,
    {
        let n = CELL_SIZE as int;
        lemma_cell_bound(x + 1, self.spec_width() as int, self.spec_pixels().width as int, n);
        lemma_cell_bound(y + 1, self.spec_height() as int, self.spec_pixels().height as int, n);
        vstd::arithmetic::mul::lemma_mul_inequality(1, x, n);
        vstd::arithmetic::mul::lemma_mul_inequality(1, y, n);
    }
}

impl<const CELL_SIZE: usize> Grid<CELL_SIZE> {
    /// Reading back after `set(x, y, value)` gives `value` at `(x, y)` and the old cells
    /// everywhere else.
    pub proof fn lemma_get_after_set(&self, after: &Self, x: int, y: int, value: bool)
        requires
            after.spec_height() == self.spec_height(),
            forall|i: int, j: int|
                0 <= j < self.spec_height() ==> #[trigger] after.raw_cell(i, j) == if i == x && j
                    == y {
                    value
                } else {
                    self.raw_cell(i, j)
                },
            0 <= y < self.spec_height(),
        ensures
            after.raw_cell(x, y) == value,
            forall|i: int, j: int|
                0 <= j < self.spec_height() && (i != x || j != y) ==> #[trigger] after.raw_cell(i, j)
                    == self.raw_cell(i, j),
    {
        assert(after.raw_cell(x, y) == value);
    }
}

/// `g` holds what filling its cells from the pixel indices with `f` gives, as
/// `fill_with_pixels_index` states it.
pub open spec fn filled_by_index<const N: usize, F: Fn(usize) -> bool>(g: Grid<N>, f: F) -> bool {
    forall|x: int, y: int|
        0 <= x < g.spec_width() && 0 <= y < g.spec_height() ==> (#[trigger] g.raw_cell(x, y)
            ==> index_hit(
            f,
            cell_range(x, N as int, g.spec_pixels().width as int),
            cell_range(y, N as int, g.spec_pixels().height as int),
            g.spec_pixels().width as int,
        )) && (!g.raw_cell(x, y) ==> index_miss(
            f,
            cell_range(x, N as int, g.spec_pixels().width as int),
            cell_range(y, N as int, g.spec_pixels().height as int),
            g.spec_pixels().width as int,
        ))
}

/// `g` holds what filling its cells from the pixel positions with `f` gives, as
/// `fill_with_pixels` states it.
pub open spec fn filled_by_pixels<const N: usize, F: Fn(usize, usize) -> bool>(g: Grid<N>, f: F) -> bool {
    forall|x: int, y: int|
        0 <= x < g.spec_width() && 0 <= y < g.spec_height() ==> (#[trigger] g.raw_cell(x, y)
            ==> pixel_hit(
            f,
            cell_range(x, N as int, g.spec_pixels().width as int),
            cell_range(y, N as int, g.spec_pixels().height as int),
        )) && (!g.raw_cell(x, y) ==> pixel_miss(
            f,
            cell_range(x, N as int, g.spec_pixels().width as int),
            cell_range(y, N as int, g.spec_pixels().height as int),
        ))
}

/// Filling a grid from pixel indices with `fi` sets the same cells as filling it from pixel
/// positions with `fp`, where `fp(x, y)` answers what `fi(y * width + x)` answers and `fi`
/// gives one answer per index.
pub proof fn lemma_fill_by_index_is_fill_by_pixels<const N: usize, FI: Fn(usize) -> bool, FP: Fn(
    usize,
    usize,
) -> bool>(g1: Grid<N>, g2: Grid<N>, fi: FI, fp: FP)
    requires
        g1.wf(),
        g2.wf(),
        g1.spec_pixels() == g2.spec_pixels(),
        filled_by_index(g1, fi),
        filled_by_pixels(g2, fp),
        forall|i: usize, a: bool, b: bool| #[trigger] fi.ensures((i,), a) && #[trigger] fi.ensures((i,), b) ==> a == b,
        forall|x: usize, y: usize, b: bool|
            x < g1.spec_pixels().width && y < g1.spec_pixels().height ==> (#[trigger] fp.ensures((x, y), b)
                == fi.ensures(((y * g1.spec_pixels().width + x) as usize,), b)),
    ensures
        g1.spec_width() == g2.spec_width(),
        g1.spec_height() == g2.spec_height(),
        forall|x: int, y: int|
            0 <= x < g1.spec_width() && 0 <= y < g1.spec_height() ==> #[trigger] g1.raw_cell(x, y)
                == g2.raw_cell(x, y),
{
    let pw = g1.spec_pixels().width as int;
    let ph = g1.spec_pixels().height as int;
    assert forall|x: int, y: int|
        0 <= x < g1.spec_width() && 0 <= y < g1.spec_height() implies #[trigger] g1.raw_cell(x, y)
        == g2.raw_cell(x, y) by {
        let xr = cell_range(x, N as int, pw);
        let yr = cell_range(y, N as int, ph);
        lemma_cell_bound(x, g1.spec_width() as int, pw, N as int);
        lemma_cell_bound(y, g1.spec_height() as int, ph, N as int);
        vstd::arithmetic::mul::lemma_mul_nonnegative(x, N as int);
        vstd::arithmetic::mul::lemma_mul_nonnegative(y, N as int);
        if g1.raw_cell(x, y) && !g2.raw_cell(x, y) {
            let (px, py) = choose|px: int, py: int|
                xr.0 <= px < xr.1 && yr.0 <= py < yr.1 && #[trigger] fi.ensures(
                    ((py * pw + px) as usize,),
                    true,
                );
            assert(fp.ensures((px as usize, py as usize), false));
        }
        if !g1.raw_cell(x, y) && g2.raw_cell(x, y) {
            let (px, py) = choose|px: usize, py: usize|
                xr.0 <= px < xr.1 && yr.0 <= py < yr.1 && #[trigger] fp.ensures((px, py), true);
            assert(fi.ensures(((py * pw + px) as usize,), false));
        }
    }
}

/// `for_each_true` lists the cells that `for_each_true_cell` lists, in the same order, each
/// without its index.
pub proof fn lemma_for_each_true_drops_index<const N: usize>(
    g: Grid<N>,
    with_index: Seq<(Range<usize>, Range<usize>, bool, usize)>,
    without: Seq<(Range<usize>, Range<usize>, bool)>,
)
    requires
        with_index == g.set_cells(),
        without.len() == g.set_cells().len(),
        forall|k: int|
            0 <= k < without.len() ==> #[trigger] without[k] == (
                g.set_cells()[k].0,
                g.set_cells()[k].1,
                g.set_cells()[k].2,
            ),
    ensures
        without == with_index.map_values(
            |e: (Range<usize>, Range<usize>, bool, usize)| (e.0, e.1, e.2),
        ),
{
    assert(without =~= with_index.map_values(
        |e: (Range<usize>, Range<usize>, bool, usize)| (e.0, e.1, e.2),
    ));
}

} // verus!
