use vstd::prelude::*;

verus! {

/// A size consisting of width and height in that order.
#[derive(PartialEq, Eq, Structural, Hash, Clone, Copy, Debug)]
pub struct Size {
    pub width: usize,
    pub height: usize,
}

impl Size {
    /// The number of pixels of an image of this size.
    pub open spec fn area(self) -> int {
        self.width * self.height
    }

    /// Whether the number of pixels fits in a `usize`.
    pub open spec fn fits(self) -> bool {
        self.width * self.height <= usize::MAX
    }

    pub fn new(width: usize, height: usize) -> (r: Self)
        ensures
            r.width == width,
            r.height == height,
    {
        Self { width, height }
    }

    pub fn len(&self) -> (r: usize)
        requires
            self.fits(),
        ensures
            r == self.area(),
    {
        self.width * self.height
    }

    /// All positions of this size in row major order.
    pub fn iter_pos(&self) -> (r: Vec<(usize, usize)>)
        requires
            self.fits(),
        ensures
            r.len() == self.area(),
            forall|i: int|
                0 <= i < r.len() ==> #[trigger] r@[i] == ((i % self.width as int) as usize, (i
                    / self.width as int) as usize),
    {
        let w = self.width;
        let h = self.height;
        let mut r: Vec<(usize, usize)> = Vec::new();
        let mut y: usize = 0;
        while y < h
            invariant
                w == self.width,
                h == self.height,
                self.fits(),
                y <= h,
                r.len() == y * w,
                forall|i: int|
                    0 <= i < r.len() ==> #[trigger] r@[i] == ((i % w as int) as usize, (i
                        / w as int) as usize),
            decreases h - y,
        {
            proof {
                vstd::arithmetic::mul::lemma_mul_inequality(y as int + 1, h as int, w as int);
                vstd::arithmetic::mul::lemma_mul_is_distributive_add_other_way(w as int, y as int, 1);
            }
            let mut x: usize = 0;
            while x < w
                invariant
                    w == self.width,
                    h == self.height,
                    y < h,
                    (y + 1) * w <= usize::MAX,
                    (y + 1) * w == y * w + w,
                    x <= w,
                    r.len() == y * w + x,
                    forall|i: int|
                        0 <= i < r.len() ==> #[trigger] r@[i] == ((i % w as int) as usize, (i
                            / w as int) as usize),
                decreases w - x,
            {
                proof {
                    let i = y * w + x;
                    vstd::arithmetic::div_mod::lemma_fundamental_div_mod_converse(
                        i as int,
                        w as int,
                        y as int,
                        x as int,
                    );
                }
                r.push((x, y));
                x = x + 1;
            }
            y = y + 1;
        }
        proof {
            vstd::arithmetic::mul::lemma_mul_is_commutative(w as int, h as int);
        }
        r
    }
}

/// A two-dimensional image with pixels of type `P` stored in row-major order.
pub struct Image<P> {
    data: Vec<P>,
    size: Size,
}

impl<P> Image<P> {
    /// The size of the image.
    pub closed spec fn spec_size(&self) -> Size {
        self.size
    }

    /// The pixels of the image in row-major order.
    pub closed spec fn pixels(&self) -> Seq<P> {
        self.data@
    }

    /// The image holds exactly one pixel per position.
    pub open spec fn wf(&self) -> bool {
        self.pixels().len() == self.spec_size().area()
    }

    /// The pixel at position `(x, y)`.
    pub open spec fn at(&self, x: int, y: int) -> P {
        self.pixels()[y * self.spec_size().width + x]
    }

    pub fn new(size: Size, data: Vec<P>) -> (r: Self)
        requires
            data.len() == size.area(),
        ensures
            r.wf(),
            r.spec_size() == size,
            r.pixels() == data@,
    {
        Self { data, size }
    }

    pub fn from_fn<F: Fn(usize, usize) -> P>(size: Size, f: F) -> (r: Self)
        requires
            size.fits(),
            forall|x: usize, y: usize|
                x < size.width && y < size.height ==> #[trigger] f.requires((x, y)),
        ensures
            r.wf(),
            r.spec_size() == size,
            forall|i: int|
                0 <= i < size.area() ==> f.ensures(
                    ((i % size.width as int) as usize, (i / size.width as int) as usize),
                    #[trigger] r.pixels()[i],
                ),
    {
        let w = size.width;
        let h = size.height;
        let mut data: Vec<P> = Vec::with_capacity(size.len());
        let mut y: usize = 0;
        while y < h
            invariant
                w == size.width,
                h == size.height,
                size.fits(),
                y <= h,
                data.len() == y * w,
                forall|x: usize, y: usize| x < w && y < h ==> #[trigger] f.requires((x, y)),
                forall|i: int|
                    0 <= i < data.len() ==> f.ensures(
                        ((i % w as int) as usize, (i / w as int) as usize),
                        #[trigger] data@[i],
                    ),
            decreases h - y,
        {
            proof {
                vstd::arithmetic::mul::lemma_mul_inequality(y as int + 1, h as int, w as int);
                vstd::arithmetic::mul::lemma_mul_is_distributive_add_other_way(w as int, y as int, 1);
            }
            let mut x: usize = 0;
            while x < w
                invariant
                    w == size.width,
                    h == size.height,
                    y < h,
                    (y + 1) * w <= usize::MAX,
                    (y + 1) * w == y * w + w,
                    x <= w,
                    data.len() == y * w + x,
                    forall|x: usize, y: usize| x < w && y < h ==> #[trigger] f.requires((x, y)),
                    forall|i: int|
                        0 <= i < data.len() ==> f.ensures(
                            ((i % w as int) as usize, (i / w as int) as usize),
                            #[trigger] data@[i],
                        ),
                decreases w - x,
            {
                proof {
                    vstd::arithmetic::div_mod::lemma_fundamental_div_mod_converse(
                        (y * w + x) as int,
                        w as int,
                        y as int,
                        x as int,
                    );
                }
                let p = f(x, y);
                data.push(p);
                x = x + 1;
            }
            y = y + 1;
        }
        proof {
            vstd::arithmetic::mul::lemma_mul_is_commutative(w as int, h as int);
        }
        Self { data, size }
    }

    pub fn size(&self) -> (r: Size)
        ensures
            r == self.spec_size(),
    {
        self.size
    }

    pub fn width(&self) -> (r: usize)
        ensures
            r == self.spec_size().width,
    {
        self.size().width
    }

    pub fn height(&self) -> (r: usize)
        ensures
            r == self.spec_size().height,
    {
        self.size().height
    }

    pub fn len(&self) -> (r: usize)
        requires
            self.wf(),
        ensures
            r == self.spec_size().area(),
    {
        self.data.len()
    }

    pub fn take(self) -> (r: Vec<P>)
        ensures
            r@ == self.pixels(),
    {
        self.data
    }

    /// The pixel data of the image.
    ///
    /// Pixel data is layed out in row-major order.
    pub fn data(&self) -> (r: &[P])
        ensures
            r@ == self.pixels(),
    {
        self.data.as_slice()
    }

    /// The rows of the image, from top to bottom.
    pub fn rows(&self) -> (r: Vec<&[P]>)
        requires
            self.wf(),
            self.spec_size().width > 0,
        ensures
            r.len() == self.spec_size().height,
            forall|y: int|
                0 <= y < r.len() ==> #[trigger] r@[y]@ == self.pixels().subrange(
                    y * self.spec_size().width,
                    (y + 1) * self.spec_size().width,
                ),
    {
        let w = self.size.width;
        let h = self.size.height;
        let n = self.data.len();
        let mut r: Vec<&[P]> = Vec::new();
        let mut y: usize = 0;
        while y < h
            invariant
                n == self.pixels().len(),
                w == self.spec_size().width,
                h == self.spec_size().height,
                self.wf(),
                y <= h,
                r.len() == y,
                forall|j: int|
                    0 <= j < r.len() ==> #[trigger] r@[j]@ == self.pixels().subrange(
                        j * w,
                        (j + 1) * w,
                    ),
            decreases h - y,
        {
            proof {
                vstd::arithmetic::mul::lemma_mul_inequality(y as int + 1, h as int, w as int);
                vstd::arithmetic::mul::lemma_mul_is_distributive_add_other_way(w as int, y as int, 1);
                vstd::arithmetic::mul::lemma_mul_is_commutative(w as int, h as int);
            }
            let row = vstd::slice::slice_subrange(self.data.as_slice(), y * w, (y + 1) * w);
            r.push(row);
            y = y + 1;
        }
        r
    }

    pub fn map<T, F: Fn(&P) -> T>(&self, f: F) -> (r: Image<T>)
        requires
            forall|i: int| 0 <= i < self.pixels().len() ==> f.requires((&self.pixels()[i],)),
        ensures
            r.spec_size() == self.spec_size(),
            r.pixels().len() == self.pixels().len(),
            forall|i: int|
                0 <= i < self.pixels().len() ==> f.ensures(
                    (&self.pixels()[i],),
                    #[trigger] r.pixels()[i],
                ),
    {
        let n = self.data.len();
        let mut data: Vec<T> = Vec::with_capacity(n);
        let mut i: usize = 0;
        while i < n
            invariant
                n == self.pixels().len(),
                i <= n,
                data.len() == i,
                forall|k: int| 0 <= k < self.pixels().len() ==> f.requires((&self.pixels()[k],)),
                forall|k: int|
                    0 <= k < i ==> f.ensures((&self.pixels()[k],), #[trigger] data@[k]),
            decreases n - i,
        {
            let v = f(&self.data[i]);
            data.push(v);
            i = i + 1;
        }
        Image { data, size: self.size }
    }

    pub fn map_pos<T, F: Fn(&P, usize, usize) -> T>(&self, f: F) -> (r: Image<T>)
        requires
            self.wf(),
            forall|i: int|
                0 <= i < self.pixels().len() ==> f.requires(
                    (
                        &self.pixels()[i],
                        (i % self.spec_size().width as int) as usize,
                        (i / self.spec_size().width as int) as usize,
                    ),
                ),
        ensures
            r.wf(),
            r.spec_size() == self.spec_size(),
            forall|i: int|
                0 <= i < self.pixels().len() ==> f.ensures(
                    (
                        &self.pixels()[i],
                        (i % self.spec_size().width as int) as usize,
                        (i / self.spec_size().width as int) as usize,
                    ),
                    #[trigger] r.pixels()[i],
                ),
    {
        let w = self.size.width;
        let n = self.data.len();
        let mut data: Vec<T> = Vec::with_capacity(n);
        let mut i: usize = 0;
        while i < n
            invariant
                n == self.pixels().len(),
                w == self.spec_size().width,
                self.wf(),
                i <= n,
                data.len() == i,
                forall|k: int|
                    0 <= k < self.pixels().len() ==> f.requires(
                        (&self.pixels()[k], (k % w as int) as usize, (k / w as int) as usize),
                    ),
                forall|k: int|
                    0 <= k < i ==> f.ensures(
                        (&self.pixels()[k], (k % w as int) as usize, (k / w as int) as usize),
                        #[trigger] data@[k],
                    ),
            decreases n - i,
        {
            assert(w > 0) by {
                if w == 0 {
                    vstd::arithmetic::mul::lemma_mul_basics(self.spec_size().height as int);
                }
            }
            let v = f(&self.data[i], i % w, i / w);
            data.push(v);
            i = i + 1;
        }
        Image { data, size: self.size }
    }

    /// The pixel data of the image.
    ///
    /// Pixel data is layed out in row-major order.
    pub fn data_mut(&mut self) -> (r: &mut [P])
        ensures
            r@ == old(self).pixels(),
            final(self).pixels() == final(r)@,
            final(self).spec_size() == old(self).spec_size(),
    {
        self.data.as_mut_slice()
    }

    /// Replaces each pixel `p` with `f(p)`.
    pub fn change<T, F: Fn(&P) -> P>(&mut self, f: F)
        requires
            forall|i: int|
                0 <= i < old(self).pixels().len() ==> f.requires((&old(self).pixels()[i],)),
        ensures
            final(self).spec_size() == old(self).spec_size(),
            final(self).pixels().len() == old(self).pixels().len(),
            forall|i: int|
                0 <= i < old(self).pixels().len() ==> f.ensures(
                    (&old(self).pixels()[i],),
                    #[trigger] final(self).pixels()[i],
                ),
    {
        let n = self.data.len();
        let mut i: usize = 0;
        while i < n
            invariant
                n == old(self).pixels().len(),
                n == self.pixels().len(),
                self.spec_size() == old(self).spec_size(),
                i <= n,
                forall|k: int|
                    0 <= k < old(self).pixels().len() ==> f.requires((&old(self).pixels()[k],)),
                forall|k: int|
                    0 <= k < i ==> f.ensures((&old(self).pixels()[k],), #[trigger] self.pixels()[k]),
                forall|k: int| i <= k < n ==> #[trigger] self.pixels()[k] == old(self).pixels()[k],
            decreases n - i,
        {
            let v = f(&self.data[i]);
            self.data.set(i, v);
            i = i + 1;
        }
    }
}

impl<P: Clone> Image<P> {
    pub fn from_const(size: Size, constant: P) -> (r: Self)
        requires
            size.fits(),
        ensures
            r.wf(),
            r.spec_size() == size,
            forall|i: int| 0 <= i < size.area() ==> cloned(constant, #[trigger] r.pixels()[i]),
    {
        Self { data: vec![constant; size.len()], size }
    }

    /// Sets every pixel to a clone of `c`.
    pub fn fill(&mut self, c: P)
        ensures
            final(self).spec_size() == old(self).spec_size(),
            final(self).pixels().len() == old(self).pixels().len(),
            forall|i: int|
                0 <= i < old(self).pixels().len() ==> cloned(c, #[trigger] final(self).pixels()[i]),
    {
        let n = self.data.len();
        let mut i: usize = 0;
        while i < n
            invariant
                n == old(self).pixels().len(),
                n == self.pixels().len(),
                self.spec_size() == old(self).spec_size(),
                i <= n,
                forall|k: int| 0 <= k < i ==> cloned(c, #[trigger] self.pixels()[k]),
            decreases n - i,
        {
            let v = c.clone();
            self.data.set(i, v);
            i = i + 1;
        }
    }
}

impl<P: Clone> Clone for Image<P> {
    fn clone(&self) -> (r: Self)
        ensures
            r.spec_size() == self.spec_size(),
            r.pixels().len() == self.pixels().len(),
            forall|i: int|
                0 <= i < self.pixels().len() ==> cloned(self.pixels()[i], #[trigger] r.pixels()[i]),
    {
        Image { data: self.data.clone(), size: self.size }
    }
}

} // verus!
