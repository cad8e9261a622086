use crate::image::{Image, Size};
use vstd::prelude::*;

verus! {

/// An image of `size` with every pixel a clone of `c`, reusing `out` where one is given.
///
/// A given `out` must already have the requested size.
pub fn from_const<P: Clone>(size: Size, c: P, out: Option<Image<P>>) -> (r: Image<P>)
    requires
        size.fits(),
        out matches Some(o) ==> o.wf() && o.spec_size() == size,
    ensures
        r.wf(),
        r.spec_size() == size,
        forall|i: int| 0 <= i < size.area() ==> cloned(c, #[trigger] r.pixels()[i]),
{
    match out {
        Some(mut o) => {
            o.fill(c);
            o
        },
        None => Image::from_const(size, c),
    }
}

/// A copy of `img`, written into `out` where one is given.
///
/// A given `out` must already have the size of `img`.
pub fn from_image<P: Copy>(img: &Image<P>, out: Option<Image<P>>) -> (r: Image<P>)
    requires
        img.wf(),
        out matches Some(o) ==> o.wf() && o.spec_size() == img.spec_size(),
    ensures
        r.wf(),
        r.spec_size() == img.spec_size(),
        r.pixels() == img.pixels(),
{
    match out {
        Some(mut o) => {
            copy_pixels(img, &mut o);
            o
        },
        None => {
            let src = img.data();
            let mut data: Vec<P> = Vec::new();
            let mut i: usize = 0;
            while i < src.len()
                invariant
                    src@ == img.pixels(),
                    i <= src@.len(),
                    data@ == src@.subrange(0, i as int),
                decreases src@.len() - i,
            {
                data.push(src[i]);
                i = i + 1;
            }
            Image::new(img.size(), data)
        },
    }
}

/// Copies the pixels of `img` into `out`, which has the same number of pixels.
fn copy_pixels<P: Copy>(img: &Image<P>, out: &mut Image<P>)
    requires
        img.pixels().len() == old(out).pixels().len(),
    ensures
        final(out).spec_size() == old(out).spec_size(),
        final(out).pixels() == img.pixels(),
{
    let src = img.data();
    let dst = out.data_mut();
    let mut i: usize = 0;
    while i < src.len()
        invariant
            src@ == img.pixels(),
            dst@.len() == src@.len(),
            i <= src@.len(),
            forall|k: int| 0 <= k < i ==> dst@[k] == src@[k],
        decreases src@.len() - i,
    {
        dst[i] = src[i];
        i = i + 1;
    }
    assert(dst@ =~= src@);
}

/// An image that is either owned or borrowed from the caller.
pub enum ImageCow<'a, P> {
    Owned(Image<P>),
    Borrowed(&'a mut Image<P>),
}

impl<'a, P> ImageCow<'a, P> {
    /// The image, owned or borrowed.
    pub open spec fn view_image(&self) -> Image<P> {
        match self {
            ImageCow::Owned(i) => *i,
            ImageCow::Borrowed(i) => **i,
        }
    }

    /// The image, owned or borrowed.
    pub fn image(&self) -> (r: &Image<P>)
        ensures
            *r == self.view_image(),
    {
        match self {
            ImageCow::Owned(i) => i,
            ImageCow::Borrowed(i) => i,
        }
    }

    /// The image, owned or borrowed, for changing it.
    pub fn image_mut(&mut self) -> (r: &mut Image<P>)
        ensures
            *r == old(self).view_image(),
            final(self).view_image() == *final(r),
            (*final(self) is Borrowed) <==> (*old(self) is Borrowed),
    {
        match self {
            ImageCow::Owned(i) => i,
            ImageCow::Borrowed(i) => i,
        }
    }
}

impl<'a, P> std::ops::Deref for ImageCow<'a, P> {
    type Target = Image<P>;

    fn deref(&self) -> (r: &Image<P>)
        ensures
            *r == self.view_image(),
    {
        self.image()
    }
}

/// An image of `size` with every pixel a clone of `c`: `out`, filled, where one is given,
/// else a new one.
///
/// A given `out` must already have the requested size.
pub fn from_const_cow<P: Clone>(size: Size, c: P, out: Option<&mut Image<P>>) -> (r: ImageCow<'_, P>)
    requires
        size.fits(),
        out matches Some(o) ==> o.wf() && o.spec_size() == size,
    ensures
        r is Borrowed <==> out is Some,
        r.view_image().wf(),
        r.view_image().spec_size() == size,
        forall|i: int| 0 <= i < size.area() ==> cloned(c, #[trigger] r.view_image().pixels()[i]),
{
    match out {
        Some(o) => {
            o.fill(c);
            ImageCow::Borrowed(o)
        },
        None => ImageCow::Owned(Image::from_const(size, c)),
    }
}

/// A copy of `img`: `out`, overwritten, where one is given (the result borrows `out` itself,
/// so `out` holds the copy once the result is dropped), else a new image.
///
/// A given `out` must already have the size of `img`.
pub fn from_image_cow<'a, P: Copy>(img: &Image<P>, out: Option<&'a mut Image<P>>) -> (r: ImageCow<'a, P>)
    requires
        img.wf(),
        out matches Some(o) ==> o.wf() && o.spec_size() == img.spec_size(),
    ensures
        r is Borrowed <==> out is Some,
        r.view_image().wf(),
        r.view_image().spec_size() == img.spec_size(),
        r.view_image().pixels() == img.pixels(),
        match out {
            Some(o) => r matches ImageCow::Borrowed(b) && *final(o) == *final(b),
            None => true,
        },
{
    match out {
        Some(o) => {
            copy_pixels(img, o);
            ImageCow::Borrowed(o)
        },
        None => ImageCow::Owned(from_image(img, None)),
    }
}

} // verus!
