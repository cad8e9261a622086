use vstd::prelude::*;

use crate::image::{Image, Size};

verus! {

/// The shape of a three-dimensional image: width, height and number of channels.
#[derive(PartialEq, Eq, Structural, Hash, Clone, Copy, Debug)]
pub struct Shape {
    pub width: usize,
    pub height: usize,
    pub channels: usize,
}

impl Shape {
    /// The number of values of an image of this shape.
    pub open spec fn volume(self) -> int {
        self.width * self.height * self.channels
    }

    pub fn new(width: usize, height: usize, channels: usize) -> (r: Self)
        ensures
            r.width == width,
            r.height == height,
            r.channels == channels,
    {
        Self { width, height, channels }
    }

    pub fn from_size(size: Size, channels: usize) -> (r: Self)
        ensures
            r.width == size.width,
            r.height == size.height,
            r.channels == channels,
    {
        Self { width: size.width, height: size.height, channels }
    }

    pub fn size(&self) -> (r: Size)
        ensures
            r.width == self.width,
            r.height == self.height,
    {
        Size::new(self.width, self.height)
    }

    pub fn len(&self) -> (r: usize)
        requires
            self.width * self.height <= usize::MAX,
            self.volume() <= usize::MAX,
        ensures
            r == self.volume(),
    {
        self.width * self.height * self.channels
    }

    pub fn is_empty(&self) -> (r: bool)
        requires
            self.width * self.height <= usize::MAX,
            self.volume() <= usize::MAX,
        ensures
            r == (self.volume() == 0),
    {
        self.len() == 0
    }
}

/// The channel counts that a conversion supports did not include the given one.
#[derive(Debug, PartialEq, Eq)]
pub struct ShapeMismatch {
    pub actual: usize,
    pub expected: Vec<usize>,
}

/// A conversion from flat channel values to pixels does not support the given channel count;
/// `supported` lists the counts it does.
#[derive(Debug, PartialEq, Eq)]
pub struct UnsupportedChannel {
    pub supported: &'static [usize],
}

/// Images with their channels stored flat that convert into images of pixels of type `P`.
pub trait IntoPixels<P> {
    fn into_pixels(self) -> Result<Image<P>, ShapeMismatch>;
}

} // verus!
