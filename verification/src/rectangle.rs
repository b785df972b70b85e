//! A rectangle type with area arithmetic, demonstrating methods and
//! associated functions.

use vstd::prelude::*;

verus! {

/// A rectangle given by its side lengths.
#[derive(Clone, Copy, Debug, PartialEq, Eq, Structural)]
pub struct Rectangle {
    pub width: u32,
    pub height: u32,
}

impl Rectangle {
    /// The rectangle's area: width times height.
    pub fn area(&self) -> (r: u32)
        requires
            self.width * self.height <= u32::MAX,
        ensures
            r == self.width * self.height,
    {
        self.width * self.height
    }

    /// Scales the height by the given factor, leaving the width unchanged.
    pub fn change_height(&mut self, num: u32)
        requires
            old(self).height * num <= u32::MAX,
        ensures
            final(self).height == old(self).height * num,
            final(self).width == old(self).width,
    {
        self.height = self.height * num;
    }

    /// Consumes the rectangle and returns one with the given side lengths.
    pub fn reassign(self, width: u32, height: u32) -> (r: Rectangle)
        ensures
            r.width == width,
            r.height == height,
    {
        let mut updated = self;
        updated.width = width;
        updated.height = height;
        updated
    }

    /// Whether this rectangle's area exceeds the other's.
    pub fn greater_volume(&self, rect: &Rectangle) -> (r: bool)
        requires
            self.width * self.height <= u32::MAX,
            rect.width * rect.height <= u32::MAX,
        ensures
            r == (self.width * self.height > rect.width * rect.height),
    {
        self.area() > rect.area()
    }

    /// A square with the given side length.
    pub fn square(size: u32) -> (r: Self)
        ensures
            r.width == size,
            r.height == size,
    {
        Self { width: size, height: size }
    }
}

/// The rectangle's area, as a free function over a borrowed rectangle.
pub fn area(rectangle: &Rectangle) -> (r: u32)
    requires
        rectangle.width * rectangle.height <= u32::MAX,
    ensures
        r == rectangle.width * rectangle.height,
{
    rectangle.width * rectangle.height
}

} // verus!
