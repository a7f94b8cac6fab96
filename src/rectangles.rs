use vstd::prelude::*;

verus! {

/// An axis-aligned rectangle given by its side lengths.
#[derive(Debug, Clone, Copy, PartialEq, Eq, Structural)]
pub struct Rectangle {
    pub width: u32,
    pub height: u32,
}

impl Rectangle {
    /// The area as a mathematical integer.
    pub open spec fn spec_area(&self) -> int {
        self.width * self.height
    }

    /// Area of the rectangle; the product must fit in a `u32`.
    pub fn area(&self) -> (r: u32)
        requires
            self.spec_area() <= u32::MAX,
        ensures
            r == self.spec_area(),
    {
        self.width * self.height
    }

    /// True when `other_rect` fits strictly inside `self` in both dimensions.
    pub fn can_hold(&self, other_rect: &Rectangle) -> (r: bool)
        ensures
            r == (self.width > other_rect.width && self.height > other_rect.height),
    {
        self.width > other_rect.width && self.height > other_rect.height
    }

    /// A square whose sides both have length `size`.
    pub fn square(size: u32) -> (r: Self)
        ensures
            r.width == size,
            r.height == size,
    {
        Self { width: size, height: size }
    }
}

} // verus!
