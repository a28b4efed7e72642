//! A rectangle record with two unsigned dimensions, computed on by free
//! functions (from raw values, from a tuple, from a borrowed record) and by
//! attached methods: area, strict containment, component-wise max, in-place
//! width mutation, and a square constructor.

use vstd::prelude::*;

verus! {

/// A rectangle with unsigned width and height. Area may overflow the
/// fixed-width representation for very large dimensions, so the area
/// operations ask their callers for dimensions whose product fits.
#[derive(Debug, PartialEq, Eq, Structural)]
pub struct Rectangle {
    pub width: u32,
    pub height: u32,
}

/// The area of a rectangle of the given dimensions, as an unbounded integer.
pub open spec fn rect_area(width: u32, height: u32) -> int {
    width * height
}

/// Area from two raw dimension values.
pub fn area(width: u32, height: u32) -> (a: u32)
    requires
        rect_area(width, height) <= u32::MAX,
    ensures
        a == rect_area(width, height),
{
    width * height
}

/// Area from the two components of a pair of dimensions.
pub fn area_from_tuple(dimensions: (u32, u32)) -> (a: u32)
    requires
        rect_area(dimensions.0, dimensions.1) <= u32::MAX,
    ensures
        a == rect_area(dimensions.0, dimensions.1),
{
    dimensions.0 * dimensions.1
}

/// Area from a borrowed rectangle record.
pub fn area_from_struct(rectangle: &Rectangle) -> (a: u32)
    requires
        rect_area(rectangle.width, rectangle.height) <= u32::MAX,
    ensures
        a == rect_area(rectangle.width, rectangle.height),
{
    rectangle.width * rectangle.height
}

impl Rectangle {
    /// The rectangle's area as an unbounded integer.
    pub open spec fn spec_area(self) -> int {
        rect_area(self.width, self.height)
    }

    /// Area as an attached method: the same product as the free functions.
    pub fn area(&self) -> (a: u32)
        requires
            self.spec_area() <= u32::MAX,
        ensures
            a == self.spec_area(),
    {
        self.width * self.height
    }

    /// True exactly when `self` strictly exceeds `other` on both axes;
    /// equal or smaller on either axis gives false.
    pub fn can_hold(&self, other: &Rectangle) -> (r: bool)
        ensures
            r == (self.width > other.width && self.height > other.height),
    {
        self.width > other.width && self.height > other.height
    }

    /// Consumes both rectangles and returns the component-wise maximum:
    /// the larger width paired with the larger height, not the rectangle
    /// of larger area.
    pub fn max(self, other: Rectangle) -> (r: Rectangle)
        ensures
            r.width == if self.width >= other.width {
                self.width
            } else {
                other.width
            },
            r.height == if self.height >= other.height {
                self.height
            } else {
                other.height
            },
    {
        Rectangle {
            width: if self.width >= other.width {
                self.width
            } else {
                other.width
            },
            height: if self.height >= other.height {
                self.height
            } else {
                other.height
            },
        }
    }

    /// Replaces the width in place; the height is untouched.
    pub fn set_width(&mut self, width: u32)
        ensures
            final(self).width == width,
            final(self).height == old(self).height,
    {
        self.width = width;
    }

    /// Alternate constructor: a square, with width and height both `size`.
    pub fn square(size: u32) -> (r: Self)
        ensures
            r.width == size,
            r.height == size,
    {
        Self { width: size, height: size }
    }
}

} // verus!
