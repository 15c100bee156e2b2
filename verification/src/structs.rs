//! The rectangle of the lesson on structs.

use vstd::prelude::*;

verus! {

/// A rectangle with sides of whole length.
#[derive(Clone, Copy, Debug, PartialEq, Eq, Structural)]
pub struct Rectangle {
    pub width: u32,
    pub height: u32,
}

impl Rectangle {
    /// The rectangle's area as a number.
    pub open spec fn area_spec(self) -> int {
        self.width * self.height
    }

    /// Whether a rectangle `other` fits inside, without turning it.
    pub open spec fn holds(self, other: Rectangle) -> bool {
        self.width >= other.width && self.height >= other.height
    }

    /// The area: width times height.
    pub fn area(&self) -> (a: u32)
        requires
            self.area_spec() <= u32::MAX,
        ensures
            a == self.area_spec(),
    {
        self.width * self.height
    }

    /// Whether `other` fits inside this rectangle: it is neither wider nor
    /// higher.
    pub fn can_hold(&self, other: &Rectangle) -> (fits: bool)
        ensures
            fits == self.holds(*other),
    {
        self.width >= other.width && self.height >= other.height
    }

    /// Gives the rectangle a new width and a new height.
    pub fn resize(&mut self, new_width: u32, new_height: u32)
        ensures
            final(self).width == new_width,
            final(self).height == new_height,
    {
        self.width = new_width;
        self.height = new_height;
    }

    /// The square with sides of length `size`.
    pub fn square(size: u32) -> (r: Rectangle)
        ensures
            r.width == size,
            r.height == size,
    {
        Rectangle { width: size, height: size }
    }

    /// The rectangle used where none is given: 100 by 100.
    pub fn default() -> (r: Rectangle)
        ensures
            r.width == 100,
            r.height == 100,
    {
        Rectangle { width: 100, height: 100 }
    }
}

/// A rectangle holds itself, and holding carries over: what fits into a
/// rectangle fits into every rectangle that holds that one.
pub proof fn law_holding_is_an_order(a: Rectangle, b: Rectangle, c: Rectangle)
    ensures
        a.holds(a),
        a.holds(b) && b.holds(c) ==> a.holds(c),
        a.holds(b) && b.holds(a) ==> a == b,
{
}

/// A rectangle that holds another is at least as large in area.
pub proof fn law_holding_bounds_area(a: Rectangle, b: Rectangle)
    requires
        a.holds(b),
    ensures
        a.area_spec() >= b.area_spec(),
{
    assert(a.width * a.height >= b.width * b.height) by (nonlinear_arith)
        requires
            a.width >= b.width >= 0,
            a.height >= b.height >= 0,
    ;
}

} // verus!
