use vstd::prelude::*;

verus! {

/// A pair of coordinates measured in whole playfield cells.
#[derive(Clone, Copy, Debug, PartialEq, Eq, Structural)]
pub struct Point2D<T> {
    pub x: T,
    pub y: T,
}

impl<T> Point2D<T> {
    pub fn new(x: T, y: T) -> (p: Point2D<T>)
        ensures
            p.x == x,
            p.y == y,
    {
        Point2D { x, y }
    }
}

} // verus!
