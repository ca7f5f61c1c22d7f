use vstd::prelude::*;

verus! {

/// A 2-D grid coordinate. `x` runs along the width of a level, `y` along
/// its height. Equality is component-wise.
#[derive(Clone, Copy, PartialEq, Eq, Structural, Hash, Debug)]
pub struct Point {
    pub x: i8,
    pub y: i8,
}

impl Point {
    pub fn new(x: i8, y: i8) -> (p: Point)
        ensures
            p.x == x,
            p.y == y,
    {
        Point { x, y }
    }
}

/// Whether the sequence holds a point with coordinates `(x, y)`.
pub open spec fn has_point(ps: Seq<Point>, x: int, y: int) -> bool {
    exists|i: int| 0 <= i < ps.len() && ps[i].x == x && ps[i].y == y
}

} // verus!
