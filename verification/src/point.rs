//! Grid cells.

use std::ops::Add;
use vstd::prelude::*;
use vstd::std_specs::ops::AddSpecImpl;

verus! {

/// A cell of the grid, or a displacement between two cells: `(x, y)`, with
/// `y` growing downwards.
#[derive(Clone, Copy, Debug, PartialEq, Eq, Hash, Structural)]
pub struct Point(pub i32, pub i32);

impl Point {
    /// Whether the component-wise sum is itself a `Point`.
    pub open spec fn can_add(self, rhs: Point) -> bool {
        &&& i32::MIN <= self.0 + rhs.0 <= i32::MAX
        &&& i32::MIN <= self.1 + rhs.1 <= i32::MAX
    }

    /// The component-wise sum as a `Point`, where `can_add` holds.
    pub open spec fn plus(self, rhs: Point) -> Point {
        Point((self.0 + rhs.0) as i32, (self.1 + rhs.1) as i32)
    }
}

impl AddSpecImpl<Point> for Point {
    open spec fn obeys_add_spec() -> bool {
        true
    }

    open spec fn add_req(self, rhs: Point) -> bool {
        self.can_add(rhs)
    }

    open spec fn add_spec(self, rhs: Point) -> Point {
        self.plus(rhs)
    }
}

impl Add<Point> for Point {
    type Output = Point;

    fn add(self, rhs: Point) -> (out: Point) {
        Point(self.0 + rhs.0, self.1 + rhs.1)
    }
}

} // verus!
