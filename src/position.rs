use vstd::prelude::*;

verus! {

/// Width, in world units, of one unit square of a piece or of the board.
pub const SQUARE_WIDTH: i32 = 50;

/// Half of `SQUARE_WIDTH`, rounded down: the margin of a square around its centre.
pub const HALF_WIDTH: i32 = 25;

/// The centre of one unit square, in world coordinates.
#[derive(Clone, Copy, Debug, PartialEq, Eq, Structural, Hash)]
pub struct Position {
    pub x: i32,
    pub y: i32,
}

/// A point of the plane with unbounded integer coordinates.
pub type Point = (int, int);

/// True when `v` can be held by an `i32`.
pub open spec fn in_i32(v: int) -> bool {
    i32::MIN <= v <= i32::MAX
}

/// True when both coordinates of `p` can be held by an `i32`.
pub open spec fn point_in_i32(p: Point) -> bool {
    in_i32(p.0) && in_i32(p.1)
}

/// True when every point of `s` can be held by a `Position`.
pub open spec fn all_in_i32(s: Seq<Point>) -> bool {
    forall|i: int| 0 <= i < s.len() ==> #[trigger] point_in_i32(s[i])
}

/// The coordinates of a sequence of positions, as mathematical points.
pub open spec fn points(s: Seq<Position>) -> Seq<Point> {
    s.map_values(|p: Position| p@)
}

impl View for Position {
    type V = Point;

    open spec fn view(&self) -> Point {
        (self.x as int, self.y as int)
    }
}

impl Position {
    pub fn new(x: i32, y: i32) -> (r: Position)
        ensures
            r@ == (x as int, y as int),
    {
        Position { x, y }
    }
}

} // verus!
