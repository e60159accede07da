use vstd::prelude::*;

use crate::cursor::Cursor;
use crate::position::{all_in_i32, in_i32, point_in_i32, points, Point, Position, HALF_WIDTH};
use crate::shape::{shape_offsets, shape_points, Shape, ShapeBuilder};

verus! {

/// What a piece is, seen mathematically: its cells in order (the first one is
/// the pivot), its display colour, and whether it is being dragged.
pub struct PieceView<C> {
    pub cells: Seq<Point>,
    pub color: C,
    pub moving: bool,
}

/// `p` turned a quarter turn counterclockwise about `pivot`.
pub open spec fn rotate_about(pivot: Point, p: Point) -> Point {
    (pivot.0 - (p.1 - pivot.1), pivot.1 + (p.0 - pivot.0))
}

/// Every cell turned a quarter turn counterclockwise about the first cell.
pub open spec fn rotated(cells: Seq<Point>) -> Seq<Point> {
    if cells.len() == 0 {
        cells
    } else {
        cells.map_values(|p: Point| rotate_about(cells[0], p))
    }
}

/// Every cell shifted by the same amount, so that the first cell lands on `target`.
pub open spec fn moved(cells: Seq<Point>, target: Point) -> Seq<Point> {
    if cells.len() == 0 {
        cells
    } else {
        cells.map_values(
            |p: Point| (p.0 + (target.0 - cells[0].0), p.1 + (target.1 - cells[0].1)),
        )
    }
}

/// Whether `p` lies in the square of side `SQUARE_WIDTH` centred on `cell`,
/// edges included.
pub open spec fn square_contains(cell: Point, p: Point) -> bool {
    &&& cell.0 - HALF_WIDTH <= p.0 <= cell.0 + HALF_WIDTH
    &&& cell.1 - HALF_WIDTH <= p.1 <= cell.1 + HALF_WIDTH
}

/// Whether `p` lies in the square of at least one of `cells`.
pub open spec fn hits(cells: Seq<Point>, p: Point) -> bool {
    exists|i: int| 0 <= i < cells.len() && #[trigger] square_contains(cells[i], p)
}

/// A piece after a request to rotate it: rotated, unless a cell would leave
/// the range of coordinates, in which case it stays as it was.
pub open spec fn after_rotate<C>(v: PieceView<C>) -> PieceView<C> {
    if all_in_i32(rotated(v.cells)) {
        PieceView { cells: rotated(v.cells), ..v }
    } else {
        v
    }
}

/// A piece after a request to drag its first cell to `target`: moved, unless a
/// cell would leave the range of coordinates, in which case it stays as it was.
pub open spec fn after_move<C>(v: PieceView<C>, target: Point) -> PieceView<C> {
    if all_in_i32(moved(v.cells, target)) {
        PieceView { cells: moved(v.cells, target), ..v }
    } else {
        v
    }
}

/// A polyomino on screen: an ordered, non-empty list of cells, a colour that is
/// only carried through to drawing, and whether it is being dragged.
pub struct Piece<C> {
    positions: Vec<Position>,
    color: C,
    moving: bool,
}

impl<C> View for Piece<C> {
    type V = PieceView<C>;

    closed spec fn view(&self) -> PieceView<C> {
        PieceView { cells: points(self.positions@), color: self.color, moving: self.moving }
    }
}

impl<C> Piece<C> {
    /// A constructed piece has at least one cell.
    pub open spec fn wf(&self) -> bool {
        self@.cells.len() > 0
    }

    /// A piece of the given shape built from `(start_x, start_y)`, not moving.
    pub fn new(shape: Shape, start_x: i32, start_y: i32, color: C) -> (r: Piece<C>)
        requires
            all_in_i32(shape_points(shape, start_x as int, start_y as int)),
        ensures
            r@ == (PieceView {
                cells: shape_points(shape, start_x as int, start_y as int),
                color,
                moving: false,
            }),
            r.wf(),
    {
        let positions = ShapeBuilder::build_shape(shape, start_x, start_y);
        assert(shape_offsets(shape).len() > 0);
        Piece { positions, color, moving: false }
    }

    /// The cells of the piece, pivot first.
    pub fn positions(&self) -> (r: &Vec<Position>)
        ensures
            points(r@) == self@.cells,
    {
        &self.positions
    }

    /// The colour the piece is drawn with.
    pub fn color(&self) -> (r: &C)
        ensures
            *r == self@.color,
    {
        &self.color
    }

    /// Marks the piece as dragged or not.
    pub fn set_moving(&mut self, moving: bool)
        ensures
            final(self)@ == (PieceView { moving, ..old(self)@ }),
    {
        self.moving = moving;
    }

    /// Settles a piece that was dropped in place: its drag ends.
    pub fn snap(&mut self)
        ensures
            final(self)@ == (PieceView { moving: false, ..old(self)@ }),
    {
        self.moving = false;
    }

    /// Whether the piece is being dragged.
    pub fn is_moving(&self) -> (r: bool)
        ensures
            r == self@.moving,
    {
        self.moving
    }

    /// Turns the piece a quarter turn counterclockwise about its first cell.
    /// A turn that would carry a cell out of the range of coordinates is not made.
    pub fn rotate(&mut self)
        ensures
            final(self)@ == after_rotate(old(self)@),
            old(self).wf() ==> final(self).wf(),
    {
        let ghost cells = self@.cells;
        let n = self.positions.len();
        if n == 0 {
            return;
        }
        let cx: i64 = self.positions[0].x as i64;
        let cy: i64 = self.positions[0].y as i64;
        let mut new_positions: Vec<Position> = Vec::new();
        let mut i: usize = 0;
        while i < n
            invariant
                n == self.positions@.len(),
                n > 0,
                cells == points(self.positions@),
                cx == cells[0].0,
                cy == cells[0].1,
                i <= n,
                points(new_positions@) == rotated(cells).take(i as int),
                all_in_i32(rotated(cells).take(i as int)),
                self@ == old(self)@,
            decreases n - i,
        {
            let p = self.positions[i];
            let x: i64 = cx - (p.y as i64 - cy);
            let y: i64 = cy + (p.x as i64 - cx);
            assert(rotated(cells)[i as int] == (x as int, y as int));
            if x < i32::MIN as i64 || x > i32::MAX as i64 || y < i32::MIN as i64 || y > i32::MAX as i64 {
                assert(!point_in_i32(rotated(cells)[i as int]));
                return;
            }
            let ghost before = new_positions@;
            new_positions.push(Position { x: x as i32, y: y as i32 });
            proof {
                assert(rotated(cells).take(i + 1) =~= rotated(cells).take(i as int).push(
                    (x as int, y as int),
                ));
                assert(points(new_positions@) =~= points(before).push((x as int, y as int)));
            }
            i = i + 1;
        }
        assert(rotated(cells).take(n as int) =~= rotated(cells));
        self.positions = new_positions;
    }

    /// Drags the piece so that its first cell lands on the pointer, keeping the
    /// offsets between its cells. A move that would carry a cell out of the
    /// range of coordinates is not made.
    pub fn move_it(&mut self, cursor: &Cursor)
        ensures
            final(self)@ == after_move(old(self)@, cursor.current_pos@),
            old(self).wf() ==> final(self).wf(),
    {
        let ghost cells = self@.cells;
        let ghost target = cursor.current_pos@;
        let n = self.positions.len();
        if n == 0 {
            return;
        }
        let delta_x: i64 = cursor.current_pos.x as i64 - self.positions[0].x as i64;
        let delta_y: i64 = cursor.current_pos.y as i64 - self.positions[0].y as i64;
        let mut new_positions: Vec<Position> = Vec::new();
        let mut i: usize = 0;
        while i < n
            invariant
                n == self.positions@.len(),
                n > 0,
                cells == points(self.positions@),
                target == cursor.current_pos@,
                delta_x == target.0 - cells[0].0,
                delta_y == target.1 - cells[0].1,
                i32::MIN - i32::MAX <= delta_x <= i32::MAX - i32::MIN,
                i32::MIN - i32::MAX <= delta_y <= i32::MAX - i32::MIN,
                i <= n,
                points(new_positions@) == moved(cells, target).take(i as int),
                all_in_i32(moved(cells, target).take(i as int)),
                self@ == old(self)@,
            decreases n - i,
        {
            let p = self.positions[i];
            let x: i64 = p.x as i64 + delta_x;
            let y: i64 = p.y as i64 + delta_y;
            assert(moved(cells, target)[i as int] == (x as int, y as int));
            if x < i32::MIN as i64 || x > i32::MAX as i64 || y < i32::MIN as i64 || y > i32::MAX as i64 {
                assert(!point_in_i32(moved(cells, target)[i as int]));
                return;
            }
            let ghost before = new_positions@;
            new_positions.push(Position { x: x as i32, y: y as i32 });
            proof {
                assert(moved(cells, target).take(i + 1) =~= moved(cells, target).take(
                    i as int,
                ).push((x as int, y as int)));
                assert(points(new_positions@) =~= points(before).push((x as int, y as int)));
            }
            i = i + 1;
        }
        assert(moved(cells, target).take(n as int) =~= moved(cells, target));
        self.positions = new_positions;
    }

    /// Whether `current_pos` lies in the square of any cell of the piece, edges
    /// included.
    pub fn is_even_odd(&self, current_pos: Position) -> (r: bool)
        ensures
            r == hits(self@.cells, current_pos@),
    {
        let ghost cells = self@.cells;
        let px: i64 = current_pos.x as i64;
        let py: i64 = current_pos.y as i64;
        let half: i64 = HALF_WIDTH as i64;
        let mut i: usize = 0;
        while i < self.positions.len()
            invariant
                cells == points(self.positions@),
                i <= cells.len(),
                half == HALF_WIDTH,
                px == current_pos.x,
                py == current_pos.y,
                forall|j: int| 0 <= j < i ==> !#[trigger] square_contains(cells[j], current_pos@),
            decreases cells.len() - i,
        {
            let cell = self.positions[i];
            let x: i64 = cell.x as i64;
            let y: i64 = cell.y as i64;
            if x - half <= px && px <= x + half && y - half <= py && py <= y + half {
                assert(square_contains(cells[i as int], current_pos@));
                return true;
            }
            i = i + 1;
        }
        false
    }
}

/// Four quarter turns bring every cell back where it was: the pivot never
/// moves, and each other cell's offset from it goes round once.
pub proof fn lemma_rotated_four_times(cells: Seq<Point>)
    ensures
        rotated(rotated(rotated(rotated(cells)))) == cells,
{
    if cells.len() > 0 {
        let r1 = rotated(cells);
        let r2 = rotated(r1);
        let r3 = rotated(r2);
        let r4 = rotated(r3);
        assert(r1[0] == cells[0]);
        assert(r2[0] == cells[0]);
        assert(r3[0] == cells[0]);
        assert(r4 =~= cells);
    }
}

/// A quarter turn leaves the first cell where it was and keeps every cell at
/// its index.
pub proof fn lemma_rotation_keeps_pivot(cells: Seq<Point>)
    requires
        cells.len() > 0,
    ensures
        rotated(cells).len() == cells.len(),
        rotated(cells)[0] == cells[0],
{
}

/// Rotating a piece four times gives back the same piece, cell for cell, as
/// long as none of the four turns would carry a cell out of the range of
/// coordinates.
pub proof fn lemma_rotate_four_times<C>(v: PieceView<C>)
    requires
        all_in_i32(rotated(v.cells)),
        all_in_i32(rotated(rotated(v.cells))),
        all_in_i32(rotated(rotated(rotated(v.cells)))),
        all_in_i32(rotated(rotated(rotated(rotated(v.cells))))),
    ensures
        after_rotate(after_rotate(after_rotate(after_rotate(v)))) == v,
{
    lemma_rotated_four_times(v.cells);
}

/// Dragging a piece puts its first cell exactly on the pointer and shifts
/// every cell by the pointer's offset from the old first cell; the colour and
/// the dragged flag stay.
pub proof fn lemma_drag_follows_pointer<C>(v: PieceView<C>, target: Point)
    requires
        v.cells.len() > 0,
        all_in_i32(moved(v.cells, target)),
    ensures
        after_move(v, target).cells.len() == v.cells.len(),
        after_move(v, target).cells[0] == target,
        forall|i: int|
            0 <= i < v.cells.len() ==> #[trigger] after_move(v, target).cells[i] == (
                v.cells[i].0 + (target.0 - v.cells[0].0),
                v.cells[i].1 + (target.1 - v.cells[0].1),
            ),
        after_move(v, target).color == v.color,
        after_move(v, target).moving == v.moving,
{
}

} // verus!
