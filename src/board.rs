use vstd::prelude::*;

use crate::piece::Piece;
use crate::position::{in_i32, points, Point, Position, SQUARE_WIDTH};
use crate::shape::{board_points, ShapeBuilder};

verus! {

/// What a board is, seen mathematically: its cells, row by row from the
/// bottom, and the bounds used to judge whether a piece was dropped on it.
pub struct BoardView {
    pub cells: Seq<Point>,
    pub min_x: int,
    pub min_y: int,
    pub max_x: int,
    pub max_y: int,
}

/// Whether `v` lies between `lo * 0.95` and `hi * 1.05`, bounds included,
/// compared exactly (both sides multiplied by 20).
pub open spec fn within_tolerance(lo: int, hi: int, v: int) -> bool {
    19 * lo <= 20 * v && 20 * v <= 21 * hi
}

/// Whether the point `p` lies in the board's bounds widened by the tolerance.
pub open spec fn accepts(b: BoardView, p: Point) -> bool {
    within_tolerance(b.min_x, b.max_x, p.0) && within_tolerance(b.min_y, b.max_y, p.1)
}

/// Whether every cell lies in the board's bounds widened by the tolerance.
pub open spec fn accepts_all(b: BoardView, cells: Seq<Point>) -> bool {
    forall|i: int| 0 <= i < cells.len() ==> #[trigger] accepts(b, cells[i])
}

/// The grid that pieces are dropped on. Its bounds are fixed when it is built:
/// the minimum is the first cell, the maximum one full square beyond the last
/// column and the last row.
pub struct Board {
    positions: Vec<Position>,
    min_x: i32,
    min_y: i32,
    max_x: i32,
    max_y: i32,
}

impl View for Board {
    type V = BoardView;

    closed spec fn view(&self) -> BoardView {
        BoardView {
            cells: points(self.positions@),
            min_x: self.min_x as int,
            min_y: self.min_y as int,
            max_x: self.max_x as int,
            max_y: self.max_y as int,
        }
    }
}

impl Board {
    /// A board of `nb_rows` rows of `nb_cols` squares whose bottom-left square
    /// is at `(start_x, start_y)`.
    pub fn new(start_x: i32, start_y: i32, nb_cols: i32, nb_rows: i32) -> (r: Board)
        requires
            in_i32(start_x + SQUARE_WIDTH * nb_cols),
            in_i32(start_y + SQUARE_WIDTH * nb_rows),
        ensures
            r@ == (BoardView {
                cells: board_points(start_x as int, start_y as int, nb_cols as int, nb_rows as int),
                min_x: start_x as int,
                min_y: start_y as int,
                max_x: start_x + SQUARE_WIDTH * nb_cols,
                max_y: start_y + SQUARE_WIDTH * nb_rows,
            }),
    {
        let positions = ShapeBuilder::new_board(start_x, start_y, nb_cols, nb_rows);
        let width: i64 = SQUARE_WIDTH as i64;
        let max_x: i64 = start_x as i64 + width * (nb_cols as i64);
        let max_y: i64 = start_y as i64 + width * (nb_rows as i64);
        Board { positions, min_x: start_x, min_y: start_y, max_x: max_x as i32, max_y: max_y as i32 }
    }

    /// The cells of the board, row by row from the bottom.
    pub fn positions(&self) -> (r: &Vec<Position>)
        ensures
            points(r@) == self@.cells,
    {
        &self.positions
    }

    /// The lowest x bound: the x of the first column.
    pub fn min_x(&self) -> (r: i32)
        ensures
            r == self@.min_x,
    {
        self.min_x
    }

    /// The lowest y bound: the y of the first row.
    pub fn min_y(&self) -> (r: i32)
        ensures
            r == self@.min_y,
    {
        self.min_y
    }

    /// The highest x bound: one square past the last column.
    pub fn max_x(&self) -> (r: i32)
        ensures
            r == self@.max_x,
    {
        self.max_x
    }

    /// The highest y bound: one square past the last row.
    pub fn max_y(&self) -> (r: i32)
        ensures
            r == self@.max_y,
    {
        self.max_y
    }

    /// Whether every cell of `piece` lies within the board's bounds, the lower
    /// ones scaled by 0.95 and the upper ones by 1.05, edges included.
    pub fn in_board<C>(&self, piece: &Piece<C>) -> (r: bool)
        ensures
            r == accepts_all(self@, piece@.cells),
    {
        let ghost cells = piece@.cells;
        let cells_ref = piece.positions();
        let lo_x: i64 = 19 * (self.min_x as i64);
        let hi_x: i64 = 21 * (self.max_x as i64);
        let lo_y: i64 = 19 * (self.min_y as i64);
        let hi_y: i64 = 21 * (self.max_y as i64);
        let mut i: usize = 0;
        while i < cells_ref.len()
            invariant
                cells == piece@.cells,
                cells == points(cells_ref@),
                i <= cells.len(),
                lo_x == 19 * self@.min_x,
                hi_x == 21 * self@.max_x,
                lo_y == 19 * self@.min_y,
                hi_y == 21 * self@.max_y,
                forall|j: int| 0 <= j < i ==> #[trigger] accepts(self@, cells[j]),
            decreases cells.len() - i,
        {
            let x: i64 = 20 * (cells_ref[i].x as i64);
            let y: i64 = 20 * (cells_ref[i].y as i64);
            if !(lo_x <= x && x <= hi_x && lo_y <= y && y <= hi_y) {
                assert(!accepts(self@, cells[i as int]));
                return false;
            }
            i = i + 1;
        }
        true
    }
}

} // verus!
