use vstd::prelude::*;

use crate::position::{all_in_i32, in_i32, point_in_i32, points, Point, Position, SQUARE_WIDTH};

verus! {

/// The kinds of piece that can be built.
#[derive(Clone, Copy, Debug, PartialEq, Eq, Structural)]
pub enum Shape {
    /// Three squares stacked vertically.
    Rectangle,
    /// Two squares side by side, with two more stacked on the left one.
    L,
    /// Two side-by-side squares on top, shifted one square left of the two below.
    Z,
    /// Two squares side by side, with one more on the left one.
    Corner,
    /// A single square.
    Square,
}

/// The cells of each shape, as (column, row) offsets in squares from the start
/// position, in building order. The first cell is the pivot of the piece.
pub open spec fn shape_offsets(shape: Shape) -> Seq<Point> {
    match shape {
        Shape::Rectangle => seq![(0, 0), (0, 1), (0, 2)],
        Shape::L => seq![(0, 0), (1, 0), (0, 1), (0, 2)],
        Shape::Z => seq![(0, 1), (1, 1), (1, 0), (2, 0)],
        Shape::Corner => seq![(0, 0), (1, 0), (0, 1)],
        Shape::Square => seq![(0, 0)],
    }
}

/// The cells of `shape` built from `(x, y)`, in world coordinates.
pub open spec fn shape_points(shape: Shape, x: int, y: int) -> Seq<Point> {
    shape_offsets(shape).map_values(
        |o: Point| (x + SQUARE_WIDTH * o.0, y + SQUARE_WIDTH * o.1),
    )
}

/// A horizontal run of `len` squares whose leftmost square is at `(x, y)`.
pub open spec fn run_points(x: int, y: int, len: int) -> Seq<Point> {
    Seq::new(
        if len > 0 { len as nat } else { 0 },
        |j: int| (x + SQUARE_WIDTH * j, y),
    )
}

/// A grid of `rows` runs of `cols` squares, the bottom one starting at
/// `(x, y)`, each next one a square higher; listed row by row from the bottom.
pub open spec fn board_points(x: int, y: int, cols: int, rows: int) -> Seq<Point>
    decreases rows,
{
    if rows <= 0 {
        Seq::empty()
    } else {
        board_points(x, y, cols, rows - 1) + run_points(x, y + SQUARE_WIDTH * (rows - 1), cols)
    }
}

/// Accumulates the cells of a shape, one horizontal run at a time.
pub struct ShapeBuilder {
    positions: Vec<Position>,
}

impl View for ShapeBuilder {
    type V = Seq<Point>;

    closed spec fn view(&self) -> Seq<Point> {
        points(self.positions@)
    }
}

impl ShapeBuilder {
    /// A builder that holds no cell yet.
    pub fn new() -> (r: ShapeBuilder)
        ensures
            r@ == Seq::<Point>::empty(),
    {
        ShapeBuilder { positions: Vec::new() }
    }

    /// Appends a horizontal run of `length` squares starting at `(start_x, start_y)`;
    /// a length of zero or less appends nothing.
    pub fn add_horizontal_rectangle(&mut self, start_x: i32, start_y: i32, length: i32)
        requires
            length <= 0 || in_i32(start_x + SQUARE_WIDTH * (length - 1)),
        ensures
            final(self)@ == old(self)@ + run_points(start_x as int, start_y as int, length as int),
    {
        let ghost before = self@;
        let mut i: i32 = 0;
        while i < length
            invariant
                0 <= i,
                length <= 0 ==> i == 0,
                length > 0 ==> i <= length,
                length <= 0 || in_i32(start_x + SQUARE_WIDTH * (length - 1)),
                self@ == before + run_points(start_x as int, start_y as int, i as int),
            decreases length - i,
        {
            let width: i64 = SQUARE_WIDTH as i64;
            let x: i64 = start_x as i64 + (i as i64) * width;
            assert(in_i32(x as int));
            let ghost pushed_before = self.positions@;
            self.positions.push(Position { x: x as i32, y: start_y });
            proof {
                let sx = start_x as int;
                let sy = start_y as int;
                assert(run_points(sx, sy, i + 1) =~= run_points(sx, sy, i as int).push(
                    (sx + SQUARE_WIDTH * i, sy),
                ));
                assert(points(self.positions@) =~= points(pushed_before).push(
                    (sx + SQUARE_WIDTH * i, sy),
                ));
            }
            i = i + 1;
        }
        proof {
            if length <= 0 {
                assert(run_points(start_x as int, start_y as int, length as int) =~= run_points(
                    start_x as int,
                    start_y as int,
                    0,
                ));
            }
        }
    }

    /// The cells gathered so far, in the order they were added.
    pub fn build(self) -> (r: Vec<Position>)
        ensures
            points(r@) == self@,
    {
        self.positions
    }

    /// A horizontal run of `length` squares starting at `(start_x, start_y)`.
    pub fn new_horizontal_rectangle(start_x: i32, start_y: i32, length: i32) -> (r: Vec<
        Position,
    >)
        requires
            length <= 0 || in_i32(start_x + SQUARE_WIDTH * (length - 1)),
        ensures
            points(r@) == run_points(start_x as int, start_y as int, length as int),
    {
        let mut builder = ShapeBuilder::new();
        builder.add_horizontal_rectangle(start_x, start_y, length);
        assert(builder@ =~= run_points(start_x as int, start_y as int, length as int));
        builder.build()
    }

    /// The cells of a grid of `nb_rows` rows of `nb_cols` squares whose bottom-left
    /// square is at `(start_x, start_y)`, row by row from the bottom.
    pub fn new_board(start_x: i32, start_y: i32, nb_cols: i32, nb_rows: i32) -> (r: Vec<Position>)
        requires
            nb_cols <= 0 || in_i32(start_x + SQUARE_WIDTH * (nb_cols - 1)),
            nb_rows <= 0 || in_i32(start_y + SQUARE_WIDTH * (nb_rows - 1)),
        ensures
            points(r@) == board_points(start_x as int, start_y as int, nb_cols as int, nb_rows as int),
    {
        let mut builder = ShapeBuilder::new();
        let mut i: i32 = 0;
        while i < nb_rows
            invariant
                0 <= i,
                nb_rows <= 0 ==> i == 0,
                nb_rows > 0 ==> i <= nb_rows,
                nb_cols <= 0 || in_i32(start_x + SQUARE_WIDTH * (nb_cols - 1)),
                nb_rows <= 0 || in_i32(start_y + SQUARE_WIDTH * (nb_rows - 1)),
                builder@ == board_points(start_x as int, start_y as int, nb_cols as int, i as int),
            decreases nb_rows - i,
        {
            let width: i64 = SQUARE_WIDTH as i64;
            let y: i64 = start_y as i64 + (i as i64) * width;
            builder.add_horizontal_rectangle(start_x, y as i32, nb_cols);
            i = i + 1;
        }
        proof {
            if nb_rows <= 0 {
                assert(board_points(start_x as int, start_y as int, nb_cols as int, nb_rows as int)
                    =~= Seq::empty());
            }
        }
        builder.build()
    }

    /// The three vertically stacked cells of a rectangle piece.
    pub fn new_rectangle_piece(start_x: i32, start_y: i32) -> (r: Vec<Position>)
        requires
            all_in_i32(shape_points(Shape::Rectangle, start_x as int, start_y as int)),
        ensures
            points(r@) == shape_points(Shape::Rectangle, start_x as int, start_y as int),
    {
        let ghost cells = shape_points(Shape::Rectangle, start_x as int, start_y as int);
        assert(point_in_i32(cells[2]));
        let mut builder = ShapeBuilder::new();
        builder.add_horizontal_rectangle(start_x, start_y, 1);
        builder.add_horizontal_rectangle(start_x, start_y + SQUARE_WIDTH, 1);
        builder.add_horizontal_rectangle(start_x, start_y + 2 * SQUARE_WIDTH, 1);
        assert(builder@ =~= cells);
        builder.build()
    }

    /// The four cells of an L piece.
    pub fn new_l_piece(start_x: i32, start_y: i32) -> (r: Vec<Position>)
        requires
            all_in_i32(shape_points(Shape::L, start_x as int, start_y as int)),
        ensures
            points(r@) == shape_points(Shape::L, start_x as int, start_y as int),
    {
        let ghost cells = shape_points(Shape::L, start_x as int, start_y as int);
        assert(point_in_i32(cells[1]));
        assert(point_in_i32(cells[3]));
        let mut builder = ShapeBuilder::new();
        builder.add_horizontal_rectangle(start_x, start_y, 1);
        builder.add_horizontal_rectangle(start_x + SQUARE_WIDTH, start_y, 1);
        builder.add_horizontal_rectangle(start_x, start_y + SQUARE_WIDTH, 1);
        builder.add_horizontal_rectangle(start_x, start_y + 2 * SQUARE_WIDTH, 1);
        assert(builder@ =~= cells);
        builder.build()
    }

    /// The four cells of a Z piece.
    pub fn new_z_piece(start_x: i32, start_y: i32) -> (r: Vec<Position>)
        requires
            all_in_i32(shape_points(Shape::Z, start_x as int, start_y as int)),
        ensures
            points(r@) == shape_points(Shape::Z, start_x as int, start_y as int),
    {
        let ghost cells = shape_points(Shape::Z, start_x as int, start_y as int);
        assert(point_in_i32(cells[0]));
        assert(point_in_i32(cells[3]));
        let mut builder = ShapeBuilder::new();
        builder.add_horizontal_rectangle(start_x, start_y + SQUARE_WIDTH, 2);
        builder.add_horizontal_rectangle(start_x + SQUARE_WIDTH, start_y, 2);
        assert(builder@ =~= cells);
        builder.build()
    }

    /// The three cells of a corner piece.
    pub fn new_corner_piece(start_x: i32, start_y: i32) -> (r: Vec<Position>)
        requires
            all_in_i32(shape_points(Shape::Corner, start_x as int, start_y as int)),
        ensures
            points(r@) == shape_points(Shape::Corner, start_x as int, start_y as int),
    {
        let ghost cells = shape_points(Shape::Corner, start_x as int, start_y as int);
        assert(point_in_i32(cells[1]));
        assert(point_in_i32(cells[2]));
        let mut builder = ShapeBuilder::new();
        builder.add_horizontal_rectangle(start_x, start_y, 2);
        builder.add_horizontal_rectangle(start_x, start_y + SQUARE_WIDTH, 1);
        assert(builder@ =~= cells);
        builder.build()
    }

    /// The single cell of a square piece.
    pub fn new_dot_square_piece(start_x: i32, start_y: i32) -> (r: Vec<Position>)
        ensures
            points(r@) == shape_points(Shape::Square, start_x as int, start_y as int),
    {
        let ghost cells = shape_points(Shape::Square, start_x as int, start_y as int);
        let mut builder = ShapeBuilder::new();
        builder.add_horizontal_rectangle(start_x, start_y, 1);
        assert(builder@ =~= cells);
        builder.build()
    }

    /// The cells of `shape` built from `(start_x, start_y)`.
    pub fn build_shape(shape: Shape, start_x: i32, start_y: i32) -> (r: Vec<Position>)
        requires
            all_in_i32(shape_points(shape, start_x as int, start_y as int)),
        ensures
            points(r@) == shape_points(shape, start_x as int, start_y as int),
    {
        match shape {
            Shape::Rectangle => ShapeBuilder::new_rectangle_piece(start_x, start_y),
            Shape::L => ShapeBuilder::new_l_piece(start_x, start_y),
            Shape::Z => ShapeBuilder::new_z_piece(start_x, start_y),
            Shape::Corner => ShapeBuilder::new_corner_piece(start_x, start_y),
            Shape::Square => ShapeBuilder::new_dot_square_piece(start_x, start_y),
        }
    }
}

} // verus!
