use t_triste::{Board, Piece, Position, Shape, ShapeBuilder, SQUARE_WIDTH};

fn pos(x: i32, y: i32) -> Position {
    Position { x, y }
}

#[test]
fn piece_builder_test_build_board() {
    // *
    // *
    let board = Board::new(0, 0, 1, 2);
    assert_eq!(board.positions(), &vec![pos(0, 0), pos(0, SQUARE_WIDTH)]);
}

#[test]
fn shape_test_build_board() {
    // *
    // *
    let results = ShapeBuilder::new_board(0, 0, 1, 2);
    assert_eq!(results, vec![pos(0, 0), pos(0, SQUARE_WIDTH)]);
}

#[test]
fn shape_test_build_rectangle_piece() {
    // *
    // *
    // *
    let results = ShapeBuilder::new_rectangle_piece(0, 0);
    assert_eq!(
        results,
        vec![pos(0, 0), pos(0, SQUARE_WIDTH), pos(0, 2 * SQUARE_WIDTH)]
    );
}

#[test]
fn test_build_z_piece() {
    // * *
    //   * *
    let results = ShapeBuilder::new_z_piece(0, 0);
    assert_eq!(
        results,
        vec![
            pos(0, SQUARE_WIDTH),
            pos(SQUARE_WIDTH, SQUARE_WIDTH),
            pos(SQUARE_WIDTH, 0),
            pos(2 * SQUARE_WIDTH, 0)
        ]
    );
}

#[test]
fn test_build_corner_piece() {
    // *
    // * *
    let results = ShapeBuilder::new_corner_piece(0, 0);
    assert_eq!(results, vec![pos(0, 0), pos(SQUARE_WIDTH, 0), pos(0, SQUARE_WIDTH)]);
}

#[test]
fn test_build_dot_square_piece() {
    // *
    let results = ShapeBuilder::new_dot_square_piece(0, 0);
    assert_eq!(results, vec![pos(0, 0)]);
}

#[test]
fn l_piece_cells_in_building_order() {
    let results = ShapeBuilder::new_l_piece(0, 0);
    assert_eq!(results, vec![pos(0, 0), pos(50, 0), pos(0, 50), pos(0, 100)]);
}

#[test]
fn shapes_are_built_from_their_start_position() {
    assert_eq!(
        ShapeBuilder::build_shape(Shape::Rectangle, 200, 50),
        vec![pos(200, 50), pos(200, 100), pos(200, 150)]
    );
    assert_eq!(
        ShapeBuilder::build_shape(Shape::L, 200, 300),
        vec![pos(200, 300), pos(250, 300), pos(200, 350), pos(200, 400)]
    );
    assert_eq!(
        ShapeBuilder::build_shape(Shape::Z, 400, 500),
        vec![pos(400, 550), pos(450, 550), pos(450, 500), pos(500, 500)]
    );
    assert_eq!(
        ShapeBuilder::build_shape(Shape::Corner, 100, 300),
        vec![pos(100, 300), pos(150, 300), pos(100, 350)]
    );
    assert_eq!(ShapeBuilder::build_shape(Shape::Square, 300, 100), vec![pos(300, 100)]);
}

#[test]
fn z_piece_built_at_origin_keeps_its_order() {
    let piece = Piece::new(Shape::Z, 0, 0, ());
    assert_eq!(
        piece.positions(),
        &vec![pos(0, 50), pos(50, 50), pos(50, 0), pos(100, 0)]
    );
    assert!(!piece.is_moving());
}

#[test]
fn horizontal_run_of_given_length() {
    assert_eq!(
        ShapeBuilder::new_horizontal_rectangle(10, 20, 3),
        vec![pos(10, 20), pos(60, 20), pos(110, 20)]
    );
    assert_eq!(ShapeBuilder::new_horizontal_rectangle(10, 20, 0), vec![]);
    assert_eq!(ShapeBuilder::new_horizontal_rectangle(10, 20, -2), vec![]);
}

#[test]
fn builder_appends_runs_in_order() {
    let mut builder = ShapeBuilder::new();
    builder.add_horizontal_rectangle(0, 0, 2);
    builder.add_horizontal_rectangle(0, 50, 1);
    assert_eq!(builder.build(), vec![pos(0, 0), pos(50, 0), pos(0, 50)]);
}

#[test]
fn board_grid_row_by_row_from_the_bottom() {
    let board = Board::new(300, 250, 3, 2);
    assert_eq!(
        board.positions(),
        &vec![
            pos(300, 250),
            pos(350, 250),
            pos(400, 250),
            pos(300, 300),
            pos(350, 300),
            pos(400, 300)
        ]
    );
}

#[test]
fn empty_board_when_no_rows_or_columns() {
    assert_eq!(Board::new(0, 0, 0, 3).positions(), &vec![]);
    assert_eq!(Board::new(0, 0, 3, 0).positions(), &vec![]);
}
