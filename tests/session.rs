use t_triste::{Board, Cursor, GameState, Piece, Position, Shape};

fn pos(x: i32, y: i32) -> Position {
    Position { x, y }
}

fn cursor(x: i32, y: i32, is_pressed: bool) -> Cursor {
    Cursor { current_pos: pos(x, y), last_click_pos: pos(x, y), is_pressed }
}

fn moving(state: &GameState<u8>) -> Vec<bool> {
    state.pieces().iter().map(|p| p.is_moving()).collect()
}

#[test]
fn board_bounds_reach_one_square_past_the_last_cell() {
    let board = Board::new(100, 50, 3, 4);
    assert_eq!(board.min_x(), 100);
    assert_eq!(board.max_x(), 250);
    assert_eq!(board.min_y(), 50);
    assert_eq!(board.max_y(), 250);
    assert_eq!(board.positions().len(), 12);
}

#[test]
fn piece_inside_tolerance_box_is_in_board() {
    let board = Board::new(100, 50, 3, 4);
    // Corners of [95, 262.5] x [47.5, 262.5].
    assert!(board.in_board(&Piece::new(Shape::Square, 95, 48, ())));
    assert!(board.in_board(&Piece::new(Shape::Square, 262, 262, ())));
    assert!(board.in_board(&Piece::new(Shape::Corner, 150, 100, ())));
}

#[test]
fn piece_with_a_cell_outside_is_not_in_board() {
    let board = Board::new(100, 50, 3, 4);
    assert!(!board.in_board(&Piece::new(Shape::Square, 94, 100, ())));
    assert!(!board.in_board(&Piece::new(Shape::Square, 263, 100, ())));
    assert!(!board.in_board(&Piece::new(Shape::Square, 150, 47, ())));
    assert!(!board.in_board(&Piece::new(Shape::Square, 150, 263, ())));
    // Two cells inside, the third at y = 300.
    assert!(!board.in_board(&Piece::new(Shape::Rectangle, 150, 200, ())));
}

#[test]
fn release_on_board_snaps_the_dragged_piece() {
    let board = Board::new(100, 50, 3, 4);
    let mut state = GameState::new(vec![
        Piece::new(Shape::Square, 600, 600, 1u8),
        Piece::new(Shape::Corner, 150, 100, 2u8),
    ]);
    state.click_piece(pos(150, 100), true, false);
    assert_eq!(moving(&state), vec![false, true]);
    assert!(state.incrust_in_board(&board, true));
    assert_eq!(moving(&state), vec![false, false]);
}

#[test]
fn release_off_board_does_not_snap() {
    let board = Board::new(100, 50, 3, 4);
    let mut state = GameState::new(vec![Piece::new(Shape::Rectangle, 150, 200, 1u8)]);
    state.click_piece(pos(150, 200), true, false);
    assert!(!state.incrust_in_board(&board, true));
    assert_eq!(moving(&state), vec![true]);
    state.release_piece(true);
    assert_eq!(moving(&state), vec![false]);
}

#[test]
fn no_drop_without_release_or_dragged_piece() {
    let board = Board::new(100, 50, 3, 4);
    let mut state = GameState::new(vec![Piece::new(Shape::Square, 150, 100, 1u8)]);
    assert!(!state.incrust_in_board(&board, true));
    state.click_piece(pos(150, 100), true, false);
    assert!(!state.incrust_in_board(&board, false));
    assert_eq!(moving(&state), vec![true]);
}

#[test]
fn primary_press_picks_only_the_first_piece_under_pointer() {
    let mut state = GameState::new(vec![
        Piece::new(Shape::Square, 0, 0, 1u8),
        Piece::new(Shape::Square, 10, 10, 2u8),
        Piece::new(Shape::Square, 20, 20, 3u8),
    ]);
    state.click_piece(pos(15, 15), true, true);
    assert_eq!(moving(&state), vec![true, false, false]);
    // The press picked a piece, so the secondary press rotated nothing.
    assert_eq!(state.pieces()[1].positions(), &vec![pos(10, 10)]);
}

#[test]
fn secondary_press_rotates_every_piece_under_pointer() {
    let mut state = GameState::new(vec![
        Piece::new(Shape::Rectangle, 0, 0, 1u8),
        Piece::new(Shape::Corner, 0, 100, 2u8),
        Piece::new(Shape::Rectangle, 500, 500, 3u8),
    ]);
    state.click_piece(pos(0, 100), false, true);
    assert_eq!(state.pieces()[0].positions(), &vec![pos(0, 0), pos(-50, 0), pos(-100, 0)]);
    assert_eq!(state.pieces()[1].positions(), &vec![pos(0, 100), pos(0, 150), pos(-50, 100)]);
    assert_eq!(
        state.pieces()[2].positions(),
        &vec![pos(500, 500), pos(500, 550), pos(500, 600)]
    );
    assert_eq!(moving(&state), vec![false, false, false]);
}

#[test]
fn primary_press_missing_every_piece_falls_through_to_rotation() {
    let mut state = GameState::new(vec![Piece::new(Shape::Rectangle, 0, 0, 1u8)]);
    state.click_piece(pos(0, 50), true, true);
    assert_eq!(moving(&state), vec![true]);
    let mut state = GameState::new(vec![Piece::new(Shape::Rectangle, 0, 0, 1u8)]);
    state.click_piece(pos(300, 300), true, true);
    assert_eq!(moving(&state), vec![false]);
    assert_eq!(state.pieces()[0].positions(), &vec![pos(0, 0), pos(0, 50), pos(0, 100)]);
}

#[test]
fn only_dragged_pieces_follow_a_held_pointer() {
    let mut state = GameState::new(vec![
        Piece::new(Shape::Square, 0, 0, 1u8),
        Piece::new(Shape::Corner, 100, 100, 2u8),
    ]);
    state.click_piece(pos(100, 100), true, false);
    state.move_piece(&cursor(300, 200, false));
    assert_eq!(state.pieces()[1].positions()[0], pos(100, 100));
    state.move_piece(&cursor(300, 200, true));
    assert_eq!(state.pieces()[0].positions(), &vec![pos(0, 0)]);
    assert_eq!(
        state.pieces()[1].positions(),
        &vec![pos(300, 200), pos(350, 200), pos(300, 250)]
    );
}

#[test]
fn tick_drops_before_release_then_clicks_then_drags() {
    let board = Board::new(100, 50, 3, 4);
    let mut state = GameState::new(vec![Piece::new(Shape::Square, 500, 500, 1u8)]);
    // Press on the piece.
    assert!(!state.tick(&board, &cursor(500, 500, true), true, false, false));
    assert_eq!(moving(&state), vec![true]);
    // Drag it onto the board.
    assert!(!state.tick(&board, &cursor(150, 150, true), false, false, false));
    assert_eq!(state.pieces()[0].positions(), &vec![pos(150, 150)]);
    // Release: it snaps, and no drag is left.
    assert!(state.tick(&board, &cursor(150, 150, false), false, true, false));
    assert_eq!(moving(&state), vec![false]);
    assert_eq!(state.pieces()[0].positions(), &vec![pos(150, 150)]);
}

#[test]
fn cursor_starts_at_origin() {
    let c = Cursor::new();
    assert_eq!(c.current_pos, pos(0, 0));
    assert_eq!(c.last_click_pos, pos(0, 0));
    assert!(!c.is_pressed);
}

#[test]
fn cursor_tracks_moves_and_primary_button() {
    let mut c = Cursor::new();
    c.apply_moves(&vec![pos(1, 2), pos(3, 4)], true, false);
    assert_eq!(c.current_pos, pos(3, 4));
    assert_eq!(c.last_click_pos, pos(3, 4));
    assert!(c.is_pressed);
    c.apply_moves(&vec![pos(7, 8)], false, false);
    assert_eq!(c.current_pos, pos(7, 8));
    assert_eq!(c.last_click_pos, pos(3, 4));
    assert!(c.is_pressed);
    c.apply_moves(&vec![pos(9, 9)], false, true);
    assert!(!c.is_pressed);
}

#[test]
fn cursor_without_moves_is_unchanged() {
    let mut c = Cursor::new();
    c.apply_moves(&vec![], true, false);
    assert_eq!(c.current_pos, pos(0, 0));
    assert!(!c.is_pressed);
}
