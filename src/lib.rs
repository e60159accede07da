use vstd::prelude::*;

pub mod board;
pub mod cursor;
pub mod game;
pub mod piece;
pub mod position;
pub mod shape;

pub use board::Board;
pub use cursor::Cursor;
pub use game::GameState;
pub use piece::Piece;
pub use position::{Position, SQUARE_WIDTH};
pub use shape::{Shape, ShapeBuilder};

verus! {

} // verus!
