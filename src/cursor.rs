use vstd::prelude::*;

use crate::position::Position;

verus! {

/// Pointer state, kept from one tick to the next.
pub struct Cursor {
    /// Where the pointer was last seen.
    pub current_pos: Position,
    /// Where the primary button was last pressed.
    pub last_click_pos: Position,
    /// Whether the primary button is held.
    pub is_pressed: bool,
}

impl Cursor {
    /// A pointer at the origin with no button held.
    pub fn new() -> (r: Cursor)
        ensures
            r.current_pos@ == (0int, 0int),
            r.last_click_pos@ == (0int, 0int),
            !r.is_pressed,
    {
        Cursor {
            current_pos: Position { x: 0, y: 0 },
            last_click_pos: Position { x: 0, y: 0 },
            is_pressed: false,
        }
    }

    /// Folds in the pointer moves of one tick, given in order, together with
    /// whether the primary button went down or up during that tick. A tick
    /// without any move leaves the cursor as it was.
    pub fn apply_moves(
        &mut self,
        moves: &Vec<Position>,
        left_just_pressed: bool,
        left_just_released: bool,
    )
        ensures
            moves@.len() == 0 ==> *final(self) == *old(self),
            moves@.len() > 0 ==> {
                &&& final(self).current_pos == moves@.last()
                &&& final(self).last_click_pos == if left_just_pressed {
                    moves@.last()
                } else {
                    old(self).last_click_pos
                }
                &&& final(self).is_pressed == if left_just_released {
                    false
                } else if left_just_pressed {
                    true
                } else {
                    old(self).is_pressed
                }
            },
    {
        let mut i: usize = 0;
        while i < moves.len()
            invariant
                i <= moves@.len(),
                i == 0 ==> *self == *old(self),
                i > 0 ==> {
                    &&& self.current_pos == moves@[i - 1]
                    &&& self.last_click_pos == if left_just_pressed {
                        moves@[i - 1]
                    } else {
                        old(self).last_click_pos
                    }
                    &&& self.is_pressed == if left_just_released {
                        false
                    } else if left_just_pressed {
                        true
                    } else {
                        old(self).is_pressed
                    }
                },
            decreases moves@.len() - i,
        {
            let position = moves[i];
            self.current_pos = position;
            if left_just_pressed {
                self.last_click_pos = position;
                self.is_pressed = true;
            }
            if left_just_released {
                self.is_pressed = false;
            }
            i = i + 1;
        }
    }
}

} // verus!
