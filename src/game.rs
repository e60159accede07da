use vstd::prelude::*;

use crate::board::{accepts_all, Board, BoardView};
use crate::cursor::Cursor;
use crate::piece::{after_move, after_rotate, hits, Piece, PieceView};
use crate::position::{Point, Position};

verus! {

/// Whether `k` is the first piece of `s` whose squares hold `p`.
pub open spec fn is_first_hit<C>(s: Seq<PieceView<C>>, p: Point, k: int) -> bool {
    &&& 0 <= k < s.len()
    &&& hits(s[k].cells, p)
    &&& forall|j: int| 0 <= j < k ==> !#[trigger] hits(s[j].cells, p)
}

/// Whether some piece of `s` has a square holding `p`.
pub open spec fn any_hit<C>(s: Seq<PieceView<C>>, p: Point) -> bool {
    exists|k: int| 0 <= k < s.len() && #[trigger] hits(s[k].cells, p)
}

/// Whether `k` is the first piece of `s` that is being dragged.
pub open spec fn is_first_moving<C>(s: Seq<PieceView<C>>, k: int) -> bool {
    &&& 0 <= k < s.len()
    &&& s[k].moving
    &&& forall|j: int| 0 <= j < k ==> !(#[trigger] s[j]).moving
}

/// Whether some piece of `s` is being dragged.
pub open spec fn any_moving<C>(s: Seq<PieceView<C>>) -> bool {
    exists|k: int| 0 <= k < s.len() && (#[trigger] s[k]).moving
}

/// `v` with its dragged flag set to `moving`.
pub open spec fn with_moving<C>(v: PieceView<C>, moving: bool) -> PieceView<C> {
    PieceView { moving, ..v }
}

/// The pieces after the primary button goes down at `p`: the first piece under
/// the pointer starts being dragged.
pub open spec fn after_press<C>(s: Seq<PieceView<C>>, p: Point) -> Seq<PieceView<C>> {
    let k = choose|k: int| is_first_hit(s, p, k);
    s.update(k, with_moving(s[k], true))
}

/// The pieces after the secondary button goes down at `p`: every piece under
/// the pointer is rotated.
pub open spec fn after_secondary_press<C>(s: Seq<PieceView<C>>, p: Point) -> Seq<PieceView<C>> {
    s.map_values(|v: PieceView<C>| if hits(v.cells, p) { after_rotate(v) } else { v })
}

/// The pieces after a tick's button presses with the pointer at `p`. A
/// primary press that picks a piece ends the tick's click handling; otherwise a
/// secondary press rotates the pieces under the pointer.
pub open spec fn after_click<C>(
    s: Seq<PieceView<C>>,
    p: Point,
    left_just_pressed: bool,
    right_just_pressed: bool,
) -> Seq<PieceView<C>> {
    if left_just_pressed && any_hit(s, p) {
        after_press(s, p)
    } else if right_just_pressed {
        after_secondary_press(s, p)
    } else {
        s
    }
}

/// The pieces after the primary button is released: none is dragged any more.
pub open spec fn after_release<C>(s: Seq<PieceView<C>>) -> Seq<PieceView<C>> {
    s.map_values(|v: PieceView<C>| with_moving(v, false))
}

/// The pieces after a tick with the pointer state `cursor`: while the primary
/// button is held, every dragged piece follows the pointer.
pub open spec fn after_drag<C>(s: Seq<PieceView<C>>, cursor: Cursor) -> Seq<PieceView<C>> {
    if cursor.is_pressed {
        s.map_values(
            |v: PieceView<C>|
                if v.moving {
                    after_move(v, cursor.current_pos@)
                } else {
                    v
                },
        )
    } else {
        s
    }
}

/// Whether the first dragged piece lies on board `b`, within the tolerance.
pub open spec fn drop_fits<C>(s: Seq<PieceView<C>>, b: BoardView) -> bool {
    any_moving(s) && accepts_all(b, s[choose|k: int| is_first_moving(s, k)].cells)
}

/// The pieces after the first dragged piece is dropped on board `b`: when it
/// fits it snaps, which ends its drag; otherwise nothing changes.
pub open spec fn after_drop<C>(s: Seq<PieceView<C>>, b: BoardView) -> Seq<PieceView<C>> {
    if drop_fits(s, b) {
        let k = choose|k: int| is_first_moving(s, k);
        s.update(k, with_moving(s[k], false))
    } else {
        s
    }
}

/// At most one index is the first one under the pointer.
proof fn lemma_first_hit_unique<C>(s: Seq<PieceView<C>>, p: Point, k: int)
    requires
        is_first_hit(s, p, k),
    ensures
        (choose|j: int| is_first_hit(s, p, j)) == k,
{
    let j = choose|j: int| is_first_hit(s, p, j);
    assert(is_first_hit(s, p, j));
    if j < k {
        assert(!hits(s[j].cells, p));
    }
    if k < j {
        assert(!hits(s[k].cells, p));
    }
}

/// At most one index is the first dragged piece.
proof fn lemma_first_moving_unique<C>(s: Seq<PieceView<C>>, k: int)
    requires
        is_first_moving(s, k),
    ensures
        (choose|j: int| is_first_moving(s, j)) == k,
{
    let j = choose|j: int| is_first_moving(s, j);
    assert(is_first_moving(s, j));
    if j < k {
        assert(!s[j].moving);
    }
    if k < j {
        assert(!s[k].moving);
    }
}

/// The pieces of a session, in the order in which they are tried under the pointer.
pub struct GameState<C> {
    pieces: Vec<Piece<C>>,
}

impl<C> View for GameState<C> {
    type V = Seq<PieceView<C>>;

    closed spec fn view(&self) -> Seq<PieceView<C>> {
        self.pieces@.map_values(|p: Piece<C>| p@)
    }
}

impl<C> GameState<C> {
    /// Every piece has at least one cell.
    pub open spec fn wf(&self) -> bool {
        forall|i: int| 0 <= i < self@.len() ==> (#[trigger] self@[i]).cells.len() > 0
    }

    /// A session over the given pieces, in that order.
    pub fn new(pieces: Vec<Piece<C>>) -> (r: GameState<C>)
        ensures
            r@ == pieces@.map_values(|p: Piece<C>| p@),
    {
        GameState { pieces }
    }

    /// The pieces, in order.
    pub fn pieces(&self) -> (r: &Vec<Piece<C>>)
        ensures
            r@.map_values(|p: Piece<C>| p@) == self@,
    {
        &self.pieces
    }

    /// Handles the button presses of one tick with the pointer at `cursor_pos`:
    /// a primary press starts dragging the first piece under the pointer; if it
    /// picked none, a secondary press rotates every piece under the pointer.
    pub fn click_piece(
        &mut self,
        cursor_pos: Position,
        left_just_pressed: bool,
        right_just_pressed: bool,
    )
        ensures
            final(self)@ == after_click(
                old(self)@,
                cursor_pos@,
                left_just_pressed,
                right_just_pressed,
            ),
            old(self).wf() ==> final(self).wf(),
    {
        let ghost s = self@;
        let ghost p = cursor_pos@;
        if left_just_pressed {
            let mut i: usize = 0;
            while i < self.pieces.len()
                invariant
                    self@ == s,
                    s == old(self)@,
                    p == cursor_pos@,
                    left_just_pressed,
                    i <= s.len(),
                    forall|j: int| 0 <= j < i ==> !#[trigger] hits(s[j].cells, p),
                decreases s.len() - i,
            {
                assert(self.pieces@[i as int]@ == s[i as int]);
                if self.pieces[i].is_even_odd(cursor_pos) {
                    proof {
                        assert(is_first_hit(s, p, i as int));
                        lemma_first_hit_unique(s, p, i as int);
                    }
                    self.pieces[i].set_moving(true);
                    assert(self@ =~= s.update(i as int, with_moving(s[i as int], true)));
                    return;
                }
                i = i + 1;
            }
            assert(!any_hit(s, p));
        }
        if right_just_pressed {
            let mut i: usize = 0;
            while i < self.pieces.len()
                invariant
                    self@.len() == s.len(),
                    p == cursor_pos@,
                    i <= s.len(),
                    forall|j: int|
                        0 <= j < i ==> #[trigger] self@[j] == if hits(s[j].cells, p) {
                            after_rotate(s[j])
                        } else {
                            s[j]
                        },
                    forall|j: int| i <= j < s.len() ==> #[trigger] self@[j] == s[j],
                decreases s.len() - i,
            {
                assert(self@[i as int] == s[i as int]);
                assert(self.pieces@[i as int]@ == s[i as int]);
                let ghost prev = self@;
                if self.pieces[i].is_even_odd(cursor_pos) {
                    self.pieces[i].rotate();
                }
                assert(self@ =~= prev.update(i as int, self.pieces@[i as int]@));
                i = i + 1;
            }
            assert(self@ =~= after_secondary_press(s, p));
        }
    }

    /// Ends every drag when the primary button was released this tick.
    pub fn release_piece(&mut self, left_just_released: bool)
        ensures
            final(self)@ == if left_just_released {
                after_release(old(self)@)
            } else {
                old(self)@
            },
            old(self).wf() ==> final(self).wf(),
    {
        if !left_just_released {
            return;
        }
        let ghost s = self@;
        let mut i: usize = 0;
        while i < self.pieces.len()
            invariant
                self@.len() == s.len(),
                i <= s.len(),
                forall|j: int| 0 <= j < i ==> #[trigger] self@[j] == with_moving(s[j], false),
                forall|j: int| i <= j < s.len() ==> #[trigger] self@[j] == s[j],
            decreases s.len() - i,
        {
            assert(self@[i as int] == s[i as int]);
            assert(self.pieces@[i as int]@ == s[i as int]);
            let ghost prev = self@;
            if self.pieces[i].is_moving() {
                self.pieces[i].set_moving(false);
            }
            assert(self@ =~= prev.update(i as int, self.pieces@[i as int]@));
            i = i + 1;
        }
        assert(self@ =~= after_release(s));
    }

    /// While the primary button is held, drags every dragged piece so that its
    /// first cell follows the pointer.
    pub fn move_piece(&mut self, cursor: &Cursor)
        ensures
            final(self)@ == after_drag(old(self)@, *cursor),
            old(self).wf() ==> final(self).wf(),
    {
        if !cursor.is_pressed {
            return;
        }
        let ghost s = self@;
        let mut i: usize = 0;
        while i < self.pieces.len()
            invariant
                self@.len() == s.len(),
                cursor.is_pressed,
                i <= s.len(),
                forall|j: int|
                    0 <= j < i ==> #[trigger] self@[j] == if s[j].moving {
                        after_move(s[j], cursor.current_pos@)
                    } else {
                        s[j]
                    },
                forall|j: int| i <= j < s.len() ==> #[trigger] self@[j] == s[j],
            decreases s.len() - i,
        {
            assert(self@[i as int] == s[i as int]);
            assert(self.pieces@[i as int]@ == s[i as int]);
            let ghost prev = self@;
            if self.pieces[i].is_moving() {
                self.pieces[i].move_it(cursor);
            }
            assert(self@ =~= prev.update(i as int, self.pieces@[i as int]@));
            i = i + 1;
        }
        assert(self@ =~= after_drag(s, *cursor));
    }

    /// When the primary button was released this tick, checks whether the first
    /// dragged piece lies on `board` within the tolerance, and if so snaps it,
    /// which ends its drag. Returns whether it snapped.
    pub fn incrust_in_board(&mut self, board: &Board, left_just_released: bool) -> (placed: bool)
        ensures
            placed == (left_just_released && drop_fits(old(self)@, board@)),
            final(self)@ == if left_just_released {
                after_drop(old(self)@, board@)
            } else {
                old(self)@
            },
            old(self).wf() ==> final(self).wf(),
    {
        if !left_just_released {
            return false;
        }
        let ghost s = self@;
        let mut i: usize = 0;
        while i < self.pieces.len()
            invariant
                self@ == s,
                s == old(self)@,
                left_just_released,
                i <= s.len(),
                forall|j: int| 0 <= j < i ==> !(#[trigger] s[j]).moving,
            decreases s.len() - i,
        {
            assert(self.pieces@[i as int]@ == s[i as int]);
            if self.pieces[i].is_moving() {
                proof {
                    assert(is_first_moving(s, i as int));
                    lemma_first_moving_unique(s, i as int);
                }
                if board.in_board(&self.pieces[i]) {
                    self.pieces[i].snap();
                    assert(self@ =~= s.update(i as int, with_moving(s[i as int], false)));
                    return true;
                }
                return false;
            }
            i = i + 1;
        }
        assert(!any_moving(s));
        false
    }

    /// Runs one tick of input on the pieces, in this order: a release first
    /// tries to snap the dragged piece onto `board`, then ends every drag; then
    /// the presses are handled at the pointer; then dragged pieces follow the
    /// pointer while the primary button is held. Returns whether a piece snapped.
    pub fn tick(
        &mut self,
        board: &Board,
        cursor: &Cursor,
        left_just_pressed: bool,
        left_just_released: bool,
        right_just_pressed: bool,
    ) -> (placed: bool)
        ensures
            placed == (left_just_released && drop_fits(old(self)@, board@)),
            final(self)@ == after_drag(
                after_click(
                    if left_just_released {
                        after_release(after_drop(old(self)@, board@))
                    } else {
                        old(self)@
                    },
                    cursor.current_pos@,
                    left_just_pressed,
                    right_just_pressed,
                ),
                *cursor,
            ),
            old(self).wf() ==> final(self).wf(),
    {
        let placed = self.incrust_in_board(board, left_just_released);
        self.release_piece(left_just_released);
        self.click_piece(cursor.current_pos, left_just_pressed, right_just_pressed);
        self.move_piece(cursor);
        placed
    }
}

} // verus!
