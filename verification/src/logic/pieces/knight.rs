//! The knight's rule.

use vstd::prelude::*;
use crate::logic::basic::{Coordinate, lemma_coordinate_same};
use crate::logic::board::Board;
use crate::logic::pieces::{Move, MoveError, add_leap, friendly, is_friendly_fire};
use crate::logic::pieces::queen::{axis_gap, gap};

verus! {

/// The knight's rule for going from `from` to `to`: two squares along one
/// axis and one along the other, onto a square of the board that holds no
/// piece of the mover's. What stands between does not matter.
pub open spec fn accepts(board: Board, from: Coordinate, to: Coordinate) -> bool {
    &&& to.on_board()
    &&& !friendly(board, to.col(), to.row())
    &&& ((gap(from.col(), to.col()) == 2 && gap(from.row(), to.row()) == 1) || (gap(
        from.col(),
        to.col(),
    ) == 1 && gap(from.row(), to.row()) == 2))
}

/// The result of asking a knight on `from` for the move `a_move`.
pub open spec fn outcome(board: Board, from: Coordinate, a_move: Move) -> Result<Board, MoveError> {
    match a_move {
        Move::Promotion(_, _) => Err(MoveError::IllegalMove),
        Move::Regular(to) => if accepts(board, from, to) {
            Ok(board.next_turn().relocate(from.col(), from.row(), to.col(), to.row()))
        } else {
            Err(MoveError::IllegalMove)
        },
    }
}

/// Every move of a knight on `from`, each once.
pub fn all_moves(board: &Board, from: &Coordinate) -> (moves: Vec<Move>)
    ensures
        moves@.no_duplicates(),
        forall|m: Move| #[trigger] moves@.contains(m) <==> outcome(*board, *from, m) is Ok,
{
    proof {
        use_type_invariant(from);
    }
    let mut moves: Vec<Move> = Vec::with_capacity(8);
    let mut delta_x: i8 = 1;
    while delta_x <= 2
        invariant
            1 <= delta_x <= 3,
            from.on_board(),
            moves@.no_duplicates(),
            forall|m: Move| #[trigger]
                moves@.contains(m) <==> (outcome(*board, *from, m) is Ok && gap(
                    from.col(),
                    m.target().col(),
                ) < delta_x),
        decreases 3 - delta_x,
    {
        let delta_y: i8 = 3 - delta_x;
        add_leap(board, from, delta_x, delta_y, &mut moves);
        add_leap(board, from, -delta_x, delta_y, &mut moves);
        add_leap(board, from, delta_x, -delta_y, &mut moves);
        add_leap(board, from, -delta_x, -delta_y, &mut moves);
        delta_x = delta_x + 1;
    }
    moves
}

/// Moves the knight on `from` as `a_move` asks, if its rule allows.
pub fn move_piece(board: &Board, from: &Coordinate, a_move: &Move) -> (r: Result<Board, MoveError>)
    ensures
        r == outcome(*board, *from, *a_move),
{
    match a_move {
        Move::Promotion(_, _) => Err(MoveError::IllegalMove),
        Move::Regular(to) => {
            proof {
                lemma_coordinate_same(*from, *to);
            }
            if *from == *to {
                return Err(MoveError::IllegalMove);
            }
            if is_friendly_fire(board, to) {
                return Err(MoveError::IllegalMove);
            }
            let (from_x, from_y) = from.values();
            let (to_x, to_y) = to.values();
            let delta_x = axis_gap(from_x, to_x);
            let delta_y = axis_gap(from_y, to_y);
            if delta_x == 2 && delta_y == 1 || delta_x == 1 && delta_y == 2 {
                let mut new_board = board.turned();
                new_board.move_tile(from, to);
                Ok(new_board)
            } else {
                Err(MoveError::IllegalMove)
            }
        },
    }
}

} // verus!
