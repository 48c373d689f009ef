//! The rook's rule.

use vstd::prelude::*;
use crate::logic::basic::{Coordinate, lemma_coordinate_same};
use crate::logic::board::Board;
use crate::logic::pieces::{Move, MoveError, is_friendly_fire};
use crate::logic::pieces::queen::{
    accepts_straight, all_moves_straight, is_straight, piece_between_straight,
};

verus! {

/// The result of asking a rook on `from` for the move `a_move`.
pub open spec fn outcome(board: Board, from: Coordinate, a_move: Move) -> Result<Board, MoveError> {
    match a_move {
        Move::Promotion(_, _) => Err(MoveError::IllegalMove),
        Move::Regular(to) => if accepts_straight(board, from, to) {
            Ok(board.next_turn().relocate(from.col(), from.row(), to.col(), to.row()))
        } else {
            Err(MoveError::IllegalMove)
        },
    }
}

/// Every move of a rook on `from`, each once.
pub fn all_moves(board: &Board, from: &Coordinate) -> (moves: Vec<Move>)
    ensures
        moves@.no_duplicates(),
        forall|m: Move| #[trigger] moves@.contains(m) <==> outcome(*board, *from, m) is Ok,
{
    all_moves_straight(board, from)
}

/// Moves the rook on `from` as `a_move` asks, if its rule allows.
pub fn move_piece(board: &Board, from: &Coordinate, a_move: &Move) -> (r: Result<Board, MoveError>)
    ensures
        r == outcome(*board, *from, *a_move),
{
    match a_move {
        Move::Promotion(_, _) => Err(MoveError::IllegalMove),
        Move::Regular(to) => {
            proof {
                lemma_coordinate_same(*from, *to);
            }
            if *from == *to {
                return Err(MoveError::IllegalMove);
            }
            if is_friendly_fire(board, to) {
                return Err(MoveError::IllegalMove);
            }
            proof {
                use_type_invariant(from);
                use_type_invariant(to);
            }
            if is_straight(from, to) && !piece_between_straight(board, from, to) {
                let mut new_board = board.turned();
                new_board.move_tile(from, to);
                Ok(new_board)
            } else {
                Err(MoveError::IllegalMove)
            }
        },
    }
}

} // verus!
