//! The king's rule, castling included.

use vstd::prelude::*;
use crate::logic::basic::{Coordinate, lemma_coordinate_same};
use crate::logic::board::{Board, TileContent};
use crate::logic::pieces::{Move, MoveError, PieceType, add_leap, friendly, is_friendly_fire, push_move};
use crate::logic::pieces::queen::{axis_gap, gap, line_clear, piece_between_straight, toward};

verus! {

/// `to` is `from` or one of the squares that touch it.
pub open spec fn near(from: Coordinate, to: Coordinate) -> bool {
    gap(from.col(), to.col()) < 2 && gap(from.row(), to.row()) < 2
}

/// The column of the rook that a king castles with when it goes from `from`
/// to `to`: the last column to the right, the first to the left.
pub open spec fn rook_column(from: Coordinate, to: Coordinate) -> int {
    if from.col() < to.col() {
        7
    } else {
        0
    }
}

/// A king on `from` may castle to `to`: `to` is two columns away in the same
/// row; the piece on `from` has not moved; the corner of that side holds a rook
/// of the player to move that has not moved; and every square between `from`
/// and that corner is empty.
pub open spec fn can_castle(board: Board, from: Coordinate, to: Coordinate) -> bool {
    &&& to.on_board()
    &&& from.row() == to.row()
    &&& gap(from.col(), to.col()) == 2
    &&& match board.at(from) {
        TileContent::Piece(piece) => !piece.moved,
        TileContent::Empty => false,
    }
    &&& match board.tile(rook_column(from, to), from.row()) {
        TileContent::Piece(piece) => !piece.moved && piece.piece_type == PieceType::Rook
            && piece.player == board.turn,
        TileContent::Empty => false,
    }
    &&& line_clear(
        board,
        from.col(),
        from.row(),
        toward(from.col(), rook_column(from, to)),
        0,
        gap(from.col(), rook_column(from, to)),
    )
}

/// The result of asking a king on `from` for the move `a_move`. A castling
/// king goes to `to`, and the rook then goes to the square that the king left.
pub open spec fn outcome(board: Board, from: Coordinate, a_move: Move) -> Result<Board, MoveError> {
    match a_move {
        Move::Promotion(_, _) => Err(MoveError::IllegalMove),
        Move::Regular(to) => if !to.on_board() || from == to {
            Err(MoveError::IllegalMove)
        } else if near(from, to) {
            if friendly(board, to.col(), to.row()) {
                Err(MoveError::IllegalMove)
            } else {
                Ok(board.next_turn().relocate(from.col(), from.row(), to.col(), to.row()))
            }
        } else if can_castle(board, from, to) {
            Ok(
                board.next_turn().relocate(from.col(), from.row(), to.col(), to.row()).relocate(
                    rook_column(from, to),
                    from.row(),
                    from.col(),
                    from.row(),
                ),
            )
        } else {
            Err(MoveError::IllegalMove)
        },
    }
}

/// Every move of a king on `from`, each once: the squares that touch `from`,
/// then castling to the right and to the left.
pub fn all_moves(board: &Board, from: &Coordinate) -> (moves: Vec<Move>)
    ensures
        moves@.no_duplicates(),
        forall|m: Move| #[trigger] moves@.contains(m) <==> outcome(*board, *from, m) is Ok,
{
    let (x, y) = from.values();
    let mut moves: Vec<Move> = Vec::with_capacity(8);
    add_leap(board, from, -1, -1, &mut moves);
    add_leap(board, from, -1, 0, &mut moves);
    add_leap(board, from, -1, 1, &mut moves);
    add_leap(board, from, 0, -1, &mut moves);
    add_leap(board, from, 0, 1, &mut moves);
    add_leap(board, from, 1, -1, &mut moves);
    add_leap(board, from, 1, 0, &mut moves);
    add_leap(board, from, 1, 1, &mut moves);
    proof {
        assert forall|m: Move| #[trigger]
            moves@.contains(m) <==> (outcome(*board, *from, m) is Ok && near(
                *from,
                m.target(),
            )) by {
            lemma_coordinate_same(*from, m.target());
        }
    }
    if x + 2 < 8 {
        let to = Coordinate::at(x + 2, y);
        if get_castling_rook(board, from, &to).is_some() {
            push_move(&mut moves, Move::Regular(to));
        }
        proof {
            assert forall|m: Move| #[trigger]
                moves@.contains(m) <==> (outcome(*board, *from, m) is Ok && (near(
                    *from,
                    m.target(),
                ) || m.target().col() > from.col())) by {
                lemma_coordinate_same(*from, m.target());
                lemma_coordinate_same(to, m.target());
            }
        }
    } else {
        proof {
            assert forall|m: Move| #[trigger]
                moves@.contains(m) <==> (outcome(*board, *from, m) is Ok && (near(
                    *from,
                    m.target(),
                ) || m.target().col() > from.col())) by {
                lemma_coordinate_same(*from, m.target());
            }
        }
    }
    if x >= 2 {
        let to = Coordinate::at(x - 2, y);
        if get_castling_rook(board, from, &to).is_some() {
            push_move(&mut moves, Move::Regular(to));
        }
        proof {
            assert forall|m: Move| #[trigger]
                moves@.contains(m) <==> outcome(*board, *from, m) is Ok by {
                lemma_coordinate_same(*from, m.target());
                lemma_coordinate_same(to, m.target());
            }
        }
    } else {
        proof {
            assert forall|m: Move| #[trigger]
                moves@.contains(m) <==> outcome(*board, *from, m) is Ok by {
                lemma_coordinate_same(*from, m.target());
            }
        }
    }
    moves
}

/// Moves the king on `from` as `a_move` asks, if its rule allows; castling
/// moves the rook too.
pub fn move_piece(board: &Board, from: &Coordinate, a_move: &Move) -> (r: Result<Board, MoveError>)
    ensures
        r == outcome(*board, *from, *a_move),
{
    match a_move {
        Move::Promotion(_, _) => Err(MoveError::IllegalMove),
        Move::Regular(to) => {
            proof {
                lemma_coordinate_same(*from, *to);
            }
            if *from == *to {
                return Err(MoveError::IllegalMove);
            }
            let (from_x, from_y) = from.values();
            let (to_x, to_y) = to.values();
            let delta_x = axis_gap(from_x, to_x);
            let delta_y = axis_gap(from_y, to_y);
            if delta_x < 2 && delta_y < 2 {
                if is_friendly_fire(board, to) {
                    return Err(MoveError::IllegalMove);
                }
                let mut new_board = board.turned();
                new_board.move_tile(from, to);
                Ok(new_board)
            } else if let Some(rook_coord) = get_castling_rook(board, from, to) {
                let mut new_board = board.turned();
                new_board.move_tile(from, to);
                new_board.move_tile(&rook_coord, from);
                Ok(new_board)
            } else {
                Err(MoveError::IllegalMove)
            }
        },
    }
}

/// The square of the rook that a king on `from` may castle with by going to
/// `to`, if there is one.
fn get_castling_rook(board: &Board, from: &Coordinate, to: &Coordinate) -> (r: Option<Coordinate>)
    ensures
        r is Some <==> can_castle(*board, *from, *to),
        r is Some ==> r->Some_0.col() == rook_column(*from, *to) && r->Some_0.row() == from.row(),
{
    let (from_x, from_y) = from.values();
    let (to_x, to_y) = to.values();
    let delta_x = axis_gap(from_x, to_x);
    let delta_y = axis_gap(from_y, to_y);
    if delta_y != 0 || delta_x != 2 {
        return None;
    }
    if let TileContent::Piece(piece) = board.get_tile(from) {
        if piece.moved {
            return None;
        }
    } else {
        return None;
    }
    let rook_x: usize = if from_x < to_x {
        7
    } else {
        0
    };
    let rook_coord = Coordinate::at(rook_x, from_y);
    if let TileContent::Piece(piece) = board.get_tile(&rook_coord) {
        if piece.moved {
            return None;
        }
        if !matches!(piece.piece_type, PieceType::Rook) {
            return None;
        }
        if piece.player != board.turn {
            return None;
        }
        if piece_between_straight(board, from, &rook_coord) {
            return None;
        }
        Some(rook_coord)
    } else {
        None
    }
}

} // verus!
