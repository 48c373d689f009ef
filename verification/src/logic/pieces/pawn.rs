//! The pawn's rule: one step, two steps from the starting row, capture,
//! capture en passant, and promotion on the last row.

use vstd::prelude::*;
use crate::logic::basic::{Coordinate, Player, lemma_coordinate_same};
use crate::logic::board::{Board, TileContent};
use crate::logic::pieces::{Move, MoveError, Piece, PieceType, hostile, push_move};
use crate::logic::pieces::queen::{axis_gap, gap};
use crate::utils::ValueError;

verus! {

/// The row `steps` rows ahead of row `y`, as `player` sees it: White goes
/// towards row 0.
pub open spec fn forward(player: Player, y: int, steps: int) -> int {
    match player {
        Player::White => y - steps,
        Player::Black => y + steps,
    }
}

/// The row on which the pawns of `player` start.
pub open spec fn start_row(player: Player) -> int {
    match player {
        Player::White => 6,
        Player::Black => 1,
    }
}

/// The row on which a pawn of `player` is promoted.
pub open spec fn last_row(player: Player) -> int {
    match player {
        Player::White => 0,
        Player::Black => 7,
    }
}

/// `to` is the square just ahead of the board's en-passant square.
pub open spec fn passes(board: Board, to: Coordinate) -> bool {
    match board.en_passant {
        Some(passed) => passed.col() == to.col() && forward(board.turn, passed.row(), 1)
            == to.row(),
        None => false,
    }
}

/// One step ahead onto an empty square.
pub open spec fn advances(board: Board, from: Coordinate, to: Coordinate) -> bool {
    &&& from.col() == to.col()
    &&& to.row() == forward(board.turn, from.row(), 1)
    &&& board.at(to) is Empty
}

/// Two steps ahead from the starting row, over an empty square onto an empty
/// square.
pub open spec fn advances_twice(board: Board, from: Coordinate, to: Coordinate) -> bool {
    &&& from.col() == to.col()
    &&& from.row() == start_row(board.turn)
    &&& to.row() == forward(board.turn, from.row(), 2)
    &&& board.tile(from.col(), forward(board.turn, from.row(), 1)) is Empty
    &&& board.at(to) is Empty
}

/// `to` is one row ahead of `from` and one column to its side.
pub open spec fn ahead_aside(board: Board, from: Coordinate, to: Coordinate) -> bool {
    to.row() == forward(board.turn, from.row(), 1) && gap(from.col(), to.col()) == 1
}

/// One step ahead and aside onto a piece of the other player.
pub open spec fn captures(board: Board, from: Coordinate, to: Coordinate) -> bool {
    ahead_aside(board, from, to) && hostile(board, to.col(), to.row())
}

/// One step ahead and aside onto the empty square just ahead of the board's
/// en-passant square.
pub open spec fn captures_en_passant(board: Board, from: Coordinate, to: Coordinate) -> bool {
    ahead_aside(board, from, to) && board.at(to) is Empty && passes(board, to)
}

/// The board after a pawn has gone from `from` to `to`, if the pawn's rule
/// lets it go there; a promotion is not looked at. Two steps leave `to` as the
/// en-passant square; a capture en passant empties the en-passant square.
pub open spec fn step(board: Board, from: Coordinate, to: Coordinate) -> Option<Board> {
    if !to.on_board() {
        None
    } else if advances(board, from, to) || captures(board, from, to) {
        Some(board.next_turn().relocate(from.col(), from.row(), to.col(), to.row()))
    } else if advances_twice(board, from, to) {
        Some(
            board.next_turn().mark_en_passant(to).relocate(
                from.col(),
                from.row(),
                to.col(),
                to.row(),
            ),
        )
    } else if captures_en_passant(board, from, to) {
        Some(
            board.next_turn().put(
                board.en_passant->Some_0.col(),
                board.en_passant->Some_0.row(),
                TileContent::Empty,
            ).relocate(from.col(), from.row(), to.col(), to.row()),
        )
    } else {
        None
    }
}

/// What stands on a tile after a promotion to `kind`.
pub open spec fn promote(tile: TileContent, kind: PieceType) -> TileContent {
    match tile {
        TileContent::Piece(piece) => TileContent::Piece(piece.as_kind(kind)),
        TileContent::Empty => TileContent::Empty,
    }
}

/// The result of asking a pawn on `from` for the move `a_move`. On the last
/// row the move has to name a new kind, and nowhere else may it name one.
pub open spec fn outcome(board: Board, from: Coordinate, a_move: Move) -> Result<Board, MoveError> {
    let to = a_move.target();
    let last = to.row() == last_row(board.turn);
    match step(board, from, to) {
        None => Err(MoveError::IllegalMove),
        Some(stepped) => match a_move {
            Move::Regular(_) => if last {
                Err(MoveError::PromotionRequired)
            } else {
                Ok(stepped)
            },
            Move::Promotion(_, kind) => if last && kind.promotable() {
                Ok(stepped.put(to.col(), to.row(), promote(stepped.at(to), kind)))
            } else {
                Err(MoveError::IllegalMove)
            },
        },
    }
}

/// Every move of a pawn on `from`, each once. A move to the last row comes
/// once for each kind that the pawn may become.
pub fn all_moves(board: &Board, from: &Coordinate) -> (moves: Vec<Move>)
    ensures
        moves@.no_duplicates(),
        forall|m: Move| #[trigger] moves@.contains(m) <==> outcome(*board, *from, m) is Ok,
{
    let mut moves: Vec<Move> = Vec::new();
    let promotion_y: usize = match board.turn {
        Player::White => 0,
        Player::Black => 7,
    };
    let squares = all_moves_regular(board, from);
    let mut i: usize = 0;
    while i < squares.len()
        invariant
            i <= squares.len(),
            promotion_y == last_row(board.turn),
            squares@.no_duplicates(),
            forall|c: Coordinate| #[trigger] squares@.contains(c) <==> step(*board, *from, c) is Some,
            moves@.no_duplicates(),
            forall|m: Move| #[trigger]
                moves@.contains(m) <==> (outcome(*board, *from, m) is Ok && exists|j: int|
                    0 <= j < i && squares@[j] == m.target()),
        decreases squares.len() - i,
    {
        let to = squares[i];
        let ghost before = moves@;
        assert(squares@.contains(to));
        assert forall|m: Move| m.target() == to implies !before.contains(m) by {
            if before.contains(m) {
                let j = choose|j: int| 0 <= j < i && squares@[j] == m.target();
                assert(squares@[j] == squares@[i as int]);
            }
        }
        if promotion_y == to.yv() {
            push_move(&mut moves, Move::Promotion(to, PieceType::Queen));
            push_move(&mut moves, Move::Promotion(to, PieceType::Rook));
            push_move(&mut moves, Move::Promotion(to, PieceType::Knight));
            push_move(&mut moves, Move::Promotion(to, PieceType::Bishop));
        } else {
            push_move(&mut moves, Move::Regular(to));
        }
        proof {
            assert forall|m: Move| #[trigger]
                moves@.contains(m) <==> (outcome(*board, *from, m) is Ok && exists|j: int|
                    0 <= j < i + 1 && squares@[j] == m.target()) by {
                if before.contains(m) {
                    let j = choose|j: int| 0 <= j < i && squares@[j] == m.target();
                    assert(0 <= j < i + 1 && squares@[j] == m.target());
                }
                if outcome(*board, *from, m) is Ok && exists|j: int|
                    0 <= j < i + 1 && squares@[j] == m.target() {
                    let j = choose|j: int| 0 <= j < i + 1 && squares@[j] == m.target();
                    if j < i {
                        assert(0 <= j < i && squares@[j] == m.target());
                    }
                }
                if m.target() == to {
                    assert(0 <= i < i + 1 && squares@[i as int] == m.target());
                }
            }
        }
        i = i + 1;
    }
    proof {
        assert forall|m: Move| #[trigger] moves@.contains(m) <==> outcome(*board, *from, m) is Ok by {
            if outcome(*board, *from, m) is Ok {
                assert(squares@.contains(m.target()));
                let j = choose|j: int| 0 <= j < squares@.len() && squares@[j] == m.target();
                assert(0 <= j < i && squares@[j] == m.target());
            }
        }
    }
    moves
}

/// Adds a square that the list does not hold yet.
fn push_square(squares: &mut Vec<Coordinate>, c: Coordinate)
    requires
        old(squares)@.no_duplicates(),
        !old(squares)@.contains(c),
    ensures
        final(squares)@.no_duplicates(),
        forall|x: Coordinate| #[trigger]
            final(squares)@.contains(x) <==> (old(squares)@.contains(x) || (x.col() == c.col()
                && x.row() == c.row())),
{
    broadcast use vstd::seq_lib::lemma_seq_contains_after_push;
    broadcast use vstd::seq_lib::lemma_seq_contains;

    squares.push(c);
    proof {
        assert forall|x: Coordinate| #[trigger]
            squares@.contains(x) <==> (old(squares)@.contains(x) || (x.col() == c.col() && x.row()
                == c.row())) by {
            lemma_coordinate_same(x, c);
        }
    }
}

/// Every square that a pawn on `from` can go to, each once.
fn all_moves_regular(board: &Board, from: &Coordinate) -> (squares: Vec<Coordinate>)
    ensures
        squares@.no_duplicates(),
        forall|c: Coordinate| #[trigger] squares@.contains(c) <==> step(*board, *from, c) is Some,
{
    let mut squares: Vec<Coordinate> = Vec::new();
    proof {
        use_type_invariant(from);
    }
    if let Ok(to) = coordinate_up(&board.turn, from, 1) {
        if matches!(board.get_tile(&to), TileContent::Empty) {
            proof {
                lemma_coordinate_same(*from, to);
            }
            push_square(&mut squares, to);
            if is_player_pawn_original_pos(board, from) {
                if let Ok(to_double) = coordinate_up(&board.turn, from, 2) {
                    if matches!(board.get_tile(&to_double), TileContent::Empty) {
                        proof {
                            lemma_coordinate_same(to_double, to);
                            assert(!squares@.contains(to_double));
                        }
                        push_square(&mut squares, to_double);
                    }
                }
            }
        }
        assert forall|c: Coordinate| #[trigger]
            squares@.contains(c) <==> (step(*board, *from, c) is Some && c.col() == from.col()) by {}
        let to_x = to.xv();
        let to_y = to.yv();
        if to_x > 0 {
            let to_left = Coordinate::at(to_x - 1, to_y);
            proof {
                assert(!squares@.contains(to_left));
            }
            if let TileContent::Piece(piece) = board.get_tile(&to_left) {
                if piece.player != board.turn {
                    push_square(&mut squares, to_left);
                }
            } else if is_en_passant(board, &to_left) {
                push_square(&mut squares, to_left);
            }
        }
        assert forall|c: Coordinate| #[trigger]
            squares@.contains(c) <==> (step(*board, *from, c) is Some && c.col() <= from.col()) by {}
        if let Ok(to_right) = Coordinate::try_new(to_x + 1, to_y) {
            proof {
                assert(!squares@.contains(to_right));
            }
            if let TileContent::Piece(piece) = board.get_tile(&to_right) {
                if piece.player != board.turn {
                    push_square(&mut squares, to_right);
                }
            } else if is_en_passant(board, &to_right) {
                push_square(&mut squares, to_right);
            }
        }
        assert forall|c: Coordinate| #[trigger]
            squares@.contains(c) <==> step(*board, *from, c) is Some by {}
    }
    squares
}

/// Moves the pawn on `from` as `a_move` asks, if its rule allows, and
/// promotes it where the move names a kind.
pub fn move_piece(board: &Board, from: &Coordinate, a_move: &Move) -> (r: Result<Board, MoveError>)
    ensures
        r == outcome(*board, *from, *a_move),
{
    if let Move::Promotion(_, new_type) = a_move {
        if !matches!(
            new_type,
            PieceType::Queen | PieceType::Rook | PieceType::Knight | PieceType::Bishop
        ) {
            return Err(MoveError::IllegalMove);
        }
    }
    let to = a_move.get_to();
    let mut new_board = match move_piece_regular(board, from, to) {
        Ok(stepped) => stepped,
        Err(e) => {
            return Err(e);
        },
    };
    let promotion_y: usize = match board.turn {
        Player::White => 0,
        Player::Black => 7,
    };
    let requires_promotion = promotion_y == to.yv();
    match a_move {
        Move::Regular(_) => {
            if requires_promotion {
                Err(MoveError::PromotionRequired)
            } else {
                Ok(new_board)
            }
        },
        Move::Promotion(_, new_type) => {
            if requires_promotion {
                let new_tile = match new_board.get_tile(to) {
                    TileContent::Piece(piece) => TileContent::Piece(piece.promoted(*new_type)),
                    TileContent::Empty => TileContent::Empty,
                };
                new_board.set_tile(to, new_tile);
                Ok(new_board)
            } else {
                Err(MoveError::IllegalMove)
            }
        },
    }
}

/// The board after the pawn on `from` has gone to `to`, where its rule lets
/// it; a promotion is not looked at.
fn move_piece_regular(board: &Board, from: &Coordinate, to: &Coordinate) -> (r: Result<
    Board,
    MoveError,
>)
    ensures
        r == (match step(*board, *from, *to) {
            Some(stepped) => Ok::<Board, MoveError>(stepped),
            None => Err::<Board, MoveError>(MoveError::IllegalMove),
        }),
{
    let from_x = from.xv();
    let to_x = to.xv();
    proof {
        use_type_invariant(from);
        use_type_invariant(to);
    }
    if from_x == to_x {
        if !matches!(board.get_tile(to), TileContent::Empty) {
            return Err(MoveError::IllegalMove);
        }
        let regular_move = coordinate_up(&board.turn, from, 1);
        if let Ok(coord_up) = regular_move {
            proof {
                lemma_coordinate_same(coord_up, *to);
            }
            if coord_up == *to {
                let mut new_board = board.turned();
                new_board.move_tile(from, to);
                return Ok(new_board);
            }
            let is_double_move = is_player_pawn_original_pos(board, from) && matches!(
                board.get_tile(&coord_up),
                TileContent::Empty
            ) && reaches_up(&board.turn, from, 2, to);
            if is_double_move {
                let mut new_board = board.turned();
                new_board.en_passant = Some(*to);
                new_board.move_tile(from, to);
                return Ok(new_board);
            }
        }
        return Err(MoveError::IllegalMove);
    }
    if is_move_up_diagonal(&board.turn, from, to) {
        return match board.get_tile(to) {
            TileContent::Piece(piece) => {
                if piece.player != board.turn {
                    let mut new_board = board.turned();
                    new_board.move_tile(from, to);
                    Ok(new_board)
                } else {
                    Err(MoveError::IllegalMove)
                }
            },
            TileContent::Empty => {
                match board.en_passant {
                    Some(en_passant) => {
                        if is_en_passant(board, to) {
                            let mut new_board = board.turned();
                            new_board.clear_tile(&en_passant);
                            new_board.move_tile(from, to);
                            Ok(new_board)
                        } else {
                            Err(MoveError::IllegalMove)
                        }
                    },
                    None => Err(MoveError::IllegalMove),
                }
            },
        };
    }
    Err(MoveError::IllegalMove)
}

/// Whether `coordinate` lies on the row where the pawns of the player to move
/// start.
fn is_player_pawn_original_pos(board: &Board, coordinate: &Coordinate) -> (r: bool)
    ensures
        r == (coordinate.row() == start_row(board.turn)),
{
    let row: usize = match board.turn {
        Player::White => 6,
        Player::Black => 1,
    };
    row == coordinate.yv()
}

/// The square `steps` rows ahead of `from`, where the board has one.
fn coordinate_up(player: &Player, from: &Coordinate, steps: usize) -> (r: Result<
    Coordinate,
    ValueError,
>)
    requires
        steps <= 8,
    ensures
        r is Ok <==> 0 <= forward(*player, from.row(), steps as int) < 8,
        r is Ok ==> r->Ok_0.on_board() && r->Ok_0.col() == from.col() && r->Ok_0.row() == forward(
            *player,
            from.row(),
            steps as int,
        ),
{
    let from_x = from.xv();
    let from_y = from.yv();
    match player {
        Player::White => {
            if steps <= from_y {
                Coordinate::try_new(from_x, from_y - steps)
            } else {
                Err(ValueError)
            }
        },
        Player::Black => Coordinate::try_new(from_x, from_y + steps),
    }
}

/// Whether `to` is the square `steps` rows ahead of `from`.
fn reaches_up(player: &Player, from: &Coordinate, steps: usize, to: &Coordinate) -> (r: bool)
    requires
        steps <= 8,
    ensures
        r == (to.col() == from.col() && to.row() == forward(*player, from.row(), steps as int)),
{
    proof {
        use_type_invariant(to);
    }
    match coordinate_up(player, from, steps) {
        Ok(coord) => {
            proof {
                lemma_coordinate_same(coord, *to);
            }
            coord == *to
        },
        Err(_) => false,
    }
}

/// Whether `to` is the square just ahead of the board's en-passant square.
fn is_en_passant(board: &Board, to: &Coordinate) -> (r: bool)
    ensures
        r == passes(*board, *to),
{
    match board.en_passant {
        Some(coord) => reaches_up(&board.turn, &coord, 1, to),
        None => false,
    }
}

/// Whether `to` is one row ahead of `from` and one column to its side.
fn is_move_up_diagonal(player: &Player, from: &Coordinate, to: &Coordinate) -> (r: bool)
    ensures
        to.on_board() ==> r == (to.row() == forward(*player, from.row(), 1) && gap(
            from.col(),
            to.col(),
        ) == 1),
{
    match coordinate_up(player, from, 1) {
        Ok(up) => up.yv() == to.yv() && axis_gap(from.xv(), to.xv()) == 1,
        Err(_) => false,
    }
}

} // verus!
