//! Pieces, moves, and the dispatch from a piece's kind to its rule.

pub mod bishop;
pub mod king;
pub mod knight;
pub mod pawn;
pub mod queen;
pub mod rook;

use vstd::prelude::*;
use vstd::string::StringExecFns;
use crate::logic::basic::{Coordinate, Player, lemma_coordinate_same};
use crate::logic::board::{Board, TileContent};
use crate::utils::ValueError;

verus! {

/// The six kinds of pieces.
#[derive(Debug, Clone, Copy, PartialEq, Eq, Structural)]
pub enum PieceType {
    King,
    Queen,
    Rook,
    Bishop,
    Knight,
    Pawn,
}

/// A piece on the board: whose it is, what it is, and whether it has been
/// moved since the board was set up.
#[derive(Debug, Clone, Copy, PartialEq, Eq, Structural)]
pub struct Piece {
    pub player: Player,
    pub piece_type: PieceType,
    pub moved: bool,
}

/// What is asked of the piece on a given square: go to a square, or go there
/// and become a piece of another kind.
#[derive(Debug, Clone, Copy, PartialEq, Eq, Structural)]
pub enum Move {
    Regular(Coordinate),
    Promotion(Coordinate, PieceType),
}

/// Why a move was not carried out.
#[derive(Debug, Clone, Copy, PartialEq, Eq, Structural)]
pub enum MoveError {
    /// The piece's rule does not allow the move.
    IllegalMove,
    /// The move brings a pawn to the last row and names no new kind.
    PromotionRequired,
    /// The move would leave the mover's own king attacked.
    IsCheck,
    /// The game is in a state that does not take this command.
    InvalidCommand,
}

impl MoveError {
    /// The error as text.
    pub fn to_string(&self) -> (r: String)
        ensures
            r@ == "MoveError"@,
    {
        String::from_str("MoveError")
    }
}

impl PieceType {
    /// The kind that a capital letter names.
    pub open spec fn of_letter(letter: char) -> Option<PieceType> {
        if letter == 'K' {
            Some(PieceType::King)
        } else if letter == 'Q' {
            Some(PieceType::Queen)
        } else if letter == 'R' {
            Some(PieceType::Rook)
        } else if letter == 'B' {
            Some(PieceType::Bishop)
        } else if letter == 'N' {
            Some(PieceType::Knight)
        } else if letter == 'P' {
            Some(PieceType::Pawn)
        } else {
            None
        }
    }

    /// The chess symbol of a piece of this kind, as a single character.
    pub open spec fn symbol(self, player: Player) -> char {
        match player {
            Player::White => match self {
                PieceType::King => '\u{2654}',
                PieceType::Queen => '\u{2655}',
                PieceType::Rook => '\u{2656}',
                PieceType::Bishop => '\u{2657}',
                PieceType::Knight => '\u{2658}',
                PieceType::Pawn => '\u{2659}',
            },
            Player::Black => match self {
                PieceType::King => '\u{265A}',
                PieceType::Queen => '\u{265B}',
                PieceType::Rook => '\u{265C}',
                PieceType::Bishop => '\u{265D}',
                PieceType::Knight => '\u{265E}',
                PieceType::Pawn => '\u{265F}',
            },
        }
    }

    /// A pawn may become a queen, a rook, a knight or a bishop.
    pub open spec fn promotable(self) -> bool {
        self == PieceType::Queen || self == PieceType::Rook || self == PieceType::Knight
            || self == PieceType::Bishop
    }

    /// The result of asking a piece of this kind on `from` for the move
    /// `a_move`: the board that the move leads to, or why it is refused.
    pub open spec fn outcome(self, board: Board, from: Coordinate, a_move: Move) -> Result<
        Board,
        MoveError,
    > {
        match self {
            PieceType::King => king::outcome(board, from, a_move),
            PieceType::Queen => queen::outcome(board, from, a_move),
            PieceType::Rook => rook::outcome(board, from, a_move),
            PieceType::Bishop => bishop::outcome(board, from, a_move),
            PieceType::Knight => knight::outcome(board, from, a_move),
            PieceType::Pawn => pawn::outcome(board, from, a_move),
        }
    }

    /// A piece of this kind on `from` can go to `to`, with a promotion where
    /// one is due.
    pub open spec fn allows(self, board: Board, from: Coordinate, to: Coordinate) -> bool {
        self.outcome(board, from, Move::Regular(to)) is Ok || self.outcome(
            board,
            from,
            Move::Regular(to),
        ) == Err::<Board, MoveError>(MoveError::PromotionRequired)
    }

    /// The kind that a capital letter names.
    pub fn from_letter(letter: char) -> (r: Result<PieceType, ValueError>)
        ensures
            r is Ok <==> PieceType::of_letter(letter) is Some,
            r is Ok ==> Some(r->Ok_0) == PieceType::of_letter(letter),
    {
        if letter == 'K' {
            Ok(PieceType::King)
        } else if letter == 'Q' {
            Ok(PieceType::Queen)
        } else if letter == 'R' {
            Ok(PieceType::Rook)
        } else if letter == 'B' {
            Ok(PieceType::Bishop)
        } else if letter == 'N' {
            Ok(PieceType::Knight)
        } else if letter == 'P' {
            Ok(PieceType::Pawn)
        } else {
            Err(ValueError)
        }
    }

    /// Whether a piece of this kind on `from` can go to `to`. Nothing is asked
    /// about the mover's king.
    pub fn can_move(&self, board: &Board, from: &Coordinate, to: &Coordinate) -> (r: bool)
        ensures
            r == self.allows(*board, *from, *to),
    {
        match self.move_piece(board, from, &Move::Regular(*to)) {
            Ok(_) => true,
            Err(MoveError::PromotionRequired) => true,
            _ => false,
        }
    }

    /// Asks the rule of this kind for the move `a_move` of the piece on `from`.
    pub fn move_piece(&self, board: &Board, from: &Coordinate, a_move: &Move) -> (r: Result<
        Board,
        MoveError,
    >)
        ensures
            r == self.outcome(*board, *from, *a_move),
    {
        match self {
            PieceType::Pawn => pawn::move_piece(board, from, a_move),
            PieceType::Queen => queen::move_piece(board, from, a_move),
            PieceType::Rook => rook::move_piece(board, from, a_move),
            PieceType::Bishop => bishop::move_piece(board, from, a_move),
            PieceType::Knight => knight::move_piece(board, from, a_move),
            PieceType::King => king::move_piece(board, from, a_move),
        }
    }

    /// Every move that the rule of this kind accepts from `from`, each once.
    pub fn all_moves(&self, board: &Board, from: &Coordinate) -> (moves: Vec<Move>)
        ensures
            moves@.no_duplicates(),
            forall|m: Move| #[trigger] moves@.contains(m) <==> self.outcome(*board, *from, m) is Ok,
    {
        match self {
            PieceType::Pawn => pawn::all_moves(board, from),
            PieceType::Queen => queen::all_moves(board, from),
            PieceType::Rook => rook::all_moves(board, from),
            PieceType::Bishop => bishop::all_moves(board, from),
            PieceType::Knight => knight::all_moves(board, from),
            PieceType::King => king::all_moves(board, from),
        }
    }

    /// The chess symbol of a piece of this kind and of `player`.
    pub fn get_symbol(&self, player: &Player) -> (r: &'static str)
        ensures
            r@ == seq![self.symbol(*player)],
    {
        proof {
            reveal_strlit("\u{2654}");
            reveal_strlit("\u{2655}");
            reveal_strlit("\u{2656}");
            reveal_strlit("\u{2657}");
            reveal_strlit("\u{2658}");
            reveal_strlit("\u{2659}");
            reveal_strlit("\u{265A}");
            reveal_strlit("\u{265B}");
            reveal_strlit("\u{265C}");
            reveal_strlit("\u{265D}");
            reveal_strlit("\u{265E}");
            reveal_strlit("\u{265F}");
        }
        let r: &'static str = match player {
            Player::White => match self {
                PieceType::King => "\u{2654}",
                PieceType::Queen => "\u{2655}",
                PieceType::Rook => "\u{2656}",
                PieceType::Bishop => "\u{2657}",
                PieceType::Knight => "\u{2658}",
                PieceType::Pawn => "\u{2659}",
            },
            Player::Black => match self {
                PieceType::King => "\u{265A}",
                PieceType::Queen => "\u{265B}",
                PieceType::Rook => "\u{265C}",
                PieceType::Bishop => "\u{265D}",
                PieceType::Knight => "\u{265E}",
                PieceType::Pawn => "\u{265F}",
            },
        };
        assert(r@ =~= seq![self.symbol(*player)]);
        r
    }
}

/// The capital letter that stands for the same kind as `letter`, where
/// `letter` is a small letter; otherwise `letter` itself.
pub open spec fn capital_of(letter: char) -> char {
    if letter == 'k' {
        'K'
    } else if letter == 'q' {
        'Q'
    } else if letter == 'r' {
        'R'
    } else if letter == 'b' {
        'B'
    } else if letter == 'n' {
        'N'
    } else if letter == 'p' {
        'P'
    } else {
        letter
    }
}

impl Piece {
    /// The piece that a letter names: a capital letter a white piece, a small
    /// letter a black one, neither moved yet.
    pub open spec fn of_letter(letter: char) -> Option<Piece> {
        match PieceType::of_letter(capital_of(letter)) {
            Some(kind) => Some(
                Piece {
                    player: if capital_of(letter) == letter {
                        Player::White
                    } else {
                        Player::Black
                    },
                    piece_type: kind,
                    moved: false,
                },
            ),
            None => None,
        }
    }

    /// This piece after a move.
    pub open spec fn after_move(self) -> Piece {
        Piece { player: self.player, piece_type: self.piece_type, moved: true }
    }

    /// This piece as a piece of another kind.
    pub open spec fn as_kind(self, kind: PieceType) -> Piece {
        Piece { player: self.player, piece_type: kind, moved: self.moved }
    }

    /// The piece that a letter names.
    pub fn from_letter(letter: char) -> (r: Result<Piece, ValueError>)
        ensures
            r is Ok <==> Piece::of_letter(letter) is Some,
            r is Ok ==> Some(r->Ok_0) == Piece::of_letter(letter),
    {
        let (player, upper_letter) = if letter == 'k' {
            (Player::Black, 'K')
        } else if letter == 'q' {
            (Player::Black, 'Q')
        } else if letter == 'r' {
            (Player::Black, 'R')
        } else if letter == 'b' {
            (Player::Black, 'B')
        } else if letter == 'n' {
            (Player::Black, 'N')
        } else if letter == 'p' {
            (Player::Black, 'P')
        } else {
            (Player::White, letter)
        };
        match PieceType::from_letter(upper_letter) {
            Ok(piece_type) => Ok(Piece { player, piece_type, moved: false }),
            Err(e) => Err(e),
        }
    }

    /// The result of asking this piece, standing on `from`, for the move
    /// `a_move`: refused where it is not this piece's player who is to move.
    pub open spec fn outcome(self, board: Board, from: Coordinate, a_move: Move) -> Result<
        Board,
        MoveError,
    > {
        if self.player != board.turn {
            Err(MoveError::IllegalMove)
        } else {
            self.piece_type.outcome(board, from, a_move)
        }
    }

    /// This piece, standing on `from`, can go to `to`.
    pub open spec fn allows(self, board: Board, from: Coordinate, to: Coordinate) -> bool {
        self.player == board.turn && self.piece_type.allows(board, from, to)
    }

    /// Whether this piece, standing on `from`, can go to `to`. Nothing is asked
    /// about the mover's king.
    pub fn can_move(&self, board: &Board, from: &Coordinate, to: &Coordinate) -> (r: bool)
        ensures
            r == self.allows(*board, *from, *to),
    {
        if self.player != board.turn {
            return false;
        }
        self.piece_type.can_move(board, from, to)
    }

    /// Asks this piece, standing on `from`, for the move `a_move`.
    pub fn move_piece(&self, board: &Board, from: &Coordinate, a_move: &Move) -> (r: Result<
        Board,
        MoveError,
    >)
        ensures
            r == self.outcome(*board, *from, *a_move),
    {
        if self.player != board.turn {
            return Err(MoveError::IllegalMove);
        }
        self.piece_type.move_piece(board, from, a_move)
    }

    /// Every move that this piece, standing on `from`, is allowed, each once.
    pub fn all_moves(&self, board: &Board, from: &Coordinate) -> (moves: Vec<Move>)
        ensures
            moves@.no_duplicates(),
            forall|m: Move| #[trigger] moves@.contains(m) <==> self.outcome(*board, *from, m) is Ok,
    {
        if self.player != board.turn {
            return Vec::new();
        }
        self.piece_type.all_moves(board, from)
    }

    /// The chess symbol of this piece.
    pub fn get_symbol(&self) -> (r: &'static str)
        ensures
            r@ == seq![self.piece_type.symbol(self.player)],
    {
        self.piece_type.get_symbol(&self.player)
    }

    /// The same piece, marked as moved.
    pub fn moved(&self) -> (r: Piece)
        ensures
            r == self.after_move(),
    {
        Piece { player: self.player, piece_type: self.piece_type, moved: true }
    }

    /// The same piece as a piece of kind `new_type`.
    pub fn promoted(&self, new_type: PieceType) -> (r: Piece)
        ensures
            r == self.as_kind(new_type),
    {
        Piece { player: self.player, piece_type: new_type, moved: self.moved }
    }
}

impl Move {
    /// The square that the move goes to.
    pub open spec fn target(self) -> Coordinate {
        match self {
            Move::Regular(to) => to,
            Move::Promotion(to, _) => to,
        }
    }

    /// The square that the move goes to.
    pub fn get_to(&self) -> (r: &Coordinate)
        ensures
            *r == self.target(),
    {
        match self {
            Move::Regular(to) => to,
            Move::Promotion(to, _) => to,
        }
    }
}

/// Adds a move that the list does not hold yet.
pub(crate) fn push_move(moves: &mut Vec<Move>, m: Move)
    requires
        old(moves)@.no_duplicates(),
        !old(moves)@.contains(m),
    ensures
        final(moves)@ == old(moves)@.push(m),
        final(moves)@.no_duplicates(),
        forall|x: Move| #[trigger] final(moves)@.contains(x) <==> (x == m || old(moves)@.contains(x)),
{
    broadcast use vstd::seq_lib::lemma_seq_contains_after_push;
    broadcast use vstd::seq_lib::lemma_seq_contains;

    moves.push(m);
}

/// The square holds a piece of the player to move.
pub open spec fn friendly(board: Board, x: int, y: int) -> bool {
    match board.tile(x, y) {
        TileContent::Piece(piece) => piece.player == board.turn,
        TileContent::Empty => false,
    }
}

/// The square holds a piece of the player who is not to move.
pub open spec fn hostile(board: Board, x: int, y: int) -> bool {
    match board.tile(x, y) {
        TileContent::Piece(piece) => piece.player != board.turn,
        TileContent::Empty => false,
    }
}

/// Whether a move to `coordinate` would take a piece of the mover's own.
pub fn is_friendly_fire(board: &Board, coordinate: &Coordinate) -> (r: bool)
    ensures
        r == friendly(*board, coordinate.col(), coordinate.row()),
{
    match board.get_tile(coordinate) {
        TileContent::Piece(piece) => piece.player == board.turn,
        TileContent::Empty => false,
    }
}

/// `to` lies `dx` columns and `dy` rows from `from`, on the board, and holds no
/// piece of the mover's.
pub open spec fn leaps(board: Board, from: Coordinate, dx: int, dy: int, to: Coordinate) -> bool {
    &&& to.on_board()
    &&& to.col() == from.col() + dx
    &&& to.row() == from.row() + dy
    &&& !friendly(board, to.col(), to.row())
}

/// Adds the move to the square `dx` columns and `dy` rows from `from`, where
/// that square is on the board and holds no piece of the mover's.
pub(crate) fn add_leap(board: &Board, from: &Coordinate, dx: i8, dy: i8, moves: &mut Vec<Move>)
    requires
        -2 <= dx <= 2,
        -2 <= dy <= 2,
        old(moves)@.no_duplicates(),
        forall|m: Move| #[trigger]
            old(moves)@.contains(m) ==> !(m is Regular && leaps(
                *board,
                *from,
                dx as int,
                dy as int,
                m.target(),
            )),
    ensures
        final(moves)@.no_duplicates(),
        forall|m: Move| #[trigger]
            final(moves)@.contains(m) <==> (old(moves)@.contains(m) || (m is Regular && leaps(
                *board,
                *from,
                dx as int,
                dy as int,
                m.target(),
            ))),
{
    let (from_x, from_y) = from.values();
    let x: i8 = from_x as i8 + dx;
    let y: i8 = from_y as i8 + dy;
    if 0 <= x && x < 8 && 0 <= y && y < 8 {
        let coord = Coordinate::at(x as usize, y as usize);
        if !is_friendly_fire(board, &coord) {
            push_move(moves, Move::Regular(coord));
        }
        proof {
            assert forall|m: Move| #[trigger]
                moves@.contains(m) <==> (old(moves)@.contains(m) || (m is Regular && leaps(
                    *board,
                    *from,
                    dx as int,
                    dy as int,
                    m.target(),
                ))) by {
                lemma_coordinate_same(m.target(), coord);
            }
        }
    }
}

} // verus!
