//! The game: a board and the state that says which command comes next.

use vstd::prelude::*;
use crate::logic::basic::{Coordinate, lemma_coordinate_same};
use crate::logic::board::{Board, TileContent};
use crate::logic::laws::law_standard_board_is_playable;
use crate::logic::pieces::{Move, MoveError, PieceType};

verus! {

/// Which command a game takes next.
#[derive(Debug, Clone, Copy, PartialEq, Eq, Structural)]
pub enum GameState {
    /// A move is awaited; the flag says whether the player to move is in check.
    WaitMove(bool),
    /// A pawn is about to go from the first square to the second, on the last
    /// row, and the kind that it becomes is awaited.
    SelectPromotionType(Coordinate, Coordinate),
    /// The player to move is checkmated. Nothing follows.
    CheckMate,
}

/// A game of chess: the board, and the state that goes with it.
pub struct Game {
    pub board: Board,
    pub state: GameState,
}

impl Game {
    /// What comes of asking, on `board`, for the move `a_move` of whatever
    /// stands on `from`: the board that the move leads to, or the reason why
    /// it is refused. A move that would leave a king of the mover attacked is
    /// refused with `IsCheck`.
    pub open spec fn attempt(board: Board, from: Coordinate, a_move: Move) -> Result<
        Board,
        MoveError,
    > {
        match board.at(from) {
            TileContent::Empty => Err(MoveError::IllegalMove),
            TileContent::Piece(piece) => match piece.outcome(board, from, a_move) {
                Ok(next) => if next.in_check(board.turn) {
                    Err(MoveError::IsCheck)
                } else {
                    Ok(next)
                },
                Err(e) => Err(e),
            },
        }
    }

    /// The state of a game whose board has just become `board`: checkmate
    /// where the player to move is in check and cannot escape, else waiting
    /// for a move.
    pub open spec fn state_for(board: Board) -> GameState {
        if board.in_check(board.turn) && board.no_escape() {
            GameState::CheckMate
        } else {
            GameState::WaitMove(board.in_check(board.turn))
        }
    }

    /// A piece of the player to move stands on `coordinate`.
    pub open spec fn may_move_from(self, coordinate: Coordinate) -> bool {
        match self.board.at(coordinate) {
            TileContent::Empty => false,
            TileContent::Piece(piece) => piece.player == self.board.turn,
        }
    }

    /// The move from `from` to `to` is open to the player to move and leaves
    /// no king of theirs attacked; a pawn that reaches the last row is taken
    /// to become a queen.
    pub open spec fn may_move(board: Board, from: Coordinate, to: Coordinate) -> bool {
        match Game::attempt(board, from, Move::Regular(to)) {
            Ok(_) => true,
            Err(MoveError::PromotionRequired) => Game::attempt(
                board,
                from,
                Move::Promotion(to, PieceType::Queen),
            ) is Ok,
            Err(_) => false,
        }
    }

    /// The game that follows from the command to move from `from` to `to`,
    /// and what the command returns.
    pub open spec fn after_move(self, from: Coordinate, to: Coordinate) -> (Game, Result<
        (),
        MoveError,
    >) {
        match self.state {
            GameState::WaitMove(_) => match Game::attempt(self.board, from, Move::Regular(to)) {
                Ok(next) => (Game { board: next, state: Game::state_for(next) }, Ok(())),
                Err(MoveError::PromotionRequired) => (
                    Game { board: self.board, state: GameState::SelectPromotionType(from, to) },
                    Ok(()),
                ),
                Err(e) => (self, Err(e)),
            },
            _ => (self, Err(MoveError::InvalidCommand)),
        }
    }

    /// The game that follows from the command to promote the pawn that goes
    /// from `from` to `to` to a piece of kind `kind`, and what the command
    /// returns.
    pub open spec fn after_promotion(self, from: Coordinate, to: Coordinate, kind: PieceType) -> (
        Game,
        Result<(), MoveError>,
    ) {
        if self.state == GameState::SelectPromotionType(from, to) {
            match Game::attempt(self.board, from, Move::Promotion(to, kind)) {
                Ok(next) => (Game { board: next, state: Game::state_for(next) }, Ok(())),
                Err(e) => (self, Err(e)),
            }
        } else {
            (self, Err(MoveError::InvalidCommand))
        }
    }

    /// A new game: the standard board, White to move and not in check.
    pub fn default() -> (r: Game)
        ensures
            r.board.is_standard(),
            r.state == GameState::WaitMove(false),
    {
        let board = Board::default();
        let is_check = board.is_player_on_check(&board.turn);
        proof {
            law_standard_board_is_playable(board);
        }
        Game { board, state: GameState::WaitMove(is_check) }
    }

    /// Starts the game anew.
    pub fn reset(&mut self)
        ensures
            final(self).board.is_standard(),
            final(self).state == GameState::WaitMove(false),
    {
        self.board = Board::default();
        let is_check = self.board.is_player_on_check(&self.board.turn);
        proof {
            law_standard_board_is_playable(self.board);
        }
        self.state = GameState::WaitMove(is_check);
    }

    /// Whether `coordinate` holds a piece of the player to move.
    pub fn can_move_from(&self, coordinate: &Coordinate) -> (r: bool)
        ensures
            r == self.may_move_from(*coordinate),
    {
        let tile = self.board.get_tile(coordinate);
        match tile {
            TileContent::Empty => false,
            TileContent::Piece(piece) => piece.player == self.board.turn,
        }
    }

    /// Whether the player to move may move from `from` to `to`.
    pub fn can_move(&self, from: &Coordinate, to: &Coordinate) -> (r: bool)
        ensures
            r == Game::may_move(self.board, *from, *to),
    {
        match self.try_move(from, &Move::Regular(*to)) {
            Ok(_) => true,
            Err(MoveError::PromotionRequired) => self.try_move(
                from,
                &Move::Promotion(*to, PieceType::Queen),
            ).is_ok(),
            Err(_) => false,
        }
    }

    /// Promotes the pawn that was about to go from `from` to `to` when the
    /// game began to wait for a kind. Any other command in that state, and
    /// this command in any other state, is refused with `InvalidCommand`. A
    /// command that is refused leaves the game as it was.
    pub fn move_piece_with_promotion(
        &mut self,
        from: &Coordinate,
        to: &Coordinate,
        piece_type: &PieceType,
    ) -> (r: Result<(), MoveError>)
        ensures
            *final(self) == old(self).after_promotion(*from, *to, *piece_type).0,
            r == old(self).after_promotion(*from, *to, *piece_type).1,
    {
        match self.state {
            GameState::SelectPromotionType(pending_from, pending_to) => {
                proof {
                    lemma_coordinate_same(pending_from, *from);
                    lemma_coordinate_same(pending_to, *to);
                }
                if pending_from != *from || pending_to != *to {
                    return Err(MoveError::InvalidCommand);
                }
            },
            _ => {
                return Err(MoveError::InvalidCommand);
            },
        }
        let moved = self.try_move(from, &Move::Promotion(*to, *piece_type));
        match moved {
            Ok(new_board) => {
                self.state = Game::state_after(&new_board);
                self.board = new_board;
                Ok(())
            },
            Err(err) => Err(err),
        }
    }

    /// Moves the piece on `from` to `to` for the player to move. Where the
    /// move brings a pawn to the last row, the board stays and the game waits
    /// for the kind that the pawn becomes. Outside the state that waits for a
    /// move the command is refused with `InvalidCommand`. A command that is
    /// refused leaves the game as it was.
    pub fn move_piece(&mut self, from: &Coordinate, to: &Coordinate) -> (r: Result<(), MoveError>)
        ensures
            *final(self) == old(self).after_move(*from, *to).0,
            r == old(self).after_move(*from, *to).1,
    {
        match self.state {
            GameState::WaitMove(_) => {},
            _ => {
                return Err(MoveError::InvalidCommand);
            },
        }
        let moved = self.try_move(from, &Move::Regular(*to));
        match moved {
            Ok(new_board) => {
                self.state = Game::state_after(&new_board);
                self.board = new_board;
                Ok(())
            },
            Err(MoveError::PromotionRequired) => {
                self.state = GameState::SelectPromotionType(*from, *to);
                Ok(())
            },
            Err(err) => Err(err),
        }
    }

    /// The board that the move leads to, unless the move is refused.
    fn try_move(&self, from: &Coordinate, a_move: &Move) -> (r: Result<Board, MoveError>)
        ensures
            r == Game::attempt(self.board, *from, *a_move),
    {
        let tile = self.board.get_tile(from);
        let new_board = match tile {
            TileContent::Piece(piece) => match piece.move_piece(&self.board, from, a_move) {
                Ok(next) => next,
                Err(e) => {
                    return Err(e);
                },
            },
            TileContent::Empty => {
                return Err(MoveError::IllegalMove);
            },
        };
        if new_board.is_player_on_check(&self.board.turn) {
            Err(MoveError::IsCheck)
        } else {
            Ok(new_board)
        }
    }

    /// The state of a game whose board has just become `board`.
    fn state_after(board: &Board) -> (r: GameState)
        ensures
            r == Game::state_for(*board),
    {
        let on_check = board.is_player_on_check(&board.turn);
        if on_check && board.is_current_player_checkmate() {
            GameState::CheckMate
        } else {
            GameState::WaitMove(on_check)
        }
    }
}

} // verus!
