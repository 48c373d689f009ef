//! The board: sixty-four tiles, the player to move, and the square of a pawn
//! that has just gone two steps.

use vstd::prelude::*;
use vstd::array::spec_array_update;
use vstd::seq_lib::lemma_seq_contains_after_push;
use crate::logic::basic::{Coordinate, Player, lemma_coordinate_same};
use crate::logic::pieces::{Move, Piece, PieceType};

verus! {

/// Number of rows, and of columns, of the board.
pub const BOARD_SIZE: usize = 8;

/// Largest value of an axis.
pub const BOARD_MAX_AXIS: usize = 7;

/// What a tile of the board holds.
#[derive(Debug, Clone, Copy, PartialEq, Eq, Structural)]
pub enum TileContent {
    Empty,
    Piece(Piece),
}

impl TileContent {
    /// What a letter of a board layout stands for: a blank for an empty tile,
    /// else the letter of a piece.
    pub open spec fn of_letter(letter: char) -> Option<TileContent> {
        if letter == ' ' {
            Some(TileContent::Empty)
        } else {
            match Piece::of_letter(letter) {
                Some(piece) => Some(TileContent::Piece(piece)),
                None => None,
            }
        }
    }

    /// The content of a tile after it has been moved to another tile.
    pub open spec fn after_move(self) -> TileContent {
        match self {
            TileContent::Empty => TileContent::Empty,
            TileContent::Piece(piece) => TileContent::Piece(piece.after_move()),
        }
    }

    /// The tile that a letter of a board layout stands for.
    pub fn from_letter(letter: char) -> (r: TileContent)
        requires
            TileContent::of_letter(letter) is Some,
        ensures
            Some(r) == TileContent::of_letter(letter),
    {
        if letter == ' ' {
            return TileContent::Empty;
        }
        match Piece::from_letter(letter) {
            Ok(piece) => TileContent::Piece(piece),
            Err(_) => TileContent::Empty,
        }
    }
}

/// A position: what stands where, and who moves next.
#[derive(Clone, Copy)]
pub struct Board {
    /// The tiles by row, then by column.
    pub tiles: [[TileContent; 8]; 8],
    /// The player to move.
    pub turn: Player,
    /// Where a pawn stands that went two steps in the move before.
    pub en_passant: Option<Coordinate>,
}

impl Board {
    /// The content of the tile in column `x` of row `y`.
    pub open spec fn tile(self, x: int, y: int) -> TileContent {
        self.tiles[y][x]
    }

    /// The content of the tile at `c`.
    pub open spec fn at(self, c: Coordinate) -> TileContent {
        self.tile(c.col(), c.row())
    }

    /// This board with the tile in column `x` of row `y` replaced.
    pub open spec fn put(self, x: int, y: int, t: TileContent) -> Board {
        Board {
            tiles: spec_array_update(self.tiles, y, spec_array_update(self.tiles[y], x, t)),
            turn: self.turn,
            en_passant: self.en_passant,
        }
    }

    /// This board after what stands on one tile has gone to another: the first
    /// tile is emptied, then the second takes what it held, marked as moved.
    pub open spec fn relocate(self, from_x: int, from_y: int, to_x: int, to_y: int) -> Board {
        self.put(from_x, from_y, TileContent::Empty).put(
            to_x,
            to_y,
            self.tile(from_x, from_y).after_move(),
        )
    }

    /// This board with `c` as the square of a pawn that has just gone two steps.
    pub open spec fn mark_en_passant(self, c: Coordinate) -> Board {
        Board { tiles: self.tiles, turn: self.turn, en_passant: Some(c) }
    }

    /// The tile in column `x` of row `y` when a game starts: Black's pieces on
    /// row 0 and Black's pawns on row 1, White's pawns on row 6 and White's
    /// pieces on row 7, each queen to the left of her king.
    pub open spec fn standard_tile(x: int, y: int) -> TileContent {
        let kind = seq![
            PieceType::Rook,
            PieceType::Knight,
            PieceType::Bishop,
            PieceType::Queen,
            PieceType::King,
            PieceType::Bishop,
            PieceType::Knight,
            PieceType::Rook,
        ][x];
        if y == 0 {
            TileContent::Piece(Piece { player: Player::Black, piece_type: kind, moved: false })
        } else if y == 1 {
            TileContent::Piece(
                Piece { player: Player::Black, piece_type: PieceType::Pawn, moved: false },
            )
        } else if y == 6 {
            TileContent::Piece(
                Piece { player: Player::White, piece_type: PieceType::Pawn, moved: false },
            )
        } else if y == 7 {
            TileContent::Piece(Piece { player: Player::White, piece_type: kind, moved: false })
        } else {
            TileContent::Empty
        }
    }

    /// The board is set up for a new game, with White to move.
    pub open spec fn is_standard(self) -> bool {
        &&& self.turn == Player::White
        &&& self.en_passant is None
        &&& forall|x: int, y: int|
            0 <= x < 8 && 0 <= y < 8 ==> #[trigger] self.tile(x, y) == Board::standard_tile(x, y)
    }

    /// Every letter of the layout stands for a tile.
    pub open spec fn layout_ok(configuration: [[char; 8]; 8]) -> bool {
        forall|x: int, y: int|
            0 <= x < 8 && 0 <= y < 8 ==> TileContent::of_letter(#[trigger] configuration[y][x])
                is Some
    }

    /// Some piece of the other player than `player` could go to `target` if
    /// it were that other player's turn, whether or not the move would leave
    /// its own king attacked.
    pub open spec fn attacked(self, player: Player, target: Coordinate) -> bool {
        let board = if player == self.turn {
            self.next_turn()
        } else {
            self
        };
        exists|enemy: Coordinate|
            enemy.on_board() && match #[trigger] self.at(enemy) {
                TileContent::Piece(piece) => piece.player != player && piece.allows(
                    board,
                    enemy,
                    target,
                ),
                TileContent::Empty => false,
            }
    }

    /// The tile at `c` holds a king of `player`.
    pub open spec fn king_at(self, player: Player, c: Coordinate) -> bool {
        match self.at(c) {
            TileContent::Piece(piece) => piece.player == player && piece.piece_type
                == PieceType::King,
            TileContent::Empty => false,
        }
    }

    /// A king of `player` is attacked.
    pub open spec fn in_check(self, player: Player) -> bool {
        exists|king: Coordinate|
            king.on_board() && #[trigger] self.king_at(player, king) && self.attacked(player, king)
    }

    /// The move `a_move` of the piece on `from` is open to the player to move
    /// and leaves no king of that player attacked.
    pub open spec fn escapes(self, from: Coordinate, a_move: Move) -> bool {
        from.on_board() && match self.at(from) {
            TileContent::Piece(piece) => match piece.outcome(self, from, a_move) {
                Ok(next) => !next.in_check(self.turn),
                Err(_) => false,
            },
            TileContent::Empty => false,
        }
    }

    /// The player to move has no move that leaves no king of theirs attacked.
    pub open spec fn no_escape(self) -> bool {
        forall|from: Coordinate, a_move: Move| !#[trigger] self.escapes(from, a_move)
    }

    /// The board of a new game.
    pub fn default() -> (r: Board)
        ensures
            r.is_standard(),
    {
        let configuration: [[char; 8]; 8] = [
            ['r', 'n', 'b', 'q', 'k', 'b', 'n', 'r'],
            ['p', 'p', 'p', 'p', 'p', 'p', 'p', 'p'],
            [' ', ' ', ' ', ' ', ' ', ' ', ' ', ' '],
            [' ', ' ', ' ', ' ', ' ', ' ', ' ', ' '],
            [' ', ' ', ' ', ' ', ' ', ' ', ' ', ' '],
            [' ', ' ', ' ', ' ', ' ', ' ', ' ', ' '],
            ['P', 'P', 'P', 'P', 'P', 'P', 'P', 'P'],
            ['R', 'N', 'B', 'Q', 'K', 'B', 'N', 'R'],
        ];
        assert forall|x: int, y: int| 0 <= x < 8 && 0 <= y < 8 implies TileContent::of_letter(
            #[trigger] configuration[y][x],
        ) == Some(Board::standard_tile(x, y)) by {
            let row = configuration[y];
            assert(row[x] == configuration[y][x]);
        }
        Board::from_configuration(configuration)
    }

    /// The board that a layout of letters describes, row by row, with White
    /// to move.
    pub fn from_configuration(configuration: [[char; 8]; 8]) -> (r: Board)
        requires
            Board::layout_ok(configuration),
        ensures
            r.turn == Player::White,
            r.en_passant is None,
            forall|x: int, y: int|
                0 <= x < 8 && 0 <= y < 8 ==> Some(#[trigger] r.tile(x, y)) == TileContent::of_letter(
                    configuration[y][x],
                ),
    {
        let mut tiles: [[TileContent; 8]; 8] = [[TileContent::Empty; 8]; 8];
        let mut y: usize = 0;
        while y < 8
            invariant
                y <= 8,
                Board::layout_ok(configuration),
                forall|i: int, j: int|
                    0 <= i < 8 && 0 <= j < y ==> Some(#[trigger] tiles[j][i])
                        == TileContent::of_letter(configuration[j][i]),
            decreases 8 - y,
        {
            let mut x: usize = 0;
            while x < 8
                invariant
                    x <= 8,
                    y < 8,
                    Board::layout_ok(configuration),
                    forall|i: int, j: int|
                        0 <= i < 8 && 0 <= j < y ==> Some(#[trigger] tiles[j][i])
                            == TileContent::of_letter(configuration[j][i]),
                    forall|i: int|
                        0 <= i < x ==> Some(#[trigger] tiles[y as int][i]) == TileContent::of_letter(
                            configuration[y as int][i],
                        ),
                decreases 8 - x,
            {
                assert(TileContent::of_letter(configuration[y as int][x as int]) is Some);
                let tile = TileContent::from_letter(configuration[y][x]);
                tiles[y][x] = tile;
                x = x + 1;
            }
            y = y + 1;
        }
        Board { tiles, turn: Player::White, en_passant: None }
    }

    /// This board handed to the other player, with no en-passant square.
    pub open spec fn next_turn(self) -> Board {
        Board { tiles: self.tiles, turn: self.turn.opponent(), en_passant: None }
    }

    /// This board handed to the other player, with no en-passant square.
    pub fn turned(&self) -> (r: Board)
        ensures
            r == self.next_turn(),
            r.turn == self.turn.opponent(),
            r.en_passant is None,
    {
        let mut new_board = *self;
        new_board.turn = self.turn.other();
        new_board.en_passant = None;
        new_board
    }

    /// What the tile at `coordinate` holds.
    pub fn get_tile(&self, coordinate: &Coordinate) -> (r: &TileContent)
        ensures
            *r == self.at(*coordinate),
    {
        &self.tiles[coordinate.yv()][coordinate.xv()]
    }

    /// Moves what stands on `from` to `to` and marks it as moved; `from` is left
    /// empty.
    pub fn move_tile(&mut self, from: &Coordinate, to: &Coordinate)
        ensures
            *final(self) == old(self).relocate(from.col(), from.row(), to.col(), to.row()),
    {
        let from_tile = match self.get_tile(from) {
            TileContent::Empty => TileContent::Empty,
            TileContent::Piece(piece) => TileContent::Piece(piece.moved()),
        };
        self.clear_tile(from);
        self.set_tile(to, from_tile);
    }

    /// Empties the tile at `coordinate`.
    pub fn clear_tile(&mut self, coordinate: &Coordinate)
        ensures
            *final(self) == old(self).put(coordinate.col(), coordinate.row(), TileContent::Empty),
    {
        self.set_tile(coordinate, TileContent::Empty);
    }

    /// Whether the player to move is left without a move that frees every
    /// king of theirs from attack: every move of every piece of theirs is
    /// tried, and the board that it leads to is tested.
    pub fn is_current_player_checkmate(&self) -> (r: bool)
        ensures
            r == self.no_escape(),
    {
        let piece_coords = self.find_own_pieces(&self.turn);
        let mut i: usize = 0;
        while i < piece_coords.len()
            invariant
                i <= piece_coords.len(),
                forall|c: Coordinate| #[trigger]
                    piece_coords@.contains(c) <==> (c.on_board() && match self.at(c) {
                        TileContent::Piece(piece) => piece.player == self.turn,
                        TileContent::Empty => false,
                    }),
                forall|j: int, a_move: Move|
                    0 <= j < i ==> !#[trigger] self.escapes(piece_coords@[j], a_move),
            decreases piece_coords.len() - i,
        {
            let coord = piece_coords[i];
            assert(piece_coords@.contains(coord));
            if let TileContent::Piece(piece) = self.get_tile(&coord) {
                let moves = piece.all_moves(self, &coord);
                let mut n: usize = 0;
                while n < moves.len()
                    invariant
                        n <= moves.len(),
                        coord.on_board(),
                        self.at(coord) == TileContent::Piece(*piece),
                        forall|m: Move| #[trigger]
                            moves@.contains(m) <==> piece.outcome(*self, coord, m) is Ok,
                        forall|j: int| 0 <= j < n ==> !#[trigger] self.escapes(coord, moves@[j]),
                    decreases moves.len() - n,
                {
                    let a_move = moves[n];
                    if let Ok(new_board) = piece.move_piece(self, &coord, &a_move) {
                        if !new_board.is_player_on_check(&self.turn) {
                            assert(self.escapes(coord, a_move));
                            return false;
                        }
                    }
                    n = n + 1;
                }
                assert forall|a_move: Move| !#[trigger] self.escapes(coord, a_move) by {
                    if self.escapes(coord, a_move) {
                        assert(moves@.contains(a_move));
                        let j = choose|j: int| 0 <= j < moves@.len() && moves@[j] == a_move;
                        assert(!self.escapes(coord, moves@[j]));
                    }
                }
            }
            i = i + 1;
        }
        assert forall|from: Coordinate, a_move: Move| !#[trigger] self.escapes(from, a_move) by {
            if self.escapes(from, a_move) {
                assert(piece_coords@.contains(from));
                let j = choose|j: int| 0 <= j < piece_coords@.len() && piece_coords@[j] == from;
                assert(!self.escapes(piece_coords@[j], a_move));
            }
        }
        true
    }

    /// Whether a king of `player` is attacked: whether some piece of the other
    /// player could go to the square of such a king.
    pub fn is_player_on_check(&self, player: &Player) -> (r: bool)
        ensures
            r == self.in_check(*player),
    {
        let (king_coords, enemy_coords) = self.find_pieces_for_check(player);
        let board = if *player == self.turn {
            self.turned()
        } else {
            *self
        };
        let mut k: usize = 0;
        while k < king_coords.len()
            invariant
                k <= king_coords.len(),
                board == (if *player == self.turn {
                    self.next_turn()
                } else {
                    *self
                }),
                forall|c: Coordinate| #[trigger]
                    king_coords@.contains(c) <==> (c.on_board() && self.king_at(*player, c)),
                forall|c: Coordinate| #[trigger]
                    enemy_coords@.contains(c) <==> (c.on_board() && match self.at(c) {
                        TileContent::Piece(piece) => piece.player != *player,
                        TileContent::Empty => false,
                    }),
                forall|j: int| 0 <= j < k ==> !self.attacked(*player, #[trigger] king_coords@[j]),
            decreases king_coords.len() - k,
        {
            let king_coord = king_coords[k];
            assert(king_coords@.contains(king_coord));
            let mut e: usize = 0;
            while e < enemy_coords.len()
                invariant
                    e <= enemy_coords.len(),
                    board == (if *player == self.turn {
                        self.next_turn()
                    } else {
                        *self
                    }),
                    king_coord.on_board(),
                    self.king_at(*player, king_coord),
                    forall|c: Coordinate| #[trigger]
                        enemy_coords@.contains(c) <==> (c.on_board() && match self.at(c) {
                            TileContent::Piece(piece) => piece.player != *player,
                            TileContent::Empty => false,
                        }),
                    forall|j: int|
                        0 <= j < e ==> match self.at(#[trigger] enemy_coords@[j]) {
                            TileContent::Piece(piece) => !piece.allows(
                                board,
                                enemy_coords@[j],
                                king_coord,
                            ),
                            TileContent::Empty => true,
                        },
                decreases enemy_coords.len() - e,
            {
                let enemy_coord = enemy_coords[e];
                assert(enemy_coords@.contains(enemy_coord));
                if let TileContent::Piece(piece) = self.get_tile(&enemy_coord) {
                    if piece.can_move(&board, &enemy_coord, &king_coord) {
                        assert(self.attacked(*player, king_coord));
                        return true;
                    }
                }
                e = e + 1;
            }
            assert(!self.attacked(*player, king_coord)) by {
                if self.attacked(*player, king_coord) {
                    let enemy = choose|enemy: Coordinate|
                        enemy.on_board() && match #[trigger] self.at(enemy) {
                            TileContent::Piece(piece) => piece.player != *player && piece.allows(
                                board,
                                enemy,
                                king_coord,
                            ),
                            TileContent::Empty => false,
                        };
                    assert(enemy_coords@.contains(enemy));
                    let j = choose|j: int| 0 <= j < enemy_coords@.len() && enemy_coords@[j] == enemy;
                    assert(self.at(enemy_coords@[j]) is Piece);
                }
            }
            k = k + 1;
        }
        assert(!self.in_check(*player)) by {
            if self.in_check(*player) {
                let king = choose|king: Coordinate|
                    king.on_board() && #[trigger] self.king_at(*player, king) && self.attacked(
                        *player,
                        king,
                    );
                assert(king_coords@.contains(king));
                let j = choose|j: int| 0 <= j < king_coords@.len() && king_coords@[j] == king;
                assert(!self.attacked(*player, king_coords@[j]));
            }
        }
        false
    }

    /// The squares that hold a piece of `player`.
    fn find_own_pieces(&self, player: &Player) -> (coords: Vec<Coordinate>)
        ensures
            forall|c: Coordinate| #[trigger]
                coords@.contains(c) <==> (c.on_board() && match self.at(c) {
                    TileContent::Piece(piece) => piece.player == *player,
                    TileContent::Empty => false,
                }),
    {
        let mut coords: Vec<Coordinate> = Vec::new();
        let mut x: usize = 0;
        let mut y: usize = 0;
        while y < 8
            invariant
                x < 8,
                y <= 8,
                forall|c: Coordinate| #[trigger]
                    coords@.contains(c) <==> (c.on_board() && (c.row() < y || (c.row() == y && c.col() < x))
                        && match self.at(c) {
                        TileContent::Piece(piece) => piece.player == *player,
                        TileContent::Empty => false,
                    }),
            decreases 8 - y, 8 - x,
        {
            let ghost before = coords@;
            let coord = Coordinate::at(x, y);
            if let TileContent::Piece(piece) = self.get_tile(&coord) {
                if piece.player == *player {
                    coords.push(coord);
                }
            }
            proof {
                assert forall|c: Coordinate| #[trigger]
                    coords@.contains(c) <==> (c.on_board() && (c.row() < y || (c.row() == y && c.col() < x + 1))
                        && match self.at(c) {
                        TileContent::Piece(piece) => piece.player == *player,
                        TileContent::Empty => false,
                    }) by {
                    lemma_coordinate_same(c, coord);
                    assert(before.contains(c) ==> (c.row() < y || (c.row() == y && c.col() < x)));
                    lemma_seq_contains_after_push(before, coord, c);
                }
            }
            x = x + 1;
            if x == 8 {
                x = 0;
                y = y + 1;
            }
        }
        coords
    }

    /// The squares that hold a king of `king_player`, and the squares that
    /// hold a piece of the other player.
    fn find_pieces_for_check(&self, king_player: &Player) -> (r: (Vec<Coordinate>, Vec<Coordinate>))
        ensures
            forall|c: Coordinate| #[trigger]
                r.0@.contains(c) <==> (c.on_board() && self.king_at(*king_player, c)),
            forall|c: Coordinate| #[trigger]
                r.1@.contains(c) <==> (c.on_board() && match self.at(c) {
                    TileContent::Piece(piece) => piece.player != *king_player,
                    TileContent::Empty => false,
                }),
    {
        let mut king_coords: Vec<Coordinate> = Vec::new();
        let mut enemy_coords: Vec<Coordinate> = Vec::new();
        let mut x: usize = 0;
        let mut y: usize = 0;
        while y < 8
            invariant
                x < 8,
                y <= 8,
                forall|c: Coordinate| #[trigger]
                    king_coords@.contains(c) <==> (c.on_board() && (c.row() < y || (c.row() == y && c.col() < x))
                        && self.king_at(*king_player, c)),
                forall|c: Coordinate| #[trigger]
                    enemy_coords@.contains(c) <==> (c.on_board() && (c.row() < y || (c.row() == y && c.col() < x))
                        && match self.at(c) {
                        TileContent::Piece(piece) => piece.player != *king_player,
                        TileContent::Empty => false,
                    }),
            decreases 8 - y, 8 - x,
        {
            let ghost kings_before = king_coords@;
            let ghost enemies_before = enemy_coords@;
            let coord = Coordinate::at(x, y);
            if let TileContent::Piece(piece) = self.get_tile(&coord) {
                if piece.player == *king_player {
                    if matches!(piece.piece_type, PieceType::King) {
                        king_coords.push(coord);
                    }
                } else {
                    enemy_coords.push(coord);
                }
            }
            proof {
                assert forall|c: Coordinate| #[trigger]
                    king_coords@.contains(c) <==> (c.on_board() && (c.row() < y || (c.row() == y && c.col() < x + 1))
                        && self.king_at(*king_player, c)) by {
                    lemma_coordinate_same(c, coord);
                    lemma_seq_contains_after_push(kings_before, coord, c);
                    assert(kings_before.contains(c) ==> (c.row() < y || (c.row() == y && c.col() < x)));
                }
                assert forall|c: Coordinate| #[trigger]
                    enemy_coords@.contains(c) <==> (c.on_board() && (c.row() < y || (c.row() == y && c.col() < x + 1))
                        && match self.at(c) {
                        TileContent::Piece(piece) => piece.player != *king_player,
                        TileContent::Empty => false,
                    }) by {
                    lemma_coordinate_same(c, coord);
                    lemma_seq_contains_after_push(enemies_before, coord, c);
                    assert(enemies_before.contains(c) ==> (c.row() < y || (c.row() == y && c.col() < x)));
                }
            }
            x = x + 1;
            if x == 8 {
                x = 0;
                y = y + 1;
            }
        }
        (king_coords, enemy_coords)
    }

    /// Puts `new_tile` on the tile at `coordinate`.
    pub fn set_tile(&mut self, coordinate: &Coordinate, new_tile: TileContent)
        ensures
            *final(self) == old(self).put(coordinate.col(), coordinate.row(), new_tile),
    {
        let y = coordinate.yv();
        let x = coordinate.xv();
        self.tiles[y][x] = new_tile;
        proof {
            let want = old(self).put(coordinate.col(), coordinate.row(), new_tile);
            assert forall|i: int| 0 <= i < 8 implies self.tiles[i] == want.tiles[i] by {
                assert(self.tiles[i] =~= want.tiles[i]);
            }
            assert(self.tiles =~= want.tiles);
        }
    }
}

/// On the board, replacing a tile changes that tile and no other, and leaves
/// the turn and the en-passant square alone.
pub proof fn lemma_put(board: Board, x: int, y: int, t: TileContent)
    requires
        0 <= x < 8,
        0 <= y < 8,
    ensures
        board.put(x, y, t).turn == board.turn,
        board.put(x, y, t).en_passant == board.en_passant,
        forall|i: int, j: int|
            0 <= i < 8 && 0 <= j < 8 ==> #[trigger] board.put(x, y, t).tile(i, j) == (if i == x
                && j == y {
                t
            } else {
                board.tile(i, j)
            }),
{
}

/// On the board, moving what stands on one tile to another empties the
/// first, fills the second, and changes nothing else.
pub proof fn lemma_relocate(board: Board, from_x: int, from_y: int, to_x: int, to_y: int)
    requires
        0 <= from_x < 8,
        0 <= from_y < 8,
        0 <= to_x < 8,
        0 <= to_y < 8,
    ensures
        board.relocate(from_x, from_y, to_x, to_y).turn == board.turn,
        board.relocate(from_x, from_y, to_x, to_y).en_passant == board.en_passant,
        forall|i: int, j: int|
            0 <= i < 8 && 0 <= j < 8 ==> #[trigger] board.relocate(from_x, from_y, to_x, to_y).tile(
                i,
                j,
            ) == (if i == to_x && j == to_y {
                board.tile(from_x, from_y).after_move()
            } else if i == from_x && j == from_y {
                TileContent::Empty
            } else {
                board.tile(i, j)
            }),
{
    lemma_put(board, from_x, from_y, TileContent::Empty);
    lemma_put(
        board.put(from_x, from_y, TileContent::Empty),
        to_x,
        to_y,
        board.tile(from_x, from_y).after_move(),
    );
}

} // verus!
