//! What holds of the rules on every board: statements that relate the piece
//! rules, the board and the game to each other, each with its proof.

use vstd::prelude::*;
use crate::logic::basic::{Coordinate, Player, lemma_coordinate_same, lemma_square};
use crate::logic::board::{Board, TileContent, lemma_put, lemma_relocate};
use crate::logic::game::{Game, GameState};
use crate::logic::pieces::{Move, MoveError, Piece, PieceType, friendly, hostile};
use crate::logic::pieces::king;
use crate::logic::pieces::pawn;
use crate::logic::pieces::queen::{gap, span, step, toward};

verus! {

/// The squares that a piece can be asked to go to and the squares that it is
/// let go to are the same: some move to `to` is carried out exactly if the
/// plain move to `to` is carried out or asks for a promotion.
pub proof fn law_destinations_agree(kind: PieceType, board: Board, from: Coordinate, to: Coordinate)
    ensures
        (exists|m: Move| m.target() == to && #[trigger] kind.outcome(board, from, m) is Ok)
            <==> kind.allows(board, from, to),
{
    if kind.allows(board, from, to) {
        if kind.outcome(board, from, Move::Regular(to)) is Ok {
            assert(Move::Regular(to).target() == to);
        } else {
            let m = Move::Promotion(to, PieceType::Queen);
            assert(m.target() == to && kind.outcome(board, from, m) is Ok);
        }
    }
    if exists|m: Move| m.target() == to && #[trigger] kind.outcome(board, from, m) is Ok {
        let m = choose|m: Move| m.target() == to && #[trigger] kind.outcome(board, from, m) is Ok;
        assert(kind.allows(board, from, to));
    }
}

/// The same for a piece with its player: nothing is let go, and nothing can
/// be asked for, where it is the other player's turn.
pub proof fn law_piece_destinations_agree(piece: Piece, board: Board, from: Coordinate, to: Coordinate)
    ensures
        (exists|m: Move| m.target() == to && #[trigger] piece.outcome(board, from, m) is Ok)
            <==> piece.allows(board, from, to),
{
    law_destinations_agree(piece.piece_type, board, from, to);
    if piece.allows(board, from, to) {
        let m = choose|m: Move|
            m.target() == to && #[trigger] piece.piece_type.outcome(board, from, m) is Ok;
        assert(piece.outcome(board, from, m) is Ok);
    }
    if exists|m: Move| m.target() == to && #[trigger] piece.outcome(board, from, m) is Ok {
        let m = choose|m: Move| m.target() == to && #[trigger] piece.outcome(board, from, m) is Ok;
        assert(piece.piece_type.outcome(board, from, m) is Ok);
    }
}

/// A queen, a rook or a bishop goes no further than the first piece on its
/// line: every square that it passes on the way to `to` is empty, and `to`
/// itself is empty or holds a piece of the other player.
pub proof fn law_sliding_stops_at_first_piece(
    kind: PieceType,
    board: Board,
    from: Coordinate,
    to: Coordinate,
    k: int,
)
    requires
        kind == PieceType::Queen || kind == PieceType::Rook || kind == PieceType::Bishop,
        kind.allows(board, from, to),
        1 <= k < span(from, to),
    ensures
        board.tile(
            step(from.col(), toward(from.col(), to.col()), k),
            step(from.row(), toward(from.row(), to.row()), k),
        ) is Empty,
        board.at(to) is Empty || hostile(board, to.col(), to.row()),
{
}

/// A move that is carried out hands the board to the other player.
pub proof fn law_move_passes_turn(kind: PieceType, board: Board, from: Coordinate, a_move: Move)
    requires
        kind.outcome(board, from, a_move) is Ok,
    ensures
        kind.outcome(board, from, a_move)->Ok_0.turn == board.turn.opponent(),
{
}

/// A pawn that goes two steps leaves the square that it reaches as the
/// board's en-passant square, for the other player's move.
pub proof fn law_double_step_marks_square(board: Board, from: Coordinate, to: Coordinate)
    requires
        to.on_board(),
        pawn::advances_twice(board, from, to),
    ensures
        pawn::outcome(board, from, Move::Regular(to)) is Ok,
        pawn::outcome(board, from, Move::Regular(to))->Ok_0.en_passant == Some(to),
        pawn::outcome(board, from, Move::Regular(to))->Ok_0.turn == board.turn.opponent(),
{
}

/// With a pawn of the other player on the en-passant square `passed`, a pawn
/// beside it may go to the empty square behind it, and the pawn on `passed`
/// leaves the board.
pub proof fn law_en_passant_capture(board: Board, passed: Coordinate, from: Coordinate, to: Coordinate)
    requires
        board.en_passant == Some(passed),
        passed.on_board(),
        from.on_board(),
        to.on_board(),
        from.row() == passed.row(),
        gap(from.col(), passed.col()) == 1,
        to.col() == passed.col(),
        to.row() == pawn::forward(board.turn, passed.row(), 1),
        board.at(to) is Empty,
    ensures
        pawn::step(board, from, to) is Some,
        pawn::step(board, from, to)->Some_0.at(passed) is Empty,
        pawn::step(board, from, to)->Some_0.at(from) is Empty,
        pawn::step(board, from, to)->Some_0.at(to) == board.at(from).after_move(),
        pawn::step(board, from, to)->Some_0.en_passant is None,
{
    assert(pawn::captures_en_passant(board, from, to));
    let cleared = board.next_turn().put(passed.col(), passed.row(), TileContent::Empty);
    lemma_put(board.next_turn(), passed.col(), passed.row(), TileContent::Empty);
    lemma_put(cleared, from.col(), from.row(), TileContent::Empty);
    lemma_put(
        cleared.put(from.col(), from.row(), TileContent::Empty),
        to.col(),
        to.row(),
        cleared.tile(from.col(), from.row()).after_move(),
    );
}

/// The en-passant square lasts for one move: the board after any move has
/// none, unless that move was itself a pawn's two steps.
pub proof fn law_en_passant_expires(kind: PieceType, board: Board, from: Coordinate, a_move: Move)
    requires
        kind.outcome(board, from, a_move) is Ok,
    ensures
        kind.outcome(board, from, a_move)->Ok_0.en_passant is None || (kind == PieceType::Pawn
            && pawn::advances_twice(board, from, a_move.target()) && kind.outcome(
            board,
            from,
            a_move,
        )->Ok_0.en_passant == Some(a_move.target())),
{
}

/// On a board without an en-passant square a pawn goes aside only onto a
/// piece of the other player.
pub proof fn law_no_capture_without_mark(board: Board, from: Coordinate, to: Coordinate)
    requires
        board.en_passant is None,
        from.col() != to.col(),
        pawn::step(board, from, to) is Some,
    ensures
        hostile(board, to.col(), to.row()),
{
}

/// A king goes two columns only by castling: the piece on `from` has not
/// moved, the corner of that side holds an unmoved rook of the mover's, and
/// the squares between the two are empty.
pub proof fn law_castling_conditions(board: Board, from: Coordinate, to: Coordinate)
    requires
        king::outcome(board, from, Move::Regular(to)) is Ok,
        !king::near(from, to),
    ensures
        king::can_castle(board, from, to),
        from.row() == to.row(),
        gap(from.col(), to.col()) == 2,
        board.at(from) is Piece && !board.at(from)->Piece_0.moved,
        board.tile(king::rook_column(from, to), from.row()) is Piece,
        !board.tile(king::rook_column(from, to), from.row())->Piece_0.moved,
        board.tile(king::rook_column(from, to), from.row())->Piece_0.piece_type
            == PieceType::Rook,
        forall|x: int|
            (from.col() < x < king::rook_column(from, to) || king::rook_column(from, to) < x
                < from.col()) ==> board.tile(x, from.row()) is Empty,
{
    let corner = king::rook_column(from, to);
    let d = toward(from.col(), corner);
    assert forall|x: int| (from.col() < x < corner || corner < x < from.col()) implies board.tile(
        x,
        from.row(),
    ) is Empty by {
        let j = gap(from.col(), x);
        assert(step(from.col(), d, j) == x);
        assert(step(from.row(), 0, j) == from.row());
        assert(board.tile(step(from.col(), d, j), step(from.row(), 0, j)) is Empty);
    }
}

/// Castling moves both pieces at once: on the board that it leads to the
/// king's piece stands on `to`, the rook on the square that the king left,
/// and the corner is empty. The king comes from a square more than two
/// columns from the corner.
pub proof fn law_castling_moves_both(board: Board, from: Coordinate, to: Coordinate)
    requires
        from.on_board(),
        king::outcome(board, from, Move::Regular(to)) is Ok,
        !king::near(from, to),
        to.col() != king::rook_column(from, to),
    ensures
        king::outcome(board, from, Move::Regular(to))->Ok_0.at(to) == board.at(from).after_move(),
        king::outcome(board, from, Move::Regular(to))->Ok_0.at(from) == board.tile(
            king::rook_column(from, to),
            from.row(),
        ).after_move(),
        king::outcome(board, from, Move::Regular(to))->Ok_0.tile(
            king::rook_column(from, to),
            from.row(),
        ) is Empty,
        king::outcome(board, from, Move::Regular(to))->Ok_0.turn == board.turn.opponent(),
{
    let corner = king::rook_column(from, to);
    let b0 = board.next_turn();
    let b1 = b0.put(from.col(), from.row(), TileContent::Empty);
    let b2 = b1.put(to.col(), to.row(), b0.tile(from.col(), from.row()).after_move());
    let b3 = b2.put(corner, from.row(), TileContent::Empty);
    let b4 = b3.put(from.col(), from.row(), b2.tile(corner, from.row()).after_move());
    lemma_put(b0, from.col(), from.row(), TileContent::Empty);
    lemma_put(b1, to.col(), to.row(), b0.tile(from.col(), from.row()).after_move());
    lemma_put(b2, corner, from.row(), TileContent::Empty);
    lemma_put(b3, from.col(), from.row(), b2.tile(corner, from.row()).after_move());
    assert(king::outcome(board, from, Move::Regular(to))->Ok_0 == b4);
    assert(b2.tile(corner, from.row()) == board.tile(corner, from.row()));
}

/// On the last row a pawn's plain move is never carried out: where the pawn
/// may go there, the move asks for a promotion. A move that names a kind is
/// carried out exactly if the pawn may go there and the kind is queen, rook,
/// knight or bishop; king and pawn are refused.
pub proof fn law_promotion(board: Board, from: Coordinate, to: Coordinate, kind: PieceType)
    requires
        to.row() == pawn::last_row(board.turn),
    ensures
        !(pawn::outcome(board, from, Move::Regular(to)) is Ok),
        pawn::outcome(board, from, Move::Regular(to)) == Err::<Board, MoveError>(
            MoveError::PromotionRequired,
        ) <==> pawn::step(board, from, to) is Some,
        pawn::outcome(board, from, Move::Promotion(to, kind)) is Ok <==> (pawn::step(
            board,
            from,
            to,
        ) is Some && kind.promotable()),
        kind == PieceType::King || kind == PieceType::Pawn ==> pawn::outcome(
            board,
            from,
            Move::Promotion(to, kind),
        ) == Err::<Board, MoveError>(MoveError::IllegalMove),
{
}

/// A promotion changes the kind of the piece that has arrived, and neither
/// its player nor that it has moved.
pub proof fn law_promotion_keeps_player(board: Board, from: Coordinate, to: Coordinate, kind: PieceType)
    requires
        from.on_board(),
        board.at(from) is Piece,
        pawn::outcome(board, from, Move::Promotion(to, kind)) is Ok,
        board.en_passant != Some(from),
    ensures
        pawn::outcome(board, from, Move::Promotion(to, kind))->Ok_0.at(to) == TileContent::Piece(
            Piece { player: board.at(from)->Piece_0.player, piece_type: kind, moved: true },
        ),
{
    let stepped = pawn::step(board, from, to)->Some_0;
    lemma_coordinate_same(from, to);
    lemma_put(stepped, to.col(), to.row(), pawn::promote(stepped.at(to), kind));
    lemma_put(board.next_turn(), from.col(), from.row(), TileContent::Empty);
    lemma_put(
        board.next_turn().put(from.col(), from.row(), TileContent::Empty),
        to.col(),
        to.row(),
        board.tile(from.col(), from.row()).after_move(),
    );
    lemma_put(
        board.next_turn().mark_en_passant(to),
        from.col(),
        from.row(),
        TileContent::Empty,
    );
    lemma_put(
        board.next_turn().mark_en_passant(to).put(from.col(), from.row(), TileContent::Empty),
        to.col(),
        to.row(),
        board.tile(from.col(), from.row()).after_move(),
    );
    if pawn::captures_en_passant(board, from, to) && !pawn::captures(board, from, to)
        && !pawn::advances(board, from, to) && !pawn::advances_twice(board, from, to) {
        let passed = board.en_passant->Some_0;
        lemma_coordinate_same(passed, from);
        let cleared = board.next_turn().put(passed.col(), passed.row(), TileContent::Empty);
        lemma_put(board.next_turn(), passed.col(), passed.row(), TileContent::Empty);
        lemma_put(cleared, from.col(), from.row(), TileContent::Empty);
        lemma_put(
            cleared.put(from.col(), from.row(), TileContent::Empty),
            to.col(),
            to.row(),
            cleared.tile(from.col(), from.row()).after_move(),
        );
    }
}

/// A move that would leave a king of the mover attacked is refused with
/// `IsCheck`, and the game stays as it was.
pub proof fn law_own_check_is_refused(game: Game, from: Coordinate, to: Coordinate)
    requires
        game.state is WaitMove,
        game.board.at(from) is Piece,
        game.board.at(from)->Piece_0.outcome(game.board, from, Move::Regular(to)) is Ok,
        game.board.at(from)->Piece_0.outcome(game.board, from, Move::Regular(to))->Ok_0.in_check(
            game.board.turn,
        ),
    ensures
        game.after_move(from, to).0 == game,
        game.after_move(from, to).1 == Err::<(), MoveError>(MoveError::IsCheck),
{
}

/// No command ever brings a game to a board on which the player who has just
/// moved has a king attacked.
pub proof fn law_committed_move_is_safe(game: Game, from: Coordinate, to: Coordinate)
    requires
        game.after_move(from, to).0.board != game.board,
    ensures
        game.after_move(from, to).1 is Ok,
        !game.after_move(from, to).0.board.in_check(game.board.turn),
        game.after_move(from, to).0.board.turn == game.board.turn.opponent(),
{
    let piece = game.board.at(from)->Piece_0;
    law_move_passes_turn(piece.piece_type, game.board, from, Move::Regular(to));
}

/// The same for a promotion.
pub proof fn law_committed_promotion_is_safe(
    game: Game,
    from: Coordinate,
    to: Coordinate,
    kind: PieceType,
)
    requires
        game.after_promotion(from, to, kind).0.board != game.board,
    ensures
        game.after_promotion(from, to, kind).1 is Ok,
        !game.after_promotion(from, to, kind).0.board.in_check(game.board.turn),
        game.after_promotion(from, to, kind).0.board.turn == game.board.turn.opponent(),
{
    let piece = game.board.at(from)->Piece_0;
    law_move_passes_turn(piece.piece_type, game.board, from, Move::Promotion(to, kind));
}

/// After a move that is carried out the game is in checkmate exactly if the
/// player to move is in check and has no move that ends the check; else it
/// waits for a move and says whether that player is in check.
pub proof fn law_checkmate(game: Game, from: Coordinate, to: Coordinate)
    requires
        game.state is WaitMove,
        Game::attempt(game.board, from, Move::Regular(to)) is Ok,
    ensures
        ({
            let next = game.after_move(from, to).0;
            &&& next.state is CheckMate <==> (next.board.in_check(next.board.turn)
                && next.board.no_escape())
            &&& !(next.state is CheckMate) ==> next.state == GameState::WaitMove(
                next.board.in_check(next.board.turn),
            )
        }),
{
}

/// Checkmate is the end: every command is refused, and the game stays as it
/// is.
pub proof fn law_checkmate_is_terminal(
    game: Game,
    from: Coordinate,
    to: Coordinate,
    kind: PieceType,
)
    requires
        game.state is CheckMate,
    ensures
        game.after_move(from, to) == (game, Err::<(), MoveError>(MoveError::InvalidCommand)),
        game.after_promotion(from, to, kind) == (
            game,
            Err::<(), MoveError>(MoveError::InvalidCommand),
        ),
{
}

/// The board changes only together with the turn: a command that is refused,
/// or that makes the game wait for the kind of a promotion, leaves the board
/// as it was.
pub proof fn law_turn_flips_with_board(game: Game, from: Coordinate, to: Coordinate)
    ensures
        ({
            let (next, result) = game.after_move(from, to);
            &&& result is Err ==> next == game
            &&& next.state is SelectPromotionType ==> next.board == game.board
        }),
{
}

/// Nothing moves onto a piece of the mover's own.
pub proof fn law_no_friendly_fire(kind: PieceType, board: Board, from: Coordinate, to: Coordinate)
    requires
        kind.allows(board, from, to),
        kind != PieceType::King || king::near(from, to),
    ensures
        !friendly(board, to.col(), to.row()),
{
}

/// `player` has exactly one king on the board.
pub open spec fn one_king(board: Board, player: Player) -> bool {
    exists|king: Coordinate|
        king.on_board() && #[trigger] board.king_at(player, king) && forall|c: Coordinate|
            c.on_board() && #[trigger] board.king_at(player, c) ==> c == king
}

/// The board is one that a game can have come to: each player has exactly
/// one king; the player who has just moved is not in check; and an
/// en-passant square holds a pawn of that player.
pub open spec fn playable(board: Board) -> bool {
    &&& one_king(board, Player::White)
    &&& one_king(board, Player::Black)
    &&& !board.in_check(board.turn.opponent())
    &&& match board.en_passant {
        Some(passed) => passed.on_board() && match board.at(passed) {
            TileContent::Piece(piece) => piece.player != board.turn && piece.piece_type
                == PieceType::Pawn,
            TileContent::Empty => false,
        },
        None => true,
    }
}

/// On a board that a game can have come to, no move that the game carries
/// out takes a king.
proof fn lemma_king_is_not_taken(board: Board, from: Coordinate, a_move: Move)
    requires
        playable(board),
        from.on_board(),
        Game::attempt(board, from, a_move) is Ok,
    ensures
        a_move.target().on_board(),
        !board.king_at(board.turn.opponent(), a_move.target()),
{
    let piece = board.at(from)->Piece_0;
    let to = a_move.target();
    law_piece_destinations_agree(piece, board, from, to);
    assert(piece.allows(board, from, to));
    if board.king_at(board.turn.opponent(), to) {
        assert(board.at(from) is Piece);
        assert(board.attacked(board.turn.opponent(), to));
        assert(board.in_check(board.turn.opponent()));
    }
}

/// A game stays on boards that a game can have come to: after every move
/// that is carried out each player still has exactly one king, the player
/// who moved is not in check, and the en-passant square, if there is one,
/// holds the pawn that has just gone two steps.
#[verifier::rlimit(60)]
#[verifier::spinoff_prover]
pub proof fn law_board_stays_playable(board: Board, from: Coordinate, a_move: Move)
    requires
        playable(board),
        from.on_board(),
        Game::attempt(board, from, a_move) is Ok,
    ensures
        playable(Game::attempt(board, from, a_move)->Ok_0),
{
    let piece = board.at(from)->Piece_0;
    let kind = piece.piece_type;
    let to = a_move.target();
    let next = Game::attempt(board, from, a_move)->Ok_0;
    let mover = board.turn;
    let other = board.turn.opponent();
    lemma_king_is_not_taken(board, from, a_move);
    law_move_passes_turn(kind, board, from, a_move);
    law_en_passant_expires(kind, board, from, a_move);
    let b0 = board.next_turn();
    lemma_relocate(b0, from.col(), from.row(), to.col(), to.row());
    lemma_relocate(b0.mark_en_passant(to), from.col(), from.row(), to.col(), to.row());
    let plain = b0.relocate(from.col(), from.row(), to.col(), to.row());
    let twice = b0.mark_en_passant(to).relocate(from.col(), from.row(), to.col(), to.row());
    lemma_put(plain, to.col(), to.row(), pawn::promote(plain.at(to), PieceType::Queen));
    lemma_put(plain, to.col(), to.row(), pawn::promote(plain.at(to), PieceType::Rook));
    lemma_put(plain, to.col(), to.row(), pawn::promote(plain.at(to), PieceType::Knight));
    lemma_put(plain, to.col(), to.row(), pawn::promote(plain.at(to), PieceType::Bishop));
    lemma_put(twice, to.col(), to.row(), pawn::promote(twice.at(to), PieceType::Queen));
    lemma_put(twice, to.col(), to.row(), pawn::promote(twice.at(to), PieceType::Rook));
    lemma_put(twice, to.col(), to.row(), pawn::promote(twice.at(to), PieceType::Knight));
    lemma_put(twice, to.col(), to.row(), pawn::promote(twice.at(to), PieceType::Bishop));
    if board.en_passant is Some {
        let passed = board.en_passant->Some_0;
        let cleared = b0.put(passed.col(), passed.row(), TileContent::Empty);
        lemma_put(b0, passed.col(), passed.row(), TileContent::Empty);
        lemma_relocate(cleared, from.col(), from.row(), to.col(), to.row());
        let taken = cleared.relocate(from.col(), from.row(), to.col(), to.row());
        lemma_put(taken, to.col(), to.row(), pawn::promote(taken.at(to), PieceType::Queen));
        lemma_put(taken, to.col(), to.row(), pawn::promote(taken.at(to), PieceType::Rook));
        lemma_put(taken, to.col(), to.row(), pawn::promote(taken.at(to), PieceType::Knight));
        lemma_put(taken, to.col(), to.row(), pawn::promote(taken.at(to), PieceType::Bishop));
    }
    let corner = king::rook_column(from, to);
    lemma_relocate(plain, corner, from.row(), from.col(), from.row());

    let old_white = choose|king: Coordinate|
        king.on_board() && #[trigger] board.king_at(Player::White, king) && forall|c: Coordinate|
            c.on_board() && #[trigger] board.king_at(Player::White, c) ==> c == king;
    let old_black = choose|king: Coordinate|
        king.on_board() && #[trigger] board.king_at(Player::Black, king) && forall|c: Coordinate|
            c.on_board() && #[trigger] board.king_at(Player::Black, c) ==> c == king;
    let old_mover = if mover == Player::White {
        old_white
    } else {
        old_black
    };
    let old_other = if mover == Player::White {
        old_black
    } else {
        old_white
    };
    lemma_coordinate_same(from, to);
    lemma_coordinate_same(from, old_mover);
    lemma_coordinate_same(from, old_other);
    lemma_coordinate_same(to, old_mover);
    lemma_coordinate_same(to, old_other);
    // Where the king of the mover stands afterwards.
    let new_mover = if kind == PieceType::King {
        if king::near(from, to) || to.col() != corner {
            to
        } else {
            from
        }
    } else {
        old_mover
    };
    assert(board.king_at(mover, from) <==> kind == PieceType::King);
    assert(kind == PieceType::King ==> from == old_mover);
    assert(next.king_at(mover, new_mover));
    assert forall|c: Coordinate| c.on_board() && #[trigger] next.king_at(mover, c) implies c
        == new_mover by {
        lemma_coordinate_same(c, from);
        lemma_coordinate_same(c, to);
        lemma_coordinate_same(c, old_mover);
        lemma_coordinate_same(c, new_mover);
        if c != new_mover {
            assert(board.king_at(mover, c) ==> c == old_mover);
        }
    }
    assert(one_king(next, mover));
    assert(next.king_at(other, old_other));
    assert forall|c: Coordinate| c.on_board() && #[trigger] next.king_at(other, c) implies c
        == old_other by {
        lemma_coordinate_same(c, from);
        lemma_coordinate_same(c, to);
        lemma_coordinate_same(c, old_other);
        assert(board.king_at(other, c) ==> c == old_other);
    }
    assert(one_king(next, other));
}

/// The board of a new game is one that a game can have come to.
pub proof fn law_standard_board_is_playable(board: Board)
    requires
        board.is_standard(),
    ensures
        playable(board),
        !board.in_check(Player::White),
{
    lemma_square(4, 7);
    lemma_square(4, 0);
    let white = Coordinate::square(4, 7);
    let black = Coordinate::square(4, 0);
    assert(board.tile(4, 7) == Board::standard_tile(4, 7));
    assert(board.tile(4, 0) == Board::standard_tile(4, 0));
    assert(board.king_at(Player::White, white));
    assert(board.king_at(Player::Black, black));
    assert forall|c: Coordinate| c.on_board() && #[trigger] board.king_at(Player::White, c) implies c
        == white by {
        assert(board.tile(c.col(), c.row()) == Board::standard_tile(c.col(), c.row()));
        lemma_coordinate_same(c, white);
    }
    assert forall|c: Coordinate| c.on_board() && #[trigger] board.king_at(Player::Black, c) implies c
        == black by {
        assert(board.tile(c.col(), c.row()) == Board::standard_tile(c.col(), c.row()));
        lemma_coordinate_same(c, black);
    }
    assert(one_king(board, Player::White));
    assert(one_king(board, Player::Black));
    lemma_no_attack_at_start(board, Player::Black);
    lemma_no_attack_at_start(board, Player::White);
}

/// At the start no piece can reach the other player's king: the pawns of
/// its own player stand in the way of every line, and knights and pawns do
/// not go that far.
proof fn lemma_no_attack_at_start(board: Board, player: Player)
    requires
        board.is_standard(),
    ensures
        !board.in_check(player),
{
    let seen = if player == board.turn {
        board.next_turn()
    } else {
        board
    };
    assert forall|king: Coordinate, enemy: Coordinate|
        king.on_board() && board.king_at(player, king) && enemy.on_board() && (
        #[trigger] board.at(enemy)) is Piece && board.at(enemy)->Piece_0.player
            != player implies !#[trigger] board.at(enemy)->Piece_0.allows(seen, enemy, king) by {
        let piece = board.at(enemy)->Piece_0;
        assert(board.tile(king.col(), king.row()) == Board::standard_tile(king.col(), king.row()));
        assert(board.tile(enemy.col(), enemy.row()) == Board::standard_tile(
            enemy.col(),
            enemy.row(),
        ));
        let dx = toward(enemy.col(), king.col());
        let dy = toward(enemy.row(), king.row());
        let x1 = step(enemy.col(), dx, 1);
        let y1 = step(enemy.row(), dy, 1);
        if 0 <= x1 < 8 && 0 <= y1 < 8 {
            assert(board.tile(x1, y1) == Board::standard_tile(x1, y1));
            assert(seen.tile(x1, y1) == board.tile(x1, y1));
        }
        if piece.allows(seen, enemy, king) {
            if piece.piece_type == PieceType::Queen || piece.piece_type == PieceType::Rook
                || piece.piece_type == PieceType::Bishop {
                assert(span(enemy, king) >= 6);
                assert(seen.tile(step(enemy.col(), dx, 1), step(enemy.row(), dy, 1)) is Empty);
            }
        }
    }
    if board.in_check(player) {
        let king = choose|king: Coordinate|
            king.on_board() && #[trigger] board.king_at(player, king) && board.attacked(
                player,
                king,
            );
        let enemy = choose|enemy: Coordinate|
            enemy.on_board() && match #[trigger] board.at(enemy) {
                TileContent::Piece(piece) => piece.player != player && piece.allows(
                    seen,
                    enemy,
                    king,
                ),
                TileContent::Empty => false,
            };
        assert(!board.at(enemy)->Piece_0.allows(seen, enemy, king));
    }
}

/// Whatever the players ask for, a game that starts on such a board stays on
/// such boards.
pub proof fn law_game_stays_playable(game: Game, from: Coordinate, to: Coordinate, kind: PieceType)
    requires
        playable(game.board),
        from.on_board(),
    ensures
        playable(game.after_move(from, to).0.board),
        playable(game.after_promotion(from, to, kind).0.board),
{
    if Game::attempt(game.board, from, Move::Regular(to)) is Ok {
        law_board_stays_playable(game.board, from, Move::Regular(to));
    }
    if Game::attempt(game.board, from, Move::Promotion(to, kind)) is Ok {
        law_board_stays_playable(game.board, from, Move::Promotion(to, kind));
    }
}

} // verus!
