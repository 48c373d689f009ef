//! The queen's rule, and the walks along lines that rook and bishop share
//! with it.

use vstd::prelude::*;
use crate::logic::basic::{Coordinate, lemma_coordinate_same};
use crate::logic::board::{Board, TileContent};
use crate::logic::pieces::{Move, MoveError, friendly, push_move};

verus! {

/// The distance between two values of an axis.
pub open spec fn gap(a: int, b: int) -> int {
    if a < b {
        b - a
    } else {
        a - b
    }
}

/// The direction on an axis from `a` to `b`: -1, 0 or 1.
pub open spec fn toward(a: int, b: int) -> int {
    if a < b {
        1
    } else if a > b {
        -1
    } else {
        0
    }
}

/// The direction on an axis from `a` to `b` where the two differ, and 1 where
/// they do not.
pub open spec fn slope(a: int, b: int) -> int {
    if a > b {
        -1
    } else {
        1
    }
}

/// The value of an axis `k` steps from `a` in direction `d`.
pub open spec fn step(a: int, d: int, k: int) -> int {
    if d > 0 {
        a + k
    } else if d < 0 {
        a - k
    } else {
        a
    }
}

/// The first `k - 1` squares from `(x, y)` in direction `(dx, dy)`, the
/// starting square not counted, are all empty.
pub open spec fn line_clear(board: Board, x: int, y: int, dx: int, dy: int, k: int) -> bool {
    forall|j: int|
        1 <= j < k ==> (#[trigger] board.tile(step(x, dx, j), step(y, dy, j))) is Empty
}

/// The two squares share a column or a row.
pub open spec fn straight(from: Coordinate, to: Coordinate) -> bool {
    from.col() == to.col() || from.row() == to.row()
}

/// The two squares are as many columns apart as rows.
pub open spec fn diagonal(from: Coordinate, to: Coordinate) -> bool {
    gap(from.col(), to.col()) == gap(from.row(), to.row())
}

/// The number of steps of a king between the two squares.
pub open spec fn span(from: Coordinate, to: Coordinate) -> int {
    if gap(from.col(), to.col()) > gap(from.row(), to.row()) {
        gap(from.col(), to.col())
    } else {
        gap(from.row(), to.row())
    }
}

/// Every square strictly between `from` and `to`, on the line that leads
/// from the one to the other, is empty.
pub open spec fn path_clear(board: Board, from: Coordinate, to: Coordinate) -> bool {
    line_clear(
        board,
        from.col(),
        from.row(),
        toward(from.col(), to.col()),
        toward(from.row(), to.row()),
        span(from, to),
    )
}

/// Some square strictly between the two holds a piece, the squares taken
/// along the column where the two share one, and else along the row of
/// `from` as far as the column of `to`.
pub open spec fn blocked_straight(board: Board, from: Coordinate, to: Coordinate) -> bool {
    if from.col() == to.col() {
        !line_clear(
            board,
            from.col(),
            from.row(),
            0,
            toward(from.row(), to.row()),
            gap(from.row(), to.row()),
        )
    } else {
        !line_clear(
            board,
            from.col(),
            from.row(),
            toward(from.col(), to.col()),
            0,
            gap(from.col(), to.col()),
        )
    }
}

/// The squares that a diagonal walk from `from` passes before it has gone as
/// many columns as `to` is away all lie on the board.
pub open spec fn diagonal_walk_on_board(from: Coordinate, to: Coordinate) -> bool {
    let k = gap(from.col(), to.col());
    k <= 1 || 0 <= step(from.row(), slope(from.row(), to.row()), k - 1) < 8
}

/// Some square that a diagonal walk from `from` passes before it has gone as
/// many columns as `to` is away holds a piece.
pub open spec fn blocked_diagonal(board: Board, from: Coordinate, to: Coordinate) -> bool {
    !line_clear(
        board,
        from.col(),
        from.row(),
        slope(from.col(), to.col()),
        slope(from.row(), to.row()),
        gap(from.col(), to.col()),
    )
}

/// A piece that goes along lines can go from `from` to `to`: the two differ,
/// `to` is on the board and holds no piece of the mover's, and nothing stands
/// between them.
pub open spec fn slides(board: Board, from: Coordinate, to: Coordinate) -> bool {
    &&& to.on_board()
    &&& from != to
    &&& !friendly(board, to.col(), to.row())
    &&& path_clear(board, from, to)
}

/// The rook's rule for going from `from` to `to`.
pub open spec fn accepts_straight(board: Board, from: Coordinate, to: Coordinate) -> bool {
    straight(from, to) && slides(board, from, to)
}

/// The bishop's rule for going from `from` to `to`.
pub open spec fn accepts_diagonal(board: Board, from: Coordinate, to: Coordinate) -> bool {
    diagonal(from, to) && slides(board, from, to)
}

/// The queen's rule for going from `from` to `to`: the rook's or the bishop's.
pub open spec fn accepts(board: Board, from: Coordinate, to: Coordinate) -> bool {
    accepts_straight(board, from, to) || accepts_diagonal(board, from, to)
}

/// The result of asking a queen on `from` for the move `a_move`.
pub open spec fn outcome(board: Board, from: Coordinate, a_move: Move) -> Result<Board, MoveError> {
    match a_move {
        Move::Promotion(_, _) => Err(MoveError::IllegalMove),
        Move::Regular(to) => if accepts(board, from, to) {
            Ok(board.next_turn().relocate(from.col(), from.row(), to.col(), to.row()))
        } else {
            Err(MoveError::IllegalMove)
        },
    }
}

/// `to` is met on the walk from `from` in direction `(dx, dy)`, before or at
/// the first piece, and holds no piece of the mover's.
pub open spec fn ray_hits(board: Board, from: Coordinate, dx: int, dy: int, to: Coordinate) -> bool {
    &&& toward(from.col(), to.col()) == dx
    &&& toward(from.row(), to.row()) == dy
    &&& (straight(from, to) || diagonal(from, to))
    &&& slides(board, from, to)
}

/// Walks from `from` in direction `(dx, dy)` and adds each square up to the
/// first piece; the square of that piece too, unless the piece is the mover's.
fn walk_ray(board: &Board, from: &Coordinate, dx: i8, dy: i8, moves: &mut Vec<Move>)
    requires
        -1 <= dx <= 1,
        -1 <= dy <= 1,
        dx != 0 || dy != 0,
        old(moves)@.no_duplicates(),
        forall|m: Move| #[trigger]
            old(moves)@.contains(m) ==> !(m is Regular && ray_hits(
                *board,
                *from,
                dx as int,
                dy as int,
                m.target(),
            )),
    ensures
        final(moves)@.no_duplicates(),
        forall|m: Move| #[trigger]
            final(moves)@.contains(m) <==> (old(moves)@.contains(m) || (m is Regular && ray_hits(
                *board,
                *from,
                dx as int,
                dy as int,
                m.target(),
            ))),
{
    let (from_x, from_y) = from.values();
    let mut x: i8 = from_x as i8 + dx;
    let mut y: i8 = from_y as i8 + dy;
    let mut k: i8 = 1;
    let mut open: bool = true;
    while open && 0 <= x && x < 8 && 0 <= y && y < 8
        invariant
            -1 <= dx <= 1,
            -1 <= dy <= 1,
            dx != 0 || dy != 0,
            from.on_board(),
            from_x == from.col(),
            from_y == from.row(),
            1 <= k <= 9,
            x == step(from.col(), dx as int, k as int),
            y == step(from.row(), dy as int, k as int),
            open ==> line_clear(*board, from.col(), from.row(), dx as int, dy as int, k as int),
            moves@.no_duplicates(),
            forall|m: Move| #[trigger]
                old(moves)@.contains(m) ==> !(m is Regular && ray_hits(
                    *board,
                    *from,
                    dx as int,
                    dy as int,
                    m.target(),
                )),
            open ==> forall|m: Move| #[trigger]
                moves@.contains(m) <==> (old(moves)@.contains(m) || (m is Regular && ray_hits(
                    *board,
                    *from,
                    dx as int,
                    dy as int,
                    m.target(),
                ) && span(*from, m.target()) < k)),
            !open ==> forall|m: Move| #[trigger]
                moves@.contains(m) <==> (old(moves)@.contains(m) || (m is Regular && ray_hits(
                    *board,
                    *from,
                    dx as int,
                    dy as int,
                    m.target(),
                ))),
        decreases (if open { 1int } else { 0int }), 9 - k,
    {
        let coord = Coordinate::at(x as usize, y as usize);
        assert(span(*from, coord) == k);
        assert(toward(from.col(), coord.col()) == dx);
        assert(toward(from.row(), coord.row()) == dy);
        assert(path_clear(*board, *from, coord));
        assert(from.col() != coord.col() || from.row() != coord.row());
        assert(straight(*from, coord) || diagonal(*from, coord));
        assert(ray_hits(*board, *from, dx as int, dy as int, coord) <==> !friendly(
            *board,
            coord.col(),
            coord.row(),
        ));
        assert(!(span(*from, coord) < k));
        match board.get_tile(&coord) {
            TileContent::Piece(piece) => {
                if piece.player != board.turn {
                    push_move(moves, Move::Regular(coord));
                }
                open = false;
                proof {
                    assert(board.tile(
                        step(from.col(), dx as int, k as int),
                        step(from.row(), dy as int, k as int),
                    ) is Piece);
                    assert forall|m: Move| #[trigger]
                        moves@.contains(m) <==> (old(moves)@.contains(m) || (m is Regular && ray_hits(
                            *board,
                            *from,
                            dx as int,
                            dy as int,
                            m.target(),
                        ))) by {
                        if m is Regular && ray_hits(*board, *from, dx as int, dy as int, m.target()) {
                            let to = m.target();
                            if span(*from, to) > k {
                                assert(!(board.tile(
                                    step(from.col(), dx as int, k as int),
                                    step(from.row(), dy as int, k as int),
                                ) is Empty));
                            }
                            if span(*from, to) == k {
                                assert(to.col() == coord.col());
                                assert(to.row() == coord.row());
                                lemma_coordinate_same(to, coord);
                            }
                        }
                    }
                }
            },
            TileContent::Empty => {
                push_move(moves, Move::Regular(coord));
                proof {
                    assert forall|j: int| 1 <= j < k + 1 implies (#[trigger] board.tile(
                        step(from.col(), dx as int, j),
                        step(from.row(), dy as int, j),
                    )) is Empty by {}
                    assert forall|m: Move| #[trigger]
                        moves@.contains(m) <==> (old(moves)@.contains(m) || (m is Regular && ray_hits(
                            *board,
                            *from,
                            dx as int,
                            dy as int,
                            m.target(),
                        ) && span(*from, m.target()) < k + 1)) by {
                        if m is Regular && ray_hits(*board, *from, dx as int, dy as int, m.target())
                            && span(*from, m.target()) == k {
                            assert(m.target().col() == coord.col());
                            assert(m.target().row() == coord.row());
                            lemma_coordinate_same(m.target(), coord);
                        }
                    }
                }
            },
        }
        x = x + dx;
        y = y + dy;
        k = k + 1;
    }
    proof {
        if open {
            assert forall|m: Move| #[trigger]
                moves@.contains(m) <==> (old(moves)@.contains(m) || (m is Regular && ray_hits(
                    *board,
                    *from,
                    dx as int,
                    dy as int,
                    m.target(),
                ))) by {
                if m is Regular && ray_hits(*board, *from, dx as int, dy as int, m.target()) {
                    let to = m.target();
                    assert(to.on_board());
                    assert(span(*from, to) < k);
                }
            }
        }
    }
}

/// Adds the rook's moves from `from`.
pub(crate) fn add_straight(board: &Board, from: &Coordinate, moves: &mut Vec<Move>)
    requires
        old(moves)@.no_duplicates(),
        forall|m: Move| #[trigger]
            old(moves)@.contains(m) ==> !(m is Regular && accepts_straight(
                *board,
                *from,
                m.target(),
            )),
    ensures
        final(moves)@.no_duplicates(),
        forall|m: Move| #[trigger]
            final(moves)@.contains(m) <==> (old(moves)@.contains(m) || (m is Regular
                && accepts_straight(*board, *from, m.target()))),
{
    walk_ray(board, from, 0, 1, moves);
    walk_ray(board, from, 0, -1, moves);
    walk_ray(board, from, 1, 0, moves);
    walk_ray(board, from, -1, 0, moves);
    proof {
        assert forall|m: Move| #[trigger]
            moves@.contains(m) <==> (old(moves)@.contains(m) || (m is Regular && accepts_straight(
                *board,
                *from,
                m.target(),
            ))) by {
            lemma_coordinate_same(*from, m.target());
        }
    }
}

/// Adds the bishop's moves from `from`.
pub(crate) fn add_diagonal(board: &Board, from: &Coordinate, moves: &mut Vec<Move>)
    requires
        old(moves)@.no_duplicates(),
        forall|m: Move| #[trigger]
            old(moves)@.contains(m) ==> !(m is Regular && accepts_diagonal(
                *board,
                *from,
                m.target(),
            )),
    ensures
        final(moves)@.no_duplicates(),
        forall|m: Move| #[trigger]
            final(moves)@.contains(m) <==> (old(moves)@.contains(m) || (m is Regular
                && accepts_diagonal(*board, *from, m.target()))),
{
    walk_ray(board, from, 1, 1, moves);
    walk_ray(board, from, -1, -1, moves);
    walk_ray(board, from, -1, 1, moves);
    walk_ray(board, from, 1, -1, moves);
    proof {
        assert forall|m: Move| #[trigger]
            moves@.contains(m) <==> (old(moves)@.contains(m) || (m is Regular && accepts_diagonal(
                *board,
                *from,
                m.target(),
            ))) by {
            lemma_coordinate_same(*from, m.target());
        }
    }
}

/// Every move of a queen on `from`, each once.
pub fn all_moves(board: &Board, from: &Coordinate) -> (moves: Vec<Move>)
    ensures
        moves@.no_duplicates(),
        forall|m: Move| #[trigger] moves@.contains(m) <==> outcome(*board, *from, m) is Ok,
{
    let mut moves: Vec<Move> = Vec::new();
    add_straight(board, from, &mut moves);
    proof {
        assert forall|m: Move| #[trigger] moves@.contains(m) implies !(m is Regular
            && accepts_diagonal(*board, *from, m.target())) by {
            lemma_coordinate_same(*from, m.target());
        }
    }
    add_diagonal(board, from, &mut moves);
    moves
}

/// Every move of a rook on `from`, each once: down, up, right and left as far
/// as the first piece.
pub fn all_moves_straight(board: &Board, from: &Coordinate) -> (moves: Vec<Move>)
    ensures
        moves@.no_duplicates(),
        forall|m: Move| #[trigger]
            moves@.contains(m) <==> (m is Regular && accepts_straight(*board, *from, m.target())),
{
    let mut moves: Vec<Move> = Vec::new();
    add_straight(board, from, &mut moves);
    moves
}

/// Every move of a bishop on `from`, each once: along the four diagonals as
/// far as the first piece.
pub fn all_moves_diagonal(board: &Board, from: &Coordinate) -> (moves: Vec<Move>)
    ensures
        moves@.no_duplicates(),
        forall|m: Move| #[trigger]
            moves@.contains(m) <==> (m is Regular && accepts_diagonal(*board, *from, m.target())),
{
    let mut moves: Vec<Move> = Vec::new();
    add_diagonal(board, from, &mut moves);
    moves
}

/// Moves the queen on `from` as `a_move` asks, if its rule allows.
pub fn move_piece(board: &Board, from: &Coordinate, a_move: &Move) -> (r: Result<Board, MoveError>)
    ensures
        r == outcome(*board, *from, *a_move),
{
    match a_move {
        Move::Promotion(_, _) => Err(MoveError::IllegalMove),
        Move::Regular(to) => {
            proof {
                lemma_coordinate_same(*from, *to);
            }
            if *from == *to {
                return Err(MoveError::IllegalMove);
            }
            if let TileContent::Piece(piece) = board.get_tile(to) {
                if piece.player == board.turn {
                    return Err(MoveError::IllegalMove);
                }
            }
            proof {
                use_type_invariant(from);
                use_type_invariant(to);
            }
            if is_straight(from, to) {
                if piece_between_straight(board, from, to) {
                    return Err(MoveError::IllegalMove);
                }
            } else if is_diagonal(from, to) {
                if piece_between_diagonal(board, from, to) {
                    return Err(MoveError::IllegalMove);
                }
            } else {
                return Err(MoveError::IllegalMove);
            }
            let mut new_board = board.turned();
            new_board.move_tile(from, to);
            Ok(new_board)
        },
    }
}

/// Whether the two squares share a column or a row.
pub fn is_straight(from: &Coordinate, to: &Coordinate) -> (r: bool)
    ensures
        r == straight(*from, *to),
{
    let (from_x, from_y) = from.values();
    let (to_x, to_y) = to.values();
    from_x == to_x || from_y == to_y
}

/// Whether the two squares are as many columns apart as rows.
pub fn is_diagonal(from: &Coordinate, to: &Coordinate) -> (r: bool)
    ensures
        r == diagonal(*from, *to),
{
    let (from_x, from_y) = from.values();
    let (to_x, to_y) = to.values();
    axis_gap(from_x, to_x) == axis_gap(from_y, to_y)
}

/// The distance between two values of an axis.
pub(crate) fn axis_gap(a: usize, b: usize) -> (r: usize)
    ensures
        r == gap(a as int, b as int),
{
    if a < b {
        b - a
    } else {
        a - b
    }
}

/// Whether one of the first `k - 1` squares from `from` in direction
/// `(dx, dy)` holds a piece.
fn line_blocked(board: &Board, from: &Coordinate, dx: i8, dy: i8, k: usize) -> (r: bool)
    requires
        -1 <= dx <= 1,
        -1 <= dy <= 1,
        k <= 8,
        k <= 1 || (0 <= step(from.col(), dx as int, k - 1) < 8 && 0 <= step(
            from.row(),
            dy as int,
            k - 1,
        ) < 8),
    ensures
        r == !line_clear(*board, from.col(), from.row(), dx as int, dy as int, k as int),
{
    let (from_x, from_y) = from.values();
    let mut x: i8 = from_x as i8 + dx;
    let mut y: i8 = from_y as i8 + dy;
    let mut j: usize = 1;
    while j < k
        invariant
            -1 <= dx <= 1,
            -1 <= dy <= 1,
            k <= 8,
            from.on_board(),
            k <= 1 || (0 <= step(from.col(), dx as int, k - 1) < 8 && 0 <= step(
                from.row(),
                dy as int,
                k - 1,
            ) < 8),
            1 <= j,
            j <= k || k == 0,
            x == step(from.col(), dx as int, j as int),
            y == step(from.row(), dy as int, j as int),
            line_clear(*board, from.col(), from.row(), dx as int, dy as int, j as int),
        decreases k - j,
    {
        let coord = Coordinate::at(x as usize, y as usize);
        match board.get_tile(&coord) {
            TileContent::Empty => {},
            TileContent::Piece(_) => {
                assert(!(board.tile(
                    step(from.col(), dx as int, j as int),
                    step(from.row(), dy as int, j as int),
                ) is Empty));
                return true;
            },
        }
        x = x + dx;
        y = y + dy;
        j = j + 1;
    }
    false
}

/// The direction on an axis from `a` to `b`.
fn axis_toward(a: usize, b: usize) -> (r: i8)
    ensures
        r == toward(a as int, b as int),
{
    if a < b {
        1
    } else if a > b {
        -1
    } else {
        0
    }
}

/// Whether a piece stands strictly between the two squares, looked for along
/// the column where they share one, and else along the row of `from`.
pub fn piece_between_straight(board: &Board, from: &Coordinate, to: &Coordinate) -> (r: bool)
    ensures
        r == blocked_straight(*board, *from, *to),
{
    let (from_x, from_y) = from.values();
    let (to_x, to_y) = to.values();
    if from_x == to_x {
        line_blocked(board, from, 0, axis_toward(from_y, to_y), axis_gap(from_y, to_y))
    } else {
        line_blocked(board, from, axis_toward(from_x, to_x), 0, axis_gap(from_x, to_x))
    }
}

/// Whether a piece stands on the diagonal strictly between the two squares.
pub fn piece_between_diagonal(board: &Board, from: &Coordinate, to: &Coordinate) -> (r: bool)
    requires
        diagonal_walk_on_board(*from, *to),
    ensures
        r == blocked_diagonal(*board, *from, *to),
{
    let (from_x, from_y) = from.values();
    let (to_x, to_y) = to.values();
    let steps = axis_gap(from_x, to_x);
    let delta_x: i8 = if from_x > to_x {
        -1
    } else {
        1
    };
    let delta_y: i8 = if from_y > to_y {
        -1
    } else {
        1
    };
    line_blocked(board, from, delta_x, delta_y, steps)
}

} // verus!
