//! Players, board coordinates and the names of rows and columns.

use vstd::prelude::*;
use vstd::string::StringExecFns;
use crate::logic::board::BOARD_MAX_AXIS;
use crate::utils::ValueError;

verus! {

/// The name of the player with the white pieces.
pub const LABEL_WHITE: &'static str = "White";

/// The name of the player with the black pieces.
pub const LABEL_BLACK: &'static str = "Black";

/// The colour of a square of the board.
#[derive(Debug, Clone, Copy, PartialEq, Eq, Structural)]
pub enum FieldColor {
    White,
    Black,
}

/// One of the two players.
#[derive(Debug, Clone, Copy, PartialEq, Eq, Structural)]
pub enum Player {
    White,
    Black,
}

impl Player {
    /// The player who moves after this one.
    pub open spec fn opponent(self) -> Player {
        match self {
            Player::White => Player::Black,
            Player::Black => Player::White,
        }
    }

    /// The player's name.
    pub fn to_label(&self) -> (r: &'static str)
        ensures
            r@ == (match *self {
                Player::White => "White"@,
                Player::Black => "Black"@,
            }),
    {
        match self {
            Player::White => LABEL_WHITE,
            Player::Black => LABEL_BLACK,
        }
    }

    /// The player who moves after this one.
    pub fn other(&self) -> (r: Player)
        ensures
            r == self.opponent(),
    {
        match self {
            Player::White => Player::Black,
            Player::Black => Player::White,
        }
    }
}

/// The letter of column `x`: `A` for 0 up to `H` for 7.
pub open spec fn column_letter(x: int) -> char {
    seq!['A', 'B', 'C', 'D', 'E', 'F', 'G', 'H'][x]
}

/// The digit of row `y`: `8` for 0 down to `1` for 7, and `0` below the board.
pub open spec fn row_digit(y: int) -> char {
    if 0 <= y < 8 {
        seq!['8', '7', '6', '5', '4', '3', '2', '1'][y]
    } else {
        '0'
    }
}

/// The digit of an axis value from 0 to 7.
pub open spec fn axis_digit(v: int) -> char {
    seq!['0', '1', '2', '3', '4', '5', '6', '7'][v]
}

/// An axis value from 0 to 7 as a digit.
fn axis_to_name(v: usize) -> (r: &'static str)
    requires
        v < 8,
    ensures
        r@ == seq![axis_digit(v as int)],
{
    let name: &'static str = match v {
        0 => "0",
        1 => "1",
        2 => "2",
        3 => "3",
        4 => "4",
        5 => "5",
        6 => "6",
        _ => "7",
    };
    proof {
        reveal_strlit("0");
        reveal_strlit("1");
        reveal_strlit("2");
        reveal_strlit("3");
        reveal_strlit("4");
        reveal_strlit("5");
        reveal_strlit("6");
        reveal_strlit("7");
        assert(name@ =~= seq![axis_digit(v as int)]);
    }
    name
}

/// A square of the board: column `x` and row `y`, each in `0..8`. Row 0 is the
/// top row, where Black starts.
#[derive(Debug, Clone, Copy, PartialEq, Eq, Structural)]
pub struct Coordinate {
    x: usize,
    y: usize,
}

impl Coordinate {
    /// The column, from 0 on the left.
    pub closed spec fn col(self) -> int {
        self.x as int
    }

    /// The row, from 0 at the top.
    pub closed spec fn row(self) -> int {
        self.y as int
    }

    /// Both axes lie on the board. Every coordinate that executable code holds
    /// is on the board; a coordinate that a specification quantifies over need
    /// not be.
    pub open spec fn on_board(self) -> bool {
        0 <= self.col() < 8 && 0 <= self.row() < 8
    }

    /// Executable code holds no coordinate that is off the board.
    #[verifier::type_invariant]
    pub open spec fn inv(self) -> bool {
        self.on_board()
    }

    /// The coordinate of column `x` and row `y`, if both lie on the board.
    pub fn try_new(x: usize, y: usize) -> (r: Result<Coordinate, ValueError>)
        ensures
            r is Ok <==> x < 8 && y < 8,
            r is Ok ==> r->Ok_0.col() == x && r->Ok_0.row() == y && r->Ok_0.on_board(),
    {
        match Coordinate::try_axis_bound(x) {
            Ok(bx) => match Coordinate::try_axis_bound(y) {
                Ok(by) => Ok(Coordinate { x: bx, y: by }),
                Err(e) => Err(e),
            },
            Err(e) => Err(e),
        }
    }

    /// The coordinate of column `x` and row `y`.
    pub closed spec fn square(x: int, y: int) -> Coordinate {
        Coordinate { x: x as usize, y: y as usize }
    }

    /// The coordinate of column `x` and row `y` of the board.
    pub(crate) fn at(x: usize, y: usize) -> (r: Coordinate)
        requires
            x < 8,
            y < 8,
        ensures
            r == Coordinate::square(x as int, y as int),
            r.col() == x,
            r.row() == y,
            r.on_board(),
    {
        Coordinate { x, y }
    }

    /// The value itself, if it is a column or a row of the board.
    pub fn try_axis_bound(val: usize) -> (r: Result<usize, ValueError>)
        ensures
            r == (if val < 8 {
                Ok::<usize, ValueError>(val)
            } else {
                Err::<usize, ValueError>(ValueError)
            }),
    {
        if val <= BOARD_MAX_AXIS {
            Ok(val)
        } else {
            Err(ValueError)
        }
    }

    /// The column.
    pub fn xv(&self) -> (r: usize)
        ensures
            r == self.col(),
            r < 8,
            self.on_board(),
    {
        proof {
            use_type_invariant(self);
        }
        self.x
    }

    /// The row.
    pub fn yv(&self) -> (r: usize)
        ensures
            r == self.row(),
            r < 8,
            self.on_board(),
    {
        proof {
            use_type_invariant(self);
        }
        self.y
    }

    /// The name of the square: the column's letter, then the row's digit.
    pub fn to_field_name(&self) -> (r: String)
        ensures
            r@ == seq![column_letter(self.col()), row_digit(self.row())],
    {
        proof {
            use_type_invariant(self);
        }
        let column = column_to_name(self.x);
        let row = row_to_name(self.y);
        let name = column.concat(row.as_str());
        assert(name@ =~= seq![column_letter(self.col()), row_digit(self.row())]);
        name
    }

    /// The coordinate as text: the column and the row as numbers, in round
    /// brackets.
    pub fn to_string(&self) -> (r: String)
        ensures
            r@ == seq!['(', axis_digit(self.col()), ',', ' ', axis_digit(self.row()), ')'],
    {
        proof {
            use_type_invariant(self);
        }
        let text = String::from_str("(").concat(axis_to_name(self.x)).concat(", ").concat(
            axis_to_name(self.y),
        ).concat(")");
        proof {
            reveal_strlit("(");
            reveal_strlit(", ");
            reveal_strlit(")");
            assert(text@ =~= seq![
                '(',
                axis_digit(self.col()),
                ',',
                ' ',
                axis_digit(self.row()),
                ')',
            ]);
        }
        text
    }

    /// White where the sum of column and row is even, Black where it is odd.
    pub fn get_field_color(&self) -> (r: FieldColor)
        ensures
            r == (if (self.col() + self.row()) % 2 == 0 {
                FieldColor::White
            } else {
                FieldColor::Black
            }),
    {
        proof {
            use_type_invariant(self);
        }
        if (self.x + self.y) % 2 == 0 {
            FieldColor::White
        } else {
            FieldColor::Black
        }
    }

    /// The column and the row.
    pub fn values(&self) -> (r: (usize, usize))
        ensures
            r.0 == self.col(),
            r.1 == self.row(),
            r.0 < 8,
            r.1 < 8,
            self.on_board(),
    {
        proof {
            use_type_invariant(self);
        }
        (self.x, self.y)
    }
}

/// Two coordinates with the same column and the same row are equal.
pub proof fn lemma_coordinate_same(a: Coordinate, b: Coordinate)
    ensures
        (a.col() == b.col() && a.row() == b.row()) <==> a == b,
{
}

/// On the board, the coordinate of a column and a row has that column and that
/// row.
pub proof fn lemma_square(x: int, y: int)
    requires
        0 <= x < 8,
        0 <= y < 8,
    ensures
        Coordinate::square(x, y).col() == x,
        Coordinate::square(x, y).row() == y,
        Coordinate::square(x, y).on_board(),
{
}

/// The name of row `y` as the players read it: the board's size less `y`, and
/// `0` from the board's size on.
pub fn row_to_name(y: usize) -> (r: String)
    ensures
        r@ == seq![row_digit(y as int)],
{
    let name: &'static str = match y {
        0 => "8",
        1 => "7",
        2 => "6",
        3 => "5",
        4 => "4",
        5 => "3",
        6 => "2",
        7 => "1",
        _ => "0",
    };
    proof {
        reveal_strlit("8");
        reveal_strlit("7");
        reveal_strlit("6");
        reveal_strlit("5");
        reveal_strlit("4");
        reveal_strlit("3");
        reveal_strlit("2");
        reveal_strlit("1");
        reveal_strlit("0");
    }
    let r = String::from_str(name);
    assert(r@ =~= seq![row_digit(y as int)]);
    r
}

/// The name of column `x`, a single capital letter.
pub fn column_to_name(x: usize) -> (r: String)
    requires
        x < 8,
    ensures
        r@ == seq![column_letter(x as int)],
{
    let name: &'static str = match x {
        0 => "A",
        1 => "B",
        2 => "C",
        3 => "D",
        4 => "E",
        5 => "F",
        6 => "G",
        _ => "H",
    };
    proof {
        reveal_strlit("A");
        reveal_strlit("B");
        reveal_strlit("C");
        reveal_strlit("D");
        reveal_strlit("E");
        reveal_strlit("F");
        reveal_strlit("G");
        reveal_strlit("H");
    }
    let r = String::from_str(name);
    assert(r@ =~= seq![column_letter(x as int)]);
    r
}

} // verus!
