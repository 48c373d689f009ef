//! What a player means by the line typed so far.

use vstd::prelude::*;
use vstd::string::StrSliceExecFns;
use crate::logic::basic::Coordinate;
use crate::logic::game::GameState;
use crate::logic::pieces::PieceType;
use crate::utils::ValueError;

verus! {

/// A coordinate of which the column, or the column and the row, are known.
pub struct PartialCoordinate {
    x: Option<usize>,
    y: Option<usize>,
}

/// What the line typed so far asks for.
pub enum Intent {
    /// A move between the two squares, as far as they are typed.
    Move(Option<PartialCoordinate>, Option<PartialCoordinate>),
    /// The kind that a pawn is to become.
    SelectPromotionType(PieceType),
    Surrender,
    /// The line means nothing in the state of the game.
    Invalid,
    /// The line is empty.
    Empty,
}

/// The column that a letter from `A` to `H` names.
pub open spec fn column_of(letter: char) -> Option<int> {
    if 'A' as int <= letter as int <= 'H' as int {
        Some(letter as int - 'A' as int)
    } else {
        None
    }
}

/// The row that a digit from `1` to `8` names: row 7 for `1`, row 0 for `8`.
pub open spec fn row_of(letter: char) -> Option<int> {
    if '1' as int <= letter as int <= '8' as int {
        Some(7 - (letter as int - '1' as int))
    } else {
        None
    }
}

/// The line is the start of a move: one to four characters, a column's letter
/// and a row's digit in turn.
pub open spec fn is_move(cmd: Seq<char>) -> bool {
    &&& 1 <= cmd.len() <= 4
    &&& forall|i: int|
        0 <= i < cmd.len() ==> if i % 2 == 0 {
            column_of(#[trigger] cmd[i]) is Some
        } else {
            row_of(cmd[i]) is Some
        }
}

/// The square that the two characters of the line from place `at` on name,
/// where they name one.
pub open spec fn typed_square(cmd: Seq<char>, at: int) -> Option<Coordinate> {
    if at + 1 < cmd.len() && column_of(cmd[at]) is Some && row_of(cmd[at + 1]) is Some {
        Some(Coordinate::square(column_of(cmd[at])->Some_0, row_of(cmd[at + 1])->Some_0))
    } else {
        None
    }
}

/// The line asks for nothing that the state of the game knows.
pub open spec fn is_invalid(state: GameState, cmd: Seq<char>) -> bool {
    match state {
        GameState::WaitMove(_) => !is_move(cmd) && !agrees(cmd, "surrender"@),
        GameState::SelectPromotionType(_, _) => cmd.len() > 0 && PieceType::of_letter(cmd[0])
            is None,
        GameState::CheckMate => cmd.len() > 0,
    }
}

/// Each character of the line is the character of `target` at the same
/// place, as far as `target` goes.
pub open spec fn agrees(cmd: Seq<char>, target: Seq<char>) -> bool {
    forall|i: int| 0 <= i < cmd.len() && i < target.len() ==> #[trigger] cmd[i] == target[i]
}

impl PartialCoordinate {
    #[verifier::type_invariant]
    closed spec fn inv(self) -> bool {
        &&& self.x is Some ==> self.x->Some_0 < 8
        &&& self.y is Some ==> self.y->Some_0 < 8
    }

    /// The column, where it is known.
    pub closed spec fn col(self) -> Option<int> {
        match self.x {
            Some(x) => Some(x as int),
            None => None,
        }
    }

    /// The row, where it is known.
    pub closed spec fn row(self) -> Option<int> {
        match self.y {
            Some(y) => Some(y as int),
            None => None,
        }
    }

    /// The coordinate, where both column and row are known.
    pub open spec fn whole(self) -> Option<Coordinate> {
        match (self.col(), self.row()) {
            (Some(x), Some(y)) => Some(Coordinate::square(x, y)),
            _ => None,
        }
    }

    /// This is the coordinate that the characters of `cmd` from place `at` on
    /// name: a column, and a row where the line goes on.
    pub open spec fn reads(self, cmd: Seq<char>, at: int) -> bool {
        &&& self.col() == column_of(cmd[at])
        &&& self.row() == (if at + 1 < cmd.len() {
            row_of(cmd[at + 1])
        } else {
            None
        })
    }

    /// A partial coordinate of what is known, if that lies on the board.
    pub fn try_new(xo: Option<usize>, yo: Option<usize>) -> (r: Result<PartialCoordinate, ValueError>)
        ensures
            r is Ok <==> (xo is Some ==> xo->Some_0 < 8) && (yo is Some ==> yo->Some_0 < 8),
            r is Ok ==> r->Ok_0.col() == (match xo {
                Some(x) => Some(x as int),
                None => None,
            }) && r->Ok_0.row() == (match yo {
                Some(y) => Some(y as int),
                None => None,
            }),
    {
        let x = match xo {
            Some(value) => match Coordinate::try_axis_bound(value) {
                Ok(bound) => Some(bound),
                Err(e) => {
                    return Err(e);
                },
            },
            None => None,
        };
        let y = match yo {
            Some(value) => match Coordinate::try_axis_bound(value) {
                Ok(bound) => Some(bound),
                Err(e) => {
                    return Err(e);
                },
            },
            None => None,
        };
        Ok(PartialCoordinate { x, y })
    }

    /// The column, where it is known.
    pub fn xv(&self) -> (r: Option<usize>)
        ensures
            self.col() == (match r {
                Some(x) => Some(x as int),
                None => None,
            }),
            r is Some ==> r->Some_0 < 8,
    {
        proof {
            use_type_invariant(self);
        }
        self.x
    }

    /// The row, where it is known.
    pub fn yv(&self) -> (r: Option<usize>)
        ensures
            self.row() == (match r {
                Some(y) => Some(y as int),
                None => None,
            }),
            r is Some ==> r->Some_0 < 8,
    {
        proof {
            use_type_invariant(self);
        }
        self.y
    }

    /// The coordinate, where both column and row are known.
    pub fn to_complete(&self) -> (r: Option<Coordinate>)
        ensures
            r == self.whole(),
            r is Some <==> self.col() is Some && self.row() is Some,
            r is Some ==> Some(r->Some_0.col()) == self.col() && Some(r->Some_0.row())
                == self.row(),
    {
        proof {
            use_type_invariant(self);
        }
        match (self.x, self.y) {
            (Some(actual_x), Some(actual_y)) => Some(Coordinate::at(actual_x, actual_y)),
            _ => None,
        }
    }
}

impl Intent {
    /// This is what the line `cmd` asks for while the game waits for a move:
    /// a move where the line is the start of one; else giving up, where the
    /// line, be it empty, agrees with the word for it; else nothing valid.
    pub open spec fn means_while_waiting(self, cmd: Seq<char>) -> bool {
        if is_move(cmd) {
            match self {
                Intent::Move(Some(first), second) => first.reads(cmd, 0) && (if cmd.len() >= 3 {
                    second is Some && second->Some_0.reads(cmd, 2)
                } else {
                    second is None
                }),
                _ => false,
            }
        } else if agrees(cmd, "surrender"@) {
            self is Surrender
        } else {
            self is Invalid
        }
    }

    /// This is what the line `cmd` asks for while the game waits for the kind
    /// that a pawn is to become: the kind that the first letter names.
    pub open spec fn means_while_promoting(self, cmd: Seq<char>) -> bool {
        if cmd.len() == 0 {
            self is Empty
        } else {
            match PieceType::of_letter(cmd[0]) {
                Some(kind) => self matches Intent::SelectPromotionType(k) && k == kind,
                None => self is Invalid,
            }
        }
    }

    /// This is what the line `cmd` asks for in the state `state`. After
    /// checkmate no line asks for anything.
    pub open spec fn means(self, state: GameState, cmd: Seq<char>) -> bool {
        match state {
            GameState::WaitMove(_) => self.means_while_waiting(cmd),
            GameState::SelectPromotionType(_, _) => self.means_while_promoting(cmd),
            GameState::CheckMate => if cmd.len() == 0 {
                self is Empty
            } else {
                self is Invalid
            },
        }
    }

    /// What the line typed so far asks for, in the state of the game.
    pub fn from_partial_command(state: &GameState, cmd: &str) -> (r: Intent)
        ensures
            r.means(*state, cmd@),
    {
        match state {
            GameState::WaitMove(_) => {
                match Intent::try_parse_move(cmd) {
                    Ok(Some(intent)) => {
                        return intent;
                    },
                    Ok(None) => (),
                    Err(_) => (),
                };
                match Intent::parse_surrender(cmd) {
                    Some(intent) => {
                        return intent;
                    },
                    None => (),
                };
            },
            GameState::SelectPromotionType(_, _) => {
                match Intent::try_parse_select_promotion_type(cmd) {
                    Ok(Some(intent)) => {
                        return intent;
                    },
                    Ok(None) => (),
                    Err(_) => (),
                };
            },
            GameState::CheckMate => (),
        }
        if cmd.unicode_len() == 0 {
            Intent::Empty
        } else {
            Intent::Invalid
        }
    }

    /// The kind that the first letter of the line names, if the line has one.
    fn try_parse_select_promotion_type(cmd: &str) -> (r: Result<Option<Intent>, ValueError>)
        ensures
            match r {
                Ok(Some(intent)) => cmd@.len() > 0 && intent.means_while_promoting(cmd@),
                Ok(None) => cmd@.len() == 0,
                Err(_) => cmd@.len() > 0 && PieceType::of_letter(cmd@[0]) is None,
            },
    {
        if cmd.unicode_len() == 0 {
            return Ok(None);
        }
        match PieceType::from_letter(cmd.get_char(0)) {
            Ok(kind) => Ok(Some(Intent::SelectPromotionType(kind))),
            Err(e) => Err(e),
        }
    }

    /// The move that the line is the start of, if it is the start of one.
    fn try_parse_move(cmd: &str) -> (r: Result<Option<Intent>, ValueError>)
        ensures
            match r {
                Ok(Some(intent)) => is_move(cmd@) && intent.means_while_waiting(cmd@),
                Ok(None) => cmd@.len() == 0,
                Err(_) => cmd@.len() > 0 && !is_move(cmd@),
            },
    {
        let length = cmd.unicode_len();
        let first_coord = match coordinate_from_chars(cmd, 0) {
            Ok(coord) => coord,
            Err(e) => {
                assert(!is_move(cmd@)) by {
                    if is_move(cmd@) {
                        assert(column_of(cmd@[0]) is Some);
                        if cmd@.len() > 1 {
                            assert(row_of(cmd@[1]) is Some);
                        }
                    }
                }
                return Err(e);
            },
        };
        match first_coord {
            Some(first) => {
                let second_coord = match coordinate_from_chars(cmd, 2) {
                    Ok(coord) => coord,
                    Err(e) => {
                        assert(!is_move(cmd@)) by {
                            if is_move(cmd@) {
                                assert(column_of(cmd@[2]) is Some);
                                if cmd@.len() > 3 {
                                    assert(row_of(cmd@[3]) is Some);
                                }
                            }
                        }
                        return Err(e);
                    },
                };
                if length <= 4 {
                    assert(is_move(cmd@)) by {
                        assert forall|i: int| 0 <= i < cmd@.len() implies if i % 2 == 0 {
                            column_of(#[trigger] cmd@[i]) is Some
                        } else {
                            row_of(cmd@[i]) is Some
                        } by {}
                    }
                    Ok(Some(Intent::Move(Some(first), second_coord)))
                } else {
                    Err(ValueError)
                }
            },
            None => Ok(None),
        }
    }

    /// Giving up, where the line agrees with the word for it as far as both go.
    fn parse_surrender(cmd: &str) -> (r: Option<Intent>)
        ensures
            r is Some <==> agrees(cmd@, "surrender"@),
            r is Some ==> r->Some_0 is Surrender,
    {
        if prefixes_from_chars(cmd, "surrender") {
            Some(Intent::Surrender)
        } else {
            None
        }
    }
}

/// The coordinate that the two characters of the line from place `at` on
/// name, as far as the line goes: none where the line ends before, an error
/// where a character names no column or no row.
fn coordinate_from_chars(cmd: &str, at: usize) -> (r: Result<Option<PartialCoordinate>, ValueError>)
    requires
        at <= 2,
    ensures
        match r {
            Ok(Some(coord)) => at < cmd@.len() && coord.reads(cmd@, at as int) && coord.col()
                is Some && (at + 1 < cmd@.len() ==> coord.row() is Some),
            Ok(None) => cmd@.len() <= at,
            Err(_) => at < cmd@.len() && (column_of(cmd@[at as int]) is None || (at + 1
                < cmd@.len() && row_of(cmd@[at + 1]) is None)),
        },
{
    let length = cmd.unicode_len();
    let column = if at < length {
        match char_to_column(cmd.get_char(at)) {
            Ok(x) => Some(x),
            Err(e) => {
                return Err(e);
            },
        }
    } else {
        None
    };
    let row = if at < length && at + 1 < length {
        match char_to_row(cmd.get_char(at + 1)) {
            Ok(y) => Some(y),
            Err(e) => {
                return Err(e);
            },
        }
    } else {
        None
    };
    match (column, row) {
        (None, None) => Ok(None),
        (c, r) => match PartialCoordinate::try_new(c, r) {
            Ok(coord) => Ok(Some(coord)),
            Err(e) => Err(e),
        },
    }
}

/// Whether each character of the line is the character of `target_str` at
/// the same place, as far as both go.
fn prefixes_from_chars(cmd: &str, target_str: &str) -> (r: bool)
    ensures
        r == agrees(cmd@, target_str@),
{
    let length = cmd.unicode_len();
    let target_length = target_str.unicode_len();
    let mut i: usize = 0;
    while i < length && i < target_length
        invariant
            length == cmd@.len(),
            target_length == target_str@.len(),
            forall|j: int| 0 <= j < i ==> #[trigger] cmd@[j] == target_str@[j],
        decreases length - i,
    {
        if cmd.get_char(i) != target_str.get_char(i) {
            return false;
        }
        i = i + 1;
    }
    true
}

/// The column that a letter from `A` to `H` names.
fn char_to_column(letter: char) -> (r: Result<usize, ValueError>)
    ensures
        r is Ok <==> column_of(letter) is Some,
        r is Ok ==> Some(r->Ok_0 as int) == column_of(letter) && r->Ok_0 < 8,
{
    let code = letter as u32;
    if 65 <= code && code <= 72 {
        Ok((code - 65) as usize)
    } else {
        Err(ValueError)
    }
}

/// The row that a digit from `1` to `8` names.
fn char_to_row(letter: char) -> (r: Result<usize, ValueError>)
    ensures
        r is Ok <==> row_of(letter) is Some,
        r is Ok ==> Some(r->Ok_0 as int) == row_of(letter) && r->Ok_0 < 8,
{
    let code = letter as u32;
    if 49 <= code && code <= 56 {
        Ok(7 - (code - 49) as usize)
    } else {
        Err(ValueError)
    }
}

} // verus!
