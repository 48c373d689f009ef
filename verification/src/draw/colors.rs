//! The colours of the terminal, as termion writes them.

use vstd::prelude::*;
use crate::logic::basic::{Coordinate, FieldColor};

verus! {

/// `text` is what termion writes for the colour whose escape sequence is
/// `code`: the sequence, or nothing where colours are switched off for the
/// process.
pub open spec fn color_text(code: Seq<char>, text: Seq<char>) -> bool {
    text == code || text == Seq::<char>::empty()
}

/// How a square is marked on the board.
#[derive(Debug, Clone, Copy, PartialEq, Eq, Structural)]
pub enum BoardHighlight {
    Plain,
    Primary,
    Secondary,
    Error,
}

/// `to_string` of termion's `Fg(Green)`: green for what is written next, or
/// nothing where colours are switched off.
#[verifier::external_body]
fn fg_green() -> (text: String)
    ensures
        color_text("\u{1b}[38;5;2m"@, text@),
{
    termion::color::Fg(termion::color::Green).to_string()
}

/// `to_string` of termion's `Fg(Blue)`: blue for what is written next, or
/// nothing where colours are switched off.
#[verifier::external_body]
fn fg_blue() -> (text: String)
    ensures
        color_text("\u{1b}[38;5;4m"@, text@),
{
    termion::color::Fg(termion::color::Blue).to_string()
}

/// `to_string` of termion's `Fg(Red)`: red for what is written next, or
/// nothing where colours are switched off.
#[verifier::external_body]
fn fg_red() -> (text: String)
    ensures
        color_text("\u{1b}[38;5;1m"@, text@),
{
    termion::color::Fg(termion::color::Red).to_string()
}

/// `to_string` of termion's `Fg(LightBlack)`: grey for what is written next,
/// or nothing where colours are switched off.
#[verifier::external_body]
fn fg_light_black() -> (text: String)
    ensures
        color_text("\u{1b}[38;5;8m"@, text@),
{
    termion::color::Fg(termion::color::LightBlack).to_string()
}

/// `to_string` of termion's `Fg(Reset)`: the terminal's own colour for what
/// is written next.
#[verifier::external_body]
fn fg_reset() -> (text: String)
    ensures
        text@ == "\u{1b}[39m"@,
{
    termion::color::Fg(termion::color::Reset).to_string()
}

/// `to_string` of termion's `Bg(Green)`: a green ground for what is written
/// next, or nothing where colours are switched off.
#[verifier::external_body]
fn bg_green() -> (text: String)
    ensures
        color_text("\u{1b}[48;5;2m"@, text@),
{
    termion::color::Bg(termion::color::Green).to_string()
}

/// `to_string` of termion's `Bg(Blue)`: a blue ground for what is written
/// next, or nothing where colours are switched off.
#[verifier::external_body]
fn bg_blue() -> (text: String)
    ensures
        color_text("\u{1b}[48;5;4m"@, text@),
{
    termion::color::Bg(termion::color::Blue).to_string()
}

/// `to_string` of termion's `Bg(Red)`: a red ground for what is written
/// next, or nothing where colours are switched off.
#[verifier::external_body]
fn bg_red() -> (text: String)
    ensures
        color_text("\u{1b}[48;5;1m"@, text@),
{
    termion::color::Bg(termion::color::Red).to_string()
}

/// `to_string` of termion's `Bg(White)`: a white ground for what is written
/// next, or nothing where colours are switched off.
#[verifier::external_body]
fn bg_white() -> (text: String)
    ensures
        color_text("\u{1b}[48;5;7m"@, text@),
{
    termion::color::Bg(termion::color::White).to_string()
}

/// `to_string` of termion's `Bg(Black)`: a black ground for what is written
/// next, or nothing where colours are switched off.
#[verifier::external_body]
fn bg_black() -> (text: String)
    ensures
        color_text("\u{1b}[48;5;0m"@, text@),
{
    termion::color::Bg(termion::color::Black).to_string()
}

impl BoardHighlight {
    /// The escape sequence of the colour in which the mark writes.
    pub open spec fn foreground_code(self) -> Seq<char> {
        match self {
            BoardHighlight::Primary => "\u{1b}[38;5;2m"@,
            BoardHighlight::Secondary => "\u{1b}[38;5;4m"@,
            BoardHighlight::Error => "\u{1b}[38;5;1m"@,
            BoardHighlight::Plain => Seq::<char>::empty(),
        }
    }

    /// The escape sequence of the ground on which the mark writes.
    pub open spec fn background_code(self) -> Seq<char> {
        match self {
            BoardHighlight::Primary => "\u{1b}[48;5;2m"@,
            BoardHighlight::Secondary => "\u{1b}[48;5;4m"@,
            BoardHighlight::Error => "\u{1b}[48;5;1m"@,
            BoardHighlight::Plain => Seq::<char>::empty(),
        }
    }

    /// The text that switches to the ground of the mark: green for the start
    /// of a move, blue for its end, red for an error, nothing for no mark.
    pub fn background_color(&self) -> (r: String)
        ensures
            color_text(self.background_code(), r@),
    {
        match self {
            BoardHighlight::Primary => bg_green(),
            BoardHighlight::Secondary => bg_blue(),
            BoardHighlight::Error => bg_red(),
            BoardHighlight::Plain => String::new(),
        }
    }

    /// The text that switches to the colour of the mark: green for the start
    /// of a move, blue for its end, red for an error, nothing for no mark.
    pub fn foreground_color(&self) -> (r: String)
        ensures
            color_text(self.foreground_code(), r@),
    {
        match self {
            BoardHighlight::Primary => fg_green(),
            BoardHighlight::Secondary => fg_blue(),
            BoardHighlight::Error => fg_red(),
            BoardHighlight::Plain => String::new(),
        }
    }
}

/// The escape sequence of the ground of a square.
pub open spec fn field_code(color: FieldColor) -> Seq<char> {
    match color {
        FieldColor::White => "\u{1b}[48;5;7m"@,
        FieldColor::Black => "\u{1b}[48;5;0m"@,
    }
}

/// The text that switches to the ground of the square at `coordinate`: white
/// or black, as the square is.
pub fn get_background_color_at(coordinate: &Coordinate) -> (r: String)
    ensures
        color_text(
            field_code(
                if (coordinate.col() + coordinate.row()) % 2 == 0 {
                    FieldColor::White
                } else {
                    FieldColor::Black
                },
            ),
            r@,
        ),
{
    match coordinate.get_field_color() {
        FieldColor::White => bg_white(),
        FieldColor::Black => bg_black(),
    }
}

/// The texts that switch the colour of what the terminal writes next.
pub struct PromptColors {
    /// For the square that a move starts from.
    pub primary: String,
    /// For the square that a move goes to.
    pub secondary: String,
    /// For what is wrong.
    pub error: String,
    /// For what the player has yet to type.
    pub dim: String,
    /// Back to the terminal's own colour.
    pub reset: String,
}

impl PromptColors {
    /// The text that switches to the colour of a mark.
    pub open spec fn of(self, highlight: BoardHighlight) -> Seq<char> {
        match highlight {
            BoardHighlight::Primary => self.primary@,
            BoardHighlight::Secondary => self.secondary@,
            BoardHighlight::Error => self.error@,
            BoardHighlight::Plain => Seq::<char>::empty(),
        }
    }

    /// These are the colours as termion writes them: each the escape sequence
    /// of its colour, or nothing where colours are switched off.
    pub open spec fn of_terminal(self) -> bool {
        &&& color_text(BoardHighlight::Primary.foreground_code(), self.primary@)
        &&& color_text(BoardHighlight::Secondary.foreground_code(), self.secondary@)
        &&& color_text(BoardHighlight::Error.foreground_code(), self.error@)
        &&& color_text("\u{1b}[38;5;8m"@, self.dim@)
        &&& self.reset@ == "\u{1b}[39m"@
    }

    /// The colours as termion writes them.
    pub fn terminal() -> (r: PromptColors)
        ensures
            r.of_terminal(),
    {
        PromptColors {
            primary: BoardHighlight::Primary.foreground_color(),
            secondary: BoardHighlight::Secondary.foreground_color(),
            error: BoardHighlight::Error.foreground_color(),
            dim: fg_light_black(),
            reset: fg_reset(),
        }
    }

    /// The text that switches to the colour of a mark.
    pub fn foreground_color(&self, highlight: &BoardHighlight) -> (r: &str)
        ensures
            r@ == self.of(*highlight),
    {
        match highlight {
            BoardHighlight::Primary => self.primary.as_str(),
            BoardHighlight::Secondary => self.secondary.as_str(),
            BoardHighlight::Error => self.error.as_str(),
            BoardHighlight::Plain => {
                proof {
                    reveal_strlit("");
                    assert(""@ =~= Seq::<char>::empty());
                }
                ""
            },
        }
    }
}

} // verus!
