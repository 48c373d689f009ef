//! Texts that move the terminal's cursor.

use vstd::prelude::*;

verus! {

/// The character of a decimal digit.
pub open spec fn digit(d: nat) -> char {
    seq!['0', '1', '2', '3', '4', '5', '6', '7', '8', '9'][d as int]
}

/// A number written in decimal digits, without leading zeros.
pub open spec fn decimal(n: nat) -> Seq<char>
    decreases n,
{
    if n < 10 {
        seq![digit(n)]
    } else {
        decimal(n / 10).push(digit(n % 10))
    }
}

/// The escape sequence that puts the cursor in column `x` of line `y`, both
/// counted from 1: escape, `[`, the line, `;`, the column, `H`.
pub open spec fn goto_text(x: u16, y: u16) -> Seq<char> {
    seq!['\u{1b}', '['] + decimal(y as nat) + seq![';'] + decimal(x as nat) + seq!['H']
}

/// `String::from` of termion for a `termion::cursor::Goto`: the escape
/// sequence with the line and the column in decimal digits.
#[verifier::external_body]
fn goto_sequence(x: u16, y: u16) -> (text: String)
    ensures
        text@ == goto_text(x, y),
{
    String::from(termion::cursor::Goto(x, y))
}

/// The text that puts the cursor on the cell in column `x` of line `y`, both
/// counted from 0 as the front end counts them.
pub fn move_cursor(x: usize, y: usize) -> (text: String)
    requires
        x < 0xffff,
        y < 0xffff,
    ensures
        text@ == goto_text((x + 1) as u16, (y + 1) as u16),
{
    let column: u16 = (x + 1) as u16;
    let line: u16 = (y + 1) as u16;
    goto_sequence(column, line)
}

} // verus!
