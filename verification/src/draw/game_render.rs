//! What a command does to the game, and which squares a half-typed move
//! marks on the board.

use vstd::prelude::*;
use vstd::string::{StrSliceExecFns, StringExecFns};
use crate::draw::colors::{BoardHighlight, PromptColors};
use crate::logic::basic::{Coordinate, column_letter, lemma_square, row_digit};
use crate::logic::game::{Game, GameState};
use crate::logic::intent::{Intent, PartialCoordinate, is_invalid, is_move, typed_square};
use crate::logic::pieces::{MoveError, PieceType};

verus! {

/// Why a command was not carried out.
#[derive(Debug, Clone, Copy, PartialEq, Eq, Structural)]
pub enum CommandError {
    /// The line is no complete command.
    InvalidCommand,
    /// A kind was named while no pawn waits for one.
    NotInPromotionState,
    /// The move would leave the mover's king in check.
    Check,
    /// The move is against the rules.
    IllegalMove,
    /// The promotion failed, for the reason given.
    Critical(MoveError),
}

/// What the front end says about a half-typed move.
#[derive(Debug, Clone, Copy, PartialEq, Eq, Structural)]
pub enum MoveHint {
    /// Nothing new.
    Silent,
    /// The move is possible; enter carries it out.
    EnterMove,
    /// Nothing of the player to move stands on the square.
    CannotMoveFrom(Coordinate),
    /// What stands on the first square may not go to the second.
    CannotMove(Coordinate, Coordinate),
}

/// The marks of a half-typed move: the square to go from, the square to go
/// to, and what to say. The mark of the second square is laid over that of
/// the first.
#[derive(Debug, Clone, Copy, PartialEq, Eq)]
pub struct MoveMarks {
    pub from: Option<(Coordinate, BoardHighlight)>,
    pub to: Option<(Coordinate, BoardHighlight)>,
    pub hint: MoveHint,
}

/// What a move command returns, as the front end reports it.
pub open spec fn move_report(result: Result<(), MoveError>) -> Result<(), CommandError> {
    match result {
        Ok(_) => Ok(()),
        Err(MoveError::IsCheck) => Err(CommandError::Check),
        Err(_) => Err(CommandError::IllegalMove),
    }
}

/// What a promotion command returns, as the front end reports it.
pub open spec fn promotion_report(result: Result<(), MoveError>) -> Result<(), CommandError> {
    match result {
        Ok(_) => Ok(()),
        Err(e) => Err(CommandError::Critical(e)),
    }
}

/// The game after the command `intent`, and what the command returns: a move
/// needs both squares whole, a kind needs a pawn that waits for one, and
/// nothing else is a command.
pub open spec fn after_intent(game: Game, intent: Intent) -> (Game, Result<(), CommandError>) {
    match intent {
        Intent::Move(Some(a), Some(b)) => match (a.whole(), b.whole()) {
            (Some(from), Some(to)) => (
                game.after_move(from, to).0,
                move_report(game.after_move(from, to).1),
            ),
            _ => (game, Err(CommandError::InvalidCommand)),
        },
        Intent::SelectPromotionType(kind) => match game.state {
            GameState::SelectPromotionType(from, to) => (
                game.after_promotion(from, to, kind).0,
                promotion_report(game.after_promotion(from, to, kind).1),
            ),
            _ => (game, Err(CommandError::NotInPromotionState)),
        },
        _ => (game, Err(CommandError::InvalidCommand)),
    }
}

/// The marks of the move from `from` to `maybe_to`, as far as the two are
/// typed.
pub open spec fn marks_of(game: Game, from: PartialCoordinate, maybe_to: Option<PartialCoordinate>)
    -> MoveMarks {
    match from.whole() {
        None => MoveMarks { from: None, to: None, hint: MoveHint::Silent },
        Some(coord_from) => if !game.may_move_from(coord_from) {
            MoveMarks {
                from: Some((coord_from, BoardHighlight::Error)),
                to: None,
                hint: MoveHint::CannotMoveFrom(coord_from),
            }
        } else {
            match maybe_to {
                Some(to) => match to.whole() {
                    Some(coord_to) => if Game::may_move(game.board, coord_from, coord_to) {
                        MoveMarks {
                            from: Some((coord_from, BoardHighlight::Primary)),
                            to: Some((coord_to, BoardHighlight::Secondary)),
                            hint: MoveHint::EnterMove,
                        }
                    } else {
                        MoveMarks {
                            from: Some((coord_from, BoardHighlight::Primary)),
                            to: Some((coord_to, BoardHighlight::Error)),
                            hint: MoveHint::CannotMove(coord_from, coord_to),
                        }
                    },
                    None => MoveMarks {
                        from: Some((coord_from, BoardHighlight::Primary)),
                        to: None,
                        hint: MoveHint::Silent,
                    },
                },
                None => MoveMarks {
                    from: Some((coord_from, BoardHighlight::Primary)),
                    to: None,
                    hint: MoveHint::Silent,
                },
            }
        },
    }
}

/// How the two squares of a half-typed move are shown in the prompt, as far
/// as they are whole: the first as the start of a move or as an error, the
/// second as a move that the game allows or as an error.
pub open spec fn prompt_marks_of(
    game: Game,
    from: PartialCoordinate,
    maybe_to: Option<PartialCoordinate>,
) -> (Option<BoardHighlight>, Option<BoardHighlight>) {
    match from.whole() {
        None => (None, None),
        Some(coord_from) => (
            Some(
                if game.may_move_from(coord_from) {
                    BoardHighlight::Primary
                } else {
                    BoardHighlight::Error
                },
            ),
            match maybe_to {
                Some(to) => match to.whole() {
                    Some(coord_to) => Some(
                        if Game::may_move(game.board, coord_from, coord_to) {
                            BoardHighlight::Secondary
                        } else {
                            BoardHighlight::Error
                        },
                    ),
                    None => None,
                },
                None => None,
            },
        ),
    }
}

/// How the two squares of a half-typed move are shown in the prompt.
pub fn prompt_marks(game: &Game, from: &PartialCoordinate, maybe_to: &Option<PartialCoordinate>)
    -> (r: (Option<BoardHighlight>, Option<BoardHighlight>))
    ensures
        r == prompt_marks_of(*game, *from, *maybe_to),
{
    if let Some(coord_from) = from.to_complete() {
        let first = if game.can_move_from(&coord_from) {
            BoardHighlight::Primary
        } else {
            BoardHighlight::Error
        };
        let second = if let Some(to) = maybe_to {
            if let Some(coord_to) = to.to_complete() {
                if game.can_move(&coord_from, &coord_to) {
                    Some(BoardHighlight::Secondary)
                } else {
                    Some(BoardHighlight::Error)
                }
            } else {
                None
            }
        } else {
            None
        };
        (Some(first), second)
    } else {
        (None, None)
    }
}

/// The name of a square as the players type it.
pub open spec fn field_name(c: Coordinate) -> Seq<char> {
    seq![column_letter(c.col()), row_digit(c.row())]
}

/// A square's name in the colour of its mark, and back to the terminal's own
/// colour.
pub open spec fn marked_name(colors: PromptColors, highlight: BoardHighlight, c: Coordinate) -> Seq<
    char,
> {
    colors.of(highlight) + field_name(c) + colors.reset@
}

/// The line as the prompt shows it. A line that asks for nothing valid is
/// shown as an error. Of a move the first square, once it is whole, is shown
/// as the start of a move or as an error, and the second, once it is whole,
/// as a move that the game allows or as an error; what follows a whole first
/// square is shown as typed until the second is whole. Any other line is
/// shown as typed.
pub open spec fn prompt_text(game: Game, line: Seq<char>, colors: PromptColors) -> Seq<char> {
    if is_invalid(game.state, line) {
        colors.error@ + line + colors.reset@
    } else if game.state is WaitMove && is_move(line) && line.len() >= 2 {
        let from = typed_square(line, 0)->Some_0;
        let first = marked_name(
            colors,
            if game.may_move_from(from) {
                BoardHighlight::Primary
            } else {
                BoardHighlight::Error
            },
            from,
        );
        let second = if line.len() == 4 {
            let to = typed_square(line, 2)->Some_0;
            marked_name(
                colors,
                if Game::may_move(game.board, from, to) {
                    BoardHighlight::Secondary
                } else {
                    BoardHighlight::Error
                },
                to,
            )
        } else {
            line.subrange(2, line.len() as int)
        };
        first + colors.dim@ + colors.reset@ + second
    } else {
        line
    }
}

/// The line as the prompt shows it, in the colours of the terminal.
pub fn format_prompt(game: &Game, line: &str) -> (r: String)
    ensures
        exists|colors: PromptColors|
            colors.of_terminal() && r@ == #[trigger] prompt_text(*game, line@, colors),
{
    let colors = PromptColors::terminal();
    compose_prompt(game, line, &colors)
}

/// The line as the prompt shows it, with the colours that `colors` holds.
pub fn compose_prompt(game: &Game, line: &str, colors: &PromptColors) -> (r: String)
    ensures
        r@ == prompt_text(*game, line@, *colors),
{
    let intent = Intent::from_partial_command(&game.state, line);
    match &intent {
        Intent::Invalid => {
            let mut text = String::from_str(colors.error.as_str());
            text.append(line);
            text.append(colors.reset.as_str());
            text
        },
        Intent::Move(Some(a), maybe_b) => {
            let (mark_a, mark_b) = prompt_marks(game, a, maybe_b);
            match (a.to_complete(), mark_a) {
                (Some(coord_a), Some(highlight)) => {
                    proof {
                        lemma_typed(line@, 0, *a);
                    }
                    let field_name_a = coord_a.to_field_name();
                    let mut text = String::from_str(colors.foreground_color(&highlight));
                    text.append(field_name_a.as_str());
                    text.append(colors.reset.as_str());
                    text.append(colors.dim.as_str());
                    text.append(colors.reset.as_str());
                    let whole_b = match maybe_b {
                        Some(b) => b.to_complete(),
                        None => None,
                    };
                    match (whole_b, mark_b) {
                        (Some(coord_b), Some(highlight_b)) => {
                            proof {
                                lemma_typed(line@, 2, maybe_b->Some_0);
                            }
                            text.append(colors.foreground_color(&highlight_b));
                            text.append(coord_b.to_field_name().as_str());
                            text.append(colors.reset.as_str());
                            assert(text@ =~= prompt_text(*game, line@, *colors));
                        },
                        _ => {
                            let length = line.unicode_len();
                            text.append(line.substring_char(2, length));
                            assert(text@ =~= prompt_text(*game, line@, *colors));
                        },
                    }
                    text
                },
                _ => String::from_str(line),
            }
        },
        _ => String::from_str(line),
    }
}

/// A coordinate that reads the line from place `at` on, and is whole, is the
/// square that the two characters there name.
proof fn lemma_typed(line: Seq<char>, at: int, typed: PartialCoordinate)
    requires
        0 <= at < line.len(),
        typed.reads(line, at),
        typed.whole() is Some,
    ensures
        typed.whole() == typed_square(line, at),
        typed_square(line, at)->Some_0.on_board(),
        typed_square(line, at)->Some_0.col() == typed.col()->Some_0,
        typed_square(line, at)->Some_0.row() == typed.row()->Some_0,
{
    lemma_square(typed.col()->Some_0, typed.row()->Some_0);
}

/// Carries out the command `intent` on the game.
pub fn execute_intent(game: &mut Game, intent: &Intent) -> (r: Result<(), CommandError>)
    ensures
        *final(game) == after_intent(*old(game), *intent).0,
        r == after_intent(*old(game), *intent).1,
{
    match intent {
        Intent::Move(Some(a), Some(b)) => execute_move(game, a, b),
        Intent::SelectPromotionType(piece_type) => execute_promotion(game, piece_type),
        _ => Err(CommandError::InvalidCommand),
    }
}

/// Names the kind that the waiting pawn becomes.
pub fn execute_promotion(game: &mut Game, piece_type: &PieceType) -> (r: Result<(), CommandError>)
    ensures
        *final(game) == after_intent(*old(game), Intent::SelectPromotionType(*piece_type)).0,
        r == after_intent(*old(game), Intent::SelectPromotionType(*piece_type)).1,
{
    match game.state {
        GameState::SelectPromotionType(from, to) => {
            match game.move_piece_with_promotion(&from, &to, piece_type) {
                Ok(_) => Ok(()),
                Err(err) => Err(CommandError::Critical(err)),
            }
        },
        _ => Err(CommandError::NotInPromotionState),
    }
}

/// Moves from `a` to `b`, where both are whole.
pub fn execute_move(game: &mut Game, a: &PartialCoordinate, b: &PartialCoordinate) -> (r: Result<
    (),
    CommandError,
>)
    ensures
        *final(game) == after_intent(*old(game), Intent::Move(Some(*a), Some(*b))).0,
        r == after_intent(*old(game), Intent::Move(Some(*a), Some(*b))).1,
{
    if let (Some(from), Some(to)) = (a.to_complete(), b.to_complete()) {
        match game.move_piece(&from, &to) {
            Ok(_) => Ok(()),
            Err(MoveError::IsCheck) => Err(CommandError::Check),
            Err(_) => Err(CommandError::IllegalMove),
        }
    } else {
        Err(CommandError::InvalidCommand)
    }
}

/// The marks of the move from `from` to `maybe_to`, as far as the two are
/// typed: the first square is marked as soon as it is whole, as the start of
/// a move or as an error; the second as a move that the game allows or as an
/// error.
pub fn highlight_move(game: &Game, from: &PartialCoordinate, maybe_to: &Option<PartialCoordinate>)
    -> (r: MoveMarks)
    ensures
        r == marks_of(*game, *from, *maybe_to),
{
    let mut marks = MoveMarks { from: None, to: None, hint: MoveHint::Silent };
    if let Some(coord_from) = from.to_complete() {
        if game.can_move_from(&coord_from) {
            marks.from = Some((coord_from, BoardHighlight::Primary));
            if let Some(to) = maybe_to {
                if let Some(coord_to) = to.to_complete() {
                    if game.can_move(&coord_from, &coord_to) {
                        marks.to = Some((coord_to, BoardHighlight::Secondary));
                        marks.hint = MoveHint::EnterMove;
                    } else {
                        marks.to = Some((coord_to, BoardHighlight::Error));
                        marks.hint = MoveHint::CannotMove(coord_from, coord_to);
                    }
                }
            }
        } else {
            marks.hint = MoveHint::CannotMoveFrom(coord_from);
            marks.from = Some((coord_from, BoardHighlight::Error));
        }
    }
    marks
}

} // verus!
