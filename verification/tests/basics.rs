use termchess::draw::prompt::{Prompt, PromptKey};
use termchess::draw::terminal::move_cursor;
use termchess::logic::basic::{column_to_name, row_to_name, Coordinate, FieldColor, Player};
use termchess::logic::game::GameState;
use termchess::logic::intent::{Intent, PartialCoordinate};
use termchess::logic::pieces::{MoveError, PieceType};
use termchess::utils::{DiscreetUnwrap, ValueError};

fn c(x: usize, y: usize) -> Coordinate {
    Coordinate::try_new(x, y).unwrap()
}

#[test]
fn coordinate_bounds() {
    assert!(Coordinate::try_new(0, 0).is_ok());
    assert!(Coordinate::try_new(7, 7).is_ok());
    assert_eq!(Coordinate::try_new(8, 0), Err(ValueError));
    assert_eq!(Coordinate::try_new(0, 8), Err(ValueError));
    assert_eq!(Coordinate::try_new(usize::MAX, 3), Err(ValueError));
    assert_eq!(Coordinate::try_axis_bound(7), Ok(7));
    assert_eq!(Coordinate::try_axis_bound(8), Err(ValueError));
    let e2 = c(4, 6);
    assert_eq!(e2.xv(), 4);
    assert_eq!(e2.yv(), 6);
    assert_eq!(e2.values(), (4, 6));
}

#[test]
fn field_names() {
    assert_eq!(c(4, 6).to_field_name(), "E2");
    assert_eq!(c(0, 0).to_field_name(), "A8");
    assert_eq!(c(7, 7).to_field_name(), "H1");
    assert_eq!(c(3, 3).to_field_name(), "D5");
    assert_eq!(column_to_name(0), "A");
    assert_eq!(column_to_name(7), "H");
    assert_eq!(row_to_name(0), "8");
    assert_eq!(row_to_name(7), "1");
    assert_eq!(row_to_name(8), "0");
    assert_eq!(row_to_name(100), "0");
}

#[test]
fn texts_of_values() {
    assert_eq!(c(4, 6).to_string(), "(4, 6)");
    assert_eq!(c(0, 7).to_string(), "(0, 7)");
    assert_eq!(ValueError.to_string(), "ValueError");
    assert_eq!(MoveError::IsCheck.to_string(), "MoveError");
    assert_eq!(MoveError::IllegalMove.to_string(), "MoveError");
}

#[test]
fn field_colors() {
    assert_eq!(c(0, 0).get_field_color(), FieldColor::White);
    assert_eq!(c(1, 0).get_field_color(), FieldColor::Black);
    assert_eq!(c(0, 1).get_field_color(), FieldColor::Black);
    assert_eq!(c(7, 7).get_field_color(), FieldColor::White);
    assert_eq!(c(4, 6).get_field_color(), FieldColor::White);
}

#[test]
fn players() {
    assert_eq!(Player::White.other(), Player::Black);
    assert_eq!(Player::Black.other(), Player::White);
    assert_eq!(Player::White.to_label(), "White");
    assert_eq!(Player::Black.to_label(), "Black");
}

#[test]
fn prompt_holds_sixteen_characters() {
    let mut prompt = Prompt::default();
    assert_eq!(prompt.get_line(), "");
    prompt.consume_key(&PromptKey::Char('E'));
    prompt.consume_key(&PromptKey::Char('2'));
    prompt.consume_key(&PromptKey::Other);
    assert_eq!(prompt.get_line(), "E2");
    prompt.consume_key(&PromptKey::Backspace);
    assert_eq!(prompt.get_line(), "E");
    prompt.consume_key(&PromptKey::Backspace);
    prompt.consume_key(&PromptKey::Backspace);
    assert_eq!(prompt.get_line(), "");
    for _ in 0..20 {
        prompt.add_char(&'x');
    }
    assert_eq!(prompt.get_line(), "xxxxxxxxxxxxxxxx");
    prompt.remove_last_char();
    prompt.add_char(&'\u{2654}');
    assert_eq!(prompt.get_line(), "xxxxxxxxxxxxxxx\u{2654}");
    prompt.clear();
    assert_eq!(prompt.get_line(), "");
}

#[test]
fn partial_coordinates() {
    assert!(PartialCoordinate::try_new(Some(8), None).is_err());
    assert!(PartialCoordinate::try_new(None, Some(9)).is_err());
    let column_only = PartialCoordinate::try_new(Some(3), None).unwrap();
    assert_eq!(column_only.xv(), Some(3));
    assert_eq!(column_only.yv(), None);
    assert!(column_only.to_complete().is_none());
    let both = PartialCoordinate::try_new(Some(3), Some(5)).unwrap();
    assert_eq!(both.to_complete(), Some(c(3, 5)));
    assert!(PartialCoordinate::try_new(None, None)
        .unwrap()
        .to_complete()
        .is_none());
}

fn squares(intent: &Intent) -> (Option<(Option<usize>, Option<usize>)>, Option<(Option<usize>, Option<usize>)>) {
    match intent {
        Intent::Move(a, b) => (
            a.as_ref().map(|p| (p.xv(), p.yv())),
            b.as_ref().map(|p| (p.xv(), p.yv())),
        ),
        _ => panic!("not a move"),
    }
}

#[test]
fn intents_while_waiting_for_a_move() {
    let state = GameState::WaitMove(false);
    let parse = |cmd: &str| Intent::from_partial_command(&state, cmd);
    assert_eq!(squares(&parse("E")), (Some((Some(4), None)), None));
    assert_eq!(squares(&parse("E2")), (Some((Some(4), Some(6))), None));
    assert_eq!(
        squares(&parse("E2E")),
        (Some((Some(4), Some(6))), Some((Some(4), None)))
    );
    assert_eq!(
        squares(&parse("E2E4")),
        (Some((Some(4), Some(6))), Some((Some(4), Some(4))))
    );
    assert_eq!(
        squares(&parse("A8H1")),
        (Some((Some(0), Some(0))), Some((Some(7), Some(7))))
    );
    assert!(matches!(parse("E2E4E"), Intent::Invalid));
    assert!(matches!(parse("E9"), Intent::Invalid));
    assert!(matches!(parse("I2"), Intent::Invalid));
    assert!(matches!(parse("e2"), Intent::Invalid));
    assert!(matches!(parse("2E"), Intent::Invalid));
    assert!(matches!(parse("surrender"), Intent::Surrender));
    assert!(matches!(parse("sur"), Intent::Surrender));
    assert!(matches!(parse("s"), Intent::Surrender));
    assert!(matches!(parse(""), Intent::Surrender));
    assert!(matches!(parse("surrenders"), Intent::Surrender));
    assert!(matches!(parse("surx"), Intent::Invalid));
    assert!(matches!(parse("Q"), Intent::Invalid));
}

#[test]
fn intents_in_other_states() {
    let state = GameState::SelectPromotionType(c(0, 1), c(0, 0));
    assert!(matches!(
        Intent::from_partial_command(&state, "Q"),
        Intent::SelectPromotionType(PieceType::Queen)
    ));
    assert!(matches!(
        Intent::from_partial_command(&state, "Nx"),
        Intent::SelectPromotionType(PieceType::Knight)
    ));
    assert!(matches!(
        Intent::from_partial_command(&state, "K"),
        Intent::SelectPromotionType(PieceType::King)
    ));
    assert!(matches!(
        Intent::from_partial_command(&state, "q"),
        Intent::Invalid
    ));
    assert!(matches!(
        Intent::from_partial_command(&state, "E2"),
        Intent::Invalid
    ));
    assert!(matches!(
        Intent::from_partial_command(&state, ""),
        Intent::Empty
    ));
    assert!(matches!(
        Intent::from_partial_command(&GameState::CheckMate, ""),
        Intent::Empty
    ));
    assert!(matches!(
        Intent::from_partial_command(&GameState::CheckMate, "E2E4"),
        Intent::Invalid
    ));
    assert!(matches!(
        Intent::from_partial_command(&GameState::CheckMate, "surrender"),
        Intent::Invalid
    ));
}

#[test]
fn cursor_texts() {
    assert_eq!(move_cursor(0, 0), "\u{1b}[1;1H");
    assert_eq!(move_cursor(4, 9), "\u{1b}[10;5H");
    assert_eq!(move_cursor(65534, 0), "\u{1b}[1;65535H");
}

#[test]
fn discreet_unwrap_gives_the_value() {
    let held: Result<u8, ValueError> = Ok(7);
    assert_eq!(held.duwrp(), 7);
    assert_eq!(DiscreetUnwrap::duwrp(Coordinate::try_new(1, 2)), c(1, 2));
}
