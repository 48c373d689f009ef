use termchess::draw::colors::{get_background_color_at, BoardHighlight, PromptColors};
use termchess::draw::game_render::{
    compose_prompt, execute_intent, format_prompt, highlight_move, prompt_marks, CommandError,
    MoveHint,
};
use termchess::logic::basic::{Coordinate, Player};
use termchess::logic::intent::{Intent, PartialCoordinate};
use termchess::logic::board::{Board, TileContent};
use termchess::logic::game::{Game, GameState};
use termchess::logic::pieces::{MoveError, Piece, PieceType};

fn c(x: usize, y: usize) -> Coordinate {
    Coordinate::try_new(x, y).unwrap()
}

fn white(piece_type: PieceType, moved: bool) -> TileContent {
    TileContent::Piece(Piece {
        player: Player::White,
        piece_type,
        moved,
    })
}

#[test]
fn standard_board() {
    let board = Board::default();
    assert_eq!(board.turn, Player::White);
    assert_eq!(board.en_passant, None);
    assert_eq!(
        *board.get_tile(&c(3, 0)),
        TileContent::from_letter('q')
    );
    assert_eq!(*board.get_tile(&c(4, 0)), TileContent::from_letter('k'));
    assert_eq!(*board.get_tile(&c(3, 7)), TileContent::from_letter('Q'));
    assert_eq!(*board.get_tile(&c(4, 7)), TileContent::from_letter('K'));
    assert_eq!(*board.get_tile(&c(0, 7)), TileContent::from_letter('R'));
    assert_eq!(*board.get_tile(&c(6, 0)), TileContent::from_letter('n'));
    for x in 0..8 {
        assert_eq!(*board.get_tile(&c(x, 1)), TileContent::from_letter('p'));
        assert_eq!(*board.get_tile(&c(x, 6)), TileContent::from_letter('P'));
        for y in 2..6 {
            assert_eq!(*board.get_tile(&c(x, y)), TileContent::Empty);
        }
    }
    assert!(!board.is_player_on_check(&Player::White));
    assert!(!board.is_player_on_check(&Player::Black));
    assert!(!board.is_current_player_checkmate());
}

#[test]
fn turned_flips_turn_and_clears_en_passant() {
    let mut board = Board::default();
    board.en_passant = Some(c(4, 4));
    let turned = board.turned();
    assert_eq!(turned.turn, Player::Black);
    assert_eq!(turned.en_passant, None);
    assert_eq!(turned.tiles, board.tiles);
    let back = turned.turned();
    assert_eq!(back.turn, Player::White);
    assert_eq!(back.en_passant, None);
}

#[test]
fn tile_writers() {
    let mut board = Board::default();
    board.move_tile(&c(4, 6), &c(4, 4));
    assert_eq!(*board.get_tile(&c(4, 6)), TileContent::Empty);
    assert_eq!(*board.get_tile(&c(4, 4)), white(PieceType::Pawn, true));
    board.clear_tile(&c(4, 4));
    assert_eq!(*board.get_tile(&c(4, 4)), TileContent::Empty);
    board.set_tile(&c(2, 3), white(PieceType::Queen, false));
    assert_eq!(*board.get_tile(&c(2, 3)), white(PieceType::Queen, false));
    assert_eq!(*board.get_tile(&c(3, 2)), TileContent::Empty);
    // A tile moved onto itself stays, marked as moved.
    board.move_tile(&c(2, 3), &c(2, 3));
    assert_eq!(*board.get_tile(&c(2, 3)), white(PieceType::Queen, true));
    assert_eq!(board.turn, Player::White);
}

#[test]
fn pawn_e2_to_e4() {
    let mut game = Game::default();
    assert_eq!(game.state, GameState::WaitMove(false));
    assert_eq!(game.move_piece(&c(4, 6), &c(4, 4)), Ok(()));
    assert_eq!(*game.board.get_tile(&c(4, 6)), TileContent::Empty);
    assert_eq!(*game.board.get_tile(&c(4, 4)), white(PieceType::Pawn, true));
    assert_eq!(game.board.en_passant, Some(c(4, 4)));
    assert_eq!(game.board.turn, Player::Black);
    assert_eq!(game.state, GameState::WaitMove(false));
}

#[test]
fn en_passant_only_for_adjacent_pawns() {
    let mut game = Game::default();
    game.move_piece(&c(4, 6), &c(4, 4)).unwrap();
    game.move_piece(&c(3, 1), &c(3, 3)).unwrap();
    assert_eq!(game.board.en_passant, Some(c(3, 3)));
    // The white pawn on E4 stands a row behind the black pawn on D5.
    assert!(!game.can_move(&c(4, 4), &c(3, 2)));
    assert!(!game.can_move(&c(4, 4), &c(5, 2)));
    assert!(!game.can_move(&c(4, 4), &c(5, 3)));
    // It may take the pawn on D5 itself.
    assert!(game.can_move(&c(4, 4), &c(3, 3)));
    game.move_piece(&c(7, 6), &c(7, 5)).unwrap();
    assert_eq!(game.board.en_passant, None);
    assert!(!game.can_move(&c(3, 3), &c(4, 5)));
}

#[test]
fn en_passant_lasts_one_move() {
    let mut game = Game::default();
    game.move_piece(&c(4, 6), &c(4, 4)).unwrap();
    game.move_piece(&c(0, 1), &c(0, 2)).unwrap();
    game.move_piece(&c(4, 4), &c(4, 3)).unwrap();
    game.move_piece(&c(3, 1), &c(3, 3)).unwrap();
    assert_eq!(game.board.en_passant, Some(c(3, 3)));
    assert!(game.can_move(&c(4, 3), &c(3, 2)));
    // Taken at once, the pawn on D5 leaves the board.
    {
        let mut taken = Game {
            board: game.board.clone(),
            state: GameState::WaitMove(false),
        };
        assert_eq!(taken.move_piece(&c(4, 3), &c(3, 2)), Ok(()));
        assert_eq!(*taken.board.get_tile(&c(3, 3)), TileContent::Empty);
        assert_eq!(*taken.board.get_tile(&c(4, 3)), TileContent::Empty);
        assert_eq!(*taken.board.get_tile(&c(3, 2)), white(PieceType::Pawn, true));
    }
    // After another move of each player the capture is gone.
    game.move_piece(&c(7, 6), &c(7, 5)).unwrap();
    game.move_piece(&c(7, 1), &c(7, 2)).unwrap();
    assert!(!game.can_move(&c(4, 3), &c(3, 2)));
    assert_eq!(
        game.move_piece(&c(4, 3), &c(3, 2)),
        Err(MoveError::IllegalMove)
    );
}

#[test]
fn fools_mate() {
    let mut game = Game::default();
    game.move_piece(&c(5, 6), &c(5, 5)).unwrap();
    game.move_piece(&c(4, 1), &c(4, 3)).unwrap();
    game.move_piece(&c(6, 6), &c(6, 4)).unwrap();
    assert_eq!(game.state, GameState::WaitMove(false));
    game.move_piece(&c(3, 0), &c(7, 4)).unwrap();
    assert_eq!(game.state, GameState::CheckMate);
    assert_eq!(game.board.turn, Player::White);
    assert!(game.board.is_player_on_check(&Player::White));
    assert!(game.board.is_current_player_checkmate());
    let tiles = game.board.tiles;
    for from_x in 0..8 {
        for from_y in 0..8 {
            for to_x in 0..8 {
                for to_y in 0..8 {
                    assert!(game
                        .move_piece(&c(from_x, from_y), &c(to_x, to_y))
                        .is_err());
                }
            }
        }
    }
    assert_eq!(
        game.move_piece(&c(0, 6), &c(0, 5)),
        Err(MoveError::InvalidCommand)
    );
    assert_eq!(
        game.move_piece_with_promotion(&c(0, 6), &c(0, 5), &PieceType::Queen),
        Err(MoveError::InvalidCommand)
    );
    assert_eq!(game.state, GameState::CheckMate);
    assert_eq!(game.board.tiles, tiles);
}

#[test]
fn check_is_reported_without_mate() {
    let mut game = Game::default();
    game.move_piece(&c(4, 6), &c(4, 4)).unwrap();
    game.move_piece(&c(5, 1), &c(5, 2)).unwrap();
    // The white queen goes to H5 and attacks the black king on E8.
    game.move_piece(&c(3, 7), &c(7, 3)).unwrap();
    assert_eq!(game.state, GameState::WaitMove(true));
    assert!(game.board.is_player_on_check(&Player::Black));
    assert!(!game.board.is_player_on_check(&Player::White));
    assert!(!game.board.is_current_player_checkmate());
    // A move that leaves the check standing is refused.
    assert_eq!(
        game.move_piece(&c(0, 1), &c(0, 2)),
        Err(MoveError::IsCheck)
    );
    assert!(!game.can_move(&c(0, 1), &c(0, 2)));
    // The pawn on G7 may step between.
    assert!(game.can_move(&c(6, 1), &c(6, 2)));
    assert_eq!(game.move_piece(&c(6, 1), &c(6, 2)), Ok(()));
    assert_eq!(game.state, GameState::WaitMove(false));
}

fn promotion_game() -> Game {
    Game {
        board: Board::from_configuration([
            [' ', ' ', ' ', ' ', ' ', ' ', ' ', ' '],
            ['P', ' ', ' ', ' ', ' ', ' ', ' ', ' '],
            [' ', ' ', ' ', ' ', ' ', ' ', ' ', 'k'],
            [' ', ' ', ' ', ' ', ' ', ' ', ' ', ' '],
            [' ', ' ', ' ', ' ', ' ', ' ', ' ', ' '],
            [' ', ' ', ' ', ' ', ' ', ' ', ' ', ' '],
            [' ', ' ', ' ', ' ', ' ', ' ', ' ', ' '],
            [' ', ' ', ' ', ' ', 'K', ' ', ' ', ' '],
        ]),
        state: GameState::WaitMove(false),
    }
}

#[test]
fn promotion_flow() {
    let mut game = promotion_game();
    let before = game.board.tiles;
    assert!(game.can_move(&c(0, 1), &c(0, 0)));
    assert_eq!(game.move_piece(&c(0, 1), &c(0, 0)), Ok(()));
    assert_eq!(game.state, GameState::SelectPromotionType(c(0, 1), c(0, 0)));
    assert_eq!(game.board.tiles, before);
    assert_eq!(game.board.turn, Player::White);
    // While a kind is awaited a move is no command.
    assert_eq!(
        game.move_piece(&c(4, 7), &c(4, 6)),
        Err(MoveError::InvalidCommand)
    );
    // Nor is a promotion of another move.
    assert_eq!(
        game.move_piece_with_promotion(&c(0, 1), &c(1, 0), &PieceType::Queen),
        Err(MoveError::InvalidCommand)
    );
    // King and pawn are no kinds to become.
    assert_eq!(
        game.move_piece_with_promotion(&c(0, 1), &c(0, 0), &PieceType::King),
        Err(MoveError::IllegalMove)
    );
    assert_eq!(
        game.move_piece_with_promotion(&c(0, 1), &c(0, 0), &PieceType::Pawn),
        Err(MoveError::IllegalMove)
    );
    assert_eq!(game.state, GameState::SelectPromotionType(c(0, 1), c(0, 0)));
    assert_eq!(
        game.move_piece_with_promotion(&c(0, 1), &c(0, 0), &PieceType::Queen),
        Ok(())
    );
    assert_eq!(*game.board.get_tile(&c(0, 0)), white(PieceType::Queen, true));
    assert_eq!(*game.board.get_tile(&c(0, 1)), TileContent::Empty);
    assert_eq!(game.state, GameState::WaitMove(false));
    assert_eq!(game.board.turn, Player::Black);
}

#[test]
fn promotion_outside_its_state_is_refused() {
    let mut game = promotion_game();
    assert_eq!(
        game.move_piece_with_promotion(&c(0, 1), &c(0, 0), &PieceType::Queen),
        Err(MoveError::InvalidCommand)
    );
    assert_eq!(game.state, GameState::WaitMove(false));
    assert_eq!(*game.board.get_tile(&c(0, 1)), white(PieceType::Pawn, false));
}

#[test]
fn moves_from_empty_or_foreign_squares_are_illegal() {
    let mut game = Game::default();
    assert!(!game.can_move_from(&c(4, 4)));
    assert!(!game.can_move_from(&c(4, 1)));
    assert!(game.can_move_from(&c(4, 6)));
    assert!(!game.can_move(&c(4, 4), &c(4, 3)));
    assert!(!game.can_move(&c(4, 1), &c(4, 2)));
    assert_eq!(
        game.move_piece(&c(4, 4), &c(4, 3)),
        Err(MoveError::IllegalMove)
    );
    assert_eq!(
        game.move_piece(&c(4, 1), &c(4, 2)),
        Err(MoveError::IllegalMove)
    );
    assert_eq!(game.board.turn, Player::White);
    assert_eq!(game.state, GameState::WaitMove(false));
}

#[test]
fn pinned_piece_may_not_leave() {
    let mut game = Game {
        board: Board::from_configuration([
            ['k', ' ', ' ', ' ', 'r', ' ', ' ', ' '],
            [' ', ' ', ' ', ' ', ' ', ' ', ' ', ' '],
            [' ', ' ', ' ', ' ', ' ', ' ', ' ', ' '],
            [' ', ' ', ' ', ' ', ' ', ' ', ' ', ' '],
            [' ', ' ', ' ', ' ', ' ', ' ', ' ', ' '],
            [' ', ' ', ' ', ' ', ' ', ' ', ' ', ' '],
            [' ', ' ', ' ', ' ', 'R', ' ', ' ', ' '],
            [' ', ' ', ' ', ' ', 'K', ' ', ' ', ' '],
        ]),
        state: GameState::WaitMove(false),
    };
    let before = game.board.tiles;
    assert!(!game.can_move(&c(4, 6), &c(3, 6)));
    assert_eq!(game.move_piece(&c(4, 6), &c(3, 6)), Err(MoveError::IsCheck));
    assert_eq!(game.board.tiles, before);
    assert_eq!(game.board.turn, Player::White);
    assert_eq!(game.state, GameState::WaitMove(false));
    // Along the line of the attack the rook may go, and may take.
    assert!(game.can_move(&c(4, 6), &c(4, 3)));
    assert_eq!(game.move_piece(&c(4, 6), &c(4, 0)), Ok(()));
    assert_eq!(game.board.turn, Player::Black);
}

#[test]
fn reset_starts_anew() {
    let mut game = Game::default();
    game.move_piece(&c(4, 6), &c(4, 4)).unwrap();
    game.reset();
    assert_eq!(game.board.tiles, Board::default().tiles);
    assert_eq!(game.board.turn, Player::White);
    assert_eq!(game.board.en_passant, None);
    assert_eq!(game.state, GameState::WaitMove(false));
}

#[test]
fn a_board_without_a_king_is_not_in_check() {
    let board = Board::from_configuration([
        [' ', ' ', ' ', ' ', 'r', ' ', ' ', ' '],
        [' ', ' ', ' ', ' ', ' ', ' ', ' ', ' '],
        [' ', ' ', ' ', ' ', ' ', ' ', ' ', ' '],
        [' ', ' ', ' ', ' ', ' ', ' ', ' ', ' '],
        [' ', ' ', ' ', ' ', ' ', ' ', ' ', ' '],
        [' ', ' ', ' ', ' ', ' ', ' ', ' ', ' '],
        [' ', ' ', ' ', ' ', ' ', ' ', ' ', ' '],
        [' ', ' ', ' ', ' ', 'Q', ' ', ' ', ' '],
    ]);
    assert!(!board.is_player_on_check(&Player::White));
    assert!(!board.is_player_on_check(&Player::Black));
}

#[test]
fn commands_of_the_front_end() {
    let p = |x: usize, y: usize| PartialCoordinate::try_new(Some(x), Some(y)).unwrap();
    let mut game = Game::default();
    // Half a move is no command.
    assert_eq!(
        execute_intent(
            &mut game,
            &Intent::Move(
                Some(p(4, 6)),
                Some(PartialCoordinate::try_new(Some(4), None).unwrap())
            )
        ),
        Err(CommandError::InvalidCommand)
    );
    assert_eq!(
        execute_intent(&mut game, &Intent::Move(Some(p(4, 6)), None)),
        Err(CommandError::InvalidCommand)
    );
    assert_eq!(
        execute_intent(&mut game, &Intent::Surrender),
        Err(CommandError::InvalidCommand)
    );
    assert_eq!(
        execute_intent(&mut game, &Intent::SelectPromotionType(PieceType::Queen)),
        Err(CommandError::NotInPromotionState)
    );
    assert_eq!(
        execute_intent(&mut game, &Intent::Move(Some(p(4, 6)), Some(p(4, 3)))),
        Err(CommandError::IllegalMove)
    );
    assert_eq!(
        execute_intent(&mut game, &Intent::Move(Some(p(4, 6)), Some(p(4, 4)))),
        Ok(())
    );
    assert_eq!(game.board.turn, Player::Black);

    // Marks: Black is to move.
    let marks = highlight_move(&game, &p(4, 1), &Some(p(4, 3)));
    assert_eq!(marks.from, Some((c(4, 1), BoardHighlight::Primary)));
    assert_eq!(marks.to, Some((c(4, 3), BoardHighlight::Secondary)));
    assert_eq!(marks.hint, MoveHint::EnterMove);
    let marks = highlight_move(&game, &p(4, 1), &Some(p(4, 4)));
    assert_eq!(marks.to, Some((c(4, 4), BoardHighlight::Error)));
    assert_eq!(marks.hint, MoveHint::CannotMove(c(4, 1), c(4, 4)));
    let marks = highlight_move(&game, &p(4, 6), &Some(p(4, 5)));
    assert_eq!(marks.from, Some((c(4, 6), BoardHighlight::Error)));
    assert_eq!(marks.to, None);
    assert_eq!(marks.hint, MoveHint::CannotMoveFrom(c(4, 6)));
    let marks = highlight_move(&game, &p(4, 1), &None);
    assert_eq!(marks.from, Some((c(4, 1), BoardHighlight::Primary)));
    assert_eq!(marks.hint, MoveHint::Silent);
    let marks = highlight_move(
        &game,
        &PartialCoordinate::try_new(Some(4), None).unwrap(),
        &None,
    );
    assert_eq!(marks.from, None);

    // In the prompt the second square is marked whatever the first is.
    assert_eq!(
        prompt_marks(&game, &p(4, 6), &Some(p(4, 5))),
        (Some(BoardHighlight::Error), Some(BoardHighlight::Error))
    );
    assert_eq!(
        prompt_marks(&game, &p(4, 1), &Some(p(4, 3))),
        (Some(BoardHighlight::Primary), Some(BoardHighlight::Secondary))
    );
    assert_eq!(
        prompt_marks(&game, &p(4, 1), &None),
        (Some(BoardHighlight::Primary), None)
    );
    assert_eq!(
        prompt_marks(
            &game,
            &PartialCoordinate::try_new(Some(4), None).unwrap(),
            &Some(p(4, 3))
        ),
        (None, None)
    );

    // A check that the move would leave standing.
    let mut pinned = Game {
        board: Board::from_configuration([
            ['k', ' ', ' ', ' ', 'r', ' ', ' ', ' '],
            [' ', ' ', ' ', ' ', ' ', ' ', ' ', ' '],
            [' ', ' ', ' ', ' ', ' ', ' ', ' ', ' '],
            [' ', ' ', ' ', ' ', ' ', ' ', ' ', ' '],
            [' ', ' ', ' ', ' ', ' ', ' ', ' ', ' '],
            [' ', ' ', ' ', ' ', ' ', ' ', ' ', ' '],
            [' ', ' ', ' ', ' ', 'R', ' ', ' ', ' '],
            [' ', ' ', ' ', ' ', 'K', ' ', ' ', ' '],
        ]),
        state: GameState::WaitMove(false),
    };
    assert_eq!(
        execute_intent(&mut pinned, &Intent::Move(Some(p(4, 6)), Some(p(3, 6)))),
        Err(CommandError::Check)
    );

    // A promotion through the commands.
    let mut promoting = promotion_game();
    assert_eq!(
        execute_intent(&mut promoting, &Intent::Move(Some(p(0, 1)), Some(p(0, 0)))),
        Ok(())
    );
    assert_eq!(
        execute_intent(&mut promoting, &Intent::SelectPromotionType(PieceType::King)),
        Err(CommandError::Critical(MoveError::IllegalMove))
    );
    assert_eq!(
        execute_intent(&mut promoting, &Intent::SelectPromotionType(PieceType::Rook)),
        Ok(())
    );
    assert_eq!(*promoting.board.get_tile(&c(0, 0)), white(PieceType::Rook, true));
}

fn plain_colors() -> PromptColors {
    PromptColors {
        primary: "<p>".to_string(),
        secondary: "<s>".to_string(),
        error: "<e>".to_string(),
        dim: "<d>".to_string(),
        reset: "<0>".to_string(),
    }
}

#[test]
fn prompt_as_shown() {
    let colors = plain_colors();
    let mut game = Game::default();
    assert_eq!(compose_prompt(&game, "", &colors), "");
    assert_eq!(compose_prompt(&game, "E", &colors), "E");
    assert_eq!(compose_prompt(&game, "sur", &colors), "sur");
    assert_eq!(compose_prompt(&game, "xyz", &colors), "<e>xyz<0>");
    assert_eq!(compose_prompt(&game, "E2", &colors), "<p>E2<0><d><0>");
    assert_eq!(compose_prompt(&game, "E2E", &colors), "<p>E2<0><d><0>E");
    assert_eq!(
        compose_prompt(&game, "E2E4", &colors),
        "<p>E2<0><d><0><s>E4<0>"
    );
    assert_eq!(
        compose_prompt(&game, "E2E5", &colors),
        "<p>E2<0><d><0><e>E5<0>"
    );
    assert_eq!(
        compose_prompt(&game, "E7E5", &colors),
        "<e>E7<0><d><0><e>E5<0>"
    );
    assert_eq!(compose_prompt(&game, "E3", &colors), "<e>E3<0><d><0>");
    assert_eq!(colors.foreground_color(&BoardHighlight::Plain), "");
    assert_eq!(colors.foreground_color(&BoardHighlight::Error), "<e>");

    let mut promoting = promotion_game();
    promoting.move_piece(&c(0, 1), &c(0, 0)).unwrap();
    assert_eq!(compose_prompt(&promoting, "Q", &colors), "Q");
    assert_eq!(compose_prompt(&promoting, "A7", &colors), "<e>A7<0>");
    assert_eq!(compose_prompt(&promoting, "", &colors), "");

    game.state = GameState::CheckMate;
    assert_eq!(compose_prompt(&game, "E2E4", &colors), "<e>E2E4<0>");
    assert_eq!(compose_prompt(&game, "", &colors), "");
}

fn is_color(text: &str, code: &str) -> bool {
    text == code || text.is_empty()
}

#[test]
fn colors_of_the_terminal() {
    assert!(is_color(
        &BoardHighlight::Primary.foreground_color(),
        "\u{1b}[38;5;2m"
    ));
    assert!(is_color(
        &BoardHighlight::Secondary.foreground_color(),
        "\u{1b}[38;5;4m"
    ));
    assert!(is_color(
        &BoardHighlight::Error.foreground_color(),
        "\u{1b}[38;5;1m"
    ));
    assert_eq!(BoardHighlight::Plain.foreground_color(), "");
    assert!(is_color(
        &BoardHighlight::Primary.background_color(),
        "\u{1b}[48;5;2m"
    ));
    assert!(is_color(
        &BoardHighlight::Secondary.background_color(),
        "\u{1b}[48;5;4m"
    ));
    assert!(is_color(
        &BoardHighlight::Error.background_color(),
        "\u{1b}[48;5;1m"
    ));
    assert_eq!(BoardHighlight::Plain.background_color(), "");
    assert!(is_color(&get_background_color_at(&c(0, 0)), "\u{1b}[48;5;7m"));
    assert!(is_color(&get_background_color_at(&c(1, 0)), "\u{1b}[48;5;0m"));
    let colors = PromptColors::terminal();
    assert!(is_color(&colors.dim, "\u{1b}[38;5;8m"));
    assert_eq!(colors.reset, "\u{1b}[39m");
    assert_eq!(colors.primary, BoardHighlight::Primary.foreground_color());

    let game = Game::default();
    for line in ["", "E", "E2", "E2E4", "E7E5", "xyz", "surrender"] {
        assert_eq!(
            format_prompt(&game, line),
            compose_prompt(&game, line, &colors)
        );
    }
    assert_eq!(format_prompt(&game, "E"), "E");
    assert!(format_prompt(&game, "E2E4").contains("E2"));
    assert!(format_prompt(&game, "E2E4").ends_with("E4\u{1b}[39m"));
    assert!(format_prompt(&game, "xyz").ends_with("xyz\u{1b}[39m"));
}
