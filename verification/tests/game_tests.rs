use ttt::BoardIndex;
use ttt::Game;
use ttt::Sym;

fn idx(v: u8) -> BoardIndex {
    BoardIndex::new(v).expect("test index must be valid")
}

#[test]
fn play_succeeds_once_then_position_is_full() {
    let mut game = Game::default();
    let at = idx(4);
    assert!(game.play_turn(at).is_ok());
    let before = *game.board().get();
    let err = game.play_turn(at).unwrap_err();
    assert_eq!(u8::from(err.index()), 4);
    assert_eq!(*game.board().get(), before);
}

#[test]
fn every_cell_accepts_exactly_one_move_from_empty() {
    for v in 0u8..9u8 {
        let mut game = Game::default();
        assert!(game.play_turn(idx(v)).is_ok());
        assert!(game.play_turn(idx(v)).is_err());
    }
}

#[test]
fn turn_toggles_after_one_successful_move() {
    let mut game = Game::default();
    assert_eq!(game.turn(), Sym::Cross);
    game.play_turn(idx(0)).unwrap();
    assert_eq!(game.turn(), Sym::Circle);
}

#[test]
fn turn_keeps_when_the_move_is_rejected() {
    let mut game = Game::default();
    game.play_turn(idx(0)).unwrap();
    assert_eq!(game.turn(), Sym::Circle);
    assert!(game.play_turn(idx(0)).is_err());
    assert_eq!(game.turn(), Sym::Circle);
}

#[test]
fn empty_board_has_no_winner() {
    let game = Game::default();
    assert_eq!(game.has_winner(), None);
}

#[test]
fn top_row_of_crosses_wins_and_not_before() {
    let mut game = Game::default();
    for v in [0u8, 3, 1, 4] {
        game.play_turn(idx(v)).unwrap();
        assert_eq!(game.has_winner(), None);
    }
    game.play_turn(idx(2)).unwrap();
    assert_eq!(game.has_winner(), Some(Sym::Cross));
}

#[test]
fn top_row_of_circles_wins() {
    let mut game = Game::default();
    for v in [3u8, 0, 4, 1, 8] {
        game.play_turn(idx(v)).unwrap();
        assert_eq!(game.has_winner(), None);
    }
    game.play_turn(idx(2)).unwrap();
    assert_eq!(game.has_winner(), Some(Sym::Circle));
}

#[test]
fn first_column_wins() {
    let mut game = Game::default();
    for v in [0u8, 1, 3, 2] {
        game.play_turn(idx(v)).unwrap();
        assert_eq!(game.has_winner(), None);
    }
    game.play_turn(idx(6)).unwrap();
    assert_eq!(game.has_winner(), Some(Sym::Cross));
}

#[test]
fn main_diagonal_wins() {
    let mut game = Game::default();
    for v in [0u8, 1, 4, 2] {
        game.play_turn(idx(v)).unwrap();
        assert_eq!(game.has_winner(), None);
    }
    game.play_turn(idx(8)).unwrap();
    assert_eq!(game.has_winner(), Some(Sym::Cross));
}

#[test]
fn anti_diagonal_wins() {
    let mut game = Game::default();
    for v in [2u8, 0, 4, 1] {
        game.play_turn(idx(v)).unwrap();
        assert_eq!(game.has_winner(), None);
    }
    game.play_turn(idx(6)).unwrap();
    assert_eq!(game.has_winner(), Some(Sym::Cross));
}

#[test]
fn full_board_without_line_reports_no_winner() {
    let mut game = Game::default();
    // X takes 0, 2, 3, 7, 8 and O takes 1, 4, 5, 6: no line is completed.
    for v in [0u8, 1, 2, 4, 3, 5, 7, 6, 8] {
        game.play_turn(idx(v)).unwrap();
        assert_eq!(game.has_winner(), None);
    }
    for v in 0u8..9u8 {
        assert!(game.play_turn(idx(v)).is_err());
    }
}

#[test]
fn index_conversion_fails_before_the_game_is_touched() {
    let mut game = Game::default();
    assert!(BoardIndex::new(9).is_err());
    assert!(BoardIndex::new(200).is_err());
    // No move was possible, so the game is still fresh.
    assert_eq!(*game.board().get(), [None; 9]);
    assert!(game.play_turn(idx(0)).is_ok());
}

#[test]
fn renders_empty_board_as_blank_grid() {
    let game = Game::default();
    assert_eq!(
        game.render(),
        "   |   |   \n-----------\n   |   |   \n-----------\n   |   |   "
    );
}

#[test]
fn renders_symbols_in_their_cells() {
    let mut game = Game::default();
    game.play_turn(idx(0)).unwrap();
    game.play_turn(idx(4)).unwrap();
    assert_eq!(
        game.render(),
        " X |   |   \n-----------\n   | O |   \n-----------\n   |   |   "
    );
}

#[test]
fn position_full_error_message_names_the_cell() {
    let mut game = Game::default();
    game.play_turn(idx(5)).unwrap();
    let err = game.play_turn(idx(5)).unwrap_err();
    assert_eq!(err.message(), "Invalid board index 5, already full");
}
