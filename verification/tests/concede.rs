use corrosion::utility::new_two_player_game;
use corrosion::{GameStatus, PlayerAction};

/// Tests conceding.
#[test]
fn test_concede() {
    let mut game = new_two_player_game();

    let player1_id = game.player_turn_order[0];

    game.do_player_action(player1_id, &PlayerAction::Concede).unwrap();

    assert_eq!(game.current_status, GameStatus::Ended);
}

/// A concede is terminal: afterwards nothing is accepted, not even another
/// concede.
#[test]
fn concede_is_terminal() {
    let mut game = new_two_player_game();

    let player1_id = game.player_turn_order[0];
    let player2_id = game.player_turn_order[1];

    game.do_player_action(player1_id, &PlayerAction::Concede).unwrap();
    assert_eq!(game.current_status, GameStatus::Ended);

    assert!(game.do_player_action(player1_id, &PlayerAction::Concede).is_err());
    assert!(game.do_player_action(player2_id, &PlayerAction::Concede).is_err());
    assert!(game.do_player_action(player1_id, &PlayerAction::PassPriority).is_err());
    assert_eq!(game.current_status, GameStatus::Ended);
}
