use corrosion::utility::new_two_player_game;
use corrosion::PlayerAction;

/// Tests passing of priority and turn cycling. Currently assumes only one
/// phase.
#[test]
fn test_priority() {
    let mut game = new_two_player_game();

    let player1_id = game.player_turn_order[0];
    let player2_id = game.player_turn_order[1];

    assert_eq!(game.active_player, Some(player1_id));
    assert_eq!(game.priority_player, Some(player1_id));

    game.do_player_action(player1_id, &PlayerAction::PassPriority).unwrap();

    assert_eq!(game.active_player, Some(player1_id));
    assert_eq!(game.priority_player, Some(player2_id));

    game.do_player_action(player2_id, &PlayerAction::PassPriority).unwrap();

    assert_eq!(game.active_player, Some(player2_id));
    assert_eq!(game.priority_player, Some(player2_id));

    game.do_player_action(player2_id, &PlayerAction::PassPriority).unwrap();

    assert_eq!(game.active_player, Some(player2_id));
    assert_eq!(game.priority_player, Some(player1_id));

    game.do_player_action(player1_id, &PlayerAction::PassPriority).unwrap();

    assert_eq!(game.active_player, Some(player1_id));
    assert_eq!(game.priority_player, Some(player1_id));
}

/// A pass by a player who does not hold priority is rejected and moves
/// nothing.
#[test]
fn pass_without_priority_rejected() {
    let mut game = new_two_player_game();

    let player1_id = game.player_turn_order[0];
    let player2_id = game.player_turn_order[1];

    let result = game.do_player_action(player2_id, &PlayerAction::PassPriority);

    assert!(result.is_err());
    assert_eq!(game.active_player, Some(player1_id));
    assert_eq!(game.priority_player, Some(player1_id));
}
