use corrosion::utility::{get_battlefield_id, get_hand_id, new_two_player_game};
use corrosion::{GamePhase, GameStatus, ZoneDetails};

/// At creation the first player is both active and priority holder, exactly
/// one battlefield and one hand per player exist, and the turn order lists
/// both players.
#[test]
fn creation_state() {
    let game = new_two_player_game();

    assert_eq!(game.player_turn_order.len(), 2);
    let player1_id = game.player_turn_order[0];
    let player2_id = game.player_turn_order[1];
    assert!(player1_id != player2_id);

    assert_eq!(game.active_player, Some(player1_id));
    assert_eq!(game.priority_player, Some(player1_id));
    assert_eq!(game.current_status, GameStatus::NeedsPlayerAction);
    assert_eq!(game.current_phase, GamePhase::Main);
    assert!(game.objects.is_empty());

    let mut battlefields = 0;
    let mut hands = 0;
    for zone in game.zones.values() {
        match zone.details {
            ZoneDetails::Battlefield => battlefields += 1,
            ZoneDetails::Hand { .. } => hands += 1,
        }
    }
    assert_eq!(battlefields, 1);
    assert_eq!(hands, 2);

    assert_eq!(*game.mana_pools.get(&player1_id).unwrap(), 0);
    assert_eq!(*game.mana_pools.get(&player2_id).unwrap(), 0);
}

/// The two players get different hands, and the battlefield is neither.
#[test]
fn creation_zone_identities() {
    let game = new_two_player_game();

    let player1_id = game.player_turn_order[0];
    let player2_id = game.player_turn_order[1];

    let battlefield_id = get_battlefield_id(&game);
    let hand1 = get_hand_id(&game, player1_id);
    let hand2 = get_hand_id(&game, player2_id);

    assert!(hand1 != hand2);
    assert!(hand1 != battlefield_id);
    assert!(hand2 != battlefield_id);
}

/// `GamePhase::next` walks the phase order and signals the end of the turn.
#[test]
fn phase_successor() {
    assert_eq!(GamePhase::Untap.next(), Some(GamePhase::Main));
    assert_eq!(GamePhase::Main.next(), None);
}
