use std::collections::HashMap;

use corrosion::utility::{get_hand_id, new_two_player_game};
use corrosion::{
    get_id, get_timestamp, Game, Object, ObjectDetails, PlayerAction, PlayerActionError,
};

fn reason(result: Result<(), PlayerActionError>) -> &'static str {
    match result {
        Err(PlayerActionError::NotAllowed(text)) => text,
        Ok(()) => panic!("expected a rejection"),
    }
}

/// Every observable field of the two games is equal.
fn games_observably_equal(a: &Game, b: &Game) -> bool {
    if a.zones != b.zones || a.players != b.players || a.mana_pools != b.mana_pools {
        return false;
    }
    if a.player_turn_order != b.player_turn_order
        || a.active_player != b.active_player
        || a.priority_player != b.priority_player
        || a.current_phase != b.current_phase
        || a.current_status != b.current_status
    {
        return false;
    }
    if a.objects.len() != b.objects.len() {
        return false;
    }
    a.objects.iter().all(|(key, object)| match b.objects.get(key) {
        Some(other) => {
            object.id == other.id && object.zone == other.zone
                && object.timestamp == other.timestamp && object.details == other.details
                && object.abilities == other.abilities
        },
        None => false,
    })
}

/// Each kind of rejection carries its descriptive reason.
#[test]
fn rejection_reasons() {
    let mut game = new_two_player_game();

    let player1_id = game.player_turn_order[0];
    let player2_id = game.player_turn_order[1];
    let hand_id = get_hand_id(&game, player1_id);

    // Wrong actor.
    let result = game.do_player_action(player2_id, &PlayerAction::PassPriority);
    assert_eq!(reason(result), "Player does not have priority");

    // Object that does not exist.
    let ghost_object = get_id(&mut game.ids);
    let result = game.do_player_action(player1_id, &PlayerAction::PlayLand {
        object_id: ghost_object,
    });
    assert_eq!(reason(result), "Entity not found");
    let result = game.do_player_action(player1_id, &PlayerAction::ActivateAbility {
        object_id: ghost_object,
        ability_id: ghost_object,
    });
    assert_eq!(reason(result), "Entity not found");

    // A land in the opponent's hand cannot be played by the priority holder.
    let player2_hand = get_hand_id(&game, player2_id);
    let stray_id = get_id(&mut game.ids);
    let stray = Object {
        id: stray_id,
        zone: player2_hand,
        timestamp: get_timestamp(&mut game.timestamps),
        details: ObjectDetails::Forest { tapped: false },
        abilities: HashMap::new(),
    };
    game.objects.insert(stray_id, stray);
    let result = game.do_player_action(player1_id, &PlayerAction::PlayLand {
        object_id: stray_id,
    });
    assert_eq!(reason(result), "Land not in player's hand");

    // An object without the named ability.
    let bare_id = get_id(&mut game.ids);
    let bare = Object {
        id: bare_id,
        zone: hand_id,
        timestamp: get_timestamp(&mut game.timestamps),
        details: ObjectDetails::Forest { tapped: false },
        abilities: HashMap::new(),
    };
    game.objects.insert(bare_id, bare);
    let missing_ability = get_id(&mut game.ids);
    let result = game.do_player_action(player1_id, &PlayerAction::ActivateAbility {
        object_id: bare_id,
        ability_id: missing_ability,
    });
    assert_eq!(reason(result), "Ability not found on entity");

    // Nobody holds priority.
    game.priority_player = None;
    let result = game.do_player_action(player1_id, &PlayerAction::PassPriority);
    assert_eq!(reason(result), "No player has priority");

    // The game has ended.
    game.priority_player = Some(player1_id);
    game.do_player_action(player1_id, &PlayerAction::Concede).unwrap();
    let result = game.do_player_action(player1_id, &PlayerAction::PassPriority);
    assert_eq!(reason(result), "Game unable to accept actions at this time");
}

/// A rejected action leaves every observable field of the game unchanged.
#[test]
fn rejection_leaves_game_unchanged() {
    let mut game = new_two_player_game();

    let player1_id = game.player_turn_order[0];
    let player2_id = game.player_turn_order[1];
    let hand_id = get_hand_id(&game, player1_id);

    let forest_id = get_id(&mut game.ids);
    let forest = Object {
        id: forest_id,
        zone: hand_id,
        timestamp: get_timestamp(&mut game.timestamps),
        details: ObjectDetails::Forest { tapped: false },
        abilities: HashMap::new(),
    };
    game.objects.insert(forest_id, forest);

    let before = game.view_as_player(player1_id);

    // Rejected: wrong actor.
    assert!(game.do_player_action(player2_id, &PlayerAction::PassPriority).is_err());
    assert!(games_observably_equal(&game, &before));

    // Rejected: wrong actor plays a land.
    assert!(game
        .do_player_action(player2_id, &PlayerAction::PlayLand { object_id: forest_id })
        .is_err());
    assert!(games_observably_equal(&game, &before));

    // Rejected: missing ability.
    let missing_ability = get_id(&mut game.ids);
    let before = game.view_as_player(player1_id);
    assert!(game
        .do_player_action(player1_id, &PlayerAction::ActivateAbility {
            object_id: forest_id,
            ability_id: missing_ability,
        })
        .is_err());
    assert!(games_observably_equal(&game, &before));
}

/// `view_as_player` is pure and returns the whole state; `view_entity`
/// returns the stored base record.
#[test]
fn game_views() {
    let mut game = new_two_player_game();

    let player1_id = game.player_turn_order[0];
    let hand_id = get_hand_id(&game, player1_id);

    let forest_id = get_id(&mut game.ids);
    let forest = Object {
        id: forest_id,
        zone: hand_id,
        timestamp: get_timestamp(&mut game.timestamps),
        details: ObjectDetails::Forest { tapped: false },
        abilities: HashMap::new(),
    };
    game.objects.insert(forest_id, forest);

    let snapshot = game.view_as_player(player1_id);
    assert!(games_observably_equal(&game, &snapshot));

    let seen = game.view_entity(forest_id).unwrap();
    assert_eq!(seen.id, forest_id);
    assert_eq!(seen.zone, hand_id);
    assert!(matches!(seen.details, ObjectDetails::Forest { tapped: false }));

    let missing = get_id(&mut game.ids);
    assert!(game.view_entity(missing).is_none());

    let mut untouched = game.view_as_player(player1_id);
    untouched.process_state_based_actions();
    assert!(games_observably_equal(&game, &untouched));
}
