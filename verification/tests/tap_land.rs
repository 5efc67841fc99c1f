use std::collections::HashMap;

use corrosion::utility::{get_battlefield_id, get_hand_id, new_two_player_game};
use corrosion::{
    get_id, get_timestamp, Ability, Object, ObjectDetails, PlayerAction, PlayerActionError,
};

#[test]
fn tap_land_test_success() {
    let mut game = new_two_player_game();

    let battlefield_id = get_battlefield_id(&game);
    let forest_ability_id = get_id(&mut game.ids);

    let forest_abilities = {
        let mut abilities = HashMap::new();
        abilities.insert(forest_ability_id, Ability::AddGreen);

        abilities
    };

    let forest_id = get_id(&mut game.ids);
    {
        let forest = Object {
            id: forest_id,
            zone: battlefield_id,
            timestamp: get_timestamp(&mut game.timestamps),
            details: ObjectDetails::Forest { tapped: false },
            abilities: forest_abilities,
        };
        game.objects.insert(forest_id, forest);
    }

    assert_eq!(game.objects.len(), 1);

    let player1_id = game.player_turn_order[0];

    game.do_player_action(player1_id, &PlayerAction::ActivateAbility {
        object_id: forest_id,
        ability_id: forest_ability_id,
    }).unwrap();

    // Did the land tap?
    let forest = game.objects.get(&forest_id).unwrap();

    match forest.details {
        ObjectDetails::Forest { tapped } => assert!(tapped),
    }

    // Did we get that mana we paid for?
    let mana = *game.mana_pools.get(&player1_id).unwrap();
    assert_eq!(mana, 1);
}

/// A second activation of the same land is rejected as already tapped, and
/// changes nothing.
#[test]
fn tap_land_twice_rejected() {
    let mut game = new_two_player_game();

    let battlefield_id = get_battlefield_id(&game);
    let forest_ability_id = get_id(&mut game.ids);

    let forest_abilities = {
        let mut abilities = HashMap::new();
        abilities.insert(forest_ability_id, Ability::AddGreen);

        abilities
    };

    let forest_id = get_id(&mut game.ids);
    let forest = Object {
        id: forest_id,
        zone: battlefield_id,
        timestamp: get_timestamp(&mut game.timestamps),
        details: ObjectDetails::Forest { tapped: false },
        abilities: forest_abilities,
    };
    game.objects.insert(forest_id, forest);

    let player1_id = game.player_turn_order[0];
    let action = PlayerAction::ActivateAbility {
        object_id: forest_id,
        ability_id: forest_ability_id,
    };

    game.do_player_action(player1_id, &action).unwrap();

    let result = game.do_player_action(player1_id, &action);
    match result {
        Err(PlayerActionError::NotAllowed(reason)) => {
            assert_eq!(reason, "Entity already tapped");
        },
        Ok(()) => panic!("a tapped land must not tap again"),
    }

    // The rejection changed nothing: still tapped, still exactly one mana.
    let forest = game.objects.get(&forest_id).unwrap();
    match forest.details {
        ObjectDetails::Forest { tapped } => assert!(tapped),
    }
    assert_eq!(*game.mana_pools.get(&player1_id).unwrap(), 1);
}

/// A land in a hand cannot use its mana ability: it must be on the
/// battlefield.
#[test]
fn tap_land_in_hand_rejected() {
    let mut game = new_two_player_game();

    let player1_id = game.player_turn_order[0];
    let hand_id = get_hand_id(&game, player1_id);
    let forest_ability_id = get_id(&mut game.ids);

    let forest_abilities = {
        let mut abilities = HashMap::new();
        abilities.insert(forest_ability_id, Ability::AddGreen);

        abilities
    };

    let forest_id = get_id(&mut game.ids);
    let forest = Object {
        id: forest_id,
        zone: hand_id,
        timestamp: get_timestamp(&mut game.timestamps),
        details: ObjectDetails::Forest { tapped: false },
        abilities: forest_abilities,
    };
    game.objects.insert(forest_id, forest);

    let result = game.do_player_action(player1_id, &PlayerAction::ActivateAbility {
        object_id: forest_id,
        ability_id: forest_ability_id,
    });

    match result {
        Err(PlayerActionError::NotAllowed(reason)) => {
            assert_eq!(reason, "Entity not on battlefield");
        },
        Ok(()) => panic!("a land in hand must not tap"),
    }
    assert_eq!(*game.mana_pools.get(&player1_id).unwrap(), 0);
}
