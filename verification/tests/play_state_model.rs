use std::collections::HashMap;

use corrosion::play_state::{GamePhase, PlayState};
use corrosion::{Object, ObjectDetails, Player, Zone, ZoneDetails};

fn snapshot() -> (PlayState, usize) {
    let mut state = PlayState {
        zones: HashMap::new(),
        players: HashMap::new(),
        entities: HashMap::new(),
        current_phase: GamePhase::Main,
        active_player: None,
        player_priority: None,
    };

    let battlefield = Zone { id: 0, details: ZoneDetails::Battlefield };
    state.zones.insert(battlefield.id, battlefield);

    let player1 = Player { id: 1 };
    state.active_player = Some(player1.id);
    state.player_priority = Some(player1.id);

    let player1_hand = Zone { id: 2, details: ZoneDetails::Hand { player_id: player1.id } };

    let in_player1_hand = Object {
        id: 3,
        zone: player1_hand.id,
        timestamp: 0,
        details: ObjectDetails::Forest { tapped: false },
        abilities: HashMap::new(),
    };
    state.entities.insert(in_player1_hand.id, in_player1_hand);

    state.players.insert(player1.id, player1);
    state.zones.insert(player1_hand.id, player1_hand);

    (state, 3)
}

#[test]
fn snapshot_view_entity() {
    let (state, entity_id) = snapshot();

    let seen = state.view_entity(entity_id).unwrap();
    assert_eq!(seen.id, entity_id);
    assert_eq!(seen.zone, 2);
    assert!(matches!(seen.details, ObjectDetails::Forest { tapped: false }));

    assert!(state.view_entity(999).is_none());
}

#[test]
fn snapshot_view_as_player_is_pure() {
    let (state, entity_id) = snapshot();

    let viewed = state.view_as_player(1);

    assert_eq!(viewed.zones.len(), state.zones.len());
    assert_eq!(viewed.players.len(), state.players.len());
    assert_eq!(viewed.entities.len(), state.entities.len());
    assert_eq!(viewed.active_player, state.active_player);
    assert_eq!(viewed.player_priority, state.player_priority);
    assert!(viewed.entities.get(&entity_id).is_some());

    // The source state is untouched.
    assert_eq!(state.zones.len(), 2);
    assert_eq!(state.entities.len(), 1);
}

#[test]
fn zone_view_as_player_returns_the_record() {
    let zone = Zone { id: 4, details: ZoneDetails::Hand { player_id: 9 } };
    let viewed = zone.view_as_player(9);
    assert_eq!(viewed.id, zone.id);
    assert_eq!(viewed.details, zone.details);
}
