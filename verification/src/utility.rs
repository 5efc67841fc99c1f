//! Utilities for quickly bootstrapping a valid `Game`, intended for hosts
//! and the test suite.

use vstd::prelude::*;

use std::collections::HashMap;

use crate::game::{zone_is_battlefield, zone_is_hand, Game, GamePhase, GameStatus};
use crate::id::{get_id, Id, IdSource};
use crate::object::Object;
use crate::player::Player;
use crate::timestamp::TimestampSource;
use crate::zone::{Zone, ZoneDetails};

verus! {

/// Quickly bootstraps a valid two-player `Game`: a battlefield, one hand per
/// player, both mana pools empty, no objects, the first player active and
/// holding priority, and the game awaiting an action.
pub fn new_two_player_game() -> (game: Game)
    ensures
        game@.wf(),
        game@.player_turn_order.len() == 2,
        game@.player_turn_order[0] != game@.player_turn_order[1],
        game@.active_player == Some(game@.player_turn_order[0]),
        game@.priority_player == Some(game@.player_turn_order[0]),
        game@.current_phase == GamePhase::Main,
        game@.current_status == GameStatus::NeedsPlayerAction,
        game@.objects == Map::<Id, Object>::empty(),
        game@.players.contains_key(game@.player_turn_order[0]),
        game@.players.contains_key(game@.player_turn_order[1]),
        game@.mana_pools.contains_key(game@.player_turn_order[0]),
        game@.mana_pools.contains_key(game@.player_turn_order[1]),
        game@.mana_pools[game@.player_turn_order[0]] == 0,
        game@.mana_pools[game@.player_turn_order[1]] == 0,
        game@.players.dom() == set![game@.player_turn_order[0], game@.player_turn_order[1]],
        forall|zid: Id| #[trigger]
            game@.zones.contains_key(zid) ==> game@.is_battlefield(zid) || game@.is_hand(
                zid,
                game@.player_turn_order[0],
            ) || game@.is_hand(zid, game@.player_turn_order[1]),
        forall|zid: Id| #[trigger]
            game@.zones.contains_key(zid) ==> zid != game@.player_turn_order[0] && zid
                != game@.player_turn_order[1],
        game.ids.next_id == 5,
        game.timestamps.next_timestamp == 0,
{
    let mut game = Game {
        zones: HashMap::new(),
        objects: HashMap::new(),
        mana_pools: HashMap::new(),
        players: HashMap::new(),
        player_turn_order: Vec::new(),
        current_phase: GamePhase::Main,
        current_status: GameStatus::NeedsPlayerAction,

        // We'll mutate these before we return
        active_player: None,
        priority_player: None,

        ids: IdSource { next_id: 0 },
        timestamps: TimestampSource { next_timestamp: 0 },
    };

    let battlefield = Zone { id: get_id(&mut game.ids), details: ZoneDetails::Battlefield };
    let battlefield_id = battlefield.id;
    game.zones.insert(battlefield.id, battlefield);

    let player1 = Player { id: get_id(&mut game.ids) };
    let player1_id = player1.id;
    game.active_player = Some(player1.id);
    game.priority_player = Some(player1.id);
    game.mana_pools.insert(player1.id, 0);

    let player1_hand = Zone {
        id: get_id(&mut game.ids),
        details: ZoneDetails::Hand { player_id: player1.id },
    };
    let player1_hand_id = player1_hand.id;

    game.player_turn_order.push(player1.id);
    game.players.insert(player1.id, player1);
    game.zones.insert(player1_hand.id, player1_hand);

    let player2 = Player { id: get_id(&mut game.ids) };
    let player2_id = player2.id;
    game.mana_pools.insert(player2.id, 0);

    let player2_hand = Zone {
        id: get_id(&mut game.ids),
        details: ZoneDetails::Hand { player_id: player2.id },
    };
    let player2_hand_id = player2_hand.id;

    game.player_turn_order.push(player2.id);
    game.players.insert(player2.id, player2);
    game.zones.insert(player2_hand.id, player2_hand);

    proof {
        assert(game@.player_turn_order =~= seq![player1_id, player2_id]);
        assert(game@.is_battlefield(battlefield_id));
        assert(game@.is_hand(player1_hand_id, player1_id));
        assert(game@.is_hand(player2_hand_id, player2_id));
        assert(game@.objects =~= Map::<Id, Object>::empty());
        assert(game@.players.dom() =~= set![player1_id, player2_id]);
        assert(game@.zones.dom() =~= set![battlefield_id, player1_hand_id, player2_hand_id]);
        assert(game@.wf());
    }

    game
}

/// The identity of `target_player_id`'s hand zone in `game`.
pub fn get_hand_id(game: &Game, target_player_id: Id) -> (r: Id)
    requires
        game@.wf(),
        exists|zid: Id| game@.is_hand(zid, target_player_id),
    ensures
        game@.is_hand(r, target_player_id),
        r == game@.hand_id(target_player_id),
{
    let hand_predicate = |zone: &Zone| -> (b: bool)
        ensures
            b == zone_is_hand(*zone, target_player_id),
        {
            match zone.details {
                ZoneDetails::Hand { player_id } => player_id == target_player_id,
                _ => false,
            }
        };
    match game.find_zone_id(hand_predicate) {
        Some(zid) => zid,
        // The requested hand exists, so the scan cannot miss it.
        None => {
            proof {
                let zid = choose|zid: Id| game@.is_hand(zid, target_player_id);
                assert(game@.zones.contains_key(zid));
            }
            vstd::pervasive::unreached()
        },
    }
}

/// The identity of the battlefield zone in `game`.
pub fn get_battlefield_id(game: &Game) -> (r: Id)
    requires
        game@.wf(),
    ensures
        game@.is_battlefield(r),
        r == game@.battlefield_id(),
{
    let battlefield_predicate = |zone: &Zone| -> (b: bool)
        ensures
            b == zone_is_battlefield(*zone),
        {
            match zone.details {
                ZoneDetails::Battlefield => true,
                _ => false,
            }
        };
    match game.find_zone_id(battlefield_predicate) {
        Some(zid) => zid,
        // A well-formed game always has a battlefield.
        None => {
            proof {
                let zid = choose|zid: Id| game@.is_battlefield(zid);
                assert(game@.zones.contains_key(zid));
            }
            vstd::pervasive::unreached()
        },
    }
}

} // verus!
