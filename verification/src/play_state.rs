//! A snapshot model of the game: every zone, player and entity in one
//! structure, read through player views and entity queries.

use vstd::prelude::*;

use std::collections::HashMap;

use crate::id::Id;
use crate::object::Object;
use crate::player::Player;
use crate::zone::Zone;

verus! {

/// Represents the game's current phase
#[derive(Debug, Clone, Copy, PartialEq, Eq, Structural)]
pub enum GamePhase {
    Main,
}

/// Represents all of the important serializable information about a game.
#[derive(Debug)]
pub struct PlayState {
    pub zones: HashMap<Id, Zone>,
    pub players: HashMap<Id, Player>,

    /// The base definition of each entity in the game, before being modified
    /// by the currently active effects.
    pub entities: HashMap<Id, Object>,

    /// The player whose turn it is right now.
    pub active_player: Option<Id>,

    /// The player who currently has priority.
    ///
    /// In certain parts of the game, like resolution of state-based actions
    /// and the untap step, no player has priority.
    pub player_priority: Option<Id>,

    /// The current phase of the game.
    pub current_phase: GamePhase,
}

impl PlayState {
    /// The other state holds the same zones, players, entities and turn data
    /// as this one.
    pub open spec fn observably_equal(self, other: PlayState) -> bool {
        &&& other.zones@ == self.zones@
        &&& other.players@ == self.players@
        &&& other.entities@ == self.entities@
        &&& other.active_player == self.active_player
        &&& other.player_priority == self.player_priority
        &&& other.current_phase == self.current_phase
    }

    /// Create a version of `PlayState` as viewed by the given player. The
    /// core mandates purity and returns the whole state; collapsing hidden
    /// zones and unknown information is a collaborator's responsibility.
    pub fn view_as_player(&self, _player_id: Id) -> (r: PlayState)
        ensures
            self.observably_equal(r),
    {
        self.clone()
    }

    /// Queries an entity in the game by ID, returning its stored base record.
    ///
    /// The stored record only contains the entity's base state. When querying
    /// an entity's current state, a continuous-effects resolver must traverse
    /// the list of effects currently modifying it, in layer order; callers
    /// must not assume the base record reflects active effects.
    pub fn view_entity(&self, entity_id: Id) -> (r: Option<Object>)
        ensures
            (match r {
                Some(o) => self.entities@.contains_key(entity_id)
                    && o@ == self.entities@[entity_id]@,
                None => !self.entities@.contains_key(entity_id),
            }),
    {
        match self.entities.get(&entity_id) {
            Some(base_entity) => Some(base_entity.clone()),
            None => None,
        }
    }
}

impl Clone for PlayState {
    /// A deep copy that observably equals the source state.
    fn clone(&self) -> (r: PlayState)
        ensures
            self.observably_equal(r),
    {
        PlayState {
            zones: self.zones.clone(),
            players: self.players.clone(),
            entities: self.entities.clone(),
            active_player: self.active_player,
            player_priority: self.player_priority,
            current_phase: self.current_phase,
        }
    }
}

} // verus!
