use vstd::prelude::*;

use std::collections::HashMap;

use crate::id::{get_id, Id, IdSource};
use crate::object::{Ability, Object, ObjectDetails};
use crate::player::Player;
use crate::timestamp::{get_timestamp, Timestamp, TimestampSource};
use crate::zone::{Zone, ZoneDetails};

verus! {

broadcast use vstd::std_specs::hash::group_hash_axioms;

/// Represents the game's current phase
#[derive(Debug, Clone, Copy, PartialEq, Eq, Structural)]
pub enum GamePhase {
    Untap,
    Main,
}

impl GamePhase {
    /// The phase that follows this one within the same turn, if there is one.
    pub open spec fn successor(self) -> Option<GamePhase> {
        match self {
            GamePhase::Untap => Some(GamePhase::Main),
            GamePhase::Main => None,
        }
    }

    /// Find the next phase for the game, if there is one.
    ///
    /// Returning `None` signifies that the turn should advance.
    pub fn next(&self) -> (r: Option<GamePhase>)
        ensures
            r == self.successor(),
    {
        match *self {
            GamePhase::Untap => Some(GamePhase::Main),
            GamePhase::Main => None,
        }
    }
}

/// The core interaction loop: either the game awaits an action from the
/// priority holder, or it has ended.
#[derive(Debug, Clone, Copy, PartialEq, Eq, Structural)]
pub enum GameStatus {
    NeedsPlayerAction,
    Ended,
}

/// Defines all of the actions that a player can take when they have priority.
#[derive(Debug, Clone)]
pub enum PlayerAction {
    Concede,
    PassPriority,
    PlayLand { object_id: Id },
    ActivateAbility { object_id: Id, ability_id: Id },
}

/// Defines all of the issues we can run into when performing a player action
#[derive(Debug, Clone)]
pub enum PlayerActionError {
    /// Denotes anything that a player isn't allowed to do, with a
    /// human-readable reason.
    NotAllowed(&'static str),
}

/// Represents all of the important information about a game: every zone,
/// object and player, plus turn order, the active player, the priority
/// holder, the phase and the status.
///
/// All mutation to the game comes through `do_player_action`; an accepted
/// action mutates the state, a rejected one leaves it untouched.
#[derive(Debug)]
pub struct Game {
    pub zones: HashMap<Id, Zone>,
    pub players: HashMap<Id, Player>,

    /// The base definition of each object in the game, before being modified
    /// by the currently active effects.
    pub objects: HashMap<Id, Object>,

    /// A simple representation of mana pools: the amount of green mana each
    /// player has.
    pub mana_pools: HashMap<Id, usize>,

    /// The order that players have their turns in, fixed at creation.
    pub player_turn_order: Vec<Id>,

    /// The player whose turn it is right now.
    pub active_player: Option<Id>,

    /// The player who currently has priority.
    ///
    /// In certain parts of the game, like resolution of state-based actions
    /// and the untap step, no player has priority.
    pub priority_player: Option<Id>,

    /// The current phase of the game, as defined in the game rules.
    pub current_phase: GamePhase,

    /// The current game status, defining the core interaction loop.
    pub current_status: GameStatus,

    /// Where this game's fresh object identities come from.
    pub ids: IdSource,

    /// Where this game's fresh zone-entry timestamps come from.
    pub timestamps: TimestampSource,
}

/// The mathematical value of a `Game`: the same fields, with each table seen
/// as a map and the turn order seen as a sequence.
#[verifier::ext_equal]
pub ghost struct GameView {
    pub zones: Map<Id, Zone>,
    pub players: Map<Id, Player>,
    pub objects: Map<Id, Object>,
    pub mana_pools: Map<Id, usize>,
    pub player_turn_order: Seq<Id>,
    pub active_player: Option<Id>,
    pub priority_player: Option<Id>,
    pub current_phase: GamePhase,
    pub current_status: GameStatus,
    pub next_id: Id,
    pub next_timestamp: Timestamp,
}

impl View for Game {
    type V = GameView;

    open spec fn view(&self) -> GameView {
        GameView {
            zones: self.zones@,
            players: self.players@,
            objects: self.objects@,
            mana_pools: self.mana_pools@,
            player_turn_order: self.player_turn_order@,
            active_player: self.active_player,
            priority_player: self.priority_player,
            current_phase: self.current_phase,
            current_status: self.current_status,
            next_id: self.ids.next_id,
            next_timestamp: self.timestamps.next_timestamp,
        }
    }
}

/// The zone record is the battlefield.
pub open spec fn zone_is_battlefield(z: Zone) -> bool {
    z.details is Battlefield
}

/// The zone record is `player`'s hand.
pub open spec fn zone_is_hand(z: Zone, player: Id) -> bool {
    z.details matches ZoneDetails::Hand { player_id } && player_id == player
}

impl GameView {
    /// `zid` names the shared battlefield zone.
    pub open spec fn is_battlefield(self, zid: Id) -> bool {
        self.zones.contains_key(zid) && zone_is_battlefield(self.zones[zid])
    }

    /// `zid` names `player`'s hand zone.
    pub open spec fn is_hand(self, zid: Id, player: Id) -> bool {
        self.zones.contains_key(zid) && zone_is_hand(self.zones[zid], player)
    }

    /// The identity of the battlefield zone (well-defined when the game is
    /// well-formed, since then exactly one battlefield exists).
    pub open spec fn battlefield_id(self) -> Id {
        choose|zid: Id| self.is_battlefield(zid)
    }

    /// The identity of `player`'s hand zone (well-defined when the game is
    /// well-formed and `player` is in the turn order).
    pub open spec fn hand_id(self, player: Id) -> Id {
        choose|zid: Id| self.is_hand(zid, player)
    }

    /// Structural well-formedness of a game. Construction establishes it and
    /// every action preserves it; a game that violates it was built or
    /// mutated outside its contract.
    pub open spec fn wf(self) -> bool {
        &&& self.player_turn_order.len() > 0
        &&& self.player_turn_order.no_duplicates()
        &&& self.active_player matches Some(a) && self.player_turn_order.contains(a)
        &&& (self.priority_player matches Some(p) ==> self.player_turn_order.contains(p))
        &&& exists|zid: Id| self.is_battlefield(zid)
        &&& (forall|z1: Id, z2: Id| self.is_battlefield(z1) && self.is_battlefield(z2) ==> z1 == z2)
        &&& (forall|p: Id| #[trigger] self.player_turn_order.contains(p) ==> exists|zid: Id| self.is_hand(zid, p))
        &&& (forall|z1: Id, z2: Id, p: Id| self.is_hand(z1, p) && self.is_hand(z2, p) ==> z1 == z2)
        &&& (forall|p: Id| #[trigger] self.player_turn_order.contains(p) ==> self.mana_pools.contains_key(p))
        &&& (forall|zid: Id| #[trigger] self.zones.contains_key(zid) ==> self.zones[zid].id == zid
            && zid < self.next_id)
        &&& (forall|oid: Id| #[trigger] self.objects.contains_key(oid) ==> {
            &&& self.objects[oid].id == oid
            &&& self.zones.contains_key(self.objects[oid].zone)
            &&& oid < self.next_id
            &&& self.objects[oid].timestamp < self.next_timestamp
        })
    }
}

/// Whether the game accepts `action` from `actor` in state `g`: the exact
/// preconditions of each action.
pub open spec fn action_allowed(g: GameView, actor: Id, action: PlayerAction) -> bool {
    &&& g.current_status == GameStatus::NeedsPlayerAction
    &&& (match action {
        PlayerAction::Concede => true,
        PlayerAction::PassPriority => g.priority_player == Some(actor),
        PlayerAction::PlayLand { object_id } => {
            &&& g.priority_player == Some(actor)
            &&& g.objects.contains_key(object_id)
            &&& g.is_hand(g.objects[object_id].zone, actor)
            &&& g.objects[object_id].details is Forest
        },
        PlayerAction::ActivateAbility { object_id, ability_id } => {
            &&& g.priority_player == Some(actor)
            &&& g.objects.contains_key(object_id)
            &&& g.objects[object_id].abilities@.contains_key(ability_id)
            &&& (match g.objects[object_id].abilities@[ability_id] {
                Ability::AddGreen => {
                    &&& g.is_battlefield(g.objects[object_id].zone)
                    &&& g.objects[object_id].details == (ObjectDetails::Forest { tapped: false })
                },
            })
        },
    })
}

/// The state after a successful `PassPriority` by `actor`: priority moves to
/// the next player in turn order; when it would return to the active player,
/// the phase advances instead, and when the turn is out of phases, the turn
/// passes to the next player in turn order.
pub open spec fn pass_priority_step(g: GameView, actor: Id) -> GameView {
    let order = g.player_turn_order;
    let n = order.len() as int;
    let i = order.index_of(actor);
    let active = g.active_player->0;
    let a = order.index_of(active);
    let next = order[(i + 1) % n];
    if next == active {
        match g.current_phase.successor() {
            Some(next_phase) => GameView {
                current_phase: next_phase,
                priority_player: g.active_player,
                ..g
            },
            None => {
                let next_active = order[(a + 1) % n];
                GameView {
                    active_player: Some(next_active),
                    priority_player: Some(next_active),
                    ..g
                }
            },
        }
    } else {
        GameView { priority_player: Some(next), ..g }
    }
}

/// The state after a successful `PlayLand`: the object leaves the game under
/// its old identity and re-enters on the battlefield as a new object with a
/// fresh identity, a fresh (strictly greater) timestamp and the same payload.
pub open spec fn play_land_step(g: GameView, object_id: Id) -> GameView {
    let e = g.objects[object_id];
    let new_object = Object {
        id: g.next_id,
        zone: g.battlefield_id(),
        timestamp: g.next_timestamp,
        details: e.details,
        abilities: e.abilities,
    };
    GameView {
        objects: g.objects.remove(object_id).insert(g.next_id, new_object),
        next_id: (g.next_id + 1) as usize,
        next_timestamp: (g.next_timestamp + 1) as u64,
        ..g
    }
}

/// The state after a successful `ActivateAbility` (the one ability kind is
/// the green mana ability): the object becomes tapped, and the acting
/// player's mana pool grows by exactly one.
pub open spec fn activate_ability_step(g: GameView, actor: Id, object_id: Id) -> GameView {
    let e = g.objects[object_id];
    let tapped = Object { details: ObjectDetails::Forest { tapped: true }, ..e };
    GameView {
        objects: g.objects.insert(object_id, tapped),
        mana_pools: g.mana_pools.insert(actor, (g.mana_pools[actor] + 1) as usize),
        ..g
    }
}

/// The state after a successful action: total as a function, meaningful when
/// `action_allowed` holds.
pub open spec fn action_step(g: GameView, actor: Id, action: PlayerAction) -> GameView {
    match action {
        PlayerAction::Concede => GameView { current_status: GameStatus::Ended, ..g },
        PlayerAction::PassPriority => pass_priority_step(g, actor),
        PlayerAction::PlayLand { object_id } => play_land_step(g, object_id),
        PlayerAction::ActivateAbility { object_id, ability_id } => activate_ability_step(
            g,
            actor,
            object_id,
        ),
    }
}

/// The reason reported when the priority precondition fails for `actor`.
pub open spec fn priority_reason(g: GameView, actor: Id) -> Seq<char> {
    if g.priority_player is None {
        "No player has priority"@
    } else {
        "Player does not have priority"@
    }
}

/// The reason reported when `action` by `actor` is rejected in state `g`:
/// meaningful exactly when `action_allowed` does not hold.
pub open spec fn rejection_reason(g: GameView, actor: Id, action: PlayerAction) -> Seq<char> {
    if g.current_status != GameStatus::NeedsPlayerAction {
        "Game unable to accept actions at this time"@
    } else {
        match action {
            PlayerAction::Concede => Seq::empty(),
            PlayerAction::PassPriority => priority_reason(g, actor),
            PlayerAction::PlayLand { object_id } => {
                if g.priority_player != Some(actor) {
                    priority_reason(g, actor)
                } else if !g.objects.contains_key(object_id) {
                    "Entity not found"@
                } else {
                    "Land not in player's hand"@
                }
            },
            PlayerAction::ActivateAbility { object_id, ability_id } => {
                if g.priority_player != Some(actor) {
                    priority_reason(g, actor)
                } else if !g.objects.contains_key(object_id) {
                    "Entity not found"@
                } else if !g.objects[object_id].abilities@.contains_key(ability_id) {
                    "Ability not found on entity"@
                } else if !g.zones.contains_key(g.objects[object_id].zone) {
                    "Could not find entity's zone by ID"@
                } else if !(g.zones[g.objects[object_id].zone].details is Battlefield) {
                    "Entity not on battlefield"@
                } else {
                    "Entity already tapped"@
                }
            },
        }
    }
}

/// Carries well-formedness from `g` to a state `h` that keeps `g`'s zones and
/// turn order, moves priority and activity only within the turn order, keeps
/// a mana pool for every player, never shrinks the counters, and keeps every
/// object record consistent.
proof fn lemma_wf_from_same_zones(g: GameView, h: GameView)
    requires
        g.wf(),
        h.zones == g.zones,
        h.player_turn_order == g.player_turn_order,
        h.active_player matches Some(a) && h.player_turn_order.contains(a),
        (h.priority_player matches Some(p) ==> h.player_turn_order.contains(p)),
        forall|p: Id| #[trigger] h.player_turn_order.contains(p) ==> h.mana_pools.contains_key(p),
        g.next_id <= h.next_id,
        g.next_timestamp <= h.next_timestamp,
        forall|oid: Id| #[trigger] h.objects.contains_key(oid) ==> {
            &&& h.objects[oid].id == oid
            &&& h.zones.contains_key(h.objects[oid].zone)
            &&& oid < h.next_id
            &&& h.objects[oid].timestamp < h.next_timestamp
        },
    ensures
        h.wf(),
{
    let b = choose|zid: Id| g.is_battlefield(zid);
    assert(h.is_battlefield(b));
    assert forall|p: Id| #[trigger] h.player_turn_order.contains(p) implies exists|zid: Id|
        h.is_hand(zid, p) by {
        let z = choose|zid: Id| g.is_hand(zid, p);
        assert(g.is_hand(z, p));
        assert(h.is_hand(z, p));
    }
    assert forall|z1: Id, z2: Id| h.is_battlefield(z1) && h.is_battlefield(z2) implies z1
        == z2 by {
        assert(g.is_battlefield(z1));
        assert(g.is_battlefield(z2));
    }
    assert forall|z1: Id, z2: Id, p: Id| h.is_hand(z1, p) && h.is_hand(z2, p) implies z1 == z2 by {
        assert(g.is_hand(z1, p));
        assert(g.is_hand(z2, p));
    }
}

/// Every action the game accepts leads from a well-formed state to a
/// well-formed state, as long as the identity, timestamp and mana counters
/// have room left.
pub proof fn lemma_step_preserves_wf(g: GameView, actor: Id, action: PlayerAction)
    requires
        g.wf(),
        action_allowed(g, actor, action),
        (action matches PlayerAction::PlayLand { .. } ==> g.next_id < usize::MAX
            && g.next_timestamp < u64::MAX),
    ensures
        action_step(g, actor, action).wf(),
{
    let h = action_step(g, actor, action);
    match action {
        PlayerAction::Concede => {
            lemma_wf_from_same_zones(g, h);
        },
        PlayerAction::PassPriority => {
            let order = g.player_turn_order;
            let n = order.len() as int;
            let i = order.index_of(actor);
            let active = g.active_player->0;
            let a = order.index_of(active);
            assert(0 <= (i + 1) % n < n);
            assert(order.contains(order[(i + 1) % n]));
            assert(0 <= (a + 1) % n < n);
            assert(order.contains(order[(a + 1) % n]));
            lemma_wf_from_same_zones(g, h);
        },
        PlayerAction::PlayLand { object_id } => {
            assert(g.is_battlefield(g.battlefield_id()));
            assert forall|oid: Id| #[trigger] h.objects.contains_key(oid) implies {
                &&& h.objects[oid].id == oid
                &&& h.zones.contains_key(h.objects[oid].zone)
                &&& oid < h.next_id
                &&& h.objects[oid].timestamp < h.next_timestamp
            } by {
                if oid != g.next_id {
                    assert(h.objects[oid] == g.objects[oid]);
                    assert(g.objects.contains_key(oid));
                }
            }
            lemma_wf_from_same_zones(g, h);
        },
        PlayerAction::ActivateAbility { object_id, ability_id } => {
            assert forall|oid: Id| #[trigger] h.objects.contains_key(oid) implies {
                &&& h.objects[oid].id == oid
                &&& h.zones.contains_key(h.objects[oid].zone)
                &&& oid < h.next_id
                &&& h.objects[oid].timestamp < h.next_timestamp
            } by {
                if oid != object_id {
                    assert(h.objects[oid] == g.objects[oid]);
                    assert(g.objects.contains_key(oid));
                }
            }
            lemma_wf_from_same_zones(g, h);
        },
    }
}

/// Registering an object whose identity and timestamp were drawn from the
/// counters — as a host does when it populates a game — keeps the game
/// well-formed, as long as the object sits in an existing zone under its own
/// identity and the counters moved past the values it carries.
pub proof fn lemma_wf_register_object(
    g: GameView,
    o: Object,
    next_id: Id,
    next_timestamp: Timestamp,
)
    requires
        g.wf(),
        g.zones.contains_key(o.zone),
        g.next_id <= o.id < next_id,
        g.next_timestamp <= o.timestamp < next_timestamp,
    ensures
        (GameView {
            objects: g.objects.insert(o.id, o),
            next_id: next_id,
            next_timestamp: next_timestamp,
            ..g
        }).wf(),
{
    let h = GameView {
        objects: g.objects.insert(o.id, o),
        next_id: next_id,
        next_timestamp: next_timestamp,
        ..g
    };
    assert forall|oid: Id| #[trigger] h.objects.contains_key(oid) implies {
        &&& h.objects[oid].id == oid
        &&& h.zones.contains_key(h.objects[oid].zone)
        &&& oid < h.next_id
        &&& h.objects[oid].timestamp < h.next_timestamp
    } by {
        if oid != o.id {
            assert(h.objects[oid] == g.objects[oid]);
            assert(g.objects.contains_key(oid));
        }
    }
    lemma_wf_from_same_zones(g, h);
}

/// Conceding is terminal: in a game that accepts actions, a concede is
/// accepted and ends the game, and afterwards every action by every player,
/// including a second concede, is rejected.
pub proof fn lemma_concede_terminal(
    g: GameView,
    actor: Id,
    later_actor: Id,
    later_action: PlayerAction,
)
    requires
        g.current_status == GameStatus::NeedsPlayerAction,
    ensures
        action_allowed(g, actor, PlayerAction::Concede),
        action_step(g, actor, PlayerAction::Concede).current_status == GameStatus::Ended,
        !action_allowed(action_step(g, actor, PlayerAction::Concede), later_actor, later_action),
{
}

/// Identity churn: playing a land retires the object's identity. Afterwards
/// no object carries the old identity; exactly one new object exists, carrying
/// the old payload, sitting on the battlefield, with a strictly greater
/// timestamp; and every other object is untouched.
pub proof fn lemma_play_land_churn(g: GameView, actor: Id, object_id: Id)
    requires
        g.wf(),
        action_allowed(g, actor, PlayerAction::PlayLand { object_id }),
    ensures
        ({
            let h = action_step(g, actor, PlayerAction::PlayLand { object_id });
            let e = g.objects[object_id];
            let new_id = g.next_id;
            &&& !h.objects.contains_key(object_id)
            &&& !g.objects.contains_key(new_id)
            &&& h.objects.contains_key(new_id)
            &&& h.objects[new_id].details == e.details
            &&& h.objects[new_id].abilities == e.abilities
            &&& h.objects[new_id].zone == g.battlefield_id()
            &&& h.objects[new_id].timestamp > e.timestamp
            &&& (forall|oid: Id|
                oid != object_id && oid != new_id ==> (#[trigger] h.objects.contains_key(oid)
                    <==> g.objects.contains_key(oid)))
            &&& (forall|oid: Id|
                oid != object_id && oid != new_id && #[trigger] g.objects.contains_key(oid)
                    ==> h.objects[oid] == g.objects[oid])
        }),
{
}

/// Activating an untapped land's mana ability taps the land and adds exactly
/// one mana to the acting player's pool; nothing else changes. A second
/// activation of the same ability is then rejected, with the reason that the
/// land is already tapped.
pub proof fn lemma_activate_ability_effect(g: GameView, actor: Id, object_id: Id, ability_id: Id)
    requires
        g.wf(),
        action_allowed(g, actor, PlayerAction::ActivateAbility { object_id, ability_id }),
        g.mana_pools[actor] < usize::MAX,
    ensures
        ({
            let h = action_step(g, actor, PlayerAction::ActivateAbility { object_id, ability_id });
            &&& h.objects.contains_key(object_id)
            &&& h.objects[object_id].details == (ObjectDetails::Forest { tapped: true })
            &&& h.objects[object_id].id == object_id
            &&& h.objects[object_id].zone == g.objects[object_id].zone
            &&& h.objects[object_id].timestamp == g.objects[object_id].timestamp
            &&& h.objects[object_id].abilities == g.objects[object_id].abilities
            &&& h.mana_pools[actor] == g.mana_pools[actor] + 1
            &&& (forall|oid: Id|
                oid != object_id && #[trigger] g.objects.contains_key(oid) ==> h.objects[oid]
                    == g.objects[oid])
            &&& (forall|p: Id|
                p != actor && #[trigger] g.mana_pools.contains_key(p) ==> h.mana_pools[p]
                    == g.mana_pools[p])
            &&& h.zones == g.zones
            &&& h.player_turn_order == g.player_turn_order
            &&& h.active_player == g.active_player
            &&& h.priority_player == g.priority_player
            &&& h.current_phase == g.current_phase
            &&& h.current_status == g.current_status
            &&& !action_allowed(h, actor, PlayerAction::ActivateAbility { object_id, ability_id })
            &&& rejection_reason(h, actor, PlayerAction::ActivateAbility { object_id, ability_id })
                == "Entity already tapped"@
        }),
{
}

/// The priority cycle law for two players and a phase with no successor:
/// starting with the first player active and holding priority, four
/// consecutive passes by whichever player holds priority are all accepted,
/// walk priority and activity around the table, and return the game to
/// exactly its starting state.
pub proof fn lemma_priority_cycle(g: GameView)
    requires
        g.wf(),
        g.player_turn_order.len() == 2,
        g.active_player == Some(g.player_turn_order[0]),
        g.priority_player == Some(g.player_turn_order[0]),
        g.current_phase == GamePhase::Main,
        g.current_status == GameStatus::NeedsPlayerAction,
    ensures
        ({
            let p1 = g.player_turn_order[0];
            let p2 = g.player_turn_order[1];
            let g1 = action_step(g, p1, PlayerAction::PassPriority);
            let g2 = action_step(g1, p2, PlayerAction::PassPriority);
            let g3 = action_step(g2, p2, PlayerAction::PassPriority);
            let g4 = action_step(g3, p1, PlayerAction::PassPriority);
            &&& action_allowed(g, p1, PlayerAction::PassPriority)
            &&& g1.active_player == Some(p1) && g1.priority_player == Some(p2)
            &&& action_allowed(g1, p2, PlayerAction::PassPriority)
            &&& g2.active_player == Some(p2) && g2.priority_player == Some(p2)
            &&& action_allowed(g2, p2, PlayerAction::PassPriority)
            &&& g3.active_player == Some(p2) && g3.priority_player == Some(p1)
            &&& action_allowed(g3, p1, PlayerAction::PassPriority)
            &&& g4 == g
        }),
{
    let order = g.player_turn_order;
    let p1 = order[0];
    let p2 = order[1];
    assert(p1 != p2);
    assert(order.index_of(p1) == 0) by {
        assert(0 <= 0 < order.len() && order[0] == p1);
        let i = order.index_of(p1);
        assert(0 <= i < order.len() && order[i] == p1);
    }
    assert(order.index_of(p2) == 1) by {
        assert(0 <= 1 < order.len() && order[1] == p2);
        let i = order.index_of(p2);
        assert(0 <= i < order.len() && order[i] == p2);
    }
    let g1 = action_step(g, p1, PlayerAction::PassPriority);
    let g2 = action_step(g1, p2, PlayerAction::PassPriority);
    let g3 = action_step(g2, p2, PlayerAction::PassPriority);
    let g4 = action_step(g3, p1, PlayerAction::PassPriority);
    assert((0int + 1int) % 2int == 1int) by (nonlinear_arith);
    assert((1int + 1int) % 2int == 0int) by (nonlinear_arith);
    assert(g4 =~= g);
}

impl Game {
    /// Checks that the given player has priority, and returns the appropriate
    /// `PlayerActionError` if they do not.
    fn check_priority(&self, acting_player_id: Id) -> (r: Result<(), PlayerActionError>)
        ensures
            r is Ok <==> self.priority_player == Some(acting_player_id),
            (r matches Err(PlayerActionError::NotAllowed(m)) ==> m@ == priority_reason(
                self@,
                acting_player_id,
            )),
    {
        match self.priority_player {
            Some(priority_id) => {
                if acting_player_id == priority_id {
                    Ok(())
                } else {
                    Err(PlayerActionError::NotAllowed("Player does not have priority"))
                }
            },
            None => Err(PlayerActionError::NotAllowed("No player has priority")),
        }
    }

    /// The index of `target` in `order`, scanning from the front.
    fn position_of(order: &Vec<Id>, target: Id) -> (r: Option<usize>)
        ensures
            (match r {
                Some(i) => i < order.len() && order@[i as int] == target,
                None => !order@.contains(target),
            }),
    {
        let mut i: usize = 0;
        while i < order.len()
            invariant
                i <= order.len(),
                forall|j: int| 0 <= j < i ==> order@[j] != target,
            decreases order.len() - i,
        {
            if order[i] == target {
                return Some(i);
            }
            i = i + 1;
        }
        None
    }

    /// Process the given player action: validate it completely, then either
    /// apply its effect or reject it with a reason and leave the game
    /// untouched.
    pub fn do_player_action(&mut self, acting_player_id: Id, action: &PlayerAction) -> (r: Result<
        (),
        PlayerActionError,
    >)
        requires
            old(self)@.wf(),
            action_allowed(old(self)@, acting_player_id, *action) ==> (match *action {
                PlayerAction::PlayLand { .. } => old(self).ids.next_id < usize::MAX && old(self).timestamps.next_timestamp < u64::MAX,
                PlayerAction::ActivateAbility { .. } => old(self)@.mana_pools[acting_player_id]
                    < usize::MAX,
                _ => true,
            }),
        ensures
            final(self)@.wf(),
            r is Ok <==> action_allowed(old(self)@, acting_player_id, *action),
            r is Ok ==> final(self)@ == action_step(old(self)@, acting_player_id, *action),
            r is Err ==> *final(self) == *old(self),
            (r matches Err(PlayerActionError::NotAllowed(m)) ==> m@ == rejection_reason(
                old(self)@,
                acting_player_id,
                *action,
            )),
    {
        let ghost pre = self@;

        // Players can only take an action if the game can accept one!
        match self.current_status {
            GameStatus::NeedsPlayerAction => {},
            _ => {
                return Err(
                    PlayerActionError::NotAllowed("Game unable to accept actions at this time"),
                );
            },
        }

        match *action {
            PlayerAction::Concede => {
                self.current_status = GameStatus::Ended;

                proof {
                    assert(self@ =~= action_step(pre, acting_player_id, *action));
                    lemma_step_preserves_wf(pre, acting_player_id, *action);
                }

                Ok(())
            },
            PlayerAction::PassPriority => {
                match self.check_priority(acting_player_id) {
                    Ok(()) => {},
                    Err(e) => {
                        return Err(e);
                    },
                }

                let current_priority_index = match Self::position_of(
                    &self.player_turn_order,
                    acting_player_id,
                ) {
                    Some(i) => i,
                    // The priority holder is always in the turn order.
                    None => {
                        return vstd::pervasive::unreached();
                    },
                };

                let current_active_id = match self.active_player {
                    Some(a) => a,
                    // A well-formed game always has an active player.
                    None => {
                        return vstd::pervasive::unreached();
                    },
                };
                let current_active_index = match Self::position_of(
                    &self.player_turn_order,
                    current_active_id,
                ) {
                    Some(i) => i,
                    // The active player is always in the turn order.
                    None => {
                        return vstd::pervasive::unreached();
                    },
                };

                let player_count = self.player_turn_order.len();

                proof {
                    // The scan finds the same indices the specification names,
                    // because the turn order has no duplicates.
                    assert(pre.player_turn_order.index_of(acting_player_id)
                        == current_priority_index as int);
                    assert(pre.player_turn_order.index_of(current_active_id)
                        == current_active_index as int);
                }

                let next_priority_index = (current_priority_index + 1) % player_count;
                let next_priority_id = self.player_turn_order[next_priority_index];

                // If priority would swing back around to the active player,
                // it's time to advance!
                if next_priority_id == current_active_id {
                    // Are we at the end of the turn?
                    match self.current_phase.next() {
                        Some(next_phase) => {
                            // To the next phase!
                            self.current_phase = next_phase;
                            self.priority_player = self.active_player;
                        },
                        None => {
                            // We're out of phases, advance turns!
                            let next_active_index = (current_active_index + 1) % player_count;
                            let next_active_id = self.player_turn_order[next_active_index];

                            self.active_player = Some(next_active_id);
                            self.priority_player = Some(next_active_id);
                        },
                    }
                } else {
                    self.priority_player = Some(next_priority_id);
                }

                proof {
                    assert(self@ =~= pass_priority_step(pre, acting_player_id));
                    lemma_step_preserves_wf(pre, acting_player_id, *action);
                }

                Ok(())
            },
            PlayerAction::PlayLand { object_id } => {
                match self.check_priority(acting_player_id) {
                    Ok(()) => {},
                    Err(e) => {
                        return Err(e);
                    },
                }

                let hand_predicate = |zone: &Zone| -> (b: bool)
                    ensures
                        b == zone_is_hand(*zone, acting_player_id),
                    {
                        match zone.details {
                            ZoneDetails::Hand { player_id } => player_id == acting_player_id,
                            _ => false,
                        }
                    };
                let player_hand_id = match self.find_zone_id(hand_predicate) {
                    Some(zid) => zid,
                    // A well-formed game has a hand for the priority holder.
                    None => {
                        proof {
                            let zid = choose|zid: Id| pre.is_hand(zid, acting_player_id);
                            assert(pre.zones.contains_key(zid));
                        }
                        return vstd::pervasive::unreached();
                    },
                };

                let battlefield_predicate = |zone: &Zone| -> (b: bool)
                    ensures
                        b == zone_is_battlefield(*zone),
                    {
                        match zone.details {
                            ZoneDetails::Battlefield => true,
                            _ => false,
                        }
                    };
                let battlefield_id = match self.find_zone_id(battlefield_predicate) {
                    Some(zid) => zid,
                    // A well-formed game always has a battlefield.
                    None => {
                        proof {
                            let zid = choose|zid: Id| pre.is_battlefield(zid);
                            assert(pre.zones.contains_key(zid));
                        }
                        return vstd::pervasive::unreached();
                    },
                };

                proof {
                    // The scan found the player's unique hand and the unique
                    // battlefield.
                    assert(pre.is_hand(player_hand_id, acting_player_id));
                    assert(pre.is_battlefield(battlefield_id));
                    assert(pre.battlefield_id() == battlefield_id);
                }

                // We need to make sure we have a land to play!
                match self.objects.get(&object_id) {
                    Some(entity) => {
                        // Make sure it's in our player's hand
                        if entity.zone != player_hand_id {
                            return Err(PlayerActionError::NotAllowed("Land not in player's hand"));
                        }

                        // Make sure it's a land
                        match entity.details {
                            ObjectDetails::Forest { .. } => {},
                        }
                    },
                    None => {
                        return Err(PlayerActionError::NotAllowed("Entity not found"));
                    },
                }

                proof {
                    assert(action_allowed(pre, acting_player_id, *action));
                }

                // We just checked to make sure this existed above!
                let entity = self.objects.remove(&object_id).unwrap();

                // Generate the replacement object and put it on the
                // battlefield: moving zones retires the old identity.
                let new_id = get_id(&mut self.ids);
                let new_timestamp = get_timestamp(&mut self.timestamps);
                let new_entity = Object {
                    id: new_id,
                    zone: battlefield_id,
                    timestamp: new_timestamp,
                    details: entity.details,
                    abilities: entity.abilities,
                };

                self.objects.insert(new_id, new_entity);

                proof {
                    assert(self@ =~= play_land_step(pre, object_id));
                    lemma_step_preserves_wf(pre, acting_player_id, *action);
                }

                Ok(())
            },
            PlayerAction::ActivateAbility { object_id, ability_id } => {
                match self.check_priority(acting_player_id) {
                    Ok(()) => {},
                    Err(e) => {
                        return Err(e);
                    },
                }

                let entity = match self.objects.get(&object_id) {
                    Some(entity) => entity,
                    None => {
                        return Err(PlayerActionError::NotAllowed("Entity not found"));
                    },
                };

                let ability = match entity.abilities.get(&ability_id) {
                    Some(ability) => ability,
                    None => {
                        return Err(PlayerActionError::NotAllowed("Ability not found on entity"));
                    },
                };

                match *ability {
                    Ability::AddGreen => {
                        // Make sure we're on the battlefield! Abilities have
                        // to specify when they are valid to activate.
                        match self.zones.get(&entity.zone) {
                            Some(zone) => {
                                match zone.details {
                                    ZoneDetails::Battlefield => {},
                                    _ => {
                                        return Err(
                                            PlayerActionError::NotAllowed(
                                                "Entity not on battlefield",
                                            ),
                                        );
                                    },
                                }
                            },
                            None => {
                                return Err(
                                    PlayerActionError::NotAllowed(
                                        "Could not find entity's zone by ID",
                                    ),
                                );
                            },
                        }

                        // Make sure our land is untapped
                        match entity.details {
                            ObjectDetails::Forest { tapped } => {
                                if tapped {
                                    return Err(
                                        PlayerActionError::NotAllowed("Entity already tapped"),
                                    );
                                }
                            },
                        }

                        proof {
                            assert(action_allowed(pre, acting_player_id, *action));
                        }

                        // Tap the land!
                        let mut tapped_entity = self.objects.remove(&object_id).unwrap();
                        tapped_entity.details = ObjectDetails::Forest { tapped: true };
                        self.objects.insert(object_id, tapped_entity);

                        // Find our mana pool and increment it
                        let mana_value = match self.mana_pools.get(&acting_player_id) {
                            Some(v) => *v,
                            // A well-formed game has a pool for every player
                            // in the turn order.
                            None => {
                                return vstd::pervasive::unreached();
                            },
                        };

                        self.mana_pools.insert(acting_player_id, mana_value + 1);

                        proof {
                            assert(self@ =~= activate_ability_step(
                                pre,
                                acting_player_id,
                                object_id,
                            ));
                            lemma_step_preserves_wf(pre, acting_player_id, *action);
                        }

                        Ok(())
                    },
                }
            },
        }
    }

    /// Apply all state-based actions, like creatures dying due to damage.
    /// No state-based actions exist yet, so the game is left untouched.
    pub fn process_state_based_actions(&mut self)
        ensures
            *final(self) == *old(self),
    {
    }

    /// Finds the identity of a zone that passes the given condition, if one
    /// exists.
    pub fn find_zone_id<F: Fn(&Zone) -> bool>(&self, predicate: F) -> (r: Option<Id>)
        requires
            forall|z: &Zone| #[trigger] call_requires(predicate, (z,)),
        ensures
            (match r {
                Some(zid) => self.zones@.contains_key(zid) && call_ensures(
                    predicate,
                    (&self.zones@[zid],),
                    true,
                ),
                None => forall|zid: Id| #[trigger]
                    self.zones@.contains_key(zid) ==> call_ensures(
                        predicate,
                        (&self.zones@[zid],),
                        false,
                    ),
            }),
    {
        for kv in it: self.zones.iter()
            invariant
                forall|z: &Zone| #[trigger] call_requires(predicate, (z,)),
                forall|zid: Id| #[trigger]
                    self.zones@.contains_key(zid) ==> call_ensures(
                        predicate,
                        (&self.zones@[zid],),
                        false,
                    ) || (exists|j: int|
                        it.index() <= j < it.seq().len() && it.seq()[j] == (
                            &zid,
                            &self.zones@[zid],
                        )),
        {
            let (zone_id, zone) = kv;
            if predicate(zone) {
                return Some(*zone_id);
            }
            proof {
                assert forall|zid: Id| #[trigger]
                    self.zones@.contains_key(zid) implies call_ensures(
                    predicate,
                    (&self.zones@[zid],),
                    false,
                ) || (exists|j: int|
                    it.index() + 1 <= j < it.seq().len() && it.seq()[j] == (
                        &zid,
                        &self.zones@[zid],
                    )) by {
                    if !call_ensures(predicate, (&self.zones@[zid],), false) {
                        let j = choose|j: int|
                            it.index() <= j < it.seq().len() && it.seq()[j] == (
                                &zid,
                                &self.zones@[zid],
                            );
                        if j == it.index() {
                            assert(call_ensures(predicate, (zone,), false));
                            assert(false);
                        }
                    }
                }
            }
        }

        None
    }

    /// Create a version of `Game` as viewed by the given player. The core
    /// mandates purity (the source game is untouched) and returns the whole
    /// state; collapsing hidden zones and unknown information is a
    /// collaborator's responsibility.
    pub fn view_as_player(&self, _player_id: Id) -> (r: Game)
        ensures
            r@ == self@,
    {
        self.clone()
    }

    /// Queries an object in the game by ID, returning its stored base record.
    ///
    /// The stored record only contains the object's base state. A continuous-
    /// effects resolver must later compose this base record with the
    /// currently active effects, in layer order, to produce an "effective"
    /// view; callers must not assume the base record reflects active effects.
    pub fn view_entity(&self, entity_id: Id) -> (r: Option<Object>)
        ensures
            (match r {
                Some(o) => self@.objects.contains_key(entity_id)
                    && o@ == self@.objects[entity_id]@,
                None => !self@.objects.contains_key(entity_id),
            }),
    {
        match self.objects.get(&entity_id) {
            Some(base_entity) => Some(base_entity.clone()),
            None => None,
        }
    }
}

impl Clone for Game {
    /// A deep copy that observably equals the source game.
    fn clone(&self) -> (r: Game)
        ensures
            r@ == self@,
    {
        let r = Game {
            zones: self.zones.clone(),
            players: self.players.clone(),
            objects: self.objects.clone(),
            mana_pools: self.mana_pools.clone(),
            player_turn_order: self.player_turn_order.clone(),
            active_player: self.active_player,
            priority_player: self.priority_player,
            current_phase: self.current_phase,
            current_status: self.current_status,
            ids: self.ids,
            timestamps: self.timestamps,
        };
        proof {
            assert(r.player_turn_order@ =~= self.player_turn_order@);
            assert(r@ =~= self@);
        }
        r
    }
}

} // verus!
