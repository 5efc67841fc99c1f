//! An event-driven model of the game: the whole state in one `PlayState`,
//! mutated by `GameMutation` events so that effects can later respond to and
//! replace them.

use vstd::prelude::*;

use std::collections::HashMap;

use crate::id::{get_id, Id, IdSource};

verus! {

/// Signed counts of each mana colour in a cost.
pub type Number = i64;

/// What kind of zone a `PlayZone` is; hands and libraries are bound to one
/// player.
#[derive(Debug, Clone, Copy, PartialEq, Eq, Structural)]
pub enum PlayZoneKind {
    Battlefield,
    Hand(Id),
    Library(Id),
}

/// The closed set of entity kinds.
#[derive(Debug, Clone, Copy, PartialEq, Eq, Structural)]
pub enum EntityKind {
    Card,
}

/// A mana cost, one count per colour plus generic and colorless.
#[derive(Debug, Clone, Copy, PartialEq, Eq, Structural)]
pub struct ManaCost {
    pub generic: Number,
    pub white: Number,
    pub blue: Number,
    pub black: Number,
    pub red: Number,
    pub green: Number,
    pub colorless: Number,
}

impl Default for ManaCost {
    /// The free cost: zero of everything.
    fn default() -> (r: ManaCost)
        ensures
            r == (ManaCost {
                generic: 0,
                white: 0,
                blue: 0,
                black: 0,
                red: 0,
                green: 0,
                colorless: 0,
            }),
    {
        ManaCost { generic: 0, white: 0, blue: 0, black: 0, red: 0, green: 0, colorless: 0 }
    }
}

/// What it takes to play an entity.
#[derive(Debug)]
pub enum Cost {
    Impossible,
    Mana(ManaCost),
}

/// The rules-fixed description of one kind of entity, like one card name in a
/// format.
#[derive(Debug)]
pub struct EntityDescriptor {
    pub name: String,
    pub id: Id,
    pub cost: Cost,
}

/// The card pool: every entity descriptor legal in a format, keyed by its
/// identity.
#[derive(Debug)]
pub struct EntityDescriptorSet {
    pub map: HashMap<Id, EntityDescriptor>,
}

impl EntityDescriptorSet {
    /// An empty card pool.
    pub fn new() -> (r: EntityDescriptorSet)
        ensures
            r.map@ == Map::<Id, EntityDescriptor>::empty(),
    {
        EntityDescriptorSet { map: HashMap::new() }
    }

    /// Adds a descriptor under its own identity, replacing any previous
    /// descriptor with that identity.
    pub fn add(&mut self, descriptor: EntityDescriptor)
        ensures
            final(self).map@ == old(self).map@.insert(descriptor.id, descriptor),
    {
        self.map.insert(descriptor.id, descriptor);
    }
}

/// One entity instance: its kind, its own identity, and the descriptor it
/// instantiates.
#[derive(Debug, Clone, Copy, PartialEq, Eq, Structural)]
pub struct Entity {
    pub kind: EntityKind,
    pub id: Id,
    pub descriptor_id: Id,
}

impl Entity {
    /// The same entity payload under a freshly generated identity, as happens
    /// when an entity changes zones.
    pub fn clone_new(&self, ids: &mut IdSource) -> (r: Entity)
        requires
            old(ids).next_id < usize::MAX,
        ensures
            r == (Entity { id: old(ids).next_id, ..*self }),
            final(ids).next_id == old(ids).next_id + 1,
            self.id < old(ids).next_id ==> r.id != self.id,
    {
        let mut cloned = *self;

        cloned.id = get_id(ids);

        cloned
    }
}

/// A zone together with the entities it currently holds, in insertion order.
#[derive(Debug)]
pub struct PlayZone {
    pub kind: PlayZoneKind,
    pub id: Id,
    pub entities: Vec<Entity>,
}

impl PlayZone {
    /// An empty zone with the given identity and kind.
    pub fn new(id: Id, kind: PlayZoneKind) -> (r: PlayZone)
        ensures
            r.id == id,
            r.kind == kind,
            r.entities@ == Seq::<Entity>::empty(),
    {
        PlayZone { id, kind, entities: Vec::new() }
    }
}

/// A player's mana pool; only green mana exists so far.
#[derive(Debug, Clone, Copy, PartialEq, Eq, Structural)]
pub struct ManaPool {
    pub green: usize,
}

impl ManaPool {
    /// An empty pool.
    pub fn new() -> (r: ManaPool)
        ensures
            r.green == 0,
    {
        ManaPool { green: 0 }
    }
}

/// A player: an identity and a mana pool.
#[derive(Debug, Clone, Copy, PartialEq, Eq, Structural)]
pub struct Player {
    pub id: Id,
    pub mana_pool: ManaPool,
}

impl Player {
    /// A new player with an empty mana pool.
    pub fn new(id: Id) -> (r: Player)
        ensures
            r.id == id,
            r.mana_pool.green == 0,
    {
        Player { id, mana_pool: ManaPool::new() }
    }
}

/// An ordered stage within a turn.
#[derive(Debug, Clone, Copy, PartialEq, Eq, Structural)]
pub enum PlayStep {
    Untap,
    Main1,
    End,
}

/// Mutations to the game state, as first-class events.
#[derive(Debug, Clone, Copy, PartialEq, Eq, Structural)]
pub enum GameMutation {
    GainPriority(Id),
    LosePriority,
    AdvanceStep(PlayStep),
    AdvanceTurn(Id),
    AddEntity { zone_id: Id, entity: Entity },
    MoveEntity { current_zone_id: Id, entity_id: Id, new_zone_id: Id },
}

/// The actions a player can submit in this model.
#[derive(Debug, Clone, Copy, PartialEq, Eq, Structural)]
pub enum PlayerAction {
    PassPriority(Id),
    Concede(Id),
}

/// The players of a game, keyed by identity, plus their turn order.
#[derive(Debug)]
pub struct Players {
    pub map: HashMap<Id, Player>,
    pub turn_order: Vec<Id>,
}

impl Players {
    /// No players yet.
    pub fn new() -> (r: Players)
        ensures
            r.map@ == Map::<Id, Player>::empty(),
            r.turn_order@ == Seq::<Id>::empty(),
    {
        Players { map: HashMap::new(), turn_order: Vec::new() }
    }

    /// Appends a player to the turn order and records them under their
    /// identity.
    pub fn add(&mut self, player: Player)
        ensures
            final(self).map@ == old(self).map@.insert(player.id, player),
            final(self).turn_order@ == old(self).turn_order@.push(player.id),
    {
        self.turn_order.push(player.id);
        self.map.insert(player.id, player);
    }
}

/// Represents the entire game's state in the event-driven model.
#[derive(Debug)]
pub struct PlayState<'a> {
    /// The card pool this game is played with.
    pub descriptor_set: &'a EntityDescriptorSet,
    pub zones: HashMap<Id, PlayZone>,
    pub players: Players,
    /// The player holding priority, if any.
    pub priority: Option<Id>,
    /// The current step of the current turn.
    pub step: PlayStep,
    /// The player whose turn it is.
    pub turn: Id,
    /// Where this game's fresh entity and zone identities come from.
    pub ids: IdSource,
}

/// The map that registers each player of `s` under their identity, a later
/// entry replacing an earlier one with the same identity.
pub open spec fn players_registry(s: Seq<Player>) -> Map<Id, Player>
    decreases s.len(),
{
    if s.len() == 0 {
        Map::empty()
    } else {
        players_registry(s.drop_last()).insert(s.last().id, s.last())
    }
}

impl<'a> PlayState<'a> {
    /// Everything outside the zone table and the identity source is the same
    /// as in `pre`.
    pub open spec fn unchanged_but_zones_and_ids(self, pre: PlayState<'a>) -> bool {
        &&& self.descriptor_set == pre.descriptor_set
        &&& self.players == pre.players
        &&& self.priority == pre.priority
        &&& self.step == pre.step
        &&& self.turn == pre.turn
    }

    /// No entity stored in any zone carries an identity the source has not
    /// handed out yet, so a freshly drawn identity never collides with a
    /// stored one. Construction establishes this, and mutation preserves it
    /// as long as added entities carry identities the source already issued.
    pub open spec fn ids_bounded(self) -> bool {
        forall|z: Id, k: int|
            #![trigger self.zones@[z].entities@[k]]
            self.zones@.contains_key(z) && 0 <= k < self.zones@[z].entities@.len()
                ==> self.zones@[z].entities@[k].id < self.ids.next_id
    }

    /// No zone holds an entity with identity `eid`.
    pub open spec fn lacks_entity(self, eid: Id) -> bool {
        forall|z: Id, k: int|
            #![trigger self.zones@[z].entities@[k]]
            self.zones@.contains_key(z) && 0 <= k < self.zones@[z].entities@.len()
                ==> self.zones@[z].entities@[k].id != eid
    }

    /// The only entity with identity `eid` sits in zone `zid` at position `j`.
    pub open spec fn only_occurrence_at(self, zid: Id, j: int, eid: Id) -> bool {
        forall|z: Id, k: int|
            #![trigger self.zones@[z].entities@[k]]
            self.zones@.contains_key(z) && 0 <= k < self.zones@[z].entities@.len()
                && self.zones@[z].entities@[k].id == eid ==> z == zid && k == j
    }

    /// Builds a fresh game over the given card pool: one battlefield, then a
    /// hand and a library for each player, in roster order; the first player
    /// holds priority and their turn begins at the untap step.
    pub fn new(players: Vec<Player>, descriptor_set: &'a EntityDescriptorSet, ids: IdSource) -> (r:
        PlayState<'a>)
        requires
            players@.len() > 0,
            ids.next_id + 1 + 2 * players@.len() <= usize::MAX,
        ensures
            r.descriptor_set == descriptor_set,
            r.priority == Some(players@[0].id),
            r.step == PlayStep::Untap,
            r.ids_bounded(),
            r.turn == players@[0].id,
            r.ids.next_id == ids.next_id + 1 + 2 * players@.len(),
            r.players.turn_order@.len() == players@.len(),
            forall|i: int| 0 <= i < players@.len() ==> r.players.turn_order@[i] == players@[i].id,
            r.players.map@ == players_registry(players@),
            forall|zid: Id| #[trigger]
                r.zones@.contains_key(zid) <==> ids.next_id <= zid < ids.next_id + 1 + 2
                    * players@.len(),
            forall|zid: Id| #[trigger]
                r.zones@.contains_key(zid) ==> r.zones@[zid].id == zid
                    && r.zones@[zid].entities@ == Seq::<Entity>::empty(),
            r.zones@[ids.next_id].kind == PlayZoneKind::Battlefield,
            forall|i: int|
                #![trigger players@[i]]
                0 <= i < players@.len() ==> {
                    &&& r.zones@[(ids.next_id + 1 + 2 * i) as usize].kind == PlayZoneKind::Hand(
                        players@[i].id,
                    )
                    &&& r.zones@[(ids.next_id + 2 + 2 * i) as usize].kind == PlayZoneKind::Library(
                        players@[i].id,
                    )
                },
    {
        let ghost start: Id = ids.next_id;

        let first_id = players[0].id;

        let mut creating = PlayState {
            descriptor_set,
            zones: HashMap::new(),
            players: Players::new(),
            priority: Some(first_id),
            step: PlayStep::Untap,
            turn: first_id,
            ids,
        };

        let battlefield_id = get_id(&mut creating.ids);
        creating.zones.insert(
            battlefield_id,
            PlayZone::new(battlefield_id, PlayZoneKind::Battlefield),
        );

        let player_count = players.len();
        let mut i: usize = 0;
        while i < player_count
            invariant
                player_count == players@.len(),
                0 < players@.len(),
                start + 1 + 2 * players@.len() <= usize::MAX,
                i <= player_count,
                creating.descriptor_set == descriptor_set,
                creating.priority == Some(players@[0].id),
                creating.step == PlayStep::Untap,
                creating.turn == players@[0].id,
                creating.ids.next_id == start + 1 + 2 * i,
                creating.players.turn_order@.len() == i,
                forall|j: int| 0 <= j < i ==> creating.players.turn_order@[j] == players@[j].id,
                creating.players.map@ == players_registry(players@.take(i as int)),
                forall|zid: Id| #[trigger]
                    creating.zones@.contains_key(zid) <==> start <= zid < start + 1 + 2 * i,
                forall|zid: Id| #[trigger]
                    creating.zones@.contains_key(zid) ==> creating.zones@[zid].id == zid
                        && creating.zones@[zid].entities@ == Seq::<Entity>::empty(),
                creating.zones@[start as usize].kind == PlayZoneKind::Battlefield,
                forall|j: int|
                    #![trigger players@[j]]
                    0 <= j < i ==> {
                        &&& creating.zones@[(start + 1 + 2 * j) as usize].kind
                            == PlayZoneKind::Hand(players@[j].id)
                        &&& creating.zones@[(start + 2 + 2 * j) as usize].kind
                            == PlayZoneKind::Library(players@[j].id)
                    },
            decreases player_count - i,
        {
            let player = players[i];

            let hand_id = get_id(&mut creating.ids);
            let hand = PlayZone::new(hand_id, PlayZoneKind::Hand(player.id));
            creating.zones.insert(hand_id, hand);

            let library_id = get_id(&mut creating.ids);
            let library = PlayZone::new(library_id, PlayZoneKind::Library(player.id));
            creating.zones.insert(library_id, library);

            creating.players.add(player);

            proof {
                assert(players@.take(i + 1).drop_last() =~= players@.take(i as int));
                assert(players@.take(i + 1).last() == players@[i as int]);
            }

            i = i + 1;
        }

        proof {
            assert(players@.take(player_count as int) =~= players@);
        }

        creating
    }

    /// Handling of player actions in this model is not implemented yet: the
    /// state is left untouched.
    #[allow(unused_variables)]
    pub fn do_action(&mut self, action: PlayerAction)
        ensures
            *final(self) == *old(self),
    {
    }

    /// The position of the first entity with the given identity, scanning the
    /// zone's entities from the front.
    fn entity_position_in(entities: &Vec<Entity>, entity_id: Id) -> (r: Option<usize>)
        ensures
            (match r {
                Some(j) => j < entities.len() && entities@[j as int].id == entity_id && (forall|
                    k: int,
                |
                    0 <= k < j ==> entities@[k].id != entity_id),
                None => forall|k: int| 0 <= k < entities@.len() ==> entities@[k].id != entity_id,
            }),
    {
        let mut j: usize = 0;
        while j < entities.len()
            invariant
                j <= entities.len(),
                forall|k: int| 0 <= k < j ==> entities@[k].id != entity_id,
            decreases entities.len() - j,
        {
            if entities[j].id == entity_id {
                return Some(j);
            }
            j = j + 1;
        }
        None
    }

    /// Applies one mutation event. An event that names a missing zone —
    /// source or destination — or an entity its zone does not hold, does
    /// nothing at all. A moved entity leaves its zone and re-enters the new
    /// zone under a fresh identity.
    #[verifier::rlimit(50)]
    pub fn mutate(&mut self, event: GameMutation)
        requires
            (event matches GameMutation::MoveEntity { .. } ==> old(self).ids.next_id < usize::MAX),
        ensures
            (old(self).ids_bounded() && (event matches GameMutation::AddEntity { entity, .. }
                ==> entity.id < old(self).ids.next_id)) ==> final(self).ids_bounded(),
            (match event {
                GameMutation::GainPriority(player_id) => *final(self) == (PlayState {
                    priority: Some(player_id),
                    ..*old(self)
                }),
                GameMutation::LosePriority => *final(self) == (PlayState {
                    priority: None,
                    ..*old(self)
                }),
                GameMutation::AdvanceStep(next_step) => *final(self) == (PlayState {
                    step: next_step,
                    ..*old(self)
                }),
                GameMutation::AdvanceTurn(player_id) => *final(self) == (PlayState {
                    turn: player_id,
                    ..*old(self)
                }),
                GameMutation::AddEntity { zone_id, entity } => {
                    if old(self).zones@.contains_key(zone_id) {
                        &&& final(self).unchanged_but_zones_and_ids(*old(self))
                        &&& final(self).ids == old(self).ids
                        &&& final(self).zones@.dom() == old(self).zones@.dom()
                        &&& final(self).zones@[zone_id].kind == old(self).zones@[zone_id].kind
                        &&& final(self).zones@[zone_id].id == old(self).zones@[zone_id].id
                        &&& final(self).zones@[zone_id].entities@ == old(self).zones@[zone_id].entities@.push(entity)
                        &&& (forall|z: Id|
                            #[trigger] old(self).zones@.contains_key(z) && z != zone_id ==> final(self).zones@[z] == old(self).zones@[z])
                    } else {
                        *final(self) == *old(self)
                    }
                },
                GameMutation::MoveEntity { current_zone_id, entity_id, new_zone_id } => {
                    if !old(self).zones@.contains_key(current_zone_id) {
                        *final(self) == *old(self)
                    } else {
                        let src = old(self).zones@[current_zone_id].entities@;
                        if forall|k: int| 0 <= k < src.len() ==> src[k].id != entity_id {
                            *final(self) == *old(self)
                        } else if !old(self).zones@.contains_key(new_zone_id) {
                            // A move with no destination fails completely: the
                            // state is left untouched.
                            *final(self) == *old(self)
                        } else {
                            exists|j: int|
                                {
                                    &&& 0 <= j < src.len()
                                    &&& src[j].id == entity_id
                                    &&& (forall|k: int| 0 <= k < j ==> src[k].id != entity_id)
                                    &&& ({
                                        let fresh = (Entity {
                                            id: old(self).ids.next_id,
                                            ..src[j]
                                        });
                                        let removed = src.remove(j);
                                        &&& final(self).unchanged_but_zones_and_ids(*old(self))
                                        &&& final(self).ids.next_id == old(self).ids.next_id + 1
                                        &&& (old(self).ids_bounded() ==> fresh.id != entity_id)
                                        &&& ((old(self).ids_bounded() && old(
                                            self,
                                        ).only_occurrence_at(current_zone_id, j, entity_id))
                                            ==> final(self).lacks_entity(entity_id))
                                        &&& final(self).zones@.dom() == old(self).zones@.dom()
                                        &&& (forall|z: Id| #[trigger]
                                            old(self).zones@.contains_key(z) ==> final(self).zones@[z].kind == old(self).zones@[z].kind && final(self).zones@[z].id == old(self).zones@[z].id)
                                        &&& (if new_zone_id == current_zone_id {
                                            &&& final(self).zones@[current_zone_id].entities@
                                                == removed.push(fresh)
                                            &&& (forall|z: Id|
                                                #[trigger] old(self).zones@.contains_key(z) && z
                                                    != current_zone_id ==> final(self).zones@[z]
                                                    == old(self).zones@[z])
                                        } else {
                                            &&& final(self).zones@[current_zone_id].entities@
                                                == removed
                                            &&& final(self).zones@[new_zone_id].entities@ == old(self).zones@[new_zone_id].entities@.push(fresh)
                                            &&& (forall|z: Id|
                                                #[trigger] old(self).zones@.contains_key(z) && z
                                                    != current_zone_id && z != new_zone_id
                                                    ==> final(self).zones@[z] == old(self).zones@[z])
                                        })
                                    })
                                }
                        }
                    }
                },
            }),
    {
        match event {
            GameMutation::AddEntity { zone_id, entity } => {
                if !self.zones.contains_key(&zone_id) {
                    return;
                }
                let mut zone = match self.zones.remove(&zone_id) {
                    Some(zone) => zone,
                    None => {
                        return vstd::pervasive::unreached();
                    },
                };

                zone.entities.push(entity);
                self.zones.insert(zone_id, zone);

                proof {
                    assert(self.zones@.dom() =~= old(self).zones@.dom());
                    if old(self).ids_bounded() && entity.id < old(self).ids.next_id {
                        assert forall|z: Id, k: int|
                            #![trigger self.zones@[z].entities@[k]]
                            self.zones@.contains_key(z) && 0 <= k
                                < self.zones@[z].entities@.len() implies self.zones@[z].entities@[k].id
                            < self.ids.next_id by {
                            if z == zone_id && k == old(self).zones@[z].entities@.len() {
                                assert(self.zones@[z].entities@[k] == entity);
                            } else {
                                assert(self.zones@[z].entities@[k] == old(
                                    self,
                                ).zones@[z].entities@[k]);
                            }
                        }
                    }
                }
            },
            GameMutation::MoveEntity { current_zone_id, entity_id, new_zone_id } => {
                let entity_index = match self.zones.get(&current_zone_id) {
                    Some(zone) => Self::entity_position_in(&zone.entities, entity_id),
                    None => {
                        return;
                    },
                };

                let entity_index = match entity_index {
                    Some(v) => v,
                    None => {
                        return;
                    },
                };

                // The move must have somewhere to go before anything changes:
                // a failed move leaves the state untouched.
                if !self.zones.contains_key(&new_zone_id) {
                    return;
                }

                let mut source_zone = match self.zones.remove(&current_zone_id) {
                    Some(zone) => zone,
                    None => {
                        return vstd::pervasive::unreached();
                    },
                };
                let moved = source_zone.entities.remove(entity_index);
                let fresh = moved.clone_new(&mut self.ids);
                self.zones.insert(current_zone_id, source_zone);

                match self.zones.remove(&new_zone_id) {
                    Some(mut new_zone) => {
                        new_zone.entities.push(fresh);
                        self.zones.insert(new_zone_id, new_zone);
                    },
                    None => {
                        return vstd::pervasive::unreached();
                    },
                }

                proof {
                    assert(self.zones@.dom() =~= old(self).zones@.dom());
                    let pre = *old(self);
                    let srcseq = pre.zones@[current_zone_id].entities@;
                    if pre.ids_bounded() {
                        assert(srcseq[entity_index as int].id < pre.ids.next_id);
                        srcseq.remove_ensures(entity_index as int);
                        assert forall|z: Id, k: int|
                            #![trigger self.zones@[z].entities@[k]]
                            self.zones@.contains_key(z) && 0 <= k
                                < self.zones@[z].entities@.len() implies self.zones@[z].entities@[k].id
                            < self.ids.next_id by {
                            let before = if z == current_zone_id {
                                srcseq.remove(entity_index as int)
                            } else {
                                pre.zones@[z].entities@
                            };
                            if z == new_zone_id {
                                if k < before.len() {
                                    assert(self.zones@[z].entities@[k] == before[k]);
                                } else {
                                    assert(self.zones@[z].entities@[k] == fresh);
                                }
                            } else {
                                assert(self.zones@[z].entities@[k] == before[k]);
                            }
                        }
                    }
                    if pre.ids_bounded() && pre.only_occurrence_at(
                        current_zone_id,
                        entity_index as int,
                        entity_id,
                    ) {
                        assert forall|z: Id, k: int|
                            #![trigger self.zones@[z].entities@[k]]
                            self.zones@.contains_key(z) && 0 <= k
                                < self.zones@[z].entities@.len() implies self.zones@[z].entities@[k].id
                            != entity_id by {
                            let before = if z == current_zone_id {
                                srcseq.remove(entity_index as int)
                            } else {
                                pre.zones@[z].entities@
                            };
                            if z == new_zone_id && k == before.len() {
                                assert(self.zones@[z].entities@[k] == fresh);
                            } else {
                                assert(self.zones@[z].entities@[k] == before[k]);
                                if z == current_zone_id {
                                    if k < entity_index as int {
                                        assert(before[k] == srcseq[k]);
                                    } else {
                                        assert(before[k] == srcseq[k + 1]);
                                    }
                                }
                            }
                        }
                    }
                }
            },
            GameMutation::GainPriority(player_id) => {
                self.priority = Some(player_id);
            },
            GameMutation::LosePriority => {
                self.priority = None;
            },
            GameMutation::AdvanceStep(next_step) => {
                self.step = next_step;
            },
            GameMutation::AdvanceTurn(player_id) => {
                self.turn = player_id;
            },
        }
    }

    /// Finds the identity of a zone that passes the given condition, if one
    /// exists.
    pub fn find_zone_where<T: Fn(Id, &PlayZone) -> bool>(&self, condition: T) -> (r: Option<Id>)
        requires
            forall|k: Id, z: &PlayZone| #[trigger] call_requires(condition, (k, z)),
        ensures
            (match r {
                Some(zid) => self.zones@.contains_key(zid) && call_ensures(
                    condition,
                    (zid, &self.zones@[zid]),
                    true,
                ),
                None => forall|zid: Id| #[trigger]
                    self.zones@.contains_key(zid) ==> call_ensures(
                        condition,
                        (zid, &self.zones@[zid]),
                        false,
                    ),
            }),
    {
        for kv in it: self.zones.iter()
            invariant
                forall|k: Id, z: &PlayZone| #[trigger] call_requires(condition, (k, z)),
                forall|zid: Id| #[trigger]
                    self.zones@.contains_key(zid) ==> call_ensures(
                        condition,
                        (zid, &self.zones@[zid]),
                        false,
                    ) || (exists|j: int|
                        it.index() <= j < it.seq().len() && it.seq()[j] == (
                            &zid,
                            &self.zones@[zid],
                        )),
        {
            let (key, value) = kv;
            if condition(*key, value) {
                return Some(*key);
            }
            proof {
                assert forall|zid: Id| #[trigger]
                    self.zones@.contains_key(zid) implies call_ensures(
                    condition,
                    (zid, &self.zones@[zid]),
                    false,
                ) || (exists|j: int|
                    it.index() + 1 <= j < it.seq().len() && it.seq()[j] == (
                        &zid,
                        &self.zones@[zid],
                    )) by {
                    if !call_ensures(condition, (zid, &self.zones@[zid]), false) {
                        let j = choose|j: int|
                            it.index() <= j < it.seq().len() && it.seq()[j] == (
                                &zid,
                                &self.zones@[zid],
                            );
                        if j == it.index() {
                            assert(call_ensures(condition, (*key, value), false));
                            assert(false);
                        }
                    }
                }
            }
        }

        None
    }
}

} // verus!
