use vstd::prelude::*;

use std::collections::HashMap;

use crate::id::Id;
use crate::timestamp::Timestamp;

verus! {

/// The closed set of concrete object kinds, with the state each kind carries.
#[derive(Debug, Clone, Copy, PartialEq, Eq, Structural)]
pub enum ObjectDetails {
    Forest {
        // This isn't relevant outside the battlefield
        tapped: bool,
    },
}

/// The closed set of activatable abilities an object can carry.
#[derive(Debug, Clone, Copy, PartialEq, Eq, Structural)]
pub enum Ability {
    /// A mana ability: tap the object, gain one green mana.
    AddGreen,
}

/// Describes an object that exists anywhere in the game.
///
/// The rules dictate that when an object moves to a different zone, it
/// actually becomes a new object, with a new identity and a new timestamp;
/// the payload (`details` and `abilities`) is all that carries over.
#[derive(Debug)]
pub struct Object {
    pub id: Id,
    pub zone: Id,

    /// A monotonically-increasing value describing when the object entered
    /// the zone.
    pub timestamp: Timestamp,

    /// What kind of object this is, and the state that comes with the kind.
    pub details: ObjectDetails,

    /// All of the abilities that this object has available to activate.
    pub abilities: HashMap<Id, Ability>,
}

/// The mathematical value of an `Object`: the same fields, with the ability
/// table seen as a map.
pub ghost struct ObjectView {
    pub id: Id,
    pub zone: Id,
    pub timestamp: Timestamp,
    pub details: ObjectDetails,
    pub abilities: Map<Id, Ability>,
}

impl View for Object {
    type V = ObjectView;

    open spec fn view(&self) -> ObjectView {
        ObjectView {
            id: self.id,
            zone: self.zone,
            timestamp: self.timestamp,
            details: self.details,
            abilities: self.abilities@,
        }
    }
}

impl Clone for Object {
    fn clone(&self) -> (r: Object)
        ensures
            r@ == self@,
    {
        Object {
            id: self.id,
            zone: self.zone,
            timestamp: self.timestamp,
            details: self.details,
            abilities: self.abilities.clone(),
        }
    }
}

} // verus!
