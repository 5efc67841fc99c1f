use vstd::prelude::*;

use crate::id::Id;

verus! {

/// Contains additional information about a zone, like what kind of zone it is.
#[derive(Debug, Clone, Copy, PartialEq, Eq, Structural)]
pub enum ZoneDetails {
    /// The shared zone where permanents sit.
    Battlefield,
    /// A hand, permanently bound to one player.
    Hand { player_id: Id },
}

/// Represents a single zone in the game: a named container for objects.
#[derive(Debug, Clone, Copy, PartialEq, Eq, Structural)]
pub struct Zone {
    pub id: Id,
    pub details: ZoneDetails,
}

impl Zone {
    /// Create a version of the zone that contains only information that the
    /// given player would have. A zone record itself holds nothing hidden, so
    /// the view is the record unchanged; finer redaction rules are a
    /// collaborator concern.
    pub fn view_as_player(&self, _player_id: Id) -> (r: Zone)
        ensures
            r == *self,
    {
        *self
    }
}

} // verus!
