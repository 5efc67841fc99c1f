use vstd::prelude::*;

use crate::id::Id;

verus! {

/// Describes a player actively engaged in a duel.
#[derive(Debug, Clone, Copy, PartialEq, Eq, Structural)]
pub struct Player {
    pub id: Id,
}

} // verus!
