use vstd::prelude::*;

verus! {

/// A process-unique identity for players, zones and objects.
pub type Id = usize;

/// A source of fresh identities: hands each value out once, in increasing
/// order, starting from zero.
///
/// Identity generation is explicit state rather than a hidden global, so a
/// `Game` owns its own source and independent games never collide.
#[derive(Debug, Clone, Copy, PartialEq, Eq, Structural)]
pub struct IdSource {
    /// The next identity that will be handed out.
    pub next_id: Id,
}

/// Hands out the next identity from the source; the same source never
/// returns the same value twice.
pub fn get_id(ids: &mut IdSource) -> (r: Id)
    requires
        old(ids).next_id < usize::MAX,
    ensures
        r == old(ids).next_id,
        final(ids).next_id == old(ids).next_id + 1,
{
    let r = ids.next_id;
    ids.next_id = ids.next_id + 1;
    r
}

} // verus!
