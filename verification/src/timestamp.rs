use vstd::prelude::*;

verus! {

/// Orders zone-entry events: an object that enters a zone later gets a
/// strictly greater timestamp.
pub type Timestamp = u64;

/// A source of fresh timestamps: hands each value out once, in increasing
/// order, starting from zero.
#[derive(Debug, Clone, Copy, PartialEq, Eq, Structural)]
pub struct TimestampSource {
    /// The next timestamp that will be handed out.
    pub next_timestamp: Timestamp,
}

/// Hands out the next timestamp from the source; the same source never
/// returns the same value twice.
pub fn get_timestamp(ts: &mut TimestampSource) -> (r: Timestamp)
    requires
        old(ts).next_timestamp < u64::MAX,
    ensures
        r == old(ts).next_timestamp,
        final(ts).next_timestamp == old(ts).next_timestamp + 1,
{
    let r = ts.next_timestamp;
    ts.next_timestamp = ts.next_timestamp + 1;
    r
}

} // verus!
