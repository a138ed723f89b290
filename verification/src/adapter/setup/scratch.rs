//! The scratch buffers of a session: one per ring for its drain, and one for the
//! fence.

use vstd::prelude::*;

use crate::adapter::AdapterPlanError;

verus! {

/// Which scratch buffer is meant.
#[derive(Clone, Copy, Debug, PartialEq, Eq, Structural)]
pub struct ScratchIdentity {
    ring: Option<u32>,
}

impl View for ScratchIdentity {
    /// The ring whose drain the buffer serves, or none for the fence.
    type V = Option<u32>;

    closed spec fn view(&self) -> Option<u32> {
        self.ring
    }
}

impl ScratchIdentity {
    /// The drain scratch of one ring.
    pub fn drain(ring_index: u32) -> (scratch: ScratchIdentity)
        ensures
            scratch@ == Some(ring_index),
    {
        ScratchIdentity { ring: Some(ring_index) }
    }

    /// The fence scratch.
    pub fn fence() -> (scratch: ScratchIdentity)
        ensures
            scratch@ == None::<u32>,
    {
        ScratchIdentity { ring: None }
    }
}

/// The scratch buffer at `place` of a session with `ring_count` rings: the rings
/// in order, then the fence.
pub open spec fn scratch_at(ring_count: u32, place: int) -> Option<u32> {
    if place < ring_count {
        Some(place as u32)
    } else {
        None
    }
}

/// Write the scratch buffers of a session with `ring_count` rings, and say how
/// many there are. A roster that does not fit is refused and nothing is written.
pub fn scratch_roster(ring_count: u32, out: &mut [ScratchIdentity]) -> (written: Result<
    usize,
    AdapterPlanError,
>)
    ensures
        final(out)@.len() == old(out)@.len(),
        old(out)@.len() <= ring_count <==> written is Err,
        match written {
            Err(error) => error == AdapterPlanError::Capacity && final(out)@ == old(out)@,
            Ok(count) => count == ring_count + 1 && (forall|place: int|
                0 <= place < count ==> (#[trigger] final(out)@[place])@ == scratch_at(
                    ring_count,
                    place,
                )) && (forall|place: int|
                count <= place < final(out)@.len() ==> #[trigger] final(out)@[place]
                    == old(out)@[place]),
        },
{
    if out.len() <= ring_count as usize {
        return Err(AdapterPlanError::Capacity);
    }
    let mut ring_index: u32 = 0;
    while ring_index < ring_count
        invariant
            ring_index <= ring_count < out@.len(),
            out@.len() == old(out)@.len(),
            forall|place: int|
                0 <= place < ring_index ==> (#[trigger] out@[place])@ == Some(place as u32),
            forall|place: int|
                ring_index <= place < out@.len() ==> #[trigger] out@[place] == old(out)@[place],
        decreases ring_count - ring_index,
    {
        out[ring_index as usize] = ScratchIdentity::drain(ring_index);
        ring_index += 1;
    }
    out[ring_count as usize] = ScratchIdentity::fence();
    Ok(ring_count as usize + 1)
}

/// No two scratch buffers of a roster are the same.
pub proof fn law_scratch_is_distinct(ring_count: u32, first: int, second: int)
    requires
        0 <= first < second <= ring_count,
    ensures
        scratch_at(ring_count, first) != scratch_at(ring_count, second),
{
}

/// Each ring's scratch stands at the ring's own place, and the fence's stands
/// after the last of them.
pub proof fn law_rings_come_in_order_and_the_fence_last(ring_count: u32, ring: u32)
    ensures
        ring < ring_count ==> scratch_at(ring_count, ring as int) == Some(ring),
        scratch_at(ring_count, ring_count as int) == None::<u32>,
        forall|place: int|
            0 <= place <= ring_count && #[trigger] scratch_at(ring_count, place) is None ==> place
                == ring_count,
{
}

/// A roster names every ring's drain scratch in order and the fence's after them,
/// exactly if there is room for all; what is behind it stays, and where there is no
/// room nothing is written.
pub proof fn law_roster_is_written_whole(
    ring_count: u32,
    out: &mut [ScratchIdentity],
    written: Result<usize, AdapterPlanError>,
)
    requires
        call_ensures(scratch_roster, (ring_count, out), written),
    ensures
        written is Ok <==> old(out)@.len() > ring_count,
        written matches Ok(count) ==> {
            &&& count == ring_count + 1
            &&& final(out)@.len() == old(out)@.len()
            &&& forall|ring: int|
                0 <= ring < ring_count ==> (#[trigger] final(out)@[ring])@ == Some(ring as u32)
            &&& final(out)@[ring_count as int]@ == None::<u32>
            &&& forall|place: int|
                count <= place < final(out)@.len() ==> #[trigger] final(out)@[place] == old(
                    out
                )@[place]
        },
        written is Err ==> written == Err::<usize, _>(AdapterPlanError::Capacity) && final(out)@
            == old(out)@,
{
}

/// A drain's scratch is told apart by its ring, and the fence's from all of them.
pub proof fn law_scratch_is_told_apart(
    one: u32,
    other: u32,
    first: ScratchIdentity,
    second: ScratchIdentity,
    fence: ScratchIdentity,
)
    requires
        call_ensures(ScratchIdentity::drain, (one,), first),
        call_ensures(ScratchIdentity::drain, (other,), second),
        call_ensures(ScratchIdentity::fence, (), fence),
    ensures
        first@ == second@ <==> one == other,
        first@ == Some(one),
        fence@ != first@,
        fence@ is None,
{
}

} // verus!
