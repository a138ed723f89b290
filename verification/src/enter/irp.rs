//! The request packet of a parked ENTER: what was observed of it, and who may
//! complete it.

use vstd::prelude::*;

verus! {

/// A packet's address as it was observed. It is a name, never dereferenced.
#[derive(Clone, Copy, Debug, PartialEq, Eq, Structural)]
pub struct IrpObservation {
    address: usize,
}

impl IrpObservation {
    /// The observed address.
    pub closed spec fn address(self) -> usize {
        self.address
    }

    #[verifier::type_invariant]
    closed spec fn inv(self) -> bool {
        self.address != 0
    }

    /// Observe an address; the null address names no packet.
    pub fn from_raw(value: usize) -> (observed: Option<Self>)
        ensures
            match observed {
                Some(irp) => value != 0 && irp.address() == value,
                None => value == 0,
            },
    {
        if value == 0 {
            None
        } else {
            Some(Self { address: value })
        }
    }

    /// The observed address, which is not null.
    pub fn get(self) -> (address: usize)
        ensures
            address == self.address(),
            address != 0,
    {
        proof {
            use_type_invariant(self);
        }
        self.address
    }

    /// The observed address, which is not null.
    pub fn observed_address(self) -> (address: usize)
        ensures
            address == self.address(),
            address != 0,
    {
        self.get()
    }
}

/// Two observations of one address are the same observation.
pub proof fn law_address_names_the_packet(one: IrpObservation, other: IrpObservation)
    requires
        one.address() == other.address(),
    ensures
        one == other,
{
}

/// What a cancel callback found when it handed a packet over.
#[derive(Clone, Copy, Debug, PartialEq, Eq, Structural)]
pub enum CsqCancelCompletion {
    /// The slot names no packet: the handed one was removed and is adopted.
    AdoptRemoved,
    /// The slot already names the handed packet.
    AlreadyNamed,
    /// The slot names another packet.
    ForeignIrp,
    /// No packet was handed over.
    NoIrp,
}

/// Sort a cancel callback by what the slot names and what it handed over.
pub fn classify_csq_cancel_completion(
    slot: Option<IrpObservation>,
    handed: Option<IrpObservation>,
) -> (found: CsqCancelCompletion)
    ensures
        found == (if handed is None {
            CsqCancelCompletion::NoIrp
        } else if slot is None {
            CsqCancelCompletion::AdoptRemoved
        } else if slot == handed {
            CsqCancelCompletion::AlreadyNamed
        } else {
            CsqCancelCompletion::ForeignIrp
        }),
{
    match (slot, handed) {
        (_, None) => CsqCancelCompletion::NoIrp,
        (None, Some(_)) => CsqCancelCompletion::AdoptRemoved,
        (Some(named), Some(handed)) => if named == handed {
            CsqCancelCompletion::AlreadyNamed
        } else {
            CsqCancelCompletion::ForeignIrp
        },
    }
}

/// Where a packet is on its one-way path to completion.
#[derive(Clone, Copy, Debug, PartialEq, Eq, Structural)]
pub enum IrpAxis {
    Queued,
    Dequeued,
    Completing,
    Completed,
}

impl IrpAxis {
    /// How far along the path.
    pub open spec fn rank(self) -> int {
        match self {
            IrpAxis::Queued => 0,
            IrpAxis::Dequeued => 1,
            IrpAxis::Completing => 2,
            IrpAxis::Completed => 3,
        }
    }

    /// The next stop, if the packet is not completed: exactly one further along.
    pub fn next(self) -> (next: Option<Self>)
        ensures
            match next {
                Some(axis) => axis.rank() == self.rank() + 1,
                None => self == IrpAxis::Completed,
            },
    {
        match self {
            IrpAxis::Queued => Some(IrpAxis::Dequeued),
            IrpAxis::Dequeued => Some(IrpAxis::Completing),
            IrpAxis::Completing => Some(IrpAxis::Completed),
            IrpAxis::Completed => None,
        }
    }

    /// The driver still owes this packet its completion.
    pub fn driver_owns_completion(self) -> (owns: bool)
        ensures
            owns <==> self != IrpAxis::Completed,
    {
        matches!(self, IrpAxis::Queued | IrpAxis::Dequeued | IrpAxis::Completing)
    }
}

/// What a worker may do with a ring's parked packet.
#[must_use]
#[derive(Clone, Copy, Debug, PartialEq, Eq, Structural)]
pub enum WorkerDequeueAuthority {
    /// The packet left the queue and is the driver's to complete.
    ReleasedToDriver(IrpObservation),
    /// The packet is still queued: no handoff was published.
    NoHandoffPublished,
    /// There is no packet to complete.
    NoParkedIrp,
}

/// Sort a worker's dequeue by the packet's stop and what the slot names.
pub fn classify_worker_dequeue(axis: Option<IrpAxis>, slot: Option<IrpObservation>) -> (authority:
    WorkerDequeueAuthority)
    ensures
        authority == (if axis == Some(IrpAxis::Queued) {
            WorkerDequeueAuthority::NoHandoffPublished
        } else if axis == Some(IrpAxis::Dequeued) && slot is Some {
            WorkerDequeueAuthority::ReleasedToDriver(slot->0)
        } else {
            WorkerDequeueAuthority::NoParkedIrp
        }),
{
    match (axis, slot) {
        (Some(IrpAxis::Queued), _) => WorkerDequeueAuthority::NoHandoffPublished,
        (Some(IrpAxis::Dequeued), Some(irp)) => WorkerDequeueAuthority::ReleasedToDriver(irp),
        _ => WorkerDequeueAuthority::NoParkedIrp,
    }
}

/// A packet that a cancel hands over is told apart by what the slot names: without
/// a packet there is nothing to tell; one handed to an empty slot is adopted; one
/// that the slot names is known already; any other is foreign.
pub proof fn law_cancelled_packet_is_told_apart(
    slot: Option<IrpObservation>,
    handed: Option<IrpObservation>,
    found: CsqCancelCompletion,
)
    requires
        call_ensures(classify_csq_cancel_completion, (slot, handed), found),
    ensures
        found == CsqCancelCompletion::NoIrp <==> handed is None,
        found == CsqCancelCompletion::AdoptRemoved <==> handed is Some && slot is None,
        found == CsqCancelCompletion::AlreadyNamed <==> handed is Some && slot == handed,
        found == CsqCancelCompletion::ForeignIrp <==> handed is Some && slot is Some && slot
            != handed,
{
}

/// A packet goes from queued to dequeued, to completing, to completed, and no
/// further. Until it is completed the driver owns its completion.
pub proof fn law_packet_goes_one_way(axis: IrpAxis, next: Option<IrpAxis>, owns: bool)
    requires
        call_ensures(IrpAxis::next, (axis,), next),
        call_ensures(IrpAxis::driver_owns_completion, (axis,), owns),
    ensures
        next == Some(IrpAxis::Dequeued) <==> axis == IrpAxis::Queued,
        next == Some(IrpAxis::Completing) <==> axis == IrpAxis::Dequeued,
        next == Some(IrpAxis::Completed) <==> axis == IrpAxis::Completing,
        next is None <==> axis == IrpAxis::Completed,
        next != Some(IrpAxis::Queued),
        owns <==> next is Some,
{
}

/// A worker may complete exactly a packet that was dequeued and that the slot
/// names, and it is that packet. A queued one was never handed over; in every other
/// state there is none to complete.
pub proof fn law_worker_completes_the_dequeued_packet(
    axis: Option<IrpAxis>,
    slot: Option<IrpObservation>,
    authority: WorkerDequeueAuthority,
)
    requires
        call_ensures(classify_worker_dequeue, (axis, slot), authority),
    ensures
        authority == WorkerDequeueAuthority::NoHandoffPublished <==> axis == Some(IrpAxis::Queued),
        authority is ReleasedToDriver <==> axis == Some(IrpAxis::Dequeued) && slot is Some,
        authority matches WorkerDequeueAuthority::ReleasedToDriver(irp) ==> slot == Some(irp),
        authority == WorkerDequeueAuthority::NoParkedIrp <==> axis != Some(IrpAxis::Queued) && !(
        axis == Some(IrpAxis::Dequeued) && slot is Some),
{
}

/// An observed packet has the address it was made from, and no packet has none.
pub proof fn law_packet_keeps_its_address(value: usize, observed: Option<IrpObservation>)
    requires
        call_ensures(IrpObservation::from_raw, (value,), observed),
    ensures
        observed is None <==> value == 0,
        observed matches Some(irp) ==> irp.address() == value,
{
}

} // verus!
