//! What one ring needs to park requests, built together and branded alike.

use crate::enter::ownership::{LedgerModel, PendingOwnerLedger};
use crate::enter::role::{EnterStateIds, RingEnterState};
use crate::enter::schedule::{
    InstallAxis, PendingWorkerSchedule, ScheduleModel, WorkerScheduleState,
};
use crate::enter::storage::CqStorageBindTicket;
use crate::enter::wake::{PendingWakeSlot, WakeModel};
use crate::session::{
    CqStorageBindRight, PendingError, PendingInstallId, RoleError, SessionRingBrand,
};
use vstd::prelude::*;

verus! {

/// The largest result a parked request may have.
pub const MAX_PENDING_RESULT_CAPACITY: usize = 0x10_0000;

/// Why a ring's runtime cannot be built.
#[derive(Clone, Copy, Debug, PartialEq, Eq, Structural)]
pub enum RingRuntimeBuildError {
    Role(RoleError),
    InvalidPendingResultCapacity,
}

/// Where a parked request's result goes, and which install occupies it.
#[derive(Debug)]
pub struct PendingResultSlot {
    brand: SessionRingBrand,
    install: Option<PendingInstallId>,
    capacity: usize,
}

/// What a result slot holds.
pub struct ResultSlotModel {
    pub brand: SessionRingBrand,
    pub install: Option<PendingInstallId>,
    pub capacity: usize,
}

impl View for PendingResultSlot {
    type V = ResultSlotModel;

    closed spec fn view(&self) -> ResultSlotModel {
        ResultSlotModel { brand: self.brand, install: self.install, capacity: self.capacity }
    }
}

impl PendingResultSlot {
    /// The ring this slot belongs to.
    pub fn brand(&self) -> (brand: SessionRingBrand)
        ensures
            brand == self@.brand,
    {
        self.brand
    }

    /// How many bytes a result may have.
    pub fn capacity(&self) -> (capacity: usize)
        ensures
            capacity == self@.capacity,
    {
        self.capacity
    }

    /// The install that occupies the slot, if any.
    pub fn install(&self) -> (install: Option<PendingInstallId>)
        ensures
            install == self@.install,
    {
        self.install
    }

    /// Claim the slot for one install.
    pub fn occupy(&mut self, install: PendingInstallId) -> (result: Result<(), PendingError>)
        ensures
            match result {
                Ok(()) => {
                    &&& install.brand == old(self)@.brand
                    &&& old(self)@.install is None
                    &&& final(self)@ == (ResultSlotModel { install: Some(install), ..old(self)@ })
                },
                Err(PendingError::WrongRing) => install.brand != old(self)@.brand && *final(self)
                    == *old(self),
                Err(PendingError::SlotOccupied) => {
                    &&& install.brand == old(self)@.brand
                    &&& old(self)@.install is Some
                    &&& *final(self) == *old(self)
                },
                Err(_) => false,
            },
    {
        if install.brand != self.brand {
            return Err(PendingError::WrongRing);
        }
        if self.install.is_some() {
            return Err(PendingError::SlotOccupied);
        }
        self.install = Some(install);
        Ok(())
    }

    /// Give the slot up for another install.
    pub fn vacate(&mut self, install: PendingInstallId) -> (result: Result<(), PendingError>)
        ensures
            match result {
                Ok(()) => {
                    &&& old(self)@.install == Some(install)
                    &&& final(self)@ == (ResultSlotModel { install: None, ..old(self)@ })
                },
                Err(error) => {
                    &&& error == PendingError::WrongInstall
                    &&& old(self)@.install != Some(install)
                    &&& *final(self) == *old(self)
                },
            },
    {
        if self.install != Some(install) {
            return Err(PendingError::WrongInstall);
        }
        self.install = None;
        Ok(())
    }

    /// The slot is free for an install.
    pub fn is_reusable(&self) -> (reusable: bool)
        ensures
            reusable <==> self@.install is None,
    {
        self.install.is_none()
    }
}

/// A ring's runtime before its storage is bound.
#[derive(Debug)]
pub struct RingRuntimeParts {
    state: RingEnterState,
    result_slot: PendingResultSlot,
    owners: PendingOwnerLedger,
    wake: PendingWakeSlot,
    cq_bind: CqStorageBindRight,
}

/// What a fresh ring's parts are: all of one brand, and empty.
pub open spec fn fresh_parts(
    brand: SessionRingBrand,
    capacity: usize,
    state_id: u64,
    state: RingEnterState,
    result_slot: PendingResultSlot,
    owners: PendingOwnerLedger,
    wake: PendingWakeSlot,
) -> bool {
    &&& state@ == crate::enter::role::fresh_ring(brand.ring_index, state_id, Some(brand))
    &&& result_slot@ == (ResultSlotModel { brand, install: None, capacity })
    &&& owners@ == (LedgerModel { brand, install: None, owners: Set::empty(), closing: false })
    &&& wake@ == (WakeModel { brand, stored: None })
}

impl RingRuntimeParts {
    /// The parts, one by one.
    pub closed spec fn parts(self) -> (
        RingEnterState,
        PendingResultSlot,
        PendingOwnerLedger,
        PendingWakeSlot,
        CqStorageBindRight,
    ) {
        (self.state, self.result_slot, self.owners, self.wake, self.cq_bind)
    }

    /// Take the parts apart.
    pub fn into_parts(self) -> (parts: (
        RingEnterState,
        PendingResultSlot,
        PendingOwnerLedger,
        PendingWakeSlot,
        CqStorageBindRight,
    ))
        ensures
            parts == self.parts(),
    {
        (self.state, self.result_slot, self.owners, self.wake, self.cq_bind)
    }

    /// The ring these parts belong to.
    pub fn brand(&self) -> (brand: SessionRingBrand)
        ensures
            brand == self.parts().1@.brand,
    {
        self.result_slot.brand
    }
}

/// Why a ring's runtime cannot be built, if it cannot.
pub open spec fn build_refusal(
    brand: SessionRingBrand,
    capacity: usize,
    right: SessionRingBrand,
) -> Option<RingRuntimeBuildError> {
    if capacity == 0 || capacity > MAX_PENDING_RESULT_CAPACITY {
        Some(RingRuntimeBuildError::InvalidPendingResultCapacity)
    } else if right != brand {
        Some(RingRuntimeBuildError::Role(RoleError::WrongRing))
    } else {
        None
    }
}

/// Build the parts of one ring. A refusal returns the bind right.
pub fn build_ring_runtime_parts(
    brand: SessionRingBrand,
    pending_result_capacity: usize,
    cq_bind: CqStorageBindRight,
    ids: &mut EnterStateIds,
) -> (result: Result<RingRuntimeParts, (RingRuntimeBuildError, CqStorageBindRight)>)
    ensures
        match result {
            Ok(parts) => {
                &&& build_refusal(brand, pending_result_capacity, cq_bind@) is None
                &&& fresh_parts(
                    brand,
                    pending_result_capacity,
                    old(ids)@,
                    parts.parts().0,
                    parts.parts().1,
                    parts.parts().2,
                    parts.parts().3,
                )
                &&& parts.parts().4 == cq_bind
                &&& final(ids)@ == crate::enter::role::next_state_id(old(ids)@)
            },
            Err((error, returned)) => {
                &&& build_refusal(brand, pending_result_capacity, cq_bind@) == Some(error)
                &&& returned == cq_bind
                &&& *final(ids) == *old(ids)
            },
        },
{
    if pending_result_capacity == 0 || pending_result_capacity > MAX_PENDING_RESULT_CAPACITY {
        return Err((RingRuntimeBuildError::InvalidPendingResultCapacity, cq_bind));
    }
    if cq_bind.brand() != brand {
        return Err((RingRuntimeBuildError::Role(RoleError::WrongRing), cq_bind));
    }
    Ok(
        RingRuntimeParts {
            state: RingEnterState::for_brand(brand, ids),
            result_slot: PendingResultSlot {
                brand,
                install: None,
                capacity: pending_result_capacity,
            },
            owners: PendingOwnerLedger::for_brand(brand),
            wake: PendingWakeSlot::for_brand(brand),
            cq_bind,
        },
    )
}

/// A ring's runtime, ready to park requests once its storage is bound.
#[must_use]
#[derive(Debug)]
pub struct PendingSlotParts {
    pub state: RingEnterState,
    pub result_slot: PendingResultSlot,
    pub owners: PendingOwnerLedger,
    pub wake: PendingWakeSlot,
    pub schedule: PendingWorkerSchedule,
    pub cq_storage: CqStorageBindTicket,
}

impl PendingSlotParts {
    /// The ring these parts belong to.
    pub fn ring_brand(&self) -> (brand: SessionRingBrand)
        ensures
            brand == self.result_slot@.brand,
    {
        self.result_slot.brand
    }
}

/// Build a ring's runtime from the right to bind its storage. A refusal returns
/// the right.
pub fn build_pending_slot_parts(
    cq_bind: CqStorageBindRight,
    pending_result_capacity: usize,
    ids: &mut EnterStateIds,
) -> (result: Result<PendingSlotParts, (RingRuntimeBuildError, CqStorageBindRight)>)
    ensures
        ({
            let brand = cq_bind@;
            let admitted = 0 < pending_result_capacity <= MAX_PENDING_RESULT_CAPACITY;
            match result {
                Ok(parts) => {
                    &&& admitted
                    &&& fresh_parts(
                        brand,
                        pending_result_capacity,
                        old(ids)@,
                        parts.state,
                        parts.result_slot,
                        parts.owners,
                        parts.wake,
                    )
                    &&& parts.schedule@ == (ScheduleModel {
                        brand,
                        install: None,
                        axis: InstallAxis::Installing,
                        state: WorkerScheduleState::Idle,
                    })
                    &&& parts.cq_storage@ == brand
                    &&& final(ids)@ == crate::enter::role::next_state_id(old(ids)@)
                },
                Err((error, returned)) => {
                    &&& !admitted
                    &&& error == RingRuntimeBuildError::InvalidPendingResultCapacity
                    &&& returned == cq_bind
                    &&& *final(ids) == *old(ids)
                },
            }
        }),
{
    let brand = cq_bind.brand();
    let parts = match build_ring_runtime_parts(brand, pending_result_capacity, cq_bind, ids) {
        Ok(parts) => parts,
        Err(refusal) => {
            return Err(refusal);
        },
    };
    let (state, result_slot, owners, wake, cq_bind) = parts.into_parts();
    Ok(
        PendingSlotParts {
            state,
            result_slot,
            owners,
            wake,
            schedule: PendingWorkerSchedule::for_brand(brand),
            cq_storage: CqStorageBindTicket::from_right(cq_bind),
        },
    )
}

/// A ring's runtime is built exactly for a result of one byte to a mebibyte, with
/// the bind right of the ring it is built for. The size is refused first.
pub proof fn law_runtime_is_built_exactly(
    brand: SessionRingBrand,
    capacity: usize,
    right: SessionRingBrand,
)
    ensures
        build_refusal(brand, capacity, right) is None <==> 1 <= capacity <= 0x10_0000 && right
            == brand,
        build_refusal(brand, capacity, right) == Some(
            RingRuntimeBuildError::InvalidPendingResultCapacity,
        ) <==> capacity == 0 || capacity > 0x10_0000,
        build_refusal(brand, capacity, right) == Some(
            RingRuntimeBuildError::Role(RoleError::WrongRing),
        ) <==> 1 <= capacity <= 0x10_0000 && right != brand,
{
}

/// What is built is one ring's throughout, and nothing is parked on it: no install,
/// no owner, no wake, and no owner of either role.
pub proof fn law_fresh_runtime_is_empty(
    brand: SessionRingBrand,
    capacity: usize,
    state_id: u64,
    state: RingEnterState,
    result_slot: PendingResultSlot,
    owners: PendingOwnerLedger,
    wake: PendingWakeSlot,
)
    requires
        fresh_parts(brand, capacity, state_id, state, result_slot, owners, wake),
    ensures
        state@.brand == Some(brand),
        state@.sq_owner is None,
        state@.cq_owner is None,
        result_slot@.brand == brand,
        result_slot@.install is None,
        result_slot@.capacity == capacity,
        owners@.brand == brand,
        owners@.install is None,
        !owners@.closing,
        forall|kind: crate::enter::ownership::PendingOwnerKind|
            !#[trigger] owners@.owners.contains(kind),
        wake@.brand == brand,
        wake@.stored is None,
{
    crate::enter::role::law_fresh_ring_is_free(brand.ring_index, state_id, Some(brand));
}

/// A result slot is occupied exactly while it is free, by an install of its ring,
/// and vacated exactly by the install that occupies it. What is refused changes
/// nothing.
pub proof fn law_slot_is_occupied_once(
    taken: &mut PendingResultSlot,
    freed: &mut PendingResultSlot,
    install: PendingInstallId,
    occupied: Result<(), PendingError>,
    vacated: Result<(), PendingError>,
)
    requires
        call_ensures(PendingResultSlot::occupy, (taken, install), occupied),
        call_ensures(PendingResultSlot::vacate, (freed, install), vacated),
    ensures
        occupied is Ok <==> install.brand == old(taken)@.brand && old(taken)@.install is None,
        occupied is Ok ==> final(taken)@ == (ResultSlotModel {
            install: Some(install),
            ..old(taken)@
        }),
        occupied == Err::<(), _>(PendingError::WrongRing) <==> install.brand != old(taken)@.brand,
        occupied == Err::<(), _>(PendingError::SlotOccupied) <==> install.brand
            == old(taken)@.brand && old(taken)@.install is Some,
        occupied is Err ==> *final(taken) == *old(taken),
        vacated is Ok <==> old(freed)@.install == Some(install),
        vacated is Ok ==> final(freed)@ == (ResultSlotModel { install: None, ..old(freed)@ }),
        vacated is Err ==> vacated == Err::<(), _>(PendingError::WrongInstall) && *final(freed)
            == *old(freed),
{
}

/// A ring's parts are built exactly for a result of one byte to a mebibyte with the
/// bind right of that ring, all of one brand and with nothing parked; the state's
/// identity is the next one, and is spent. What is refused spends nothing and hands
/// the right back.
pub proof fn law_parts_are_of_one_ring(
    brand: SessionRingBrand,
    capacity: usize,
    right: CqStorageBindRight,
    ids: &mut EnterStateIds,
    result: Result<RingRuntimeParts, (RingRuntimeBuildError, CqStorageBindRight)>,
)
    requires
        call_ensures(build_ring_runtime_parts, (brand, capacity, right, ids), result),
    ensures
        result is Ok <==> 1 <= capacity <= 0x10_0000 && right@ == brand,
        result matches Ok(made) ==> {
            let parts = made.parts();
            &&& parts.0@.brand == Some(brand)
            &&& parts.0@.state_id == old(ids)@
            &&& parts.0@.sq_owner is None && parts.0@.cq_owner is None
            &&& parts.1@.brand == brand && parts.1@.install is None && parts.1@.capacity == capacity
            &&& parts.2@.brand == brand && parts.2@.install is None && !parts.2@.closing
            &&& parts.3@.brand == brand && parts.3@.stored is None
            &&& parts.4 == right
            &&& final(ids)@ == crate::enter::role::next_state_id(old(ids)@)
        },
        result matches Err((error, returned)) ==> {
            &&& error == RingRuntimeBuildError::InvalidPendingResultCapacity <==> capacity == 0
                || capacity > 0x10_0000
            &&& error == RingRuntimeBuildError::Role(RoleError::WrongRing) <==> 1 <= capacity
                <= 0x10_0000
            &&& returned == right
            &&& final(ids)@ == old(ids)@
        },
{
    law_runtime_is_built_exactly(brand, capacity, right@);
}

/// A slot's parts are built exactly for a result of one byte to a mebibyte, for the
/// ring of the bind right, idle and with nothing parked.
pub proof fn law_slot_parts_are_idle(
    right: CqStorageBindRight,
    capacity: usize,
    ids: &mut EnterStateIds,
    result: Result<PendingSlotParts, (RingRuntimeBuildError, CqStorageBindRight)>,
)
    requires
        call_ensures(build_pending_slot_parts, (right, capacity, ids), result),
    ensures
        result is Ok <==> 1 <= capacity <= 0x10_0000,
        result matches Ok(parts) ==> {
            &&& parts.state@.brand == Some(right@)
            &&& parts.result_slot@.brand == right@ && parts.result_slot@.install is None
            &&& parts.result_slot@.capacity == capacity
            &&& parts.owners@.brand == right@ && parts.owners@.install is None
            &&& parts.wake@.brand == right@ && parts.wake@.stored is None
            &&& parts.schedule@.brand == right@ && parts.schedule@.install is None
            &&& parts.schedule@.state == WorkerScheduleState::Idle
            &&& parts.schedule@.axis == InstallAxis::Installing
            &&& parts.cq_storage@ == right@
        },
        result matches Err((error, returned)) ==> error
            == RingRuntimeBuildError::InvalidPendingResultCapacity && returned == right && final(ids)@ == old(ids)@,
{
}

/// A slot tells its ring, its size and its install, and can be used again exactly
/// without one.
pub proof fn law_slot_tells_what_it_holds(
    slot: PendingResultSlot,
    brand: SessionRingBrand,
    capacity: usize,
    install: Option<PendingInstallId>,
    reusable: bool,
)
    requires
        call_ensures(PendingResultSlot::brand, (&slot,), brand),
        call_ensures(PendingResultSlot::capacity, (&slot,), capacity),
        call_ensures(PendingResultSlot::install, (&slot,), install),
        call_ensures(PendingResultSlot::is_reusable, (&slot,), reusable),
    ensures
        brand == slot@.brand,
        capacity == slot@.capacity,
        install == slot@.install,
        reusable <==> install is None,
{
}

} // verus!
