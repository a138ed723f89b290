//! A parking slot's epochs, the wait for it to drain, and the slots of a session.

use crate::session::{PendingError, MAX_SESSION_RING_COUNT};
use vstd::prelude::*;

verus! {

/// Where a parking slot stands. Each install has an epoch of its own.
#[derive(Clone, Copy, Debug, PartialEq, Eq, Structural)]
pub enum PendingSlotState {
    Vacant { next_epoch: u64 },
    Installing { epoch: u64 },
    Active { epoch: u64 },
    Quiescing { epoch: u64 },
    PublicationFailStop { epoch: u64 },
    EpochExhausted,
}

impl PendingSlotState {
    /// The epoch of the install in the slot, if there is one.
    pub open spec fn epoch_of(self) -> Option<u64> {
        match self {
            PendingSlotState::Installing { epoch }
            | PendingSlotState::Active { epoch }
            | PendingSlotState::Quiescing { epoch }
            | PendingSlotState::PublicationFailStop { epoch } => Some(epoch),
            PendingSlotState::Vacant { next_epoch: _ } | PendingSlotState::EpochExhausted => None,
        }
    }

    /// A slot before its first install.
    pub fn fresh() -> (state: Self)
        ensures
            state == (PendingSlotState::Vacant { next_epoch: 1 }),
    {
        PendingSlotState::Vacant { next_epoch: 1 }
    }

    /// The epoch of the install in the slot, if there is one.
    pub fn epoch(self) -> (epoch: Option<u64>)
        ensures
            epoch == self.epoch_of(),
    {
        match self {
            PendingSlotState::Installing { epoch }
            | PendingSlotState::Active { epoch }
            | PendingSlotState::Quiescing { epoch }
            | PendingSlotState::PublicationFailStop { epoch } => Some(epoch),
            PendingSlotState::Vacant { next_epoch: _ } | PendingSlotState::EpochExhausted => None,
        }
    }

    /// Begin an install in a vacant slot.
    pub fn begin_install(self) -> (result: Result<Self, (PendingError, Self)>)
        ensures
            match self {
                PendingSlotState::Vacant { next_epoch } => result == Ok::<
                    Self,
                    (PendingError, Self),
                >(PendingSlotState::Installing { epoch: next_epoch }),
                _ => result == Err::<Self, (PendingError, Self)>(
                    (PendingError::SlotOccupied, self),
                ),
            },
            result matches Ok(next) ==> slot_step(self, next),
    {
        match self {
            PendingSlotState::Vacant { next_epoch } => Ok(
                PendingSlotState::Installing { epoch: next_epoch },
            ),
            other => Err((PendingError::SlotOccupied, other)),
        }
    }

    /// Hand an install to the workers.
    pub fn handoff_done(self) -> (result: Result<Self, (PendingError, Self)>)
        ensures
            match self {
                PendingSlotState::Installing { epoch } => result == Ok::<
                    Self,
                    (PendingError, Self),
                >(PendingSlotState::Active { epoch }),
                _ => result == Err::<Self, (PendingError, Self)>(
                    (PendingError::WrongRingState, self),
                ),
            },
            result matches Ok(next) ==> slot_step(self, next),
    {
        match self {
            PendingSlotState::Installing { epoch } => Ok(PendingSlotState::Active { epoch }),
            other => Err((PendingError::WrongRingState, other)),
        }
    }

    /// Begin to end an install.
    pub fn begin_quiesce(self) -> (result: Result<Self, (PendingError, Self)>)
        ensures
            match self {
                PendingSlotState::Installing { epoch }
                | PendingSlotState::Active { epoch } => result == Ok::<Self, (PendingError, Self)>(
                    PendingSlotState::Quiescing { epoch },
                ),
                _ => result == Err::<Self, (PendingError, Self)>(
                    (PendingError::WrongRingState, self),
                ),
            },
            result matches Ok(next) ==> slot_step(self, next),
    {
        match self {
            PendingSlotState::Installing { epoch } | PendingSlotState::Active { epoch } => Ok(
                PendingSlotState::Quiescing { epoch },
            ),
            other => Err((PendingError::WrongRingState, other)),
        }
    }

    /// Vacate the slot for the next epoch; after the largest epoch it is spent.
    pub fn publish_vacant(self) -> (result: Result<Self, (PendingError, Self)>)
        ensures
            match self {
                PendingSlotState::Quiescing { epoch } => result == Ok::<Self, (PendingError, Self)>(
                    vacated(epoch),
                ),
                _ => result == Err::<Self, (PendingError, Self)>(
                    (PendingError::WrongRingState, self),
                ),
            },
            result matches Ok(next) ==> slot_step(self, next),
    {
        match self {
            PendingSlotState::Quiescing { epoch } => match epoch.checked_add(1) {
                Some(next_epoch) => Ok(PendingSlotState::Vacant { next_epoch }),
                None => Ok(PendingSlotState::EpochExhausted),
            },
            other => Err((PendingError::WrongRingState, other)),
        }
    }

    /// Keep a slot whose publication was refused from any later install.
    pub fn park_publication_fail_stop(self) -> (result: Result<Self, (PendingError, Self)>)
        ensures
            match self {
                PendingSlotState::Quiescing { epoch } => result == Ok::<Self, (PendingError, Self)>(
                    PendingSlotState::PublicationFailStop { epoch },
                ),
                _ => result == Err::<Self, (PendingError, Self)>(
                    (PendingError::WrongRingState, self),
                ),
            },
            result matches Ok(next) ==> slot_step(self, next),
    {
        match self {
            PendingSlotState::Quiescing { epoch } => Ok(
                PendingSlotState::PublicationFailStop { epoch },
            ),
            other => Err((PendingError::WrongRingState, other)),
        }
    }

    /// The slot takes an install.
    pub fn admits_install(self) -> (admits: bool)
        ensures
            admits <==> self is Vacant,
    {
        matches!(self, PendingSlotState::Vacant { .. })
    }
}

/// The slot once the install of `epoch` is over.
pub open spec fn vacated(epoch: u64) -> PendingSlotState {
    if epoch == u64::MAX {
        PendingSlotState::EpochExhausted
    } else {
        PendingSlotState::Vacant { next_epoch: (epoch + 1) as u64 }
    }
}

/// One step of a slot's life.
pub open spec fn slot_step(before: PendingSlotState, after: PendingSlotState) -> bool {
    match before {
        PendingSlotState::Vacant { next_epoch } => after == (PendingSlotState::Installing {
            epoch: next_epoch,
        }),
        PendingSlotState::Installing { epoch } => after == (PendingSlotState::Active { epoch })
            || after == (PendingSlotState::Quiescing { epoch }),
        PendingSlotState::Active { epoch } => after == (PendingSlotState::Quiescing { epoch }),
        PendingSlotState::Quiescing { epoch } => after == vacated(epoch) || after == (
        PendingSlotState::PublicationFailStop { epoch }),
        PendingSlotState::PublicationFailStop { epoch: _ } | PendingSlotState::EpochExhausted =>
            false,
    }
}

/// The least epoch that a later install may still have; none once the slot is
/// spent or stopped.
pub open spec fn epoch_floor(state: PendingSlotState) -> int {
    match state {
        PendingSlotState::Vacant { next_epoch } => next_epoch as int,
        PendingSlotState::Installing { epoch }
        | PendingSlotState::Active { epoch }
        | PendingSlotState::Quiescing { epoch }
        | PendingSlotState::PublicationFailStop { epoch } => epoch + 1,
        PendingSlotState::EpochExhausted => u64::MAX + 1,
    }
}

/// No epoch is used twice: no step lowers the least epoch of later installs, and
/// beginning an install raises it past the epoch it uses.
pub proof fn law_epochs_increase(before: PendingSlotState, after: PendingSlotState)
    requires
        slot_step(before, after),
    ensures
        epoch_floor(before) <= epoch_floor(after),
        after is Installing ==> epoch_floor(before) == after.epoch_of()->0 && epoch_floor(before)
            < epoch_floor(after),
{
}

/// What a drain wait does next.
#[must_use]
#[derive(Debug)]
pub enum PendingDrainStep {
    Observe(PendingDrainWait),
    Drained,
    Refused(PendingDrainRefusal),
}

/// Why a drain wait gives up.
#[derive(Clone, Copy, Debug, PartialEq, Eq, Structural)]
pub enum PendingDrainRefusal {
    PublicationFailStop,
    StillActive,
}

/// A bounded wait for a slot to drain.
#[must_use]
#[derive(Debug)]
pub struct PendingDrainWait {
    remaining: u32,
}

impl View for PendingDrainWait {
    type V = int;

    closed spec fn view(&self) -> int {
        self.remaining as int
    }
}

impl PendingDrainWait {
    /// How often an active slot is observed before the wait gives up.
    pub const MAX_OBSERVATIONS: u32 = 1024;

    /// Begin a wait with every observation left.
    pub fn begin_drain_wait() -> (wait: Self)
        ensures
            wait@ == Self::MAX_OBSERVATIONS,
    {
        Self { remaining: Self::MAX_OBSERVATIONS }
    }

    /// How many observations are left.
    pub fn remaining(&self) -> (remaining: u32)
        ensures
            remaining == self@,
    {
        self.remaining
    }

    /// The slot was observed drained.
    pub fn observed_drained(self) -> (step: PendingDrainStep)
        ensures
            step is Drained,
    {
        PendingDrainStep::Drained
    }

    /// The slot was observed active: one observation less is left.
    pub fn observed_active(self) -> (step: PendingDrainStep)
        ensures
            match left_after_active(self@) {
                Some(left) => step matches PendingDrainStep::Observe(wait) && wait@ == left,
                None => step == PendingDrainStep::Refused(PendingDrainRefusal::StillActive),
            },
    {
        if self.remaining <= 1 {
            PendingDrainStep::Refused(PendingDrainRefusal::StillActive)
        } else {
            PendingDrainStep::Observe(Self { remaining: self.remaining - 1 })
        }
    }

    /// The slot was observed stopped: it never drains.
    pub fn observed_publication_fail_stop(self) -> (step: PendingDrainStep)
        ensures
            step == PendingDrainStep::Refused(PendingDrainRefusal::PublicationFailStop),
    {
        PendingDrainStep::Refused(PendingDrainRefusal::PublicationFailStop)
    }
}

/// The observations left after an active one; none once the wait gives up.
pub open spec fn left_after_active(remaining: int) -> Option<int> {
    if remaining <= 1 {
        None
    } else {
        Some(remaining - 1)
    }
}

/// The observations left after `n` active ones; none once the wait gave up.
pub open spec fn drain_after(remaining: int, n: nat) -> Option<int>
    decreases n,
{
    if n == 0 {
        Some(remaining)
    } else {
        match drain_after(remaining, (n - 1) as nat) {
            Some(left) => left_after_active(left),
            None => None,
        }
    }
}

/// A drain wait is bounded: it gives up at the last of its observations, and not
/// before it.
pub proof fn law_drain_wait_is_bounded(n: nat)
    ensures
        drain_after(PendingDrainWait::MAX_OBSERVATIONS as int, n) == (if n
            < PendingDrainWait::MAX_OBSERVATIONS {
            Some(PendingDrainWait::MAX_OBSERVATIONS - n)
        } else {
            None
        }),
    decreases n,
{
    if n > 0 {
        law_drain_wait_is_bounded((n - 1) as nat);
    }
}

/// How many of a session's slots are initialised.
#[derive(Clone, Copy, Debug, PartialEq, Eq, Structural)]
pub struct PendingRuntimeInitCursor {
    ring_count: u32,
    initialized: u32,
}

/// What an initialisation cursor holds.
pub struct CursorModel {
    pub ring_count: u32,
    pub initialized: u32,
}

impl View for PendingRuntimeInitCursor {
    type V = CursorModel;

    closed spec fn view(&self) -> CursorModel {
        CursorModel { ring_count: self.ring_count, initialized: self.initialized }
    }
}

/// The proof that every slot of a session is initialised.
#[must_use]
#[derive(Debug)]
pub struct PendingRuntimeReadyProof {
    ring_count: u32,
}

impl View for PendingRuntimeReadyProof {
    type V = u32;

    closed spec fn view(&self) -> u32 {
        self.ring_count
    }
}

impl PendingRuntimeReadyProof {
    /// How many slots are initialised.
    pub fn ring_count(&self) -> (ring_count: u32)
        ensures
            ring_count == self@,
    {
        self.ring_count
    }
}

/// The initialised slots that an abandoned initialisation has to undo.
#[derive(Clone, Copy, Debug, PartialEq, Eq, Structural)]
pub struct PendingRuntimeRollbackSpan {
    initialized: u32,
}

impl View for PendingRuntimeRollbackSpan {
    type V = nat;

    closed spec fn view(&self) -> nat {
        self.initialized as nat
    }
}

impl PendingRuntimeRollbackSpan {
    /// How many slots are left to undo.
    pub fn len(self) -> (len: u32)
        ensures
            len == self@,
    {
        self.initialized
    }

    /// No slot is left to undo.
    pub fn is_empty(self) -> (empty: bool)
        ensures
            empty <==> self@ == 0,
    {
        self.initialized == 0
    }

    /// The last slot left, and the span without it.
    pub fn next_reverse(self) -> (next: Option<(u32, Self)>)
        ensures
            match next {
                Some((index, rest)) => {
                    &&& self@ > 0
                    &&& index == self@ - 1
                    &&& rest@ == self@ - 1
                    &&& undo_order(self@) == seq![index] + undo_order(rest@)
                },
                None => self@ == 0,
            },
    {
        if self.initialized == 0 {
            return None;
        }
        let next: u32 = self.initialized - 1;
        Some((next, Self { initialized: next }))
    }
}

/// The slots that a span of `len` hands out, in order.
pub open spec fn undo_order(len: nat) -> Seq<u32>
    decreases len,
{
    if len == 0 {
        seq![]
    } else {
        seq![(len - 1) as u32] + undo_order((len - 1) as nat)
    }
}

/// A rollback undoes each initialised slot once, last to first.
pub proof fn law_rollback_is_the_reverse(len: nat)
    requires
        len <= u32::MAX,
    ensures
        undo_order(len) =~= Seq::new(len, |i: int| (len - 1 - i) as u32),
    decreases len,
{
    if len > 0 {
        law_rollback_is_the_reverse((len - 1) as nat);
    }
}

impl PendingRuntimeInitCursor {
    #[verifier::type_invariant]
    closed spec fn inv(self) -> bool {
        self.initialized <= self.ring_count
    }

    /// Begin to initialise the slots of a session.
    pub fn begin(ring_count: u32) -> (result: Result<Self, PendingError>)
        ensures
            match result {
                Ok(cursor) => {
                    &&& 0 < ring_count <= MAX_SESSION_RING_COUNT
                    &&& cursor@ == (CursorModel { ring_count, initialized: 0 })
                },
                Err(error) => {
                    &&& error == PendingError::InvalidCapacity
                    &&& ring_count == 0 || ring_count > MAX_SESSION_RING_COUNT
                },
            },
    {
        if ring_count == 0 || ring_count > MAX_SESSION_RING_COUNT {
            return Err(PendingError::InvalidCapacity);
        }
        Ok(Self { ring_count, initialized: 0 })
    }

    /// The next slot to initialise, if one is left.
    pub fn next_uninitialized_index(self) -> (index: Option<u32>)
        ensures
            index == (if self@.initialized < self@.ring_count {
                Some(self@.initialized)
            } else {
                None
            }),
    {
        if self.initialized < self.ring_count {
            Some(self.initialized)
        } else {
            None
        }
    }

    /// Record that the next slot is initialised.
    pub fn record_initialized(self) -> (result: Result<Self, (PendingError, Self)>)
        ensures
            match result {
                Ok(cursor) => {
                    &&& self@.initialized < self@.ring_count
                    &&& cursor@ == (CursorModel {
                        initialized: (self@.initialized + 1) as u32,
                        ..self@
                    })
                },
                Err((error, cursor)) => {
                    &&& error == PendingError::SlotOccupied
                    &&& self@.initialized >= self@.ring_count
                    &&& cursor == self
                },
            },
    {
        if self.initialized < self.ring_count {
            Ok(Self { ring_count: self.ring_count, initialized: self.initialized + 1 })
        } else {
            Err((PendingError::SlotOccupied, self))
        }
    }

    /// Finish, once every slot of a session of `ring_count` rings is initialised.
    pub fn finish(self, ring_count: u32) -> (result: Result<
        PendingRuntimeReadyProof,
        (PendingError, Self),
    >)
        ensures
            match result {
                Ok(ready) => {
                    &&& ring_count == self@.ring_count
                    &&& self@.initialized == self@.ring_count
                    &&& ready@ == ring_count
                },
                Err((error, cursor)) => {
                    &&& ring_count != self@.ring_count || self@.initialized != self@.ring_count
                    &&& error == (if ring_count != self@.ring_count {
                        PendingError::WrongRing
                    } else {
                        PendingError::OwnersRemain
                    })
                    &&& cursor == self
                },
            },
    {
        if ring_count != self.ring_count {
            return Err((PendingError::WrongRing, self));
        }
        if self.initialized != self.ring_count {
            return Err((PendingError::OwnersRemain, self));
        }
        Ok(PendingRuntimeReadyProof { ring_count })
    }

    /// The slots to undo if the initialisation is abandoned here.
    pub fn rollback_span(self) -> (span: PendingRuntimeRollbackSpan)
        ensures
            span@ == self@.initialized,
    {
        PendingRuntimeRollbackSpan { initialized: self.initialized }
    }

    /// How many slots are initialised.
    pub fn initialized(self) -> (initialized: u32)
        ensures
            initialized == self@.initialized,
    {
        self.initialized
    }

    /// How many slots there are.
    pub fn ring_count(self) -> (ring_count: u32)
        ensures
            ring_count == self@.ring_count,
    {
        self.ring_count
    }
}

/// A slot that is vacated gets the next epoch, and only the largest leaves it
/// exhausted: no install after it has an epoch that was used.
pub proof fn law_vacated_slot_has_the_next_epoch(epoch: u64)
    ensures
        vacated(epoch) is EpochExhausted <==> epoch == 0xFFFF_FFFF_FFFF_FFFF,
        vacated(epoch) matches PendingSlotState::Vacant { next_epoch } ==> next_epoch - epoch == 1,
        vacated(epoch) is Vacant || vacated(epoch) is EpochExhausted,
        vacated(epoch).epoch_of() is None,
{
}

/// Which states follow which. Only a vacant slot is installed, only an installing
/// one becomes active, only what is installed is quiesced, and only what is
/// quiesced is vacated or stopped. A stopped slot and an exhausted one stay.
pub proof fn law_slot_goes_one_way(before: PendingSlotState, after: PendingSlotState)
    requires
        slot_step(before, after),
    ensures
        after is Installing <==> before is Vacant,
        after is Active ==> before is Installing,
        after is Quiescing ==> before is Installing || before is Active,
        before is Installing ==> after is Active || after is Quiescing,
        before is Active ==> after is Quiescing,
        after is Vacant || after is EpochExhausted || after is PublicationFailStop ==> before
            is Quiescing,
        !(before is PublicationFailStop) && !(before is EpochExhausted),
        before.epoch_of() is Some && after.epoch_of() is Some ==> before.epoch_of()
            == after.epoch_of(),
{
}

/// A state names its install's epoch exactly from the install to the vacation.
pub proof fn law_epoch_is_named_while_installed(state: PendingSlotState)
    ensures
        state.epoch_of() is None <==> state is Vacant || state is EpochExhausted,
        state matches PendingSlotState::Installing { epoch } ==> state.epoch_of() == Some(epoch),
        state matches PendingSlotState::Active { epoch } ==> state.epoch_of() == Some(epoch),
        state matches PendingSlotState::Quiescing { epoch } ==> state.epoch_of() == Some(epoch),
        state matches PendingSlotState::PublicationFailStop { epoch } ==> state.epoch_of() == Some(
            epoch,
        ),
{
}

/// Each look at a slot that is still active spends one, and the last one left is
/// the last look.
pub proof fn law_each_look_spends_one(remaining: int)
    ensures
        left_after_active(remaining) is None <==> remaining <= 1,
        left_after_active(remaining) matches Some(left) ==> remaining - left == 1 && left >= 1,
        PendingDrainWait::MAX_OBSERVATIONS == 1024,
{
}

/// What each move of a slot comes from and goes to. An install takes the next epoch
/// and keeps it to the end; a vacated slot has the one after it, or none. What is
/// refused comes back as it was.
pub proof fn law_slot_moves_keep_the_epoch(
    state: PendingSlotState,
    installed: Result<PendingSlotState, (PendingError, PendingSlotState)>,
    active: Result<PendingSlotState, (PendingError, PendingSlotState)>,
    quiesced: Result<PendingSlotState, (PendingError, PendingSlotState)>,
    vacant: Result<PendingSlotState, (PendingError, PendingSlotState)>,
    stopped: Result<PendingSlotState, (PendingError, PendingSlotState)>,
    admits: bool,
    epoch: Option<u64>,
)
    requires
        call_ensures(PendingSlotState::begin_install, (state,), installed),
        call_ensures(PendingSlotState::handoff_done, (state,), active),
        call_ensures(PendingSlotState::begin_quiesce, (state,), quiesced),
        call_ensures(PendingSlotState::publish_vacant, (state,), vacant),
        call_ensures(PendingSlotState::park_publication_fail_stop, (state,), stopped),
        call_ensures(PendingSlotState::admits_install, (state,), admits),
        call_ensures(PendingSlotState::epoch, (state,), epoch),
    ensures
        installed is Ok <==> state is Vacant,
        state matches PendingSlotState::Vacant { next_epoch } ==> installed->Ok_0 == (
        PendingSlotState::Installing { epoch: next_epoch }) && epoch is None,
        active is Ok <==> state is Installing,
        active matches Ok(next) ==> next is Active && next.epoch_of() == epoch,
        quiesced is Ok <==> state is Installing || state is Active,
        quiesced matches Ok(next) ==> next is Quiescing && next.epoch_of() == epoch,
        vacant is Ok <==> state is Quiescing,
        vacant matches Ok(PendingSlotState::Vacant { next_epoch }) ==> epoch matches Some(used)
            && next_epoch - used == 1,
        vacant matches Ok(next) ==> (next is EpochExhausted <==> epoch == Some(u64::MAX)) && (
        next is Vacant || next is EpochExhausted),
        stopped is Ok <==> state is Quiescing,
        stopped matches Ok(next) ==> next is PublicationFailStop && next.epoch_of() == epoch,
        admits <==> installed is Ok,
        installed matches Err((error, back)) ==> error == PendingError::SlotOccupied && back
            == state,
        active matches Err((error, back)) ==> error == PendingError::WrongRingState && back == state,
        quiesced matches Err((error, back)) ==> error == PendingError::WrongRingState && back
            == state,
        vacant matches Err((error, back)) ==> error == PendingError::WrongRingState && back == state,
        stopped matches Err((error, back)) ==> error == PendingError::WrongRingState && back
            == state,
        epoch is Some <==> !(state is Vacant) && !(state is EpochExhausted),
{
}

/// A drain is waited for by looking at most a thousand and twenty-four times: each
/// look that finds the slot active spends one, the last refuses, a drained slot ends
/// the wait and a stopped one refuses it at once.
pub proof fn law_drain_is_looked_for_so_often(
    begun: PendingDrainWait,
    wait: PendingDrainWait,
    active: PendingDrainStep,
    drained: PendingDrainStep,
    stopped: PendingDrainStep,
)
    requires
        call_ensures(PendingDrainWait::begin_drain_wait, (), begun),
        call_ensures(PendingDrainWait::observed_active, (wait,), active),
        call_ensures(PendingDrainWait::observed_drained, (wait,), drained),
        call_ensures(PendingDrainWait::observed_publication_fail_stop, (wait,), stopped),
    ensures
        begun@ == 1024,
        active == PendingDrainStep::Refused(PendingDrainRefusal::StillActive) <==> wait@ <= 1,
        active is Observe <==> wait@ > 1,
        active matches PendingDrainStep::Observe(left) ==> wait@ - left@ == 1,
        drained is Drained,
        stopped == PendingDrainStep::Refused(PendingDrainRefusal::PublicationFailStop),
{
}

/// A session's slots are set up one by one, from the first, for one to sixty-four
/// rings; all of them, and no fewer, make it ready.
pub proof fn law_slots_are_set_up_in_order(
    ring_count: u32,
    begun: Result<PendingRuntimeInitCursor, PendingError>,
    cursor: PendingRuntimeInitCursor,
    index: Option<u32>,
    next: Result<PendingRuntimeInitCursor, (PendingError, PendingRuntimeInitCursor)>,
    ready: Result<PendingRuntimeReadyProof, (PendingError, PendingRuntimeInitCursor)>,
    span: PendingRuntimeRollbackSpan,
)
    requires
        call_ensures(PendingRuntimeInitCursor::begin, (ring_count,), begun),
        call_ensures(PendingRuntimeInitCursor::next_uninitialized_index, (cursor,), index),
        call_ensures(PendingRuntimeInitCursor::record_initialized, (cursor,), next),
        call_ensures(PendingRuntimeInitCursor::finish, (cursor, ring_count), ready),
        call_ensures(PendingRuntimeInitCursor::rollback_span, (cursor,), span),
    ensures
        begun is Ok <==> 1 <= ring_count <= 64,
        begun matches Ok(fresh) ==> fresh@.ring_count == ring_count && fresh@.initialized == 0,
        begun is Err ==> begun == Err::<PendingRuntimeInitCursor, _>(
            PendingError::InvalidCapacity,
        ),
        index is Some <==> cursor@.initialized < cursor@.ring_count,
        index matches Some(at) ==> at == cursor@.initialized,
        next is Ok <==> index is Some,
        next matches Ok(after) ==> after@.initialized == cursor@.initialized + 1
            && after@.ring_count == cursor@.ring_count,
        next matches Err((error, back)) ==> error == PendingError::SlotOccupied && back == cursor,
        ready is Ok <==> ring_count == cursor@.ring_count && cursor@.initialized
            == cursor@.ring_count,
        ready matches Ok(made) ==> made@ == ring_count,
        ready matches Err((error, back)) ==> (error == PendingError::WrongRing <==> ring_count
            != cursor@.ring_count) && (error == PendingError::OwnersRemain <==> ring_count
            == cursor@.ring_count) && back == cursor,
        span@ == cursor@.initialized,
{
}

/// What was set up is taken down from the last to the first.
pub proof fn law_slots_are_taken_down_in_reverse(
    span: PendingRuntimeRollbackSpan,
    next: Option<(u32, PendingRuntimeRollbackSpan)>,
    length: u32,
    empty: bool,
)
    requires
        call_ensures(PendingRuntimeRollbackSpan::next_reverse, (span,), next),
        call_ensures(PendingRuntimeRollbackSpan::len, (span,), length),
        call_ensures(PendingRuntimeRollbackSpan::is_empty, (span,), empty),
    ensures
        next is None <==> length == 0,
        empty <==> length == 0,
        next matches Some((index, rest)) ==> index + 1 == length && rest@ == index,
{
}

/// A fresh slot is vacant for its first epoch, which is one, and what a wait, a
/// cursor or a proof is asked answers to what it holds.
pub proof fn law_fresh_slot_is_vacant(
    fresh: PendingSlotState,
    wait: PendingDrainWait,
    remaining: u32,
    ready: PendingRuntimeReadyProof,
    rings: u32,
    cursor: PendingRuntimeInitCursor,
    done: u32,
    of: u32,
)
    requires
        call_ensures(PendingSlotState::fresh, (), fresh),
        call_ensures(PendingDrainWait::remaining, (&wait,), remaining),
        call_ensures(PendingRuntimeReadyProof::ring_count, (&ready,), rings),
        call_ensures(PendingRuntimeInitCursor::initialized, (cursor,), done),
        call_ensures(PendingRuntimeInitCursor::ring_count, (cursor,), of),
    ensures
        fresh == (PendingSlotState::Vacant { next_epoch: 1 }),
        remaining == wait@,
        rings == ready@,
        done == cursor@.initialized,
        of == cursor@.ring_count,
{
}

} // verus!
