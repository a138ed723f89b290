//! Why a parked request should be looked at again.
//!
//! Wakes coalesce: a ring's slot stores a set of reasons for one install, so a
//! wake that arrives while another is stored is never lost and never queued
//! twice. A worker takes the whole set at once and acts on its most urgent
//! reason.

use crate::bits;
use crate::session::{PendingError, PendingInstallId, SessionRingBrand};
use vstd::prelude::*;

verus! {

/// Why a parked request is woken.
#[derive(Clone, Copy, Debug, PartialEq, Eq, Structural)]
pub enum PendingReason {
    Cancel,
    Timeout,
    Readiness,
    Fence,
    Unload,
}

impl PendingReason {
    /// The reasons other than a cancellation, most urgent first.
    pub const NONCANCEL_PRIORITY: [Self; 4] = [
        Self::Unload,
        Self::Fence,
        Self::Timeout,
        Self::Readiness,
    ];

    /// Every reason a worker acts on, most urgent first.
    pub const WORKER_PRIORITY: [Self; 5] = [
        Self::Unload,
        Self::Fence,
        Self::Cancel,
        Self::Timeout,
        Self::Readiness,
    ];

    /// The place of this reason in a stored mask.
    pub open spec fn place(self) -> u8 {
        match self {
            PendingReason::Cancel => 0,
            PendingReason::Timeout => 1,
            PendingReason::Readiness => 2,
            PendingReason::Fence => 3,
            PendingReason::Unload => 4,
        }
    }

    /// How urgent this reason is to a worker; the smallest comes first.
    pub open spec fn rank(self) -> int {
        match self {
            PendingReason::Unload => 0,
            PendingReason::Fence => 1,
            PendingReason::Cancel => 2,
            PendingReason::Timeout => 3,
            PendingReason::Readiness => 4,
        }
    }

    /// This reason's bit in a stored mask.
    fn bit(self) -> (bit: u8)
        ensures
            bit == bits::bit(self.place()),
    {
        proof {
            bits::lemma_bit_values();
        }
        match self {
            PendingReason::Cancel => 1,
            PendingReason::Timeout => 2,
            PendingReason::Readiness => 4,
            PendingReason::Fence => 8,
            PendingReason::Unload => 16,
        }
    }
}

/// The ranks are the positions in [`PendingReason::WORKER_PRIORITY`].
pub proof fn law_rank_is_the_worker_priority(position: int)
    requires
        0 <= position < PendingReason::WORKER_PRIORITY@.len(),
    ensures
        PendingReason::WORKER_PRIORITY@[position].rank() == position,
{
}

/// `reason` is the most urgent member of `reasons`.
pub open spec fn most_urgent(reasons: Set<PendingReason>, reason: PendingReason) -> bool {
    &&& reasons.contains(reason)
    &&& forall|other: PendingReason| #[trigger]
        reasons.contains(other) ==> reason.rank() <= other.rank()
}

spec fn reasons_of(mask: u8) -> Set<PendingReason> {
    Set::new(|reason: PendingReason| bits::in_mask(mask, reason.place()))
}

proof fn lemma_recorded(mask: u8, reason: PendingReason)
    ensures
        reasons_of(mask | bits::bit(reason.place())) == reasons_of(mask).insert(reason),
{
    assert forall|other: PendingReason|
        reasons_of(mask | bits::bit(reason.place())).contains(other) <==> reasons_of(mask).insert(
            reason,
        ).contains(other) by {
        bits::lemma_insert(mask, reason.place(), other.place());
    }
    assert(reasons_of(mask | bits::bit(reason.place())) =~= reasons_of(mask).insert(reason));
}

proof fn lemma_single(reason: PendingReason)
    ensures
        reasons_of(bits::bit(reason.place())) == Set::<PendingReason>::empty().insert(reason),
        0 < bits::bit(reason.place()) < 32,
{
    lemma_recorded(0, reason);
    bits::lemma_small(0, reason.place());
    let bit = bits::bit(reason.place());
    assert(0u8 | bit == bit) by (bit_vector);
    assert forall|other: PendingReason| !reasons_of(0).contains(other) by {
        bits::lemma_empty(other.place());
    }
    assert(reasons_of(0) =~= Set::empty());
}

proof fn lemma_some_reason(mask: u8)
    requires
        0 < mask < 32,
    ensures
        exists|reason: PendingReason| #[trigger] reasons_of(mask).contains(reason),
{
    bits::lemma_nonempty(mask);
    assert(reasons_of(mask).contains(PendingReason::Cancel) || reasons_of(mask).contains(
        PendingReason::Timeout,
    ) || reasons_of(mask).contains(PendingReason::Readiness) || reasons_of(mask).contains(
        PendingReason::Fence,
    ) || reasons_of(mask).contains(PendingReason::Unload));
}

/// A stored wake: an install, and the reasons to look at it again.
pub struct StoredModel {
    pub install: PendingInstallId,
    pub reasons: Set<PendingReason>,
}

/// What a worker acts on: the reasons it took, and the most urgent of them.
pub struct DecisionModel {
    pub wake: StoredModel,
    pub reason: PendingReason,
}

/// The wake stored for one install. It holds at least one reason.
#[derive(Debug)]
pub struct StoredPendingWake {
    install: PendingInstallId,
    reasons: u8,
}

impl View for StoredPendingWake {
    type V = StoredModel;

    closed spec fn view(&self) -> StoredModel {
        StoredModel { install: self.install, reasons: reasons_of(self.reasons) }
    }
}

impl StoredPendingWake {
    #[verifier::type_invariant]
    closed spec fn inv(self) -> bool {
        0 < self.reasons < 32
    }
}

/// The reasons one worker pass took. It cannot be copied.
#[must_use]
#[derive(Debug)]
pub struct WorkerWakeBatch {
    install: PendingInstallId,
    reasons: u8,
}

impl View for WorkerWakeBatch {
    type V = StoredModel;

    closed spec fn view(&self) -> StoredModel {
        StoredModel { install: self.install, reasons: reasons_of(self.reasons) }
    }
}

impl WorkerWakeBatch {
    #[verifier::type_invariant]
    closed spec fn inv(self) -> bool {
        0 < self.reasons < 32
    }

    /// The install that is woken.
    pub fn install(&self) -> (install: PendingInstallId)
        ensures
            install == self@.install,
    {
        self.install
    }

    /// Whether the batch holds `reason`.
    pub fn covers(&self, reason: PendingReason) -> (covered: bool)
        ensures
            covered <==> self@.reasons.contains(reason),
    {
        self.reasons & reason.bit() != 0
    }
}

/// A batch, and the reason a worker acts on.
#[must_use]
#[derive(Debug)]
pub struct PendingWakeDecision {
    batch: WorkerWakeBatch,
    reason: PendingReason,
}

impl View for PendingWakeDecision {
    type V = DecisionModel;

    closed spec fn view(&self) -> DecisionModel {
        DecisionModel { wake: self.batch@, reason: self.reason }
    }
}

impl PendingWakeDecision {
    /// The reason to act on.
    pub fn reason(&self) -> (reason: PendingReason)
        ensures
            reason == self@.reason,
    {
        self.reason
    }

    /// The whole batch the reason was chosen from.
    pub fn batch(&self) -> (batch: &WorkerWakeBatch)
        ensures
            batch@ == self@.wake,
    {
        &self.batch
    }

    /// Keep the batch and forget which reason was chosen.
    pub fn into_batch(self) -> (batch: WorkerWakeBatch)
        ensures
            batch@ == self@.wake,
    {
        self.batch
    }
}

/// The wake stored on one ring.
#[derive(Debug)]
pub struct PendingWakeSlot {
    brand: SessionRingBrand,
    wake: Option<StoredPendingWake>,
}

/// What a wake slot holds.
pub struct WakeModel {
    pub brand: SessionRingBrand,
    pub stored: Option<StoredModel>,
}

impl View for PendingWakeSlot {
    type V = WakeModel;

    closed spec fn view(&self) -> WakeModel {
        WakeModel {
            brand: self.brand,
            stored: match self.wake {
                Some(stored) => Some(stored@),
                None => None,
            },
        }
    }
}

/// What is stored is for an install on the slot's own ring, and has a reason.
pub open spec fn on_its_ring(slot: WakeModel) -> bool {
    slot.stored matches Some(stored) ==> {
        &&& stored.install.brand == slot.brand
        &&& stored.reasons != Set::<PendingReason>::empty()
    }
}

/// The slot after one more wake, or why it is refused.
pub open spec fn recorded(
    slot: WakeModel,
    install: PendingInstallId,
    reason: PendingReason,
) -> Result<WakeModel, PendingError> {
    if install.brand != slot.brand {
        Err(PendingError::WrongRing)
    } else {
        match slot.stored {
            Some(stored) => if stored.install == install {
                Ok(
                    WakeModel {
                        stored: Some(
                            StoredModel { install, reasons: stored.reasons.insert(reason) },
                        ),
                        ..slot
                    },
                )
            } else {
                Err(PendingError::WrongInstall)
            },
            None => Ok(
                WakeModel {
                    stored: Some(
                        StoredModel { install, reasons: Set::empty().insert(reason) },
                    ),
                    ..slot
                },
            ),
        }
    }
}

/// The slot once a worker took what it stores.
pub open spec fn taken(slot: WakeModel) -> WakeModel {
    WakeModel { stored: None, ..slot }
}

/// Why `wake` cannot be put back, if it cannot: the slot has to be empty, and of
/// the wake's ring.
pub open spec fn restore_refusal(slot: WakeModel, wake: StoredModel) -> Option<PendingError> {
    if slot.stored is Some {
        Some(PendingError::SlotOccupied)
    } else if wake.install.brand != slot.brand {
        Some(PendingError::WrongRing)
    } else {
        None
    }
}

/// The slot once `wake` is put back.
pub open spec fn restored(slot: WakeModel, wake: StoredModel) -> WakeModel {
    WakeModel { stored: Some(wake), ..slot }
}

/// A worker is owed a pass for `install`: a wake is stored for it.
pub open spec fn needs_worker(slot: WakeModel, install: PendingInstallId) -> bool {
    slot.stored matches Some(stored) && stored.install == install
}

impl PendingWakeSlot {
    #[verifier::type_invariant]
    closed spec fn inv(self) -> bool {
        self.wake matches Some(stored) ==> stored.install.brand == self.brand
    }

    /// A slot with nothing stored.
    pub fn for_brand(brand: SessionRingBrand) -> (slot: Self)
        ensures
            slot@ == (WakeModel { brand, stored: None }),
    {
        Self { brand, wake: None }
    }

    /// The ring this slot belongs to.
    pub fn brand(&self) -> (brand: SessionRingBrand)
        ensures
            brand == self@.brand,
    {
        self.brand
    }

    /// Nothing is stored: every wake has been taken.
    pub fn is_covered(&self) -> (covered: bool)
        ensures
            covered <==> self@.stored is None,
    {
        self.wake.is_none()
    }

    /// A wake is stored.
    pub fn has_wake(&self) -> (stored: bool)
        ensures
            stored <==> self@.stored is Some,
    {
        self.wake.is_some()
    }

    /// Add a reason to what is stored for `install`. A refusal changes nothing.
    pub fn record_wake(&mut self, install: PendingInstallId, reason: PendingReason) -> (result:
        Result<(), PendingError>)
        ensures
            match result {
                Ok(()) => recorded(old(self)@, install, reason) == Ok::<WakeModel, PendingError>(
                    final(self)@,
                ),
                Err(error) => recorded(old(self)@, install, reason) == Err::<
                    WakeModel,
                    PendingError,
                >(error) && *final(self) == *old(self),
            },
    {
        proof {
            use_type_invariant(&*self);
        }
        if install.brand != self.brand {
            return Err(PendingError::WrongRing);
        }
        let reasons: u8 = match &self.wake {
            Some(stored) => {
                proof {
                    use_type_invariant(stored);
                    lemma_recorded(stored.reasons, reason);
                    bits::lemma_small(stored.reasons, reason.place());
                }
                if stored.install != install {
                    return Err(PendingError::WrongInstall);
                }
                stored.reasons | reason.bit()
            },
            None => {
                proof {
                    lemma_single(reason);
                }
                reason.bit()
            },
        };
        self.wake = Some(StoredPendingWake { install, reasons });
        Ok(())
    }

    /// Whether `reason` is among what is stored.
    pub fn stored_covers(&self, reason: PendingReason) -> (covered: bool)
        ensures
            covered <==> (self@.stored matches Some(stored) && stored.reasons.contains(reason)),
    {
        match &self.wake {
            Some(stored) => stored.reasons & reason.bit() != 0,
            None => false,
        }
    }

    /// Whether a worker is owed a pass for `install`.
    pub fn needs_worker(&self, install: PendingInstallId) -> (needed: bool)
        ensures
            needed <==> needs_worker(self@, install),
    {
        match &self.wake {
            Some(stored) => stored.install == install,
            None => false,
        }
    }

    /// Take everything stored for `install`, and choose its most urgent reason.
    /// A refusal changes nothing.
    pub fn take_for_worker(&mut self, install: PendingInstallId) -> (result: Result<
        PendingWakeDecision,
        PendingError,
    >)
        ensures
            match result {
                Ok(decision) => {
                    &&& old(self)@.stored == Some(decision@.wake)
                    &&& on_its_ring(old(self)@)
                    &&& decision@.wake.install == install
                    &&& restore_refusal(final(self)@, decision@.wake) is None
                    &&& most_urgent(decision@.wake.reasons, decision@.reason)
                    &&& final(self)@ == taken(old(self)@)
                },
                Err(PendingError::NotDequeued) => old(self)@.stored is None && *final(self)
                    == *old(self),
                Err(PendingError::WrongInstall) => {
                    &&& old(self)@.stored is Some
                    &&& old(self)@.stored->0.install != install
                    &&& *final(self) == *old(self)
                },
                Err(_) => false,
            },
    {
        proof {
            use_type_invariant(&*self);
        }
        let reasons: u8 = match &self.wake {
            Some(stored) => {
                proof {
                    use_type_invariant(stored);
                    lemma_some_reason(stored.reasons);
                }
                if stored.install != install {
                    return Err(PendingError::WrongInstall);
                }
                stored.reasons
            },
            None => {
                return Err(PendingError::NotDequeued);
            },
        };
        let selected = select(reasons);
        self.wake = None;
        Ok(PendingWakeDecision { batch: WorkerWakeBatch { install, reasons }, reason: selected })
    }

    /// Put a decision that could not be acted on back. A refusal returns it.
    pub fn restore(&mut self, decision: PendingWakeDecision) -> (result: Result<
        (),
        (PendingError, PendingWakeDecision),
    >)
        ensures
            match result {
                Ok(()) => {
                    &&& restore_refusal(old(self)@, decision@.wake) is None
                    &&& final(self)@ == restored(old(self)@, decision@.wake)
                },
                Err((error, returned)) => {
                    &&& restore_refusal(old(self)@, decision@.wake) == Some(error)
                    &&& returned == decision
                    &&& *final(self) == *old(self)
                },
            },
    {
        proof {
            use_type_invariant(&*self);
        }
        if self.wake.is_some() {
            return Err((PendingError::SlotOccupied, decision));
        }
        if decision.batch.install.brand != self.brand {
            return Err((PendingError::WrongRing, decision));
        }
        let batch = decision.into_batch();
        proof {
            use_type_invariant(&batch);
        }
        self.wake = Some(StoredPendingWake { install: batch.install, reasons: batch.reasons });
        Ok(())
    }
}

/// The most urgent reason of a mask that holds at least one.
fn select(reasons: u8) -> (selected: PendingReason)
    requires
        0 < reasons < 32,
    ensures
        most_urgent(reasons_of(reasons), selected),
{
    let mut position: usize = 0;
    proof {
        lemma_some_reason(reasons);
    }
    while position < 5
        invariant
            position <= 5,
            forall|reason: PendingReason| #[trigger]
                reasons_of(reasons).contains(reason) ==> position <= reason.rank(),
        decreases 5 - position,
    {
        let reason = PendingReason::WORKER_PRIORITY[position];
        if reasons & reason.bit() != 0 {
            assert(reasons_of(reasons).contains(reason));
            return reason;
        }
        assert(!reasons_of(reasons).contains(reason));
        assert forall|other: PendingReason| #[trigger]
            reasons_of(reasons).contains(other) implies position + 1 <= other.rank() by {
            if other.rank() == position {
                assert(other == reason);
            }
        }
        position = position + 1;
    }
    proof {
        let reason = choose|reason: PendingReason| #[trigger]
            reasons_of(reasons).contains(reason);
        assert(reason.rank() < 5);
    }
    PendingReason::Readiness
}

/// Wakes coalesce: recording the same reasons in either order, or one of them
/// twice, stores the same set, and no recorded reason is lost.
pub proof fn law_wakes_coalesce(
    slot: WakeModel,
    install: PendingInstallId,
    first: PendingReason,
    second: PendingReason,
)
    requires
        recorded(slot, install, first) is Ok,
    ensures
        ({
            let one = recorded(slot, install, first)->Ok_0;
            let both = recorded(one, install, second);
            &&& both is Ok
            &&& recorded(slot, install, second) is Ok
            &&& recorded(recorded(slot, install, second)->Ok_0, install, first) == both
            &&& recorded(one, install, first) == Ok::<WakeModel, PendingError>(one)
            &&& both->Ok_0.stored->0.reasons.contains(first)
            &&& both->Ok_0.stored->0.reasons.contains(second)
            &&& forall|other: PendingReason|
                slot.stored is Some && #[trigger] slot.stored->0.reasons.contains(other)
                    ==> both->Ok_0.stored->0.reasons.contains(other)
        }),
{
    let one = recorded(slot, install, first)->Ok_0;
    let other = recorded(slot, install, second)->Ok_0;
    assert(recorded(one, install, second)->Ok_0.stored->0.reasons =~= recorded(
        other,
        install,
        first,
    )->Ok_0.stored->0.reasons);
    assert(recorded(one, install, first)->Ok_0.stored->0.reasons =~= one.stored->0.reasons);
}

/// The reason a worker acts on is determined by the set it took.
pub proof fn law_most_urgent_is_unique(
    reasons: Set<PendingReason>,
    one: PendingReason,
    other: PendingReason,
)
    requires
        most_urgent(reasons, one),
        most_urgent(reasons, other),
    ensures
        one == other,
{
}

/// Whatever is recorded stays on the slot's ring.
pub proof fn law_recorded_wake_is_on_its_ring(
    slot: WakeModel,
    install: PendingInstallId,
    reason: PendingReason,
)
    requires
        recorded(slot, install, reason) is Ok,
    ensures
        on_its_ring(recorded(slot, install, reason)->Ok_0),
{
    assert(recorded(slot, install, reason)->Ok_0.stored->0.reasons.contains(reason));
}

/// Putting back what a worker took is accepted, and leaves the slot as it was
/// before the take.
pub proof fn law_restore_undoes_take(slot: WakeModel)
    requires
        on_its_ring(slot),
        slot.stored is Some,
    ensures
        restore_refusal(taken(slot), slot.stored->0) is None,
        restored(taken(slot), slot.stored->0) == slot,
{
}

/// Reasons are urgent in this order: an unload before a fence, a fence before a
/// cancel, a cancel before a timeout, and a timeout before readiness. No two are
/// equally urgent.
pub proof fn law_reasons_are_urgent_in_this_order(first: PendingReason, second: PendingReason)
    ensures
        PendingReason::Unload.rank() < PendingReason::Fence.rank() < PendingReason::Cancel.rank()
            < PendingReason::Timeout.rank() < PendingReason::Readiness.rank(),
        first.rank() == second.rank() ==> first == second,
        first.place() == second.place() ==> first == second,
{
}

/// A set of reasons has at most one most urgent: whichever two answer to it are one.
/// An unload is it wherever there is one, a fence where there is no unload, a
/// cancel where there is neither; readiness only where it stands alone.
pub proof fn law_most_urgent_is_one(
    reasons: Set<PendingReason>,
    first: PendingReason,
    second: PendingReason,
)
    ensures
        most_urgent(reasons, first) && most_urgent(reasons, second) ==> first == second,
        most_urgent(reasons, first) ==> {
            &&& reasons.contains(first)
            &&& first == PendingReason::Unload <==> reasons.contains(PendingReason::Unload)
            &&& first == PendingReason::Fence <==> reasons.contains(PendingReason::Fence)
                && !reasons.contains(PendingReason::Unload)
            &&& first == PendingReason::Cancel <==> reasons.contains(PendingReason::Cancel)
                && !reasons.contains(PendingReason::Unload) && !reasons.contains(
                PendingReason::Fence,
            )
            &&& first == PendingReason::Timeout <==> reasons.contains(PendingReason::Timeout)
                && !reasons.contains(PendingReason::Unload) && !reasons.contains(
                PendingReason::Fence,
            ) && !reasons.contains(PendingReason::Cancel)
            &&& first == PendingReason::Readiness <==> reasons == Set::empty().insert(
                PendingReason::Readiness,
            )
        },
{
    if most_urgent(reasons, first) {
        assert(reasons.contains(PendingReason::Unload) ==> first.rank()
            <= PendingReason::Unload.rank());
        assert(reasons.contains(PendingReason::Fence) ==> first.rank()
            <= PendingReason::Fence.rank());
        assert(reasons.contains(PendingReason::Cancel) ==> first.rank()
            <= PendingReason::Cancel.rank());
        assert(reasons.contains(PendingReason::Timeout) ==> first.rank()
            <= PendingReason::Timeout.rank());
        if first == PendingReason::Readiness {
            assert(reasons =~= Set::empty().insert(PendingReason::Readiness));
        }
        if reasons == Set::<PendingReason>::empty().insert(PendingReason::Readiness) {
            assert(Set::<PendingReason>::empty().insert(PendingReason::Readiness).contains(first));
        }
    }
}

/// A wake is refused exactly on another ring, and then where a wake of another
/// install is stored. Otherwise the slot keeps its ring and every reason stored,
/// and gains this one, for this install.
pub proof fn law_record_keeps_every_reason(
    slot: WakeModel,
    install: PendingInstallId,
    reason: PendingReason,
)
    ensures
        recorded(slot, install, reason) == Err::<WakeModel, _>(PendingError::WrongRing) <==>
            install.brand != slot.brand,
        recorded(slot, install, reason) == Err::<WakeModel, _>(PendingError::WrongInstall) <==>
            install.brand == slot.brand && slot.stored is Some && slot.stored->0.install != install,
        recorded(slot, install, reason) is Ok <==> install.brand == slot.brand && (
        slot.stored is Some ==> slot.stored->0.install == install),
        recorded(slot, install, reason) matches Ok(after) ==> {
            &&& after.brand == slot.brand
            &&& after.stored is Some
            &&& after.stored->0.install == install
            &&& forall|other: PendingReason| #[trigger]
                after.stored->0.reasons.contains(other) <==> other == reason || (slot.stored is Some
                    && slot.stored->0.reasons.contains(other))
        },
{
}

/// What is taken is gone from its slot and nothing else is, and what is put back
/// is there as it was. It is put back exactly into an empty slot of its ring: a
/// full one is reported first.
pub proof fn law_taken_wake_is_put_back(slot: WakeModel, wake: StoredModel)
    ensures
        taken(slot).stored is None,
        taken(slot).brand == slot.brand,
        restored(slot, wake).stored == Some(wake),
        restored(slot, wake).brand == slot.brand,
        slot.stored == Some(wake) ==> restored(taken(slot), wake) == slot,
        restore_refusal(slot, wake) is None <==> slot.stored is None && wake.install.brand
            == slot.brand,
        restore_refusal(slot, wake) == Some(PendingError::SlotOccupied) <==> slot.stored is Some,
        restore_refusal(slot, wake) == Some(PendingError::WrongRing) <==> slot.stored is None
            && wake.install.brand != slot.brand,
{
}

/// A worker is needed exactly for the install whose wake is stored, and from the
/// moment one is recorded until it is taken.
pub proof fn law_worker_is_needed_for_the_stored_install(
    slot: WakeModel,
    install: PendingInstallId,
    other: PendingInstallId,
    reason: PendingReason,
)
    ensures
        needs_worker(slot, install) && needs_worker(slot, other) ==> install == other,
        slot.stored is None ==> !needs_worker(slot, install),
        !needs_worker(taken(slot), install),
        recorded(slot, install, reason) matches Ok(after) ==> needs_worker(after, install),
        slot.stored matches Some(stored) ==> needs_worker(slot, stored.install),
{
}

/// A wake is recorded exactly on its own ring where no other install's is stored,
/// and then its slot holds every reason it held and this one.
pub proof fn law_wake_is_recorded_beside_the_others(
    slot: &mut PendingWakeSlot,
    install: PendingInstallId,
    reason: PendingReason,
    result: Result<(), PendingError>,
)
    requires
        call_ensures(PendingWakeSlot::record_wake, (slot, install, reason), result),
    ensures
        ({
            let before = old(slot)@;
            let after = final(slot)@;
            let own = install.brand == before.brand;
            let stale = before.stored is Some && before.stored->0.install != install;
            &&& result is Ok <==> own && !stale
            &&& result == Err::<(), _>(PendingError::WrongRing) <==> !own
            &&& result == Err::<(), _>(PendingError::WrongInstall) <==> own && stale
            &&& result is Err ==> after == before
            &&& result is Ok ==> {
                &&& after.brand == before.brand
                &&& after.stored is Some
                &&& after.stored->0.install == install
                &&& forall|other: PendingReason| #[trigger]
                    after.stored->0.reasons.contains(other) <==> other == reason || (
                    before.stored is Some && before.stored->0.reasons.contains(other))
            }
        }),
{
    law_record_keeps_every_reason(old(slot)@, install, reason);
}

/// A worker takes every stored reason of its install at once and acts on the most
/// urgent: an unload if there is one, else a fence, else a cancel, else a timeout,
/// else readiness. What it took leaves the slot empty.
pub proof fn law_worker_acts_on_the_most_urgent(
    slot: &mut PendingWakeSlot,
    install: PendingInstallId,
    result: Result<PendingWakeDecision, PendingError>,
)
    requires
        call_ensures(PendingWakeSlot::take_for_worker, (slot, install), result),
    ensures
        ({
            let before = old(slot)@;
            let reasons = before.stored->0.reasons;
            &&& result is Ok <==> before.stored is Some && before.stored->0.install == install
            &&& result == Err::<PendingWakeDecision, _>(PendingError::NotDequeued) <==>
                before.stored is None
            &&& result == Err::<PendingWakeDecision, _>(PendingError::WrongInstall) <==>
                before.stored is Some && before.stored->0.install != install
            &&& result is Err ==> final(slot)@ == before
            &&& result matches Ok(decision) ==> {
                &&& final(slot)@.stored is None
                &&& final(slot)@.brand == before.brand
                &&& before.stored == Some(decision@.wake)
                &&& reasons.contains(decision@.reason)
                &&& decision@.reason == PendingReason::Unload <==> reasons.contains(
                    PendingReason::Unload,
                )
                &&& decision@.reason == PendingReason::Fence <==> reasons.contains(
                    PendingReason::Fence,
                ) && !reasons.contains(PendingReason::Unload)
                &&& decision@.reason == PendingReason::Cancel <==> reasons.contains(
                    PendingReason::Cancel,
                ) && !reasons.contains(PendingReason::Fence) && !reasons.contains(
                    PendingReason::Unload,
                )
                &&& decision@.reason == PendingReason::Timeout <==> reasons.contains(
                    PendingReason::Timeout,
                ) && !reasons.contains(PendingReason::Cancel) && !reasons.contains(
                    PendingReason::Fence,
                ) && !reasons.contains(PendingReason::Unload)
            }
        }),
{
    if let Ok(decision) = result {
        law_most_urgent_is_one(decision@.wake.reasons, decision@.reason, decision@.reason);
    }
}

/// What a worker took is put back as it was, exactly into an empty slot of its
/// ring. What a slot is asked answers to what it stores.
pub proof fn law_taken_reasons_are_put_back(
    slot: &mut PendingWakeSlot,
    decision: PendingWakeDecision,
    result: Result<(), (PendingError, PendingWakeDecision)>,
    other: PendingWakeSlot,
    install: PendingInstallId,
    reason: PendingReason,
    needed: bool,
    covers: bool,
    stored: bool,
    covered: bool,
)
    requires
        call_ensures(PendingWakeSlot::restore, (slot, decision), result),
        call_ensures(PendingWakeSlot::needs_worker, (&other, install), needed),
        call_ensures(PendingWakeSlot::stored_covers, (&other, reason), covers),
        call_ensures(PendingWakeSlot::has_wake, (&other,), stored),
        call_ensures(PendingWakeSlot::is_covered, (&other,), covered),
    ensures
        ({
            let before = old(slot)@;
            let own = decision@.wake.install.brand == before.brand;
            &&& result is Ok <==> before.stored is None && own
            &&& result is Ok ==> final(slot)@ == (WakeModel {
                stored: Some(decision@.wake),
                ..before
            })
            &&& result matches Err((error, returned)) ==> {
                &&& error == PendingError::SlotOccupied <==> before.stored is Some
                &&& error == PendingError::WrongRing <==> before.stored is None && !own
                &&& returned == decision
                &&& final(slot)@ == before
            }
        }),
        stored <==> other@.stored is Some,
        covered <==> !stored,
        needed <==> stored && other@.stored->0.install == install,
        covers <==> stored && other@.stored->0.reasons.contains(reason),
{
    law_taken_wake_is_put_back(old(slot)@, decision@.wake);
}

/// A slot begins empty on its ring, and what a worker took tells its install, its
/// reasons and the one it acts on.
pub proof fn law_taken_wake_tells_its_reasons(
    brand: SessionRingBrand,
    slot: PendingWakeSlot,
    named: SessionRingBrand,
    decision: PendingWakeDecision,
    acts_on: PendingReason,
    batch: WorkerWakeBatch,
    install: PendingInstallId,
    reason: PendingReason,
    covered: bool,
)
    requires
        call_ensures(PendingWakeSlot::for_brand, (brand,), slot),
        call_ensures(PendingWakeSlot::brand, (&slot,), named),
        call_ensures(PendingWakeDecision::reason, (&decision,), acts_on),
        call_ensures(PendingWakeDecision::into_batch, (decision,), batch),
        call_ensures(WorkerWakeBatch::install, (&batch,), install),
        call_ensures(WorkerWakeBatch::covers, (&batch, reason), covered),
    ensures
        named == brand,
        slot@.stored is None,
        acts_on == decision@.reason,
        install == decision@.wake.install,
        covered <==> decision@.wake.reasons.contains(reason),
{
}

} // verus!
