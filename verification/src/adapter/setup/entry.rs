//! Entering a setup, and cleaning up a handle whose setup was not published.

use vstd::prelude::*;

use crate::session::binding::BindingError;
use crate::session::binding::CleanupBindingClaim;
use crate::session::binding::ControlBinding;
use crate::session::binding::ControlBindingState;
use crate::session::binding::SetupReservation;

verus! {

/// One effect of entering a setup.
#[derive(Clone, Copy, Debug, PartialEq, Eq, Structural)]
pub enum SetupEntryEffect {
    ClearSetupCancel,
    ClearSetupComplete,
}

/// Why a setup is not entered.
#[derive(Clone, Copy, Debug, PartialEq, Eq, Structural)]
pub enum SetupEntryRefusalKind {
    /// The tail of the handle's last setup has not run out.
    PriorSetupIncomplete,
    /// The handle has no setup epoch left.
    IntegerOverflow,
    /// The handle is not free for a setup.
    InvalidState,
}

/// A refused entry.
#[derive(Clone, Copy, Debug, PartialEq, Eq, Structural)]
pub struct SetupEntryRefusal {
    kind: SetupEntryRefusalKind,
}

impl View for SetupEntryRefusal {
    type V = SetupEntryRefusalKind;

    closed spec fn view(&self) -> SetupEntryRefusalKind {
        self.kind
    }
}

impl SetupEntryRefusal {
    /// Why.
    pub fn kind(&self) -> (kind: SetupEntryRefusalKind)
        ensures
            kind == self@,
    {
        self.kind
    }

    /// The completion information of a refused entry.
    pub fn information(&self) -> (information: usize)
        ensures
            information == 0,
    {
        0
    }
}

/// Why a setup is not entered, if it is not. The last setup's tail is asked for
/// first, so that a retry cannot clear the signal a cleanup still waits for.
pub open spec fn entry_refusal(state: ControlBindingState, prior_setup_complete: bool) -> Option<
    SetupEntryRefusalKind,
> {
    if !prior_setup_complete {
        Some(SetupEntryRefusalKind::PriorSetupIncomplete)
    } else {
        match crate::session::binding::setup_error(state) {
            Some(BindingError::EpochExhausted) => Some(SetupEntryRefusalKind::IntegerOverflow),
            Some(BindingError::InvalidTransition) => Some(SetupEntryRefusalKind::InvalidState),
            None => None,
        }
    }
}

/// An entry under way: the setup it entered, and how many effects are done.
pub struct EntryModel {
    pub epoch: u64,
    pub done: int,
}

/// The plan of entering a setup.
pub struct SetupEntryPlan;

impl SetupEntryPlan {
    /// The effects in their order.
    pub const EFFECTS: [SetupEntryEffect; 2] = [
        SetupEntryEffect::ClearSetupCancel,
        SetupEntryEffect::ClearSetupComplete,
    ];

    /// Enter a setup: reserve it on the handle's binding.
    pub fn begin(binding: &mut ControlBinding, prior_setup_complete: bool) -> (begun: Result<
        SetupEntryProgress,
        SetupEntryRefusal,
    >)
        ensures
            match entry_refusal(old(binding)@, prior_setup_complete) {
                Some(kind) => begun matches Err(refusal) && refusal@ == kind && *final(binding)
                    == *old(binding),
                None => begun matches Ok(SetupEntryProgress::Effect(pending)) && pending@.done == 0
                    && old(binding)@->Empty_0@ == Some(pending@.epoch) && final(binding)@
                    == ControlBindingState::Staging(pending@.epoch),
            },
    {
        if !prior_setup_complete {
            return Err(SetupEntryRefusal { kind: SetupEntryRefusalKind::PriorSetupIncomplete });
        }
        match binding.begin_setup() {
            Ok(reservation) => Ok(
                SetupEntryProgress::Effect(PendingSetupEntry { reservation, done: 0 }),
            ),
            Err(BindingError::EpochExhausted) => Err(
                SetupEntryRefusal { kind: SetupEntryRefusalKind::IntegerOverflow },
            ),
            Err(BindingError::InvalidTransition) => Err(
                SetupEntryRefusal { kind: SetupEntryRefusalKind::InvalidState },
            ),
        }
    }
}

/// Where an entry stands.
#[derive(Debug)]
pub enum SetupEntryProgress {
    /// An effect is owed.
    Effect(PendingSetupEntry),
    /// The setup is entered.
    Admitted(SetupEntryAdmission),
}

/// The effect that is owed.
#[derive(Debug)]
pub struct PendingSetupEntry {
    reservation: SetupReservation,
    done: usize,
}

impl View for PendingSetupEntry {
    type V = EntryModel;

    closed spec fn view(&self) -> EntryModel {
        EntryModel { epoch: self.reservation@, done: self.done as int }
    }
}

impl PendingSetupEntry {
    #[verifier::type_invariant]
    closed spec fn inv(self) -> bool {
        self.done < 2
    }

    /// The effect.
    pub fn effect(&self) -> (effect: SetupEntryEffect)
        ensures
            0 <= self@.done < 2,
            effect == SetupEntryPlan::EFFECTS@[self@.done],
    {
        proof {
            use_type_invariant(self);
        }
        SetupEntryPlan::EFFECTS[self.done]
    }

    /// The effect is done.
    pub fn succeeded(self) -> (progress: SetupEntryProgress)
        ensures
            match progress {
                SetupEntryProgress::Effect(pending) => self@.done == 0 && pending@ == (EntryModel {
                    epoch: self@.epoch,
                    done: 1,
                }),
                SetupEntryProgress::Admitted(admission) => self@.done == 1 && admission@
                    == self@.epoch,
            },
    {
        proof {
            use_type_invariant(&self);
        }
        if self.done == 0 {
            SetupEntryProgress::Effect(
                PendingSetupEntry { reservation: self.reservation, done: 1 },
            )
        } else {
            SetupEntryProgress::Admitted(SetupEntryAdmission { reservation: self.reservation })
        }
    }
}

/// A setup that is entered.
#[derive(Debug)]
pub struct SetupEntryAdmission {
    reservation: SetupReservation,
}

impl View for SetupEntryAdmission {
    type V = u64;

    closed spec fn view(&self) -> u64 {
        self.reservation@
    }
}

impl SetupEntryAdmission {
    /// The reserved setup, and the effects that entering it took.
    pub fn into_parts(self) -> (parts: (SetupReservation, [SetupEntryEffect; 2]))
        ensures
            parts.0@ == self@,
            parts.1@ == SetupEntryPlan::EFFECTS@,
    {
        (self.reservation, SetupEntryPlan::EFFECTS)
    }
}

/// One effect of cleaning up before publication.
#[derive(Clone, Copy, Debug, PartialEq, Eq, Structural)]
pub enum PrecommitCleanupEffect {
    /// Give back the guard the cleanup itself holds.
    ReleaseOuterGuard,
    /// Tell the setup under way to stop.
    SignalSetupCancel,
    /// Wait until nobody uses the handle.
    WaitFileRundown,
    /// Publish that the handle is closed, and hand its lease to the close.
    PublishClosedAndTransferLease,
}

/// The effects of a cleanup that found no setup under way.
pub const EMPTY_CLEANUP: [PrecommitCleanupEffect; 3] = [
    PrecommitCleanupEffect::ReleaseOuterGuard,
    PrecommitCleanupEffect::WaitFileRundown,
    PrecommitCleanupEffect::PublishClosedAndTransferLease,
];

/// The effects of a cleanup that found a setup under way.
pub const SETUP_CLEANUP: [PrecommitCleanupEffect; 4] = [
    PrecommitCleanupEffect::ReleaseOuterGuard,
    PrecommitCleanupEffect::SignalSetupCancel,
    PrecommitCleanupEffect::WaitFileRundown,
    PrecommitCleanupEffect::PublishClosedAndTransferLease,
];

/// The effects of the cleanup that made `claim`.
pub open spec fn cleanup_effects(claim: CleanupBindingClaim) -> Seq<PrecommitCleanupEffect> {
    match claim {
        CleanupBindingClaim::Empty => EMPTY_CLEANUP@,
        CleanupBindingClaim::Setup(_) => SETUP_CLEANUP@,
    }
}

/// A cleanup under way: its claim, and how many effects are done.
pub struct CleanupModel {
    pub claim: CleanupBindingClaim,
    pub done: int,
}

/// The plan of a cleanup before publication.
pub struct PrecommitCleanupPlan;

impl PrecommitCleanupPlan {
    /// Begin the cleanup that made `claim`.
    pub fn begin(claim: CleanupBindingClaim) -> (progress: PrecommitCleanupProgress)
        ensures
            progress matches PrecommitCleanupProgress::Effect(pending) && pending@ == (CleanupModel {
                claim,
                done: 0,
            }),
    {
        PrecommitCleanupProgress::Effect(PendingPrecommitCleanup { claim, done: 0 })
    }
}

/// Where a cleanup stands.
#[derive(Debug)]
pub enum PrecommitCleanupProgress {
    /// An effect is owed.
    Effect(PendingPrecommitCleanup),
    /// The handle is closed, and the close owns its lease.
    Complete(CleanupBindingClaim),
}

/// The effect that is owed.
#[derive(Debug)]
pub struct PendingPrecommitCleanup {
    claim: CleanupBindingClaim,
    done: usize,
}

impl View for PendingPrecommitCleanup {
    type V = CleanupModel;

    closed spec fn view(&self) -> CleanupModel {
        CleanupModel { claim: self.claim, done: self.done as int }
    }
}

impl PendingPrecommitCleanup {
    #[verifier::type_invariant]
    closed spec fn inv(self) -> bool {
        self.done < cleanup_effects(self.claim).len()
    }

    /// The effect.
    pub fn effect(&self) -> (effect: PrecommitCleanupEffect)
        ensures
            0 <= self@.done < cleanup_effects(self@.claim).len(),
            effect == cleanup_effects(self@.claim)[self@.done],
    {
        proof {
            use_type_invariant(self);
        }
        match self.claim {
            CleanupBindingClaim::Empty => EMPTY_CLEANUP[self.done],
            CleanupBindingClaim::Setup(_) => SETUP_CLEANUP[self.done],
        }
    }

    /// The effect is done.
    pub fn succeeded(self) -> (progress: PrecommitCleanupProgress)
        ensures
            match progress {
                PrecommitCleanupProgress::Effect(pending) => {
                    &&& self@.done + 1 < cleanup_effects(self@.claim).len()
                    &&& pending@ == (CleanupModel {
                        claim: self@.claim,
                        done: self@.done + 1,
                    })
                },
                PrecommitCleanupProgress::Complete(claim) => self@.done + 1 == cleanup_effects(
                    self@.claim,
                ).len() && claim == self@.claim,
            },
    {
        proof {
            use_type_invariant(&self);
        }
        let count: usize = match self.claim {
            CleanupBindingClaim::Empty => 3,
            CleanupBindingClaim::Setup(_) => 4,
        };
        if self.done + 1 < count {
            PrecommitCleanupProgress::Effect(
                PendingPrecommitCleanup { claim: self.claim, done: self.done + 1 },
            )
        } else {
            PrecommitCleanupProgress::Complete(self.claim)
        }
    }
}

/// Every cleanup gives its own guard back first, waits for the handle's users
/// only after that, and closes the handle last, so it never waits for itself. A
/// setup under way is told to stop before it is waited for.
pub proof fn law_cleanup_never_waits_for_itself(claim: CleanupBindingClaim)
    ensures
        ({
            let effects = cleanup_effects(claim);
            &&& effects[0] == PrecommitCleanupEffect::ReleaseOuterGuard
            &&& effects.last() == PrecommitCleanupEffect::PublishClosedAndTransferLease
            &&& effects[effects.len() - 2] == PrecommitCleanupEffect::WaitFileRundown
            &&& claim is Setup <==> effects.contains(PrecommitCleanupEffect::SignalSetupCancel)
            &&& claim is Setup ==> effects[1] == PrecommitCleanupEffect::SignalSetupCancel
        }),
{
    assert(SETUP_CLEANUP@[1] == PrecommitCleanupEffect::SignalSetupCancel);
}

/// The tail of the last setup is asked for before anything else: while it has not
/// run out, every entry is refused for that and for nothing else. Once it has, an
/// entry is admitted exactly on an empty handle with an epoch left, an empty
/// handle with none left overflows, and any other handle is in no state for it.
pub proof fn law_entry_is_refused_in_order(state: ControlBindingState, prior_setup_complete: bool)
    ensures
        entry_refusal(state, prior_setup_complete) == Some(
            SetupEntryRefusalKind::PriorSetupIncomplete,
        ) <==> !prior_setup_complete,
        entry_refusal(state, prior_setup_complete) == Some(SetupEntryRefusalKind::InvalidState)
            <==> prior_setup_complete && !(state is Empty),
        entry_refusal(state, prior_setup_complete) == Some(SetupEntryRefusalKind::IntegerOverflow)
            <==> prior_setup_complete && state is Empty && state->Empty_0@ is None,
        entry_refusal(state, prior_setup_complete) is None <==> prior_setup_complete
            && state is Empty && state->Empty_0@ is Some,
{
}

/// A setup is entered by clearing its two signals, the cancel before the complete,
/// and by nothing else.
pub proof fn law_entry_clears_both_signals()
    ensures
        SetupEntryPlan::EFFECTS@ == seq![
            SetupEntryEffect::ClearSetupCancel,
            SetupEntryEffect::ClearSetupComplete,
        ],
{
    assert(SetupEntryPlan::EFFECTS@ =~= seq![
        SetupEntryEffect::ClearSetupCancel,
        SetupEntryEffect::ClearSetupComplete,
    ]);
}

/// A setup under way adds exactly one step to a cleanup: without the signal that
/// cancels it, what it does is what the cleanup of an idle handle does.
pub proof fn law_setup_adds_only_its_cancel(claim: CleanupBindingClaim, epoch: u64)
    ensures
        cleanup_effects(CleanupBindingClaim::Empty) == seq![
            PrecommitCleanupEffect::ReleaseOuterGuard,
            PrecommitCleanupEffect::WaitFileRundown,
            PrecommitCleanupEffect::PublishClosedAndTransferLease,
        ],
        cleanup_effects(CleanupBindingClaim::Setup(epoch)) == cleanup_effects(
            CleanupBindingClaim::Empty,
        ).insert(1, PrecommitCleanupEffect::SignalSetupCancel),
        cleanup_effects(claim).no_duplicates(),
{
    assert(EMPTY_CLEANUP@ =~= seq![
        PrecommitCleanupEffect::ReleaseOuterGuard,
        PrecommitCleanupEffect::WaitFileRundown,
        PrecommitCleanupEffect::PublishClosedAndTransferLease,
    ]);
    assert(SETUP_CLEANUP@ =~= EMPTY_CLEANUP@.insert(1, PrecommitCleanupEffect::SignalSetupCancel));
}

/// A setup is entered exactly once the last one's tail has run out, on an empty
/// handle with an epoch left, and stages that epoch. Each refusal has its own
/// reason, carries no information and leaves the handle as it was.
pub proof fn law_setup_is_entered_exactly(
    binding: &mut ControlBinding,
    prior_complete: bool,
    begun: Result<SetupEntryProgress, SetupEntryRefusal>,
)
    requires
        call_ensures(SetupEntryPlan::begin, (binding, prior_complete), begun),
    ensures
        ({
            let empty = old(binding)@ is Empty;
            let left = old(binding)@->Empty_0@ is Some;
            &&& begun is Ok <==> prior_complete && empty && left
            &&& begun matches Ok(progress) ==> {
                &&& progress matches SetupEntryProgress::Effect(pending)
                &&& pending@.done == 0
                &&& old(binding)@->Empty_0@ == Some(pending@.epoch)
                &&& final(binding)@ == ControlBindingState::Staging(pending@.epoch)
            }
            &&& begun matches Err(refusal) ==> {
                &&& refusal@ == SetupEntryRefusalKind::PriorSetupIncomplete <==> !prior_complete
                &&& refusal@ == SetupEntryRefusalKind::InvalidState <==> prior_complete && !empty
                &&& refusal@ == SetupEntryRefusalKind::IntegerOverflow <==> prior_complete && empty
                &&& final(binding)@ == old(binding)@
            }
        }),
{
    law_entry_is_refused_in_order(old(binding)@, prior_complete);
}

/// An entry clears the cancel signal, then the complete signal, and is then admitted
/// for the epoch it staged.
pub proof fn law_entry_goes_in_two_steps(
    pending: PendingSetupEntry,
    effect: SetupEntryEffect,
    progress: SetupEntryProgress,
)
    requires
        call_ensures(PendingSetupEntry::effect, (&pending,), effect),
        call_ensures(PendingSetupEntry::succeeded, (pending,), progress),
    ensures
        pending@.done == 0 || pending@.done == 1,
        effect == SetupEntryEffect::ClearSetupCancel <==> pending@.done == 0,
        effect == SetupEntryEffect::ClearSetupComplete <==> pending@.done == 1,
        progress is Admitted <==> pending@.done == 1,
        progress matches SetupEntryProgress::Effect(next) ==> next@.done == 1 && next@.epoch
            == pending@.epoch,
        progress matches SetupEntryProgress::Admitted(admission) ==> admission@ == pending@.epoch,
{
}

/// A cleanup goes step by step through what its claim calls for, and ends with that
/// claim.
pub proof fn law_cleanup_goes_step_by_step(
    claim: CleanupBindingClaim,
    begun: PrecommitCleanupProgress,
    pending: PendingPrecommitCleanup,
    effect: PrecommitCleanupEffect,
    progress: PrecommitCleanupProgress,
)
    requires
        call_ensures(PrecommitCleanupPlan::begin, (claim,), begun),
        call_ensures(PendingPrecommitCleanup::effect, (&pending,), effect),
        call_ensures(PendingPrecommitCleanup::succeeded, (pending,), progress),
    ensures
        begun matches PrecommitCleanupProgress::Effect(first) && first@.claim == claim
            && first@.done == 0,
        ({
            let idle = pending@.claim is Empty;
            let last = if idle {
                2int
            } else {
                3int
            };
            &&& 0 <= pending@.done <= last
            &&& effect == PrecommitCleanupEffect::ReleaseOuterGuard <==> pending@.done == 0
            &&& effect == PrecommitCleanupEffect::SignalSetupCancel <==> !idle && pending@.done == 1
            &&& effect == PrecommitCleanupEffect::WaitFileRundown <==> pending@.done == last - 1
            &&& effect == PrecommitCleanupEffect::PublishClosedAndTransferLease <==> pending@.done
                == last
            &&& progress is Complete <==> pending@.done == last
            &&& progress matches PrecommitCleanupProgress::Complete(done) ==> done == pending@.claim
            &&& progress matches PrecommitCleanupProgress::Effect(next) ==> next@.claim
                == pending@.claim && next@.done == pending@.done + 1
        }),
{
}

/// A refused entry tells why and carries no information, and an admitted one brings
/// the setup it staged with both of its effects.
pub proof fn law_entry_is_told(
    refusal: SetupEntryRefusal,
    kind: SetupEntryRefusalKind,
    information: usize,
    admission: SetupEntryAdmission,
    parts: (SetupReservation, [SetupEntryEffect; 2]),
)
    requires
        call_ensures(SetupEntryRefusal::kind, (&refusal,), kind),
        call_ensures(SetupEntryRefusal::information, (&refusal,), information),
        call_ensures(SetupEntryAdmission::into_parts, (admission,), parts),
    ensures
        kind == refusal@,
        information == 0,
        parts.0@ == admission@,
        parts.1@[0] == SetupEntryEffect::ClearSetupCancel,
        parts.1@[1] == SetupEntryEffect::ClearSetupComplete,
{
}

} // verus!
