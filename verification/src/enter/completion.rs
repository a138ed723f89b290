//! The completion of a parked request, effect by effect.
//!
//! A plan takes every authority the completion consumes and walks
//! [`PENDING_COMPLETION_ORDER`] once. The result is written before the packet is
//! completed, and the slot is given up last, together with the worker's token.
//! The wait's lease and the control link leave the plan by being taken out, and
//! in no other way.

use crate::enter::irp::IrpObservation;
use crate::enter::ownership::{
    LedgerModel, PendingOwnerKind, PendingOwnerLedger, PendingOwnerToken, TokenModel,
};
use crate::enter::role::lease::{EnterExecutionBrand, SqWaitRoleLease};
use crate::enter::runtime::{PendingResultSlot, ResultSlotModel};
use crate::enter::wake::{PendingWakeSlot, WakeModel};
use crate::session::{PendingControlLinkRight, PendingError, PendingInstallId};
use vstd::prelude::*;

verus! {

/// One effect of a completion.
#[derive(Clone, Copy, Debug, PartialEq, Eq, Structural)]
pub enum PendingCompletionEffect {
    CancelTimer,
    WaitDpcExitIfRequired,
    WriteExactResult,
    ReleaseSqWaitRole,
    UnlinkControlPending,
    ReleaseStrongSessionRef,
    CompleteIrpOnce,
    PublishVacantOrEpochExhausted,
}

/// The effects of a completion, in order.
pub const PENDING_COMPLETION_ORDER: [PendingCompletionEffect; 8] = [
    PendingCompletionEffect::CancelTimer,
    PendingCompletionEffect::WaitDpcExitIfRequired,
    PendingCompletionEffect::WriteExactResult,
    PendingCompletionEffect::ReleaseSqWaitRole,
    PendingCompletionEffect::UnlinkControlPending,
    PendingCompletionEffect::ReleaseStrongSessionRef,
    PendingCompletionEffect::CompleteIrpOnce,
    PendingCompletionEffect::PublishVacantOrEpochExhausted,
];

/// The proof that a result was written.
#[must_use]
#[derive(Debug)]
pub struct WrittenResultReceipt {
    install: PendingInstallId,
    status: u32,
    information: usize,
}

/// What was written.
pub struct WrittenModel {
    pub install: PendingInstallId,
    pub status: u32,
    pub information: usize,
}

impl View for WrittenResultReceipt {
    type V = WrittenModel;

    closed spec fn view(&self) -> WrittenModel {
        WrittenModel { install: self.install, status: self.status, information: self.information }
    }
}

impl WrittenResultReceipt {
    /// The written status.
    pub fn status(&self) -> (status: u32)
        ensures
            status == self@.status,
    {
        self.status
    }

    /// How many bytes were written.
    pub fn information(&self) -> (information: usize)
        ensures
            information == self@.information,
    {
        self.information
    }
}

/// The proof that a packet was completed.
#[must_use]
#[derive(Debug)]
pub struct CompletedIrpReceipt {
    install: PendingInstallId,
    irp: IrpObservation,
}

/// What was completed.
pub struct CompletedModel {
    pub install: PendingInstallId,
    pub irp: IrpObservation,
}

impl View for CompletedIrpReceipt {
    type V = CompletedModel;

    closed spec fn view(&self) -> CompletedModel {
        CompletedModel { install: self.install, irp: self.irp }
    }
}

impl CompletedIrpReceipt {
    /// The completed packet.
    pub fn irp(&self) -> (irp: IrpObservation)
        ensures
            irp == self@.irp,
    {
        self.irp
    }
}

/// Which session reference a completion gives up.
#[derive(Debug, PartialEq, Eq, Structural)]
pub enum PendingStableReleaseOwner {
    Strong,
    Delete,
}

/// A completion in progress.
#[must_use]
#[derive(Debug)]
pub struct PendingCompletionPlan {
    install: PendingInstallId,
    stage: usize,
    irp: IrpObservation,
    role: Option<SqWaitRoleLease>,
    control_link: Option<PendingControlLinkRight>,
    stable_release: Option<PendingStableReleaseOwner>,
    written_result: Option<WrittenResultReceipt>,
    completed_irp: Option<CompletedIrpReceipt>,
    worker: Option<PendingOwnerToken>,
}

/// What a completion in progress holds; `stage` effects are behind it.
pub struct PlanModel {
    pub install: PendingInstallId,
    pub stage: int,
    pub irp: IrpObservation,
    pub role: Option<EnterExecutionBrand>,
    pub control_link: Option<PendingInstallId>,
    pub stable_release: Option<PendingStableReleaseOwner>,
    pub written_result: Option<WrittenModel>,
    pub completed_irp: Option<CompletedModel>,
    pub worker: Option<TokenModel>,
}

impl View for PendingCompletionPlan {
    type V = PlanModel;

    closed spec fn view(&self) -> PlanModel {
        PlanModel {
            install: self.install,
            stage: self.stage as int,
            irp: self.irp,
            role: match self.role {
                Some(lease) => Some(lease@),
                None => None,
            },
            control_link: match self.control_link {
                Some(link) => Some(link@),
                None => None,
            },
            stable_release: self.stable_release,
            written_result: match self.written_result {
                Some(receipt) => Some(receipt@),
                None => None,
            },
            completed_irp: match self.completed_irp {
                Some(receipt) => Some(receipt@),
                None => None,
            },
            worker: match self.worker {
                Some(token) => Some(token@),
                None => None,
            },
        }
    }
}

/// The effect a plan runs next, if any.
pub open spec fn next_effect(plan: PlanModel) -> Option<PendingCompletionEffect> {
    if 0 <= plan.stage < PENDING_COMPLETION_ORDER@.len() {
        Some(PENDING_COMPLETION_ORDER@[plan.stage])
    } else {
        None
    }
}

/// A plan keeps its receipts and its worker: the result is written exactly when
/// its effect is behind the plan, the packet is completed exactly when its
/// effect is, and the worker's token of this install is held throughout. What an
/// effect releases is held exactly until the effect is behind the plan.
pub open spec fn keeps_order(plan: PlanModel) -> bool {
    &&& 0 <= plan.stage <= 7
    &&& plan.written_result is Some <==> plan.stage > 2
    &&& plan.written_result matches Some(written) ==> written.install == plan.install
    &&& plan.completed_irp is Some <==> plan.stage > 6
    &&& plan.completed_irp matches Some(completed) ==> completed == (CompletedModel {
        install: plan.install,
        irp: plan.irp,
    })
    &&& plan.worker == Some(
        TokenModel { install: plan.install, kind: PendingOwnerKind::Worker },
    )
    &&& plan.role is Some <==> plan.stage <= 3
    &&& plan.control_link is Some <==> plan.stage <= 4
    &&& plan.stable_release is Some <==> plan.stage <= 5
}

/// Why a completion cannot begin, if it cannot.
pub open spec fn begin_refusal(
    install: PendingInstallId,
    control_link: PendingInstallId,
    worker: TokenModel,
) -> Option<PendingError> {
    if worker.kind != PendingOwnerKind::Worker {
        Some(PendingError::WrongOwnerKind)
    } else if worker.install != install || control_link != install {
        Some(PendingError::WrongInstall)
    } else {
        None
    }
}

/// The next step of a completion.
#[must_use]
#[derive(Debug)]
pub enum PendingCompletionStep {
    Advanced(PendingCompletionPlan),
    NeedResultWrite(PendingResultWrite),
    NeedIrpCompletion(PendingIrpCompletion),
    NeedFinalPublication(PendingFinalPublication),
}

/// The owed write of the result.
#[must_use]
#[derive(Debug)]
pub struct PendingResultWrite {
    plan: PendingCompletionPlan,
}

/// The owed completion of the packet.
#[must_use]
#[derive(Debug)]
pub struct PendingIrpCompletion {
    plan: PendingCompletionPlan,
}

/// The owed publication of the slot.
#[must_use]
#[derive(Debug)]
pub struct PendingFinalPublication {
    plan: PendingCompletionPlan,
}

impl PendingResultWrite {
    /// The plan that owes the write.
    pub closed spec fn plan(self) -> PlanModel {
        self.plan@
    }

    #[verifier::type_invariant]
    closed spec fn inv(self) -> bool {
        self.plan.inv() && self.plan.stage == 2
    }

    /// The install and the packet whose result is to be written.
    pub fn view(&self) -> (named: (PendingInstallId, IrpObservation))
        ensures
            named == (self.plan().install, self.plan().irp),
    {
        (self.plan.install, self.plan.irp)
    }

    /// Record what was written.
    pub fn commit_result_write(self, status: u32, information: usize) -> (plan:
        PendingCompletionPlan)
        ensures
            plan@ == (PlanModel {
                stage: 3,
                written_result: Some(
                    WrittenModel { install: self.plan().install, status, information },
                ),
                ..self.plan()
            }),
    {
        proof {
            use_type_invariant(&self);
        }
        let plan = self.plan;
        PendingCompletionPlan {
            install: plan.install,
            stage: plan.stage + 1,
            irp: plan.irp,
            role: plan.role,
            control_link: plan.control_link,
            stable_release: plan.stable_release,
            written_result: Some(
                WrittenResultReceipt { install: plan.install, status, information },
            ),
            completed_irp: plan.completed_irp,
            worker: plan.worker,
        }
    }
}

impl PendingIrpCompletion {
    /// The plan that owes the completion.
    pub closed spec fn plan(self) -> PlanModel {
        self.plan@
    }

    #[verifier::type_invariant]
    closed spec fn inv(self) -> bool {
        self.plan.inv() && self.plan.stage == 6
    }

    /// The packet to complete, with the status and size that were written for it.
    pub fn view(&self) -> (owed: Option<(IrpObservation, u32, usize)>)
        ensures
            self.plan().written_result is Some,
            owed == Some(
                (
                    self.plan().irp,
                    self.plan().written_result->0.status,
                    self.plan().written_result->0.information,
                ),
            ),
    {
        proof {
            use_type_invariant(self);
        }
        match &self.plan.written_result {
            Some(written) => Some((self.plan.irp, written.status, written.information)),
            None => None,
        }
    }

    /// Record that the packet was completed.
    pub fn commit_irp_completion(self) -> (plan: PendingCompletionPlan)
        ensures
            plan@ == (PlanModel {
                stage: 7,
                completed_irp: Some(
                    CompletedModel { install: self.plan().install, irp: self.plan().irp },
                ),
                ..self.plan()
            }),
    {
        proof {
            use_type_invariant(&self);
        }
        let plan = self.plan;
        PendingCompletionPlan {
            install: plan.install,
            stage: plan.stage + 1,
            irp: plan.irp,
            role: plan.role,
            control_link: plan.control_link,
            stable_release: plan.stable_release,
            written_result: plan.written_result,
            completed_irp: Some(CompletedIrpReceipt { install: plan.install, irp: plan.irp }),
            worker: plan.worker,
        }
    }
}

/// What a completed install leaves behind.
#[derive(Clone, Copy, Debug, PartialEq, Eq, Structural)]
pub struct PendingCompletionResult {
    install: PendingInstallId,
    exhausted: bool,
}

/// What a completion's result says.
pub struct CompletionResultModel {
    pub install: PendingInstallId,
    pub exhausted: bool,
}

impl View for PendingCompletionResult {
    type V = CompletionResultModel;

    closed spec fn view(&self) -> CompletionResultModel {
        CompletionResultModel { install: self.install, exhausted: self.exhausted }
    }
}

impl PendingCompletionResult {
    /// The install that is complete.
    pub fn install(&self) -> (install: PendingInstallId)
        ensures
            install == self@.install,
    {
        self.install
    }

    /// The slot has no epoch left for another install.
    pub fn exhausted(&self) -> (exhausted: bool)
        ensures
            exhausted == self@.exhausted,
    {
        self.exhausted
    }
}

/// A refused final publication, holding the plan whole.
///
/// The packet is completed and its result is written, so the plan is not taken
/// apart: reassembling one could repeat them. Nothing clears or retries it.
#[must_use]
#[derive(Debug)]
pub struct PublicationFailStop {
    plan: PendingCompletionPlan,
    reason: PendingError,
}

/// An observation of a fail-stop. It can report; it cannot repair.
#[derive(Clone, Copy, Debug, PartialEq, Eq, Structural)]
pub struct PublicationFailStopWitness {
    install: PendingInstallId,
    reason: PendingError,
}

/// What a fail-stop's witness says.
pub struct WitnessModel {
    pub install: PendingInstallId,
    pub reason: PendingError,
}

impl View for PublicationFailStopWitness {
    type V = WitnessModel;

    closed spec fn view(&self) -> WitnessModel {
        WitnessModel { install: self.install, reason: self.reason }
    }
}

impl PublicationFailStop {
    /// The plan that stopped.
    pub closed spec fn plan(self) -> PlanModel {
        self.plan@
    }

    /// Why it stopped.
    pub closed spec fn refusal(self) -> PendingError {
        self.reason
    }

    /// Observe the refusal without giving the plan up.
    pub fn witness(&self) -> (witness: PublicationFailStopWitness)
        ensures
            witness@ == (WitnessModel { install: self.plan().install, reason: self.refusal() }),
    {
        PublicationFailStopWitness { install: self.plan.install, reason: self.reason }
    }

    /// Why it stopped.
    pub fn reason(&self) -> (reason: PendingError)
        ensures
            reason == self.refusal(),
    {
        self.reason
    }
}

impl PublicationFailStopWitness {
    /// Why the publication stopped.
    pub fn reason(&self) -> (reason: PendingError)
        ensures
            reason == self@.reason,
    {
        self.reason
    }

    /// The install whose publication stopped.
    pub fn install(&self) -> (install: PendingInstallId)
        ensures
            install == self@.install,
    {
        self.install
    }
}

impl PendingCompletionPlan {
    #[verifier::type_invariant]
    closed spec fn inv(self) -> bool {
        keeps_order(self@)
    }

    /// Begin one completion with every authority it consumes. A refusal returns
    /// them.
    pub fn begin(
        install: PendingInstallId,
        irp: IrpObservation,
        role: SqWaitRoleLease,
        control_link: PendingControlLinkRight,
        worker: PendingOwnerToken,
    ) -> (result: Result<
        Self,
        (PendingError, SqWaitRoleLease, PendingControlLinkRight, PendingOwnerToken),
    >)
        ensures
            match result {
                Ok(plan) => {
                    &&& begin_refusal(install, control_link@, worker@) is None
                    &&& plan@ == (PlanModel {
                        install,
                        stage: 0,
                        irp,
                        role: Some(role@),
                        control_link: Some(control_link@),
                        stable_release: Some(PendingStableReleaseOwner::Strong),
                        written_result: None,
                        completed_irp: None,
                        worker: Some(worker@),
                    })
                },
                Err((error, lease, link, token)) => {
                    &&& begin_refusal(install, control_link@, worker@) == Some(error)
                    &&& lease == role && link == control_link && token == worker
                },
            },
    {
        if worker.kind() != PendingOwnerKind::Worker {
            return Err((PendingError::WrongOwnerKind, role, control_link, worker));
        }
        if worker.install() != install {
            return Err((PendingError::WrongInstall, role, control_link, worker));
        }
        if control_link.install() != install {
            return Err((PendingError::WrongInstall, role, control_link, worker));
        }
        Ok(
            Self {
                install,
                stage: 0,
                irp,
                role: Some(role),
                control_link: Some(control_link),
                stable_release: Some(PendingStableReleaseOwner::Strong),
                written_result: None,
                completed_irp: None,
                worker: Some(worker),
            },
        )
    }

    /// The effect this plan runs next, if any.
    pub fn stage(&self) -> (effect: Option<PendingCompletionEffect>)
        ensures
            effect == next_effect(self@),
    {
        if self.stage < PENDING_COMPLETION_ORDER.len() {
            Some(PENDING_COMPLETION_ORDER[self.stage])
        } else {
            None
        }
    }

    /// Take the wait's lease out at its release, and move past it. At any other
    /// effect the plan comes back as it was.
    pub fn take_sq_wait_role(self) -> (taken: (Self, Option<SqWaitRoleLease>))
        ensures
            if next_effect(self@) == Some(PendingCompletionEffect::ReleaseSqWaitRole) {
                &&& taken.0@ == (PlanModel { stage: self@.stage + 1, role: None, ..self@ })
                &&& taken.1 matches Some(lease)
                &&& self@.role == Some(lease@)
            } else {
                taken.0 == self && taken.1 is None
            },
    {
        proof {
            use_type_invariant(&self);
        }
        if self.stage != 3 {
            return (self, None);
        }
        let plan = self;
        (
            Self {
                install: plan.install,
                stage: plan.stage + 1,
                irp: plan.irp,
                role: None,
                control_link: plan.control_link,
                stable_release: plan.stable_release,
                written_result: plan.written_result,
                completed_irp: plan.completed_irp,
                worker: plan.worker,
            },
            plan.role,
        )
    }

    /// Take the control link out at its unlink, and move past it. At any other
    /// effect the plan comes back as it was.
    pub fn take_control_link(self) -> (taken: (Self, Option<PendingControlLinkRight>))
        ensures
            if next_effect(self@) == Some(PendingCompletionEffect::UnlinkControlPending) {
                &&& taken.0@ == (PlanModel { stage: self@.stage + 1, control_link: None, ..self@ })
                &&& taken.1 matches Some(link)
                &&& self@.control_link == Some(link@)
            } else {
                taken.0 == self && taken.1 is None
            },
    {
        proof {
            use_type_invariant(&self);
        }
        if self.stage != 4 {
            return (self, None);
        }
        let plan = self;
        (
            Self {
                install: plan.install,
                stage: plan.stage + 1,
                irp: plan.irp,
                role: plan.role,
                control_link: None,
                stable_release: plan.stable_release,
                written_result: plan.written_result,
                completed_irp: plan.completed_irp,
                worker: plan.worker,
            },
            plan.control_link,
        )
    }

    /// The install being completed.
    pub fn install(&self) -> (install: PendingInstallId)
        ensures
            install == self@.install,
    {
        self.install
    }

    /// Run the next effect, or hand it out where something outside has to do it.
    ///
    /// The wait's lease and the control link stay held at their release, and the
    /// plan stays where it is: only [`PendingCompletionPlan::take_sq_wait_role`]
    /// and [`PendingCompletionPlan::take_control_link`] hand them out and move on.
    pub fn run_next(self) -> (step: PendingCompletionStep)
        ensures
            releases_held(self@) ==> (step matches PendingCompletionStep::Advanced(plan) && plan@
                == self@),
            next_effect(self@) == Some(PendingCompletionEffect::ReleaseSqWaitRole) || next_effect(
                self@,
            ) == Some(PendingCompletionEffect::UnlinkControlPending) ==> releases_held(self@),
            match next_effect(self@) {
                Some(PendingCompletionEffect::WriteExactResult) => {
                    &&& step matches PendingCompletionStep::NeedResultWrite(write)
                    &&& write.plan() == self@
                },
                Some(PendingCompletionEffect::CompleteIrpOnce) => {
                    &&& step matches PendingCompletionStep::NeedIrpCompletion(completion)
                    &&& completion.plan() == self@
                },
                Some(PendingCompletionEffect::PublishVacantOrEpochExhausted) => {
                    &&& step matches PendingCompletionStep::NeedFinalPublication(publication)
                    &&& publication.plan() == self@
                },
                _ => step matches PendingCompletionStep::Advanced(plan) && plan@ == advanced(self@),
            },
            next_effect(self@) is Some,
    {
        proof {
            use_type_invariant(&self);
        }
        let plan = self;
        let effect = PENDING_COMPLETION_ORDER[plan.stage];
        match effect {
            PendingCompletionEffect::CancelTimer
            | PendingCompletionEffect::WaitDpcExitIfRequired => PendingCompletionStep::Advanced(
                Self {
                    install: plan.install,
                    stage: plan.stage + 1,
                    irp: plan.irp,
                    role: plan.role,
                    control_link: plan.control_link,
                    stable_release: plan.stable_release,
                    written_result: plan.written_result,
                    completed_irp: plan.completed_irp,
                    worker: plan.worker,
                },
            ),
            PendingCompletionEffect::WriteExactResult => PendingCompletionStep::NeedResultWrite(
                PendingResultWrite { plan },
            ),
            PendingCompletionEffect::ReleaseSqWaitRole
            | PendingCompletionEffect::UnlinkControlPending => PendingCompletionStep::Advanced(plan),
            PendingCompletionEffect::ReleaseStrongSessionRef => PendingCompletionStep::Advanced(
                Self {
                    install: plan.install,
                    stage: plan.stage + 1,
                    irp: plan.irp,
                    role: plan.role,
                    control_link: plan.control_link,
                    stable_release: None,
                    written_result: plan.written_result,
                    completed_irp: plan.completed_irp,
                    worker: plan.worker,
                },
            ),
            PendingCompletionEffect::CompleteIrpOnce => PendingCompletionStep::NeedIrpCompletion(
                PendingIrpCompletion { plan },
            ),
            PendingCompletionEffect::PublishVacantOrEpochExhausted => {
                PendingCompletionStep::NeedFinalPublication(PendingFinalPublication { plan })
            },
        }
    }

    /// Give up the strong session reference for the right to delete the session.
    pub fn downgrade_stable_release(&mut self) -> (result: Result<(), PendingError>)
        ensures
            match old(self)@.stable_release {
                Some(PendingStableReleaseOwner::Strong) => {
                    &&& result is Ok
                    &&& final(self)@ == (PlanModel {
                        stable_release: Some(PendingStableReleaseOwner::Delete),
                        ..old(self)@
                    })
                },
                Some(PendingStableReleaseOwner::Delete) => {
                    &&& result == Err::<(), PendingError>(PendingError::AlreadyDequeued)
                    &&& *final(self) == *old(self)
                },
                None => {
                    &&& result == Err::<(), PendingError>(PendingError::WrongRingState)
                    &&& *final(self) == *old(self)
                },
            },
    {
        proof {
            use_type_invariant(&*self);
        }
        match &self.stable_release {
            Some(PendingStableReleaseOwner::Strong) => {},
            Some(PendingStableReleaseOwner::Delete) => {
                return Err(PendingError::AlreadyDequeued);
            },
            None => {
                return Err(PendingError::WrongRingState);
            },
        }
        self.stable_release = Some(PendingStableReleaseOwner::Delete);
        Ok(())
    }

    /// The wait's lease is still held.
    pub fn holds_role(&self) -> (held: bool)
        ensures
            held <==> self@.role is Some,
    {
        self.role.is_some()
    }

    /// The control link is still held.
    pub fn holds_control_link(&self) -> (held: bool)
        ensures
            held <==> self@.control_link is Some,
    {
        self.control_link.is_some()
    }

    /// The result is written.
    pub fn has_written_result(&self) -> (written: bool)
        ensures
            written <==> self@.written_result is Some,
    {
        self.written_result.is_some()
    }

    /// The packet is completed.
    pub fn has_completed_irp(&self) -> (completed: bool)
        ensures
            completed <==> self@.completed_irp is Some,
    {
        self.completed_irp.is_some()
    }
}

/// The plan is at a release, with the authority that is to be released still in
/// its hands.
pub open spec fn releases_held(plan: PlanModel) -> bool {
    ||| next_effect(plan) == Some(PendingCompletionEffect::ReleaseSqWaitRole) && plan.role is Some
    ||| next_effect(plan) == Some(PendingCompletionEffect::UnlinkControlPending)
        && plan.control_link is Some
}

/// The plan after a step that it takes by itself: unmoved while it holds what is
/// to be released, and one effect on otherwise. The session's reference is given
/// up on the way.
pub open spec fn advanced(plan: PlanModel) -> PlanModel {
    if releases_held(plan) {
        plan
    } else if next_effect(plan) == Some(PendingCompletionEffect::ReleaseStrongSessionRef) {
        PlanModel { stage: plan.stage + 1, stable_release: None, ..plan }
    } else {
        PlanModel { stage: plan.stage + 1, ..plan }
    }
}

/// Why the slot cannot be given up, if it cannot: the slot has to be this
/// install's, no wake may be left, and the worker has to be the only owner, of
/// this install.
pub open spec fn publication_refusal(
    install: PendingInstallId,
    slot: ResultSlotModel,
    owners: LedgerModel,
    wake: WakeModel,
) -> Option<PendingError> {
    if slot.install != Some(install) {
        Some(PendingError::WrongSlot)
    } else if wake.stored is Some || owners.owners != Set::empty().insert(
        PendingOwnerKind::Worker,
    ) {
        Some(PendingError::OwnersRemain)
    } else if owners.install != Some(install) {
        Some(PendingError::WrongOwnerKind)
    } else {
        None
    }
}

impl PendingFinalPublication {
    /// The plan that owes the publication.
    pub closed spec fn plan(self) -> PlanModel {
        self.plan@
    }

    #[verifier::type_invariant]
    closed spec fn inv(self) -> bool {
        self.plan.inv() && self.plan.stage == 7
    }

    /// Give the slot and the worker's token up together, or refuse and change
    /// nothing. A refusal holds the plan whole.
    pub fn commit_final_publication(
        self,
        slot: &mut PendingResultSlot,
        owners: &mut PendingOwnerLedger,
        wake: &PendingWakeSlot,
        exhausted: bool,
    ) -> (result: Result<PendingCompletionResult, PublicationFailStop>)
        ensures
            ({
                let install = self.plan().install;
                let refusal = publication_refusal(install, old(slot)@, old(owners)@, wake@);
                match result {
                    Ok(completed) => {
                        &&& refusal is None
                        &&& completed@ == (CompletionResultModel { install, exhausted })
                        &&& final(slot)@ == (ResultSlotModel { install: None, ..old(slot)@ })
                        &&& final(owners)@ == (LedgerModel { owners: Set::empty(), ..old(owners)@ })
                    },
                    Err(stop) => {
                        &&& refusal == Some(stop.refusal())
                        &&& stop.plan() == self.plan()
                        &&& *final(slot) == *old(slot)
                        &&& *final(owners) == *old(owners)
                    },
                }
            }),
    {
        proof {
            use_type_invariant(&self);
        }
        let plan = self.plan;
        let alone = owners.owner_count() == 1 && owners.holds(PendingOwnerKind::Worker);
        proof {
            lemma_only_owner(owners@.owners, PendingOwnerKind::Worker);
        }
        if slot.install() != Some(plan.install) {
            return Err(PublicationFailStop { plan, reason: PendingError::WrongSlot });
        }
        if wake.has_wake() || !alone {
            return Err(PublicationFailStop { plan, reason: PendingError::OwnersRemain });
        }
        if owners.bound_install() != Some(plan.install) {
            return Err(PublicationFailStop { plan, reason: PendingError::WrongOwnerKind });
        }
        let install = plan.install;
        match plan.worker {
            Some(worker) => {
                let released = owners.release_owner(worker);
                assert(released is Ok);
                assert(owners@.owners =~= Set::empty());
            },
            None => {
                assert(false);
            },
        }
        let vacated = slot.vacate(install);
        assert(vacated is Ok);
        Ok(PendingCompletionResult { install, exhausted })
    }
}

proof fn lemma_only_owner(owners: Set<PendingOwnerKind>, kind: PendingOwnerKind)
    ensures
        owners.finite() && owners.len() == 1 && owners.contains(kind)
            ==> owners == Set::empty().insert(kind),
        owners == Set::empty().insert(kind) ==> owners.len() == 1 && owners.contains(kind),
{
    if owners.finite() && owners.len() == 1 && owners.contains(kind) {
        assert forall|other: PendingOwnerKind| owners.contains(other) implies other == kind by {
            if other != kind {
                let rest = owners.remove(kind);
                assert(rest.len() == 0);
                assert(rest.contains(other));
            }
        }
        assert(owners =~= Set::empty().insert(kind));
    }
}

/// A completion walks its effects once, in order: each step it takes by itself
/// keeps the order and moves it exactly one effect on, until it is the slot's
/// publication. The two exceptions are the releases of the wait's lease and of
/// the control link: there the plan does not move until they are taken out.
pub proof fn law_completion_advances(plan: PlanModel)
    requires
        keeps_order(plan),
        plan.stage != 2 && plan.stage != 6 && plan.stage != 7,
    ensures
        keeps_order(advanced(plan)),
        plan.stage != 3 && plan.stage != 4 ==> advanced(plan).stage == plan.stage + 1,
        plan.stage == 3 || plan.stage == 4 ==> advanced(plan) == plan,
{
}

/// The plan after any number of steps that it takes by itself.
pub open spec fn walked(plan: PlanModel, steps: nat) -> PlanModel
    decreases steps,
{
    if steps == 0 {
        plan
    } else {
        advanced(walked(plan, (steps - 1) as nat))
    }
}

/// A walk that takes nothing out never passes a release: however many steps it
/// takes, a plan at the release of the wait's lease or of the control link stays
/// there and still holds it.
pub proof fn law_release_is_not_walked_past(plan: PlanModel, steps: nat)
    requires
        keeps_order(plan),
        next_effect(plan) == Some(PendingCompletionEffect::ReleaseSqWaitRole) || next_effect(plan)
            == Some(PendingCompletionEffect::UnlinkControlPending),
    ensures
        releases_held(plan),
        walked(plan, steps) == plan,
    decreases steps,
{
    if steps > 0 {
        law_release_is_not_walked_past(plan, (steps - 1) as nat);
    }
}

/// The result is written before the packet is completed, and the packet is
/// completed before the slot is given up. By then the wait's lease, the control
/// link and the session's reference are all given up too.
pub proof fn law_written_before_completed_before_published(plan: PlanModel)
    requires
        keeps_order(plan),
    ensures
        plan.completed_irp is Some ==> plan.written_result is Some,
        next_effect(plan) == Some(PendingCompletionEffect::CompleteIrpOnce)
            ==> plan.written_result is Some && plan.completed_irp is None,
        next_effect(plan) == Some(PendingCompletionEffect::PublishVacantOrEpochExhausted)
            ==> plan.completed_irp is Some && plan.role is None && plan.control_link is None
            && plan.stable_release is None,
{
}

/// A completion runs its eight effects in this order.
pub proof fn law_completion_goes_in_this_order(plan: PlanModel)
    ensures
        next_effect(plan) == Some(PendingCompletionEffect::CancelTimer) <==> plan.stage == 0,
        next_effect(plan) == Some(PendingCompletionEffect::WaitDpcExitIfRequired) <==> plan.stage
            == 1,
        next_effect(plan) == Some(PendingCompletionEffect::WriteExactResult) <==> plan.stage == 2,
        next_effect(plan) == Some(PendingCompletionEffect::ReleaseSqWaitRole) <==> plan.stage == 3,
        next_effect(plan) == Some(PendingCompletionEffect::UnlinkControlPending) <==> plan.stage
            == 4,
        next_effect(plan) == Some(PendingCompletionEffect::ReleaseStrongSessionRef) <==> plan.stage
            == 5,
        next_effect(plan) == Some(PendingCompletionEffect::CompleteIrpOnce) <==> plan.stage == 6,
        next_effect(plan) == Some(PendingCompletionEffect::PublishVacantOrEpochExhausted) <==>
            plan.stage == 7,
        next_effect(plan) is None <==> plan.stage < 0 || plan.stage > 7,
{
}

/// A completion begins exactly with a worker's token and a control link of the
/// install it completes. A token of another kind is reported first.
pub proof fn law_completion_begins_exactly(
    install: PendingInstallId,
    control_link: PendingInstallId,
    worker: TokenModel,
)
    ensures
        begin_refusal(install, control_link, worker) is None <==> worker.kind
            == PendingOwnerKind::Worker && worker.install == install && control_link == install,
        begin_refusal(install, control_link, worker) == Some(PendingError::WrongOwnerKind) <==>
            worker.kind != PendingOwnerKind::Worker,
        begin_refusal(install, control_link, worker) == Some(PendingError::WrongInstall) <==>
            worker.kind == PendingOwnerKind::Worker && (worker.install != install || control_link
            != install),
{
}

/// What a plan that advances keeps: its install, its packet, its worker, the result
/// it wrote and the packet it completed. The wait's lease and the control link stay
/// with it, and the strong reference leaves it exactly at its own effect.
pub proof fn law_advance_lets_go_of_the_reference_alone(plan: PlanModel)
    ensures
        advanced(plan).install == plan.install,
        advanced(plan).irp == plan.irp,
        advanced(plan).role == plan.role,
        advanced(plan).control_link == plan.control_link,
        advanced(plan).written_result == plan.written_result,
        advanced(plan).completed_irp == plan.completed_irp,
        advanced(plan).worker == plan.worker,
        plan.stage == 5 ==> advanced(plan).stable_release is None,
        plan.stage != 5 ==> advanced(plan).stable_release == plan.stable_release,
        advanced(plan).stage == plan.stage <==> (plan.stage == 3 && plan.role is Some) || (
        plan.stage == 4 && plan.control_link is Some),
        advanced(plan).stage == plan.stage || advanced(plan).stage == plan.stage + 1,
{
}

/// A release is held exactly while the lease or the link that it would release is
/// with the plan.
pub proof fn law_release_waits_for_its_authority(plan: PlanModel)
    ensures
        releases_held(plan) <==> (plan.stage == 3 && plan.role is Some) || (plan.stage == 4
            && plan.control_link is Some),
{
}

/// The slot is given up exactly while it holds the completed install, no wake is
/// stored, and the worker is the ledger's one owner, for that install. A slot of
/// another install is reported first, then a wake or another owner, then a ledger
/// of another install.
pub proof fn law_slot_is_given_up_exactly(
    install: PendingInstallId,
    slot: ResultSlotModel,
    owners: LedgerModel,
    wake: WakeModel,
)
    ensures
        ({
            let refusal = publication_refusal(install, slot, owners, wake);
            let alone = forall|kind: PendingOwnerKind| #[trigger]
                owners.owners.contains(kind) <==> kind == PendingOwnerKind::Worker;
            let quiet = wake.stored is None && alone;
            &&& refusal is None <==> slot.install == Some(install) && quiet && owners.install
                == Some(install)
            &&& refusal == Some(PendingError::WrongSlot) <==> slot.install != Some(install)
            &&& refusal == Some(PendingError::OwnersRemain) <==> slot.install == Some(install)
                && !quiet
            &&& refusal == Some(PendingError::WrongOwnerKind) <==> slot.install == Some(install)
                && quiet && owners.install != Some(install)
        }),
{
    let only = Set::<PendingOwnerKind>::empty().insert(PendingOwnerKind::Worker);
    if forall|kind: PendingOwnerKind| #[trigger]
        owners.owners.contains(kind) <==> kind == PendingOwnerKind::Worker {
        assert(owners.owners =~= only);
    }
    if owners.owners == only {
        assert forall|kind: PendingOwnerKind| #[trigger]
            owners.owners.contains(kind) <==> kind == PendingOwnerKind::Worker by {
            assert(only.contains(kind) <==> kind == PendingOwnerKind::Worker);
        }
    }
}

/// What a plan holds at each stage. It writes before it releases, releases the
/// lease, the link and the reference in that order, and completes once they are
/// gone; the worker's token stays to the end.
pub proof fn law_plan_holds_by_stage(plan: PlanModel)
    requires
        keeps_order(plan),
    ensures
        plan.role is None ==> plan.written_result is Some,
        plan.control_link is None ==> plan.role is None,
        plan.stable_release is None ==> plan.control_link is None,
        plan.completed_irp is Some ==> plan.stable_release is None,
        plan.worker == Some(TokenModel { install: plan.install, kind: PendingOwnerKind::Worker }),
        plan.written_result is Some <==> plan.stage >= 3,
        plan.role is None <==> plan.stage >= 4,
        plan.control_link is None <==> plan.stage >= 5,
        plan.stable_release is None <==> plan.stage >= 6,
        plan.completed_irp is Some <==> plan.stage == 7,
{
}

/// A completion begins exactly with the worker's token and the control link of its
/// install; it holds the lease, the link and a strong reference, and has written
/// and completed nothing. What is refused comes back.
pub proof fn law_completion_begins_with_everything(
    install: PendingInstallId,
    irp: IrpObservation,
    role: SqWaitRoleLease,
    control_link: PendingControlLinkRight,
    worker: PendingOwnerToken,
    result: Result<
        PendingCompletionPlan,
        (PendingError, SqWaitRoleLease, PendingControlLinkRight, PendingOwnerToken),
    >,
)
    requires
        call_ensures(
            PendingCompletionPlan::begin,
            (install, irp, role, control_link, worker),
            result,
        ),
    ensures
        result is Ok <==> worker@.kind == PendingOwnerKind::Worker && worker@.install == install
            && control_link@ == install,
        result matches Ok(plan) ==> {
            &&& plan@.install == install
            &&& plan@.irp == irp
            &&& plan@.stage == 0
            &&& plan@.role == Some(role@)
            &&& plan@.control_link == Some(control_link@)
            &&& plan@.stable_release == Some(PendingStableReleaseOwner::Strong)
            &&& plan@.written_result is None
            &&& plan@.completed_irp is None
            &&& plan@.worker == Some(worker@)
        },
        result matches Err((error, lease, link, token)) ==> {
            &&& error == PendingError::WrongOwnerKind <==> worker@.kind != PendingOwnerKind::Worker
            &&& error == PendingError::WrongInstall <==> worker@.kind == PendingOwnerKind::Worker
            &&& lease == role && link == control_link && token == worker
        },
{
    law_completion_begins_exactly(install, control_link@, worker@);
}

/// What a plan does next, by where it stands: two steps that need nothing, the
/// result's write, two releases that wait for what they release to be taken out, the
/// reference, the packet's completion, and the publication. What it does not do
/// itself it hands on with the plan as it is.
pub proof fn law_plan_does_its_stage(plan: PendingCompletionPlan, step: PendingCompletionStep)
    requires
        call_ensures(PendingCompletionPlan::run_next, (plan,), step),
    ensures
        0 <= plan@.stage <= 7,
        step is NeedResultWrite <==> plan@.stage == 2,
        step is NeedIrpCompletion <==> plan@.stage == 6,
        step is NeedFinalPublication <==> plan@.stage == 7,
        step is Advanced <==> plan@.stage != 2 && plan@.stage != 6 && plan@.stage != 7,
        step matches PendingCompletionStep::NeedResultWrite(write) ==> write.plan() == plan@,
        step matches PendingCompletionStep::NeedIrpCompletion(owed) ==> owed.plan() == plan@,
        step matches PendingCompletionStep::NeedFinalPublication(last) ==> last.plan() == plan@,
        step matches PendingCompletionStep::Advanced(next) ==> {
            &&& plan@.stage == 3 || plan@.stage == 4 ==> next@ == plan@
            &&& plan@.stage == 0 || plan@.stage == 1 ==> next@ == (PlanModel {
                stage: plan@.stage + 1,
                ..plan@
            })
            &&& plan@.stage == 5 ==> next@ == (PlanModel {
                stage: 6,
                stable_release: None,
                ..plan@
            })
        },
{
    law_completion_goes_in_this_order(plan@);
}

/// The lease and the control link leave a plan at their own stages, each at its own,
/// and take it one stage on. At any other stage nothing leaves it.
pub proof fn law_authorities_leave_at_their_stages(
    plan: PendingCompletionPlan,
    without_role: (PendingCompletionPlan, Option<SqWaitRoleLease>),
    without_link: (PendingCompletionPlan, Option<PendingControlLinkRight>),
)
    requires
        call_ensures(PendingCompletionPlan::take_sq_wait_role, (plan,), without_role),
        call_ensures(PendingCompletionPlan::take_control_link, (plan,), without_link),
    ensures
        without_role.1 is Some <==> plan@.stage == 3,
        without_role.1 matches Some(lease) ==> plan@.role == Some(lease@) && without_role.0@ == (
        PlanModel { stage: 4, role: None, ..plan@ }),
        without_role.1 is None ==> without_role.0 == plan,
        without_link.1 is Some <==> plan@.stage == 4,
        without_link.1 matches Some(link) ==> plan@.control_link == Some(link@) && without_link.0@
            == (PlanModel { stage: 5, control_link: None, ..plan@ }),
        without_link.1 is None ==> without_link.0 == plan,
{
    law_completion_goes_in_this_order(plan@);
}

/// A written result is recorded with its status and its count for the plan's
/// install, and a completed packet as the plan's own; each takes the plan one stage
/// on and changes nothing else. A packet is completed with the result that was
/// written.
pub proof fn law_written_result_is_what_completes(
    write: PendingResultWrite,
    status: u32,
    information: usize,
    written: PendingCompletionPlan,
    owed: PendingIrpCompletion,
    shown: Option<(IrpObservation, u32, usize)>,
    completed: PendingCompletionPlan,
)
    requires
        call_ensures(PendingResultWrite::commit_result_write, (write, status, information), written),
        call_ensures(PendingIrpCompletion::view, (&owed,), shown),
        call_ensures(PendingIrpCompletion::commit_irp_completion, (owed,), completed),
    ensures
        written@ == (PlanModel {
            stage: 3,
            written_result: Some(
                WrittenModel { install: write.plan().install, status, information },
            ),
            ..write.plan()
        }),
        owed.plan().written_result is Some,
        shown == Some(
            (
                owed.plan().irp,
                owed.plan().written_result->0.status,
                owed.plan().written_result->0.information,
            ),
        ),
        completed@ == (PlanModel {
            stage: 7,
            completed_irp: Some(
                CompletedModel { install: owed.plan().install, irp: owed.plan().irp },
            ),
            ..owed.plan()
        }),
{
}

/// The slot is given up exactly while it is the completed install's, no wake is
/// stored, and the worker is the one owner left, of that install. Then the slot and
/// the ledger are free; otherwise the plan is parked whole with the reason.
pub proof fn law_publication_frees_slot_and_ledger(
    last: PendingFinalPublication,
    slot: &mut PendingResultSlot,
    owners: &mut PendingOwnerLedger,
    wake: PendingWakeSlot,
    exhausted: bool,
    result: Result<PendingCompletionResult, PublicationFailStop>,
)
    requires
        call_ensures(
            PendingFinalPublication::commit_final_publication,
            (last, slot, owners, &wake, exhausted),
            result,
        ),
    ensures
        ({
            let install = last.plan().install;
            let alone = forall|kind: PendingOwnerKind| #[trigger]
                old(owners)@.owners.contains(kind) <==> kind == PendingOwnerKind::Worker;
            let quiet = wake@.stored is None && alone;
            let named = old(slot)@.install == Some(install);
            &&& result is Ok <==> named && quiet && old(owners)@.install == Some(install)
            &&& result matches Ok(completed) ==> {
                &&& completed@.install == install
                &&& completed@.exhausted == exhausted
                &&& final(slot)@ == (ResultSlotModel { install: None, ..old(slot)@ })
                &&& final(owners)@ == (LedgerModel { owners: Set::empty(), ..old(owners)@ })
            }
            &&& result matches Err(stop) ==> {
                &&& stop.refusal() == PendingError::WrongSlot <==> !named
                &&& stop.refusal() == PendingError::OwnersRemain <==> named && !quiet
                &&& stop.refusal() == PendingError::WrongOwnerKind <==> named && quiet
                &&& stop.plan() == last.plan()
                &&& final(slot)@ == old(slot)@
                &&& final(owners)@ == old(owners)@
            }
        }),
{
    law_slot_is_given_up_exactly(last.plan().install, old(slot)@, old(owners)@, wake@);
}

/// A strong reference is downgraded once, and only while it is there.
pub proof fn law_reference_is_downgraded_once(
    plan: &mut PendingCompletionPlan,
    result: Result<(), PendingError>,
)
    requires
        call_ensures(PendingCompletionPlan::downgrade_stable_release, (plan,), result),
    ensures
        result is Ok <==> old(plan)@.stable_release == Some(PendingStableReleaseOwner::Strong),
        result is Ok ==> final(plan)@ == (PlanModel {
            stable_release: Some(PendingStableReleaseOwner::Delete),
            ..old(plan)@
        }),
        result == Err::<(), _>(PendingError::AlreadyDequeued) <==> old(plan)@.stable_release
            == Some(PendingStableReleaseOwner::Delete),
        result == Err::<(), _>(PendingError::WrongRingState) <==> old(plan)@.stable_release is None,
        result is Err ==> final(plan)@ == old(plan)@,
{
}

/// A plan tells what it holds and where it stands: the effect it owes next, by its
/// place, and each authority and receipt exactly while it has it.
pub proof fn law_plan_tells_what_it_holds(
    plan: PendingCompletionPlan,
    effect: Option<PendingCompletionEffect>,
    install: PendingInstallId,
    role: bool,
    link: bool,
    written: bool,
    completed: bool,
)
    requires
        call_ensures(PendingCompletionPlan::stage, (&plan,), effect),
        call_ensures(PendingCompletionPlan::install, (&plan,), install),
        call_ensures(PendingCompletionPlan::holds_role, (&plan,), role),
        call_ensures(PendingCompletionPlan::holds_control_link, (&plan,), link),
        call_ensures(PendingCompletionPlan::has_written_result, (&plan,), written),
        call_ensures(PendingCompletionPlan::has_completed_irp, (&plan,), completed),
    ensures
        effect == Some(PendingCompletionEffect::CancelTimer) <==> plan@.stage == 0,
        effect == Some(PendingCompletionEffect::WriteExactResult) <==> plan@.stage == 2,
        effect == Some(PendingCompletionEffect::CompleteIrpOnce) <==> plan@.stage == 6,
        effect == Some(PendingCompletionEffect::PublishVacantOrEpochExhausted) <==> plan@.stage
            == 7,
        install == plan@.install,
        role <==> plan@.role is Some,
        link <==> plan@.control_link is Some,
        written <==> plan@.written_result is Some,
        completed <==> plan@.completed_irp is Some,
{
    law_completion_goes_in_this_order(plan@);
}

/// A stopped publication and its witness tell the same install and the same reason.
pub proof fn law_witness_tells_the_stop(
    stop: PublicationFailStop,
    reason: PendingError,
    witness: PublicationFailStopWitness,
    told: PendingError,
    install: PendingInstallId,
    write: PendingResultWrite,
    named: (PendingInstallId, IrpObservation),
)
    requires
        call_ensures(PublicationFailStop::reason, (&stop,), reason),
        call_ensures(PublicationFailStop::witness, (&stop,), witness),
        call_ensures(PublicationFailStopWitness::reason, (&witness,), told),
        call_ensures(PublicationFailStopWitness::install, (&witness,), install),
        call_ensures(PendingResultWrite::view, (&write,), named),
    ensures
        reason == stop.refusal(),
        told == reason,
        install == stop.plan().install,
        named.0 == write.plan().install,
        named.1 == write.plan().irp,
{
}

} // verus!
