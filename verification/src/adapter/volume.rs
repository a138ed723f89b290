//! Mount, verify and dismount choreography.
//!
//! The mount transaction itself is stated in [`crate::volume`] as an affine
//! capability chain. This module is the bridge an executor drives: it adds the
//! two evidence effects that follow a commit, keeps verify and dismount as
//! progressions of their own, and turns a failed destructive dismount step into
//! a continuation that can only go forward.

use crate::abi::identity::SessionIdentity;
use crate::abi::status;
use crate::adapter::AdapterPlanError;
use crate::volume::{
    decide_verify, plan_dismount, DismountEffect, DismountPlan, MountEffect, MountEffectOutcome,
    MountModel, MountProgress, MountRevalidation, MountRollback, PendingClearDeviceInitializing,
    PendingOrdinaryMountEffect, PendingPublishMountOwner, PreparedMountEffect, PublishedMount,
    VerifyDecision, VolumeState,
};
use vstd::prelude::*;

verus! {

/// Own one resolved access guard for an entire mount transaction.
///
/// There is no early-release method: commit and rollback code may borrow the
/// guard, but only dropping the transaction owner drops it.
pub struct RetainedAccessGuard<G> {
    guard: G,
}

impl<G> View for RetainedAccessGuard<G> {
    type V = G;

    closed spec fn view(&self) -> G {
        self.guard
    }
}

impl<G> RetainedAccessGuard<G> {
    /// Take ownership of `guard`.
    pub fn new(guard: G) -> (retained: Self)
        ensures
            retained@ == guard,
    {
        Self { guard }
    }

    /// Run `operation` once, on the owned guard, and drop the guard after it.
    pub fn run<F: FnOnce(&G)>(self, operation: F)
        requires
            operation.requires((&self@,)),
        ensures
            operation.ensures((&self@,), ()),
    {
        operation(&self.guard);
    }
}

/// One native operation in a volume transition.
///
/// The two evidence effects are separate variants, so an event cannot be
/// emitted from anywhere but its own committed state.
#[derive(Clone, Copy, Debug, PartialEq, Eq, Structural)]
pub enum VolumeEffect {
    Mount(MountEffect),
    /// Install the complete mount owner under the permanent registry lock.
    PublishMountOwner,
    EmitMountPublished,
    ReadVerifyUnderVpbLock,
    EmitVerifySucceeded,
    Dismount(DismountEffect),
}

/// The two facts a verify reads while the VPB spin lock is held.
#[derive(Clone, Copy, Debug, PartialEq, Eq, Structural)]
pub struct VerifyObservation {
    pub state: VolumeState,
    pub identity_matches: bool,
}

/// The closed outcome vocabulary a native executor may report.
#[derive(Clone, Copy, Debug, PartialEq, Eq, Structural)]
pub enum VolumeEffectOutcome {
    Done,
    MountRevalidated(MountRevalidation),
    VerifyObserved(VerifyObservation),
}

/// Where a verify is in its two-step progression.
#[derive(Clone, Copy, Debug, PartialEq, Eq, Structural)]
pub enum VerifyPhase {
    /// The single locked read has not happened yet.
    Read,
    /// The read committed; the decision is fixed and evidence may be owed.
    Emit(VerifyDecision),
}

/// The private state of one volume transition.
#[derive(Debug)]
enum NativeVolumeState {
    Mount(PendingOrdinaryMountEffect),
    PublishMountOwner(PendingPublishMountOwner),
    ClearDeviceInitializing(PendingClearDeviceInitializing),
    EmitMount(PublishedMount),
    Verify { identity: SessionIdentity, phase: VerifyPhase },
    Dismount { plan: DismountPlan, next: usize },
}

/// One volume transition.
#[derive(Debug)]
pub struct NativeVolumePlan {
    state: NativeVolumeState,
}

/// A one-shot capability requesting exactly one native volume effect.
#[derive(Debug)]
pub struct PendingVolumeEffect {
    plan: NativeVolumePlan,
    effect: VolumeEffect,
}

/// Where a volume transition stands.
#[derive(Debug)]
pub enum VolumeProgress {
    Effect(PendingVolumeEffect),
    Mounted(PublishedMount),
    Verified(VerifyDecision),
    Dismounted,
}

/// A dismount that lost one destructive step and must finish the rest.
///
/// It carries the plan and the index past the step that failed, so a resumed
/// dismount can neither retry that step nor restart an earlier one.
#[derive(Debug)]
pub struct DismountContinuation {
    plan: DismountPlan,
    next: usize,
}

/// What to do once an effect failed.
#[derive(Debug)]
pub enum VolumeFailurePlan {
    Mount(MountRollback),
    Complete { status: i32, information: usize },
    ContinueDismount(DismountContinuation),
}

/// Why a completed effect did not lead on: it was reported outside the closed
/// vocabulary, or it was validly refused with the exact unwind that is owed.
#[derive(Debug)]
pub enum VolumeEffectFailure {
    Invalid(AdapterPlanError),
    Plan(VolumeFailurePlan),
}

/// What a transition is: a mount with so many effects done, a published mount
/// that owes its evidence, a verify, or a dismount with so many steps behind it.
pub enum VolumeModel {
    Mount(MountModel),
    EmitMount(SessionIdentity),
    Verify { identity: SessionIdentity, phase: VerifyPhase },
    Dismount { identity: SessionIdentity, next: int },
}

/// Where a transition stands: an effect is owed, or a terminal was reached.
pub enum ProgressModel {
    Effect(VolumeModel),
    Mounted(SessionIdentity),
    Verified(VerifyDecision),
    Dismounted,
}

/// What a failed effect leaves to be done.
pub enum FailurePlanModel {
    Mount(MountModel),
    Complete { status: i32, information: usize },
    ContinueDismount { identity: SessionIdentity, next: int },
}

/// What a completed effect that does not lead on leaves.
pub enum EffectFailureModel {
    Invalid(AdapterPlanError),
    Plan(FailurePlanModel),
}

/// The effect a transition owes, if it owes one.
pub open spec fn owed(model: VolumeModel) -> Option<VolumeEffect> {
    match model {
        VolumeModel::Mount(mount) => Some(
            if crate::volume::mount_effect(mount.position) == MountEffect::PublishMountOwner {
                VolumeEffect::PublishMountOwner
            } else {
                VolumeEffect::Mount(crate::volume::mount_effect(mount.position))
            },
        ),
        VolumeModel::EmitMount(_) => Some(VolumeEffect::EmitMountPublished),
        VolumeModel::Verify { identity: _, phase: VerifyPhase::Read } => Some(
            VolumeEffect::ReadVerifyUnderVpbLock,
        ),
        VolumeModel::Verify { identity: _, phase: VerifyPhase::Emit(decision) } => if decision
            == VerifyDecision::Success {
            Some(VolumeEffect::EmitVerifySucceeded)
        } else {
            None
        },
        VolumeModel::Dismount { identity: _, next } => if 0 <= next < DismountPlan::EFFECTS@.len() {
            Some(VolumeEffect::Dismount(DismountPlan::EFFECTS@[next]))
        } else {
            None
        },
    }
}

/// Where a transition in this state stands.
pub open spec fn settled(model: VolumeModel) -> ProgressModel {
    if owed(model) is Some {
        ProgressModel::Effect(model)
    } else {
        match model {
            VolumeModel::Verify { identity: _, phase: VerifyPhase::Emit(decision) } =>
                ProgressModel::Verified(decision),
            _ => ProgressModel::Dismounted,
        }
    }
}

/// The mount transaction's reading of a reported outcome.
pub open spec fn mount_outcome(outcome: VolumeEffectOutcome) -> Option<MountEffectOutcome> {
    match outcome {
        VolumeEffectOutcome::Done => Some(MountEffectOutcome::Done),
        VolumeEffectOutcome::MountRevalidated(facts) => Some(
            MountEffectOutcome::Revalidated(facts),
        ),
        VolumeEffectOutcome::VerifyObserved(_) => None,
    }
}

/// Where a transition stands once its owed effect is reported with `outcome`.
pub open spec fn after_success(model: VolumeModel, outcome: VolumeEffectOutcome) -> Result<
    ProgressModel,
    EffectFailureModel,
> {
    let refused = Err(EffectFailureModel::Invalid(AdapterPlanError::InvalidInput));
    match model {
        VolumeModel::Mount(mount) => if mount.position < 12 {
            match mount_outcome(outcome) {
                None => refused,
                Some(reported) => if crate::volume::ordinary_accepts(mount.position, reported) {
                    Ok(
                        ProgressModel::Effect(
                            VolumeModel::Mount(
                                MountModel { position: mount.position + 1, ..mount },
                            ),
                        ),
                    )
                } else {
                    Err(EffectFailureModel::Plan(FailurePlanModel::Mount(mount)))
                },
            }
        } else if outcome != VolumeEffectOutcome::Done {
            refused
        } else if mount.position == 12 {
            Ok(
                ProgressModel::Effect(
                    VolumeModel::Mount(MountModel { position: mount.position + 1, ..mount }),
                ),
            )
        } else {
            Ok(ProgressModel::Effect(VolumeModel::EmitMount(mount.identity)))
        },
        VolumeModel::EmitMount(identity) => if outcome == VolumeEffectOutcome::Done {
            Ok(ProgressModel::Mounted(identity))
        } else {
            refused
        },
        VolumeModel::Verify { identity, phase: VerifyPhase::Read } => match outcome {
            VolumeEffectOutcome::VerifyObserved(observation) => Ok(
                settled(
                    VolumeModel::Verify {
                        identity,
                        phase: VerifyPhase::Emit(
                            crate::volume::verify_decision(
                                observation.state,
                                observation.identity_matches,
                            ),
                        ),
                    },
                ),
            ),
            _ => refused,
        },
        VolumeModel::Verify { identity: _, phase: VerifyPhase::Emit(decision) } => if outcome
            == VolumeEffectOutcome::Done {
            Ok(ProgressModel::Verified(decision))
        } else {
            refused
        },
        VolumeModel::Dismount { identity, next } => if outcome == VolumeEffectOutcome::Done {
            Ok(settled(VolumeModel::Dismount { identity, next: next + 1 }))
        } else {
            refused
        },
    }
}

/// What a transition leaves to be done once its owed effect failed.
///
/// A mount unwinds up to and including the owner's publication. The exposure of
/// the device and every evidence effect come after a commit, so their failure
/// completes what is committed. A verify whose read failed decided nothing. A
/// failed dismount step is skipped.
pub open spec fn after_failure(model: VolumeModel) -> FailurePlanModel {
    let success = FailurePlanModel::Complete { status: status::SUCCESS, information: 0 };
    match model {
        VolumeModel::Mount(mount) => if mount.position <= 12 {
            FailurePlanModel::Mount(mount)
        } else {
            success
        },
        VolumeModel::EmitMount(_) => success,
        VolumeModel::Verify { identity: _, phase: VerifyPhase::Read } =>
            FailurePlanModel::Complete { status: status::INVALID_DEVICE_STATE, information: 0 },
        VolumeModel::Verify { identity: _, phase: VerifyPhase::Emit(_) } => success,
        VolumeModel::Dismount { identity, next } => FailurePlanModel::ContinueDismount {
            identity,
            next: next + 1,
        },
    }
}

impl View for NativeVolumePlan {
    type V = VolumeModel;

    closed spec fn view(&self) -> VolumeModel {
        match self.state {
            NativeVolumeState::Mount(ordinary) => VolumeModel::Mount(ordinary@),
            NativeVolumeState::PublishMountOwner(publish) => VolumeModel::Mount(
                MountModel { identity: publish@, position: 12 },
            ),
            NativeVolumeState::ClearDeviceInitializing(clear) => VolumeModel::Mount(
                MountModel { identity: clear@, position: 13 },
            ),
            NativeVolumeState::EmitMount(published) => VolumeModel::EmitMount(published@),
            NativeVolumeState::Verify { identity, phase } => VolumeModel::Verify {
                identity,
                phase,
            },
            NativeVolumeState::Dismount { plan, next } => VolumeModel::Dismount {
                identity: plan@,
                next: next as int,
            },
        }
    }
}

impl View for PendingVolumeEffect {
    type V = VolumeModel;

    closed spec fn view(&self) -> VolumeModel {
        self.plan@
    }
}

impl View for VolumeProgress {
    type V = ProgressModel;

    open spec fn view(&self) -> ProgressModel {
        match self {
            VolumeProgress::Effect(pending) => ProgressModel::Effect(pending@),
            VolumeProgress::Mounted(published) => ProgressModel::Mounted(published@),
            VolumeProgress::Verified(decision) => ProgressModel::Verified(*decision),
            VolumeProgress::Dismounted => ProgressModel::Dismounted,
        }
    }
}

impl View for VolumeFailurePlan {
    type V = FailurePlanModel;

    open spec fn view(&self) -> FailurePlanModel {
        match self {
            VolumeFailurePlan::Mount(rollback) => FailurePlanModel::Mount(rollback@),
            VolumeFailurePlan::Complete { status, information } => FailurePlanModel::Complete {
                status: *status,
                information: *information,
            },
            VolumeFailurePlan::ContinueDismount(continuation) =>
                FailurePlanModel::ContinueDismount {
                identity: continuation.plan_identity(),
                next: continuation.next_step(),
            },
        }
    }
}

impl View for VolumeEffectFailure {
    type V = EffectFailureModel;

    open spec fn view(&self) -> EffectFailureModel {
        match self {
            VolumeEffectFailure::Invalid(error) => EffectFailureModel::Invalid(*error),
            VolumeEffectFailure::Plan(plan) => EffectFailureModel::Plan(plan@),
        }
    }
}

impl DismountContinuation {
    /// The session being dismounted.
    pub closed spec fn plan_identity(self) -> SessionIdentity {
        self.plan@
    }

    /// The step the resume starts from.
    pub closed spec fn next_step(self) -> int {
        self.next as int
    }

    #[verifier::type_invariant]
    closed spec fn inv(self) -> bool {
        self.next <= DismountPlan::EFFECTS@.len()
    }

    /// The step index the resume will start from.
    pub fn next_index(&self) -> (next: usize)
        ensures
            next == self.next_step(),
    {
        self.next
    }

    /// The session being dismounted.
    pub fn identity(&self) -> (identity: SessionIdentity)
        ensures
            identity == self.plan_identity(),
    {
        self.plan.identity()
    }
}

impl NativeVolumePlan {
    #[verifier::type_invariant]
    closed spec fn inv(self) -> bool {
        match self.state {
            NativeVolumeState::Mount(ordinary) => 0 <= ordinary@.position < 12,
            NativeVolumeState::Dismount { plan, next } => next <= DismountPlan::EFFECTS@.len(),
            _ => true,
        }
    }

    /// Drive a mount transaction already begun by [`crate::volume::begin_mount`].
    pub fn mount(progress: MountProgress) -> (result: VolumeProgress)
        ensures
            result@ == (match progress {
                MountProgress::Effect(pending) => ProgressModel::Effect(
                    VolumeModel::Mount(pending@),
                ),
                MountProgress::Published(published) => ProgressModel::Effect(
                    VolumeModel::EmitMount(published@),
                ),
            }),
    {
        match progress {
            MountProgress::Effect(pending) => {
                let state = match pending.prepare() {
                    PreparedMountEffect::Ordinary(ordinary) => NativeVolumeState::Mount(ordinary),
                    PreparedMountEffect::PublishMountOwner(publish) => {
                        NativeVolumeState::PublishMountOwner(publish)
                    },
                    PreparedMountEffect::ClearDeviceInitializing(clear) => {
                        NativeVolumeState::ClearDeviceInitializing(clear)
                    },
                };
                Self { state }.next()
            },
            MountProgress::Published(published) => Self {
                state: NativeVolumeState::EmitMount(published),
            }.next(),
        }
    }

    /// Begin a verify. The decision is computed only from the locked read.
    pub fn verify(identity: SessionIdentity) -> (result: VolumeProgress)
        ensures
            result@ == ProgressModel::Effect(
                VolumeModel::Verify { identity, phase: VerifyPhase::Read },
            ),
    {
        Self { state: NativeVolumeState::Verify { identity, phase: VerifyPhase::Read } }.next()
    }

    /// Begin a dismount.
    pub fn dismount(plan: DismountPlan) -> (result: VolumeProgress)
        ensures
            result@ == ProgressModel::Effect(VolumeModel::Dismount { identity: plan@, next: 0 }),
    {
        Self { state: NativeVolumeState::Dismount { plan, next: 0 } }.next()
    }

    /// Continue a dismount past a destructive step that failed.
    pub fn resume_dismount(continuation: DismountContinuation) -> (result: VolumeProgress)
        ensures
            result@ == settled(
                VolumeModel::Dismount {
                    identity: continuation.plan_identity(),
                    next: continuation.next_step(),
                },
            ),
    {
        proof {
            use_type_invariant(&continuation);
        }
        let DismountContinuation { plan, next } = continuation;
        Self { state: NativeVolumeState::Dismount { plan, next } }.next()
    }

    /// Yield the next effect, or the terminal this transition reached.
    pub fn next(self) -> (result: VolumeProgress)
        ensures
            result@ == settled(self@),
    {
        proof {
            use_type_invariant(&self);
        }
        match self.state {
            NativeVolumeState::Mount(ordinary) => {
                let effect = ordinary.effect();
                VolumeProgress::Effect(
                    PendingVolumeEffect {
                        plan: Self { state: NativeVolumeState::Mount(ordinary) },
                        effect: VolumeEffect::Mount(effect),
                    },
                )
            },
            NativeVolumeState::PublishMountOwner(publish) => {
                VolumeProgress::Effect(
                    PendingVolumeEffect {
                        plan: Self { state: NativeVolumeState::PublishMountOwner(publish) },
                        effect: VolumeEffect::PublishMountOwner,
                    },
                )
            },
            NativeVolumeState::ClearDeviceInitializing(clear) => {
                let effect = clear.effect();
                VolumeProgress::Effect(
                    PendingVolumeEffect {
                        plan: Self { state: NativeVolumeState::ClearDeviceInitializing(clear) },
                        effect: VolumeEffect::Mount(effect),
                    },
                )
            },
            NativeVolumeState::EmitMount(published) => {
                VolumeProgress::Effect(
                    PendingVolumeEffect {
                        plan: Self { state: NativeVolumeState::EmitMount(published) },
                        effect: VolumeEffect::EmitMountPublished,
                    },
                )
            },
            NativeVolumeState::Verify { identity, phase } => match phase {
                VerifyPhase::Read => VolumeProgress::Effect(
                    PendingVolumeEffect {
                        plan: Self { state: NativeVolumeState::Verify { identity, phase } },
                        effect: VolumeEffect::ReadVerifyUnderVpbLock,
                    },
                ),
                // Only a real committed success earns evidence; a dismounted or
                // mismatched verify has nothing to attest.
                VerifyPhase::Emit(VerifyDecision::Success) => VolumeProgress::Effect(
                    PendingVolumeEffect {
                        plan: Self { state: NativeVolumeState::Verify { identity, phase } },
                        effect: VolumeEffect::EmitVerifySucceeded,
                    },
                ),
                VerifyPhase::Emit(decision) => VolumeProgress::Verified(decision),
            },
            NativeVolumeState::Dismount { plan, next } => {
                let effects = plan.effects();
                if next < effects.len() {
                    let effect = effects[next];
                    VolumeProgress::Effect(
                        PendingVolumeEffect {
                            plan: Self { state: NativeVolumeState::Dismount { plan, next } },
                            effect: VolumeEffect::Dismount(effect),
                        },
                    )
                } else {
                    VolumeProgress::Dismounted
                }
            },
        }
    }
}

impl PendingVolumeEffect {
    #[verifier::type_invariant]
    closed spec fn inv(self) -> bool {
        self.plan.inv() && owed(self.plan@) == Some(self.effect)
    }

    /// The owed effect.
    pub fn effect(&self) -> (effect: VolumeEffect)
        ensures
            Some(effect) == owed(self@),
    {
        proof {
            use_type_invariant(self);
        }
        self.effect
    }

    /// Consume this capability after its native effect completed.
    pub fn succeeded(self, outcome: VolumeEffectOutcome) -> (result: Result<
        VolumeProgress,
        VolumeEffectFailure,
    >)
        ensures
            match result {
                Ok(progress) => after_success(self@, outcome) == Ok::<
                    ProgressModel,
                    EffectFailureModel,
                >(progress@),
                Err(failure) => after_success(self@, outcome) == Err::<
                    ProgressModel,
                    EffectFailureModel,
                >(failure@),
            },
    {
        proof {
            use_type_invariant(&self);
        }
        let Self { plan, effect } = self;
        match (plan.state, effect) {
            (NativeVolumeState::Mount(ordinary), VolumeEffect::Mount(_)) => {
                let reported = match outcome {
                    VolumeEffectOutcome::Done => MountEffectOutcome::Done,
                    VolumeEffectOutcome::MountRevalidated(revalidation) => {
                        MountEffectOutcome::Revalidated(revalidation)
                    },
                    VolumeEffectOutcome::VerifyObserved(_) => {
                        return Err(VolumeEffectFailure::Invalid(AdapterPlanError::InvalidInput));
                    },
                };
                match ordinary.succeeded(reported) {
                    Ok(progress) => Ok(NativeVolumePlan::mount(progress)),
                    Err(rollback) => Err(
                        VolumeEffectFailure::Plan(VolumeFailurePlan::Mount(rollback)),
                    ),
                }
            },
            (NativeVolumeState::PublishMountOwner(publish), VolumeEffect::PublishMountOwner) => {
                if !matches!(outcome, VolumeEffectOutcome::Done) {
                    return Err(VolumeEffectFailure::Invalid(AdapterPlanError::InvalidInput));
                }
                Ok(NativeVolumePlan::mount(publish.published()))
            },
            (
                NativeVolumeState::ClearDeviceInitializing(clear),
                VolumeEffect::Mount(MountEffect::ClearDeviceInitializing),
            ) => {
                if !matches!(outcome, VolumeEffectOutcome::Done) {
                    return Err(VolumeEffectFailure::Invalid(AdapterPlanError::InvalidInput));
                }
                Ok(NativeVolumePlan { state: NativeVolumeState::EmitMount(clear.cleared()) }.next())
            },
            (NativeVolumeState::EmitMount(published), VolumeEffect::EmitMountPublished) => {
                if !matches!(outcome, VolumeEffectOutcome::Done) {
                    return Err(VolumeEffectFailure::Invalid(AdapterPlanError::InvalidInput));
                }
                Ok(VolumeProgress::Mounted(published))
            },
            (
                NativeVolumeState::Verify { identity, phase: VerifyPhase::Read },
                VolumeEffect::ReadVerifyUnderVpbLock,
            ) => {
                let VolumeEffectOutcome::VerifyObserved(observation) = outcome else {
                    return Err(VolumeEffectFailure::Invalid(AdapterPlanError::InvalidInput));
                };
                let decision = decide_verify(observation.state, observation.identity_matches);
                Ok(
                    NativeVolumePlan {
                        state: NativeVolumeState::Verify {
                            identity,
                            phase: VerifyPhase::Emit(decision),
                        },
                    }.next(),
                )
            },
            (
                NativeVolumeState::Verify { identity: _, phase: VerifyPhase::Emit(decision) },
                VolumeEffect::EmitVerifySucceeded,
            ) => {
                if !matches!(outcome, VolumeEffectOutcome::Done) {
                    return Err(VolumeEffectFailure::Invalid(AdapterPlanError::InvalidInput));
                }
                Ok(VolumeProgress::Verified(decision))
            },
            (NativeVolumeState::Dismount { plan, next }, VolumeEffect::Dismount(_)) => {
                if !matches!(outcome, VolumeEffectOutcome::Done) {
                    return Err(VolumeEffectFailure::Invalid(AdapterPlanError::InvalidInput));
                }
                Ok(
                    NativeVolumePlan {
                        state: NativeVolumeState::Dismount { plan, next: next + 1 },
                    }.next(),
                )
            },
            _ => Err(VolumeEffectFailure::Invalid(AdapterPlanError::InvalidTransition)),
        }
    }

    /// Consume a failed native effect.
    pub fn failed(self) -> (plan: VolumeFailurePlan)
        ensures
            plan@ == after_failure(self@),
    {
        proof {
            use_type_invariant(&self);
        }
        let Self { plan, effect: _ } = self;
        match plan.state {
            NativeVolumeState::Mount(ordinary) => VolumeFailurePlan::Mount(ordinary.failed()),
            NativeVolumeState::PublishMountOwner(publish) => {
                VolumeFailurePlan::Mount(publish.failed())
            },
            // The device is exposed the moment the clear returns, and no unwind
            // could un-expose it.
            NativeVolumeState::ClearDeviceInitializing(_) => VolumeFailurePlan::Complete {
                status: status::SUCCESS,
                information: 0,
            },
            // The mount is published; a failed evidence write is no filesystem fault.
            NativeVolumeState::EmitMount(_) => VolumeFailurePlan::Complete {
                status: status::SUCCESS,
                information: 0,
            },
            NativeVolumeState::Verify { identity: _, phase } => match phase {
                // The locked read never happened, so there is no decision.
                VerifyPhase::Read => VolumeFailurePlan::Complete {
                    status: status::INVALID_DEVICE_STATE,
                    information: 0,
                },
                // The verify already committed; only its evidence failed.
                VerifyPhase::Emit(_) => VolumeFailurePlan::Complete {
                    status: status::SUCCESS,
                    information: 0,
                },
            },
            // A destructive teardown step that failed is skipped; the
            // continuation cannot retry it and cannot go back.
            NativeVolumeState::Dismount { plan, next } => {
                VolumeFailurePlan::ContinueDismount(DismountContinuation { plan, next: next + 1 })
            },
        }
    }
}

/// Turn a publication proof into its teardown plan.
pub fn dismount_plan(volume: PublishedMount) -> (plan: DismountPlan)
    ensures
        plan@ == volume@,
{
    plan_dismount(volume)
}

/// One operation of the native mount surface.
#[derive(Clone, Copy, Debug, PartialEq, Eq, Structural)]
pub enum NativeMountOp {
    AcquireVpb,
    ValidateTarget,
    ReleaseVpb,
    AcquireSessionReference,
    CreateMountedDevice,
    AllocateVcb,
    InitializeDeviceAndVcb,
    RevalidateTargetIdentityAdmissionAndBinding,
    BindVpb,
    SetVpbMounted,
    PublishMountOwner,
    ClearDeviceInitializing,
    EmitMountPublished,
}

/// One call of the native mount surface and its reply; a refusal replies nothing.
pub struct NativeMountCall {
    pub op: NativeMountOp,
    pub reply: Option<VolumeEffectOutcome>,
}

/// The closed native operation surface for the mount transaction.
///
/// The effect-to-method mapping stays in [`run_r3_mount`], so an implementor
/// cannot collapse a required operation into a generic successful callback. An
/// implementor's `log` is the calls made on it, oldest first.
pub trait R3VolumeNativeOps {
    /// Every call made on this surface, with its reply.
    ///
    /// A verified implementor overrides this: with the default, which never
    /// grows, nothing meets the contracts of the calls. Code that is not verified
    /// may leave it, since it is never run; that code has to keep the contracts
    /// by itself.
    open spec fn log(&self) -> Seq<NativeMountCall> {
        Seq::empty()
    }

    fn acquire_vpb(&mut self) -> (reply: Option<VolumeEffectOutcome>)
        ensures
            final(self).log() == old(self).log().push(
                NativeMountCall { op: NativeMountOp::AcquireVpb, reply },
            ),
    ;

    fn validate_target(&mut self) -> (reply: Option<VolumeEffectOutcome>)
        ensures
            final(self).log() == old(self).log().push(
                NativeMountCall { op: NativeMountOp::ValidateTarget, reply },
            ),
    ;

    fn release_vpb(&mut self) -> (reply: Option<VolumeEffectOutcome>)
        ensures
            final(self).log() == old(self).log().push(
                NativeMountCall { op: NativeMountOp::ReleaseVpb, reply },
            ),
    ;

    fn acquire_session_reference(&mut self) -> (reply: Option<VolumeEffectOutcome>)
        ensures
            final(self).log() == old(self).log().push(
                NativeMountCall { op: NativeMountOp::AcquireSessionReference, reply },
            ),
    ;

    fn create_mounted_device(&mut self) -> (reply: Option<VolumeEffectOutcome>)
        ensures
            final(self).log() == old(self).log().push(
                NativeMountCall { op: NativeMountOp::CreateMountedDevice, reply },
            ),
    ;

    fn allocate_vcb(&mut self) -> (reply: Option<VolumeEffectOutcome>)
        ensures
            final(self).log() == old(self).log().push(
                NativeMountCall { op: NativeMountOp::AllocateVcb, reply },
            ),
    ;

    fn initialize_device_and_vcb(&mut self) -> (reply: Option<VolumeEffectOutcome>)
        ensures
            final(self).log() == old(self).log().push(
                NativeMountCall { op: NativeMountOp::InitializeDeviceAndVcb, reply },
            ),
    ;

    fn revalidate_target_identity_admission_and_binding(&mut self) -> (reply: Option<
        VolumeEffectOutcome,
    >)
        ensures
            final(self).log() == old(self).log().push(
                NativeMountCall {
                    op: NativeMountOp::RevalidateTargetIdentityAdmissionAndBinding,
                    reply,
                },
            ),
    ;

    fn bind_vpb(&mut self) -> (reply: Option<VolumeEffectOutcome>)
        ensures
            final(self).log() == old(self).log().push(
                NativeMountCall { op: NativeMountOp::BindVpb, reply },
            ),
    ;

    fn set_vpb_mounted(&mut self) -> (reply: Option<VolumeEffectOutcome>)
        ensures
            final(self).log() == old(self).log().push(
                NativeMountCall { op: NativeMountOp::SetVpbMounted, reply },
            ),
    ;

    fn publish_mount_owner(&mut self) -> (reply: Option<VolumeEffectOutcome>)
        ensures
            final(self).log() == old(self).log().push(
                NativeMountCall { op: NativeMountOp::PublishMountOwner, reply },
            ),
    ;

    /// Expose the mounted device. This is the first infallible operation: it
    /// has no refusal or outcome channel, and its log entry is a bare `Done`.
    fn clear_device_initializing(&mut self)
        ensures
            final(self).log() == old(self).log().push(
                NativeMountCall {
                    op: NativeMountOp::ClearDeviceInitializing,
                    reply: Some(VolumeEffectOutcome::Done),
                },
            ),
    ;

    fn emit_mount_published(&mut self) -> (reply: Option<VolumeEffectOutcome>)
        ensures
            final(self).log() == old(self).log().push(
                NativeMountCall { op: NativeMountOp::EmitMountPublished, reply },
            ),
    ;
}

/// Why the mount runner stopped.
#[derive(Debug)]
pub enum R3MountRunFailure {
    /// The named native operation refused before reporting an outcome.
    Native(VolumeFailurePlan),
    /// The native operation completed, but its observation made the
    /// transaction refuse with its exact unwind plan.
    Plan(VolumeFailurePlan),
    /// The executor reported an outcome outside the closed vocabulary.
    Invalid(AdapterPlanError),
}

/// How a run of the mount surface ends.
pub enum MountRunEnd {
    Mounted(SessionIdentity),
    Native(FailurePlanModel),
    Plan(FailurePlanModel),
    Invalid(AdapterPlanError),
}

/// The end that a run's result stands for.
pub open spec fn run_end(result: Result<PublishedMount, R3MountRunFailure>) -> MountRunEnd {
    match result {
        Ok(published) => MountRunEnd::Mounted(published@),
        Err(R3MountRunFailure::Native(plan)) => MountRunEnd::Native(plan@),
        Err(R3MountRunFailure::Plan(plan)) => MountRunEnd::Plan(plan@),
        Err(R3MountRunFailure::Invalid(error)) => MountRunEnd::Invalid(error),
    }
}

/// The operation that performs `effect` on the mount surface, if it has one.
pub open spec fn native_op(effect: VolumeEffect) -> Option<NativeMountOp> {
    match effect {
        VolumeEffect::Mount(MountEffect::AcquireVpb) => Some(NativeMountOp::AcquireVpb),
        VolumeEffect::Mount(MountEffect::ValidateTarget) => Some(NativeMountOp::ValidateTarget),
        VolumeEffect::Mount(MountEffect::ReleaseVpb) => Some(NativeMountOp::ReleaseVpb),
        VolumeEffect::Mount(MountEffect::AcquireSessionReference) => Some(
            NativeMountOp::AcquireSessionReference,
        ),
        VolumeEffect::Mount(MountEffect::CreateMountedDevice) => Some(
            NativeMountOp::CreateMountedDevice,
        ),
        VolumeEffect::Mount(MountEffect::AllocateVcb) => Some(NativeMountOp::AllocateVcb),
        VolumeEffect::Mount(MountEffect::InitializeDeviceAndVcb) => Some(
            NativeMountOp::InitializeDeviceAndVcb,
        ),
        VolumeEffect::Mount(MountEffect::RevalidateTargetIdentityAdmissionAndBinding) => Some(
            NativeMountOp::RevalidateTargetIdentityAdmissionAndBinding,
        ),
        VolumeEffect::Mount(MountEffect::BindVpb) => Some(NativeMountOp::BindVpb),
        VolumeEffect::Mount(MountEffect::SetVpbMounted) => Some(NativeMountOp::SetVpbMounted),
        VolumeEffect::PublishMountOwner => Some(NativeMountOp::PublishMountOwner),
        VolumeEffect::Mount(MountEffect::ClearDeviceInitializing) => Some(
            NativeMountOp::ClearDeviceInitializing,
        ),
        VolumeEffect::EmitMountPublished => Some(NativeMountOp::EmitMountPublished),
        VolumeEffect::Mount(MountEffect::PublishMountOwner)
        | VolumeEffect::ReadVerifyUnderVpbLock
        | VolumeEffect::EmitVerifySucceeded
        | VolumeEffect::Dismount(_) => None,
    }
}

/// The operation a run at `progress` calls next, if it calls one.
pub open spec fn next_op(progress: ProgressModel) -> Option<NativeMountOp> {
    match progress {
        ProgressModel::Effect(model) => match owed(model) {
            Some(effect) => native_op(effect),
            None => None,
        },
        _ => None,
    }
}

/// How a run ends at `progress` without another call.
pub open spec fn end_at(progress: ProgressModel) -> MountRunEnd {
    match progress {
        ProgressModel::Mounted(identity) => MountRunEnd::Mounted(identity),
        ProgressModel::Effect(model) => MountRunEnd::Native(after_failure(model)),
        ProgressModel::Verified(_) | ProgressModel::Dismounted => MountRunEnd::Invalid(
            AdapterPlanError::InvalidTransition,
        ),
    }
}

/// The end of the run from `progress` whose calls are exactly `calls`; `None` if
/// no run from there makes exactly those calls.
pub open spec fn mount_run(progress: ProgressModel, calls: Seq<NativeMountCall>) -> Option<
    MountRunEnd,
>
    decreases calls.len(),
{
    if next_op(progress) is None {
        if calls.len() == 0 {
            Some(end_at(progress))
        } else {
            None
        }
    } else if calls.len() == 0 || next_op(progress) != Some(calls[0].op) {
        None
    } else {
        let model = progress->Effect_0;
        match calls[0].reply {
            None => if calls.len() == 1 {
                Some(MountRunEnd::Native(after_failure(model)))
            } else {
                None
            },
            Some(outcome) => match after_success(model, outcome) {
                Ok(next) => mount_run(next, calls.drop_first()),
                Err(failure) => if calls.len() == 1 {
                    Some(
                        match failure {
                            EffectFailureModel::Plan(plan) => MountRunEnd::Plan(plan),
                            EffectFailureModel::Invalid(error) => MountRunEnd::Invalid(error),
                        },
                    )
                } else {
                    None
                },
            },
        }
    }
}

/// How many effects a run at `progress` may still ask for.
spec fn run_length(progress: ProgressModel) -> nat {
    match progress {
        ProgressModel::Effect(VolumeModel::Mount(mount)) => if mount.position < 14 {
            (16 - mount.position) as nat
        } else {
            2
        },
        ProgressModel::Effect(_) => 1,
        _ => 0,
    }
}

/// `done` is how a run from `start` came to `progress`.
spec fn run_reaches(
    start: ProgressModel,
    done: Seq<NativeMountCall>,
    progress: ProgressModel,
) -> bool {
    forall|rest: Seq<NativeMountCall>|
        #[trigger] mount_run(start, done + rest) == mount_run(progress, rest)
}

proof fn lemma_run_reaches_start(start: ProgressModel)
    ensures
        run_reaches(start, seq![], start),
{
    assert forall|rest: Seq<NativeMountCall>| #[trigger]
        mount_run(start, Seq::<NativeMountCall>::empty() + rest) == mount_run(start, rest) by {
        assert(Seq::<NativeMountCall>::empty() + rest =~= rest);
    }
}

proof fn lemma_run_reaches_next(
    start: ProgressModel,
    done: Seq<NativeMountCall>,
    model: VolumeModel,
    call: NativeMountCall,
    next: ProgressModel,
)
    requires
        run_reaches(start, done, ProgressModel::Effect(model)),
        next_op(ProgressModel::Effect(model)) == Some(call.op),
        call.reply is Some,
        after_success(model, call.reply->0) == Ok::<ProgressModel, EffectFailureModel>(next),
    ensures
        run_reaches(start, done.push(call), next),
{
    assert forall|rest: Seq<NativeMountCall>| #[trigger]
        mount_run(start, done.push(call) + rest) == mount_run(next, rest) by {
        let tail = seq![call] + rest;
        assert(done.push(call) + rest =~= done + tail);
        assert(tail.drop_first() =~= rest);
        assert(mount_run(start, done + tail) == mount_run(ProgressModel::Effect(model), tail));
    }
}

proof fn lemma_run_ends(
    start: ProgressModel,
    done: Seq<NativeMountCall>,
    progress: ProgressModel,
    rest: Seq<NativeMountCall>,
)
    requires
        run_reaches(start, done, progress),
    ensures
        mount_run(start, done + rest) == mount_run(progress, rest),
{
}

/// Drive a complete mount through named native operations.
///
/// The calls made are those of one run: from `progress` each call is the
/// operation of the owed effect, its reply decides the next, and the run's end
/// is the result.
pub fn run_r3_mount<N: R3VolumeNativeOps>(progress: VolumeProgress, native: &mut N) -> (result:
    Result<PublishedMount, R3MountRunFailure>)
    ensures
        old(native).log().is_prefix_of(final(native).log()),
        mount_run(progress@, final(native).log().skip(old(native).log().len() as int)) == Some(
            run_end(result),
        ),
{
    let ghost start = progress@;
    let ghost before = native.log();
    let ghost mut done: Seq<NativeMountCall> = seq![];
    let mut current = progress;
    proof {
        lemma_run_reaches_start(start);
        assert(before + done =~= before);
    }
    loop
        invariant
            start == progress@,
            before == old(native).log(),
            native.log() == before + done,
            run_reaches(start, done, current@),
        decreases run_length(current@),
    {
        let ghost at = current@;
        match current {
            VolumeProgress::Mounted(published) => {
                proof {
                    assert(native.log().skip(before.len() as int) =~= done + seq![]);
                    lemma_run_ends(start, done, at, seq![]);
                }
                return Ok(published);
            },
            VolumeProgress::Effect(pending) => {
                let ghost model = pending@;
                let ghost log = native.log();
                let outcome = match pending.effect() {
                    VolumeEffect::Mount(MountEffect::AcquireVpb) => native.acquire_vpb(),
                    VolumeEffect::Mount(MountEffect::ValidateTarget) => native.validate_target(),
                    VolumeEffect::Mount(MountEffect::ReleaseVpb) => native.release_vpb(),
                    VolumeEffect::Mount(MountEffect::AcquireSessionReference) => {
                        native.acquire_session_reference()
                    },
                    VolumeEffect::Mount(MountEffect::CreateMountedDevice) => {
                        native.create_mounted_device()
                    },
                    VolumeEffect::Mount(MountEffect::AllocateVcb) => native.allocate_vcb(),
                    VolumeEffect::Mount(MountEffect::InitializeDeviceAndVcb) => {
                        native.initialize_device_and_vcb()
                    },
                    VolumeEffect::Mount(
                        MountEffect::RevalidateTargetIdentityAdmissionAndBinding,
                    ) => native.revalidate_target_identity_admission_and_binding(),
                    VolumeEffect::Mount(MountEffect::BindVpb) => native.bind_vpb(),
                    VolumeEffect::Mount(MountEffect::SetVpbMounted) => native.set_vpb_mounted(),
                    VolumeEffect::PublishMountOwner => native.publish_mount_owner(),
                    VolumeEffect::Mount(MountEffect::ClearDeviceInitializing) => {
                        native.clear_device_initializing();
                        Some(VolumeEffectOutcome::Done)
                    },
                    VolumeEffect::EmitMountPublished => native.emit_mount_published(),
                    VolumeEffect::Mount(MountEffect::PublishMountOwner)
                    | VolumeEffect::ReadVerifyUnderVpbLock
                    | VolumeEffect::EmitVerifySucceeded
                    | VolumeEffect::Dismount(_) => None,
                };
                let ghost calls: Seq<NativeMountCall> = match next_op(at) {
                    Some(op) => seq![NativeMountCall { op, reply: outcome }],
                    None => seq![],
                };
                proof {
                    assert(native.log() =~= before + (done + calls));
                    assert(native.log().skip(before.len() as int) =~= done + calls);
                    lemma_run_ends(start, done, at, calls);
                }
                let outcome = match outcome {
                    Some(outcome) => outcome,
                    None => {
                        return Err(R3MountRunFailure::Native(pending.failed()));
                    },
                };
                match pending.succeeded(outcome) {
                    Ok(next) => {
                        proof {
                            lemma_run_reaches_next(start, done, model, calls[0], next@);
                            assert(done + calls =~= done.push(calls[0]));
                            done = done + calls;
                        }
                        current = next;
                    },
                    Err(VolumeEffectFailure::Plan(plan)) => {
                        return Err(R3MountRunFailure::Plan(plan));
                    },
                    Err(VolumeEffectFailure::Invalid(error)) => {
                        return Err(R3MountRunFailure::Invalid(error));
                    },
                }
            },
            VolumeProgress::Verified(_) | VolumeProgress::Dismounted => {
                proof {
                    assert(native.log().skip(before.len() as int) =~= done + seq![]);
                    lemma_run_ends(start, done, at, seq![]);
                }
                return Err(R3MountRunFailure::Invalid(AdapterPlanError::InvalidTransition));
            },
        }
    }
}

/// The operation a mount calls at `position`: the roster's, then its evidence.
pub open spec fn mount_op(position: int) -> Option<NativeMountOp> {
    if position < 14 {
        native_op(owed(VolumeModel::Mount(MountModel { identity: arbitrary(), position }))->0)
    } else if position == 14 {
        Some(NativeMountOp::EmitMountPublished)
    } else {
        None
    }
}

/// A mount is driven in order and nothing is replayed: whatever the replies, the
/// calls of a run are a prefix of the fourteen operations of the roster followed
/// by one evidence call. The run succeeds only if all fifteen were made, and an
/// unwind is that of the transaction that stopped at the last call.
pub proof fn law_mount_calls_in_order(identity: SessionIdentity, calls: Seq<NativeMountCall>)
    requires
        mount_run(
            ProgressModel::Effect(VolumeModel::Mount(MountModel { identity, position: 0 })),
            calls,
        ) is Some,
    ensures
        ({
            let end = mount_run(
                ProgressModel::Effect(VolumeModel::Mount(MountModel { identity, position: 0 })),
                calls,
            )->0;
            let stopped = MountModel { identity, position: calls.len() - 1 };
            &&& 1 <= calls.len() <= 15
            &&& forall|i: int| 0 <= i < calls.len() ==> mount_op(i) == Some(#[trigger] calls[i].op)
            &&& match end {
                MountRunEnd::Mounted(mounted) => mounted == identity && calls.len() == 15,
                MountRunEnd::Native(plan) => plan == after_failure(
                    if calls.len() <= 14 {
                        VolumeModel::Mount(stopped)
                    } else {
                        VolumeModel::EmitMount(identity)
                    },
                ),
                MountRunEnd::Plan(plan) => plan == FailurePlanModel::Mount(stopped),
                MountRunEnd::Invalid(error) => error == AdapterPlanError::InvalidInput,
            }
        }),
{
    lemma_mount_calls(identity, 0, calls);
}

proof fn lemma_mount_calls(identity: SessionIdentity, position: int, calls: Seq<NativeMountCall>)
    requires
        0 <= position <= 14,
        mount_run(ProgressModel::Effect(mount_at(identity, position)), calls) is Some,
    ensures
        ({
            let end = mount_run(ProgressModel::Effect(mount_at(identity, position)), calls)->0;
            let last = position + calls.len() - 1;
            &&& 1 <= calls.len() <= 15 - position
            &&& forall|i: int|
                0 <= i < calls.len() ==> mount_op(position + i) == Some(#[trigger] calls[i].op)
            &&& match end {
                MountRunEnd::Mounted(mounted) => mounted == identity && calls.len() == 15
                    - position,
                MountRunEnd::Native(plan) => plan == after_failure(mount_at(identity, last)),
                MountRunEnd::Plan(plan) => plan == FailurePlanModel::Mount(
                    MountModel { identity, position: last },
                ),
                MountRunEnd::Invalid(error) => error == AdapterPlanError::InvalidInput,
            }
        }),
    decreases 15 - position,
{
    reveal_with_fuel(mount_run, 2);
    let model = mount_at(identity, position);
    let at = ProgressModel::Effect(model);
    assert(next_op(at) == mount_op(position));
    assert(next_op(at) is Some);
    assert(calls[0].op == mount_op(position)->0);
    if calls[0].reply is Some {
        let outcome = calls[0].reply->0;
        if after_success(model, outcome) is Ok {
            if position < 14 {
                assert(after_success(model, outcome)->Ok_0 == ProgressModel::Effect(
                    mount_at(identity, position + 1),
                ));
                lemma_mount_calls(identity, position + 1, calls.drop_first());
                assert forall|i: int| 0 <= i < calls.len() implies mount_op(position + i) == Some(
                    #[trigger] calls[i].op,
                ) by {
                    if i > 0 {
                        assert(calls.drop_first()[i - 1] == calls[i]);
                    }
                }
            }
        }
    }
}

spec fn mount_at(identity: SessionIdentity, position: int) -> VolumeModel {
    if position < 14 {
        VolumeModel::Mount(MountModel { identity, position })
    } else {
        VolumeModel::EmitMount(identity)
    }
}

/// A dismount step is attempted exactly once: the continuation of a failed step
/// stands exactly where the plan stands after that step succeeded.
pub proof fn law_failed_dismount_step_is_skipped(identity: SessionIdentity, next: int)
    requires
        0 <= next < DismountPlan::EFFECTS@.len(),
    ensures
        ({
            let model = VolumeModel::Dismount { identity, next };
            &&& after_failure(model) == FailurePlanModel::ContinueDismount {
                identity,
                next: next + 1,
            }
            &&& after_success(model, VolumeEffectOutcome::Done) == Ok::<
                ProgressModel,
                EffectFailureModel,
            >(settled(VolumeModel::Dismount { identity, next: next + 1 }))
        }),
{
}

/// Once the mount's owner is published, nothing unwinds it: a failure at any
/// later point completes with success.
pub proof fn law_published_mount_never_unwinds(model: VolumeModel)
    requires
        model matches VolumeModel::Mount(mount) ==> mount.position == 13,
        model is Mount || model is EmitMount,
    ensures
        after_failure(model) == (FailurePlanModel::Complete {
            status: status::SUCCESS,
            information: 0,
        }),
{
}

/// A verify is decided by its locked read alone, and only a success is attested:
/// the evidence effect is owed exactly when the read decided `Success`, and the
/// verdict reported is the read's decision either way.
pub proof fn law_verify_attests_only_success(
    identity: SessionIdentity,
    observation: VerifyObservation,
)
    ensures
        ({
            let decision = crate::volume::verify_decision(
                observation.state,
                observation.identity_matches,
            );
            let emit = VolumeModel::Verify { identity, phase: VerifyPhase::Emit(decision) };
            let read = after_success(
                VolumeModel::Verify { identity, phase: VerifyPhase::Read },
                VolumeEffectOutcome::VerifyObserved(observation),
            );
            if decision == VerifyDecision::Success {
                &&& read == Ok::<ProgressModel, EffectFailureModel>(ProgressModel::Effect(emit))
                &&& owed(emit) == Some(VolumeEffect::EmitVerifySucceeded)
                &&& after_success(emit, VolumeEffectOutcome::Done) == Ok::<
                    ProgressModel,
                    EffectFailureModel,
                >(ProgressModel::Verified(decision))
            } else {
                read == Ok::<ProgressModel, EffectFailureModel>(ProgressModel::Verified(decision))
            }
        }),
{
}

/// The fifteen operations of a mount, in order: the target is validated under the
/// VPB lock, the volume is built without it, the binding is made under it again,
/// and the owner is published, the device opened and the evidence given last.
pub proof fn law_mount_operations_go_in_this_order(position: int)
    requires
        0 <= position,
    ensures
        mount_op(position) == Some(NativeMountOp::AcquireVpb) <==> position == 0 || position == 7,
        mount_op(position) == Some(NativeMountOp::ValidateTarget) <==> position == 1,
        mount_op(position) == Some(NativeMountOp::ReleaseVpb) <==> position == 2 || position == 11,
        mount_op(position) == Some(NativeMountOp::AcquireSessionReference) <==> position == 3,
        mount_op(position) == Some(NativeMountOp::CreateMountedDevice) <==> position == 4,
        mount_op(position) == Some(NativeMountOp::AllocateVcb) <==> position == 5,
        mount_op(position) == Some(NativeMountOp::InitializeDeviceAndVcb) <==> position == 6,
        mount_op(position) == Some(NativeMountOp::RevalidateTargetIdentityAdmissionAndBinding)
            <==> position == 8,
        mount_op(position) == Some(NativeMountOp::BindVpb) <==> position == 9,
        mount_op(position) == Some(NativeMountOp::SetVpbMounted) <==> position == 10,
        mount_op(position) == Some(NativeMountOp::PublishMountOwner) <==> position == 12,
        mount_op(position) == Some(NativeMountOp::ClearDeviceInitializing) <==> position == 13,
        mount_op(position) == Some(NativeMountOp::EmitMountPublished) <==> position == 14,
        mount_op(position) is None <==> position > 14,
{
    if position < 14 {
        crate::volume::law_mount_goes_in_this_order(position);
    }
}

/// Two effects never call one operation, and only what a mount owes calls any: a
/// run that is driven for a mount does not read a verify or take a step of a
/// dismount.
pub proof fn law_operations_are_of_one_effect(first: VolumeEffect, second: VolumeEffect)
    ensures
        native_op(first) is Some && native_op(first) == native_op(second) ==> first == second,
        first is Dismount || first is ReadVerifyUnderVpbLock || first is EmitVerifySucceeded
            ==> native_op(first) is None,
        first matches VolumeEffect::Mount(effect) ==> (native_op(first) is None <==> effect
            == MountEffect::PublishMountOwner),
        native_op(VolumeEffect::PublishMountOwner) is Some,
        native_op(VolumeEffect::EmitMountPublished) is Some,
{
}

/// A mount that succeeds at an effect owes the next, for the same session, until
/// the last is done; then it owes its evidence, and after that it is mounted.
pub proof fn law_mount_goes_forward_by_one(
    identity: SessionIdentity,
    position: int,
    outcome: VolumeEffectOutcome,
)
    requires
        0 <= position < 14,
    ensures
        ({
            let reached = after_success(
                VolumeModel::Mount(MountModel { identity, position }),
                outcome,
            );
            let evidence = after_success(VolumeModel::EmitMount(identity), outcome);
            &&& reached matches Ok(progress) ==> progress == if position == 13 {
                ProgressModel::Effect(VolumeModel::EmitMount(identity))
            } else {
                ProgressModel::Effect(
                    VolumeModel::Mount(MountModel { identity, position: position + 1 }),
                )
            }
            &&& evidence is Ok <==> outcome == VolumeEffectOutcome::Done
            &&& evidence matches Ok(progress) ==> progress == ProgressModel::Mounted(identity)
        }),
{
}

/// A mount goes on at its revalidation exactly with all four facts true, and at
/// every other effect exactly with a bare report. A report of the other kind
/// before the owner is published unwinds the mount where it stands; an observation
/// of a verify answers no effect of a mount, and once the owner is to be published
/// only the bare report is an answer at all.
pub proof fn law_mount_goes_on_exactly(
    identity: SessionIdentity,
    position: int,
    outcome: VolumeEffectOutcome,
)
    requires
        0 <= position < 14,
    ensures
        ({
            let mount = MountModel { identity, position };
            let reached = after_success(VolumeModel::Mount(mount), outcome);
            &&& reached is Ok <==> if position == 8 {
                outcome matches VolumeEffectOutcome::MountRevalidated(facts)
                    && facts.target_identity_matches && facts.admission_open
                    && facts.binding_unchanged && facts.session_active
            } else {
                outcome == VolumeEffectOutcome::Done
            }
            &&& reached == Err::<ProgressModel, _>(
                EffectFailureModel::Invalid(AdapterPlanError::InvalidInput),
            ) <==> outcome is VerifyObserved || (position >= 12 && outcome is MountRevalidated)
            &&& reached matches Err(EffectFailureModel::Plan(plan)) ==> plan
                == FailurePlanModel::Mount(mount)
        }),
{
    crate::volume::law_mount_goes_in_this_order(position);
}

/// What a failed effect leads to, by value: a mount whose owner is not published
/// unwinds where it stands; one whose owner is published, and evidence that was not
/// given, complete with status zero; a verify that could not read completes with
/// `0xC000_0184`; a dismount goes on with the next step. No completion carries
/// information.
pub proof fn law_failure_leads_to(model: VolumeModel)
    ensures
        match model {
            VolumeModel::Mount(mount) => after_failure(model) == if mount.position < 13 {
                FailurePlanModel::Mount(mount)
            } else {
                FailurePlanModel::Complete { status: 0, information: 0 }
            },
            VolumeModel::EmitMount(_) => after_failure(model) == (FailurePlanModel::Complete {
                status: 0,
                information: 0,
            }),
            VolumeModel::Verify { identity: _, phase } => after_failure(model) matches
                FailurePlanModel::Complete { status, information } && information == 0 && (if phase
                == VerifyPhase::Read {
                status == 0xC000_0184 - 0x1_0000_0000
            } else {
                status == 0
            }),
            VolumeModel::Dismount { identity, next } => after_failure(model) == (
            FailurePlanModel::ContinueDismount { identity, next: next + 1 }),
        },
{
}

/// What each state owes. A dismount owes its steps in their order and then
/// nothing; a verify owes its read, and evidence only of a success.
pub proof fn law_what_is_owed(model: VolumeModel)
    requires
        model matches VolumeModel::Mount(mount) ==> 0 <= mount.position < 14,
    ensures
        match model {
            VolumeModel::Mount(mount) => owed(model) matches Some(effect) && (effect
                == VolumeEffect::PublishMountOwner <==> mount.position == 12) && (effect
                is Mount <==> mount.position != 12) && (effect is Mount ==> effect->Mount_0
                == crate::volume::mount_effect(mount.position)),
            VolumeModel::EmitMount(_) => owed(model) == Some(VolumeEffect::EmitMountPublished),
            VolumeModel::Verify { identity: _, phase } => (owed(model) == Some(
                VolumeEffect::ReadVerifyUnderVpbLock,
            ) <==> phase == VerifyPhase::Read) && (owed(model) == Some(
                VolumeEffect::EmitVerifySucceeded,
            ) <==> phase == VerifyPhase::Emit(VerifyDecision::Success)),
            VolumeModel::Dismount { identity: _, next } => (owed(model) is Some <==> 0 <= next < 7)
                && (owed(model) matches Some(effect) ==> effect == VolumeEffect::Dismount(
                DismountPlan::EFFECTS@[next],
            )),
        },
{
    if let VolumeModel::Mount(mount) = model {
        crate::volume::law_mount_goes_in_this_order(mount.position);
    }
}

/// Where something is owed it is what comes next; where nothing is, a dismount is
/// done and a verify reports the decision it came to.
pub proof fn law_nothing_owed_is_the_end(model: VolumeModel)
    ensures
        owed(model) is Some ==> settled(model) == ProgressModel::Effect(model),
        model matches VolumeModel::Dismount { identity: _, next } ==> (settled(model)
            == ProgressModel::Dismounted <==> !(0 <= next < 7)),
        model matches VolumeModel::Verify {
            identity: _,
            phase: VerifyPhase::Emit(decision),
        } ==> (settled(model) == ProgressModel::Verified(decision) <==> decision
            != VerifyDecision::Success),
        !(settled(model) is Mounted),
{
}

/// A dismount and the evidence of a verify are answered by a bare report alone, and
/// the read of a verify by an observation alone.
pub proof fn law_each_effect_has_its_answer(model: VolumeModel, outcome: VolumeEffectOutcome)
    requires
        !(model is Mount),
    ensures
        after_success(model, outcome) is Ok <==> (if model matches VolumeModel::Verify {
            identity: _,
            phase: VerifyPhase::Read,
        } {
            outcome is VerifyObserved
        } else {
            outcome == VolumeEffectOutcome::Done
        }),
        after_success(model, outcome) matches Err(failure) ==> failure
            == EffectFailureModel::Invalid(AdapterPlanError::InvalidInput),
{
}

/// A run ends as mounted only where it is mounted: a run handed a verify or a
/// dismount is refused without a call, and says so.
pub proof fn law_only_a_mount_is_run(model: VolumeModel, decision: VerifyDecision)
    ensures
        mount_run(ProgressModel::Verified(decision), seq![]) == Some(
            MountRunEnd::Invalid(AdapterPlanError::InvalidTransition),
        ),
        mount_run(ProgressModel::Dismounted, seq![]) == Some(
            MountRunEnd::Invalid(AdapterPlanError::InvalidTransition),
        ),
        model is Verify || model is Dismount ==> mount_run(ProgressModel::Effect(model), seq![])
            == Some(MountRunEnd::Native(after_failure(model))),
        model is EmitMount ==> mount_run(ProgressModel::Effect(model), seq![]) is None,
        end_at(ProgressModel::Effect(model)) is Native,
        forall|identity: SessionIdentity|
            #![trigger end_at(ProgressModel::Mounted(identity))]
            end_at(ProgressModel::Mounted(identity)) == MountRunEnd::Mounted(identity),
{
    reveal_with_fuel(mount_run, 2);
}

/// A volume's effect that succeeds takes it on by one, for its own session. A mount
/// goes on exactly with what its effect calls for, a verify's read with what it
/// observed, everything else with a bare report.
pub proof fn law_volume_goes_on_exactly(
    pending: PendingVolumeEffect,
    outcome: VolumeEffectOutcome,
    result: Result<VolumeProgress, VolumeEffectFailure>,
)
    requires
        call_ensures(PendingVolumeEffect::succeeded, (pending, outcome), result),
        pending@ matches VolumeModel::Mount(mount) ==> 0 <= mount.position < 14,
    ensures
        ({
            let facts_hold = outcome matches VolumeEffectOutcome::MountRevalidated(facts)
                && facts.target_identity_matches && facts.admission_open && facts.binding_unchanged
                && facts.session_active;
            match pending@ {
                VolumeModel::Mount(mount) => {
                    &&& result is Ok <==> if mount.position == 8 {
                        facts_hold
                    } else {
                        outcome == VolumeEffectOutcome::Done
                    }
                    &&& result matches Ok(progress) ==> progress@ == ProgressModel::Effect(
                        if mount.position == 13 {
                            VolumeModel::EmitMount(mount.identity)
                        } else {
                            VolumeModel::Mount(
                                MountModel {
                                    identity: mount.identity,
                                    position: mount.position + 1,
                                },
                            )
                        },
                    )
                    &&& result matches Err(VolumeEffectFailure::Plan(plan)) ==> plan@
                        == FailurePlanModel::Mount(mount)
                },
                VolumeModel::EmitMount(identity) => {
                    &&& result is Ok <==> outcome == VolumeEffectOutcome::Done
                    &&& result matches Ok(progress) ==> progress@ == ProgressModel::Mounted(
                        identity,
                    )
                },
                VolumeModel::Verify { identity, phase: VerifyPhase::Read } => {
                    &&& result is Ok <==> outcome is VerifyObserved
                    &&& result matches Ok(progress) ==> {
                        let seen = outcome->VerifyObserved_0;
                        if seen.state == VolumeState::Mounted && seen.identity_matches {
                            progress@ == ProgressModel::Effect(
                                VolumeModel::Verify {
                                    identity,
                                    phase: VerifyPhase::Emit(VerifyDecision::Success),
                                },
                            )
                        } else {
                            progress@ == ProgressModel::Verified(
                                if seen.state == VolumeState::Teardown || seen.state
                                    == VolumeState::Destroyed {
                                    VerifyDecision::VolumeDismounted
                                } else {
                                    VerifyDecision::InvalidTarget
                                },
                            )
                        }
                    }
                },
                VolumeModel::Verify { identity: _, phase: VerifyPhase::Emit(decision) } => {
                    &&& result is Ok <==> outcome == VolumeEffectOutcome::Done
                    &&& result matches Ok(progress) ==> progress@ == ProgressModel::Verified(
                        decision,
                    )
                },
                VolumeModel::Dismount { identity, next } => {
                    &&& result is Ok <==> outcome == VolumeEffectOutcome::Done
                    &&& 0 <= next < 7 && result is Ok ==> result->Ok_0@ == if next == 6 {
                        ProgressModel::Dismounted
                    } else {
                        ProgressModel::Effect(VolumeModel::Dismount { identity, next: next + 1 })
                    }
                },
            }
        }),
{
    match pending@ {
        VolumeModel::Mount(mount) => {
            law_mount_goes_on_exactly(mount.identity, mount.position, outcome);
            law_mount_goes_forward_by_one(mount.identity, mount.position, outcome);
        },
        VolumeModel::Verify { identity, phase: VerifyPhase::Read } => {
            if let VolumeEffectOutcome::VerifyObserved(seen) = outcome {
                crate::volume::law_verify_tells_three_cases_apart(
                    seen.state,
                    seen.identity_matches,
                );
                law_verify_attests_only_success(identity, seen);
            }
        },
        VolumeModel::Dismount { identity, next } => {
            law_nothing_owed_is_the_end(VolumeModel::Dismount { identity, next: next + 1 });
        },
        _ => {},
    }
}

/// A volume's effect that fails leads to one plan: a mount unwinds until its owner is
/// published and completes from then on, evidence that was not given completes, a
/// verify that could not read completes as no valid state, and a dismount goes on
/// with its next step.
pub proof fn law_failed_volume_effect_leads_to(
    pending: PendingVolumeEffect,
    plan: VolumeFailurePlan,
)
    requires
        call_ensures(PendingVolumeEffect::failed, (pending,), plan),
    ensures
        match pending@ {
            VolumeModel::Mount(mount) => plan@ == if mount.position < 13 {
                FailurePlanModel::Mount(mount)
            } else {
                FailurePlanModel::Complete { status: 0, information: 0 }
            },
            VolumeModel::EmitMount(_) => plan@ == (FailurePlanModel::Complete {
                status: 0,
                information: 0,
            }),
            VolumeModel::Verify { identity: _, phase } => plan@ matches FailurePlanModel::Complete {
                status,
                information,
            } && information == 0 && (if phase == VerifyPhase::Read {
                status == 0xC000_0184 - 0x1_0000_0000
            } else {
                status == 0
            }),
            VolumeModel::Dismount { identity, next } => plan@ == (
            FailurePlanModel::ContinueDismount { identity, next: next + 1 }),
        },
{
    law_failure_leads_to(pending@);
}

/// What an executor is told to do next is what the volume owes: a mount's fourteen
/// effects in their order, its evidence, a verify's read and evidence, a dismount's
/// seven steps.
pub proof fn law_next_effect_is_what_is_owed(pending: PendingVolumeEffect, effect: VolumeEffect)
    requires
        call_ensures(PendingVolumeEffect::effect, (&pending,), effect),
        pending@ matches VolumeModel::Mount(mount) ==> 0 <= mount.position < 14,
    ensures
        match pending@ {
            VolumeModel::Mount(mount) => if mount.position == 12 {
                effect == VolumeEffect::PublishMountOwner
            } else {
                effect == VolumeEffect::Mount(crate::volume::mount_effect(mount.position))
            },
            VolumeModel::EmitMount(_) => effect == VolumeEffect::EmitMountPublished,
            VolumeModel::Verify { identity: _, phase } => if phase == VerifyPhase::Read {
                effect == VolumeEffect::ReadVerifyUnderVpbLock
            } else {
                effect == VolumeEffect::EmitVerifySucceeded && phase == VerifyPhase::Emit(
                    VerifyDecision::Success,
                )
            },
            VolumeModel::Dismount { identity: _, next } => 0 <= next < 7 && effect
                == VolumeEffect::Dismount(DismountPlan::EFFECTS@[next]),
        },
{
    law_what_is_owed(pending@);
}

/// A verify begins with its read, a dismount with its first step, and a dismount
/// that goes on takes up where it stopped, or is done.
pub proof fn law_volume_plans_begin_at_the_start(
    identity: SessionIdentity,
    verify: VolumeProgress,
    plan: DismountPlan,
    dismount: VolumeProgress,
    continuation: DismountContinuation,
    resumed: VolumeProgress,
)
    requires
        call_ensures(NativeVolumePlan::verify, (identity,), verify),
        call_ensures(NativeVolumePlan::dismount, (plan,), dismount),
        call_ensures(NativeVolumePlan::resume_dismount, (continuation,), resumed),
        0 <= continuation.next_step() <= 7,
    ensures
        verify@ == ProgressModel::Effect(
            VolumeModel::Verify { identity, phase: VerifyPhase::Read },
        ),
        dismount@ == ProgressModel::Effect(VolumeModel::Dismount { identity: plan@, next: 0 }),
        resumed@ == if continuation.next_step() == 7 {
            ProgressModel::Dismounted
        } else {
            ProgressModel::Effect(
                VolumeModel::Dismount {
                    identity: continuation.plan_identity(),
                    next: continuation.next_step(),
                },
            )
        },
{
    law_nothing_owed_is_the_end(
        VolumeModel::Dismount {
            identity: continuation.plan_identity(),
            next: continuation.next_step(),
        },
    );
}

/// A mount that begins owes the effect where its transaction stands, and one that is
/// published owes its evidence. A plan's next step is what it owes, or its end.
pub proof fn law_volume_takes_up_the_mount(
    progress: MountProgress,
    result: VolumeProgress,
    plan: NativeVolumePlan,
    next: VolumeProgress,
    mounted: PublishedMount,
    dismount: DismountPlan,
)
    requires
        call_ensures(NativeVolumePlan::mount, (progress,), result),
        call_ensures(NativeVolumePlan::next, (plan,), next),
        call_ensures(dismount_plan, (mounted,), dismount),
    ensures
        progress matches MountProgress::Effect(pending) ==> result@ == ProgressModel::Effect(
            VolumeModel::Mount(pending@),
        ),
        progress matches MountProgress::Published(published) ==> result@ == ProgressModel::Effect(
            VolumeModel::EmitMount(published@),
        ),
        owed(plan@) is Some ==> next@ == ProgressModel::Effect(plan@),
        plan@ matches VolumeModel::Dismount { identity: _, next: at } ==> (next@
            == ProgressModel::Dismounted <==> !(0 <= at < 7)),
        plan@ matches VolumeModel::Verify { identity: _, phase: VerifyPhase::Emit(decision) }
            ==> decision != VerifyDecision::Success ==> next@ == ProgressModel::Verified(decision),
        dismount@ == mounted@,
{
    law_nothing_owed_is_the_end(plan@);
}

/// A mount that is run from its start makes its operations in their order and no
/// others, at most fifteen. It is mounted, for its own session, only if all fifteen
/// were made; and only a call that was refused, answered by the wrong facts or
/// answered by what is no answer stops it.
pub proof fn law_run_makes_the_mounts_operations<N: R3VolumeNativeOps>(
    identity: SessionIdentity,
    progress: VolumeProgress,
    native: &mut N,
    result: Result<PublishedMount, R3MountRunFailure>,
)
    requires
        call_ensures(run_r3_mount::<N>, (progress, native), result),
        progress@ == ProgressModel::Effect(VolumeModel::Mount(MountModel { identity, position: 0 })),
    ensures
        ({
            let made = final(native).log().skip(old(native).log().len() as int);
            &&& old(native).log().is_prefix_of(final(native).log())
            &&& 1 <= made.len() <= 15
            &&& forall|i: int| 0 <= i < made.len() ==> mount_op(i) == Some(#[trigger] made[i].op)
            &&& result matches Ok(published) ==> published@ == identity && made.len() == 15
            &&& result matches Err(R3MountRunFailure::Plan(plan)) ==> plan@
                == FailurePlanModel::Mount(MountModel { identity, position: made.len() - 1 })
            &&& result matches Err(R3MountRunFailure::Invalid(error)) ==> error
                == AdapterPlanError::InvalidInput
            &&& result matches Err(R3MountRunFailure::Native(plan)) ==> plan@ == if made.len()
                <= 13 {
                FailurePlanModel::Mount(MountModel { identity, position: made.len() - 1 })
            } else {
                FailurePlanModel::Complete { status: 0, information: 0 }
            }
        }),
{
    let made = final(native).log().skip(old(native).log().len() as int);
    law_mount_calls_in_order(identity, made);
}

} // verus!
