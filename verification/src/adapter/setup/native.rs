//! The native setup of a session: its effects in order, and what is undone when
//! one of them fails.

use vstd::prelude::*;

use crate::abi::features::PlatformProfile;
use crate::abi::identity::BootInstanceId;
use crate::abi::identity::MountId;
use crate::abi::identity::SessionIdentity;
use crate::adapter::setup::layout::SectionLayoutPlan;
use crate::adapter::AdapterPlanError;

verus! {

/// One effect of a setup.
#[derive(Clone, Copy, Debug, PartialEq, Eq, Structural)]
pub enum SetupEffect {
    /// Hold the control rundown for the whole setup.
    AcquireControlRundown,
    /// Copy the request out of the caller's buffer.
    SnapshotRequest,
    /// Check the copied request.
    ValidateRequest,
    /// Lay the section out.
    PlanLayout,
    /// Take the boot context's lock.
    AcquireBootLockEvent,
    /// Burn a mount identity.
    BurnMountId,
    /// Give the boot context's lock back.
    ReleaseBootLockEvent,
    /// Name the session.
    ComposeIdentity,
    /// Create the section and map it for the driver.
    AllocateSectionAndSystemView,
    /// Write the section's header and directory.
    InitializeSection,
    /// Allocate the grant tables.
    AllocateGrants,
    /// Allocate the events and scratch buffers.
    AllocateEventsAndScratch,
    /// Create the volume device.
    CreateVdo,
    /// Reference the provider's process.
    CaptureProcess,
    /// Map the provider's views.
    BuildProtectedViews,
    /// Compose the output.
    BuildOutput,
    /// Check the composed output.
    ValidateOutput,
    /// Install the staging session and its references.
    InstallStaging,
    /// Copy the output to the provider.
    CopyValidatedOutput,
    /// Publish the session under the registry lock.
    PublishLockedSuffix,
    /// Report the published session.
    EmitSessionPublished,
    /// Give the setup admission back.
    ReleaseSetupAdmission,
    /// Let a waiting cleanup go on.
    SignalSetupComplete,
    /// Hand the provider its result.
    ReturnProviderDisposition,
    /// Give the control rundown back.
    OuterReleaseControlRundown,
}

/// The plan of a setup.
pub struct NativeSetupPlan;

/// Where an effect stands among the effects of a setup.
pub open spec fn place(effect: SetupEffect) -> int {
    match effect {
        SetupEffect::AcquireControlRundown => 0,
        SetupEffect::SnapshotRequest => 1,
        SetupEffect::ValidateRequest => 2,
        SetupEffect::PlanLayout => 3,
        SetupEffect::AcquireBootLockEvent => 4,
        SetupEffect::BurnMountId => 5,
        SetupEffect::ReleaseBootLockEvent => 6,
        SetupEffect::ComposeIdentity => 7,
        SetupEffect::AllocateSectionAndSystemView => 8,
        SetupEffect::InitializeSection => 9,
        SetupEffect::AllocateGrants => 10,
        SetupEffect::AllocateEventsAndScratch => 11,
        SetupEffect::CreateVdo => 12,
        SetupEffect::CaptureProcess => 13,
        SetupEffect::BuildProtectedViews => 14,
        SetupEffect::BuildOutput => 15,
        SetupEffect::ValidateOutput => 16,
        SetupEffect::InstallStaging => 17,
        SetupEffect::CopyValidatedOutput => 18,
        SetupEffect::PublishLockedSuffix => 19,
        SetupEffect::EmitSessionPublished => 20,
        SetupEffect::ReleaseSetupAdmission => 21,
        SetupEffect::SignalSetupComplete => 22,
        SetupEffect::ReturnProviderDisposition => 23,
        SetupEffect::OuterReleaseControlRundown => 24,
    }
}

/// One step of undoing a setup.
#[derive(Clone, Copy, Debug, PartialEq, Eq, Structural)]
pub enum SetupRollbackEffect {
    /// Release the references of the staging session.
    ReleaseStrongReferences,
    /// Unmap the provider's views.
    RollbackProtectedViews,
    /// Release the provider's process.
    ReleaseCapturedProcess,
    /// Delete the volume device.
    DeleteVdo,
    /// Free the events and scratch buffers.
    FreeEventsAndScratch,
    /// Free the grant tables.
    FreeGrants,
    /// Unmap and close the section.
    UnmapAndCloseSection,
    /// Leave the burned identity burned.
    PreserveBurnedMountId,
    /// Give the boot context's lock back.
    ReleaseBootLockEvent,
    /// Give the control rundown back.
    ReleaseControlRundown,
}

/// Every step of undoing a setup, in the order in which they run.
pub const ROLLBACK_ORDER: [SetupRollbackEffect; 10] = [
    SetupRollbackEffect::ReleaseStrongReferences,
    SetupRollbackEffect::RollbackProtectedViews,
    SetupRollbackEffect::ReleaseCapturedProcess,
    SetupRollbackEffect::DeleteVdo,
    SetupRollbackEffect::FreeEventsAndScratch,
    SetupRollbackEffect::FreeGrants,
    SetupRollbackEffect::UnmapAndCloseSection,
    SetupRollbackEffect::PreserveBurnedMountId,
    SetupRollbackEffect::ReleaseBootLockEvent,
    SetupRollbackEffect::ReleaseControlRundown,
];

/// The effect that a step undoes.
pub open spec fn undone_by(undo: SetupRollbackEffect) -> SetupEffect {
    match undo {
        SetupRollbackEffect::ReleaseStrongReferences => SetupEffect::InstallStaging,
        SetupRollbackEffect::RollbackProtectedViews => SetupEffect::BuildProtectedViews,
        SetupRollbackEffect::ReleaseCapturedProcess => SetupEffect::CaptureProcess,
        SetupRollbackEffect::DeleteVdo => SetupEffect::CreateVdo,
        SetupRollbackEffect::FreeEventsAndScratch => SetupEffect::AllocateEventsAndScratch,
        SetupRollbackEffect::FreeGrants => SetupEffect::AllocateGrants,
        SetupRollbackEffect::UnmapAndCloseSection => SetupEffect::AllocateSectionAndSystemView,
        SetupRollbackEffect::PreserveBurnedMountId => SetupEffect::BurnMountId,
        SetupRollbackEffect::ReleaseBootLockEvent => SetupEffect::AcquireBootLockEvent,
        SetupRollbackEffect::ReleaseControlRundown => SetupEffect::AcquireControlRundown,
    }
}

/// Where the effect that a step undoes stands among the effects of a setup.
fn undone_place(undo: SetupRollbackEffect) -> (at: usize)
    ensures
        at == place(undone_by(undo)),
{
    match undo {
        SetupRollbackEffect::ReleaseStrongReferences => 17,
        SetupRollbackEffect::RollbackProtectedViews => 14,
        SetupRollbackEffect::ReleaseCapturedProcess => 13,
        SetupRollbackEffect::DeleteVdo => 12,
        SetupRollbackEffect::FreeEventsAndScratch => 11,
        SetupRollbackEffect::FreeGrants => 10,
        SetupRollbackEffect::UnmapAndCloseSection => 8,
        SetupRollbackEffect::PreserveBurnedMountId => 5,
        SetupRollbackEffect::ReleaseBootLockEvent => 4,
        SetupRollbackEffect::ReleaseControlRundown => 0,
    }
}

/// Who holds the provider's process when a setup is undone.
#[derive(Clone, Copy, Debug, PartialEq, Eq, Structural)]
pub enum CapturedProcessDisposition {
    /// The setup does.
    RetainedBySetup,
    /// Undoing the protected views released it.
    ReleasedByProtectedViews,
}

/// After `done` effects of a setup a step is owed when the effect it undoes is
/// done, and what that effect took has not been given back since.
pub open spec fn owed(
    undo: SetupRollbackEffect,
    done: int,
    process: CapturedProcessDisposition,
) -> bool {
    &&& place(undone_by(undo)) < done
    &&& undo == SetupRollbackEffect::ReleaseBootLockEvent ==> done <= place(
        SetupEffect::ReleaseBootLockEvent,
    )
    &&& undo == SetupRollbackEffect::ReleaseCapturedProcess ==> process
        == CapturedProcessDisposition::RetainedBySetup
}

/// What undoes the first `done` effects of a setup.
pub open spec fn rollback_of(done: int, process: CapturedProcessDisposition) -> Seq<
    SetupRollbackEffect,
> {
    ROLLBACK_ORDER@.filter(|undo: SetupRollbackEffect| owed(undo, done, process))
}

/// The steps that undo the first `done` effects of a setup.
pub fn setup_rollback(done: usize, process: CapturedProcessDisposition) -> (rollback: SetupRollback)
    ensures
        rollback@ == rollback_of(done as int, process),
{
    let mut effects: Vec<SetupRollbackEffect> = Vec::new();
    let ghost wanted = |undo: SetupRollbackEffect| owed(undo, done as int, process);
    let mut i: usize = 0;
    proof {
        reveal(Seq::filter);
    }
    assert(ROLLBACK_ORDER@.take(0) =~= seq![]);
    while i < 10
        invariant
            i <= 10,
            ROLLBACK_ORDER@.len() == 10,
            wanted == (|undo: SetupRollbackEffect| owed(undo, done as int, process)),
            effects@ == ROLLBACK_ORDER@.take(i as int).filter(wanted),
        decreases 10 - i,
    {
        let undo = ROLLBACK_ORDER[i];
        proof {
            reveal(Seq::filter);
            assert(ROLLBACK_ORDER@.take(i + 1).drop_last() =~= ROLLBACK_ORDER@.take(i as int));
            assert(ROLLBACK_ORDER@.take(i + 1).last() == undo);
        }
        let given_back = match undo {
            SetupRollbackEffect::ReleaseBootLockEvent => done > 6,
            SetupRollbackEffect::ReleaseCapturedProcess => {
                process == CapturedProcessDisposition::ReleasedByProtectedViews
            },
            _ => false,
        };
        if undone_place(undo) < done && !given_back {
            effects.push(undo);
        }
        i += 1;
    }
    assert(ROLLBACK_ORDER@.take(10) =~= ROLLBACK_ORDER@);
    SetupRollback { effects }
}

/// The steps that undo a setup.
#[derive(Debug)]
pub struct SetupRollback {
    effects: Vec<SetupRollbackEffect>,
}

impl View for SetupRollback {
    type V = Seq<SetupRollbackEffect>;

    closed spec fn view(&self) -> Seq<SetupRollbackEffect> {
        self.effects@
    }
}

impl SetupRollback {
    /// The steps, first to last.
    pub fn effects(&self) -> (effects: &[SetupRollbackEffect])
        ensures
            effects@ == self@,
    {
        self.effects.as_slice()
    }
}

impl NativeSetupPlan {
    /// The effects of a setup that succeeds, in their order.
    pub const SUCCESS_EFFECTS: [SetupEffect; 25] = [
        SetupEffect::AcquireControlRundown,
        SetupEffect::SnapshotRequest,
        SetupEffect::ValidateRequest,
        SetupEffect::PlanLayout,
        SetupEffect::AcquireBootLockEvent,
        SetupEffect::BurnMountId,
        SetupEffect::ReleaseBootLockEvent,
        SetupEffect::ComposeIdentity,
        SetupEffect::AllocateSectionAndSystemView,
        SetupEffect::InitializeSection,
        SetupEffect::AllocateGrants,
        SetupEffect::AllocateEventsAndScratch,
        SetupEffect::CreateVdo,
        SetupEffect::CaptureProcess,
        SetupEffect::BuildProtectedViews,
        SetupEffect::BuildOutput,
        SetupEffect::ValidateOutput,
        SetupEffect::InstallStaging,
        SetupEffect::CopyValidatedOutput,
        SetupEffect::PublishLockedSuffix,
        SetupEffect::EmitSessionPublished,
        SetupEffect::ReleaseSetupAdmission,
        SetupEffect::SignalSetupComplete,
        SetupEffect::ReturnProviderDisposition,
        SetupEffect::OuterReleaseControlRundown,
    ];
}

/// What a setup is planned from.
#[derive(Clone, Debug, PartialEq, Eq)]
pub struct SetupPlanInput {
    /// The boot the session belongs to.
    pub boot_instance_id: BootInstanceId,
    /// The section that was laid out.
    pub layout: SectionLayoutPlan,
    /// The section the request implies.
    pub implied_layout: SectionLayoutPlan,
    /// The bytes the output needs.
    pub required_size: usize,
    /// The bytes the provider has for the output.
    pub output_capacity: usize,
    /// The platform, which fixes how the views are mapped.
    pub profile: PlatformProfile,
}

/// The protected views are mapped.
#[derive(Clone, Debug, PartialEq, Eq)]
pub struct ProtectedViewReceipt {
    /// The session they were mapped for.
    pub identity: SessionIdentity,
    /// The section they show.
    pub layout: SectionLayoutPlan,
}

/// The protected views were undone after a failure.
#[derive(Clone, Debug, PartialEq, Eq)]
pub struct ProtectedViewRollbackReceipt {
    /// The session they were for.
    pub identity: SessionIdentity,
    /// The section they would have shown.
    pub layout: SectionLayoutPlan,
    /// Who holds the provider's process now.
    pub disposition: CapturedProcessDisposition,
}

/// What an effect brought.
#[derive(Clone, Debug, PartialEq, Eq)]
pub enum SetupEffectOutcome {
    /// Nothing but that it is done.
    Done,
    /// The burned mount identity.
    MountIdBurned(MountId),
    /// The receipt for the protected views.
    ProtectedViewsBuilt(ProtectedViewReceipt),
}

/// A setup that is published.
#[derive(Clone, Copy, Debug, PartialEq, Eq, Structural)]
pub struct SetupCommit {
    identity: SessionIdentity,
}

impl View for SetupCommit {
    type V = SessionIdentity;

    closed spec fn view(&self) -> SessionIdentity {
        self.identity
    }
}

impl SetupCommit {
    /// The published session.
    pub fn identity(&self) -> (identity: SessionIdentity)
        ensures
            identity == self@,
    {
        self.identity
    }
}

/// Where a setup stands.
#[derive(Debug)]
pub enum SetupProgress {
    /// An effect is owed.
    Effect(PendingSetupEffect),
    /// Every effect is done.
    Published(SetupCommit),
}

/// What a failed effect leads to.
#[derive(Debug)]
pub enum SetupFailurePlan {
    /// Nothing was published: undo what was done.
    Rollback(SetupRollback),
    /// The session is published and stays so.
    CompletePublished(SetupCommit),
}

/// A setup under way: what it is planned from, how many effects are done, and
/// which mount identity was burned.
pub struct SetupModel {
    pub input: SetupPlanInput,
    pub done: int,
    pub mount_id: Option<MountId>,
}

impl SetupModel {
    /// The effect that is owed.
    pub open spec fn owes(self) -> SetupEffect {
        NativeSetupPlan::SUCCESS_EFFECTS@[self.done]
    }

    /// The session, once its mount identity is burned. It is the mount's first.
    pub open spec fn identity(self) -> Option<SessionIdentity> {
        match self.mount_id {
            Some(mount_id) => Some(
                SessionIdentity {
                    boot_instance_id: self.input.boot_instance_id,
                    mount_id,
                    session_epoch: 1,
                },
            ),
            None => None,
        }
    }

    /// Why the effect that is owed does not admit `outcome`, if it does not.
    pub open spec fn outcome_error(self, outcome: SetupEffectOutcome) -> Option<AdapterPlanError> {
        match (self.owes(), outcome) {
            (SetupEffect::BurnMountId, SetupEffectOutcome::MountIdBurned(_)) => None,
            (
                SetupEffect::BuildProtectedViews,
                SetupEffectOutcome::ProtectedViewsBuilt(receipt),
            ) => if Some(receipt.identity) == self.identity() && receipt.layout@
                == self.input.layout@ {
                None
            } else {
                Some(AdapterPlanError::InvalidTransition)
            },
            (SetupEffect::BurnMountId, _) => Some(AdapterPlanError::InvalidInput),
            (SetupEffect::BuildProtectedViews, _) => Some(AdapterPlanError::InvalidInput),
            (_, SetupEffectOutcome::Done) => None,
            _ => Some(AdapterPlanError::InvalidInput),
        }
    }

    /// The setup after `outcome`.
    pub open spec fn after(self, outcome: SetupEffectOutcome) -> SetupModel {
        SetupModel {
            done: self.done + 1,
            mount_id: match outcome {
                SetupEffectOutcome::MountIdBurned(mount_id) => Some(mount_id),
                _ => self.mount_id,
            },
            ..self
        }
    }

    /// The publication is done: the session stays, whatever fails.
    pub open spec fn is_published(self) -> bool {
        place(SetupEffect::PublishLockedSuffix) < self.done
    }
}

/// The effect a setup owes.
#[derive(Debug)]
pub struct PendingSetupEffect {
    input: SetupPlanInput,
    done: usize,
    mount_id: Option<MountId>,
}

impl View for PendingSetupEffect {
    type V = SetupModel;

    closed spec fn view(&self) -> SetupModel {
        SetupModel { input: self.input, done: self.done as int, mount_id: self.mount_id }
    }
}

/// Why a setup cannot begin, if it cannot.
pub open spec fn begin_error(input: SetupPlanInput) -> Option<AdapterPlanError> {
    if input.layout@ != input.implied_layout@ {
        Some(AdapterPlanError::InvalidInput)
    } else if input.output_capacity < input.required_size {
        Some(AdapterPlanError::Capacity)
    } else {
        None
    }
}

impl NativeSetupPlan {
    /// Begin a setup. A layout that is not the request's, and an output buffer
    /// that is too short, are refused before any effect.
    pub fn begin(input: SetupPlanInput) -> (begun: Result<SetupProgress, AdapterPlanError>)
        ensures
            match begin_error(input) {
                Some(error) => begun == Err::<SetupProgress, _>(error),
                None => begun matches Ok(SetupProgress::Effect(pending)) && pending@ == (SetupModel {
                    input,
                    done: 0,
                    mount_id: None,
                }),
            },
    {
        if !input.layout.agrees_with(&input.implied_layout) {
            return Err(AdapterPlanError::InvalidInput);
        }
        if input.output_capacity < input.required_size {
            return Err(AdapterPlanError::Capacity);
        }
        Ok(SetupProgress::Effect(PendingSetupEffect { input, done: 0, mount_id: None }))
    }
}

impl PendingSetupEffect {
    #[verifier::type_invariant]
    closed spec fn inv(self) -> bool {
        &&& self.done < 25
        &&& self.mount_id is Some <==> self.done > 5
    }

    /// The effect.
    pub fn effect(&self) -> (effect: SetupEffect)
        ensures
            0 <= self@.done < 25,
            effect == self@.owes(),
    {
        proof {
            use_type_invariant(self);
        }
        NativeSetupPlan::SUCCESS_EFFECTS[self.done]
    }

    /// The session, once its mount identity is burned.
    pub fn identity(&self) -> (identity: Option<SessionIdentity>)
        ensures
            identity == self@.identity(),
            identity is Some <==> place(SetupEffect::BurnMountId) < self@.done,
    {
        proof {
            use_type_invariant(self);
        }
        match self.mount_id {
            Some(mount_id) => Some(
                SessionIdentity {
                    boot_instance_id: self.input.boot_instance_id,
                    mount_id,
                    session_epoch: 1,
                },
            ),
            None => None,
        }
    }

    /// The platform the setup was planned for.
    pub fn profile(&self) -> (profile: PlatformProfile)
        ensures
            profile == self@.input.profile,
    {
        self.input.profile
    }

    /// The section the setup was planned for.
    pub fn layout(&self) -> (layout: &SectionLayoutPlan)
        ensures
            *layout == self@.input.layout,
    {
        &self.input.layout
    }

    /// The output capacity the setup was admitted against.
    pub fn output_capacity(&self) -> (capacity: usize)
        ensures
            capacity == self@.input.output_capacity,
    {
        self.input.output_capacity
    }

    /// Does a receipt answer this setup?
    fn answers(&self, identity: SessionIdentity, layout: &SectionLayoutPlan) -> (answer: bool)
        ensures
            answer == (Some(identity) == self@.identity() && layout@ == self@.input.layout@),
    {
        match self.identity() {
            Some(own) => own == identity && layout.agrees_with(&self.input.layout),
            None => false,
        }
    }

    /// The effect is done and brought `outcome`.
    pub fn succeeded(self, outcome: SetupEffectOutcome) -> (result: Result<
        SetupProgress,
        AdapterPlanError,
    >)
        ensures
            match self@.outcome_error(outcome) {
                Some(error) => result == Err::<SetupProgress, _>(error),
                None => match result {
                    Ok(SetupProgress::Effect(pending)) => self@.done < 24 && pending@ == self@.after(
                        outcome,
                    ),
                    Ok(SetupProgress::Published(commit)) => self@.done == 24 && Some(commit@)
                        == self@.identity(),
                    Err(_) => false,
                },
            },
    {
        proof {
            use_type_invariant(&self);
        }
        let mount_id = match (self.effect(), outcome) {
            (SetupEffect::BurnMountId, SetupEffectOutcome::MountIdBurned(mount_id)) => Some(mount_id),
            (
                SetupEffect::BuildProtectedViews,
                SetupEffectOutcome::ProtectedViewsBuilt(receipt),
            ) => {
                if !self.answers(receipt.identity, &receipt.layout) {
                    return Err(AdapterPlanError::InvalidTransition);
                }
                self.mount_id
            },
            (SetupEffect::BurnMountId, _) => {
                return Err(AdapterPlanError::InvalidInput);
            },
            (SetupEffect::BuildProtectedViews, _) => {
                return Err(AdapterPlanError::InvalidInput);
            },
            (_, SetupEffectOutcome::Done) => self.mount_id,
            _ => {
                return Err(AdapterPlanError::InvalidInput);
            },
        };
        if self.done == 24 {
            match self.identity() {
                Some(identity) => {
                    return Ok(SetupProgress::Published(SetupCommit { identity }));
                },
                None => {},
            }
        }
        Ok(
            SetupProgress::Effect(
                PendingSetupEffect { input: self.input, done: self.done + 1, mount_id },
            ),
        )
    }

    /// The effect failed. Before the publication is done the setup is undone;
    /// after it the session stays published. A failure of the protected views
    /// comes with a receipt and is not reported here.
    pub fn failed_native(self) -> (result: Result<
        SetupFailurePlan,
        (AdapterPlanError, PendingSetupEffect),
    >)
        ensures
            match result {
                Err((error, pending)) => self@.owes() == SetupEffect::BuildProtectedViews && error
                    == AdapterPlanError::InvalidTransition && pending == self,
                Ok(SetupFailurePlan::CompletePublished(commit)) => self@.is_published() && Some(
                    commit@,
                ) == self@.identity(),
                Ok(SetupFailurePlan::Rollback(rollback)) => self@.owes()
                    != SetupEffect::BuildProtectedViews && !self@.is_published() && rollback@
                    == rollback_of(self@.done, CapturedProcessDisposition::RetainedBySetup),
            },
    {
        proof {
            use_type_invariant(&self);
        }
        if self.effect() == SetupEffect::BuildProtectedViews {
            return Err((AdapterPlanError::InvalidTransition, self));
        }
        if self.done > 19 {
            match self.identity() {
                Some(identity) => {
                    return Ok(SetupFailurePlan::CompletePublished(SetupCommit { identity }));
                },
                None => {},
            }
        }
        Ok(
            SetupFailurePlan::Rollback(
                setup_rollback(self.done, CapturedProcessDisposition::RetainedBySetup),
            ),
        )
    }

    /// Building the protected views failed and what they had done is undone. A
    /// receipt for another session or another section is handed back.
    pub fn failed_protected_views(self, receipt: ProtectedViewRollbackReceipt) -> (result: Result<
        SetupFailurePlan,
        (AdapterPlanError, PendingSetupEffect, ProtectedViewRollbackReceipt),
    >)
        ensures
            ({
                let admitted = self@.owes() == SetupEffect::BuildProtectedViews && Some(
                    receipt.identity,
                ) == self@.identity() && receipt.layout@ == self@.input.layout@;
                match result {
                    Err((error, pending, returned)) => !admitted && error
                        == AdapterPlanError::InvalidTransition && pending == self && returned
                        == receipt,
                    Ok(SetupFailurePlan::Rollback(rollback)) => admitted && rollback@
                        == rollback_of(self@.done, receipt.disposition),
                    Ok(SetupFailurePlan::CompletePublished(_)) => false,
                }
            }),
    {
        if self.effect() != SetupEffect::BuildProtectedViews || !self.answers(
            receipt.identity,
            &receipt.layout,
        ) {
            return Err((AdapterPlanError::InvalidTransition, self, receipt));
        }
        Ok(SetupFailurePlan::Rollback(setup_rollback(self.done, receipt.disposition)))
    }
}

/// The effects stand where [`place`] says.
pub proof fn law_every_effect_has_its_place(effect: SetupEffect)
    ensures
        0 <= place(effect) < 25,
        NativeSetupPlan::SUCCESS_EFFECTS@[place(effect)] == effect,
        forall|i: int|
            0 <= i < 25 ==> place(#[trigger] NativeSetupPlan::SUCCESS_EFFECTS@[i]) == i,
{
}

/// A sequence in which each step undoes a later effect than the next one does
/// still has that order when some steps are left out.
proof fn lemma_filter_keeps_order(
    steps: Seq<SetupRollbackEffect>,
    wanted: spec_fn(SetupRollbackEffect) -> bool,
)
    requires
        forall|i: int, j: int|
            0 <= i < j < steps.len() ==> place(undone_by(#[trigger] steps[i])) > place(
                undone_by(#[trigger] steps[j]),
            ),
    ensures
        forall|i: int, j: int|
            0 <= i < j < steps.filter(wanted).len() ==> place(
                undone_by(#[trigger] steps.filter(wanted)[i]),
            ) > place(undone_by(#[trigger] steps.filter(wanted)[j])),
        forall|i: int|
            0 <= i < steps.filter(wanted).len() ==> steps.contains(
                #[trigger] steps.filter(wanted)[i],
            ),
    decreases steps.len(),
{
    reveal(Seq::filter);
    if steps.len() > 0 {
        let rest = steps.drop_last();
        assert forall|i: int, j: int| 0 <= i < j < rest.len() implies place(
            undone_by(#[trigger] rest[i]),
        ) > place(undone_by(#[trigger] rest[j])) by {
            assert(rest[i] == steps[i] && rest[j] == steps[j]);
        }
        lemma_filter_keeps_order(rest, wanted);
        let kept = rest.filter(wanted);
        assert forall|i: int| 0 <= i < kept.len() implies steps.contains(#[trigger] kept[i])
            && place(undone_by(kept[i])) > place(undone_by(steps.last())) by {
            let k = choose|k: int| 0 <= k < rest.len() && rest[k] == kept[i];
            assert(steps[k] == kept[i]);
            assert(place(undone_by(steps[k])) > place(undone_by(steps[steps.len() - 1])));
        }
        assert(steps.contains(steps[steps.len() - 1]));
    }
}

/// A rollback holds exactly the steps that are owed, each once, and runs them in
/// the reverse of the order in which the setup took what they give back.
pub proof fn law_rollback_unwinds_in_reverse(done: int, process: CapturedProcessDisposition)
    ensures
        forall|undo: SetupRollbackEffect|
            #![trigger rollback_of(done, process).contains(undo)]
            rollback_of(done, process).contains(undo) <==> owed(undo, done, process),
        forall|i: int, j: int|
            0 <= i < j < rollback_of(done, process).len() ==> place(
                undone_by(#[trigger] rollback_of(done, process)[i]),
            ) > place(undone_by(#[trigger] rollback_of(done, process)[j])),
{
    let wanted = |undo: SetupRollbackEffect| owed(undo, done, process);
    lemma_filter_keeps_order(ROLLBACK_ORDER@, wanted);
    assert forall|i: int| 0 <= i < rollback_of(done, process).len() implies owed(
        #[trigger] rollback_of(done, process)[i],
        done,
        process,
    ) by {
        ROLLBACK_ORDER@.lemma_filter_pred(wanted, i);
    }
    assert forall|undo: SetupRollbackEffect|
        #![trigger rollback_of(done, process).contains(undo)]
        owed(undo, done, process) implies rollback_of(done, process).contains(undo) by {
        let at = match undo {
            SetupRollbackEffect::ReleaseStrongReferences => 0int,
            SetupRollbackEffect::RollbackProtectedViews => 1,
            SetupRollbackEffect::ReleaseCapturedProcess => 2,
            SetupRollbackEffect::DeleteVdo => 3,
            SetupRollbackEffect::FreeEventsAndScratch => 4,
            SetupRollbackEffect::FreeGrants => 5,
            SetupRollbackEffect::UnmapAndCloseSection => 6,
            SetupRollbackEffect::PreserveBurnedMountId => 7,
            SetupRollbackEffect::ReleaseBootLockEvent => 8,
            SetupRollbackEffect::ReleaseControlRundown => 9,
        };
        assert(ROLLBACK_ORDER@[at] == undo);
        ROLLBACK_ORDER@.lemma_filter_contains(wanted, at);
    }
}

/// Once a mount identity is burned every rollback leaves it burned, and before
/// that none speaks of it.
pub proof fn law_burned_identity_stays_burned(done: int, process: CapturedProcessDisposition)
    ensures
        rollback_of(done, process).contains(SetupRollbackEffect::PreserveBurnedMountId) <==> place(
            SetupEffect::BurnMountId,
        ) < done,
{
    law_rollback_unwinds_in_reverse(done, process);
}

/// The provider's process is released once: by the setup's rollback, unless
/// undoing the protected views did it. Nothing else in the rollback changes.
pub proof fn law_captured_process_is_released_once(done: int, undo: SetupRollbackEffect)
    ensures
        rollback_of(done, CapturedProcessDisposition::RetainedBySetup).contains(
            SetupRollbackEffect::ReleaseCapturedProcess,
        ) <==> place(SetupEffect::CaptureProcess) < done,
        !rollback_of(done, CapturedProcessDisposition::ReleasedByProtectedViews).contains(
            SetupRollbackEffect::ReleaseCapturedProcess,
        ),
        undo != SetupRollbackEffect::ReleaseCapturedProcess ==> (rollback_of(
            done,
            CapturedProcessDisposition::RetainedBySetup,
        ).contains(undo) <==> rollback_of(
            done,
            CapturedProcessDisposition::ReleasedByProtectedViews,
        ).contains(undo)),
{
    law_rollback_unwinds_in_reverse(done, CapturedProcessDisposition::RetainedBySetup);
    law_rollback_unwinds_in_reverse(done, CapturedProcessDisposition::ReleasedByProtectedViews);
}

/// What a rollback holds after a given number of effects, step by step: each step
/// appears once the effect it undoes is among those done, the boot lock's only
/// until the setup gives the lock back itself, and the process's only while the
/// setup holds it.
pub proof fn law_each_step_is_owed_from_here(
    done: int,
    process: CapturedProcessDisposition,
)
    ensures
        owed(SetupRollbackEffect::ReleaseControlRundown, done, process) <==> done >= 1,
        owed(SetupRollbackEffect::ReleaseBootLockEvent, done, process) <==> done == 5 || done == 6,
        owed(SetupRollbackEffect::PreserveBurnedMountId, done, process) <==> done >= 6,
        owed(SetupRollbackEffect::UnmapAndCloseSection, done, process) <==> done >= 9,
        owed(SetupRollbackEffect::FreeGrants, done, process) <==> done >= 11,
        owed(SetupRollbackEffect::FreeEventsAndScratch, done, process) <==> done >= 12,
        owed(SetupRollbackEffect::DeleteVdo, done, process) <==> done >= 13,
        owed(SetupRollbackEffect::ReleaseCapturedProcess, done, process) <==> done >= 14 && process
            == CapturedProcessDisposition::RetainedBySetup,
        owed(SetupRollbackEffect::RollbackProtectedViews, done, process) <==> done >= 15,
        owed(SetupRollbackEffect::ReleaseStrongReferences, done, process) <==> done >= 18,
{
}

/// The effects of a setup go in this order.
pub proof fn law_setup_goes_in_this_order()
    ensures
        NativeSetupPlan::SUCCESS_EFFECTS@ == seq![
            SetupEffect::AcquireControlRundown,
            SetupEffect::SnapshotRequest,
            SetupEffect::ValidateRequest,
            SetupEffect::PlanLayout,
            SetupEffect::AcquireBootLockEvent,
            SetupEffect::BurnMountId,
            SetupEffect::ReleaseBootLockEvent,
            SetupEffect::ComposeIdentity,
            SetupEffect::AllocateSectionAndSystemView,
            SetupEffect::InitializeSection,
            SetupEffect::AllocateGrants,
            SetupEffect::AllocateEventsAndScratch,
            SetupEffect::CreateVdo,
            SetupEffect::CaptureProcess,
            SetupEffect::BuildProtectedViews,
            SetupEffect::BuildOutput,
            SetupEffect::ValidateOutput,
            SetupEffect::InstallStaging,
            SetupEffect::CopyValidatedOutput,
            SetupEffect::PublishLockedSuffix,
            SetupEffect::EmitSessionPublished,
            SetupEffect::ReleaseSetupAdmission,
            SetupEffect::SignalSetupComplete,
            SetupEffect::ReturnProviderDisposition,
            SetupEffect::OuterReleaseControlRundown,
        ],
{
    assert(NativeSetupPlan::SUCCESS_EFFECTS@.len() == 25);
    assert(NativeSetupPlan::SUCCESS_EFFECTS@ =~= seq![
        SetupEffect::AcquireControlRundown,
        SetupEffect::SnapshotRequest,
        SetupEffect::ValidateRequest,
        SetupEffect::PlanLayout,
        SetupEffect::AcquireBootLockEvent,
        SetupEffect::BurnMountId,
        SetupEffect::ReleaseBootLockEvent,
        SetupEffect::ComposeIdentity,
        SetupEffect::AllocateSectionAndSystemView,
        SetupEffect::InitializeSection,
        SetupEffect::AllocateGrants,
        SetupEffect::AllocateEventsAndScratch,
        SetupEffect::CreateVdo,
        SetupEffect::CaptureProcess,
        SetupEffect::BuildProtectedViews,
        SetupEffect::BuildOutput,
        SetupEffect::ValidateOutput,
        SetupEffect::InstallStaging,
        SetupEffect::CopyValidatedOutput,
        SetupEffect::PublishLockedSuffix,
        SetupEffect::EmitSessionPublished,
        SetupEffect::ReleaseSetupAdmission,
        SetupEffect::SignalSetupComplete,
        SetupEffect::ReturnProviderDisposition,
        SetupEffect::OuterReleaseControlRundown,
    ]);
}

/// No two steps undo one effect.
pub proof fn law_each_effect_is_undone_once(first: SetupRollbackEffect, second: SetupRollbackEffect)
    ensures
        undone_by(first) == undone_by(second) ==> first == second,
{
}

/// The session a setup makes is the first of the burned mount of its own boot, and
/// it has no name before the mount identity is burned.
pub proof fn law_session_is_the_first_of_its_mount(setup: SetupModel)
    ensures
        setup.identity() is None <==> setup.mount_id is None,
        setup.identity() matches Some(identity) ==> identity.boot_instance_id
            == setup.input.boot_instance_id && setup.mount_id == Some(identity.mount_id)
            && identity.session_epoch == 1,
{
}

/// An effect goes on exactly with its own outcome: the burn with a burned
/// identity, the protected views with a receipt for this session and this section,
/// and every other with nothing but that it is done. A receipt for another session
/// or section is in no state for this; any other outcome is no input for it.
pub proof fn law_setup_goes_on_exactly(setup: SetupModel, outcome: SetupEffectOutcome)
    requires
        0 <= setup.done < 25,
    ensures
        setup.outcome_error(outcome) is None <==> if setup.done == 5 {
            outcome is MountIdBurned
        } else if setup.done == 14 {
            outcome matches SetupEffectOutcome::ProtectedViewsBuilt(receipt) && Some(
                receipt.identity,
            ) == setup.identity() && receipt.layout@ == setup.input.layout@
        } else {
            outcome is Done
        },
        setup.outcome_error(outcome) == Some(AdapterPlanError::InvalidTransition) <==> setup.done
            == 14 && (outcome matches SetupEffectOutcome::ProtectedViewsBuilt(receipt) && !(Some(
            receipt.identity,
        ) == setup.identity() && receipt.layout@ == setup.input.layout@)),
        setup.outcome_error(outcome) is Some ==> setup.outcome_error(outcome) == Some(
            AdapterPlanError::InvalidTransition,
        ) || setup.outcome_error(outcome) == Some(AdapterPlanError::InvalidInput),
{
    law_every_effect_has_its_place(setup.owes());
}

/// A setup goes on by one effect and keeps everything it was planned from. Only a
/// burn names its mount, and no later effect names it anew.
pub proof fn law_setup_goes_forward_by_one(setup: SetupModel, outcome: SetupEffectOutcome)
    ensures
        setup.after(outcome).done - setup.done == 1,
        setup.after(outcome).input == setup.input,
        outcome matches SetupEffectOutcome::MountIdBurned(mount_id) ==> setup.after(
            outcome,
        ).mount_id == Some(mount_id),
        !(outcome is MountIdBurned) ==> setup.after(outcome).mount_id == setup.mount_id
            && setup.after(outcome).identity() == setup.identity(),
{
}

/// A session stays exactly from its publication on: the five effects that follow it
/// never unwind it, and no earlier failure leaves it.
pub proof fn law_published_from_the_suffix_on(setup: SetupModel)
    requires
        0 <= setup.done < 25,
    ensures
        setup.is_published() <==> setup.owes() == SetupEffect::EmitSessionPublished || setup.owes()
            == SetupEffect::ReleaseSetupAdmission || setup.owes()
            == SetupEffect::SignalSetupComplete || setup.owes()
            == SetupEffect::ReturnProviderDisposition || setup.owes()
            == SetupEffect::OuterReleaseControlRundown,
        setup.is_published() <==> setup.done >= 20,
{
    law_every_effect_has_its_place(setup.owes());
}

/// A setup begins exactly with the section the request implies and room for the
/// whole output. A section that differs is reported first, whatever the room.
pub proof fn law_setup_begins_exactly(input: SetupPlanInput)
    ensures
        begin_error(input) is None <==> input.layout@ == input.implied_layout@
            && input.required_size <= input.output_capacity,
        begin_error(input) == Some(AdapterPlanError::InvalidInput) <==> input.layout@
            != input.implied_layout@,
        begin_error(input) == Some(AdapterPlanError::Capacity) <==> input.layout@
            == input.implied_layout@ && input.output_capacity < input.required_size,
{
}

/// A setup begins exactly with the section its request implies and room for its
/// output, at its first effect and with no mount named. The section is refused
/// first.
pub proof fn law_setup_begins_with_its_section(
    input: SetupPlanInput,
    begun: Result<SetupProgress, AdapterPlanError>,
)
    requires
        call_ensures(NativeSetupPlan::begin, (input,), begun),
    ensures
        begun is Ok <==> input.layout@ == input.implied_layout@ && input.required_size
            <= input.output_capacity,
        begun == Err::<SetupProgress, _>(AdapterPlanError::InvalidInput) <==> input.layout@
            != input.implied_layout@,
        begun == Err::<SetupProgress, _>(AdapterPlanError::Capacity) <==> input.layout@
            == input.implied_layout@ && input.output_capacity < input.required_size,
        begun matches Ok(progress) ==> {
            &&& progress matches SetupProgress::Effect(pending)
            &&& pending@.input == input
            &&& pending@.done == 0
            &&& pending@.mount_id is None
        },
{
    law_setup_begins_exactly(input);
}

/// A setup owes its effects in their order, goes on by one exactly with the outcome
/// the effect calls for, and is published for its own session after the last.
pub proof fn law_setup_goes_step_by_step(
    pending: PendingSetupEffect,
    effect: SetupEffect,
    outcome: SetupEffectOutcome,
    result: Result<SetupProgress, AdapterPlanError>,
)
    requires
        call_ensures(PendingSetupEffect::effect, (&pending,), effect),
        call_ensures(PendingSetupEffect::succeeded, (pending, outcome), result),
    ensures
        ({
            let setup = pending@;
            let named = outcome matches SetupEffectOutcome::ProtectedViewsBuilt(receipt) && Some(
                receipt.identity,
            ) == setup.identity() && receipt.layout@ == setup.input.layout@;
            &&& 0 <= setup.done < 25
            &&& place(effect) == setup.done
            &&& effect == SetupEffect::BurnMountId <==> setup.done == 5
            &&& effect == SetupEffect::BuildProtectedViews <==> setup.done == 14
            &&& effect == SetupEffect::PublishLockedSuffix <==> setup.done == 19
            &&& result is Ok <==> if setup.done == 5 {
                outcome is MountIdBurned
            } else if setup.done == 14 {
                named
            } else {
                outcome is Done
            }
            &&& result == Err::<SetupProgress, _>(AdapterPlanError::InvalidTransition) <==>
                setup.done == 14 && outcome is ProtectedViewsBuilt && !named
            &&& result matches Ok(progress) ==> (progress is Published <==> setup.done == 24)
            &&& result matches Ok(SetupProgress::Effect(next)) ==> {
                &&& next@.done == setup.done + 1
                &&& next@.input == setup.input
                &&& outcome matches SetupEffectOutcome::MountIdBurned(mount_id) ==> next@.mount_id
                    == Some(mount_id)
                &&& !(outcome is MountIdBurned) ==> next@.mount_id == setup.mount_id
            }
            &&& result matches Ok(SetupProgress::Published(commit)) ==> {
                &&& setup.mount_id == Some(commit@.mount_id)
                &&& commit@.boot_instance_id == setup.input.boot_instance_id
                &&& commit@.session_epoch == 1
            }
        }),
{
    law_every_effect_has_its_place(effect);
    law_setup_goes_on_exactly(pending@, outcome);
    law_session_is_the_first_of_its_mount(pending@);
}

/// An effect that fails undoes the setup, and from the publication on leaves the
/// session published. Protected views that fail are reported with their receipt and
/// not here.
pub proof fn law_failed_effect_undoes_until_published(
    pending: PendingSetupEffect,
    result: Result<SetupFailurePlan, (AdapterPlanError, PendingSetupEffect)>,
)
    requires
        call_ensures(PendingSetupEffect::failed_native, (pending,), result),
        0 <= pending@.done < 25,
    ensures
        result is Err <==> pending@.done == 14,
        result matches Err((error, back)) ==> error == AdapterPlanError::InvalidTransition && back
            == pending,
        result matches Ok(plan) ==> (plan is CompletePublished <==> pending@.done >= 20),
        result matches Ok(SetupFailurePlan::CompletePublished(commit)) ==> Some(commit@)
            == pending@.identity(),
        result matches Ok(SetupFailurePlan::Rollback(rollback)) ==> {
            let done = pending@.done;
            &&& rollback@.contains(SetupRollbackEffect::ReleaseControlRundown) <==> done >= 1
            &&& rollback@.contains(SetupRollbackEffect::ReleaseBootLockEvent) <==> done == 5 || done
                == 6
            &&& rollback@.contains(SetupRollbackEffect::PreserveBurnedMountId) <==> done >= 6
            &&& rollback@.contains(SetupRollbackEffect::UnmapAndCloseSection) <==> done >= 9
            &&& rollback@.contains(SetupRollbackEffect::FreeGrants) <==> done >= 11
            &&& rollback@.contains(SetupRollbackEffect::FreeEventsAndScratch) <==> done >= 12
            &&& rollback@.contains(SetupRollbackEffect::DeleteVdo) <==> done >= 13
            &&& rollback@.contains(SetupRollbackEffect::ReleaseCapturedProcess) <==> done >= 14
            &&& rollback@.contains(SetupRollbackEffect::RollbackProtectedViews) <==> done >= 15
            &&& rollback@.contains(SetupRollbackEffect::ReleaseStrongReferences) <==> done >= 18
        },
{
    let setup = pending@;
    law_every_effect_has_its_place(setup.owes());
    law_published_from_the_suffix_on(setup);
    law_rollback_unwinds_in_reverse(setup.done, CapturedProcessDisposition::RetainedBySetup);
    law_each_step_is_owed_from_here(setup.done, CapturedProcessDisposition::RetainedBySetup);
}

/// Protected views that failed undo the setup exactly with a receipt for this
/// session and this section, while they are owed. Then the process is released by
/// the setup unless undoing the views released it.
pub proof fn law_failed_views_undo_the_setup(
    pending: PendingSetupEffect,
    receipt: ProtectedViewRollbackReceipt,
    result: Result<
        SetupFailurePlan,
        (AdapterPlanError, PendingSetupEffect, ProtectedViewRollbackReceipt),
    >,
)
    requires
        call_ensures(PendingSetupEffect::failed_protected_views, (pending, receipt), result),
        0 <= pending@.done < 25,
    ensures
        result is Ok <==> pending@.done == 14 && Some(receipt.identity) == pending@.identity()
            && receipt.layout@ == pending@.input.layout@,
        result matches Ok(plan) ==> {
            &&& plan matches SetupFailurePlan::Rollback(rollback)
            &&& rollback@.contains(SetupRollbackEffect::ReleaseCapturedProcess) <==>
                receipt.disposition == CapturedProcessDisposition::RetainedBySetup
            &&& rollback@.contains(SetupRollbackEffect::DeleteVdo)
            &&& rollback@.contains(SetupRollbackEffect::PreserveBurnedMountId)
            &&& !rollback@.contains(SetupRollbackEffect::RollbackProtectedViews)
            &&& !rollback@.contains(SetupRollbackEffect::ReleaseStrongReferences)
        },
        result matches Err((error, back, returned)) ==> error == AdapterPlanError::InvalidTransition
            && back == pending && returned == receipt,
{
    law_every_effect_has_its_place(pending@.owes());
    law_rollback_unwinds_in_reverse(pending@.done, receipt.disposition);
    law_each_step_is_owed_from_here(pending@.done, receipt.disposition);
}

/// A rollback runs what is owed in one order: references, views, process, device,
/// events, grants, section, identity, boot lock, control rundown.
pub proof fn law_rollback_runs_in_this_order(
    done: usize,
    process: CapturedProcessDisposition,
    rollback: SetupRollback,
    i: int,
    j: int,
)
    requires
        call_ensures(setup_rollback, (done, process), rollback),
        0 <= i < j < rollback@.len(),
    ensures
        ({
            let rank = |undo: SetupRollbackEffect| match undo {
                SetupRollbackEffect::ReleaseStrongReferences => 0int,
                SetupRollbackEffect::RollbackProtectedViews => 1,
                SetupRollbackEffect::ReleaseCapturedProcess => 2,
                SetupRollbackEffect::DeleteVdo => 3,
                SetupRollbackEffect::FreeEventsAndScratch => 4,
                SetupRollbackEffect::FreeGrants => 5,
                SetupRollbackEffect::UnmapAndCloseSection => 6,
                SetupRollbackEffect::PreserveBurnedMountId => 7,
                SetupRollbackEffect::ReleaseBootLockEvent => 8,
                SetupRollbackEffect::ReleaseControlRundown => 9,
            };
            rank(rollback@[i]) < rank(rollback@[j])
        }),
{
    law_rollback_unwinds_in_reverse(done as int, process);
}

/// A setup under way names its session from the burn on, and shows what it was
/// planned from.
pub proof fn law_setup_shows_its_plan(
    pending: PendingSetupEffect,
    identity: Option<SessionIdentity>,
    profile: PlatformProfile,
    capacity: usize,
)
    requires
        call_ensures(PendingSetupEffect::identity, (&pending,), identity),
        call_ensures(PendingSetupEffect::profile, (&pending,), profile),
        call_ensures(PendingSetupEffect::output_capacity, (&pending,), capacity),
    ensures
        identity is Some <==> pending@.done > 5,
        identity matches Some(named) ==> pending@.mount_id == Some(named.mount_id)
            && named.boot_instance_id == pending@.input.boot_instance_id && named.session_epoch
            == 1,
        profile == pending@.input.profile,
        capacity == pending@.input.output_capacity,
{
}

} // verus!
