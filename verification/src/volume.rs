//! The mount transaction, the verify decision and the dismount order.
//!
//! A mount is an affine chain of capabilities: each owed effect is held by one
//! value, preparing that value is the only way to learn which effect it is, and
//! reporting the effect consumes it. The chain walks
//! [`MountTransaction::SUCCESS_EFFECTS`] in order, and a failure yields exactly
//! the undo effects for what the transaction holds at that point.

use crate::abi::identity::SessionIdentity;
use vstd::prelude::*;

verus! {

/// Where a volume stands in its life.
#[derive(Clone, Copy, Debug, PartialEq, Eq, Structural)]
pub enum VolumeState {
    Staging,
    Active,
    Mounted,
    Teardown,
    Destroyed,
}

/// Why a mount transaction could not begin.
#[derive(Clone, Copy, Debug, PartialEq, Eq, Structural)]
pub enum VolumeError {
    /// Only an active volume can be mounted.
    InvalidState,
    /// The mount request names another target.
    TargetMismatch,
}

/// One step of the mount transaction.
#[derive(Clone, Copy, Debug, PartialEq, Eq, Structural)]
pub enum MountEffect {
    AcquireVpb,
    ValidateTarget,
    ReleaseVpb,
    AcquireSessionReference,
    CreateMountedDevice,
    AllocateVcb,
    InitializeDeviceAndVcb,
    RevalidateTargetIdentityAdmissionAndBinding,
    BindVpb,
    SetVpbMounted,
    PublishMountOwner,
    ClearDeviceInitializing,
}

/// The mount transaction's fixed roster.
pub struct MountTransaction;

impl MountTransaction {
    /// The effects of a mount that succeeds, in order.
    pub const SUCCESS_EFFECTS: [MountEffect; 14] = [
        MountEffect::AcquireVpb,
        MountEffect::ValidateTarget,
        MountEffect::ReleaseVpb,
        MountEffect::AcquireSessionReference,
        MountEffect::CreateMountedDevice,
        MountEffect::AllocateVcb,
        MountEffect::InitializeDeviceAndVcb,
        MountEffect::AcquireVpb,
        MountEffect::RevalidateTargetIdentityAdmissionAndBinding,
        MountEffect::BindVpb,
        MountEffect::SetVpbMounted,
        MountEffect::ReleaseVpb,
        MountEffect::PublishMountOwner,
        MountEffect::ClearDeviceInitializing,
    ];
}

/// One step that undoes part of an unfinished mount.
#[derive(Clone, Copy, Debug, PartialEq, Eq, Structural)]
pub enum MountRollbackEffect {
    ClearUnpublishedVpbBinding,
    ReleaseVpbIfHeld,
    FreeVcb,
    DeleteMountedDevice,
    ReleaseSessionReference,
}

/// One step of a dismount.
#[derive(Clone, Copy, Debug, PartialEq, Eq, Structural)]
pub enum DismountEffect {
    AcquireVpb,
    ClearVpbBinding,
    ReleaseVpb,
    DeleteMountedDevice,
    DeleteVdo,
    RemoveRegistryEntry,
    ReleaseSessionReference,
}

/// The four facts re-read under the second VPB lock, before the bind.
#[derive(Clone, Copy, Debug, PartialEq, Eq, Structural)]
pub struct MountRevalidation {
    pub target_identity_matches: bool,
    pub admission_open: bool,
    pub binding_unchanged: bool,
    pub session_active: bool,
}

impl MountRevalidation {
    /// The bind may go ahead: every fact still holds.
    pub open spec fn holds(self) -> bool {
        self.target_identity_matches && self.admission_open && self.binding_unchanged
            && self.session_active
    }
}

/// What an executor reports for an ordinary mount effect.
#[derive(Clone, Copy, Debug, PartialEq, Eq, Structural)]
pub enum MountEffectOutcome {
    Done,
    Revalidated(MountRevalidation),
}

/// What a verify answers.
#[derive(Clone, Copy, Debug, PartialEq, Eq, Structural)]
pub enum VerifyDecision {
    Success,
    VolumeDismounted,
    InvalidTarget,
}

/// How many effects a mount has.
pub open spec fn mount_len() -> int {
    14
}

/// The effect at `position` of a mount that succeeds.
pub open spec fn mount_effect(position: int) -> MountEffect {
    MountTransaction::SUCCESS_EFFECTS@[position]
}

/// The VPB lock is held once `position` effects have succeeded.
pub open spec fn vpb_held(position: int) -> bool {
    1 <= position <= 2 || 8 <= position <= 11
}

/// The VPB is bound, and not yet published, once `position` effects have succeeded.
pub open spec fn vpb_bound(position: int) -> bool {
    10 <= position
}

/// The VCB exists once `position` effects have succeeded.
pub open spec fn vcb_allocated(position: int) -> bool {
    6 <= position
}

/// The mounted device exists once `position` effects have succeeded.
pub open spec fn device_created(position: int) -> bool {
    5 <= position
}

/// The session reference is held once `position` effects have succeeded.
pub open spec fn session_referenced(position: int) -> bool {
    4 <= position
}

/// An undo effect that is owed if what it undoes is held.
pub open spec fn undo(held: bool, effect: MountRollbackEffect) -> Seq<MountRollbackEffect> {
    if held {
        seq![effect]
    } else {
        seq![]
    }
}

/// The undo effects owed by a mount that stops with `position` effects done:
/// one for each thing it holds, newest first, the VPB lock last of the VPB's two.
pub open spec fn rollback_effects(position: int) -> Seq<MountRollbackEffect> {
    undo(vpb_bound(position), MountRollbackEffect::ClearUnpublishedVpbBinding)
        + undo(vpb_held(position), MountRollbackEffect::ReleaseVpbIfHeld)
        + undo(vcb_allocated(position), MountRollbackEffect::FreeVcb)
        + undo(device_created(position), MountRollbackEffect::DeleteMountedDevice)
        + undo(session_referenced(position), MountRollbackEffect::ReleaseSessionReference)
}

/// A mount that stopped, and what it owes.
#[derive(Debug)]
pub struct MountRollback {
    identity: SessionIdentity,
    position: usize,
}

/// What is known of an unfinished mount: whose it is, and how many effects are done.
pub struct MountModel {
    pub identity: SessionIdentity,
    pub position: int,
}

impl View for MountRollback {
    type V = MountModel;

    closed spec fn view(&self) -> MountModel {
        MountModel { identity: self.identity, position: self.position as int }
    }
}

impl MountRollback {
    /// The session whose mount stopped.
    pub fn identity(&self) -> (identity: SessionIdentity)
        ensures
            identity == self@.identity,
    {
        self.identity
    }

    /// The undo effects, in the order to run them.
    pub fn effects(&self) -> (effects: Vec<MountRollbackEffect>)
        ensures
            effects@ == rollback_effects(self@.position),
    {
        let mut effects: Vec<MountRollbackEffect> = Vec::new();
        let position: usize = self.position;
        if 10 <= position {
            effects.push(MountRollbackEffect::ClearUnpublishedVpbBinding);
        }
        if position == 1 || position == 2 || (8 <= position && position <= 11) {
            effects.push(MountRollbackEffect::ReleaseVpbIfHeld);
        }
        if 6 <= position {
            effects.push(MountRollbackEffect::FreeVcb);
        }
        if 5 <= position {
            effects.push(MountRollbackEffect::DeleteMountedDevice);
        }
        if 4 <= position {
            effects.push(MountRollbackEffect::ReleaseSessionReference);
        }
        assert(effects@ =~= rollback_effects(self@.position));
        effects
    }
}

/// The proof that one mount is published.
#[derive(Debug)]
pub struct PublishedMount {
    identity: SessionIdentity,
}

impl View for PublishedMount {
    type V = SessionIdentity;

    closed spec fn view(&self) -> SessionIdentity {
        self.identity
    }
}

impl PublishedMount {
    /// The session that is mounted.
    pub fn identity(&self) -> (identity: SessionIdentity)
        ensures
            identity == self@,
    {
        self.identity
    }
}

/// One owed mount effect whose kind is not yet known to its holder.
#[derive(Debug)]
pub struct PendingMountEffect {
    identity: SessionIdentity,
    position: usize,
}

/// One owed mount effect that may fail and unwind.
#[derive(Debug)]
pub struct PendingOrdinaryMountEffect {
    identity: SessionIdentity,
    position: usize,
}

/// The owed publication of the mount's owner.
#[derive(Debug)]
pub struct PendingPublishMountOwner {
    identity: SessionIdentity,
}

/// The owed exposure of the mounted device. It cannot fail.
#[derive(Debug)]
pub struct PendingClearDeviceInitializing {
    identity: SessionIdentity,
}

/// Where a mount transaction stands.
#[derive(Debug)]
pub enum MountProgress {
    Effect(PendingMountEffect),
    Published(PublishedMount),
}

/// An owed mount effect sorted by what its report may be.
#[derive(Debug)]
pub enum PreparedMountEffect {
    Ordinary(PendingOrdinaryMountEffect),
    PublishMountOwner(PendingPublishMountOwner),
    ClearDeviceInitializing(PendingClearDeviceInitializing),
}

impl View for PendingMountEffect {
    type V = MountModel;

    closed spec fn view(&self) -> MountModel {
        MountModel { identity: self.identity, position: self.position as int }
    }
}

impl View for PendingOrdinaryMountEffect {
    type V = MountModel;

    closed spec fn view(&self) -> MountModel {
        MountModel { identity: self.identity, position: self.position as int }
    }
}

impl View for PendingPublishMountOwner {
    type V = SessionIdentity;

    closed spec fn view(&self) -> SessionIdentity {
        self.identity
    }
}

impl View for PendingClearDeviceInitializing {
    type V = SessionIdentity;

    closed spec fn view(&self) -> SessionIdentity {
        self.identity
    }
}

impl View for MountProgress {
    type V = MountModel;

    /// A published mount has every effect done.
    open spec fn view(&self) -> MountModel {
        match self {
            MountProgress::Effect(pending) => pending@,
            MountProgress::Published(published) => MountModel {
                identity: published@,
                position: mount_len(),
            },
        }
    }
}

impl PendingMountEffect {
    #[verifier::type_invariant]
    closed spec fn inv(self) -> bool {
        self.position < mount_len()
    }

    /// Learn which native action is owed, giving up the unsorted capability.
    pub fn prepare(self) -> (prepared: PreparedMountEffect)
        ensures
            match prepared {
                PreparedMountEffect::Ordinary(ordinary) => ordinary@ == self@
                    && 0 <= self@.position < 12,
                PreparedMountEffect::PublishMountOwner(publish) => publish@ == self@.identity
                    && self@.position == 12,
                PreparedMountEffect::ClearDeviceInitializing(clear) => clear@ == self@.identity
                    && self@.position == 13,
            },
    {
        proof {
            use_type_invariant(&self);
        }
        let identity = self.identity;
        let position: usize = self.position;
        if position == 12 {
            PreparedMountEffect::PublishMountOwner(PendingPublishMountOwner { identity })
        } else if position == 13 {
            PreparedMountEffect::ClearDeviceInitializing(
                PendingClearDeviceInitializing { identity },
            )
        } else {
            PreparedMountEffect::Ordinary(PendingOrdinaryMountEffect { identity, position })
        }
    }
}

impl PendingOrdinaryMountEffect {
    #[verifier::type_invariant]
    closed spec fn inv(self) -> bool {
        self.position < 12
    }

    /// The owed effect.
    pub fn effect(&self) -> (effect: MountEffect)
        ensures
            effect == mount_effect(self@.position),
            0 <= self@.position < 12,
    {
        proof {
            use_type_invariant(self);
        }
        MountTransaction::SUCCESS_EFFECTS[self.position]
    }

    /// Report the effect done.
    ///
    /// The revalidation goes on only with an observation of all four facts
    /// true; every other effect goes on only with a bare `Done`. Anything else
    /// unwinds what the transaction holds.
    pub fn succeeded(self, outcome: MountEffectOutcome) -> (result: Result<
        MountProgress,
        MountRollback,
    >)
        ensures
            match result {
                Ok(progress) => {
                    &&& ordinary_accepts(self@.position, outcome)
                    &&& progress is Effect
                    &&& progress@ == (MountModel { position: self@.position + 1, ..self@ })
                },
                Err(rollback) => !ordinary_accepts(self@.position, outcome) && rollback@ == self@,
            },
    {
        proof {
            use_type_invariant(&self);
        }
        let identity = self.identity;
        let position: usize = self.position;
        let accepted = match outcome {
            MountEffectOutcome::Done => position != 8,
            MountEffectOutcome::Revalidated(facts) => position == 8
                && facts.target_identity_matches && facts.admission_open
                && facts.binding_unchanged && facts.session_active,
        };
        if accepted {
            Ok(MountProgress::Effect(PendingMountEffect { identity, position: position + 1 }))
        } else {
            Err(MountRollback { identity, position })
        }
    }

    /// Report the effect failed.
    pub fn failed(self) -> (rollback: MountRollback)
        ensures
            rollback@ == self@,
    {
        MountRollback { identity: self.identity, position: self.position }
    }
}

/// The report `outcome` lets the effect at `position` go on.
pub open spec fn ordinary_accepts(position: int, outcome: MountEffectOutcome) -> bool {
    if mount_effect(position) == MountEffect::RevalidateTargetIdentityAdmissionAndBinding {
        outcome matches MountEffectOutcome::Revalidated(facts) && facts.holds()
    } else {
        outcome is Done
    }
}

impl PendingPublishMountOwner {
    /// Report the owner installed.
    pub fn published(self) -> (progress: MountProgress)
        ensures
            progress is Effect,
            progress@ == (MountModel { identity: self@, position: 13 }),
    {
        MountProgress::Effect(PendingMountEffect { identity: self.identity, position: 13 })
    }

    /// Report the publication refused: the last point that can unwind.
    pub fn failed(self) -> (rollback: MountRollback)
        ensures
            rollback@ == (MountModel { identity: self@, position: 12 }),
    {
        MountRollback { identity: self.identity, position: 12 }
    }
}

impl PendingClearDeviceInitializing {
    /// The owed effect.
    pub fn effect(&self) -> (effect: MountEffect)
        ensures
            effect == MountEffect::ClearDeviceInitializing,
    {
        MountEffect::ClearDeviceInitializing
    }

    /// Report the device exposed. The mount is published.
    pub fn cleared(self) -> (published: PublishedMount)
        ensures
            published@ == self@,
    {
        PublishedMount { identity: self.identity }
    }
}

/// Begin the mount of an active volume that the request names.
pub fn begin_mount(state: VolumeState, identity: SessionIdentity, target_matches: bool) -> (result:
    Result<MountProgress, VolumeError>)
    ensures
        match result {
            Ok(progress) => {
                &&& state == VolumeState::Active && target_matches
                &&& progress is Effect
                &&& progress@ == (MountModel { identity, position: 0 })
            },
            Err(VolumeError::InvalidState) => state != VolumeState::Active,
            Err(VolumeError::TargetMismatch) => state == VolumeState::Active && !target_matches,
        },
{
    if state != VolumeState::Active {
        Err(VolumeError::InvalidState)
    } else if !target_matches {
        Err(VolumeError::TargetMismatch)
    } else {
        Ok(MountProgress::Effect(PendingMountEffect { identity, position: 0 }))
    }
}

/// What a verify answers for a volume in `state`.
pub open spec fn verify_decision(state: VolumeState, identity_matches: bool) -> VerifyDecision {
    if state == VolumeState::Teardown || state == VolumeState::Destroyed {
        VerifyDecision::VolumeDismounted
    } else if state == VolumeState::Mounted && identity_matches {
        VerifyDecision::Success
    } else {
        VerifyDecision::InvalidTarget
    }
}

/// Decide a verify from what was read under the VPB lock.
pub fn decide_verify(state: VolumeState, identity_matches: bool) -> (decision: VerifyDecision)
    ensures
        decision == verify_decision(state, identity_matches),
{
    match state {
        VolumeState::Teardown | VolumeState::Destroyed => VerifyDecision::VolumeDismounted,
        VolumeState::Mounted => if identity_matches {
            VerifyDecision::Success
        } else {
            VerifyDecision::InvalidTarget
        },
        VolumeState::Staging | VolumeState::Active => VerifyDecision::InvalidTarget,
    }
}

/// The teardown of one published mount.
#[derive(Debug)]
pub struct DismountPlan {
    identity: SessionIdentity,
}

impl View for DismountPlan {
    type V = SessionIdentity;

    closed spec fn view(&self) -> SessionIdentity {
        self.identity
    }
}

impl DismountPlan {
    /// The effects of a dismount, in order.
    pub const EFFECTS: [DismountEffect; 7] = [
        DismountEffect::AcquireVpb,
        DismountEffect::ClearVpbBinding,
        DismountEffect::ReleaseVpb,
        DismountEffect::DeleteMountedDevice,
        DismountEffect::DeleteVdo,
        DismountEffect::RemoveRegistryEntry,
        DismountEffect::ReleaseSessionReference,
    ];

    /// The session being dismounted.
    pub fn identity(&self) -> (identity: SessionIdentity)
        ensures
            identity == self@,
    {
        self.identity
    }

    /// The effects of this dismount, in order.
    pub fn effects(&self) -> (effects: [DismountEffect; 7])
        ensures
            effects@ == Self::EFFECTS@,
    {
        Self::EFFECTS
    }
}

/// Turn the proof of a published mount into its teardown.
pub fn plan_dismount(volume: PublishedMount) -> (plan: DismountPlan)
    ensures
        plan@ == volume@,
{
    DismountPlan { identity: volume.identity }
}

/// How often `effect` is among the first `position` effects of a mount.
pub open spec fn times_done(effect: MountEffect, position: int) -> nat
    decreases position,
{
    if position <= 0 {
        0
    } else {
        times_done(effect, position - 1) + if mount_effect(position - 1) == effect {
            1nat
        } else {
            0nat
        }
    }
}

/// A rollback undoes exactly what the mount holds when it stops: each undo is
/// owed if and only if its acquisition is done (for the VPB lock, done more
/// often than its release), and no undo is owed twice.
pub proof fn law_rollback_undoes_what_is_held(position: int)
    requires
        0 <= position <= 12,
    ensures
        rollback_effects(position).no_duplicates(),
        rollback_effects(position).contains(MountRollbackEffect::ReleaseVpbIfHeld) <==> times_done(
            MountEffect::AcquireVpb,
            position,
        ) > times_done(MountEffect::ReleaseVpb, position),
        rollback_effects(position).contains(MountRollbackEffect::ClearUnpublishedVpbBinding)
            <==> times_done(MountEffect::BindVpb, position) > 0,
        rollback_effects(position).contains(MountRollbackEffect::FreeVcb) <==> times_done(
            MountEffect::AllocateVcb,
            position,
        ) > 0,
        rollback_effects(position).contains(MountRollbackEffect::DeleteMountedDevice)
            <==> times_done(MountEffect::CreateMountedDevice, position) > 0,
        rollback_effects(position).contains(MountRollbackEffect::ReleaseSessionReference)
            <==> times_done(MountEffect::AcquireSessionReference, position) > 0,
{
    reveal_with_fuel(times_done, 14);
    lemma_undo_contains(position, MountRollbackEffect::ReleaseVpbIfHeld);
    lemma_undo_contains(position, MountRollbackEffect::ClearUnpublishedVpbBinding);
    lemma_undo_contains(position, MountRollbackEffect::FreeVcb);
    lemma_undo_contains(position, MountRollbackEffect::DeleteMountedDevice);
    lemma_undo_contains(position, MountRollbackEffect::ReleaseSessionReference);
}

spec fn undo_owed(position: int, effect: MountRollbackEffect) -> bool {
    match effect {
        MountRollbackEffect::ClearUnpublishedVpbBinding => vpb_bound(position),
        MountRollbackEffect::ReleaseVpbIfHeld => vpb_held(position),
        MountRollbackEffect::FreeVcb => vcb_allocated(position),
        MountRollbackEffect::DeleteMountedDevice => device_created(position),
        MountRollbackEffect::ReleaseSessionReference => session_referenced(position),
    }
}

proof fn lemma_undo_contains(position: int, effect: MountRollbackEffect)
    requires
        0 <= position <= 12,
    ensures
        rollback_effects(position).contains(effect) <==> undo_owed(position, effect),
{
    let effects = rollback_effects(position);
    if undo_owed(position, effect) {
        let i: int = match effect {
            MountRollbackEffect::ClearUnpublishedVpbBinding => 0,
            MountRollbackEffect::ReleaseVpbIfHeld => if vpb_bound(position) { 1 } else { 0 },
            MountRollbackEffect::FreeVcb => effects.len() - 3,
            MountRollbackEffect::DeleteMountedDevice => effects.len() - 2,
            MountRollbackEffect::ReleaseSessionReference => effects.len() - 1,
        };
        assert(effects[i] == effect);
    }
}

/// A mount takes the VPB lock twice: to validate its target, and to bind. In
/// between it takes the session reference, creates the device, allocates the VCB
/// and initializes both. It revalidates, binds and marks the VPB mounted under the
/// second hold, publishes its owner after that, and exposes the device last.
pub proof fn law_mount_goes_in_this_order(position: int)
    requires
        0 <= position < mount_len(),
    ensures
        mount_len() == 14,
        ({
            let effect = mount_effect(position);
            &&& effect == MountEffect::AcquireVpb <==> position == 0 || position == 7
            &&& effect == MountEffect::ValidateTarget <==> position == 1
            &&& effect == MountEffect::ReleaseVpb <==> position == 2 || position == 11
            &&& effect == MountEffect::AcquireSessionReference <==> position == 3
            &&& effect == MountEffect::CreateMountedDevice <==> position == 4
            &&& effect == MountEffect::AllocateVcb <==> position == 5
            &&& effect == MountEffect::InitializeDeviceAndVcb <==> position == 6
            &&& effect == MountEffect::RevalidateTargetIdentityAdmissionAndBinding <==> position
                == 8
            &&& effect == MountEffect::BindVpb <==> position == 9
            &&& effect == MountEffect::SetVpbMounted <==> position == 10
            &&& effect == MountEffect::PublishMountOwner <==> position == 12
            &&& effect == MountEffect::ClearDeviceInitializing <==> position == 13
        }),
{
}

/// A mount goes on from its revalidation only with all four facts true, and from
/// any other effect only with a bare report: no fact may fail, and no observation
/// stands in for a report.
pub proof fn law_bind_needs_all_four_facts(position: int, facts: MountRevalidation)
    requires
        0 <= position < mount_len(),
    ensures
        ordinary_accepts(position, MountEffectOutcome::Revalidated(facts)) <==> position == 8
            && facts.target_identity_matches && facts.admission_open && facts.binding_unchanged
            && facts.session_active,
        ordinary_accepts(position, MountEffectOutcome::Done) <==> position != 8,
{
    law_mount_goes_in_this_order(position);
}

/// What a mount undoes stands in one order: the binding is cleared, the VPB lock
/// released, the VCB freed, the device deleted, and the session reference given
/// back last.
pub proof fn law_rollback_goes_in_this_order(position: int, i: int, j: int)
    requires
        0 <= i < j < rollback_effects(position).len(),
    ensures
        ({
            let earlier = rollback_effects(position)[i];
            let later = rollback_effects(position)[j];
            &&& later != MountRollbackEffect::ClearUnpublishedVpbBinding
            &&& earlier != MountRollbackEffect::ReleaseSessionReference
            &&& earlier == MountRollbackEffect::DeleteMountedDevice ==> later
                == MountRollbackEffect::ReleaseSessionReference
            &&& earlier == MountRollbackEffect::FreeVcb ==> later
                == MountRollbackEffect::DeleteMountedDevice || later
                == MountRollbackEffect::ReleaseSessionReference
            &&& later == MountRollbackEffect::ReleaseVpbIfHeld ==> earlier
                == MountRollbackEffect::ClearUnpublishedVpbBinding
        }),
{
}

/// How many effects are undone at each point of a mount, so that nothing is left
/// out and nothing is undone that was not done.
pub proof fn law_rollback_counts_what_is_held(position: int)
    ensures
        position == 0 || position == 3 ==> rollback_effects(position).len() == 0,
        position == 1 || position == 2 ==> rollback_effects(position)
            == seq![MountRollbackEffect::ReleaseVpbIfHeld],
        position == 4 ==> rollback_effects(position)
            == seq![MountRollbackEffect::ReleaseSessionReference],
        position == 5 ==> rollback_effects(position).len() == 2,
        position == 6 || position == 7 ==> rollback_effects(position).len() == 3,
        position == 8 || position == 9 ==> rollback_effects(position).len() == 4,
        position == 10 || position == 11 ==> rollback_effects(position).len() == 5,
        position == 12 ==> rollback_effects(position).len() == 4,
{
    assert(position == 1 || position == 2 ==> rollback_effects(position)
        =~= seq![MountRollbackEffect::ReleaseVpbIfHeld]);
    assert(position == 4 ==> rollback_effects(position)
        =~= seq![MountRollbackEffect::ReleaseSessionReference]);
}

/// A verify succeeds exactly on a mounted volume of the same identity. On one that
/// is being or was torn down the volume is dismounted, whatever the identity; on
/// every other it is no valid target.
pub proof fn law_verify_tells_three_cases_apart(state: VolumeState, identity_matches: bool)
    ensures
        ({
            let decision = verify_decision(state, identity_matches);
            let gone = state == VolumeState::Teardown || state == VolumeState::Destroyed;
            &&& decision == VerifyDecision::Success <==> state == VolumeState::Mounted
                && identity_matches
            &&& decision == VerifyDecision::VolumeDismounted <==> gone
            &&& decision == VerifyDecision::InvalidTarget <==> !gone && !(state
                == VolumeState::Mounted && identity_matches)
        }),
{
}

/// A dismount clears the binding under the VPB lock, then deletes the mounted
/// device and the volume device, then removes the registry entry, and releases the
/// session reference last.
pub proof fn law_dismount_goes_in_this_order(i: int)
    requires
        0 <= i < 7,
    ensures
        ({
            let effect = DismountPlan::EFFECTS@[i];
            &&& effect == DismountEffect::AcquireVpb <==> i == 0
            &&& effect == DismountEffect::ClearVpbBinding <==> i == 1
            &&& effect == DismountEffect::ReleaseVpb <==> i == 2
            &&& effect == DismountEffect::DeleteMountedDevice <==> i == 3
            &&& effect == DismountEffect::DeleteVdo <==> i == 4
            &&& effect == DismountEffect::RemoveRegistryEntry <==> i == 5
            &&& effect == DismountEffect::ReleaseSessionReference <==> i == 6
        }),
{
}

/// A mount begins exactly on an active volume whose target matches, at its first
/// effect. The state is refused first.
pub proof fn law_mount_begins_on_an_active_volume(
    state: VolumeState,
    identity: SessionIdentity,
    matches_target: bool,
    result: Result<MountProgress, VolumeError>,
)
    requires
        call_ensures(begin_mount, (state, identity, matches_target), result),
    ensures
        result is Ok <==> state == VolumeState::Active && matches_target,
        result matches Ok(progress) ==> progress is Effect && progress@.identity == identity
            && progress@.position == 0,
        result == Err::<MountProgress, _>(VolumeError::InvalidState) <==> state
            != VolumeState::Active,
        result == Err::<MountProgress, _>(VolumeError::TargetMismatch) <==> state
            == VolumeState::Active && !matches_target,
{
}

/// A verify is decided by the volume's state and its identity.
pub proof fn law_verify_is_decided_by_the_state(
    state: VolumeState,
    identity_matches: bool,
    decision: VerifyDecision,
)
    requires
        call_ensures(decide_verify, (state, identity_matches), decision),
    ensures
        ({
            let gone = state == VolumeState::Teardown || state == VolumeState::Destroyed;
            let same = state == VolumeState::Mounted && identity_matches;
            &&& decision == VerifyDecision::Success <==> same
            &&& decision == VerifyDecision::VolumeDismounted <==> gone
            &&& decision == VerifyDecision::InvalidTarget <==> !gone && !same
        }),
{
    law_verify_tells_three_cases_apart(state, identity_matches);
}

/// An effect that is answered as it should be takes the mount one effect on, for the
/// same session; any other answer, and a failure, unwind it where it stands.
pub proof fn law_mount_goes_on_or_unwinds(
    pending: PendingOrdinaryMountEffect,
    outcome: MountEffectOutcome,
    result: Result<MountProgress, MountRollback>,
    failed: MountRollback,
    effect: MountEffect,
)
    requires
        call_ensures(PendingOrdinaryMountEffect::succeeded, (pending, outcome), result),
        call_ensures(PendingOrdinaryMountEffect::failed, (pending,), failed),
        call_ensures(PendingOrdinaryMountEffect::effect, (&pending,), effect),
    ensures
        0 <= pending@.position < 12,
        ({
            let revalidates = pending@.position == 8;
            &&& result is Ok <==> if revalidates {
                outcome matches MountEffectOutcome::Revalidated(facts)
                    && facts.target_identity_matches && facts.admission_open
                    && facts.binding_unchanged && facts.session_active
            } else {
                outcome == MountEffectOutcome::Done
            }
            &&& effect == MountEffect::RevalidateTargetIdentityAdmissionAndBinding <==> revalidates
        }),
        result matches Ok(progress) ==> progress is Effect && progress@.position
            == pending@.position + 1 && progress@.identity == pending@.identity,
        result matches Err(rollback) ==> rollback@ == pending@,
        failed@ == pending@,
{
    law_mount_goes_in_this_order(pending@.position);
    match outcome {
        MountEffectOutcome::Revalidated(facts) => law_bind_needs_all_four_facts(
            pending@.position,
            facts,
        ),
        MountEffectOutcome::Done => law_bind_needs_all_four_facts(
            pending@.position,
            MountRevalidation {
                target_identity_matches: true,
                admission_open: true,
                binding_unchanged: true,
                session_active: true,
            },
        ),
    }
}

/// What a rollback undoes is what the mount holds where it stopped: the binding from
/// when it was made, the VPB lock while it is held, the VCB, the device and the
/// session reference from when they were taken.
pub proof fn law_stopped_mount_is_undone_by_these(
    rollback: MountRollback,
    effects: Vec<MountRollbackEffect>,
)
    requires
        call_ensures(MountRollback::effects, (&rollback,), effects),
        0 <= rollback@.position <= 12,
    ensures
        ({
            let at = rollback@.position;
            &&& at == 0 || at == 3 ==> effects@.len() == 0
            &&& at == 1 || at == 2 ==> effects@ == seq![MountRollbackEffect::ReleaseVpbIfHeld]
            &&& at == 4 ==> effects@ == seq![MountRollbackEffect::ReleaseSessionReference]
            &&& at == 5 ==> effects@ == seq![
                MountRollbackEffect::DeleteMountedDevice,
                MountRollbackEffect::ReleaseSessionReference,
            ]
            &&& at == 6 || at == 7 ==> effects@ == seq![
                MountRollbackEffect::FreeVcb,
                MountRollbackEffect::DeleteMountedDevice,
                MountRollbackEffect::ReleaseSessionReference,
            ]
            &&& at == 8 || at == 9 ==> effects@ == seq![
                MountRollbackEffect::ReleaseVpbIfHeld,
                MountRollbackEffect::FreeVcb,
                MountRollbackEffect::DeleteMountedDevice,
                MountRollbackEffect::ReleaseSessionReference,
            ]
            &&& at == 10 || at == 11 ==> effects@ == seq![
                MountRollbackEffect::ClearUnpublishedVpbBinding,
                MountRollbackEffect::ReleaseVpbIfHeld,
                MountRollbackEffect::FreeVcb,
                MountRollbackEffect::DeleteMountedDevice,
                MountRollbackEffect::ReleaseSessionReference,
            ]
            &&& at == 12 ==> effects@ == seq![
                MountRollbackEffect::ClearUnpublishedVpbBinding,
                MountRollbackEffect::FreeVcb,
                MountRollbackEffect::DeleteMountedDevice,
                MountRollbackEffect::ReleaseSessionReference,
            ]
        }),
{
    let at = rollback@.position;
    let undo = rollback_effects(at);
    law_rollback_counts_what_is_held(at);
    if at == 5 {
        assert(undo =~= seq![
            MountRollbackEffect::DeleteMountedDevice,
            MountRollbackEffect::ReleaseSessionReference,
        ]);
    } else if at == 6 || at == 7 {
        assert(undo =~= seq![
            MountRollbackEffect::FreeVcb,
            MountRollbackEffect::DeleteMountedDevice,
            MountRollbackEffect::ReleaseSessionReference,
        ]);
    } else if at == 8 || at == 9 {
        assert(undo =~= seq![
            MountRollbackEffect::ReleaseVpbIfHeld,
            MountRollbackEffect::FreeVcb,
            MountRollbackEffect::DeleteMountedDevice,
            MountRollbackEffect::ReleaseSessionReference,
        ]);
    } else if at == 10 || at == 11 {
        assert(undo =~= seq![
            MountRollbackEffect::ClearUnpublishedVpbBinding,
            MountRollbackEffect::ReleaseVpbIfHeld,
            MountRollbackEffect::FreeVcb,
            MountRollbackEffect::DeleteMountedDevice,
            MountRollbackEffect::ReleaseSessionReference,
        ]);
    } else if at == 12 {
        assert(undo =~= seq![
            MountRollbackEffect::ClearUnpublishedVpbBinding,
            MountRollbackEffect::FreeVcb,
            MountRollbackEffect::DeleteMountedDevice,
            MountRollbackEffect::ReleaseSessionReference,
        ]);
    }
}

/// A mount's publication and its last effect keep its session: what is published is
/// what was mounted, and what is dismounted is what was published, in seven steps.
pub proof fn law_mounted_session_is_kept(
    publish: PendingPublishMountOwner,
    progress: MountProgress,
    failed: MountRollback,
    clear: PendingClearDeviceInitializing,
    published: PublishedMount,
    plan: DismountPlan,
    effects: [DismountEffect; 7],
)
    requires
        call_ensures(PendingPublishMountOwner::published, (publish,), progress),
        call_ensures(PendingPublishMountOwner::failed, (publish,), failed),
        call_ensures(PendingClearDeviceInitializing::cleared, (clear,), published),
        call_ensures(plan_dismount, (published,), plan),
        call_ensures(DismountPlan::effects, (&plan,), effects),
    ensures
        progress is Effect,
        progress@.identity == publish@,
        progress@.position == 13,
        failed@.identity == publish@,
        failed@.position == 12,
        published@ == clear@,
        plan@ == clear@,
        effects@ == seq![
            DismountEffect::AcquireVpb,
            DismountEffect::ClearVpbBinding,
            DismountEffect::ReleaseVpb,
            DismountEffect::DeleteMountedDevice,
            DismountEffect::DeleteVdo,
            DismountEffect::RemoveRegistryEntry,
            DismountEffect::ReleaseSessionReference,
        ],
{
    assert(effects@ =~= seq![
        DismountEffect::AcquireVpb,
        DismountEffect::ClearVpbBinding,
        DismountEffect::ReleaseVpb,
        DismountEffect::DeleteMountedDevice,
        DismountEffect::DeleteVdo,
        DismountEffect::RemoveRegistryEntry,
        DismountEffect::ReleaseSessionReference,
    ]);
}

/// A mount's effect is prepared by where it stands: the last two apart from the
/// rest, each for its own session.
pub proof fn law_effect_is_prepared_by_its_place(
    pending: PendingMountEffect,
    prepared: PreparedMountEffect,
)
    requires
        call_ensures(PendingMountEffect::prepare, (pending,), prepared),
    ensures
        0 <= pending@.position < 14,
        prepared is PublishMountOwner <==> pending@.position == 12,
        prepared is ClearDeviceInitializing <==> pending@.position == 13,
        prepared matches PreparedMountEffect::Ordinary(ordinary) ==> ordinary@ == pending@,
        prepared matches PreparedMountEffect::PublishMountOwner(publish) ==> publish@
            == pending@.identity,
        prepared matches PreparedMountEffect::ClearDeviceInitializing(clear) ==> clear@
            == pending@.identity,
{
}

/// What is rolled back, published or dismounted names its own session.
pub proof fn law_volume_names_its_session(
    rollback: MountRollback,
    undone: SessionIdentity,
    mounted: PublishedMount,
    published: SessionIdentity,
    plan: DismountPlan,
    dismounted: SessionIdentity,
)
    requires
        call_ensures(MountRollback::identity, (&rollback,), undone),
        call_ensures(PublishedMount::identity, (&mounted,), published),
        call_ensures(plan_dismount, (mounted,), plan),
        call_ensures(DismountPlan::identity, (&plan,), dismounted),
    ensures
        undone == rollback@.identity,
        published == mounted@,
        dismounted == published,
{
}

} // verus!
