//! Which effects a path may perform under the locks it holds.
//!
//! A context says what a path holds and what its thread's top-level request is.
//! [`may_emit`] decides an effect in a context, a [`Guard`] holds a position for
//! a scope, and a [`Seam`] forwards an effect to its sink only if it is legal.

use core::marker::PhantomData;

use crate::lockrank::{may_acquire, HeldLocks, LockKind, LockOrderError, LockRank};
use crate::session::FenceEffect;
use crate::volume::{DismountEffect, MountEffect, MountRollbackEffect};
use vstd::prelude::*;

verus! {

/// What a wait waits for.
#[derive(Clone, Copy, Debug, PartialEq, Eq, Structural)]
pub enum WaitTarget {
    /// A round trip to the provider.
    ProviderRoundTrip,
    /// A resource that admission hands out.
    AdmissionResource,
    /// A rundown's drain.
    Rundown,
    /// A blocking resource.
    BlockingResource,
    /// The event of a session's terminal outcome.
    TerminalOutcomeEvent,
    /// The event that every joiner has left.
    JoinerDrainedEvent,
    /// The event that a deferred callback has left.
    PendingDpcExitEvent,
    /// The event that a mount is complete.
    MountCompletionEvent,
    /// The event that a mount's waiters have left.
    MountWaitersDrainedEvent,
    /// The event that a mount's reset is complete.
    MountResetCompleteEvent,
    /// The event that a reset's waiters have left.
    MountResetWaitersDrainedEvent,
}

/// What an allocation allocates.
#[derive(Clone, Copy, Debug, PartialEq, Eq, Structural)]
pub enum AllocTarget {
    /// Pool memory.
    Pool,
    /// A request identity.
    ReqId,
    /// A grant.
    Grant,
    /// A digest.
    Digest,
    /// A submission entry.
    Sqe,
}

/// The thread's top-level request.
#[derive(Clone, Copy, Debug, PartialEq, Eq, Structural)]
pub enum TopLevelContext {
    /// An ordinary request.
    Ordinary,
    /// The cache manager's sentinel, under which nothing may be waited for.
    CacheSentinel,
}

/// One effect a path performs.
#[derive(Clone, Copy, Debug, PartialEq, Eq, Structural)]
pub enum Effect {
    Wait(WaitTarget),
    Allocate(AllocTarget),
    Free,
    CopyUserBuffer,
    PrivilegeOrAccessCheck,
    NotificationCallback,
    CallProvider,
    CompleteIrp,
    SessionFence(FenceEffect),
    Mount(MountEffect),
    MountRollback(MountRollbackEffect),
    Dismount(DismountEffect),
}

/// Every wait target.
pub const ALL_WAIT_TARGETS: [WaitTarget; 11] = [
    WaitTarget::ProviderRoundTrip,
    WaitTarget::AdmissionResource,
    WaitTarget::Rundown,
    WaitTarget::BlockingResource,
    WaitTarget::TerminalOutcomeEvent,
    WaitTarget::JoinerDrainedEvent,
    WaitTarget::PendingDpcExitEvent,
    WaitTarget::MountCompletionEvent,
    WaitTarget::MountWaitersDrainedEvent,
    WaitTarget::MountResetCompleteEvent,
    WaitTarget::MountResetWaitersDrainedEvent,
];

/// Every allocation target.
pub const ALL_ALLOC_TARGETS: [AllocTarget; 5] = [
    AllocTarget::Pool,
    AllocTarget::ReqId,
    AllocTarget::Grant,
    AllocTarget::Digest,
    AllocTarget::Sqe,
];

/// Every effect of the session fence, in its order.
pub const ALL_FENCE_EFFECTS: [FenceEffect; 16] = [
    FenceEffect::CloseSessionAdmission,
    FenceEffect::SignalPendingEnter,
    FenceEffect::RemoveProducerMappingsReverse,
    FenceEffect::WaitProducerAndMappingCaptureRundown,
    FenceEffect::AcquireConsumersIncreasing,
    FenceEffect::DrainStablePrefixesBounded,
    FenceEffect::RetireCredits,
    FenceEffect::ReleaseConsumers,
    FenceEffect::QueueInstalledWork,
    FenceEffect::WaitPendingAndOwners,
    FenceEffect::WaitControlRundown,
    FenceEffect::ReleaseReadOnlyMappingsReverse,
    FenceEffect::ReleaseMdlsAndSystemView,
    FenceEffect::ReleaseCapturedProcess,
    FenceEffect::DismountAndDeleteDevices,
    FenceEffect::ReleaseTransientBacking,
];

/// Every mount effect.
pub const ALL_MOUNT_EFFECTS: [MountEffect; 12] = [
    MountEffect::AcquireVpb,
    MountEffect::ValidateTarget,
    MountEffect::AcquireSessionReference,
    MountEffect::ReleaseVpb,
    MountEffect::CreateMountedDevice,
    MountEffect::AllocateVcb,
    MountEffect::InitializeDeviceAndVcb,
    MountEffect::RevalidateTargetIdentityAdmissionAndBinding,
    MountEffect::BindVpb,
    MountEffect::SetVpbMounted,
    MountEffect::ClearDeviceInitializing,
    MountEffect::PublishMountOwner,
];

/// Every mount rollback effect.
pub const ALL_MOUNT_ROLLBACK_EFFECTS: [MountRollbackEffect; 5] = [
    MountRollbackEffect::ClearUnpublishedVpbBinding,
    MountRollbackEffect::FreeVcb,
    MountRollbackEffect::DeleteMountedDevice,
    MountRollbackEffect::ReleaseSessionReference,
    MountRollbackEffect::ReleaseVpbIfHeld,
];

/// Every dismount effect.
pub const ALL_DISMOUNT_EFFECTS: [DismountEffect; 7] = [
    DismountEffect::AcquireVpb,
    DismountEffect::ClearVpbBinding,
    DismountEffect::ReleaseVpb,
    DismountEffect::DeleteMountedDevice,
    DismountEffect::DeleteVdo,
    DismountEffect::RemoveRegistryEntry,
    DismountEffect::ReleaseSessionReference,
];

impl WaitTarget {
    /// The place of this value in its roster.
    pub open spec fn place(self) -> int {
        match self {
            WaitTarget::ProviderRoundTrip => 0,
            WaitTarget::AdmissionResource => 1,
            WaitTarget::Rundown => 2,
            WaitTarget::BlockingResource => 3,
            WaitTarget::TerminalOutcomeEvent => 4,
            WaitTarget::JoinerDrainedEvent => 5,
            WaitTarget::PendingDpcExitEvent => 6,
            WaitTarget::MountCompletionEvent => 7,
            WaitTarget::MountWaitersDrainedEvent => 8,
            WaitTarget::MountResetCompleteEvent => 9,
            WaitTarget::MountResetWaitersDrainedEvent => 10,
        }
    }

    /// The place of this value in [`ALL_WAIT_TARGETS`].
    pub fn index(self) -> (index: usize)
        ensures
            index == self.place(),
            index < ALL_WAIT_TARGETS@.len(),
            ALL_WAIT_TARGETS@[index as int] == self,
    {
        match self {
            WaitTarget::ProviderRoundTrip => 0,
            WaitTarget::AdmissionResource => 1,
            WaitTarget::Rundown => 2,
            WaitTarget::BlockingResource => 3,
            WaitTarget::TerminalOutcomeEvent => 4,
            WaitTarget::JoinerDrainedEvent => 5,
            WaitTarget::PendingDpcExitEvent => 6,
            WaitTarget::MountCompletionEvent => 7,
            WaitTarget::MountWaitersDrainedEvent => 8,
            WaitTarget::MountResetCompleteEvent => 9,
            WaitTarget::MountResetWaitersDrainedEvent => 10,
        }
    }
}

impl AllocTarget {
    /// The place of this value in its roster.
    pub open spec fn place(self) -> int {
        match self {
            AllocTarget::Pool => 0,
            AllocTarget::ReqId => 1,
            AllocTarget::Grant => 2,
            AllocTarget::Digest => 3,
            AllocTarget::Sqe => 4,
        }
    }

    /// The place of this value in [`ALL_ALLOC_TARGETS`].
    pub fn index(self) -> (index: usize)
        ensures
            index == self.place(),
            index < ALL_ALLOC_TARGETS@.len(),
            ALL_ALLOC_TARGETS@[index as int] == self,
    {
        match self {
            AllocTarget::Pool => 0,
            AllocTarget::ReqId => 1,
            AllocTarget::Grant => 2,
            AllocTarget::Digest => 3,
            AllocTarget::Sqe => 4,
        }
    }
}

impl FenceEffect {
    /// The place of this value in its roster.
    pub open spec fn place(self) -> int {
        match self {
            FenceEffect::CloseSessionAdmission => 0,
            FenceEffect::SignalPendingEnter => 1,
            FenceEffect::RemoveProducerMappingsReverse => 2,
            FenceEffect::WaitProducerAndMappingCaptureRundown => 3,
            FenceEffect::AcquireConsumersIncreasing => 4,
            FenceEffect::DrainStablePrefixesBounded => 5,
            FenceEffect::RetireCredits => 6,
            FenceEffect::ReleaseConsumers => 7,
            FenceEffect::QueueInstalledWork => 8,
            FenceEffect::WaitPendingAndOwners => 9,
            FenceEffect::WaitControlRundown => 10,
            FenceEffect::ReleaseReadOnlyMappingsReverse => 11,
            FenceEffect::ReleaseMdlsAndSystemView => 12,
            FenceEffect::ReleaseCapturedProcess => 13,
            FenceEffect::DismountAndDeleteDevices => 14,
            FenceEffect::ReleaseTransientBacking => 15,
        }
    }

    /// The place of this value in [`ALL_FENCE_EFFECTS`].
    pub fn index(self) -> (index: usize)
        ensures
            index == self.place(),
            index < ALL_FENCE_EFFECTS@.len(),
            ALL_FENCE_EFFECTS@[index as int] == self,
    {
        match self {
            FenceEffect::CloseSessionAdmission => 0,
            FenceEffect::SignalPendingEnter => 1,
            FenceEffect::RemoveProducerMappingsReverse => 2,
            FenceEffect::WaitProducerAndMappingCaptureRundown => 3,
            FenceEffect::AcquireConsumersIncreasing => 4,
            FenceEffect::DrainStablePrefixesBounded => 5,
            FenceEffect::RetireCredits => 6,
            FenceEffect::ReleaseConsumers => 7,
            FenceEffect::QueueInstalledWork => 8,
            FenceEffect::WaitPendingAndOwners => 9,
            FenceEffect::WaitControlRundown => 10,
            FenceEffect::ReleaseReadOnlyMappingsReverse => 11,
            FenceEffect::ReleaseMdlsAndSystemView => 12,
            FenceEffect::ReleaseCapturedProcess => 13,
            FenceEffect::DismountAndDeleteDevices => 14,
            FenceEffect::ReleaseTransientBacking => 15,
        }
    }
}

impl MountEffect {
    /// The place of this value in its roster.
    pub open spec fn place(self) -> int {
        match self {
            MountEffect::AcquireVpb => 0,
            MountEffect::ValidateTarget => 1,
            MountEffect::AcquireSessionReference => 2,
            MountEffect::ReleaseVpb => 3,
            MountEffect::CreateMountedDevice => 4,
            MountEffect::AllocateVcb => 5,
            MountEffect::InitializeDeviceAndVcb => 6,
            MountEffect::RevalidateTargetIdentityAdmissionAndBinding => 7,
            MountEffect::BindVpb => 8,
            MountEffect::SetVpbMounted => 9,
            MountEffect::ClearDeviceInitializing => 10,
            MountEffect::PublishMountOwner => 11,
        }
    }

    /// The place of this value in [`ALL_MOUNT_EFFECTS`].
    pub fn index(self) -> (index: usize)
        ensures
            index == self.place(),
            index < ALL_MOUNT_EFFECTS@.len(),
            ALL_MOUNT_EFFECTS@[index as int] == self,
    {
        match self {
            MountEffect::AcquireVpb => 0,
            MountEffect::ValidateTarget => 1,
            MountEffect::AcquireSessionReference => 2,
            MountEffect::ReleaseVpb => 3,
            MountEffect::CreateMountedDevice => 4,
            MountEffect::AllocateVcb => 5,
            MountEffect::InitializeDeviceAndVcb => 6,
            MountEffect::RevalidateTargetIdentityAdmissionAndBinding => 7,
            MountEffect::BindVpb => 8,
            MountEffect::SetVpbMounted => 9,
            MountEffect::ClearDeviceInitializing => 10,
            MountEffect::PublishMountOwner => 11,
        }
    }
}

impl MountRollbackEffect {
    /// The place of this value in its roster.
    pub open spec fn place(self) -> int {
        match self {
            MountRollbackEffect::ClearUnpublishedVpbBinding => 0,
            MountRollbackEffect::FreeVcb => 1,
            MountRollbackEffect::DeleteMountedDevice => 2,
            MountRollbackEffect::ReleaseSessionReference => 3,
            MountRollbackEffect::ReleaseVpbIfHeld => 4,
        }
    }

    /// The place of this value in [`ALL_MOUNT_ROLLBACK_EFFECTS`].
    pub fn index(self) -> (index: usize)
        ensures
            index == self.place(),
            index < ALL_MOUNT_ROLLBACK_EFFECTS@.len(),
            ALL_MOUNT_ROLLBACK_EFFECTS@[index as int] == self,
    {
        match self {
            MountRollbackEffect::ClearUnpublishedVpbBinding => 0,
            MountRollbackEffect::FreeVcb => 1,
            MountRollbackEffect::DeleteMountedDevice => 2,
            MountRollbackEffect::ReleaseSessionReference => 3,
            MountRollbackEffect::ReleaseVpbIfHeld => 4,
        }
    }
}

impl DismountEffect {
    /// The place of this value in its roster.
    pub open spec fn place(self) -> int {
        match self {
            DismountEffect::AcquireVpb => 0,
            DismountEffect::ClearVpbBinding => 1,
            DismountEffect::ReleaseVpb => 2,
            DismountEffect::DeleteMountedDevice => 3,
            DismountEffect::DeleteVdo => 4,
            DismountEffect::RemoveRegistryEntry => 5,
            DismountEffect::ReleaseSessionReference => 6,
        }
    }

    /// The place of this value in [`ALL_DISMOUNT_EFFECTS`].
    pub fn index(self) -> (index: usize)
        ensures
            index == self.place(),
            index < ALL_DISMOUNT_EFFECTS@.len(),
            ALL_DISMOUNT_EFFECTS@[index as int] == self,
    {
        match self {
            DismountEffect::AcquireVpb => 0,
            DismountEffect::ClearVpbBinding => 1,
            DismountEffect::ReleaseVpb => 2,
            DismountEffect::DeleteMountedDevice => 3,
            DismountEffect::DeleteVdo => 4,
            DismountEffect::RemoveRegistryEntry => 5,
            DismountEffect::ReleaseSessionReference => 6,
        }
    }
}

/// Every effect, grouped by what it is.
pub open spec fn effect_roster() -> Seq<Effect> {
    seq![
        Effect::Wait(WaitTarget::ProviderRoundTrip),
        Effect::Wait(WaitTarget::AdmissionResource),
        Effect::Wait(WaitTarget::Rundown),
        Effect::Wait(WaitTarget::BlockingResource),
        Effect::Wait(WaitTarget::TerminalOutcomeEvent),
        Effect::Wait(WaitTarget::JoinerDrainedEvent),
        Effect::Wait(WaitTarget::PendingDpcExitEvent),
        Effect::Wait(WaitTarget::MountCompletionEvent),
        Effect::Wait(WaitTarget::MountWaitersDrainedEvent),
        Effect::Wait(WaitTarget::MountResetCompleteEvent),
        Effect::Wait(WaitTarget::MountResetWaitersDrainedEvent),
        Effect::Allocate(AllocTarget::Pool),
        Effect::Allocate(AllocTarget::ReqId),
        Effect::Allocate(AllocTarget::Grant),
        Effect::Allocate(AllocTarget::Digest),
        Effect::Allocate(AllocTarget::Sqe),
        Effect::Free,
        Effect::CopyUserBuffer,
        Effect::PrivilegeOrAccessCheck,
        Effect::NotificationCallback,
        Effect::CallProvider,
        Effect::CompleteIrp,
        Effect::SessionFence(FenceEffect::CloseSessionAdmission),
        Effect::SessionFence(FenceEffect::SignalPendingEnter),
        Effect::SessionFence(FenceEffect::RemoveProducerMappingsReverse),
        Effect::SessionFence(FenceEffect::WaitProducerAndMappingCaptureRundown),
        Effect::SessionFence(FenceEffect::AcquireConsumersIncreasing),
        Effect::SessionFence(FenceEffect::DrainStablePrefixesBounded),
        Effect::SessionFence(FenceEffect::RetireCredits),
        Effect::SessionFence(FenceEffect::ReleaseConsumers),
        Effect::SessionFence(FenceEffect::QueueInstalledWork),
        Effect::SessionFence(FenceEffect::WaitPendingAndOwners),
        Effect::SessionFence(FenceEffect::WaitControlRundown),
        Effect::SessionFence(FenceEffect::ReleaseReadOnlyMappingsReverse),
        Effect::SessionFence(FenceEffect::ReleaseMdlsAndSystemView),
        Effect::SessionFence(FenceEffect::ReleaseCapturedProcess),
        Effect::SessionFence(FenceEffect::DismountAndDeleteDevices),
        Effect::SessionFence(FenceEffect::ReleaseTransientBacking),
        Effect::Mount(MountEffect::AcquireVpb),
        Effect::Mount(MountEffect::ValidateTarget),
        Effect::Mount(MountEffect::AcquireSessionReference),
        Effect::Mount(MountEffect::ReleaseVpb),
        Effect::Mount(MountEffect::CreateMountedDevice),
        Effect::Mount(MountEffect::AllocateVcb),
        Effect::Mount(MountEffect::InitializeDeviceAndVcb),
        Effect::Mount(MountEffect::RevalidateTargetIdentityAdmissionAndBinding),
        Effect::Mount(MountEffect::BindVpb),
        Effect::Mount(MountEffect::SetVpbMounted),
        Effect::Mount(MountEffect::ClearDeviceInitializing),
        Effect::Mount(MountEffect::PublishMountOwner),
        Effect::MountRollback(MountRollbackEffect::ClearUnpublishedVpbBinding),
        Effect::MountRollback(MountRollbackEffect::FreeVcb),
        Effect::MountRollback(MountRollbackEffect::DeleteMountedDevice),
        Effect::MountRollback(MountRollbackEffect::ReleaseSessionReference),
        Effect::MountRollback(MountRollbackEffect::ReleaseVpbIfHeld),
        Effect::Dismount(DismountEffect::AcquireVpb),
        Effect::Dismount(DismountEffect::ClearVpbBinding),
        Effect::Dismount(DismountEffect::ReleaseVpb),
        Effect::Dismount(DismountEffect::DeleteMountedDevice),
        Effect::Dismount(DismountEffect::DeleteVdo),
        Effect::Dismount(DismountEffect::RemoveRegistryEntry),
        Effect::Dismount(DismountEffect::ReleaseSessionReference),
    ]
}

/// The place of an effect in [`effect_roster`].
pub open spec fn effect_place(effect: Effect) -> int {
    match effect {
        Effect::Wait(target) => target.place(),
        Effect::Allocate(target) => 11 + target.place(),
        Effect::Free => 16,
        Effect::CopyUserBuffer => 17,
        Effect::PrivilegeOrAccessCheck => 18,
        Effect::NotificationCallback => 19,
        Effect::CallProvider => 20,
        Effect::CompleteIrp => 21,
        Effect::SessionFence(fence) => 22 + fence.place(),
        Effect::Mount(mount) => 38 + mount.place(),
        Effect::MountRollback(rollback) => 50 + rollback.place(),
        Effect::Dismount(dismount) => 55 + dismount.place(),
    }
}

/// Every effect, grouped by what it is.
pub fn all_effects() -> (effects: [Effect; 62])
    ensures
        effects@ == effect_roster(),
{
    let effects = [
        Effect::Wait(WaitTarget::ProviderRoundTrip),
        Effect::Wait(WaitTarget::AdmissionResource),
        Effect::Wait(WaitTarget::Rundown),
        Effect::Wait(WaitTarget::BlockingResource),
        Effect::Wait(WaitTarget::TerminalOutcomeEvent),
        Effect::Wait(WaitTarget::JoinerDrainedEvent),
        Effect::Wait(WaitTarget::PendingDpcExitEvent),
        Effect::Wait(WaitTarget::MountCompletionEvent),
        Effect::Wait(WaitTarget::MountWaitersDrainedEvent),
        Effect::Wait(WaitTarget::MountResetCompleteEvent),
        Effect::Wait(WaitTarget::MountResetWaitersDrainedEvent),
        Effect::Allocate(AllocTarget::Pool),
        Effect::Allocate(AllocTarget::ReqId),
        Effect::Allocate(AllocTarget::Grant),
        Effect::Allocate(AllocTarget::Digest),
        Effect::Allocate(AllocTarget::Sqe),
        Effect::Free,
        Effect::CopyUserBuffer,
        Effect::PrivilegeOrAccessCheck,
        Effect::NotificationCallback,
        Effect::CallProvider,
        Effect::CompleteIrp,
        Effect::SessionFence(FenceEffect::CloseSessionAdmission),
        Effect::SessionFence(FenceEffect::SignalPendingEnter),
        Effect::SessionFence(FenceEffect::RemoveProducerMappingsReverse),
        Effect::SessionFence(FenceEffect::WaitProducerAndMappingCaptureRundown),
        Effect::SessionFence(FenceEffect::AcquireConsumersIncreasing),
        Effect::SessionFence(FenceEffect::DrainStablePrefixesBounded),
        Effect::SessionFence(FenceEffect::RetireCredits),
        Effect::SessionFence(FenceEffect::ReleaseConsumers),
        Effect::SessionFence(FenceEffect::QueueInstalledWork),
        Effect::SessionFence(FenceEffect::WaitPendingAndOwners),
        Effect::SessionFence(FenceEffect::WaitControlRundown),
        Effect::SessionFence(FenceEffect::ReleaseReadOnlyMappingsReverse),
        Effect::SessionFence(FenceEffect::ReleaseMdlsAndSystemView),
        Effect::SessionFence(FenceEffect::ReleaseCapturedProcess),
        Effect::SessionFence(FenceEffect::DismountAndDeleteDevices),
        Effect::SessionFence(FenceEffect::ReleaseTransientBacking),
        Effect::Mount(MountEffect::AcquireVpb),
        Effect::Mount(MountEffect::ValidateTarget),
        Effect::Mount(MountEffect::AcquireSessionReference),
        Effect::Mount(MountEffect::ReleaseVpb),
        Effect::Mount(MountEffect::CreateMountedDevice),
        Effect::Mount(MountEffect::AllocateVcb),
        Effect::Mount(MountEffect::InitializeDeviceAndVcb),
        Effect::Mount(MountEffect::RevalidateTargetIdentityAdmissionAndBinding),
        Effect::Mount(MountEffect::BindVpb),
        Effect::Mount(MountEffect::SetVpbMounted),
        Effect::Mount(MountEffect::ClearDeviceInitializing),
        Effect::Mount(MountEffect::PublishMountOwner),
        Effect::MountRollback(MountRollbackEffect::ClearUnpublishedVpbBinding),
        Effect::MountRollback(MountRollbackEffect::FreeVcb),
        Effect::MountRollback(MountRollbackEffect::DeleteMountedDevice),
        Effect::MountRollback(MountRollbackEffect::ReleaseSessionReference),
        Effect::MountRollback(MountRollbackEffect::ReleaseVpbIfHeld),
        Effect::Dismount(DismountEffect::AcquireVpb),
        Effect::Dismount(DismountEffect::ClearVpbBinding),
        Effect::Dismount(DismountEffect::ReleaseVpb),
        Effect::Dismount(DismountEffect::DeleteMountedDevice),
        Effect::Dismount(DismountEffect::DeleteVdo),
        Effect::Dismount(DismountEffect::RemoveRegistryEntry),
        Effect::Dismount(DismountEffect::ReleaseSessionReference),
    ];
    assert(effects@ =~= effect_roster());
    effects
}

/// The roster of effects is complete and without repetition: each effect stands
/// in it at one place, its own.
pub proof fn law_every_effect_is_listed_once(effect: Effect, position: int)
    requires
        0 <= position < effect_roster().len(),
    ensures
        effect_roster().len() == 62,
        0 <= effect_place(effect) < effect_roster().len(),
        effect_roster()[effect_place(effect)] == effect,
        effect_roster()[position] == effect <==> position == effect_place(effect),
{
}

/// Every top-level context.
pub const ALL_CONTEXTS: [TopLevelContext; 2] = [
    TopLevelContext::Ordinary,
    TopLevelContext::CacheSentinel,
];

/// The fence's three waits for a rundown.
pub open spec fn is_fence_wait(effect: Effect) -> bool {
    ||| effect == Effect::SessionFence(FenceEffect::WaitProducerAndMappingCaptureRundown)
    ||| effect == Effect::SessionFence(FenceEffect::WaitPendingAndOwners)
    ||| effect == Effect::SessionFence(FenceEffect::WaitControlRundown)
}

/// The effect waits.
pub open spec fn waits(effect: Effect) -> bool {
    effect is Wait || is_fence_wait(effect)
}

/// The effect waits for a rundown to drain.
pub open spec fn drains_rundown(effect: Effect) -> bool {
    effect == Effect::Wait(WaitTarget::Rundown) || is_fence_wait(effect)
}

/// The target is the event of a terminal transition.
pub open spec fn is_lifecycle_target(target: WaitTarget) -> bool {
    match target {
        WaitTarget::ProviderRoundTrip
        | WaitTarget::AdmissionResource
        | WaitTarget::Rundown
        | WaitTarget::BlockingResource => false,
        _ => true,
    }
}

/// The effect waits for a terminal transition.
pub open spec fn waits_for_terminal(effect: Effect) -> bool {
    (effect matches Effect::Wait(target) && is_lifecycle_target(target)) || is_fence_wait(effect)
}

/// The position is a rundown, a role or a spin lock: a terminal transition has to
/// outlive it, so its holder may not wait for one.
pub open spec fn guards_terminal_wait(rank: LockRank) -> bool {
    match rank {
        LockRank::MountRundown
        | LockRank::ControlRundown
        | LockRank::SessionAccessRundown
        | LockRank::SetupAdmissionRundown
        | LockRank::ControlContextAdmissionRundown
        | LockRank::SqWaitRole
        | LockRank::CqConsumerToken => true,
        _ => rank.kind_of() == LockKind::SpinLock,
    }
}

/// Some held position is a rundown, a role or a spin lock.
pub open spec fn terminal_wait_guarded(held: Set<LockRank>) -> bool {
    exists|rank: LockRank| #[trigger] held.contains(rank) && guards_terminal_wait(rank)
}

/// Why a path may not perform an effect, if it may not: the first rule broken.
///
/// 1. Nothing is waited for under the cache sentinel.
/// 2. A request is completed only with nothing held.
/// 3. A terminal transition is not waited for under a rundown, role or spin lock.
/// 4. A completion-queue consumer does not wait.
/// 5. Nothing is allocated under the sequencer.
/// 6. No work is done under a spin lock or the push lock.
/// 7. No admission resource is waited for, and nothing allocated, under the size
///    gate; a provider round trip is legal there.
/// 8. No rundown is drained under an open's lifecycle gate.
/// 9. Under a sole-consumer token there is no wait, access check or callback.
pub open spec fn emit_refusal(
    held: Set<LockRank>,
    top_level: TopLevelContext,
    effect: Effect,
) -> Option<LockOrderError> {
    if top_level == TopLevelContext::CacheSentinel && waits(effect) {
        Some(LockOrderError::SyncWaitUnderCacheSentinel)
    } else if effect == Effect::CompleteIrp {
        if held == Set::<LockRank>::empty() {
            None
        } else {
            Some(LockOrderError::CompletionUnderLock)
        }
    } else if waits_for_terminal(effect) && terminal_wait_guarded(held) {
        Some(LockOrderError::LifecycleWaitUnderGuard)
    } else if held.contains(LockRank::CqConsumerToken) && waits(effect) {
        Some(LockOrderError::WaitUnderNoWaitRole)
    } else if held.contains(LockRank::Sequencer) && effect is Allocate {
        Some(LockOrderError::AllocationUnderSequencer)
    } else if crate::lockrank::holds_kind(held, LockKind::SpinLock)
        || crate::lockrank::holds_kind(held, LockKind::PushLock) {
        Some(LockOrderError::ActionUnderLock)
    } else if held.contains(LockRank::SizeGate) && (effect == Effect::Wait(
        WaitTarget::AdmissionResource,
    ) || effect is Allocate) {
        Some(LockOrderError::AdmissionUnderSizeGate)
    } else if held.contains(LockRank::PerOpenLifecycle) && drains_rundown(effect) {
        Some(LockOrderError::DrainUnderLifecycleGate)
    } else if held.contains(LockRank::SoleConsumerToken) && (waits(effect) || effect
        == Effect::PrivilegeOrAccessCheck || effect == Effect::NotificationCallback) {
        Some(LockOrderError::WorkUnderSoleConsumerToken)
    } else {
        None
    }
}

/// The effect waits.
pub fn is_wait(effect: Effect) -> (yes: bool)
    ensures
        yes <==> waits(effect),
{
    matches!(effect, Effect::Wait(_)) || matches!(
        effect,
        Effect::SessionFence(
            FenceEffect::WaitProducerAndMappingCaptureRundown
            | FenceEffect::WaitPendingAndOwners
            | FenceEffect::WaitControlRundown,
        )
    )
}

/// The effect waits for a rundown to drain.
pub fn is_rundown_wait(effect: Effect) -> (yes: bool)
    ensures
        yes <==> drains_rundown(effect),
{
    matches!(effect, Effect::Wait(WaitTarget::Rundown)) || matches!(
        effect,
        Effect::SessionFence(
            FenceEffect::WaitProducerAndMappingCaptureRundown
            | FenceEffect::WaitPendingAndOwners
            | FenceEffect::WaitControlRundown,
        )
    )
}

/// The effect waits for a terminal transition.
pub fn is_terminal_wait(effect: Effect) -> (yes: bool)
    ensures
        yes <==> waits_for_terminal(effect),
{
    matches!(
        effect,
        Effect::Wait(
            WaitTarget::TerminalOutcomeEvent
            | WaitTarget::JoinerDrainedEvent
            | WaitTarget::PendingDpcExitEvent
            | WaitTarget::MountCompletionEvent
            | WaitTarget::MountWaitersDrainedEvent
            | WaitTarget::MountResetCompleteEvent
            | WaitTarget::MountResetWaitersDrainedEvent,
        ) | Effect::SessionFence(
            FenceEffect::WaitProducerAndMappingCaptureRundown
            | FenceEffect::WaitPendingAndOwners
            | FenceEffect::WaitControlRundown,
        )
    )
}

/// Some held position is a rundown, a role or a spin lock.
pub fn holds_terminal_wait_guard(held: HeldLocks) -> (yes: bool)
    ensures
        yes <==> terminal_wait_guarded(held@),
{
    let yes = held.holds(LockRank::MountRundown) || held.holds(LockRank::ControlRundown)
        || held.holds(LockRank::SessionAccessRundown) || held.holds(
        LockRank::SetupAdmissionRundown,
    ) || held.holds(LockRank::ControlContextAdmissionRundown) || held.holds(LockRank::SqWaitRole)
        || held.holds(LockRank::CqConsumerToken) || held.holds_any_spin_lock();
    proof {
        if terminal_wait_guarded(held@) {
            let rank = choose|rank: LockRank| #[trigger]
                held@.contains(rank) && guards_terminal_wait(rank);
            assert(yes);
        }
        if crate::lockrank::holds_kind(held@, LockKind::SpinLock) {
            let rank = choose|rank: LockRank| #[trigger]
                held@.contains(rank) && rank.kind_of() == LockKind::SpinLock;
            assert(guards_terminal_wait(rank));
        }
    }
    yes
}

/// What a path holds, and its thread's top-level request. It cannot be copied:
/// a second one could claim a position that was given back.
#[derive(Debug, PartialEq, Eq, Structural)]
pub struct EffectContext {
    held: HeldLocks,
    top_level: TopLevelContext,
}

/// What a context claims.
pub struct ContextModel {
    pub held: Set<LockRank>,
    pub top_level: TopLevelContext,
}

impl View for EffectContext {
    type V = ContextModel;

    closed spec fn view(&self) -> ContextModel {
        ContextModel { held: self.held@, top_level: self.top_level }
    }
}

impl EffectContext {
    /// Claim that the path holds exactly `held`. The claim has to be true of the
    /// path: every verdict rests on it.
    pub fn assume_held(held: HeldLocks, top_level: TopLevelContext) -> (ctx: Self)
        ensures
            ctx@ == (ContextModel { held: held@, top_level }),
    {
        Self { held, top_level }
    }

    /// Claim that the path holds nothing, in an ordinary request. This is the
    /// claim that unlocks every rule.
    pub fn empty() -> (ctx: Self)
        ensures
            ctx@ == (ContextModel { held: Set::empty(), top_level: TopLevelContext::Ordinary }),
    {
        Self { held: HeldLocks::none(), top_level: TopLevelContext::Ordinary }
    }

    /// Claim that the path holds nothing, under the cache sentinel.
    pub fn empty_under_cache_sentinel() -> (ctx: Self)
        ensures
            ctx@ == (ContextModel {
                held: Set::empty(),
                top_level: TopLevelContext::CacheSentinel,
            }),
    {
        Self { held: HeldLocks::none(), top_level: TopLevelContext::CacheSentinel }
    }

    /// What the path holds.
    pub fn held(&self) -> (held: HeldLocks)
        ensures
            held@ == self@.held,
    {
        self.held
    }

    /// The thread's top-level request.
    pub fn top_level(&self) -> (top_level: TopLevelContext)
        ensures
            top_level == self@.top_level,
    {
        self.top_level
    }

    /// Take `position`, or refuse with the rule of the lock order that forbids it.
    /// Whatever the guard comes to hold is given back when it goes out of scope:
    /// this context is as it was once the guard is gone.
    pub fn acquire(&mut self, position: LockRank) -> (result: Result<Guard<'_>, LockOrderError>)
        ensures
            *final(self) == *old(self),
            guards(result, old(self)@, position),
    {
        guard_from(self, position)
    }

    /// Take `position` only if it is not held already. A held position is left to
    /// whoever holds it; otherwise this is [`EffectContext::acquire`], with its
    /// refusal.
    pub fn acquire_if_unheld(&mut self, position: LockRank) -> (result: Result<
        Guard<'_>,
        LockOrderError,
    >)
        ensures
            *final(self) == *old(self),
            if old(self)@.held.contains(position) {
                shares(result, old(self)@, position)
            } else {
                guards(result, old(self)@, position)
            },
    {
        if self.held.holds(position) {
            return Ok(guard_sharing(self, position));
        }
        guard_from(self, position)
    }
}

/// Taking `position` in a context that claims `ctx` came to `result`: a guard that
/// took it, in the context with the position held, or the rule that forbids it.
pub open spec fn guards(
    result: Result<Guard<'_>, LockOrderError>,
    ctx: ContextModel,
    position: LockRank,
) -> bool {
    let refusal = crate::lockrank::acquire_refusal(ctx.held, position);
    match result {
        Ok(guard) => {
            &&& refusal is None
            &&& guard@ == (GuardModel {
                ctx: ContextModel { held: ctx.held.insert(position), ..ctx },
                position,
                acquired: true,
            })
        },
        Err(error) => refusal == Some(error),
    }
}

/// `result` is a guard for `position` that took nothing, in the context `ctx` as
/// it is.
pub open spec fn shares(
    result: Result<Guard<'_>, LockOrderError>,
    ctx: ContextModel,
    position: LockRank,
) -> bool {
    &&& result matches Ok(guard)
    &&& guard@ == (GuardModel { ctx, position, acquired: false })
}

/// May a path in `ctx` perform `effect`?
pub fn may_emit(ctx: &EffectContext, effect: Effect) -> (result: Result<(), LockOrderError>)
    ensures
        match result {
            Ok(()) => emit_refusal(ctx@.held, ctx@.top_level, effect) is None,
            Err(error) => emit_refusal(ctx@.held, ctx@.top_level, effect) == Some(error),
        },
{
    if matches!(ctx.top_level, TopLevelContext::CacheSentinel) && is_wait(effect) {
        return Err(LockOrderError::SyncWaitUnderCacheSentinel);
    }
    if matches!(effect, Effect::CompleteIrp) {
        return if ctx.held.is_empty() {
            Ok(())
        } else {
            Err(LockOrderError::CompletionUnderLock)
        };
    }
    if is_terminal_wait(effect) && holds_terminal_wait_guard(ctx.held) {
        return Err(LockOrderError::LifecycleWaitUnderGuard);
    }
    if ctx.held.holds(LockRank::CqConsumerToken) && is_wait(effect) {
        return Err(LockOrderError::WaitUnderNoWaitRole);
    }
    if ctx.held.holds(LockRank::Sequencer) && matches!(effect, Effect::Allocate(_)) {
        return Err(LockOrderError::AllocationUnderSequencer);
    }
    if ctx.held.holds_any_spin_lock() || ctx.held.holds_push_lock() {
        return Err(LockOrderError::ActionUnderLock);
    }
    if ctx.held.holds(LockRank::SizeGate) && matches!(
        effect,
        Effect::Wait(WaitTarget::AdmissionResource) | Effect::Allocate(_)
    ) {
        return Err(LockOrderError::AdmissionUnderSizeGate);
    }
    if ctx.held.holds(LockRank::PerOpenLifecycle) && is_rundown_wait(effect) {
        return Err(LockOrderError::DrainUnderLifecycleGate);
    }
    if ctx.held.holds(LockRank::SoleConsumerToken) && (matches!(
        effect,
        Effect::Wait(_) | Effect::PrivilegeOrAccessCheck | Effect::NotificationCallback
    ) || is_wait(effect)) {
        return Err(LockOrderError::WorkUnderSoleConsumerToken);
    }
    Ok(())
}

/// The proof that the thread runs at dispatch level.
#[derive(Debug)]
pub struct Dispatch {
    at_dispatch_level: bool,
}

impl Dispatch {
    #[verifier::type_invariant]
    closed spec fn inv(self) -> bool {
        self.at_dispatch_level
    }
}

/// Ownership of one position for a scope.
///
/// A guard has a context of its own, which adds the position to what the context
/// it was taken in claims. It borrows that one, so that one is out of reach until
/// the guard is gone, and claims then what it claimed before: only what the guard
/// took is given back. A guard that found its position held took nothing.
#[must_use]
#[derive(Debug)]
pub struct Guard<'a> {
    ctx: EffectContext,
    position: LockRank,
    acquired: bool,
    outer: PhantomData<&'a mut EffectContext>,
}

/// What a guard holds: the context as it stands with the guard, the position the
/// guard is for, and whether the guard took it.
pub struct GuardModel {
    pub ctx: ContextModel,
    pub position: LockRank,
    pub acquired: bool,
}

impl<'a> View for Guard<'a> {
    type V = GuardModel;

    closed spec fn view(&self) -> GuardModel {
        GuardModel { ctx: self.ctx@, position: self.position, acquired: self.acquired }
    }
}

/// A guard that takes `position` in `ctx`, or the rule that forbids it.
fn guard_from<'a>(ctx: &'a EffectContext, position: LockRank) -> (result: Result<
    Guard<'a>,
    LockOrderError,
>)
    ensures
        guards(result, ctx@, position),
{
    match may_acquire(ctx.held, position) {
        Ok(()) => {},
        Err(error) => {
            return Err(error);
        },
    }
    Ok(
        Guard {
            ctx: EffectContext { held: ctx.held.acquire(position), top_level: ctx.top_level },
            position,
            acquired: true,
            outer: PhantomData,
        },
    )
}

/// A guard for a position that `ctx` holds already.
fn guard_sharing<'a>(ctx: &'a EffectContext, position: LockRank) -> (guard: Guard<'a>)
    ensures
        guard@ == (GuardModel { ctx: ctx@, position, acquired: false }),
{
    Guard {
        ctx: EffectContext { held: ctx.held, top_level: ctx.top_level },
        position,
        acquired: false,
        outer: PhantomData,
    }
}

impl<'a> Drop for Guard<'a> {
    /// The end of the scope is the end of the hold: with a destructor the borrow
    /// lasts until there, and not only to the guard's last use.
    fn drop(&mut self)
        ensures
            *final(self) == *old(self),
        opens_invariants none
        no_unwind
    {
    }
}

impl<'a> Guard<'a> {
    /// The context as it stands with this guard held.
    pub fn context(&self) -> (ctx: &EffectContext)
        ensures
            ctx@ == self@.ctx,
    {
        &self.ctx
    }

    /// Whether this guard took its position.
    pub fn acquired_for_test(&self) -> (acquired: bool)
        ensures
            acquired == self@.acquired,
    {
        self.acquired
    }

    /// Take a further position while holding this one. This guard is out of reach
    /// until the inner one is gone, and holds then what it held before.
    pub fn acquire<'b>(&'b mut self, position: LockRank) -> (result: Result<
        Guard<'b>,
        LockOrderError,
    >)
        ensures
            *final(self) == *old(self),
            guards(result, old(self)@.ctx, position),
    {
        guard_from(&self.ctx, position)
    }

    /// Take a further position only if it is not held already.
    pub fn acquire_if_unheld<'b>(&'b mut self, position: LockRank) -> (result: Result<
        Guard<'b>,
        LockOrderError,
    >)
        ensures
            *final(self) == *old(self),
            if old(self)@.ctx.held.contains(position) {
                shares(result, old(self)@.ctx, position)
            } else {
                guards(result, old(self)@.ctx, position)
            },
    {
        if self.ctx.held.holds(position) {
            return Ok(guard_sharing(&self.ctx, position));
        }
        guard_from(&self.ctx, position)
    }

    /// Perform `effect` through `seam`, in this guard's context.
    pub fn emit<S: EffectSink>(&self, seam: &mut Seam<S>, effect: Effect) -> (result: Result<
        (),
        LockOrderError,
    >)
        ensures
            emitted(*old(seam), *final(seam), self@.ctx, effect, result),
    {
        seam.emit(&self.ctx, effect)
    }

    /// The proof of dispatch level that a spin lock's guard gives; no other
    /// position raises the level.
    pub fn dispatch_token(&self) -> (token: Option<Dispatch>)
        ensures
            token is Some <==> self@.position.kind_of() == LockKind::SpinLock,
    {
        if matches!(self.position.kind(), LockKind::SpinLock) {
            Some(Dispatch { at_dispatch_level: true })
        } else {
            None
        }
    }
}

/// Who performs effects. An implementor's `performed` is what it performed,
/// oldest first; it performs exactly the effect it is given.
pub trait EffectSink {
    /// The effects performed so far.
    ///
    /// A verified implementor overrides this: with the default, which never
    /// grows, nothing meets the contract of `emit`. Code that is not verified may
    /// leave it, since it is never run; that code has to keep the contract by
    /// itself.
    open spec fn performed(&self) -> Seq<Effect> {
        Seq::empty()
    }

    /// Perform `effect`.
    fn emit(&mut self, effect: Effect)
        ensures
            final(self).performed() == old(self).performed().push(effect),
    ;
}

/// A boundary that only legal effects cross. It may keep a record of them, in
/// the order they were issued.
#[derive(Debug)]
pub struct Seam<S: EffectSink> {
    sink: S,
    log: Option<Vec<(HeldLocks, TopLevelContext, Effect)>>,
}

impl<S: EffectSink> View for Seam<S> {
    type V = Seq<Effect>;

    /// The effects that crossed.
    closed spec fn view(&self) -> Seq<Effect> {
        self.sink.performed()
    }
}

/// An entry of a record: the context an effect was issued in, and the effect.
pub open spec fn entry_model(entry: (HeldLocks, TopLevelContext, Effect)) -> (
    ContextModel,
    Effect,
) {
    (ContextModel { held: entry.0@, top_level: entry.1 }, entry.2)
}

/// The record with one more entry, where a record is kept.
pub open spec fn noted(
    record: Option<Seq<(ContextModel, Effect)>>,
    ctx: ContextModel,
    effect: Effect,
) -> Option<Seq<(ContextModel, Effect)>> {
    match record {
        Some(entries) => Some(entries.push((ctx, effect))),
        None => None,
    }
}

/// A legal effect crossed the seam and was recorded, or an illegal one was
/// refused and did neither.
pub open spec fn emitted<S: EffectSink>(
    before: Seam<S>,
    after: Seam<S>,
    ctx: ContextModel,
    effect: Effect,
    result: Result<(), LockOrderError>,
) -> bool {
    match result {
        Ok(()) => {
            &&& emit_refusal(ctx.held, ctx.top_level, effect) is None
            &&& after@ == before@.push(effect)
            &&& after.record() == noted(before.record(), ctx, effect)
        },
        Err(error) => {
            &&& emit_refusal(ctx.held, ctx.top_level, effect) == Some(error)
            &&& after == before
        },
    }
}

impl<S: EffectSink> Seam<S> {
    /// The sink behind the seam.
    pub closed spec fn sink(self) -> S {
        self.sink
    }

    /// What was issued at the seam, oldest first, where a record is kept.
    pub closed spec fn record(self) -> Option<Seq<(ContextModel, Effect)>> {
        match self.log {
            Some(log) => Some(log@.map_values(|entry| entry_model(entry))),
            None => None,
        }
    }

    /// Put a seam before a sink, without a record.
    pub fn new(sink: S) -> (seam: Self)
        ensures
            seam.sink() == sink,
            seam@ == sink.performed(),
            seam.record() is None,
    {
        Self { sink, log: None }
    }

    /// Put a seam before a sink, with an empty record.
    pub fn recording(sink: S) -> (seam: Self)
        ensures
            seam.sink() == sink,
            seam@ == sink.performed(),
            seam.record() == Some(Seq::<(ContextModel, Effect)>::empty()),
    {
        let log: Vec<(HeldLocks, TopLevelContext, Effect)> = Vec::new();
        let seam = Self { sink, log: Some(log) };
        assert(seam.record()->0 =~= Seq::empty());
        seam
    }

    /// The record, oldest entry first; empty where none is kept.
    pub fn entries(&self) -> (entries: Vec<(HeldLocks, TopLevelContext, Effect)>)
        ensures
            match self.record() {
                Some(record) => entries@.map_values(|entry| entry_model(entry)) == record,
                None => entries@.len() == 0,
            },
    {
        let mut entries: Vec<(HeldLocks, TopLevelContext, Effect)> = Vec::new();
        match &self.log {
            Some(log) => {
                let mut next: usize = 0;
                while next < log.len()
                    invariant
                        next <= log.len(),
                        entries@ == log@.subrange(0, next as int),
                    decreases log.len() - next,
                {
                    entries.push(log[next]);
                    next += 1;
                }
                assert(entries@ =~= log@);
            },
            None => {},
        }
        entries
    }

    /// Note a legal effect, where a record is kept.
    fn note(&mut self, ctx: &EffectContext, effect: Effect)
        ensures
            final(self).sink() == old(self).sink(),
            final(self).record() == noted(old(self).record(), ctx@, effect),
    {
        match &mut self.log {
            Some(log) => {
                let ghost before = log@;
                log.push((ctx.held, ctx.top_level, effect));
                proof {
                    let entry = |entry: (HeldLocks, TopLevelContext, Effect)| entry_model(entry);
                    assert(log@.map_values(entry) =~= before.map_values(entry).push((ctx@, effect)));
                }
            },
            None => {},
        }
    }

    /// Perform `effect` if it is legal in `ctx`.
    pub fn emit(&mut self, ctx: &EffectContext, effect: Effect) -> (result: Result<
        (),
        LockOrderError,
    >)
        ensures
            emitted(*old(self), *final(self), ctx@, effect, result),
    {
        match may_emit(ctx, effect) {
            Ok(()) => {},
            Err(error) => {
                return Err(error);
            },
        }
        self.note(ctx, effect);
        self.sink.emit(effect);
        Ok(())
    }

    /// Permit a completion in `ctx`, which stays as it is while the permission
    /// is out. A granted permission is recorded as the completion; a refusal
    /// changes nothing.
    pub fn clear_completion<'a>(&mut self, ctx: &'a EffectContext) -> (result: Result<
        CompletionClearance<'a>,
        LockOrderError,
    >)
        ensures
            final(self).sink() == old(self).sink(),
            final(self)@ == old(self)@,
            match result {
                Ok(clearance) => {
                    &&& ctx@.held == Set::<LockRank>::empty()
                    &&& clearance@ == ctx@
                    &&& final(self).record() == noted(
                        old(self).record(),
                        ctx@,
                        Effect::CompleteIrp,
                    )
                },
                Err(error) => {
                    &&& error == LockOrderError::CompletionUnderLock
                    &&& ctx@.held != Set::<LockRank>::empty()
                    &&& *final(self) == *old(self)
                },
            },
    {
        match checked(ctx) {
            Ok(clearance) => {
                self.note(ctx, Effect::CompleteIrp);
                Ok(clearance)
            },
            Err(error) => Err(error),
        }
    }

    /// The sink behind the seam.
    pub fn sink_for_test(&self) -> (sink: &S)
        ensures
            *sink == self.sink(),
            self@ == sink.performed(),
    {
        &self.sink
    }
}

/// The permission to complete a request in one context. It borrows the context,
/// so nothing can be taken on it meanwhile.
#[derive(Debug)]
pub struct CompletionClearance<'a> {
    ctx: &'a EffectContext,
}

impl<'a> View for CompletionClearance<'a> {
    type V = ContextModel;

    closed spec fn view(&self) -> ContextModel {
        self.ctx@
    }
}

/// Permit a completion in a context that holds nothing.
pub fn checked<'a>(ctx: &'a EffectContext) -> (result: Result<
    CompletionClearance<'a>,
    LockOrderError,
>)
    ensures
        match result {
            Ok(clearance) => ctx@.held == Set::<LockRank>::empty() && clearance@ == ctx@,
            Err(error) => {
                &&& error == LockOrderError::CompletionUnderLock
                &&& ctx@.held != Set::<LockRank>::empty()
            },
        },
{
    match may_emit(ctx, Effect::CompleteIrp) {
        Ok(()) => Ok(CompletionClearance { ctx }),
        Err(error) => Err(error),
    }
}

/// A request is completed only with nothing held, whatever the top-level request.
pub proof fn law_completion_needs_nothing_held(held: Set<LockRank>, top_level: TopLevelContext)
    ensures
        emit_refusal(held, top_level, Effect::CompleteIrp) is None <==> held == Set::<
            LockRank,
        >::empty(),
{
}

/// Holding more never permits more.
pub proof fn law_holding_more_permits_no_more(
    held: Set<LockRank>,
    more: Set<LockRank>,
    top_level: TopLevelContext,
    effect: Effect,
)
    requires
        held.subset_of(more),
        emit_refusal(held, top_level, effect) is Some,
    ensures
        emit_refusal(more, top_level, effect) is Some,
{
    if held != Set::<LockRank>::empty() {
        let rank = choose|rank: LockRank| held.contains(rank);
        if forall|rank: LockRank| !held.contains(rank) {
            assert(held =~= Set::empty());
        }
        assert(more.contains(rank));
        assert(more != Set::<LockRank>::empty());
    }
    if terminal_wait_guarded(held) {
        let rank = choose|rank: LockRank| #[trigger]
            held.contains(rank) && guards_terminal_wait(rank);
        assert(more.contains(rank));
    }
    if crate::lockrank::holds_kind(held, LockKind::SpinLock) {
        let rank = choose|rank: LockRank| #[trigger]
            held.contains(rank) && rank.kind_of() == LockKind::SpinLock;
        assert(more.contains(rank));
    }
    if crate::lockrank::holds_kind(held, LockKind::PushLock) {
        let rank = choose|rank: LockRank| #[trigger]
            held.contains(rank) && rank.kind_of() == LockKind::PushLock;
        assert(more.contains(rank));
    }
}

/// Under every rundown, role or spin lock a terminal wait is refused, and for
/// that reason.
pub proof fn law_terminal_wait_is_refused_under_every_guard(
    held: Set<LockRank>,
    guard: LockRank,
    effect: Effect,
)
    requires
        held.contains(guard),
        guards_terminal_wait(guard),
        waits_for_terminal(effect),
    ensures
        emit_refusal(held, TopLevelContext::Ordinary, effect) == Some(
            LockOrderError::LifecycleWaitUnderGuard,
        ),
{
}

/// Where only ring and session positions are held, four rules decide: completion
/// needs nothing held, a terminal wait needs no such position, a consumer does
/// not wait, and nothing is done under a spin lock.
pub proof fn law_ring_positions_decide_by_four_rules(held: Set<LockRank>, effect: Effect)
    requires
        forall|rank: LockRank| #[trigger]
            held.contains(rank) ==> crate::lockrank::is_ring_position(rank),
    ensures
        emit_refusal(held, TopLevelContext::Ordinary, effect) == (if effect == Effect::CompleteIrp {
            if held == Set::<LockRank>::empty() {
                None
            } else {
                Some(LockOrderError::CompletionUnderLock)
            }
        } else if waits_for_terminal(effect) && held != Set::<LockRank>::empty() {
            Some(LockOrderError::LifecycleWaitUnderGuard)
        } else if waits(effect) && held.contains(LockRank::CqConsumerToken) {
            Some(LockOrderError::WaitUnderNoWaitRole)
        } else if crate::lockrank::holds_kind(held, LockKind::SpinLock) {
            Some(LockOrderError::ActionUnderLock)
        } else {
            None
        }),
{
    if held != Set::<LockRank>::empty() {
        if forall|rank: LockRank| !held.contains(rank) {
            assert(held =~= Set::empty());
        }
        let rank = choose|rank: LockRank| held.contains(rank);
        assert(held.contains(rank) && guards_terminal_wait(rank));
    }
    if crate::lockrank::holds_kind(held, LockKind::PushLock) {
        let rank = choose|rank: LockRank| #[trigger]
            held.contains(rank) && rank.kind_of() == LockKind::PushLock;
        assert(crate::lockrank::is_ring_position(rank));
    }
}

/// The size gate spans a provider round trip: holding it as well never makes one
/// illegal. Waiting for an admission resource under it is always refused.
pub proof fn law_size_gate_spans_a_provider_round_trip(
    held: Set<LockRank>,
    top_level: TopLevelContext,
)
    ensures
        emit_refusal(held, top_level, Effect::Wait(WaitTarget::ProviderRoundTrip)) is None
            ==> emit_refusal(
            held.insert(LockRank::SizeGate),
            top_level,
            Effect::Wait(WaitTarget::ProviderRoundTrip),
        ) is None,
        emit_refusal(
            held.insert(LockRank::SizeGate),
            top_level,
            Effect::Wait(WaitTarget::AdmissionResource),
        ) is Some,
{
}

/// A guard that took a position adds that position to its context and nothing
/// else. It was not held before, so without it the context is the one the guard
/// was taken in.
pub proof fn law_guard_adds_only_its_position(
    result: Result<Guard<'_>, LockOrderError>,
    ctx: ContextModel,
    position: LockRank,
)
    requires
        guards(result, ctx, position),
        result is Ok,
    ensures
        ({
            let during = result->Ok_0@.ctx;
            &&& !ctx.held.contains(position)
            &&& during.held.contains(position)
            &&& ContextModel { held: during.held.remove(position), ..during } == ctx
        }),
{
    crate::lockrank::law_admitted_position_is_given_back(ctx.held, position);
    assert(ctx.held.insert(position).contains(position));
}

/// A conditional guard always has its position held, and accounts for exactly
/// what it took: the position where it was not held, and nothing where it was.
pub proof fn law_conditional_guard_accounts_for_what_it_took(
    result: Result<Guard<'_>, LockOrderError>,
    ctx: ContextModel,
    position: LockRank,
)
    requires
        if ctx.held.contains(position) {
            shares(result, ctx, position)
        } else {
            guards(result, ctx, position)
        },
        result is Ok,
    ensures
        ({
            let guard = result->Ok_0@;
            &&& guard.ctx.held.contains(position)
            &&& guard.acquired <==> !ctx.held.contains(position)
            &&& ctx == (if guard.acquired {
                ContextModel { held: guard.ctx.held.remove(position), ..guard.ctx }
            } else {
                guard.ctx
            })
        }),
{
    if !ctx.held.contains(position) {
        law_guard_adds_only_its_position(result, ctx, position);
    }
}

/// No effect at all is legal while the push lock is held, whatever else is held
/// and whatever the top-level request is. Alone in an ordinary request it refuses
/// everything but a completion as work under a lock.
pub proof fn law_nothing_is_done_under_the_push_lock(
    held: Set<LockRank>,
    top_level: TopLevelContext,
    effect: Effect,
)
    requires
        held.contains(LockRank::NotificationState),
    ensures
        emit_refusal(held, top_level, effect) is Some,
        held == Set::<LockRank>::empty().insert(LockRank::NotificationState) && top_level
            == TopLevelContext::Ordinary ==> emit_refusal(held, top_level, effect) == Some(
            if effect == Effect::CompleteIrp {
                LockOrderError::CompletionUnderLock
            } else {
                LockOrderError::ActionUnderLock
            },
        ),
{
    assert(LockRank::NotificationState.kind_of() == LockKind::PushLock);
    assert(crate::lockrank::holds_kind(held, LockKind::PushLock));
    assert(held != Set::<LockRank>::empty());
    if held == Set::<LockRank>::empty().insert(LockRank::NotificationState) {
        assert forall|rank: LockRank| held.contains(rank) implies rank
            == LockRank::NotificationState by {}
        assert(!terminal_wait_guarded(held));
    }
}

/// No effect at all is legal under any of the eight spin locks, whatever else is
/// held and whatever the top-level request is. Alone in an ordinary request each
/// refuses a completion as such, a terminal wait as a wait under a guard, an
/// allocation under the sequencer as that, and everything else as work under a
/// lock.
pub proof fn law_nothing_is_done_under_a_spin_lock(
    held: Set<LockRank>,
    spin: LockRank,
    top_level: TopLevelContext,
    effect: Effect,
)
    requires
        spin == LockRank::Sequencer || spin == LockRank::AdvanceOnlyCsq || spin
            == LockRank::NotifyCsq || spin == LockRank::RegistrySpin || spin == LockRank::CancelSpin
            || spin == LockRank::VpbSpin || spin == LockRank::RingSpin || spin
            == LockRank::GrantSpin,
        held.contains(spin),
    ensures
        emit_refusal(held, top_level, effect) is Some,
        held == Set::<LockRank>::empty().insert(spin) && top_level == TopLevelContext::Ordinary
            ==> emit_refusal(held, top_level, effect) == Some(
            if effect == Effect::CompleteIrp {
                LockOrderError::CompletionUnderLock
            } else if waits_for_terminal(effect) {
                LockOrderError::LifecycleWaitUnderGuard
            } else if spin == LockRank::Sequencer && effect is Allocate {
                LockOrderError::AllocationUnderSequencer
            } else {
                LockOrderError::ActionUnderLock
            },
        ),
{
    assert(spin.kind_of() == LockKind::SpinLock);
    assert(crate::lockrank::holds_kind(held, LockKind::SpinLock));
    assert(held.contains(spin) && guards_terminal_wait(spin));
    assert(held != Set::<LockRank>::empty());
    if held == Set::<LockRank>::empty().insert(spin) {
        assert(!held.contains(LockRank::CqConsumerToken));
    }
}

/// What waits: every wait, and the three waits of a session's fence. Of these the
/// fence's and a rundown's drain a rundown, and the fence's and the seven events'
/// are for a terminal transition.
pub proof fn law_what_waits_and_for_what(effect: Effect)
    ensures
        ({
            let fence = effect == Effect::SessionFence(
                FenceEffect::WaitProducerAndMappingCaptureRundown,
            ) || effect == Effect::SessionFence(FenceEffect::WaitPendingAndOwners) || effect
                == Effect::SessionFence(FenceEffect::WaitControlRundown);
            let event = effect == Effect::Wait(WaitTarget::TerminalOutcomeEvent) || effect
                == Effect::Wait(WaitTarget::JoinerDrainedEvent) || effect == Effect::Wait(
                WaitTarget::PendingDpcExitEvent,
            ) || effect == Effect::Wait(WaitTarget::MountCompletionEvent) || effect == Effect::Wait(
                WaitTarget::MountWaitersDrainedEvent,
            ) || effect == Effect::Wait(WaitTarget::MountResetCompleteEvent) || effect
                == Effect::Wait(WaitTarget::MountResetWaitersDrainedEvent);
            &&& waits(effect) <==> effect is Wait || fence
            &&& drains_rundown(effect) <==> effect == Effect::Wait(WaitTarget::Rundown) || fence
            &&& waits_for_terminal(effect) <==> event || fence
        }),
{
}

/// A terminal wait is refused as such under exactly these positions: the five
/// rundowns, the two roles and the eight spin locks.
pub proof fn law_what_guards_a_terminal_wait(held: Set<LockRank>, effect: Effect)
    requires
        waits_for_terminal(effect),
    ensures
        emit_refusal(held, TopLevelContext::Ordinary, effect) == Some(
            LockOrderError::LifecycleWaitUnderGuard,
        ) <==> {
            ||| held.contains(LockRank::MountRundown)
            ||| held.contains(LockRank::ControlRundown)
            ||| held.contains(LockRank::SessionAccessRundown)
            ||| held.contains(LockRank::SetupAdmissionRundown)
            ||| held.contains(LockRank::ControlContextAdmissionRundown)
            ||| held.contains(LockRank::SqWaitRole)
            ||| held.contains(LockRank::CqConsumerToken)
            ||| held.contains(LockRank::Sequencer)
            ||| held.contains(LockRank::AdvanceOnlyCsq)
            ||| held.contains(LockRank::NotifyCsq)
            ||| held.contains(LockRank::RegistrySpin)
            ||| held.contains(LockRank::CancelSpin)
            ||| held.contains(LockRank::VpbSpin)
            ||| held.contains(LockRank::RingSpin)
            ||| held.contains(LockRank::GrantSpin)
        },
{
    if terminal_wait_guarded(held) {
        let rank = choose|rank: LockRank| #[trigger]
            held.contains(rank) && guards_terminal_wait(rank);
        assert(held.contains(rank) && guards_terminal_wait(rank));
    }
    assert(LockRank::Sequencer.kind_of() == LockKind::SpinLock);
    assert(guards_terminal_wait(LockRank::AdvanceOnlyCsq));
    assert(guards_terminal_wait(LockRank::NotifyCsq));
    assert(guards_terminal_wait(LockRank::RegistrySpin));
    assert(guards_terminal_wait(LockRank::CancelSpin));
    assert(guards_terminal_wait(LockRank::VpbSpin));
    assert(guards_terminal_wait(LockRank::RingSpin));
    assert(guards_terminal_wait(LockRank::GrantSpin));
}

/// Under the cache sentinel nothing is waited for, whatever is held; any other
/// effect is decided as in an ordinary request.
pub proof fn law_cache_sentinel_refuses_waits_alone(held: Set<LockRank>, effect: Effect)
    ensures
        waits(effect) ==> emit_refusal(held, TopLevelContext::CacheSentinel, effect) == Some(
            LockOrderError::SyncWaitUnderCacheSentinel,
        ),
        !waits(effect) ==> emit_refusal(held, TopLevelContext::CacheSentinel, effect)
            == emit_refusal(held, TopLevelContext::Ordinary, effect),
        emit_refusal(held, TopLevelContext::Ordinary, effect) != Some(
            LockOrderError::SyncWaitUnderCacheSentinel,
        ),
{
}

/// With nothing held, every effect of an ordinary request is legal.
pub proof fn law_nothing_held_permits_everything(effect: Effect)
    ensures
        emit_refusal(Set::<LockRank>::empty(), TopLevelContext::Ordinary, effect) is None,
{
    assert(!terminal_wait_guarded(Set::<LockRank>::empty()));
}

/// What is refused without a spin lock or the push lock in hand, in an ordinary
/// request. A completion is refused whenever anything is held. Of the rest, a
/// terminal wait is refused under a rundown or a role; any wait under the
/// consuming role; waiting for an admission resource, and allocating, under the
/// size gate; draining a rundown under an open's lifecycle gate; and waits, access
/// checks and callbacks under a sole-consumer token. All else is legal, and the
/// first of these that holds is the answer.
pub proof fn law_what_is_refused_without_a_spin_lock(held: Set<LockRank>, effect: Effect)
    requires
        !held.contains(LockRank::Sequencer),
        !held.contains(LockRank::AdvanceOnlyCsq),
        !held.contains(LockRank::NotifyCsq),
        !held.contains(LockRank::RegistrySpin),
        !held.contains(LockRank::CancelSpin),
        !held.contains(LockRank::VpbSpin),
        !held.contains(LockRank::RingSpin),
        !held.contains(LockRank::GrantSpin),
        !held.contains(LockRank::NotificationState),
        effect != Effect::CompleteIrp,
    ensures
        ({
            let answer = emit_refusal(held, TopLevelContext::Ordinary, effect);
            let guarded = waits_for_terminal(effect) && (held.contains(LockRank::MountRundown)
                || held.contains(LockRank::ControlRundown) || held.contains(
                LockRank::SessionAccessRundown,
            ) || held.contains(LockRank::SetupAdmissionRundown) || held.contains(
                LockRank::ControlContextAdmissionRundown,
            ) || held.contains(LockRank::SqWaitRole) || held.contains(LockRank::CqConsumerToken));
            let consuming = waits(effect) && held.contains(LockRank::CqConsumerToken);
            let gated = held.contains(LockRank::SizeGate) && (effect is Allocate || effect
                == Effect::Wait(WaitTarget::AdmissionResource));
            let draining = held.contains(LockRank::PerOpenLifecycle) && drains_rundown(effect);
            let tokened = held.contains(LockRank::SoleConsumerToken) && (waits(effect) || effect
                == Effect::PrivilegeOrAccessCheck || effect == Effect::NotificationCallback);
            &&& answer is None <==> !guarded && !consuming && !gated && !draining && !tokened
            &&& answer == Some(LockOrderError::LifecycleWaitUnderGuard) <==> guarded
            &&& answer == Some(LockOrderError::WaitUnderNoWaitRole) <==> !guarded && consuming
            &&& answer == Some(LockOrderError::AdmissionUnderSizeGate) <==> !guarded && !consuming
                && gated
            &&& answer == Some(LockOrderError::DrainUnderLifecycleGate) <==> !guarded && !consuming
                && !gated && draining
            &&& answer == Some(LockOrderError::WorkUnderSoleConsumerToken) <==> !guarded
                && !consuming && !gated && !draining && tokened
        }),
{
    if terminal_wait_guarded(held) {
        let rank = choose|rank: LockRank| #[trigger]
            held.contains(rank) && guards_terminal_wait(rank);
        assert(held.contains(rank) && guards_terminal_wait(rank));
    }
    if crate::lockrank::holds_kind(held, LockKind::SpinLock) {
        let rank = choose|rank: LockRank| #[trigger]
            held.contains(rank) && rank.kind_of() == LockKind::SpinLock;
        assert(held.contains(rank));
    }
    if crate::lockrank::holds_kind(held, LockKind::PushLock) {
        let rank = choose|rank: LockRank| #[trigger]
            held.contains(rank) && rank.kind_of() == LockKind::PushLock;
        assert(held.contains(rank));
    }
}

/// What is refused with a spin lock or the push lock in hand, in an ordinary
/// request: everything. A completion is refused as such, a terminal wait where it
/// is guarded, a wait under the consuming role, an allocation under the sequencer,
/// and all else as work under a lock.
pub proof fn law_what_is_told_under_a_spin_lock(held: Set<LockRank>, spin: LockRank, effect: Effect)
    requires
        held.contains(spin),
        spin == LockRank::Sequencer || spin == LockRank::AdvanceOnlyCsq || spin
            == LockRank::NotifyCsq || spin == LockRank::RegistrySpin || spin == LockRank::CancelSpin
            || spin == LockRank::VpbSpin || spin == LockRank::RingSpin || spin
            == LockRank::GrantSpin,
    ensures
        emit_refusal(held, TopLevelContext::Ordinary, effect) == Some(
            if effect == Effect::CompleteIrp {
                LockOrderError::CompletionUnderLock
            } else if waits_for_terminal(effect) {
                LockOrderError::LifecycleWaitUnderGuard
            } else if waits(effect) && held.contains(LockRank::CqConsumerToken) {
                LockOrderError::WaitUnderNoWaitRole
            } else if effect is Allocate && held.contains(LockRank::Sequencer) {
                LockOrderError::AllocationUnderSequencer
            } else {
                LockOrderError::ActionUnderLock
            },
        ),
{
    assert(spin.kind_of() == LockKind::SpinLock);
    assert(crate::lockrank::holds_kind(held, LockKind::SpinLock));
    assert(held.contains(spin) && guards_terminal_wait(spin));
}

/// An effect crosses a seam exactly where it is legal; then the sink performs it
/// last and the record, where there is one, ends with it in its context. An effect
/// that is refused leaves both as they were.
pub proof fn law_seam_passes_legal_effects_alone<S: EffectSink>(
    before: Seam<S>,
    after: Seam<S>,
    ctx: ContextModel,
    effect: Effect,
    result: Result<(), LockOrderError>,
)
    requires
        emitted(before, after, ctx, effect, result),
    ensures
        result is Ok <==> emit_refusal(ctx.held, ctx.top_level, effect) is None,
        result is Ok ==> {
            &&& after@.len() == before@.len() + 1
            &&& after@.last() == effect
            &&& after@.drop_last() == before@
            &&& after.record() is Some <==> before.record() is Some
            &&& before.record() matches Some(entries) ==> {
                &&& after.record()->0.last() == (ctx, effect)
                &&& after.record()->0.drop_last() == entries
            }
        },
        result is Err ==> after == before,
        result matches Err(error) ==> emit_refusal(ctx.held, ctx.top_level, effect) == Some(error),
{
    if result is Ok {
        assert(after@.drop_last() =~= before@);
        if before.record() is Some {
            assert(after.record()->0.drop_last() =~= before.record()->0);
        }
    }
}

/// What is told under the push lock without a spin lock, in an ordinary request: a
/// completion is refused as such, a terminal wait where a rundown or a role guards
/// it, a wait under the consuming role, and all else as work under a lock.
pub proof fn law_what_is_told_under_the_push_lock(held: Set<LockRank>, effect: Effect)
    requires
        held.contains(LockRank::NotificationState),
        !crate::lockrank::holds_kind(held, LockKind::SpinLock),
    ensures
        emit_refusal(held, TopLevelContext::Ordinary, effect) == Some(
            if effect == Effect::CompleteIrp {
                LockOrderError::CompletionUnderLock
            } else if waits_for_terminal(effect) && (held.contains(LockRank::MountRundown)
                || held.contains(LockRank::ControlRundown) || held.contains(
                LockRank::SessionAccessRundown,
            ) || held.contains(LockRank::SetupAdmissionRundown) || held.contains(
                LockRank::ControlContextAdmissionRundown,
            ) || held.contains(LockRank::SqWaitRole) || held.contains(LockRank::CqConsumerToken)) {
                LockOrderError::LifecycleWaitUnderGuard
            } else if waits(effect) && held.contains(LockRank::CqConsumerToken) {
                LockOrderError::WaitUnderNoWaitRole
            } else {
                LockOrderError::ActionUnderLock
            },
        ),
{
    assert(LockRank::NotificationState.kind_of() == LockKind::PushLock);
    assert(crate::lockrank::holds_kind(held, LockKind::PushLock));
    assert(!held.contains(LockRank::Sequencer)) by {
        assert(LockRank::Sequencer.kind_of() == LockKind::SpinLock);
    }
    if terminal_wait_guarded(held) {
        let rank = choose|rank: LockRank| #[trigger]
            held.contains(rank) && guards_terminal_wait(rank);
        assert(held.contains(rank) && guards_terminal_wait(rank));
        assert(rank.kind_of() != LockKind::SpinLock);
    }
}

/// With the push lock held no effect is legal, whatever else is held and at
/// whatever level; held alone in an ordinary request, a completion is refused as
/// under a lock and every other effect as an action under one.
pub proof fn law_no_effect_under_the_push_lock(
    ctx: EffectContext,
    effect: Effect,
    result: Result<(), LockOrderError>,
)
    requires
        call_ensures(may_emit, (&ctx, effect), result),
        ctx@.held.contains(LockRank::NotificationState),
    ensures
        result is Err,
        ctx@.top_level == TopLevelContext::Ordinary && (forall|rank: LockRank| #[trigger]
            ctx@.held.contains(rank) ==> rank == LockRank::NotificationState) ==> result == Err::<
            (),
            _,
        >(
            if effect == Effect::CompleteIrp {
                LockOrderError::CompletionUnderLock
            } else {
                LockOrderError::ActionUnderLock
            },
        ),
{
    law_nothing_is_done_under_the_push_lock(ctx@.held, ctx@.top_level, effect);
    if forall|rank: LockRank| #[trigger]
        ctx@.held.contains(rank) ==> rank == LockRank::NotificationState {
        assert(ctx@.held =~= Set::<LockRank>::empty().insert(LockRank::NotificationState));
    }
}

/// With any spin lock held no effect is legal, whatever else is held and at whatever
/// level.
pub proof fn law_no_effect_under_a_spin_lock(
    ctx: EffectContext,
    spin: LockRank,
    effect: Effect,
    result: Result<(), LockOrderError>,
)
    requires
        call_ensures(may_emit, (&ctx, effect), result),
        ctx@.held.contains(spin),
        spin == LockRank::Sequencer || spin == LockRank::AdvanceOnlyCsq || spin
            == LockRank::NotifyCsq || spin == LockRank::RegistrySpin || spin == LockRank::CancelSpin
            || spin == LockRank::VpbSpin || spin == LockRank::RingSpin || spin
            == LockRank::GrantSpin,
    ensures
        result is Err,
        ctx@.top_level == TopLevelContext::Ordinary ==> result == Err::<(), _>(
            if effect == Effect::CompleteIrp {
                LockOrderError::CompletionUnderLock
            } else if waits_for_terminal(effect) {
                LockOrderError::LifecycleWaitUnderGuard
            } else if waits(effect) && ctx@.held.contains(LockRank::CqConsumerToken) {
                LockOrderError::WaitUnderNoWaitRole
            } else if effect is Allocate && ctx@.held.contains(LockRank::Sequencer) {
                LockOrderError::AllocationUnderSequencer
            } else {
                LockOrderError::ActionUnderLock
            },
        ),
{
    law_nothing_is_done_under_a_spin_lock(ctx@.held, spin, ctx@.top_level, effect);
    law_what_is_told_under_a_spin_lock(ctx@.held, spin, effect);
}

/// A request is completed exactly with nothing held; with nothing held an ordinary
/// request may do everything, and one under the cache sentinel everything but wait.
pub proof fn law_nothing_held_refuses_only_the_sentinels_waits(
    ctx: EffectContext,
    effect: Effect,
    result: Result<(), LockOrderError>,
    wait: bool,
)
    requires
        call_ensures(may_emit, (&ctx, effect), result),
        call_ensures(is_wait, (effect,), wait),
    ensures
        ({
            let empty = forall|rank: LockRank| !#[trigger] ctx@.held.contains(rank);
            &&& effect == Effect::CompleteIrp ==> (result is Ok <==> empty)
            &&& empty ==> (result is Ok <==> ctx@.top_level == TopLevelContext::Ordinary || !wait)
            &&& result == Err::<(), _>(LockOrderError::SyncWaitUnderCacheSentinel) <==>
                ctx@.top_level == TopLevelContext::CacheSentinel && wait
        }),
{
    law_cache_sentinel_refuses_waits_alone(ctx@.held, effect);
    law_completion_needs_nothing_held(ctx@.held, ctx@.top_level);
    law_nothing_held_permits_everything(effect);
    if forall|rank: LockRank| !#[trigger] ctx@.held.contains(rank) {
        assert(ctx@.held =~= Set::<LockRank>::empty());
    }
}

/// Without a spin lock or the push lock, what an ordinary request may not do: wait
/// for an end under a rundown or a role, wait as a consumer, admit under the size
/// gate, drain under an open's gate, or wait, check or call back under a sole
/// consumer's token. Each is refused by its own name, in this order.
pub proof fn law_effect_without_locks_is_refused_in_order(
    ctx: EffectContext,
    effect: Effect,
    result: Result<(), LockOrderError>,
)
    requires
        call_ensures(may_emit, (&ctx, effect), result),
        ctx@.top_level == TopLevelContext::Ordinary,
        effect != Effect::CompleteIrp,
        !ctx@.held.contains(LockRank::Sequencer),
        !ctx@.held.contains(LockRank::AdvanceOnlyCsq),
        !ctx@.held.contains(LockRank::NotifyCsq),
        !ctx@.held.contains(LockRank::RegistrySpin),
        !ctx@.held.contains(LockRank::CancelSpin),
        !ctx@.held.contains(LockRank::VpbSpin),
        !ctx@.held.contains(LockRank::RingSpin),
        !ctx@.held.contains(LockRank::GrantSpin),
        !ctx@.held.contains(LockRank::NotificationState),
    ensures
        ({
            let held = ctx@.held;
            let guarded = waits_for_terminal(effect) && (held.contains(LockRank::MountRundown)
                || held.contains(LockRank::ControlRundown) || held.contains(
                LockRank::SessionAccessRundown,
            ) || held.contains(LockRank::SetupAdmissionRundown) || held.contains(
                LockRank::ControlContextAdmissionRundown,
            ) || held.contains(LockRank::SqWaitRole) || held.contains(LockRank::CqConsumerToken));
            let consuming = waits(effect) && held.contains(LockRank::CqConsumerToken);
            let gated = held.contains(LockRank::SizeGate) && (effect is Allocate || effect
                == Effect::Wait(WaitTarget::AdmissionResource));
            let draining = held.contains(LockRank::PerOpenLifecycle) && drains_rundown(effect);
            let tokened = held.contains(LockRank::SoleConsumerToken) && (waits(effect) || effect
                == Effect::PrivilegeOrAccessCheck || effect == Effect::NotificationCallback);
            &&& result is Ok <==> !guarded && !consuming && !gated && !draining && !tokened
            &&& result == Err::<(), _>(LockOrderError::LifecycleWaitUnderGuard) <==> guarded
            &&& result == Err::<(), _>(LockOrderError::WaitUnderNoWaitRole) <==> !guarded
                && consuming
            &&& result == Err::<(), _>(LockOrderError::AdmissionUnderSizeGate) <==> !guarded
                && !consuming && gated
            &&& result == Err::<(), _>(LockOrderError::DrainUnderLifecycleGate) <==> !guarded
                && !consuming && !gated && draining
            &&& result == Err::<(), _>(LockOrderError::WorkUnderSoleConsumerToken) <==> !guarded
                && !consuming && !gated && !draining && tokened
        }),
{
    law_what_is_refused_without_a_spin_lock(ctx@.held, effect);
}

/// Which effects wait, which drain a rundown, and which wait for an end.
pub proof fn law_effects_are_sorted_by_their_wait(
    effect: Effect,
    wait: bool,
    drain: bool,
    terminal: bool,
)
    requires
        call_ensures(is_wait, (effect,), wait),
        call_ensures(is_rundown_wait, (effect,), drain),
        call_ensures(is_terminal_wait, (effect,), terminal),
    ensures
        ({
            let fence = effect == Effect::SessionFence(
                FenceEffect::WaitProducerAndMappingCaptureRundown,
            ) || effect == Effect::SessionFence(FenceEffect::WaitPendingAndOwners) || effect
                == Effect::SessionFence(FenceEffect::WaitControlRundown);
            let event = effect == Effect::Wait(WaitTarget::TerminalOutcomeEvent) || effect
                == Effect::Wait(WaitTarget::JoinerDrainedEvent) || effect == Effect::Wait(
                WaitTarget::PendingDpcExitEvent,
            ) || effect == Effect::Wait(WaitTarget::MountCompletionEvent) || effect == Effect::Wait(
                WaitTarget::MountWaitersDrainedEvent,
            ) || effect == Effect::Wait(WaitTarget::MountResetCompleteEvent) || effect
                == Effect::Wait(WaitTarget::MountResetWaitersDrainedEvent);
            &&& wait <==> effect is Wait || fence
            &&& drain <==> effect == Effect::Wait(WaitTarget::Rundown) || fence
            &&& terminal <==> event || fence
        }),
{
    law_what_waits_and_for_what(effect);
}

/// A position is taken into a context exactly if it may be, and the guard's context
/// holds it and what was held before. One that is held already is shared where
/// sharing is asked for, and then nothing is taken.
pub proof fn law_guard_takes_only_its_position(
    ctx: &mut EffectContext,
    other: &mut EffectContext,
    position: LockRank,
    taken: Result<Guard<'_>, LockOrderError>,
    shared: Result<Guard<'_>, LockOrderError>,
    admitted: Result<(), LockOrderError>,
    held: HeldLocks,
)
    requires
        call_ensures(EffectContext::acquire, (ctx, position), taken),
        call_ensures(EffectContext::acquire_if_unheld, (other, position), shared),
        held@ == old(ctx)@.held,
        call_ensures(may_acquire, (held, position), admitted),
    ensures
        taken is Ok <==> admitted is Ok,
        taken matches Err(error) ==> admitted == Err::<(), _>(error),
        taken matches Ok(guard) ==> guard@.position == position && guard@.acquired
            && guard@.ctx.top_level == old(ctx)@.top_level && (forall|rank: LockRank| #[trigger]
            guard@.ctx.held.contains(rank) <==> rank == position || old(ctx)@.held.contains(rank)),
        final(ctx)@ == old(ctx)@,
        old(other)@.held.contains(position) ==> (shared matches Ok(guard) && !guard@.acquired
            && guard@.ctx == old(other)@ && guard@.position == position),
        !old(other)@.held.contains(position) && shared is Ok ==> shared->Ok_0@.acquired
            && shared->Ok_0@.ctx.held == old(other)@.held.insert(position),
{
}

/// A completion is cleared exactly with nothing held, for the context it was asked
/// in, and refused as under a lock otherwise.
pub proof fn law_completion_is_cleared_with_nothing_held<'a>(
    ctx: &'a EffectContext,
    result: Result<CompletionClearance<'a>, LockOrderError>,
)
    requires
        call_ensures(checked, (ctx,), result),
    ensures
        result is Ok <==> forall|rank: LockRank| !#[trigger] ctx@.held.contains(rank),
        result matches Ok(clearance) ==> clearance@ == ctx@,
        result is Err ==> result == Err::<CompletionClearance<'a>, _>(
            LockOrderError::CompletionUnderLock,
        ),
{
    if forall|rank: LockRank| !#[trigger] ctx@.held.contains(rank) {
        assert(ctx@.held =~= Set::<LockRank>::empty());
    }
}

/// Every target and effect is listed at its own index, in these orders.
pub proof fn law_effects_are_listed_in_these_orders(
    wait: WaitTarget,
    waited: usize,
    alloc: AllocTarget,
    allocated: usize,
    fence: FenceEffect,
    fenced: usize,
    mount: MountEffect,
    mounted: usize,
    undo: MountRollbackEffect,
    undone: usize,
    dismount: DismountEffect,
    dismounted: usize,
)
    requires
        call_ensures(WaitTarget::index, (wait,), waited),
        call_ensures(AllocTarget::index, (alloc,), allocated),
        call_ensures(FenceEffect::index, (fence,), fenced),
        call_ensures(MountEffect::index, (mount,), mounted),
        call_ensures(MountRollbackEffect::index, (undo,), undone),
        call_ensures(DismountEffect::index, (dismount,), dismounted),
    ensures
        waited < 11 && wait == seq![
            WaitTarget::ProviderRoundTrip,
            WaitTarget::AdmissionResource,
            WaitTarget::Rundown,
            WaitTarget::BlockingResource,
            WaitTarget::TerminalOutcomeEvent,
            WaitTarget::JoinerDrainedEvent,
            WaitTarget::PendingDpcExitEvent,
            WaitTarget::MountCompletionEvent,
            WaitTarget::MountWaitersDrainedEvent,
            WaitTarget::MountResetCompleteEvent,
            WaitTarget::MountResetWaitersDrainedEvent,
        ][waited as int],
        allocated < 5 && alloc == seq![
            AllocTarget::Pool,
            AllocTarget::ReqId,
            AllocTarget::Grant,
            AllocTarget::Digest,
            AllocTarget::Sqe,
        ][allocated as int],
        fenced < 16 && fence == seq![
            FenceEffect::CloseSessionAdmission,
            FenceEffect::SignalPendingEnter,
            FenceEffect::RemoveProducerMappingsReverse,
            FenceEffect::WaitProducerAndMappingCaptureRundown,
            FenceEffect::AcquireConsumersIncreasing,
            FenceEffect::DrainStablePrefixesBounded,
            FenceEffect::RetireCredits,
            FenceEffect::ReleaseConsumers,
            FenceEffect::QueueInstalledWork,
            FenceEffect::WaitPendingAndOwners,
            FenceEffect::WaitControlRundown,
            FenceEffect::ReleaseReadOnlyMappingsReverse,
            FenceEffect::ReleaseMdlsAndSystemView,
            FenceEffect::ReleaseCapturedProcess,
            FenceEffect::DismountAndDeleteDevices,
            FenceEffect::ReleaseTransientBacking,
        ][fenced as int],
        mounted < 12 && mount == seq![
            MountEffect::AcquireVpb,
            MountEffect::ValidateTarget,
            MountEffect::AcquireSessionReference,
            MountEffect::ReleaseVpb,
            MountEffect::CreateMountedDevice,
            MountEffect::AllocateVcb,
            MountEffect::InitializeDeviceAndVcb,
            MountEffect::RevalidateTargetIdentityAdmissionAndBinding,
            MountEffect::BindVpb,
            MountEffect::SetVpbMounted,
            MountEffect::ClearDeviceInitializing,
            MountEffect::PublishMountOwner,
        ][mounted as int],
        undone < 5 && undo == seq![
            MountRollbackEffect::ClearUnpublishedVpbBinding,
            MountRollbackEffect::FreeVcb,
            MountRollbackEffect::DeleteMountedDevice,
            MountRollbackEffect::ReleaseSessionReference,
            MountRollbackEffect::ReleaseVpbIfHeld,
        ][undone as int],
        dismounted < 7 && dismount == seq![
            DismountEffect::AcquireVpb,
            DismountEffect::ClearVpbBinding,
            DismountEffect::ReleaseVpb,
            DismountEffect::DeleteMountedDevice,
            DismountEffect::DeleteVdo,
            DismountEffect::RemoveRegistryEntry,
            DismountEffect::ReleaseSessionReference,
        ][dismounted as int],
{
}

/// Every effect stands once among all of them: the waits first, then the
/// allocations, the six plain ones, the fence's, a mount's, its undoing's and a
/// dismount's.
pub proof fn law_all_effects_are_grouped(effects: [Effect; 62], effect: Effect, i: int)
    requires
        call_ensures(all_effects, (), effects),
        0 <= i < 62,
    ensures
        exists|at: int| 0 <= at < 62 && #[trigger] effects@[at] == effect,
        effects@[i] is Wait <==> i < 11,
        effects@[i] is Allocate <==> 11 <= i < 16,
        effects@[i] == Effect::Free <==> i == 16,
        effects@[i] == Effect::CopyUserBuffer <==> i == 17,
        effects@[i] == Effect::PrivilegeOrAccessCheck <==> i == 18,
        effects@[i] == Effect::NotificationCallback <==> i == 19,
        effects@[i] == Effect::CallProvider <==> i == 20,
        effects@[i] == Effect::CompleteIrp <==> i == 21,
        effects@[i] is SessionFence <==> 22 <= i < 38,
        effects@[i] is Mount <==> 38 <= i < 50,
        effects@[i] is MountRollback <==> 50 <= i < 55,
        effects@[i] is Dismount <==> 55 <= i,
{
    law_every_effect_is_listed_once(effect, i);
    law_every_effect_is_listed_once(effects@[i], i);
    assert(effects@[effect_place(effect)] == effect);
}

/// A held set guards a terminal wait exactly if it holds a rundown, a role or a spin
/// lock.
pub proof fn law_guards_of_a_terminal_wait_are_these(held: HeldLocks, yes: bool, spin: bool)
    requires
        call_ensures(holds_terminal_wait_guard, (held,), yes),
        call_ensures(HeldLocks::holds_any_spin_lock, (held,), spin),
    ensures
        yes <==> spin || held@.contains(LockRank::MountRundown) || held@.contains(
            LockRank::ControlRundown,
        ) || held@.contains(LockRank::SessionAccessRundown) || held@.contains(
            LockRank::SetupAdmissionRundown,
        ) || held@.contains(LockRank::ControlContextAdmissionRundown) || held@.contains(
            LockRank::SqWaitRole,
        ) || held@.contains(LockRank::CqConsumerToken),
{
    if terminal_wait_guarded(held@) {
        let rank = choose|rank: LockRank| #[trigger]
            held@.contains(rank) && guards_terminal_wait(rank);
        assert(held@.contains(rank) && guards_terminal_wait(rank));
    }
    if spin {
        let rank = choose|rank: LockRank| #[trigger]
            held@.contains(rank) && rank.kind_of() == LockKind::SpinLock;
        assert(guards_terminal_wait(rank));
    }
}

/// A context holds what it is said to hold at the level it is said to be at, and an
/// empty one nothing.
pub proof fn law_context_is_as_it_is_made(
    held: HeldLocks,
    top_level: TopLevelContext,
    ctx: EffectContext,
    shown: HeldLocks,
    level: TopLevelContext,
    empty: EffectContext,
    sentinel: EffectContext,
    rank: LockRank,
)
    requires
        call_ensures(EffectContext::assume_held, (held, top_level), ctx),
        call_ensures(EffectContext::held, (&ctx,), shown),
        call_ensures(EffectContext::top_level, (&ctx,), level),
        call_ensures(EffectContext::empty, (), empty),
        call_ensures(EffectContext::empty_under_cache_sentinel, (), sentinel),
    ensures
        shown@.contains(rank) <==> held@.contains(rank),
        level == top_level,
        !empty@.held.contains(rank),
        empty@.top_level == TopLevelContext::Ordinary,
        !sentinel@.held.contains(rank),
        sentinel@.top_level == TopLevelContext::CacheSentinel,
{
}

/// A guard takes a further position as its context would, tells whether it took its
/// own, and is at dispatch level exactly on a spin lock.
pub proof fn law_guard_takes_further_positions<'a, 'b>(
    guard: &'b mut Guard<'a>,
    other: &'b mut Guard<'a>,
    position: LockRank,
    taken: Result<Guard<'b>, LockOrderError>,
    shared: Result<Guard<'b>, LockOrderError>,
    held: HeldLocks,
    admitted: Result<(), LockOrderError>,
    shown: Guard<'a>,
    acquired: bool,
    token: Option<Dispatch>,
)
    requires
        call_ensures(Guard::acquire, (guard, position), taken),
        call_ensures(Guard::acquire_if_unheld, (other, position), shared),
        held@ == old(guard)@.ctx.held,
        call_ensures(may_acquire, (held, position), admitted),
        call_ensures(Guard::acquired_for_test, (&shown,), acquired),
        call_ensures(Guard::dispatch_token, (&shown,), token),
    ensures
        taken is Ok <==> admitted is Ok,
        taken matches Ok(next) ==> next@.position == position && next@.acquired
            && next@.ctx.top_level == old(guard)@.ctx.top_level && next@.ctx.held == old(
            guard
        )@.ctx.held.insert(position),
        old(other)@.ctx.held.contains(position) ==> (shared matches Ok(next) && !next@.acquired
            && next@.ctx == old(other)@.ctx),
        acquired <==> shown@.acquired,
        token is Some <==> shown@.position.kind_of() == LockKind::SpinLock,
{
}

/// A seam passes an effect on exactly if it is legal where it is asked for, once and
/// as it is, and records it where it records. What is refused reaches nothing.
pub proof fn law_seam_passes_what_is_legal<S: EffectSink>(
    seam: &mut Seam<S>,
    ctx: EffectContext,
    effect: Effect,
    result: Result<(), LockOrderError>,
    allowed: Result<(), LockOrderError>,
)
    requires
        call_ensures(Seam::<S>::emit, (seam, &ctx, effect), result),
        call_ensures(may_emit, (&ctx, effect), allowed),
    ensures
        result is Ok <==> allowed is Ok,
        result matches Err(error) ==> allowed == Err::<(), _>(error),
        result is Ok ==> final(seam)@ == old(seam)@.push(effect),
        result is Ok && old(seam).record() is Some ==> final(seam).record() == Some(
            old(seam).record()->0.push((ctx@, effect)),
        ),
        result is Ok && old(seam).record() is None ==> final(seam).record() is None,
        result is Err ==> *final(seam) == *old(seam),
{
}

/// A completion is cleared at a seam exactly with nothing held; it is recorded as a
/// completion and nothing is passed on.
pub proof fn law_seam_clears_a_completion<'a, S: EffectSink>(
    seam: &mut Seam<S>,
    ctx: &'a EffectContext,
    result: Result<CompletionClearance<'a>, LockOrderError>,
)
    requires
        call_ensures(Seam::<S>::clear_completion, (seam, ctx), result),
    ensures
        result is Ok <==> forall|rank: LockRank| !#[trigger] ctx@.held.contains(rank),
        final(seam)@ == old(seam)@,
        result is Ok && old(seam).record() is Some ==> final(seam).record() == Some(
            old(seam).record()->0.push((ctx@, Effect::CompleteIrp)),
        ),
        result is Err ==> *final(seam) == *old(seam) && result == Err::<
            CompletionClearance<'a>,
            _,
        >(LockOrderError::CompletionUnderLock),
{
    if forall|rank: LockRank| !#[trigger] ctx@.held.contains(rank) {
        assert(ctx@.held =~= Set::<LockRank>::empty());
    }
}

} // verus!
