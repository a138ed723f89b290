//! The effects a path may perform with what it holds.

use fsring_core::effect::{
    all_effects, is_wait, may_emit, AllocTarget, Effect, EffectContext, EffectSink, Seam,
    TopLevelContext, WaitTarget, ALL_ALLOC_TARGETS, ALL_CONTEXTS, ALL_DISMOUNT_EFFECTS,
    ALL_FENCE_EFFECTS, ALL_MOUNT_EFFECTS, ALL_MOUNT_ROLLBACK_EFFECTS, ALL_WAIT_TARGETS,
};
use fsring_core::lockrank::{may_acquire, HeldLocks, LockOrderError, LockRank, ALL_RANKS};
use fsring_core::session::FenceEffect;
use fsring_core::volume::{DismountEffect, MountEffect, MountRollbackEffect};

/// What the locking and caching rules forbid, in their own words.
const FORBIDDEN_EFFECT_SENTENCES: [&str; 9] = [
    "no spin lock is retained across a wait, an\n  allocation, a mapping, a provider call, or an IRP completion",
    "privilege and access checks, allocation and\n  free, waits, user-buffer copies, and `IoCompleteRequest` occur under",
    "no size\n   path waits for an application slot, ApplyReserve, allocation, grant, or\n   other admission resource while it owns the logical gate",
    "never allocates while the sequencer lock is held",
    "MUST NOT synchronously wait on anything else while the\ntop-level context is the cache sentinel",
    "The lifecycle\ngate is released while any predecessor waits",
    "It is never held while\nacquiring an FCB/CCB/namespace/domain lock, running an access check or\nnotification callback, waiting for SQ, or completing an IRP.",
    "No domain/FCB/CCB/namespace lock, access check, callback, or blocking action runs while a token is held.",
    "only if the calling thread does not\nalready own it, and release only what they acquired",
];

const R2_LIFECYCLE_WAITS: [WaitTarget; 7] = [
    WaitTarget::TerminalOutcomeEvent,
    WaitTarget::JoinerDrainedEvent,
    WaitTarget::PendingDpcExitEvent,
    WaitTarget::MountCompletionEvent,
    WaitTarget::MountWaitersDrainedEvent,
    WaitTarget::MountResetCompleteEvent,
    WaitTarget::MountResetWaitersDrainedEvent,
];

const TERMINAL_WAIT_GUARDS: [LockRank; 15] = [
    LockRank::MountRundown,
    LockRank::ControlRundown,
    LockRank::SessionAccessRundown,
    LockRank::SetupAdmissionRundown,
    LockRank::ControlContextAdmissionRundown,
    LockRank::SqWaitRole,
    LockRank::CqConsumerToken,
    LockRank::Sequencer,
    LockRank::AdvanceOnlyCsq,
    LockRank::NotifyCsq,
    LockRank::RegistrySpin,
    LockRank::CancelSpin,
    LockRank::VpbSpin,
    LockRank::RingSpin,
    LockRank::GrantSpin,
];

const RING_POSITIONS: [LockRank; 11] = [
    LockRank::RegistrySpin,
    LockRank::SqWaitRole,
    LockRank::CancelSpin,
    LockRank::VpbSpin,
    LockRank::CqConsumerToken,
    LockRank::ControlRundown,
    LockRank::SessionAccessRundown,
    LockRank::SetupAdmissionRundown,
    LockRank::ControlContextAdmissionRundown,
    LockRank::RingSpin,
    LockRank::GrantSpin,
];

const SESSION_FENCE_TERMINAL_WAITS: [FenceEffect; 3] = [
    FenceEffect::WaitProducerAndMappingCaptureRundown,
    FenceEffect::WaitPendingAndOwners,
    FenceEffect::WaitControlRundown,
];

fn terminal_wait_verdict(held: HeldLocks, effect: Effect) -> Option<LockOrderError> {
    let terminal_wait = matches!(effect, Effect::Wait(target) if R2_LIFECYCLE_WAITS.contains(&target))
        || matches!(effect, Effect::SessionFence(wait) if SESSION_FENCE_TERMINAL_WAITS.contains(&wait));
    (terminal_wait && TERMINAL_WAIT_GUARDS.iter().any(|rank| held.holds(*rank)))
        .then_some(LockOrderError::LifecycleWaitUnderGuard)
}

fn r2_effect_verdict(held: HeldLocks, effect: Effect) -> Option<LockOrderError> {
    if matches!(effect, Effect::CompleteIrp) && !held.is_empty() {
        return Some(LockOrderError::CompletionUnderLock);
    }
    if let Some(verdict) = terminal_wait_verdict(held, effect) {
        return Some(verdict);
    }
    let waits = matches!(effect, Effect::Wait(_))
        || matches!(
            effect,
            Effect::SessionFence(
                FenceEffect::WaitProducerAndMappingCaptureRundown
                    | FenceEffect::WaitPendingAndOwners
                    | FenceEffect::WaitControlRundown
            )
        );
    if waits && held.holds(LockRank::CqConsumerToken) {
        return Some(LockOrderError::WaitUnderNoWaitRole);
    }
    if [
        LockRank::RegistrySpin,
        LockRank::CancelSpin,
        LockRank::VpbSpin,
        LockRank::RingSpin,
        LockRank::GrantSpin,
    ]
    .iter()
    .any(|rank| held.holds(*rank))
    {
        return Some(LockOrderError::ActionUnderLock);
    }
    None
}

fn keyword(effect: Effect) -> Option<&'static str> {
    match effect {
        Effect::Wait(_) => Some("wait"),
        Effect::Allocate(_) => Some("alloc"),
        Effect::Free => Some("free"),
        Effect::CopyUserBuffer => Some("copies"),
        Effect::PrivilegeOrAccessCheck => Some("access check"),
        Effect::NotificationCallback => Some("notification callback"),
        Effect::CallProvider => Some("provider call"),
        Effect::CompleteIrp => Some("completion"),
        Effect::SessionFence(_)
        | Effect::Mount(_)
        | Effect::MountRollback(_)
        | Effect::Dismount(_) => None,
    }
}

const VERBS: &[&str] = &[
    "wait",
    "alloc",
    "free",
    "copies",
    "access check",
    "notification callback",
    "provider call",
    "completion",
];

fn ctx(held: HeldLocks, top_level: TopLevelContext) -> EffectContext {
    EffectContext::assume_held(held, top_level)
}

struct CountingSink(Vec<Effect>);

impl EffectSink for CountingSink {
    fn emit(&mut self, effect: Effect) {
        self.0.push(effect);
    }
}

fn seam() -> Seam<CountingSink> {
    Seam::recording(CountingSink(Vec::new()))
}

fn issued(s: &Seam<CountingSink>) -> Vec<Effect> {
    s.entries().into_iter().map(|(_, _, effect)| effect).collect()
}

fn position_of(s: &Seam<CountingSink>, effect: Effect) -> usize {
    match issued(s).iter().position(|e| *e == effect) {
        Some(i) => i,
        None => panic!("{effect:?} was never issued"),
    }
}

fn assert_before(s: &Seam<CountingSink>, first: Effect, second: Effect) {
    let a = position_of(s, first);
    let b = position_of(s, second);
    assert!(
        a < b,
        "expected {first:?} before {second:?}, got {a} then {b}"
    );
}

fn assert_none_between(
    s: &Seam<CountingSink>,
    forbidden: impl Fn(Effect) -> bool,
    start: Effect,
    end: Effect,
) {
    let a = position_of(s, start);
    let b = position_of(s, end);
    for (i, e) in issued(s).into_iter().enumerate() {
        if i > a && i < b && forbidden(e) {
            panic!("expected {e:?} to be absent between {start:?} and {end:?}, found it at {i}");
        }
    }
}

fn assert_count(s: &Seam<CountingSink>, effect: Effect, n: usize) {
    let seen = issued(s).iter().filter(|e| **e == effect).count();
    assert_eq!(seen, n, "expected {effect:?} {n} times, saw {seen}");
}

/// Whether taking `next` under `held` is on one of the listed ways, told by
/// ordered paths and rows rather than by sets.
fn acquisition_is_listed(held: HeldLocks, next: LockRank) -> bool {
    let held_ranks: Vec<LockRank> = RING_POSITIONS
        .iter()
        .copied()
        .filter(|rank| held.holds(*rank))
        .collect();
    let contains_other = ALL_RANKS
        .iter()
        .copied()
        .any(|rank| !RING_POSITIONS.contains(&rank) && held.holds(rank));
    if contains_other {
        return false;
    }
    let isolated = [
        LockRank::ControlRundown,
        LockRank::SessionAccessRundown,
        LockRank::SetupAdmissionRundown,
        LockRank::ControlContextAdmissionRundown,
    ];
    if isolated.contains(&next) {
        return held_ranks.is_empty();
    }
    if ring_graph_lists(&held_ranks, next) {
        return true;
    }
    let sq_path = [
        LockRank::RegistrySpin,
        LockRank::SqWaitRole,
        LockRank::CancelSpin,
        LockRank::VpbSpin,
    ];
    let cq_path = [
        LockRank::RegistrySpin,
        LockRank::CqConsumerToken,
        LockRank::VpbSpin,
    ];
    [sq_path.as_slice(), cq_path.as_slice()].iter().any(|path| {
        let Some(next_index) = path.iter().position(|rank| *rank == next) else {
            return false;
        };
        held_ranks.iter().all(|held_rank| {
            path.iter()
                .position(|rank| rank == held_rank)
                .is_some_and(|held_index| held_index < next_index)
        })
    })
}

fn ring_graph_lists(held: &[LockRank], next: LockRank) -> bool {
    let same_set = |left: &[LockRank], right: &[LockRank]| {
        left.len() == right.len() && right.iter().all(|rank| left.contains(rank))
    };
    if next == LockRank::CqConsumerToken {
        let without_registry: Vec<LockRank> = held
            .iter()
            .copied()
            .filter(|rank| *rank != LockRank::RegistrySpin)
            .collect();
        return same_set(&without_registry, &[LockRank::SqWaitRole]);
    }
    let role_sets: [&[LockRank]; 3] = [
        &[LockRank::SqWaitRole],
        &[LockRank::CqConsumerToken],
        &[LockRank::SqWaitRole, LockRank::CqConsumerToken],
    ];
    for roles in role_sets {
        let mut with_ring: Vec<LockRank> = roles.to_vec();
        with_ring.push(LockRank::RingSpin);
        let mut with_grant = with_ring.clone();
        with_grant.push(LockRank::GrantSpin);
        let listed = match next {
            LockRank::RingSpin => same_set(held, roles),
            LockRank::GrantSpin => same_set(held, &with_ring),
            LockRank::CancelSpin => same_set(held, &with_ring) || same_set(held, &with_grant),
            _ => false,
        };
        if listed {
            return true;
        }
    }
    false
}

#[test]
fn ring_acquisitions_match_the_listed_ways() {
    for subset in 0..(1u32 << 11) {
        let held = HeldLocks::from_bits(subset << 15);
        for next in RING_POSITIONS {
            let verdict = may_acquire(held, next);
            if held.holds(next) {
                assert_eq!(verdict, Err(LockOrderError::AlreadyHeld));
            } else {
                assert_eq!(
                    verdict.is_ok(),
                    acquisition_is_listed(held, next),
                    "held={held:?} next={next:?}"
                );
            }
        }
        for other in ALL_RANKS {
            if RING_POSITIONS.contains(&other) {
                continue;
            }
            for next in RING_POSITIONS {
                assert!(may_acquire(held.acquire(other), next).is_err());
            }
        }
    }
}

#[test]
fn every_other_position_is_legal_from_empty() {
    for next in ALL_RANKS {
        let roleless = [LockRank::RingSpin, LockRank::GrantSpin];
        assert_eq!(
            may_acquire(HeldLocks::none(), next).is_ok(),
            !roleless.contains(&next),
            "{next:?}"
        );
    }
    assert_eq!(
        may_acquire(HeldLocks::none(), LockRank::RingSpin),
        Err(LockOrderError::OutOfOrder),
        "a ring's lock taken with no role names a ring nobody is speaking for"
    );
}

#[test]
fn gates_are_taken_in_their_order() {
    let gates = [
        LockRank::LifecycleAdmission,
        LockRank::PerOpenLifecycle,
        LockRank::SizeGate,
    ];
    for (i, held) in gates.iter().enumerate() {
        for (j, next) in gates.iter().enumerate() {
            let expected = match (i, j) {
                (i, j) if i == j => Err(LockOrderError::AlreadyHeld),
                (i, j) if i > j => Err(LockOrderError::OutOfOrder),
                _ => Ok(()),
            };
            assert_eq!(may_acquire(HeldLocks::none().acquire(*held), *next), expected);
        }
    }
}

#[test]
fn a_position_is_never_taken_twice_and_is_given_back() {
    for bits in 0..(1u32 << 9) {
        let held = HeldLocks::from_bits(bits << 12);
        for position in ALL_RANKS {
            let mut c = ctx(held, TopLevelContext::Ordinary);
            match c.acquire(position) {
                Ok(guard) => {
                    assert!(!held.holds(position));
                    assert_eq!(guard.context().held(), held.acquire(position));
                }
                Err(error) => assert_eq!(Err(error), may_acquire(held, position)),
            }
            assert_eq!(c.held(), held);
        }
    }
}

#[test]
fn every_fence_effect_has_its_pinned_roster_index() {
    let expected = [
        (FenceEffect::CloseSessionAdmission, 0),
        (FenceEffect::SignalPendingEnter, 1),
        (FenceEffect::RemoveProducerMappingsReverse, 2),
        (FenceEffect::WaitProducerAndMappingCaptureRundown, 3),
        (FenceEffect::AcquireConsumersIncreasing, 4),
        (FenceEffect::DrainStablePrefixesBounded, 5),
        (FenceEffect::RetireCredits, 6),
        (FenceEffect::ReleaseConsumers, 7),
        (FenceEffect::QueueInstalledWork, 8),
        (FenceEffect::WaitPendingAndOwners, 9),
        (FenceEffect::WaitControlRundown, 10),
        (FenceEffect::ReleaseReadOnlyMappingsReverse, 11),
        (FenceEffect::ReleaseMdlsAndSystemView, 12),
        (FenceEffect::ReleaseCapturedProcess, 13),
        (FenceEffect::DismountAndDeleteDevices, 14),
        (FenceEffect::ReleaseTransientBacking, 15),
    ];

    assert_eq!(ALL_FENCE_EFFECTS.len(), expected.len());
    for (listed, (expected_effect, expected_index)) in
        ALL_FENCE_EFFECTS.iter().copied().zip(expected)
    {
        assert_eq!(listed, expected_effect);
        assert_eq!(listed.index(), expected_index);
    }
}

#[test]
fn every_volume_effect_has_its_pinned_roster_index() {
    let mounts = [
        (MountEffect::AcquireVpb, 0),
        (MountEffect::ValidateTarget, 1),
        (MountEffect::AcquireSessionReference, 2),
        (MountEffect::ReleaseVpb, 3),
        (MountEffect::CreateMountedDevice, 4),
        (MountEffect::AllocateVcb, 5),
        (MountEffect::InitializeDeviceAndVcb, 6),
        (MountEffect::RevalidateTargetIdentityAdmissionAndBinding, 7),
        (MountEffect::BindVpb, 8),
        (MountEffect::SetVpbMounted, 9),
        (MountEffect::ClearDeviceInitializing, 10),
        (MountEffect::PublishMountOwner, 11),
    ];
    assert_eq!(ALL_MOUNT_EFFECTS.len(), mounts.len());
    for (listed, (expected, index)) in ALL_MOUNT_EFFECTS.into_iter().zip(mounts) {
        assert_eq!(listed, expected);
        assert_eq!(listed.index(), index);
    }

    let rollbacks = [
        (MountRollbackEffect::ClearUnpublishedVpbBinding, 0),
        (MountRollbackEffect::FreeVcb, 1),
        (MountRollbackEffect::DeleteMountedDevice, 2),
        (MountRollbackEffect::ReleaseSessionReference, 3),
        (MountRollbackEffect::ReleaseVpbIfHeld, 4),
    ];
    assert_eq!(ALL_MOUNT_ROLLBACK_EFFECTS.len(), rollbacks.len());
    for (listed, (expected, index)) in ALL_MOUNT_ROLLBACK_EFFECTS.into_iter().zip(rollbacks) {
        assert_eq!(listed, expected);
        assert_eq!(listed.index(), index);
    }

    let dismounts = [
        (DismountEffect::AcquireVpb, 0),
        (DismountEffect::ClearVpbBinding, 1),
        (DismountEffect::ReleaseVpb, 2),
        (DismountEffect::DeleteMountedDevice, 3),
        (DismountEffect::DeleteVdo, 4),
        (DismountEffect::RemoveRegistryEntry, 5),
        (DismountEffect::ReleaseSessionReference, 6),
    ];
    assert_eq!(ALL_DISMOUNT_EFFECTS.len(), dismounts.len());
    for (listed, (expected, index)) in ALL_DISMOUNT_EFFECTS.into_iter().zip(dismounts) {
        assert_eq!(listed, expected);
        assert_eq!(listed.index(), index);
    }
}

#[test]
fn every_forbidden_effect_is_representable() {
    let corpus: String = FORBIDDEN_EFFECT_SENTENCES
        .iter()
        .copied()
        .collect::<Vec<_>>()
        .join(" ")
        .to_lowercase();

    for effect in all_effects() {
        if let Some(keyword) = keyword(effect) {
            assert!(corpus.contains(keyword));
        } else {
            assert!(matches!(
                effect,
                Effect::SessionFence(_)
                    | Effect::Mount(_)
                    | Effect::MountRollback(_)
                    | Effect::Dismount(_)
            ));
        }
    }

    for verb in VERBS {
        assert!(corpus.contains(verb));
        assert!(all_effects().iter().any(|e| keyword(*e) == Some(*verb)));
    }

    for t in ALL_WAIT_TARGETS {
        assert!(
            all_effects().contains(&Effect::Wait(t)),
            "all_effects() is missing Wait({t:?}); a target exists that no sweep will ever visit"
        );
        assert!(t.index() < ALL_WAIT_TARGETS.len());
    }
    for t in ALL_ALLOC_TARGETS {
        assert!(
            all_effects().contains(&Effect::Allocate(t)),
            "all_effects() is missing Allocate({t:?}); a target exists that no sweep will ever visit"
        );
        assert!(t.index() < ALL_ALLOC_TARGETS.len());
    }

    for effect in ALL_FENCE_EFFECTS {
        assert!(
            all_effects().contains(&Effect::SessionFence(effect)),
            "all_effects() is missing SessionFence({effect:?})"
        );
    }
    for effect in ALL_MOUNT_EFFECTS {
        assert!(
            all_effects().contains(&Effect::Mount(effect)),
            "all_effects() is missing Mount({effect:?})"
        );
    }
    for effect in ALL_MOUNT_ROLLBACK_EFFECTS {
        assert!(
            all_effects().contains(&Effect::MountRollback(effect)),
            "all_effects() is missing MountRollback({effect:?})"
        );
    }
    for effect in ALL_DISMOUNT_EFFECTS {
        assert!(
            all_effects().contains(&Effect::Dismount(effect)),
            "all_effects() is missing Dismount({effect:?})"
        );
    }

    let expected = ALL_WAIT_TARGETS
        .len()
        .saturating_add(ALL_ALLOC_TARGETS.len())
        .saturating_add(ALL_FENCE_EFFECTS.len())
        .saturating_add(ALL_MOUNT_EFFECTS.len())
        .saturating_add(ALL_MOUNT_ROLLBACK_EFFECTS.len())
        .saturating_add(ALL_DISMOUNT_EFFECTS.len())
        .saturating_add(6);
    assert_eq!(
        all_effects().len(),
        expected,
        "all_effects() has {} entries; the closed rosters plus the six nullary variants account for {expected}",
        all_effects().len()
    );
    assert_eq!(ALL_CONTEXTS.len(), 2);
}

#[test]
fn r2_effects_match_the_independent_oracle() {
    for subset in 0..(1u32 << 9) {
        let held = HeldLocks::from_bits(subset << 15);
        let ctx = ctx(held, TopLevelContext::Ordinary);
        for effect in all_effects() {
            let expected = r2_effect_verdict(held, effect).map_or(Ok(()), Err);
            assert_eq!(may_emit(&ctx, effect), expected);
        }
    }
}

#[test]
fn terminal_waits_are_refused_under_every_rundown_role_and_spin_guard() {
    let guards = [
        LockRank::MountRundown,
        LockRank::ControlRundown,
        LockRank::SessionAccessRundown,
        LockRank::SetupAdmissionRundown,
        LockRank::ControlContextAdmissionRundown,
        LockRank::SqWaitRole,
        LockRank::CqConsumerToken,
        LockRank::Sequencer,
        LockRank::AdvanceOnlyCsq,
        LockRank::NotifyCsq,
        LockRank::RegistrySpin,
        LockRank::CancelSpin,
        LockRank::VpbSpin,
    ];
    let waits = [
        Effect::Wait(WaitTarget::TerminalOutcomeEvent),
        Effect::Wait(WaitTarget::JoinerDrainedEvent),
        Effect::Wait(WaitTarget::PendingDpcExitEvent),
        Effect::Wait(WaitTarget::MountCompletionEvent),
        Effect::Wait(WaitTarget::MountWaitersDrainedEvent),
        Effect::Wait(WaitTarget::MountResetCompleteEvent),
        Effect::Wait(WaitTarget::MountResetWaitersDrainedEvent),
        Effect::SessionFence(FenceEffect::WaitProducerAndMappingCaptureRundown),
        Effect::SessionFence(FenceEffect::WaitPendingAndOwners),
        Effect::SessionFence(FenceEffect::WaitControlRundown),
    ];

    for guard in guards {
        let held = HeldLocks::none().acquire(guard);
        let ctx = ctx(held, TopLevelContext::Ordinary);
        for wait in waits {
            assert_eq!(terminal_wait_verdict(held, wait), Some(LockOrderError::LifecycleWaitUnderGuard));
            assert_eq!(
                may_emit(&ctx, wait),
                Err(LockOrderError::LifecycleWaitUnderGuard),
                "guard={guard:?} wait={wait:?}"
            );
        }
    }
}

#[test]
fn sq_wait_authority_and_cq_no_wait_authority_are_distinct() {
    let ordinary_wait = Effect::Wait(WaitTarget::BlockingResource);
    let terminal_wait = Effect::Wait(WaitTarget::TerminalOutcomeEvent);
    let sq = ctx(
        HeldLocks::none().acquire(LockRank::SqWaitRole),
        TopLevelContext::Ordinary,
    );
    assert_eq!(may_emit(&sq, ordinary_wait), Ok(()));
    assert_eq!(
        may_emit(&sq, terminal_wait),
        Err(LockOrderError::LifecycleWaitUnderGuard)
    );

    let cq = ctx(
        HeldLocks::none().acquire(LockRank::CqConsumerToken),
        TopLevelContext::Ordinary,
    );
    assert_eq!(
        may_emit(&cq, ordinary_wait),
        Err(LockOrderError::WaitUnderNoWaitRole)
    );
    assert_eq!(
        may_emit(&cq, terminal_wait),
        Err(LockOrderError::LifecycleWaitUnderGuard)
    );
}

#[test]
fn a_provider_round_trip_under_the_size_gate_is_legal() {
    let held = HeldLocks::none().acquire(LockRank::SizeGate);
    let ctx = ctx(held, TopLevelContext::Ordinary);
    assert_eq!(may_emit(&ctx, Effect::Wait(WaitTarget::ProviderRoundTrip)), Ok(()));
    assert_eq!(may_emit(&ctx, Effect::Wait(WaitTarget::AdmissionResource)), Err(LockOrderError::AdmissionUnderSizeGate));
}

#[test]
fn no_admission_wait_or_allocation_under_the_size_gate() {
    let held = HeldLocks::none().acquire(LockRank::SizeGate);
    let ctx = ctx(held, TopLevelContext::Ordinary);
    for effect in [
        Effect::Wait(WaitTarget::AdmissionResource),
        Effect::Allocate(AllocTarget::Pool),
        Effect::Allocate(AllocTarget::ReqId),
        Effect::Allocate(AllocTarget::Grant),
        Effect::Allocate(AllocTarget::Digest),
        Effect::Allocate(AllocTarget::Sqe),
    ] {
        assert_eq!(may_emit(&ctx, effect), Err(LockOrderError::AdmissionUnderSizeGate));
    }
}

#[test]
fn an_allocation_under_the_sequencer_names_07_section_6() {
    let held = HeldLocks::none().acquire(LockRank::Sequencer);
    let ctx = ctx(held, TopLevelContext::Ordinary);
    for target in [
        AllocTarget::Pool,
        AllocTarget::ReqId,
        AllocTarget::Grant,
        AllocTarget::Digest,
        AllocTarget::Sqe,
    ] {
        assert_eq!(may_emit(&ctx, Effect::Allocate(target)), Err(LockOrderError::AllocationUnderSequencer));
    }
    assert_eq!(
        may_emit(&ctx, Effect::CopyUserBuffer),
        Err(LockOrderError::ActionUnderLock)
    );
}

#[test]
fn no_sync_wait_under_the_cache_sentinel_even_holding_nothing() {
    let ctx = EffectContext::empty_under_cache_sentinel();
    assert!(ctx.held().is_empty(), "the point is that nothing is held");
    for target in [
        WaitTarget::ProviderRoundTrip,
        WaitTarget::AdmissionResource,
        WaitTarget::Rundown,
        WaitTarget::BlockingResource,
    ] {
        assert_eq!(may_emit(&ctx, Effect::Wait(target)), Err(LockOrderError::SyncWaitUnderCacheSentinel));
    }
    assert_eq!(may_emit(&ctx, Effect::CopyUserBuffer), Ok(()));
    assert_eq!(may_emit(&ctx, Effect::CompleteIrp), Ok(()));
}

#[test]
fn the_completion_certificate_covers_section_sixs_four_classes() {
    let classes: &[(&str, &[LockRank])] = &[
        ("ring token", &[LockRank::SoleConsumerToken]),
        (
            "domain/FCB/CCB lock",
            &[
                LockRank::DomainLock,
                LockRank::FcbMain,
                LockRank::FcbPaging,
                LockRank::CcbLock,
            ],
        ),
        ("notification gate", &[LockRank::NotificationState]),
        ("mount rundown", &[LockRank::MountRundown]),
    ];
    for (_, positions) in classes {
        for &p in *positions {
            let ctx = ctx(HeldLocks::none().acquire(p), TopLevelContext::Ordinary);
            assert_eq!(may_emit(&ctx, Effect::CompleteIrp), Err(LockOrderError::CompletionUnderLock));
        }
    }
}

#[test]
fn completion_with_nothing_held_is_permitted() {
    assert_eq!(
        may_emit(&EffectContext::empty(), Effect::CompleteIrp),
        Ok(())
    );
}

#[test]
fn the_seam_refuses_without_reaching_the_sink() {
    let mut s = seam();
    let held = HeldLocks::none().acquire(LockRank::SizeGate);
    let ctx = ctx(held, TopLevelContext::Ordinary);

    assert_eq!(
        s.emit(&ctx, Effect::Allocate(AllocTarget::Grant)),
        Err(LockOrderError::AdmissionUnderSizeGate)
    );
    assert!(
        s.sink_for_test().0.is_empty(),
        "a refused effect must not reach the sink"
    );

    assert_eq!(
        s.emit(&ctx, Effect::Wait(WaitTarget::ProviderRoundTrip)),
        Ok(())
    );
    assert_eq!(s.sink_for_test().0.len(), 1);
}

#[test]
fn a_refused_effect_is_not_recorded() {
    let mut s = seam();
    let ctx = ctx(
        HeldLocks::none().acquire(LockRank::Sequencer),
        TopLevelContext::Ordinary,
    );
    assert!(s.emit(&ctx, Effect::Allocate(AllocTarget::Pool)).is_err());
    assert!(s.entries().is_empty());
    assert!(s.sink_for_test().0.is_empty());
}

#[test]
fn the_recorder_sees_issue_order() {
    let mut s = seam();
    let ctx = EffectContext::empty();
    assert_eq!(s.emit(&ctx, Effect::Allocate(AllocTarget::Pool)), Ok(()));
    assert_eq!(s.emit(&ctx, Effect::CopyUserBuffer), Ok(()));
    assert_eq!(s.emit(&ctx, Effect::CompleteIrp), Ok(()));

    assert_eq!(
        s.sink_for_test().0,
        [
            Effect::Allocate(AllocTarget::Pool),
            Effect::CopyUserBuffer,
            Effect::CompleteIrp,
        ]
    );
    assert_before(&s, Effect::Allocate(AllocTarget::Pool), Effect::CompleteIrp);
    assert_count(&s, Effect::CopyUserBuffer, 1);
    assert_none_between(
        &s,
        |e| matches!(e, Effect::Free),
        Effect::Allocate(AllocTarget::Pool),
        Effect::CompleteIrp,
    );
}

#[test]
#[should_panic(expected = "to be absent between")]
fn assert_none_between_reports_a_violation() {
    let mut s = seam();
    let ctx = EffectContext::empty();
    assert_eq!(s.emit(&ctx, Effect::Allocate(AllocTarget::Pool)), Ok(()));
    assert_eq!(s.emit(&ctx, Effect::Free), Ok(()));
    assert_eq!(s.emit(&ctx, Effect::CompleteIrp), Ok(()));
    assert_none_between(
        &s,
        |e| matches!(e, Effect::Free),
        Effect::Allocate(AllocTarget::Pool),
        Effect::CompleteIrp,
    );
}

#[test]
#[should_panic(expected = "before")]
fn assert_before_reports_the_wrong_order() {
    let mut s = seam();
    let ctx = EffectContext::empty();
    assert_eq!(s.emit(&ctx, Effect::CompleteIrp), Ok(()));
    assert_eq!(s.emit(&ctx, Effect::CopyUserBuffer), Ok(()));
    assert_before(&s, Effect::CopyUserBuffer, Effect::CompleteIrp);
}

#[test]
#[should_panic(expected = "was never issued")]
fn assert_before_reports_an_effect_that_never_happened() {
    let s = seam();
    assert_before(&s, Effect::CopyUserBuffer, Effect::CompleteIrp);
}

#[test]
#[should_panic(expected = "saw")]
fn assert_count_reports_the_wrong_count() {
    let mut s = seam();
    assert_eq!(s.emit(&EffectContext::empty(), Effect::Free), Ok(()));
    assert_count(&s, Effect::Free, 2);
}

#[test]
fn a_guard_releases_exactly_what_it_acquired() {
    let mut ctx = EffectContext::empty();
    {
        let Ok(g) = ctx.acquire(LockRank::SizeGate) else {
            panic!("acquiring from an empty context must be legal")
        };
        assert!(g.context().held().holds(LockRank::SizeGate));
    }
    assert!(
        !ctx.held().holds(LockRank::SizeGate),
        "the guard must release"
    );
}

#[test]
fn a_conditional_guard_releases_only_what_it_acquired() {
    let mut ctx = EffectContext::empty();
    let Ok(mut outer) = ctx.acquire(LockRank::FcbPaging) else {
        panic!("acquiring from an empty context must be legal")
    };
    {
        let Ok(inner) = outer.acquire_if_unheld(LockRank::FcbPaging) else {
            panic!("a conditional acquisition of an already-held position cannot fail")
        };
        assert!(
            !inner.acquired_for_test(),
            "the thread already owns it, so the inner guard takes nothing"
        );
        assert!(inner.context().held().holds(LockRank::FcbPaging));
    }
    assert!(outer.context().held().holds(LockRank::FcbPaging));
    drop(outer);
    assert!(!ctx.held().holds(LockRank::FcbPaging));
}

#[test]
fn a_conditional_guard_that_did_acquire_releases() {
    let mut ctx = EffectContext::empty();
    {
        let Ok(g) = ctx.acquire_if_unheld(LockRank::FcbPaging) else {
            panic!("legal from empty")
        };
        assert!(g.acquired_for_test());
    }
    assert!(!ctx.held().holds(LockRank::FcbPaging));
}

#[test]
fn a_conditional_guard_still_refuses_an_illegal_acquisition() {
    let mut ctx = EffectContext::empty();
    let Ok(mut spin) = ctx.acquire(LockRank::Sequencer) else {
        panic!("legal from empty")
    };
    assert_eq!(
        spin.acquire_if_unheld(LockRank::SizeGate).err(),
        Some(LockOrderError::SpinLockNotLeaf),
        "spin locks are leaves, and a conditional acquisition does not exempt a path from that"
    );
    assert!(!spin.context().held().holds(LockRank::SizeGate));
}

#[test]
fn an_unconditional_guard_rejects_a_second_acquisition() {
    let mut ctx = EffectContext::empty();
    let Ok(mut outer) = ctx.acquire(LockRank::FcbPaging) else {
        panic!("legal from empty")
    };
    assert_eq!(
        outer.acquire(LockRank::FcbPaging).err(),
        Some(LockOrderError::AlreadyHeld)
    );
}

#[test]
fn a_guard_cannot_record_an_illegal_hold() {
    let mut ctx = EffectContext::empty();
    let Ok(mut later) = ctx.acquire(LockRank::SizeGate) else {
        panic!("legal from empty")
    };
    assert_eq!(
        later.acquire(LockRank::LifecycleAdmission).err(),
        Some(LockOrderError::OutOfOrder)
    );
    assert!(
        !later.context().held().holds(LockRank::LifecycleAdmission),
        "a refused acquisition must not appear in the held set"
    );
}

#[test]
fn only_a_spin_lock_guard_mints_dispatch() {
    let mut ctx = EffectContext::empty();
    {
        let Ok(g) = ctx.acquire(LockRank::SizeGate) else {
            panic!("legal")
        };
        assert!(g.dispatch_token().is_none());
    }
    let Ok(g) = ctx.acquire(LockRank::Sequencer) else {
        panic!("legal")
    };
    assert!(g.dispatch_token().is_some());
}

#[test]
fn no_rundown_drain_under_the_per_open_lifecycle_gate() {
    let held = HeldLocks::none().acquire(LockRank::PerOpenLifecycle);
    let ctx = ctx(held, TopLevelContext::Ordinary);
    assert_eq!(may_emit(&ctx, Effect::Wait(WaitTarget::Rundown)), Err(LockOrderError::DrainUnderLifecycleGate));
    assert_eq!(may_emit(&ctx, Effect::Wait(WaitTarget::ProviderRoundTrip)), Ok(()));
    assert_eq!(may_emit(&ctx, Effect::Allocate(AllocTarget::Pool)), Ok(()));
}

#[test]
fn the_effects_and_locks_06_section_7_names_are_refused_under_the_token() {
    let held = HeldLocks::none().acquire(LockRank::SoleConsumerToken);
    let ctx = ctx(held, TopLevelContext::Ordinary);

    for effect in [
        Effect::Wait(WaitTarget::ProviderRoundTrip),
        Effect::Wait(WaitTarget::AdmissionResource),
        Effect::Wait(WaitTarget::Rundown),
        Effect::Wait(WaitTarget::BlockingResource),
        Effect::PrivilegeOrAccessCheck,
        Effect::NotificationCallback,
    ] {
        assert_eq!(may_emit(&ctx, effect), Err(LockOrderError::WorkUnderSoleConsumerToken));
    }

    for next in [
        LockRank::FcbMain,
        LockRank::FcbPaging,
        LockRank::CcbLock,
        LockRank::DomainLock,
    ] {
        assert_eq!(
            may_acquire(held, next),
            Err(LockOrderError::AcquisitionUnderSoleConsumerToken),
            "no domain, file or open lock is taken while a token is held: {next:?}"
        );
    }
    assert_eq!(
        may_acquire(held, LockRank::OperationState),
        Ok(()),
        "the terminal owner is installed under the state lock while every token is held"
    );

    assert_eq!(
        may_emit(&ctx, Effect::CompleteIrp),
        Err(LockOrderError::CompletionUnderLock)
    );

    for permitted in [
        Effect::Allocate(AllocTarget::Pool),
        Effect::Free,
        Effect::CopyUserBuffer,
        Effect::CallProvider,
    ] {
        assert_eq!(may_emit(&ctx, permitted), Ok(()));
    }
}

#[test]
fn a_context_is_a_claim_about_now() {
    let mut ctx = ctx(HeldLocks::none(), TopLevelContext::Ordinary);
    {
        let Ok(g) = ctx.acquire(LockRank::Sequencer) else {
            panic!("legal from empty")
        };
        assert_eq!(
            may_emit(g.context(), Effect::CompleteIrp),
            Err(LockOrderError::CompletionUnderLock)
        );
        assert!(g.context().held().holds(LockRank::Sequencer));
    }
    assert!(!ctx.held().holds(LockRank::Sequencer));
    assert_eq!(may_emit(&ctx, Effect::CompleteIrp), Ok(()));
}

#[test]
fn a_clearance_is_refused_under_every_class_section_six_names() {
    let mut s = seam();
    assert_eq!(
        ALL_RANKS.len(),
        26,
        "ALL_RANKS changed size; this sweep is only exhaustive if it is driven by the whole set"
    );
    for position in ALL_RANKS {
        let held = ctx(
            HeldLocks::none().acquire(position),
            TopLevelContext::Ordinary,
        );
        assert_eq!(s.clear_completion(&held).err(), Some(LockOrderError::CompletionUnderLock));
    }
    for named in [
        LockRank::SoleConsumerToken,
        LockRank::DomainLock,
        LockRank::FcbMain,
        LockRank::FcbPaging,
        LockRank::CcbLock,
        LockRank::NotificationState,
        LockRank::MountRundown,
    ] {
        assert!(ALL_RANKS.contains(&named));
    }
    let empty = ctx(HeldLocks::none(), TopLevelContext::Ordinary);
    assert!(s.clear_completion(&empty).is_ok());
}

#[test]
fn a_granted_clearance_is_recorded() {
    let mut s = seam();
    let empty = ctx(HeldLocks::none(), TopLevelContext::Ordinary);
    assert!(s.clear_completion(&empty).is_ok());
    assert_count(&s, Effect::CompleteIrp, 1);
}

#[test]
fn a_record_holds_the_context_of_each_effect_and_no_refusal() {
    let mut s = seam();
    let held = HeldLocks::none().acquire(LockRank::SizeGate);
    let gated = ctx(held, TopLevelContext::CacheSentinel);
    assert_eq!(s.emit(&gated, Effect::CopyUserBuffer), Ok(()));
    assert!(s.clear_completion(&gated).is_err());
    assert_eq!(
        s.entries(),
        [(held, TopLevelContext::CacheSentinel, Effect::CopyUserBuffer)]
    );
    let mut plain = Seam::new(CountingSink(Vec::new()));
    assert_eq!(plain.emit(&gated, Effect::CopyUserBuffer), Ok(()));
    assert!(plain.entries().is_empty());
    assert_eq!(plain.sink_for_test().0, [Effect::CopyUserBuffer]);
}

#[test]
fn all_effects_has_no_duplicates() {
    for (i, a) in all_effects().iter().enumerate() {
        for b in all_effects().iter().skip(i.saturating_add(1)) {
            assert_ne!(a, b, "{a:?} appears twice in all_effects()");
        }
    }
}

#[test]
fn a_guard_emits_in_its_own_context() {
    let mut s = seam();
    let mut ctx = EffectContext::empty();
    let Ok(g) = ctx.acquire(LockRank::SizeGate) else {
        panic!("legal from empty")
    };
    assert_eq!(
        g.emit(&mut s, Effect::Allocate(AllocTarget::Pool)),
        Err(LockOrderError::AdmissionUnderSizeGate)
    );
    assert_eq!(g.emit(&mut s, Effect::CopyUserBuffer), Ok(()));
    assert_eq!(s.sink_for_test().0, [Effect::CopyUserBuffer]);
    drop(g);
    assert!(ctx.held().is_empty());
}

#[test]
fn holding_more_permits_no_more() {
    for rank in ALL_RANKS {
        for effect in all_effects() {
            for top in ALL_CONTEXTS {
                if may_emit(&ctx(HeldLocks::none(), top), effect).is_err() {
                    assert!(may_emit(&ctx(HeldLocks::none().acquire(rank), top), effect).is_err());
                }
            }
        }
    }
}

#[test]
fn a_terminal_wait_is_refused_under_the_ring_and_grant_locks_too() {
    for rank in [LockRank::RingSpin, LockRank::GrantSpin] {
        let held = HeldLocks::none().acquire(rank);
        for target in R2_LIFECYCLE_WAITS {
            assert!(is_wait(Effect::Wait(target)));
            assert_eq!(
                may_emit(&ctx(held, TopLevelContext::Ordinary), Effect::Wait(target)),
                Err(LockOrderError::LifecycleWaitUnderGuard)
            );
        }
    }
}

#[test]
fn a_held_set_takes_and_gives_back_one_position_at_a_time() {
    for rank in ALL_RANKS {
        let held = HeldLocks::none().acquire(rank);
        for other in ALL_RANKS {
            assert_eq!(held.holds(other), other == rank);
        }
        assert_eq!(held, HeldLocks::from_bits(1 << rank.index()));
        assert!(held.release(rank).is_empty());
    }
}
