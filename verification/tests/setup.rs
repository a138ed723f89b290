//! Setting up a session.

use fsring_core::abi::features::PlatformProfile;
use fsring_core::abi::identity::{BootInstanceId, MountId, SessionIdentity};
use fsring_core::adapter::setup::control_context::ControlContextCloseOwnership as O;
use fsring_core::adapter::setup::control_context::ControlContextLifetimeKind as K;
use fsring_core::adapter::setup::control_context::{
    ControlContextCloseEffect, ControlContextCloseOwnership, ControlContextClosePlan,
    ControlContextCloseProgress, ControlContextCreateEffect, ControlContextCreatePlan,
    ControlContextCreateRollbackEffect, ControlContextLifetimeKind,
};
use fsring_core::adapter::setup::entry::{
    PrecommitCleanupEffect, PrecommitCleanupPlan, PrecommitCleanupProgress, SetupEntryAdmission,
    SetupEntryEffect, SetupEntryPlan, SetupEntryProgress, SetupEntryRefusal,
    SetupEntryRefusalKind,
};
use fsring_core::adapter::setup::layout::{RegionDesc, RingLayout, SectionLayoutPlan};
use fsring_core::adapter::setup::native::SetupRollbackEffect as R;
use fsring_core::adapter::setup::native::{
    setup_rollback, CapturedProcessDisposition, NativeSetupPlan, PendingSetupEffect,
    ProtectedViewReceipt, ProtectedViewRollbackReceipt, SetupCommit, SetupEffect,
    SetupEffectOutcome, SetupFailurePlan, SetupPlanInput, SetupProgress, SetupRollbackEffect,
};
use fsring_core::adapter::setup::ownership::{
    OwnershipFault, RootRightState, SetupOwnership, ShellOwnerId, ShellOwnerState, VdoReadiness,
};
use fsring_core::adapter::setup::scratch::{scratch_roster, ScratchIdentity};
use fsring_core::adapter::setup::suffix::LockedSetupSuffixEffect as E;
use fsring_core::adapter::setup::suffix::{
    LockedSetupSuffixEffect, LockedSetupSuffixPlan, LockedSetupSuffixProgress,
    LockedSetupSuffixProof,
};
use fsring_core::adapter::AdapterPlanError;
use fsring_core::session::binding::{
    commit_prepared_reserved_setup_rollback, prepare_reserved_setup_rollback, BindingError,
    CleanupBindingClaim, ControlBinding, ControlBindingState, SetupEpochCursor,
    SetupRollbackDisposition,
};
use fsring_core::session::SessionLocator;

const BOOT: BootInstanceId = BootInstanceId {
    lo: 0x1122_3344_5566_7788,
    hi: 0x99AA_BBCC_DDEE_FF00,
};
const RANDOM_HIGH: u64 = 0xA5A5_A5A5_A5A5_A5A5;

const ALL_PROFILES: [PlatformProfile; 3] = [
    PlatformProfile::Win10X64,
    PlatformProfile::Win10Arm64,
    PlatformProfile::Win7X64,
];

const PAGE: u64 = 4096;

/// A layout whose ranges are whole pages, one after another.
fn layout_of(ring_count: u32, page: u64) -> SectionLayoutPlan {
    let mut at = 0u64;
    let mut region = |pages: u64| {
        let offset = at;
        at += pages * page;
        RegionDesc {
            offset,
            length: pages * page,
        }
    };
    let _header = region(1);
    let ring_directory = region(1);
    let rings = (0..ring_count)
        .map(|_| RingLayout {
            sq_producer: region(1),
            sq_consumer: region(1),
            sq_entries: region(2),
            cq_producer: region(1),
            cq_consumer: region(1),
            cq_entries: region(2),
        })
        .collect();
    let k2u_slots = region(4);
    let u2k_slots = region(4);
    SectionLayoutPlan {
        section_size: at,
        ring_directory,
        k2u_slots,
        u2k_slots,
        rings,
    }
}

fn layout(ring_count: u32) -> SectionLayoutPlan {
    layout_of(ring_count, PAGE)
}

/// Layouts of the same ring count and the same size that differ in one range.
fn lookalikes(layout: &SectionLayoutPlan) -> Vec<SectionLayoutPlan> {
    let mut others = vec![layout.clone(); 6];
    others[0].ring_directory.length -= 8;
    others[1].k2u_slots.offset += 64;
    others[2].u2k_slots.length -= 64;
    others[3].rings[0].sq_producer.offset += 64;
    others[4].rings[0].cq_entries.length -= 64;
    let last = others[5].rings.len() - 1;
    others[5].rings[last].sq_entries.offset += 64;
    others
}

fn plan_input(ring_count: u32, profile: PlatformProfile) -> SetupPlanInput {
    SetupPlanInput {
        boot_instance_id: BOOT,
        layout: layout(ring_count),
        implied_layout: layout(ring_count),
        required_size: 512,
        output_capacity: 512,
        profile,
    }
}

fn identity_of(mount_id: MountId) -> SessionIdentity {
    SessionIdentity {
        boot_instance_id: BOOT,
        mount_id,
        session_epoch: 1,
    }
}

fn burned_mount_id() -> MountId {
    MountId {
        lo: 1,
        hi: RANDOM_HIGH,
    }
}

fn canonical_outcome(pending: &PendingSetupEffect) -> SetupEffectOutcome {
    match pending.effect() {
        SetupEffect::BurnMountId => SetupEffectOutcome::MountIdBurned(burned_mount_id()),
        SetupEffect::BuildProtectedViews => {
            SetupEffectOutcome::ProtectedViewsBuilt(ProtectedViewReceipt {
                identity: pending.identity().expect("identity exists after the burn"),
                layout: pending.layout().clone(),
            })
        }
        _ => SetupEffectOutcome::Done,
    }
}

fn retained(pending: &PendingSetupEffect) -> ProtectedViewRollbackReceipt {
    ProtectedViewRollbackReceipt {
        identity: pending.identity().expect("identity"),
        layout: pending.layout().clone(),
        disposition: CapturedProcessDisposition::RetainedBySetup,
    }
}

enum RecordedEnd {
    Published(SetupCommit),
    Failure(SetupFailurePlan),
}

struct Recorder {
    effects: Vec<SetupEffect>,
    fail_at: Option<usize>,
}

impl Recorder {
    fn new(fail_at: Option<usize>) -> Self {
        Self {
            effects: Vec::new(),
            fail_at,
        }
    }

    fn run(&mut self, ring_count: u32, profile: PlatformProfile) -> RecordedEnd {
        let mut progress = NativeSetupPlan::begin(plan_input(ring_count, profile)).expect("begin");
        loop {
            match progress {
                SetupProgress::Published(commit) => return RecordedEnd::Published(commit),
                SetupProgress::Effect(pending) => {
                    let index = self.effects.len();
                    self.effects.push(pending.effect());
                    if self.fail_at == Some(index) {
                        return RecordedEnd::Failure(fail(pending));
                    }
                    let outcome = canonical_outcome(&pending);
                    progress = pending.succeeded(outcome).expect("canonical outcome");
                }
            }
        }
    }
}

fn fail(pending: PendingSetupEffect) -> SetupFailurePlan {
    if matches!(pending.effect(), SetupEffect::BuildProtectedViews) {
        let receipt = retained(&pending);
        pending
            .failed_protected_views(receipt)
            .map_err(|_| ())
            .expect("BuildProtectedViews admits the nested receipt")
    } else {
        pending
            .failed_native()
            .map_err(|_| ())
            .expect("every other effect admits a native failure")
    }
}

fn replay_to(target: SetupEffect, ring_count: u32) -> PendingSetupEffect {
    let mut progress =
        NativeSetupPlan::begin(plan_input(ring_count, PlatformProfile::Win10X64)).expect("begin");
    loop {
        match progress {
            SetupProgress::Published(_) => panic!("{target:?} is not in the roster"),
            SetupProgress::Effect(pending) => {
                if pending.effect() == target {
                    return pending;
                }
                let outcome = canonical_outcome(&pending);
                progress = pending.succeeded(outcome).expect("canonical");
            }
        }
    }
}

const RUNDOWN: &[SetupRollbackEffect] = &[R::ReleaseControlRundown];
const LOCK: &[SetupRollbackEffect] = &[R::ReleaseBootLockEvent, R::ReleaseControlRundown];
const LOCK_BURNED: &[SetupRollbackEffect] = &[
    R::PreserveBurnedMountId,
    R::ReleaseBootLockEvent,
    R::ReleaseControlRundown,
];
const BURNED: &[SetupRollbackEffect] = &[R::PreserveBurnedMountId, R::ReleaseControlRundown];
const SECTION: &[SetupRollbackEffect] = &[
    R::UnmapAndCloseSection,
    R::PreserveBurnedMountId,
    R::ReleaseControlRundown,
];
const GRANTS: &[SetupRollbackEffect] = &[
    R::FreeGrants,
    R::UnmapAndCloseSection,
    R::PreserveBurnedMountId,
    R::ReleaseControlRundown,
];
const EVENTS: &[SetupRollbackEffect] = &[
    R::FreeEventsAndScratch,
    R::FreeGrants,
    R::UnmapAndCloseSection,
    R::PreserveBurnedMountId,
    R::ReleaseControlRundown,
];
const VDO: &[SetupRollbackEffect] = &[
    R::DeleteVdo,
    R::FreeEventsAndScratch,
    R::FreeGrants,
    R::UnmapAndCloseSection,
    R::PreserveBurnedMountId,
    R::ReleaseControlRundown,
];
const PROCESS: &[SetupRollbackEffect] = &[
    R::ReleaseCapturedProcess,
    R::DeleteVdo,
    R::FreeEventsAndScratch,
    R::FreeGrants,
    R::UnmapAndCloseSection,
    R::PreserveBurnedMountId,
    R::ReleaseControlRundown,
];
const VIEWS: &[SetupRollbackEffect] = &[
    R::RollbackProtectedViews,
    R::ReleaseCapturedProcess,
    R::DeleteVdo,
    R::FreeEventsAndScratch,
    R::FreeGrants,
    R::UnmapAndCloseSection,
    R::PreserveBurnedMountId,
    R::ReleaseControlRundown,
];
const REFS: &[SetupRollbackEffect] = &[
    R::ReleaseStrongReferences,
    R::RollbackProtectedViews,
    R::ReleaseCapturedProcess,
    R::DeleteVdo,
    R::FreeEventsAndScratch,
    R::FreeGrants,
    R::UnmapAndCloseSection,
    R::PreserveBurnedMountId,
    R::ReleaseControlRundown,
];

fn expected_rollback(index: usize) -> &'static [SetupRollbackEffect] {
    match index {
        0 => &[],
        1..=4 => RUNDOWN,
        5 => LOCK,
        6 => LOCK_BURNED,
        7 | 8 => BURNED,
        9 | 10 => SECTION,
        11 => GRANTS,
        12 => EVENTS,
        13 => VDO,
        14 => PROCESS,
        15..=17 => VIEWS,
        _ => REFS,
    }
}

#[test]
fn success_walks_the_frozen_twenty_five_effect_order() {
    for profile in ALL_PROFILES {
        let mut recorder = Recorder::new(None);
        let end = recorder.run(2, profile);
        assert_eq!(recorder.effects, NativeSetupPlan::SUCCESS_EFFECTS.to_vec());
        match end {
            RecordedEnd::Published(commit) => {
                assert_eq!(commit.identity(), identity_of(burned_mount_id()));
            }
            RecordedEnd::Failure(_) => panic!("an unfailed run must publish"),
        }
    }
}

#[test]
fn output_validation_precedes_publication() {
    let effects = NativeSetupPlan::SUCCESS_EFFECTS;
    let validate = effects
        .iter()
        .position(|effect| matches!(effect, SetupEffect::ValidateOutput))
        .expect("ValidateOutput is in the roster");
    let build = effects
        .iter()
        .position(|effect| matches!(effect, SetupEffect::BuildOutput))
        .expect("BuildOutput is in the roster");
    let publish = effects
        .iter()
        .position(|effect| matches!(effect, SetupEffect::PublishLockedSuffix))
        .expect("PublishLockedSuffix is in the roster");
    let install = effects
        .iter()
        .position(|effect| matches!(effect, SetupEffect::InstallStaging))
        .expect("InstallStaging is in the roster");
    let copy = effects
        .iter()
        .position(|effect| matches!(effect, SetupEffect::CopyValidatedOutput))
        .expect("CopyValidatedOutput is in the roster");
    assert!(
        build < validate,
        "the output is built before it is validated"
    );
    assert!(
        validate < install && install < copy && copy < publish,
        "no reference is installed and nothing is published before the complete output validates"
    );
}

#[test]
fn the_burn_precedes_every_resource_and_follows_the_lock() {
    let effects = NativeSetupPlan::SUCCESS_EFFECTS;
    let acquire = effects
        .iter()
        .position(|e| matches!(e, SetupEffect::AcquireBootLockEvent))
        .unwrap();
    let burn = effects
        .iter()
        .position(|e| matches!(e, SetupEffect::BurnMountId))
        .unwrap();
    let release = effects
        .iter()
        .position(|e| matches!(e, SetupEffect::ReleaseBootLockEvent))
        .unwrap();
    let allocate = effects
        .iter()
        .position(|e| matches!(e, SetupEffect::AllocateSectionAndSystemView))
        .unwrap();
    assert!(acquire < burn && burn < release && release < allocate);
}

#[test]
fn a_short_output_buffer_is_refused_before_any_effect() {
    let mut input = plan_input(2, PlatformProfile::Win10X64);
    input.output_capacity -= 1;
    assert_eq!(
        NativeSetupPlan::begin(input).err(),
        Some(AdapterPlanError::Capacity),
    );
}

#[test]
fn a_disagreeing_layout_is_refused_before_any_effect() {
    let mut input = plan_input(2, PlatformProfile::Win10X64);
    input.layout = layout(3);
    assert_eq!(
        NativeSetupPlan::begin(input).err(),
        Some(AdapterPlanError::InvalidInput),
    );
}

#[test]
fn every_effect_rejects_a_foreign_outcome() {
    let mut progress =
        NativeSetupPlan::begin(plan_input(1, PlatformProfile::Win10X64)).expect("begin");
    loop {
        match progress {
            SetupProgress::Published(_) => break,
            SetupProgress::Effect(pending) => {
                let effect = pending.effect();
                let foreign = match effect {
                    SetupEffect::BurnMountId | SetupEffect::BuildProtectedViews => {
                        SetupEffectOutcome::Done
                    }
                    _ => SetupEffectOutcome::MountIdBurned(burned_mount_id()),
                };
                let canonical = canonical_outcome(&pending);
                let rejected = replay_to(effect, 1).succeeded(foreign);
                assert_eq!(
                    rejected.err(),
                    Some(AdapterPlanError::InvalidInput),
                    "{effect:?} must reject a foreign outcome",
                );
                progress = pending.succeeded(canonical).expect("canonical");
            }
        }
    }
}

#[test]
fn a_second_burn_is_refused() {
    let pending = replay_to(SetupEffect::ReleaseBootLockEvent, 1);
    assert_eq!(
        pending
            .succeeded(SetupEffectOutcome::MountIdBurned(burned_mount_id()))
            .err(),
        Some(AdapterPlanError::InvalidInput),
    );
}

#[test]
fn every_precommit_failure_unwinds_in_exact_reverse() {
    let publish = NativeSetupPlan::SUCCESS_EFFECTS
        .iter()
        .position(|e| matches!(e, SetupEffect::PublishLockedSuffix))
        .unwrap();
    for index in 0..publish {
        let mut recorder = Recorder::new(Some(index));
        let end = recorder.run(2, PlatformProfile::Win10X64);
        match end {
            RecordedEnd::Failure(SetupFailurePlan::Rollback(rollback)) => {
                assert_eq!(
                    rollback.effects(),
                    expected_rollback(index),
                    "failure at effect {index} ({:?})",
                    NativeSetupPlan::SUCCESS_EFFECTS[index],
                );
            }
            _ => panic!("a precommit failure at {index} must roll back"),
        }
    }
}

#[test]
fn failure_after_publication_completes_the_published_session() {
    let publish = NativeSetupPlan::SUCCESS_EFFECTS
        .iter()
        .position(|e| matches!(e, SetupEffect::PublishLockedSuffix))
        .unwrap();
    for index in publish.saturating_add(1)..NativeSetupPlan::SUCCESS_EFFECTS.len() {
        let mut recorder = Recorder::new(Some(index));
        match recorder.run(2, PlatformProfile::Win10X64) {
            RecordedEnd::Failure(SetupFailurePlan::CompletePublished(commit)) => {
                assert_eq!(commit.identity(), identity_of(burned_mount_id()));
            }
            _ => panic!("cancellation loses at or after the Release commit ({index})"),
        }
    }
}

#[test]
fn a_failure_reported_for_publication_itself_still_unwinds() {
    let publish = NativeSetupPlan::SUCCESS_EFFECTS
        .iter()
        .position(|e| matches!(e, SetupEffect::PublishLockedSuffix))
        .unwrap();
    let mut recorder = Recorder::new(Some(publish));
    match recorder.run(2, PlatformProfile::Win10X64) {
        RecordedEnd::Failure(SetupFailurePlan::Rollback(rollback)) => {
            let effects = rollback.effects();
            assert!(
                effects.contains(&SetupRollbackEffect::ReleaseStrongReferences),
                "the references installed immediately before the commit are released: {effects:?}",
            );
            assert!(
                effects.contains(&SetupRollbackEffect::PreserveBurnedMountId),
                "a rollback after the burn never hands the MountId back: {effects:?}",
            );
        }
        RecordedEnd::Failure(SetupFailurePlan::CompletePublished(_)) => {
            panic!("a failure reported for the commit itself must unwind, not publish")
        }
        RecordedEnd::Published(_) => panic!("the injected failure was not observed"),
    }
}

#[test]
fn a_burned_mount_id_is_never_reused_by_the_rollback() {
    for index in 6..15 {
        let mut recorder = Recorder::new(Some(index));
        let RecordedEnd::Failure(SetupFailurePlan::Rollback(rollback)) =
            recorder.run(2, PlatformProfile::Win10X64)
        else {
            panic!("precommit rollback expected at {index}");
        };
        assert!(
            rollback
                .effects()
                .contains(&SetupRollbackEffect::PreserveBurnedMountId),
            "a rollback after the burn must preserve it ({index})",
        );
    }
    for index in 0..6 {
        let mut recorder = Recorder::new(Some(index));
        let RecordedEnd::Failure(SetupFailurePlan::Rollback(rollback)) =
            recorder.run(2, PlatformProfile::Win10X64)
        else {
            panic!("precommit rollback expected at {index}");
        };
        assert!(
            !rollback
                .effects()
                .contains(&SetupRollbackEffect::PreserveBurnedMountId),
            "nothing is burned before BurnMountId succeeds ({index})",
        );
    }
}

#[test]
fn failed_native_is_refused_inside_build_protected_views() {
    let pending = replay_to(SetupEffect::BuildProtectedViews, 1);
    let (error, returned) = pending.failed_native().err().expect("refused");
    assert_eq!(error, AdapterPlanError::InvalidTransition);
    assert_eq!(returned.effect(), SetupEffect::BuildProtectedViews);
}

#[test]
fn failed_protected_views_is_refused_outside_build_protected_views() {
    let pending = replay_to(SetupEffect::CaptureProcess, 1);
    let receipt = retained(&pending);
    let (error, returned, returned_receipt) = pending
        .failed_protected_views(receipt.clone())
        .err()
        .expect("refused");
    assert_eq!(error, AdapterPlanError::InvalidTransition);
    assert_eq!(returned.effect(), SetupEffect::CaptureProcess);
    assert_eq!(returned_receipt, receipt);
}

#[test]
fn a_receipt_built_for_another_geometry_is_refused() {
    let pending = replay_to(SetupEffect::BuildProtectedViews, 2);
    let other_geometry = layout_of(2, PAGE * 2);
    assert_ne!(other_geometry, *pending.layout());
    assert_eq!(other_geometry.rings.len(), pending.layout().rings.len());
    let receipt = ProtectedViewReceipt {
        identity: pending.identity().expect("identity"),
        layout: other_geometry,
    };
    assert_eq!(
        pending
            .succeeded(SetupEffectOutcome::ProtectedViewsBuilt(receipt))
            .err(),
        Some(AdapterPlanError::InvalidTransition),
        "a receipt answers one plan's geometry, never another's",
    );
}

#[test]
fn a_layout_of_the_same_rings_and_size_is_still_another_layout() {
    for other in lookalikes(&layout(2)) {
        assert_eq!(other.section_size(), layout(2).section_size());
        assert!(!other.agrees_with(&layout(2)));
        let mut input = plan_input(2, PlatformProfile::Win10X64);
        input.layout = other.clone();
        assert_eq!(
            NativeSetupPlan::begin(input).err(),
            Some(AdapterPlanError::InvalidInput),
        );
        let pending = replay_to(SetupEffect::BuildProtectedViews, 2);
        let identity = pending.identity().expect("identity");
        assert_eq!(
            pending
                .succeeded(SetupEffectOutcome::ProtectedViewsBuilt(ProtectedViewReceipt {
                    identity,
                    layout: other.clone(),
                }))
                .err(),
            Some(AdapterPlanError::InvalidTransition),
        );
        let pending = replay_to(SetupEffect::BuildProtectedViews, 2);
        let receipt = ProtectedViewRollbackReceipt {
            layout: other.clone(),
            ..retained(&pending)
        };
        let (error, _, returned) = pending
            .failed_protected_views(receipt)
            .err()
            .expect("refused");
        assert_eq!(error, AdapterPlanError::InvalidTransition);
        assert_eq!(returned.layout, other);
    }
    assert!(layout(2).agrees_with(&layout(2)));
    assert!(!layout(2).agrees_with(&layout(3)));
}

#[test]
fn a_layout_names_its_ranges() {
    let plan = layout(3);
    assert_eq!(plan.ring(2), Some(plan.rings[2]));
    assert_eq!(plan.ring(3), None);
    assert_eq!(
        plan.ring_directory(),
        RegionDesc {
            offset: PAGE,
            length: PAGE
        }
    );
    assert_eq!(plan.u2k_slots(), plan.u2k_slots);
    assert_eq!(plan.section_size(), 34 * PAGE);
}

#[test]
fn a_foreign_receipt_is_refused_on_the_failure_path_too() {
    let pending = replay_to(SetupEffect::BuildProtectedViews, 1);
    let receipt = ProtectedViewRollbackReceipt {
        identity: identity_of(MountId { lo: 9, hi: 9 }),
        ..retained(&pending)
    };
    let (error, _, returned_receipt) = pending
        .failed_protected_views(receipt)
        .err()
        .expect("refused");
    assert_eq!(error, AdapterPlanError::InvalidTransition);
    assert_eq!(
        returned_receipt.identity,
        identity_of(MountId { lo: 9, hi: 9 }),
        "the refusal hands the foreign receipt back rather than absorbing it",
    );
}

#[test]
fn a_nested_release_removes_the_outer_process_release() {
    let pending = replay_to(SetupEffect::BuildProtectedViews, 1);
    let receipt = ProtectedViewRollbackReceipt {
        disposition: CapturedProcessDisposition::ReleasedByProtectedViews,
        ..retained(&pending)
    };
    let failure = pending
        .failed_protected_views(receipt)
        .map_err(|_| ())
        .expect("accepted");
    let SetupFailurePlan::Rollback(rollback) = failure else {
        panic!("precommit");
    };
    assert!(
        !rollback
            .effects()
            .contains(&SetupRollbackEffect::ReleaseCapturedProcess),
        "the nested plan already released the reference",
    );
    assert_eq!(rollback.effects(), expected_rollback(13));
}

#[test]
fn a_retained_process_keeps_exactly_one_outer_release() {
    let pending = replay_to(SetupEffect::BuildProtectedViews, 1);
    let receipt = retained(&pending);
    let failure = pending
        .failed_protected_views(receipt)
        .map_err(|_| ())
        .expect("accepted");
    let SetupFailurePlan::Rollback(rollback) = failure else {
        panic!("precommit");
    };
    assert_eq!(
        rollback
            .effects()
            .iter()
            .filter(|e| matches!(e, SetupRollbackEffect::ReleaseCapturedProcess))
            .count(),
        1,
        "exactly one release, never zero and never two",
    );
}

#[test]
fn a_foreign_protected_view_receipt_is_refused() {
    let pending = replay_to(SetupEffect::BuildProtectedViews, 2);
    let receipt = ProtectedViewReceipt {
        identity: identity_of(MountId { lo: 7, hi: 7 }),
        layout: pending.layout().clone(),
    };
    assert_eq!(
        pending
            .succeeded(SetupEffectOutcome::ProtectedViewsBuilt(receipt))
            .err(),
        Some(AdapterPlanError::InvalidTransition),
    );
}

#[test]
fn the_plan_remembers_the_capacity_it_was_admitted_against() {
    let input = plan_input(2, PlatformProfile::Win10X64);
    let capacity = input.output_capacity;
    let SetupProgress::Effect(pending) = NativeSetupPlan::begin(input.clone()).expect("begin") else {
        panic!("an effect");
    };
    assert_eq!(pending.output_capacity(), capacity);
    assert!(pending.output_capacity() >= input.required_size);
    assert_eq!(pending.profile(), PlatformProfile::Win10X64);
}

#[test]
fn the_rollback_follows_the_table_for_every_count_of_effects() {
    for done in 0..20 {
        assert_eq!(
            setup_rollback(done, CapturedProcessDisposition::RetainedBySetup).effects(),
            expected_rollback(done),
        );
    }
}

#[test]
fn every_drain_scratch_and_the_fence_scratch_are_pairwise_distinct() {
    let mut identities = Vec::new();
    for ring_index in 0..64u32 {
        let scratch = ScratchIdentity::drain(ring_index);
        identities.push(scratch);
    }
    identities.push(ScratchIdentity::fence());
    assert_eq!(identities.len(), 65);
    for (left_index, left) in identities.iter().enumerate() {
        for (right_index, right) in identities.iter().enumerate() {
            if left_index != right_index {
                assert_ne!(
                    left, right,
                    "scratch {left_index} and {right_index} collide",
                );
            }
        }
    }
}

#[test]
fn the_scratch_roster_is_one_distinct_identity_per_ring_plus_the_fence() {
    let mut out = [ScratchIdentity::fence(); 65];
    let written = scratch_roster(64, &mut out).expect("the roster fits");
    assert_eq!(written, 65, "sixty-four ring identities plus one fence");
    for (index, scratch) in out.iter().enumerate().take(64) {
        assert_eq!(
            *scratch,
            ScratchIdentity::drain(index as u32),
            "ring {index} did not get its own identity",
        );
    }
    assert_eq!(out[64], ScratchIdentity::fence());
    for (left, first) in out.iter().enumerate() {
        for (right, second) in out.iter().enumerate() {
            if left != right {
                assert_ne!(first, second, "roster entries {left} and {right} alias");
            }
        }
    }
    let mut short = [ScratchIdentity::fence(); 4];
    assert_eq!(
        scratch_roster(64, &mut short).err(),
        Some(AdapterPlanError::Capacity),
        "a roster that does not fit is refused rather than truncated",
    );
}

#[test]
fn the_fence_scratch_is_not_any_ring_drain_scratch() {
    let fence = ScratchIdentity::fence();
    for ring_index in 0..64u32 {
        assert_ne!(ScratchIdentity::drain(ring_index), fence);
    }
}

fn drive_setup_entry(
    binding: &mut ControlBinding,
    prior_setup_complete: bool,
) -> Result<SetupEntryAdmission, SetupEntryRefusal> {
    let mut progress = SetupEntryPlan::begin(binding, prior_setup_complete)?;
    loop {
        progress = match progress {
            SetupEntryProgress::Effect(effect) => effect.succeeded(),
            SetupEntryProgress::Admitted(admission) => return Ok(admission),
        };
    }
}

fn drive_precommit_cleanup(claim: CleanupBindingClaim) -> Vec<PrecommitCleanupEffect> {
    let mut effects = Vec::new();
    let mut progress = PrecommitCleanupPlan::begin(claim);
    loop {
        match progress {
            PrecommitCleanupProgress::Effect(effect) => {
                effects.push(effect.effect());
                progress = effect.succeeded();
            }
            PrecommitCleanupProgress::Complete(_) => return effects,
        }
    }
}

#[test]
fn cleanup_before_install_forces_exact_setup_rollback() {
    let mut binding = ControlBinding::new();
    let reservation = binding.begin_setup().expect("reservation");
    let claim = binding.claim_cleanup().expect("cleanup claims staging");
    assert!(matches!(claim, CleanupBindingClaim::Setup(_)));
    let prepared = prepare_reserved_setup_rollback(&binding, reservation).expect("prepare");
    assert_eq!(
        commit_prepared_reserved_setup_rollback(prepared, &mut binding),
        SetupRollbackDisposition::RemainsClosing
    );
    assert!(matches!(
        binding.state(),
        ControlBindingState::ClosingSetup(_)
    ));
}

#[test]
fn cleanup_cannot_split_core_live_from_binding_active() {
    let mut plan = LockedSetupSuffixPlan::begin();
    while let LockedSetupSuffixProgress::Effect(effect) = plan {
        assert!(!effect.cleanup_may_interleave());
        plan = effect.succeeded();
    }
    let LockedSetupSuffixProgress::Complete(proof) = plan else {
        panic!("suffix must complete")
    };
    assert!(proof.registry_lock_released_only_after_vdo_publication());
}

fn drive_locked_suffix() -> (Vec<LockedSetupSuffixEffect>, LockedSetupSuffixProof) {
    let mut effects = Vec::new();
    let mut progress = LockedSetupSuffixPlan::begin();
    loop {
        match progress {
            LockedSetupSuffixProgress::Effect(effect) => {
                assert!(
                    !effect.cleanup_may_interleave(),
                    "the locked suffix admits no cleanup interleaving"
                );
                effects.push(effect.effect());
                progress = effect.succeeded();
            }
            LockedSetupSuffixProgress::Complete(proof) => return (effects, proof),
        }
    }
}

#[test]
fn locked_suffix_installs_runtime_then_publishes_core_then_the_vdo_flag() {
    let (effects, proof) = drive_locked_suffix();
    assert_eq!(
        effects,
        [
            LockedSetupSuffixEffect::ActivateNativeMountRendezvous,
            LockedSetupSuffixEffect::InstallPendingRuntime,
            LockedSetupSuffixEffect::CommitCoreRingSetupPublication,
            LockedSetupSuffixEffect::TransferLeaseToControlOwner,
            LockedSetupSuffixEffect::PublishBindingPhase,
            LockedSetupSuffixEffect::WriteVdoLocator,
            LockedSetupSuffixEffect::ClearVdoInitializing,
            LockedSetupSuffixEffect::ReleaseRegistryLock,
        ]
    );
    assert!(proof.registry_lock_released_only_after_vdo_publication());
    assert!(
        proof.vdo_locator_written_before_initializing_cleared(),
        "the locator must reach the VDO before the device becomes openable"
    );
    assert!(
        proof.pending_runtime_installed_before_core_live(),
        "a Live session whose cell has no pending runtime is addressable by an \
         ENTER that then has nowhere to park"
    );
}

fn shell() -> ShellOwnerId {
    ShellOwnerId::new(0x5158_0001)
}

fn locator_for(mount_lo: u64) -> SessionLocator {
    SessionLocator {
        identity: identity_of(MountId {
            lo: mount_lo,
            hi: RANDOM_HIGH,
        }),
        slot: 0,
        generation: 1,
    }
}

fn owned_locator() -> SessionLocator {
    locator_for(1)
}

fn ready_vdo(shell: ShellOwnerId) -> VdoReadiness {
    VdoReadiness {
        shell,
        device_initializing: true,
        locator_uninitialized: true,
    }
}

#[test]
fn setup_allocation_to_staging_to_live_moves_one_shell_and_root_owner() {
    let locator = owned_locator();
    let mut ownership = SetupOwnership::new();
    assert_eq!(ownership.shell(), ShellOwnerState::Absent);
    assert_eq!(ownership.root(), RootRightState::Absent);
    assert_eq!(
        ownership.install_staging(locator),
        Err(OwnershipFault::Fabricated)
    );
    assert_eq!(
        ownership.preflight_publication(locator, ready_vdo(shell())),
        Err(OwnershipFault::Fabricated)
    );
    ownership.allocate(shell()).expect("sole allocation");
    assert_eq!(ownership.shell(), ShellOwnerState::Unpublished(shell()));
    assert_eq!(
        ownership.allocate(ShellOwnerId::new(0x9999)),
        Err(OwnershipFault::NotRepeatable)
    );
    ownership
        .install_staging(locator)
        .expect("brand and acquire");
    assert_eq!(
        ownership.shell(),
        ShellOwnerState::Branded { id: shell(),
            locator }
    );
    assert_eq!(ownership.root(), RootRightState::Acquired(locator));
    ownership
        .deposit(locator, ready_vdo(shell()))
        .expect("locked suffix deposit");
    assert_eq!(
        ownership.shell(),
        ShellOwnerState::CellOwned { id: shell(),
            locator }
    );
    assert_eq!(ownership.root(), RootRightState::CellOwned(locator));
    assert_eq!(
        ownership.destroy_shell(),
        Err(OwnershipFault::NotRepeatable)
    );
    assert_eq!(ownership.release_root(), Err(OwnershipFault::NotRepeatable));
    assert_eq!(ownership.shell_destroy_count(), 0);
    assert_eq!(ownership.root_release_count(), 0);
}

#[test]
fn every_setup_rollback_releases_root_and_destroys_shell_exactly_once() {
    let locator = owned_locator();
    let mut reserved = SetupOwnership::new();
    reserved.rollback().expect("reserved rollback");
    assert_eq!(reserved.shell_destroy_count(), 0);
    assert_eq!(reserved.root_release_count(), 0);
    let mut uninstalled = SetupOwnership::new();
    uninstalled.allocate(shell()).expect("allocate");
    uninstalled.rollback().expect("uninstalled rollback");
    assert_eq!(uninstalled.shell_destroy_count(), 1);
    assert_eq!(uninstalled.root_release_count(), 0);
    assert_eq!(uninstalled.shell(), ShellOwnerState::Destroyed(shell()));
    let mut installed = SetupOwnership::new();
    installed.allocate(shell()).expect("allocate");
    installed.install_staging(locator).expect("stage");
    installed.rollback().expect("installed rollback");
    assert_eq!(installed.shell_destroy_count(), 1);
    assert_eq!(installed.root_release_count(), 1);
    assert_eq!(installed.root(), RootRightState::Released(locator));
    assert_eq!(installed.release_root(), Err(OwnershipFault::NotRepeatable));
    assert_eq!(
        installed.destroy_shell(),
        Err(OwnershipFault::NotRepeatable)
    );
    assert_eq!(installed.shell_destroy_count(), 1);
    assert_eq!(installed.root_release_count(), 1);
}

#[test]
fn nothing_may_be_freed_or_released_that_was_never_obtained() {
    let mut fresh = SetupOwnership::new();
    assert_eq!(fresh.destroy_shell(), Err(OwnershipFault::Fabricated));
    assert_eq!(fresh.release_root(), Err(OwnershipFault::Fabricated));
    assert_eq!(fresh.shell_destroy_count(), 0);
    assert_eq!(fresh.root_release_count(), 0);
    assert_eq!(fresh.shell(), ShellOwnerState::Absent);
    assert_eq!(fresh.root(), RootRightState::Absent);
    let mut allocated = SetupOwnership::new();
    allocated.allocate(shell()).expect("allocate");
    assert_eq!(allocated.release_root(), Err(OwnershipFault::Fabricated));
    assert_eq!(allocated.root_release_count(), 0);
    allocated.destroy_shell().expect("the shell owner exists");
    assert_eq!(allocated.shell_destroy_count(), 1);
}

#[test]
fn publication_refusal_returns_shell_root_and_mount_right_without_mutation() {
    let locator = owned_locator();
    let foreign = locator_for(2);
    assert_ne!(locator, foreign);
    let mut ownership = SetupOwnership::new();
    ownership.allocate(shell()).expect("allocate");
    ownership.install_staging(locator).expect("stage");
    let before = ownership;
    assert_eq!(
        ownership.deposit(foreign, ready_vdo(shell())),
        Err(OwnershipFault::WrongLocator)
    );
    assert_eq!(ownership, before, "refusal must be byte-identical");
    assert_eq!(
        ownership.deposit(locator, ready_vdo(ShellOwnerId::new(0xDEAD))),
        Err(OwnershipFault::UnusableVdo)
    );
    assert_eq!(ownership, before, "refusal must be byte-identical");
    ownership
        .deposit(locator, ready_vdo(shell()))
        .expect("publication still available after refusals");
    assert_eq!(ownership.root(), RootRightState::CellOwned(locator));
}

#[test]
fn a_released_root_right_is_not_published() {
    let locator = owned_locator();
    let mut ownership = SetupOwnership::new();
    ownership.allocate(shell()).expect("allocate");
    ownership.install_staging(locator).expect("stage");
    ownership.release_root().expect("the setup's still");
    let before = ownership;
    assert_eq!(
        ownership.preflight_publication(locator, ready_vdo(shell())),
        Err(OwnershipFault::NotRepeatable)
    );
    assert_eq!(
        ownership.deposit(locator, ready_vdo(shell())),
        Err(OwnershipFault::NotRepeatable)
    );
    assert_eq!(ownership, before, "refusal must be byte-identical");
    assert_eq!(ownership.root(), RootRightState::Released(locator));
}

#[test]
fn publication_refuses_noninitializing_or_foreign_vdo_without_mutation() {
    let locator = owned_locator();
    let mut ownership = SetupOwnership::new();
    ownership.allocate(shell()).expect("allocate");
    ownership.install_staging(locator).expect("stage");
    let before = ownership;
    let unusable = [
        VdoReadiness {
            shell: shell(),
            device_initializing: false,
            locator_uninitialized: true,
        },
        VdoReadiness {
            shell: shell(),
            device_initializing: true,
            locator_uninitialized: false,
        },
        VdoReadiness {
            shell: ShellOwnerId::new(0xBEEF),
            device_initializing: true,
            locator_uninitialized: true,
        },
    ];
    for vdo in unusable {
        assert_eq!(
            ownership.preflight_publication(locator, vdo),
            Err(OwnershipFault::UnusableVdo),
            "unusable VDO {vdo:?} must be refused"
        );
        assert_eq!(
            ownership.deposit(locator, vdo),
            Err(OwnershipFault::UnusableVdo)
        );
        assert_eq!(ownership, before, "refusal must leave the owners untouched");
    }
    ownership
        .preflight_publication(locator, ready_vdo(shell()))
        .expect("a still-initializing VDO owned by this shell is accepted");
}

#[test]
fn locked_suffix_activates_native_mount_before_core_live() {
    let (effects, proof) = drive_locked_suffix();
    assert!(
        proof.mount_activated_before_core_live(),
        "a Live cell whose mount rendezvous is still inactive is reachable by \
         terminalization that cannot then take or join the mount"
    );
    let position = |wanted: LockedSetupSuffixEffect| {
        effects
            .iter()
            .position(|effect| *effect == wanted)
            .expect("effect runs in the locked suffix")
    };
    assert!(
        position(LockedSetupSuffixEffect::ActivateNativeMountRendezvous)
            < position(LockedSetupSuffixEffect::CommitCoreRingSetupPublication)
    );
    assert!(
        position(LockedSetupSuffixEffect::CommitCoreRingSetupPublication)
            < position(LockedSetupSuffixEffect::ReleaseRegistryLock)
    );
    assert_eq!(
        effects
            .iter()
            .filter(|effect| **effect == LockedSetupSuffixEffect::ActivateNativeMountRendezvous)
            .count(),
        1,
        "the mount is activated exactly once"
    );
}

#[test]
fn vdo_locator_is_written_before_device_initializing_is_cleared() {
    let (effects, proof) = drive_locked_suffix();
    assert!(proof.vdo_locator_written_before_initializing_cleared());
    let position = |wanted: LockedSetupSuffixEffect| {
        effects
            .iter()
            .position(|effect| *effect == wanted)
            .expect("effect runs in the locked suffix")
    };
    assert!(
        position(LockedSetupSuffixEffect::WriteVdoLocator)
            < position(LockedSetupSuffixEffect::ClearVdoInitializing)
    );
    assert!(
        position(LockedSetupSuffixEffect::ClearVdoInitializing)
            < position(LockedSetupSuffixEffect::ReleaseRegistryLock)
    );
    assert_eq!(
        effects
            .iter()
            .filter(|effect| **effect == LockedSetupSuffixEffect::WriteVdoLocator)
            .count(),
        1,
        "the locator is written exactly once"
    );
}

fn proof_of_suffix_roster(roster: [LockedSetupSuffixEffect; 8]) -> LockedSetupSuffixProof {
    let mut progress = LockedSetupSuffixPlan::begin_with_roster(roster);
    loop {
        match progress {
            LockedSetupSuffixProgress::Effect(effect) => progress = effect.succeeded(),
            LockedSetupSuffixProgress::Complete(proof) => return proof,
        }
    }
}

#[test]
fn locked_suffix_proofs_reject_the_orders_they_forbid() {
    let core_live_first = proof_of_suffix_roster([
        E::CommitCoreRingSetupPublication,
        E::ActivateNativeMountRendezvous,
        E::InstallPendingRuntime,
        E::TransferLeaseToControlOwner,
        E::PublishBindingPhase,
        E::WriteVdoLocator,
        E::ClearVdoInitializing,
        E::ReleaseRegistryLock,
    ]);
    assert!(
        !core_live_first.mount_activated_before_core_live(),
        "a suffix that goes Live before activating the mount must not prove it did not"
    );
    assert!(core_live_first.registry_lock_released_only_after_vdo_publication());
    assert!(core_live_first.vdo_locator_written_before_initializing_cleared());
    let never_activated = proof_of_suffix_roster([
        E::InstallPendingRuntime,
        E::CommitCoreRingSetupPublication,
        E::TransferLeaseToControlOwner,
        E::PublishBindingPhase,
        E::WriteVdoLocator,
        E::ClearVdoInitializing,
        E::ReleaseRegistryLock,
        E::ReleaseRegistryLock,
    ]);
    assert!(
        !never_activated.mount_activated_before_core_live(),
        "an absent mount activation must not satisfy the ordering proof"
    );
    let released_before_vdo = proof_of_suffix_roster([
        E::ActivateNativeMountRendezvous,
        E::InstallPendingRuntime,
        E::CommitCoreRingSetupPublication,
        E::TransferLeaseToControlOwner,
        E::PublishBindingPhase,
        E::WriteVdoLocator,
        E::ReleaseRegistryLock,
        E::ClearVdoInitializing,
    ]);
    assert!(
        !released_before_vdo.registry_lock_released_only_after_vdo_publication(),
        "releasing the registry lock before the VDO is published must not prove the opposite"
    );
    assert!(released_before_vdo.mount_activated_before_core_live());
    let cleared_before_locator = proof_of_suffix_roster([
        E::ActivateNativeMountRendezvous,
        E::InstallPendingRuntime,
        E::CommitCoreRingSetupPublication,
        E::TransferLeaseToControlOwner,
        E::PublishBindingPhase,
        E::ClearVdoInitializing,
        E::WriteVdoLocator,
        E::ReleaseRegistryLock,
    ]);
    assert!(
        !cleared_before_locator.vdo_locator_written_before_initializing_cleared(),
        "clearing the initializing flag first must not prove the locator was there"
    );
    assert!(cleared_before_locator.registry_lock_released_only_after_vdo_publication());
    let never_written = proof_of_suffix_roster([
        E::ActivateNativeMountRendezvous,
        E::InstallPendingRuntime,
        E::CommitCoreRingSetupPublication,
        E::TransferLeaseToControlOwner,
        E::PublishBindingPhase,
        E::PublishBindingPhase,
        E::ClearVdoInitializing,
        E::ReleaseRegistryLock,
    ]);
    assert!(!never_written.vdo_locator_written_before_initializing_cleared());
    let neither = proof_of_suffix_roster([
        E::TransferLeaseToControlOwner,
        E::PublishBindingPhase,
        E::TransferLeaseToControlOwner,
        E::PublishBindingPhase,
        E::TransferLeaseToControlOwner,
        E::PublishBindingPhase,
        E::TransferLeaseToControlOwner,
        E::PublishBindingPhase,
    ]);
    assert!(!neither.mount_activated_before_core_live());
    assert!(!neither.registry_lock_released_only_after_vdo_publication());
    assert!(!neither.vdo_locator_written_before_initializing_cleared());
}

#[test]
fn setup_tail_releases_admission_then_signals_then_returns_before_outer_control_release() {
    let tail = NativeSetupPlan::SUCCESS_EFFECTS;
    let tail = &tail[tail.len() - 5..];
    assert_eq!(
        tail,
        [
            SetupEffect::EmitSessionPublished,
            SetupEffect::ReleaseSetupAdmission,
            SetupEffect::SignalSetupComplete,
            SetupEffect::ReturnProviderDisposition,
            SetupEffect::OuterReleaseControlRundown,
        ]
    );
}

#[test]
fn closing_setup_cleanup_waits_outer_control_release_before_publishing_closed() {
    let mut binding = ControlBinding::new();
    let _reservation = binding.begin_setup().expect("setup");
    let claim = binding.claim_cleanup().expect("claim");
    let effects = drive_precommit_cleanup(claim);
    let release = effects
        .iter()
        .position(|e| *e == PrecommitCleanupEffect::ReleaseOuterGuard)
        .unwrap();
    let wait = effects
        .iter()
        .position(|e| *e == PrecommitCleanupEffect::WaitFileRundown)
        .unwrap();
    let closed = effects
        .iter()
        .position(|e| *e == PrecommitCleanupEffect::PublishClosedAndTransferLease)
        .unwrap();
    assert!(release < wait && wait < closed);
}

#[test]
fn closing_setup_cleanup_transfers_and_releases_its_own_guard_before_file_rundown_wait() {
    let mut binding = ControlBinding::new();
    let _reservation = binding.begin_setup().expect("setup");
    let claim = binding.claim_cleanup().expect("claim");
    let effects = drive_precommit_cleanup(claim);
    assert_eq!(effects[0], PrecommitCleanupEffect::ReleaseOuterGuard);
    assert!(
        effects
            .iter()
            .position(|e| *e == PrecommitCleanupEffect::SignalSetupCancel)
            .unwrap()
            < effects
                .iter()
                .position(|e| *e == PrecommitCleanupEffect::WaitFileRundown)
                .unwrap()
    );
}

#[test]
fn empty_cleanup_releases_its_own_guard_before_file_rundown_wait() {
    let mut binding = ControlBinding::new();
    let claim = binding.claim_cleanup().expect("claim");
    assert_eq!(
        drive_precommit_cleanup(claim),
        [
            PrecommitCleanupEffect::ReleaseOuterGuard,
            PrecommitCleanupEffect::WaitFileRundown,
            PrecommitCleanupEffect::PublishClosedAndTransferLease,
        ]
    );
}

#[test]
fn setup_epoch_exhaustion_maps_to_integer_overflow_and_zero_information() {
    let mut binding = ControlBinding::resuming(SetupEpochCursor::exhausted());
    let refusal = drive_setup_entry(&mut binding, true).expect_err("exhausted");
    assert_eq!(refusal.kind(), SetupEntryRefusalKind::IntegerOverflow);
    assert_eq!(refusal.information(), 0);
}

#[test]
fn create_acquires_control_context_lease_before_fscontext_publication() {
    assert_eq!(
        ControlContextCreatePlan::EFFECTS,
        [
            ControlContextCreateEffect::AcquireLease,
            ControlContextCreateEffect::AllocateAndInitialize,
            ControlContextCreateEffect::CaptureRequestor,
            ControlContextCreateEffect::PublishFsContext,
        ]
    );
}

#[test]
fn create_rollback_releases_control_context_lease_once() {
    let rollback =
        ControlContextCreatePlan::rollback_after(ControlContextCreateEffect::CaptureRequestor);
    assert_eq!(
        rollback
            .effects()
            .iter()
            .filter(|effect| **effect == ControlContextCreateRollbackEffect::ReleaseLease)
            .count(),
        1
    );
}

#[test]
fn only_an_uninstalled_lease_is_adopted() {
    let rows = [
        ((O::Lease, true), O::CloseRight),
        ((O::Lease, false), O::Lease),
        ((O::CellOwned, true), O::CellOwned),
        ((O::CellOwned, false), O::CellOwned),
        ((O::CloseRight, true), O::CloseRight),
        ((O::CloseRight, false), O::CloseRight),
    ];
    for ((ownership, holds_no_installation), expected) in rows {
        assert_eq!(
            ownership.adopt_unused_lease(holds_no_installation),
            expected,
            "{ownership:?} with holds_no_installation={holds_no_installation}",
        );
    }
}

fn drive_control_context_close(
    ownership: ControlContextCloseOwnership,
) -> (Vec<(ControlContextCloseEffect, bool)>, bool) {
    let mut steps = Vec::new();
    let mut progress = ControlContextClosePlan::begin(ownership).expect("close right may free");
    loop {
        match progress {
            ControlContextCloseProgress::Effect(pending) => {
                steps.push((pending.effect(), pending.context_freed()));
                progress = pending.succeeded();
            }
            ControlContextCloseProgress::Complete(completion) => {
                return (steps, completion.freed_before_admission_release());
            }
        }
    }
}

fn close_effect_order(
    steps: &[(ControlContextCloseEffect, bool)],
) -> Vec<ControlContextCloseEffect> {
    steps.iter().map(|(effect, _)| *effect).collect()
}

#[test]
fn an_adopted_lease_begins_the_close_plan_in_the_safe_order() {
    let adopted = ControlContextCloseOwnership::Lease.adopt_unused_lease(true);
    assert!(adopted.may_free(), "an adopted lease must be freeable");
    let (steps, freed_first) = drive_control_context_close(adopted);
    assert_eq!(
        close_effect_order(&steps),
        [
            ControlContextCloseEffect::DetachFsContext,
            ControlContextCloseEffect::DestroyAndFreeContext,
            ControlContextCloseEffect::ReleaseControlContextAdmission,
        ]
    );
    assert!(
        freed_first,
        "an adopted lease releases the admission only after the free",
    );
}

#[test]
fn close_frees_only_after_terminal_or_precommit_hands_back_close_right() {
    assert!(ControlContextCloseOwnership::CloseRight.may_free());
    assert!(!ControlContextCloseOwnership::Lease.may_free());
    assert!(!ControlContextCloseOwnership::CellOwned.may_free());
}

#[test]
fn close_does_not_free_a_record_cleanup_has_not_acknowledged() {
    assert!(
        !ControlContextCloseOwnership::for_lifetime(ControlContextLifetimeKind::Completed)
            .may_free(),
        "an unacknowledged Completed record is not CLOSE's to free",
    );
}

#[test]
fn every_control_context_lifetime_has_exactly_one_close_ownership() {
    let rows = [
        (K::Lease, ControlContextCloseOwnership::Lease),
        (K::LiveCellOwned, ControlContextCloseOwnership::CellOwned),
        (K::Completed, ControlContextCloseOwnership::CellOwned),
        (K::Close, ControlContextCloseOwnership::CloseRight),
        (K::BlockedCellOwned, ControlContextCloseOwnership::CellOwned),
    ];
    for (kind, expected) in rows {
        assert_eq!(
            ControlContextCloseOwnership::for_lifetime(kind),
            expected,
            "{kind:?} is classified wrongly",
        );
    }
    assert_eq!(
        rows.iter()
            .filter(|(k, _)| ControlContextCloseOwnership::for_lifetime(*k).may_free())
            .map(|(k, _)| *k)
            .collect::<Vec<_>>(),
        vec![K::Close],
        "exactly the acknowledged lifetime may free",
    );
}

#[test]
fn only_an_acknowledged_lifetime_drives_the_full_close_sequence() {
    let ownership = ControlContextCloseOwnership::for_lifetime(ControlContextLifetimeKind::Close);
    let (steps, freed_first) = drive_control_context_close(ownership);
    assert_eq!(
        close_effect_order(&steps),
        [
            ControlContextCloseEffect::DetachFsContext,
            ControlContextCloseEffect::DestroyAndFreeContext,
            ControlContextCloseEffect::ReleaseControlContextAdmission,
        ]
    );
    assert!(
        freed_first,
        "the admission release must follow an actual free",
    );
    assert!(
        ControlContextClosePlan::begin(ControlContextCloseOwnership::for_lifetime(
            ControlContextLifetimeKind::Completed
        ))
        .is_err(),
        "an unacknowledged Completed record must not even begin the free",
    );
}

#[test]
fn close_detaches_then_frees_then_releases_control_context_admission() {
    let (steps, freed_first) =
        drive_control_context_close(ControlContextCloseOwnership::CloseRight);
    assert_eq!(
        close_effect_order(&steps),
        [
            ControlContextCloseEffect::DetachFsContext,
            ControlContextCloseEffect::DestroyAndFreeContext,
            ControlContextCloseEffect::ReleaseControlContextAdmission,
        ]
    );
    assert!(freed_first);
    for ownership in [
        ControlContextCloseOwnership::Lease,
        ControlContextCloseOwnership::CellOwned,
    ] {
        assert!(ControlContextClosePlan::begin(ownership).is_err());
    }
}

#[test]
fn unload_cannot_pass_control_context_rundown_before_close_free() {
    let (steps, _) = drive_control_context_close(ControlContextCloseOwnership::CloseRight);
    let (_, freed_at_release) = steps
        .iter()
        .find(|(effect, _)| *effect == ControlContextCloseEffect::ReleaseControlContextAdmission)
        .expect("admission release runs");
    assert!(
        *freed_at_release,
        "unload could observe control-context rundown zero while the context is still reachable"
    );
    let effects = close_effect_order(&steps);
    let position = |wanted: ControlContextCloseEffect| {
        effects
            .iter()
            .position(|effect| *effect == wanted)
            .expect("effect runs")
    };
    assert!(
        position(ControlContextCloseEffect::DetachFsContext)
            < position(ControlContextCloseEffect::DestroyAndFreeContext),
        "FsContext must be detached before the free"
    );
    assert_eq!(
        effects
            .iter()
            .filter(|effect| **effect == ControlContextCloseEffect::ReleaseControlContextAdmission)
            .count(),
        1,
        "the embedded lease is released exactly once"
    );
}

fn drive_control_context_close_roster(
    roster: [ControlContextCloseEffect; 3],
) -> (Vec<(ControlContextCloseEffect, bool)>, bool) {
    let mut steps = Vec::new();
    let mut progress = ControlContextClosePlan::begin_with_roster(
        ControlContextCloseOwnership::CloseRight,
        roster,
    )
    .expect("close right may free");
    loop {
        match progress {
            ControlContextCloseProgress::Effect(pending) => {
                steps.push((pending.effect(), pending.context_freed()));
                progress = pending.succeeded();
            }
            ControlContextCloseProgress::Complete(completion) => {
                return (steps, completion.freed_before_admission_release());
            }
        }
    }
}

#[test]
fn close_proofs_reject_the_orders_they_forbid() {
    let (steps, freed_first) = drive_control_context_close_roster([
        ControlContextCloseEffect::ReleaseControlContextAdmission,
        ControlContextCloseEffect::DetachFsContext,
        ControlContextCloseEffect::DestroyAndFreeContext,
    ]);
    assert!(
        !freed_first,
        "a release-first sequence must not prove the context was freed first"
    );
    let (_, freed_at_release) = steps
        .iter()
        .find(|(effect, _)| *effect == ControlContextCloseEffect::ReleaseControlContextAdmission)
        .expect("admission release runs");
    assert!(
        !freed_at_release,
        "the release step ran before any free, so it must not observe a freed context"
    );
    let (steps, freed_first) = drive_control_context_close_roster([
        ControlContextCloseEffect::DetachFsContext,
        ControlContextCloseEffect::ReleaseControlContextAdmission,
        ControlContextCloseEffect::ReleaseControlContextAdmission,
    ]);
    assert!(
        !freed_first,
        "an absent free must not satisfy the freed-before-release proof"
    );
    assert!(
        steps.iter().all(|(_, freed)| !freed),
        "no step may observe a free that never ran"
    );
    let (steps, freed_first) = drive_control_context_close_roster([
        ControlContextCloseEffect::DetachFsContext,
        ControlContextCloseEffect::DestroyAndFreeContext,
        ControlContextCloseEffect::ReleaseControlContextAdmission,
    ]);
    assert!(freed_first);
    assert_eq!(
        steps.iter().map(|(_, freed)| *freed).collect::<Vec<_>>(),
        [false, false, true]
    );
}

#[test]
fn empty_and_closing_setup_cleanup_move_lease_into_close_right() {
    for setup_started in [false, true] {
        let mut binding = ControlBinding::new();
        if setup_started {
            let _reservation = binding.begin_setup().expect("setup");
        }
        let claim = binding.claim_cleanup().expect("claim");
        let effects = drive_precommit_cleanup(claim);
        assert_eq!(
            effects.last(),
            Some(&PrecommitCleanupEffect::PublishClosedAndTransferLease)
        );
    }
}

#[test]
fn pre_identity_failure_consumes_exact_reservation_and_reopens_epoch() {
    let mut binding = ControlBinding::new();
    let reservation = binding.begin_setup().expect("reservation");
    let prepared = prepare_reserved_setup_rollback(&binding, reservation).expect("prepare");
    let disposition = commit_prepared_reserved_setup_rollback(prepared, &mut binding);
    assert_eq!(
        disposition,
        SetupRollbackDisposition::Reopened(SetupEpochCursor::at(2))
    );
}

#[test]
fn pre_identity_cleanup_race_preserves_closing_setup() {
    let mut binding = ControlBinding::new();
    let reservation = binding.begin_setup().expect("reservation");
    let _claim = binding.claim_cleanup().expect("claim");
    let prepared = prepare_reserved_setup_rollback(&binding, reservation).expect("prepare");
    assert_eq!(
        commit_prepared_reserved_setup_rollback(prepared, &mut binding),
        SetupRollbackDisposition::RemainsClosing
    );
}

#[test]
fn retry_cannot_clear_setup_complete_before_prior_tail_signal() {
    let mut binding = ControlBinding::new();
    let refusal = drive_setup_entry(&mut binding, false).expect_err("prior tail incomplete");
    assert_eq!(refusal.kind(), SetupEntryRefusalKind::PriorSetupIncomplete);
    assert!(matches!(binding.state(), ControlBindingState::Empty(_)));
    let admission = drive_setup_entry(&mut binding, true).expect("signaled completion admits");
    assert!(matches!(binding.state(), ControlBindingState::Staging(_)));
    let (_, effects) = admission.into_parts();
    assert_eq!(
        effects,
        [
            SetupEntryEffect::ClearSetupCancel,
            SetupEntryEffect::ClearSetupComplete
        ]
    );
}

#[test]
fn a_reservation_of_another_setup_is_handed_back() {
    let mut first = ControlBinding::new();
    let mut second = ControlBinding::resuming(SetupEpochCursor::at(7));
    let reservation = first.begin_setup().expect("first");
    let other = second.begin_setup().expect("second");
    let (error, returned) =
        prepare_reserved_setup_rollback(&second, reservation).expect_err("another epoch");
    assert_eq!(error, BindingError::InvalidTransition);
    assert!(prepare_reserved_setup_rollback(&first, returned).is_ok());
    assert!(prepare_reserved_setup_rollback(&second, other).is_ok());
}

#[test]
fn a_binding_grants_one_setup_and_one_cleanup() {
    let mut binding = ControlBinding::new();
    let _reservation = binding.begin_setup().expect("setup");
    assert_eq!(
        binding.begin_setup().err(),
        Some(BindingError::InvalidTransition)
    );
    assert_eq!(
        binding.claim_cleanup(),
        Ok(CleanupBindingClaim::Setup(1)),
    );
    assert_eq!(
        binding.claim_cleanup(),
        Err(BindingError::InvalidTransition)
    );
    let mut last = ControlBinding::resuming(SetupEpochCursor::at(u64::MAX));
    let reservation = last.begin_setup().expect("the last epoch");
    let prepared = prepare_reserved_setup_rollback(&last, reservation).expect("prepare");
    assert_eq!(
        commit_prepared_reserved_setup_rollback(prepared, &mut last),
        SetupRollbackDisposition::Reopened(SetupEpochCursor::exhausted())
    );
    assert_eq!(last.begin_setup().err(), Some(BindingError::EpochExhausted));
}

#[test]
fn a_busy_binding_refuses_an_entry() {
    let mut binding = ControlBinding::new();
    let _reservation = binding.begin_setup().expect("setup");
    let refusal = drive_setup_entry(&mut binding, true).expect_err("busy");
    assert_eq!(refusal.kind(), SetupEntryRefusalKind::InvalidState);
}

#[test]
fn a_roster_one_entry_short_is_refused_unwritten() {
    let mut out = [ScratchIdentity::drain(9); 3];
    assert_eq!(
        scratch_roster(3, &mut out),
        Err(AdapterPlanError::Capacity)
    );
    assert_eq!(out, [ScratchIdentity::drain(9); 3]);
    assert_eq!(scratch_roster(1, &mut out), Ok(2));
    assert_eq!(
        out,
        [
            ScratchIdentity::drain(0),
            ScratchIdentity::fence(),
            ScratchIdentity::drain(9),
        ]
    );
}

#[test]
fn a_deposited_owner_survives_a_rollback() {
    let locator = owned_locator();
    let mut ownership = SetupOwnership::new();
    ownership.allocate(shell()).expect("allocate");
    ownership.install_staging(locator).expect("stage");
    ownership
        .deposit(locator, ready_vdo(shell()))
        .expect("deposit");
    let before = ownership;
    ownership.rollback().expect("rollback");
    assert_eq!(ownership, before);
}

#[test]
fn a_create_is_undone_in_reverse() {
    assert_eq!(
        ControlContextCreatePlan::rollback_after(ControlContextCreateEffect::PublishFsContext)
            .effects(),
        [
            ControlContextCreateRollbackEffect::ClearFsContext,
            ControlContextCreateRollbackEffect::ReleaseRequestor,
            ControlContextCreateRollbackEffect::FreeContext,
            ControlContextCreateRollbackEffect::ReleaseLease,
        ]
    );
    assert_eq!(
        ControlContextCreatePlan::rollback_after(ControlContextCreateEffect::AcquireLease)
            .effects(),
        [ControlContextCreateRollbackEffect::ReleaseLease]
    );
}
