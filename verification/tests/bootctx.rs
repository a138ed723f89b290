//! The plans for the boot context's publications.

use fsring_core::abi::boot::{
    BootContextHeaderV1, BootContextSlotV1, BootContextValidationError, BootCounterError,
    BootIdentityError, BootSequenceError, FeatureSet, BOOT_CONTEXT_HEADER_BYTES,
    BOOT_CONTEXT_INITIALIZING, BOOT_CONTEXT_INITIAL_SEQUENCE, BOOT_CONTEXT_MAGIC,
    BOOT_CONTEXT_READY, BOOT_CONTEXT_SECTION_BYTES, BOOT_CONTEXT_SLOT_BYTES,
    BOOT_CONTEXT_SLOT_COUNT, BOOT_CONTEXT_VERSION, SLOT_FREE, SLOT_LIVE, SLOT_STAGING,
    SLOT_TERMINAL, SLOT_TERMINALIZING,
};
use fsring_core::abi::identity::{BootInstanceId, MountId};
use fsring_core::bootctx::{
    adopted_image, burned_image, initializing_image, plan_existing_context, plan_mount_burn,
    plan_new_context, ready_image, BootLoadPlan, BootPlanError, CheckedHeader, CheckedSlot,
    MountBurnPlan,
};

const BOOT: BootInstanceId = BootInstanceId {
    lo: 0x0123_4567_89ab_cdef,
    hi: 0xfedc_ba98_7654_3210,
};
const KEY: [u8; 32] = [0xa5; 32];
const RANDOM_HIGH: u64 = 0xa5a5_a5a5_a5a5_a5a5;
const SERVICE_SID: [u8; 32] = [
    1, 6, 0, 0, 0, 0, 0, 5, 80, 0, 0, 0, 1, 0, 0, 0, 2, 0, 0, 0, 3, 0, 0, 0, 4, 0, 0, 0, 5, 0, 0, 0,
];

/// A stand-in for the digest that seals an image: it depends on every counter.
fn digest(image: &BootContextHeaderV1) -> [u8; 32] {
    let mut out = [0u8; 32];
    for (at, word) in [
        image.header_sequence,
        image.mount_sequence,
        image.load_generation,
        image.init_state as u64,
    ]
    .iter()
    .enumerate()
    {
        out[at * 8..at * 8 + 8].copy_from_slice(&word.to_le_bytes());
    }
    out
}

fn resign_header(header: &mut BootContextHeaderV1) {
    header.digest = [0; 32];
    header.digest = digest(header);
}

fn ready_header() -> BootContextHeaderV1 {
    let mut header = BootContextHeaderV1 {
        magic: BOOT_CONTEXT_MAGIC,
        format_version: BOOT_CONTEXT_VERSION,
        header_size: BOOT_CONTEXT_HEADER_BYTES,
        context_size: BOOT_CONTEXT_SECTION_BYTES,
        slot_size: BOOT_CONTEXT_SLOT_BYTES,
        slot_count: BOOT_CONTEXT_SLOT_COUNT,
        init_state: BOOT_CONTEXT_READY,
        flags: 0,
        reserved0: 0,
        header_sequence: BOOT_CONTEXT_INITIAL_SEQUENCE,
        mount_sequence: 9,
        mount_sequence_complement: 9 ^ u64::MAX,
        load_generation: 7,
        load_generation_complement: 7 ^ u64::MAX,
        boot_instance_id: BOOT,
        per_boot_retire_key: KEY,
        digest: [0; 32],
        reserved: [0; 96],
    };
    resign_header(&mut header);
    header
}

fn valid(header: BootContextHeaderV1) -> CheckedHeader {
    CheckedHeader {
        header,
        verdict: Ok(()),
    }
}

fn free_slot() -> CheckedSlot {
    CheckedSlot {
        slot: BootContextSlotV1 {
            sequence: BOOT_CONTEXT_INITIAL_SEQUENCE,
            state: SLOT_FREE,
            service_sid_length: 0,
            load_generation: 0,
            mount_sequence: 0,
            mount_id: MountId { lo: 0, hi: 0 },
            boot_instance_id: BootInstanceId { lo: 0, hi: 0 },
            latest_session_epoch: 0,
            selected_features: FeatureSet { words: [0, 0] },
            journal_version: 0,
            flags: 0,
            service_sid: [0; 68],
            reserved: [0; 60],
            digest: [0; 32],
        },
        verdict: Ok(()),
    }
}

fn free_slots() -> [CheckedSlot; 64] {
    [free_slot(); 64]
}

fn non_free_slot(state: u32) -> CheckedSlot {
    let mut service_sid = [0u8; 68];
    service_sid[..SERVICE_SID.len()].copy_from_slice(&SERVICE_SID);
    let (sequence, load_generation, latest_session_epoch) = match state {
        SLOT_STAGING => (4, 7, 1),
        SLOT_LIVE => (6, 5, 3),
        SLOT_TERMINALIZING | SLOT_TERMINAL => (8, 5, 3),
        _ => panic!("test requires a state that is not free"),
    };
    CheckedSlot {
        slot: BootContextSlotV1 {
            sequence,
            state,
            service_sid_length: 32,
            load_generation,
            mount_sequence: 8,
            mount_id: MountId {
                lo: 8,
                hi: 0x2122_2324_2526_2728,
            },
            boot_instance_id: BOOT,
            latest_session_epoch,
            selected_features: FeatureSet { words: [0x1c, 0] },
            journal_version: 1,
            flags: 0,
            service_sid,
            reserved: [0; 60],
            digest: [0; 32],
        },
        verdict: Ok(()),
    }
}

/// Adopt a section as the marshalling layer does: seal the adopted image.
fn adopt(header: CheckedHeader, slots: &[CheckedSlot]) -> Result<BootLoadPlan, BootPlanError> {
    let seal = adopted_image(&header.header).map_or([0; 32], |image| digest(&image));
    plan_existing_context(header, slots, seal)
}

/// Burn an identity as the marshalling layer does: seal the burned image.
fn burn(header: &BootContextHeaderV1, random_high: u64) -> Result<MountBurnPlan, BootPlanError> {
    let seal = burned_image(header).map_or([0; 32], |image| digest(&image));
    plan_mount_burn(&valid(*header), random_high, seal)
}

fn assert_load_error(result: Result<BootLoadPlan, BootPlanError>, expected: BootPlanError) {
    match result {
        Err(actual) => assert_eq!(actual, expected),
        Ok(_) => panic!("load plan unexpectedly succeeded; expected {expected:?}"),
    }
}

fn assert_burn_error(result: Result<MountBurnPlan, BootPlanError>, expected: BootPlanError) {
    match result {
        Err(actual) => assert_eq!(actual, expected),
        Ok(_) => panic!("mount burn unexpectedly succeeded; expected {expected:?}"),
    }
}

fn plan_new(
    boot: BootInstanceId,
    key: [u8; 32],
    verdict: Result<(), BootContextValidationError>,
) -> Result<BootLoadPlan, BootPlanError> {
    let mut committed = ready_image(boot, key);
    committed.digest = digest(&committed);
    let initial = initializing_image(&committed);
    plan_new_context(boot, key, committed.digest, verdict, digest(&initial))
}

#[test]
fn a_new_zeroed_context_gets_canonical_initializing_and_ready_publications() {
    let Ok(BootLoadPlan::Initialize(publication)) = plan_new(BOOT, KEY, Ok(())) else {
        panic!("new context must initialize")
    };
    assert_eq!(publication.initial.init_state, BOOT_CONTEXT_INITIALIZING);
    assert_eq!(publication.initial.header_sequence, 1);
    assert_eq!(publication.committed.init_state, BOOT_CONTEXT_READY);
    assert_eq!(
        publication.committed.header_sequence,
        BOOT_CONTEXT_INITIAL_SEQUENCE
    );
    assert_eq!(publication.committed.mount_sequence, 0);
    assert_eq!(publication.committed.mount_sequence_complement, u64::MAX);
    assert_eq!(publication.committed.load_generation, 1);
    assert_eq!(
        publication.committed.load_generation_complement,
        u64::MAX - 1
    );
    assert_eq!(publication.committed.boot_instance_id, BOOT);
    assert_eq!(publication.committed.per_boot_retire_key, KEY);
    assert_eq!(publication.committed.flags, 0);
    assert_eq!(publication.committed.reserved0, 0);
    assert_eq!(publication.committed.reserved, [0; 96]);
    let mut unsealed = publication.committed;
    unsealed.digest = [0; 32];
    assert_eq!(publication.committed.digest, digest(&unsealed));
    let mut unsealed = publication.initial;
    unsealed.digest = [0; 32];
    assert_eq!(publication.initial.digest, digest(&unsealed));
}

#[test]
fn new_context_rejects_zero_boot_identity_and_retire_key() {
    assert_load_error(
        plan_new(
            BootInstanceId { lo: 0, hi: 0 },
            KEY,
            Err(BootContextValidationError::HeaderBootInstanceId),
        ),
        BootPlanError::Validation(BootContextValidationError::HeaderBootInstanceId),
    );
    assert_load_error(
        plan_new(
            BOOT,
            [0; 32],
            Err(BootContextValidationError::HeaderRetireKey),
        ),
        BootPlanError::Validation(BootContextValidationError::HeaderRetireKey),
    );
}

#[test]
fn valid_ready_reload_advances_generation_with_sequence_only_in_progress_image() {
    let header = ready_header();
    let Ok(BootLoadPlan::Adopt(publication)) = adopt(valid(header), &free_slots()) else {
        panic!("valid READY context must be adopted")
    };
    let mut expected_initial = header;
    expected_initial.header_sequence = 3;
    assert_eq!(
        publication.initial, expected_initial,
        "the odd publication changes only the sequence word",
    );
    assert_eq!(publication.committed.header_sequence, 4);
    assert_eq!(publication.committed.load_generation, 8);
    assert_eq!(
        publication.committed.load_generation_complement,
        8 ^ u64::MAX
    );
    assert_eq!(publication.committed.mount_sequence, header.mount_sequence);
    assert_eq!(
        publication.committed.mount_sequence_complement,
        header.mount_sequence_complement,
    );
    let mut resealed = publication.committed;
    resign_header(&mut resealed);
    assert_eq!(resealed, publication.committed);
}

#[test]
fn every_invalid_header_shape_is_preserved_as_a_validation_error() {
    for error in [
        BootContextValidationError::HeaderFormat,
        BootContextValidationError::HeaderInitState,
        BootContextValidationError::HeaderSequence,
        BootContextValidationError::HeaderDigest,
        BootContextValidationError::HeaderFlagsOrReserved,
        BootContextValidationError::HeaderComplement,
        BootContextValidationError::HeaderBootInstanceId,
        BootContextValidationError::HeaderRetireKey,
        BootContextValidationError::HeaderLoadGeneration,
    ] {
        let header = CheckedHeader {
            header: ready_header(),
            verdict: Err(error),
        };
        assert_load_error(
            adopt(header, &free_slots()),
            BootPlanError::Validation(error),
        );
        assert_burn_error(
            plan_mount_burn(&header, RANDOM_HIGH, [0; 32]),
            BootPlanError::Validation(error),
        );
    }
}

#[test]
fn torn_or_malformed_free_slots_fail_validation_without_mutation() {
    for error in [
        BootContextValidationError::SlotSequence,
        BootContextValidationError::SlotDigest,
        BootContextValidationError::SlotFreeShape,
    ] {
        let mut slots = free_slots();
        slots[0].verdict = Err(error);
        let before_slots = slots;
        assert_load_error(
            adopt(valid(ready_header()), &slots),
            BootPlanError::Validation(error),
        );
        assert_eq!(slots, before_slots);
    }
}

#[test]
fn an_existing_context_requires_the_complete_permanent_slot_array() {
    let slots = free_slots();
    assert_load_error(
        adopt(valid(ready_header()), &slots[..63]),
        BootPlanError::Validation(BootContextValidationError::InvalidLength),
    );
}

#[test]
fn every_valid_non_free_state_refuses_downgrade_without_changing_slots() {
    for state in [SLOT_STAGING, SLOT_LIVE, SLOT_TERMINALIZING, SLOT_TERMINAL] {
        let mut slots = free_slots();
        slots[0] = non_free_slot(state);
        let before_slots = slots;
        assert_load_error(
            adopt(valid(ready_header()), &slots),
            BootPlanError::ActivePermanentSlot,
        );
        assert_eq!(slots, before_slots);
    }
}

#[test]
fn a_valid_non_free_slot_does_not_hide_later_snapshot_corruption() {
    let mut slots = free_slots();
    slots[0] = non_free_slot(SLOT_LIVE);
    slots[1].verdict = Err(BootContextValidationError::SlotDigest);
    let before_slots = slots;
    assert_load_error(
        adopt(valid(ready_header()), &slots),
        BootPlanError::Validation(BootContextValidationError::SlotDigest),
    );
    assert_eq!(slots, before_slots);
}

#[test]
fn duplicate_mount_sequence_in_slots_zero_and_sixty_three_is_corruption() {
    let mut slots = free_slots();
    slots[0] = non_free_slot(SLOT_LIVE);
    slots[63] = non_free_slot(SLOT_TERMINAL);
    let before_slots = slots;
    assert_load_error(
        adopt(valid(ready_header()), &slots),
        BootPlanError::Validation(BootContextValidationError::DuplicateMountSequence),
    );
    assert_eq!(slots, before_slots);
}

#[test]
fn existing_reload_maps_load_generation_and_publication_exhaustion() {
    let mut header = ready_header();
    header.load_generation = u64::MAX;
    header.load_generation_complement = 0;
    resign_header(&mut header);
    assert_load_error(
        adopt(valid(header), &free_slots()),
        BootPlanError::Counter(BootCounterError::Exhausted),
    );

    let mut header = ready_header();
    header.header_sequence = u64::MAX - 1;
    resign_header(&mut header);
    assert_load_error(
        adopt(valid(header), &free_slots()),
        BootPlanError::Publication(BootSequenceError::Exhausted),
    );
}

#[test]
fn mount_burn_maps_counter_publication_and_identity_failures() {
    let mut header = ready_header();
    header.mount_sequence = u64::MAX;
    header.mount_sequence_complement = 0;
    resign_header(&mut header);
    assert_burn_error(
        burn(&header, RANDOM_HIGH),
        BootPlanError::Counter(BootCounterError::Exhausted),
    );

    let mut header = ready_header();
    header.header_sequence = u64::MAX - 1;
    resign_header(&mut header);
    assert_burn_error(
        burn(&header, RANDOM_HIGH),
        BootPlanError::Publication(BootSequenceError::Exhausted),
    );

    assert_burn_error(
        burn(&ready_header(), 0),
        BootPlanError::Identity(BootIdentityError::ZeroRandomHigh),
    );
}

#[test]
fn two_consecutive_mount_burns_are_unique_checked_publications() {
    let header = ready_header();
    let first = match burn(&header, RANDOM_HIGH) {
        Ok(plan) => plan,
        Err(error) => panic!("first burn failed: {error:?}"),
    };
    let second = match burn(&first.committed(), 0xa5a5_a5a5_a5a5_a5a6) {
        Ok(plan) => plan,
        Err(error) => panic!("second burn failed: {error:?}"),
    };
    assert_eq!(
        first.mount_id(),
        MountId {
            lo: 10,
            hi: RANDOM_HIGH
        }
    );
    assert_eq!(
        second.mount_id(),
        MountId {
            lo: 11,
            hi: 0xa5a5_a5a5_a5a5_a5a6,
        },
    );
    assert_eq!(first.committed().header_sequence, 4);
    assert_eq!(second.committed().header_sequence, 6);
    assert_eq!(
        second.committed().mount_sequence_complement,
        11 ^ u64::MAX
    );
}

#[test]
fn volatile_mount_burn_preserves_header_before_image_and_all_permanent_slot_bytes() {
    let header = ready_header();
    let burned = match burn(&header, RANDOM_HIGH) {
        Ok(plan) => plan,
        Err(error) => panic!("burn failed: {error:?}"),
    };
    assert_eq!(burned.mount_id().lo, header.mount_sequence + 1);
    assert_eq!(burned.mount_id().hi, RANDOM_HIGH);
    assert_eq!(burned.before(), header);
}

#[test]
fn the_last_publication_and_the_last_counters_are_still_given() {
    let mut header = ready_header();
    header.header_sequence = u64::MAX - 3;
    header.load_generation = u64::MAX - 1;
    header.mount_sequence = u64::MAX - 1;
    let Ok(BootLoadPlan::Adopt(publication)) = adopt(valid(header), &free_slots()) else {
        panic!("one publication is left")
    };
    assert_eq!(publication.initial.header_sequence, u64::MAX - 2);
    assert_eq!(publication.committed.header_sequence, u64::MAX - 1);
    assert_eq!(publication.committed.load_generation, u64::MAX);
    assert_eq!(publication.committed.load_generation_complement, 0);
    let Ok(burned) = burn(&header, 1) else {
        panic!("one burn is left")
    };
    assert_eq!(
        burned.mount_id(),
        MountId {
            lo: u64::MAX,
            hi: 1
        }
    );
    assert_eq!(burned.committed().load_generation, u64::MAX - 1);
}

#[test]
fn free_slots_may_share_a_mount_sequence() {
    let mut slots = free_slots();
    slots[3].slot.mount_sequence = 8;
    slots[4].slot.mount_sequence = 8;
    assert!(adopt(valid(ready_header()), &slots).is_ok());
    slots[4] = non_free_slot(SLOT_LIVE);
    assert_load_error(
        adopt(valid(ready_header()), &slots),
        BootPlanError::ActivePermanentSlot,
    );
}
