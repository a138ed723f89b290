//! Plans the publications of the boot context: a new section, the adoption of
//! an existing one by a reloaded driver, and the burning of a mount identity.
//!
//! Every input is a private copy taken under the section's lock. The plans are
//! images to write; nothing here maps, locks or writes the section.
//!
//! Two things come from outside. A header or a slot arrives together with the
//! verdict of its byte-level validation, and the digest that seals an image is
//! computed over the unsealed image that [`ready_image`], [`initializing_image`],
//! [`adopted_image`] or [`burned_image`] gives.

use vstd::prelude::*;

use crate::abi::boot::BootContextHeaderV1;
use crate::abi::boot::BootContextSlotV1;
use crate::abi::boot::BootContextValidationError;
use crate::abi::boot::BootCounterError;
use crate::abi::boot::BootIdentityError;
use crate::abi::boot::BootSequenceError;
use crate::abi::boot::BOOT_CONTEXT_HEADER_BYTES;
use crate::abi::boot::BOOT_CONTEXT_INITIALIZING;
use crate::abi::boot::BOOT_CONTEXT_INITIAL_SEQUENCE;
use crate::abi::boot::BOOT_CONTEXT_MAGIC;
use crate::abi::boot::BOOT_CONTEXT_READY;
use crate::abi::boot::BOOT_CONTEXT_SECTION_BYTES;
use crate::abi::boot::BOOT_CONTEXT_SLOT_BYTES;
use crate::abi::boot::BOOT_CONTEXT_SLOT_COUNT;
use crate::abi::boot::BOOT_CONTEXT_VERSION;
use crate::abi::boot::SLOT_FREE;
use crate::abi::identity::BootInstanceId;
use crate::abi::identity::MountId;

verus! {

/// How a driver that was just loaded publishes the header.
#[derive(Clone, Copy, Debug, PartialEq, Eq)]
pub enum BootLoadPlan {
    /// The section is new.
    Initialize(BootHeaderPublication),
    /// The section was there before.
    Adopt(BootHeaderPublication),
}

/// The two images of one publication.
#[derive(Clone, Copy, Debug, PartialEq, Eq)]
pub struct BootHeaderPublication {
    /// What stands in the section while the publication is under way.
    pub initial: BootContextHeaderV1,
    /// What stands there afterwards.
    pub committed: BootContextHeaderV1,
}

/// Why a plan was refused.
#[derive(Clone, Copy, Debug, PartialEq, Eq, Structural)]
pub enum BootPlanError {
    /// The section is not valid.
    Validation(BootContextValidationError),
    /// A permanent slot holds a mount.
    ActivePermanentSlot,
    /// The header cannot be published again.
    Publication(BootSequenceError),
    /// A counter cannot advance.
    Counter(BootCounterError),
    /// The mount identity cannot be made.
    Identity(BootIdentityError),
}

/// A header with the verdict of its validation.
#[derive(Clone, Copy, Debug, PartialEq, Eq)]
pub struct CheckedHeader {
    pub header: BootContextHeaderV1,
    pub verdict: Result<(), BootContextValidationError>,
}

/// A slot with the verdict of its validation.
#[derive(Clone, Copy, Debug, PartialEq, Eq)]
pub struct CheckedSlot {
    pub slot: BootContextSlotV1,
    pub verdict: Result<(), BootContextValidationError>,
}

/// The plan of one mount burn.
#[derive(Clone, Copy, Debug, PartialEq, Eq)]
pub struct MountBurnPlan {
    before: BootContextHeaderV1,
    committed: BootContextHeaderV1,
    mount_id: MountId,
}

/// A [`MountBurnPlan`] as values.
pub struct MountBurnModel {
    pub before: BootContextHeaderV1,
    pub committed: BootContextHeaderV1,
    pub mount_id: MountId,
}

impl View for MountBurnPlan {
    type V = MountBurnModel;

    closed spec fn view(&self) -> MountBurnModel {
        MountBurnModel {
            before: self.before,
            committed: self.committed,
            mount_id: self.mount_id,
        }
    }
}

impl MountBurnPlan {
    /// The header as it was.
    pub fn before(&self) -> (header: BootContextHeaderV1)
        ensures
            header == self@.before,
    {
        self.before
    }

    /// The header as it is published.
    pub fn committed(&self) -> (header: BootContextHeaderV1)
        ensures
            header == self@.committed,
    {
        self.committed
    }

    /// The identity the burn gives out.
    pub fn mount_id(&self) -> (mount_id: MountId)
        ensures
            mount_id == self@.mount_id,
    {
        self.mount_id
    }
}

/// The word that guards a counter: all its bits flipped.
pub open spec fn complement(counter: u64) -> u64 {
    (u64::MAX - counter) as u64
}

/// Flip all bits of a counter.
fn flipped(counter: u64) -> (word: u64)
    ensures
        word == complement(counter),
{
    assert(counter ^ 0xffff_ffff_ffff_ffffu64 == 0xffff_ffff_ffff_ffffu64 - counter)
        by (bit_vector);
    counter ^ u64::MAX
}

/// The digest field of an image that is not sealed yet.
pub open spec fn is_unsealed(digest: [u8; 32]) -> bool {
    digest@ == Seq::new(32, |i: int| 0u8)
}

/// `image` sealed with `digest`.
pub open spec fn sealed(image: BootContextHeaderV1, digest: [u8; 32]) -> BootContextHeaderV1 {
    BootContextHeaderV1 { digest, ..image }
}

/// `image` before it is sealed.
pub open spec fn unsealed_of(
    image: BootContextHeaderV1,
    unsealed: BootContextHeaderV1,
) -> bool {
    is_unsealed(unsealed.digest) && unsealed == sealed(image, unsealed.digest)
}

/// The header of a new section, but for its digest.
pub open spec fn is_ready_image(
    image: BootContextHeaderV1,
    boot_instance_id: BootInstanceId,
    per_boot_retire_key: [u8; 32],
) -> bool {
    &&& image.magic == BOOT_CONTEXT_MAGIC
    &&& image.format_version == BOOT_CONTEXT_VERSION
    &&& image.header_size == BOOT_CONTEXT_HEADER_BYTES
    &&& image.context_size == BOOT_CONTEXT_SECTION_BYTES
    &&& image.slot_size == BOOT_CONTEXT_SLOT_BYTES
    &&& image.slot_count == BOOT_CONTEXT_SLOT_COUNT
    &&& image.init_state == BOOT_CONTEXT_READY
    &&& image.flags == 0
    &&& image.reserved0 == 0
    &&& image.header_sequence == BOOT_CONTEXT_INITIAL_SEQUENCE
    &&& image.mount_sequence == 0
    &&& image.mount_sequence_complement == complement(0)
    &&& image.load_generation == 1
    &&& image.load_generation_complement == complement(1)
    &&& image.boot_instance_id == boot_instance_id
    &&& image.per_boot_retire_key == per_boot_retire_key
    &&& image.reserved@ == Seq::new(96, |i: int| 0u8)
}

/// The header of a new section, to be sealed.
pub fn ready_image(boot_instance_id: BootInstanceId, per_boot_retire_key: [u8; 32]) -> (image:
    BootContextHeaderV1)
    ensures
        is_ready_image(image, boot_instance_id, per_boot_retire_key),
        is_unsealed(image.digest),
{
    let image = BootContextHeaderV1 {
        magic: BOOT_CONTEXT_MAGIC,
        format_version: BOOT_CONTEXT_VERSION,
        header_size: BOOT_CONTEXT_HEADER_BYTES,
        context_size: BOOT_CONTEXT_SECTION_BYTES,
        slot_size: BOOT_CONTEXT_SLOT_BYTES,
        slot_count: BOOT_CONTEXT_SLOT_COUNT,
        init_state: BOOT_CONTEXT_READY,
        flags: 0,
        reserved0: 0,
        header_sequence: BOOT_CONTEXT_INITIAL_SEQUENCE,
        mount_sequence: 0,
        mount_sequence_complement: flipped(0),
        load_generation: 1,
        load_generation_complement: flipped(1),
        boot_instance_id,
        per_boot_retire_key,
        digest: [0; 32],
        reserved: [0; 96],
    };
    assert(image.digest@ =~= Seq::new(32, |i: int| 0u8));
    assert(image.reserved@ =~= Seq::new(96, |i: int| 0u8));
    image
}

/// What stands in a new section while it is initialized, given what will stand
/// there afterwards.
pub open spec fn initializing(committed: BootContextHeaderV1) -> BootContextHeaderV1 {
    BootContextHeaderV1 {
        init_state: BOOT_CONTEXT_INITIALIZING,
        header_sequence: 1,
        ..committed
    }
}

/// What stands in a new section while it is initialized, to be sealed.
pub fn initializing_image(committed: &BootContextHeaderV1) -> (image: BootContextHeaderV1)
    ensures
        unsealed_of(initializing(*committed), image),
{
    let mut image = *committed;
    image.init_state = BOOT_CONTEXT_INITIALIZING;
    image.header_sequence = 1;
    image.digest = [0; 32];
    assert(image.digest@ =~= Seq::new(32, |i: int| 0u8));
    image
}

/// Plan the header of a new section. `committed_digest` seals the ready image
/// and `initial_digest` the initializing one; `verdict` is that of the sealed
/// ready image.
pub fn plan_new_context(
    boot_instance_id: BootInstanceId,
    per_boot_retire_key: [u8; 32],
    committed_digest: [u8; 32],
    verdict: Result<(), BootContextValidationError>,
    initial_digest: [u8; 32],
) -> (plan: Result<BootLoadPlan, BootPlanError>)
    ensures
        match verdict {
            Err(error) => plan == Err::<BootLoadPlan, _>(BootPlanError::Validation(error)),
            Ok(_) => plan matches Ok(BootLoadPlan::Initialize(publication)) && is_ready_image(
                publication.committed,
                boot_instance_id,
                per_boot_retire_key,
            ) && publication.committed.digest == committed_digest && publication.initial == sealed(
                initializing(publication.committed),
                initial_digest,
            ),
        },
{
    let mut committed = ready_image(boot_instance_id, per_boot_retire_key);
    committed.digest = committed_digest;
    match verdict {
        Err(error) => {
            return Err(BootPlanError::Validation(error));
        },
        Ok(_) => {},
    }
    let mut initial = initializing_image(&committed);
    initial.digest = initial_digest;
    Ok(BootLoadPlan::Initialize(BootHeaderPublication { initial, committed }))
}

/// The sequence that marks a publication of a stable header as under way.
pub open spec fn odd_after(sequence: u64) -> u64 {
    if sequence % 2 == 0 {
        (sequence + 1) as u64
    } else {
        sequence
    }
}

/// Set the lowest bit of a sequence.
fn marked_odd(sequence: u64) -> (odd: u64)
    ensures
        odd == odd_after(sequence),
{
    assert(sequence % 2 == 0 ==> sequence | 1u64 == sequence + 1) by (bit_vector);
    assert(sequence % 2 == 1 ==> sequence | 1u64 == sequence) by (bit_vector);
    sequence | 1
}

/// The header cannot take one more publication.
pub open spec fn publication_error(header: BootContextHeaderV1) -> Option<BootPlanError> {
    if header.header_sequence > u64::MAX - 2 {
        Some(BootPlanError::Publication(BootSequenceError::Exhausted))
    } else {
        None
    }
}

/// Why the header cannot be adopted by a further load, if it cannot.
pub open spec fn adoption_error(header: BootContextHeaderV1) -> Option<BootPlanError> {
    if header.load_generation == u64::MAX {
        Some(BootPlanError::Counter(BootCounterError::Exhausted))
    } else {
        publication_error(header)
    }
}

/// The header after a further load adopted it, but for its digest.
pub open spec fn adopted(header: BootContextHeaderV1) -> BootContextHeaderV1 {
    BootContextHeaderV1 {
        header_sequence: (header.header_sequence + 2) as u64,
        load_generation: (header.load_generation + 1) as u64,
        load_generation_complement: complement((header.load_generation + 1) as u64),
        ..header
    }
}

/// The header after a further load adopted it, to be sealed.
pub fn adopted_image(header: &BootContextHeaderV1) -> (image: Result<
    BootContextHeaderV1,
    BootPlanError,
>)
    ensures
        match adoption_error(*header) {
            Some(error) => image == Err::<BootContextHeaderV1, _>(error),
            None => image matches Ok(unsealed) && unsealed_of(adopted(*header), unsealed)
                && same_but_counters(*header, unsealed),
        },
{
    if header.load_generation == u64::MAX {
        return Err(BootPlanError::Counter(BootCounterError::Exhausted));
    }
    if header.header_sequence > u64::MAX - 2 {
        return Err(BootPlanError::Publication(BootSequenceError::Exhausted));
    }
    let generation = header.load_generation + 1;
    let mut image = *header;
    image.header_sequence = header.header_sequence + 2;
    image.load_generation = generation;
    image.load_generation_complement = flipped(generation);
    image.digest = [0; 32];
    assert(image.digest@ =~= Seq::new(32, |i: int| 0u8));
    Ok(image)
}

/// The verdict of the first slot that is not valid.
pub open spec fn first_fault(slots: Seq<CheckedSlot>) -> Option<BootContextValidationError>
    decreases slots.len(),
{
    if slots.len() == 0 {
        None
    } else {
        match slots[0].verdict {
            Err(error) => Some(error),
            Ok(_) => first_fault(slots.drop_first()),
        }
    }
}

/// Two slots hold the same mount.
pub open spec fn mounted_twice(first: BootContextSlotV1, second: BootContextSlotV1) -> bool {
    &&& first.state != SLOT_FREE
    &&& second.state != SLOT_FREE
    &&& first.mount_sequence == second.mount_sequence
}

/// Some two slots hold the same mount.
pub open spec fn repeats_a_mount(slots: Seq<CheckedSlot>) -> bool {
    exists|i: int, j: int|
        0 <= i < j < slots.len() && mounted_twice(
            (#[trigger] slots[i]).slot,
            (#[trigger] slots[j]).slot,
        )
}

/// Every slot is free.
pub open spec fn all_free(slots: Seq<CheckedSlot>) -> bool {
    forall|i: int| 0 <= i < slots.len() ==> (#[trigger] slots[i]).slot.state == SLOT_FREE
}

/// Why the section cannot be adopted, if it cannot. Everything that is not valid
/// is found before an occupied slot is, and that before a counter that is at its
/// end.
pub open spec fn existing_error(checked: CheckedHeader, slots: Seq<CheckedSlot>) -> Option<
    BootPlanError,
> {
    if checked.verdict is Err {
        Some(BootPlanError::Validation(checked.verdict->Err_0))
    } else if slots.len() != BOOT_CONTEXT_SLOT_COUNT {
        Some(BootPlanError::Validation(BootContextValidationError::InvalidLength))
    } else if first_fault(slots) is Some {
        Some(BootPlanError::Validation(first_fault(slots)->0))
    } else if repeats_a_mount(slots) {
        Some(BootPlanError::Validation(BootContextValidationError::DuplicateMountSequence))
    } else if !all_free(slots) {
        Some(BootPlanError::ActivePermanentSlot)
    } else {
        adoption_error(checked.header)
    }
}

/// The first verdict that is a fault.
fn find_fault(slots: &[CheckedSlot]) -> (fault: Option<BootContextValidationError>)
    ensures
        fault == first_fault(slots@),
{
    let mut i: usize = 0;
    assert(slots@.skip(0) =~= slots@);
    while i < slots.len()
        invariant
            i <= slots@.len(),
            first_fault(slots@) == first_fault(slots@.skip(i as int)),
        decreases slots@.len() - i,
    {
        assert(slots@.skip(i as int).drop_first() =~= slots@.skip(i + 1));
        match slots[i].verdict {
            Err(error) => {
                return Some(error);
            },
            Ok(_) => {},
        }
        i += 1;
    }
    None
}

/// Does any slot hold a mount?
fn any_occupied(slots: &[CheckedSlot]) -> (answer: bool)
    ensures
        answer == !all_free(slots@),
{
    let mut i: usize = 0;
    while i < slots.len()
        invariant
            i <= slots@.len(),
            forall|k: int| 0 <= k < i ==> (#[trigger] slots@[k]).slot.state == SLOT_FREE,
        decreases slots@.len() - i,
    {
        if slots[i].slot.state != SLOT_FREE {
            return true;
        }
        i += 1;
    }
    false
}

/// Do two slots hold the same mount?
fn any_repeated(slots: &[CheckedSlot]) -> (answer: bool)
    ensures
        answer == repeats_a_mount(slots@),
{
    let mut i: usize = 0;
    while i < slots.len()
        invariant
            i <= slots@.len(),
            forall|a: int, b: int|
                0 <= a < i && a < b < slots@.len() ==> !mounted_twice(
                    (#[trigger] slots@[a]).slot,
                    (#[trigger] slots@[b]).slot,
                ),
        decreases slots@.len() - i,
    {
        if slots[i].slot.state != SLOT_FREE {
            let mut j: usize = i + 1;
            while j < slots.len()
                invariant
                    i < j <= slots@.len(),
                    slots@[i as int].slot.state != SLOT_FREE,
                    forall|b: int|
                        i < b < j ==> !mounted_twice(
                            slots@[i as int].slot,
                            (#[trigger] slots@[b]).slot,
                        ),
                decreases slots@.len() - j,
            {
                if slots[j].slot.state != SLOT_FREE && slots[j].slot.mount_sequence
                    == slots[i].slot.mount_sequence {
                    assert(mounted_twice(slots@[i as int].slot, slots@[j as int].slot));
                    return true;
                }
                j += 1;
            }
        }
        i += 1;
    }
    false
}

/// Plan the adoption of an existing section. `committed_digest` seals the
/// adopted image. While the publication is under way only the sequence word
/// changes.
pub fn plan_existing_context(
    checked: CheckedHeader,
    slots: &[CheckedSlot],
    committed_digest: [u8; 32],
) -> (plan: Result<BootLoadPlan, BootPlanError>)
    ensures
        match existing_error(checked, slots@) {
            Some(error) => plan == Err::<BootLoadPlan, _>(error),
            None => plan == Ok::<_, BootPlanError>(
                BootLoadPlan::Adopt(
                    BootHeaderPublication {
                        initial: BootContextHeaderV1 {
                            header_sequence: odd_after(checked.header.header_sequence),
                            ..checked.header
                        },
                        committed: sealed(adopted(checked.header), committed_digest),
                    },
                ),
            ),
        },
        plan matches Ok(BootLoadPlan::Adopt(publication)) ==> same_but_counters(
            checked.header,
            publication.initial,
        ) && same_but_counters(checked.header, publication.committed),
{
    match checked.verdict {
        Err(error) => {
            return Err(BootPlanError::Validation(error));
        },
        Ok(_) => {},
    }
    if slots.len() != BOOT_CONTEXT_SLOT_COUNT as usize {
        return Err(BootPlanError::Validation(BootContextValidationError::InvalidLength));
    }
    if let Some(error) = find_fault(slots) {
        return Err(BootPlanError::Validation(error));
    }
    if any_repeated(slots) {
        return Err(BootPlanError::Validation(BootContextValidationError::DuplicateMountSequence));
    }
    if any_occupied(slots) {
        return Err(BootPlanError::ActivePermanentSlot);
    }
    let mut committed = match adopted_image(&checked.header) {
        Ok(image) => image,
        Err(error) => {
            return Err(error);
        },
    };
    committed.digest = committed_digest;
    let mut initial = checked.header;
    initial.header_sequence = marked_odd(checked.header.header_sequence);
    Ok(BootLoadPlan::Adopt(BootHeaderPublication { initial, committed }))
}

/// Why the header cannot take a further mount burn, if it cannot.
pub open spec fn counting_error(header: BootContextHeaderV1) -> Option<BootPlanError> {
    if header.mount_sequence == u64::MAX {
        Some(BootPlanError::Counter(BootCounterError::Exhausted))
    } else {
        publication_error(header)
    }
}

/// The header after a mount burn, but for its digest.
pub open spec fn burned(header: BootContextHeaderV1) -> BootContextHeaderV1 {
    BootContextHeaderV1 {
        header_sequence: (header.header_sequence + 2) as u64,
        mount_sequence: (header.mount_sequence + 1) as u64,
        mount_sequence_complement: complement((header.mount_sequence + 1) as u64),
        ..header
    }
}

/// The header after a mount burn, to be sealed.
pub fn burned_image(header: &BootContextHeaderV1) -> (image: Result<
    BootContextHeaderV1,
    BootPlanError,
>)
    ensures
        match counting_error(*header) {
            Some(error) => image == Err::<BootContextHeaderV1, _>(error),
            None => image matches Ok(unsealed) && unsealed_of(burned(*header), unsealed)
                && same_but_counters(*header, unsealed),
        },
{
    if header.mount_sequence == u64::MAX {
        return Err(BootPlanError::Counter(BootCounterError::Exhausted));
    }
    if header.header_sequence > u64::MAX - 2 {
        return Err(BootPlanError::Publication(BootSequenceError::Exhausted));
    }
    let next = header.mount_sequence + 1;
    let mut image = *header;
    image.header_sequence = header.header_sequence + 2;
    image.mount_sequence = next;
    image.mount_sequence_complement = flipped(next);
    image.digest = [0; 32];
    assert(image.digest@ =~= Seq::new(32, |i: int| 0u8));
    Ok(image)
}

/// Why no mount identity can be burned, if none can.
pub open spec fn burn_error(checked: CheckedHeader, random_high: u64) -> Option<BootPlanError> {
    if checked.verdict is Err {
        Some(BootPlanError::Validation(checked.verdict->Err_0))
    } else if counting_error(checked.header) is Some {
        counting_error(checked.header)
    } else if random_high == 0 {
        Some(BootPlanError::Identity(BootIdentityError::ZeroRandomHigh))
    } else {
        None
    }
}

/// Plan the burning of one mount identity: the next mount sequence below, the
/// random half above. `committed_digest` seals the burned image.
pub fn plan_mount_burn(
    checked: &CheckedHeader,
    random_high: u64,
    committed_digest: [u8; 32],
) -> (plan: Result<MountBurnPlan, BootPlanError>)
    ensures
        match burn_error(*checked, random_high) {
            Some(error) => plan == Err::<MountBurnPlan, _>(error),
            None => plan matches Ok(burn) && burn@ == (MountBurnModel {
                before: checked.header,
                committed: sealed(burned(checked.header), committed_digest),
                mount_id: MountId {
                    lo: (checked.header.mount_sequence + 1) as u64,
                    hi: random_high,
                },
            }),
        },
{
    match checked.verdict {
        Err(error) => {
            return Err(BootPlanError::Validation(error));
        },
        Ok(_) => {},
    }
    let mut committed = match burned_image(&checked.header) {
        Ok(image) => image,
        Err(error) => {
            return Err(error);
        },
    };
    if random_high == 0 {
        return Err(BootPlanError::Identity(BootIdentityError::ZeroRandomHigh));
    }
    let mount_id = MountId { lo: committed.mount_sequence, hi: random_high };
    committed.digest = committed_digest;
    Ok(MountBurnPlan { before: checked.header, committed, mount_id })
}

/// A header between publications: the section is in use, its sequence is even,
/// each counter stands beside its complement, and the driver has been loaded at
/// least once.
pub open spec fn is_stable(header: BootContextHeaderV1) -> bool {
    &&& header.init_state == BOOT_CONTEXT_READY
    &&& header.header_sequence % 2 == 0
    &&& header.mount_sequence_complement == complement(header.mount_sequence)
    &&& header.load_generation_complement == complement(header.load_generation)
    &&& header.load_generation >= 1
}

/// A new section's header is stable, and the image that stands before it is
/// marked as under way.
pub proof fn law_new_context_is_stable(
    image: BootContextHeaderV1,
    boot_instance_id: BootInstanceId,
    per_boot_retire_key: [u8; 32],
)
    requires
        is_ready_image(image, boot_instance_id, per_boot_retire_key),
    ensures
        is_stable(image),
        initializing(image).header_sequence % 2 == 1,
        initializing(image).header_sequence < image.header_sequence,
{
}

/// An adoption leads from a stable header to a stable one through an odd
/// sequence, moves the load generation on by one, and leaves the mount counter,
/// the boot's identity and its key alone.
pub proof fn law_adoption_keeps_the_header_stable(header: BootContextHeaderV1, digest: [u8; 32])
    requires
        is_stable(header),
        adoption_error(header) is None,
    ensures
        is_stable(sealed(adopted(header), digest)),
        odd_after(header.header_sequence) % 2 == 1,
        header.header_sequence < odd_after(header.header_sequence),
        odd_after(header.header_sequence) < adopted(header).header_sequence,
        adopted(header).load_generation == header.load_generation + 1,
        adopted(header).mount_sequence == header.mount_sequence,
        adopted(header).boot_instance_id == header.boot_instance_id,
        adopted(header).per_boot_retire_key == header.per_boot_retire_key,
{
}

/// A mount burn leads from a stable header to a stable one, moves the mount
/// counter on by one, and leaves the load generation, the boot's identity and
/// its key alone.
pub proof fn law_burn_keeps_the_header_stable(header: BootContextHeaderV1, digest: [u8; 32])
    requires
        is_stable(header),
        counting_error(header) is None,
    ensures
        is_stable(sealed(burned(header), digest)),
        header.header_sequence < burned(header).header_sequence,
        burned(header).mount_sequence == header.mount_sequence + 1,
        burned(header).load_generation == header.load_generation,
        burned(header).boot_instance_id == header.boot_instance_id,
        burned(header).per_boot_retire_key == header.per_boot_retire_key,
{
}

/// A header after `burns` mount burns, whatever digests sealed it.
pub open spec fn burned_times(header: BootContextHeaderV1, burns: nat) -> BootContextHeaderV1
    decreases burns,
{
    if burns == 0 {
        header
    } else {
        burned(burned_times(header, (burns - 1) as nat))
    }
}

/// No mount identity is given out twice: burns from one line of headers count
/// their identities strictly upwards, as long as the counters last.
pub proof fn law_burned_identities_differ(header: BootContextHeaderV1, first: nat, second: nat)
    requires
        first < second,
        header.mount_sequence + second <= u64::MAX,
        header.header_sequence + 2 * second <= u64::MAX,
    ensures
        burned_times(header, first).mount_sequence < burned_times(header, second).mount_sequence,
        burned_times(header, second).mount_sequence == header.mount_sequence + second,
        burned_times(header, second).header_sequence == header.header_sequence + 2 * second,
    decreases second,
{
    if first + 1 < second {
        law_burned_identities_differ(header, first, (second - 1) as nat);
    } else if first > 0 {
        law_burned_identities_differ(header, (first - 1) as nat, first);
    }
}

/// An adoption that is not refused found all slots, each valid and free.
pub proof fn law_adoption_needs_free_slots(checked: CheckedHeader, slots: Seq<CheckedSlot>)
    requires
        existing_error(checked, slots) is None,
    ensures
        checked.verdict is Ok,
        slots.len() == BOOT_CONTEXT_SLOT_COUNT,
        forall|i: int|
            0 <= i < slots.len() ==> (#[trigger] slots[i]).verdict is Ok && slots[i].slot.state
                == SLOT_FREE,
{
    lemma_no_fault(slots);
}

/// Without a first fault there is none.
proof fn lemma_no_fault(slots: Seq<CheckedSlot>)
    requires
        first_fault(slots) is None,
    ensures
        forall|i: int| 0 <= i < slots.len() ==> (#[trigger] slots[i]).verdict is Ok,
    decreases slots.len(),
{
    if slots.len() > 0 {
        lemma_no_fault(slots.drop_first());
        assert forall|i: int| 0 <= i < slots.len() implies (#[trigger] slots[i]).verdict is Ok by {
            if i > 0 {
                assert(slots[i] == slots.drop_first()[i - 1]);
            }
        }
    }
}

/// The two headers agree in everything but what a publication may replace: the
/// sequence, the two counters with their complements, and the digest.
pub open spec fn same_but_counters(first: BootContextHeaderV1, second: BootContextHeaderV1) -> bool {
    &&& first.magic == second.magic
    &&& first.format_version == second.format_version
    &&& first.header_size == second.header_size
    &&& first.context_size == second.context_size
    &&& first.slot_size == second.slot_size
    &&& first.slot_count == second.slot_count
    &&& first.init_state == second.init_state
    &&& first.flags == second.flags
    &&& first.reserved0 == second.reserved0
    &&& first.boot_instance_id == second.boot_instance_id
    &&& first.per_boot_retire_key == second.per_boot_retire_key
    &&& first.reserved == second.reserved
}

/// An adoption replaces the sequence, the load generation, its complement and the
/// digest, and keeps every other field of the header as it found it: a section in
/// use stays in use.
pub proof fn law_adoption_keeps_every_other_field(header: BootContextHeaderV1, digest: [u8; 32])
    requires
        adoption_error(header) is None,
    ensures
        ({
            let committed = sealed(adopted(header), digest);
            &&& same_but_counters(header, committed)
            &&& header.init_state == BOOT_CONTEXT_READY ==> committed.init_state
                == BOOT_CONTEXT_READY
            &&& committed.mount_sequence == header.mount_sequence
            &&& committed.mount_sequence_complement == header.mount_sequence_complement
            &&& committed.header_sequence == header.header_sequence + 2
            &&& committed.load_generation == header.load_generation + 1
            &&& committed.load_generation_complement + committed.load_generation == u64::MAX
            &&& committed.digest == digest
            &&& committed == (BootContextHeaderV1 {
                header_sequence: committed.header_sequence,
                load_generation: committed.load_generation,
                load_generation_complement: committed.load_generation_complement,
                digest,
                ..header
            })
        }),
{
}

/// A mount burn replaces the sequence, the mount counter, its complement and the
/// digest, and keeps every other field of the header as it found it.
pub proof fn law_burn_keeps_every_other_field(header: BootContextHeaderV1, digest: [u8; 32])
    requires
        counting_error(header) is None,
    ensures
        ({
            let committed = sealed(burned(header), digest);
            &&& same_but_counters(header, committed)
            &&& header.init_state == BOOT_CONTEXT_READY ==> committed.init_state
                == BOOT_CONTEXT_READY
            &&& committed.load_generation == header.load_generation
            &&& committed.load_generation_complement == header.load_generation_complement
            &&& committed.header_sequence == header.header_sequence + 2
            &&& committed.mount_sequence == header.mount_sequence + 1
            &&& committed.mount_sequence_complement + committed.mount_sequence == u64::MAX
            &&& committed.digest == digest
            &&& committed == (BootContextHeaderV1 {
                header_sequence: committed.header_sequence,
                mount_sequence: committed.mount_sequence,
                mount_sequence_complement: committed.mount_sequence_complement,
                digest,
                ..header
            })
        }),
{
}

/// While a publication of a stable header is under way only its sequence differs,
/// and it is odd: the lowest bit is set and nothing else.
pub proof fn law_publication_is_marked_odd(sequence: u64)
    ensures
        odd_after(sequence) % 2 == 1,
        sequence % 2 == 0 ==> odd_after(sequence) == sequence + 1,
        sequence % 2 == 1 ==> odd_after(sequence) == sequence,
{
}

/// A new section is in use, empty, at its first load and its initial sequence, of
/// the layout that this crate knows, with no flag and no reserved byte set, and of
/// the boot and the key it was made for. While it is initialized it says so, at
/// sequence one, and agrees with that in everything else but the digest.
pub proof fn law_new_section_is_empty_and_in_use(
    image: BootContextHeaderV1,
    boot_instance_id: BootInstanceId,
    per_boot_retire_key: [u8; 32],
    digest: [u8; 32],
)
    requires
        is_ready_image(image, boot_instance_id, per_boot_retire_key),
    ensures
        image.init_state == BOOT_CONTEXT_READY,
        image.magic == BOOT_CONTEXT_MAGIC && image.format_version == 1,
        image.header_size == 256 && image.slot_size == 256 && image.slot_count == 64,
        image.context_size == image.header_size + image.slot_size * image.slot_count,
        image.flags == 0 && image.reserved0 == 0,
        forall|i: int| 0 <= i < 96 ==> image.reserved@[i] == 0,
        image.header_sequence == 2,
        image.mount_sequence == 0 && image.mount_sequence_complement == u64::MAX,
        image.load_generation == 1 && image.load_generation_complement == u64::MAX - 1,
        image.boot_instance_id == boot_instance_id,
        image.per_boot_retire_key == per_boot_retire_key,
        sealed(initializing(image), digest) == (BootContextHeaderV1 {
            init_state: BOOT_CONTEXT_INITIALIZING,
            header_sequence: 1,
            digest,
            ..image
        }),
{
}

/// A seal replaces the digest and nothing else, and an image to be sealed has a
/// digest of zeroes.
pub proof fn law_seal_replaces_the_digest(
    image: BootContextHeaderV1,
    unsealed: BootContextHeaderV1,
    digest: [u8; 32],
)
    ensures
        sealed(image, digest) == (BootContextHeaderV1 { digest, ..image }),
        unsealed_of(image, unsealed) ==> sealed(unsealed, digest) == sealed(image, digest),
        unsealed_of(image, unsealed) ==> forall|i: int| 0 <= i < 32 ==> unsealed.digest@[i] == 0,
{
}

/// A counter and its complement add up to all ones.
pub proof fn law_complement_adds_up(counter: u64)
    ensures
        complement(counter) + counter == u64::MAX,
        complement(complement(counter)) == counter,
{
}

/// A header can be published again as long as two sequences are left. An adoption
/// needs a load generation left besides, and a mount burn a mount number; the
/// counter is missed before the sequence is.
pub proof fn law_counters_end_at_their_ends(header: BootContextHeaderV1)
    ensures
        ({
            let sequences = header.header_sequence <= u64::MAX - 2;
            let generations = header.load_generation < u64::MAX;
            let numbers = header.mount_sequence < u64::MAX;
            let counter = Some(BootPlanError::Counter(BootCounterError::Exhausted));
            let sequence = Some(BootPlanError::Publication(BootSequenceError::Exhausted));
            &&& adoption_error(header) is None <==> sequences && generations
            &&& adoption_error(header) == counter <==> !generations
            &&& adoption_error(header) == sequence <==> generations && !sequences
            &&& counting_error(header) is None <==> sequences && numbers
            &&& counting_error(header) == counter <==> !numbers
            &&& counting_error(header) == sequence <==> numbers && !sequences
        }),
{
}

/// A slot is at fault exactly where its verdict is one, and the first of them is
/// the one that is told.
pub proof fn law_first_fault_is_the_first(slots: Seq<CheckedSlot>)
    ensures
        first_fault(slots) is None <==> forall|i: int|
            0 <= i < slots.len() ==> (#[trigger] slots[i]).verdict is Ok,
        first_fault(slots) matches Some(error) ==> exists|i: int|
            #![trigger slots[i]]
            0 <= i < slots.len() && slots[i].verdict == Err::<(), BootContextValidationError>(error)
                && forall|j: int| 0 <= j < i ==> (#[trigger] slots[j]).verdict is Ok,
    decreases slots.len(),
{
    if slots.len() > 0 {
        let rest = slots.drop_first();
        law_first_fault_is_the_first(rest);
        if slots[0].verdict is Ok {
            if first_fault(slots) is None {
                assert forall|i: int| 0 <= i < slots.len() implies (#[trigger] slots[i]).verdict
                    is Ok by {
                    if i > 0 {
                        assert(slots[i] == rest[i - 1]);
                    }
                }
            } else {
                let error = first_fault(slots)->0;
                let k = choose|k: int|
                    #![trigger rest[k]]
                    0 <= k < rest.len() && rest[k].verdict == Err::<(), BootContextValidationError>(
                        error,
                    ) && forall|j: int| 0 <= j < k ==> (#[trigger] rest[j]).verdict is Ok;
                assert(slots[k + 1] == rest[k]);
                assert forall|j: int| 0 <= j < k + 1 implies (#[trigger] slots[j]).verdict is Ok by {
                    if j > 0 {
                        assert(slots[j] == rest[j - 1]);
                    }
                }
            }
        } else {
            assert(slots[0].verdict == Err::<(), BootContextValidationError>(first_fault(slots)->0));
        }
    }
}

/// A section is adopted exactly where its header is valid, it has all its slots,
/// every one of them is valid and free, and the counters have room. Of what is
/// wrong the first of these is told: the header, the number of slots, the first
/// bad slot, a mount that two slots hold, a slot that holds a mount, a counter.
pub proof fn law_adoption_is_refused_in_order(checked: CheckedHeader, slots: Seq<CheckedSlot>)
    ensures
        ({
            let answer = existing_error(checked, slots);
            let valid = checked.verdict is Ok;
            let whole = slots.len() == 64;
            let sound = forall|i: int| 0 <= i < slots.len() ==> (#[trigger] slots[i]).verdict is Ok;
            let free = forall|i: int|
                0 <= i < slots.len() ==> (#[trigger] slots[i]).slot.state == SLOT_FREE;
            let twice = exists|i: int, j: int|
                0 <= i < j < slots.len() && (#[trigger] slots[i]).slot.state != SLOT_FREE && (
                #[trigger] slots[j]).slot.state != SLOT_FREE && slots[i].slot.mount_sequence
                    == slots[j].slot.mount_sequence;
            let room = checked.header.load_generation < u64::MAX && checked.header.header_sequence
                <= u64::MAX - 2;
            &&& answer is None <==> valid && whole && sound && free && room
            &&& !valid ==> answer == Some(BootPlanError::Validation(checked.verdict->Err_0))
            &&& valid && !whole ==> answer == Some(
                BootPlanError::Validation(BootContextValidationError::InvalidLength),
            )
            &&& valid && whole && !sound ==> exists|i: int|
                #![trigger slots[i]]
                0 <= i < slots.len() && slots[i].verdict is Err && answer == Some(
                    BootPlanError::Validation(slots[i].verdict->Err_0),
                ) && forall|j: int| 0 <= j < i ==> (#[trigger] slots[j]).verdict is Ok
            &&& valid && whole && sound && twice ==> answer == Some(
                BootPlanError::Validation(BootContextValidationError::DuplicateMountSequence),
            )
            &&& answer == Some(BootPlanError::ActivePermanentSlot) <==> valid && whole && sound
                && !twice && !free
            &&& valid && whole && sound && free && !room ==> answer == Some(
                if checked.header.load_generation == u64::MAX {
                    BootPlanError::Counter(BootCounterError::Exhausted)
                } else {
                    BootPlanError::Publication(BootSequenceError::Exhausted)
                },
            )
        }),
{
    law_first_fault_is_the_first(slots);
    law_counters_end_at_their_ends(checked.header);
    let twice = exists|i: int, j: int|
        0 <= i < j < slots.len() && (#[trigger] slots[i]).slot.state != SLOT_FREE && (
        #[trigger] slots[j]).slot.state != SLOT_FREE && slots[i].slot.mount_sequence
            == slots[j].slot.mount_sequence;
    if twice {
        let (i, j) = choose|i: int, j: int|
            0 <= i < j < slots.len() && (#[trigger] slots[i]).slot.state != SLOT_FREE && (
            #[trigger] slots[j]).slot.state != SLOT_FREE && slots[i].slot.mount_sequence
                == slots[j].slot.mount_sequence;
        assert(mounted_twice(slots[i].slot, slots[j].slot));
        assert(repeats_a_mount(slots));
    }
    if repeats_a_mount(slots) {
        let (i, j) = choose|i: int, j: int|
            0 <= i < j < slots.len() && mounted_twice(
                (#[trigger] slots[i]).slot,
                (#[trigger] slots[j]).slot,
            );
        assert(slots[i].slot.state != SLOT_FREE && slots[j].slot.state != SLOT_FREE
            && slots[i].slot.mount_sequence == slots[j].slot.mount_sequence);
    }
}

/// A mount identity is burned exactly where the header is valid, a mount number
/// and two sequences are left, and the random half is not zero; the random half is
/// looked at last.
pub proof fn law_burn_is_refused_in_order(checked: CheckedHeader, random_high: u64)
    ensures
        ({
            let answer = burn_error(checked, random_high);
            let valid = checked.verdict is Ok;
            let number = checked.header.mount_sequence < u64::MAX;
            let room = checked.header.header_sequence <= u64::MAX - 2;
            &&& answer is None <==> valid && number && room && random_high != 0
            &&& !valid ==> answer == Some(BootPlanError::Validation(checked.verdict->Err_0))
            &&& valid && !number ==> answer == Some(
                BootPlanError::Counter(BootCounterError::Exhausted),
            )
            &&& valid && number && !room ==> answer == Some(
                BootPlanError::Publication(BootSequenceError::Exhausted),
            )
            &&& valid && number && room && random_high == 0 ==> answer == Some(
                BootPlanError::Identity(BootIdentityError::ZeroRandomHigh),
            )
        }),
{
}

/// An adopted header is the one adopted in every field but four: its sequence goes
/// up by two, its load generation by one with the complement that goes with it, and
/// its digest is clear until it is sealed. A header in use stays in use.
pub proof fn law_adopted_image_is_the_header_counted_on(
    header: BootContextHeaderV1,
    image: Result<BootContextHeaderV1, BootPlanError>,
)
    requires
        call_ensures(adopted_image, (&header,), image),
    ensures
        image is Ok <==> header.load_generation < u64::MAX && header.header_sequence <= u64::MAX
            - 2,
        image == Err::<BootContextHeaderV1, _>(BootPlanError::Counter(BootCounterError::Exhausted))
            <==> header.load_generation == u64::MAX,
        image matches Ok(adopted) ==> {
            &&& adopted.header_sequence == header.header_sequence + 2
            &&& adopted.load_generation == header.load_generation + 1
            &&& adopted.load_generation_complement + adopted.load_generation == u64::MAX
            &&& forall|i: int| 0 <= i < 32 ==> adopted.digest@[i] == 0
            &&& adopted.init_state == header.init_state
            &&& adopted == (BootContextHeaderV1 {
                header_sequence: adopted.header_sequence,
                load_generation: adopted.load_generation,
                load_generation_complement: adopted.load_generation_complement,
                digest: adopted.digest,
                ..header
            })
        },
{
    law_counters_end_at_their_ends(header);
    if let Ok(adopted) = image {
        law_adoption_keeps_every_other_field(header, adopted.digest);
    }
}

/// A burned header is the one burned in every field but four: its sequence goes up
/// by two, its mount sequence by one with the complement that goes with it, and its
/// digest is clear until it is sealed. A header in use stays in use.
pub proof fn law_burned_image_is_the_header_counted_on(
    header: BootContextHeaderV1,
    image: Result<BootContextHeaderV1, BootPlanError>,
)
    requires
        call_ensures(burned_image, (&header,), image),
    ensures
        image is Ok <==> header.mount_sequence < u64::MAX && header.header_sequence <= u64::MAX - 2,
        image == Err::<BootContextHeaderV1, _>(BootPlanError::Counter(BootCounterError::Exhausted))
            <==> header.mount_sequence == u64::MAX,
        image matches Ok(burned) ==> {
            &&& burned.header_sequence == header.header_sequence + 2
            &&& burned.mount_sequence == header.mount_sequence + 1
            &&& burned.mount_sequence_complement + burned.mount_sequence == u64::MAX
            &&& forall|i: int| 0 <= i < 32 ==> burned.digest@[i] == 0
            &&& burned.init_state == header.init_state
            &&& burned == (BootContextHeaderV1 {
                header_sequence: burned.header_sequence,
                mount_sequence: burned.mount_sequence,
                mount_sequence_complement: burned.mount_sequence_complement,
                digest: burned.digest,
                ..header
            })
        },
{
    law_counters_end_at_their_ends(header);
    if let Ok(burned) = image {
        law_burn_keeps_every_other_field(header, burned.digest);
    }
}

/// An existing section is adopted in two writes. The first marks the header odd and
/// changes nothing else; the second counts it on, seals it with the digest it is
/// given, and leaves it in use as it was. Every slot has to be sound and free.
pub proof fn law_existing_section_is_adopted_in_two_writes(
    checked: CheckedHeader,
    slots: &[CheckedSlot],
    digest: [u8; 32],
    plan: Result<BootLoadPlan, BootPlanError>,
)
    requires
        call_ensures(plan_existing_context, (checked, slots, digest), plan),
    ensures
        ({
            let header = checked.header;
            let sound = forall|i: int|
                0 <= i < slots@.len() ==> (#[trigger] slots@[i]).verdict is Ok;
            let free = forall|i: int|
                0 <= i < slots@.len() ==> (#[trigger] slots@[i]).slot.state == SLOT_FREE;
            &&& plan is Ok <==> checked.verdict is Ok && slots@.len() == 64 && sound && free
                && header.load_generation < u64::MAX && header.header_sequence <= u64::MAX - 2
            &&& plan matches Ok(chosen) ==> chosen is Adopt
            &&& plan matches Ok(BootLoadPlan::Adopt(publication)) ==> {
                &&& publication.initial.header_sequence == header.header_sequence + (if
                    header.header_sequence % 2 == 0 {
                    1int
                } else {
                    0
                })
                &&& publication.initial == (BootContextHeaderV1 {
                    header_sequence: publication.initial.header_sequence,
                    ..header
                })
                &&& publication.committed.header_sequence == header.header_sequence + 2
                &&& publication.committed.load_generation == header.load_generation + 1
                &&& publication.committed.load_generation_complement
                    + publication.committed.load_generation == u64::MAX
                &&& publication.committed.init_state == header.init_state
                &&& publication.committed == (BootContextHeaderV1 {
                    header_sequence: publication.committed.header_sequence,
                    load_generation: publication.committed.load_generation,
                    load_generation_complement: publication.committed.load_generation_complement,
                    digest,
                    ..header
                })
            }
        }),
{
    law_adoption_is_refused_in_order(checked, slots@);
    law_counters_end_at_their_ends(checked.header);
    law_publication_is_marked_odd(checked.header.header_sequence);
    if plan is Ok {
        law_adoption_keeps_every_other_field(checked.header, digest);
    }
}

/// Why an existing section is not adopted, first fault first: its header, the
/// number of its slots, its first unsound slot, a mount recorded twice, a slot that
/// is not free, and counters that are spent.
pub proof fn law_existing_section_is_refused_in_order(
    checked: CheckedHeader,
    slots: &[CheckedSlot],
    digest: [u8; 32],
    plan: Result<BootLoadPlan, BootPlanError>,
)
    requires
        call_ensures(plan_existing_context, (checked, slots, digest), plan),
    ensures
        ({
            let valid = checked.verdict is Ok;
            let whole = slots@.len() == 64;
            let sound = forall|i: int|
                0 <= i < slots@.len() ==> (#[trigger] slots@[i]).verdict is Ok;
            let free = forall|i: int|
                0 <= i < slots@.len() ==> (#[trigger] slots@[i]).slot.state == SLOT_FREE;
            let twice = exists|i: int, j: int|
                0 <= i < j < slots@.len() && (#[trigger] slots@[i]).slot.state != SLOT_FREE && (
                #[trigger] slots@[j]).slot.state != SLOT_FREE && slots@[i].slot.mount_sequence
                    == slots@[j].slot.mount_sequence;
            &&& !valid ==> plan == Err::<BootLoadPlan, _>(
                BootPlanError::Validation(checked.verdict->Err_0),
            )
            &&& valid && !whole ==> plan == Err::<BootLoadPlan, _>(
                BootPlanError::Validation(BootContextValidationError::InvalidLength),
            )
            &&& valid && whole && !sound ==> exists|i: int|
                #![trigger slots@[i]]
                0 <= i < slots@.len() && slots@[i].verdict is Err && plan == Err::<
                    BootLoadPlan,
                    _,
                >(BootPlanError::Validation(slots@[i].verdict->Err_0)) && forall|j: int|
                    0 <= j < i ==> (#[trigger] slots@[j]).verdict is Ok
            &&& valid && whole && sound && twice ==> plan == Err::<BootLoadPlan, _>(
                BootPlanError::Validation(BootContextValidationError::DuplicateMountSequence),
            )
            &&& plan == Err::<BootLoadPlan, _>(BootPlanError::ActivePermanentSlot) <==> valid
                && whole && sound && !twice && !free
            &&& valid && whole && sound && free && plan is Err ==> plan == Err::<BootLoadPlan, _>(
                if checked.header.load_generation == u64::MAX {
                    BootPlanError::Counter(BootCounterError::Exhausted)
                } else {
                    BootPlanError::Publication(BootSequenceError::Exhausted)
                },
            )
        }),
{
    law_adoption_is_refused_in_order(checked, slots@);
}

/// A new section is committed empty and in use, in its first state of use, and
/// first written as one that is being initialized: with sequence one, and the same
/// in every other field but the digest.
pub proof fn law_new_section_is_written_in_two_states(
    boot_instance_id: BootInstanceId,
    retire_key: [u8; 32],
    committed_digest: [u8; 32],
    verdict: Result<(), BootContextValidationError>,
    initial_digest: [u8; 32],
    plan: Result<BootLoadPlan, BootPlanError>,
)
    requires
        call_ensures(
            plan_new_context,
            (boot_instance_id, retire_key, committed_digest, verdict, initial_digest),
            plan,
        ),
    ensures
        plan is Ok <==> verdict is Ok,
        verdict matches Err(error) ==> plan == Err::<BootLoadPlan, _>(
            BootPlanError::Validation(error),
        ),
        plan matches Ok(chosen) ==> {
            &&& chosen matches BootLoadPlan::Initialize(publication)
            &&& publication.committed.init_state == BOOT_CONTEXT_READY
            &&& publication.committed.header_sequence == 2
            &&& publication.committed.mount_sequence == 0
            &&& publication.committed.mount_sequence_complement == u64::MAX
            &&& publication.committed.load_generation == 1
            &&& publication.committed.load_generation_complement == u64::MAX - 1
            &&& publication.committed.boot_instance_id == boot_instance_id
            &&& publication.committed.per_boot_retire_key == retire_key
            &&& publication.committed.digest == committed_digest
            &&& publication.committed.magic == BOOT_CONTEXT_MAGIC
            &&& publication.committed.slot_count == 64
            &&& publication.committed.flags == 0
            &&& publication.initial == (BootContextHeaderV1 {
                init_state: BOOT_CONTEXT_INITIALIZING,
                header_sequence: 1,
                digest: initial_digest,
                ..publication.committed
            })
        },
{
}

/// A burn names the mount by the number it spends and by the random word, which is
/// not zero, and commits the header counted on and sealed. Its faults go in this
/// order: the header, a spent number, a spent sequence, a zero random word.
pub proof fn law_burn_names_the_mount_it_spends(
    checked: CheckedHeader,
    random_high: u64,
    digest: [u8; 32],
    plan: Result<MountBurnPlan, BootPlanError>,
)
    requires
        call_ensures(plan_mount_burn, (&checked, random_high, digest), plan),
    ensures
        ({
            let header = checked.header;
            let valid = checked.verdict is Ok;
            let number = header.mount_sequence < u64::MAX;
            let room = header.header_sequence <= u64::MAX - 2;
            &&& plan is Ok <==> valid && number && room && random_high != 0
            &&& !valid ==> plan == Err::<MountBurnPlan, _>(
                BootPlanError::Validation(checked.verdict->Err_0),
            )
            &&& valid && !number ==> plan == Err::<MountBurnPlan, _>(
                BootPlanError::Counter(BootCounterError::Exhausted),
            )
            &&& valid && number && !room ==> plan == Err::<MountBurnPlan, _>(
                BootPlanError::Publication(BootSequenceError::Exhausted),
            )
            &&& valid && number && room && random_high == 0 ==> plan == Err::<MountBurnPlan, _>(
                BootPlanError::Identity(BootIdentityError::ZeroRandomHigh),
            )
            &&& plan matches Ok(burn) ==> {
                &&& burn@.before == header
                &&& burn@.mount_id.lo == header.mount_sequence + 1
                &&& burn@.mount_id.hi == random_high
                &&& burn@.committed.mount_sequence == burn@.mount_id.lo
                &&& burn@.committed.mount_sequence_complement + burn@.mount_id.lo == u64::MAX
                &&& burn@.committed.header_sequence == header.header_sequence + 2
                &&& burn@.committed == (BootContextHeaderV1 {
                    header_sequence: burn@.committed.header_sequence,
                    mount_sequence: burn@.committed.mount_sequence,
                    mount_sequence_complement: burn@.committed.mount_sequence_complement,
                    digest,
                    ..header
                })
            }
        }),
{
    law_burn_is_refused_in_order(checked, random_high);
    if plan is Ok {
        law_burn_keeps_every_other_field(checked.header, digest);
    }
}

/// The image of a section that is being initialized differs from the committed one
/// in its state, its sequence and its digest, and in nothing else.
pub proof fn law_initializing_image_is_marked(
    committed: BootContextHeaderV1,
    image: BootContextHeaderV1,
)
    requires
        call_ensures(initializing_image, (&committed,), image),
    ensures
        image.init_state == BOOT_CONTEXT_INITIALIZING,
        image.header_sequence == 1,
        forall|i: int| 0 <= i < 32 ==> image.digest@[i] == 0,
        image == (BootContextHeaderV1 {
            init_state: image.init_state,
            header_sequence: 1,
            digest: image.digest,
            ..committed
        }),
{
}

/// The image of a new section is empty and in use, for the boot and with the key it
/// is given, and unsealed.
pub proof fn law_ready_image_is_empty_and_in_use(
    boot_instance_id: BootInstanceId,
    retire_key: [u8; 32],
    image: BootContextHeaderV1,
    plan: MountBurnPlan,
    before: BootContextHeaderV1,
    committed: BootContextHeaderV1,
    mount_id: MountId,
)
    requires
        call_ensures(ready_image, (boot_instance_id, retire_key), image),
        call_ensures(MountBurnPlan::before, (&plan,), before),
        call_ensures(MountBurnPlan::committed, (&plan,), committed),
        call_ensures(MountBurnPlan::mount_id, (&plan,), mount_id),
    ensures
        image.magic == 0x3158_5443_5446_5342,
        image.format_version == 1,
        image.header_size == 256,
        image.slot_size == 256,
        image.slot_count == 64,
        image.context_size == 256 + 64 * 256,
        image.init_state == 2,
        image.header_sequence == 2,
        image.mount_sequence == 0,
        image.mount_sequence_complement == u64::MAX,
        image.load_generation == 1,
        image.load_generation_complement == u64::MAX - 1,
        image.flags == 0 && image.reserved0 == 0,
        image.boot_instance_id == boot_instance_id,
        image.per_boot_retire_key == retire_key,
        forall|i: int| 0 <= i < 32 ==> image.digest@[i] == 0,
        forall|i: int| 0 <= i < 96 ==> image.reserved@[i] == 0,
        before == plan@.before,
        committed == plan@.committed,
        mount_id == plan@.mount_id,
{
}

} // verus!
