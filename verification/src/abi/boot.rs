//! The boot context: a section that outlives the driver image and carries the
//! boot's identity, its mount counter and the permanent mount slots.
//!
//! The magic numbers, the offsets and the sizes are this crate's own definition.

use vstd::prelude::*;

use crate::abi::identity::BootInstanceId;
use crate::abi::identity::MountId;

verus! {

/// What a header begins with.
pub const BOOT_CONTEXT_MAGIC: u64 = 0x3158_5443_5446_5342;

/// The format of the section.
pub const BOOT_CONTEXT_VERSION: u32 = 1;

/// The size of the header.
pub const BOOT_CONTEXT_HEADER_BYTES: u32 = 256;

/// The size of one slot.
pub const BOOT_CONTEXT_SLOT_BYTES: u32 = 256;

/// The number of slots.
pub const BOOT_CONTEXT_SLOT_COUNT: u32 = 64;

/// The size of the section: the header and the slots.
pub const BOOT_CONTEXT_SECTION_BYTES: u32 = 16640;

/// The sequence of a header that was just initialized.
pub const BOOT_CONTEXT_INITIAL_SEQUENCE: u64 = 2;

/// The section is being initialized.
pub const BOOT_CONTEXT_INITIALIZING: u32 = 1;

/// The section is in use.
pub const BOOT_CONTEXT_READY: u32 = 2;

/// The slot holds no mount.
pub const SLOT_FREE: u32 = 0;

/// The slot's mount is being set up.
pub const SLOT_STAGING: u32 = 1;

/// The slot's mount is live.
pub const SLOT_LIVE: u32 = 2;

/// The slot's mount is ending.
pub const SLOT_TERMINALIZING: u32 = 3;

/// The slot's mount has ended.
pub const SLOT_TERMINAL: u32 = 4;

/// The header of the section.
#[derive(Clone, Copy, Debug, PartialEq, Eq)]
pub struct BootContextHeaderV1 {
    pub magic: u64,
    pub format_version: u32,
    pub header_size: u32,
    pub context_size: u32,
    pub slot_size: u32,
    pub slot_count: u32,
    pub init_state: u32,
    pub flags: u32,
    pub reserved0: u32,
    /// Odd while a publication is under way, even between publications.
    pub header_sequence: u64,
    pub mount_sequence: u64,
    pub mount_sequence_complement: u64,
    pub load_generation: u64,
    pub load_generation_complement: u64,
    pub boot_instance_id: BootInstanceId,
    pub per_boot_retire_key: [u8; 32],
    pub digest: [u8; 32],
    pub reserved: [u8; 96],
}

/// A set of features, one per bit.
#[derive(Clone, Copy, Debug, PartialEq, Eq)]
pub struct FeatureSet {
    pub words: [u64; 2],
}

/// One permanent mount slot of the section.
#[derive(Clone, Copy, Debug, PartialEq, Eq)]
pub struct BootContextSlotV1 {
    pub sequence: u64,
    pub state: u32,
    pub service_sid_length: u32,
    pub load_generation: u64,
    pub mount_sequence: u64,
    pub mount_id: MountId,
    pub boot_instance_id: BootInstanceId,
    pub latest_session_epoch: u64,
    pub selected_features: FeatureSet,
    pub journal_version: u32,
    pub flags: u32,
    pub service_sid: [u8; 68],
    pub reserved: [u8; 60],
    pub digest: [u8; 32],
}

/// What is wrong with a header, a slot or the section as a whole.
#[derive(Clone, Copy, Debug, PartialEq, Eq, Structural)]
pub enum BootContextValidationError {
    InvalidLength,
    HeaderFormat,
    HeaderInitState,
    HeaderSequence,
    HeaderDigest,
    HeaderFlagsOrReserved,
    HeaderComplement,
    HeaderBootInstanceId,
    HeaderRetireKey,
    HeaderLoadGeneration,
    SlotIndex,
    SlotSequence,
    SlotDigest,
    SlotFreeShape,
    DuplicateMountSequence,
}

/// Why a counter cannot advance.
#[derive(Clone, Copy, Debug, PartialEq, Eq, Structural)]
pub enum BootCounterError {
    Exhausted,
}

/// Why a header cannot be published again.
#[derive(Clone, Copy, Debug, PartialEq, Eq, Structural)]
pub enum BootSequenceError {
    Exhausted,
}

/// Why no mount identity can be made.
#[derive(Clone, Copy, Debug, PartialEq, Eq, Structural)]
pub enum BootIdentityError {
    ZeroRandomHigh,
}

/// A section is its header and its slots, and a slot's states and a section's are
/// told apart by these numbers.
pub proof fn law_section_is_its_header_and_slots()
    ensures
        BOOT_CONTEXT_SECTION_BYTES == BOOT_CONTEXT_HEADER_BYTES + BOOT_CONTEXT_SLOT_COUNT
            * BOOT_CONTEXT_SLOT_BYTES,
        BOOT_CONTEXT_HEADER_BYTES == 256 && BOOT_CONTEXT_SLOT_BYTES == 256
            && BOOT_CONTEXT_SLOT_COUNT == 64,
        BOOT_CONTEXT_INITIALIZING == 1 && BOOT_CONTEXT_READY == 2,
        BOOT_CONTEXT_VERSION == 1 && BOOT_CONTEXT_INITIAL_SEQUENCE == 2,
        SLOT_FREE == 0 && SLOT_STAGING == 1 && SLOT_LIVE == 2 && SLOT_TERMINALIZING == 3
            && SLOT_TERMINAL == 4,
{
}

} // verus!
