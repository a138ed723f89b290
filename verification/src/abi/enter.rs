//! The ENTER request and result, and the completion queue's vocabulary.
//!
//! The flags, the kinds and the layouts are this crate's own definition.

use crate::abi::bytes;
use crate::abi::identity::MountId;
use vstd::prelude::*;

verus! {

/// Request flag: wait until the submission queue has work.
pub const WAIT_SQ: u32 = 0x1;

/// Request flag: drain the completion queue.
pub const DRAIN_CQ: u32 = 0x2;

/// Every request flag.
pub const KNOWN_REQUEST_FLAGS: u32 = 0x3;

/// Result flag: the submission queue has work.
pub const SQ_READY: u32 = 0x1;

/// Result flag: the wait timed out.
pub const TIMED_OUT: u32 = 0x2;

/// Result flag: completion entries are left.
pub const CQ_REMAINING: u32 = 0x4;

/// Result flag: the next entry needs a notification credit.
pub const NOTIFY_BLOCKED: u32 = 0x8;

/// Result flag: the completion queue was being written.
pub const CQ_CONTENDED: u32 = 0x10;

/// Completion entry kind: a completed request.
pub const CQ_KIND_COMPLETION: u16 = 1;

/// Completion entry kind: a notification.
pub const CQ_KIND_NOTIFY: u16 = 2;

/// Completion entry kind: a protocol message.
pub const CQ_KIND_PROTOCOL: u16 = 3;

/// The most completion entries one ENTER drains.
pub const MAX_ENTER_CQ_BUDGET: u32 = 256;

/// The size of an ENTER result without notification credits.
pub const ENTER_RESULT_V1_PREFIX_SIZE: u32 = 48;

/// The size of one notification credit in an ENTER result.
pub const NOTIFICATION_CREDIT_V1_SIZE: u32 = 32;

/// The revision of the control structures.
pub const CONTROL_VERSION_V1: u16 = 1;

/// The size of one completion queue entry.
pub const CQE_SIZE: usize = 64;

/// What every control structure begins with.
#[derive(Clone, Copy, Debug, PartialEq, Eq, Structural)]
pub struct ControlHeader {
    pub struct_size: u32,
    pub struct_version: u16,
    pub required_flags: u16,
}

/// One ENTER request.
#[derive(Clone, Copy, Debug, PartialEq, Eq, Structural)]
pub struct EnterRequestV1 {
    pub header: ControlHeader,
    pub mount_id: MountId,
    pub session_epoch: u64,
    pub ring_index: u32,
    pub flags: u32,
    pub cq_budget: u32,
    pub timeout_ms: u32,
}

/// The fixed prefix of one ENTER result.
#[derive(Clone, Copy, Debug, PartialEq, Eq, Structural)]
pub struct EnterResultV1 {
    pub header: ControlHeader,
    pub session_epoch: u64,
    pub ring_index: u32,
    pub flags: u32,
    pub cq_drained: u32,
    pub sq_ready: u32,
    pub notification_credit_count: u32,
    pub notification_credit_desc_size: u32,
    pub notification_credits_offset: u32,
    pub reserved: u32,
}

/// A session's validated dimensions.
#[derive(Clone, Copy, Debug, PartialEq, Eq, Structural)]
pub struct ValidatedTopology {
    pub ring_count: u32,
    pub cq_capacity: u32,
}

/// A slot of the notification credit table, at one generation.
#[derive(Clone, Copy, Debug, PartialEq, Eq, Structural)]
pub struct SlotToken {
    pub slot: u32,
    pub generation: u32,
}

/// The size of an ENTER result with `credits` notification credits, if it fits
/// the size field.
pub open spec fn enter_result_size(credits: int) -> int {
    ENTER_RESULT_V1_PREFIX_SIZE + NOTIFICATION_CREDIT_V1_SIZE * credits
}

/// The size of an ENTER result with `credits` notification credits.
pub fn enter_result_size_v1(credits: u32) -> (size: Option<u32>)
    ensures
        match size {
            Some(size) => size == enter_result_size(credits as int),
            None => enter_result_size(credits as int) > u32::MAX,
        },
{
    match credits.checked_mul(NOTIFICATION_CREDIT_V1_SIZE) {
        Some(bytes) => bytes.checked_add(ENTER_RESULT_V1_PREFIX_SIZE),
        None => None,
    }
}

/// The bytes of a control header.
pub open spec fn header_bytes(header: ControlHeader) -> Seq<u8> {
    bytes::le32(header.struct_size) + bytes::le16(header.struct_version) + bytes::le16(
        header.required_flags,
    )
}

/// The bytes of an ENTER result prefix: its fields in order, each little-endian.
pub open spec fn enter_result_bytes(result: EnterResultV1) -> Seq<u8> {
    header_bytes(result.header) + bytes::le64(result.session_epoch) + bytes::le32(result.ring_index)
        + bytes::le32(result.flags) + bytes::le32(result.cq_drained) + bytes::le32(result.sq_ready)
        + bytes::le32(result.notification_credit_count) + bytes::le32(
        result.notification_credit_desc_size,
    ) + bytes::le32(result.notification_credits_offset) + bytes::le32(result.reserved)
}

/// Encode an ENTER result prefix.
pub fn encode_enter_result(result: &EnterResultV1) -> (encoded: Vec<u8>)
    ensures
        encoded@ == enter_result_bytes(*result),
        encoded@.len() == ENTER_RESULT_V1_PREFIX_SIZE,
{
    let mut encoded: Vec<u8> = Vec::new();
    bytes::push_le32(&mut encoded, result.header.struct_size);
    bytes::push_le16(&mut encoded, result.header.struct_version);
    bytes::push_le16(&mut encoded, result.header.required_flags);
    assert(encoded@ =~= header_bytes(result.header));
    bytes::push_le64(&mut encoded, result.session_epoch);
    bytes::push_le32(&mut encoded, result.ring_index);
    bytes::push_le32(&mut encoded, result.flags);
    bytes::push_le32(&mut encoded, result.cq_drained);
    bytes::push_le32(&mut encoded, result.sq_ready);
    bytes::push_le32(&mut encoded, result.notification_credit_count);
    bytes::push_le32(&mut encoded, result.notification_credit_desc_size);
    bytes::push_le32(&mut encoded, result.notification_credits_offset);
    bytes::push_le32(&mut encoded, result.reserved);
    encoded
}

/// A result has a prefix of 48 bytes, and 32 more for each credit.
pub proof fn law_result_size_counts_the_credits(credits: int)
    ensures
        enter_result_size(0) == 48,
        enter_result_size(credits + 1) == enter_result_size(credits) + 32,
        enter_result_size(credits) == 48 + 32 * credits,
{
}

/// Every field of a result can be read back from its bytes, where the layout puts
/// it.
pub proof fn law_result_bytes_read_back(result: EnterResultV1)
    ensures
        ({
            let encoded = enter_result_bytes(result);
            &&& encoded.len() == 48
            &&& bytes::u32_at(encoded, 0) == result.header.struct_size
            &&& bytes::u16_at(encoded, 4) == result.header.struct_version
            &&& bytes::u16_at(encoded, 6) == result.header.required_flags
            &&& bytes::u32_at(encoded, 8) + 0x1_0000_0000 * bytes::u32_at(encoded, 12)
                == result.session_epoch
            &&& bytes::u32_at(encoded, 16) == result.ring_index
            &&& bytes::u32_at(encoded, 20) == result.flags
            &&& bytes::u32_at(encoded, 24) == result.cq_drained
            &&& bytes::u32_at(encoded, 28) == result.sq_ready
            &&& bytes::u32_at(encoded, 32) == result.notification_credit_count
            &&& bytes::u32_at(encoded, 36) == result.notification_credit_desc_size
            &&& bytes::u32_at(encoded, 40) == result.notification_credits_offset
            &&& bytes::u32_at(encoded, 44) == result.reserved
        }),
{
    let encoded = enter_result_bytes(result);
    let low = (result.session_epoch % 0x1_0000_0000) as u32;
    let high = (result.session_epoch / 0x1_0000_0000) as u32;
    bytes::law_le32_reads_back(result.header.struct_size);
    bytes::law_le16_reads_back(result.header.struct_version);
    bytes::law_le16_reads_back(result.header.required_flags);
    bytes::law_le32_reads_back(low);
    bytes::law_le32_reads_back(high);
    bytes::law_le32_reads_back(result.ring_index);
    bytes::law_le32_reads_back(result.flags);
    bytes::law_le32_reads_back(result.cq_drained);
    bytes::law_le32_reads_back(result.sq_ready);
    bytes::law_le32_reads_back(result.notification_credit_count);
    bytes::law_le32_reads_back(result.notification_credit_desc_size);
    bytes::law_le32_reads_back(result.notification_credits_offset);
    bytes::law_le32_reads_back(result.reserved);
    assert(bytes::u32_at(encoded, 0) == bytes::u32_at(bytes::le32(result.header.struct_size), 0));
    assert(bytes::u16_at(encoded, 4) == bytes::u16_at(
        bytes::le16(result.header.struct_version),
        0,
    ));
    assert(bytes::u16_at(encoded, 6) == bytes::u16_at(
        bytes::le16(result.header.required_flags),
        0,
    ));
    assert(bytes::u32_at(encoded, 8) == bytes::u32_at(bytes::le32(low), 0));
    assert(bytes::u32_at(encoded, 12) == bytes::u32_at(bytes::le32(high), 0));
    assert(bytes::u32_at(encoded, 16) == bytes::u32_at(bytes::le32(result.ring_index), 0));
    assert(bytes::u32_at(encoded, 20) == bytes::u32_at(bytes::le32(result.flags), 0));
    assert(bytes::u32_at(encoded, 24) == bytes::u32_at(bytes::le32(result.cq_drained), 0));
    assert(bytes::u32_at(encoded, 28) == bytes::u32_at(bytes::le32(result.sq_ready), 0));
    assert(bytes::u32_at(encoded, 32) == bytes::u32_at(
        bytes::le32(result.notification_credit_count),
        0,
    ));
    assert(bytes::u32_at(encoded, 36) == bytes::u32_at(
        bytes::le32(result.notification_credit_desc_size),
        0,
    ));
    assert(bytes::u32_at(encoded, 40) == bytes::u32_at(
        bytes::le32(result.notification_credits_offset),
        0,
    ));
    assert(bytes::u32_at(encoded, 44) == bytes::u32_at(bytes::le32(result.reserved), 0));
}

/// An answer with credits takes forty-eight bytes and thirty-two more for each, if
/// that many can be counted.
pub proof fn law_answer_is_so_long(credits: u32, size: Option<u32>)
    requires
        call_ensures(enter_result_size_v1, (credits,), size),
    ensures
        size is Some <==> 48 + 32 * credits <= 0xFFFF_FFFF,
        size matches Some(bytes) ==> bytes == 48 + 32 * credits,
{
    law_result_size_counts_the_credits(credits as int);
}

/// An encoded answer reads back field by field, each at its own place, lowest byte
/// first.
pub proof fn law_encoded_answer_reads_back(result: EnterResultV1, encoded: Vec<u8>)
    requires
        call_ensures(encode_enter_result, (&result,), encoded),
    ensures
        encoded@.len() == 48,
        bytes::u32_at(encoded@, 0) == result.header.struct_size,
        bytes::u16_at(encoded@, 4) == result.header.struct_version,
        bytes::u16_at(encoded@, 6) == result.header.required_flags,
        bytes::u32_at(encoded@, 8) + 0x1_0000_0000 * bytes::u32_at(encoded@, 12)
            == result.session_epoch,
        bytes::u32_at(encoded@, 16) == result.ring_index,
        bytes::u32_at(encoded@, 20) == result.flags,
        bytes::u32_at(encoded@, 24) == result.cq_drained,
        bytes::u32_at(encoded@, 28) == result.sq_ready,
        bytes::u32_at(encoded@, 32) == result.notification_credit_count,
        bytes::u32_at(encoded@, 36) == result.notification_credit_desc_size,
        bytes::u32_at(encoded@, 40) == result.notification_credits_offset,
        bytes::u32_at(encoded@, 44) == result.reserved,
{
    law_result_bytes_read_back(result);
}

/// The two request flags and the five result flags are single bits, apart from each
/// other, and the known request flags are those two.
pub proof fn law_flags_are_single_bits(flags: u32)
    ensures
        WAIT_SQ == 1 && DRAIN_CQ == 2,
        flags & !KNOWN_REQUEST_FLAGS == 0 <==> flags <= 3,
        SQ_READY == 1 && TIMED_OUT == 2 && CQ_REMAINING == 4 && NOTIFY_BLOCKED == 8 && CQ_CONTENDED
            == 16,
{
    assert(flags & !3u32 == 0 <==> flags <= 3) by (bit_vector);
}

/// Entries are told apart by these kinds, a drain takes at most two hundred and
/// fifty-six of them, an answer's prefix takes forty-eight bytes and each credit
/// thirty-two.
pub proof fn law_entries_and_answers_measure_this()
    ensures
        CQ_KIND_COMPLETION == 1 && CQ_KIND_NOTIFY == 2 && CQ_KIND_PROTOCOL == 3,
        MAX_ENTER_CQ_BUDGET == 256,
        ENTER_RESULT_V1_PREFIX_SIZE == 48,
        NOTIFICATION_CREDIT_V1_SIZE == 32,
        CONTROL_VERSION_V1 == 1,
        CQE_SIZE == 64,
{
}

} // verus!
