//! What an ENTER answers.

use crate::abi::enter::{
    encode_enter_result, enter_result_size_v1, ControlHeader, EnterRequestV1, EnterResultV1,
    CONTROL_VERSION_V1, CQ_CONTENDED, CQ_REMAINING, DRAIN_CQ, ENTER_RESULT_V1_PREFIX_SIZE,
    NOTIFICATION_CREDIT_V1_SIZE, NOTIFY_BLOCKED, SQ_READY, TIMED_OUT, WAIT_SQ,
};
use vstd::prelude::*;

verus! {

/// Which queue an ENTER works on.
#[derive(Clone, Copy, Debug, PartialEq, Eq, Structural)]
pub enum EnterRole {
    Sq,
    Cq,
}

/// Why an ENTER is refused.
#[derive(Clone, Copy, Debug, PartialEq, Eq, Structural)]
pub enum EnterError {
    DeviceBusy,
    InvalidFlags,
    InvalidIdentity,
    InvalidBudget,
    InvalidTimeout,
    GenerationExhausted,
    Fenced,
}

/// What an ENTER found.
#[derive(Clone, Copy, Debug, PartialEq, Eq, Structural)]
pub enum EnterDecision {
    Ready,
    Pending,
    TimedOut,
    Empty,
}

/// How an ENTER left the completion queue.
#[derive(Clone, Copy, Debug, PartialEq, Eq, Structural)]
pub enum CqResultState {
    /// There is nothing to report of it.
    Unreported,
    Remaining,
    NotifyBlocked,
    Contended,
}

/// The readiness flag of a decision in a role; a wait that is still pending, or
/// a drain that timed out, has no result.
pub open spec fn readiness_flag(role: EnterRole, decision: EnterDecision) -> Option<u32> {
    match decision {
        EnterDecision::Ready => Some(SQ_READY),
        EnterDecision::Empty => Some(0),
        EnterDecision::TimedOut => if role == EnterRole::Sq {
            Some(TIMED_OUT)
        } else {
            None
        },
        EnterDecision::Pending => None,
    }
}

/// The completion queue's flags in a role; only a drain reports on that queue.
pub open spec fn cq_flags(role: EnterRole, cq: CqResultState) -> Option<u32> {
    if cq == CqResultState::Unreported {
        Some(0)
    } else if role == EnterRole::Sq {
        None
    } else if cq == CqResultState::Remaining {
        Some(CQ_REMAINING)
    } else if cq == CqResultState::NotifyBlocked {
        Some(CQ_REMAINING | NOTIFY_BLOCKED)
    } else {
        Some(CQ_CONTENDED)
    }
}

/// The flags of a result, if the decision and the queue's state can be one.
pub open spec fn flags_of(role: EnterRole, decision: EnterDecision, cq: CqResultState) -> Option<
    u32,
> {
    match (readiness_flag(role, decision), cq_flags(role, cq)) {
        (Some(readiness), Some(cq)) => Some(readiness | cq),
        _ => None,
    }
}

/// The flags of a result.
pub fn result_flags(role: EnterRole, decision: EnterDecision, cq: CqResultState) -> (flags: Option<
    u32,
>)
    ensures
        flags == flags_of(role, decision, cq),
{
    let readiness: u32 = match (role, decision) {
        (EnterRole::Sq | EnterRole::Cq, EnterDecision::Ready) => SQ_READY,
        (EnterRole::Sq, EnterDecision::TimedOut) => TIMED_OUT,
        (EnterRole::Sq | EnterRole::Cq, EnterDecision::Empty) => 0,
        (EnterRole::Sq, EnterDecision::Pending)
        | (EnterRole::Cq, EnterDecision::Pending | EnterDecision::TimedOut) => {
            return None;
        },
    };
    let cq: u32 = match (role, cq) {
        (EnterRole::Sq | EnterRole::Cq, CqResultState::Unreported) => 0,
        (EnterRole::Cq, CqResultState::Remaining) => CQ_REMAINING,
        (EnterRole::Cq, CqResultState::NotifyBlocked) => CQ_REMAINING | NOTIFY_BLOCKED,
        (EnterRole::Cq, CqResultState::Contended) => CQ_CONTENDED,
        (EnterRole::Sq, _) => {
            return None;
        },
    };
    Some(readiness | cq)
}

/// The request drains the completion queue.
pub open spec fn drains(request: EnterRequestV1) -> bool {
    request.flags & DRAIN_CQ != 0
}

/// The request waits for the submission queue.
pub open spec fn waits(request: EnterRequestV1) -> bool {
    request.flags & WAIT_SQ != 0
}

/// The role a request asks for.
pub open spec fn role_of(request: EnterRequestV1) -> EnterRole {
    if drains(request) {
        EnterRole::Cq
    } else {
        EnterRole::Sq
    }
}

/// The decision cannot be the answer to this request: an empty answer is for a
/// request that does not wait, and only a finite wait times out.
pub open spec fn decision_mismatch(request: EnterRequestV1, decision: EnterDecision) -> bool {
    ||| decision == EnterDecision::Empty && request.timeout_ms != 0
    ||| decision == EnterDecision::TimedOut && (!waits(request) || drains(request)
        || request.timeout_ms == 0 || request.timeout_ms == u32::MAX)
}

/// Why a result cannot be built, if it cannot.
pub open spec fn result_refusal(
    request: EnterRequestV1,
    decision: EnterDecision,
    credit_count: u32,
    cq: CqResultState,
) -> Option<EnterError> {
    if decision_mismatch(request, decision) || (credit_count != 0 && !drains(request)) || flags_of(
        role_of(request),
        decision,
        cq,
    ) is None {
        Some(EnterError::InvalidTimeout)
    } else if crate::abi::enter::enter_result_size(credit_count as int) > u32::MAX {
        Some(EnterError::InvalidBudget)
    } else {
        None
    }
}

/// The result of a request.
pub open spec fn result_of(
    request: EnterRequestV1,
    decision: EnterDecision,
    credit_count: u32,
    cq: CqResultState,
) -> EnterResultV1 {
    EnterResultV1 {
        header: ControlHeader {
            struct_size: crate::abi::enter::enter_result_size(credit_count as int) as u32,
            struct_version: CONTROL_VERSION_V1,
            required_flags: 0,
        },
        session_epoch: request.session_epoch,
        ring_index: request.ring_index,
        flags: flags_of(role_of(request), decision, cq)->0,
        cq_drained: credit_count,
        sq_ready: if decision == EnterDecision::Ready {
            1
        } else {
            0
        },
        notification_credit_count: credit_count,
        notification_credit_desc_size: NOTIFICATION_CREDIT_V1_SIZE,
        notification_credits_offset: if credit_count == 0 {
            0
        } else {
            ENTER_RESULT_V1_PREFIX_SIZE
        },
        reserved: 0,
    }
}

/// Build the result of an ENTER that drained nothing.
pub fn build_empty_result(request: &EnterRequestV1, decision: EnterDecision) -> (result: Result<
    EnterResultV1,
    EnterError,
>)
    ensures
        match result {
            Ok(built) => {
                &&& result_refusal(*request, decision, 0, CqResultState::Unreported) is None
                &&& built == result_of(*request, decision, 0, CqResultState::Unreported)
            },
            Err(error) => result_refusal(*request, decision, 0, CqResultState::Unreported) == Some(
                error,
            ),
        },
{
    build_enter_result(request, decision, 0, CqResultState::Unreported)
}

/// Build the result of an ENTER.
pub fn build_enter_result(
    request: &EnterRequestV1,
    decision: EnterDecision,
    credit_count: u32,
    cq: CqResultState,
) -> (result: Result<EnterResultV1, EnterError>)
    ensures
        match result {
            Ok(built) => result_refusal(*request, decision, credit_count, cq) is None && built
                == result_of(*request, decision, credit_count, cq),
            Err(error) => result_refusal(*request, decision, credit_count, cq) == Some(error),
        },
{
    if decision == EnterDecision::Empty && request.timeout_ms != 0 {
        return Err(EnterError::InvalidTimeout);
    }
    if decision == EnterDecision::TimedOut && (request.flags & WAIT_SQ == 0 || request.flags
        & DRAIN_CQ != 0 || request.timeout_ms == 0 || request.timeout_ms == u32::MAX) {
        return Err(EnterError::InvalidTimeout);
    }
    let role = if request.flags & DRAIN_CQ != 0 {
        EnterRole::Cq
    } else {
        EnterRole::Sq
    };
    if credit_count != 0 && role != EnterRole::Cq {
        return Err(EnterError::InvalidTimeout);
    }
    let flags: u32 = match result_flags(role, decision, cq) {
        Some(flags) => flags,
        None => {
            return Err(EnterError::InvalidTimeout);
        },
    };
    let struct_size: u32 = match enter_result_size_v1(credit_count) {
        Some(size) => size,
        None => {
            return Err(EnterError::InvalidBudget);
        },
    };
    let offset: u32 = if credit_count == 0 {
        0
    } else {
        ENTER_RESULT_V1_PREFIX_SIZE
    };
    let sq_ready: u32 = if decision == EnterDecision::Ready {
        1
    } else {
        0
    };
    Ok(
        EnterResultV1 {
            header: ControlHeader {
                struct_size,
                struct_version: CONTROL_VERSION_V1,
                required_flags: 0,
            },
            session_epoch: request.session_epoch,
            ring_index: request.ring_index,
            flags,
            cq_drained: credit_count,
            sq_ready,
            notification_credit_count: credit_count,
            notification_credit_desc_size: NOTIFICATION_CREDIT_V1_SIZE,
            notification_credits_offset: offset,
            reserved: 0,
        },
    )
}

/// Write the empty result of a parked request at the start of `dst`.
///
/// Only the prefix is written; a refusal writes nothing.
pub fn encode_parked_empty_result(
    dst: &mut [u8],
    request: &EnterRequestV1,
    decision: EnterDecision,
) -> (result: Result<usize, EnterError>)
    ensures
        ({
            let prefix = ENTER_RESULT_V1_PREFIX_SIZE as int;
            let refusal = result_refusal(*request, decision, 0, CqResultState::Unreported);
            match result {
                Ok(written) => {
                    &&& old(dst)@.len() >= prefix
                    &&& refusal is None
                    &&& written == prefix
                    &&& final(dst)@ == crate::abi::enter::enter_result_bytes(
                        result_of(*request, decision, 0, CqResultState::Unreported),
                    ) + old(dst)@.skip(prefix)
                },
                Err(error) => {
                    &&& error == EnterError::InvalidTimeout
                    &&& old(dst)@.len() < prefix || refusal is Some
                    &&& final(dst)@ == old(dst)@
                },
            }
        }),
{
    let prefix: usize = ENTER_RESULT_V1_PREFIX_SIZE as usize;
    if dst.len() < prefix {
        return Err(EnterError::InvalidTimeout);
    }
    let result = match build_empty_result(request, decision) {
        Ok(result) => result,
        Err(error) => {
            return Err(error);
        },
    };
    let encoded = encode_enter_result(&result);
    let mut i: usize = 0;
    while i < prefix
        invariant
            i <= prefix,
            prefix == 48,
            encoded@.len() == 48,
            dst@.len() == old(dst)@.len(),
            dst@.len() >= 48,
            dst@ == encoded@.take(i as int) + old(dst)@.skip(i as int),
        decreases prefix - i,
    {
        dst[i] = encoded[i];
        i = i + 1;
        assert(dst@ =~= encoded@.take(i as int) + old(dst)@.skip(i as int));
    }
    assert(encoded@.take(48) =~= encoded@);
    Ok(prefix)
}

/// The flags of a result say what happened and nothing else: ready for a ready
/// decision, timed out for one that timed out, blocked only together with
/// remaining, contended only alone, and nothing of the completion queue to a
/// request that does not drain it.
pub proof fn law_flags_say_what_happened(
    role: EnterRole,
    decision: EnterDecision,
    cq: CqResultState,
)
    requires
        flags_of(role, decision, cq) is Some,
    ensures
        ({
            let flags = flags_of(role, decision, cq)->0;
            &&& flags & SQ_READY != 0 <==> decision == EnterDecision::Ready
            &&& flags & TIMED_OUT != 0 <==> decision == EnterDecision::TimedOut
            &&& flags & NOTIFY_BLOCKED != 0 <==> cq == CqResultState::NotifyBlocked
            &&& flags & CQ_REMAINING != 0 <==> (cq == CqResultState::Remaining || cq
                == CqResultState::NotifyBlocked)
            &&& flags & CQ_CONTENDED != 0 <==> cq == CqResultState::Contended
            &&& role == EnterRole::Sq ==> cq == CqResultState::Unreported
        }),
{
    let readiness = readiness_flag(role, decision)->0;
    let queue = cq_flags(role, cq)->0;
    assert((readiness == 0 || readiness == 1 || readiness == 2) && (queue == 0 || queue == 4
        || queue == (4u32 | 8u32) || queue == 16) ==> {
        let flags = readiness | queue;
        &&& (flags & 1 != 0 <==> readiness == 1)
        &&& (flags & 2 != 0 <==> readiness == 2)
        &&& (flags & 8 != 0 <==> queue == (4u32 | 8u32))
        &&& (flags & 4 != 0 <==> (queue == 4 || queue == (4u32 | 8u32)))
        &&& (flags & 16 != 0 <==> queue == 16)
    }) by (bit_vector);
    assert((4u32 | 8u32) == 12) by (bit_vector);
}

/// A decision and a queue's state make a result exactly where the request is not
/// still waiting, a drain did not time out, and only a drain speaks of the
/// completion queue. A result has no flag but the five.
pub proof fn law_what_can_be_answered(role: EnterRole, decision: EnterDecision, cq: CqResultState)
    ensures
        flags_of(role, decision, cq) is Some <==> {
            &&& decision != EnterDecision::Pending
            &&& !(decision == EnterDecision::TimedOut && role == EnterRole::Cq)
            &&& !(role == EnterRole::Sq && cq != CqResultState::Unreported)
        },
        flags_of(role, decision, cq) matches Some(flags) ==> flags & !(SQ_READY | TIMED_OUT
            | CQ_REMAINING | NOTIFY_BLOCKED | CQ_CONTENDED) == 0,
{
    if flags_of(role, decision, cq) is Some {
        let readiness = readiness_flag(role, decision)->0;
        let queue = cq_flags(role, cq)->0;
        assert((readiness == 0 || readiness == 1 || readiness == 2) && (queue == 0 || queue == 4
            || queue == (4u32 | 8u32) || queue == 16) ==> (readiness | queue) & !(1u32 | 2u32 | 4u32
            | 8u32 | 16u32) == 0) by (bit_vector);
    }
}

/// A request that drains has the completion role, and every other the submission
/// role.
pub proof fn law_drain_has_the_completion_role(request: EnterRequestV1)
    ensures
        role_of(request) == EnterRole::Cq <==> request.flags & DRAIN_CQ != 0,
        role_of(request) == EnterRole::Sq <==> request.flags & DRAIN_CQ == 0,
{
}

/// A result is built exactly where it answers the request: nothing is answered to
/// a request that still waits; an empty one needs a request without a time; a
/// timeout needs a wait with a finite time that does not drain; credits and the
/// completion queue are reported to a drain alone. The one other refusal is of a
/// size that does not fit.
pub proof fn law_result_answers_the_request(
    request: EnterRequestV1,
    decision: EnterDecision,
    credit_count: u32,
    cq: CqResultState,
)
    ensures
        ({
            let refusal = result_refusal(request, decision, credit_count, cq);
            let drain = request.flags & DRAIN_CQ != 0;
            let wait = request.flags & WAIT_SQ != 0;
            let answers = match decision {
                EnterDecision::Ready => true,
                EnterDecision::Pending => false,
                EnterDecision::Empty => request.timeout_ms == 0,
                EnterDecision::TimedOut => wait && !drain && 0 < request.timeout_ms < u32::MAX,
            };
            let reported = drain || (credit_count == 0 && cq == CqResultState::Unreported);
            let fits = 48 + 32 * credit_count <= u32::MAX;
            &&& refusal is None <==> answers && reported && fits
            &&& refusal == Some(EnterError::InvalidTimeout) <==> !(answers && reported)
            &&& refusal == Some(EnterError::InvalidBudget) <==> answers && reported && !fits
        }),
{
    law_what_can_be_answered(role_of(request), decision, cq);
}

/// A result speaks of its own request's session and ring, counts what was drained
/// twice over, says whether there is work, and places its credits behind the
/// prefix.
pub proof fn law_result_says_what_was_found(
    request: EnterRequestV1,
    decision: EnterDecision,
    credit_count: u32,
    cq: CqResultState,
)
    requires
        result_refusal(request, decision, credit_count, cq) is None,
    ensures
        ({
            let result = result_of(request, decision, credit_count, cq);
            &&& result.header.struct_size == 48 + 32 * credit_count
            &&& result.header.struct_version == CONTROL_VERSION_V1
            &&& result.header.required_flags == 0 && result.reserved == 0
            &&& result.session_epoch == request.session_epoch
            &&& result.ring_index == request.ring_index
            &&& result.cq_drained == credit_count
            &&& result.notification_credit_count == credit_count
            &&& result.notification_credit_desc_size == 32
            &&& result.notification_credits_offset == (if credit_count == 0 {
                0u32
            } else {
                48
            })
            &&& result.sq_ready == 1 <==> decision == EnterDecision::Ready
            &&& result.sq_ready == 0 <==> decision != EnterDecision::Ready
            &&& result.flags & SQ_READY != 0 <==> decision == EnterDecision::Ready
            &&& result.flags & TIMED_OUT != 0 <==> decision == EnterDecision::TimedOut
            &&& result.flags & NOTIFY_BLOCKED != 0 <==> cq == CqResultState::NotifyBlocked
            &&& result.flags & CQ_REMAINING != 0 <==> (cq == CqResultState::Remaining || cq
                == CqResultState::NotifyBlocked)
            &&& result.flags & CQ_CONTENDED != 0 <==> cq == CqResultState::Contended
        }),
{
    law_flags_say_what_happened(role_of(request), decision, cq);
}

/// An answer's flags say what was found and nothing else: ready, timed out, more to
/// drain, a blocked notification, a contended queue. A pending request has no
/// answer, a drain does not time out, and a wait reports no queue.
pub proof fn law_answer_flags_say_what_was_found(
    role: EnterRole,
    decision: EnterDecision,
    cq: CqResultState,
    flags: Option<u32>,
)
    requires
        call_ensures(result_flags, (role, decision, cq), flags),
    ensures
        flags is Some <==> decision != EnterDecision::Pending && !(decision
            == EnterDecision::TimedOut && role == EnterRole::Cq) && !(role == EnterRole::Sq && cq
            != CqResultState::Unreported),
        flags matches Some(bits) ==> {
            &&& bits & SQ_READY != 0 <==> decision == EnterDecision::Ready
            &&& bits & TIMED_OUT != 0 <==> decision == EnterDecision::TimedOut
            &&& bits & NOTIFY_BLOCKED != 0 <==> cq == CqResultState::NotifyBlocked
            &&& bits & CQ_REMAINING != 0 <==> (cq == CqResultState::Remaining || cq
                == CqResultState::NotifyBlocked)
            &&& bits & CQ_CONTENDED != 0 <==> cq == CqResultState::Contended
        },
{
    law_what_can_be_answered(role, decision, cq);
    if flags is Some {
        law_flags_say_what_happened(role, decision, cq);
    }
}

/// An answer is built exactly where the request can be given it: a ready one always,
/// a pending one never, an empty one only without a time, a timed-out one only to a
/// finite wait; and credits or a queue's state only to a drain. It names the
/// request's session and ring, and counts its credits.
pub proof fn law_answer_is_built_exactly(
    request: EnterRequestV1,
    decision: EnterDecision,
    credits: u32,
    cq: CqResultState,
    result: Result<EnterResultV1, EnterError>,
    plain: Result<EnterResultV1, EnterError>,
)
    requires
        call_ensures(build_enter_result, (&request, decision, credits, cq), result),
        call_ensures(build_empty_result, (&request, decision), plain),
    ensures
        ({
            let drain = request.flags & DRAIN_CQ != 0;
            let wait = request.flags & WAIT_SQ != 0;
            let answers = match decision {
                EnterDecision::Ready => true,
                EnterDecision::Pending => false,
                EnterDecision::Empty => request.timeout_ms == 0,
                EnterDecision::TimedOut => wait && !drain && 0 < request.timeout_ms < u32::MAX,
            };
            let reported = drain || (credits == 0 && cq == CqResultState::Unreported);
            let fits = 48 + 32 * credits <= u32::MAX;
            &&& result is Ok <==> answers && reported && fits
            &&& result == Err::<EnterResultV1, _>(EnterError::InvalidTimeout) <==> !(answers
                && reported)
            &&& result == Err::<EnterResultV1, _>(EnterError::InvalidBudget) <==> answers
                && reported && !fits
            &&& plain is Ok <==> answers
            &&& credits == 0 && cq == CqResultState::Unreported ==> plain == result
            &&& result matches Ok(answer) ==> {
                &&& answer.header.struct_size == 48 + 32 * credits
                &&& answer.session_epoch == request.session_epoch
                &&& answer.ring_index == request.ring_index
                &&& answer.cq_drained == credits
                &&& answer.notification_credit_count == credits
                &&& answer.notification_credit_desc_size == 32
                &&& answer.notification_credits_offset == (if credits == 0 {
                    0u32
                } else {
                    48
                })
                &&& answer.sq_ready == 1 <==> decision == EnterDecision::Ready
                &&& answer.sq_ready <= 1
                &&& answer.flags & SQ_READY != 0 <==> decision == EnterDecision::Ready
                &&& answer.flags & TIMED_OUT != 0 <==> decision == EnterDecision::TimedOut
                &&& answer.flags & NOTIFY_BLOCKED != 0 <==> cq == CqResultState::NotifyBlocked
                &&& answer.flags & CQ_CONTENDED != 0 <==> cq == CqResultState::Contended
                &&& answer.reserved == 0
            }
        }),
{
    law_result_answers_the_request(request, decision, credits, cq);
    law_result_answers_the_request(request, decision, 0, CqResultState::Unreported);
    if result is Ok {
        law_result_says_what_was_found(request, decision, credits, cq);
    }
}

/// A parked request's answer is written exactly where it fits and can be given, over
/// the first forty-eight bytes and no others. One that cannot be is refused alike in
/// both cases, and leaves the buffer as it was.
pub proof fn law_parked_answer_is_written_in_place(
    dst: &mut [u8],
    request: EnterRequestV1,
    decision: EnterDecision,
    result: Result<usize, EnterError>,
    plain: Result<EnterResultV1, EnterError>,
)
    requires
        call_ensures(encode_parked_empty_result, (dst, &request, decision), result),
        call_ensures(build_empty_result, (&request, decision), plain),
    ensures
        result is Ok <==> old(dst)@.len() >= 48 && plain is Ok,
        result matches Ok(written) ==> {
            &&& written == 48
            &&& final(dst)@.len() == old(dst)@.len()
            &&& final(dst)@.take(48) == crate::abi::enter::enter_result_bytes(plain->Ok_0)
            &&& final(dst)@.skip(48) == old(dst)@.skip(48)
        },
        result is Err ==> result == Err::<usize, _>(EnterError::InvalidTimeout) && final(dst)@
            == old(dst)@,
{
    if result is Ok {
        let encoded = crate::abi::enter::enter_result_bytes(plain->Ok_0);
        crate::abi::enter::law_result_bytes_read_back(plain->Ok_0);
        assert(final(dst)@.take(48) =~= encoded);
        assert(final(dst)@.skip(48) =~= old(dst)@.skip(48));
    }
}

} // verus!
