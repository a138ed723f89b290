//! ENTER: roles, readiness, and the results it answers with.

use fsring_core::abi::enter::{
    encode_enter_result, enter_result_size_v1, ControlHeader, EnterRequestV1, EnterResultV1,
    SlotToken, ValidatedTopology, CQ_CONTENDED, CQ_KIND_COMPLETION, CQ_KIND_NOTIFY,
    CQ_KIND_PROTOCOL, CQ_REMAINING, DRAIN_CQ, NOTIFY_BLOCKED, SQ_READY, TIMED_OUT, WAIT_SQ,
};
use fsring_core::abi::identity::{BootInstanceId, MountId, SessionIdentity};
use fsring_core::enter::result::{
    build_empty_result, build_enter_result, encode_parked_empty_result, result_flags,
    CqResultState, EnterDecision, EnterError, EnterRole,
};
use fsring_core::enter::role::lease::EnterExecutionDomain;
use fsring_core::enter::role::{
    classify_notify_preflight, CqClassification, CqObservation, CqSemantic, DrainPlan,
    EnterPollObservation, EnterStateIds, NotifyPreflightRequest, ReadinessSnapshot, RingEnterState,
};
use fsring_core::grant::GrantError;
use fsring_core::session::{RoleError, SessionLocator, SessionRingBrand};

const IDENTITY: SessionIdentity = SessionIdentity {
    boot_instance_id: BootInstanceId { lo: 3, hi: 5 },
    mount_id: MountId { lo: 7, hi: 11 },
    session_epoch: 2,
};

const TOPOLOGY: ValidatedTopology = ValidatedTopology {
    ring_count: 4,
    cq_capacity: 16,
};

const QUIET: EnterPollObservation = EnterPollObservation {
    sq_ready: false,
    timeout_expired: false,
    fenced: false,
};

fn brand(ring_index: u32) -> SessionRingBrand {
    SessionRingBrand {
        locator: SessionLocator {
            identity: IDENTITY,
            slot: 1,
            generation: 9,
        },
        ring_index,
    }
}

fn state() -> RingEnterState {
    RingEnterState::new(2, &mut EnterStateIds::new())
}

fn branded() -> RingEnterState {
    RingEnterState::for_brand(brand(2), &mut EnterStateIds::new())
}

fn request(flags: u32, cq_budget: u32, timeout_ms: u32) -> EnterRequestV1 {
    EnterRequestV1 {
        header: ControlHeader {
            struct_size: 48,
            struct_version: 1,
            required_flags: 0,
        },
        mount_id: IDENTITY.mount_id,
        session_epoch: IDENTITY.session_epoch,
        ring_index: 2,
        flags,
        cq_budget,
        timeout_ms,
    }
}

fn classify(
    request: &EnterRequestV1,
    observation: EnterPollObservation,
) -> Result<(EnterRole, EnterDecision), EnterError> {
    state().classify_request(request, IDENTITY, &TOPOLOGY, observation)
}

#[test]
fn a_poll_a_wait_and_a_drain_find_what_is_there() {
    let ready = EnterPollObservation {
        sq_ready: true,
        ..QUIET
    };
    let late = EnterPollObservation {
        timeout_expired: true,
        ..QUIET
    };
    let rows = [
        (request(0, 0, 0), QUIET, EnterRole::Sq, EnterDecision::Empty),
        (request(0, 0, 0), ready, EnterRole::Sq, EnterDecision::Ready),
        (request(WAIT_SQ, 0, 5), QUIET, EnterRole::Sq, EnterDecision::Pending),
        (request(WAIT_SQ, 0, 5), late, EnterRole::Sq, EnterDecision::TimedOut),
        (request(WAIT_SQ, 0, u32::MAX), late, EnterRole::Sq, EnterDecision::Pending),
        (request(WAIT_SQ, 0, 0), late, EnterRole::Sq, EnterDecision::Empty),
        (request(DRAIN_CQ, 16, 0), QUIET, EnterRole::Cq, EnterDecision::Empty),
        (request(DRAIN_CQ, 1, 0), ready, EnterRole::Cq, EnterDecision::Ready),
    ];
    for (asked, seen, role, decision) in rows {
        assert_eq!(classify(&asked, seen), Ok((role, decision)), "{asked:?}");
    }
}

#[test]
fn a_request_is_refused_in_the_order_of_its_checks() {
    let fenced = EnterPollObservation {
        fenced: true,
        ..QUIET
    };
    assert_eq!(
        classify(&request(4, 0, 0), QUIET),
        Err(EnterError::InvalidFlags)
    );
    assert_eq!(
        classify(&request(WAIT_SQ | DRAIN_CQ, 1, 0), QUIET),
        Err(EnterError::InvalidFlags)
    );
    let mut foreign = request(0, 0, 0);
    foreign.session_epoch = 3;
    assert_eq!(classify(&foreign, QUIET), Err(EnterError::InvalidIdentity));
    let mut foreign = request(0, 0, 0);
    foreign.ring_index = 1;
    assert_eq!(classify(&foreign, QUIET), Err(EnterError::InvalidIdentity));
    let mut foreign = request(0, 0, 0);
    foreign.mount_id.lo = 8;
    assert_eq!(classify(&foreign, QUIET), Err(EnterError::InvalidIdentity));
    for budget in [0, 17] {
        assert_eq!(
            classify(&request(DRAIN_CQ, budget, 0), QUIET),
            Err(EnterError::InvalidBudget)
        );
    }
    assert_eq!(
        classify(&request(0, 1, 0), QUIET),
        Err(EnterError::InvalidBudget)
    );
    assert_eq!(
        classify(&request(0, 0, 1), QUIET),
        Err(EnterError::InvalidTimeout)
    );
    assert_eq!(
        classify(&request(0, 0, 0), fenced),
        Err(EnterError::Fenced)
    );
}

#[test]
fn a_role_has_one_owner_and_comes_back() {
    let mut ring = state();
    let lease = ring.acquire_role(41, EnterRole::Sq).expect("free");
    assert_eq!(
        ring.acquire_role(42, EnterRole::Sq).err(),
        Some(EnterError::DeviceBusy)
    );
    let other = ring.acquire_role(42, EnterRole::Cq).expect("independent");
    assert!(!ring.cq_consumer_is_free());
    assert!(!ring.r3_checkpoint_roles_and_consumers_are_drained());
    assert!(ring.release_role(lease).is_ok());
    assert!(ring.release_role(other).is_ok());
    assert!(ring.r3_checkpoint_roles_and_consumers_are_drained());
}

#[test]
fn a_lease_of_another_state_is_handed_back() {
    let mut ids = EnterStateIds::new();
    let mut first = RingEnterState::new(2, &mut ids);
    let mut second = RingEnterState::new(2, &mut ids);
    let lease = first.acquire_role(1, EnterRole::Sq).expect("free");
    let own = second.acquire_role(1, EnterRole::Sq).expect("free");
    let (error, lease) = second.release_role(lease).expect_err("another state's");
    assert_eq!(error, EnterError::InvalidIdentity);
    assert!(first.release_role(lease).is_ok());
    assert!(second.release_role(own).is_ok());
}

#[test]
fn a_parked_wait_is_no_leftover_dispatch_role() {
    let mut ring = state();
    let lease = ring.acquire_role(1, EnterRole::Sq).expect("free");
    assert!(!ring.leftover_dispatch_roles_are_absent());
    assert_eq!(ring.mark_sq_wait_pending(&lease), Ok(()));
    assert!(ring.leftover_dispatch_roles_are_absent());
    assert!(ring.leftover_sq_dispatch_role_is_absent());
    assert!(ring.release_role(lease).is_ok());
    let next = ring.acquire_role(2, EnterRole::Sq).expect("free again");
    assert!(!ring.leftover_sq_dispatch_role_is_absent());
    assert!(ring.release_role(next).is_ok());
    let drain = ring.acquire_role(3, EnterRole::Cq).expect("free");
    assert_eq!(
        ring.mark_sq_wait_pending(&drain),
        Err(EnterError::InvalidIdentity)
    );
}

#[test]
fn a_submission_between_the_clear_and_the_recheck_is_seen() {
    let mut ring = state();
    let lease = ring.acquire_role(1, EnterRole::Sq).expect("free");
    let snapshot = ring.observe_readiness(false);
    assert_eq!(
        snapshot,
        ReadinessSnapshot {
            generation: 0,
            ready: false
        }
    );
    assert_eq!(ring.clear_event_after(&lease, snapshot), Ok(()));
    assert_eq!(
        ring.recheck_after_clear(snapshot, false, false),
        Ok(EnterDecision::Pending)
    );
    assert_eq!(ring.publish_sq(), Ok(1));
    assert_eq!(ring.owed_signal_generation(), 1);
    assert_eq!(
        ring.recheck_after_clear(snapshot, false, false),
        Ok(EnterDecision::Ready)
    );
    assert_eq!(ring.clear_event_after(&lease, snapshot), Ok(()));
    assert_eq!(ring.owed_signal_generation(), 1, "a later signal stays");
    let caught_up = ring.observe_readiness(false);
    assert_eq!(ring.clear_event_after(&lease, caught_up), Ok(()));
    assert_eq!(ring.owed_signal_generation(), 0);
    assert_eq!(
        ring.recheck_after_clear(caught_up, false, true),
        Err(EnterError::Fenced)
    );
    assert_eq!(ring.publish_sq_or_terminalize(), Ok(2));
}

fn entry(kind: u16, semantic: CqSemantic) -> CqObservation {
    CqObservation {
        kind,
        sequence_stable: true,
        record_ready: true,
        semantic,
        output_bytes_available: 32,
        credit: Some(SlotToken {
            slot: 4,
            generation: 6,
        }),
    }
}

#[test]
fn a_completion_entry_is_sorted() {
    let ring = state();
    let notify = entry(CQ_KIND_NOTIFY, CqSemantic::Notify);
    let rows = [
        (
            CqObservation {
                sequence_stable: false,
                ..notify
            },
            DrainPlan::Contended,
        ),
        (
            CqObservation {
                record_ready: false,
                ..notify
            },
            DrainPlan::Empty,
        ),
        (
            entry(CQ_KIND_COMPLETION, CqSemantic::Notify),
            DrainPlan::CompletionFault,
        ),
        (
            entry(CQ_KIND_PROTOCOL, CqSemantic::ProtocolAbort),
            DrainPlan::ProtocolAbort,
        ),
        (
            entry(CQ_KIND_PROTOCOL, CqSemantic::Notify),
            DrainPlan::ProtocolFault,
        ),
        (
            CqObservation {
                output_bytes_available: 31,
                ..notify
            },
            DrainPlan::NotifyBlocked,
        ),
        (
            CqObservation {
                credit: None,
                ..notify
            },
            DrainPlan::ProtocolFault,
        ),
        (
            entry(CQ_KIND_NOTIFY, CqSemantic::Invalid),
            DrainPlan::ProtocolFault,
        ),
        (entry(9, CqSemantic::Notify), DrainPlan::ProtocolFault),
    ];
    for (observation, plan) in rows {
        assert_eq!(
            ring.sort_cq(observation),
            CqClassification::Plan(plan),
            "{observation:?}"
        );
        let CqClassification::Plan(plan) = ring.sort_cq(observation) else {
            panic!("just compared");
        };
        assert_eq!(ring.classify_cq(observation, Ok(())), plan);
        let CqClassification::Plan(plan) = ring.sort_cq(observation) else {
            panic!("just compared");
        };
        assert_eq!(
            ring.classify_cq(observation, Err(GrantError::GenerationExhausted)),
            plan,
            "the table was not asked"
        );
    }
    assert_eq!(
        ring.sort_cq(notify),
        CqClassification::Preflight(NotifyPreflightRequest {
            ring_index: 2,
            token: SlotToken {
                slot: 4,
                generation: 6
            },
            output_bytes: 32,
            generation: 6,
        })
    );
}

#[test]
fn a_notification_preflight_decides_the_rest() {
    let token = SlotToken {
        slot: 4,
        generation: 6,
    };
    let ring = state();
    let notify = entry(CQ_KIND_NOTIFY, CqSemantic::Notify);
    let DrainPlan::Notify(preflight) = ring.classify_cq(notify, Ok(())) else {
        panic!("the credit is returned");
    };
    assert_eq!(preflight.ring_index(), 2);
    assert_eq!(preflight.token(), token);
    let DrainPlan::Notify(preflight) = classify_notify_preflight(Ok(preflight)) else {
        panic!("the credit is returned");
    };
    assert_eq!(preflight.token(), token);
    assert_eq!(
        ring.classify_cq(notify, Err(GrantError::ReturnBufferTooSmall)),
        DrainPlan::NotifyBlocked
    );
    assert_eq!(
        ring.classify_cq(notify, Err(GrantError::GenerationExhausted)),
        DrainPlan::GenerationExhausted
    );
    assert_eq!(
        ring.classify_cq(notify, Err(GrantError::WrongRing)),
        DrainPlan::ProtocolFault
    );
    assert_eq!(
        classify_notify_preflight(Err(GrantError::ReturnBufferTooSmall)),
        DrainPlan::NotifyBlocked
    );
    assert_eq!(
        classify_notify_preflight(Err(GrantError::GenerationExhausted)),
        DrainPlan::GenerationExhausted
    );
    for error in [
        GrantError::InvalidBacking,
        GrantError::InvalidTopology,
        GrantError::TableIdentityExhausted,
        GrantError::InvalidToken,
        GrantError::WrongRing,
        GrantError::StaleGeneration,
    ] {
        assert_eq!(
            classify_notify_preflight(Err(error)),
            DrainPlan::ProtocolFault
        );
    }
}

#[test]
fn result_flags_follow_the_role_the_decision_and_the_queue() {
    assert_eq!(
        result_flags(EnterRole::Sq, EnterDecision::Ready, CqResultState::Unreported),
        Some(SQ_READY)
    );
    assert_eq!(
        result_flags(EnterRole::Sq, EnterDecision::TimedOut, CqResultState::Unreported),
        Some(TIMED_OUT)
    );
    assert_eq!(
        result_flags(EnterRole::Cq, EnterDecision::Ready, CqResultState::NotifyBlocked),
        Some(SQ_READY | CQ_REMAINING | NOTIFY_BLOCKED)
    );
    assert_eq!(
        result_flags(EnterRole::Cq, EnterDecision::Empty, CqResultState::Contended),
        Some(CQ_CONTENDED)
    );
    assert_eq!(
        result_flags(EnterRole::Cq, EnterDecision::Empty, CqResultState::Remaining),
        Some(CQ_REMAINING)
    );
    assert_eq!(
        result_flags(EnterRole::Sq, EnterDecision::Pending, CqResultState::Unreported),
        None
    );
    assert_eq!(
        result_flags(EnterRole::Cq, EnterDecision::TimedOut, CqResultState::Unreported),
        None
    );
    assert_eq!(
        result_flags(EnterRole::Sq, EnterDecision::Ready, CqResultState::Remaining),
        None
    );
}

#[test]
fn a_result_names_its_request_and_its_credits() {
    assert_eq!(
        build_enter_result(
            &request(DRAIN_CQ, 4, 0),
            EnterDecision::Ready,
            3,
            CqResultState::Remaining
        ),
        Ok(EnterResultV1 {
            header: ControlHeader {
                struct_size: 48 + 3 * 32,
                struct_version: 1,
                required_flags: 0,
            },
            session_epoch: 2,
            ring_index: 2,
            flags: SQ_READY | CQ_REMAINING,
            cq_drained: 3,
            sq_ready: 1,
            notification_credit_count: 3,
            notification_credit_desc_size: 32,
            notification_credits_offset: 48,
            reserved: 0,
        })
    );
    let empty = build_empty_result(&request(0, 0, 0), EnterDecision::Empty).expect("a poll");
    assert_eq!(empty.flags, 0);
    assert_eq!(empty.header.struct_size, 48);
    assert_eq!(empty.notification_credits_offset, 0);
}

#[test]
fn a_result_that_cannot_be_is_refused() {
    let drain = request(DRAIN_CQ, 4, 0);
    let wait = request(WAIT_SQ, 0, 5);
    assert_eq!(
        build_empty_result(&wait, EnterDecision::Empty),
        Err(EnterError::InvalidTimeout),
        "only a request that does not wait is answered empty"
    );
    for asked in [
        drain,
        request(0, 0, 0),
        request(WAIT_SQ, 0, 0),
        request(WAIT_SQ, 0, u32::MAX),
    ] {
        assert_eq!(
            build_empty_result(&asked, EnterDecision::TimedOut),
            Err(EnterError::InvalidTimeout)
        );
    }
    assert_eq!(
        build_enter_result(&wait, EnterDecision::Ready, 1, CqResultState::Unreported),
        Err(EnterError::InvalidTimeout),
        "only a drain returns credits"
    );
    assert_eq!(
        build_empty_result(&wait, EnterDecision::Pending),
        Err(EnterError::InvalidTimeout)
    );
    assert_eq!(
        build_enter_result(
            &drain,
            EnterDecision::Empty,
            u32::MAX,
            CqResultState::Unreported
        ),
        Err(EnterError::InvalidBudget)
    );
    assert!(build_empty_result(&wait, EnterDecision::TimedOut).is_ok());
}

#[test]
fn a_result_size_is_the_prefix_and_the_credits() {
    assert_eq!(enter_result_size_v1(0), Some(48));
    assert_eq!(enter_result_size_v1(1), Some(80));
    assert_eq!(enter_result_size_v1(u32::MAX), None);
}

#[test]
fn an_encoded_result_is_little_endian_and_48_bytes() {
    let result =
        build_empty_result(&request(WAIT_SQ, 0, 5), EnterDecision::TimedOut).expect("a wait");
    let bytes = encode_enter_result(&result);
    assert_eq!(bytes.len(), 48);
    assert_eq!(&bytes[..8], &[48, 0, 0, 0, 1, 0, 0, 0]);
    assert_eq!(&bytes[8..16], &[2, 0, 0, 0, 0, 0, 0, 0]);
    assert_eq!(&bytes[16..20], &[2, 0, 0, 0]);
    assert_eq!(&bytes[20..24], &[TIMED_OUT as u8, 0, 0, 0]);
}

#[test]
fn a_parked_result_is_written_at_the_start_or_not_at_all() {
    let wait = request(WAIT_SQ, 0, 5);
    let mut buffer = [0xAAu8; 50];
    assert_eq!(
        encode_parked_empty_result(&mut buffer, &wait, EnterDecision::Ready),
        Ok(48)
    );
    let result = build_empty_result(&wait, EnterDecision::Ready).expect("ready");
    assert_eq!(&buffer[..48], encode_enter_result(&result).as_slice());
    assert_eq!(&buffer[48..], &[0xAA, 0xAA]);
    let mut short = [0xAAu8; 47];
    assert_eq!(
        encode_parked_empty_result(&mut short, &wait, EnterDecision::Ready),
        Err(EnterError::InvalidTimeout)
    );
    assert_eq!(short, [0xAAu8; 47]);
    let mut buffer = [0xAAu8; 48];
    assert_eq!(
        encode_parked_empty_result(&mut buffer, &wait, EnterDecision::Empty),
        Err(EnterError::InvalidTimeout)
    );
    assert_eq!(buffer, [0xAAu8; 48]);
}

#[test]
fn an_unbranded_state_issues_no_authority_until_it_adopts_its_brand() {
    let mut ring = state();
    assert_eq!(ring.acquire_sq_wait().err(), Some(RoleError::WrongState));
    assert_eq!(
        ring.acquire_cq_consumer().err(),
        Some(RoleError::WrongState)
    );
    assert_eq!(ring.adopt_ring_brand(brand(3)), Err(RoleError::WrongRing));
    let lease = ring.acquire_role(1, EnterRole::Sq).expect("free");
    assert_eq!(ring.adopt_ring_brand(brand(2)), Err(RoleError::DeviceBusy));
    assert!(ring.release_role(lease).is_ok());
    assert_eq!(ring.adopt_ring_brand(brand(2)), Ok(()));
    assert_eq!(ring.adopt_ring_brand(brand(2)), Err(RoleError::WrongState));
    assert_eq!(ring.brand(), Some(brand(2)));
    assert!(ring.acquire_sq_wait().is_ok());
}

#[test]
fn invocations_count_upwards_and_are_never_reused() {
    let mut ring = branded();
    let first = ring.acquire_sq_wait().expect("free");
    assert_eq!(first.execution().invocation.get(), 1);
    assert_eq!(first.execution().domain, EnterExecutionDomain::SqWait);
    assert_eq!(ring.acquire_sq_wait().err(), Some(RoleError::DeviceBusy));
    let token = ring.acquire_cq_consumer().expect("free");
    assert_eq!(token.execution().invocation.get(), 2);
    assert!(ring.release_sq_wait(first).is_ok());
    assert!(ring.release_cq_consumer(token).is_ok());
    let next = ring.acquire_sq_wait().expect("free again");
    assert_eq!(next.execution().invocation.get(), 3);
}

#[test]
fn an_authority_of_another_ring_is_handed_back() {
    let mut ids = EnterStateIds::new();
    let mut first = RingEnterState::for_brand(brand(2), &mut ids);
    let mut second = RingEnterState::for_brand(brand(3), &mut ids);
    let lease = first.acquire_sq_wait().expect("free");
    let (error, lease) = second.release_sq_wait(lease).expect_err("another ring's");
    assert_eq!(error, RoleError::WrongRing);
    assert!(first.release_sq_wait(lease).is_ok());
}

#[test]
fn a_parked_wait_resumes_as_the_consumer_of_its_own_execution() {
    let mut ring = branded();
    let acquired = ring.acquire_sq_wait_aggregate().expect("free");
    let execution = acquired.execution();
    let (lease, mut tracker, parked) = acquired.into_plan_parts();
    assert_eq!(parked.invocation(), execution.invocation.get());
    assert!(!tracker.committed());
    tracker.record_commit();
    assert!(tracker.committed());
    assert_eq!(tracker.execution(), execution);
    let resume = ring.authorize_resume(&lease).expect("the same execution");
    assert_eq!(resume.execution(), execution);
    let consumer = resume.bind_cq_consumer();
    assert_eq!(consumer.ring(), brand(2));
    assert_eq!(consumer.execution().invocation, execution.invocation);
    assert_eq!(
        consumer.execution().domain,
        EnterExecutionDomain::CqConsumer
    );
    assert!(ring.release_sq_wait(lease).is_ok());
}

#[test]
fn a_prepared_release_is_committed_with_its_own_token() {
    let mut ring = branded();
    let acquired = ring.acquire_cq_consumer_aggregate().expect("free");
    let (token, _) = acquired.into_plan_parts();
    let stream = token.cq_stream();
    assert!(stream.is_cq_domain());
    assert_eq!(stream.ring_index(), 2);
    assert_eq!(stream.locator(), brand(2).locator);
    let preflight = ring.prepare_cq_release(&token).expect("the owner");
    assert_eq!(preflight.brand(), brand(2));
    let released = ring
        .commit_cq_release(preflight, token)
        .map_err(|_| ())
        .expect("prepared");
    assert_eq!(released.brand(), brand(2));
    assert_eq!(released.invocation().get(), 1);
    assert!(ring.cq_consumer_is_free());
}
