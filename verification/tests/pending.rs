//! The parked request: its owners, its wakes, its worker and its end.

use fsring_core::abi::identity::{BootInstanceId, MountId, SessionIdentity};
use fsring_core::enter::arbiter::{EarlyDequeueDisposition, PendingIrpArbiter};
use fsring_core::enter::completion::{
    PendingCompletionEffect, PendingCompletionPlan, PendingCompletionStep,
    PENDING_COMPLETION_ORDER,
};
use fsring_core::enter::handoff::{
    begin_native_worker_pass, commit_pending_handoff, finish_native_worker_pass,
    record_and_schedule_pending, schedule_stored_wake, select_pending_install,
    PendingHandoffCommit, PendingWakeOutcome,
};
use fsring_core::enter::irp::{
    classify_csq_cancel_completion, classify_worker_dequeue, CsqCancelCompletion, IrpAxis,
    IrpObservation, WorkerDequeueAuthority,
};
use fsring_core::enter::ownership::{PendingOwnerKind, PendingOwnerLedger, PendingOwnerToken};
use fsring_core::enter::role::{EnterStateIds, RingEnterState};
use fsring_core::enter::runtime::{
    build_pending_slot_parts, build_ring_runtime_parts, PendingSlotParts, RingRuntimeBuildError,
    MAX_PENDING_RESULT_CAPACITY,
};
use fsring_core::enter::schedule::{InstallAxis, PendingWorkerSchedule, WorkerScheduleState};
use fsring_core::enter::slot::{
    PendingDrainRefusal, PendingDrainStep, PendingDrainWait, PendingRuntimeInitCursor,
    PendingSlotState,
};
use fsring_core::enter::storage::{BrandedCqStorage, CqBindError, CqStorageDescriptor};
use fsring_core::enter::terminal::{
    EnterContender, PendingCompletion, PendingEnter, PendingOutcome,
};
use fsring_core::enter::timer::{
    finite_due_time_100ns, PendingCallbackAction, PendingDpcPass, PendingDpcPath, PendingDpcStep,
    PendingTimerCancel, TimerState, PENDING_DPC_OWN_EPOCH_ORDER, PENDING_DPC_STALE_EPOCH_ORDER,
    PENDING_WORKER_PASS_ORDER,
};
use fsring_core::enter::wake::{PendingReason, PendingWakeSlot};
use fsring_core::session::{
    CqStorageBindRight, PendingControlLinkRight, PendingError, PendingInstallId, SessionLocator,
    SessionRingBrand,
};
use fsring_core::terminal::{ClaimOutcome, ClaimantKind, TerminalOwner};

const REASONS: [PendingReason; 5] = [
    PendingReason::Cancel,
    PendingReason::Timeout,
    PendingReason::Readiness,
    PendingReason::Fence,
    PendingReason::Unload,
];

fn brand(ring_index: u32) -> SessionRingBrand {
    SessionRingBrand {
        locator: SessionLocator {
            identity: SessionIdentity {
                boot_instance_id: BootInstanceId { lo: 3, hi: 5 },
                mount_id: MountId { lo: 7, hi: 11 },
                session_epoch: 2,
            },
            slot: 1,
            generation: 9,
        },
        ring_index,
    }
}

fn install(epoch: u64) -> PendingInstallId {
    PendingInstallId {
        brand: brand(2),
        epoch,
    }
}

fn irp(address: usize) -> IrpObservation {
    IrpObservation::from_raw(address).expect("an address")
}

#[test]
fn each_kind_holds_one_token_and_gives_it_back() {
    let mut owners = PendingOwnerLedger::for_brand(brand(2));
    assert_eq!(
        owners.acquire_owner(install(1), PendingOwnerKind::Worker).err(),
        Some(PendingError::WrongInstall)
    );
    assert_eq!(
        owners.bind_install(PendingInstallId {
            brand: brand(3),
            epoch: 1
        }),
        Err(PendingError::WrongRing)
    );
    assert_eq!(owners.bind_install(install(1)), Ok(()));
    assert_eq!(
        owners.bind_install(install(2)),
        Err(PendingError::SlotOccupied)
    );
    let kinds = [
        PendingOwnerKind::Installer,
        PendingOwnerKind::Worker,
        PendingOwnerKind::Dpc,
        PendingOwnerKind::Cancel,
    ];
    let mut tokens = Vec::new();
    for (held, kind) in kinds.into_iter().enumerate() {
        assert_eq!(owners.owner_count(), held as u32);
        tokens.push(owners.acquire_owner(install(1), kind).expect("free"));
        assert!(owners.holds(kind));
        assert_eq!(
            owners.acquire_owner(install(1), kind).err(),
            Some(PendingError::DuplicateOwner)
        );
    }
    assert_eq!(
        owners.unbind_install(install(1)),
        Err(PendingError::OwnersRemain)
    );
    owners.begin_closing();
    for token in tokens {
        assert!(owners.release_owner(token).is_ok());
    }
    assert!(owners.owners_drained());
    assert_eq!(
        owners.acquire_owner(install(1), PendingOwnerKind::Dpc).err(),
        Some(PendingError::Closing)
    );
    assert_eq!(
        owners.unbind_install(install(2)),
        Err(PendingError::WrongInstall)
    );
    assert_eq!(owners.unbind_install(install(1)), Ok(()));
}

#[test]
fn a_token_of_another_install_is_handed_back() {
    let mut first = PendingOwnerLedger::for_brand(brand(2));
    let mut second = PendingOwnerLedger::for_brand(brand(2));
    assert_eq!(first.bind_install(install(1)), Ok(()));
    assert_eq!(second.bind_install(install(2)), Ok(()));
    let token = first
        .acquire_owner(install(1), PendingOwnerKind::Cancel)
        .expect("free");
    let (error, token) = second.release_owner(token).expect_err("another install's");
    assert_eq!(error, PendingError::WrongInstall);
    assert!(first.release_owner(token).is_ok());
    let mut third = PendingOwnerLedger::for_brand(brand(2));
    assert_eq!(third.bind_install(install(1)), Ok(()));
    let token = first
        .acquire_owner(install(1), PendingOwnerKind::Cancel)
        .expect("free again");
    let (error, _) = third.release_owner(token).expect_err("never given out");
    assert_eq!(error, PendingError::WrongOwnerKind);
}

#[test]
fn a_worker_takes_the_most_urgent_reason_and_the_whole_batch() {
    let mut wake = PendingWakeSlot::for_brand(brand(2));
    assert!(!wake.has_wake());
    assert_eq!(
        wake.take_for_worker(install(1)).err(),
        Some(PendingError::NotDequeued)
    );
    for reason in REASONS {
        assert_eq!(wake.record_wake(install(1), reason), Ok(()));
        assert!(wake.stored_covers(reason));
    }
    assert!(wake.needs_worker(install(1)));
    assert!(!wake.needs_worker(install(2)));
    assert_eq!(
        wake.record_wake(install(2), PendingReason::Fence),
        Err(PendingError::WrongInstall)
    );
    let decision = wake.take_for_worker(install(1)).expect("stored");
    assert_eq!(decision.reason(), PendingReason::WORKER_PRIORITY[0]);
    for reason in REASONS {
        assert!(decision.batch().covers(reason));
    }
    assert!(!wake.has_wake());
    assert!(wake.restore(decision).is_ok());
    for reason in REASONS {
        assert!(wake.stored_covers(reason));
    }
}

#[test]
fn every_reason_wins_over_the_ones_behind_it() {
    for (rank, first) in PendingReason::WORKER_PRIORITY.into_iter().enumerate() {
        for second in PendingReason::WORKER_PRIORITY.into_iter().skip(rank) {
            let mut wake = PendingWakeSlot::for_brand(brand(2));
            assert_eq!(wake.record_wake(install(1), second), Ok(()));
            assert_eq!(wake.record_wake(install(1), first), Ok(()));
            let decision = wake.take_for_worker(install(1)).expect("stored");
            assert_eq!(decision.reason(), first);
        }
    }
}

#[test]
fn a_wake_for_another_ring_is_refused() {
    let mut wake = PendingWakeSlot::for_brand(brand(3));
    assert_eq!(
        wake.record_wake(install(1), PendingReason::Fence),
        Err(PendingError::WrongRing)
    );
}

#[test]
fn a_packet_is_known_by_its_address() {
    assert!(IrpObservation::from_raw(0).is_none());
    assert_eq!(irp(0x1000).get(), 0x1000);
    assert_eq!(irp(0x1000).observed_address(), 0x1000);
    let (one, other) = (Some(irp(1)), Some(irp(2)));
    assert_eq!(
        classify_csq_cancel_completion(None, one),
        CsqCancelCompletion::AdoptRemoved
    );
    assert_eq!(
        classify_csq_cancel_completion(one, one),
        CsqCancelCompletion::AlreadyNamed
    );
    assert_eq!(
        classify_csq_cancel_completion(one, other),
        CsqCancelCompletion::ForeignIrp
    );
    assert_eq!(
        classify_csq_cancel_completion(one, None),
        CsqCancelCompletion::NoIrp
    );
}

#[test]
fn a_packet_moves_one_way_and_is_the_drivers_until_completed() {
    assert_eq!(IrpAxis::Queued.next(), Some(IrpAxis::Dequeued));
    assert_eq!(IrpAxis::Dequeued.next(), Some(IrpAxis::Completing));
    assert_eq!(IrpAxis::Completing.next(), Some(IrpAxis::Completed));
    assert_eq!(IrpAxis::Completed.next(), None);
    for axis in [IrpAxis::Queued, IrpAxis::Dequeued, IrpAxis::Completing] {
        assert!(axis.driver_owns_completion());
    }
    assert!(!IrpAxis::Completed.driver_owns_completion());
    let rows = [
        (None, Some(irp(1)), WorkerDequeueAuthority::NoParkedIrp),
        (
            Some(IrpAxis::Queued),
            Some(irp(1)),
            WorkerDequeueAuthority::NoHandoffPublished,
        ),
        (
            Some(IrpAxis::Dequeued),
            Some(irp(1)),
            WorkerDequeueAuthority::ReleasedToDriver(irp(1)),
        ),
        (
            Some(IrpAxis::Dequeued),
            None,
            WorkerDequeueAuthority::NoParkedIrp,
        ),
    ];
    for (axis, slot, expected) in rows {
        assert_eq!(classify_worker_dequeue(axis, slot), expected, "{axis:?}");
    }
}

#[test]
fn only_the_first_claim_on_a_parked_end_wins() {
    let contenders = [
        (EnterContender::Cancel, PendingCompletion::Cancelled),
        (EnterContender::Timeout, PendingCompletion::TimedOut),
        (EnterContender::Wake, PendingCompletion::Ready),
        (EnterContender::Fence, PendingCompletion::Fenced),
        (EnterContender::Unload, PendingCompletion::Unloaded),
    ];
    for (contender, completion) in contenders {
        let mut parked = PendingEnter::new(7);
        assert_eq!(parked.invocation(), 7);
        let PendingOutcome::Won(right) = parked.contend(contender) else {
            panic!("the first claim wins");
        };
        assert_eq!(right.finish(), completion);
        assert!(matches!(
            parked.contend(EnterContender::Wake),
            PendingOutcome::Lost { winner: Some(told) } if told == contender.claimant()
        ));
        assert_ne!(contender.completion(), PendingCompletion::SuccessAfterCommit);
    }
    let mut parked = PendingEnter::new(7);
    let PendingOutcome::Won(right) = parked.contend(EnterContender::Wake) else {
        panic!("the first claim wins");
    };
    assert_eq!(right.finish(), PendingCompletion::Ready);
    assert!(matches!(
        parked.contend(EnterContender::Cancel),
        PendingOutcome::Lost {
            winner: Some(ClaimantKind::EnterContinuation)
        }
    ));
    assert_eq!(EnterContender::Fence.claimant(), ClaimantKind::Fence);
}

#[test]
fn a_terminal_owner_is_claimed_once() {
    let mut owner = TerminalOwner::new();
    let ClaimOutcome::Won(claim) = owner.claim(ClaimantKind::Timeout) else {
        panic!("unclaimed");
    };
    assert_eq!(claim.winner(), ClaimantKind::Timeout);
    assert!(matches!(
        owner.claim(ClaimantKind::Unload),
        ClaimOutcome::Lost {
            winner: Some(ClaimantKind::Timeout)
        }
    ));
}

/// A slot with install one bound everywhere, and its installer's token.
struct Pending {
    schedule: PendingWorkerSchedule,
    wake: PendingWakeSlot,
    owners: PendingOwnerLedger,
    worker: Option<PendingOwnerToken>,
}

fn installing() -> (Pending, PendingOwnerToken) {
    let mut schedule = PendingWorkerSchedule::for_brand(brand(2));
    let mut owners = PendingOwnerLedger::for_brand(brand(2));
    assert_eq!(schedule.begin_install(install(1)), Ok(()));
    assert_eq!(owners.bind_install(install(1)), Ok(()));
    let installer = owners
        .acquire_owner(install(1), PendingOwnerKind::Installer)
        .expect("free");
    (
        Pending {
            schedule,
            wake: PendingWakeSlot::for_brand(brand(2)),
            owners,
            worker: None,
        },
        installer,
    )
}

fn hand_off(p: &mut Pending, installer: PendingOwnerToken) -> PendingHandoffCommit {
    commit_pending_handoff(
        select_pending_install(install(1), irp(0x1000)),
        installer,
        &mut p.schedule,
        &mut p.wake,
        &mut p.owners,
        &mut p.worker,
    )
    .map_err(|(error, _, _)| error)
    .expect("a legal handoff")
}

fn record(p: &mut Pending, reason: PendingReason) -> PendingWakeOutcome {
    record_and_schedule_pending(
        install(1),
        reason,
        &mut p.schedule,
        &mut p.wake,
        &mut p.owners,
        &mut p.worker,
    )
    .expect("recorded")
}

#[test]
fn a_handoff_without_a_wake_queues_nothing() {
    let (mut p, installer) = installing();
    let PendingHandoffCommit::Ready(receipt) = hand_off(&mut p, installer) else {
        panic!("no wake was stored");
    };
    assert_eq!(receipt.install(), install(1));
    assert_eq!(receipt.irp(), irp(0x1000));
    assert_eq!(p.schedule.axis(), InstallAxis::HandoffDone);
    assert_eq!(p.schedule.state(), WorkerScheduleState::Idle);
    assert!(p.owners.is_empty());
    assert!(p.worker.is_none());
}

#[test]
fn a_wake_before_the_handoff_is_stored_and_queued_by_it() {
    let (mut p, installer) = installing();
    assert!(matches!(
        record(&mut p, PendingReason::Readiness),
        PendingWakeOutcome::Stored
    ));
    assert_eq!(p.schedule.state(), WorkerScheduleState::Idle);
    let PendingHandoffCommit::Queue(queue) = hand_off(&mut p, installer) else {
        panic!("a wake was stored");
    };
    assert_eq!(queue.commit_after_queue().install(), install(1));
    assert_eq!(p.schedule.state(), WorkerScheduleState::Queued);
    assert!(p.worker.is_some());
    assert!(p.wake.stored_covers(PendingReason::Readiness));
}

#[test]
fn a_handoff_with_the_wrong_token_changes_nothing() {
    let (mut p, installer) = installing();
    let dpc = p
        .owners
        .acquire_owner(install(1), PendingOwnerKind::Dpc)
        .expect("free");
    let (error, selected, dpc) = commit_pending_handoff(
        select_pending_install(install(1), irp(0x1000)),
        dpc,
        &mut p.schedule,
        &mut p.wake,
        &mut p.owners,
        &mut p.worker,
    )
    .expect_err("no installer's token");
    assert_eq!(error, PendingError::WrongInstall);
    assert_eq!(selected.install(), install(1));
    assert_eq!(p.schedule.axis(), InstallAxis::Installing);
    assert_eq!(p.owners.owner_count(), 2);
    assert!(p.owners.release_owner(dpc).is_ok());
    assert!(matches!(
        hand_off(&mut p, installer),
        PendingHandoffCommit::Ready(_)
    ));
}

#[test]
fn a_pass_runs_and_a_wake_during_it_runs_another() {
    let (mut p, installer) = installing();
    let PendingHandoffCommit::Ready(_) = hand_off(&mut p, installer) else {
        panic!("no wake was stored");
    };
    let PendingWakeOutcome::Queued(right) = record(&mut p, PendingReason::Timeout) else {
        panic!("the first wake queues a pass");
    };
    assert_eq!(right.commit_after_work_queued(), install(1));
    assert!(matches!(
        record(&mut p, PendingReason::Readiness),
        PendingWakeOutcome::Stored
    ));
    let reason = begin_native_worker_pass(
        install(1),
        &mut p.schedule,
        &mut p.wake,
        &mut p.worker,
    );
    assert_eq!(reason, Ok(PendingReason::Timeout));
    assert_eq!(p.schedule.state(), WorkerScheduleState::Running);
    assert!(!p.wake.has_wake());
    assert!(matches!(
        record(&mut p, PendingReason::Cancel),
        PendingWakeOutcome::Rescheduled
    ));
    assert_eq!(p.schedule.state(), WorkerScheduleState::RunningReschedule);
    let again = finish_native_worker_pass(&mut p.schedule, &mut p.owners, &mut p.worker)
        .expect("running");
    let Some(right) = again else {
        panic!("another pass is owed");
    };
    assert_eq!(right.commit_after_work_queued(), install(1));
    assert_eq!(
        begin_native_worker_pass(install(1), &mut p.schedule, &mut p.wake, &mut p.worker),
        Ok(PendingReason::Cancel)
    );
    let last = finish_native_worker_pass(&mut p.schedule, &mut p.owners, &mut p.worker)
        .expect("running");
    assert!(last.is_none());
    assert_eq!(p.schedule.state(), WorkerScheduleState::Idle);
    assert!(p.owners.is_empty());
    assert!(p.worker.is_none());
}

#[test]
fn a_stored_wake_is_scheduled_on_demand() {
    let (mut p, installer) = installing();
    let PendingHandoffCommit::Ready(_) = hand_off(&mut p, installer) else {
        panic!("no wake was stored");
    };
    let nothing = schedule_stored_wake(
        install(1),
        &mut p.schedule,
        &p.wake,
        &mut p.owners,
        &mut p.worker,
    );
    assert!(matches!(nothing, Ok(None)));
    assert_eq!(p.wake.record_wake(install(1), PendingReason::Fence), Ok(()));
    let right = schedule_stored_wake(
        install(1),
        &mut p.schedule,
        &p.wake,
        &mut p.owners,
        &mut p.worker,
    )
    .expect("a legal schedule")
    .expect("a pass is owed");
    assert_eq!(right.commit_after_work_queued(), install(1));
    assert_eq!(p.schedule.state(), WorkerScheduleState::Queued);
}

#[test]
fn a_pass_cannot_begin_unqueued() {
    let (mut p, _installer) = installing();
    assert!(begin_native_worker_pass(
        install(1),
        &mut p.schedule,
        &mut p.wake,
        &mut p.worker
    )
    .is_err());
}

#[test]
fn a_schedule_binds_one_install() {
    let mut schedule = PendingWorkerSchedule::for_brand(brand(2));
    assert_eq!(
        schedule.begin_install(PendingInstallId {
            brand: brand(1),
            epoch: 1
        }),
        Err(PendingError::WrongRing)
    );
    assert_eq!(schedule.begin_install(install(1)), Ok(()));
    assert_eq!(
        schedule.begin_install(install(2)),
        Err(PendingError::SlotOccupied)
    );
    assert_eq!(
        schedule.handoff_done(install(2)),
        Err(PendingError::WrongInstall)
    );
    assert_eq!(schedule.handoff_done(install(1)), Ok(()));
    assert_eq!(schedule.queue_worker(install(1)), Ok(()));
    assert_eq!(schedule.state(), WorkerScheduleState::Queued);
    assert_eq!(schedule.bound_install(), Some(install(1)));
}

#[test]
fn a_dequeue_before_the_handoff_is_kept_for_it() {
    let mut ring = RingEnterState::for_brand(brand(2), &mut EnterStateIds::new());
    let lease = ring.acquire_sq_wait().expect("free");
    let mut arbiter = PendingIrpArbiter::bind(&lease);
    assert_eq!(
        arbiter
            .dequeue(install(1), 0x1000, PendingReason::Cancel)
            .err(),
        Some(PendingError::NotDequeued)
    );
    assert!(arbiter
        .park(install(1), irp(0x1000), PendingEnter::new(1))
        .is_ok());
    assert!(arbiter.has_parked());
    let (error, _) = arbiter
        .park(install(1), irp(0x1000), PendingEnter::new(1))
        .expect_err("one request is parked");
    assert_eq!(error, PendingError::SlotOccupied);
    for (asked, address, expected) in [
        (install(2), 0x1000, PendingError::WrongInstall),
        (install(1), 0, PendingError::WrongIrp),
        (install(1), 0x2000, PendingError::WrongIrp),
        (install(1), 0x1000, PendingError::Closing),
        (install(1), 0x1000, PendingError::AlreadyDequeued),
    ] {
        assert_eq!(
            arbiter.dequeue(asked, address, PendingReason::Cancel).err(),
            Some(expected)
        );
    }
    assert_eq!(
        arbiter.early_disposition(),
        Some(EarlyDequeueDisposition::ReleaseCancelOwnerOnly)
    );
    assert_eq!(arbiter.handoff_done(), Ok(true));
    assert!(arbiter.handoff_is_done());
    let receipt = arbiter.take_early_receipt().expect("kept");
    assert_eq!(receipt.reason(), PendingReason::Cancel);
    assert_eq!(receipt.irp(), irp(0x1000));
    let (right, packet) = arbiter
        .contend(receipt)
        .map_err(|(error, _)| error)
        .expect("the parked request's receipt");
    assert_eq!(right.finish(), PendingCompletion::Cancelled);
    assert_eq!(packet, irp(0x1000));
}

#[test]
fn a_timer_is_armed_run_and_cancelled_by_its_epoch() {
    let mut timer = TimerState::Quiesced;
    assert_eq!(timer.cancel(1, false), PendingTimerCancel::NotArmed);
    assert_eq!(timer.arm(1), Ok(()));
    assert_eq!(timer.epoch(), Some(1));
    assert!(timer.arm(2).is_err());
    assert_eq!(timer.cancel(2, true), PendingTimerCancel::NotThisInstall);
    assert_eq!(timer.cancel(1, true), PendingTimerCancel::DequeuedBeforeRun);
    assert_eq!(timer.arm(2), Ok(()));
    assert!(timer.dpc_entered(1).is_err());
    assert_eq!(timer.dpc_entered(2), Ok(()));
    assert_eq!(timer.cancel(2, false), PendingTimerCancel::RequiresDpcExitWait);
    assert_eq!(timer.dpc_exiting(2), Ok(()));
    assert_eq!(timer, TimerState::Quiesced);
}

#[test]
fn a_finite_timeout_is_a_negative_count_of_hundred_nanoseconds() {
    assert_eq!(finite_due_time_100ns(1), Some(-10_000));
    assert_eq!(finite_due_time_100ns(5_000), Some(-50_000_000));
    assert_eq!(finite_due_time_100ns(0), Some(0));
    assert_eq!(
        finite_due_time_100ns(u32::MAX),
        Some(-42_949_672_950_000)
    );
}

fn walk(mut timer: TimerState, epoch: u64) -> (Vec<PendingCallbackAction>, PendingDpcPath) {
    let mut performed = Vec::new();
    let mut pass = PendingDpcPass::begin_dpc_pass(&mut timer, epoch);
    let path = pass.path();
    loop {
        match pass.run_next_dpc_effect() {
            PendingDpcStep::Perform(action, next) => {
                performed.push(action);
                pass = next;
            }
            PendingDpcStep::SignalExit(ticket) => {
                assert_eq!(ticket.path(), path);
                assert_eq!(ticket.commit_after_exit_signalled(), epoch);
                return (performed, path);
            }
        }
    }
}

#[test]
fn a_callback_walks_the_order_of_its_epoch() {
    assert_eq!(
        walk(TimerState::Armed { epoch: 4 }, 4),
        (
            PENDING_DPC_OWN_EPOCH_ORDER.to_vec(),
            PendingDpcPath::OwnEpoch
        )
    );
    assert_eq!(
        walk(TimerState::Armed { epoch: 5 }, 4),
        (
            PENDING_DPC_STALE_EPOCH_ORDER.to_vec(),
            PendingDpcPath::StaleEpoch
        )
    );
    for action in PENDING_DPC_OWN_EPOCH_ORDER {
        assert!(!action.forbidden_at_dispatch_level());
    }
    assert!(PENDING_WORKER_PASS_ORDER
        .iter()
        .any(|action| action.forbidden_at_dispatch_level()));
}

#[test]
fn a_slot_moves_from_vacant_to_vacant_with_a_later_epoch() {
    let fresh = PendingSlotState::fresh();
    assert!(fresh.admits_install());
    let installing = fresh.begin_install().expect("vacant");
    let epoch = installing.epoch().expect("an install");
    assert!(installing.begin_install().is_err());
    let active = installing.handoff_done().expect("installing");
    let quiescing = active.begin_quiesce().expect("active");
    let vacant = quiescing.publish_vacant().expect("quiescing");
    assert_eq!(
        vacant,
        PendingSlotState::Vacant {
            next_epoch: epoch + 1
        }
    );
    let last = PendingSlotState::Quiescing { epoch: u64::MAX };
    assert_eq!(last.publish_vacant(), Ok(PendingSlotState::EpochExhausted));
    assert!(!PendingSlotState::EpochExhausted.admits_install());
    assert_eq!(
        quiescing.park_publication_fail_stop(),
        Ok(PendingSlotState::PublicationFailStop { epoch })
    );
}

#[test]
fn a_drain_wait_ends() {
    let mut wait = PendingDrainWait::begin_drain_wait();
    let mut observed = 0u32;
    let refused = loop {
        observed += 1;
        match wait.observed_active() {
            PendingDrainStep::Observe(next) => wait = next,
            PendingDrainStep::Refused(refusal) => break refusal,
            PendingDrainStep::Drained => panic!("it was active"),
        }
    };
    assert_eq!(refused, PendingDrainRefusal::StillActive);
    assert_eq!(observed, PendingDrainWait::MAX_OBSERVATIONS);
    assert!(matches!(
        PendingDrainWait::begin_drain_wait().observed_drained(),
        PendingDrainStep::Drained
    ));
    assert!(matches!(
        PendingDrainWait::begin_drain_wait().observed_publication_fail_stop(),
        PendingDrainStep::Refused(PendingDrainRefusal::PublicationFailStop)
    ));
}

#[test]
fn initialized_rings_are_rolled_back_last_first() {
    assert!(PendingRuntimeInitCursor::begin(0).is_err());
    assert!(PendingRuntimeInitCursor::begin(65).is_err());
    let mut cursor = PendingRuntimeInitCursor::begin(4).expect("in range");
    for ring in 0..3 {
        assert_eq!(cursor.next_uninitialized_index(), Some(ring));
        cursor = cursor.record_initialized().expect("in order");
    }
    let mut span = cursor.rollback_span();
    let mut undone = Vec::new();
    while let Some((ring, rest)) = span.next_reverse() {
        undone.push(ring);
        span = rest;
    }
    assert_eq!(undone, vec![2, 1, 0]);
    assert!(cursor.finish(4).is_err());
    let cursor = cursor.record_initialized().expect("the last");
    assert!(cursor.record_initialized().is_err());
    assert_eq!(cursor.finish(4).expect("all").ring_count(), 4);
}

#[test]
fn a_ring_is_built_with_its_own_right_and_a_sane_capacity() {
    let mut ids = EnterStateIds::new();
    let built =
        build_ring_runtime_parts(brand(2), 48, CqStorageBindRight::for_brand(brand(2)), &mut ids)
            .map_err(|(error, _)| error)
            .expect("built");
    assert_eq!(built.brand(), brand(2));
    let (error, right) =
        build_ring_runtime_parts(brand(2), 48, CqStorageBindRight::for_brand(brand(3)), &mut ids)
            .err()
            .expect("another ring's right");
    assert!(matches!(error, RingRuntimeBuildError::Role(_)));
    assert_eq!(right.brand(), brand(3));
    for capacity in [0, MAX_PENDING_RESULT_CAPACITY + 1] {
        let (error, _) = build_ring_runtime_parts(
            brand(2),
            capacity,
            CqStorageBindRight::for_brand(brand(2)),
            &mut ids,
        )
        .err()
        .expect("no such capacity");
        assert_eq!(error, RingRuntimeBuildError::InvalidPendingResultCapacity);
    }
}

fn slot_parts() -> PendingSlotParts {
    build_pending_slot_parts(
        CqStorageBindRight::for_brand(brand(2)),
        48,
        &mut EnterStateIds::new(),
    )
    .map_err(|(error, _)| error)
    .expect("built")
}

#[test]
fn a_slot_holds_one_install_at_a_time() {
    let mut parts = slot_parts();
    assert_eq!(parts.ring_brand(), brand(2));
    assert_eq!(parts.result_slot.capacity(), 48);
    assert!(parts.result_slot.is_reusable());
    assert_eq!(parts.result_slot.occupy(install(1)), Ok(()));
    assert_eq!(
        parts.result_slot.occupy(install(2)),
        Err(PendingError::SlotOccupied)
    );
    assert_eq!(
        parts.result_slot.vacate(install(2)),
        Err(PendingError::WrongInstall)
    );
    assert_eq!(parts.result_slot.install(), Some(install(1)));
    assert_eq!(parts.result_slot.vacate(install(1)), Ok(()));
    assert!(parts.result_slot.is_reusable());
}

#[test]
fn completion_storage_is_checked_when_described_and_when_borrowed() {
    assert_eq!(
        CqStorageDescriptor::from_raw_parts(1, 2, 3, 0).err(),
        Some(CqBindError::ZeroCapacity)
    );
    assert_eq!(
        CqStorageDescriptor::from_raw_parts(1, 2, 3, 6).err(),
        Some(CqBindError::NonPowerOfTwoCapacity)
    );
    let huge = (usize::MAX >> 1) + 1;
    assert_eq!(
        CqStorageDescriptor::from_raw_parts(1, 2, 3, huge).err(),
        Some(CqBindError::StorageOverflow)
    );
    let descriptor = CqStorageDescriptor::from_raw_parts(1, 2, 3, 8).expect("eight entries");
    assert_eq!(descriptor.capacity(), 8);
    assert_eq!(descriptor.entry_bytes(), 512);
    let parts = slot_parts();
    let storage = BrandedCqStorage::bind_storage(parts.cq_storage, descriptor);
    assert_eq!(storage.brand(), brand(2));
    assert!(storage.borrow_consumer(511).is_err());
    let consumer = storage.borrow_consumer(512).expect("backed");
    assert_eq!(consumer.brand(), brand(2));
    let mut ring = parts.state;
    let token = ring.acquire_cq_consumer().expect("free");
    assert!(consumer.serves(token.cq_stream()));
    let mut other = RingEnterState::for_brand(brand(3), &mut EnterStateIds::new());
    let token = other.acquire_cq_consumer().expect("free");
    assert!(!consumer.serves(token.cq_stream()));
}

#[test]
fn a_completion_walks_its_order_and_publishes_last() {
    let mut parts = slot_parts();
    assert_eq!(parts.result_slot.occupy(install(1)), Ok(()));
    assert_eq!(parts.owners.bind_install(install(1)), Ok(()));
    let worker = parts
        .owners
        .acquire_owner(install(1), PendingOwnerKind::Worker)
        .expect("free");
    let lease = parts.state.acquire_sq_wait().expect("free");
    let mut plan = PendingCompletionPlan::begin(
        install(1),
        irp(0x1000),
        lease,
        PendingControlLinkRight::for_install(install(1)),
        worker,
    )
    .map_err(|(error, _, _, _)| error)
    .expect("one install's authorities");
    let mut walked = Vec::new();
    let publication = loop {
        let stage = plan.stage().expect("a step is owed");
        walked.push(stage);
        if stage == PendingCompletionEffect::ReleaseSqWaitRole {
            let (rest, role) = plan.take_sq_wait_role();
            assert!(parts
                .state
                .release_sq_wait(role.expect("held until here"))
                .is_ok());
            plan = rest;
            continue;
        }
        if stage == PendingCompletionEffect::UnlinkControlPending {
            let (rest, link) = plan.take_control_link();
            assert_eq!(link.expect("held until here").install(), install(1));
            plan = rest;
            continue;
        }
        plan = match plan.run_next() {
            PendingCompletionStep::Advanced(next) => next,
            PendingCompletionStep::NeedResultWrite(write) => {
                assert_eq!(write.view(), (install(1), irp(0x1000)));
                write.commit_result_write(0, 48)
            }
            PendingCompletionStep::NeedIrpCompletion(completion) => {
                assert_eq!(completion.view(), Some((irp(0x1000), 0, 48)));
                completion.commit_irp_completion()
            }
            PendingCompletionStep::NeedFinalPublication(publication) => break publication,
        };
    };
    assert_eq!(walked, PENDING_COMPLETION_ORDER.to_vec());
    let result = publication
        .commit_final_publication(&mut parts.result_slot, &mut parts.owners, &parts.wake, false)
        .map_err(|stop| stop.reason())
        .expect("nothing is left");
    assert_eq!(result.install(), install(1));
    assert!(!result.exhausted());
    assert!(parts.owners.is_empty());
    assert!(parts.result_slot.is_reusable());
}

#[test]
fn a_release_is_passed_only_by_taking_what_it_releases() {
    let mut parts = slot_parts();
    assert_eq!(parts.owners.bind_install(install(1)), Ok(()));
    let worker = parts
        .owners
        .acquire_owner(install(1), PendingOwnerKind::Worker)
        .expect("free");
    let lease = parts.state.acquire_sq_wait().expect("free");
    let mut plan = PendingCompletionPlan::begin(
        install(1),
        irp(0x1000),
        lease,
        PendingControlLinkRight::for_install(install(1)),
        worker,
    )
    .map_err(|(error, _, _, _)| error)
    .expect("one install's authorities");
    while plan.stage() != Some(PendingCompletionEffect::ReleaseSqWaitRole) {
        plan = match plan.run_next() {
            PendingCompletionStep::Advanced(next) => next,
            PendingCompletionStep::NeedResultWrite(write) => write.commit_result_write(0, 48),
            _ => unreachable!("nothing else is owed before the release"),
        };
    }
    for _ in 0..3 {
        plan = match plan.run_next() {
            PendingCompletionStep::Advanced(next) => next,
            _ => unreachable!("a release is owed"),
        };
        assert_eq!(plan.stage(), Some(PendingCompletionEffect::ReleaseSqWaitRole));
        assert!(plan.holds_role());
    }
    let (rest, role) = plan.take_sq_wait_role();
    assert!(parts
        .state
        .release_sq_wait(role.expect("still held"))
        .is_ok());
    plan = rest;
    assert!(!plan.holds_role());
    for _ in 0..3 {
        plan = match plan.run_next() {
            PendingCompletionStep::Advanced(next) => next,
            _ => unreachable!("an unlink is owed"),
        };
        assert_eq!(plan.stage(), Some(PendingCompletionEffect::UnlinkControlPending));
        assert!(plan.holds_control_link());
    }
    let (plan, link) = plan.take_control_link();
    assert_eq!(link.expect("still held").install(), install(1));
    assert!(!plan.holds_control_link());
    assert_eq!(plan.stage(), Some(PendingCompletionEffect::ReleaseStrongSessionRef));
}

#[test]
fn a_publication_with_an_owner_left_stops_and_says_why() {
    let mut parts = slot_parts();
    assert_eq!(parts.result_slot.occupy(install(1)), Ok(()));
    assert_eq!(parts.owners.bind_install(install(1)), Ok(()));
    let worker = parts
        .owners
        .acquire_owner(install(1), PendingOwnerKind::Worker)
        .expect("free");
    let _dpc = parts
        .owners
        .acquire_owner(install(1), PendingOwnerKind::Dpc)
        .expect("free");
    let lease = parts.state.acquire_sq_wait().expect("free");
    let mut plan = PendingCompletionPlan::begin(
        install(1),
        irp(0x1000),
        lease,
        PendingControlLinkRight::for_install(install(1)),
        worker,
    )
    .map_err(|(error, _, _, _)| error)
    .expect("one install's authorities");
    let publication = loop {
        let (rest, _) = plan.take_sq_wait_role();
        let (rest, _) = rest.take_control_link();
        plan = match rest.run_next() {
            PendingCompletionStep::Advanced(next) => next,
            PendingCompletionStep::NeedResultWrite(write) => write.commit_result_write(0, 48),
            PendingCompletionStep::NeedIrpCompletion(completion) => {
                completion.commit_irp_completion()
            }
            PendingCompletionStep::NeedFinalPublication(publication) => break publication,
        };
    };
    let stop = publication
        .commit_final_publication(&mut parts.result_slot, &mut parts.owners, &parts.wake, false)
        .err()
        .expect("an owner is left");
    assert_eq!(stop.reason(), PendingError::OwnersRemain);
    assert_eq!(stop.witness().install(), install(1));
    assert_eq!(parts.owners.owner_count(), 2, "nothing was given back");
}

#[test]
fn authorities_of_another_install_begin_no_completion() {
    let mut parts = slot_parts();
    assert_eq!(parts.owners.bind_install(install(1)), Ok(()));
    let worker = parts
        .owners
        .acquire_owner(install(1), PendingOwnerKind::Worker)
        .expect("free");
    let lease = parts.state.acquire_sq_wait().expect("free");
    let (_, lease, link, worker) = PendingCompletionPlan::begin(
        install(2),
        irp(0x1000),
        lease,
        PendingControlLinkRight::for_install(install(2)),
        worker,
    )
    .err()
    .expect("the token is of install one");
    assert_eq!(link.install(), install(2));
    assert!(parts.owners.release_owner(worker).is_ok());
    assert!(parts.state.release_sq_wait(lease).is_ok());
}
