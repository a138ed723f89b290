//! The transitions that keep a parked request's schedule, wakes and owners in step.
//!
//! Each function here performs a whole transition or refuses having changed
//! nothing, but for one case: where the ledger refuses the token of a pass that
//! is over, [`finish_native_worker_pass`] leaves the schedule idle and the token
//! with the ring. Together the functions keep one agreement ([`in_step`]): a pass
//! is queued or running exactly when the worker's token is held, by the ledger
//! and by the ring alike. While the parts agree, the ledger never refuses that
//! token ([`law_finished_pass_keeps_in_step`]).

use crate::enter::irp::IrpObservation;
use crate::enter::ownership::{
    LedgerModel, PendingOwnerKind, PendingOwnerLedger, PendingOwnerToken, TokenModel,
};
use crate::enter::schedule::{
    InstallAxis, PendingWorkerSchedule, QueueWorkRight, ScheduleModel, WorkerScheduleState,
};
use crate::enter::wake::{PendingReason, PendingWakeSlot, WakeModel};
use crate::session::{PendingError, PendingInstallId};
use vstd::prelude::*;

verus! {

/// A ring's parked request: its schedule, its stored wake, its owners, and the
/// worker's token where the ring keeps it.
pub struct PendingModel {
    pub schedule: ScheduleModel,
    pub wake: WakeModel,
    pub owners: LedgerModel,
    pub worker: Option<TokenModel>,
}

/// What a kept token stands for.
pub open spec fn kept(worker: Option<PendingOwnerToken>) -> Option<TokenModel> {
    match worker {
        Some(token) => Some(token@),
        None => None,
    }
}

/// The parts of one ring, as one value.
pub open spec fn pending(
    schedule: PendingWorkerSchedule,
    wake: PendingWakeSlot,
    owners: PendingOwnerLedger,
    worker: Option<PendingOwnerToken>,
) -> PendingModel {
    PendingModel { schedule: schedule@, wake: wake@, owners: owners@, worker: kept(worker) }
}

/// The install selected for handoff, with the packet observed for it.
#[must_use]
#[derive(Debug)]
pub struct SelectedPendingInstall {
    install: PendingInstallId,
    irp: IrpObservation,
}

/// What a selection or a receipt names.
pub struct HandoffModel {
    pub install: PendingInstallId,
    pub irp: IrpObservation,
}

impl View for SelectedPendingInstall {
    type V = HandoffModel;

    closed spec fn view(&self) -> HandoffModel {
        HandoffModel { install: self.install, irp: self.irp }
    }
}

/// Select one install for handoff.
pub fn select_pending_install(install: PendingInstallId, irp: IrpObservation) -> (selected:
    SelectedPendingInstall)
    ensures
        selected@ == (HandoffModel { install, irp }),
{
    SelectedPendingInstall { install, irp }
}

impl SelectedPendingInstall {
    /// The selected install.
    pub fn install(&self) -> (install: PendingInstallId)
        ensures
            install == self@.install,
    {
        self.install
    }

    /// The packet observed for it.
    pub fn irp(&self) -> (irp: IrpObservation)
        ensures
            irp == self@.irp,
    {
        self.irp
    }
}

/// The proof that one install's handoff is done.
#[must_use]
#[derive(Debug)]
pub struct HandoffDoneReceipt {
    install: PendingInstallId,
    irp: IrpObservation,
}

impl View for HandoffDoneReceipt {
    type V = HandoffModel;

    closed spec fn view(&self) -> HandoffModel {
        HandoffModel { install: self.install, irp: self.irp }
    }
}

impl HandoffDoneReceipt {
    /// The install handed over.
    pub fn install(&self) -> (install: PendingInstallId)
        ensures
            install == self@.install,
    {
        self.install
    }

    /// The packet handed over with it.
    pub fn irp(&self) -> (irp: IrpObservation)
        ensures
            irp == self@.irp,
    {
        self.irp
    }
}

/// A finished handoff whose first pass is still to be queued.
#[must_use]
#[derive(Debug)]
pub struct PendingHandoffQueue {
    receipt: HandoffDoneReceipt,
}

impl View for PendingHandoffQueue {
    type V = HandoffModel;

    closed spec fn view(&self) -> HandoffModel {
        self.receipt@
    }
}

impl PendingHandoffQueue {
    /// Reveal the receipt, once the pass has been queued.
    pub fn commit_after_queue(self) -> (receipt: HandoffDoneReceipt)
        ensures
            receipt@ == self@,
    {
        self.receipt
    }
}

/// A finished handoff.
#[must_use]
#[derive(Debug)]
pub enum PendingHandoffCommit {
    /// No wake was stored: there is nothing to queue.
    Ready(HandoffDoneReceipt),
    /// A wake was stored: the first pass is published and has to be queued.
    Queue(PendingHandoffQueue),
}

/// Why a handoff is refused, if it is.
pub open spec fn handoff_refusal(
    state: PendingModel,
    install: PendingInstallId,
    installer: TokenModel,
) -> Option<PendingError> {
    if installer != (TokenModel { install, kind: PendingOwnerKind::Installer }) {
        Some(PendingError::WrongInstall)
    } else if state.schedule.install != Some(install) || state.schedule.axis
        != InstallAxis::Installing || state.schedule.state != WorkerScheduleState::Idle {
        Some(PendingError::WrongRingState)
    } else if state.wake.brand != install.brand || state.owners.brand != install.brand {
        Some(PendingError::WrongRing)
    } else if state.owners.install != Some(install) {
        Some(PendingError::WrongInstall)
    } else if !state.owners.owners.contains(PendingOwnerKind::Installer) {
        Some(PendingError::WrongOwnerKind)
    } else if state.worker is Some || state.owners.owners.contains(PendingOwnerKind::Worker) {
        Some(PendingError::DuplicateOwner)
    } else if crate::enter::wake::needs_worker(state.wake, install) && state.owners.closing {
        Some(PendingError::Closing)
    } else {
        None
    }
}

/// A pass is published as queued and the worker's token is given out for it.
pub open spec fn with_queued_pass(state: PendingModel, install: PendingInstallId) -> PendingModel {
    PendingModel {
        schedule: ScheduleModel { state: WorkerScheduleState::Queued, ..state.schedule },
        owners: LedgerModel {
            owners: state.owners.owners.insert(PendingOwnerKind::Worker),
            ..state.owners
        },
        worker: Some(TokenModel { install, kind: PendingOwnerKind::Worker }),
        ..state
    }
}

/// The request once its handoff is done: the installer's token is back, and a
/// pass is queued if a wake was stored. The stored reasons stay where they are.
pub open spec fn handed_off(state: PendingModel, install: PendingInstallId) -> PendingModel {
    let done = PendingModel {
        schedule: ScheduleModel { axis: InstallAxis::HandoffDone, ..state.schedule },
        owners: LedgerModel {
            owners: state.owners.owners.remove(PendingOwnerKind::Installer),
            ..state.owners
        },
        ..state
    };
    if crate::enter::wake::needs_worker(state.wake, install) {
        with_queued_pass(done, install)
    } else {
        done
    }
}

/// Finish one install's handoff, or refuse having changed nothing.
///
/// A refusal returns the selection and the installer's token.
pub fn commit_pending_handoff(
    selected: SelectedPendingInstall,
    installer: PendingOwnerToken,
    schedule: &mut PendingWorkerSchedule,
    wake: &mut PendingWakeSlot,
    owners: &mut PendingOwnerLedger,
    worker_owner: &mut Option<PendingOwnerToken>,
) -> (result: Result<
    PendingHandoffCommit,
    (PendingError, SelectedPendingInstall, PendingOwnerToken),
>)
    ensures
        ({
            let install = selected@.install;
            let before = pending(*old(schedule), *old(wake), *old(owners), *old(worker_owner));
            let after = pending(
                *final(schedule),
                *final(wake),
                *final(owners),
                *final(worker_owner)
            );
            let refusal = handoff_refusal(before, install, installer@);
            match result {
                Ok(PendingHandoffCommit::Ready(receipt)) => {
                    &&& refusal is None
                    &&& !crate::enter::wake::needs_worker(before.wake, install)
                    &&& receipt@ == selected@
                    &&& after == handed_off(before, install)
                },
                Ok(PendingHandoffCommit::Queue(queue)) => {
                    &&& refusal is None
                    &&& crate::enter::wake::needs_worker(before.wake, install)
                    &&& queue@ == selected@
                    &&& after == handed_off(before, install)
                },
                Err((error, returned, token)) => {
                    &&& refusal == Some(error)
                    &&& returned == selected
                    &&& token == installer
                    &&& *final(schedule) == *old(schedule)
                    &&& *final(owners) == *old(owners)
                    &&& *final(worker_owner) == *old(worker_owner)
                },
            }
        }),
        *final(wake) == *old(wake),
{
    let install = selected.install;
    if installer.install() != install || installer.kind() != PendingOwnerKind::Installer {
        return Err((PendingError::WrongInstall, selected, installer));
    }
    if schedule.bound_install() != Some(install) || schedule.axis() != InstallAxis::Installing {
        return Err((PendingError::WrongRingState, selected, installer));
    }
    if schedule.state() != WorkerScheduleState::Idle {
        return Err((PendingError::WrongRingState, selected, installer));
    }
    if wake.brand() != install.brand || owners.brand() != install.brand {
        return Err((PendingError::WrongRing, selected, installer));
    }
    if owners.bound_install() != Some(install) {
        return Err((PendingError::WrongInstall, selected, installer));
    }
    if !owners.holds(PendingOwnerKind::Installer) {
        return Err((PendingError::WrongOwnerKind, selected, installer));
    }
    if worker_owner.is_some() || owners.holds(PendingOwnerKind::Worker) {
        return Err((PendingError::DuplicateOwner, selected, installer));
    }
    let needs_worker = wake.needs_worker(install);
    if needs_worker && owners.is_closing() {
        return Err((PendingError::Closing, selected, installer));
    }
    // Nothing below this line can be refused, which is what makes the
    // transition whole.
    let receipt = HandoffDoneReceipt { install, irp: selected.irp };
    let released = owners.release_owner(installer);
    assert(released is Ok);
    let moved = schedule.handoff_done(install);
    assert(moved is Ok);
    if !needs_worker {
        return Ok(PendingHandoffCommit::Ready(receipt));
    }
    match owners.acquire_owner(install, PendingOwnerKind::Worker) {
        Ok(token) => {
            *worker_owner = Some(token);
        },
        Err(_) => {
            assert(false);
        },
    }
    let _ = schedule.publish_queued(install);
    Ok(PendingHandoffCommit::Queue(PendingHandoffQueue { receipt }))
}

/// What a recorded wake led to.
#[must_use]
#[derive(Debug)]
pub enum PendingWakeOutcome {
    /// The reason is stored for a pass that another event queues or has queued.
    Stored,
    /// A pass is published and has to be queued.
    Queued(QueueWorkRight),
    /// The running pass is followed by another.
    Rescheduled,
}

/// The outcome of a recorded wake, without its obligation.
pub enum WakeOutcomeModel {
    Stored,
    Queued(PendingInstallId),
    Rescheduled,
}

impl View for PendingWakeOutcome {
    type V = WakeOutcomeModel;

    open spec fn view(&self) -> WakeOutcomeModel {
        match self {
            PendingWakeOutcome::Stored => WakeOutcomeModel::Stored,
            PendingWakeOutcome::Queued(right) => WakeOutcomeModel::Queued(right@),
            PendingWakeOutcome::Rescheduled => WakeOutcomeModel::Rescheduled,
        }
    }
}

/// Why a pass cannot be queued from idle, if it cannot.
pub open spec fn queue_refusal(state: PendingModel) -> Option<PendingError> {
    if state.worker is Some || state.owners.owners.contains(PendingOwnerKind::Worker) {
        Some(PendingError::DuplicateOwner)
    } else if state.owners.closing {
        Some(PendingError::Closing)
    } else {
        None
    }
}

/// Why a wake is refused, if it is.
pub open spec fn wake_refusal(
    state: PendingModel,
    install: PendingInstallId,
    reason: PendingReason,
) -> Option<PendingError> {
    if state.schedule.install != Some(install) || state.owners.install != Some(install) {
        Some(PendingError::WrongInstall)
    } else if state.wake.brand != install.brand {
        Some(PendingError::WrongRing)
    } else if state.schedule.state == WorkerScheduleState::Completing {
        Some(PendingError::Closing)
    } else if state.schedule.axis == InstallAxis::HandoffDone && state.schedule.state
        == WorkerScheduleState::Idle && queue_refusal(state) is Some {
        queue_refusal(state)
    } else {
        match crate::enter::wake::recorded(state.wake, install, reason) {
            Ok(_) => None,
            Err(error) => Some(error),
        }
    }
}

/// The request once `reason` is recorded and at most one pass is scheduled.
pub open spec fn woken(state: PendingModel, install: PendingInstallId, reason: PendingReason) -> (
    PendingModel,
    WakeOutcomeModel,
) {
    let stored = PendingModel {
        wake: crate::enter::wake::recorded(state.wake, install, reason)->Ok_0,
        ..state
    };
    if state.schedule.axis != InstallAxis::HandoffDone {
        (stored, WakeOutcomeModel::Stored)
    } else {
        match state.schedule.state {
            WorkerScheduleState::Idle => (
                with_queued_pass(stored, install),
                WakeOutcomeModel::Queued(install),
            ),
            WorkerScheduleState::Running | WorkerScheduleState::RunningReschedule => (
                PendingModel {
                    schedule: ScheduleModel {
                        state: WorkerScheduleState::RunningReschedule,
                        ..state.schedule
                    },
                    ..stored
                },
                WakeOutcomeModel::Rescheduled,
            ),
            _ => (stored, WakeOutcomeModel::Stored),
        }
    }
}

/// Coalesce one wake and schedule at most one worker pass, or refuse having
/// changed nothing.
pub fn record_and_schedule_pending(
    install: PendingInstallId,
    reason: PendingReason,
    schedule: &mut PendingWorkerSchedule,
    wake: &mut PendingWakeSlot,
    owners: &mut PendingOwnerLedger,
    worker_owner: &mut Option<PendingOwnerToken>,
) -> (result: Result<PendingWakeOutcome, PendingError>)
    ensures
        ({
            let before = pending(*old(schedule), *old(wake), *old(owners), *old(worker_owner));
            let after = pending(
                *final(schedule),
                *final(wake),
                *final(owners),
                *final(worker_owner)
            );
            match result {
                Ok(outcome) => {
                    &&& wake_refusal(before, install, reason) is None
                    &&& (after, outcome@) == woken(before, install, reason)
                },
                Err(error) => {
                    &&& wake_refusal(before, install, reason) == Some(error)
                    &&& *final(schedule) == *old(schedule)
                    &&& *final(wake) == *old(wake)
                    &&& *final(owners) == *old(owners)
                    &&& *final(worker_owner) == *old(worker_owner)
                },
            }
        }),
{
    if schedule.bound_install() != Some(install) || owners.bound_install() != Some(install) {
        return Err(PendingError::WrongInstall);
    }
    if wake.brand() != install.brand {
        return Err(PendingError::WrongRing);
    }
    if schedule.state() == WorkerScheduleState::Completing {
        return Err(PendingError::Closing);
    }
    let will_queue = schedule.axis() == InstallAxis::HandoffDone && schedule.state()
        == WorkerScheduleState::Idle;
    if will_queue {
        if worker_owner.is_some() || owners.holds(PendingOwnerKind::Worker) {
            return Err(PendingError::DuplicateOwner);
        }
        if owners.is_closing() {
            return Err(PendingError::Closing);
        }
    }
    match wake.record_wake(install, reason) {
        Ok(()) => {},
        Err(error) => {
            return Err(error);
        },
    }
    if schedule.axis() != InstallAxis::HandoffDone {
        return Ok(PendingWakeOutcome::Stored);
    }
    if will_queue {
        match owners.acquire_owner(install, PendingOwnerKind::Worker) {
            Ok(token) => {
                *worker_owner = Some(token);
            },
            Err(_) => {
                assert(false);
            },
        }
        return Ok(PendingWakeOutcome::Queued(schedule.publish_queued(install)));
    }
    let running = schedule.state() != WorkerScheduleState::Queued;
    let asked = schedule.queue_worker(install);
    assert(asked is Ok);
    if running {
        Ok(PendingWakeOutcome::Rescheduled)
    } else {
        Ok(PendingWakeOutcome::Stored)
    }
}

/// Why a stored wake's pass cannot be asked about, or cannot be queued, if so.
pub open spec fn stored_wake_refusal(state: PendingModel, install: PendingInstallId) -> Option<
    PendingError,
> {
    if state.schedule.install != Some(install) || state.owners.install != Some(install) {
        Some(PendingError::WrongInstall)
    } else if state.wake.brand != install.brand {
        Some(PendingError::WrongRing)
    } else if stored_wake_owed(state, install) {
        queue_refusal(state)
    } else {
        None
    }
}

/// A stored wake is owed a pass that no queued or running pass covers.
pub open spec fn stored_wake_owed(state: PendingModel, install: PendingInstallId) -> bool {
    &&& state.schedule.axis == InstallAxis::HandoffDone
    &&& state.schedule.state == WorkerScheduleState::Idle
    &&& crate::enter::wake::needs_worker(state.wake, install)
}

/// Queue the pass a stored wake is still owed, now that it can be acted on.
pub fn schedule_stored_wake(
    install: PendingInstallId,
    schedule: &mut PendingWorkerSchedule,
    wake: &PendingWakeSlot,
    owners: &mut PendingOwnerLedger,
    worker_owner: &mut Option<PendingOwnerToken>,
) -> (result: Result<Option<QueueWorkRight>, PendingError>)
    ensures
        ({
            let before = pending(*old(schedule), *wake, *old(owners), *old(worker_owner));
            let after = pending(*final(schedule), *wake, *final(owners), *final(worker_owner));
            match result {
                Ok(Some(right)) => {
                    &&& stored_wake_refusal(before, install) is None
                    &&& stored_wake_owed(before, install)
                    &&& right@ == install
                    &&& after == with_queued_pass(before, install)
                },
                Ok(None) => {
                    &&& stored_wake_refusal(before, install) is None
                    &&& !stored_wake_owed(before, install)
                    &&& *final(schedule) == *old(schedule)
                    &&& *final(owners) == *old(owners)
                    &&& *final(worker_owner) == *old(worker_owner)
                },
                Err(error) => {
                    &&& stored_wake_refusal(before, install) == Some(error)
                    &&& *final(schedule) == *old(schedule)
                    &&& *final(owners) == *old(owners)
                    &&& *final(worker_owner) == *old(worker_owner)
                },
            }
        }),
{
    if schedule.bound_install() != Some(install) || owners.bound_install() != Some(install) {
        return Err(PendingError::WrongInstall);
    }
    if wake.brand() != install.brand {
        return Err(PendingError::WrongRing);
    }
    if schedule.axis() != InstallAxis::HandoffDone || schedule.state()
        != WorkerScheduleState::Idle {
        return Ok(None);
    }
    if !wake.needs_worker(install) {
        return Ok(None);
    }
    if worker_owner.is_some() || owners.holds(PendingOwnerKind::Worker) {
        return Err(PendingError::DuplicateOwner);
    }
    if owners.is_closing() {
        return Err(PendingError::Closing);
    }
    match owners.acquire_owner(install, PendingOwnerKind::Worker) {
        Ok(token) => {
            *worker_owner = Some(token);
        },
        Err(_) => {
            assert(false);
        },
    }
    Ok(Some(schedule.publish_queued(install)))
}

/// Why the queued pass cannot begin, if it cannot.
pub open spec fn pass_refusal(
    schedule: ScheduleModel,
    wake: WakeModel,
    worker: Option<TokenModel>,
    install: PendingInstallId,
) -> Option<PendingError> {
    match worker {
        None => Some(PendingError::WrongOwnerKind),
        Some(token) => if schedule.install != Some(install) || token.install != install {
            Some(PendingError::WrongInstall)
        } else if token.kind != PendingOwnerKind::Worker {
            Some(PendingError::WrongOwnerKind)
        } else if schedule.state != WorkerScheduleState::Queued {
            Some(PendingError::WrongRingState)
        } else if wake.brand != install.brand {
            Some(PendingError::WrongRing)
        } else if wake.stored is None {
            Some(PendingError::NotDequeued)
        } else if wake.stored->0.install != install {
            Some(PendingError::WrongInstall)
        } else {
            None
        },
    }
}

/// The schedule while a pass runs.
pub open spec fn running(schedule: ScheduleModel) -> ScheduleModel {
    ScheduleModel { state: WorkerScheduleState::Running, ..schedule }
}

/// Begin one worker pass and learn the reason it acts on, or refuse having
/// changed nothing. The pass takes every stored reason, and the ring keeps the
/// worker's token.
pub fn begin_native_worker_pass(
    install: PendingInstallId,
    schedule: &mut PendingWorkerSchedule,
    wake: &mut PendingWakeSlot,
    worker_owner: &mut Option<PendingOwnerToken>,
) -> (result: Result<PendingReason, PendingError>)
    ensures
        ({
            let refusal = pass_refusal(
                old(schedule)@,
                old(wake)@,
                kept(*old(worker_owner)),
                install,
            );
            match result {
                Ok(reason) => {
                    &&& refusal is None
                    &&& crate::enter::wake::most_urgent(old(wake)@.stored->0.reasons, reason)
                    &&& final(schedule)@ == running(old(schedule)@)
                    &&& final(wake)@ == crate::enter::wake::taken(old(wake)@)
                },
                Err(error) => {
                    &&& refusal == Some(error)
                    &&& *final(schedule) == *old(schedule)
                    &&& *final(wake) == *old(wake)
                },
            }
        }),
        *final(worker_owner) == *old(worker_owner),
{
    match worker_owner {
        None => {
            return Err(PendingError::WrongOwnerKind);
        },
        Some(token) => {
            if schedule.bound_install() != Some(install) || token.install() != install {
                return Err(PendingError::WrongInstall);
            }
            if token.kind() != PendingOwnerKind::Worker {
                return Err(PendingError::WrongOwnerKind);
            }
        },
    }
    if schedule.state() != WorkerScheduleState::Queued {
        return Err(PendingError::WrongRingState);
    }
    if wake.brand() != install.brand {
        return Err(PendingError::WrongRing);
    }
    // Every check precedes the take, which empties the slot: a refusal after it
    // would lose the reasons the pass was scheduled for.
    let decision = match wake.take_for_worker(install) {
        Ok(decision) => decision,
        Err(error) => {
            return Err(error);
        },
    };
    let reason = decision.reason();
    let batch = decision.into_batch();
    match worker_owner.take() {
        None => {
            assert(false);
            Err(PendingError::WrongOwnerKind)
        },
        Some(token) => match schedule.begin_worker_pass(token, batch) {
            Ok((token, _)) => {
                *worker_owner = Some(token);
                Ok(reason)
            },
            Err((error, token, _)) => {
                assert(false);
                *worker_owner = Some(token);
                Err(error)
            },
        },
    }
}

/// Why a running pass cannot finish, if it cannot; the ledger may also refuse
/// the worker's token ([`crate::enter::ownership::release_refusal`]).
pub open spec fn finish_refusal(schedule: ScheduleModel, worker: Option<TokenModel>) -> Option<
    PendingError,
> {
    match worker {
        None => Some(PendingError::WrongOwnerKind),
        Some(token) => crate::enter::schedule::worker_refusal(
            schedule,
            token,
            schedule.state == WorkerScheduleState::Running || schedule.state
                == WorkerScheduleState::RunningReschedule,
        ),
    }
}

/// Finish one worker pass that completed nothing.
///
/// A pass that was asked to reschedule becomes the next queued pass, which
/// inherits the worker's token. Otherwise the schedule is idle and the token
/// goes back to the ledger: a token kept with no pass to use it would refuse
/// every later wake. If the ledger refuses it, the pass is over all the same: the
/// schedule is idle, and the ring keeps the token.
pub fn finish_native_worker_pass(
    schedule: &mut PendingWorkerSchedule,
    owners: &mut PendingOwnerLedger,
    worker_owner: &mut Option<PendingOwnerToken>,
) -> (result: Result<Option<QueueWorkRight>, PendingError>)
    ensures
        ({
            let worker = kept(*old(worker_owner));
            let refusal = finish_refusal(old(schedule)@, worker);
            let reschedule = old(schedule)@.state == WorkerScheduleState::RunningReschedule;
            let ledger_refusal = crate::enter::ownership::release_refusal(old(owners)@, worker->0);
            match result {
                Ok(Some(right)) => {
                    &&& refusal is None
                    &&& reschedule
                    &&& right@ == worker->0.install
                    &&& final(schedule)@ == (ScheduleModel {
                        state: WorkerScheduleState::Queued,
                        ..old(schedule)@
                    })
                    &&& *final(owners) == *old(owners)
                    &&& *final(worker_owner) == *old(worker_owner)
                },
                Ok(None) => {
                    &&& refusal is None
                    &&& !reschedule
                    &&& ledger_refusal is None
                    &&& final(schedule)@ == (ScheduleModel {
                        state: WorkerScheduleState::Idle,
                        ..old(schedule)@
                    })
                    &&& final(owners)@ == (LedgerModel {
                        owners: old(owners)@.owners.remove(PendingOwnerKind::Worker),
                        ..old(owners)@
                    })
                    &&& *final(worker_owner) is None
                },
                Err(error) => {
                    &&& *final(owners) == *old(owners)
                    &&& *final(worker_owner) == *old(worker_owner)
                    &&& if refusal is Some {
                        refusal == Some(error) && *final(schedule) == *old(schedule)
                    } else {
                        &&& !reschedule
                        &&& ledger_refusal == Some(error)
                        &&& final(schedule)@ == (ScheduleModel {
                            state: WorkerScheduleState::Idle,
                            ..old(schedule)@
                        })
                    }
                },
            }
        }),
{
    match worker_owner.take() {
        None => Err(PendingError::WrongOwnerKind),
        Some(token) => match schedule.finish_worker_pass(token) {
            Ok((token, Some(right))) => {
                *worker_owner = Some(token);
                Ok(Some(right))
            },
            Ok((token, None)) => match owners.release_owner(token) {
                Ok(()) => Ok(None),
                Err((error, token)) => {
                    *worker_owner = Some(token);
                    Err(error)
                },
            },
            Err((error, token)) => {
                *worker_owner = Some(token);
                Err(error)
            },
        },
    }
}

/// The parts of a parked request agree: the schedule and the ledger are bound to
/// one install, and a pass is queued or running exactly when the worker's token
/// is held, by the ring and by the ledger alike. Before the handoff there is no
/// pass.
pub open spec fn in_step(state: PendingModel) -> bool {
    &&& state.schedule.install == state.owners.install
    &&& state.worker is Some <==> state.owners.owners.contains(PendingOwnerKind::Worker)
    &&& state.worker is Some <==> state.schedule.state != WorkerScheduleState::Idle
    &&& state.schedule.state != WorkerScheduleState::Completing
    &&& state.schedule.axis == InstallAxis::Installing ==> state.schedule.state
        == WorkerScheduleState::Idle
    &&& state.worker matches Some(token) ==> token.kind == PendingOwnerKind::Worker
        && state.schedule.install == Some(token.install)
}

/// The parts are in step before an install, and once one is bound to the schedule
/// and the ledger alike.
pub proof fn law_bound_install_is_in_step(state: PendingModel, install: PendingInstallId)
    requires
        state.schedule.install is None,
        state.schedule.state == WorkerScheduleState::Idle,
        state.owners.install is None,
        state.owners.owners == Set::<PendingOwnerKind>::empty(),
        state.worker is None,
    ensures
        in_step(state),
        in_step(
            PendingModel {
                schedule: ScheduleModel { install: Some(install), ..state.schedule },
                owners: LedgerModel { install: Some(install), ..state.owners },
                ..state
            },
        ),
{
}

/// A handoff keeps the parts in step, and a wake stored before it is owed a pass
/// that is queued at once.
pub proof fn law_handoff_keeps_in_step(
    state: PendingModel,
    install: PendingInstallId,
    installer: TokenModel,
)
    requires
        in_step(state),
        handoff_refusal(state, install, installer) is None,
    ensures
        in_step(handed_off(state, install)),
        !stored_wake_owed(handed_off(state, install), install),
        handed_off(state, install).wake == state.wake,
{
}

/// A recorded wake keeps the parts in step, its reason is stored, and after the
/// handoff a queued or running pass is due to take it.
pub proof fn law_wake_keeps_in_step(
    state: PendingModel,
    install: PendingInstallId,
    reason: PendingReason,
)
    requires
        in_step(state),
        wake_refusal(state, install, reason) is None,
    ensures
        ({
            let (after, outcome) = woken(state, install, reason);
            &&& in_step(after)
            &&& after.wake.stored is Some
            &&& after.wake.stored->0.install == install
            &&& after.wake.stored->0.reasons.contains(reason)
            &&& state.schedule.axis == InstallAxis::HandoffDone ==> after.schedule.state
                == WorkerScheduleState::Queued || after.schedule.state
                == WorkerScheduleState::RunningReschedule
            &&& !stored_wake_owed(after, install)
        }),
{
}

/// While the parts are in step, an open ledger's own install and ring are never
/// refused a wake.
pub proof fn law_wake_in_step_is_recorded(
    state: PendingModel,
    install: PendingInstallId,
    reason: PendingReason,
)
    requires
        in_step(state),
        state.schedule.install == Some(install),
        state.wake.brand == install.brand,
        state.wake.stored is Some ==> state.wake.stored->0.install == install,
        !state.owners.closing,
    ensures
        wake_refusal(state, install, reason) is None,
{
}

/// Queueing the pass that a stored wake is owed keeps the parts in step, and
/// nothing is owed after it.
pub proof fn law_stored_wake_keeps_in_step(state: PendingModel, install: PendingInstallId)
    requires
        in_step(state),
        stored_wake_refusal(state, install) is None,
        stored_wake_owed(state, install),
    ensures
        in_step(with_queued_pass(state, install)),
        !stored_wake_owed(with_queued_pass(state, install), install),
{
}

/// Beginning a pass keeps the parts in step and leaves no stored wake behind.
pub proof fn law_begun_pass_keeps_in_step(state: PendingModel, install: PendingInstallId)
    requires
        in_step(state),
        pass_refusal(state.schedule, state.wake, state.worker, install) is None,
    ensures
        ({
            let after = PendingModel {
                schedule: running(state.schedule),
                wake: crate::enter::wake::taken(state.wake),
                ..state
            };
            in_step(after) && after.wake.stored is None
        }),
{
}

/// Finishing a pass keeps the parts in step: either the token goes back and the
/// schedule is idle, or the next pass is queued and inherits it. In step, the
/// ledger never refuses the token.
pub proof fn law_finished_pass_keeps_in_step(state: PendingModel)
    requires
        in_step(state),
        finish_refusal(state.schedule, state.worker) is None,
    ensures
        ({
            let after = if state.schedule.state == WorkerScheduleState::RunningReschedule {
                PendingModel {
                    schedule: ScheduleModel {
                        state: WorkerScheduleState::Queued,
                        ..state.schedule
                    },
                    ..state
                }
            } else {
                PendingModel {
                    schedule: ScheduleModel { state: WorkerScheduleState::Idle, ..state.schedule },
                    owners: LedgerModel {
                        owners: state.owners.owners.remove(PendingOwnerKind::Worker),
                        ..state.owners
                    },
                    worker: None,
                    ..state
                }
            };
            &&& in_step(after)
            &&& crate::enter::ownership::release_refusal(state.owners, state.worker->0) is None
        }),
{
}

/// A handoff goes through exactly with the installer's token of this install, on a
/// schedule that is installing it and idle, on this ring, with the installer still
/// held and no worker anywhere, and, if a wake is stored for the install, with the
/// ledger not closing.
pub proof fn law_handoff_is_admitted_exactly(
    state: PendingModel,
    install: PendingInstallId,
    installer: TokenModel,
)
    ensures
        handoff_refusal(state, install, installer) is None <==> {
            &&& installer.install == install
            &&& installer.kind == PendingOwnerKind::Installer
            &&& state.schedule.install == Some(install)
            &&& state.schedule.axis == InstallAxis::Installing
            &&& state.schedule.state == WorkerScheduleState::Idle
            &&& state.wake.brand == install.brand
            &&& state.owners.brand == install.brand
            &&& state.owners.install == Some(install)
            &&& state.owners.owners.contains(PendingOwnerKind::Installer)
            &&& !state.owners.owners.contains(PendingOwnerKind::Worker)
            &&& state.worker is None
            &&& (state.wake.stored matches Some(stored) && stored.install == install)
                ==> !state.owners.closing
        },
{
}

/// Why a handoff is refused, first fault first: a token that is not the installer's
/// of this install; a schedule that is not installing it, or not idle; another
/// ring; another install in the ledger; an installer given back already; a worker
/// that is there already; and a close while a wake waits.
pub proof fn law_handoff_is_refused_in_order(
    state: PendingModel,
    install: PendingInstallId,
    installer: TokenModel,
)
    ensures
        ({
            let refusal = handoff_refusal(state, install, installer);
            let own = installer.install == install && installer.kind
                == PendingOwnerKind::Installer;
            let installing = state.schedule.install == Some(install) && state.schedule.axis
                == InstallAxis::Installing && state.schedule.state == WorkerScheduleState::Idle;
            let on_ring = state.wake.brand == install.brand && state.owners.brand == install.brand;
            let bound = state.owners.install == Some(install);
            let held = state.owners.owners.contains(PendingOwnerKind::Installer);
            let alone = state.worker is None && !state.owners.owners.contains(
                PendingOwnerKind::Worker,
            );
            &&& !own ==> refusal == Some(PendingError::WrongInstall)
            &&& own && !installing ==> refusal == Some(PendingError::WrongRingState)
            &&& own && installing && !on_ring ==> refusal == Some(PendingError::WrongRing)
            &&& own && installing && on_ring && !bound ==> refusal == Some(
                PendingError::WrongInstall,
            )
            &&& own && installing && on_ring && bound && !held ==> refusal == Some(
                PendingError::WrongOwnerKind,
            )
            &&& own && installing && on_ring && bound && held && !alone ==> refusal == Some(
                PendingError::DuplicateOwner,
            )
            &&& own && installing && on_ring && bound && held && alone && refusal is Some
                ==> refusal == Some(PendingError::Closing)
        }),
{
}

/// A handoff gives the installer back and marks itself done, and queues a pass with
/// a worker's token exactly if a wake is stored for the install. Nothing else
/// moves.
pub proof fn law_handoff_moves_nothing_else(state: PendingModel, install: PendingInstallId)
    ensures
        ({
            let after = handed_off(state, install);
            let waits = state.wake.stored matches Some(stored) && stored.install == install;
            &&& after.wake == state.wake
            &&& after.schedule.brand == state.schedule.brand
            &&& after.schedule.install == state.schedule.install
            &&& after.schedule.axis == InstallAxis::HandoffDone
            &&& waits ==> after.schedule.state == WorkerScheduleState::Queued
            &&& !waits ==> after.schedule.state == state.schedule.state
            &&& after.owners.brand == state.owners.brand
            &&& after.owners.install == state.owners.install
            &&& after.owners.closing == state.owners.closing
            &&& !after.owners.owners.contains(PendingOwnerKind::Installer)
            &&& after.owners.owners.contains(PendingOwnerKind::Worker) <==> waits
                || state.owners.owners.contains(PendingOwnerKind::Worker)
            &&& after.owners.owners.contains(PendingOwnerKind::Dpc)
                <==> state.owners.owners.contains(PendingOwnerKind::Dpc)
            &&& after.owners.owners.contains(PendingOwnerKind::Cancel)
                <==> state.owners.owners.contains(PendingOwnerKind::Cancel)
            &&& waits ==> after.worker == Some(
                TokenModel { install, kind: PendingOwnerKind::Worker },
            )
            &&& !waits ==> after.worker == state.worker
        }),
{
}

/// Why a wake is refused, first fault first: another install; another ring; a
/// request that is completing; a pass that it would queue and cannot, because a
/// worker is there or the ledger is closing; and a wake stored for another install.
/// Every other wake is recorded.
pub proof fn law_wake_is_refused_in_order(
    state: PendingModel,
    install: PendingInstallId,
    reason: PendingReason,
)
    ensures
        ({
            let refusal = wake_refusal(state, install, reason);
            let bound = state.schedule.install == Some(install) && state.owners.install == Some(
                install,
            );
            let on_ring = state.wake.brand == install.brand;
            let completing = state.schedule.state == WorkerScheduleState::Completing;
            let queues = state.schedule.axis == InstallAxis::HandoffDone && state.schedule.state
                == WorkerScheduleState::Idle;
            let worker = state.worker is Some || state.owners.owners.contains(
                PendingOwnerKind::Worker,
            );
            let stale = state.wake.stored matches Some(stored) && stored.install != install;
            &&& !bound ==> refusal == Some(PendingError::WrongInstall)
            &&& bound && !on_ring ==> refusal == Some(PendingError::WrongRing)
            &&& bound && on_ring && completing ==> refusal == Some(PendingError::Closing)
            &&& bound && on_ring && !completing && queues && worker ==> refusal == Some(
                PendingError::DuplicateOwner,
            )
            &&& bound && on_ring && !completing && queues && !worker && state.owners.closing
                ==> refusal == Some(PendingError::Closing)
            &&& bound && on_ring && !completing && !(queues && (worker || state.owners.closing))
                ==> refusal == (if stale {
                Some(PendingError::WrongInstall)
            } else {
                None
            })
        }),
{
}

/// What a recorded wake does: before the handoff it is only stored; after it an
/// idle ring gets a queued pass and its worker's token, a running pass is told to
/// run again, and a queued one is left as it is. The wake keeps every reason it
/// had and gains this one.
pub proof fn law_wake_does_exactly_this(
    state: PendingModel,
    install: PendingInstallId,
    reason: PendingReason,
)
    requires
        wake_refusal(state, install, reason) is None,
    ensures
        ({
            let (after, outcome) = woken(state, install, reason);
            let done = state.schedule.axis == InstallAxis::HandoffDone;
            let idle = state.schedule.state == WorkerScheduleState::Idle;
            let runs = state.schedule.state == WorkerScheduleState::Running || state.schedule.state
                == WorkerScheduleState::RunningReschedule;
            &&& outcome is Queued <==> done && idle
            &&& outcome is Rescheduled <==> done && runs
            &&& outcome is Stored <==> !done || !(idle || runs)
            &&& outcome matches WakeOutcomeModel::Queued(queued) ==> queued == install
            &&& after.schedule == (ScheduleModel {
                state: if done && idle {
                    WorkerScheduleState::Queued
                } else if done && runs {
                    WorkerScheduleState::RunningReschedule
                } else {
                    state.schedule.state
                },
                ..state.schedule
            })
            &&& after.worker == if done && idle {
                Some(TokenModel { install, kind: PendingOwnerKind::Worker })
            } else {
                state.worker
            }
            &&& after.owners.brand == state.owners.brand
            &&& after.owners.install == state.owners.install
            &&& after.owners.closing == state.owners.closing
            &&& forall|kind: PendingOwnerKind| #[trigger]
                after.owners.owners.contains(kind) <==> state.owners.owners.contains(kind) || (done
                    && idle && kind == PendingOwnerKind::Worker)
            &&& after.wake.brand == state.wake.brand
            &&& after.wake.stored matches Some(stored)
            &&& stored.install == install
            &&& forall|other: PendingReason| #[trigger]
                stored.reasons.contains(other) <==> other == reason || (
                state.wake.stored matches Some(had) && had.reasons.contains(other))
        }),
{
}

/// A stored wake is owed a pass exactly after the handoff, on an idle ring, for
/// its own install. It is refused for another install, another ring, a worker that
/// is there already, or a close, and for nothing where no pass is owed.
pub proof fn law_stored_wake_is_owed_exactly(state: PendingModel, install: PendingInstallId)
    ensures
        ({
            let refusal = stored_wake_refusal(state, install);
            let owed = state.schedule.axis == InstallAxis::HandoffDone && state.schedule.state
                == WorkerScheduleState::Idle && (state.wake.stored matches Some(stored)
                && stored.install == install);
            let bound = state.schedule.install == Some(install) && state.owners.install == Some(
                install,
            );
            let on_ring = state.wake.brand == install.brand;
            let worker = state.worker is Some || state.owners.owners.contains(
                PendingOwnerKind::Worker,
            );
            &&& stored_wake_owed(state, install) <==> owed
            &&& refusal == Some(PendingError::WrongInstall) <==> !bound
            &&& refusal == Some(PendingError::WrongRing) <==> bound && !on_ring
            &&& refusal == Some(PendingError::DuplicateOwner) <==> bound && on_ring && owed
                && worker
            &&& refusal == Some(PendingError::Closing) <==> bound && on_ring && owed && !worker
                && state.owners.closing
            &&& refusal is None <==> bound && on_ring && !(owed && (worker
                || state.owners.closing))
        }),
{
}

/// A queued pass takes the worker's token from the ledger for this install and
/// moves nothing else.
pub proof fn law_queued_pass_moves_nothing_else(state: PendingModel, install: PendingInstallId)
    ensures
        ({
            let after = with_queued_pass(state, install);
            &&& after.wake == state.wake
            &&& after.schedule.state == WorkerScheduleState::Queued
            &&& after.schedule.axis == state.schedule.axis
            &&& after.schedule.install == state.schedule.install
            &&& after.schedule.brand == state.schedule.brand
            &&& after.worker == Some(TokenModel { install, kind: PendingOwnerKind::Worker })
            &&& after.owners.brand == state.owners.brand
            &&& after.owners.install == state.owners.install
            &&& after.owners.closing == state.owners.closing
            &&& forall|kind: PendingOwnerKind| #[trigger]
                after.owners.owners.contains(kind) <==> state.owners.owners.contains(kind) || kind
                    == PendingOwnerKind::Worker
        }),
{
}

/// A pass begins exactly with the worker's token of this install, on the schedule
/// of this install, queued, with a wake of this install stored on this ring.
pub proof fn law_pass_begins_exactly(
    schedule: ScheduleModel,
    wake: WakeModel,
    worker: Option<TokenModel>,
    install: PendingInstallId,
)
    ensures
        pass_refusal(schedule, wake, worker, install) is None <==> {
            &&& worker == Some(TokenModel { install, kind: PendingOwnerKind::Worker })
            &&& schedule.install == Some(install)
            &&& schedule.state == WorkerScheduleState::Queued
            &&& wake.brand == install.brand
            &&& wake.stored is Some
            &&& wake.stored->0.install == install
        },
        running(schedule).state == WorkerScheduleState::Running,
        running(schedule).axis == schedule.axis,
        running(schedule).install == schedule.install,
        running(schedule).brand == schedule.brand,
{
}

/// Why a pass does not begin, first fault first: no token; another install; a token
/// of another kind; a schedule that is not queued; another ring; no wake; and a
/// wake of another install.
pub proof fn law_pass_is_refused_in_order(
    schedule: ScheduleModel,
    wake: WakeModel,
    token: TokenModel,
    install: PendingInstallId,
)
    ensures
        ({
            let refusal = pass_refusal(schedule, wake, Some(token), install);
            let bound = schedule.install == Some(install) && token.install == install;
            let worker = token.kind == PendingOwnerKind::Worker;
            let queued = schedule.state == WorkerScheduleState::Queued;
            let on_ring = wake.brand == install.brand;
            &&& pass_refusal(schedule, wake, None, install) == Some(PendingError::WrongOwnerKind)
            &&& !bound ==> refusal == Some(PendingError::WrongInstall)
            &&& bound && !worker ==> refusal == Some(PendingError::WrongOwnerKind)
            &&& bound && worker && !queued ==> refusal == Some(PendingError::WrongRingState)
            &&& bound && worker && queued && !on_ring ==> refusal == Some(PendingError::WrongRing)
            &&& bound && worker && queued && on_ring && wake.stored is None ==> refusal == Some(
                PendingError::NotDequeued,
            )
            &&& bound && worker && queued && on_ring && wake.stored is Some
                && wake.stored->0.install != install ==> refusal == Some(PendingError::WrongInstall)
        }),
{
}

/// A pass finishes exactly with the worker's token of the bound install while one
/// is running, told to run again or not. The faults go in this order: no token,
/// another install, a token of another kind, no running pass.
pub proof fn law_pass_finishes_exactly(schedule: ScheduleModel, token: TokenModel)
    ensures
        ({
            let refusal = finish_refusal(schedule, Some(token));
            let bound = schedule.install == Some(token.install);
            let worker = token.kind == PendingOwnerKind::Worker;
            let runs = schedule.state == WorkerScheduleState::Running || schedule.state
                == WorkerScheduleState::RunningReschedule;
            &&& finish_refusal(schedule, None) == Some(PendingError::WrongOwnerKind)
            &&& refusal is None <==> bound && worker && runs
            &&& refusal == Some(PendingError::WrongInstall) <==> !bound
            &&& refusal == Some(PendingError::WrongOwnerKind) <==> bound && !worker
            &&& refusal == Some(PendingError::WrongRingState) <==> bound && worker && !runs
        }),
{
}

/// A handoff that goes through gives the installer back, marks the handoff done, and
/// is to be queued exactly if a wake waits for the install; then the ring holds a
/// worker's token and a queued pass. Its receipt names the install and the packet
/// that were selected. One that is refused hands everything back as it was.
pub proof fn law_handoff_queues_exactly_what_waits(
    selected: SelectedPendingInstall,
    installer: PendingOwnerToken,
    schedule: &mut PendingWorkerSchedule,
    wake: &mut PendingWakeSlot,
    owners: &mut PendingOwnerLedger,
    worker: &mut Option<PendingOwnerToken>,
    result: Result<
        PendingHandoffCommit,
        (PendingError, SelectedPendingInstall, PendingOwnerToken),
    >,
)
    requires
        call_ensures(
            commit_pending_handoff,
            (selected, installer, schedule, wake, owners, worker),
            result,
        ),
    ensures
        ({
            let install = selected@.install;
            let waits = old(wake)@.stored is Some && old(wake)@.stored->0.install == install;
            &&& final(wake)@ == old(wake)@
            &&& result matches Ok(commit) ==> {
                &&& installer@.install == install
                &&& installer@.kind == PendingOwnerKind::Installer
                &&& commit is Queue <==> waits
                &&& commit matches PendingHandoffCommit::Ready(receipt) ==> receipt@ == selected@
                &&& commit matches PendingHandoffCommit::Queue(queue) ==> queue@ == selected@
                &&& final(schedule)@ == (ScheduleModel {
                    axis: InstallAxis::HandoffDone,
                    state: if waits {
                        WorkerScheduleState::Queued
                    } else {
                        WorkerScheduleState::Idle
                    },
                    ..old(schedule)@
                })
                &&& !final(owners)@.owners.contains(PendingOwnerKind::Installer)
                &&& final(owners)@.owners.contains(PendingOwnerKind::Worker) <==> waits
                &&& final(owners)@.owners.contains(PendingOwnerKind::Dpc) <==> old(owners)@.owners.contains(PendingOwnerKind::Dpc)
                &&& final(owners)@.owners.contains(PendingOwnerKind::Cancel) <==> old(owners)@.owners.contains(PendingOwnerKind::Cancel)
                &&& final(owners)@.install == old(owners)@.install
                &&& final(owners)@.closing == old(owners)@.closing
                &&& waits ==> (*final(worker) matches Some(token) && token@.install == install
                    && token@.kind == PendingOwnerKind::Worker)
                &&& !waits ==> *final(worker) is None
            }
            &&& result matches Err((_, returned, token)) ==> {
                &&& returned == selected
                &&& token == installer
                &&& final(schedule)@ == old(schedule)@
                &&& final(owners)@ == old(owners)@
                &&& *final(worker) == *old(worker)
            }
        }),
{
    let before = pending(*old(schedule), *old(wake), *old(owners), *old(worker));
    let install = selected@.install;
    law_handoff_is_admitted_exactly(before, install, installer@);
    law_handoff_moves_nothing_else(before, install);
}

/// A wake that is recorded comes to one of three things: before the handoff, or
/// with a pass queued already, it is stored; on an idle ring it queues a pass with a
/// right to queue it; a running pass it makes run again. A refused one changes
/// nothing.
pub proof fn law_recorded_wake_comes_to_one_thing(
    install: PendingInstallId,
    reason: PendingReason,
    schedule: &mut PendingWorkerSchedule,
    wake: &mut PendingWakeSlot,
    owners: &mut PendingOwnerLedger,
    worker: &mut Option<PendingOwnerToken>,
    result: Result<PendingWakeOutcome, PendingError>,
)
    requires
        call_ensures(
            record_and_schedule_pending,
            (install, reason, schedule, wake, owners, worker),
            result,
        ),
    ensures
        ({
            let done = old(schedule)@.axis == InstallAxis::HandoffDone;
            let idle = old(schedule)@.state == WorkerScheduleState::Idle;
            let runs = old(schedule)@.state == WorkerScheduleState::Running || old(schedule)@.state
                == WorkerScheduleState::RunningReschedule;
            &&& result matches Ok(outcome) ==> {
                &&& old(schedule)@.install == Some(install)
                &&& old(owners)@.install == Some(install)
                &&& outcome is Queued <==> done && idle
                &&& outcome is Rescheduled <==> done && runs
                &&& outcome is Stored <==> !done || !(idle || runs)
                &&& outcome matches PendingWakeOutcome::Queued(right) ==> right@ == install
                &&& final(wake)@.stored is Some
                &&& final(wake)@.stored->0.install == install
                &&& final(wake)@.stored->0.reasons.contains(reason)
                &&& final(wake)@.brand == old(wake)@.brand
                &&& final(schedule)@ == (ScheduleModel {
                    state: if done && idle {
                        WorkerScheduleState::Queued
                    } else if done && runs {
                        WorkerScheduleState::RunningReschedule
                    } else {
                        old(schedule)@.state
                    },
                    ..old(schedule)@
                })
                &&& done && idle ==> (*final(worker) matches Some(token) && token@.install
                    == install && token@.kind == PendingOwnerKind::Worker)
                &&& !(done && idle) ==> kept(*final(worker)) == kept(*old(worker))
            }
            &&& result is Err ==> {
                &&& final(schedule)@ == old(schedule)@
                &&& final(wake)@ == old(wake)@
                &&& final(owners)@ == old(owners)@
                &&& *final(worker) == *old(worker)
            }
        }),
{
    let before = pending(*old(schedule), *old(wake), *old(owners), *old(worker));
    law_wake_is_refused_in_order(before, install, reason);
    if result is Ok {
        law_wake_does_exactly_this(before, install, reason);
    }
}

/// A stored wake is scheduled exactly on an idle ring after the handoff, for the
/// install it is stored for, and then a pass is queued with its worker's token.
/// Otherwise nothing changes.
pub proof fn law_stored_wake_is_scheduled_once(
    install: PendingInstallId,
    schedule: &mut PendingWorkerSchedule,
    wake: PendingWakeSlot,
    owners: &mut PendingOwnerLedger,
    worker: &mut Option<PendingOwnerToken>,
    result: Result<Option<QueueWorkRight>, PendingError>,
)
    requires
        call_ensures(schedule_stored_wake, (install, schedule, &wake, owners, worker), result),
    ensures
        ({
            let owed = old(schedule)@.axis == InstallAxis::HandoffDone && old(schedule)@.state
                == WorkerScheduleState::Idle && wake@.stored is Some && wake@.stored->0.install
                == install;
            &&& result matches Ok(right) ==> {
                &&& right is Some <==> owed
                &&& right is Some ==> right->0@ == install
                &&& owed ==> final(schedule)@ == (ScheduleModel {
                    state: WorkerScheduleState::Queued,
                    ..old(schedule)@
                })
                &&& owed ==> (*final(worker) matches Some(token) && token@.install == install
                    && token@.kind == PendingOwnerKind::Worker)
                &&& owed ==> final(owners)@ == (LedgerModel {
                    owners: old(owners)@.owners.insert(PendingOwnerKind::Worker),
                    ..old(owners)@
                })
            }
            &&& !(result matches Ok(Some(_))) ==> {
                &&& final(schedule)@ == old(schedule)@
                &&& final(owners)@ == old(owners)@
                &&& *final(worker) == *old(worker)
            }
        }),
{
    let before = pending(*old(schedule), wake, *old(owners), *old(worker));
    law_stored_wake_is_owed_exactly(before, install);
}

/// A pass begins by taking every stored reason of its install, and acts on the most
/// urgent. It keeps its token, and one that does not begin loses no reason.
pub proof fn law_begun_pass_takes_every_reason(
    install: PendingInstallId,
    schedule: &mut PendingWorkerSchedule,
    wake: &mut PendingWakeSlot,
    worker: &mut Option<PendingOwnerToken>,
    result: Result<PendingReason, PendingError>,
)
    requires
        call_ensures(begin_native_worker_pass, (install, schedule, wake, worker), result),
    ensures
        *final(worker) == *old(worker),
        result is Ok <==> {
            &&& *old(worker) is Some
            &&& (*old(worker))->0@.install == install
            &&& (*old(worker))->0@.kind == PendingOwnerKind::Worker
            &&& old(schedule)@.install == Some(install)
            &&& old(schedule)@.state == WorkerScheduleState::Queued
            &&& old(wake)@.brand == install.brand
            &&& old(wake)@.stored is Some
            &&& old(wake)@.stored->0.install == install
        },
        result matches Ok(reason) ==> {
            let reasons = old(wake)@.stored->0.reasons;
            &&& reasons.contains(reason)
            &&& reasons.contains(PendingReason::Unload) ==> reason == PendingReason::Unload
            &&& reason == PendingReason::Readiness ==> !reasons.contains(PendingReason::Timeout)
                && !reasons.contains(PendingReason::Cancel) && !reasons.contains(
                PendingReason::Fence,
            )
            &&& final(wake)@ == (WakeModel { stored: None, ..old(wake)@ })
            &&& final(schedule)@ == (ScheduleModel {
                state: WorkerScheduleState::Running,
                ..old(schedule)@
            })
        },
        result is Err ==> final(wake)@ == old(wake)@ && final(schedule)@ == old(schedule)@,
{
    law_pass_begins_exactly(old(schedule)@, old(wake)@, kept(*old(worker)), install);
    if let Ok(reason) = result {
        crate::enter::wake::law_most_urgent_is_one(
            old(wake)@.stored->0.reasons,
            reason,
            reason,
        );
        if reason == PendingReason::Readiness {
            let alone = Set::<PendingReason>::empty().insert(PendingReason::Readiness);
            assert(!alone.contains(PendingReason::Timeout) && !alone.contains(
                PendingReason::Cancel,
            ) && !alone.contains(PendingReason::Fence));
        }
    }
}

/// A pass that finishes gives its token back and leaves the ring idle, unless it was
/// told to run again: then it keeps the token, and the ring is queued with a right
/// to queue it.
pub proof fn law_finished_pass_runs_again_if_told(
    schedule: &mut PendingWorkerSchedule,
    owners: &mut PendingOwnerLedger,
    worker: &mut Option<PendingOwnerToken>,
    result: Result<Option<QueueWorkRight>, PendingError>,
)
    requires
        call_ensures(finish_native_worker_pass, (schedule, owners, worker), result),
    ensures
        ({
            let again = old(schedule)@.state == WorkerScheduleState::RunningReschedule;
            let runs = again || old(schedule)@.state == WorkerScheduleState::Running;
            &&& result is Ok ==> *old(worker) is Some && runs && old(schedule)@.install == Some(
                (*old(worker))->0@.install,
            ) && (*old(worker))->0@.kind == PendingOwnerKind::Worker
            &&& result matches Ok(right) ==> {
                &&& right is Some <==> again
                &&& right is Some ==> right->0@ == (*old(worker))->0@.install && final(schedule)@
                    == (ScheduleModel { state: WorkerScheduleState::Queued, ..old(schedule)@ })
                    && *final(worker) == *old(worker) && final(owners)@ == old(owners)@
                &&& right is None ==> final(schedule)@ == (ScheduleModel {
                    state: WorkerScheduleState::Idle,
                    ..old(schedule)@
                }) && *final(worker) is None && final(owners)@ == (LedgerModel {
                    owners: old(owners)@.owners.remove(PendingOwnerKind::Worker),
                    ..old(owners)@
                })
            }
            &&& result is Err ==> *final(worker) == *old(worker) && final(owners)@ == old(owners)@
        }),
{
    if *old(worker) is Some {
        law_pass_finishes_exactly(old(schedule)@, (*old(worker))->0@);
    }
}

/// What is selected, handed off and queued names one install and one packet
/// throughout.
pub proof fn law_handoff_names_one_packet(
    install: PendingInstallId,
    irp: IrpObservation,
    selected: SelectedPendingInstall,
    named: PendingInstallId,
    packet: IrpObservation,
    queue: PendingHandoffQueue,
    receipt: HandoffDoneReceipt,
    done: PendingInstallId,
    parked: IrpObservation,
)
    requires
        call_ensures(select_pending_install, (install, irp), selected),
        call_ensures(SelectedPendingInstall::install, (&selected,), named),
        call_ensures(SelectedPendingInstall::irp, (&selected,), packet),
        call_ensures(PendingHandoffQueue::commit_after_queue, (queue,), receipt),
        call_ensures(HandoffDoneReceipt::install, (&receipt,), done),
        call_ensures(HandoffDoneReceipt::irp, (&receipt,), parked),
    ensures
        named == install,
        packet == irp,
        done == queue@.install,
        parked == queue@.irp,
{
}

} // verus!
