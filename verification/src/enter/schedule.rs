//! When a ring's worker pass is queued, running or completing.

use crate::enter::ownership::{PendingOwnerKind, PendingOwnerToken, TokenModel};
use crate::enter::wake::WorkerWakeBatch;
use crate::session::{PendingError, PendingInstallId, SessionRingBrand};
use vstd::prelude::*;

verus! {

/// Whether an install is still being published or was handed to the workers.
#[derive(Clone, Copy, Debug, PartialEq, Eq, Structural)]
pub enum InstallAxis {
    Installing,
    HandoffDone,
}

/// Where a ring's worker pass stands.
#[derive(Clone, Copy, Debug, PartialEq, Eq, Structural)]
pub enum WorkerScheduleState {
    Idle,
    Queued,
    Running,
    /// A wake arrived during the pass: another pass follows it.
    RunningReschedule,
    Completing,
}

/// The obligation to queue the pass that was just published as queued.
///
/// A pass published as queued is not queued again, so giving this up without
/// queueing would leave the request with no pass to complete it.
/// Only [`QueueWorkRight::commit_after_work_queued`] discharges it. Dropping it is
/// a bug of the caller's that nothing here reports: whoever takes one keeps it in
/// a value whose destructor panics until the pass is queued.
#[must_use]
#[derive(Debug)]
pub struct QueueWorkRight {
    install: PendingInstallId,
}

impl View for QueueWorkRight {
    type V = PendingInstallId;

    closed spec fn view(&self) -> PendingInstallId {
        self.install
    }
}

impl QueueWorkRight {
    /// The install whose pass is to be queued.
    pub fn install(&self) -> (install: PendingInstallId)
        ensures
            install == self@,
    {
        self.install
    }

    /// Discharge the obligation, once the pass has been queued, and learn whose
    /// it was.
    pub fn commit_after_work_queued(self) -> (install: PendingInstallId)
        ensures
            install == self@,
    {
        self.install
    }
}

/// One ring's worker schedule.
#[derive(Debug)]
pub struct PendingWorkerSchedule {
    brand: SessionRingBrand,
    install: Option<PendingInstallId>,
    axis: InstallAxis,
    state: WorkerScheduleState,
}

/// What a schedule holds.
pub struct ScheduleModel {
    pub brand: SessionRingBrand,
    pub install: Option<PendingInstallId>,
    pub axis: InstallAxis,
    pub state: WorkerScheduleState,
}

impl View for PendingWorkerSchedule {
    type V = ScheduleModel;

    closed spec fn view(&self) -> ScheduleModel {
        ScheduleModel {
            brand: self.brand,
            install: self.install,
            axis: self.axis,
            state: self.state,
        }
    }
}

/// Why a pass transition is refused to the holder of `token`, if it is: the
/// token must be this install's worker token, and the schedule must be ready.
pub open spec fn worker_refusal(schedule: ScheduleModel, token: TokenModel, ready: bool) -> Option<
    PendingError,
> {
    if schedule.install != Some(token.install) {
        Some(PendingError::WrongInstall)
    } else if token.kind != PendingOwnerKind::Worker {
        Some(PendingError::WrongOwnerKind)
    } else if !ready {
        Some(PendingError::WrongRingState)
    } else {
        None
    }
}

/// The schedule's state once one more pass is asked for.
pub open spec fn queued_state(state: WorkerScheduleState) -> Option<WorkerScheduleState> {
    match state {
        WorkerScheduleState::Idle | WorkerScheduleState::Queued => Some(
            WorkerScheduleState::Queued,
        ),
        WorkerScheduleState::Running | WorkerScheduleState::RunningReschedule => Some(
            WorkerScheduleState::RunningReschedule,
        ),
        WorkerScheduleState::Completing => None,
    }
}

impl PendingWorkerSchedule {
    /// An idle schedule with no install.
    pub fn for_brand(brand: SessionRingBrand) -> (schedule: Self)
        ensures
            schedule@ == (ScheduleModel {
                brand,
                install: None,
                axis: InstallAxis::Installing,
                state: WorkerScheduleState::Idle,
            }),
    {
        Self {
            brand,
            install: None,
            axis: InstallAxis::Installing,
            state: WorkerScheduleState::Idle,
        }
    }

    /// Where the pass stands.
    pub fn state(&self) -> (state: WorkerScheduleState)
        ensures
            state == self@.state,
    {
        self.state
    }

    /// Whether the install was handed over.
    pub fn axis(&self) -> (axis: InstallAxis)
        ensures
            axis == self@.axis,
    {
        self.axis
    }

    /// The install this schedule works for, if any.
    pub fn bound_install(&self) -> (install: Option<PendingInstallId>)
        ensures
            install == self@.install,
    {
        self.install
    }

    /// Begin to schedule passes for `install`.
    pub fn begin_install(&mut self, install: PendingInstallId) -> (result: Result<(), PendingError>)
        ensures
            match result {
                Ok(()) => {
                    &&& install.brand == old(self)@.brand
                    &&& old(self)@.install is None
                    &&& final(self)@ == (ScheduleModel { install: Some(install), ..old(self)@ })
                },
                Err(PendingError::WrongRing) => install.brand != old(self)@.brand && *final(self)
                    == *old(self),
                Err(PendingError::SlotOccupied) => {
                    &&& install.brand == old(self)@.brand
                    &&& old(self)@.install is Some
                    &&& *final(self) == *old(self)
                },
                Err(_) => false,
            },
    {
        if install.brand != self.brand {
            return Err(PendingError::WrongRing);
        }
        if self.install.is_some() {
            return Err(PendingError::SlotOccupied);
        }
        self.install = Some(install);
        Ok(())
    }

    /// Stop scheduling passes for `install`, which no pass is queued or running for.
    pub fn end_install(&mut self, install: PendingInstallId) -> (result: Result<(), PendingError>)
        ensures
            ({
                let at_rest = old(self)@.state == WorkerScheduleState::Idle || old(self)@.state
                    == WorkerScheduleState::Completing;
                match result {
                    Ok(()) => {
                        &&& old(self)@.install == Some(install)
                        &&& at_rest
                        &&& final(self)@ == (ScheduleModel {
                            brand: old(self)@.brand,
                            install: None,
                            axis: InstallAxis::Installing,
                            state: WorkerScheduleState::Idle,
                        })
                    },
                    Err(PendingError::WrongInstall) => old(self)@.install != Some(install)
                        && *final(self) == *old(self),
                    Err(PendingError::WrongRingState) => {
                        &&& old(self)@.install == Some(install)
                        &&& !at_rest
                        &&& *final(self) == *old(self)
                    },
                    Err(_) => false,
                }
            }),
    {
        if self.install != Some(install) {
            return Err(PendingError::WrongInstall);
        }
        if !matches!(self.state, WorkerScheduleState::Idle | WorkerScheduleState::Completing) {
            return Err(PendingError::WrongRingState);
        }
        self.install = None;
        self.axis = InstallAxis::Installing;
        self.state = WorkerScheduleState::Idle;
        Ok(())
    }

    /// Record that `install` was handed to the workers.
    pub fn handoff_done(&mut self, install: PendingInstallId) -> (result: Result<(), PendingError>)
        ensures
            match result {
                Ok(()) => {
                    &&& old(self)@.install == Some(install)
                    &&& old(self)@.axis == InstallAxis::Installing
                    &&& final(self)@ == (ScheduleModel {
                        axis: InstallAxis::HandoffDone,
                        ..old(self)@
                    })
                },
                Err(PendingError::WrongInstall) => old(self)@.install != Some(install)
                    && *final(self) == *old(self),
                Err(PendingError::WrongRingState) => {
                    &&& old(self)@.install == Some(install)
                    &&& old(self)@.axis != InstallAxis::Installing
                    &&& *final(self) == *old(self)
                },
                Err(_) => false,
            },
    {
        if self.install != Some(install) {
            return Err(PendingError::WrongInstall);
        }
        if self.axis != InstallAxis::Installing {
            return Err(PendingError::WrongRingState);
        }
        self.axis = InstallAxis::HandoffDone;
        Ok(())
    }

    /// Ask for one more pass. A running pass is followed by another; a queued
    /// pass already covers the request.
    pub fn queue_worker(&mut self, install: PendingInstallId) -> (result: Result<(), PendingError>)
        ensures
            match result {
                Ok(()) => {
                    &&& old(self)@.install == Some(install)
                    &&& old(self)@.axis == InstallAxis::HandoffDone
                    &&& queued_state(old(self)@.state) is Some
                    &&& final(self)@ == (ScheduleModel {
                        state: queued_state(old(self)@.state)->0,
                        ..old(self)@
                    })
                },
                Err(PendingError::WrongInstall) => old(self)@.install != Some(install)
                    && *final(self) == *old(self),
                Err(PendingError::WrongRingState) => {
                    &&& old(self)@.install == Some(install)
                    &&& old(self)@.axis != InstallAxis::HandoffDone
                    &&& *final(self) == *old(self)
                },
                Err(PendingError::Closing) => {
                    &&& old(self)@.install == Some(install)
                    &&& old(self)@.axis == InstallAxis::HandoffDone
                    &&& old(self)@.state == WorkerScheduleState::Completing
                    &&& *final(self) == *old(self)
                },
                Err(_) => false,
            },
    {
        if self.install != Some(install) {
            return Err(PendingError::WrongInstall);
        }
        if self.axis != InstallAxis::HandoffDone {
            return Err(PendingError::WrongRingState);
        }
        self.state = match self.state {
            WorkerScheduleState::Idle => WorkerScheduleState::Queued,
            WorkerScheduleState::Running | WorkerScheduleState::RunningReschedule => {
                WorkerScheduleState::RunningReschedule
            },
            WorkerScheduleState::Queued => WorkerScheduleState::Queued,
            WorkerScheduleState::Completing => {
                return Err(PendingError::Closing);
            },
        };
        Ok(())
    }

    /// Publish a queued pass that was asked for from idle, and mint the
    /// obligation to queue it.
    pub(crate) fn publish_queued(&mut self, install: PendingInstallId) -> (right: QueueWorkRight)
        requires
            old(self)@.install == Some(install),
            old(self)@.axis == InstallAxis::HandoffDone,
            old(self)@.state == WorkerScheduleState::Idle,
        ensures
            right@ == install,
            final(self)@ == (ScheduleModel { state: WorkerScheduleState::Queued, ..old(self)@ }),
    {
        self.state = WorkerScheduleState::Queued;
        QueueWorkRight { install }
    }

    /// Begin the queued pass with the reasons it took. A refusal returns both.
    pub fn begin_worker_pass(
        &mut self,
        token: PendingOwnerToken,
        batch: WorkerWakeBatch,
    ) -> (result: Result<
        (PendingOwnerToken, WorkerWakeBatch),
        (PendingError, PendingOwnerToken, WorkerWakeBatch),
    >)
        ensures
            ({
                let refusal = begin_refusal(old(self)@, token@, batch@.install);
                match result {
                    Ok((held, taken)) => {
                        &&& refusal is None
                        &&& held == token && taken == batch
                        &&& final(self)@ == (ScheduleModel {
                            state: WorkerScheduleState::Running,
                            ..old(self)@
                        })
                    },
                    Err((error, held, taken)) => {
                        &&& refusal == Some(error)
                        &&& held == token && taken == batch
                        &&& *final(self) == *old(self)
                    },
                }
            }),
    {
        if let Err(error) = self.check_worker_pass(&token, &batch, WorkerScheduleState::Queued) {
            return Err((error, token, batch));
        }
        self.state = WorkerScheduleState::Running;
        Ok((token, batch))
    }

    /// Finish one pass. A pass that was asked to reschedule becomes the next
    /// queued pass at once, with the obligation to queue it; its worker token
    /// passes on to it.
    pub fn finish_worker_pass(&mut self, token: PendingOwnerToken) -> (result: Result<
        (PendingOwnerToken, Option<QueueWorkRight>),
        (PendingError, PendingOwnerToken),
    >)
        ensures
            ({
                let reschedule = old(self)@.state == WorkerScheduleState::RunningReschedule;
                let ready = old(self)@.state == WorkerScheduleState::Running || reschedule;
                match result {
                    Ok((held, right)) => {
                        &&& worker_refusal(old(self)@, token@, ready) is None
                        &&& held == token
                        &&& right is Some <==> reschedule
                        &&& right is Some ==> right->0@ == token@.install
                        &&& final(self)@ == (ScheduleModel {
                            state: if reschedule {
                                WorkerScheduleState::Queued
                            } else {
                                WorkerScheduleState::Idle
                            },
                            ..old(self)@
                        })
                    },
                    Err((error, held)) => {
                        &&& worker_refusal(old(self)@, token@, ready) == Some(error)
                        &&& held == token
                        &&& *final(self) == *old(self)
                    },
                }
            }),
    {
        if self.install != Some(token.install()) {
            return Err((PendingError::WrongInstall, token));
        }
        if token.kind() != PendingOwnerKind::Worker {
            return Err((PendingError::WrongOwnerKind, token));
        }
        match self.state {
            WorkerScheduleState::Running => {
                self.state = WorkerScheduleState::Idle;
                Ok((token, None))
            },
            WorkerScheduleState::RunningReschedule => {
                self.state = WorkerScheduleState::Queued;
                let install = token.install();
                Ok((token, Some(QueueWorkRight { install })))
            },
            _ => Err((PendingError::WrongRingState, token)),
        }
    }

    /// Go back to idle from a queued pass that ran and could not begin.
    pub fn abandon_queued_pass(&mut self, token: PendingOwnerToken) -> (result: Result<
        PendingOwnerToken,
        (PendingError, PendingOwnerToken),
    >)
        ensures
            worker_moved(
                *old(self),
                *final(self),
                token,
                result,
                WorkerScheduleState::Queued,
                WorkerScheduleState::Idle,
            ),
    {
        if self.install != Some(token.install()) {
            return Err((PendingError::WrongInstall, token));
        }
        if token.kind() != PendingOwnerKind::Worker {
            return Err((PendingError::WrongOwnerKind, token));
        }
        if self.state != WorkerScheduleState::Queued {
            return Err((PendingError::WrongRingState, token));
        }
        self.state = WorkerScheduleState::Idle;
        Ok(token)
    }

    /// Turn the running pass into the one that completes the request.
    pub fn begin_worker_completion(&mut self, token: PendingOwnerToken) -> (result: Result<
        PendingOwnerToken,
        (PendingError, PendingOwnerToken),
    >)
        ensures
            worker_moved(
                *old(self),
                *final(self),
                token,
                result,
                WorkerScheduleState::Running,
                WorkerScheduleState::Completing,
            ),
    {
        if self.install != Some(token.install()) {
            return Err((PendingError::WrongInstall, token));
        }
        if token.kind() != PendingOwnerKind::Worker {
            return Err((PendingError::WrongOwnerKind, token));
        }
        if self.state != WorkerScheduleState::Running {
            return Err((PendingError::WrongRingState, token));
        }
        self.state = WorkerScheduleState::Completing;
        Ok(token)
    }

    /// Go back to a running pass from a completion that did not go ahead.
    pub fn abandon_worker_completion(&mut self, token: PendingOwnerToken) -> (result: Result<
        PendingOwnerToken,
        (PendingError, PendingOwnerToken),
    >)
        ensures
            worker_moved(
                *old(self),
                *final(self),
                token,
                result,
                WorkerScheduleState::Completing,
                WorkerScheduleState::Running,
            ),
    {
        if self.install != Some(token.install()) {
            return Err((PendingError::WrongInstall, token));
        }
        if token.kind() != PendingOwnerKind::Worker {
            return Err((PendingError::WrongOwnerKind, token));
        }
        if self.state != WorkerScheduleState::Completing {
            return Err((PendingError::WrongRingState, token));
        }
        self.state = WorkerScheduleState::Running;
        Ok(token)
    }

    fn check_worker_pass(
        &self,
        token: &PendingOwnerToken,
        batch: &WorkerWakeBatch,
        expected: WorkerScheduleState,
    ) -> (result: Result<(), PendingError>)
        ensures
            match result {
                Ok(()) => {
                    &&& batch@.install == token@.install
                    &&& worker_refusal(self@, token@, self@.state == expected) is None
                },
                Err(error) => Some(error) == (if batch@.install != token@.install {
                    Some(PendingError::WrongInstall)
                } else {
                    worker_refusal(self@, token@, self@.state == expected)
                }),
            },
    {
        if self.install != Some(token.install()) {
            return Err(PendingError::WrongInstall);
        }
        if batch.install() != token.install() {
            return Err(PendingError::WrongInstall);
        }
        if token.kind() != PendingOwnerKind::Worker {
            return Err(PendingError::WrongOwnerKind);
        }
        if self.state != expected {
            return Err(PendingError::WrongRingState);
        }
        Ok(())
    }
}

/// Why a queued pass cannot begin with a batch taken for `woken`, if it cannot.
pub open spec fn begin_refusal(
    schedule: ScheduleModel,
    token: TokenModel,
    woken: PendingInstallId,
) -> Option<PendingError> {
    if woken != token.install {
        Some(PendingError::WrongInstall)
    } else {
        worker_refusal(schedule, token, schedule.state == WorkerScheduleState::Queued)
    }
}

/// A pass moved from `from` to `to` and handed the token on, or was refused,
/// changed nothing and handed the token back.
pub open spec fn worker_moved(
    before: PendingWorkerSchedule,
    after: PendingWorkerSchedule,
    token: PendingOwnerToken,
    result: Result<PendingOwnerToken, (PendingError, PendingOwnerToken)>,
    from: WorkerScheduleState,
    to: WorkerScheduleState,
) -> bool {
    let refusal = worker_refusal(before@, token@, before@.state == from);
    match result {
        Ok(held) => {
            &&& refusal is None
            &&& held == token
            &&& after@ == (ScheduleModel { state: to, ..before@ })
        },
        Err((error, held)) => {
            &&& refusal == Some(error)
            &&& held == token
            &&& after == before
        },
    }
}

/// A worker's move is refused exactly for another install, then for a token of
/// another kind, then where the schedule is not ready for it.
pub proof fn law_worker_is_refused_in_order(
    schedule: ScheduleModel,
    token: TokenModel,
    ready: bool,
)
    ensures
        ({
            let refusal = worker_refusal(schedule, token, ready);
            let bound = schedule.install == Some(token.install);
            let worker = token.kind == PendingOwnerKind::Worker;
            &&& refusal is None <==> bound && worker && ready
            &&& refusal == Some(PendingError::WrongInstall) <==> !bound
            &&& refusal == Some(PendingError::WrongOwnerKind) <==> bound && !worker
            &&& refusal == Some(PendingError::WrongRingState) <==> bound && worker && !ready
        }),
{
}

/// A request for a pass queues an idle ring, leaves a queued one queued, makes a
/// running one run again, and is refused exactly by a completing one. Asking twice
/// is asking once.
pub proof fn law_asking_twice_is_asking_once(state: WorkerScheduleState)
    ensures
        queued_state(state) is None <==> state == WorkerScheduleState::Completing,
        queued_state(state) == Some(WorkerScheduleState::Queued) <==> state
            == WorkerScheduleState::Idle || state == WorkerScheduleState::Queued,
        queued_state(state) == Some(WorkerScheduleState::RunningReschedule) <==> state
            == WorkerScheduleState::Running || state == WorkerScheduleState::RunningReschedule,
        queued_state(state) matches Some(next) ==> queued_state(next) == Some(next),
{
}

/// A pass begins exactly with the wake and the worker's token of the bound install
/// on a queued schedule. A wake of another install is refused before anything else.
pub proof fn law_pass_needs_its_own_wake(
    schedule: ScheduleModel,
    token: TokenModel,
    woken: PendingInstallId,
)
    ensures
        ({
            let refusal = begin_refusal(schedule, token, woken);
            let bound = woken == token.install && schedule.install == Some(token.install);
            let worker = token.kind == PendingOwnerKind::Worker;
            let queued = schedule.state == WorkerScheduleState::Queued;
            &&& refusal is None <==> bound && worker && queued
            &&& refusal == Some(PendingError::WrongInstall) <==> !bound
            &&& refusal == Some(PendingError::WrongOwnerKind) <==> bound && !worker
            &&& refusal == Some(PendingError::WrongRingState) <==> bound && worker && !queued
        }),
{
}

/// A worker's move is made exactly with the worker's token of the bound install in
/// the state it starts from, changes the state and nothing else, and hands the
/// token back either way.
pub proof fn law_worker_moves_the_state_alone(
    before: PendingWorkerSchedule,
    after: PendingWorkerSchedule,
    token: PendingOwnerToken,
    result: Result<PendingOwnerToken, (PendingError, PendingOwnerToken)>,
    from: WorkerScheduleState,
    to: WorkerScheduleState,
)
    requires
        worker_moved(before, after, token, result, from, to),
    ensures
        result is Ok <==> before@.install == Some(token@.install) && token@.kind
            == PendingOwnerKind::Worker && before@.state == from,
        result matches Ok(held) ==> held == token && after@.state == to && after@.brand
            == before@.brand && after@.install == before@.install && after@.axis == before@.axis,
        result matches Err((_, held)) ==> held == token && after == before,
{
}

/// A schedule is bound exactly while it is free, to an install of its ring, and let
/// go exactly by that install at rest, with nothing of it left behind. What is
/// refused changes nothing.
pub proof fn law_schedule_is_bound_and_let_go(
    bound: &mut PendingWorkerSchedule,
    ended: &mut PendingWorkerSchedule,
    install: PendingInstallId,
    begun: Result<(), PendingError>,
    over: Result<(), PendingError>,
)
    requires
        call_ensures(PendingWorkerSchedule::begin_install, (bound, install), begun),
        call_ensures(PendingWorkerSchedule::end_install, (ended, install), over),
    ensures
        ({
            let before = old(bound)@;
            let own = install.brand == before.brand;
            let free = before.install is None;
            &&& begun is Ok <==> own && free
            &&& begun is Ok ==> final(bound)@ == (ScheduleModel { install: Some(install), ..before })
            &&& begun == Err::<(), _>(PendingError::WrongRing) <==> !own
            &&& begun == Err::<(), _>(PendingError::SlotOccupied) <==> own && !free
            &&& begun is Err ==> final(bound)@ == before
        }),
        ({
            let before = old(ended)@;
            let own = before.install == Some(install);
            let rest = before.state == WorkerScheduleState::Idle || before.state
                == WorkerScheduleState::Completing;
            &&& over is Ok <==> own && rest
            &&& over is Ok ==> final(ended)@.install is None && final(ended)@.axis
                == InstallAxis::Installing && final(ended)@.state == WorkerScheduleState::Idle
                && final(ended)@.brand == before.brand
            &&& over == Err::<(), _>(PendingError::WrongInstall) <==> !own
            &&& over == Err::<(), _>(PendingError::WrongRingState) <==> own && !rest
            &&& over is Err ==> final(ended)@ == before
        }),
{
}

/// A handoff is marked once, by the bound install, and a worker is asked for only
/// after it: an idle schedule is queued, a queued one stays so, a running one runs
/// again, and a completing one is closing.
pub proof fn law_worker_is_asked_for_after_the_handoff(
    handed: &mut PendingWorkerSchedule,
    asked: &mut PendingWorkerSchedule,
    install: PendingInstallId,
    done: Result<(), PendingError>,
    queued: Result<(), PendingError>,
)
    requires
        call_ensures(PendingWorkerSchedule::handoff_done, (handed, install), done),
        call_ensures(PendingWorkerSchedule::queue_worker, (asked, install), queued),
    ensures
        ({
            let before = old(handed)@;
            let own = before.install == Some(install);
            let fresh = before.axis == InstallAxis::Installing;
            &&& done is Ok <==> own && fresh
            &&& done is Ok ==> final(handed)@ == (ScheduleModel {
                axis: InstallAxis::HandoffDone,
                ..before
            })
            &&& done == Err::<(), _>(PendingError::WrongInstall) <==> !own
            &&& done == Err::<(), _>(PendingError::WrongRingState) <==> own && !fresh
            &&& done is Err ==> final(handed)@ == before
        }),
        ({
            let before = old(asked)@;
            let own = before.install == Some(install);
            let after_handoff = before.axis == InstallAxis::HandoffDone;
            let completing = before.state == WorkerScheduleState::Completing;
            let runs = before.state == WorkerScheduleState::Running || before.state
                == WorkerScheduleState::RunningReschedule;
            &&& queued is Ok <==> own && after_handoff && !completing
            &&& queued is Ok ==> final(asked)@ == (ScheduleModel {
                state: if runs {
                    WorkerScheduleState::RunningReschedule
                } else {
                    WorkerScheduleState::Queued
                },
                ..before
            })
            &&& queued == Err::<(), _>(PendingError::WrongInstall) <==> !own
            &&& queued == Err::<(), _>(PendingError::WrongRingState) <==> own && !after_handoff
            &&& queued == Err::<(), _>(PendingError::Closing) <==> own && after_handoff
                && completing
            &&& queued is Err ==> final(asked)@ == before
        }),
{
}

/// A pass begins on a queued schedule with its own token and wake, and hands both
/// back. One that finishes leaves the schedule idle, or queued with a right to queue
/// it if it was told to run again meanwhile.
pub proof fn law_pass_begins_queued_and_ends_idle(
    begun: &mut PendingWorkerSchedule,
    ended: &mut PendingWorkerSchedule,
    token: PendingOwnerToken,
    batch: WorkerWakeBatch,
    started: Result<
        (PendingOwnerToken, WorkerWakeBatch),
        (PendingError, PendingOwnerToken, WorkerWakeBatch),
    >,
    finished: Result<
        (PendingOwnerToken, Option<QueueWorkRight>),
        (PendingError, PendingOwnerToken),
    >,
)
    requires
        call_ensures(PendingWorkerSchedule::begin_worker_pass, (begun, token, batch), started),
        call_ensures(PendingWorkerSchedule::finish_worker_pass, (ended, token), finished),
    ensures
        ({
            let before = old(begun)@;
            &&& started is Ok <==> before.install == Some(token@.install) && batch@.install
                == token@.install && token@.kind == PendingOwnerKind::Worker && before.state
                == WorkerScheduleState::Queued
            &&& started matches Ok((held, taken)) ==> held == token && taken == batch && final(begun)@ == (ScheduleModel { state: WorkerScheduleState::Running, ..before })
            &&& started matches Err((_, held, taken)) ==> held == token && taken == batch && final(begun)@ == before
        }),
        ({
            let before = old(ended)@;
            let again = before.state == WorkerScheduleState::RunningReschedule;
            let runs = again || before.state == WorkerScheduleState::Running;
            &&& finished is Ok <==> before.install == Some(token@.install) && token@.kind
                == PendingOwnerKind::Worker && runs
            &&& finished matches Ok((held, right)) ==> {
                &&& held == token
                &&& right is Some <==> again
                &&& right is Some ==> right->0@ == token@.install
                &&& final(ended)@ == (ScheduleModel {
                    state: if again {
                        WorkerScheduleState::Queued
                    } else {
                        WorkerScheduleState::Idle
                    },
                    ..before
                })
            }
            &&& finished matches Err((_, held)) ==> held == token && final(ended)@ == before
        }),
{
}

/// A queued pass that is abandoned leaves the schedule idle; a completion begins on
/// a running one and, abandoned, runs again. Each needs the worker's token of the
/// bound install and moves the state alone.
pub proof fn law_worker_moves_where_it_says(
    queued: &mut PendingWorkerSchedule,
    runs: &mut PendingWorkerSchedule,
    completing: &mut PendingWorkerSchedule,
    token: PendingOwnerToken,
    dropped: Result<PendingOwnerToken, (PendingError, PendingOwnerToken)>,
    begun: Result<PendingOwnerToken, (PendingError, PendingOwnerToken)>,
    back: Result<PendingOwnerToken, (PendingError, PendingOwnerToken)>,
)
    requires
        call_ensures(PendingWorkerSchedule::abandon_queued_pass, (queued, token), dropped),
        call_ensures(PendingWorkerSchedule::begin_worker_completion, (runs, token), begun),
        call_ensures(PendingWorkerSchedule::abandon_worker_completion, (completing, token), back),
    ensures
        ({
            let worker = token@.kind == PendingOwnerKind::Worker;
            let own = |schedule: ScheduleModel| schedule.install == Some(token@.install) && worker;
            &&& dropped is Ok <==> own(old(queued)@) && old(queued)@.state
                == WorkerScheduleState::Queued
            &&& final(queued)@ == (ScheduleModel {
                state: if dropped is Ok {
                    WorkerScheduleState::Idle
                } else {
                    old(queued)@.state
                },
                ..old(queued)@
            })
            &&& begun is Ok <==> own(old(runs)@) && old(runs)@.state == WorkerScheduleState::Running
            &&& final(runs)@ == (ScheduleModel {
                state: if begun is Ok {
                    WorkerScheduleState::Completing
                } else {
                    old(runs)@.state
                },
                ..old(runs)@
            })
            &&& back is Ok <==> own(old(completing)@) && old(completing)@.state
                == WorkerScheduleState::Completing
            &&& final(completing)@ == (ScheduleModel {
                state: if back is Ok {
                    WorkerScheduleState::Running
                } else {
                    old(completing)@.state
                },
                ..old(completing)@
            })
        }),
{
}

/// A schedule begins idle and unbound on its ring, and tells where it stands. A right
/// to queue a pass is spent on its own install.
pub proof fn law_schedule_begins_idle(
    brand: SessionRingBrand,
    schedule: PendingWorkerSchedule,
    later: PendingWorkerSchedule,
    state: WorkerScheduleState,
    axis: InstallAxis,
    bound: Option<PendingInstallId>,
    right: QueueWorkRight,
    named: PendingInstallId,
    queued: PendingInstallId,
)
    requires
        call_ensures(PendingWorkerSchedule::for_brand, (brand,), schedule),
        call_ensures(PendingWorkerSchedule::state, (&later,), state),
        call_ensures(PendingWorkerSchedule::axis, (&later,), axis),
        call_ensures(PendingWorkerSchedule::bound_install, (&later,), bound),
        call_ensures(QueueWorkRight::install, (&right,), named),
        call_ensures(QueueWorkRight::commit_after_work_queued, (right,), queued),
    ensures
        schedule@.brand == brand,
        schedule@.install is None,
        schedule@.axis == InstallAxis::Installing,
        schedule@.state == WorkerScheduleState::Idle,
        state == later@.state,
        axis == later@.axis,
        bound == later@.install,
        named == right@,
        queued == named,
{
}

} // verus!
