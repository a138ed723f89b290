//! The timer of a finite wait, and the deferred callback that serves it.
//!
//! The callback runs at an interrupt level where it may neither touch the
//! request's packet nor its result: it records the timeout, queues a worker and
//! leaves.

use crate::session::PendingError;
use vstd::prelude::*;

verus! {

/// Where a ring's timer stands. An armed or running timer belongs to one install
/// epoch.
#[derive(Clone, Copy, Debug, PartialEq, Eq, Structural)]
pub enum TimerState {
    Quiesced,
    Armed { epoch: u64 },
    Running { epoch: u64 },
}

/// What cancelling a timer came to.
#[derive(Clone, Copy, Debug, PartialEq, Eq, Structural)]
pub enum PendingTimerCancel {
    /// There was no timer to cancel.
    NotArmed,
    /// The timer left its queue before its callback ran.
    DequeuedBeforeRun,
    /// The callback runs or is about to: its exit has to be waited for.
    RequiresDpcExitWait,
    /// The timer belongs to another install.
    NotThisInstall,
}

impl TimerState {
    /// The epoch an armed or running timer belongs to.
    pub open spec fn epoch_of(self) -> Option<u64> {
        match self {
            TimerState::Quiesced => None,
            TimerState::Armed { epoch } | TimerState::Running { epoch } => Some(epoch),
        }
    }

    /// The epoch an armed or running timer belongs to.
    pub fn epoch(self) -> (epoch: Option<u64>)
        ensures
            epoch == self.epoch_of(),
    {
        match self {
            TimerState::Quiesced => None,
            TimerState::Armed { epoch } | TimerState::Running { epoch } => Some(epoch),
        }
    }

    /// Arm a quiesced timer for one epoch.
    pub fn arm(&mut self, epoch: u64) -> (result: Result<(), PendingError>)
        ensures
            match result {
                Ok(()) => *old(self) == TimerState::Quiesced && *final(self) == (TimerState::Armed {
                    epoch,
                }),
                Err(error) => {
                    &&& error == PendingError::WrongRingState
                    &&& *old(self) != TimerState::Quiesced
                    &&& *final(self) == *old(self)
                },
            },
    {
        if !matches!(*self, TimerState::Quiesced) {
            return Err(PendingError::WrongRingState);
        }
        *self = TimerState::Armed { epoch };
        Ok(())
    }

    /// The callback of `epoch` begins: it owns the timer only if the timer is
    /// armed for that epoch.
    pub fn dpc_entered(&mut self, epoch: u64) -> (result: Result<(), PendingError>)
        ensures
            match result {
                Ok(()) => *old(self) == (TimerState::Armed { epoch }) && *final(self) == (
                TimerState::Running { epoch }),
                Err(error) => {
                    &&& *old(self) != (TimerState::Armed { epoch })
                    &&& error == (if *old(self) == TimerState::Quiesced {
                        PendingError::WrongRingState
                    } else {
                        PendingError::WrongInstall
                    })
                    &&& *final(self) == *old(self)
                },
            },
    {
        match *self {
            TimerState::Armed { epoch: armed } => if armed == epoch {
                *self = TimerState::Running { epoch };
                Ok(())
            } else {
                Err(PendingError::WrongInstall)
            },
            TimerState::Running { epoch: _ } => Err(PendingError::WrongInstall),
            TimerState::Quiesced => Err(PendingError::WrongRingState),
        }
    }

    /// The running callback of `epoch` ends.
    pub fn dpc_exiting(&mut self, epoch: u64) -> (result: Result<(), PendingError>)
        ensures
            match result {
                Ok(()) => *old(self) == (TimerState::Running { epoch }) && *final(self)
                    == TimerState::Quiesced,
                Err(error) => {
                    &&& error == PendingError::WrongRingState
                    &&& *old(self) != (TimerState::Running { epoch })
                    &&& *final(self) == *old(self)
                },
            },
    {
        match *self {
            TimerState::Running { epoch: running } => if running == epoch {
                *self = TimerState::Quiesced;
                Ok(())
            } else {
                Err(PendingError::WrongRingState)
            },
            _ => Err(PendingError::WrongRingState),
        }
    }

    /// Cancel the timer of `epoch`, knowing whether the timer left its queue.
    /// Only an armed timer that left its queue is quiesced by it.
    pub fn cancel(&mut self, epoch: u64, dequeued: bool) -> (cancelled: PendingTimerCancel)
        ensures
            cancelled == (if *old(self) == TimerState::Quiesced {
                PendingTimerCancel::NotArmed
            } else if old(self).epoch_of() != Some(epoch) {
                PendingTimerCancel::NotThisInstall
            } else if *old(self) is Armed && dequeued {
                PendingTimerCancel::DequeuedBeforeRun
            } else {
                PendingTimerCancel::RequiresDpcExitWait
            }),
            *final(self) == (if cancelled == PendingTimerCancel::DequeuedBeforeRun {
                TimerState::Quiesced
            } else {
                *old(self)
            }),
    {
        match *self {
            TimerState::Quiesced => PendingTimerCancel::NotArmed,
            TimerState::Armed { epoch: armed } => if armed != epoch {
                PendingTimerCancel::NotThisInstall
            } else if dequeued {
                *self = TimerState::Quiesced;
                PendingTimerCancel::DequeuedBeforeRun
            } else {
                PendingTimerCancel::RequiresDpcExitWait
            },
            TimerState::Running { epoch: running } => if running != epoch {
                PendingTimerCancel::NotThisInstall
            } else {
                PendingTimerCancel::RequiresDpcExitWait
            },
        }
    }
}

/// The relative due time of a finite wait: its length in units of 100 ns, negated.
pub fn finite_due_time_100ns(milliseconds: u32) -> (due: Option<i64>)
    ensures
        due == Some((-10_000 * milliseconds) as i64),
{
    Some(-(milliseconds as i64 * 10_000))
}

/// One action of a callback or a worker pass.
#[derive(Clone, Copy, Debug, PartialEq, Eq, Structural)]
pub enum PendingCallbackAction {
    EnterRunning,
    RecordTimeoutWake,
    QueueWorker,
    ReleaseDpcOwner,
    PublishQuiesced,
    BeginWorkerPass,
    PollAndRecheck,
    RemoveIrpFromCsq,
    WriteResultStorage,
    CompleteIrp,
    FinishWorkerPass,
}

impl PendingCallbackAction {
    /// The action touches the packet or its result.
    pub open spec fn is_forbidden(self) -> bool {
        self == PendingCallbackAction::RemoveIrpFromCsq || self
            == PendingCallbackAction::WriteResultStorage || self
            == PendingCallbackAction::CompleteIrp
    }

    /// The action may not run in the deferred callback.
    pub fn forbidden_at_dispatch_level(self) -> (forbidden: bool)
        ensures
            forbidden <==> self.is_forbidden(),
    {
        matches!(
            self,
            PendingCallbackAction::RemoveIrpFromCsq
            | PendingCallbackAction::WriteResultStorage
            | PendingCallbackAction::CompleteIrp
        )
    }
}

/// What a callback that owns its timer does, in order.
pub const PENDING_DPC_OWN_EPOCH_ORDER: [PendingCallbackAction; 5] = [
    PendingCallbackAction::EnterRunning,
    PendingCallbackAction::RecordTimeoutWake,
    PendingCallbackAction::QueueWorker,
    PendingCallbackAction::ReleaseDpcOwner,
    PendingCallbackAction::PublishQuiesced,
];

/// What a callback of a stale epoch does: nothing.
pub const PENDING_DPC_STALE_EPOCH_ORDER: [PendingCallbackAction; 0] = [];

/// What a worker pass does, in order.
pub const PENDING_WORKER_PASS_ORDER: [PendingCallbackAction; 6] = [
    PendingCallbackAction::BeginWorkerPass,
    PendingCallbackAction::PollAndRecheck,
    PendingCallbackAction::RemoveIrpFromCsq,
    PendingCallbackAction::WriteResultStorage,
    PendingCallbackAction::CompleteIrp,
    PendingCallbackAction::FinishWorkerPass,
];

/// Whether a callback owns its timer.
#[derive(Clone, Copy, Debug, PartialEq, Eq, Structural)]
pub enum PendingDpcPath {
    OwnEpoch,
    StaleEpoch,
}

impl PendingDpcPath {
    /// What a callback on this path does, in order.
    pub open spec fn order(self) -> Seq<PendingCallbackAction> {
        match self {
            PendingDpcPath::OwnEpoch => PENDING_DPC_OWN_EPOCH_ORDER@,
            PendingDpcPath::StaleEpoch => PENDING_DPC_STALE_EPOCH_ORDER@,
        }
    }

    /// What a callback on this path does, in order.
    pub fn effects(self) -> (effects: &'static [PendingCallbackAction])
        ensures
            effects@ == self.order(),
    {
        match self {
            PendingDpcPath::OwnEpoch => &PENDING_DPC_OWN_EPOCH_ORDER,
            PendingDpcPath::StaleEpoch => &PENDING_DPC_STALE_EPOCH_ORDER,
        }
    }
}

/// The proof that a callback did everything it had to; its exit can be signalled.
#[must_use]
#[derive(Debug)]
pub struct PendingDpcExitTicket {
    epoch: u64,
    path: PendingDpcPath,
}

/// A callback in progress.
#[must_use]
#[derive(Debug)]
pub struct PendingDpcPass {
    epoch: u64,
    path: PendingDpcPath,
    index: usize,
}

/// The next step of a callback.
#[must_use]
#[derive(Debug)]
pub enum PendingDpcStep {
    Perform(PendingCallbackAction, PendingDpcPass),
    SignalExit(PendingDpcExitTicket),
}

/// What a callback in progress is: its epoch, its path, and how many actions are
/// behind it.
pub struct DpcPassModel {
    pub epoch: u64,
    pub path: PendingDpcPath,
    pub index: int,
}

/// What an exit ticket is.
pub struct DpcTicketModel {
    pub epoch: u64,
    pub path: PendingDpcPath,
}

impl View for PendingDpcPass {
    type V = DpcPassModel;

    closed spec fn view(&self) -> DpcPassModel {
        DpcPassModel { epoch: self.epoch, path: self.path, index: self.index as int }
    }
}

impl View for PendingDpcExitTicket {
    type V = DpcTicketModel;

    closed spec fn view(&self) -> DpcTicketModel {
        DpcTicketModel { epoch: self.epoch, path: self.path }
    }
}

impl PendingDpcExitTicket {
    /// The epoch whose callback exits.
    pub fn epoch(&self) -> (epoch: u64)
        ensures
            epoch == self@.epoch,
    {
        self.epoch
    }

    /// The path the callback took.
    pub fn path(&self) -> (path: PendingDpcPath)
        ensures
            path == self@.path,
    {
        self.path
    }

    /// Give the ticket up, once the exit has been signalled, and learn whose it
    /// was.
    pub fn commit_after_exit_signalled(self) -> (epoch: u64)
        ensures
            epoch == self@.epoch,
    {
        self.epoch
    }
}

impl PendingDpcPass {
    #[verifier::type_invariant]
    closed spec fn inv(self) -> bool {
        self.index <= self.path.order().len()
    }

    /// Begin the callback of `epoch`. It owns the timer if the timer is armed for
    /// that epoch; otherwise it is stale and changes nothing.
    pub fn begin_dpc_pass(timer: &mut TimerState, epoch: u64) -> (pass: Self)
        ensures
            ({
                let owns = *old(timer) == (TimerState::Armed { epoch });
                &&& pass@ == (DpcPassModel {
                    epoch,
                    path: if owns {
                        PendingDpcPath::OwnEpoch
                    } else {
                        PendingDpcPath::StaleEpoch
                    },
                    index: 0,
                })
                &&& *final(timer) == (if owns {
                    TimerState::Running { epoch }
                } else {
                    *old(timer)
                })
            }),
    {
        let path = match timer.dpc_entered(epoch) {
            Ok(()) => PendingDpcPath::OwnEpoch,
            Err(_) => PendingDpcPath::StaleEpoch,
        };
        Self { epoch, path, index: 0 }
    }

    /// The path the callback takes.
    pub fn path(&self) -> (path: PendingDpcPath)
        ensures
            path == self@.path,
    {
        self.path
    }

    /// The epoch whose callback this is.
    pub fn epoch(&self) -> (epoch: u64)
        ensures
            epoch == self@.epoch,
    {
        self.epoch
    }

    /// Hand the next action out, or the exit ticket once every action is done.
    pub fn run_next_dpc_effect(self) -> (step: PendingDpcStep)
        ensures
            match step {
                PendingDpcStep::Perform(action, rest) => {
                    &&& 0 <= self@.index < self@.path.order().len()
                    &&& action == self@.path.order()[self@.index]
                    &&& rest@ == (DpcPassModel { index: self@.index + 1, ..self@ })
                },
                PendingDpcStep::SignalExit(ticket) => {
                    &&& self@.index == self@.path.order().len()
                    &&& ticket@ == (DpcTicketModel { epoch: self@.epoch, path: self@.path })
                },
            },
    {
        proof {
            use_type_invariant(&self);
        }
        let Self { epoch, path, index } = self;
        let effects = path.effects();
        if index < effects.len() {
            PendingDpcStep::Perform(effects[index], Self { epoch, path, index: index + 1 })
        } else {
            PendingDpcStep::SignalExit(PendingDpcExitTicket { epoch, path })
        }
    }
}

/// No callback touches the packet or its result: no action of either path is
/// forbidden at its level.
pub proof fn law_callback_never_touches_the_packet(path: PendingDpcPath, index: int)
    requires
        0 <= index < path.order().len(),
    ensures
        !path.order()[index].is_forbidden(),
{
}

/// Only a worker pass does what a callback may not: each forbidden action is one
/// of its steps.
pub proof fn law_worker_pass_does_what_a_callback_may_not(action: PendingCallbackAction)
    requires
        action.is_forbidden(),
    ensures
        PENDING_WORKER_PASS_ORDER@.contains(action),
{
    assert(PENDING_WORKER_PASS_ORDER@[2] == PendingCallbackAction::RemoveIrpFromCsq);
    assert(PENDING_WORKER_PASS_ORDER@[3] == PendingCallbackAction::WriteResultStorage);
    assert(PENDING_WORKER_PASS_ORDER@[4] == PendingCallbackAction::CompleteIrp);
}

/// A timer names the install it was armed for, armed or running, and none at rest.
pub proof fn law_timer_names_its_install(epoch: u64, timer: TimerState)
    ensures
        (TimerState::Armed { epoch }).epoch_of() == Some(epoch),
        (TimerState::Running { epoch }).epoch_of() == Some(epoch),
        timer.epoch_of() is None <==> timer == TimerState::Quiesced,
{
}

/// A timer is armed exactly at rest, for the install it is given.
pub proof fn law_timer_is_armed_at_rest(
    timer: &mut TimerState,
    epoch: u64,
    result: Result<(), PendingError>,
)
    requires
        call_ensures(TimerState::arm, (timer, epoch), result),
    ensures
        result is Ok <==> *old(timer) == TimerState::Quiesced,
        result is Ok ==> *final(timer) == (TimerState::Armed { epoch }),
        result is Err ==> result == Err::<(), _>(PendingError::WrongRingState) && *final(timer)
            == *old(timer),
{
}

/// A callback enters exactly the timer armed for its install, and leaves exactly
/// the timer that runs for it. A timer at rest has no callback to enter; any other
/// is another install's. What is refused changes nothing.
pub proof fn law_callback_enters_and_leaves_its_own(
    entered: &mut TimerState,
    left: &mut TimerState,
    epoch: u64,
    entry: Result<(), PendingError>,
    exit: Result<(), PendingError>,
)
    requires
        call_ensures(TimerState::dpc_entered, (entered, epoch), entry),
        call_ensures(TimerState::dpc_exiting, (left, epoch), exit),
    ensures
        entry is Ok <==> *old(entered) == (TimerState::Armed { epoch }),
        entry is Ok ==> *final(entered) == (TimerState::Running { epoch }),
        entry == Err::<(), _>(PendingError::WrongRingState) <==> *old(entered)
            == TimerState::Quiesced,
        entry == Err::<(), _>(PendingError::WrongInstall) <==> *old(entered)
            != TimerState::Quiesced && *old(entered) != (TimerState::Armed { epoch }),
        entry is Err ==> *final(entered) == *old(entered),
        exit is Ok <==> *old(left) == (TimerState::Running { epoch }),
        exit is Ok ==> *final(left) == TimerState::Quiesced,
        exit is Err ==> exit == Err::<(), _>(PendingError::WrongRingState) && *final(left)
            == *old(left),
{
}

/// A cancel stops exactly a timer armed for its install that was dequeued before
/// it ran. At rest there is nothing to cancel, another install's timer is left to
/// it, and a callback that runs or is about to is waited for.
pub proof fn law_cancel_stops_only_what_has_not_run(
    timer: &mut TimerState,
    epoch: u64,
    dequeued: bool,
    cancelled: PendingTimerCancel,
)
    requires
        call_ensures(TimerState::cancel, (timer, epoch, dequeued), cancelled),
    ensures
        cancelled == PendingTimerCancel::NotArmed <==> *old(timer) == TimerState::Quiesced,
        cancelled == PendingTimerCancel::DequeuedBeforeRun <==> dequeued && *old(timer) == (
        TimerState::Armed { epoch }),
        cancelled == PendingTimerCancel::RequiresDpcExitWait <==> *old(timer) == (
        TimerState::Running { epoch }) || (!dequeued && *old(timer) == (TimerState::Armed { epoch
        })),
        cancelled == PendingTimerCancel::NotThisInstall <==> *old(timer) != TimerState::Quiesced
            && *old(timer) != (TimerState::Armed { epoch }) && *old(timer) != (
        TimerState::Running { epoch }),
        cancelled == PendingTimerCancel::DequeuedBeforeRun ==> *final(timer)
            == TimerState::Quiesced,
        cancelled != PendingTimerCancel::DequeuedBeforeRun ==> *final(timer) == *old(timer),
{
}

/// A finite wait is due that many milliseconds from now, in units of a hundred
/// nanoseconds, counted down from zero: a longer wait is due later.
pub proof fn law_due_time_counts_down(
    milliseconds: u32,
    longer: u32,
    due: Option<i64>,
    later: Option<i64>,
)
    requires
        call_ensures(finite_due_time_100ns, (milliseconds,), due),
        call_ensures(finite_due_time_100ns, (longer,), later),
    ensures
        due is Some && later is Some,
        due->0 + 10_000 * milliseconds == 0,
        milliseconds < longer ==> later->0 < due->0,
{
}

/// At the callback's level exactly three actions are forbidden: taking the packet
/// from its queue, writing its result, and completing it.
pub proof fn law_three_actions_are_forbidden(action: PendingCallbackAction, forbidden: bool)
    requires
        call_ensures(PendingCallbackAction::forbidden_at_dispatch_level, (action,), forbidden),
    ensures
        forbidden == action.is_forbidden(),
        forbidden <==> action == PendingCallbackAction::RemoveIrpFromCsq || action
            == PendingCallbackAction::WriteResultStorage || action
            == PendingCallbackAction::CompleteIrp,
{
}

/// A callback of its own install records the timeout, queues the worker, gives its
/// token back and only then publishes that it is done; one of another install does
/// nothing. A worker's pass polls before it takes the packet, and writes the result
/// before it completes it.
pub proof fn law_callbacks_go_in_this_order()
    ensures
        PendingDpcPath::OwnEpoch.order() == seq![
            PendingCallbackAction::EnterRunning,
            PendingCallbackAction::RecordTimeoutWake,
            PendingCallbackAction::QueueWorker,
            PendingCallbackAction::ReleaseDpcOwner,
            PendingCallbackAction::PublishQuiesced,
        ],
        PendingDpcPath::StaleEpoch.order() == Seq::<PendingCallbackAction>::empty(),
        PENDING_WORKER_PASS_ORDER@ == seq![
            PendingCallbackAction::BeginWorkerPass,
            PendingCallbackAction::PollAndRecheck,
            PendingCallbackAction::RemoveIrpFromCsq,
            PendingCallbackAction::WriteResultStorage,
            PendingCallbackAction::CompleteIrp,
            PendingCallbackAction::FinishWorkerPass,
        ],
{
    assert(PENDING_DPC_OWN_EPOCH_ORDER@ =~= seq![
        PendingCallbackAction::EnterRunning,
        PendingCallbackAction::RecordTimeoutWake,
        PendingCallbackAction::QueueWorker,
        PendingCallbackAction::ReleaseDpcOwner,
        PendingCallbackAction::PublishQuiesced,
    ]);
    assert(PENDING_DPC_STALE_EPOCH_ORDER@ =~= Seq::<PendingCallbackAction>::empty());
    assert(PENDING_WORKER_PASS_ORDER@ =~= seq![
        PendingCallbackAction::BeginWorkerPass,
        PendingCallbackAction::PollAndRecheck,
        PendingCallbackAction::RemoveIrpFromCsq,
        PendingCallbackAction::WriteResultStorage,
        PendingCallbackAction::CompleteIrp,
        PendingCallbackAction::FinishWorkerPass,
    ]);
}

/// A callback's pass is its own exactly if the timer was armed for its install, and
/// then the timer runs; any other callback leaves the timer as it was. Each step of
/// a pass is the next of its path, and the exit is signalled after the last.
pub proof fn law_pass_is_its_installs_own(
    timer: &mut TimerState,
    epoch: u64,
    pass: PendingDpcPass,
    step: PendingDpcStep,
)
    requires
        call_ensures(PendingDpcPass::begin_dpc_pass, (timer, epoch), pass),
        call_ensures(PendingDpcPass::run_next_dpc_effect, (pass,), step),
    ensures
        pass@.epoch == epoch,
        pass@.index == 0,
        pass@.path == PendingDpcPath::OwnEpoch <==> *old(timer) == (TimerState::Armed { epoch }),
        pass@.path == PendingDpcPath::OwnEpoch ==> *final(timer) == (TimerState::Running { epoch })
            && (step matches PendingDpcStep::Perform(action, rest) && action
            == PendingCallbackAction::EnterRunning && rest@.index == 1 && rest@.path == pass@.path
            && rest@.epoch == epoch),
        pass@.path == PendingDpcPath::StaleEpoch ==> *final(timer) == *old(timer) && (
        step matches PendingDpcStep::SignalExit(ticket) && ticket@.epoch == epoch && ticket@.path
            == pass@.path),
{
}

/// What a callback does is its path's effects, and its exit is of its own install
/// and path.
pub proof fn law_callback_exits_its_own(
    path: PendingDpcPath,
    effects: &'static [PendingCallbackAction],
    ticket: PendingDpcExitTicket,
    epoch: u64,
    named: PendingDpcPath,
    signalled: u64,
    timer: TimerState,
    armed: Option<u64>,
)
    requires
        call_ensures(PendingDpcPath::effects, (path,), effects),
        call_ensures(PendingDpcExitTicket::epoch, (&ticket,), epoch),
        call_ensures(PendingDpcExitTicket::path, (&ticket,), named),
        call_ensures(PendingDpcExitTicket::commit_after_exit_signalled, (ticket,), signalled),
        call_ensures(TimerState::epoch, (timer,), armed),
    ensures
        path == PendingDpcPath::StaleEpoch <==> effects@.len() == 0,
        path == PendingDpcPath::OwnEpoch ==> effects@.len() == 5 && effects@[0]
            == PendingCallbackAction::EnterRunning && effects@[1]
            == PendingCallbackAction::RecordTimeoutWake && effects@[2]
            == PendingCallbackAction::QueueWorker && effects@[3]
            == PendingCallbackAction::ReleaseDpcOwner && effects@[4]
            == PendingCallbackAction::PublishQuiesced,
        epoch == ticket@.epoch,
        named == ticket@.path,
        signalled == epoch,
        armed is None <==> timer == TimerState::Quiesced,
        timer matches TimerState::Armed { epoch: own } ==> armed == Some(own),
        timer matches TimerState::Running { epoch: own } ==> armed == Some(own),
{
}

} // verus!
