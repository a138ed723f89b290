//! One parked packet, and the one right to complete it.
//!
//! A packet leaves its queue once. Whoever takes it out before the handoff is
//! done leaves a receipt behind, which the handoff passes on; whoever takes it
//! out after the handoff gets the receipt. The receipt is traded for the right
//! to complete the packet.

use crate::enter::irp::IrpObservation;
use crate::enter::role::lease::{EnterExecutionBrand, SqWaitRoleLease};
use crate::enter::terminal::{
    EnterContender, PendingCompletion, PendingEnter, PendingEnterModel, PendingOutcome,
    PendingTerminalRight,
};
use crate::enter::wake::PendingReason;
use crate::session::{PendingError, PendingInstallId};
use vstd::prelude::*;

verus! {

/// The proof that a packet was taken out of its queue. It cannot be copied.
#[must_use]
#[derive(Debug)]
pub struct DequeuedIrp {
    install: PendingInstallId,
    reason: PendingReason,
    irp: IrpObservation,
}

/// What a dequeue receipt says.
pub struct DequeuedModel {
    pub install: PendingInstallId,
    pub reason: PendingReason,
    pub irp: IrpObservation,
}

impl View for DequeuedIrp {
    type V = DequeuedModel;

    closed spec fn view(&self) -> DequeuedModel {
        DequeuedModel { install: self.install, reason: self.reason, irp: self.irp }
    }
}

impl DequeuedIrp {
    /// The install whose packet was taken out.
    pub fn install(&self) -> (install: PendingInstallId)
        ensures
            install == self@.install,
    {
        self.install
    }

    /// Why it was taken out.
    pub fn reason(&self) -> (reason: PendingReason)
        ensures
            reason == self@.reason,
    {
        self.reason
    }

    /// The packet.
    pub fn irp(&self) -> (irp: IrpObservation)
        ensures
            irp == self@.irp,
    {
        self.irp
    }
}

/// A parked request: its install, its packet and its end.
#[must_use]
#[derive(Debug)]
pub struct OwnedParkedEnter {
    install: PendingInstallId,
    irp: IrpObservation,
    terminal: PendingEnter,
}

/// What a parked request is.
pub struct ParkedModel {
    pub install: PendingInstallId,
    pub irp: IrpObservation,
    pub terminal: PendingEnterModel,
}

impl View for OwnedParkedEnter {
    type V = ParkedModel;

    closed spec fn view(&self) -> ParkedModel {
        ParkedModel { install: self.install, irp: self.irp, terminal: self.terminal@ }
    }
}

impl OwnedParkedEnter {
    /// The parked install.
    pub fn install(&self) -> (install: PendingInstallId)
        ensures
            install == self@.install,
    {
        self.install
    }

    /// The parked packet.
    pub fn irp(&self) -> (irp: IrpObservation)
        ensures
            irp == self@.irp,
    {
        self.irp
    }
}

/// What becomes of a dequeue that came before the handoff was done.
#[derive(Clone, Copy, Debug, PartialEq, Eq, Structural)]
pub enum EarlyDequeueDisposition {
    /// The canceller gives its token back and leaves the rest to the handoff.
    ReleaseCancelOwnerOnly,
}

/// The arbiter of one execution's parked packet.
#[derive(Debug)]
pub struct PendingIrpArbiter {
    execution: EnterExecutionBrand,
    parked: Option<OwnedParkedEnter>,
    early: Option<DequeuedIrp>,
    handed_off: bool,
}

/// What an arbiter holds.
pub struct ArbiterModel {
    pub execution: EnterExecutionBrand,
    pub parked: Option<ParkedModel>,
    pub early: Option<DequeuedModel>,
    pub handed_off: bool,
}

impl View for PendingIrpArbiter {
    type V = ArbiterModel;

    closed spec fn view(&self) -> ArbiterModel {
        ArbiterModel {
            execution: self.execution,
            parked: match self.parked {
                Some(parked) => Some(parked@),
                None => None,
            },
            early: match self.early {
                Some(receipt) => Some(receipt@),
                None => None,
            },
            handed_off: self.handed_off,
        }
    }
}

/// Why a dequeue is no valid dequeue of the parked packet, if it is not.
pub open spec fn dequeue_refusal(
    arbiter: ArbiterModel,
    install: PendingInstallId,
    csq_return: usize,
) -> Option<PendingError> {
    match arbiter.parked {
        None => Some(PendingError::NotDequeued),
        Some(parked) => if parked.install != install {
            Some(PendingError::WrongInstall)
        } else if csq_return == 0 || csq_return != parked.irp.address() {
            Some(PendingError::WrongIrp)
        } else if arbiter.early is Some {
            Some(PendingError::AlreadyDequeued)
        } else {
            None
        },
    }
}

/// Why a receipt is not traded in, if it is not.
pub open spec fn contend_refusal(arbiter: ArbiterModel, receipt: DequeuedModel) -> Option<
    PendingError,
> {
    match arbiter.parked {
        None => Some(PendingError::NotDequeued),
        Some(parked) => if parked.install != receipt.install {
            Some(PendingError::WrongInstall)
        } else if parked.irp != receipt.irp {
            Some(PendingError::WrongIrp)
        } else {
            None
        },
    }
}

/// Who contends for the request when it was dequeued for `reason`.
pub open spec fn contender_of(reason: PendingReason) -> EnterContender {
    match reason {
        PendingReason::Cancel => EnterContender::Cancel,
        PendingReason::Timeout => EnterContender::Timeout,
        PendingReason::Readiness => EnterContender::Wake,
        PendingReason::Fence => EnterContender::Fence,
        PendingReason::Unload => EnterContender::Unload,
    }
}

impl PendingIrpArbiter {
    /// An arbiter for the wait that `lease` holds, with nothing parked.
    pub fn bind(lease: &SqWaitRoleLease) -> (arbiter: Self)
        ensures
            arbiter@ == (ArbiterModel {
                execution: lease@,
                parked: None,
                early: None,
                handed_off: false,
            }),
    {
        Self { execution: lease.execution(), parked: None, early: None, handed_off: false }
    }

    /// The execution this arbiter serves.
    pub fn execution(&self) -> (execution: EnterExecutionBrand)
        ensures
            execution == self@.execution,
    {
        self.execution
    }

    /// A request is parked.
    pub fn has_parked(&self) -> (parked: bool)
        ensures
            parked <==> self@.parked is Some,
    {
        self.parked.is_some()
    }

    /// The handoff is done.
    pub fn handoff_is_done(&self) -> (done: bool)
        ensures
            done == self@.handed_off,
    {
        self.handed_off
    }

    /// Park one request. A refusal returns its end.
    pub fn park(
        &mut self,
        install: PendingInstallId,
        irp: IrpObservation,
        terminal: PendingEnter,
    ) -> (result: Result<(), (PendingError, PendingEnter)>)
        ensures
            match result {
                Ok(()) => {
                    &&& install.brand == old(self)@.execution.ring
                    &&& old(self)@.parked is None
                    &&& final(self)@ == (ArbiterModel {
                        parked: Some(ParkedModel { install, irp, terminal: terminal@ }),
                        ..old(self)@
                    })
                },
                Err((error, returned)) => {
                    &&& error == (if install.brand != old(self)@.execution.ring {
                        PendingError::WrongRing
                    } else {
                        PendingError::SlotOccupied
                    })
                    &&& install.brand != old(self)@.execution.ring || old(self)@.parked is Some
                    &&& returned == terminal
                    &&& *final(self) == *old(self)
                },
            },
    {
        if install.brand != self.execution.ring {
            return Err((PendingError::WrongRing, terminal));
        }
        if self.parked.is_some() {
            return Err((PendingError::SlotOccupied, terminal));
        }
        self.parked = Some(OwnedParkedEnter { install, irp, terminal });
        Ok(())
    }

    /// Report that the parked packet left its queue; `csq_return` is what the
    /// queue returned.
    ///
    /// After the handoff the caller gets the receipt. Before it, the receipt is
    /// kept for the handoff and the caller is told that it is closing.
    pub fn dequeue(
        &mut self,
        install: PendingInstallId,
        csq_return: usize,
        reason: PendingReason,
    ) -> (result: Result<DequeuedIrp, PendingError>)
        ensures
            ({
                let refusal = dequeue_refusal(old(self)@, install, csq_return);
                let receipt = DequeuedModel {
                    install,
                    reason,
                    irp: old(self)@.parked->0.irp,
                };
                if refusal is Some {
                    &&& result == Err::<DequeuedIrp, PendingError>(refusal->0)
                    &&& *final(self) == *old(self)
                } else if old(self)@.handed_off {
                    &&& result matches Ok(handed)
                    &&& handed@ == receipt
                    &&& *final(self) == *old(self)
                } else {
                    &&& result == Err::<DequeuedIrp, PendingError>(PendingError::Closing)
                    &&& final(self)@ == (ArbiterModel { early: Some(receipt), ..old(self)@ })
                }
            }),
    {
        let parked = match &self.parked {
            Some(parked) => parked,
            None => {
                return Err(PendingError::NotDequeued);
            },
        };
        if parked.install != install {
            return Err(PendingError::WrongInstall);
        }
        let observed = match IrpObservation::from_raw(csq_return) {
            Some(observed) => observed,
            None => {
                return Err(PendingError::WrongIrp);
            },
        };
        proof {
            if observed.address() == parked.irp.address() {
                crate::enter::irp::law_address_names_the_packet(observed, parked.irp);
            }
        }
        if observed != parked.irp {
            return Err(PendingError::WrongIrp);
        }
        if self.early.is_some() {
            return Err(PendingError::AlreadyDequeued);
        }
        let receipt = DequeuedIrp { install, reason, irp: observed };
        if self.handed_off {
            return Ok(receipt);
        }
        self.early = Some(receipt);
        Err(PendingError::Closing)
    }

    /// What becomes of an early dequeue, if there was one.
    pub fn early_disposition(&self) -> (disposition: Option<EarlyDequeueDisposition>)
        ensures
            disposition == (if self@.early is Some {
                Some(EarlyDequeueDisposition::ReleaseCancelOwnerOnly)
            } else {
                None
            }),
    {
        if self.early.is_some() {
            Some(EarlyDequeueDisposition::ReleaseCancelOwnerOnly)
        } else {
            None
        }
    }

    /// Finish the handoff and learn whether a dequeue came before it.
    pub fn handoff_done(&mut self) -> (result: Result<bool, PendingError>)
        ensures
            match result {
                Ok(early) => {
                    &&& old(self)@.parked is Some
                    &&& !old(self)@.handed_off
                    &&& early <==> old(self)@.early is Some
                    &&& final(self)@ == (ArbiterModel { handed_off: true, ..old(self)@ })
                },
                Err(error) => {
                    &&& old(self)@.parked is None || old(self)@.handed_off
                    &&& error == (if old(self)@.parked is None {
                        PendingError::NotDequeued
                    } else {
                        PendingError::WrongRingState
                    })
                    &&& *final(self) == *old(self)
                },
            },
    {
        if self.parked.is_none() {
            return Err(PendingError::NotDequeued);
        }
        if self.handed_off {
            return Err(PendingError::WrongRingState);
        }
        self.handed_off = true;
        Ok(self.early.is_some())
    }

    /// Take the receipt of an early dequeue, once the handoff is done.
    pub fn take_early_receipt(&mut self) -> (receipt: Option<DequeuedIrp>)
        ensures
            match receipt {
                Some(taken) => {
                    &&& old(self)@.handed_off
                    &&& old(self)@.early == Some(taken@)
                    &&& final(self)@ == (ArbiterModel { early: None, ..old(self)@ })
                },
                None => {
                    &&& !old(self)@.handed_off || old(self)@.early is None
                    &&& final(self)@ == old(self)@
                },
            },
    {
        if !self.handed_off {
            return None;
        }
        self.early.take()
    }

    /// Trade a receipt for the right to complete the packet. A refusal returns
    /// the receipt.
    ///
    /// The parked request leaves with the receipt, so its end has one contender.
    pub fn contend(&mut self, receipt: DequeuedIrp) -> (result: Result<
        (PendingTerminalRight, IrpObservation),
        (PendingError, DequeuedIrp),
    >)
        requires
            contend_refusal(old(self)@, receipt@) is None
                ==> old(self)@.parked->0.terminal.winner is None,
        ensures
            match result {
                Ok((right, irp)) => {
                    &&& contend_refusal(old(self)@, receipt@) is None
                    &&& right@ == contender_of(receipt@.reason)
                    &&& right@.completion_of() == (match receipt@.reason {
                        PendingReason::Cancel => PendingCompletion::Cancelled,
                        PendingReason::Timeout => PendingCompletion::TimedOut,
                        PendingReason::Readiness => PendingCompletion::Ready,
                        PendingReason::Fence => PendingCompletion::Fenced,
                        PendingReason::Unload => PendingCompletion::Unloaded,
                    })
                    &&& irp == receipt@.irp
                    &&& final(self)@ == (ArbiterModel { parked: None, ..old(self)@ })
                },
                Err((error, returned)) => {
                    &&& contend_refusal(old(self)@, receipt@) == Some(error)
                    &&& returned == receipt
                    &&& *final(self) == *old(self)
                },
            },
    {
        match &self.parked {
            None => {
                return Err((PendingError::NotDequeued, receipt));
            },
            Some(parked) => {
                if parked.install != receipt.install {
                    return Err((PendingError::WrongInstall, receipt));
                }
                if parked.irp != receipt.irp {
                    return Err((PendingError::WrongIrp, receipt));
                }
            },
        }
        let contender = match receipt.reason {
            PendingReason::Cancel => EnterContender::Cancel,
            PendingReason::Timeout => EnterContender::Timeout,
            PendingReason::Readiness => EnterContender::Wake,
            PendingReason::Fence => EnterContender::Fence,
            PendingReason::Unload => EnterContender::Unload,
        };
        match self.parked.take() {
            None => {
                assert(false);
                Err((PendingError::NotDequeued, receipt))
            },
            Some(parked) => {
                let mut terminal = parked.terminal;
                match terminal.contend(contender) {
                    PendingOutcome::Won(right) => Ok((right, parked.irp)),
                    PendingOutcome::Lost { winner: _ } => {
                        assert(false);
                        Err((PendingError::NotDequeued, receipt))
                    },
                }
            },
        }
    }
}

/// A packet is dequeued once: after an early dequeue a second one is refused,
/// before and after the handoff, until the receipt is taken.
pub proof fn law_second_dequeue_is_refused(
    arbiter: ArbiterModel,
    install: PendingInstallId,
    csq_return: usize,
    receipt: DequeuedModel,
    handed_off: bool,
)
    requires
        dequeue_refusal(arbiter, install, csq_return) is None,
    ensures
        dequeue_refusal(
            ArbiterModel { early: Some(receipt), handed_off, ..arbiter },
            install,
            csq_return,
        ) == Some(PendingError::AlreadyDequeued),
{
}

/// The receipt of a valid dequeue is never refused while its request is parked.
pub proof fn law_receipt_of_a_dequeue_contends(
    arbiter: ArbiterModel,
    install: PendingInstallId,
    csq_return: usize,
    reason: PendingReason,
)
    requires
        dequeue_refusal(arbiter, install, csq_return) is None,
    ensures
        contend_refusal(
            arbiter,
            (DequeuedModel { install, reason, irp: arbiter.parked->0.irp }),
        ) is None,
{
}

/// The right won by trading a receipt in completes the request as the receipt's
/// reason does: a cancelled request is cancelled, an expired one has timed out, a
/// ready one is ready, and one that a fence or an unload took out is fenced or
/// unloaded.
pub proof fn law_receipt_completes_as_its_reason(reason: PendingReason)
    ensures
        reason == PendingReason::Cancel ==> contender_of(reason).completion_of()
            == PendingCompletion::Cancelled,
        reason == PendingReason::Timeout ==> contender_of(reason).completion_of()
            == PendingCompletion::TimedOut,
        reason == PendingReason::Readiness ==> contender_of(reason).completion_of()
            == PendingCompletion::Ready,
        reason == PendingReason::Fence ==> contender_of(reason).completion_of()
            == PendingCompletion::Fenced,
        reason == PendingReason::Unload ==> contender_of(reason).completion_of()
            == PendingCompletion::Unloaded,
{
}

/// What a request is taken out for can be told from how it completes, and from
/// who claims its end: receipts with different reasons never end it alike.
pub proof fn law_different_reasons_end_differently(first: PendingReason, second: PendingReason)
    requires
        first != second,
    ensures
        contender_of(first).completion_of() != contender_of(second).completion_of(),
        contender_of(first).claimant_of() != contender_of(second).claimant_of(),
{
}

/// A dequeue is valid exactly for the parked install and the address of its
/// packet, while no early dequeue is on record. Otherwise the answer names what
/// is wrong: nothing parked, then another install, then another packet, then a
/// packet that is out already.
pub proof fn law_dequeue_is_of_the_parked_packet(
    arbiter: ArbiterModel,
    install: PendingInstallId,
    csq_return: usize,
)
    ensures
        ({
            let answer = dequeue_refusal(arbiter, install, csq_return);
            let same_install = arbiter.parked is Some && arbiter.parked->0.install == install;
            let same_packet = csq_return != 0 && csq_return == arbiter.parked->0.irp.address();
            &&& answer is None <==> same_install && same_packet && arbiter.early is None
            &&& answer == Some(PendingError::NotDequeued) <==> arbiter.parked is None
            &&& answer == Some(PendingError::WrongInstall) <==> arbiter.parked is Some
                && !same_install
            &&& answer == Some(PendingError::WrongIrp) <==> same_install && !same_packet
            &&& answer == Some(PendingError::AlreadyDequeued) <==> same_install && same_packet
                && arbiter.early is Some
        }),
{
}

/// A receipt is traded in exactly where the request it names is parked with the
/// packet it names, whatever else the arbiter holds.
pub proof fn law_receipt_is_for_the_parked_packet(
    arbiter: ArbiterModel,
    receipt: DequeuedModel,
    other: ArbiterModel,
)
    ensures
        ({
            let answer = contend_refusal(arbiter, receipt);
            let same_install = arbiter.parked is Some && arbiter.parked->0.install
                == receipt.install;
            let same_packet = arbiter.parked->0.irp == receipt.irp;
            &&& answer is None <==> same_install && same_packet
            &&& answer == Some(PendingError::NotDequeued) <==> arbiter.parked is None
            &&& answer == Some(PendingError::WrongInstall) <==> arbiter.parked is Some
                && !same_install
            &&& answer == Some(PendingError::WrongIrp) <==> same_install && !same_packet
            &&& other.parked == arbiter.parked ==> contend_refusal(other, receipt) == answer
        }),
{
}

/// A receipt that is traded in finishes its request as its own reason says: a
/// cancel as cancelled, a timeout as timed out, readiness as ready, a fence as
/// fenced, an unload as unloaded. The packet handed out is the receipt's, and
/// nothing stays parked.
pub proof fn law_traded_receipt_finishes_as_its_reason(
    arbiter: &mut PendingIrpArbiter,
    receipt: DequeuedIrp,
    result: Result<(PendingTerminalRight, IrpObservation), (PendingError, DequeuedIrp)>,
    finished: PendingCompletion,
)
    requires
        call_ensures(PendingIrpArbiter::contend, (arbiter, receipt), result),
        result is Ok,
        call_ensures(PendingTerminalRight::finish, (result->Ok_0.0,), finished),
    ensures
        finished == PendingCompletion::Cancelled <==> receipt@.reason == PendingReason::Cancel,
        finished == PendingCompletion::TimedOut <==> receipt@.reason == PendingReason::Timeout,
        finished == PendingCompletion::Ready <==> receipt@.reason == PendingReason::Readiness,
        finished == PendingCompletion::Fenced <==> receipt@.reason == PendingReason::Fence,
        finished == PendingCompletion::Unloaded <==> receipt@.reason == PendingReason::Unload,
        result->Ok_0.1 == receipt@.irp,
        final(arbiter)@.parked is None,
        final(arbiter)@.execution == old(arbiter)@.execution,
        final(arbiter)@.early == old(arbiter)@.early,
        final(arbiter)@.handed_off == old(arbiter)@.handed_off,
{
    law_receipt_completes_as_its_reason(receipt@.reason);
}

/// Two receipts with different reasons never finish a request alike, whatever the
/// arbiters and packets.
pub proof fn law_receipts_of_different_reasons_finish_apart(
    one: &mut PendingIrpArbiter,
    other: &mut PendingIrpArbiter,
    first: DequeuedIrp,
    second: DequeuedIrp,
    won: (PendingTerminalRight, IrpObservation),
    also: (PendingTerminalRight, IrpObservation),
    finished: PendingCompletion,
    ended: PendingCompletion,
)
    requires
        call_ensures(
            PendingIrpArbiter::contend,
            (one, first),
            Ok::<_, (PendingError, DequeuedIrp)>(won),
        ),
        call_ensures(
            PendingIrpArbiter::contend,
            (other, second),
            Ok::<_, (PendingError, DequeuedIrp)>(also),
        ),
        call_ensures(PendingTerminalRight::finish, (won.0,), finished),
        call_ensures(PendingTerminalRight::finish, (also.0,), ended),
    ensures
        first@.reason == second@.reason <==> finished == ended,
{
    law_receipt_completes_as_its_reason(first@.reason);
    law_receipt_completes_as_its_reason(second@.reason);
}

/// A request is parked exactly on an empty arbiter of its ring, with the packet and
/// the end it came with. Another ring is refused first, and what is refused comes
/// back and changes nothing.
pub proof fn law_request_is_parked_once(
    arbiter: &mut PendingIrpArbiter,
    install: PendingInstallId,
    irp: IrpObservation,
    terminal: PendingEnter,
    result: Result<(), (PendingError, PendingEnter)>,
)
    requires
        call_ensures(PendingIrpArbiter::park, (arbiter, install, irp, terminal), result),
    ensures
        ({
            let own = install.brand == old(arbiter)@.execution.ring;
            let free = old(arbiter)@.parked is None;
            &&& result is Ok <==> own && free
            &&& result is Ok ==> final(arbiter)@ == (ArbiterModel {
                parked: Some(ParkedModel { install, irp, terminal: terminal@ }),
                ..old(arbiter)@
            })
            &&& result matches Err((error, returned)) ==> {
                &&& error == PendingError::WrongRing <==> !own
                &&& error == PendingError::SlotOccupied <==> own && !free
                &&& returned == terminal
                &&& *final(arbiter) == *old(arbiter)
            }
        }),
{
}

/// A dequeue hands out a receipt exactly after the handoff; before it the receipt is
/// kept and the dequeue told to wait. Either way the receipt is for the parked
/// packet, with the install and the reason it was asked for.
pub proof fn law_dequeue_before_the_handoff_is_kept(
    arbiter: &mut PendingIrpArbiter,
    install: PendingInstallId,
    csq_return: usize,
    reason: PendingReason,
    result: Result<DequeuedIrp, PendingError>,
)
    requires
        call_ensures(PendingIrpArbiter::dequeue, (arbiter, install, csq_return, reason), result),
    ensures
        ({
            let before = old(arbiter)@;
            let after = final(arbiter)@;
            let known = before.parked is Some && before.parked->0.install == install && csq_return
                != 0 && before.parked->0.irp.address() == csq_return && before.early is None;
            &&& result is Ok <==> known && before.handed_off
            &&& result matches Ok(receipt) ==> receipt@.install == install && receipt@.reason
                == reason && receipt@.irp == before.parked->0.irp && after == before
            &&& result == Err::<DequeuedIrp, _>(PendingError::Closing) <==> known
                && !before.handed_off
            &&& known && !before.handed_off ==> after.early is Some && after.early->0.install
                == install && after.early->0.reason == reason && after.early->0.irp
                == before.parked->0.irp && after.parked == before.parked && after.execution
                == before.execution && !after.handed_off
            &&& !known ==> after == before
        }),
{
    law_dequeue_is_of_the_parked_packet(old(arbiter)@, install, csq_return);
}

/// A handoff is done once, and only of a parked request; it says whether a dequeue
/// came before it. An early receipt is handed out once, and only after the handoff.
pub proof fn law_handoff_is_done_once(
    arbiter: &mut PendingIrpArbiter,
    later: &mut PendingIrpArbiter,
    result: Result<bool, PendingError>,
    receipt: Option<DequeuedIrp>,
)
    requires
        call_ensures(PendingIrpArbiter::handoff_done, (arbiter,), result),
        call_ensures(PendingIrpArbiter::take_early_receipt, (later,), receipt),
    ensures
        result is Ok <==> old(arbiter)@.parked is Some && !old(arbiter)@.handed_off,
        result matches Ok(early) ==> (early <==> old(arbiter)@.early is Some) && final(arbiter)@
            == (ArbiterModel { handed_off: true, ..old(arbiter)@ }),
        result == Err::<bool, _>(PendingError::NotDequeued) <==> old(arbiter)@.parked is None,
        result == Err::<bool, _>(PendingError::WrongRingState) <==> old(arbiter)@.parked is Some
            && old(arbiter)@.handed_off,
        result is Err ==> final(arbiter)@ == old(arbiter)@,
        receipt is Some <==> old(later)@.handed_off && old(later)@.early is Some,
        receipt matches Some(taken) ==> old(later)@.early == Some(taken@),
        final(later)@ == (ArbiterModel {
            early: if receipt is Some {
                None
            } else {
                old(later)@.early
            },
            ..old(later)@
        }),
{
}

/// An arbiter begins empty, for the execution of the lease it is bound by, and tells
/// whether something is parked, handed off or dequeued early as it is.
pub proof fn law_arbiter_begins_empty(
    lease: SqWaitRoleLease,
    arbiter: PendingIrpArbiter,
    later: PendingIrpArbiter,
    execution: EnterExecutionBrand,
    parked: bool,
    done: bool,
    disposition: Option<EarlyDequeueDisposition>,
)
    requires
        call_ensures(PendingIrpArbiter::bind, (&lease,), arbiter),
        call_ensures(PendingIrpArbiter::execution, (&arbiter,), execution),
        call_ensures(PendingIrpArbiter::has_parked, (&later,), parked),
        call_ensures(PendingIrpArbiter::handoff_is_done, (&later,), done),
        call_ensures(PendingIrpArbiter::early_disposition, (&later,), disposition),
    ensures
        execution == lease@,
        arbiter@.parked is None,
        arbiter@.early is None,
        !arbiter@.handed_off,
        parked <==> later@.parked is Some,
        done <==> later@.handed_off,
        disposition is Some <==> later@.early is Some,
{
}

/// A receipt tells the install, the packet and the reason it was made for.
pub proof fn law_receipt_tells_what_it_is_for(
    receipt: DequeuedIrp,
    install: PendingInstallId,
    reason: PendingReason,
    irp: IrpObservation,
)
    requires
        call_ensures(DequeuedIrp::install, (&receipt,), install),
        call_ensures(DequeuedIrp::reason, (&receipt,), reason),
        call_ensures(DequeuedIrp::irp, (&receipt,), irp),
    ensures
        receipt@.install == install,
        receipt@.reason == reason,
        receipt@.irp == irp,
{
}

} // verus!
