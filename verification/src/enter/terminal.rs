//! How a parked ENTER ends.
//!
//! Cancellation, timeout, wake, fence and unload contend for one end; the first
//! wins and its completion is the request's.

use crate::terminal::{ClaimOutcome, ClaimantKind, TerminalClaim, TerminalOwner};
use vstd::prelude::*;

verus! {

/// Who contends for the end of a parked request.
#[derive(Clone, Copy, Debug, PartialEq, Eq, Structural)]
pub enum EnterContender {
    Cancel,
    Timeout,
    Wake,
    Fence,
    Unload,
}

/// How a parked request completes.
#[derive(Clone, Copy, Debug, PartialEq, Eq, Structural)]
pub enum PendingCompletion {
    Cancelled,
    TimedOut,
    Ready,
    Fenced,
    Unloaded,
    /// The request's first commit succeeded. No contender brings this about.
    SuccessAfterCommit,
}

impl EnterContender {
    /// Who claims the end for this contender.
    pub open spec fn claimant_of(self) -> ClaimantKind {
        match self {
            EnterContender::Wake => ClaimantKind::EnterContinuation,
            EnterContender::Cancel => ClaimantKind::Cancellation,
            EnterContender::Timeout => ClaimantKind::Timeout,
            EnterContender::Fence => ClaimantKind::Fence,
            EnterContender::Unload => ClaimantKind::Unload,
        }
    }

    /// How the request completes where this contender wins.
    pub open spec fn completion_of(self) -> PendingCompletion {
        match self {
            EnterContender::Cancel => PendingCompletion::Cancelled,
            EnterContender::Timeout => PendingCompletion::TimedOut,
            EnterContender::Wake => PendingCompletion::Ready,
            EnterContender::Fence => PendingCompletion::Fenced,
            EnterContender::Unload => PendingCompletion::Unloaded,
        }
    }

    /// Who claims the end for this contender.
    pub fn claimant(self) -> (claimant: ClaimantKind)
        ensures
            claimant == self.claimant_of(),
    {
        match self {
            EnterContender::Wake => ClaimantKind::EnterContinuation,
            EnterContender::Cancel => ClaimantKind::Cancellation,
            EnterContender::Timeout => ClaimantKind::Timeout,
            EnterContender::Fence => ClaimantKind::Fence,
            EnterContender::Unload => ClaimantKind::Unload,
        }
    }

    /// How the request completes where this contender wins.
    pub fn completion(self) -> (completion: PendingCompletion)
        ensures
            completion == self.completion_of(),
    {
        match self {
            EnterContender::Cancel => PendingCompletion::Cancelled,
            EnterContender::Timeout => PendingCompletion::TimedOut,
            EnterContender::Wake => PendingCompletion::Ready,
            EnterContender::Fence => PendingCompletion::Fenced,
            EnterContender::Unload => PendingCompletion::Unloaded,
        }
    }
}

/// The winner's right to complete the request. It cannot be copied, and only
/// winning the contention makes one.
#[must_use]
#[derive(Debug)]
pub struct PendingTerminalRight {
    terminal: EnterContender,
    claim: TerminalClaim,
}

impl View for PendingTerminalRight {
    type V = EnterContender;

    closed spec fn view(&self) -> EnterContender {
        self.terminal
    }
}

impl PendingTerminalRight {
    /// The claim is that of this contender's claimant.
    #[verifier::type_invariant]
    closed spec fn inv(self) -> bool {
        self.claim@ == self.terminal.claimant_of()
    }

    /// Complete the request as its winner does.
    pub fn finish(self) -> (completion: PendingCompletion)
        ensures
            completion == self@.completion_of(),
    {
        self.terminal.completion()
    }
}

/// What contending came to.
#[must_use]
#[derive(Debug)]
pub enum PendingOutcome {
    Won(PendingTerminalRight),
    Lost { winner: Option<ClaimantKind> },
}

/// One parked request's end.
#[derive(Debug)]
pub struct PendingEnter {
    invocation: u64,
    terminal: TerminalOwner,
}

/// What a parked request's end holds: its invocation, and who claimed it.
pub struct PendingEnterModel {
    pub invocation: u64,
    pub winner: Option<ClaimantKind>,
}

impl View for PendingEnter {
    type V = PendingEnterModel;

    closed spec fn view(&self) -> PendingEnterModel {
        PendingEnterModel { invocation: self.invocation, winner: self.terminal@ }
    }
}

/// A claim of `terminal` on a request in state `before` left it `after` and came
/// to `outcome`: the first claim wins, and every later one loses to it and
/// changes nothing.
pub open spec fn claim_settled(
    before: PendingEnterModel,
    terminal: EnterContender,
    after: PendingEnterModel,
    outcome: PendingOutcome,
) -> bool {
    match before.winner {
        None => {
            &&& outcome matches PendingOutcome::Won(right)
            &&& right@ == terminal
            &&& after == (PendingEnterModel { winner: Some(terminal.claimant_of()), ..before })
        },
        Some(winner) => {
            &&& outcome matches PendingOutcome::Lost { winner: told }
            &&& told == Some(winner)
            &&& after == before
        },
    }
}

impl PendingEnter {
    /// A request whose end nobody has claimed.
    pub fn new(invocation: u64) -> (parked: Self)
        ensures
            parked@ == (PendingEnterModel { invocation, winner: None }),
    {
        Self { invocation, terminal: TerminalOwner::new() }
    }

    /// The request's invocation.
    pub fn invocation(&self) -> (invocation: u64)
        ensures
            invocation == self@.invocation,
    {
        self.invocation
    }

    /// Contend for the end.
    pub fn contend(&mut self, terminal: EnterContender) -> (outcome: PendingOutcome)
        ensures
            claim_settled(old(self)@, terminal, final(self)@, outcome),
    {
        match self.terminal.claim(terminal.claimant()) {
            ClaimOutcome::Won(claim) => PendingOutcome::Won(PendingTerminalRight { terminal, claim }),
            ClaimOutcome::Lost { winner } => PendingOutcome::Lost { winner },
        }
    }
}

/// At most one contender wins a request: of two claims in a row, the second
/// loses to whoever claimed before it.
pub proof fn law_only_the_first_claim_wins(
    start: PendingEnterModel,
    first: EnterContender,
    middle: PendingEnterModel,
    first_outcome: PendingOutcome,
    second: EnterContender,
    end: PendingEnterModel,
    second_outcome: PendingOutcome,
)
    requires
        claim_settled(start, first, middle, first_outcome),
        claim_settled(middle, second, end, second_outcome),
    ensures
        second_outcome is Lost,
        second_outcome->winner == middle.winner,
        end == middle,
{
}

/// No contention ends a request as a success: a completed contention is a
/// cancellation, a timeout, a wake, a fence or an unload.
pub proof fn law_contention_is_no_success(
    before: PendingEnterModel,
    terminal: EnterContender,
    after: PendingEnterModel,
    outcome: PendingOutcome,
)
    requires
        claim_settled(before, terminal, after, outcome),
    ensures
        outcome matches PendingOutcome::Won(right) ==> right@.completion_of()
            != PendingCompletion::SuccessAfterCommit,
{
}

/// The first claim wins for its contender, and records who claimed: a
/// cancellation, a timeout, a fence and an unload by their own names, and a wake
/// as the continuation of the request. The invocation stays.
pub proof fn law_first_claim_is_recorded(
    before: PendingEnterModel,
    terminal: EnterContender,
    after: PendingEnterModel,
    outcome: PendingOutcome,
)
    requires
        claim_settled(before, terminal, after, outcome),
        before.winner is None,
    ensures
        outcome matches PendingOutcome::Won(right) && right@ == terminal,
        after.invocation == before.invocation,
        after.winner == Some(
            match terminal {
                EnterContender::Cancel => ClaimantKind::Cancellation,
                EnterContender::Timeout => ClaimantKind::Timeout,
                EnterContender::Wake => ClaimantKind::EnterContinuation,
                EnterContender::Fence => ClaimantKind::Fence,
                EnterContender::Unload => ClaimantKind::Unload,
            },
        ),
{
}

/// A claim on a request that somebody claimed loses, is told who won, and changes
/// nothing.
pub proof fn law_late_claim_loses(
    before: PendingEnterModel,
    terminal: EnterContender,
    after: PendingEnterModel,
    outcome: PendingOutcome,
)
    requires
        claim_settled(before, terminal, after, outcome),
        before.winner is Some,
    ensures
        outcome matches PendingOutcome::Lost { winner } && winner == before.winner,
        after == before,
{
}

/// Each contender completes a request in its own way, and no two alike.
pub proof fn law_contenders_complete_apart(first: EnterContender, second: EnterContender)
    ensures
        first.completion_of() == PendingCompletion::Cancelled <==> first == EnterContender::Cancel,
        first.completion_of() == PendingCompletion::TimedOut <==> first == EnterContender::Timeout,
        first.completion_of() == PendingCompletion::Ready <==> first == EnterContender::Wake,
        first.completion_of() == PendingCompletion::Fenced <==> first == EnterContender::Fence,
        first.completion_of() == PendingCompletion::Unloaded <==> first == EnterContender::Unload,
        first.completion_of() == second.completion_of() ==> first == second,
{
}

/// Each contender claims in its own name and completes in its own way, and what it
/// finishes is what it would complete.
pub proof fn law_contender_keeps_its_name(
    contender: EnterContender,
    claimant: ClaimantKind,
    completion: PendingCompletion,
    right: PendingTerminalRight,
    finished: PendingCompletion,
)
    requires
        call_ensures(EnterContender::claimant, (contender,), claimant),
        call_ensures(EnterContender::completion, (contender,), completion),
        call_ensures(PendingTerminalRight::finish, (right,), finished),
    ensures
        claimant == ClaimantKind::Cancellation <==> contender == EnterContender::Cancel,
        claimant == ClaimantKind::Timeout <==> contender == EnterContender::Timeout,
        claimant == ClaimantKind::EnterContinuation <==> contender == EnterContender::Wake,
        claimant == ClaimantKind::Fence <==> contender == EnterContender::Fence,
        claimant == ClaimantKind::Unload <==> contender == EnterContender::Unload,
        completion == PendingCompletion::Cancelled <==> contender == EnterContender::Cancel,
        completion == PendingCompletion::TimedOut <==> contender == EnterContender::Timeout,
        completion == PendingCompletion::Ready <==> contender == EnterContender::Wake,
        completion == PendingCompletion::Fenced <==> contender == EnterContender::Fence,
        completion == PendingCompletion::Unloaded <==> contender == EnterContender::Unload,
        right@ == contender ==> finished == completion,
{
}

/// A parked request is won by its first contender, and by no other: the winner's
/// right is its own, and a loser learns who won.
pub proof fn law_request_is_won_once(
    parked: &mut PendingEnter,
    contender: EnterContender,
    outcome: PendingOutcome,
)
    requires
        call_ensures(PendingEnter::contend, (parked, contender), outcome),
    ensures
        outcome is Won <==> old(parked)@.winner is None,
        outcome matches PendingOutcome::Won(right) ==> right@ == contender && final(parked)@.winner
            is Some,
        outcome matches PendingOutcome::Lost { winner } ==> winner == old(parked)@.winner
            && final(parked)@ == old(parked)@,
        final(parked)@.invocation == old(parked)@.invocation,
{
}

/// A request is parked unclaimed, under its own invocation.
pub proof fn law_parked_request_is_unclaimed(
    invocation: u64,
    parked: PendingEnter,
    named: u64,
)
    requires
        call_ensures(PendingEnter::new, (invocation,), parked),
        call_ensures(PendingEnter::invocation, (&parked,), named),
    ensures
        named == invocation,
        parked@.winner is None,
{
}

} // verus!
