//! Who ends a request: the first to claim it, and no other.

use vstd::prelude::*;

verus! {

/// Who may end a request.
#[derive(Clone, Copy, Debug, PartialEq, Eq, Structural)]
pub enum ClaimantKind {
    EnterContinuation,
    Cancellation,
    Timeout,
    Fence,
    Unload,
}

/// The end of one request, claimed or not.
#[derive(Debug)]
pub struct TerminalOwner {
    winner: Option<ClaimantKind>,
}

/// The one claim that won. It cannot be copied.
#[must_use]
#[derive(Debug)]
pub struct TerminalClaim {
    winner: ClaimantKind,
}

/// What a claim came to.
#[must_use]
#[derive(Debug)]
pub enum ClaimOutcome {
    Won(TerminalClaim),
    Lost { winner: Option<ClaimantKind> },
}

impl View for TerminalOwner {
    type V = Option<ClaimantKind>;

    closed spec fn view(&self) -> Option<ClaimantKind> {
        self.winner
    }
}

impl View for TerminalClaim {
    type V = ClaimantKind;

    closed spec fn view(&self) -> ClaimantKind {
        self.winner
    }
}

impl TerminalOwner {
    /// An end that nobody has claimed.
    pub fn new() -> (owner: Self)
        ensures
            owner@ is None,
    {
        Self { winner: None }
    }

    /// Claim the end. The first claim wins; every later one learns who did.
    pub fn claim(&mut self, claimant: ClaimantKind) -> (outcome: ClaimOutcome)
        ensures
            match old(self)@ {
                None => {
                    &&& outcome matches ClaimOutcome::Won(claim)
                    &&& claim@ == claimant
                    &&& final(self)@ == Some(claimant)
                },
                Some(winner) => {
                    &&& outcome matches ClaimOutcome::Lost { winner: told }
                    &&& told == Some(winner)
                    &&& *final(self) == *old(self)
                },
            },
    {
        match self.winner {
            None => {
                self.winner = Some(claimant);
                ClaimOutcome::Won(TerminalClaim { winner: claimant })
            },
            Some(winner) => ClaimOutcome::Lost { winner: Some(winner) },
        }
    }
}

impl TerminalClaim {
    /// Who won.
    pub fn winner(&self) -> (winner: ClaimantKind)
        ensures
            winner == self@,
    {
        self.winner
    }
}

/// The first claim of an end wins it and is on record from then on. Every later
/// one, whoever makes it, changes nothing and is told who won.
pub proof fn law_end_is_claimed_once(
    end: &mut TerminalOwner,
    claimant: ClaimantKind,
    outcome: ClaimOutcome,
)
    requires
        call_ensures(TerminalOwner::claim, (end, claimant), outcome),
    ensures
        outcome is Won <==> old(end)@ is None,
        outcome matches ClaimOutcome::Won(claim) ==> claim@ == claimant && final(end)@ == Some(
            claimant,
        ),
        outcome matches ClaimOutcome::Lost { winner } ==> winner == old(end)@ && final(end)@
            == old(end)@,
        final(end)@ is Some,
{
}

/// A new end is nobody's.
pub proof fn law_new_end_is_unclaimed(end: TerminalOwner)
    requires
        call_ensures(TerminalOwner::new, (), end),
    ensures
        end@ is None,
{
}

} // verus!
