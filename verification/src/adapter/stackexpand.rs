//! The result contract of an expanded-stack callout.
//!
//! A callout on an expanded stack returns nothing, so its result travels in a
//! slot of the parameter block, and the expansion's own status is a second,
//! independent answer. Two answers admit three outcomes and only one of them
//! is success.
//!
//! SETUP folds every refusal into one answer ([`resolve`]). CLEANUP reads the
//! status ([`resolve_cleanup`]) to tell the one refusal that a wait can clear
//! from those it cannot, and waits for that one only as long as its budget
//! lasts ([`CleanupExpansionBudget`]).

use vstd::prelude::*;

verus! {

/// Why an expanded-stack callout produced no result.
#[derive(Clone, Copy, Debug, PartialEq, Eq, Structural)]
pub enum ExpandFault {
    /// The kernel refused the expansion. The callout never ran, and whatever
    /// the slot holds was not put there by it.
    Refused,
    /// The kernel reported success and the callout left its slot unwritten.
    SlotUnwritten,
}

/// Resolve the expansion's success and the callout's outcome slot into one answer.
pub fn resolve<T>(expanded: bool, slot: Option<T>) -> (result: Result<T, ExpandFault>)
    ensures
        result == (if !expanded {
            Err(ExpandFault::Refused)
        } else if slot is Some {
            Ok(slot->0)
        } else {
            Err(ExpandFault::SlotUnwritten)
        }),
{
    match (expanded, slot) {
        (false, _) => Err(ExpandFault::Refused),
        (true, None) => Err(ExpandFault::SlotUnwritten),
        (true, Some(value)) => Ok(value),
    }
}

/// `STATUS_SUCCESS`, the one status a CLEANUP expansion reads as success.
const STATUS_SUCCESS: i32 = 0;

/// `STATUS_NO_MEMORY`, the bit pattern `0xC000_0017` read as a signed status.
pub const STATUS_NO_MEMORY: i32 = -0x3FFF_FFE9;

/// How many expansions one CLEANUP arrival asks for before it gives up.
///
/// Every refused attempt but the last is followed by one short wait. Bounded
/// because the waiting thread is the one closing the handle, and its wait is
/// one that nothing can break.
pub const CLEANUP_EXPANSION_ATTEMPTS: u32 = 100;

/// Why a CLEANUP expansion produced no result, read from its status.
#[derive(Clone, Copy, Debug, PartialEq, Eq, Structural)]
pub enum CleanupExpandFault {
    /// `STATUS_NO_MEMORY` with the slot empty: the callout never ran. The one
    /// refusal a wait can clear.
    ShortOfMemory,
    /// Any other failure with the slot empty. None clears with time.
    Refused,
    /// A failure status beside a written slot. The two answers disagree, and
    /// running the callout again could take a second claim for one arrival.
    Contradicted,
    /// `STATUS_SUCCESS` with the slot empty: the callout ran and returned
    /// before writing it.
    SlotUnwritten,
}

/// The fault that a status beside an empty or written slot stands for, if any.
pub open spec fn cleanup_fault(status: i32, written: bool) -> Option<CleanupExpandFault> {
    if status == 0 {
        if written {
            None
        } else {
            Some(CleanupExpandFault::SlotUnwritten)
        }
    } else if written {
        Some(CleanupExpandFault::Contradicted)
    } else if status == STATUS_NO_MEMORY {
        Some(CleanupExpandFault::ShortOfMemory)
    } else {
        Some(CleanupExpandFault::Refused)
    }
}

/// Read a CLEANUP expansion's status and slot into one answer.
///
/// Success is `STATUS_SUCCESS` exactly, as in [`resolve`].
pub fn resolve_cleanup<T>(status: i32, slot: Option<T>) -> (result: Result<T, CleanupExpandFault>)
    ensures
        match cleanup_fault(status, slot is Some) {
            Some(fault) => result == Err::<T, CleanupExpandFault>(fault),
            None => slot is Some && result == Ok::<T, CleanupExpandFault>(slot->0),
        },
{
    match slot {
        Some(value) => if status == STATUS_SUCCESS {
            Ok(value)
        } else {
            Err(CleanupExpandFault::Contradicted)
        },
        None => if status == STATUS_SUCCESS {
            Err(CleanupExpandFault::SlotUnwritten)
        } else if status == STATUS_NO_MEMORY {
            Err(CleanupExpandFault::ShortOfMemory)
        } else {
            Err(CleanupExpandFault::Refused)
        },
    }
}

/// What a CLEANUP does after one refused expansion.
#[derive(Clone, Copy, Debug, PartialEq, Eq, Structural)]
pub enum CleanupExpansionRecourse {
    /// Wait one interval, then ask for the expansion again.
    DelayAndRetry,
    /// The kernel was short of memory for the whole budget. Give up.
    Exhausted,
    /// Asking again cannot change the answer. Give up.
    Surrender,
}

/// The expansions one CLEANUP arrival may ask for.
///
/// One per arrival, made before the first attempt. A budget made inside the
/// retry loop would start again on every attempt and bound nothing.
#[derive(Debug)]
pub struct CleanupExpansionBudget {
    attempts: u32,
    limit: u32,
}

/// What a budget holds: refused attempts counted so far, and how many it allows.
pub struct BudgetModel {
    pub attempts: int,
    pub limit: int,
}

/// The count after one more refused attempt; it stops at the largest `u32`.
pub open spec fn counted(attempts: int) -> int {
    if attempts < u32::MAX {
        attempts + 1
    } else {
        u32::MAX as int
    }
}

/// What follows the refusal that made the count `attempts`.
pub open spec fn recourse(
    attempts: int,
    limit: int,
    fault: CleanupExpandFault,
) -> CleanupExpansionRecourse {
    if fault == CleanupExpandFault::ShortOfMemory {
        if attempts < limit {
            CleanupExpansionRecourse::DelayAndRetry
        } else {
            CleanupExpansionRecourse::Exhausted
        }
    } else {
        CleanupExpansionRecourse::Surrender
    }
}

impl View for CleanupExpansionBudget {
    type V = BudgetModel;

    closed spec fn view(&self) -> BudgetModel {
        BudgetModel { attempts: self.attempts as int, limit: self.limit as int }
    }
}

impl CleanupExpansionBudget {
    /// A full budget of [`CLEANUP_EXPANSION_ATTEMPTS`].
    pub fn per_arrival() -> (budget: Self)
        ensures
            budget@ == (BudgetModel { attempts: 0, limit: CLEANUP_EXPANSION_ATTEMPTS as int }),
            budget@.limit == 100,
    {
        Self::with_limit(CLEANUP_EXPANSION_ATTEMPTS)
    }

    /// A budget of `limit` attempts.
    pub fn with_limit(limit: u32) -> (budget: Self)
        ensures
            budget@ == (BudgetModel { attempts: 0, limit: limit as int }),
    {
        Self { attempts: 0, limit }
    }

    /// Count one refused attempt and decide what follows it.
    pub fn answer_refusal(&mut self, fault: CleanupExpandFault) -> (next: CleanupExpansionRecourse)
        ensures
            final(self)@ == (BudgetModel { attempts: counted(old(self)@.attempts), ..old(self)@ }),
            next == recourse(final(self)@.attempts, final(self)@.limit, fault),
    {
        self.attempts = self.attempts.saturating_add(1);
        match fault {
            CleanupExpandFault::ShortOfMemory => if self.attempts < self.limit {
                CleanupExpansionRecourse::DelayAndRetry
            } else {
                CleanupExpansionRecourse::Exhausted
            },
            CleanupExpandFault::Refused
            | CleanupExpandFault::Contradicted
            | CleanupExpandFault::SlotUnwritten => CleanupExpansionRecourse::Surrender,
        }
    }
}

/// The count after `n` refused attempts.
pub open spec fn counted_times(attempts: int, n: nat) -> int
    decreases n,
{
    if n == 0 {
        attempts
    } else {
        counted(counted_times(attempts, (n - 1) as nat))
    }
}

/// A budget is bounded: of a run of memory refusals from a fresh budget, exactly
/// those before the `limit`-th are retried, and every later one is exhausted.
pub proof fn law_budget_is_bounded(limit: u32, n: nat)
    requires
        n > 0,
    ensures
        recourse(counted_times(0, n), limit as int, CleanupExpandFault::ShortOfMemory) == (if n
            < limit {
            CleanupExpansionRecourse::DelayAndRetry
        } else {
            CleanupExpansionRecourse::Exhausted
        }),
{
    lemma_counted_times(n);
}

proof fn lemma_counted_times(n: nat)
    ensures
        counted_times(0, n) == (if n <= u32::MAX {
            n as int
        } else {
            u32::MAX as int
        }),
    decreases n,
{
    if n > 0 {
        lemma_counted_times((n - 1) as nat);
    }
}

/// The four faults and the success are told apart by the two answers alone: only
/// status zero beside a written slot is success, a written slot beside any other
/// status is a contradiction, an empty slot beside zero was never filled, and of
/// the refusals only the one status `0xC000_0017` is a shortage of memory.
pub proof fn law_expansion_is_read_exactly(status: i32, written: bool)
    ensures
        cleanup_fault(status, written) is None <==> status == 0 && written,
        cleanup_fault(status, written) == Some(CleanupExpandFault::SlotUnwritten) <==> status == 0
            && !written,
        cleanup_fault(status, written) == Some(CleanupExpandFault::Contradicted) <==> status != 0
            && written,
        cleanup_fault(status, written) == Some(CleanupExpandFault::ShortOfMemory) <==> !written
            && status == 0xC000_0017 - 0x1_0000_0000,
        cleanup_fault(status, written) == Some(CleanupExpandFault::Refused) <==> !written && status
            != 0 && status != 0xC000_0017 - 0x1_0000_0000,
{
}

/// Only a shortage of memory is ever waited out: whatever the counts, every other
/// fault gives up at once, and a shortage is retried exactly while fewer attempts
/// than the limit were refused.
pub proof fn law_only_a_shortage_is_waited_out(
    attempts: int,
    limit: int,
    fault: CleanupExpandFault,
)
    ensures
        recourse(attempts, limit, fault) == CleanupExpansionRecourse::Surrender <==> fault
            != CleanupExpandFault::ShortOfMemory,
        recourse(attempts, limit, fault) == CleanupExpansionRecourse::DelayAndRetry <==> fault
            == CleanupExpandFault::ShortOfMemory && attempts < limit,
        recourse(attempts, limit, fault) == CleanupExpansionRecourse::Exhausted <==> fault
            == CleanupExpandFault::ShortOfMemory && attempts >= limit,
{
}

/// Each refusal is counted once, and the count never falls and never leaves its
/// range.
pub proof fn law_refusals_are_counted_by_one(attempts: u32)
    ensures
        attempts <= counted(attempts as int) <= u32::MAX,
        counted(attempts as int) == attempts <==> attempts == u32::MAX,
        attempts < u32::MAX ==> counted(attempts as int) - attempts == 1,
{
}

/// An expansion's answers are read alike whatever the callout returns: refused, it
/// ran nothing; granted, its slot is the answer or was never written.
pub proof fn law_expansion_is_resolved<T>(
    expanded: bool,
    slot: Option<T>,
    result: Result<T, ExpandFault>,
)
    requires
        call_ensures(resolve::<T>, (expanded, slot), result),
    ensures
        result is Ok <==> expanded && slot is Some,
        result matches Ok(value) ==> slot == Some(value),
        result matches Err(fault) ==> (fault == ExpandFault::Refused <==> !expanded) && (fault
            == ExpandFault::SlotUnwritten <==> expanded),
{
}

/// A CLEANUP's expansion succeeds exactly with status zero and a written slot, and
/// then the slot is its answer. Of the four faults each has its own pair of answers.
pub proof fn law_cleanup_expansion_is_resolved<T>(
    status: i32,
    slot: Option<T>,
    result: Result<T, CleanupExpandFault>,
)
    requires
        call_ensures(resolve_cleanup::<T>, (status, slot), result),
    ensures
        ({
            let short = status == 0xC000_0017 - 0x1_0000_0000;
            &&& result is Ok <==> status == 0 && slot is Some
            &&& result matches Ok(value) ==> slot == Some(value)
            &&& result matches Err(fault) ==> {
                &&& fault == CleanupExpandFault::SlotUnwritten <==> status == 0
                &&& fault == CleanupExpandFault::Contradicted <==> status != 0 && slot is Some
                &&& fault == CleanupExpandFault::ShortOfMemory <==> slot is None && short
                &&& fault == CleanupExpandFault::Refused <==> status != 0 && slot is None && !short
            }
        }),
{
    law_expansion_is_read_exactly(status, slot is Some);
}

/// A refusal is counted, and only a shortage of memory is retried, as long as fewer
/// were counted than the budget allows. A CLEANUP's own budget allows a hundred.
pub proof fn law_refusal_is_answered_by_the_budget(
    fresh: CleanupExpansionBudget,
    budget: &mut CleanupExpansionBudget,
    fault: CleanupExpandFault,
    next: CleanupExpansionRecourse,
)
    requires
        call_ensures(CleanupExpansionBudget::per_arrival, (), fresh),
        call_ensures(CleanupExpansionBudget::answer_refusal, (budget, fault), next),
    ensures
        fresh@.attempts == 0 && fresh@.limit == 100,
        final(budget)@.limit == old(budget)@.limit,
        old(budget)@.attempts < u32::MAX ==> final(budget)@.attempts == old(budget)@.attempts + 1,
        next == CleanupExpansionRecourse::DelayAndRetry <==> fault
            == CleanupExpandFault::ShortOfMemory && final(budget)@.attempts < old(budget)@.limit,
        next == CleanupExpansionRecourse::Exhausted <==> fault == CleanupExpandFault::ShortOfMemory
            && final(budget)@.attempts >= old(budget)@.limit,
        next == CleanupExpansionRecourse::Surrender <==> fault
            != CleanupExpandFault::ShortOfMemory,
{
}

} // verus!
