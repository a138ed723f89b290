//! The suffix of a setup that runs under the registry lock, and what its order
//! proves.

use vstd::prelude::*;

verus! {

/// One step of the locked suffix.
#[derive(Clone, Copy, Debug, PartialEq, Eq, Structural)]
pub enum LockedSetupSuffixEffect {
    ActivateNativeMountRendezvous,
    InstallPendingRuntime,
    CommitCoreRingSetupPublication,
    TransferLeaseToControlOwner,
    PublishBindingPhase,
    WriteVdoLocator,
    ClearVdoInitializing,
    ReleaseRegistryLock,
}

/// The position of the first `effect` in `roster`, or the roster's length.
pub open spec fn first_at(
    roster: Seq<LockedSetupSuffixEffect>,
    effect: LockedSetupSuffixEffect,
) -> nat
    decreases roster.len(),
{
    if roster.len() == 0 || roster[0] == effect {
        0
    } else {
        1 + first_at(roster.drop_first(), effect)
    }
}

/// Both effects stand in `roster`, the first `earlier` before the first `later`.
pub open spec fn runs_before(
    roster: Seq<LockedSetupSuffixEffect>,
    earlier: LockedSetupSuffixEffect,
    later: LockedSetupSuffixEffect,
) -> bool {
    first_at(roster, earlier) < first_at(roster, later) < roster.len()
}

/// The plan of the locked suffix.
pub struct LockedSetupSuffixPlan;

impl LockedSetupSuffixPlan {
    /// The steps in their order.
    pub const EFFECTS: [LockedSetupSuffixEffect; 8] = [
        LockedSetupSuffixEffect::ActivateNativeMountRendezvous,
        LockedSetupSuffixEffect::InstallPendingRuntime,
        LockedSetupSuffixEffect::CommitCoreRingSetupPublication,
        LockedSetupSuffixEffect::TransferLeaseToControlOwner,
        LockedSetupSuffixEffect::PublishBindingPhase,
        LockedSetupSuffixEffect::WriteVdoLocator,
        LockedSetupSuffixEffect::ClearVdoInitializing,
        LockedSetupSuffixEffect::ReleaseRegistryLock,
    ];

    /// Begin the suffix.
    pub fn begin() -> (progress: LockedSetupSuffixProgress)
        ensures
            progress@ == (SuffixModel { roster: Self::EFFECTS@, done: 0 }),
    {
        Self::begin_with_roster(Self::EFFECTS)
    }

    /// Begin a suffix with the steps of `roster`.
    pub fn begin_with_roster(roster: [LockedSetupSuffixEffect; 8]) -> (progress:
        LockedSetupSuffixProgress)
        ensures
            progress@ == (SuffixModel { roster: roster@, done: 0 }),
    {
        LockedSetupSuffixProgress::Effect(PendingLockedSetupSuffix { roster, done: 0 })
    }
}

/// A suffix under way: its steps, and how many are done.
pub struct SuffixModel {
    pub roster: Seq<LockedSetupSuffixEffect>,
    pub done: int,
}

/// Where the suffix stands.
#[derive(Debug)]
pub enum LockedSetupSuffixProgress {
    /// A step is owed.
    Effect(PendingLockedSetupSuffix),
    /// Every step is done.
    Complete(LockedSetupSuffixProof),
}

impl View for LockedSetupSuffixProgress {
    type V = SuffixModel;

    open spec fn view(&self) -> SuffixModel {
        match self {
            LockedSetupSuffixProgress::Effect(pending) => pending@,
            LockedSetupSuffixProgress::Complete(walked) => SuffixModel { roster: walked@, done: 8 },
        }
    }
}

/// The step that is owed.
#[derive(Debug)]
pub struct PendingLockedSetupSuffix {
    roster: [LockedSetupSuffixEffect; 8],
    done: usize,
}

impl View for PendingLockedSetupSuffix {
    type V = SuffixModel;

    closed spec fn view(&self) -> SuffixModel {
        SuffixModel { roster: self.roster@, done: self.done as int }
    }
}

impl PendingLockedSetupSuffix {
    #[verifier::type_invariant]
    closed spec fn inv(self) -> bool {
        self.done < 8
    }

    /// The step.
    pub fn effect(&self) -> (effect: LockedSetupSuffixEffect)
        ensures
            0 <= self@.done < 8,
            effect == self@.roster[self@.done],
    {
        proof {
            use_type_invariant(self);
        }
        self.roster[self.done]
    }

    /// Whether a cleanup may run before this step. None may: the whole suffix
    /// runs under one hold of the registry lock.
    pub fn cleanup_may_interleave(&self) -> (answer: bool)
        ensures
            !answer,
    {
        false
    }

    /// The step is done.
    pub fn succeeded(self) -> (progress: LockedSetupSuffixProgress)
        ensures
            progress@ == (SuffixModel { roster: self@.roster, done: self@.done + 1 }),
            progress is Complete <==> self@.done == 7,
    {
        proof {
            use_type_invariant(&self);
        }
        let done = self.done + 1;
        if done < 8 {
            LockedSetupSuffixProgress::Effect(
                PendingLockedSetupSuffix { roster: self.roster, done },
            )
        } else {
            LockedSetupSuffixProgress::Complete(LockedSetupSuffixProof { roster: self.roster })
        }
    }
}

/// What a walked suffix shows. It is read off the steps that ran.
#[derive(Debug)]
pub struct LockedSetupSuffixProof {
    roster: [LockedSetupSuffixEffect; 8],
}

impl View for LockedSetupSuffixProof {
    type V = Seq<LockedSetupSuffixEffect>;

    closed spec fn view(&self) -> Seq<LockedSetupSuffixEffect> {
        self.roster@
    }
}

impl LockedSetupSuffixProof {
    /// The position of the first `effect`, or eight.
    fn position(&self, effect: LockedSetupSuffixEffect) -> (position: usize)
        ensures
            position == first_at(self@, effect),
    {
        let mut i: usize = 0;
        assert(self@.skip(0) =~= self@);
        while i < 8
            invariant
                i <= 8,
                self@.len() == 8,
                first_at(self@, effect) == i + first_at(self@.skip(i as int), effect),
            decreases 8 - i,
        {
            if self.roster[i] == effect {
                return i;
            }
            assert(self@.skip(i as int).drop_first() =~= self@.skip(i + 1));
            i += 1;
        }
        i
    }

    /// Did the first `earlier` run before the first `later`, and both run?
    fn ran_before(
        &self,
        earlier: LockedSetupSuffixEffect,
        later: LockedSetupSuffixEffect,
    ) -> (answer: bool)
        ensures
            answer == runs_before(self@, earlier, later),
    {
        let first = self.position(earlier);
        let second = self.position(later);
        assert(self@.len() == 8);
        first < second && second < 8
    }

    /// The registry lock was released only after the device was published.
    pub fn registry_lock_released_only_after_vdo_publication(&self) -> (answer: bool)
        ensures
            answer == runs_before(
                self@,
                LockedSetupSuffixEffect::ClearVdoInitializing,
                LockedSetupSuffixEffect::ReleaseRegistryLock,
            ),
    {
        self.ran_before(
            LockedSetupSuffixEffect::ClearVdoInitializing,
            LockedSetupSuffixEffect::ReleaseRegistryLock,
        )
    }

    /// The locator reached the device before the device could be opened.
    pub fn vdo_locator_written_before_initializing_cleared(&self) -> (answer: bool)
        ensures
            answer == runs_before(
                self@,
                LockedSetupSuffixEffect::WriteVdoLocator,
                LockedSetupSuffixEffect::ClearVdoInitializing,
            ),
    {
        self.ran_before(
            LockedSetupSuffixEffect::WriteVdoLocator,
            LockedSetupSuffixEffect::ClearVdoInitializing,
        )
    }

    /// A request could be parked before the session could be addressed.
    pub fn pending_runtime_installed_before_core_live(&self) -> (answer: bool)
        ensures
            answer == runs_before(
                self@,
                LockedSetupSuffixEffect::InstallPendingRuntime,
                LockedSetupSuffixEffect::CommitCoreRingSetupPublication,
            ),
    {
        self.ran_before(
            LockedSetupSuffixEffect::InstallPendingRuntime,
            LockedSetupSuffixEffect::CommitCoreRingSetupPublication,
        )
    }

    /// The mount could be joined before the session could be ended.
    pub fn mount_activated_before_core_live(&self) -> (answer: bool)
        ensures
            answer == runs_before(
                self@,
                LockedSetupSuffixEffect::ActivateNativeMountRendezvous,
                LockedSetupSuffixEffect::CommitCoreRingSetupPublication,
            ),
    {
        self.ran_before(
            LockedSetupSuffixEffect::ActivateNativeMountRendezvous,
            LockedSetupSuffixEffect::CommitCoreRingSetupPublication,
        )
    }
}

/// An effect of the plan's own roster stands where it stands.
proof fn lemma_first_at(at: int)
    requires
        0 <= at < 8,
    ensures
        first_at(LockedSetupSuffixPlan::EFFECTS@, LockedSetupSuffixPlan::EFFECTS@[at]) == at,
{
    lemma_first_at_from(at, 0);
    assert(LockedSetupSuffixPlan::EFFECTS@.skip(0) =~= LockedSetupSuffixPlan::EFFECTS@);
}

proof fn lemma_first_at_from(at: int, from: int)
    requires
        0 <= from <= at < 8,
    ensures
        first_at(
            LockedSetupSuffixPlan::EFFECTS@.skip(from),
            LockedSetupSuffixPlan::EFFECTS@[at],
        ) == at - from,
    decreases at - from,
{
    let rest = LockedSetupSuffixPlan::EFFECTS@.skip(from);
    if from < at {
        lemma_first_at_from(at, from + 1);
        assert(rest.drop_first() =~= LockedSetupSuffixPlan::EFFECTS@.skip(from + 1));
        assert(rest[0] == LockedSetupSuffixPlan::EFFECTS@[from]);
    } else {
        assert(rest[0] == LockedSetupSuffixPlan::EFFECTS@[from]);
    }
}

/// The suffix the plan runs keeps all four orders: the mount is joined and the
/// runtime installed before the session is live, the locator is written before
/// the device can be opened, and all of it before the lock is released.
pub proof fn law_suffix_keeps_its_orders()
    ensures
        runs_before(
            LockedSetupSuffixPlan::EFFECTS@,
            LockedSetupSuffixEffect::ActivateNativeMountRendezvous,
            LockedSetupSuffixEffect::CommitCoreRingSetupPublication,
        ),
        runs_before(
            LockedSetupSuffixPlan::EFFECTS@,
            LockedSetupSuffixEffect::InstallPendingRuntime,
            LockedSetupSuffixEffect::CommitCoreRingSetupPublication,
        ),
        runs_before(
            LockedSetupSuffixPlan::EFFECTS@,
            LockedSetupSuffixEffect::WriteVdoLocator,
            LockedSetupSuffixEffect::ClearVdoInitializing,
        ),
        forall|effect: LockedSetupSuffixEffect|
            effect != LockedSetupSuffixEffect::ReleaseRegistryLock ==> #[trigger] runs_before(
                LockedSetupSuffixPlan::EFFECTS@,
                effect,
                LockedSetupSuffixEffect::ReleaseRegistryLock,
            ),
{
    assert forall|at: int| 0 <= at < 8 implies first_at(
        LockedSetupSuffixPlan::EFFECTS@,
        #[trigger] LockedSetupSuffixPlan::EFFECTS@[at],
    ) == at by {
        lemma_first_at(at);
    }
    assert(LockedSetupSuffixPlan::EFFECTS@[0]
        == LockedSetupSuffixEffect::ActivateNativeMountRendezvous);
    assert(LockedSetupSuffixPlan::EFFECTS@[1] == LockedSetupSuffixEffect::InstallPendingRuntime);
    assert(LockedSetupSuffixPlan::EFFECTS@[2]
        == LockedSetupSuffixEffect::CommitCoreRingSetupPublication);
    assert(LockedSetupSuffixPlan::EFFECTS@[3]
        == LockedSetupSuffixEffect::TransferLeaseToControlOwner);
    assert(LockedSetupSuffixPlan::EFFECTS@[4] == LockedSetupSuffixEffect::PublishBindingPhase);
    assert(LockedSetupSuffixPlan::EFFECTS@[5] == LockedSetupSuffixEffect::WriteVdoLocator);
    assert(LockedSetupSuffixPlan::EFFECTS@[6] == LockedSetupSuffixEffect::ClearVdoInitializing);
    assert(LockedSetupSuffixPlan::EFFECTS@[7] == LockedSetupSuffixEffect::ReleaseRegistryLock);
}

/// Where a step of a suffix stands is where it stands first, and past the end if
/// it stands nowhere.
pub proof fn law_effect_stands_where_it_is_first(
    roster: Seq<LockedSetupSuffixEffect>,
    effect: LockedSetupSuffixEffect,
)
    ensures
        first_at(roster, effect) <= roster.len(),
        first_at(roster, effect) < roster.len() ==> roster[first_at(roster, effect) as int]
            == effect,
        forall|i: int| 0 <= i < first_at(roster, effect) ==> #[trigger] roster[i] != effect,
    decreases roster.len(),
{
    if roster.len() > 0 && roster[0] != effect {
        let rest = roster.drop_first();
        law_effect_stands_where_it_is_first(rest, effect);
        assert forall|i: int| 0 <= i < first_at(roster, effect) implies #[trigger] roster[i]
            != effect by {
            if i > 0 {
                assert(roster[i] == rest[i - 1]);
            }
        }
    }
}

/// One step runs before another exactly if the other runs, and not without the one
/// having run by then. So no step runs before itself, and of two steps not both
/// run before the other.
pub proof fn law_running_before_is_an_order(
    roster: Seq<LockedSetupSuffixEffect>,
    earlier: LockedSetupSuffixEffect,
    later: LockedSetupSuffixEffect,
)
    ensures
        runs_before(roster, earlier, later) <==> earlier != later && roster.contains(later) && (
        forall|i: int|
            0 <= i < roster.len() && #[trigger] roster[i] == later ==> roster.take(i).contains(
                earlier,
            )),
        !(runs_before(roster, earlier, later) && runs_before(roster, later, earlier)),
{
    law_effect_stands_where_it_is_first(roster, earlier);
    law_effect_stands_where_it_is_first(roster, later);
    let one = first_at(roster, earlier) as int;
    let two = first_at(roster, later) as int;
    if runs_before(roster, earlier, later) {
        assert(roster[two] == later);
        assert forall|i: int| 0 <= i < roster.len() && #[trigger] roster[i] == later implies (
        roster.take(i).contains(earlier)) by {
            assert(two <= i);
            assert(roster.take(i)[one] == earlier);
        }
    }
    if earlier != later && roster.contains(later) && (forall|i: int|
        0 <= i < roster.len() && #[trigger] roster[i] == later ==> roster.take(i).contains(
            earlier,
        )) {
        assert(two < roster.len());
        assert(roster[two] == later);
        let at = choose|at: int| 0 <= at < two && roster.take(two)[at] == earlier;
        assert(roster[at] == earlier);
        assert(one <= at);
    }
}

/// The suffix goes in this order.
pub proof fn law_suffix_goes_in_this_order()
    ensures
        LockedSetupSuffixPlan::EFFECTS@ == seq![
            LockedSetupSuffixEffect::ActivateNativeMountRendezvous,
            LockedSetupSuffixEffect::InstallPendingRuntime,
            LockedSetupSuffixEffect::CommitCoreRingSetupPublication,
            LockedSetupSuffixEffect::TransferLeaseToControlOwner,
            LockedSetupSuffixEffect::PublishBindingPhase,
            LockedSetupSuffixEffect::WriteVdoLocator,
            LockedSetupSuffixEffect::ClearVdoInitializing,
            LockedSetupSuffixEffect::ReleaseRegistryLock,
        ],
{
    assert(LockedSetupSuffixPlan::EFFECTS@ =~= seq![
        LockedSetupSuffixEffect::ActivateNativeMountRendezvous,
        LockedSetupSuffixEffect::InstallPendingRuntime,
        LockedSetupSuffixEffect::CommitCoreRingSetupPublication,
        LockedSetupSuffixEffect::TransferLeaseToControlOwner,
        LockedSetupSuffixEffect::PublishBindingPhase,
        LockedSetupSuffixEffect::WriteVdoLocator,
        LockedSetupSuffixEffect::ClearVdoInitializing,
        LockedSetupSuffixEffect::ReleaseRegistryLock,
    ]);
}

/// What a walked suffix shows, of whatever steps it walked: each answer is that its
/// later step ran, and never without the earlier one having run by then.
pub proof fn law_walked_suffix_shows_its_orders(
    walked: LockedSetupSuffixProof,
    released: bool,
    written: bool,
    installed: bool,
    activated: bool,
)
    requires
        call_ensures(
            LockedSetupSuffixProof::registry_lock_released_only_after_vdo_publication,
            (&walked,),
            released,
        ),
        call_ensures(
            LockedSetupSuffixProof::vdo_locator_written_before_initializing_cleared,
            (&walked,),
            written,
        ),
        call_ensures(
            LockedSetupSuffixProof::pending_runtime_installed_before_core_live,
            (&walked,),
            installed,
        ),
        call_ensures(
            LockedSetupSuffixProof::mount_activated_before_core_live,
            (&walked,),
            activated,
        ),
    ensures
        ({
            let follows = |later: LockedSetupSuffixEffect, earlier: LockedSetupSuffixEffect|
                walked@.contains(later) && (forall|i: int|
                    0 <= i < walked@.len() && #[trigger] walked@[i] == later ==> walked@.take(
                        i,
                    ).contains(earlier));
            &&& released <==> follows(
                LockedSetupSuffixEffect::ReleaseRegistryLock,
                LockedSetupSuffixEffect::ClearVdoInitializing,
            )
            &&& written <==> follows(
                LockedSetupSuffixEffect::ClearVdoInitializing,
                LockedSetupSuffixEffect::WriteVdoLocator,
            )
            &&& installed <==> follows(
                LockedSetupSuffixEffect::CommitCoreRingSetupPublication,
                LockedSetupSuffixEffect::InstallPendingRuntime,
            )
            &&& activated <==> follows(
                LockedSetupSuffixEffect::CommitCoreRingSetupPublication,
                LockedSetupSuffixEffect::ActivateNativeMountRendezvous,
            )
        }),
{
    law_running_before_is_an_order(
        walked@,
        LockedSetupSuffixEffect::ClearVdoInitializing,
        LockedSetupSuffixEffect::ReleaseRegistryLock,
    );
    law_running_before_is_an_order(
        walked@,
        LockedSetupSuffixEffect::WriteVdoLocator,
        LockedSetupSuffixEffect::ClearVdoInitializing,
    );
    law_running_before_is_an_order(
        walked@,
        LockedSetupSuffixEffect::InstallPendingRuntime,
        LockedSetupSuffixEffect::CommitCoreRingSetupPublication,
    );
    law_running_before_is_an_order(
        walked@,
        LockedSetupSuffixEffect::ActivateNativeMountRendezvous,
        LockedSetupSuffixEffect::CommitCoreRingSetupPublication,
    );
}

/// The suffix goes through its eight steps one by one, and no cleanup comes between.
pub proof fn law_suffix_goes_step_by_step(
    begun: LockedSetupSuffixProgress,
    pending: PendingLockedSetupSuffix,
    effect: LockedSetupSuffixEffect,
    interleaves: bool,
    progress: LockedSetupSuffixProgress,
)
    requires
        call_ensures(LockedSetupSuffixPlan::begin, (), begun),
        call_ensures(PendingLockedSetupSuffix::effect, (&pending,), effect),
        call_ensures(PendingLockedSetupSuffix::cleanup_may_interleave, (&pending,), interleaves),
        call_ensures(PendingLockedSetupSuffix::succeeded, (pending,), progress),
    ensures
        begun@.done == 0,
        begun@.roster == LockedSetupSuffixPlan::EFFECTS@,
        0 <= pending@.done < 8,
        effect == pending@.roster[pending@.done],
        !interleaves,
        progress is Complete <==> pending@.done == 7,
        progress@.done == pending@.done + 1,
        progress@.roster == pending@.roster,
{
}

/// A suffix with steps of its own begins before the first of them.
pub proof fn law_given_suffix_is_walked(
    roster: [LockedSetupSuffixEffect; 8],
    begun: LockedSetupSuffixProgress,
)
    requires
        call_ensures(LockedSetupSuffixPlan::begin_with_roster, (roster,), begun),
    ensures
        begun@.roster == roster@,
        begun@.done == 0,
{
}

} // verus!
