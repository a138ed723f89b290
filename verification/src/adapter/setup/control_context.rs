//! The control context of a handle: how a create builds it and how a close takes
//! it apart.
//!
//! The context holds a lease on the control-context admission that unload waits
//! for, so the lease comes first and goes last.

use vstd::prelude::*;

use crate::adapter::AdapterPlanError;

verus! {

/// One step of building the context.
#[derive(Clone, Copy, Debug, PartialEq, Eq, Structural)]
pub enum ControlContextCreateEffect {
    AcquireLease,
    AllocateAndInitialize,
    CaptureRequestor,
    PublishFsContext,
}

/// One step of undoing a create.
#[derive(Clone, Copy, Debug, PartialEq, Eq, Structural)]
pub enum ControlContextCreateRollbackEffect {
    ClearFsContext,
    ReleaseRequestor,
    FreeContext,
    ReleaseLease,
}

/// The plan of a create.
pub struct ControlContextCreatePlan;

/// How many steps of a create are done once `effect` is.
pub open spec fn steps_through(effect: ControlContextCreateEffect) -> nat {
    match effect {
        ControlContextCreateEffect::AcquireLease => 1,
        ControlContextCreateEffect::AllocateAndInitialize => 2,
        ControlContextCreateEffect::CaptureRequestor => 3,
        ControlContextCreateEffect::PublishFsContext => 4,
    }
}

/// What undoes one step of a create.
pub open spec fn undoes(effect: ControlContextCreateEffect) -> ControlContextCreateRollbackEffect {
    match effect {
        ControlContextCreateEffect::AcquireLease => ControlContextCreateRollbackEffect::ReleaseLease,
        ControlContextCreateEffect::AllocateAndInitialize => {
            ControlContextCreateRollbackEffect::FreeContext
        },
        ControlContextCreateEffect::CaptureRequestor => {
            ControlContextCreateRollbackEffect::ReleaseRequestor
        },
        ControlContextCreateEffect::PublishFsContext => {
            ControlContextCreateRollbackEffect::ClearFsContext
        },
    }
}

/// The steps that undo the first `count` steps of a create, last done first.
pub open spec fn undo_of(count: nat) -> Seq<ControlContextCreateRollbackEffect> {
    Seq::new(count, |i: int| undoes(ControlContextCreatePlan::EFFECTS@[count - 1 - i]))
}

impl ControlContextCreatePlan {
    /// The steps in their order.
    pub const EFFECTS: [ControlContextCreateEffect; 4] = [
        ControlContextCreateEffect::AcquireLease,
        ControlContextCreateEffect::AllocateAndInitialize,
        ControlContextCreateEffect::CaptureRequestor,
        ControlContextCreateEffect::PublishFsContext,
    ];

    /// How to undo a create whose last step done is `effect`.
    pub fn rollback_after(effect: ControlContextCreateEffect) -> (rollback:
        ControlContextCreateRollback)
        ensures
            rollback@ == undo_of(steps_through(effect)),
    {
        let mut effects: Vec<ControlContextCreateRollbackEffect> = Vec::new();
        match effect {
            ControlContextCreateEffect::AcquireLease => {},
            ControlContextCreateEffect::AllocateAndInitialize => {
                effects.push(ControlContextCreateRollbackEffect::FreeContext);
            },
            ControlContextCreateEffect::CaptureRequestor => {
                effects.push(ControlContextCreateRollbackEffect::ReleaseRequestor);
                effects.push(ControlContextCreateRollbackEffect::FreeContext);
            },
            ControlContextCreateEffect::PublishFsContext => {
                effects.push(ControlContextCreateRollbackEffect::ClearFsContext);
                effects.push(ControlContextCreateRollbackEffect::ReleaseRequestor);
                effects.push(ControlContextCreateRollbackEffect::FreeContext);
            },
        }
        effects.push(ControlContextCreateRollbackEffect::ReleaseLease);
        assert(effects@ =~= undo_of(steps_through(effect)));
        ControlContextCreateRollback { effects }
    }
}

/// How to undo a create.
#[derive(Debug)]
pub struct ControlContextCreateRollback {
    effects: Vec<ControlContextCreateRollbackEffect>,
}

impl View for ControlContextCreateRollback {
    type V = Seq<ControlContextCreateRollbackEffect>;

    closed spec fn view(&self) -> Seq<ControlContextCreateRollbackEffect> {
        self.effects@
    }
}

impl ControlContextCreateRollback {
    /// The steps, first to last.
    pub fn effects(&self) -> (effects: &[ControlContextCreateRollbackEffect])
        ensures
            effects@ == self@,
    {
        self.effects.as_slice()
    }
}

/// However far a create came, its rollback releases the lease exactly once, and
/// last.
pub proof fn law_create_rollback_releases_the_lease_once(effect: ControlContextCreateEffect)
    ensures
        ({
            let undo = undo_of(steps_through(effect));
            undo.len() > 0 && forall|i: int|
                0 <= i < undo.len() ==> (#[trigger] undo[i]
                    == ControlContextCreateRollbackEffect::ReleaseLease <==> i == undo.len() - 1)
        }),
{
}

/// Who may take the context apart.
#[derive(Clone, Copy, Debug, PartialEq, Eq, Structural)]
pub enum ControlContextCloseOwnership {
    /// The handle still holds the lease.
    Lease,
    /// The session's cell holds it.
    CellOwned,
    /// It was handed back to the close.
    CloseRight,
}

/// How far the lifetime of a context came.
#[derive(Clone, Copy, Debug, PartialEq, Eq, Structural)]
pub enum ControlContextLifetimeKind {
    Lease,
    LiveCellOwned,
    Completed,
    Close,
    BlockedCellOwned,
}

/// The owner a lifetime stands for.
pub open spec fn ownership_of(kind: ControlContextLifetimeKind) -> ControlContextCloseOwnership {
    match kind {
        ControlContextLifetimeKind::Lease => ControlContextCloseOwnership::Lease,
        ControlContextLifetimeKind::Close => ControlContextCloseOwnership::CloseRight,
        _ => ControlContextCloseOwnership::CellOwned,
    }
}

/// The owner after a close was offered an unused lease.
pub open spec fn after_adoption(
    ownership: ControlContextCloseOwnership,
    holds_no_installation: bool,
) -> ControlContextCloseOwnership {
    if ownership == ControlContextCloseOwnership::Lease && holds_no_installation {
        ControlContextCloseOwnership::CloseRight
    } else {
        ownership
    }
}

impl ControlContextCloseOwnership {
    /// The owner a lifetime stands for. A lifetime that cleanup has completed but
    /// not acknowledged is still the cell's.
    pub fn for_lifetime(kind: ControlContextLifetimeKind) -> (ownership: Self)
        ensures
            ownership == ownership_of(kind),
    {
        match kind {
            ControlContextLifetimeKind::Lease => ControlContextCloseOwnership::Lease,
            ControlContextLifetimeKind::LiveCellOwned => ControlContextCloseOwnership::CellOwned,
            ControlContextLifetimeKind::Completed => ControlContextCloseOwnership::CellOwned,
            ControlContextLifetimeKind::Close => ControlContextCloseOwnership::CloseRight,
            ControlContextLifetimeKind::BlockedCellOwned => ControlContextCloseOwnership::CellOwned,
        }
    }

    /// Take over a lease that no installation uses. Any other owner stays.
    pub fn adopt_unused_lease(self, holds_no_installation: bool) -> (ownership: Self)
        ensures
            ownership == after_adoption(self, holds_no_installation),
    {
        match self {
            ControlContextCloseOwnership::Lease if holds_no_installation => {
                ControlContextCloseOwnership::CloseRight
            },
            other => other,
        }
    }

    /// May the close free the context?
    pub fn may_free(self) -> (answer: bool)
        ensures
            answer == (self == ControlContextCloseOwnership::CloseRight),
    {
        self == ControlContextCloseOwnership::CloseRight
    }
}

/// Exactly one lifetime lets a close free the context: the acknowledged one.
pub proof fn law_only_an_acknowledged_context_is_freed(kind: ControlContextLifetimeKind)
    ensures
        ownership_of(kind) == ControlContextCloseOwnership::CloseRight <==> kind
            == ControlContextLifetimeKind::Close,
{
}

/// One step of a close.
#[derive(Clone, Copy, Debug, PartialEq, Eq, Structural)]
pub enum ControlContextCloseEffect {
    DetachFsContext,
    DestroyAndFreeContext,
    ReleaseControlContextAdmission,
}

/// The position of the first `effect` in `roster`, or the roster's length.
pub open spec fn close_step_at(
    roster: Seq<ControlContextCloseEffect>,
    effect: ControlContextCloseEffect,
) -> nat
    decreases roster.len(),
{
    if roster.len() == 0 || roster[0] == effect {
        0
    } else {
        1 + close_step_at(roster.drop_first(), effect)
    }
}

/// The context was freed before step `done` of `roster`.
pub open spec fn freed_before(roster: Seq<ControlContextCloseEffect>, done: int) -> bool {
    close_step_at(roster, ControlContextCloseEffect::DestroyAndFreeContext) < done
}

/// The context was freed, and the admission released after it.
pub open spec fn freed_first(roster: Seq<ControlContextCloseEffect>) -> bool {
    close_step_at(roster, ControlContextCloseEffect::DestroyAndFreeContext) < close_step_at(
        roster,
        ControlContextCloseEffect::ReleaseControlContextAdmission,
    ) < roster.len()
}

/// A close under way: its steps, and how many are done.
pub struct CloseModel {
    pub roster: Seq<ControlContextCloseEffect>,
    pub done: int,
}

/// The plan of a close.
pub struct ControlContextClosePlan;

impl ControlContextClosePlan {
    /// The steps in their order.
    pub const EFFECTS: [ControlContextCloseEffect; 3] = [
        ControlContextCloseEffect::DetachFsContext,
        ControlContextCloseEffect::DestroyAndFreeContext,
        ControlContextCloseEffect::ReleaseControlContextAdmission,
    ];

    /// Begin a close. Only the owner that may free the context may.
    pub fn begin(ownership: ControlContextCloseOwnership) -> (begun: Result<
        ControlContextCloseProgress,
        AdapterPlanError,
    >)
        ensures
            match begun {
                Ok(progress) => ownership == ControlContextCloseOwnership::CloseRight && progress@
                    == (CloseModel { roster: Self::EFFECTS@, done: 0 }),
                Err(error) => ownership != ControlContextCloseOwnership::CloseRight && error
                    == AdapterPlanError::InvalidTransition,
            },
    {
        Self::begin_with_roster(ownership, Self::EFFECTS)
    }

    /// Begin a close with the steps of `roster`.
    pub fn begin_with_roster(
        ownership: ControlContextCloseOwnership,
        roster: [ControlContextCloseEffect; 3],
    ) -> (begun: Result<ControlContextCloseProgress, AdapterPlanError>)
        ensures
            match begun {
                Ok(progress) => ownership == ControlContextCloseOwnership::CloseRight && progress@
                    == (CloseModel { roster: roster@, done: 0 }),
                Err(error) => ownership != ControlContextCloseOwnership::CloseRight && error
                    == AdapterPlanError::InvalidTransition,
            },
    {
        if !ownership.may_free() {
            return Err(AdapterPlanError::InvalidTransition);
        }
        Ok(ControlContextCloseProgress::Effect(PendingControlContextClose { roster, done: 0 }))
    }
}

/// Where a close stands.
#[derive(Debug)]
pub enum ControlContextCloseProgress {
    /// A step is owed.
    Effect(PendingControlContextClose),
    /// Every step is done.
    Complete(ControlContextCloseCompletion),
}

impl View for ControlContextCloseProgress {
    type V = CloseModel;

    open spec fn view(&self) -> CloseModel {
        match self {
            ControlContextCloseProgress::Effect(pending) => pending@,
            ControlContextCloseProgress::Complete(completion) => CloseModel {
                roster: completion@,
                done: 3,
            },
        }
    }
}

/// The step that is owed.
#[derive(Debug)]
pub struct PendingControlContextClose {
    roster: [ControlContextCloseEffect; 3],
    done: usize,
}

impl View for PendingControlContextClose {
    type V = CloseModel;

    closed spec fn view(&self) -> CloseModel {
        CloseModel { roster: self.roster@, done: self.done as int }
    }
}

/// The position of the first `effect` in `roster`, or three.
fn position(
    roster: &[ControlContextCloseEffect; 3],
    effect: ControlContextCloseEffect,
) -> (at: usize)
    ensures
        at == close_step_at(roster@, effect),
{
    let mut i: usize = 0;
    assert(roster@.skip(0) =~= roster@);
    while i < 3
        invariant
            i <= 3,
            roster@.len() == 3,
            close_step_at(roster@, effect) == i + close_step_at(roster@.skip(i as int), effect),
        decreases 3 - i,
    {
        if roster[i] == effect {
            return i;
        }
        assert(roster@.skip(i as int).drop_first() =~= roster@.skip(i + 1));
        i += 1;
    }
    i
}

impl PendingControlContextClose {
    #[verifier::type_invariant]
    closed spec fn inv(self) -> bool {
        self.done < 3
    }

    /// The step.
    pub fn effect(&self) -> (effect: ControlContextCloseEffect)
        ensures
            0 <= self@.done < 3,
            effect == self@.roster[self@.done],
    {
        proof {
            use_type_invariant(self);
        }
        self.roster[self.done]
    }

    /// Was the context freed before this step?
    pub fn context_freed(&self) -> (answer: bool)
        ensures
            answer == freed_before(self@.roster, self@.done),
    {
        position(&self.roster, ControlContextCloseEffect::DestroyAndFreeContext) < self.done
    }

    /// The step is done.
    pub fn succeeded(self) -> (progress: ControlContextCloseProgress)
        ensures
            progress@ == (CloseModel { roster: self@.roster, done: self@.done + 1 }),
            progress is Complete <==> self@.done == 2,
    {
        proof {
            use_type_invariant(&self);
        }
        let done = self.done + 1;
        if done < 3 {
            ControlContextCloseProgress::Effect(
                PendingControlContextClose { roster: self.roster, done },
            )
        } else {
            ControlContextCloseProgress::Complete(
                ControlContextCloseCompletion { roster: self.roster },
            )
        }
    }
}

/// A close that is done.
#[derive(Debug)]
pub struct ControlContextCloseCompletion {
    roster: [ControlContextCloseEffect; 3],
}

impl View for ControlContextCloseCompletion {
    type V = Seq<ControlContextCloseEffect>;

    closed spec fn view(&self) -> Seq<ControlContextCloseEffect> {
        self.roster@
    }
}

impl ControlContextCloseCompletion {
    /// Was the context freed before the admission was released?
    pub fn freed_before_admission_release(&self) -> (answer: bool)
        ensures
            answer == freed_first(self@),
    {
        let freed = position(&self.roster, ControlContextCloseEffect::DestroyAndFreeContext);
        let released = position(
            &self.roster,
            ControlContextCloseEffect::ReleaseControlContextAdmission,
        );
        assert(self@.len() == 3);
        freed < released && released < 3
    }
}

/// In the close the plan runs, the admission that unload waits for is released
/// only once the context is freed, and the context is freed only once nothing
/// points to it.
pub proof fn law_close_frees_before_it_releases()
    ensures
        close_step_at(
            ControlContextClosePlan::EFFECTS@,
            ControlContextCloseEffect::DetachFsContext,
        ) < close_step_at(
            ControlContextClosePlan::EFFECTS@,
            ControlContextCloseEffect::DestroyAndFreeContext,
        ),
        freed_first(ControlContextClosePlan::EFFECTS@),
        forall|done: int|
            0 <= done < 3 ==> (#[trigger] freed_before(ControlContextClosePlan::EFFECTS@, done)
                <==> done == 2),
{
    reveal_with_fuel(close_step_at, 4);
}

/// A create goes in this order, and a rollback undoes each step that was done with
/// that step's own inverse, in the opposite order: what undoes a longer create
/// ends in what undoes a shorter one.
pub proof fn law_create_is_undone_step_by_step(effect: ControlContextCreateEffect)
    ensures
        ControlContextCreatePlan::EFFECTS@ == seq![
            ControlContextCreateEffect::AcquireLease,
            ControlContextCreateEffect::AllocateAndInitialize,
            ControlContextCreateEffect::CaptureRequestor,
            ControlContextCreateEffect::PublishFsContext,
        ],
        ControlContextCreatePlan::EFFECTS@[steps_through(effect) - 1] == effect,
        undo_of(4) == seq![
            ControlContextCreateRollbackEffect::ClearFsContext,
            ControlContextCreateRollbackEffect::ReleaseRequestor,
            ControlContextCreateRollbackEffect::FreeContext,
            ControlContextCreateRollbackEffect::ReleaseLease,
        ],
        undo_of(steps_through(effect)) == undo_of(4).skip(4 - steps_through(effect)),
{
    assert(ControlContextCreatePlan::EFFECTS@ =~= seq![
        ControlContextCreateEffect::AcquireLease,
        ControlContextCreateEffect::AllocateAndInitialize,
        ControlContextCreateEffect::CaptureRequestor,
        ControlContextCreateEffect::PublishFsContext,
    ]);
    assert(undo_of(4) =~= seq![
        ControlContextCreateRollbackEffect::ClearFsContext,
        ControlContextCreateRollbackEffect::ReleaseRequestor,
        ControlContextCreateRollbackEffect::FreeContext,
        ControlContextCreateRollbackEffect::ReleaseLease,
    ]);
    assert(undo_of(steps_through(effect)) =~= undo_of(4).skip(4 - steps_through(effect)));
}

/// A requestor is released exactly if it was captured, a context freed exactly if
/// it was allocated, and a pointer cleared exactly if it was published.
pub proof fn law_create_rollback_undoes_what_was_done(effect: ControlContextCreateEffect)
    ensures
        undo_of(steps_through(effect)).contains(ControlContextCreateRollbackEffect::ReleaseLease),
        undo_of(steps_through(effect)).contains(ControlContextCreateRollbackEffect::FreeContext)
            <==> effect != ControlContextCreateEffect::AcquireLease,
        undo_of(steps_through(effect)).contains(
            ControlContextCreateRollbackEffect::ReleaseRequestor,
        ) <==> effect == ControlContextCreateEffect::CaptureRequestor || effect
            == ControlContextCreateEffect::PublishFsContext,
        undo_of(steps_through(effect)).contains(ControlContextCreateRollbackEffect::ClearFsContext)
            <==> effect == ControlContextCreateEffect::PublishFsContext,
{
    let undo = undo_of(steps_through(effect));
    assert(undo[undo.len() - 1] == ControlContextCreateRollbackEffect::ReleaseLease);
    if effect != ControlContextCreateEffect::AcquireLease {
        assert(undo[undo.len() - 2] == ControlContextCreateRollbackEffect::FreeContext);
    }
    if undo.len() > 2 {
        assert(undo[undo.len() - 3] == ControlContextCreateRollbackEffect::ReleaseRequestor);
    }
    if undo.len() > 3 {
        assert(undo[0] == ControlContextCreateRollbackEffect::ClearFsContext);
    }
}

/// Exactly the unused lifetime leaves the lease with the handle; of the other
/// four only the acknowledged one is the close's, and three are the cell's.
pub proof fn law_lifetime_has_one_owner(kind: ControlContextLifetimeKind)
    ensures
        ownership_of(kind) == ControlContextCloseOwnership::Lease <==> kind
            == ControlContextLifetimeKind::Lease,
        ownership_of(kind) == ControlContextCloseOwnership::CellOwned <==> kind
            == ControlContextLifetimeKind::LiveCellOwned || kind
            == ControlContextLifetimeKind::Completed || kind
            == ControlContextLifetimeKind::BlockedCellOwned,
{
}

/// A close takes over exactly a lease that no installation uses. What the cell
/// owns it never takes, what it owns already it keeps, and offering a second time
/// changes nothing.
pub proof fn law_only_an_unused_lease_is_adopted(
    ownership: ControlContextCloseOwnership,
    holds_no_installation: bool,
)
    ensures
        after_adoption(ownership, holds_no_installation) != ownership <==> ownership
            == ControlContextCloseOwnership::Lease && holds_no_installation,
        after_adoption(ownership, holds_no_installation)
            == ControlContextCloseOwnership::CloseRight <==> ownership
            == ControlContextCloseOwnership::CloseRight || (ownership
            == ControlContextCloseOwnership::Lease && holds_no_installation),
        after_adoption(ownership, holds_no_installation) == ControlContextCloseOwnership::CellOwned
            <==> ownership == ControlContextCloseOwnership::CellOwned,
        after_adoption(after_adoption(ownership, holds_no_installation), holds_no_installation)
            == after_adoption(ownership, holds_no_installation),
{
}

/// Where a step of a close stands is where it stands first, and past the end if it
/// stands nowhere.
pub proof fn law_step_stands_where_it_is_first(
    roster: Seq<ControlContextCloseEffect>,
    effect: ControlContextCloseEffect,
)
    ensures
        close_step_at(roster, effect) <= roster.len(),
        close_step_at(roster, effect) < roster.len() ==> roster[close_step_at(roster, effect) as int]
            == effect,
        forall|i: int| 0 <= i < close_step_at(roster, effect) ==> #[trigger] roster[i] != effect,
    decreases roster.len(),
{
    if roster.len() > 0 && roster[0] != effect {
        let rest = roster.drop_first();
        law_step_stands_where_it_is_first(rest, effect);
        assert forall|i: int| 0 <= i < close_step_at(roster, effect) implies #[trigger] roster[i]
            != effect by {
            if i > 0 {
                assert(roster[i] == rest[i - 1]);
            }
        }
    }
}

/// The context counts as freed before a step exactly if the step that frees it is
/// among those done.
pub proof fn law_freed_is_among_the_steps_done(roster: Seq<ControlContextCloseEffect>, done: int)
    requires
        0 <= done <= roster.len(),
    ensures
        freed_before(roster, done) <==> exists|i: int|
            0 <= i < done && #[trigger] roster[i]
                == ControlContextCloseEffect::DestroyAndFreeContext,
{
    law_step_stands_where_it_is_first(
        roster,
        ControlContextCloseEffect::DestroyAndFreeContext,
    );
    if freed_before(roster, done) {
        let at = close_step_at(roster, ControlContextCloseEffect::DestroyAndFreeContext) as int;
        assert(roster[at] == ControlContextCloseEffect::DestroyAndFreeContext);
    }
}

/// A close passes for one that freed first exactly if it released the admission at
/// some step, freed the context at an earlier one, and released nothing before.
pub proof fn law_freed_first_is_freed_before_any_release(roster: Seq<ControlContextCloseEffect>)
    ensures
        freed_first(roster) <==> exists|freed: int, released: int|
            0 <= freed < released < roster.len() && #[trigger] roster[freed]
                == ControlContextCloseEffect::DestroyAndFreeContext && #[trigger] roster[released]
                == ControlContextCloseEffect::ReleaseControlContextAdmission && !roster.take(
                freed,
            ).contains(ControlContextCloseEffect::ReleaseControlContextAdmission),
{
    let free = ControlContextCloseEffect::DestroyAndFreeContext;
    let release = ControlContextCloseEffect::ReleaseControlContextAdmission;
    law_step_stands_where_it_is_first(roster, free);
    law_step_stands_where_it_is_first(roster, release);
    let at = close_step_at(roster, free) as int;
    let then = close_step_at(roster, release) as int;
    if freed_first(roster) {
        assert(roster[at] == free && roster[then] == release);
        assert forall|i: int| 0 <= i < at implies roster.take(at)[i] != release by {
            assert(roster.take(at)[i] == roster[i]);
        }
    }
    if exists|freed: int, released: int|
        0 <= freed < released < roster.len() && #[trigger] roster[freed] == free && #[trigger]
            roster[released] == release && !roster.take(freed).contains(release) {
        let (freed, released) = choose|freed: int, released: int|
            0 <= freed < released < roster.len() && #[trigger] roster[freed] == free && #[trigger]
                roster[released] == release && !roster.take(freed).contains(release);
        assert(at <= freed);
        assert(then <= released);
        if then < freed {
            assert(roster.take(freed)[then] == release);
        }
    }
}

/// A close goes in this order.
pub proof fn law_close_goes_in_this_order()
    ensures
        ControlContextClosePlan::EFFECTS@ == seq![
            ControlContextCloseEffect::DetachFsContext,
            ControlContextCloseEffect::DestroyAndFreeContext,
            ControlContextCloseEffect::ReleaseControlContextAdmission,
        ],
{
    assert(ControlContextClosePlan::EFFECTS@ =~= seq![
        ControlContextCloseEffect::DetachFsContext,
        ControlContextCloseEffect::DestroyAndFreeContext,
        ControlContextCloseEffect::ReleaseControlContextAdmission,
    ]);
}

/// A create that stopped is undone by these steps.
pub proof fn law_stopped_create_is_undone_by_these(
    effect: ControlContextCreateEffect,
    rollback: ControlContextCreateRollback,
)
    requires
        call_ensures(ControlContextCreatePlan::rollback_after, (effect,), rollback),
    ensures
        ({
            let whole = seq![
                ControlContextCreateRollbackEffect::ClearFsContext,
                ControlContextCreateRollbackEffect::ReleaseRequestor,
                ControlContextCreateRollbackEffect::FreeContext,
                ControlContextCreateRollbackEffect::ReleaseLease,
            ];
            &&& effect == ControlContextCreateEffect::PublishFsContext ==> rollback@ == whole
            &&& effect == ControlContextCreateEffect::CaptureRequestor ==> rollback@ == whole.skip(
                1,
            )
            &&& effect == ControlContextCreateEffect::AllocateAndInitialize ==> rollback@
                == whole.skip(2)
            &&& effect == ControlContextCreateEffect::AcquireLease ==> rollback@ == whole.skip(3)
        }),
{
    law_create_is_undone_step_by_step(effect);
    assert(undo_of(4).skip(0) =~= undo_of(4));
}

/// A close may free a context exactly if its lifetime is the acknowledged one, or
/// one that nothing was installed on; and only then it begins, with its own steps.
pub proof fn law_close_begins_by_its_right(
    kind: ControlContextLifetimeKind,
    ownership: ControlContextCloseOwnership,
    unused: bool,
    adopted: ControlContextCloseOwnership,
    free: bool,
    begun: Result<ControlContextCloseProgress, AdapterPlanError>,
)
    requires
        call_ensures(ControlContextCloseOwnership::for_lifetime, (kind,), ownership),
        call_ensures(
            ControlContextCloseOwnership::adopt_unused_lease,
            (ownership, unused),
            adopted,
        ),
        call_ensures(ControlContextCloseOwnership::may_free, (adopted,), free),
        call_ensures(ControlContextClosePlan::begin, (adopted,), begun),
    ensures
        free <==> kind == ControlContextLifetimeKind::Close || (kind
            == ControlContextLifetimeKind::Lease && unused),
        begun is Ok <==> free,
        begun matches Ok(progress) ==> progress@.done == 0 && progress@.roster == seq![
            ControlContextCloseEffect::DetachFsContext,
            ControlContextCloseEffect::DestroyAndFreeContext,
            ControlContextCloseEffect::ReleaseControlContextAdmission,
        ],
        begun is Err ==> begun == Err::<ControlContextCloseProgress, _>(
            AdapterPlanError::InvalidTransition,
        ),
{
    law_close_goes_in_this_order();
}

/// A close goes through its steps one by one, and tells at each whether the context
/// was freed by then. Once they are done it tells whether that came before the
/// admission was released.
pub proof fn law_close_goes_step_by_step(
    pending: PendingControlContextClose,
    effect: ControlContextCloseEffect,
    freed: bool,
    progress: ControlContextCloseProgress,
    completion: ControlContextCloseCompletion,
    first: bool,
)
    requires
        call_ensures(PendingControlContextClose::effect, (&pending,), effect),
        call_ensures(PendingControlContextClose::context_freed, (&pending,), freed),
        call_ensures(PendingControlContextClose::succeeded, (pending,), progress),
        call_ensures(
            ControlContextCloseCompletion::freed_before_admission_release,
            (&completion,),
            first,
        ),
        pending@.roster.len() == 3,
    ensures
        0 <= pending@.done < 3,
        effect == pending@.roster[pending@.done],
        freed <==> exists|i: int|
            0 <= i < pending@.done && #[trigger] pending@.roster[i]
                == ControlContextCloseEffect::DestroyAndFreeContext,
        progress is Complete <==> pending@.done == 2,
        progress@.roster == pending@.roster,
        progress@.done == pending@.done + 1,
        first <==> exists|freed: int, released: int|
            0 <= freed < released < completion@.len() && #[trigger] completion@[freed]
                == ControlContextCloseEffect::DestroyAndFreeContext
                && #[trigger] completion@[released]
                == ControlContextCloseEffect::ReleaseControlContextAdmission
                && !completion@.take(freed).contains(
                ControlContextCloseEffect::ReleaseControlContextAdmission,
            ),
{
    law_freed_is_among_the_steps_done(pending@.roster, pending@.done);
    law_freed_first_is_freed_before_any_release(completion@);
}

/// A close with steps of its own begins by the same right, with those steps.
pub proof fn law_given_steps_are_walked(
    ownership: ControlContextCloseOwnership,
    roster: [ControlContextCloseEffect; 3],
    begun: Result<ControlContextCloseProgress, AdapterPlanError>,
)
    requires
        call_ensures(ControlContextClosePlan::begin_with_roster, (ownership, roster), begun),
    ensures
        begun is Ok <==> ownership == ControlContextCloseOwnership::CloseRight,
        begun matches Ok(progress) ==> progress@.roster == roster@ && progress@.done == 0,
        begun is Err ==> begun == Err::<ControlContextCloseProgress, _>(
            AdapterPlanError::InvalidTransition,
        ),
{
}

} // verus!
