//! The binding of a control handle: which setup, if any, it is staging, and who
//! may end it.

use vstd::prelude::*;

verus! {

/// The epoch the next setup of a handle gets, if one is left.
#[derive(Clone, Copy, Debug, PartialEq, Eq, Structural)]
pub struct SetupEpochCursor {
    next: Option<u64>,
}

impl View for SetupEpochCursor {
    type V = Option<u64>;

    closed spec fn view(&self) -> Option<u64> {
        self.next
    }
}

impl SetupEpochCursor {
    /// The next setup gets `epoch`.
    pub fn at(epoch: u64) -> (cursor: SetupEpochCursor)
        ensures
            cursor@ == Some(epoch),
    {
        SetupEpochCursor { next: Some(epoch) }
    }

    /// No epoch is left.
    pub fn exhausted() -> (cursor: SetupEpochCursor)
        ensures
            cursor@ == None::<u64>,
    {
        SetupEpochCursor { next: None }
    }
}

/// The epoch after `epoch`, if there is one.
pub open spec fn epoch_after(epoch: u64) -> Option<u64> {
    if epoch == u64::MAX {
        None
    } else {
        Some((epoch + 1) as u64)
    }
}

/// Where a binding stands.
#[derive(Clone, Copy, Debug, PartialEq, Eq, Structural)]
pub enum ControlBindingState {
    /// No setup is under way.
    Empty(SetupEpochCursor),
    /// The setup of this epoch is under way.
    Staging(u64),
    /// A cleanup claimed the handle with no setup under way.
    ClosingEmpty,
    /// A cleanup claimed the handle during the setup of this epoch.
    ClosingSetup(u64),
}

/// Why a binding refused.
#[derive(Clone, Copy, Debug, PartialEq, Eq, Structural)]
pub enum BindingError {
    /// The binding is not in a state for this.
    InvalidTransition,
    /// No setup epoch is left.
    EpochExhausted,
}

/// The one-shot right to the setup of one epoch.
#[derive(Debug, PartialEq, Eq)]
pub struct SetupReservation {
    epoch: u64,
}

impl View for SetupReservation {
    type V = u64;

    closed spec fn view(&self) -> u64 {
        self.epoch
    }
}

/// What a cleanup found when it claimed the handle.
#[derive(Debug, PartialEq, Eq)]
pub enum CleanupBindingClaim {
    /// No setup was under way.
    Empty,
    /// The setup of this epoch was.
    Setup(u64),
}

/// How a rolled-back reservation leaves its binding.
#[derive(Clone, Copy, Debug, PartialEq, Eq, Structural)]
pub enum SetupRollbackDisposition {
    /// The handle may set up again, with a later epoch.
    Reopened(SetupEpochCursor),
    /// A cleanup has claimed the handle and keeps it.
    RemainsClosing,
}

/// A rollback of a reservation that is known to be the binding's.
#[derive(Debug)]
pub struct PreparedReservedRollback {
    epoch: u64,
}

impl View for PreparedReservedRollback {
    type V = u64;

    closed spec fn view(&self) -> u64 {
        self.epoch
    }
}

/// The binding of one control handle.
#[derive(Debug, PartialEq, Eq)]
pub struct ControlBinding {
    state: ControlBindingState,
}

impl View for ControlBinding {
    type V = ControlBindingState;

    closed spec fn view(&self) -> ControlBindingState {
        self.state
    }
}

/// The binding is in the setup of `epoch`, claimed by a cleanup or not.
pub open spec fn is_setting_up(state: ControlBindingState, epoch: u64) -> bool {
    state == ControlBindingState::Staging(epoch) || state == ControlBindingState::ClosingSetup(
        epoch,
    )
}

/// Why no setup can begin, if none can.
pub open spec fn setup_error(state: ControlBindingState) -> Option<BindingError> {
    match state {
        ControlBindingState::Empty(cursor) => if cursor@ is None {
            Some(BindingError::EpochExhausted)
        } else {
            None
        },
        _ => Some(BindingError::InvalidTransition),
    }
}

impl ControlBinding {
    /// A new handle's binding. Its first setup gets epoch one.
    pub fn new() -> (binding: ControlBinding)
        ensures
            binding@ matches ControlBindingState::Empty(cursor) && cursor@ == Some(1u64),
    {
        Self::resuming(SetupEpochCursor::at(1))
    }

    /// A binding whose next setup gets the epoch of `cursor`.
    pub fn resuming(cursor: SetupEpochCursor) -> (binding: ControlBinding)
        ensures
            binding@ == ControlBindingState::Empty(cursor),
    {
        ControlBinding { state: ControlBindingState::Empty(cursor) }
    }

    /// Where the binding stands.
    pub fn state(&self) -> (state: ControlBindingState)
        ensures
            state == self@,
    {
        self.state
    }

    /// Begin a setup.
    pub fn begin_setup(&mut self) -> (reserved: Result<SetupReservation, BindingError>)
        ensures
            match setup_error(old(self)@) {
                Some(error) => reserved == Err::<SetupReservation, _>(error) && *final(self)
                    == *old(self),
                None => reserved matches Ok(reservation) && old(self)@->Empty_0@ == Some(
                    reservation@,
                ) && final(self)@ == ControlBindingState::Staging(reservation@),
            },
    {
        match self.state {
            ControlBindingState::Empty(cursor) => match cursor.next {
                Some(epoch) => {
                    self.state = ControlBindingState::Staging(epoch);
                    Ok(SetupReservation { epoch })
                },
                None => Err(BindingError::EpochExhausted),
            },
            _ => Err(BindingError::InvalidTransition),
        }
    }

    /// Claim the handle for its cleanup. Only the first claim is granted.
    pub fn claim_cleanup(&mut self) -> (claimed: Result<CleanupBindingClaim, BindingError>)
        ensures
            match old(self)@ {
                ControlBindingState::Empty(_) => claimed == Ok::<_, BindingError>(
                    CleanupBindingClaim::Empty,
                ) && final(self)@ == ControlBindingState::ClosingEmpty,
                ControlBindingState::Staging(epoch) => claimed == Ok::<_, BindingError>(
                    CleanupBindingClaim::Setup(epoch),
                ) && final(self)@ == ControlBindingState::ClosingSetup(epoch),
                _ => claimed == Err::<CleanupBindingClaim, _>(BindingError::InvalidTransition)
                    && *final(self) == *old(self),
            },
    {
        match self.state {
            ControlBindingState::Empty(_) => {
                self.state = ControlBindingState::ClosingEmpty;
                Ok(CleanupBindingClaim::Empty)
            },
            ControlBindingState::Staging(epoch) => {
                self.state = ControlBindingState::ClosingSetup(epoch);
                Ok(CleanupBindingClaim::Setup(epoch))
            },
            _ => Err(BindingError::InvalidTransition),
        }
    }
}

/// Check that a reservation is the binding's, before it is rolled back. A
/// reservation of another setup is handed back.
pub fn prepare_reserved_setup_rollback(
    binding: &ControlBinding,
    reservation: SetupReservation,
) -> (prepared: Result<PreparedReservedRollback, (BindingError, SetupReservation)>)
    ensures
        match prepared {
            Ok(rollback) => is_setting_up(binding@, reservation@) && rollback@ == reservation@,
            Err((error, returned)) => !is_setting_up(binding@, reservation@) && error
                == BindingError::InvalidTransition && returned == reservation,
        },
{
    let own = match binding.state {
        ControlBindingState::Staging(epoch) => epoch == reservation.epoch,
        ControlBindingState::ClosingSetup(epoch) => epoch == reservation.epoch,
        _ => false,
    };
    if own {
        Ok(PreparedReservedRollback { epoch: reservation.epoch })
    } else {
        Err((BindingError::InvalidTransition, reservation))
    }
}

/// Roll a reservation back. The handle opens again for the next epoch, unless a
/// cleanup has claimed it.
pub fn commit_prepared_reserved_setup_rollback(
    prepared: PreparedReservedRollback,
    binding: &mut ControlBinding,
) -> (disposition: SetupRollbackDisposition)
    requires
        is_setting_up(old(binding)@, prepared@),
    ensures
        match old(binding)@ {
            ControlBindingState::Staging(epoch) => {
                &&& disposition matches SetupRollbackDisposition::Reopened(cursor)
                &&& cursor@ == epoch_after(epoch)
                &&& final(binding)@ == ControlBindingState::Empty(cursor)
            },
            _ => disposition == SetupRollbackDisposition::RemainsClosing && *final(binding)
                == *old(binding),
        },
{
    match binding.state {
        ControlBindingState::Staging(epoch) => {
            let cursor = SetupEpochCursor { next: epoch.checked_add(1) };
            binding.state = ControlBindingState::Empty(cursor);
            SetupRollbackDisposition::Reopened(cursor)
        },
        _ => SetupRollbackDisposition::RemainsClosing,
    }
}

/// A setup that follows a rolled-back one has a later epoch, so the reservation
/// of the earlier one cannot pass for it, claimed by a cleanup or not.
pub proof fn law_setup_epochs_increase(
    first: u64,
    cursor: SetupEpochCursor,
    later: ControlBindingState,
    second: u64,
)
    requires
        cursor@ == epoch_after(first),
        setup_error(ControlBindingState::Empty(cursor)) is None,
        cursor@ == Some(second),
        is_setting_up(later, second),
    ensures
        second > first,
        !is_setting_up(later, first),
{
}

/// Epochs follow one another by one, and only the largest has no next.
pub proof fn law_epochs_follow_by_one(epoch: u64)
    ensures
        epoch_after(epoch) is None <==> epoch == 0xFFFF_FFFF_FFFF_FFFF,
        epoch_after(epoch) matches Some(next) ==> next - epoch == 1,
{
}

/// A setup begins exactly on an empty handle with an epoch left. A handle with no
/// setup under way and none left to give is told so; every other handle is told
/// that it is not in a state for one.
pub proof fn law_setup_begins_on_an_empty_handle(state: ControlBindingState)
    ensures
        setup_error(state) is None <==> (state matches ControlBindingState::Empty(cursor)
            && cursor@ is Some),
        setup_error(state) == Some(BindingError::EpochExhausted) <==> (
        state matches ControlBindingState::Empty(cursor) && cursor@ is None),
        setup_error(state) == Some(BindingError::InvalidTransition) <==> !(state is Empty),
{
}

/// A reservation is good for one setup only, and a cleanup's claim does not void
/// it: of two epochs at most one is under way, before the claim as after it.
pub proof fn law_reservation_is_of_one_setup(state: ControlBindingState, first: u64, second: u64)
    ensures
        is_setting_up(state, first) && is_setting_up(state, second) ==> first == second,
        is_setting_up(ControlBindingState::Staging(first), second) <==> first == second,
        is_setting_up(ControlBindingState::ClosingSetup(first), second) <==> first == second,
        state is Empty || state is ClosingEmpty ==> !is_setting_up(state, first),
{
}

/// A setup begins exactly on an empty handle with an epoch left, and stages that
/// epoch. A cleanup claims a handle once: it closes an empty one, and one that is
/// set up it closes for that setup. What is refused changes nothing.
pub proof fn law_handle_is_staged_and_claimed(
    staged: &mut ControlBinding,
    claimed: &mut ControlBinding,
    reserved: Result<SetupReservation, BindingError>,
    claim: Result<CleanupBindingClaim, BindingError>,
)
    requires
        call_ensures(ControlBinding::begin_setup, (staged,), reserved),
        call_ensures(ControlBinding::claim_cleanup, (claimed,), claim),
    ensures
        reserved is Ok <==> old(staged)@ is Empty && old(staged)@->Empty_0@ is Some,
        reserved matches Ok(reservation) ==> old(staged)@->Empty_0@ == Some(reservation@) && final(staged)@ == ControlBindingState::Staging(reservation@),
        reserved matches Err(error) ==> (error == BindingError::EpochExhausted <==> old(staged)@
            is Empty) && (error == BindingError::InvalidTransition <==> !(old(staged)@ is Empty))
            && final(staged)@ == old(staged)@,
        claim is Ok <==> old(claimed)@ is Empty || old(claimed)@ is Staging,
        claim == Ok::<_, BindingError>(CleanupBindingClaim::Empty) <==> old(claimed)@ is Empty,
        old(claimed)@ is Empty ==> final(claimed)@ == ControlBindingState::ClosingEmpty,
        old(claimed)@ matches ControlBindingState::Staging(epoch) ==> claim == Ok::<
            _,
            BindingError,
        >(CleanupBindingClaim::Setup(epoch)) && final(claimed)@
            == ControlBindingState::ClosingSetup(epoch),
        claim is Err ==> claim == Err::<CleanupBindingClaim, _>(BindingError::InvalidTransition)
            && final(claimed)@ == old(claimed)@,
{
}

/// A reservation is rolled back exactly on the handle whose setup it is, claimed by
/// a cleanup or not. The handle opens again for the next epoch, or stays with the
/// cleanup that claimed it.
pub proof fn law_rolled_back_handle_opens_for_the_next_epoch(
    binding: ControlBinding,
    reservation: SetupReservation,
    prepared: Result<PreparedReservedRollback, (BindingError, SetupReservation)>,
    rollback: PreparedReservedRollback,
    later: &mut ControlBinding,
    disposition: SetupRollbackDisposition,
)
    requires
        call_ensures(prepare_reserved_setup_rollback, (&binding, reservation), prepared),
        is_setting_up(old(later)@, rollback@),
        call_ensures(commit_prepared_reserved_setup_rollback, (rollback, later), disposition),
    ensures
        prepared is Ok <==> binding@ == ControlBindingState::Staging(reservation@) || binding@
            == ControlBindingState::ClosingSetup(reservation@),
        prepared matches Ok(checked) ==> checked@ == reservation@,
        prepared matches Err((error, returned)) ==> error == BindingError::InvalidTransition
            && returned == reservation,
        disposition is Reopened <==> old(later)@ is Staging,
        disposition matches SetupRollbackDisposition::Reopened(cursor) ==> {
            &&& final(later)@ == ControlBindingState::Empty(cursor)
            &&& rollback@ == u64::MAX ==> cursor@ is None
            &&& rollback@ < u64::MAX ==> cursor@ == Some((rollback@ + 1) as u64)
        },
        disposition is RemainsClosing ==> final(later)@ == old(later)@,
{
}

/// A new handle's first setup gets epoch one, and a resumed one's the epoch it is
/// resumed at, if one is left.
pub proof fn law_handle_starts_at_its_epoch(
    fresh: ControlBinding,
    epoch: u64,
    at: SetupEpochCursor,
    spent: SetupEpochCursor,
    resumed: ControlBinding,
    state: ControlBindingState,
)
    requires
        call_ensures(ControlBinding::new, (), fresh),
        call_ensures(SetupEpochCursor::at, (epoch,), at),
        call_ensures(SetupEpochCursor::exhausted, (), spent),
        call_ensures(ControlBinding::resuming, (at,), resumed),
        call_ensures(ControlBinding::state, (&resumed,), state),
    ensures
        fresh@ is Empty && fresh@->Empty_0@ == Some(1u64),
        at@ == Some(epoch),
        spent@ is None,
        state == ControlBindingState::Empty(at),
{
}

} // verus!
