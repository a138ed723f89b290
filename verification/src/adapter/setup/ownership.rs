//! Who owns the volume shell and the root right while a session is set up.
//!
//! The shell is allocated once, branded with the session's locator once, and
//! then either deposited in the session's cell or destroyed. The root right
//! follows the brand. Neither can be made up, used twice or freed twice.

use vstd::prelude::*;

use crate::session::SessionLocator;

verus! {

/// The name of one allocated shell.
#[derive(Clone, Copy, Debug, PartialEq, Eq, Structural)]
pub struct ShellOwnerId(u64);

impl View for ShellOwnerId {
    type V = u64;

    closed spec fn view(&self) -> u64 {
        self.0
    }
}

impl ShellOwnerId {
    /// Name a shell.
    pub fn new(id: u64) -> (owner: ShellOwnerId)
        ensures
            owner@ == id,
    {
        ShellOwnerId(id)
    }
}

/// Where the shell is.
#[derive(Clone, Copy, Debug, PartialEq, Eq, Structural)]
pub enum ShellOwnerState {
    /// None was allocated.
    Absent,
    /// Allocated and not branded yet.
    Unpublished(ShellOwnerId),
    /// Branded with the session it is for.
    Branded { id: ShellOwnerId, locator: SessionLocator },
    /// Owned by the session's cell.
    CellOwned { id: ShellOwnerId, locator: SessionLocator },
    /// Destroyed.
    Destroyed(ShellOwnerId),
}

/// Where the root right is.
#[derive(Clone, Copy, Debug, PartialEq, Eq, Structural)]
pub enum RootRightState {
    /// None was acquired.
    Absent,
    /// Acquired by the setup.
    Acquired(SessionLocator),
    /// Owned by the session's cell.
    CellOwned(SessionLocator),
    /// Released.
    Released(SessionLocator),
}

/// Why a move was refused.
#[derive(Clone, Copy, Debug, PartialEq, Eq, Structural)]
pub enum OwnershipFault {
    /// What would be moved was never obtained.
    Fabricated,
    /// What would be moved has been moved on already.
    NotRepeatable,
    /// The session is not the one the shell was branded with.
    WrongLocator,
    /// The volume device is not this shell's, or is past its initialization.
    UnusableVdo,
}

/// What the volume device showed before publication.
#[derive(Clone, Copy, Debug, PartialEq, Eq, Structural)]
pub struct VdoReadiness {
    /// The shell the device belongs to.
    pub shell: ShellOwnerId,
    /// The device cannot be opened yet.
    pub device_initializing: bool,
    /// No locator was written to the device yet.
    pub locator_uninitialized: bool,
}

/// The owners of one setup.
#[derive(Clone, Copy, Debug, PartialEq, Eq, Structural)]
pub struct SetupOwnership {
    shell: ShellOwnerState,
    root: RootRightState,
    shell_destroys: u32,
    root_releases: u32,
}

/// A [`SetupOwnership`] as values.
pub struct OwnershipModel {
    pub shell: ShellOwnerState,
    pub root: RootRightState,
}

impl View for SetupOwnership {
    type V = OwnershipModel;

    closed spec fn view(&self) -> OwnershipModel {
        OwnershipModel { shell: self.shell, root: self.root }
    }
}

impl OwnershipModel {
    /// How often the shell was destroyed.
    pub open spec fn destroys(self) -> u32 {
        if self.shell is Destroyed {
            1
        } else {
            0
        }
    }

    /// How often the root right was released.
    pub open spec fn releases(self) -> u32 {
        if self.root is Released {
            1
        } else {
            0
        }
    }
}

/// Why the shell cannot be branded, if it cannot.
pub open spec fn staging_fault(owners: OwnershipModel) -> Option<OwnershipFault> {
    match owners.shell {
        ShellOwnerState::Absent => Some(OwnershipFault::Fabricated),
        ShellOwnerState::Unpublished(_) => None,
        _ => Some(OwnershipFault::NotRepeatable),
    }
}

/// Why the owners cannot be published for `locator`, if they cannot: the shell
/// has to be branded with it, the root right has to be the setup's still, and the
/// device has to be the shell's, unopened.
pub open spec fn publication_fault(
    owners: OwnershipModel,
    locator: SessionLocator,
    vdo: VdoReadiness,
) -> Option<OwnershipFault> {
    match owners.shell {
        ShellOwnerState::Absent | ShellOwnerState::Unpublished(_) => Some(
            OwnershipFault::Fabricated,
        ),
        ShellOwnerState::Branded { id, locator: branded } => if branded != locator {
            Some(OwnershipFault::WrongLocator)
        } else if owners.root != RootRightState::Acquired(locator) {
            Some(OwnershipFault::NotRepeatable)
        } else if vdo.shell != id || !vdo.device_initializing || !vdo.locator_uninitialized {
            Some(OwnershipFault::UnusableVdo)
        } else {
            None
        },
        _ => Some(OwnershipFault::NotRepeatable),
    }
}

/// Why the shell cannot be destroyed, if it cannot.
pub open spec fn destroy_fault(owners: OwnershipModel) -> Option<OwnershipFault> {
    match owners.shell {
        ShellOwnerState::Absent => Some(OwnershipFault::Fabricated),
        ShellOwnerState::Unpublished(_) | ShellOwnerState::Branded { .. } => None,
        _ => Some(OwnershipFault::NotRepeatable),
    }
}

/// Why the root right cannot be released, if it cannot.
pub open spec fn release_fault(owners: OwnershipModel) -> Option<OwnershipFault> {
    match owners.root {
        RootRightState::Absent => Some(OwnershipFault::Fabricated),
        RootRightState::Acquired(_) => None,
        _ => Some(OwnershipFault::NotRepeatable),
    }
}

/// The shell's name, where there is one.
pub open spec fn shell_id(shell: ShellOwnerState) -> Option<ShellOwnerId> {
    match shell {
        ShellOwnerState::Absent => None,
        ShellOwnerState::Unpublished(id) => Some(id),
        ShellOwnerState::Branded { id, .. } => Some(id),
        ShellOwnerState::CellOwned { id, .. } => Some(id),
        ShellOwnerState::Destroyed(id) => Some(id),
    }
}

/// The owners after the shell was destroyed.
pub open spec fn destroyed(owners: OwnershipModel) -> OwnershipModel {
    OwnershipModel { shell: ShellOwnerState::Destroyed(shell_id(owners.shell)->0), ..owners }
}

/// The owners after the root right was released.
pub open spec fn released(owners: OwnershipModel) -> OwnershipModel {
    OwnershipModel { root: RootRightState::Released(owners.root->Acquired_0), ..owners }
}

/// The owners after a rollback: what the setup still owned is gone.
pub open spec fn rolled_back(owners: OwnershipModel) -> OwnershipModel {
    let after_root = if release_fault(owners) is None {
        released(owners)
    } else {
        owners
    };
    if destroy_fault(owners) is None {
        destroyed(after_root)
    } else {
        after_root
    }
}

impl SetupOwnership {
    #[verifier::type_invariant]
    closed spec fn inv(self) -> bool {
        &&& self.shell_destroys == self@.destroys()
        &&& self.root_releases == self@.releases()
    }

    /// Nothing is owned yet.
    pub fn new() -> (owners: SetupOwnership)
        ensures
            owners@ == (OwnershipModel {
                shell: ShellOwnerState::Absent,
                root: RootRightState::Absent,
            }),
    {
        SetupOwnership {
            shell: ShellOwnerState::Absent,
            root: RootRightState::Absent,
            shell_destroys: 0,
            root_releases: 0,
        }
    }

    /// Where the shell is.
    pub fn shell(&self) -> (shell: ShellOwnerState)
        ensures
            shell == self@.shell,
    {
        self.shell
    }

    /// Where the root right is.
    pub fn root(&self) -> (root: RootRightState)
        ensures
            root == self@.root,
    {
        self.root
    }

    /// How often the shell was destroyed.
    pub fn shell_destroy_count(&self) -> (count: u32)
        ensures
            count == self@.destroys(),
    {
        proof {
            use_type_invariant(self);
        }
        self.shell_destroys
    }

    /// How often the root right was released.
    pub fn root_release_count(&self) -> (count: u32)
        ensures
            count == self@.releases(),
    {
        proof {
            use_type_invariant(self);
        }
        self.root_releases
    }

    /// Take the shell that was just allocated. There is one allocation.
    pub fn allocate(&mut self, id: ShellOwnerId) -> (result: Result<(), OwnershipFault>)
        ensures
            match old(self)@.shell {
                ShellOwnerState::Absent => result is Ok && final(self)@ == (OwnershipModel {
                    shell: ShellOwnerState::Unpublished(id),
                    ..old(self)@
                }),
                _ => result == Err::<(), _>(OwnershipFault::NotRepeatable) && *final(self)
                    == *old(self),
            },
    {
        proof {
            use_type_invariant(&*self);
        }
        match self.shell {
            ShellOwnerState::Absent => {
                self.shell = ShellOwnerState::Unpublished(id);
                Ok(())
            },
            _ => Err(OwnershipFault::NotRepeatable),
        }
    }

    /// Brand the shell with its session and acquire the session's root right.
    pub fn install_staging(&mut self, locator: SessionLocator) -> (result: Result<
        (),
        OwnershipFault,
    >)
        ensures
            match staging_fault(old(self)@) {
                Some(fault) => result == Err::<(), _>(fault) && *final(self) == *old(self),
                None => result is Ok && final(self)@ == (OwnershipModel {
                    shell: ShellOwnerState::Branded {
                        id: shell_id(old(self)@.shell)->0,
                        locator,
                    },
                    root: RootRightState::Acquired(locator),
                }),
            },
    {
        proof {
            use_type_invariant(&*self);
        }
        match self.shell {
            ShellOwnerState::Absent => Err(OwnershipFault::Fabricated),
            ShellOwnerState::Unpublished(id) => {
                *self = SetupOwnership {
                    shell: ShellOwnerState::Branded { id, locator },
                    root: RootRightState::Acquired(locator),
                    shell_destroys: 0,
                    root_releases: 0,
                };
                Ok(())
            },
            _ => Err(OwnershipFault::NotRepeatable),
        }
    }

    /// Can the owners be published for this session and this device?
    pub fn preflight_publication(&self, locator: SessionLocator, vdo: VdoReadiness) -> (result:
        Result<(), OwnershipFault>)
        ensures
            result == match publication_fault(self@, locator, vdo) {
                Some(fault) => Err(fault),
                None => Ok(()),
            },
    {
        match self.shell {
            ShellOwnerState::Absent => Err(OwnershipFault::Fabricated),
            ShellOwnerState::Unpublished(_) => Err(OwnershipFault::Fabricated),
            ShellOwnerState::Branded { id, locator: branded } => {
                if branded != locator {
                    Err(OwnershipFault::WrongLocator)
                } else if self.root != RootRightState::Acquired(locator) {
                    Err(OwnershipFault::NotRepeatable)
                } else if vdo.shell != id || !vdo.device_initializing || !vdo.locator_uninitialized {
                    Err(OwnershipFault::UnusableVdo)
                } else {
                    Ok(())
                }
            },
            _ => Err(OwnershipFault::NotRepeatable),
        }
    }

    /// Move both owners into the session's cell.
    pub fn deposit(&mut self, locator: SessionLocator, vdo: VdoReadiness) -> (result: Result<
        (),
        OwnershipFault,
    >)
        ensures
            match publication_fault(old(self)@, locator, vdo) {
                Some(fault) => result == Err::<(), _>(fault) && *final(self) == *old(self),
                None => result is Ok && final(self)@ == (OwnershipModel {
                    shell: ShellOwnerState::CellOwned {
                        id: shell_id(old(self)@.shell)->0,
                        locator,
                    },
                    root: RootRightState::CellOwned(locator),
                }),
            },
    {
        if let Err(fault) = self.preflight_publication(locator, vdo) {
            return Err(fault);
        }
        if let ShellOwnerState::Branded { id, .. } = self.shell {
            *self = SetupOwnership {
                shell: ShellOwnerState::CellOwned { id, locator },
                root: RootRightState::CellOwned(locator),
                shell_destroys: 0,
                root_releases: 0,
            };
        }
        Ok(())
    }

    /// Destroy the shell, if it is the setup's to destroy.
    pub fn destroy_shell(&mut self) -> (result: Result<(), OwnershipFault>)
        ensures
            match destroy_fault(old(self)@) {
                Some(fault) => result == Err::<(), _>(fault) && *final(self) == *old(self),
                None => result is Ok && final(self)@ == destroyed(old(self)@),
            },
    {
        proof {
            use_type_invariant(&*self);
        }
        let id = match self.shell {
            ShellOwnerState::Absent => {
                return Err(OwnershipFault::Fabricated);
            },
            ShellOwnerState::Unpublished(id) => id,
            ShellOwnerState::Branded { id, .. } => id,
            _ => {
                return Err(OwnershipFault::NotRepeatable);
            },
        };
        *self = SetupOwnership {
            shell: ShellOwnerState::Destroyed(id),
            root: self.root,
            shell_destroys: self.shell_destroys + 1,
            root_releases: self.root_releases,
        };
        Ok(())
    }

    /// Release the root right, if it is the setup's to release.
    pub fn release_root(&mut self) -> (result: Result<(), OwnershipFault>)
        ensures
            match release_fault(old(self)@) {
                Some(fault) => result == Err::<(), _>(fault) && *final(self) == *old(self),
                None => result is Ok && final(self)@ == released(old(self)@),
            },
    {
        proof {
            use_type_invariant(&*self);
        }
        let locator = match self.root {
            RootRightState::Absent => {
                return Err(OwnershipFault::Fabricated);
            },
            RootRightState::Acquired(locator) => locator,
            _ => {
                return Err(OwnershipFault::NotRepeatable);
            },
        };
        *self = SetupOwnership {
            shell: self.shell,
            root: RootRightState::Released(locator),
            shell_destroys: self.shell_destroys,
            root_releases: self.root_releases + 1,
        };
        Ok(())
    }

    /// Give up what the setup still owns: release the root right, then destroy
    /// the shell.
    pub fn rollback(&mut self) -> (result: Result<(), OwnershipFault>)
        ensures
            result is Ok,
            final(self)@ == rolled_back(old(self)@),
    {
        if let RootRightState::Acquired(_) = self.root {
            if let Err(fault) = self.release_root() {
                return Err(fault);
            }
        }
        match self.shell {
            ShellOwnerState::Unpublished(_) | ShellOwnerState::Branded { .. } => self.destroy_shell(),
            _ => Ok(()),
        }
    }
}

/// A rollback leaves the setup owning nothing, and a second one changes nothing:
/// nothing is destroyed or released twice.
pub proof fn law_rollback_happens_once(owners: OwnershipModel)
    ensures
        destroy_fault(rolled_back(owners)) is Some,
        release_fault(rolled_back(owners)) is Some,
        rolled_back(rolled_back(owners)) == rolled_back(owners),
        rolled_back(owners).destroys() <= 1,
        rolled_back(owners).releases() <= 1,
{
}

/// What the session's cell owns, a rollback leaves alone.
pub proof fn law_rollback_spares_the_cell(owners: OwnershipModel)
    requires
        owners.shell is CellOwned,
        owners.root is CellOwned,
    ensures
        rolled_back(owners) == owners,
        destroy_fault(owners) == Some(OwnershipFault::NotRepeatable),
        release_fault(owners) == Some(OwnershipFault::NotRepeatable),
{
}

/// A root right that was released is never given to the session's cell, and
/// neither is a shell that was destroyed.
pub proof fn law_released_right_is_not_published(
    owners: OwnershipModel,
    locator: SessionLocator,
    vdo: VdoReadiness,
)
    ensures
        release_fault(owners) is None ==> publication_fault(released(owners), locator, vdo) is Some,
        destroy_fault(owners) is None ==> publication_fault(destroyed(owners), locator, vdo)
            is Some,
        publication_fault(rolled_back(owners), locator, vdo) is Some,
{
}

/// A publication that is not refused is for the session the shell was branded
/// with, whose root right the setup still has, on a device of that shell which nobody can open yet and whose locator
/// is unwritten.
pub proof fn law_publication_is_for_the_branded_session(
    owners: OwnershipModel,
    locator: SessionLocator,
    vdo: VdoReadiness,
)
    requires
        publication_fault(owners, locator, vdo) is None,
    ensures
        owners.shell == (ShellOwnerState::Branded { id: vdo.shell, locator }),
        owners.root == RootRightState::Acquired(locator),
        vdo.device_initializing,
        vdo.locator_uninitialized,
{
}

/// A shell is branded exactly while it is allocated and unbranded. One that was
/// never allocated cannot be made up, and one that has moved on is not branded
/// again.
pub proof fn law_shell_is_branded_once(owners: OwnershipModel)
    ensures
        staging_fault(owners) is None <==> owners.shell is Unpublished,
        staging_fault(owners) == Some(OwnershipFault::Fabricated) <==> owners.shell is Absent,
        staging_fault(owners) == Some(OwnershipFault::NotRepeatable) <==> owners.shell is Branded
            || owners.shell is CellOwned || owners.shell is Destroyed,
{
}

/// A shell is destroyed exactly while the setup owns it, branded or not, and the
/// root right released exactly while the setup holds it. What the cell owns and
/// what is gone already are refused as repeated, and what never was as made up.
pub proof fn law_only_the_setups_own_is_given_up(owners: OwnershipModel)
    ensures
        destroy_fault(owners) is None <==> owners.shell is Unpublished || owners.shell is Branded,
        destroy_fault(owners) == Some(OwnershipFault::Fabricated) <==> owners.shell is Absent,
        destroy_fault(owners) == Some(OwnershipFault::NotRepeatable) <==> owners.shell is CellOwned
            || owners.shell is Destroyed,
        release_fault(owners) is None <==> owners.root is Acquired,
        release_fault(owners) == Some(OwnershipFault::Fabricated) <==> owners.root is Absent,
        release_fault(owners) == Some(OwnershipFault::NotRepeatable) <==> owners.root is CellOwned
            || owners.root is Released,
{
}

/// Why a publication is refused, each fault exactly: an unbranded shell is made up;
/// one branded for another session is refused for that, whatever else is wrong; a
/// shell that moved on, or a right that is not the setup's for this session, is
/// repeated; and only then a device of another shell, one that can be opened, or
/// one with a locator is unusable.
pub proof fn law_publication_is_refused_in_order(
    owners: OwnershipModel,
    locator: SessionLocator,
    vdo: VdoReadiness,
)
    ensures
        publication_fault(owners, locator, vdo) == Some(OwnershipFault::Fabricated) <==>
            owners.shell is Absent || owners.shell is Unpublished,
        publication_fault(owners, locator, vdo) == Some(OwnershipFault::WrongLocator) <==>
            owners.shell is Branded && owners.shell->Branded_locator != locator,
        publication_fault(owners, locator, vdo) == Some(OwnershipFault::NotRepeatable) <==>
            owners.shell is CellOwned || owners.shell is Destroyed || (owners.shell is Branded
            && owners.shell->Branded_locator == locator && owners.root != RootRightState::Acquired(
            locator,
        )),
        publication_fault(owners, locator, vdo) == Some(OwnershipFault::UnusableVdo) <==>
            owners.shell is Branded && owners.shell->Branded_locator == locator && owners.root
            == RootRightState::Acquired(locator) && !(vdo.shell == owners.shell->Branded_id
            && vdo.device_initializing && vdo.locator_uninitialized),
{
}

/// A destroyed shell keeps its name, a released right keeps its session, and
/// giving up one leaves the other alone.
pub proof fn law_giving_up_one_keeps_the_other(owners: OwnershipModel)
    ensures
        destroyed(owners).root == owners.root,
        released(owners).shell == owners.shell,
        owners.shell matches ShellOwnerState::Unpublished(id) ==> destroyed(owners).shell
            == ShellOwnerState::Destroyed(id),
        owners.shell matches ShellOwnerState::Branded { id, locator: _ } ==> destroyed(owners).shell
            == ShellOwnerState::Destroyed(id),
        owners.root matches RootRightState::Acquired(locator) ==> released(owners).root
            == RootRightState::Released(locator),
        owners.root is Acquired ==> released(owners).releases() == 1,
        owners.shell is Unpublished || owners.shell is Branded ==> destroyed(owners).destroys()
            == 1,
{
}

/// A rollback gives up exactly what the setup owned: a held right is released and
/// any other stays, an owned shell is destroyed and any other stays.
pub proof fn law_rollback_gives_up_exactly_what_was_owned(owners: OwnershipModel)
    ensures
        match owners.root {
            RootRightState::Acquired(locator) => rolled_back(owners).root
                == RootRightState::Released(locator),
            other => rolled_back(owners).root == other,
        },
        match owners.shell {
            ShellOwnerState::Unpublished(id) => rolled_back(owners).shell
                == ShellOwnerState::Destroyed(id),
            ShellOwnerState::Branded { id, locator: _ } => rolled_back(owners).shell
                == ShellOwnerState::Destroyed(id),
            other => rolled_back(owners).shell == other,
        },
{
}

/// A shell has a name from its allocation to its destruction and past it, and the
/// counts say what is gone and nothing else.
pub proof fn law_counts_say_what_is_gone(owners: OwnershipModel)
    ensures
        shell_id(owners.shell) is None <==> owners.shell is Absent,
        owners.destroys() == 1 <==> owners.shell is Destroyed,
        owners.destroys() == 0 <==> !(owners.shell is Destroyed),
        owners.releases() == 1 <==> owners.root is Released,
        owners.releases() == 0 <==> !(owners.root is Released),
        owners.shell matches ShellOwnerState::CellOwned { id, locator: _ } ==> shell_id(
            owners.shell,
        ) == Some(id),
        owners.shell matches ShellOwnerState::Branded { id, locator: _ } ==> shell_id(owners.shell)
            == Some(id),
        owners.shell matches ShellOwnerState::Unpublished(id) ==> shell_id(owners.shell) == Some(id),
        owners.shell matches ShellOwnerState::Destroyed(id) ==> shell_id(owners.shell) == Some(id),
{
}

/// A shell is allocated once, branded once while it is allocated and unbranded, and
/// its brand brings the root right of that session. What is refused changes nothing.
pub proof fn law_shell_is_allocated_and_branded(
    allocated: &mut SetupOwnership,
    branded: &mut SetupOwnership,
    id: ShellOwnerId,
    locator: SessionLocator,
    taken: Result<(), OwnershipFault>,
    staged: Result<(), OwnershipFault>,
)
    requires
        call_ensures(SetupOwnership::allocate, (allocated, id), taken),
        call_ensures(SetupOwnership::install_staging, (branded, locator), staged),
    ensures
        taken is Ok <==> old(allocated)@.shell is Absent,
        taken is Ok ==> final(allocated)@.shell == ShellOwnerState::Unpublished(id) && final(
            allocated
        )@.root == old(allocated)@.root,
        taken is Err ==> taken == Err::<(), _>(OwnershipFault::NotRepeatable) && final(allocated)@
            == old(allocated)@,
        staged is Ok <==> old(branded)@.shell is Unpublished,
        old(branded)@.shell matches ShellOwnerState::Unpublished(own) ==> final(branded)@.shell == (
        ShellOwnerState::Branded { id: own, locator }) && final(branded)@.root
            == RootRightState::Acquired(locator),
        staged matches Err(fault) ==> (fault == OwnershipFault::Fabricated <==> old(branded)@.shell
            is Absent) && (fault == OwnershipFault::NotRepeatable <==> !(old(branded)@.shell
            is Absent)) && final(branded)@ == old(branded)@,
{
}

/// Both owners go to the session's cell exactly where the preflight says they may:
/// the shell branded for that session, the right the setup's, and the device the
/// shell's, unopened and without a locator.
pub proof fn law_owners_go_to_the_cell_together(
    owners: &mut SetupOwnership,
    locator: SessionLocator,
    vdo: VdoReadiness,
    checked: Result<(), OwnershipFault>,
    result: Result<(), OwnershipFault>,
)
    requires
        call_ensures(SetupOwnership::preflight_publication, (old(owners), locator, vdo), checked),
        call_ensures(SetupOwnership::deposit, (owners, locator, vdo), result),
    ensures
        result is Ok <==> checked is Ok,
        result matches Err(fault) ==> checked == Err::<(), _>(fault),
        result is Ok <==> old(owners)@.shell == (ShellOwnerState::Branded {
            id: vdo.shell,
            locator,
        }) && old(owners)@.root == RootRightState::Acquired(locator) && vdo.device_initializing
            && vdo.locator_uninitialized,
        result is Ok ==> final(owners)@.shell == (ShellOwnerState::CellOwned {
            id: vdo.shell,
            locator,
        }) && final(owners)@.root == RootRightState::CellOwned(locator),
        result is Err ==> final(owners)@ == old(owners)@,
{
    law_publication_is_refused_in_order(old(owners)@, locator, vdo);
}

/// A shell is destroyed exactly while the setup owns it, a right released exactly
/// while the setup holds it, and each leaves the other alone. A rollback does both
/// as far as they are due, and never fails.
pub proof fn law_setup_gives_up_its_own(
    destroyed_owners: &mut SetupOwnership,
    released_owners: &mut SetupOwnership,
    rolled: &mut SetupOwnership,
    gone: Result<(), OwnershipFault>,
    freed: Result<(), OwnershipFault>,
    back: Result<(), OwnershipFault>,
)
    requires
        call_ensures(SetupOwnership::destroy_shell, (destroyed_owners,), gone),
        call_ensures(SetupOwnership::release_root, (released_owners,), freed),
        call_ensures(SetupOwnership::rollback, (rolled,), back),
    ensures
        gone is Ok <==> old(destroyed_owners)@.shell is Unpublished || old(
            destroyed_owners
        )@.shell is Branded,
        gone is Ok ==> final(destroyed_owners)@.shell is Destroyed,
        final(destroyed_owners)@.root == old(destroyed_owners)@.root,
        gone is Err ==> final(destroyed_owners)@ == old(destroyed_owners)@,
        freed is Ok <==> old(released_owners)@.root is Acquired,
        freed is Ok ==> final(released_owners)@.root == RootRightState::Released(
            old(released_owners)@.root->Acquired_0,
        ),
        final(released_owners)@.shell == old(released_owners)@.shell,
        freed is Err ==> final(released_owners)@ == old(released_owners)@,
        back is Ok,
        old(rolled)@.root is Acquired ==> final(rolled)@.root is Released,
        !(old(rolled)@.root is Acquired) ==> final(rolled)@.root == old(rolled)@.root,
        old(rolled)@.shell is Unpublished || old(rolled)@.shell is Branded ==> final(rolled)@.shell
            is Destroyed,
        !(old(rolled)@.shell is Unpublished) && !(old(rolled)@.shell is Branded) ==> final(
            rolled
        )@.shell == old(rolled)@.shell,
{
    law_rollback_gives_up_exactly_what_was_owned(old(rolled)@);
}

/// The counts of what was destroyed and released say what is gone.
pub proof fn law_counts_are_of_what_is_gone(owners: SetupOwnership, destroys: u32, releases: u32)
    requires
        call_ensures(SetupOwnership::shell_destroy_count, (&owners,), destroys),
        call_ensures(SetupOwnership::root_release_count, (&owners,), releases),
    ensures
        destroys == 1 <==> owners@.shell is Destroyed,
        destroys == 0 <==> !(owners@.shell is Destroyed),
        releases == 1 <==> owners@.root is Released,
        releases == 0 <==> !(owners@.root is Released),
{
    law_counts_say_what_is_gone(owners@);
}

/// A setup that begins owns nothing, and nothing of it was destroyed or released.
pub proof fn law_new_setup_owns_nothing(
    owners: SetupOwnership,
    shell: ShellOwnerState,
    root: RootRightState,
    id: u64,
    first: ShellOwnerId,
    other: u64,
    second: ShellOwnerId,
)
    requires
        call_ensures(SetupOwnership::new, (), owners),
        call_ensures(SetupOwnership::shell, (&owners,), shell),
        call_ensures(SetupOwnership::root, (&owners,), root),
        call_ensures(ShellOwnerId::new, (id,), first),
        call_ensures(ShellOwnerId::new, (other,), second),
    ensures
        shell is Absent,
        root is Absent,
        owners@.destroys() == 0,
        owners@.releases() == 0,
        first@ == second@ <==> id == other,
{
}

} // verus!
