//! The names that tie an authority to one session, one ring and one install.

pub mod binding;

use crate::abi::identity::SessionIdentity;
use vstd::prelude::*;

verus! {

/// The most rings one session has.
pub const MAX_SESSION_RING_COUNT: u32 = 64;

/// Where one session lives: its registry slot, that slot's generation, and whose
/// session it is.
#[derive(Clone, Copy, Debug, PartialEq, Eq, Structural)]
pub struct SessionLocator {
    pub identity: SessionIdentity,
    pub slot: u32,
    pub generation: u64,
}

/// One ring of one session.
#[derive(Clone, Copy, Debug, PartialEq, Eq, Structural)]
pub struct SessionRingBrand {
    pub locator: SessionLocator,
    pub ring_index: u32,
}

/// One install of a parked request on one ring.
#[derive(Clone, Copy, Debug, PartialEq, Eq, Structural)]
pub struct PendingInstallId {
    pub brand: SessionRingBrand,
    pub epoch: u64,
}

/// The one-shot right to bind a ring's completion-queue storage.
#[derive(Debug)]
pub struct CqStorageBindRight {
    brand: SessionRingBrand,
}

impl View for CqStorageBindRight {
    type V = SessionRingBrand;

    closed spec fn view(&self) -> SessionRingBrand {
        self.brand
    }
}

impl CqStorageBindRight {
    /// The right of the ring that `brand` names.
    ///
    /// Whoever sets the session up makes one right for each of its rings, and no
    /// second one: the storage is bound once because there is one right to bind
    /// it.
    pub fn for_brand(brand: SessionRingBrand) -> (right: Self)
        ensures
            right@ == brand,
    {
        Self { brand }
    }

    /// The ring whose storage may be bound.
    pub fn brand(&self) -> (brand: SessionRingBrand)
        ensures
            brand == self@,
    {
        self.brand
    }

    /// Give the right up for the name it carries.
    pub fn into_brand(self) -> (brand: SessionRingBrand)
        ensures
            brand == self@,
    {
        self.brand
    }
}

/// The one-shot right to unlink an install from its session's control ledger.
#[derive(Debug)]
pub struct PendingControlLinkRight {
    install: PendingInstallId,
}

impl View for PendingControlLinkRight {
    type V = PendingInstallId;

    closed spec fn view(&self) -> PendingInstallId {
        self.install
    }
}

impl PendingControlLinkRight {
    /// The right of the link that `install` holds.
    ///
    /// Whoever keeps the session's control ledger makes one right for each link
    /// it records, and no second one: an install is unlinked once because there
    /// is one right to unlink it.
    pub fn for_install(install: PendingInstallId) -> (right: Self)
        ensures
            right@ == install,
    {
        Self { install }
    }

    /// The install that is linked.
    pub fn install(&self) -> (install: PendingInstallId)
        ensures
            install == self@,
    {
        self.install
    }
}

/// Why a session has to end.
#[derive(Clone, Copy, Debug, PartialEq, Eq, Structural)]
pub enum TerminalRequest {
    /// A ring's submission generations ran out.
    SqGenerationExhausted,
}

/// Why a ring role was refused.
#[derive(Clone, Copy, Debug, PartialEq, Eq, Structural)]
pub enum RoleError {
    WrongState,
    WrongRing,
    DeviceBusy,
    WrongInvocation,
    InvocationIdExhausted,
}

/// Why an operation on a parked request was refused.
#[derive(Clone, Copy, Debug, PartialEq, Eq, Structural)]
pub enum PendingError {
    WrongRing,
    SlotOccupied,
    WrongInstall,
    OwnersRemain,
    Closing,
    DuplicateOwner,
    OwnerOverflow,
    WrongOwnerKind,
    NotDequeued,
    WrongReason,
    WrongRingState,
    WrongIrp,
    AlreadyDequeued,
    WrongSlot,
    InvalidCapacity,
}

/// One effect of the session fence, in the order the fence runs them.
#[derive(Clone, Copy, Debug, PartialEq, Eq, Structural)]
pub enum FenceEffect {
    /// Refuse new work on the session.
    CloseSessionAdmission,
    /// Wake every parked ENTER.
    SignalPendingEnter,
    /// Take the provider's writable mappings away, last first.
    RemoveProducerMappingsReverse,
    /// Wait for producers and mapping captures to leave.
    WaitProducerAndMappingCaptureRundown,
    /// Take every ring's consumer, in ring order.
    AcquireConsumersIncreasing,
    /// Walk each ring's stable completions, within bounds.
    DrainStablePrefixesBounded,
    /// Take notification credits out of use.
    RetireCredits,
    /// Give every ring's consumer back.
    ReleaseConsumers,
    /// Queue the work that the walk installed.
    QueueInstalledWork,
    /// Wait for parked requests and their owners.
    WaitPendingAndOwners,
    /// Wait for control requests to leave.
    WaitControlRundown,
    /// Take the read-only mappings away, last first.
    ReleaseReadOnlyMappingsReverse,
    /// Give up memory lists and the system view.
    ReleaseMdlsAndSystemView,
    /// Give up the captured process.
    ReleaseCapturedProcess,
    /// Dismount and delete the devices.
    DismountAndDeleteDevices,
    /// Give up the transient backing.
    ReleaseTransientBacking,
}

/// A right names the ring or the install it was made for, however often it is
/// asked.
pub proof fn law_rights_keep_their_names(
    brand: SessionRingBrand,
    right: CqStorageBindRight,
    named: SessionRingBrand,
    taken: SessionRingBrand,
    install: PendingInstallId,
    link: PendingControlLinkRight,
    linked: PendingInstallId,
)
    requires
        call_ensures(CqStorageBindRight::for_brand, (brand,), right),
        call_ensures(CqStorageBindRight::brand, (&right,), named),
        call_ensures(CqStorageBindRight::into_brand, (right,), taken),
        call_ensures(PendingControlLinkRight::for_install, (install,), link),
        call_ensures(PendingControlLinkRight::install, (&link,), linked),
    ensures
        named == brand,
        taken == brand,
        linked == install,
{
}

} // verus!
