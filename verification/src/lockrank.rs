//! The positions a path can hold, sets of them, and the order they are taken in.

use vstd::prelude::*;

verus! {

/// One position a path can hold.
#[derive(Clone, Copy, Debug, PartialEq, Eq, Structural)]
pub enum LockRank {
    /// The lifecycle admission gate.
    LifecycleAdmission,
    /// The lifecycle gate of one open.
    PerOpenLifecycle,
    /// The logical size gate.
    SizeGate,
    /// The sequencer spin lock.
    Sequencer,
    /// The change-notify state push lock.
    NotificationState,
    /// The advance-only queue's spin lock.
    AdvanceOnlyCsq,
    /// The notify queue's spin lock.
    NotifyCsq,
    /// An operation's state lock.
    OperationState,
    /// A domain lock.
    DomainLock,
    /// A file's main resource.
    FcbMain,
    /// A file's paging resource.
    FcbPaging,
    /// An open's lock.
    CcbLock,
    /// A ring's sole-consumer token.
    SoleConsumerToken,
    /// The mount rundown.
    MountRundown,
    /// The stream-admission gate.
    StreamAdmission,
    /// The registry spin lock.
    RegistrySpin,
    /// A ring's waiting role.
    SqWaitRole,
    /// The cancel spin lock.
    CancelSpin,
    /// The VPB spin lock.
    VpbSpin,
    /// A ring's consuming role, which never waits.
    CqConsumerToken,
    /// The control rundown.
    ControlRundown,
    /// The session access rundown.
    SessionAccessRundown,
    /// The SETUP admission rundown.
    SetupAdmissionRundown,
    /// The control-context admission rundown.
    ControlContextAdmissionRundown,
    /// A ring's spin lock.
    RingSpin,
    /// The grant table's spin lock.
    GrantSpin,
}

/// Every position.
pub const ALL_RANKS: [LockRank; 26] = [
    LockRank::LifecycleAdmission,
    LockRank::PerOpenLifecycle,
    LockRank::SizeGate,
    LockRank::Sequencer,
    LockRank::NotificationState,
    LockRank::AdvanceOnlyCsq,
    LockRank::NotifyCsq,
    LockRank::OperationState,
    LockRank::DomainLock,
    LockRank::FcbMain,
    LockRank::FcbPaging,
    LockRank::CcbLock,
    LockRank::SoleConsumerToken,
    LockRank::MountRundown,
    LockRank::StreamAdmission,
    LockRank::RegistrySpin,
    LockRank::SqWaitRole,
    LockRank::CancelSpin,
    LockRank::VpbSpin,
    LockRank::CqConsumerToken,
    LockRank::ControlRundown,
    LockRank::SessionAccessRundown,
    LockRank::SetupAdmissionRundown,
    LockRank::ControlContextAdmissionRundown,
    LockRank::RingSpin,
    LockRank::GrantSpin,
];

/// What holding a position means for the thread.
#[derive(Clone, Copy, Debug, PartialEq, Eq, Structural)]
pub enum LockKind {
    /// A spin lock: the thread runs at dispatch level.
    SpinLock,
    /// The push lock, under which no work is done.
    PushLock,
    /// A gate, resource, rundown, role or token.
    Ordinary,
}

/// Why a lock or an effect is refused.
#[derive(Clone, Copy, Debug, PartialEq, Eq, Structural)]
pub enum LockOrderError {
    SyncWaitUnderCacheSentinel,
    CompletionUnderLock,
    LifecycleWaitUnderGuard,
    WaitUnderNoWaitRole,
    AllocationUnderSequencer,
    ActionUnderLock,
    AdmissionUnderSizeGate,
    DrainUnderLifecycleGate,
    WorkUnderSoleConsumerToken,
    AcquisitionUnderSoleConsumerToken,
    AlreadyHeld,
    OutOfOrder,
    SpinLockNotLeaf,
}

impl LockRank {
    /// The place of this position in a set's bits.
    pub open spec fn place(self) -> u32 {
        match self {
            LockRank::LifecycleAdmission => 0,
            LockRank::PerOpenLifecycle => 1,
            LockRank::SizeGate => 2,
            LockRank::Sequencer => 3,
            LockRank::NotificationState => 4,
            LockRank::AdvanceOnlyCsq => 5,
            LockRank::NotifyCsq => 6,
            LockRank::OperationState => 7,
            LockRank::DomainLock => 8,
            LockRank::FcbMain => 9,
            LockRank::FcbPaging => 10,
            LockRank::CcbLock => 11,
            LockRank::SoleConsumerToken => 12,
            LockRank::MountRundown => 13,
            LockRank::StreamAdmission => 14,
            LockRank::RegistrySpin => 15,
            LockRank::SqWaitRole => 16,
            LockRank::CancelSpin => 17,
            LockRank::VpbSpin => 18,
            LockRank::CqConsumerToken => 19,
            LockRank::ControlRundown => 20,
            LockRank::SessionAccessRundown => 21,
            LockRank::SetupAdmissionRundown => 22,
            LockRank::ControlContextAdmissionRundown => 23,
            LockRank::RingSpin => 24,
            LockRank::GrantSpin => 25,
        }
    }

    /// The kind of this position.
    pub open spec fn kind_of(self) -> LockKind {
        match self {
            LockRank::Sequencer
            | LockRank::AdvanceOnlyCsq
            | LockRank::NotifyCsq
            | LockRank::RegistrySpin
            | LockRank::CancelSpin
            | LockRank::VpbSpin
            | LockRank::RingSpin
            | LockRank::GrantSpin => LockKind::SpinLock,
            LockRank::NotificationState => LockKind::PushLock,
            _ => LockKind::Ordinary,
        }
    }

    /// The kind of this position.
    pub fn kind(self) -> (kind: LockKind)
        ensures
            kind == self.kind_of(),
    {
        match self {
            LockRank::Sequencer
            | LockRank::AdvanceOnlyCsq
            | LockRank::NotifyCsq
            | LockRank::RegistrySpin
            | LockRank::CancelSpin
            | LockRank::VpbSpin
            | LockRank::RingSpin
            | LockRank::GrantSpin => LockKind::SpinLock,
            LockRank::NotificationState => LockKind::PushLock,
            _ => LockKind::Ordinary,
        }
    }

    /// The place of this position in [`ALL_RANKS`] and in a set's bits.
    pub fn index(self) -> (index: u32)
        ensures
            index == self.place(),
            index < 26,
            ALL_RANKS@[index as int] == self,
    {
        match self {
            LockRank::LifecycleAdmission => 0,
            LockRank::PerOpenLifecycle => 1,
            LockRank::SizeGate => 2,
            LockRank::Sequencer => 3,
            LockRank::NotificationState => 4,
            LockRank::AdvanceOnlyCsq => 5,
            LockRank::NotifyCsq => 6,
            LockRank::OperationState => 7,
            LockRank::DomainLock => 8,
            LockRank::FcbMain => 9,
            LockRank::FcbPaging => 10,
            LockRank::CcbLock => 11,
            LockRank::SoleConsumerToken => 12,
            LockRank::MountRundown => 13,
            LockRank::StreamAdmission => 14,
            LockRank::RegistrySpin => 15,
            LockRank::SqWaitRole => 16,
            LockRank::CancelSpin => 17,
            LockRank::VpbSpin => 18,
            LockRank::CqConsumerToken => 19,
            LockRank::ControlRundown => 20,
            LockRank::SessionAccessRundown => 21,
            LockRank::SetupAdmissionRundown => 22,
            LockRank::ControlContextAdmissionRundown => 23,
            LockRank::RingSpin => 24,
            LockRank::GrantSpin => 25,
        }
    }
}

/// A set of positions.
#[derive(Clone, Copy, Debug, PartialEq, Eq, Structural)]
pub struct HeldLocks {
    bits: u32,
}

/// Position `rank` is in the set whose bits are `bits`.
pub open spec fn in_bits(bits: u32, rank: LockRank) -> bool {
    bits & (1u32 << rank.place()) != 0
}

spec fn ranks_of(bits: u32) -> Set<LockRank> {
    Set::new(|rank: LockRank| in_bits(bits, rank))
}

impl View for HeldLocks {
    type V = Set<LockRank>;

    closed spec fn view(&self) -> Set<LockRank> {
        ranks_of(self.bits)
    }
}

proof fn lemma_set_bit(bits: u32, added: u32, index: u32)
    requires
        added < 26,
        index < 26,
        bits < 0x400_0000,
    ensures
        (bits | (1u32 << added)) & (1u32 << index) != 0 <==> (index == added || bits & (1u32
            << index) != 0),
        bits | (1u32 << added) < 0x400_0000,
{
    assert(added < 26 && index < 26 && bits < 0x400_0000 ==> ((bits | (1u32 << added)) & (1u32
        << index) != 0 <==> (index == added || bits & (1u32 << index) != 0)) && (bits | (1u32
        << added)) < 0x400_0000) by (bit_vector);
}

proof fn lemma_clear_bit(bits: u32, removed: u32, index: u32)
    requires
        removed < 26,
        index < 26,
        bits < 0x400_0000,
    ensures
        (bits & !(1u32 << removed)) & (1u32 << index) != 0 <==> (index != removed && bits & (1u32
            << index) != 0),
        bits & !(1u32 << removed) < 0x400_0000,
{
    assert(removed < 26 && index < 26 && bits < 0x400_0000 ==> ((bits & !(1u32 << removed)) & (1u32
        << index) != 0 <==> (index != removed && bits & (1u32 << index) != 0)) && (bits & !(1u32
        << removed)) < 0x400_0000) by (bit_vector);
}

proof fn lemma_no_bit(index: u32)
    ensures
        0u32 & (1u32 << index) == 0,
{
    assert(0u32 & (1u32 << index) == 0) by (bit_vector);
}

proof fn lemma_masked(bits: u32, index: u32)
    requires
        index < 26,
    ensures
        bits & 0x3ff_ffff < 0x400_0000,
        (bits & 0x3ff_ffff) & (1u32 << index) != 0 <==> bits & (1u32 << index) != 0,
{
    assert(index < 26 ==> (bits & 0x3ff_ffff) < 0x400_0000 && ((bits & 0x3ff_ffff) & (1u32 << index)
        != 0 <==> bits & (1u32 << index) != 0)) by (bit_vector);
}

proof fn lemma_rest(bits: u32, other: u32, index: u32)
    requires
        index < 26,
        bits < 0x400_0000,
    ensures
        bits & !other < 0x400_0000,
        (bits & !other) & (1u32 << index) != 0 <==> (bits & (1u32 << index) != 0 && other & (1u32
            << index) == 0),
{
    assert(index < 26 && bits < 0x400_0000 ==> (bits & !other) < 0x400_0000 && ((bits & !other) & (
    1u32 << index) != 0 <==> (bits & (1u32 << index) != 0 && other & (1u32 << index) == 0)))
        by (bit_vector);
}

/// A nonempty set has a member.
proof fn lemma_some_bit(bits: u32)
    requires
        0 < bits < 0x400_0000,
    ensures
        exists|rank: LockRank| #[trigger] ranks_of(bits).contains(rank),
{
    assert(0 < bits < 0x400_0000 ==> (bits & (1u32 << 0u32) != 0 || bits & (1u32 << 1u32) != 0
        || bits & (1u32 << 2u32) != 0 || bits & (1u32 << 3u32) != 0
        || bits & (1u32 << 4u32) != 0 || bits & (1u32 << 5u32) != 0
        || bits & (1u32 << 6u32) != 0 || bits & (1u32 << 7u32) != 0
        || bits & (1u32 << 8u32) != 0 || bits & (1u32 << 9u32) != 0
        || bits & (1u32 << 10u32) != 0 || bits & (1u32 << 11u32) != 0
        || bits & (1u32 << 12u32) != 0 || bits & (1u32 << 13u32) != 0
        || bits & (1u32 << 14u32) != 0 || bits & (1u32 << 15u32) != 0
        || bits & (1u32 << 16u32) != 0 || bits & (1u32 << 17u32) != 0
        || bits & (1u32 << 18u32) != 0 || bits & (1u32 << 19u32) != 0
        || bits & (1u32 << 20u32) != 0 || bits & (1u32 << 21u32) != 0
        || bits & (1u32 << 22u32) != 0 || bits & (1u32 << 23u32) != 0
        || bits & (1u32 << 24u32) != 0 || bits & (1u32 << 25u32) != 0)) by (bit_vector);
    assert(ranks_of(bits).contains(LockRank::LifecycleAdmission)
        || ranks_of(bits).contains(LockRank::PerOpenLifecycle)
        || ranks_of(bits).contains(LockRank::SizeGate)
        || ranks_of(bits).contains(LockRank::Sequencer)
        || ranks_of(bits).contains(LockRank::NotificationState)
        || ranks_of(bits).contains(LockRank::AdvanceOnlyCsq)
        || ranks_of(bits).contains(LockRank::NotifyCsq)
        || ranks_of(bits).contains(LockRank::OperationState)
        || ranks_of(bits).contains(LockRank::DomainLock)
        || ranks_of(bits).contains(LockRank::FcbMain)
        || ranks_of(bits).contains(LockRank::FcbPaging)
        || ranks_of(bits).contains(LockRank::CcbLock)
        || ranks_of(bits).contains(LockRank::SoleConsumerToken)
        || ranks_of(bits).contains(LockRank::MountRundown)
        || ranks_of(bits).contains(LockRank::StreamAdmission)
        || ranks_of(bits).contains(LockRank::RegistrySpin)
        || ranks_of(bits).contains(LockRank::SqWaitRole)
        || ranks_of(bits).contains(LockRank::CancelSpin)
        || ranks_of(bits).contains(LockRank::VpbSpin)
        || ranks_of(bits).contains(LockRank::CqConsumerToken)
        || ranks_of(bits).contains(LockRank::ControlRundown)
        || ranks_of(bits).contains(LockRank::SessionAccessRundown)
        || ranks_of(bits).contains(LockRank::SetupAdmissionRundown)
        || ranks_of(bits).contains(LockRank::ControlContextAdmissionRundown)
        || ranks_of(bits).contains(LockRank::RingSpin)
        || ranks_of(bits).contains(LockRank::GrantSpin));
}

impl HeldLocks {
    #[verifier::type_invariant]
    closed spec fn inv(self) -> bool {
        self.bits < 0x400_0000
    }

    /// The empty set.
    pub fn none() -> (held: Self)
        ensures
            held@ == Set::<LockRank>::empty(),
    {
        proof {
            assert forall|rank: LockRank| !ranks_of(0).contains(rank) by {
                lemma_no_bit(rank.place());
            }
            assert(ranks_of(0) =~= Set::empty());
        }
        Self { bits: 0 }
    }

    /// The set of the positions whose bits are set in `bits`.
    pub fn from_bits(bits: u32) -> (held: Self)
        ensures
            forall|rank: LockRank| #[trigger] held@.contains(rank) <==> in_bits(bits, rank),
    {
        proof {
            lemma_masked(bits, 0);
            assert forall|rank: LockRank| #[trigger]
                ranks_of(bits & 0x3ff_ffff).contains(rank) <==> in_bits(bits, rank) by {
                lemma_masked(bits, rank.place());
            }
        }
        Self { bits: bits & 0x3ff_ffff }
    }

    /// The set with `rank`.
    pub fn acquire(self, rank: LockRank) -> (held: Self)
        ensures
            held@ == self@.insert(rank),
    {
        let index: u32 = rank.index();
        proof {
            use_type_invariant(self);
            lemma_set_bit(self.bits, index, index);
            assert forall|other: LockRank|
                ranks_of(self.bits | (1u32 << index)).contains(other) <==> self@.insert(
                    rank,
                ).contains(other) by {
                lemma_set_bit(self.bits, index, other.place());
            }
            assert(ranks_of(self.bits | (1u32 << index)) =~= self@.insert(rank));
        }
        Self { bits: self.bits | (1u32 << index) }
    }

    /// The set without `rank`.
    pub fn release(self, rank: LockRank) -> (held: Self)
        ensures
            held@ == self@.remove(rank),
    {
        let index: u32 = rank.index();
        proof {
            use_type_invariant(self);
            lemma_clear_bit(self.bits, index, index);
            assert forall|other: LockRank|
                ranks_of(self.bits & !(1u32 << index)).contains(other) <==> self@.remove(
                    rank,
                ).contains(other) by {
                lemma_clear_bit(self.bits, index, other.place());
            }
            assert(ranks_of(self.bits & !(1u32 << index)) =~= self@.remove(rank));
        }
        Self { bits: self.bits & !(1u32 << index) }
    }

    /// `rank` is in the set.
    pub fn holds(self, rank: LockRank) -> (held: bool)
        ensures
            held <==> self@.contains(rank),
    {
        self.bits & (1u32 << rank.index()) != 0
    }

    /// The set is empty.
    pub fn is_empty(self) -> (empty: bool)
        ensures
            empty <==> self@ == Set::<LockRank>::empty(),
    {
        proof {
            use_type_invariant(self);
            if self.bits == 0 {
                assert forall|rank: LockRank| !self@.contains(rank) by {
                    lemma_no_bit(rank.place());
                }
                assert(self@ =~= Set::empty());
            } else {
                lemma_some_bit(self.bits);
            }
        }
        self.bits == 0
    }

    /// Every position of the set is in `other`.
    pub fn is_within(self, other: Self) -> (within: bool)
        ensures
            within <==> self@.subset_of(other@),
    {
        let rest: u32 = self.bits & !other.bits;
        proof {
            use_type_invariant(self);
            lemma_rest(self.bits, other.bits, 0);
            assert forall|rank: LockRank| #[trigger] ranks_of(rest).contains(rank) <==> (
            self@.contains(rank) && !other@.contains(rank)) by {
                lemma_rest(self.bits, other.bits, rank.place());
            }
            if rest == 0 {
                assert forall|rank: LockRank| self@.contains(rank) implies other@.contains(rank) by {
                    lemma_no_bit(rank.place());
                    assert(!ranks_of(rest).contains(rank));
                }
            } else {
                lemma_some_bit(rest);
                let rank = choose|rank: LockRank| #[trigger] ranks_of(rest).contains(rank);
                assert(self@.contains(rank) && !other@.contains(rank));
            }
        }
        rest == 0
    }

    /// A spin lock is in the set.
    pub fn holds_any_spin_lock(self) -> (held: bool)
        ensures
            held <==> holds_kind(self@, LockKind::SpinLock),
    {
        let held = self.holds(LockRank::Sequencer)
            || self.holds(LockRank::AdvanceOnlyCsq)
            || self.holds(LockRank::NotifyCsq)
            || self.holds(LockRank::RegistrySpin)
            || self.holds(LockRank::CancelSpin)
            || self.holds(LockRank::VpbSpin)
            || self.holds(LockRank::RingSpin)
            || self.holds(LockRank::GrantSpin);
        proof {
            if holds_kind(self@, LockKind::SpinLock) {
                let rank = choose|rank: LockRank| #[trigger]
                    self@.contains(rank) && rank.kind_of() == LockKind::SpinLock;
                assert(held);
            }
        }
        held
    }

    /// The push lock is in the set.
    pub fn holds_push_lock(self) -> (held: bool)
        ensures
            held <==> holds_kind(self@, LockKind::PushLock),
    {
        let held = self.holds(LockRank::NotificationState);
        proof {
            if holds_kind(self@, LockKind::PushLock) {
                let rank = choose|rank: LockRank| #[trigger]
                    self@.contains(rank) && rank.kind_of() == LockKind::PushLock;
                assert(held);
            }
        }
        held
    }
}

/// Some position of this kind is in the set.
pub open spec fn holds_kind(held: Set<LockRank>, kind: LockKind) -> bool {
    exists|rank: LockRank| #[trigger] held.contains(rank) && rank.kind_of() == kind
}

/// The set is made of a ring's roles, with at least one of them.
pub open spec fn is_role_set(held: Set<LockRank>) -> bool {
    &&& held != Set::<LockRank>::empty()
    &&& held.subset_of(
        Set::empty().insert(LockRank::SqWaitRole).insert(LockRank::CqConsumerToken),
    )
}

/// The ring and session positions, which are taken along listed ways alone.
pub open spec fn is_ring_position(rank: LockRank) -> bool {
    match rank {
        LockRank::RegistrySpin
        | LockRank::SqWaitRole
        | LockRank::CancelSpin
        | LockRank::VpbSpin
        | LockRank::CqConsumerToken
        | LockRank::ControlRundown
        | LockRank::SessionAccessRundown
        | LockRank::SetupAdmissionRundown
        | LockRank::ControlContextAdmissionRundown
        | LockRank::RingSpin
        | LockRank::GrantSpin => true,
        _ => false,
    }
}

/// A way to a ring or session position lists taking `next` with `held` in hand.
///
/// A rundown of a session is taken with nothing held. The registry lock, the
/// waiting role, the cancel lock and the VPB lock are taken in this order, and so
/// are the registry lock, the consuming role and the VPB lock; either may leave
/// steps out. A wait that resumes takes the consuming role beside its own. Under
/// one role or both a ring's lock is taken, under that the grant table's, and
/// under either the cancel lock.
pub open spec fn lists(held: Set<LockRank>, next: LockRank) -> bool {
    let registry = Set::empty().insert(LockRank::RegistrySpin);
    let waiting = registry.insert(LockRank::SqWaitRole);
    match next {
        LockRank::ControlRundown
        | LockRank::SessionAccessRundown
        | LockRank::SetupAdmissionRundown
        | LockRank::ControlContextAdmissionRundown
        | LockRank::RegistrySpin => held == Set::<LockRank>::empty(),
        LockRank::SqWaitRole => held.subset_of(registry),
        LockRank::CqConsumerToken => held.subset_of(waiting),
        LockRank::CancelSpin => {
            ||| held.subset_of(waiting)
            ||| held.contains(LockRank::RingSpin) && is_role_set(
                held.remove(LockRank::RingSpin).remove(LockRank::GrantSpin),
            )
        },
        LockRank::VpbSpin => {
            ||| held.subset_of(waiting.insert(LockRank::CancelSpin))
            ||| held.subset_of(registry.insert(LockRank::CqConsumerToken))
        },
        LockRank::RingSpin => is_role_set(held),
        LockRank::GrantSpin => held.contains(LockRank::RingSpin) && is_role_set(
            held.remove(LockRank::RingSpin),
        ),
        _ => false,
    }
}

/// A gate that comes after `next` in the order of the gates is held: the
/// lifecycle admission comes first, then an open's lifecycle, then its size.
pub open spec fn later_gate_held(held: Set<LockRank>, next: LockRank) -> bool {
    match next {
        LockRank::LifecycleAdmission => held.contains(LockRank::PerOpenLifecycle) || held.contains(
            LockRank::SizeGate,
        ),
        LockRank::PerOpenLifecycle => held.contains(LockRank::SizeGate),
        _ => false,
    }
}

/// Why a path may not take `next` with `held` in hand, if it may not: the first
/// rule broken.
///
/// 1. No position is taken twice.
/// 2. What a way to a ring or session position lists is legal, and rules 3 to 5
///    do not ask.
/// 3. A spin lock is a leaf: nothing is taken under it.
/// 4. Under a sole-consumer token no domain, file or open lock is taken.
/// 5. A ring or session position is taken along a listed way, and a gate before
///    the gates that come after it.
///
/// What no rule refuses is legal.
pub open spec fn acquire_refusal(held: Set<LockRank>, next: LockRank) -> Option<LockOrderError> {
    if held.contains(next) {
        Some(LockOrderError::AlreadyHeld)
    } else if lists(held, next) {
        None
    } else if holds_kind(held, LockKind::SpinLock) {
        Some(LockOrderError::SpinLockNotLeaf)
    } else if held.contains(LockRank::SoleConsumerToken) && (next == LockRank::FcbMain || next
        == LockRank::FcbPaging || next == LockRank::CcbLock || next == LockRank::DomainLock) {
        Some(LockOrderError::AcquisitionUnderSoleConsumerToken)
    } else if is_ring_position(next) || later_gate_held(held, next) {
        Some(LockOrderError::OutOfOrder)
    } else {
        None
    }
}

/// The set is made of a ring's roles, with at least one of them.
fn roles_alone(held: HeldLocks) -> (alone: bool)
    ensures
        alone <==> is_role_set(held@),
{
    let roles = HeldLocks::none().acquire(LockRank::SqWaitRole).acquire(LockRank::CqConsumerToken);
    !held.is_empty() && held.is_within(roles)
}

/// A way to a ring or session position lists taking `next` with `held` in hand.
fn is_listed(held: HeldLocks, next: LockRank) -> (listed: bool)
    ensures
        listed <==> lists(held@, next),
{
    let registry = HeldLocks::none().acquire(LockRank::RegistrySpin);
    let waiting = registry.acquire(LockRank::SqWaitRole);
    match next {
        LockRank::ControlRundown
        | LockRank::SessionAccessRundown
        | LockRank::SetupAdmissionRundown
        | LockRank::ControlContextAdmissionRundown
        | LockRank::RegistrySpin => held.is_empty(),
        LockRank::SqWaitRole => held.is_within(registry),
        LockRank::CqConsumerToken => held.is_within(waiting),
        LockRank::CancelSpin => held.is_within(waiting) || held.holds(LockRank::RingSpin)
            && roles_alone(held.release(LockRank::RingSpin).release(LockRank::GrantSpin)),
        LockRank::VpbSpin => held.is_within(waiting.acquire(LockRank::CancelSpin))
            || held.is_within(registry.acquire(LockRank::CqConsumerToken)),
        LockRank::RingSpin => roles_alone(held),
        LockRank::GrantSpin => held.holds(LockRank::RingSpin) && roles_alone(
            held.release(LockRank::RingSpin),
        ),
        _ => false,
    }
}

/// May a path that holds `held` take `next`?
pub fn may_acquire(held: HeldLocks, next: LockRank) -> (result: Result<(), LockOrderError>)
    ensures
        held@.contains(next) ==> result == Err::<(), LockOrderError>(LockOrderError::AlreadyHeld),
        match result {
            Ok(()) => acquire_refusal(held@, next) is None,
            Err(error) => acquire_refusal(held@, next) == Some(error),
        },
{
    if held.holds(next) {
        return Err(LockOrderError::AlreadyHeld);
    }
    if is_listed(held, next) {
        return Ok(());
    }
    if held.holds_any_spin_lock() {
        return Err(LockOrderError::SpinLockNotLeaf);
    }
    match next {
        LockRank::FcbMain | LockRank::FcbPaging | LockRank::CcbLock | LockRank::DomainLock => {
            if held.holds(LockRank::SoleConsumerToken) {
                return Err(LockOrderError::AcquisitionUnderSoleConsumerToken);
            }
        },
        LockRank::LifecycleAdmission => {
            if held.holds(LockRank::PerOpenLifecycle) || held.holds(LockRank::SizeGate) {
                return Err(LockOrderError::OutOfOrder);
            }
        },
        LockRank::PerOpenLifecycle => {
            if held.holds(LockRank::SizeGate) {
                return Err(LockOrderError::OutOfOrder);
            }
        },
        LockRank::RegistrySpin
        | LockRank::SqWaitRole
        | LockRank::CancelSpin
        | LockRank::VpbSpin
        | LockRank::CqConsumerToken
        | LockRank::ControlRundown
        | LockRank::SessionAccessRundown
        | LockRank::SetupAdmissionRundown
        | LockRank::ControlContextAdmissionRundown
        | LockRank::RingSpin
        | LockRank::GrantSpin => {
            return Err(LockOrderError::OutOfOrder);
        },
        _ => {},
    }
    Ok(())
}

/// Taking a position that is not held and giving it back leaves the set as it was.
pub proof fn law_release_undoes_acquire(held: Set<LockRank>, rank: LockRank)
    requires
        !held.contains(rank),
    ensures
        held.insert(rank).remove(rank) == held,
{
    assert(held.insert(rank).remove(rank) =~= held);
}

/// A position that may be taken is not held, so giving it back restores the set.
pub proof fn law_admitted_position_is_given_back(held: Set<LockRank>, next: LockRank)
    requires
        acquire_refusal(held, next) is None,
    ensures
        !held.contains(next),
        held.insert(next).remove(next) == held,
{
    law_release_undoes_acquire(held, next);
}

/// A ring or session position is taken along a listed way and no other.
pub proof fn law_ring_positions_are_listed(held: Set<LockRank>, next: LockRank)
    requires
        is_ring_position(next),
    ensures
        acquire_refusal(held, next) is None <==> lists(held, next) && !held.contains(next),
{
}

/// Nothing that is not on a listed way is taken under a spin lock.
pub proof fn law_spin_locks_are_leaves(held: Set<LockRank>, next: LockRank)
    requires
        holds_kind(held, LockKind::SpinLock),
        acquire_refusal(held, next) is None,
    ensures
        is_ring_position(next),
        forall|rank: LockRank| #[trigger] held.contains(rank) ==> is_ring_position(rank),
{
    assert(lists(held, next));
    assert forall|rank: LockRank| #[trigger] held.contains(rank) implies is_ring_position(
        rank,
    ) by {
        let bare = held.remove(LockRank::RingSpin);
        if rank != LockRank::RingSpin && rank != LockRank::GrantSpin {
            assert(bare.contains(rank));
            assert(bare.remove(LockRank::GrantSpin).contains(rank));
        }
    }
}

/// The eight spin locks and the one push lock; every other position is neither.
pub proof fn law_kinds_of_positions(rank: LockRank)
    ensures
        rank.kind_of() == LockKind::SpinLock <==> {
            ||| rank == LockRank::Sequencer
            ||| rank == LockRank::AdvanceOnlyCsq
            ||| rank == LockRank::NotifyCsq
            ||| rank == LockRank::RegistrySpin
            ||| rank == LockRank::CancelSpin
            ||| rank == LockRank::VpbSpin
            ||| rank == LockRank::RingSpin
            ||| rank == LockRank::GrantSpin
        },
        rank.kind_of() == LockKind::PushLock <==> rank == LockRank::NotificationState,
{
}

/// Every position has a place of its own among the twenty-six, in the order in
/// which they are listed.
pub proof fn law_places_are_distinct(first: LockRank, second: LockRank)
    ensures
        first.place() < 26,
        first.place() == second.place() ==> first == second,
        ALL_RANKS@[first.place() as int] == first,
{
}

/// A position that is held is never taken again, whatever else is held.
pub proof fn law_held_position_is_refused(held: Set<LockRank>, next: LockRank)
    ensures
        acquire_refusal(held, next) == Some(LockOrderError::AlreadyHeld) <==> held.contains(next),
{
}

/// From nothing held every position may be taken but a ring's lock and the grant
/// table's, which need a role.
pub proof fn law_what_may_be_taken_first(next: LockRank)
    ensures
        acquire_refusal(Set::empty(), next) is None <==> next != LockRank::RingSpin && next
            != LockRank::GrantSpin,
        acquire_refusal(Set::empty(), next) is Some ==> acquire_refusal(Set::empty(), next) == Some(
            LockOrderError::OutOfOrder,
        ),
{
    let none = Set::<LockRank>::empty();
    assert(!holds_kind(none, LockKind::SpinLock));
    assert(none.subset_of(Set::empty().insert(LockRank::RegistrySpin)));
    assert(!is_role_set(none));
}

/// Under a spin lock no position outside the ring and session paths is taken.
pub proof fn law_gate_under_a_spin_lock_is_refused(
    held: Set<LockRank>,
    spin: LockRank,
    next: LockRank,
)
    requires
        held.contains(spin),
        spin.kind_of() == LockKind::SpinLock,
        !held.contains(next),
        next == LockRank::LifecycleAdmission || next == LockRank::PerOpenLifecycle || next
            == LockRank::SizeGate || next == LockRank::Sequencer || next
            == LockRank::NotificationState || next == LockRank::AdvanceOnlyCsq || next
            == LockRank::NotifyCsq || next == LockRank::OperationState || next
            == LockRank::DomainLock || next == LockRank::FcbMain || next == LockRank::FcbPaging
            || next == LockRank::CcbLock || next == LockRank::SoleConsumerToken || next
            == LockRank::MountRundown || next == LockRank::StreamAdmission,
    ensures
        acquire_refusal(held, next) == Some(LockOrderError::SpinLockNotLeaf),
{
}

/// Outside the ring and session paths, without a spin lock held, a new position is
/// refused in two cases alone: a domain, file or open lock under a sole-consumer
/// token, and a lifecycle gate under a gate that comes after it.
pub proof fn law_what_is_refused_off_the_ring_paths(held: Set<LockRank>, next: LockRank)
    requires
        !holds_kind(held, LockKind::SpinLock),
        !held.contains(next),
        !is_ring_position(next),
    ensures
        ({
            let answer = acquire_refusal(held, next);
            let tokened = held.contains(LockRank::SoleConsumerToken) && (next == LockRank::FcbMain
                || next == LockRank::FcbPaging || next == LockRank::CcbLock || next
                == LockRank::DomainLock);
            let late = (next == LockRank::LifecycleAdmission && (held.contains(
                LockRank::PerOpenLifecycle,
            ) || held.contains(LockRank::SizeGate))) || (next == LockRank::PerOpenLifecycle
                && held.contains(LockRank::SizeGate));
            &&& answer == Some(LockOrderError::AcquisitionUnderSoleConsumerToken) <==> tokened
            &&& answer == Some(LockOrderError::OutOfOrder) <==> late
            &&& answer is None <==> !tokened && !late
        }),
{
}

/// The ring and session positions are these eleven.
pub proof fn law_ring_positions_are_these(rank: LockRank)
    ensures
        is_ring_position(rank) <==> {
            ||| rank == LockRank::RegistrySpin
            ||| rank == LockRank::SqWaitRole
            ||| rank == LockRank::CancelSpin
            ||| rank == LockRank::VpbSpin
            ||| rank == LockRank::CqConsumerToken
            ||| rank == LockRank::ControlRundown
            ||| rank == LockRank::SessionAccessRundown
            ||| rank == LockRank::SetupAdmissionRundown
            ||| rank == LockRank::ControlContextAdmissionRundown
            ||| rank == LockRank::RingSpin
            ||| rank == LockRank::GrantSpin
        },
        is_ring_position(rank) <==> 15 <= rank.place() <= 25,
{
}

/// A ring or session position is never taken with a position of another kind in
/// hand, and a session's rundown with anything in hand.
pub proof fn law_ring_paths_hold_nothing_else(held: Set<LockRank>, next: LockRank, other: LockRank)
    requires
        is_ring_position(next),
        acquire_refusal(held, next) is None,
        held.contains(other),
    ensures
        is_ring_position(other),
        next != LockRank::ControlRundown && next != LockRank::SessionAccessRundown && next
            != LockRank::SetupAdmissionRundown && next != LockRank::ControlContextAdmissionRundown
            && next != LockRank::RegistrySpin,
        other != LockRank::ControlRundown && other != LockRank::SessionAccessRundown && other
            != LockRank::SetupAdmissionRundown && other
            != LockRank::ControlContextAdmissionRundown && other != LockRank::VpbSpin,
{
    let bare = held.remove(LockRank::RingSpin);
    if other != LockRank::RingSpin && other != LockRank::GrantSpin {
        assert(bare.contains(other));
        assert(bare.remove(LockRank::GrantSpin).contains(other));
    }
}

/// The ways to the ring positions. The waiting role is taken under the registry
/// lock at most, and the consuming role under that and the waiting role at most; a
/// ring's lock under one role or both and nothing else; the grant table's under
/// those and the ring's; the cancel lock under those with or without the grant
/// table's, or on the way through the registry and the waiting role; and the VPB
/// lock at the end of either way.
pub proof fn law_ring_ways(held: Set<LockRank>)
    ensures
        ({
            let only = |a: LockRank, b: LockRank, c: LockRank| forall|rank: LockRank| #[trigger]
                held.contains(rank) ==> rank == a || rank == b || rank == c;
            let registry = LockRank::RegistrySpin;
            let waiting = LockRank::SqWaitRole;
            let consuming = LockRank::CqConsumerToken;
            let ring = LockRank::RingSpin;
            let grant = LockRank::GrantSpin;
            let role = held.contains(waiting) || held.contains(consuming);
            let roles_and = |extra: LockRank, more: LockRank| forall|rank: LockRank| #[trigger]
                held.contains(rank) ==> rank == waiting || rank == consuming || rank == extra
                    || rank == more;
            &&& lists(held, waiting) <==> only(registry, registry, registry)
            &&& lists(held, consuming) <==> only(registry, waiting, waiting)
            &&& lists(held, ring) <==> role && only(waiting, consuming, consuming)
            &&& lists(held, grant) <==> role && held.contains(ring) && roles_and(ring, ring)
            &&& lists(held, LockRank::CancelSpin) <==> only(registry, waiting, waiting) || (role
                && held.contains(ring) && roles_and(ring, grant))
            &&& lists(held, LockRank::VpbSpin) <==> only(registry, waiting, LockRank::CancelSpin)
                || only(registry, consuming, consuming)
        }),
{
    let registry = Set::<LockRank>::empty().insert(LockRank::RegistrySpin);
    let roles = Set::<LockRank>::empty().insert(LockRank::SqWaitRole).insert(
        LockRank::CqConsumerToken,
    );
    let bare = held.remove(LockRank::RingSpin);
    let barer = bare.remove(LockRank::GrantSpin);
    assert forall|rank: LockRank| #[trigger] held.contains(rank) implies (bare.contains(rank)
        || rank == LockRank::RingSpin) && (barer.contains(rank) || rank == LockRank::RingSpin
        || rank == LockRank::GrantSpin) by {}
    if held.contains(LockRank::SqWaitRole) {
        assert(bare.contains(LockRank::SqWaitRole) && barer.contains(LockRank::SqWaitRole));
        assert(held != Set::<LockRank>::empty() && bare != Set::<LockRank>::empty() && barer
            != Set::<LockRank>::empty());
    }
    if held.contains(LockRank::CqConsumerToken) {
        assert(bare.contains(LockRank::CqConsumerToken) && barer.contains(
            LockRank::CqConsumerToken,
        ));
        assert(held != Set::<LockRank>::empty() && bare != Set::<LockRank>::empty() && barer
            != Set::<LockRank>::empty());
    }
    lemma_role_set(held);
    lemma_role_set(bare);
    lemma_role_set(barer);
}

/// A role set is nonempty and made of the two roles.
proof fn lemma_role_set(held: Set<LockRank>)
    ensures
        is_role_set(held) <==> {
            &&& held.contains(LockRank::SqWaitRole) || held.contains(LockRank::CqConsumerToken)
            &&& forall|rank: LockRank| #[trigger]
                held.contains(rank) ==> rank == LockRank::SqWaitRole || rank
                    == LockRank::CqConsumerToken
        },
{
    if is_role_set(held) {
        assert(exists|rank: LockRank| held.contains(rank)) by {
            if forall|rank: LockRank| !held.contains(rank) {
                assert(held =~= Set::empty());
            }
        }
    }
    if held.contains(LockRank::SqWaitRole) || held.contains(LockRank::CqConsumerToken) {
        assert(held != Set::<LockRank>::empty());
    }
}

/// The twenty-six positions stand in this order.
pub proof fn law_positions_stand_in_this_order(rank: LockRank, index: u32)
    requires
        call_ensures(LockRank::index, (rank,), index),
    ensures
        index == 0 <==> rank == LockRank::LifecycleAdmission,
        index == 1 <==> rank == LockRank::PerOpenLifecycle,
        index == 2 <==> rank == LockRank::SizeGate,
        index == 3 <==> rank == LockRank::Sequencer,
        index == 4 <==> rank == LockRank::NotificationState,
        index == 5 <==> rank == LockRank::AdvanceOnlyCsq,
        index == 6 <==> rank == LockRank::NotifyCsq,
        index == 7 <==> rank == LockRank::OperationState,
        index == 8 <==> rank == LockRank::DomainLock,
        index == 9 <==> rank == LockRank::FcbMain,
        index == 10 <==> rank == LockRank::FcbPaging,
        index == 11 <==> rank == LockRank::CcbLock,
        index == 12 <==> rank == LockRank::SoleConsumerToken,
        index == 13 <==> rank == LockRank::MountRundown,
        index == 14 <==> rank == LockRank::StreamAdmission,
        index == 15 <==> rank == LockRank::RegistrySpin,
        index == 16 <==> rank == LockRank::SqWaitRole,
        index == 17 <==> rank == LockRank::CancelSpin,
        index == 18 <==> rank == LockRank::VpbSpin,
        index == 19 <==> rank == LockRank::CqConsumerToken,
        index == 20 <==> rank == LockRank::ControlRundown,
        index == 21 <==> rank == LockRank::SessionAccessRundown,
        index == 22 <==> rank == LockRank::SetupAdmissionRundown,
        index == 23 <==> rank == LockRank::ControlContextAdmissionRundown,
        index == 24 <==> rank == LockRank::RingSpin,
        index == 25 <==> rank == LockRank::GrantSpin,
        index < 26,
{
}

/// Eight positions are spin locks, one is the push lock, and the rest are neither.
pub proof fn law_positions_are_of_these_kinds(rank: LockRank, kind: LockKind)
    requires
        call_ensures(LockRank::kind, (rank,), kind),
    ensures
        kind == LockKind::SpinLock <==> rank == LockRank::Sequencer || rank
            == LockRank::AdvanceOnlyCsq || rank == LockRank::NotifyCsq || rank
            == LockRank::RegistrySpin || rank == LockRank::CancelSpin || rank == LockRank::VpbSpin
            || rank == LockRank::RingSpin || rank == LockRank::GrantSpin,
        kind == LockKind::PushLock <==> rank == LockRank::NotificationState,
{
}

/// A set holds what was acquired into it and not released from it, and nothing
/// else; an empty one holds nothing.
pub proof fn law_set_holds_what_was_acquired(
    held: HeldLocks,
    rank: LockRank,
    other: LockRank,
    more: HeldLocks,
    less: HeldLocks,
    none: HeldLocks,
    holds: bool,
)
    requires
        call_ensures(HeldLocks::acquire, (held, rank), more),
        call_ensures(HeldLocks::release, (held, rank), less),
        call_ensures(HeldLocks::none, (), none),
        call_ensures(HeldLocks::holds, (held, other), holds),
    ensures
        holds <==> held@.contains(other),
        more@.contains(other) <==> other == rank || held@.contains(other),
        less@.contains(other) <==> other != rank && held@.contains(other),
        !none@.contains(other),
{
}

/// What a set is asked answers to what it holds: empty exactly without a position,
/// within another exactly if the other holds each of its positions, a spin lock or
/// the push lock exactly if it holds one of them.
pub proof fn law_set_answers_to_what_it_holds(
    held: HeldLocks,
    other: HeldLocks,
    empty: bool,
    within: bool,
    spin: bool,
    push: bool,
)
    requires
        call_ensures(HeldLocks::is_empty, (held,), empty),
        call_ensures(HeldLocks::is_within, (held, other), within),
        call_ensures(HeldLocks::holds_any_spin_lock, (held,), spin),
        call_ensures(HeldLocks::holds_push_lock, (held,), push),
    ensures
        empty <==> forall|rank: LockRank| !#[trigger] held@.contains(rank),
        within <==> forall|rank: LockRank| #[trigger]
            held@.contains(rank) ==> other@.contains(rank),
        spin <==> held@.contains(LockRank::Sequencer) || held@.contains(LockRank::AdvanceOnlyCsq)
            || held@.contains(LockRank::NotifyCsq) || held@.contains(LockRank::RegistrySpin)
            || held@.contains(LockRank::CancelSpin) || held@.contains(LockRank::VpbSpin)
            || held@.contains(LockRank::RingSpin) || held@.contains(LockRank::GrantSpin),
        push <==> held@.contains(LockRank::NotificationState),
{
    if forall|rank: LockRank| !#[trigger] held@.contains(rank) {
        assert(held@ =~= Set::empty());
    }
    if holds_kind(held@, LockKind::SpinLock) {
        let rank = choose|rank: LockRank| #[trigger]
            held@.contains(rank) && rank.kind_of() == LockKind::SpinLock;
        law_kinds_of_positions(rank);
    }
    if holds_kind(held@, LockKind::PushLock) {
        let rank = choose|rank: LockRank| #[trigger]
            held@.contains(rank) && rank.kind_of() == LockKind::PushLock;
        law_kinds_of_positions(rank);
    }
    assert(LockRank::Sequencer.kind_of() == LockKind::SpinLock);
    assert(LockRank::AdvanceOnlyCsq.kind_of() == LockKind::SpinLock);
    assert(LockRank::NotifyCsq.kind_of() == LockKind::SpinLock);
    assert(LockRank::RegistrySpin.kind_of() == LockKind::SpinLock);
    assert(LockRank::CancelSpin.kind_of() == LockKind::SpinLock);
    assert(LockRank::VpbSpin.kind_of() == LockKind::SpinLock);
    assert(LockRank::RingSpin.kind_of() == LockKind::SpinLock);
    assert(LockRank::GrantSpin.kind_of() == LockKind::SpinLock);
    assert(LockRank::NotificationState.kind_of() == LockKind::PushLock);
}

/// A set made from bits holds exactly the positions whose bits are set, each at its
/// own index.
pub proof fn law_bits_are_positions(bits: u32, held: HeldLocks, rank: LockRank)
    requires
        call_ensures(HeldLocks::from_bits, (bits,), held),
    ensures
        held@.contains(rank) <==> bits & (1u32 << rank.place()) != 0,
{
    assert(held@.contains(rank) <==> in_bits(bits, rank));
}

/// A position that no way lists is refused as no leaf under a spin lock, and as out
/// of order otherwise.
pub proof fn law_unlisted_ring_position_is_refused(held: Set<LockRank>, next: LockRank)
    requires
        is_ring_position(next),
        !lists(held, next),
        !held.contains(next),
    ensures
        acquire_refusal(held, next) == Some(
            if holds_kind(held, LockKind::SpinLock) {
                LockOrderError::SpinLockNotLeaf
            } else {
                LockOrderError::OutOfOrder
            },
        ),
{
}

/// Taking a position, whatever it is: one that is held is refused as held, and
/// nothing else is; the gates are taken in their order; no file lock is taken under
/// a sole consumer's token; and under a spin lock no position off the ring's ways
/// is taken at all.
pub proof fn law_position_is_taken_in_order(
    held: HeldLocks,
    next: LockRank,
    result: Result<(), LockOrderError>,
)
    requires
        call_ensures(may_acquire, (held, next), result),
    ensures
        ({
            let spin = held@.contains(LockRank::Sequencer) || held@.contains(
                LockRank::AdvanceOnlyCsq,
            ) || held@.contains(LockRank::NotifyCsq) || held@.contains(LockRank::RegistrySpin)
                || held@.contains(LockRank::CancelSpin) || held@.contains(LockRank::VpbSpin)
                || held@.contains(LockRank::RingSpin) || held@.contains(LockRank::GrantSpin);
            let ring = next == LockRank::RegistrySpin || next == LockRank::SqWaitRole || next
                == LockRank::CancelSpin || next == LockRank::VpbSpin || next
                == LockRank::CqConsumerToken || next == LockRank::ControlRundown || next
                == LockRank::SessionAccessRundown || next == LockRank::SetupAdmissionRundown || next
                == LockRank::ControlContextAdmissionRundown || next == LockRank::RingSpin || next
                == LockRank::GrantSpin;
            let tokened = held@.contains(LockRank::SoleConsumerToken) && (next
                == LockRank::FcbMain || next == LockRank::FcbPaging || next == LockRank::CcbLock
                || next == LockRank::DomainLock);
            let late = (next == LockRank::LifecycleAdmission && (held@.contains(
                LockRank::PerOpenLifecycle,
            ) || held@.contains(LockRank::SizeGate))) || (next == LockRank::PerOpenLifecycle
                && held@.contains(LockRank::SizeGate));
            let free = !held@.contains(next);
            &&& result == Err::<(), _>(LockOrderError::AlreadyHeld) <==> !free
            &&& free && !ring ==> {
                &&& result is Ok <==> !spin && !tokened && !late
                &&& result == Err::<(), _>(LockOrderError::SpinLockNotLeaf) <==> spin
                &&& result == Err::<(), _>(LockOrderError::AcquisitionUnderSoleConsumerToken) <==>
                    !spin && tokened
                &&& result == Err::<(), _>(LockOrderError::OutOfOrder) <==> !spin && !tokened
                    && late
            }
            &&& free && ring && result is Err ==> result == Err::<(), _>(
                if spin {
                    LockOrderError::SpinLockNotLeaf
                } else {
                    LockOrderError::OutOfOrder
                },
            )
        }),
{
    law_held_position_is_refused(held@, next);
    law_ring_positions_are_these(next);
    if holds_kind(held@, LockKind::SpinLock) {
        let rank = choose|rank: LockRank| #[trigger]
            held@.contains(rank) && rank.kind_of() == LockKind::SpinLock;
        law_kinds_of_positions(rank);
    }
    assert(LockRank::Sequencer.kind_of() == LockKind::SpinLock);
    assert(LockRank::AdvanceOnlyCsq.kind_of() == LockKind::SpinLock);
    assert(LockRank::NotifyCsq.kind_of() == LockKind::SpinLock);
    assert(LockRank::RegistrySpin.kind_of() == LockKind::SpinLock);
    assert(LockRank::CancelSpin.kind_of() == LockKind::SpinLock);
    assert(LockRank::VpbSpin.kind_of() == LockKind::SpinLock);
    assert(LockRank::RingSpin.kind_of() == LockKind::SpinLock);
    assert(LockRank::GrantSpin.kind_of() == LockKind::SpinLock);
}

/// Taking a ring's position, by what is held. The rundowns of a session and the
/// registry lock come with nothing held. The waiting role comes under the registry
/// lock at most, the consuming role under that and the waiting role. A ring's lock
/// comes under one role or both and nothing else, and the grant table's under that
/// lock and a role. The cancel lock comes under the registry lock and the waiting
/// role at most, or under a ring's locks; the VPB lock under those two and the
/// cancel lock, or under the registry lock and the consuming role.
pub proof fn law_ring_position_is_taken_along_its_way(
    held: HeldLocks,
    next: LockRank,
    result: Result<(), LockOrderError>,
)
    requires
        call_ensures(may_acquire, (held, next), result),
    ensures
        ({
            let empty = forall|rank: LockRank| !#[trigger] held@.contains(rank);
            let only = |a: LockRank, b: LockRank, c: LockRank| forall|rank: LockRank| #[trigger]
                held@.contains(rank) ==> rank == a || rank == b || rank == c;
            let registry = LockRank::RegistrySpin;
            let waiting = LockRank::SqWaitRole;
            let consuming = LockRank::CqConsumerToken;
            let ring = LockRank::RingSpin;
            let role = held@.contains(waiting) || held@.contains(consuming);
            let free = !held@.contains(next);
            &&& next == LockRank::ControlRundown || next == LockRank::SessionAccessRundown || next
                == LockRank::SetupAdmissionRundown || next
                == LockRank::ControlContextAdmissionRundown || next == registry ==> (result is Ok
                <==> empty)
            &&& next == waiting ==> (result is Ok <==> free && only(registry, registry, registry))
            &&& next == consuming ==> (result is Ok <==> free && only(registry, waiting, waiting))
            &&& next == ring ==> (result is Ok <==> free && role && only(
                waiting,
                consuming,
                consuming,
            ))
            &&& next == LockRank::GrantSpin ==> (result is Ok <==> free && role && held@.contains(
                ring,
            ) && only(waiting, consuming, ring))
            &&& next == LockRank::CancelSpin ==> (result is Ok <==> free && (only(
                registry,
                waiting,
                waiting,
            ) || (role && held@.contains(ring) && (forall|rank: LockRank| #[trigger]
                held@.contains(rank) ==> rank == waiting || rank == consuming || rank == ring
                    || rank == LockRank::GrantSpin))))
            &&& next == LockRank::VpbSpin ==> (result is Ok <==> free && (only(
                registry,
                waiting,
                LockRank::CancelSpin,
            ) || only(registry, consuming, consuming)))
        }),
{
    law_ring_ways(held@);
    law_ring_positions_are_these(next);
    if is_ring_position(next) {
        law_ring_positions_are_listed(held@, next);
    }
    let none = Set::<LockRank>::empty();
    law_what_may_be_taken_first(next);
    if next == LockRank::ControlRundown || next == LockRank::SessionAccessRundown || next
        == LockRank::SetupAdmissionRundown || next == LockRank::ControlContextAdmissionRundown
        || next == LockRank::RegistrySpin {
        if forall|rank: LockRank| !#[trigger] held@.contains(rank) {
            assert(held@ =~= none);
        } else if result is Ok {
            let other = choose|rank: LockRank| #[trigger] held@.contains(rank);
            law_ring_paths_hold_nothing_else(held@, next, other);
        }
    }
}

} // verus!
