//! One ring's ENTER state: who waits on its submission queue, who consumes its
//! completion queue, and which submissions have been announced.

use crate::abi::enter::{
    EnterRequestV1, SlotToken, ValidatedTopology, CQ_KIND_COMPLETION, CQ_KIND_NOTIFY,
    CQ_KIND_PROTOCOL, DRAIN_CQ, KNOWN_REQUEST_FLAGS, MAX_ENTER_CQ_BUDGET,
    NOTIFICATION_CREDIT_V1_SIZE, WAIT_SQ,
};
use crate::abi::identity::SessionIdentity;
use crate::enter::result::{EnterDecision, EnterError, EnterRole};
use crate::grant::{GrantError, NotifyPreflight};
use crate::session::{RoleError, SessionRingBrand, TerminalRequest};
use vstd::prelude::*;

pub mod lease;

verus! {

/// The source of ring-state identities.
///
/// A lease names the state it was given out by; two states of one source differ
/// in their identity until the source has given out every `u64`.
///
/// Two sources give out the same identities, so a process has to have one source
/// and make every ring state from it. With two, a lease of one state could pass
/// for a lease of another on the same ring.
#[derive(Debug)]
pub struct EnterStateIds {
    next: u64,
}

impl View for EnterStateIds {
    type V = u64;

    closed spec fn view(&self) -> u64 {
        self.next
    }
}

/// The identity given out after `id`; after the largest the source wraps round.
pub open spec fn next_state_id(id: u64) -> u64 {
    if id == u64::MAX {
        0
    } else {
        (id + 1) as u64
    }
}

impl EnterStateIds {
    /// A source that starts at one.
    pub fn new() -> (ids: Self)
        ensures
            ids@ == 1,
    {
        Self { next: 1 }
    }

    /// Give the next identity out.
    pub fn issue(&mut self) -> (id: u64)
        ensures
            id == old(self)@,
            final(self)@ == next_state_id(id),
    {
        let id: u64 = self.next;
        self.next = if id == u64::MAX {
            0
        } else {
            id + 1
        };
        id
    }
}

/// One ring's ENTER state.
#[derive(Debug)]
pub struct RingEnterState {
    ring_index: u32,
    sq_owner: Option<u64>,
    cq_owner: Option<u64>,
    sq_publish_generation: u64,
    signaled_generation: u64,
    state_id: u64,
    brand: Option<SessionRingBrand>,
    next_invocation: Option<u64>,
    sq_wait_pending: bool,
}

/// What a ring's state holds.
///
/// `sq_owner` and `cq_owner` are the invocations that own the two roles.
/// `signaled_generation` is the submission generation whose event is owed, zero
/// for none. `next_invocation` is `None` once every invocation was given out.
/// `sq_wait_pending` says that the submission role's owner is parked.
pub struct RingModel {
    pub ring_index: u32,
    pub sq_owner: Option<u64>,
    pub cq_owner: Option<u64>,
    pub sq_publish_generation: u64,
    pub signaled_generation: u64,
    pub state_id: u64,
    pub brand: Option<SessionRingBrand>,
    pub next_invocation: Option<u64>,
    pub sq_wait_pending: bool,
}

impl View for RingEnterState {
    type V = RingModel;

    closed spec fn view(&self) -> RingModel {
        RingModel {
            ring_index: self.ring_index,
            sq_owner: self.sq_owner,
            cq_owner: self.cq_owner,
            sq_publish_generation: self.sq_publish_generation,
            signaled_generation: self.signaled_generation,
            state_id: self.state_id,
            brand: self.brand,
            next_invocation: self.next_invocation,
            sq_wait_pending: self.sq_wait_pending,
        }
    }
}

/// A ring's state before anything happened on it.
pub open spec fn fresh_ring(
    ring_index: u32,
    state_id: u64,
    brand: Option<SessionRingBrand>,
) -> RingModel {
    RingModel {
        ring_index,
        sq_owner: None,
        cq_owner: None,
        sq_publish_generation: 0,
        signaled_generation: 0,
        state_id,
        brand,
        next_invocation: Some(1),
        sq_wait_pending: false,
    }
}

/// The owner of one role.
pub open spec fn owner(ring: RingModel, role: EnterRole) -> Option<u64> {
    match role {
        EnterRole::Sq => ring.sq_owner,
        EnterRole::Cq => ring.cq_owner,
    }
}

/// The state with another owner of one role.
pub open spec fn with_owner(ring: RingModel, role: EnterRole, owner: Option<u64>) -> RingModel {
    match role {
        EnterRole::Sq => RingModel { sq_owner: owner, ..ring },
        EnterRole::Cq => RingModel { cq_owner: owner, ..ring },
    }
}

/// Authority over one role of one exact state. It cannot be copied.
#[must_use]
#[derive(Debug)]
pub struct RoleLease {
    ring_index: u32,
    invocation: u64,
    role: EnterRole,
    state_id: u64,
}

/// What a lease stands for.
pub struct LeaseModel {
    pub ring_index: u32,
    pub invocation: u64,
    pub role: EnterRole,
    pub state_id: u64,
}

impl View for RoleLease {
    type V = LeaseModel;

    closed spec fn view(&self) -> LeaseModel {
        LeaseModel {
            ring_index: self.ring_index,
            invocation: self.invocation,
            role: self.role,
            state_id: self.state_id,
        }
    }
}

/// The lease is the one by which its role is owned on this state.
pub open spec fn lease_holds(ring: RingModel, lease: LeaseModel) -> bool {
    &&& lease.state_id == ring.state_id
    &&& lease.ring_index == ring.ring_index
    &&& owner(ring, lease.role) == Some(lease.invocation)
}

/// The state once a lease of it is released; a released submission role is not
/// parked any more.
pub open spec fn released(ring: RingModel, role: EnterRole) -> RingModel {
    let freed = with_owner(ring, role, None);
    if role == EnterRole::Sq {
        RingModel { sq_wait_pending: false, ..freed }
    } else {
        freed
    }
}

/// A submission generation together with what a poll of the queue found.
#[derive(Clone, Copy, Debug, PartialEq, Eq, Structural)]
pub struct ReadinessSnapshot {
    pub generation: u64,
    pub ready: bool,
}

/// What was observed when an ENTER polled.
#[derive(Clone, Copy, Debug, PartialEq, Eq, Structural)]
pub struct EnterPollObservation {
    pub sq_ready: bool,
    pub timeout_expired: bool,
    pub fenced: bool,
}

/// Why a request is refused on this ring, if it is, in the order of the checks.
pub open spec fn request_refusal(
    ring_index: u32,
    request: EnterRequestV1,
    identity: SessionIdentity,
    topology: ValidatedTopology,
    fenced: bool,
) -> Option<EnterError> {
    let budget = if topology.cq_capacity < MAX_ENTER_CQ_BUDGET {
        topology.cq_capacity
    } else {
        MAX_ENTER_CQ_BUDGET
    };
    if request.flags & !KNOWN_REQUEST_FLAGS != 0 || (crate::enter::result::drains(request)
        && crate::enter::result::waits(request)) {
        Some(EnterError::InvalidFlags)
    } else if request.mount_id != identity.mount_id || request.session_epoch
        != identity.session_epoch || request.ring_index >= topology.ring_count || request.ring_index
        != ring_index {
        Some(EnterError::InvalidIdentity)
    } else if if crate::enter::result::drains(request) {
        !(1 <= request.cq_budget <= budget)
    } else {
        request.cq_budget != 0
    } {
        Some(EnterError::InvalidBudget)
    } else if !crate::enter::result::waits(request) && request.timeout_ms != 0 {
        Some(EnterError::InvalidTimeout)
    } else if fenced {
        Some(EnterError::Fenced)
    } else {
        None
    }
}

/// What an admitted request finds: work, nothing to wait for, an expired wait,
/// or a wait.
pub open spec fn request_decision(
    request: EnterRequestV1,
    sq_ready: bool,
    timeout_expired: bool,
) -> EnterDecision {
    if sq_ready {
        EnterDecision::Ready
    } else if crate::enter::result::drains(request) || request.timeout_ms == 0 {
        EnterDecision::Empty
    } else if request.timeout_ms != u32::MAX && timeout_expired {
        EnterDecision::TimedOut
    } else {
        EnterDecision::Pending
    }
}

/// What a completion entry means to its reader.
#[derive(Clone, Copy, Debug, PartialEq, Eq, Structural)]
pub enum CqSemantic {
    Notify,
    ProtocolAbort,
    Invalid,
}

/// What was observed of the next completion entry.
#[derive(Clone, Copy, Debug, PartialEq, Eq, Structural)]
pub struct CqObservation {
    pub kind: u16,
    pub sequence_stable: bool,
    pub record_ready: bool,
    pub semantic: CqSemantic,
    pub output_bytes_available: usize,
    pub credit: Option<SlotToken>,
}

/// What draining the next completion entry comes to.
#[derive(Debug, PartialEq, Eq, Structural)]
pub enum DrainPlan {
    Empty,
    Contended,
    NotifyBlocked,
    Notify(NotifyPreflight),
    GenerationExhausted,
    ProtocolAbort,
    CompletionFault,
    ProtocolFault,
}

/// The preflight that a notification entry asks of the credit table.
#[derive(Clone, Copy, Debug, PartialEq, Eq, Structural)]
pub struct NotifyPreflightRequest {
    pub ring_index: u32,
    pub token: SlotToken,
    pub output_bytes: usize,
    pub generation: u32,
}

/// A completion entry, sorted: its plan, or the preflight that decides it.
#[derive(Debug, PartialEq, Eq, Structural)]
pub enum CqClassification {
    Plan(DrainPlan),
    Preflight(NotifyPreflightRequest),
}

/// How a completion entry is sorted.
pub open spec fn cq_classification(
    ring_index: u32,
    observation: CqObservation,
) -> CqClassification {
    if !observation.sequence_stable {
        CqClassification::Plan(DrainPlan::Contended)
    } else if !observation.record_ready {
        CqClassification::Plan(DrainPlan::Empty)
    } else if observation.kind == CQ_KIND_COMPLETION {
        CqClassification::Plan(DrainPlan::CompletionFault)
    } else if observation.kind == CQ_KIND_PROTOCOL && observation.semantic
        == CqSemantic::ProtocolAbort {
        CqClassification::Plan(DrainPlan::ProtocolAbort)
    } else if observation.kind == CQ_KIND_NOTIFY && observation.output_bytes_available
        < NOTIFICATION_CREDIT_V1_SIZE {
        CqClassification::Plan(DrainPlan::NotifyBlocked)
    } else if observation.kind == CQ_KIND_NOTIFY && observation.semantic == CqSemantic::Notify
        && observation.credit is Some {
        CqClassification::Preflight(
            NotifyPreflightRequest {
                ring_index,
                token: observation.credit->0,
                output_bytes: observation.output_bytes_available,
                generation: observation.credit->0.generation,
            },
        )
    } else {
        CqClassification::Plan(DrainPlan::ProtocolFault)
    }
}

/// Read a notification preflight: its credit is returned, waits for room, ends
/// the session, or is a fault.
pub fn classify_notify_preflight(result: Result<NotifyPreflight, GrantError>) -> (plan: DrainPlan)
    ensures
        plan == (match result {
            Ok(preflight) => DrainPlan::Notify(preflight),
            Err(error) => preflight_refusal(error),
        }),
{
    match result {
        Ok(preflight) => DrainPlan::Notify(preflight),
        Err(GrantError::ReturnBufferTooSmall) => DrainPlan::NotifyBlocked,
        Err(GrantError::GenerationExhausted) => DrainPlan::GenerationExhausted,
        Err(
            GrantError::InvalidBacking
            | GrantError::InvalidTopology
            | GrantError::TableIdentityExhausted
            | GrantError::InvalidToken
            | GrantError::WrongRing
            | GrantError::StaleGeneration,
        ) => DrainPlan::ProtocolFault,
    }
}

/// What a refused preflight comes to.
pub open spec fn preflight_refusal(error: GrantError) -> DrainPlan {
    match error {
        GrantError::ReturnBufferTooSmall => DrainPlan::NotifyBlocked,
        GrantError::GenerationExhausted => DrainPlan::GenerationExhausted,
        _ => DrainPlan::ProtocolFault,
    }
}

/// `plan` is what draining an entry of ring `ring_index` comes to, where
/// `preflight` is the credit table's answer: an entry that needs no preflight is
/// decided without it, and one that does is returned for the very ring and credit
/// that were asked about, or refused as the answer says.
pub open spec fn is_drain_plan(
    plan: DrainPlan,
    ring_index: u32,
    observation: CqObservation,
    preflight: Result<(), GrantError>,
) -> bool {
    match cq_classification(ring_index, observation) {
        CqClassification::Plan(decided) => plan == decided,
        CqClassification::Preflight(request) => match preflight {
            Ok(()) => {
                &&& plan matches DrainPlan::Notify(found)
                &&& found@ == (crate::grant::PreflightModel {
                    ring_index: request.ring_index,
                    token: request.token,
                })
            },
            Err(error) => plan == preflight_refusal(error),
        },
    }
}

/// The state once one more submission is announced, if a generation is left.
pub open spec fn published(ring: RingModel) -> Option<RingModel> {
    if ring.sq_publish_generation == u64::MAX {
        None
    } else {
        let next = (ring.sq_publish_generation + 1) as u64;
        Some(RingModel { sq_publish_generation: next, signaled_generation: next, ..ring })
    }
}

/// The state once the submission role's owner cleared the event after
/// `snapshot`: a poll that found work, or a later announcement, keeps the signal.
pub open spec fn event_cleared(ring: RingModel, snapshot: ReadinessSnapshot) -> RingModel {
    if !snapshot.ready && ring.sq_publish_generation == snapshot.generation {
        RingModel { signaled_generation: 0, ..ring }
    } else {
        ring
    }
}

/// What a recheck after the clear finds.
pub open spec fn rechecked(
    ring: RingModel,
    snapshot: ReadinessSnapshot,
    sq_ready: bool,
    fenced: bool,
) -> Result<EnterDecision, EnterError> {
    if fenced {
        Err(EnterError::Fenced)
    } else if sq_ready || ring.sq_publish_generation != snapshot.generation {
        Ok(EnterDecision::Ready)
    } else {
        Ok(EnterDecision::Pending)
    }
}

impl RingEnterState {
    /// Invocations start at one, and a brand names this ring.
    #[verifier::type_invariant]
    closed spec fn inv(self) -> bool {
        &&& self.next_invocation matches Some(next) ==> next != 0
        &&& self.brand matches Some(brand) ==> brand.ring_index == self.ring_index
    }

    /// A fresh state of the ring that `brand` names.
    pub fn for_brand(brand: SessionRingBrand, ids: &mut EnterStateIds) -> (state: Self)
        ensures
            state@ == fresh_ring(brand.ring_index, old(ids)@, Some(brand)),
            final(ids)@ == next_state_id(old(ids)@),
    {
        Self {
            ring_index: brand.ring_index,
            sq_owner: None,
            cq_owner: None,
            sq_publish_generation: 0,
            signaled_generation: 0,
            state_id: ids.issue(),
            brand: Some(brand),
            next_invocation: Some(1),
            sq_wait_pending: false,
        }
    }

    /// A fresh state of the ring at `ring_index`, without a brand.
    pub fn new(ring_index: u32, ids: &mut EnterStateIds) -> (state: Self)
        ensures
            state@ == fresh_ring(ring_index, old(ids)@, None),
            final(ids)@ == next_state_id(old(ids)@),
    {
        Self {
            ring_index,
            sq_owner: None,
            cq_owner: None,
            sq_publish_generation: 0,
            signaled_generation: 0,
            state_id: ids.issue(),
            brand: None,
            next_invocation: Some(1),
            sq_wait_pending: false,
        }
    }

    /// The brand, if this state has one.
    pub fn brand(&self) -> (brand: Option<SessionRingBrand>)
        ensures
            brand == self@.brand,
    {
        self.brand
    }

    /// Give an unbranded, unowned state its brand.
    pub fn adopt_ring_brand(&mut self, brand: SessionRingBrand) -> (result: Result<(), RoleError>)
        ensures
            ({
                let ring = old(self)@;
                let refusal = if ring.brand is Some {
                    Some(RoleError::WrongState)
                } else if ring.ring_index != brand.ring_index {
                    Some(RoleError::WrongRing)
                } else if ring.sq_owner is Some || ring.cq_owner is Some {
                    Some(RoleError::DeviceBusy)
                } else {
                    None
                };
                match result {
                    Ok(()) => refusal is None && final(self)@ == (RingModel {
                        brand: Some(brand),
                        ..ring
                    }),
                    Err(error) => refusal == Some(error) && *final(self) == *old(self),
                }
            }),
    {
        proof {
            use_type_invariant(&*self);
        }
        if self.brand.is_some() {
            return Err(RoleError::WrongState);
        }
        if self.ring_index != brand.ring_index {
            return Err(RoleError::WrongRing);
        }
        if self.sq_owner.is_some() || self.cq_owner.is_some() {
            return Err(RoleError::DeviceBusy);
        }
        self.brand = Some(brand);
        Ok(())
    }

    /// Admit one request on this ring and say what it finds.
    pub fn classify_request(
        &self,
        request: &EnterRequestV1,
        identity: SessionIdentity,
        topology: &ValidatedTopology,
        observation: EnterPollObservation,
    ) -> (result: Result<(EnterRole, EnterDecision), EnterError>)
        ensures
            ({
                let refusal = request_refusal(
                    self@.ring_index,
                    *request,
                    identity,
                    *topology,
                    observation.fenced,
                );
                match result {
                    Ok((role, decision)) => {
                        &&& refusal is None
                        &&& role == crate::enter::result::role_of(*request)
                        &&& decision == request_decision(
                            *request,
                            observation.sq_ready,
                            observation.timeout_expired,
                        )
                        &&& decision == EnterDecision::Ready <==> observation.sq_ready
                        &&& role == EnterRole::Cq <==> request.flags & DRAIN_CQ != 0
                    },
                    Err(error) => refusal == Some(error),
                }
            }),
    {
        let drains = request.flags & DRAIN_CQ != 0;
        let waits = request.flags & WAIT_SQ != 0;
        if request.flags & !KNOWN_REQUEST_FLAGS != 0 || (drains && waits) {
            return Err(EnterError::InvalidFlags);
        }
        if request.mount_id != identity.mount_id || request.session_epoch
            != identity.session_epoch || request.ring_index >= topology.ring_count
            || request.ring_index != self.ring_index {
            return Err(EnterError::InvalidIdentity);
        }
        let maximum_budget: u32 = if topology.cq_capacity < MAX_ENTER_CQ_BUDGET {
            topology.cq_capacity
        } else {
            MAX_ENTER_CQ_BUDGET
        };
        if (drains && (request.cq_budget == 0 || request.cq_budget > maximum_budget)) || (!drains
            && request.cq_budget != 0) {
            return Err(EnterError::InvalidBudget);
        }
        if !waits && request.timeout_ms != 0 {
            return Err(EnterError::InvalidTimeout);
        }
        if observation.fenced {
            return Err(EnterError::Fenced);
        }
        let role = if drains {
            EnterRole::Cq
        } else {
            EnterRole::Sq
        };
        let decision = if observation.sq_ready {
            EnterDecision::Ready
        } else if drains || request.timeout_ms == 0 {
            EnterDecision::Empty
        } else if request.timeout_ms == u32::MAX {
            EnterDecision::Pending
        } else if observation.timeout_expired {
            EnterDecision::TimedOut
        } else {
            EnterDecision::Pending
        };
        Ok((role, decision))
    }

    /// Take a free role for `invocation`.
    pub fn acquire_role(&mut self, invocation: u64, role: EnterRole) -> (result: Result<
        RoleLease,
        EnterError,
    >)
        ensures
            match result {
                Ok(lease) => {
                    &&& owner(old(self)@, role) is None
                    &&& lease@ == (LeaseModel {
                        ring_index: old(self)@.ring_index,
                        invocation,
                        role,
                        state_id: old(self)@.state_id,
                    })
                    &&& final(self)@ == with_owner(old(self)@, role, Some(invocation))
                },
                Err(error) => {
                    &&& error == EnterError::DeviceBusy
                    &&& owner(old(self)@, role) is Some
                    &&& *final(self) == *old(self)
                },
            },
    {
        proof {
            use_type_invariant(&*self);
        }
        match role {
            EnterRole::Sq => {
                if self.sq_owner.is_some() {
                    return Err(EnterError::DeviceBusy);
                }
                self.sq_owner = Some(invocation);
            },
            EnterRole::Cq => {
                if self.cq_owner.is_some() {
                    return Err(EnterError::DeviceBusy);
                }
                self.cq_owner = Some(invocation);
            },
        }
        Ok(
            RoleLease {
                ring_index: self.ring_index,
                invocation,
                role,
                state_id: self.state_id,
            },
        )
    }

    /// Give a role back. A refusal returns the lease.
    pub fn release_role(&mut self, lease: RoleLease) -> (result: Result<
        (),
        (EnterError, RoleLease),
    >)
        ensures
            match result {
                Ok(()) => lease_holds(old(self)@, lease@) && final(self)@ == released(
                    old(self)@,
                    lease@.role,
                ),
                Err((error, returned)) => {
                    &&& error == EnterError::InvalidIdentity
                    &&& !lease_holds(old(self)@, lease@)
                    &&& returned == lease
                    &&& *final(self) == *old(self)
                },
            },
    {
        proof {
            use_type_invariant(&*self);
        }
        if !self.is_leased_by(&lease) {
            return Err((EnterError::InvalidIdentity, lease));
        }
        match lease.role {
            EnterRole::Sq => {
                self.sq_owner = None;
                self.sq_wait_pending = false;
            },
            EnterRole::Cq => {
                self.cq_owner = None;
            },
        }
        Ok(())
    }

    fn is_leased_by(&self, lease: &RoleLease) -> (held: bool)
        ensures
            held <==> lease_holds(self@, lease@),
    {
        if lease.state_id != self.state_id || lease.ring_index != self.ring_index {
            return false;
        }
        match lease.role {
            EnterRole::Sq => self.sq_owner == Some(lease.invocation),
            EnterRole::Cq => self.cq_owner == Some(lease.invocation),
        }
    }

    /// The completion queue has no consumer.
    pub fn cq_consumer_is_free(&self) -> (free: bool)
        ensures
            free <==> self@.cq_owner is None,
    {
        self.cq_owner.is_none()
    }

    /// Neither role is owned.
    pub fn r3_checkpoint_roles_and_consumers_are_drained(&self) -> (drained: bool)
        ensures
            drained <==> self@.sq_owner is None && self@.cq_owner is None,
    {
        self.sq_owner.is_none() && self.cq_owner.is_none()
    }

    /// Record that the submission role's owner is parked, not a dispatching
    /// request that forgot to release.
    pub fn mark_sq_wait_pending(&mut self, lease: &RoleLease) -> (result: Result<(), EnterError>)
        ensures
            ({
                let held = lease@.role == EnterRole::Sq && lease_holds(old(self)@, lease@);
                match result {
                    Ok(()) => held && final(self)@ == (RingModel {
                        sq_wait_pending: true,
                        ..old(self)@
                    }),
                    Err(error) => {
                        &&& error == EnterError::InvalidIdentity
                        &&& !held
                        &&& *final(self) == *old(self)
                    },
                }
            }),
    {
        proof {
            use_type_invariant(&*self);
        }
        if lease.role != EnterRole::Sq || !self.is_leased_by(lease) {
            return Err(EnterError::InvalidIdentity);
        }
        self.sq_wait_pending = true;
        Ok(())
    }

    /// No dispatching request still owns a role. A parked wait is no such request.
    pub fn leftover_dispatch_roles_are_absent(&self) -> (absent: bool)
        ensures
            absent <==> self@.cq_owner is None && (self@.sq_owner is None || self@.sq_wait_pending),
    {
        self.cq_owner.is_none() && (self.sq_owner.is_none() || self.sq_wait_pending)
    }

    /// No dispatching request still owns the submission role: the same question
    /// from a caller that is itself the completion queue's consumer.
    pub fn leftover_sq_dispatch_role_is_absent(&self) -> (absent: bool)
        ensures
            absent <==> (self@.sq_owner is None || self@.sq_wait_pending),
    {
        self.sq_owner.is_none() || self.sq_wait_pending
    }

    /// Pair what a poll found with the generation it was found at.
    pub fn observe_readiness(&self, sq_ready: bool) -> (snapshot: ReadinessSnapshot)
        ensures
            snapshot == (ReadinessSnapshot {
                generation: self@.sq_publish_generation,
                ready: sq_ready,
            }),
    {
        ReadinessSnapshot { generation: self.sq_publish_generation, ready: sq_ready }
    }

    /// Clear the event, as the submission role's owner, after `snapshot`.
    pub fn clear_event_after(&mut self, lease: &RoleLease, snapshot: ReadinessSnapshot) -> (result:
        Result<(), EnterError>)
        ensures
            ({
                let held = lease@.role == EnterRole::Sq && lease_holds(old(self)@, lease@);
                match result {
                    Ok(()) => held && final(self)@ == event_cleared(old(self)@, snapshot),
                    Err(error) => {
                        &&& error == EnterError::InvalidIdentity
                        &&& !held
                        &&& *final(self) == *old(self)
                    },
                }
            }),
    {
        proof {
            use_type_invariant(&*self);
        }
        if lease.role != EnterRole::Sq || !self.is_leased_by(lease) {
            return Err(EnterError::InvalidIdentity);
        }
        if !snapshot.ready && self.sq_publish_generation == snapshot.generation {
            self.signaled_generation = 0;
        }
        Ok(())
    }

    /// Announce one submission; its event is owed.
    pub fn publish_sq(&mut self) -> (result: Result<u64, EnterError>)
        ensures
            match result {
                Ok(generation) => {
                    &&& published(old(self)@) == Some(final(self)@)
                    &&& generation == final(self)@.sq_publish_generation
                },
                Err(error) => {
                    &&& error == EnterError::GenerationExhausted
                    &&& published(old(self)@) is None
                    &&& *final(self) == *old(self)
                },
            },
    {
        proof {
            use_type_invariant(&*self);
        }
        match self.sq_publish_generation.checked_add(1) {
            Some(next) => {
                self.sq_publish_generation = next;
                self.signaled_generation = next;
                Ok(next)
            },
            None => Err(EnterError::GenerationExhausted),
        }
    }

    /// The generation whose event is owed, zero for none.
    pub fn owed_signal_generation(&self) -> (generation: u64)
        ensures
            generation == self@.signaled_generation,
    {
        self.signaled_generation
    }

    /// Announce one submission, or ask for the session's end when no generation
    /// is left.
    pub fn publish_sq_or_terminalize(&mut self) -> (result: Result<u64, TerminalRequest>)
        ensures
            match result {
                Ok(generation) => {
                    &&& published(old(self)@) == Some(final(self)@)
                    &&& generation == final(self)@.sq_publish_generation
                },
                Err(request) => {
                    &&& request == TerminalRequest::SqGenerationExhausted
                    &&& published(old(self)@) is None
                    &&& *final(self) == *old(self)
                },
            },
    {
        match self.publish_sq() {
            Ok(generation) => Ok(generation),
            Err(_) => Err(TerminalRequest::SqGenerationExhausted),
        }
    }

    /// Decide once more, after the clear, whether to wait.
    pub fn recheck_after_clear(
        &self,
        snapshot: ReadinessSnapshot,
        sq_ready_after_clear: bool,
        fenced_after_clear: bool,
    ) -> (result: Result<EnterDecision, EnterError>)
        ensures
            result == rechecked(self@, snapshot, sq_ready_after_clear, fenced_after_clear),
    {
        if fenced_after_clear {
            return Err(EnterError::Fenced);
        }
        let changed = self.sq_publish_generation != snapshot.generation;
        if sq_ready_after_clear || changed {
            Ok(EnterDecision::Ready)
        } else {
            Ok(EnterDecision::Pending)
        }
    }

    /// What draining the next completion entry of this ring comes to, where
    /// `preflight` is the credit table's answer to what
    /// [`RingEnterState::sort_cq`] asks of it. The answer is not looked at where
    /// nothing is asked. No credit is claimed here.
    pub fn classify_cq(
        &self,
        observation: CqObservation,
        preflight: Result<(), GrantError>,
    ) -> (plan: DrainPlan)
        ensures
            is_drain_plan(plan, self@.ring_index, observation, preflight),
    {
        match self.sort_cq(observation) {
            CqClassification::Plan(plan) => plan,
            CqClassification::Preflight(request) => classify_notify_preflight(
                match preflight {
                    Ok(()) => Ok(NotifyPreflight::found(request.ring_index, request.token)),
                    Err(error) => Err(error),
                },
            ),
        }
    }

    /// Sort the next completion entry of this ring.
    pub fn sort_cq(&self, observation: CqObservation) -> (classified: CqClassification)
        ensures
            classified == cq_classification(self@.ring_index, observation),
    {
        if !observation.sequence_stable {
            return CqClassification::Plan(DrainPlan::Contended);
        }
        if !observation.record_ready {
            return CqClassification::Plan(DrainPlan::Empty);
        }
        if observation.kind == CQ_KIND_COMPLETION {
            return CqClassification::Plan(DrainPlan::CompletionFault);
        }
        if observation.kind == CQ_KIND_PROTOCOL {
            return if observation.semantic == CqSemantic::ProtocolAbort {
                CqClassification::Plan(DrainPlan::ProtocolAbort)
            } else {
                CqClassification::Plan(DrainPlan::ProtocolFault)
            };
        }
        if observation.kind != CQ_KIND_NOTIFY {
            return CqClassification::Plan(DrainPlan::ProtocolFault);
        }
        if observation.output_bytes_available < NOTIFICATION_CREDIT_V1_SIZE as usize {
            return CqClassification::Plan(DrainPlan::NotifyBlocked);
        }
        if observation.semantic != CqSemantic::Notify {
            return CqClassification::Plan(DrainPlan::ProtocolFault);
        }
        match observation.credit {
            None => CqClassification::Plan(DrainPlan::ProtocolFault),
            Some(token) => CqClassification::Preflight(
                NotifyPreflightRequest {
                    ring_index: self.ring_index,
                    token,
                    output_bytes: observation.output_bytes_available,
                    generation: token.generation,
                },
            ),
        }
    }
}

/// No announcement is lost: one that comes after a snapshot keeps the event owed
/// through the clear that follows, and the recheck finds it, whatever a poll
/// finds then.
pub proof fn law_no_submission_is_lost(
    ring: RingModel,
    snapshot: ReadinessSnapshot,
    sq_ready: bool,
)
    requires
        snapshot.generation <= ring.sq_publish_generation,
        published(ring) is Some,
    ensures
        ({
            let after = published(ring)->0;
            &&& after.sq_publish_generation > ring.sq_publish_generation
            &&& after.signaled_generation == after.sq_publish_generation
            &&& event_cleared(after, snapshot) == after
            &&& rechecked(after, snapshot, sq_ready, false) == Ok::<EnterDecision, EnterError>(
                EnterDecision::Ready,
            )
        }),
{
}

/// The credit table decides an entry only where it is asked: an entry that needs
/// no preflight comes to the same, whatever the table would answer.
pub proof fn law_unasked_answer_decides_nothing(
    ring_index: u32,
    observation: CqObservation,
    plan: DrainPlan,
    one: Result<(), GrantError>,
    other: Result<(), GrantError>,
)
    requires
        cq_classification(ring_index, observation) is Plan,
        is_drain_plan(plan, ring_index, observation, one),
    ensures
        is_drain_plan(plan, ring_index, observation, other),
{
}

/// A credit is returned only from a stable notification entry of this ring that
/// has room for it, and it is the credit that the entry names.
pub proof fn law_only_a_notification_returns_a_credit(
    ring_index: u32,
    observation: CqObservation,
    plan: DrainPlan,
    preflight: Result<(), GrantError>,
)
    requires
        is_drain_plan(plan, ring_index, observation, preflight),
        plan is Notify,
    ensures
        preflight is Ok,
        observation.sequence_stable && observation.record_ready,
        observation.kind == CQ_KIND_NOTIFY && observation.semantic == CqSemantic::Notify,
        observation.output_bytes_available >= NOTIFICATION_CREDIT_V1_SIZE,
        plan->Notify_0@.ring_index == ring_index,
        observation.credit == Some(plan->Notify_0@.token),
{
}

/// Taking a free role and giving it back leaves the ring as it was, but that no
/// wait is parked on a submission role that was given back.
pub proof fn law_role_comes_back(ring: RingModel, invocation: u64, role: EnterRole)
    requires
        owner(ring, role) is None,
    ensures
        ({
            let taken = with_owner(ring, role, Some(invocation));
            let lease = LeaseModel {
                ring_index: ring.ring_index,
                invocation,
                role,
                state_id: ring.state_id,
            };
            &&& lease_holds(taken, lease)
            &&& released(taken, role) == (if role == EnterRole::Sq {
                RingModel { sq_wait_pending: false, ..ring }
            } else {
                ring
            })
        }),
{
}

/// An admitted request has a result in its role, unless it has to wait: what it
/// finds never needs a flag that its role cannot report.
pub proof fn law_admitted_request_is_answered(
    ring_index: u32,
    request: EnterRequestV1,
    identity: SessionIdentity,
    topology: ValidatedTopology,
    sq_ready: bool,
    timeout_expired: bool,
)
    requires
        request_refusal(ring_index, request, identity, topology, false) is None,
    ensures
        ({
            let decision = request_decision(request, sq_ready, timeout_expired);
            decision == EnterDecision::Pending || crate::enter::result::result_refusal(
                request,
                decision,
                0,
                crate::enter::result::CqResultState::Unreported,
            ) is None
        }),
{
}

/// A request whose poll found the submission queue ready is answered ready,
/// whatever it asked for and whether or not its time is up.
pub proof fn law_ready_poll_is_ready(request: EnterRequestV1, timeout_expired: bool)
    ensures
        request_decision(request, true, timeout_expired) == EnterDecision::Ready,
{
}

/// An admitted request is parked exactly where its poll found nothing, it asked to
/// wait, it has time, and its time is without end or not up.
pub proof fn law_only_an_unexpired_wait_is_parked(
    ring_index: u32,
    request: EnterRequestV1,
    identity: SessionIdentity,
    topology: ValidatedTopology,
    sq_ready: bool,
    timeout_expired: bool,
)
    requires
        request_refusal(ring_index, request, identity, topology, false) is None,
    ensures
        ({
            let decision = request_decision(request, sq_ready, timeout_expired);
            let time_is_up = request.timeout_ms != u32::MAX && timeout_expired;
            let in_time = request.flags & WAIT_SQ != 0 && request.timeout_ms != 0;
            &&& decision == EnterDecision::Ready <==> sq_ready
            &&& decision == EnterDecision::Pending <==> !sq_ready && in_time && !time_is_up
            &&& decision == EnterDecision::TimedOut <==> !sq_ready && in_time && time_is_up
            &&& decision == EnterDecision::Empty <==> !sq_ready && !in_time
        }),
{
}

/// A drain never waits, and a wait without end never times out.
pub proof fn law_no_drain_waits_and_no_endless_wait_ends(
    request: EnterRequestV1,
    sq_ready: bool,
    timeout_expired: bool,
)
    ensures
        request.flags & DRAIN_CQ != 0 ==> ({
            let decision = request_decision(request, sq_ready, timeout_expired);
            decision == EnterDecision::Ready || decision == EnterDecision::Empty
        }),
        request.timeout_ms == u32::MAX ==> request_decision(request, sq_ready, timeout_expired)
            == request_decision(request, sq_ready, false),
        request.flags & DRAIN_CQ == 0 && request.timeout_ms != 0 && request.timeout_ms != u32::MAX
            ==> request_decision(request, false, true) == EnterDecision::TimedOut
            && request_decision(request, false, false) == EnterDecision::Pending,
        request.flags & DRAIN_CQ == 0 && request.timeout_ms == u32::MAX ==> request_decision(
            request,
            false,
            timeout_expired,
        ) == EnterDecision::Pending,
        request.timeout_ms == 0 ==> request_decision(request, false, timeout_expired)
            == EnterDecision::Empty,
{
}

/// A request is admitted exactly where all of this holds: its flags are known and
/// do not both wait and drain, it names this session and this ring of it, its
/// budget is from one to what the queue and the limit allow for a drain and zero
/// otherwise, it has a time only if it waits, and there is no fence. The first
/// that fails, in this order, is the answer.
pub proof fn law_request_is_admitted_exactly(
    ring_index: u32,
    request: EnterRequestV1,
    identity: SessionIdentity,
    topology: ValidatedTopology,
    fenced: bool,
)
    ensures
        ({
            let answer = request_refusal(ring_index, request, identity, topology, fenced);
            let drain = request.flags & DRAIN_CQ != 0;
            let wait = request.flags & WAIT_SQ != 0;
            let flags = request.flags & !KNOWN_REQUEST_FLAGS == 0 && !(drain && wait);
            let named = request.mount_id == identity.mount_id && request.session_epoch
                == identity.session_epoch && request.ring_index == ring_index && ring_index
                < topology.ring_count;
            let budget = if drain {
                0 < request.cq_budget && request.cq_budget <= topology.cq_capacity
                    && request.cq_budget <= MAX_ENTER_CQ_BUDGET
            } else {
                request.cq_budget == 0
            };
            let time = wait || request.timeout_ms == 0;
            &&& answer is None <==> flags && named && budget && time && !fenced
            &&& answer == Some(EnterError::InvalidFlags) <==> !flags
            &&& answer == Some(EnterError::InvalidIdentity) <==> flags && !named
            &&& answer == Some(EnterError::InvalidBudget) <==> flags && named && !budget
            &&& answer == Some(EnterError::InvalidTimeout) <==> flags && named && budget && !time
            &&& answer == Some(EnterError::Fenced) <==> flags && named && budget && time && fenced
        }),
{
}

/// A fence takes nothing but the requests that would be admitted: it changes no
/// other answer.
pub proof fn law_fence_refuses_only_the_admitted(
    ring_index: u32,
    request: EnterRequestV1,
    identity: SessionIdentity,
    topology: ValidatedTopology,
)
    ensures
        ({
            let open = request_refusal(ring_index, request, identity, topology, false);
            let fenced = request_refusal(ring_index, request, identity, topology, true);
            &&& open is None <==> fenced == Some(EnterError::Fenced)
            &&& open is Some ==> fenced == open
            &&& open != Some(EnterError::Fenced)
        }),
{
}

/// An entry is sorted by the first of these that holds: it is still being
/// written, there is none, it is a completion, an abort, a notification without
/// room for its credit, or a notification with a credit. Anything else is a
/// fault. Only the last asks the credit table, about this ring and the entry's
/// own credit at its own generation.
pub proof fn law_entry_is_sorted_by_what_it_is(ring_index: u32, observation: CqObservation)
    ensures
        ({
            let sorted = cq_classification(ring_index, observation);
            let there = observation.sequence_stable && observation.record_ready;
            let notify = there && observation.kind == CQ_KIND_NOTIFY;
            let room = observation.output_bytes_available >= NOTIFICATION_CREDIT_V1_SIZE;
            let credited = observation.semantic == CqSemantic::Notify && observation.credit is Some;
            let abort = there && observation.kind == CQ_KIND_PROTOCOL && observation.semantic
                == CqSemantic::ProtocolAbort;
            let completion = there && observation.kind == CQ_KIND_COMPLETION;
            &&& sorted == CqClassification::Plan(DrainPlan::Contended)
                <==> !observation.sequence_stable
            &&& sorted == CqClassification::Plan(DrainPlan::Empty) <==> observation.sequence_stable
                && !observation.record_ready
            &&& sorted == CqClassification::Plan(DrainPlan::CompletionFault) <==> completion
            &&& sorted == CqClassification::Plan(DrainPlan::ProtocolAbort) <==> abort
            &&& sorted == CqClassification::Plan(DrainPlan::NotifyBlocked) <==> notify && !room
            &&& sorted is Preflight <==> notify && room && credited
            &&& sorted == CqClassification::Plan(DrainPlan::ProtocolFault) <==> there && !completion
                && !abort && !(notify && (!room || credited))
            &&& sorted matches CqClassification::Preflight(asked) ==> {
                &&& asked.ring_index == ring_index
                &&& observation.credit == Some(asked.token)
                &&& asked.output_bytes == observation.output_bytes_available
                &&& asked.generation == asked.token.generation
            }
        }),
{
}

/// What a drain comes to, told from the entry and the credit table's answer alone:
/// a lack of room leaves the entry where it is, an exhausted generation ends the
/// session, and every other refusal of the table is a fault.
pub proof fn law_drain_plan_is_determined(
    plan: DrainPlan,
    ring_index: u32,
    observation: CqObservation,
    preflight: Result<(), GrantError>,
)
    requires
        is_drain_plan(plan, ring_index, observation, preflight),
    ensures
        ({
            let there = observation.sequence_stable && observation.record_ready;
            let notify = there && observation.kind == CQ_KIND_NOTIFY;
            let room = observation.output_bytes_available >= NOTIFICATION_CREDIT_V1_SIZE;
            let asked = notify && room && observation.semantic == CqSemantic::Notify
                && observation.credit is Some;
            let abort = there && observation.kind == CQ_KIND_PROTOCOL && observation.semantic
                == CqSemantic::ProtocolAbort;
            let completion = there && observation.kind == CQ_KIND_COMPLETION;
            let short = asked && preflight == Err::<(), GrantError>(
                GrantError::ReturnBufferTooSmall,
            );
            let spent = asked && preflight == Err::<(), GrantError>(
                GrantError::GenerationExhausted,
            );
            &&& plan == DrainPlan::Contended <==> !observation.sequence_stable
            &&& plan == DrainPlan::Empty <==> observation.sequence_stable
                && !observation.record_ready
            &&& plan == DrainPlan::CompletionFault <==> completion
            &&& plan == DrainPlan::ProtocolAbort <==> abort
            &&& plan == DrainPlan::NotifyBlocked <==> (notify && !room) || short
            &&& plan == DrainPlan::GenerationExhausted <==> spent
            &&& plan is Notify <==> asked && preflight is Ok
            &&& plan == DrainPlan::ProtocolFault <==> there && !completion && !abort && !(notify
                && !room) && !(asked && (preflight is Ok || short || spent))
        }),
{
}

/// A fresh ring belongs to nobody, owes no event, and gives its first invocation
/// the number one.
pub proof fn law_fresh_ring_is_free(
    ring_index: u32,
    state_id: u64,
    brand: Option<SessionRingBrand>,
)
    ensures
        ({
            let ring = fresh_ring(ring_index, state_id, brand);
            &&& ring.ring_index == ring_index && ring.state_id == state_id && ring.brand == brand
            &&& ring.sq_owner is None && ring.cq_owner is None && !ring.sq_wait_pending
            &&& ring.sq_publish_generation == 0 && ring.signaled_generation == 0
            &&& ring.next_invocation == Some(1u64)
        }),
{
}

/// The two roles are owned apart: giving one an owner leaves the other one's, and
/// everything else, as it was.
pub proof fn law_roles_are_owned_apart(ring: RingModel, invocation: Option<u64>)
    ensures
        with_owner(ring, EnterRole::Sq, invocation) == (RingModel { sq_owner: invocation, ..ring }),
        with_owner(ring, EnterRole::Cq, invocation) == (RingModel { cq_owner: invocation, ..ring }),
        owner(ring, EnterRole::Sq) == ring.sq_owner,
        owner(ring, EnterRole::Cq) == ring.cq_owner,
        released(ring, EnterRole::Sq) == (RingModel {
            sq_owner: None,
            sq_wait_pending: false,
            ..ring
        }),
        released(ring, EnterRole::Cq) == (RingModel { cq_owner: None, ..ring }),
{
}

/// A lease is good on exactly one state and ring, for exactly the role and the
/// invocation that own it there: with any of the four changed it is good for
/// nothing.
pub proof fn law_lease_is_good_in_one_place(ring: RingModel, lease: LeaseModel)
    ensures
        lease_holds(ring, lease) <==> {
            &&& lease.state_id == ring.state_id
            &&& lease.ring_index == ring.ring_index
            &&& lease.role == EnterRole::Sq ==> ring.sq_owner == Some(lease.invocation)
            &&& lease.role == EnterRole::Cq ==> ring.cq_owner == Some(lease.invocation)
        },
{
}

/// Announcing a submission counts its generation on by one and owes its event. It
/// touches nothing else, and fails only once every generation is used.
pub proof fn law_announcement_counts_by_one(ring: RingModel)
    ensures
        published(ring) is None <==> ring.sq_publish_generation == u64::MAX,
        published(ring) matches Some(after) ==> {
            &&& after.sq_publish_generation == ring.sq_publish_generation + 1
            &&& after.signaled_generation == ring.sq_publish_generation + 1
            &&& after == (RingModel {
                sq_publish_generation: after.sq_publish_generation,
                signaled_generation: after.signaled_generation,
                ..ring
            })
        },
{
}

/// A clear takes the owed event away exactly where the poll found nothing and
/// nothing was announced since; it never touches anything else.
pub proof fn law_clear_takes_only_a_stale_event(ring: RingModel, snapshot: ReadinessSnapshot)
    ensures
        ({
            let after = event_cleared(ring, snapshot);
            let stale = !snapshot.ready && snapshot.generation == ring.sq_publish_generation;
            &&& stale ==> after.signaled_generation == 0
            &&& !stale ==> after.signaled_generation == ring.signaled_generation
            &&& after == (RingModel { signaled_generation: after.signaled_generation, ..ring })
        }),
{
}

/// After a clear a request goes on waiting exactly where nothing is ready, nothing
/// was announced since the snapshot, and no fence stands; a fence goes first.
pub proof fn law_recheck_finds_what_came_since(
    ring: RingModel,
    snapshot: ReadinessSnapshot,
    sq_ready: bool,
    fenced: bool,
)
    ensures
        ({
            let found = rechecked(ring, snapshot, sq_ready, fenced);
            let idle = !sq_ready && snapshot.generation == ring.sq_publish_generation;
            &&& found == Err::<EnterDecision, EnterError>(EnterError::Fenced) <==> fenced
            &&& found == Ok::<EnterDecision, EnterError>(EnterDecision::Pending) <==> !fenced && idle
            &&& found == Ok::<EnterDecision, EnterError>(EnterDecision::Ready) <==> !fenced && !idle
        }),
{
}

/// Identities are given out one after another; the next one is always another.
pub proof fn law_next_identity_is_another(id: u64)
    ensures
        next_state_id(id) != id,
        id < u64::MAX ==> next_state_id(id) == id + 1,
        id == u64::MAX ==> next_state_id(id) == 0,
{
}

/// What a request is answered, whatever it is: a poll that found work is ready,
/// waiting or not, and nothing else is; a request is parked exactly if it waits, in
/// time, and nothing is there; it times out exactly if a finite wait is up; and it
/// is empty where there is nothing to wait for. A drain has the consuming role and
/// every other request the submitting one.
pub proof fn law_classified_request_finds_what_is_there(
    ring: RingEnterState,
    request: EnterRequestV1,
    identity: SessionIdentity,
    topology: ValidatedTopology,
    observation: EnterPollObservation,
    result: Result<(EnterRole, EnterDecision), EnterError>,
)
    requires
        call_ensures(
            RingEnterState::classify_request,
            (&ring, &request, identity, &topology, observation),
            result,
        ),
    ensures
        result matches Ok((role, decision)) ==> {
            let waits = request.flags & WAIT_SQ != 0 && request.timeout_ms != 0;
            let time_is_up = request.timeout_ms != u32::MAX && observation.timeout_expired;
            &&& decision == EnterDecision::Ready <==> observation.sq_ready
            &&& decision == EnterDecision::Pending <==> !observation.sq_ready && waits
                && !time_is_up
            &&& decision == EnterDecision::TimedOut <==> !observation.sq_ready && waits
                && time_is_up
            &&& decision == EnterDecision::Empty <==> !observation.sq_ready && !waits
            &&& role == EnterRole::Cq <==> request.flags & DRAIN_CQ != 0
            &&& role == EnterRole::Sq <==> request.flags & DRAIN_CQ == 0
            &&& !observation.fenced
        },
{
    if result is Ok {
        law_request_is_admitted_exactly(
            ring@.ring_index,
            request,
            identity,
            topology,
            observation.fenced,
        );
        law_only_an_unexpired_wait_is_parked(
            ring@.ring_index,
            request,
            identity,
            topology,
            observation.sq_ready,
            observation.timeout_expired,
        );
    }
}

/// Which requests are refused, and for what: first for flags that are unknown or
/// exclude each other, then for naming another session or ring, then for a budget
/// that does not fit a drain, or that anything but a drain has, then for a time
/// without a wait, and only then for the fence.
pub proof fn law_classified_request_is_refused_in_order(
    ring: RingEnterState,
    request: EnterRequestV1,
    identity: SessionIdentity,
    topology: ValidatedTopology,
    observation: EnterPollObservation,
    result: Result<(EnterRole, EnterDecision), EnterError>,
)
    requires
        call_ensures(
            RingEnterState::classify_request,
            (&ring, &request, identity, &topology, observation),
            result,
        ),
    ensures
        ({
            let drain = request.flags & DRAIN_CQ != 0;
            let wait = request.flags & WAIT_SQ != 0;
            let flags = request.flags & !KNOWN_REQUEST_FLAGS == 0 && !(drain && wait);
            let named = request.mount_id == identity.mount_id && request.session_epoch
                == identity.session_epoch && request.ring_index == ring@.ring_index
                && request.ring_index < topology.ring_count;
            let budget = if drain {
                0 < request.cq_budget && request.cq_budget <= topology.cq_capacity
                    && request.cq_budget <= MAX_ENTER_CQ_BUDGET
            } else {
                request.cq_budget == 0
            };
            let time = wait || request.timeout_ms == 0;
            &&& result is Ok <==> flags && named && budget && time && !observation.fenced
            &&& result matches Err(error) ==> {
                &&& error == EnterError::InvalidFlags <==> !flags
                &&& error == EnterError::InvalidIdentity <==> flags && !named
                &&& error == EnterError::InvalidBudget <==> flags && named && !budget
                &&& error == EnterError::InvalidTimeout <==> flags && named && budget && !time
                &&& error == EnterError::Fenced <==> flags && named && budget && time
                    && observation.fenced
            }
        }),
{
    law_request_is_admitted_exactly(
        ring@.ring_index,
        request,
        identity,
        topology,
        observation.fenced,
    );
}

/// A role is acquired exactly while nobody owns it, for the invocation that asks,
/// and the other role stays with its owner; it is given back exactly with the lease
/// it was acquired by, and a wait that was pending ends with the waiting role.
pub proof fn law_role_is_taken_and_given_back(
    ring: &mut RingEnterState,
    later: &mut RingEnterState,
    invocation: u64,
    role: EnterRole,
    taken: Result<RoleLease, EnterError>,
    lease: RoleLease,
    given: Result<(), (EnterError, RoleLease)>,
)
    requires
        call_ensures(RingEnterState::acquire_role, (ring, invocation, role), taken),
        call_ensures(RingEnterState::release_role, (later, lease), given),
    ensures
        ({
            let owned = if role == EnterRole::Sq {
                old(ring)@.sq_owner is Some
            } else {
                old(ring)@.cq_owner is Some
            };
            &&& taken is Ok <==> !owned
            &&& taken is Err ==> taken == Err::<RoleLease, _>(EnterError::DeviceBusy) && final(ring)@ == old(ring)@
            &&& taken matches Ok(held) ==> held@.role == role && held@.invocation == invocation
                && held@.ring_index == old(ring)@.ring_index && held@.state_id
                == old(ring)@.state_id
            &&& taken is Ok && role == EnterRole::Sq ==> final(ring)@ == (RingModel {
                sq_owner: Some(invocation),
                ..old(ring)@
            })
            &&& taken is Ok && role == EnterRole::Cq ==> final(ring)@ == (RingModel {
                cq_owner: Some(invocation),
                ..old(ring)@
            })
        }),
        ({
            let owner = if lease@.role == EnterRole::Sq {
                old(later)@.sq_owner
            } else {
                old(later)@.cq_owner
            };
            let own = lease@.state_id == old(later)@.state_id && lease@.ring_index == old(later)@.ring_index && owner == Some(lease@.invocation);
            &&& given is Ok <==> own
            &&& given matches Err((error, returned)) ==> error == EnterError::InvalidIdentity
                && returned == lease && final(later)@ == old(later)@
            &&& given is Ok && lease@.role == EnterRole::Sq ==> final(later)@ == (RingModel {
                sq_owner: None,
                sq_wait_pending: false,
                ..old(later)@
            })
            &&& given is Ok && lease@.role == EnterRole::Cq ==> final(later)@ == (RingModel {
                cq_owner: None,
                ..old(later)@
            })
        }),
{
    law_roles_are_owned_apart(old(ring)@, Some(invocation));
    law_roles_are_owned_apart(old(later)@, None);
    law_lease_is_good_in_one_place(old(later)@, lease@);
}

/// A ring takes a brand exactly once, of its own index, while nobody owns a role:
/// a branded ring is refused first, then another index, then an owner. Nothing but
/// the brand changes.
pub proof fn law_ring_is_branded_once(
    ring: &mut RingEnterState,
    brand: SessionRingBrand,
    result: Result<(), RoleError>,
)
    requires
        call_ensures(RingEnterState::adopt_ring_brand, (ring, brand), result),
    ensures
        ({
            let before = old(ring)@;
            let bare = before.brand is None;
            let own = before.ring_index == brand.ring_index;
            let idle = before.sq_owner is None && before.cq_owner is None;
            &&& result is Ok <==> bare && own && idle
            &&& result is Ok ==> final(ring)@ == (RingModel { brand: Some(brand), ..before })
            &&& result == Err::<(), _>(RoleError::WrongState) <==> !bare
            &&& result == Err::<(), _>(RoleError::WrongRing) <==> bare && !own
            &&& result == Err::<(), _>(RoleError::DeviceBusy) <==> bare && own && !idle
            &&& result is Err ==> final(ring)@ == before
        }),
{
}

/// An announcement raises its count by one and owes a signal for it, and nothing
/// else of the ring moves; only the largest count cannot be raised, and then the
/// ring asks to be ended.
pub proof fn law_announcement_is_counted_and_owed(
    ring: &mut RingEnterState,
    other: &mut RingEnterState,
    result: Result<u64, EnterError>,
    ended: Result<u64, TerminalRequest>,
)
    requires
        call_ensures(RingEnterState::publish_sq, (ring,), result),
        call_ensures(RingEnterState::publish_sq_or_terminalize, (other,), ended),
    ensures
        result is Ok <==> old(ring)@.sq_publish_generation < u64::MAX,
        result matches Ok(generation) ==> generation == old(ring)@.sq_publish_generation + 1
            && final(ring)@ == (RingModel {
            sq_publish_generation: generation,
            signaled_generation: generation,
            ..old(ring)@
        }),
        result is Err ==> result == Err::<u64, _>(EnterError::GenerationExhausted) && final(ring)@
            == old(ring)@,
        ended is Ok <==> old(other)@.sq_publish_generation < u64::MAX,
        ended matches Ok(generation) ==> generation == old(other)@.sq_publish_generation + 1
            && final(other)@ == (RingModel {
            sq_publish_generation: generation,
            signaled_generation: generation,
            ..old(other)@
        }),
        ended is Err ==> ended == Err::<u64, _>(TerminalRequest::SqGenerationExhausted) && final(other)@ == old(other)@,
{
    law_announcement_counts_by_one(old(ring)@);
    law_announcement_counts_by_one(old(other)@);
}

/// After an event is cleared, a wait goes on exactly if nothing was announced since
/// its snapshot and nothing is there. The event is cleared exactly by the waiting
/// role's lease, and only where its snapshot is current and found nothing.
pub proof fn law_cleared_event_is_rechecked(
    ring: &mut RingEnterState,
    later: RingEnterState,
    lease: RoleLease,
    snapshot: ReadinessSnapshot,
    cleared: Result<(), EnterError>,
    sq_ready: bool,
    fenced: bool,
    found: Result<EnterDecision, EnterError>,
)
    requires
        call_ensures(RingEnterState::clear_event_after, (ring, &lease, snapshot), cleared),
        call_ensures(
            RingEnterState::recheck_after_clear,
            (&later, snapshot, sq_ready, fenced),
            found,
        ),
    ensures
        ({
            let before = old(ring)@;
            let own = lease@.role == EnterRole::Sq && lease@.state_id == before.state_id
                && lease@.ring_index == before.ring_index && before.sq_owner == Some(
                lease@.invocation,
            );
            let stale = !snapshot.ready && snapshot.generation == before.sq_publish_generation;
            let idle = !sq_ready && snapshot.generation == later@.sq_publish_generation;
            &&& cleared is Ok <==> own
            &&& final(ring)@ == (RingModel {
                signaled_generation: if own && stale {
                    0
                } else {
                    before.signaled_generation
                },
                ..before
            })
            &&& cleared is Err ==> cleared == Err::<(), _>(EnterError::InvalidIdentity)
            &&& found == Err::<EnterDecision, _>(EnterError::Fenced) <==> fenced
            &&& found == Ok::<_, EnterError>(EnterDecision::Pending) <==> !fenced && idle
            &&& found == Ok::<_, EnterError>(EnterDecision::Ready) <==> !fenced && !idle
        }),
{
    law_lease_is_good_in_one_place(old(ring)@, lease@);
    law_clear_takes_only_a_stale_event(old(ring)@, snapshot);
    law_recheck_finds_what_came_since(later@, snapshot, sq_ready, fenced);
}

/// A wait is marked pending exactly by the waiting role's lease of this ring, and
/// what asks for absent dispatch roles sees past a role whose wait is pending.
pub proof fn law_pending_wait_is_its_roles(
    ring: &mut RingEnterState,
    lease: RoleLease,
    result: Result<(), EnterError>,
    later: RingEnterState,
    none: bool,
    no_submitter: bool,
    drained: bool,
    free: bool,
)
    requires
        call_ensures(RingEnterState::mark_sq_wait_pending, (ring, &lease), result),
        call_ensures(RingEnterState::leftover_dispatch_roles_are_absent, (&later,), none),
        call_ensures(RingEnterState::leftover_sq_dispatch_role_is_absent, (&later,), no_submitter),
        call_ensures(
            RingEnterState::r3_checkpoint_roles_and_consumers_are_drained,
            (&later,),
            drained,
        ),
        call_ensures(RingEnterState::cq_consumer_is_free, (&later,), free),
    ensures
        ({
            let before = old(ring)@;
            let own = lease@.role == EnterRole::Sq && lease@.state_id == before.state_id
                && lease@.ring_index == before.ring_index && before.sq_owner == Some(
                lease@.invocation,
            );
            &&& result is Ok <==> own
            &&& final(ring)@ == (RingModel {
                sq_wait_pending: own || before.sq_wait_pending,
                ..before
            })
            &&& result is Err ==> result == Err::<(), _>(EnterError::InvalidIdentity)
        }),
        no_submitter <==> later@.sq_owner is None || later@.sq_wait_pending,
        none <==> no_submitter && later@.cq_owner is None,
        drained <==> later@.sq_owner is None && later@.cq_owner is None,
        free <==> later@.cq_owner is None,
        drained ==> none,
{
    law_lease_is_good_in_one_place(old(ring)@, lease@);
}

/// What draining an entry comes to, by what was observed of it. Only a stable,
/// ready notification with room and a credit is asked about, and only what the
/// preflight grants returns a credit.
pub proof fn law_drained_entry_is_sorted(
    ring: RingEnterState,
    observation: CqObservation,
    preflight: Result<(), GrantError>,
    plan: DrainPlan,
)
    requires
        call_ensures(RingEnterState::classify_cq, (&ring, observation, preflight), plan),
    ensures
        ({
            let there = observation.sequence_stable && observation.record_ready;
            let notify = there && observation.kind == CQ_KIND_NOTIFY;
            let room = observation.output_bytes_available >= NOTIFICATION_CREDIT_V1_SIZE;
            let asked = notify && room && observation.semantic == CqSemantic::Notify
                && observation.credit is Some;
            let short = asked && preflight == Err::<(), GrantError>(
                GrantError::ReturnBufferTooSmall,
            );
            let spent = asked && preflight == Err::<(), GrantError>(
                GrantError::GenerationExhausted,
            );
            &&& plan == DrainPlan::Contended <==> !observation.sequence_stable
            &&& plan == DrainPlan::Empty <==> observation.sequence_stable
                && !observation.record_ready
            &&& plan == DrainPlan::CompletionFault <==> there && observation.kind
                == CQ_KIND_COMPLETION
            &&& plan == DrainPlan::ProtocolAbort <==> there && observation.kind == CQ_KIND_PROTOCOL
                && observation.semantic == CqSemantic::ProtocolAbort
            &&& plan == DrainPlan::NotifyBlocked <==> (notify && !room) || short
            &&& plan == DrainPlan::GenerationExhausted <==> spent
            &&& plan is Notify <==> asked && preflight is Ok
            &&& plan matches DrainPlan::Notify(granted) ==> granted@.ring_index == ring@.ring_index
                && observation.credit == Some(granted@.token)
        }),
{
    law_drain_plan_is_determined(plan, ring@.ring_index, observation, preflight);
    if plan is Notify {
        law_only_a_notification_returns_a_credit(ring@.ring_index, observation, plan, preflight);
    }
}

/// A ring's state begins free, on the ring and with the brand it is made for, under
/// an identity that no other has had since.
pub proof fn law_ring_begins_free(
    brand: SessionRingBrand,
    ids: &mut EnterStateIds,
    branded: RingEnterState,
    ring_index: u32,
    others: &mut EnterStateIds,
    plain: RingEnterState,
    named: Option<SessionRingBrand>,
)
    requires
        call_ensures(RingEnterState::for_brand, (brand, ids), branded),
        call_ensures(RingEnterState::new, (ring_index, others), plain),
        call_ensures(RingEnterState::brand, (&branded,), named),
    ensures
        named == Some(brand),
        branded@.ring_index == brand.ring_index,
        branded@.state_id == old(ids)@,
        branded@.sq_owner is None && branded@.cq_owner is None && !branded@.sq_wait_pending,
        branded@.sq_publish_generation == 0 && branded@.signaled_generation == 0,
        branded@.next_invocation == Some(1u64),
        final(ids)@ != old(ids)@,
        plain@.brand is None,
        plain@.ring_index == ring_index,
        plain@.state_id == old(others)@,
        plain@.sq_owner is None && plain@.cq_owner is None,
        final(others)@ != old(others)@,
{
    law_fresh_ring_is_free(brand.ring_index, old(ids)@, Some(brand));
    law_fresh_ring_is_free(ring_index, old(others)@, None);
    law_next_identity_is_another(old(ids)@);
    law_next_identity_is_another(old(others)@);
}

/// Identities begin at one and are handed out one after the other.
pub proof fn law_identities_are_handed_out_in_order(
    fresh: EnterStateIds,
    ids: &mut EnterStateIds,
    id: u64,
)
    requires
        call_ensures(EnterStateIds::new, (), fresh),
        call_ensures(EnterStateIds::issue, (ids,), id),
    ensures
        fresh@ == 1,
        id == old(ids)@,
        id < u64::MAX ==> final(ids)@ == id + 1,
        id == u64::MAX ==> final(ids)@ == 0,
{
    law_next_identity_is_another(id);
}

/// A snapshot is of the announcements counted so far, with what was found.
pub proof fn law_snapshot_is_of_the_count(
    ring: RingEnterState,
    ready: bool,
    snapshot: ReadinessSnapshot,
    owed: u64,
)
    requires
        call_ensures(RingEnterState::observe_readiness, (&ring, ready), snapshot),
        call_ensures(RingEnterState::owed_signal_generation, (&ring,), owed),
    ensures
        snapshot.generation == ring@.sq_publish_generation,
        snapshot.ready == ready,
        owed == ring@.signaled_generation,
{
}

/// The credit table's answer decides a notification: a grant is the plan, a short
/// buffer blocks it, a spent generation exhausts it, and any other fault is the
/// protocol's.
pub proof fn law_preflight_decides_a_notification(
    result: Result<NotifyPreflight, GrantError>,
    plan: DrainPlan,
)
    requires
        call_ensures(classify_notify_preflight, (result,), plan),
    ensures
        plan is Notify <==> result is Ok,
        plan matches DrainPlan::Notify(granted) ==> result == Ok::<_, GrantError>(granted),
        plan == DrainPlan::NotifyBlocked <==> result == Err::<NotifyPreflight, _>(
            GrantError::ReturnBufferTooSmall,
        ),
        plan == DrainPlan::GenerationExhausted <==> result == Err::<NotifyPreflight, _>(
            GrantError::GenerationExhausted,
        ),
        plan == DrainPlan::ProtocolFault <==> result is Err && plan != DrainPlan::NotifyBlocked
            && plan != DrainPlan::GenerationExhausted,
{
}

/// What an entry is, before any credit is asked about: only a stable, ready
/// notification with room and a credit is to be asked about, for this ring and that
/// credit.
pub proof fn law_entry_is_asked_about_its_own_credit(
    ring: RingEnterState,
    observation: CqObservation,
    sorted: CqClassification,
)
    requires
        call_ensures(RingEnterState::sort_cq, (&ring, observation), sorted),
    ensures
        ({
            let there = observation.sequence_stable && observation.record_ready;
            let notify = there && observation.kind == CQ_KIND_NOTIFY;
            let room = observation.output_bytes_available >= NOTIFICATION_CREDIT_V1_SIZE;
            &&& sorted is Preflight <==> notify && room && observation.semantic
                == CqSemantic::Notify && observation.credit is Some
            &&& sorted matches CqClassification::Preflight(asked) ==> {
                &&& asked.ring_index == ring@.ring_index
                &&& observation.credit == Some(asked.token)
                &&& asked.output_bytes == observation.output_bytes_available
                &&& asked.generation == asked.token.generation
            }
            &&& sorted == CqClassification::Plan(DrainPlan::Contended)
                <==> !observation.sequence_stable
            &&& sorted == CqClassification::Plan(DrainPlan::Empty) <==> observation.sequence_stable
                && !observation.record_ready
            &&& sorted == CqClassification::Plan(DrainPlan::CompletionFault) <==> there
                && observation.kind == CQ_KIND_COMPLETION
            &&& sorted == CqClassification::Plan(DrainPlan::ProtocolAbort) <==> there
                && observation.kind == CQ_KIND_PROTOCOL && observation.semantic
                == CqSemantic::ProtocolAbort
            &&& sorted == CqClassification::Plan(DrainPlan::NotifyBlocked) <==> notify && !room
        }),
{
    law_entry_is_sorted_by_what_it_is(ring@.ring_index, observation);
}

} // verus!
