//! Branded authorities over a ring's two roles.
//!
//! Each acquisition mints an invocation that the ring never mints again, so an
//! authority names its ring, its role and its one acquisition. Acquiring bundles
//! the authority with a commit tracker; a parked wait can be resumed, and a
//! consumer released, only by the exact authority that holds the role.

use crate::enter::role::{RingEnterState, RingModel};
use crate::enter::terminal::{PendingEnter, PendingEnterModel};
use crate::session::{RoleError, SessionLocator, SessionRingBrand};
use vstd::prelude::*;

verus! {

/// One acquisition on one ring. It is never zero.
#[derive(Clone, Copy, Debug, PartialEq, Eq, PartialOrd, Ord, Structural)]
pub struct EnterInvocationId {
    value: u64,
}

impl EnterInvocationId {
    /// The invocation's number.
    pub closed spec fn number(self) -> u64 {
        self.value
    }

    #[verifier::type_invariant]
    closed spec fn inv(self) -> bool {
        self.value != 0
    }

    /// The invocation's number.
    pub fn get(self) -> (number: u64)
        ensures
            number == self.number(),
            number != 0,
    {
        proof {
            use_type_invariant(self);
        }
        self.value
    }
}

/// Two invocations with one number are one invocation.
pub proof fn law_number_names_the_invocation(one: EnterInvocationId, other: EnterInvocationId)
    requires
        one.number() == other.number(),
    ensures
        one == other,
{
}

/// Which role an execution has.
#[derive(Clone, Copy, Debug, PartialEq, Eq, Structural)]
pub enum EnterExecutionDomain {
    SqWait,
    CqConsumer,
}

/// One execution: a ring, one acquisition on it, and the role acquired.
#[derive(Clone, Copy, Debug, PartialEq, Eq, Structural)]
pub struct EnterExecutionBrand {
    pub ring: SessionRingBrand,
    pub invocation: EnterInvocationId,
    pub domain: EnterExecutionDomain,
}

/// Authority to wait on a ring's submission queue. It cannot be copied.
#[must_use]
#[derive(Debug)]
pub struct SqWaitRoleLease {
    execution: EnterExecutionBrand,
}

/// Authority to consume a ring's completion queue. It cannot be copied.
#[must_use]
#[derive(Debug)]
pub struct CqConsumerToken {
    execution: EnterExecutionBrand,
}

impl View for SqWaitRoleLease {
    type V = EnterExecutionBrand;

    closed spec fn view(&self) -> EnterExecutionBrand {
        self.execution
    }
}

impl View for CqConsumerToken {
    type V = EnterExecutionBrand;

    closed spec fn view(&self) -> EnterExecutionBrand {
        self.execution
    }
}

impl SqWaitRoleLease {
    /// A wait's execution is in the waiting role.
    #[verifier::type_invariant]
    closed spec fn inv(self) -> bool {
        self.execution.domain == EnterExecutionDomain::SqWait
    }

    /// The execution this lease authorises.
    pub fn execution(&self) -> (execution: EnterExecutionBrand)
        ensures
            execution == self@,
            execution.domain == EnterExecutionDomain::SqWait,
    {
        proof {
            use_type_invariant(self);
        }
        self.execution
    }
}

impl CqConsumerToken {
    /// A consumer's execution is in the consuming role.
    #[verifier::type_invariant]
    closed spec fn inv(self) -> bool {
        self.execution.domain == EnterExecutionDomain::CqConsumer
    }

    /// The ring this token consumes.
    pub fn brand(&self) -> (brand: SessionRingBrand)
        ensures
            brand == self@.ring,
    {
        self.execution.ring
    }

    /// The execution this token authorises.
    pub fn execution(&self) -> (execution: EnterExecutionBrand)
        ensures
            execution == self@,
            execution.domain == EnterExecutionDomain::CqConsumer,
    {
        proof {
            use_type_invariant(self);
        }
        self.execution
    }

    /// The stream this token consumes.
    pub fn cq_stream(&self) -> (stream: CqStreamBrand)
        ensures
            stream@ == self@,
    {
        CqStreamBrand { execution: self.execution }
    }
}

/// The name of one consumer's stream of completion entries.
#[derive(Clone, Copy, Debug, PartialEq, Eq, Structural)]
pub struct CqStreamBrand {
    execution: EnterExecutionBrand,
}

impl View for CqStreamBrand {
    type V = EnterExecutionBrand;

    closed spec fn view(&self) -> EnterExecutionBrand {
        self.execution
    }
}

impl CqStreamBrand {
    /// The ring the stream comes from.
    pub fn ring_brand(&self) -> (brand: SessionRingBrand)
        ensures
            brand == self@.ring,
    {
        self.execution.ring
    }

    /// The session the stream comes from.
    pub fn locator(&self) -> (locator: SessionLocator)
        ensures
            locator == self@.ring.locator,
    {
        self.execution.ring.locator
    }

    /// The index of the ring the stream comes from.
    pub fn ring_index(&self) -> (ring_index: u32)
        ensures
            ring_index == self@.ring.ring_index,
    {
        self.execution.ring.ring_index
    }

    /// The execution that consumes the stream.
    pub fn execution(&self) -> (execution: EnterExecutionBrand)
        ensures
            execution == self@,
    {
        self.execution
    }

    /// The execution consumes completions.
    pub fn is_cq_domain(&self) -> (consumes: bool)
        ensures
            consumes <==> self@.domain == EnterExecutionDomain::CqConsumer,
    {
        matches!(self.execution.domain, EnterExecutionDomain::CqConsumer)
    }
}

/// The source of invocations once `invocation` was given out: the largest is
/// given out once, and none after it.
pub open spec fn next_after(invocation: u64) -> Option<u64> {
    if invocation == u64::MAX {
        None
    } else {
        Some((invocation + 1) as u64)
    }
}

/// The owner of the role that a domain names.
pub open spec fn domain_owner(ring: RingModel, domain: EnterExecutionDomain) -> Option<u64> {
    match domain {
        EnterExecutionDomain::SqWait => ring.sq_owner,
        EnterExecutionDomain::CqConsumer => ring.cq_owner,
    }
}

/// The state with another owner of the role that a domain names.
pub open spec fn with_domain_owner(
    ring: RingModel,
    domain: EnterExecutionDomain,
    owner: Option<u64>,
) -> RingModel {
    match domain {
        EnterExecutionDomain::SqWait => RingModel { sq_owner: owner, ..ring },
        EnterExecutionDomain::CqConsumer => RingModel { cq_owner: owner, ..ring },
    }
}

/// Why a role is not given out, if it is not.
pub open spec fn acquire_refusal(ring: RingModel, domain: EnterExecutionDomain) -> Option<
    RoleError,
> {
    if ring.brand is None {
        Some(RoleError::WrongState)
    } else if domain_owner(ring, domain) is Some {
        Some(RoleError::DeviceBusy)
    } else if ring.next_invocation is None {
        Some(RoleError::InvocationIdExhausted)
    } else {
        None
    }
}

/// The state once a role is given out: the next invocation is minted and owns it.
pub open spec fn acquired(ring: RingModel, domain: EnterExecutionDomain) -> RingModel {
    let invocation = ring.next_invocation->0;
    RingModel {
        next_invocation: next_after(invocation),
        ..with_domain_owner(ring, domain, Some(invocation))
    }
}

/// The execution that acquiring a role names.
pub open spec fn acquires(
    ring: RingModel,
    domain: EnterExecutionDomain,
    execution: EnterExecutionBrand,
) -> bool {
    &&& Some(execution.ring) == ring.brand
    &&& Some(execution.invocation.number()) == ring.next_invocation
    &&& execution.domain == domain
}

/// Why an authority is not taken back, if it is not.
pub open spec fn release_refusal(ring: RingModel, execution: EnterExecutionBrand) -> Option<
    RoleError,
> {
    if ring.brand is None {
        Some(RoleError::WrongState)
    } else if Some(execution.ring) != ring.brand {
        Some(RoleError::WrongRing)
    } else if domain_owner(ring, execution.domain) != Some(execution.invocation.number()) {
        Some(RoleError::WrongInvocation)
    } else {
        None
    }
}

impl RingEnterState {
    fn mint_invocation(&mut self) -> (result: Result<EnterInvocationId, RoleError>)
        ensures
            match result {
                Ok(invocation) => {
                    &&& old(self)@.next_invocation == Some(invocation.number())
                    &&& final(self)@ == (RingModel {
                        next_invocation: next_after(invocation.number()),
                        ..old(self)@
                    })
                },
                Err(error) => {
                    &&& error == RoleError::InvocationIdExhausted
                    &&& old(self)@.next_invocation is None
                    &&& *final(self) == *old(self)
                },
            },
    {
        proof {
            use_type_invariant(&*self);
        }
        match self.next_invocation {
            None => Err(RoleError::InvocationIdExhausted),
            Some(current) => {
                self.next_invocation = current.checked_add(1);
                Ok(EnterInvocationId { value: current })
            },
        }
    }

    /// Acquire this ring's waiting role. A refusal mints no invocation.
    pub fn acquire_sq_wait(&mut self) -> (result: Result<SqWaitRoleLease, RoleError>)
        ensures
            match result {
                Ok(lease) => {
                    &&& acquire_refusal(old(self)@, EnterExecutionDomain::SqWait) is None
                    &&& acquires(old(self)@, EnterExecutionDomain::SqWait, lease@)
                    &&& final(self)@ == acquired(old(self)@, EnterExecutionDomain::SqWait)
                },
                Err(error) => acquire_refusal(old(self)@, EnterExecutionDomain::SqWait) == Some(
                    error,
                ) && *final(self) == *old(self),
            },
    {
        let ring = match self.brand {
            Some(ring) => ring,
            None => {
                return Err(RoleError::WrongState);
            },
        };
        if self.sq_owner.is_some() {
            return Err(RoleError::DeviceBusy);
        }
        let invocation = match self.mint_invocation() {
            Ok(invocation) => invocation,
            Err(error) => {
                return Err(error);
            },
        };
        proof {
            use_type_invariant(&*self);
        }
        self.sq_owner = Some(invocation.get());
        Ok(
            SqWaitRoleLease {
                execution: EnterExecutionBrand {
                    ring,
                    invocation,
                    domain: EnterExecutionDomain::SqWait,
                },
            },
        )
    }

    /// Acquire this ring's consuming role. A refusal mints no invocation.
    pub fn acquire_cq_consumer(&mut self) -> (result: Result<CqConsumerToken, RoleError>)
        ensures
            match result {
                Ok(token) => {
                    &&& acquire_refusal(old(self)@, EnterExecutionDomain::CqConsumer) is None
                    &&& acquires(old(self)@, EnterExecutionDomain::CqConsumer, token@)
                    &&& final(self)@ == acquired(old(self)@, EnterExecutionDomain::CqConsumer)
                },
                Err(error) => acquire_refusal(old(self)@, EnterExecutionDomain::CqConsumer) == Some(
                    error,
                ) && *final(self) == *old(self),
            },
    {
        let ring = match self.brand {
            Some(ring) => ring,
            None => {
                return Err(RoleError::WrongState);
            },
        };
        if self.cq_owner.is_some() {
            return Err(RoleError::DeviceBusy);
        }
        let invocation = match self.mint_invocation() {
            Ok(invocation) => invocation,
            Err(error) => {
                return Err(error);
            },
        };
        proof {
            use_type_invariant(&*self);
        }
        self.cq_owner = Some(invocation.get());
        Ok(
            CqConsumerToken {
                execution: EnterExecutionBrand {
                    ring,
                    invocation,
                    domain: EnterExecutionDomain::CqConsumer,
                },
            },
        )
    }

    /// Take a wait's lease back. A refusal returns it.
    pub fn release_sq_wait(&mut self, lease: SqWaitRoleLease) -> (result: Result<
        (),
        (RoleError, SqWaitRoleLease),
    >)
        ensures
            match result {
                Ok(()) => {
                    &&& release_refusal(old(self)@, lease@) is None
                    &&& final(self)@ == (RingModel { sq_owner: None, ..old(self)@ })
                },
                Err((error, returned)) => {
                    &&& release_refusal(old(self)@, lease@) == Some(error)
                    &&& returned == lease
                    &&& *final(self) == *old(self)
                },
            },
    {
        proof {
            use_type_invariant(&*self);
            use_type_invariant(&lease);
        }
        match self.check_release(lease.execution, EnterExecutionDomain::SqWait) {
            Ok(()) => {
                self.sq_owner = None;
                Ok(())
            },
            Err(error) => Err((error, lease)),
        }
    }

    /// Take a consumer's token back. A refusal returns it.
    pub fn release_cq_consumer(&mut self, token: CqConsumerToken) -> (result: Result<
        (),
        (RoleError, CqConsumerToken),
    >)
        ensures
            match result {
                Ok(()) => {
                    &&& release_refusal(old(self)@, token@) is None
                    &&& final(self)@ == (RingModel { cq_owner: None, ..old(self)@ })
                },
                Err((error, returned)) => {
                    &&& release_refusal(old(self)@, token@) == Some(error)
                    &&& returned == token
                    &&& *final(self) == *old(self)
                },
            },
    {
        proof {
            use_type_invariant(&*self);
            use_type_invariant(&token);
        }
        match self.check_release(token.execution, EnterExecutionDomain::CqConsumer) {
            Ok(()) => {
                self.cq_owner = None;
                Ok(())
            },
            Err(error) => Err((error, token)),
        }
    }

    /// The whole-brand check that both releases share.
    fn check_release(
        &self,
        execution: EnterExecutionBrand,
        expected: EnterExecutionDomain,
    ) -> (result: Result<(), RoleError>)
        ensures
            match result {
                Ok(()) => execution.domain == expected && release_refusal(self@, execution) is None,
                Err(error) => if self@.brand is Some && execution.domain != expected {
                    error == RoleError::WrongState
                } else {
                    release_refusal(self@, execution) == Some(error)
                },
            },
    {
        let ring = match self.brand {
            Some(ring) => ring,
            None => {
                return Err(RoleError::WrongState);
            },
        };
        if execution.domain != expected {
            return Err(RoleError::WrongState);
        }
        if execution.ring != ring {
            return Err(RoleError::WrongRing);
        }
        let owner: Option<u64> = match expected {
            EnterExecutionDomain::SqWait => self.sq_owner,
            EnterExecutionDomain::CqConsumer => self.cq_owner,
        };
        if owner != Some(execution.invocation.get()) {
            return Err(RoleError::WrongInvocation);
        }
        Ok(())
    }
}

/// Whether one execution has committed its result.
#[must_use]
#[derive(Debug)]
pub struct EnterCommitTracker {
    execution: EnterExecutionBrand,
    committed: bool,
}

/// What a tracker holds.
pub struct TrackerModel {
    pub execution: EnterExecutionBrand,
    pub committed: bool,
}

impl View for EnterCommitTracker {
    type V = TrackerModel;

    closed spec fn view(&self) -> TrackerModel {
        TrackerModel { execution: self.execution, committed: self.committed }
    }
}

impl EnterCommitTracker {
    /// The execution that is tracked.
    pub fn execution(&self) -> (execution: EnterExecutionBrand)
        ensures
            execution == self@.execution,
    {
        self.execution
    }

    /// The execution has committed.
    pub fn committed(&self) -> (committed: bool)
        ensures
            committed == self@.committed,
    {
        self.committed
    }

    /// Record the commit. It is never taken back.
    pub fn record_commit(&mut self)
        ensures
            final(self)@ == (TrackerModel { committed: true, ..old(self)@ }),
    {
        self.committed = true;
    }
}

/// An acquired wait with its tracker and its end.
#[must_use]
#[derive(Debug)]
pub struct AcquiredSqWait {
    lease: SqWaitRoleLease,
    tracker: EnterCommitTracker,
    terminal: PendingEnter,
}

/// An acquired consumer with its tracker.
#[must_use]
#[derive(Debug)]
pub struct AcquiredCqConsumer {
    token: CqConsumerToken,
    tracker: EnterCommitTracker,
}

impl View for AcquiredSqWait {
    type V = EnterExecutionBrand;

    closed spec fn view(&self) -> EnterExecutionBrand {
        self.lease@
    }
}

impl View for AcquiredCqConsumer {
    type V = EnterExecutionBrand;

    closed spec fn view(&self) -> EnterExecutionBrand {
        self.token@
    }
}

impl AcquiredSqWait {
    /// The three parts belong to one execution; nothing has happened to it yet.
    #[verifier::type_invariant]
    closed spec fn inv(self) -> bool {
        &&& self.tracker@ == (TrackerModel { execution: self.lease@, committed: false })
        &&& self.terminal@ == (PendingEnterModel {
            invocation: self.lease@.invocation.number(),
            winner: None,
        })
    }

    /// The acquired execution.
    pub fn execution(&self) -> (execution: EnterExecutionBrand)
        ensures
            execution == self@,
    {
        self.lease.execution()
    }

    /// The parts a parked request is planned with.
    pub fn into_plan_parts(self) -> (parts: (SqWaitRoleLease, EnterCommitTracker, PendingEnter))
        ensures
            parts.0@ == self@,
            parts.1@ == (TrackerModel { execution: self@, committed: false }),
            parts.2@ == (PendingEnterModel {
                invocation: self@.invocation.number(),
                winner: None,
            }),
    {
        proof {
            use_type_invariant(&self);
        }
        (self.lease, self.tracker, self.terminal)
    }
}

impl AcquiredCqConsumer {
    /// The two parts belong to one execution; nothing has happened to it yet.
    #[verifier::type_invariant]
    closed spec fn inv(self) -> bool {
        self.tracker@ == (TrackerModel { execution: self.token@, committed: false })
    }

    /// The acquired execution.
    pub fn execution(&self) -> (execution: EnterExecutionBrand)
        ensures
            execution == self@,
    {
        self.token.execution()
    }

    /// The parts a drain is planned with.
    pub fn into_plan_parts(self) -> (parts: (CqConsumerToken, EnterCommitTracker))
        ensures
            parts.0@ == self@,
            parts.1@ == (TrackerModel { execution: self@, committed: false }),
    {
        proof {
            use_type_invariant(&self);
        }
        (self.token, self.tracker)
    }
}

/// A parked wait that may be resumed.
#[must_use]
#[derive(Debug)]
pub struct SqWaitResume<'lease> {
    lease: &'lease SqWaitRoleLease,
}

impl<'lease> View for SqWaitResume<'lease> {
    type V = EnterExecutionBrand;

    closed spec fn view(&self) -> EnterExecutionBrand {
        self.lease@
    }
}

impl<'lease> SqWaitResume<'lease> {
    /// The parked execution.
    pub fn execution(&self) -> (execution: EnterExecutionBrand)
        ensures
            execution == self@,
    {
        self.lease.execution()
    }

    /// Resume as the consumer of the same ring's completions, under the parked
    /// wait's own invocation.
    pub fn bind_cq_consumer(self) -> (resume: AuthenticatedCqResume)
        ensures
            resume@ == (EnterExecutionBrand { domain: EnterExecutionDomain::CqConsumer, ..self@ }),
    {
        let parked = self.lease.execution();
        AuthenticatedCqResume {
            execution: EnterExecutionBrand {
                ring: parked.ring,
                invocation: parked.invocation,
                domain: EnterExecutionDomain::CqConsumer,
            },
        }
    }
}

/// A resumed wait's authority to consume completions.
#[must_use]
#[derive(Debug)]
pub struct AuthenticatedCqResume {
    execution: EnterExecutionBrand,
}

impl View for AuthenticatedCqResume {
    type V = EnterExecutionBrand;

    closed spec fn view(&self) -> EnterExecutionBrand {
        self.execution
    }
}

impl AuthenticatedCqResume {
    /// The resumed execution.
    pub fn execution(&self) -> (execution: EnterExecutionBrand)
        ensures
            execution == self@,
    {
        self.execution
    }

    /// The ring it resumes on.
    pub fn ring(&self) -> (ring: SessionRingBrand)
        ensures
            ring == self@.ring,
    {
        self.execution.ring
    }
}

/// A consumer release that was found valid.
#[must_use]
#[derive(Debug)]
pub struct PreparedCqReleasePreflight {
    brand: SessionRingBrand,
    invocation: EnterInvocationId,
}

/// The proof that a consumer was released.
#[must_use]
#[derive(Debug)]
pub struct ProtocolConsumerReleased {
    brand: SessionRingBrand,
    invocation: EnterInvocationId,
}

/// Which acquisition a release is about.
pub struct ReleaseModel {
    pub brand: SessionRingBrand,
    pub invocation: EnterInvocationId,
}

impl View for PreparedCqReleasePreflight {
    type V = ReleaseModel;

    closed spec fn view(&self) -> ReleaseModel {
        ReleaseModel { brand: self.brand, invocation: self.invocation }
    }
}

impl View for ProtocolConsumerReleased {
    type V = ReleaseModel;

    closed spec fn view(&self) -> ReleaseModel {
        ReleaseModel { brand: self.brand, invocation: self.invocation }
    }
}

impl PreparedCqReleasePreflight {
    /// The ring whose consumer is to be released.
    pub fn brand(&self) -> (brand: SessionRingBrand)
        ensures
            brand == self@.brand,
    {
        self.brand
    }

    /// The acquisition to be released.
    pub fn invocation(&self) -> (invocation: EnterInvocationId)
        ensures
            invocation == self@.invocation,
    {
        self.invocation
    }
}

impl ProtocolConsumerReleased {
    /// The ring whose consumer was released.
    pub fn brand(&self) -> (brand: SessionRingBrand)
        ensures
            brand == self@.brand,
    {
        self.brand
    }

    /// The acquisition that was released.
    pub fn invocation(&self) -> (invocation: EnterInvocationId)
        ensures
            invocation == self@.invocation,
    {
        self.invocation
    }
}

impl RingEnterState {
    /// Acquire the waiting role together with its tracker and its end.
    pub fn acquire_sq_wait_aggregate(&mut self) -> (result: Result<AcquiredSqWait, RoleError>)
        ensures
            match result {
                Ok(wait) => {
                    &&& acquire_refusal(old(self)@, EnterExecutionDomain::SqWait) is None
                    &&& acquires(old(self)@, EnterExecutionDomain::SqWait, wait@)
                    &&& final(self)@ == acquired(old(self)@, EnterExecutionDomain::SqWait)
                },
                Err(error) => acquire_refusal(old(self)@, EnterExecutionDomain::SqWait) == Some(
                    error,
                ) && *final(self) == *old(self),
            },
    {
        match self.acquire_sq_wait() {
            Ok(lease) => {
                let execution = lease.execution();
                Ok(
                    AcquiredSqWait {
                        terminal: PendingEnter::new(execution.invocation.get()),
                        tracker: EnterCommitTracker { execution, committed: false },
                        lease,
                    },
                )
            },
            Err(error) => Err(error),
        }
    }

    /// Acquire the consuming role together with its tracker.
    pub fn acquire_cq_consumer_aggregate(&mut self) -> (result: Result<
        AcquiredCqConsumer,
        RoleError,
    >)
        ensures
            match result {
                Ok(consumer) => {
                    &&& acquire_refusal(old(self)@, EnterExecutionDomain::CqConsumer) is None
                    &&& acquires(old(self)@, EnterExecutionDomain::CqConsumer, consumer@)
                    &&& final(self)@ == acquired(old(self)@, EnterExecutionDomain::CqConsumer)
                },
                Err(error) => acquire_refusal(old(self)@, EnterExecutionDomain::CqConsumer) == Some(
                    error,
                ) && *final(self) == *old(self),
            },
    {
        match self.acquire_cq_consumer() {
            Ok(token) => {
                let execution = token.execution();
                Ok(
                    AcquiredCqConsumer {
                        tracker: EnterCommitTracker { execution, committed: false },
                        token,
                    },
                )
            },
            Err(error) => Err(error),
        }
    }

    /// Authorise the wait that `lease` holds to resume.
    pub fn authorize_resume<'lease>(&self, lease: &'lease SqWaitRoleLease) -> (result: Result<
        SqWaitResume<'lease>,
        RoleError,
    >)
        ensures
            match result {
                Ok(resume) => release_refusal(self@, lease@) is None && resume@ == lease@,
                Err(error) => release_refusal(self@, lease@) == Some(error),
            },
    {
        let ring = match self.brand {
            Some(ring) => ring,
            None => {
                return Err(RoleError::WrongState);
            },
        };
        let execution = lease.execution();
        if execution.ring != ring {
            return Err(RoleError::WrongRing);
        }
        if self.sq_owner != Some(execution.invocation.get()) {
            return Err(RoleError::WrongInvocation);
        }
        Ok(SqWaitResume { lease })
    }

    /// Find out whether a consumer's release is valid, without releasing it.
    pub fn prepare_cq_release(&self, token: &CqConsumerToken) -> (result: Result<
        PreparedCqReleasePreflight,
        RoleError,
    >)
        ensures
            match result {
                Ok(preflight) => {
                    &&& release_refusal(self@, token@) is None
                    &&& preflight@ == (ReleaseModel {
                        brand: token@.ring,
                        invocation: token@.invocation,
                    })
                },
                Err(error) => release_refusal(self@, token@) == Some(error),
            },
    {
        let ring = match self.brand {
            Some(ring) => ring,
            None => {
                return Err(RoleError::WrongState);
            },
        };
        let execution = token.execution();
        if execution.ring != ring {
            return Err(RoleError::WrongRing);
        }
        if self.cq_owner != Some(execution.invocation.get()) {
            return Err(RoleError::WrongInvocation);
        }
        Ok(PreparedCqReleasePreflight { brand: ring, invocation: execution.invocation })
    }

    /// Release the consumer that a preflight was made for. A refusal returns
    /// both.
    pub fn commit_cq_release(
        &mut self,
        preflight: PreparedCqReleasePreflight,
        token: CqConsumerToken,
    ) -> (result: Result<
        ProtocolConsumerReleased,
        (RoleError, PreparedCqReleasePreflight, CqConsumerToken),
    >)
        ensures
            ({
                let named = ReleaseModel { brand: token@.ring, invocation: token@.invocation };
                match result {
                    Ok(proof_of_release) => {
                        &&& preflight@ == named
                        &&& release_refusal(old(self)@, token@) is None
                        &&& proof_of_release@ == named
                        &&& final(self)@ == (RingModel { cq_owner: None, ..old(self)@ })
                    },
                    Err((error, held, returned)) => {
                        &&& if preflight@ != named {
                            error == RoleError::WrongInvocation
                        } else {
                            release_refusal(old(self)@, token@) == Some(error)
                        }
                        &&& held == preflight && returned == token
                        &&& *final(self) == *old(self)
                    },
                }
            }),
    {
        let execution = token.execution();
        if execution.invocation != preflight.invocation || execution.ring != preflight.brand {
            return Err((RoleError::WrongInvocation, preflight, token));
        }
        match self.release_cq_consumer(token) {
            Ok(()) => Ok(
                ProtocolConsumerReleased {
                    brand: preflight.brand,
                    invocation: preflight.invocation,
                },
            ),
            Err((error, token)) => Err((error, preflight, token)),
        }
    }
}

/// No invocation is given out twice: after an acquisition the next invocation is
/// larger, and after the largest there is none.
pub proof fn law_invocations_increase(ring: RingModel, domain: EnterExecutionDomain)
    requires
        acquire_refusal(ring, domain) is None,
    ensures
        match acquired(ring, domain).next_invocation {
            Some(next) => next > ring.next_invocation->0,
            None => ring.next_invocation == Some(u64::MAX),
        },
{
}

/// An exhausted ring stays exhausted: nothing but an acquisition changes the
/// source, and an acquisition is refused.
pub proof fn law_exhaustion_latches(ring: RingModel, domain: EnterExecutionDomain)
    requires
        ring.next_invocation is None,
    ensures
        acquire_refusal(ring, domain) is Some,
{
}

/// The authority just acquired is the one that is taken back, its role is then
/// free, and the other role is untouched throughout.
pub proof fn law_acquired_authority_is_released(
    ring: RingModel,
    domain: EnterExecutionDomain,
    execution: EnterExecutionBrand,
)
    requires
        acquire_refusal(ring, domain) is None,
        acquires(ring, domain, execution),
    ensures
        ({
            let taken = acquired(ring, domain);
            &&& release_refusal(taken, execution) is None
            &&& with_domain_owner(taken, domain, None) == (RingModel {
                next_invocation: taken.next_invocation,
                ..ring
            })
        }),
{
}

/// An authority that was released is never valid again: its role has no owner at
/// first, and the invocation that owns it later is another.
pub proof fn law_stale_authority_is_refused(
    ring: RingModel,
    domain: EnterExecutionDomain,
    stale: EnterExecutionBrand,
)
    requires
        acquire_refusal(ring, domain) is None,
        stale.domain == domain,
        stale.invocation.number() < ring.next_invocation->0,
    ensures
        release_refusal(ring, stale) is Some,
        release_refusal(acquired(ring, domain), stale) is Some,
{
}

/// Invocations are numbered one by one, and only the largest number has no next.
pub proof fn law_invocations_follow_by_one(invocation: u64)
    ensures
        next_after(invocation) is None <==> invocation == 0xFFFF_FFFF_FFFF_FFFF,
        next_after(invocation) matches Some(next) ==> next - invocation == 1,
{
}

/// The wait and the consumption of one ring are owned apart: the wait's owner is
/// the submission queue's and the consumer's the completion queue's, and naming
/// the owner of one leaves everything else of the ring as it was.
pub proof fn law_domains_are_owned_apart(ring: RingModel, owner: Option<u64>)
    ensures
        domain_owner(ring, EnterExecutionDomain::SqWait) == ring.sq_owner,
        domain_owner(ring, EnterExecutionDomain::CqConsumer) == ring.cq_owner,
        with_domain_owner(ring, EnterExecutionDomain::SqWait, owner) == (RingModel {
            sq_owner: owner,
            ..ring
        }),
        with_domain_owner(ring, EnterExecutionDomain::CqConsumer, owner) == (RingModel {
            cq_owner: owner,
            ..ring
        }),
{
}

/// An authority is acquired exactly on a branded ring whose domain nobody owns,
/// while a number is left. An unbranded ring is reported first, then a domain that
/// is owned, then the want of a number.
pub proof fn law_authority_is_acquired_exactly(ring: RingModel, domain: EnterExecutionDomain)
    ensures
        ({
            let refusal = acquire_refusal(ring, domain);
            let taken = if domain == EnterExecutionDomain::SqWait {
                ring.sq_owner is Some
            } else {
                ring.cq_owner is Some
            };
            &&& refusal is None <==> ring.brand is Some && !taken && ring.next_invocation is Some
            &&& refusal == Some(RoleError::WrongState) <==> ring.brand is None
            &&& refusal == Some(RoleError::DeviceBusy) <==> ring.brand is Some && taken
            &&& refusal == Some(RoleError::InvocationIdExhausted) <==> ring.brand is Some && !taken
                && ring.next_invocation is None
        }),
{
}

/// Acquiring spends one number on the owner of the one domain. Neither the other
/// domain's owner nor anything else of the ring moves.
pub proof fn law_acquiring_spends_one_number(ring: RingModel, domain: EnterExecutionDomain)
    requires
        acquire_refusal(ring, domain) is None,
    ensures
        ({
            let after = acquired(ring, domain);
            let number = ring.next_invocation->0;
            &&& domain == EnterExecutionDomain::SqWait ==> after.sq_owner == Some(number)
                && after.cq_owner == ring.cq_owner
            &&& domain == EnterExecutionDomain::CqConsumer ==> after.cq_owner == Some(number)
                && after.sq_owner == ring.sq_owner
            &&& after == (RingModel {
                sq_owner: after.sq_owner,
                cq_owner: after.cq_owner,
                next_invocation: after.next_invocation,
                ..ring
            })
            &&& number < u64::MAX ==> after.next_invocation == Some((number + 1) as u64)
            &&& number == u64::MAX ==> after.next_invocation is None
        }),
{
}

/// An authority is given back exactly on the ring it was acquired on, by the
/// invocation that owns its domain. An unbranded ring is reported first, then
/// another ring, then another invocation.
pub proof fn law_authority_is_given_back_exactly(ring: RingModel, execution: EnterExecutionBrand)
    ensures
        ({
            let refusal = release_refusal(ring, execution);
            let owner = if execution.domain == EnterExecutionDomain::SqWait {
                ring.sq_owner
            } else {
                ring.cq_owner
            };
            let own = owner == Some(execution.invocation.number());
            &&& refusal is None <==> ring.brand == Some(execution.ring) && own
            &&& refusal == Some(RoleError::WrongState) <==> ring.brand is None
            &&& refusal == Some(RoleError::WrongRing) <==> ring.brand is Some && ring.brand != Some(
                execution.ring,
            )
            &&& refusal == Some(RoleError::WrongInvocation) <==> ring.brand == Some(execution.ring)
                && !own
        }),
{
}

/// One acquisition makes one execution: two that the same ring acquires for the
/// same domain are the same, and for different domains they are not.
pub proof fn law_acquired_execution_is_one(
    ring: RingModel,
    domain: EnterExecutionDomain,
    other: EnterExecutionDomain,
    first: EnterExecutionBrand,
    second: EnterExecutionBrand,
)
    requires
        acquires(ring, domain, first),
        acquires(ring, other, second),
    ensures
        first == second <==> domain == other,
        first.domain == domain,
        ring.brand == Some(first.ring),
        ring.next_invocation == Some(first.invocation.number()),
{
    law_number_names_the_invocation(first.invocation, second.invocation);
}

/// A wait's authority and a consumer's are acquired alike, each on its own queue:
/// exactly on a branded ring whose queue nobody owns, while a number is left. The
/// number spent names the owner, and the other queue's owner stays.
pub proof fn law_authorities_are_acquired_on_their_own_queue(
    ring: &mut RingEnterState,
    other: &mut RingEnterState,
    wait: Result<SqWaitRoleLease, RoleError>,
    consumer: Result<CqConsumerToken, RoleError>,
)
    requires
        call_ensures(RingEnterState::acquire_sq_wait, (ring,), wait),
        call_ensures(RingEnterState::acquire_cq_consumer, (other,), consumer),
    ensures
        ({
            let before = old(ring)@;
            let after = final(ring)@;
            &&& wait is Ok <==> before.brand is Some && before.sq_owner is None
                && before.next_invocation is Some
            &&& wait == Err::<SqWaitRoleLease, _>(RoleError::WrongState) <==> before.brand is None
            &&& wait == Err::<SqWaitRoleLease, _>(RoleError::DeviceBusy) <==> before.brand is Some
                && before.sq_owner is Some
            &&& wait is Err ==> after == before
            &&& wait matches Ok(lease) ==> {
                &&& before.brand == Some(lease@.ring)
                &&& before.next_invocation == Some(lease@.invocation.number())
                &&& lease@.domain == EnterExecutionDomain::SqWait
                &&& after.sq_owner == before.next_invocation
                &&& after.next_invocation == next_after(lease@.invocation.number())
                &&& after == (RingModel {
                    sq_owner: after.sq_owner,
                    next_invocation: after.next_invocation,
                    ..before
                })
            }
        }),
        ({
            let before = old(other)@;
            let after = final(other)@;
            &&& consumer is Ok <==> before.brand is Some && before.cq_owner is None
                && before.next_invocation is Some
            &&& consumer == Err::<CqConsumerToken, _>(RoleError::WrongState) <==> before.brand
                is None
            &&& consumer == Err::<CqConsumerToken, _>(RoleError::DeviceBusy) <==> before.brand
                is Some && before.cq_owner is Some
            &&& consumer is Err ==> after == before
            &&& consumer matches Ok(token) ==> {
                &&& before.brand == Some(token@.ring)
                &&& before.next_invocation == Some(token@.invocation.number())
                &&& token@.domain == EnterExecutionDomain::CqConsumer
                &&& after.cq_owner == before.next_invocation
                &&& after.next_invocation == next_after(token@.invocation.number())
                &&& after == (RingModel {
                    cq_owner: after.cq_owner,
                    next_invocation: after.next_invocation,
                    ..before
                })
            }
        }),
{
}

/// A wait that is acquired whole comes with an uncommitted tracker and an unclaimed
/// end of its own invocation, and a consumer with an uncommitted tracker.
pub proof fn law_acquired_whole_is_of_one_execution(
    ring: &mut RingEnterState,
    other: &mut RingEnterState,
    wait: Result<AcquiredSqWait, RoleError>,
    consumer: Result<AcquiredCqConsumer, RoleError>,
    parts: (SqWaitRoleLease, EnterCommitTracker, PendingEnter),
    pair: (CqConsumerToken, EnterCommitTracker),
)
    requires
        call_ensures(RingEnterState::acquire_sq_wait_aggregate, (ring,), wait),
        call_ensures(RingEnterState::acquire_cq_consumer_aggregate, (other,), consumer),
        wait is Ok ==> call_ensures(AcquiredSqWait::into_plan_parts, (wait->Ok_0,), parts),
        consumer is Ok ==> call_ensures(
            AcquiredCqConsumer::into_plan_parts,
            (consumer->Ok_0,),
            pair,
        ),
    ensures
        wait is Ok <==> old(ring)@.brand is Some && old(ring)@.sq_owner is None && old(ring)@.next_invocation is Some,
        wait is Err ==> final(ring)@ == old(ring)@,
        wait is Ok ==> {
            &&& old(ring)@.next_invocation == Some(parts.0@.invocation.number())
            &&& final(ring)@.sq_owner == old(ring)@.next_invocation
            &&& final(ring)@.cq_owner == old(ring)@.cq_owner
            &&& parts.0@.domain == EnterExecutionDomain::SqWait
            &&& parts.1@.execution == parts.0@
            &&& !parts.1@.committed
            &&& parts.2@.invocation == parts.0@.invocation.number()
            &&& parts.2@.winner is None
        },
        consumer is Ok <==> old(other)@.brand is Some && old(other)@.cq_owner is None && old(other)@.next_invocation is Some,
        consumer is Err ==> final(other)@ == old(other)@,
        consumer is Ok ==> {
            &&& old(other)@.next_invocation == Some(pair.0@.invocation.number())
            &&& final(other)@.cq_owner == old(other)@.next_invocation
            &&& final(other)@.sq_owner == old(other)@.sq_owner
            &&& pair.0@.domain == EnterExecutionDomain::CqConsumer
            &&& pair.1@.execution == pair.0@
            &&& !pair.1@.committed
        },
{
}

/// An authority is given back exactly to the ring and by the invocation that hold
/// it, and frees its own queue alone. What is refused comes back.
pub proof fn law_authorities_free_their_own_queue(
    ring: &mut RingEnterState,
    other: &mut RingEnterState,
    lease: SqWaitRoleLease,
    token: CqConsumerToken,
    waited: Result<(), (RoleError, SqWaitRoleLease)>,
    consumed: Result<(), (RoleError, CqConsumerToken)>,
)
    requires
        call_ensures(RingEnterState::release_sq_wait, (ring, lease), waited),
        call_ensures(RingEnterState::release_cq_consumer, (other, token), consumed),
        lease@.domain == EnterExecutionDomain::SqWait,
        token@.domain == EnterExecutionDomain::CqConsumer,
    ensures
        waited is Ok <==> old(ring)@.brand == Some(lease@.ring) && old(ring)@.sq_owner == Some(
            lease@.invocation.number(),
        ),
        waited is Ok ==> final(ring)@ == (RingModel { sq_owner: None, ..old(ring)@ }),
        waited matches Err((_, returned)) ==> returned == lease && final(ring)@ == old(ring)@,
        consumed is Ok <==> old(other)@.brand == Some(token@.ring) && old(other)@.cq_owner == Some(
            token@.invocation.number(),
        ),
        consumed is Ok ==> final(other)@ == (RingModel { cq_owner: None, ..old(other)@ }),
        consumed matches Err((_, returned)) ==> returned == token && final(other)@ == old(other)@,
{
    law_authority_is_given_back_exactly(old(ring)@, lease@);
    law_authority_is_given_back_exactly(old(other)@, token@);
}

/// A consumer is let go in two steps that name the same consumer: what is prepared
/// is of the owner, and what is committed is what was prepared. A preflight of
/// another consumer is refused before anything else, and changes nothing.
pub proof fn law_consumer_is_let_go_as_prepared(
    ring: RingEnterState,
    later: &mut RingEnterState,
    token: CqConsumerToken,
    prepared: Result<PreparedCqReleasePreflight, RoleError>,
    preflight: PreparedCqReleasePreflight,
    result: Result<
        ProtocolConsumerReleased,
        (RoleError, PreparedCqReleasePreflight, CqConsumerToken),
    >,
)
    requires
        call_ensures(RingEnterState::prepare_cq_release, (&ring, &token), prepared),
        call_ensures(RingEnterState::commit_cq_release, (later, preflight, token), result),
        token@.domain == EnterExecutionDomain::CqConsumer,
    ensures
        prepared is Ok <==> ring@.brand == Some(token@.ring) && ring@.cq_owner == Some(
            token@.invocation.number(),
        ),
        prepared matches Ok(named) ==> named@.brand == token@.ring && named@.invocation
            == token@.invocation,
        ({
            let named = preflight@.brand == token@.ring && preflight@.invocation
                == token@.invocation;
            let own = old(later)@.brand == Some(token@.ring) && old(later)@.cq_owner == Some(
                token@.invocation.number(),
            );
            &&& result is Ok <==> named && own
            &&& result matches Ok(released) ==> released@.brand == token@.ring
                && released@.invocation == token@.invocation && final(later)@ == (RingModel {
                cq_owner: None,
                ..old(later)@
            })
            &&& !named ==> (result matches Err((error, _, _)) && error
                == RoleError::WrongInvocation)
            &&& result matches Err((_, held, returned)) ==> held == preflight && returned == token
                && final(later)@ == old(later)@
        }),
{
    law_authority_is_given_back_exactly(ring@, token@);
    law_authority_is_given_back_exactly(old(later)@, token@);
}

/// A wait resumes exactly while its lease holds, as itself, and what it resumes as
/// a consumer is the same invocation on the same ring.
pub proof fn law_wait_resumes_as_itself<'lease>(
    ring: RingEnterState,
    lease: &'lease SqWaitRoleLease,
    result: Result<SqWaitResume<'lease>, RoleError>,
    consumer: AuthenticatedCqResume,
)
    requires
        call_ensures(RingEnterState::authorize_resume, (&ring, lease), result),
        result is Ok ==> call_ensures(
            SqWaitResume::bind_cq_consumer,
            (result->Ok_0,),
            consumer,
        ),
        lease@.domain == EnterExecutionDomain::SqWait,
    ensures
        result is Ok <==> ring@.brand == Some(lease@.ring) && ring@.sq_owner == Some(
            lease@.invocation.number(),
        ),
        result matches Ok(resume) ==> resume@ == lease@ && consumer@.ring == lease@.ring
            && consumer@.invocation == lease@.invocation && consumer@.domain
            == EnterExecutionDomain::CqConsumer,
{
    law_authority_is_given_back_exactly(ring@, lease@);
}

/// What an authority is asked names its own execution, ring and session, and its
/// stream is its own.
pub proof fn law_authorities_name_their_execution(
    lease: SqWaitRoleLease,
    waiting: EnterExecutionBrand,
    token: CqConsumerToken,
    consuming: EnterExecutionBrand,
    ring: SessionRingBrand,
    stream: CqStreamBrand,
    streamed: SessionRingBrand,
    index: u32,
    locator: SessionLocator,
    consumes: bool,
)
    requires
        call_ensures(SqWaitRoleLease::execution, (&lease,), waiting),
        call_ensures(CqConsumerToken::execution, (&token,), consuming),
        call_ensures(CqConsumerToken::brand, (&token,), ring),
        call_ensures(CqConsumerToken::cq_stream, (&token,), stream),
        call_ensures(CqStreamBrand::ring_brand, (&stream,), streamed),
        call_ensures(CqStreamBrand::ring_index, (&stream,), index),
        call_ensures(CqStreamBrand::locator, (&stream,), locator),
        call_ensures(CqStreamBrand::is_cq_domain, (&stream,), consumes),
    ensures
        waiting == lease@,
        waiting.domain == EnterExecutionDomain::SqWait,
        consuming == token@,
        consuming.domain == EnterExecutionDomain::CqConsumer,
        ring == token@.ring,
        streamed == ring,
        index == ring.ring_index,
        locator == ring.locator,
        consumes,
{
}

/// A commit is recorded for good, and for the execution it is of.
pub proof fn law_commit_is_recorded(
    tracker: &mut EnterCommitTracker,
    later: EnterCommitTracker,
    committed: bool,
    execution: EnterExecutionBrand,
)
    requires
        call_ensures(EnterCommitTracker::record_commit, (tracker,), ()),
        call_ensures(EnterCommitTracker::committed, (&later,), committed),
        call_ensures(EnterCommitTracker::execution, (&later,), execution),
    ensures
        final(tracker)@.committed,
        final(tracker)@.execution == old(tracker)@.execution,
        committed == later@.committed,
        execution == later@.execution,
{
}

} // verus!
