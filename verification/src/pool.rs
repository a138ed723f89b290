//! Fallible allocation from the kernel pools.
//!
//! Every allocation goes through [`try_alloc`] and returns a `Result`. The pool
//! is chosen by the platform, and the newer allocator is used only where it was
//! found at run time.

use vstd::prelude::*;

use crate::abi::features::PlatformProfile;

verus! {

/// The non-paged pool of the legacy platform.
pub const POOL_NON_PAGED: i32 = 0;

/// The non-paged pool without execute permission.
pub const POOL_NON_PAGED_NX: i32 = 512;

/// The flag that asks the newer allocator for the non-paged pool.
pub const POOL_FLAG_NON_PAGED: u64 = 0x40;

/// Which allocator to call.
#[derive(Clone, Copy, Debug, PartialEq, Eq, Structural)]
pub enum Allocator {
    /// `ExAllocatePoolWithTag`, which every platform has.
    PoolWithTag,
    /// `ExAllocatePool2`, where its address was found.
    Pool2,
}

/// Where a platform allocates from, and what it owes the block.
#[derive(Clone, Copy, Debug, PartialEq, Eq, Structural)]
pub struct PoolPolicy {
    /// Which allocator to call.
    pub allocator: Allocator,
    /// The flags for [`Allocator::Pool2`].
    pub pool_flags: u64,
    /// The pool type for [`Allocator::PoolWithTag`].
    pub pool_type: i32,
    /// Whether the block must be zeroed before anyone sees it.
    pub must_zero: bool,
}

/// The policy of a platform. The legacy platform never takes the newer
/// allocator, even where an address was found: its kernel does not export one.
pub open spec fn policy_of(profile: PlatformProfile, pool2_available: bool) -> PoolPolicy {
    let legacy = profile == PlatformProfile::Win7X64;
    PoolPolicy {
        allocator: if pool2_available && !legacy {
            Allocator::Pool2
        } else {
            Allocator::PoolWithTag
        },
        pool_flags: POOL_FLAG_NON_PAGED,
        pool_type: if legacy {
            POOL_NON_PAGED
        } else {
            POOL_NON_PAGED_NX
        },
        must_zero: legacy,
    }
}

/// The policy of a platform, given whether the newer allocator was found.
pub fn pool_policy(profile: PlatformProfile, pool2_available: bool) -> (policy: PoolPolicy)
    ensures
        policy == policy_of(profile, pool2_available),
{
    match profile {
        PlatformProfile::Win7X64 => PoolPolicy {
            allocator: Allocator::PoolWithTag,
            pool_flags: POOL_FLAG_NON_PAGED,
            pool_type: POOL_NON_PAGED,
            must_zero: true,
        },
        PlatformProfile::Win10X64 | PlatformProfile::Win10Arm64 => PoolPolicy {
            allocator: if pool2_available {
                Allocator::Pool2
            } else {
                Allocator::PoolWithTag
            },
            pool_flags: POOL_FLAG_NON_PAGED,
            pool_type: POOL_NON_PAGED_NX,
            must_zero: false,
        },
    }
}

/// Executable memory is never handed out unzeroed: a pool that is not the
/// no-execute one owes its blocks a zeroing, and only that one does. The newer
/// allocator is called only where it was found.
pub proof fn law_executable_pool_owes_zeroing(profile: PlatformProfile, pool2_available: bool)
    ensures
        policy_of(profile, pool2_available).must_zero <==> policy_of(
            profile,
            pool2_available,
        ).pool_type != POOL_NON_PAGED_NX,
        policy_of(profile, pool2_available).allocator == Allocator::Pool2 ==> pool2_available,
{
}

/// Why an allocation did not happen.
#[derive(Clone, Copy, Debug, PartialEq, Eq, Structural)]
pub enum AllocError {
    /// The pool had no memory.
    OutOfMemory,
    /// No bytes were asked for.
    ZeroSized,
}

/// A pool of memory.
pub trait RawPool {
    /// What this pool has been asked for, in order.
    ///
    /// A verified implementor overrides this: with the default, which never
    /// grows, nothing meets the contract of `allocate`. Code that is not verified
    /// may leave it, since it is never run; that code has to keep the contract by
    /// itself.
    open spec fn requests(&self) -> Seq<(PoolPolicy, usize)> {
        Seq::empty()
    }

    /// What this pool gave for each of its requests, in order: none, or what stood
    /// in the block when it was handed out. What is said of the default of
    /// `requests` holds of this one.
    open spec fn answers(&self) -> Seq<Option<Seq<u8>>> {
        Seq::empty()
    }

    /// Ask for a block of at least `bytes` bytes, or get none.
    fn allocate<'a>(&'a mut self, policy: PoolPolicy, bytes: usize) -> (block: Option<&'a mut [u8]>)
        ensures
            final(self).requests() == old(self).requests().push((policy, bytes)),
            final(self).answers() == old(self).answers().push(
                match block {
                    Some(memory) => Some(memory@),
                    None => None,
                },
            ),
            block matches Some(memory) ==> memory@.len() >= bytes,
    ;
}

/// `block` with its first `bytes` bytes zeroed.
pub open spec fn zeroed(block: Seq<u8>, bytes: int) -> Seq<u8> {
    Seq::new(
        block.len(),
        |i: int|
            if i < bytes {
                0u8
            } else {
                block[i]
            },
    )
}

/// Zero the first `bytes` bytes of a block.
fn zero(block: &mut [u8], bytes: usize)
    requires
        bytes <= old(block)@.len(),
    ensures
        final(block)@ == zeroed(old(block)@, bytes as int),
{
    let mut i: usize = 0;
    while i < bytes
        invariant
            i <= bytes <= block@.len(),
            block@ == zeroed(old(block)@, i as int),
        decreases bytes - i,
    {
        block[i] = 0;
        i += 1;
        assert(block@ =~= zeroed(old(block)@, i as int));
    }
}

/// Turn the pool's answer into the caller's: no block is out of memory, and a
/// block that is owed a zeroing is zeroed before it is handed on.
pub fn settle_allocation<'a>(
    policy: PoolPolicy,
    bytes: usize,
    block: Option<&'a mut [u8]>,
) -> (settled: Result<&'a mut [u8], AllocError>)
    requires
        block matches Some(memory) ==> memory@.len() >= bytes,
    ensures
        match block {
            None => settled == Err::<&'a mut [u8], AllocError>(AllocError::OutOfMemory),
            Some(memory) => settled matches Ok(handed) && handed@ == (if policy.must_zero {
                zeroed(memory@, bytes as int)
            } else {
                memory@
            }) && final(handed)@ == final(memory)@,
        },
{
    match block {
        None => Err(AllocError::OutOfMemory),
        Some(memory) => {
            if policy.must_zero {
                zero(memory, bytes);
            }
            Ok(memory)
        },
    }
}

/// Allocate, or fail. A request for no bytes is refused before the pool is
/// asked; any other asks it once, with the policy and the size as they are.
/// It succeeds exactly where the pool had memory, and hands on the pool's own
/// block: zeroed as far as was asked where that is owed, and untouched otherwise.
pub fn try_alloc<'a, P: RawPool>(pool: &'a mut P, policy: PoolPolicy, bytes: usize) -> (result:
    Result<&'a mut [u8], AllocError>)
    ensures
        bytes == 0 <==> result == Err::<&'a mut [u8], AllocError>(AllocError::ZeroSized),
        bytes == 0 ==> *final(pool) == *old(pool),
        bytes > 0 ==> final(pool).requests() == old(pool).requests().push((policy, bytes)),
        bytes > 0 ==> final(pool).answers().len() == old(pool).answers().len() + 1
            && final(pool).answers().drop_last() == old(pool).answers(),
        bytes > 0 ==> match final(pool).answers().last() {
            None => result == Err::<&'a mut [u8], AllocError>(AllocError::OutOfMemory),
            Some(block) => {
                &&& block.len() >= bytes
                &&& result matches Ok(handed)
                &&& handed@ == (if policy.must_zero {
                    zeroed(block, bytes as int)
                } else {
                    block
                })
            },
        },
{
    if bytes == 0 {
        return Err(AllocError::ZeroSized);
    }
    proof {
        let before = pool.answers();
        assert forall|told: Option<Seq<u8>>| #[trigger]
            before.push(told).drop_last() == before by {
            assert(before.push(told).drop_last() =~= before);
        }
    }
    let block = pool.allocate(policy, bytes);
    settle_allocation(policy, bytes, block)
}

/// Exactly the first bytes of a block are zeroed, as many as are asked for; the
/// rest of it is as it was.
pub proof fn law_zeroing_stops_where_it_should(block: Seq<u8>, bytes: int)
    requires
        0 <= bytes <= block.len(),
    ensures
        zeroed(block, bytes).len() == block.len(),
        forall|i: int| 0 <= i < bytes ==> zeroed(block, bytes)[i] == 0,
        forall|i: int| bytes <= i < block.len() ==> zeroed(block, bytes)[i] == block[i],
{
}

/// The oldest platform allocates from the executable pool with a tag, whatever was
/// found, and owes a zeroing. The others allocate from the pool that is not
/// executable, owe none, and use the newer allocator exactly where it was found.
/// Nothing else differs.
pub proof fn law_platform_decides_the_pool(profile: PlatformProfile, pool2_available: bool)
    ensures
        ({
            let policy = policy_of(profile, pool2_available);
            let old = profile == PlatformProfile::Win7X64;
            &&& policy.pool_type == POOL_NON_PAGED <==> old
            &&& policy.pool_type == POOL_NON_PAGED_NX <==> !old
            &&& policy.must_zero <==> old
            &&& policy.allocator == Allocator::Pool2 <==> !old && pool2_available
            &&& policy.allocator == Allocator::PoolWithTag <==> old || !pool2_available
            &&& policy.pool_flags == POOL_FLAG_NON_PAGED
        }),
{
}

/// The oldest platform gets executable memory from the older allocator and owes its
/// zeroing; every later one gets memory that cannot be executed, from the newer
/// allocator where it was found.
pub proof fn law_platform_gets_its_pool(
    profile: PlatformProfile,
    found: bool,
    policy: PoolPolicy,
)
    requires
        call_ensures(pool_policy, (profile, found), policy),
    ensures
        ({
            let oldest = profile == PlatformProfile::Win7X64;
            &&& policy.pool_type == POOL_NON_PAGED <==> oldest
            &&& policy.pool_type == POOL_NON_PAGED_NX <==> !oldest
            &&& policy.must_zero <==> oldest
            &&& policy.allocator == Allocator::Pool2 <==> !oldest && found
            &&& policy.allocator == Allocator::PoolWithTag <==> oldest || !found
            &&& policy.pool_flags == POOL_FLAG_NON_PAGED
        }),
{
    law_platform_decides_the_pool(profile, found);
}

/// A pool that gave no block is out of memory. A block is handed out whole, zeroed as
/// far as was asked where the policy owes it, and as it is where it does not.
pub proof fn law_block_is_handed_out_as_owed<'a>(
    policy: PoolPolicy,
    bytes: usize,
    block: Option<&'a mut [u8]>,
    settled: Result<&'a mut [u8], AllocError>,
)
    requires
        call_ensures(settle_allocation, (policy, bytes, block), settled),
        block matches Some(memory) ==> memory@.len() >= bytes,
    ensures
        settled is Ok <==> block is Some,
        block is None ==> settled == Err::<&'a mut [u8], AllocError>(AllocError::OutOfMemory),
        block matches Some(memory) ==> (settled matches Ok(handed) && handed@.len() == memory@.len()
            && (forall|i: int|
            0 <= i < memory@.len() ==> #[trigger] handed@[i] == (if policy.must_zero && i < bytes {
                0u8
            } else {
                memory@[i]
            }))),
{
    if let Some(memory) = block {
        law_zeroing_stops_where_it_should(memory@, bytes as int);
    }
}

/// Nothing is asked of a pool for nothing, and that is refused. For anything else it
/// is asked once, with the policy and the size; no block is out of memory, and a
/// block is zeroed as far as was asked where the policy owes it.
pub proof fn law_pool_is_asked_once<'a, P: RawPool>(
    pool: &'a mut P,
    policy: PoolPolicy,
    bytes: usize,
    result: Result<&'a mut [u8], AllocError>,
)
    requires
        call_ensures(try_alloc::<P>, (pool, policy, bytes), result),
    ensures
        bytes == 0 <==> result == Err::<&'a mut [u8], AllocError>(AllocError::ZeroSized),
        bytes == 0 ==> final(pool).requests() == old(pool).requests(),
        bytes > 0 ==> final(pool).requests() == old(pool).requests().push((policy, bytes)),
        bytes > 0 ==> (result is Ok <==> final(pool).answers().last() is Some),
        bytes > 0 && result is Err ==> result == Err::<&'a mut [u8], AllocError>(
            AllocError::OutOfMemory,
        ),
        result matches Ok(handed) ==> {
            let block = final(pool).answers().last()->0;
            &&& handed@.len() == block.len()
            &&& block.len() >= bytes
            &&& forall|i: int|
                0 <= i < block.len() ==> #[trigger] handed@[i] == (if policy.must_zero && i < bytes {
                    0u8
                } else {
                    block[i]
                })
        },
{
}

/// The pool types and the flag are the kernel's numbers.
pub proof fn law_pools_are_these_numbers()
    ensures
        POOL_NON_PAGED == 0,
        POOL_NON_PAGED_NX == 512,
        POOL_FLAG_NON_PAGED == 0x40,
{
}

} // verus!
