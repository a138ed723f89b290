//! Fallible allocation.

use fsring_core::abi::features::PlatformProfile::{Win10Arm64, Win10X64, Win7X64};
use fsring_core::pool::{
    pool_policy, settle_allocation, try_alloc, AllocError, Allocator, PoolPolicy, RawPool,
    POOL_FLAG_NON_PAGED, POOL_NON_PAGED, POOL_NON_PAGED_NX,
};

struct NullPool;
impl RawPool for NullPool {
    fn allocate(&mut self, _policy: PoolPolicy, _bytes: usize) -> Option<&mut [u8]> {
        None
    }
}

/// Hands back a buffer pre-filled with 0xAA, so a test can tell whether the
/// zeroing obligation was actually discharged.
struct PoisonedPool {
    buf: [u8; 16],
    asked: Option<(PoolPolicy, usize)>,
}
impl PoisonedPool {
    fn new() -> Self {
        Self {
            buf: [0xAA; 16],
            asked: None,
        }
    }
}
impl RawPool for PoisonedPool {
    fn allocate(&mut self, policy: PoolPolicy, bytes: usize) -> Option<&mut [u8]> {
        self.asked = Some((policy, bytes));
        Some(&mut self.buf)
    }
}

#[test]
fn a_null_return_is_an_error_not_a_panic() {
    let mut pool = NullPool;
    let r = try_alloc(&mut pool, pool_policy(Win10X64, false), 16);
    assert_eq!(r, Err(AllocError::OutOfMemory));
}

#[test]
fn zero_sized_requests_are_rejected_before_the_kernel_is_asked() {
    assert_eq!(
        try_alloc(&mut NullPool, pool_policy(Win10X64, true), 0),
        Err(AllocError::ZeroSized)
    );
}

#[test]
fn a_successful_allocation_passes_the_policy_through() {
    let mut p = PoisonedPool::new();
    let policy = pool_policy(Win10X64, false);
    assert!(try_alloc(&mut p, policy, 8).is_ok());
    assert_eq!(p.asked, Some((policy, 8)));
}

#[test]
fn the_seam_zeroes_for_the_legacy_profile() {
    // The obligation is discharged by try_alloc, not by the RawPool
    // implementation, so a future pool cannot forget it.
    let mut p = PoisonedPool::new();
    assert!(try_alloc(&mut p, pool_policy(Win7X64, false), 16).is_ok());
    assert_eq!(
        p.buf, [0u8; 16],
        "the legacy profile owes an explicit zeroing"
    );
}

#[test]
fn the_seam_does_not_zero_for_the_modern_profile() {
    // Modern allocates from the NX pool and publishes nothing before
    // initialising it; zeroing here would be wasted work on every request.
    let mut p = PoisonedPool::new();
    assert!(try_alloc(&mut p, pool_policy(Win10X64, false), 16).is_ok());
    assert_eq!(p.buf, [0xAAu8; 16]);
}

#[test]
fn the_legacy_profile_owes_zeroing_and_uses_the_non_nx_pool() {
    for available in [false, true] {
        let p = pool_policy(Win7X64, available);
        assert_eq!(p.pool_type, POOL_NON_PAGED);
        assert!(
            p.must_zero,
            "the Win7 baseline has no NX pool and no zeroing guarantee"
        );
        assert_eq!(
            p.allocator,
            Allocator::PoolWithTag,
            "a Win7 kernel does not export ExAllocatePool2 at all, so a                  resolution success there must not be trusted"
        );
    }
}

#[test]
fn the_modern_profiles_use_the_nx_pool_and_owe_no_zeroing() {
    for profile in [Win10X64, Win10Arm64] {
        for available in [false, true] {
            let p = pool_policy(profile, available);
            assert_eq!(p.pool_type, POOL_NON_PAGED_NX);
            assert!(!p.must_zero);
        }
    }
}

#[test]
fn the_resolved_capability_actually_changes_the_selected_allocator() {
    // Without this the resolver would be decoration: both branches of the
    // resolution would behave identically and nothing would notice.
    for profile in [Win10X64, Win10Arm64] {
        assert_eq!(pool_policy(profile, true).allocator, Allocator::Pool2);
        assert_eq!(
            pool_policy(profile, false).allocator,
            Allocator::PoolWithTag
        );
    }
}

#[test]
fn the_pool_discriminants_match_the_kernel_values() {
    // Cross-checked against the generated wdk-sys POOL_TYPE enum and
    // wdk-sys's hand-written POOL_FLAG_NON_PAGED; fsring-core is WDK-free,
    // so these are pinned rather than imported.
    assert_eq!(POOL_NON_PAGED, 0);
    assert_eq!(POOL_NON_PAGED_NX, 512);
    assert_eq!(POOL_FLAG_NON_PAGED, 0x40);
}

#[test]
fn a_block_longer_than_asked_is_zeroed_only_as_far_as_asked() {
    let mut p = PoisonedPool::new();
    assert!(try_alloc(&mut p, pool_policy(Win7X64, true), 5).is_ok());
    assert_eq!(&p.buf[..5], &[0u8; 5]);
    assert_eq!(&p.buf[5..], &[0xAAu8; 11]);
}

#[test]
fn a_refused_request_for_no_bytes_never_reaches_the_pool() {
    let mut p = PoisonedPool::new();
    assert_eq!(
        try_alloc(&mut p, pool_policy(Win10X64, true), 0),
        Err(AllocError::ZeroSized)
    );
    assert_eq!(p.asked, None);
}

#[test]
fn each_answer_of_the_pool_is_settled() {
    let legacy = pool_policy(Win7X64, false);
    let modern = pool_policy(Win10X64, false);
    assert_eq!(
        settle_allocation(legacy, 4, None),
        Err(AllocError::OutOfMemory)
    );
    let mut block = [7u8; 4];
    assert_eq!(
        settle_allocation(modern, 4, Some(&mut block)).map(|b| b.to_vec()),
        Ok(vec![7u8; 4])
    );
    assert_eq!(
        settle_allocation(legacy, 4, Some(&mut block)).map(|b| b.to_vec()),
        Ok(vec![0u8; 4])
    );
    assert_eq!(block, [0u8; 4]);
}

#[test]
fn only_the_executable_pool_owes_a_zeroing() {
    for profile in [Win7X64, Win10X64, Win10Arm64] {
        for found in [false, true] {
            let policy = pool_policy(profile, found);
            assert_eq!(policy.must_zero, policy.pool_type != POOL_NON_PAGED_NX);
            assert!(found || policy.allocator == Allocator::PoolWithTag);
            assert_eq!(policy.pool_flags, POOL_FLAG_NON_PAGED);
        }
    }
}

/// Has memory for every second request only.
struct AlternatingPool {
    buf: [u8; 8],
    asked: usize,
}
impl RawPool for AlternatingPool {
    fn allocate(&mut self, _policy: PoolPolicy, _bytes: usize) -> Option<&mut [u8]> {
        self.asked += 1;
        if self.asked % 2 == 0 {
            Some(&mut self.buf)
        } else {
            None
        }
    }
}

#[test]
fn an_allocation_succeeds_exactly_where_the_pool_had_memory() {
    let mut p = AlternatingPool {
        buf: [0xAA; 8],
        asked: 0,
    };
    for turn in 1..=4usize {
        let result = try_alloc(&mut p, pool_policy(Win10X64, false), 4).map(|b| b.to_vec());
        if turn % 2 == 0 {
            assert_eq!(result, Ok(vec![0xAA; 8]), "the pool's own block, untouched");
        } else {
            assert_eq!(result, Err(AllocError::OutOfMemory));
        }
        assert_eq!(p.asked, turn);
    }
}
