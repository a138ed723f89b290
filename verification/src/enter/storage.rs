//! A ring's completion-queue storage and the consumer that reads it.
//!
//! Storage is described by the addresses of its pages, which are names here:
//! nothing in this module reads them.

use crate::abi::enter::CQE_SIZE;
use crate::enter::role::lease::CqStreamBrand;
use crate::session::{CqStorageBindRight, SessionRingBrand};
use vstd::prelude::*;

verus! {

/// Why completion-queue storage is refused.
#[derive(Clone, Copy, Debug, PartialEq, Eq, Structural)]
pub enum CqBindError {
    WrongLocator,
    WrongRing,
    WrongExecutionDomain,
    WrongStorage,
    ZeroCapacity,
    NonPowerOfTwoCapacity,
    StorageOverflow,
}

/// The one-shot right to bind a ring's completion-queue storage, once the ring's
/// runtime has been built.
#[must_use]
#[derive(Debug)]
pub struct CqStorageBindTicket {
    brand: SessionRingBrand,
}

impl View for CqStorageBindTicket {
    type V = SessionRingBrand;

    closed spec fn view(&self) -> SessionRingBrand {
        self.brand
    }
}

impl CqStorageBindTicket {
    /// Trade a session's bind right for the ring's ticket.
    pub(crate) fn from_right(right: CqStorageBindRight) -> (ticket: Self)
        ensures
            ticket@ == right@,
    {
        Self { brand: right.into_brand() }
    }

    /// The ring whose storage may be bound.
    pub fn brand(&self) -> (brand: SessionRingBrand)
        ensures
            brand == self@,
    {
        self.brand
    }

    /// Give the ticket up for the name it carries.
    pub fn into_brand(self) -> (brand: SessionRingBrand)
        ensures
            brand == self@,
    {
        self.brand
    }
}

/// Where one completion queue lies: its two cursor pages, its entries, and how
/// many entries there are.
#[derive(Debug)]
pub struct CqStorageDescriptor {
    producer_page: usize,
    consumer_page: usize,
    entries: usize,
    capacity: usize,
}

/// What a descriptor holds.
pub struct StorageModel {
    pub producer_page: usize,
    pub consumer_page: usize,
    pub entries: usize,
    pub capacity: int,
}

impl View for CqStorageDescriptor {
    type V = StorageModel;

    closed spec fn view(&self) -> StorageModel {
        StorageModel {
            producer_page: self.producer_page,
            consumer_page: self.consumer_page,
            entries: self.entries,
            capacity: self.capacity as int,
        }
    }
}

/// Why a capacity is refused, if it is.
pub open spec fn capacity_refusal(capacity: int) -> Option<CqBindError> {
    if capacity == 0 {
        Some(CqBindError::ZeroCapacity)
    } else if capacity < 2 || !vstd::arithmetic::power2::is_pow2(capacity) {
        Some(CqBindError::NonPowerOfTwoCapacity)
    } else if capacity * CQE_SIZE > usize::MAX {
        Some(CqBindError::StorageOverflow)
    } else {
        None
    }
}

fn is_power_of_two(value: usize) -> (yes: bool)
    requires
        value > 0,
    ensures
        yes <==> vstd::arithmetic::power2::is_pow2(value as int),
{
    let mut rest: usize = value;
    while rest % 2 == 0
        invariant
            rest > 0,
            vstd::arithmetic::power2::is_pow2(rest as int)
                <==> vstd::arithmetic::power2::is_pow2(value as int),
        decreases rest,
    {
        proof {
            reveal(vstd::arithmetic::power2::is_pow2);
        }
        rest = rest / 2;
    }
    proof {
        reveal(vstd::arithmetic::power2::is_pow2);
    }
    rest == 1
}

impl CqStorageDescriptor {
    #[verifier::type_invariant]
    closed spec fn inv(self) -> bool {
        capacity_refusal(self.capacity as int) is None
    }

    /// Describe a completion queue by the addresses of its parts.
    pub fn from_raw_parts(
        producer_page: usize,
        consumer_page: usize,
        entries: usize,
        capacity: usize,
    ) -> (result: Result<Self, CqBindError>)
        requires
            producer_page != 0,
            consumer_page != 0,
            entries != 0,
        ensures
            match result {
                Ok(descriptor) => {
                    &&& capacity_refusal(capacity as int) is None
                    &&& descriptor@ == (StorageModel {
                        producer_page,
                        consumer_page,
                        entries,
                        capacity: capacity as int,
                    })
                },
                Err(error) => capacity_refusal(capacity as int) == Some(error),
            },
    {
        if capacity == 0 {
            return Err(CqBindError::ZeroCapacity);
        }
        if capacity < 2 || !is_power_of_two(capacity) {
            return Err(CqBindError::NonPowerOfTwoCapacity);
        }
        if capacity.checked_mul(CQE_SIZE).is_none() {
            return Err(CqBindError::StorageOverflow);
        }
        Ok(Self { producer_page, consumer_page, entries, capacity })
    }

    /// How many entries the queue has.
    pub fn capacity(&self) -> (capacity: usize)
        ensures
            capacity == self@.capacity,
    {
        self.capacity
    }

    /// How many bytes the entries take.
    pub fn entry_bytes(&self) -> (bytes: usize)
        ensures
            bytes == self@.capacity * CQE_SIZE,
    {
        proof {
            use_type_invariant(self);
        }
        self.capacity * CQE_SIZE
    }
}

/// Completion-queue storage bound to the ring it belongs to.
#[derive(Debug)]
pub struct BrandedCqStorage {
    brand: SessionRingBrand,
    descriptor: CqStorageDescriptor,
}

/// What bound storage holds.
pub struct BoundModel {
    pub brand: SessionRingBrand,
    pub storage: StorageModel,
}

impl View for BrandedCqStorage {
    type V = BoundModel;

    closed spec fn view(&self) -> BoundModel {
        BoundModel { brand: self.brand, storage: self.descriptor@ }
    }
}

impl BrandedCqStorage {
    /// Bind storage to the ring whose ticket is given up for it.
    pub fn bind_storage(ticket: CqStorageBindTicket, descriptor: CqStorageDescriptor) -> (bound:
        Self)
        ensures
            bound@ == (BoundModel { brand: ticket@, storage: descriptor@ }),
    {
        Self { brand: ticket.into_brand(), descriptor }
    }

    /// The ring the storage is bound to.
    pub fn brand(&self) -> (brand: SessionRingBrand)
        ensures
            brand == self@.brand,
    {
        self.brand
    }

    /// Authorise a consumer over a backing of `backing_len` bytes, which has to
    /// hold every entry.
    pub fn borrow_consumer(&self, backing_len: usize) -> (result: Result<
        ScopedBrandedCqConsumer,
        CqBindError,
    >)
        ensures
            match result {
                Ok(consumer) => {
                    &&& backing_len >= self@.storage.capacity * CQE_SIZE
                    &&& consumer@ == self@
                },
                Err(error) => {
                    &&& error == CqBindError::WrongStorage
                    &&& backing_len < self@.storage.capacity * CQE_SIZE
                },
            },
    {
        if backing_len < self.descriptor.entry_bytes() {
            return Err(CqBindError::WrongStorage);
        }
        proof {
            use_type_invariant(&self.descriptor);
        }
        Ok(
            ScopedBrandedCqConsumer {
                brand: self.brand,
                descriptor: CqStorageDescriptor {
                    producer_page: self.descriptor.producer_page,
                    consumer_page: self.descriptor.consumer_page,
                    entries: self.descriptor.entries,
                    capacity: self.descriptor.capacity,
                },
            },
        )
    }
}

/// A consumer of one ring's storage.
#[derive(Debug)]
pub struct ScopedBrandedCqConsumer {
    brand: SessionRingBrand,
    descriptor: CqStorageDescriptor,
}

impl View for ScopedBrandedCqConsumer {
    type V = BoundModel;

    closed spec fn view(&self) -> BoundModel {
        BoundModel { brand: self.brand, storage: self.descriptor@ }
    }
}

impl ScopedBrandedCqConsumer {
    /// The ring this consumer reads.
    pub fn brand(&self) -> (brand: SessionRingBrand)
        ensures
            brand == self@.brand,
    {
        self.brand
    }

    /// This consumer reads the ring that `stream` comes from.
    pub fn serves(&self, stream: CqStreamBrand) -> (serves: bool)
        ensures
            serves <==> self@.brand == stream@.ring,
    {
        self.brand == stream.ring_brand()
    }

    /// Where the consumer's queue lies.
    pub fn descriptor(&self) -> (descriptor: &CqStorageDescriptor)
        ensures
            descriptor@ == self@.storage,
    {
        &self.descriptor
    }
}

/// A ring's storage is refused exactly if it holds no entries, then if their number
/// is no power of two from two up, then if they do not fit in memory.
pub proof fn law_storage_holds_a_power_of_two(capacity: int)
    requires
        0 <= capacity,
    ensures
        ({
            let refusal = capacity_refusal(capacity);
            let power = vstd::arithmetic::power2::is_pow2(capacity);
            &&& refusal is None <==> capacity >= 2 && power && capacity * 64 <= usize::MAX
            &&& refusal == Some(CqBindError::ZeroCapacity) <==> capacity == 0
            &&& refusal == Some(CqBindError::NonPowerOfTwoCapacity) <==> capacity == 1 || (capacity
                > 1 && !power)
            &&& refusal == Some(CqBindError::StorageOverflow) <==> capacity >= 2 && power
                && capacity * 64 > usize::MAX
        }),
{
}

/// A ring's storage is described exactly with a power of two of entries, from two
/// up, that fits in memory, and keeps the pages it was given. No entries are
/// refused first, then a number that is no power of two, then one that is too large.
pub proof fn law_storage_is_described_exactly(
    producer: usize,
    consumer: usize,
    entries: usize,
    capacity: usize,
    result: Result<CqStorageDescriptor, CqBindError>,
)
    requires
        call_ensures(
            CqStorageDescriptor::from_raw_parts,
            (producer, consumer, entries, capacity),
            result,
        ),
    ensures
        ({
            let power = vstd::arithmetic::power2::is_pow2(capacity as int);
            let fits = capacity * 64 <= usize::MAX;
            &&& result is Ok <==> capacity >= 2 && power && fits
            &&& result == Err::<CqStorageDescriptor, _>(CqBindError::ZeroCapacity) <==> capacity
                == 0
            &&& result == Err::<CqStorageDescriptor, _>(CqBindError::NonPowerOfTwoCapacity) <==>
                capacity == 1 || (capacity > 1 && !power)
            &&& result == Err::<CqStorageDescriptor, _>(CqBindError::StorageOverflow) <==> capacity
                >= 2 && power && !fits
            &&& result matches Ok(described) ==> described@.producer_page == producer
                && described@.consumer_page == consumer && described@.entries == entries
                && described@.capacity == capacity
        }),
{
    law_storage_holds_a_power_of_two(capacity as int);
}

/// A consumer is lent exactly over a backing that holds every entry of sixty-four
/// bytes, and serves exactly the stream of its own ring.
pub proof fn law_consumer_is_lent_over_every_entry(
    storage: BrandedCqStorage,
    backing: usize,
    lent: Result<ScopedBrandedCqConsumer, CqBindError>,
    consumer: ScopedBrandedCqConsumer,
    stream: CqStreamBrand,
    serves: bool,
)
    requires
        call_ensures(BrandedCqStorage::borrow_consumer, (&storage, backing), lent),
        call_ensures(ScopedBrandedCqConsumer::serves, (&consumer, stream), serves),
    ensures
        lent is Ok <==> 64 * storage@.storage.capacity <= backing,
        lent matches Ok(scoped) ==> scoped@ == storage@,
        lent is Err ==> lent == Err::<ScopedBrandedCqConsumer, _>(CqBindError::WrongStorage),
        serves <==> consumer@.brand == stream@.ring,
{
}

/// Storage that is bound is of its ticket's ring, with the pages and the entries it
/// was described with, sixty-four bytes each.
pub proof fn law_storage_is_bound_to_its_ring(
    ticket: CqStorageBindTicket,
    named: SessionRingBrand,
    descriptor: CqStorageDescriptor,
    bytes: usize,
    capacity: usize,
    bound: BrandedCqStorage,
    brand: SessionRingBrand,
)
    requires
        call_ensures(CqStorageBindTicket::brand, (&ticket,), named),
        call_ensures(CqStorageDescriptor::entry_bytes, (&descriptor,), bytes),
        call_ensures(CqStorageDescriptor::capacity, (&descriptor,), capacity),
        call_ensures(BrandedCqStorage::bind_storage, (ticket, descriptor), bound),
        call_ensures(BrandedCqStorage::brand, (&bound,), brand),
    ensures
        named == ticket@,
        brand == named,
        capacity == descriptor@.capacity,
        bytes == 64 * capacity,
        bound@.storage == descriptor@,
{
}

} // verus!
