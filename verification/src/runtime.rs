//! Runtime support for EFI images
//!
//! The image-wide reference to the system table, set once when the image starts
//! and read from then on, and the page allocator that the heap is built on.

use crate::boot_services::memory::{AllocateType, MemoryType};
use crate::boot_services::{BootServices, BootSlots};
use crate::types::{outcome, spec_outcome, PhysicalAddress, Status};
use vstd::prelude::*;

verus! {

/// `spin::rwlock::RwLock`, the lock that guards the system table. Nothing of what
/// is inside a lock is visible here.
#[verifier::external_type_specification]
#[verifier::external_body]
#[verifier::reject_recursive_types(T)]
#[verifier::reject_recursive_types(R)]
pub struct ExRwLock<T: ?Sized, R>(spin::rwlock::RwLock<T, R>);

/// `spin::relax::Spin`, the way that lock waits: it names a strategy and holds
/// nothing.
#[verifier::external_type_specification]
#[verifier::external_body]
pub struct ExSpin(spin::relax::Spin);

/// Makes a lock with `spin::rwlock::RwLock::new`. Nothing is claimed of the lock.
#[verifier::external_body]
fn lock_new<T>(value: Option<T>) -> spin::rwlock::RwLock<Option<T>, spin::relax::Spin> {
    spin::rwlock::RwLock::new(value)
}

/// Takes the lock with `spin::rwlock::RwLock::read` and copies out what it
/// guards. Nothing is claimed of the value: it is whatever was last written.
#[verifier::external_body]
fn lock_read<T: Copy>(lock: &spin::rwlock::RwLock<Option<T>, spin::relax::Spin>) -> Option<T> {
    *lock.read()
}

/// Takes the lock with `spin::rwlock::RwLock::write` and stores `value` in it.
#[verifier::external_body]
fn lock_write<T>(lock: &spin::rwlock::RwLock<Option<T>, spin::relax::Spin>, value: Option<T>) {
    *lock.write() = value;
}

/// What storing `table` makes of a slot that holds `current`: an empty slot takes
/// the table, a slot that holds one keeps it and refuses with `AlreadyStarted`.
pub open spec fn spec_initialized<T>(current: Option<T>, table: T) -> (Option<T>, Result<
    (),
    Status,
>) {
    match current {
        None => (Some(table), Ok(())),
        Some(held) => (Some(held), Err(Status::AlreadyStarted)),
    }
}

/// Decides what a slot holds after `table` is offered to it, and whether the
/// offer was taken.
pub fn initialized<T>(current: Option<T>, table: T) -> (r: (Option<T>, Result<(), Status>))
    ensures
        r == spec_initialized(current, table),
{
    match current {
        None => (Some(table), Ok(())),
        Some(held) => (Some(held), Err(Status::AlreadyStarted)),
    }
}

/// What reading a slot that holds `current` yields: the table, or `NotStarted`
/// where none was stored yet.
pub open spec fn spec_referenced<T>(current: Option<T>) -> Result<T, Status> {
    match current {
        Some(table) => Ok(table),
        None => Err(Status::NotStarted),
    }
}

/// Judges what was read from the slot.
pub fn referenced<T>(current: Option<T>) -> (r: Result<T, Status>)
    ensures
        r == spec_referenced(current),
{
    match current {
        Some(table) => Ok(table),
        None => Err(Status::NotStarted),
    }
}

/// A slot is written at most once: after an offer it holds a table, after a
/// second offer it holds the same one, and a read of it then yields that table.
pub proof fn lemma_set_once<T>(current: Option<T>, first: T, second: T)
    ensures
        spec_initialized(current, first).0 is Some,
        spec_initialized(spec_initialized(current, first).0, second).0 == spec_initialized(
            current,
            first,
        ).0,
        spec_initialized(spec_initialized(current, first).0, second).1 == Err::<(), Status>(
            Status::AlreadyStarted,
        ),
        current is None ==> spec_referenced(spec_initialized(current, first).0) == Ok::<
            T,
            Status,
        >(first),
{
}

/// A read fails exactly where nothing was stored, and then with an error status.
pub proof fn lemma_read_before_set<T>(current: Option<T>)
    ensures
        spec_referenced(current) is Err <==> current is None,
        spec_referenced(current) matches Err(e) ==> e == Status::NotStarted && e.is_error(),
{
    crate::types::lemma_status_classification(Status::NotStarted);
}

/// The image's reference to its system table, behind a read-write lock.
#[verifier::reject_recursive_types(T)]
pub struct SystemTableWrapper<T: Copy> {
    lock: spin::rwlock::RwLock<Option<T>, spin::relax::Spin>,
}

impl<T: Copy> SystemTableWrapper<T> {
    /// A wrapper that holds no table yet: its lock is made around nothing.
    pub fn new() -> (r: SystemTableWrapper<T>)
        ensures
            r.made_around(None),
    {
        SystemTableWrapper { lock: lock_new(None) }
    }

    /// Stores the system table, once: a wrapper that holds a table keeps it.
    pub fn set(&self, system_table: T) -> (r: Result<(), Status>)
        ensures
            exists|held: Option<T>| self.sets(held, system_table, r),
            r matches Err(e) ==> e == Status::AlreadyStarted,
    {
        let current = lock_read(&self.lock);
        let decided = initialized(current, system_table);
        lock_write(&self.lock, decided.0);
        assert(self.sets(current, system_table, decided.1));
        decided.1
    }

    /// Reads the system table: a table that is found is returned, and where none
    /// is found the read fails with `NotStarted`.
    pub fn get(&self) -> (r: Result<T, Status>)
        ensures
            exists|held: Option<T>| self.finds(held) && r == spec_referenced(held),
            r matches Err(e) ==> e == Status::NotStarted,
    {
        referenced(lock_read(&self.lock))
    }

    /// Whether the wrapper's lock is one that was made around `held`.
    pub closed spec fn made_around(self, held: Option<T>) -> bool {
        call_ensures(lock_new::<T>, (held,), self.lock)
    }

    /// Whether a read of the wrapper's lock can find `held` in it. The lock is
    /// opaque: of two reads, nothing says that they find the same.
    pub closed spec fn finds(&self, held: Option<T>) -> bool {
        call_ensures(lock_read::<T>, (&self.lock,), held)
    }

    /// Whether `stored` is what a write put into the wrapper's lock.
    pub closed spec fn stores(&self, stored: Option<T>) -> bool {
        call_ensures(lock_write::<T>, (&self.lock, stored), ())
    }

    /// What `set` does with `system_table` where its read finds `held`: it writes
    /// back what `initialized` decides the wrapper is to hold, and answers as
    /// `initialized` decides. An empty wrapper takes the table; one that holds a
    /// table has that same table written back and answers `AlreadyStarted`.
    pub open spec fn sets(&self, held: Option<T>, system_table: T, r: Result<(), Status>) -> bool {
        &&& self.finds(held)
        &&& self.stores(spec_initialized(held, system_table).0)
        &&& r == spec_initialized(held, system_table).1
    }
}

/// Why an allocation failed.
#[derive(Clone, Copy, Debug, PartialEq, Eq, Structural)]
pub enum AllocErr {
    /// The alignment asked for is more than a page.
    Unsupported,
    /// The firmware had no pages to give.
    Exhausted,
}

/// The bytes of a page.
pub const PAGE_SIZE: usize = 4096;

/// The pages a request of `size` bytes takes: one more than the pages it fills.
pub open spec fn spec_pages_for(size: usize) -> usize {
    (1 + size / PAGE_SIZE) as usize
}

/// Counts the pages a request of `size` bytes takes.
pub fn pages_for(size: usize) -> (r: usize)
    ensures
        r == spec_pages_for(size),
        r * PAGE_SIZE > size,
{
    1 + size / PAGE_SIZE
}

/// What an allocation amounts to, given the firmware's answer.
pub open spec fn spec_allocated(reply: (Status, PhysicalAddress)) -> Result<
    PhysicalAddress,
    AllocErr,
> {
    if reply.0.is_error() {
        Err(AllocErr::Exhausted)
    } else {
        Ok(reply.1)
    }
}

/// Heap allocator for use in a pre-boot UEFI environment
///
/// Every request is met with whole pages, which makes any alignment up to a page
/// come for free.
pub struct PageAllocator {}

impl PageAllocator {
    /// Allocates pages for `size` bytes aligned to `align`
    ///
    /// An alignment beyond a page is refused, and the firmware is not asked.
    /// Otherwise any pages will do, as loader data.
    pub fn allocate<B: BootSlots>(
        &self,
        boot_services: &BootServices<B>,
        size: usize,
        align: usize,
    ) -> (r: Result<PhysicalAddress, AllocErr>)
        ensures
            align > PAGE_SIZE ==> r == Err::<PhysicalAddress, AllocErr>(AllocErr::Unsupported),
            align <= PAGE_SIZE ==> exists|reply: (Status, PhysicalAddress)|
                call_ensures(
                    B::allocate_pages,
                    (
                        &boot_services.slots,
                        AllocateType::AllocateAnyPages,
                        MemoryType::LoaderData,
                        spec_pages_for(size),
                        1u64,
                    ),
                    reply,
                ) && r == spec_allocated(reply),
    {
        if align > PAGE_SIZE {
            return Err(AllocErr::Unsupported);
        }
        let num_pages = pages_for(size);
        let reply = boot_services.slots.allocate_pages(
            AllocateType::AllocateAnyPages,
            MemoryType::LoaderData,
            num_pages,
            1,
        );
        let r = match reply.0.as_result() {
            Err(_) => Err(AllocErr::Exhausted),
            Ok(_) => Ok(reply.1),
        };
        assert(r == spec_allocated(reply));
        r
    }

    /// Gives back the pages that `allocate` returned for `size` bytes
    pub fn deallocate<B: BootSlots>(
        &self,
        boot_services: &BootServices<B>,
        ptr: PhysicalAddress,
        size: usize,
    ) -> (r: Result<(), Status>)
        ensures
            exists|status: Status|
                call_ensures(
                    B::free_pages,
                    (&boot_services.slots, ptr, spec_pages_for(size)),
                    status,
                ) && r == spec_outcome(status, ()),
    {
        let status = boot_services.slots.free_pages(ptr, pages_for(size));
        outcome(status, ())
    }
}

} // verus!
