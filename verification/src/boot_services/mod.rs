//! EFI services available in a pre-boot environment

pub mod events;
pub mod image;
pub mod memory;
pub mod protocols;

use crate::boot_services::events::{Event, EventType, TimerDelay, TPL};
use crate::boot_services::memory::{AllocateType, MemoryDescriptor, MemoryMapReply, MemoryType};
use crate::boot_services::protocols::{Guid, OpenProtocolAttributes, SearchType};
use crate::types::{Handle, PhysicalAddress, Status, TableHeader};
use vstd::prelude::*;

verus! {

/// The slots of the firmware's boot services table, one operation per slot.
///
/// Whoever implements this stands at the firmware boundary: each method makes the
/// one call its name says, with exactly the arguments given, and reports what the
/// firmware answered. Nothing is promised of the answers.
pub trait BootSlots {
    /// Raises the task priority level.
    fn raise_tpl(&self, new_tpl: TPL) -> Status;

    /// Restores the task priority level.
    fn restore_tpl(&self, old_tpl: TPL) -> Status;

    /// Allocates pages. `memory` is the address the request starts from; the
    /// second component is the address the firmware left in its place.
    fn allocate_pages(
        &self,
        allocation_type: AllocateType,
        memory_type: MemoryType,
        pages: usize,
        memory: PhysicalAddress,
    ) -> (Status, PhysicalAddress);

    /// Frees pages.
    fn free_pages(&self, memory: PhysicalAddress, pages: usize) -> Status;

    /// Asks for the memory map, to be written to the `capacity` bytes at address
    /// `buffer`.
    fn get_memory_map(&self, buffer: usize, capacity: usize) -> MemoryMapReply;

    /// Allocates pool memory. The second component is the buffer's address.
    fn allocate_pool(&self, pool_type: MemoryType, size: usize) -> (Status, usize);

    /// Returns pool memory to the firmware.
    fn free_pool(&self, buffer: usize) -> Status;

    /// Reads the memory descriptor that the firmware wrote at `address`.
    fn descriptor_at(&self, address: usize) -> MemoryDescriptor;

    /// Reads the handle that the firmware wrote at `address`.
    fn handle_at(&self, address: usize) -> Handle;

    /// Asks for the handles that match a search, to be written to the `capacity`
    /// bytes at address `buffer`. A `search_key` of zero is none. The second
    /// component is the size in bytes of the handles written, or of those there
    /// are where the buffer was too small.
    fn locate_handle(
        &self,
        search_type: SearchType,
        protocol: Option<Guid>,
        search_key: usize,
        buffer: usize,
        capacity: usize,
    ) -> (Status, usize);

    /// Opens a protocol on a handle. The second component is the address of the
    /// interface.
    fn open_protocol(
        &self,
        handle: Handle,
        protocol: Guid,
        agent_handle: Handle,
        controller_handle: Handle,
        attributes: OpenProtocolAttributes,
    ) -> (Status, usize);

    /// Closes a protocol on a handle.
    fn close_protocol(
        &self,
        handle: Handle,
        protocol: Guid,
        agent_handle: Handle,
        controller_handle: Handle,
    ) -> Status;

    /// Ends boot services.
    fn exit_boot_services(&self, image_handle: Handle, map_key: usize) -> Status;

    /// Creates an event; a `notify_function` of zero registers no callback. The
    /// second component is the new event's token.
    fn create_event(
        &self,
        event_type: EventType,
        notify_tpl: TPL,
        notify_function: usize,
        notify_context: usize,
    ) -> (Status, usize);

    /// Sets the type of timer and the trigger time of a timer event.
    fn set_timer(&self, event: usize, timer_type: TimerDelay, trigger_time: u64) -> Status;

    /// Blocks until one of the events is signaled. The second component is the
    /// index of that event.
    fn wait_for_event(&self, events: &[Event]) -> (Status, usize);

    /// Signals an event.
    fn signal_event(&self, event: usize) -> Status;

    /// Closes an event.
    fn close_event(&self, event: usize) -> Status;

    /// Checks whether an event is signaled.
    fn check_event(&self, event: usize) -> Status;
}

/// Contains the boot services
pub struct BootServices<S: BootSlots> {
    pub hdr: TableHeader,
    pub slots: S,
}

impl<S: BootSlots> BootServices<S> {
    /// Boot services reached through `slots`.
    pub fn new(hdr: TableHeader, slots: S) -> (r: BootServices<S>)
        ensures
            r.hdr == hdr,
            r.slots == slots,
    {
        BootServices { hdr, slots }
    }
}

} // verus!
