//! Page and pool allocation, and the memory map.

use crate::boot_services::{BootServices, BootSlots};
use crate::negotiation::{
    delivered, lemma_count_bounds, lemma_element_in_bounds, plan, spec_delivered,
    spec_element_count, spec_plan, Plan,
};
use crate::types::{outcome, spec_outcome, PhysicalAddress, Status, VirtualAddress};
use vstd::prelude::*;

verus! {

/// Type of memory allocation to perform
#[derive(Clone, Copy, Debug, PartialEq, Eq, Structural)]
pub enum AllocateType {
    AllocateAnyPages,
    AllocateMaxAddress,
    AllocateAddress,
    MaxAllocateType,
}

impl AllocateType {
    /// The number the firmware uses for this type of allocation.
    pub open spec fn spec_code(self) -> u32 {
        match self {
            AllocateType::AllocateAnyPages => 0,
            AllocateType::AllocateMaxAddress => 1,
            AllocateType::AllocateAddress => 2,
            AllocateType::MaxAllocateType => 3,
        }
    }

    /// The number the firmware uses for this type of allocation.
    pub fn code(&self) -> (r: u32)
        ensures
            r == self.spec_code(),
    {
        match self {
            AllocateType::AllocateAnyPages => 0,
            AllocateType::AllocateMaxAddress => 1,
            AllocateType::AllocateAddress => 2,
            AllocateType::MaxAllocateType => 3,
        }
    }
}

/// Type of memory
#[derive(Clone, Copy, Debug, PartialEq, Eq, Structural)]
pub enum MemoryType {
    ReservedMemoryType,
    LoaderCode,
    LoaderData,
    BootServicesCode,
    BootServicesData,
    RuntimeServicesCode,
    RuntimeServicesData,
    ConventionalMemory,
    UnusableMemory,
    ACPIReclaimMemory,
    ACPIMemoryNVS,
    MemoryMappedIO,
    MemoryMappedIOPortSpace,
    PalCode,
    PersistentMemory,
    MaxMemoryType,
}

impl MemoryType {
    /// The number the firmware uses for this type of memory.
    pub open spec fn spec_code(self) -> u32 {
        match self {
            MemoryType::ReservedMemoryType => 0,
            MemoryType::LoaderCode => 1,
            MemoryType::LoaderData => 2,
            MemoryType::BootServicesCode => 3,
            MemoryType::BootServicesData => 4,
            MemoryType::RuntimeServicesCode => 5,
            MemoryType::RuntimeServicesData => 6,
            MemoryType::ConventionalMemory => 7,
            MemoryType::UnusableMemory => 8,
            MemoryType::ACPIReclaimMemory => 9,
            MemoryType::ACPIMemoryNVS => 10,
            MemoryType::MemoryMappedIO => 11,
            MemoryType::MemoryMappedIOPortSpace => 12,
            MemoryType::PalCode => 13,
            MemoryType::PersistentMemory => 14,
            MemoryType::MaxMemoryType => 15,
        }
    }

    /// The number the firmware uses for this type of memory.
    pub fn code(&self) -> (r: u32)
        ensures
            r == self.spec_code(),
    {
        match self {
            MemoryType::ReservedMemoryType => 0,
            MemoryType::LoaderCode => 1,
            MemoryType::LoaderData => 2,
            MemoryType::BootServicesCode => 3,
            MemoryType::BootServicesData => 4,
            MemoryType::RuntimeServicesCode => 5,
            MemoryType::RuntimeServicesData => 6,
            MemoryType::ConventionalMemory => 7,
            MemoryType::UnusableMemory => 8,
            MemoryType::ACPIReclaimMemory => 9,
            MemoryType::ACPIMemoryNVS => 10,
            MemoryType::MemoryMappedIO => 11,
            MemoryType::MemoryMappedIOPortSpace => 12,
            MemoryType::PalCode => 13,
            MemoryType::PersistentMemory => 14,
            MemoryType::MaxMemoryType => 15,
        }
    }

    /// The type of memory with the given number, if there is one.
    pub fn from_code(code: u32) -> (r: Option<MemoryType>)
        ensures
            r matches Some(t) ==> t.spec_code() == code,
            r is None <==> code > 15,
    {
        match code {
            0 => Some(MemoryType::ReservedMemoryType),
            1 => Some(MemoryType::LoaderCode),
            2 => Some(MemoryType::LoaderData),
            3 => Some(MemoryType::BootServicesCode),
            4 => Some(MemoryType::BootServicesData),
            5 => Some(MemoryType::RuntimeServicesCode),
            6 => Some(MemoryType::RuntimeServicesData),
            7 => Some(MemoryType::ConventionalMemory),
            8 => Some(MemoryType::UnusableMemory),
            9 => Some(MemoryType::ACPIReclaimMemory),
            10 => Some(MemoryType::ACPIMemoryNVS),
            11 => Some(MemoryType::MemoryMappedIO),
            12 => Some(MemoryType::MemoryMappedIOPortSpace),
            13 => Some(MemoryType::PalCode),
            14 => Some(MemoryType::PersistentMemory),
            15 => Some(MemoryType::MaxMemoryType),
            _ => None,
        }
    }
}

/// Describes a region of memory
#[derive(Clone, Copy, Debug, PartialEq, Eq, Structural)]
pub struct MemoryDescriptor {
    pub memory_type: MemoryType,
    pub physical_start: PhysicalAddress,
    pub virtual_start: VirtualAddress,
    pub number_of_pages: u64,
    pub attribute: u64,
}

/// The bytes one memory descriptor takes as this library knows it. The firmware's
/// stride may be larger.
pub const DESCRIPTOR_SIZE: usize = 40;

/// The descriptors of headroom added to the size the firmware asks for: the
/// allocation of the buffer may itself add entries to the map.
pub const MAP_HEADROOM: usize = 3;

/// What the firmware answers when asked for the memory map.
#[derive(Clone, Copy, Debug, PartialEq, Eq, Structural)]
pub struct MemoryMapReply {
    pub status: Status,
    /// The bytes written, or the bytes needed where the buffer was too small.
    pub size: usize,
    pub key: usize,
    pub descriptor_size: usize,
    pub descriptor_version: u32,
}

/// The plain content of a memory map.
#[derive(Clone, Copy, Debug, PartialEq, Eq, Structural)]
pub struct MapLayout {
    /// Address of the buffer, zero where there is none.
    pub buffer: usize,
    /// Bytes per entry.
    pub descriptor_size: usize,
    pub descriptor_version: u32,
    /// Changes whenever the firmware's map does.
    pub key: usize,
    /// Bytes of the buffer that hold entries.
    pub size: usize,
}

impl MapLayout {
    /// A layout that can be read safely: where it holds anything, there is a
    /// buffer, an entry is at least as wide as a descriptor, and the buffer ends
    /// within the address space.
    pub open spec fn wf(self) -> bool {
        self.size > 0 ==> {
            &&& self.buffer != 0
            &&& self.descriptor_size >= DESCRIPTOR_SIZE
            &&& self.buffer + self.size <= usize::MAX
        }
    }

    /// The number of entries.
    pub open spec fn count(self) -> usize {
        if self.descriptor_size == 0 {
            0
        } else {
            spec_element_count(self.size, self.descriptor_size)
        }
    }

    /// The address of the entry at `index`.
    pub open spec fn entry_address(self, index: usize) -> int {
        self.buffer + index * self.descriptor_size
    }

    /// The entries fit the buffer, and so does every descriptor read at an index
    /// below the count.
    pub proof fn lemma_entries_in_bounds(self)
        requires
            self.wf(),
        ensures
            self.count() * self.descriptor_size <= self.size,
            forall|index: usize|
                index < self.count() ==> #[trigger] (index * self.descriptor_size)
                    + DESCRIPTOR_SIZE <= self.size,
    {
        if self.descriptor_size > 0 {
            lemma_count_bounds(self.size as int, self.descriptor_size as int);
        }
        assert forall|index: usize| index < self.count() implies #[trigger] (index
            * self.descriptor_size) + DESCRIPTOR_SIZE <= self.size by {
            if self.size == 0 {
                lemma_count_bounds(0, self.descriptor_size as int);
                assert(0int / (self.descriptor_size as int) == 0);
            } else {
                lemma_element_in_bounds(self.size, self.descriptor_size, DESCRIPTOR_SIZE, index);
            }
        }
    }
}

/// Describes the system's current memory configuration
///
/// The map owns a pool buffer that the firmware filled. It is given back with
/// `release`, which takes the map with it.
pub struct MemoryMap<'a, S: BootSlots> {
    boot_services: &'a BootServices<S>,
    layout: MapLayout,
}

impl<'a, S: BootSlots> MemoryMap<'a, S> {
    #[verifier::type_invariant]
    spec fn inv(self) -> bool {
        self.layout.wf()
    }

    /// The plain content of the map.
    pub closed spec fn spec_layout(self) -> MapLayout {
        self.layout
    }

    /// The boot services that filled the map and will take its buffer back.
    pub closed spec fn spec_boot_services(self) -> BootServices<S> {
        *self.boot_services
    }

    /// The plain content of the map.
    pub fn layout(&self) -> (r: MapLayout)
        ensures
            r == self.spec_layout(),
            r.wf(),
    {
        proof {
            use_type_invariant(self);
        }
        self.layout
    }

    /// The key of the map, which the firmware asks for when boot services are
    /// exited.
    pub fn key(&self) -> (r: usize)
        ensures
            r == self.spec_layout().key,
    {
        self.layout.key
    }

    /// The bytes of the buffer that hold entries.
    pub fn size(&self) -> (r: usize)
        ensures
            r == self.spec_layout().size,
    {
        self.layout.size
    }

    /// Returns the number of memory descriptors in this map
    pub fn len(&self) -> (r: usize)
        ensures
            r == self.spec_layout().count(),
            r * self.spec_layout().descriptor_size <= self.spec_layout().size,
    {
        if self.layout.descriptor_size == 0 {
            0
        } else {
            proof {
                lemma_count_bounds(self.layout.size as int, self.layout.descriptor_size as int);
            }
            self.layout.size / self.layout.descriptor_size
        }
    }

    /// The descriptor at `index`, read from its place in the buffer.
    pub fn index(&self, index: usize) -> (r: MemoryDescriptor)
        requires
            index < self.spec_layout().count(),
        ensures
            self.spec_layout().entry_address(index) + DESCRIPTOR_SIZE
                <= self.spec_layout().buffer + self.spec_layout().size,
            call_ensures(
                S::descriptor_at,
                (&self.spec_boot_services().slots, self.spec_layout().entry_address(index) as usize),
                r,
            ),
    {
        proof {
            use_type_invariant(self);
            self.layout.lemma_entries_in_bounds();
            assert(index * self.layout.descriptor_size + DESCRIPTOR_SIZE <= self.layout.size);
        }
        let offset = index * self.layout.descriptor_size;
        self.boot_services.slots.descriptor_at(self.layout.buffer + offset)
    }

    /// Returns the descriptors in this map, in order
    pub fn iter(&self) -> (r: Vec<MemoryDescriptor>)
        ensures
            r.len() == self.spec_layout().count(),
            forall|i: int|
                0 <= i < r.len() ==> call_ensures(
                    S::descriptor_at,
                    (
                        &self.spec_boot_services().slots,
                        self.spec_layout().entry_address(i as usize) as usize,
                    ),
                    #[trigger] r[i],
                ),
    {
        let count = self.len();
        let mut entries: Vec<MemoryDescriptor> = Vec::new();
        let mut i: usize = 0;
        while i < count
            invariant
                i <= count,
                count == self.spec_layout().count(),
                entries.len() == i,
                forall|k: int|
                    0 <= k < i ==> call_ensures(
                        S::descriptor_at,
                        (
                            &self.spec_boot_services().slots,
                            self.spec_layout().entry_address(k as usize) as usize,
                        ),
                        #[trigger] entries[k],
                    ),
            decreases count - i,
        {
            let entry = self.index(i);
            entries.push(entry);
            i = i + 1;
        }
        entries
    }
}

/// A slice of pool memory: `count` elements of `element_size` bytes each at
/// address `buffer`.
#[derive(Clone, Copy, Debug, PartialEq, Eq, Structural)]
pub struct Pool {
    pub buffer: usize,
    pub count: usize,
    pub element_size: usize,
}

/// The answers of the firmware in the course of fetching the memory map: to the
/// size query, to the allocation of the buffer, to the call that fills it, and to
/// the release of the buffer where no map comes out of it. Where a call was not
/// made its answer is of no account.
pub struct MapTranscript {
    pub query: MemoryMapReply,
    pub allocation: (Status, usize),
    pub retrieval: MemoryMapReply,
    pub release: Status,
}

/// What the answer to the size query calls for.
pub open spec fn spec_map_plan(query: MemoryMapReply) -> Plan {
    spec_plan(query.status, query.size, query.descriptor_size, MAP_HEADROOM)
}

/// The buffer and its capacity that the second call is made with, where the
/// exchange gets that far: the allocation succeeded, the address is not null, and
/// the buffer ends within the address space.
pub open spec fn spec_map_buffer(t: MapTranscript) -> Option<(usize, usize)> {
    match spec_map_plan(t.query) {
        Plan::Allocate(capacity) => if !t.allocation.0.is_error() && t.allocation.1 != 0
            && t.allocation.1 + capacity <= usize::MAX {
            Some((t.allocation.1, capacity))
        } else {
            None
        },
        _ => None,
    }
}

/// The map, or the error, that the firmware's answers amount to.
///
/// An allocation that reports success with a null address is `OutOfResources`. A
/// buffer that would end beyond the address space, a size beyond the buffer, and
/// a stride narrower than a descriptor are each `BadBufferSize`.
pub open spec fn spec_map_result(t: MapTranscript) -> Result<MapLayout, Status> {
    match spec_map_plan(t.query) {
        Plan::Empty => Ok(
            MapLayout {
                buffer: 0,
                descriptor_size: t.query.descriptor_size,
                descriptor_version: t.query.descriptor_version,
                key: t.query.key,
                size: 0,
            },
        ),
        Plan::Fail(e) => Err(e),
        Plan::Allocate(capacity) => if t.allocation.0.is_error() {
            Err(t.allocation.0)
        } else if t.allocation.1 == 0 {
            Err(Status::OutOfResources)
        } else if t.allocation.1 + capacity > usize::MAX {
            Err(Status::BadBufferSize)
        } else {
            match spec_delivered(t.retrieval.status, t.retrieval.size, capacity) {
                Err(e) => Err(e),
                Ok(size) => if t.retrieval.descriptor_size < DESCRIPTOR_SIZE {
                    Err(Status::BadBufferSize)
                } else {
                    Ok(
                        MapLayout {
                            buffer: t.allocation.1,
                            descriptor_size: t.retrieval.descriptor_size,
                            descriptor_version: t.retrieval.descriptor_version,
                            key: t.retrieval.key,
                            size,
                        },
                    )
                },
            }
        },
    }
}

/// The buffer that is given back to the firmware: the one that was obtained,
/// where no map comes out of the exchange. A map that comes out keeps its buffer.
pub open spec fn spec_map_given_back(t: MapTranscript) -> Option<usize> {
    match spec_map_plan(t.query) {
        Plan::Allocate(_) => if !t.allocation.0.is_error() && t.allocation.1 != 0
            && spec_map_result(t) is Err {
            Some(t.allocation.1)
        } else {
            None
        },
        _ => None,
    }
}

/// Whether the answers in `t` are ones that `slots` can give to the calls that
/// fetching the memory map makes: the size query with no buffer; then, where a
/// buffer is called for, its allocation as loader data; then the call with that
/// buffer; and, where a buffer was obtained and no map comes out, the release of
/// that buffer.
pub open spec fn map_transcript_admissible<S: BootSlots>(slots: &S, t: MapTranscript) -> bool {
    &&& call_ensures(S::get_memory_map, (slots, 0usize, 0usize), t.query)
    &&& (spec_map_plan(t.query) matches Plan::Allocate(capacity) ==> call_ensures(
        S::allocate_pool,
        (slots, MemoryType::LoaderData, capacity),
        t.allocation,
    ))
    &&& (spec_map_buffer(t) matches Some(b) ==> call_ensures(
        S::get_memory_map,
        (slots, b.0, b.1),
        t.retrieval,
    ))
    &&& (spec_map_given_back(t) matches Some(buffer) ==> call_ensures(
        S::free_pool,
        (slots, buffer),
        t.release,
    ))
}

/// A buffer that was obtained ends in exactly one place: in the map that comes
/// out, or back with the firmware.
pub proof fn lemma_map_buffer_kept_or_given_back(t: MapTranscript)
    requires
        spec_map_plan(t.query) is Allocate,
        !t.allocation.0.is_error(),
        t.allocation.1 != 0,
    ensures
        spec_map_result(t) matches Ok(layout) ==> layout.buffer == t.allocation.1
            && spec_map_given_back(t) is None,
        spec_map_result(t) is Err ==> spec_map_given_back(t) == Some(t.allocation.1),
{
}

/// Whatever the firmware answers, a map that comes out is well formed and an
/// error that comes out is an error status.
pub proof fn lemma_map_result_sound(t: MapTranscript)
    ensures
        spec_map_result(t) matches Ok(layout) ==> layout.wf(),
        spec_map_result(t) matches Err(e) ==> e.is_error(),
{
    crate::types::lemma_status_classification(Status::BadBufferSize);
    crate::types::lemma_status_classification(Status::OutOfResources);
}

/// Unless the size query answers "buffer too small", the result is decided by
/// that answer alone: no allocation and no second call has a say in it, an error
/// comes back unchanged, and a success is a map without a buffer.
pub proof fn lemma_map_query_decides(t: MapTranscript)
    requires
        t.query.status != Status::BufferTooSmall,
    ensures
        spec_map_buffer(t) is None,
        !(spec_map_plan(t.query) is Allocate),
        t.query.status.is_error() ==> spec_map_result(t) == Err::<MapLayout, Status>(
            t.query.status,
        ),
        !t.query.status.is_error() ==> (spec_map_result(t) matches Ok(layout) && layout.buffer
            == 0 && layout.size == 0),
{
}

impl<'a, S: BootSlots> MemoryMap<'a, S> {
    /// Gives the buffer back to the firmware. A map without a buffer has nothing
    /// to give back.
    pub fn release(self) -> (r: Result<(), Status>)
        ensures
            self.spec_layout().buffer == 0 ==> r == Ok::<(), Status>(()),
            self.spec_layout().buffer != 0 ==> exists|status: Status|
                call_ensures(
                    S::free_pool,
                    (&self.spec_boot_services().slots, self.spec_layout().buffer),
                    status,
                ) && r == spec_outcome(status, ()),
    {
        if self.layout.buffer == 0 {
            Ok(())
        } else {
            let status = self.boot_services.slots.free_pool(self.layout.buffer);
            outcome(status, ())
        }
    }
}

impl<S: BootSlots> BootServices<S> {
    /// Allocates memory pages from the system
    ///
    /// `memory` goes to the firmware as it is, and holds afterwards what the
    /// firmware left there.
    pub fn allocate_pages(
        &self,
        allocation_type: AllocateType,
        memory_type: MemoryType,
        pages: usize,
        memory: &mut PhysicalAddress,
    ) -> (r: Result<(), Status>)
        ensures
            exists|reply: (Status, PhysicalAddress)|
                call_ensures(
                    S::allocate_pages,
                    (&self.slots, allocation_type, memory_type, pages, *old(memory)),
                    reply,
                ) && *final(memory) == reply.1 && r == spec_outcome(reply.0, ()),
    {
        let reply = self.slots.allocate_pages(allocation_type, memory_type, pages, *memory);
        *memory = reply.1;
        outcome(reply.0, ())
    }

    /// Frees memory pages
    pub fn free_pages(&self, memory: PhysicalAddress, pages: usize) -> (r: Result<(), Status>)
        ensures
            exists|status: Status|
                call_ensures(S::free_pages, (&self.slots, memory, pages), status) && r
                    == spec_outcome(status, ()),
    {
        let status = self.slots.free_pages(memory, pages);
        outcome(status, ())
    }

    /// Returns the current memory map
    ///
    /// The firmware is first asked for the size of the map. Unless it answers
    /// "buffer too small" that answer is final and nothing is allocated. Otherwise
    /// a buffer of that size and some headroom is allocated and the firmware asked
    /// again, once. Where a buffer was obtained and no map comes out, the buffer
    /// has been given back to the firmware before the error is returned.
    pub fn get_memory_map<'a>(&'a self) -> (r: Result<MemoryMap<'a, S>, Status>)
        ensures
            exists|t: MapTranscript|
                #[trigger] map_transcript_admissible(&self.slots, t) && (match spec_map_result(t) {
                    Ok(layout) => r matches Ok(map) && map.spec_layout() == layout
                        && map.spec_boot_services() == *self,
                    Err(e) => r matches Err(status) && status == e,
                }),
            r matches Ok(map) ==> map.spec_layout().wf(),
            r matches Err(e) ==> e.is_error(),
    {
        let query = self.slots.get_memory_map(0, 0);
        let ghost mut t = MapTranscript {
            query,
            allocation: (Status::Success, 0),
            retrieval: query,
            release: Status::Success,
        };
        match plan(query.status, query.size, query.descriptor_size, MAP_HEADROOM) {
            Plan::Empty => {
                proof {
                    lemma_map_result_sound(t);
                    assert(map_transcript_admissible(&self.slots, t));
                }
                Ok(
                    MemoryMap {
                        boot_services: self,
                        layout: MapLayout {
                            buffer: 0,
                            descriptor_size: query.descriptor_size,
                            descriptor_version: query.descriptor_version,
                            key: query.key,
                            size: 0,
                        },
                    },
                )
            },
            Plan::Fail(e) => {
                proof {
                    lemma_map_result_sound(t);
                    assert(map_transcript_admissible(&self.slots, t));
                }
                Err(e)
            },
            Plan::Allocate(capacity) => {
                let allocation = self.slots.allocate_pool(MemoryType::LoaderData, capacity);
                proof {
                    t = MapTranscript { allocation, ..t };
                }
                match allocation.0.as_result() {
                    Err(e) => {
                        proof {
                            lemma_map_result_sound(t);
                            assert(map_transcript_admissible(&self.slots, t));
                        }
                        Err(e)
                    },
                    Ok(_) => {
                        let buffer = allocation.1;
                        if buffer == 0 {
                            proof {
                                lemma_map_result_sound(t);
                                assert(map_transcript_admissible(&self.slots, t));
                            }
                            Err(Status::OutOfResources)
                        } else if capacity > usize::MAX - buffer {
                            let release = self.slots.free_pool(buffer);
                            proof {
                                t = MapTranscript { release, ..t };
                                lemma_map_result_sound(t);
                                assert(map_transcript_admissible(&self.slots, t));
                            }
                            Err(Status::BadBufferSize)
                        } else {
                            let retrieval = self.slots.get_memory_map(buffer, capacity);
                            proof {
                                t = MapTranscript { retrieval, ..t };
                                assert(spec_map_buffer(t) == Some((buffer, capacity)));
                            }
                            match delivered(retrieval.status, retrieval.size, capacity) {
                                Err(e) => {
                                    let release = self.slots.free_pool(buffer);
                                    proof {
                                        t = MapTranscript { release, ..t };
                                        lemma_map_result_sound(t);
                                        assert(spec_map_buffer(t) == Some((buffer, capacity)));
                                        assert(map_transcript_admissible(&self.slots, t));
                                    }
                                    Err(e)
                                },
                                Ok(size) => {
                                    if retrieval.descriptor_size < DESCRIPTOR_SIZE {
                                        let release = self.slots.free_pool(buffer);
                                        proof {
                                            t = MapTranscript { release, ..t };
                                            lemma_map_result_sound(t);
                                            assert(spec_map_buffer(t) == Some((buffer, capacity)));
                                            assert(map_transcript_admissible(&self.slots, t));
                                        }
                                        Err(Status::BadBufferSize)
                                    } else {
                                        proof {
                                            lemma_map_result_sound(t);
                                            assert(map_transcript_admissible(&self.slots, t));
                                        }
                                        Ok(
                                            MemoryMap {
                                                boot_services: self,
                                                layout: MapLayout {
                                                    buffer,
                                                    descriptor_size: retrieval.descriptor_size,
                                                    descriptor_version:
                                                        retrieval.descriptor_version,
                                                    key: retrieval.key,
                                                    size,
                                                },
                                            },
                                        )
                                    }
                                },
                            }
                        }
                    },
                }
            },
        }
    }

    /// Allocates pool memory
    pub fn allocate_pool(&self, pool_type: MemoryType, size: usize) -> (r: Result<usize, Status>)
        ensures
            exists|reply: (Status, usize)|
                call_ensures(S::allocate_pool, (&self.slots, pool_type, size), reply) && r
                    == spec_outcome(reply.0, reply.1),
    {
        let reply = self.slots.allocate_pool(pool_type, size);
        outcome(reply.0, reply.1)
    }

    /// Returns pool memory to the system
    pub fn free_pool(&self, buffer: usize) -> (r: Result<(), Status>)
        ensures
            exists|status: Status|
                call_ensures(S::free_pool, (&self.slots, buffer), status) && r == spec_outcome(
                    status,
                    (),
                ),
    {
        let status = self.slots.free_pool(buffer);
        outcome(status, ())
    }

    /// Allocates a slice from pool memory
    ///
    /// The slice has room for `count` elements of `element_size` bytes each. A
    /// slice whose size does not fit the address space is refused with
    /// `BadBufferSize`, and the firmware is not asked.
    pub fn allocate_slice(&self, count: usize, element_size: usize) -> (r: Result<Pool, Status>)
        ensures
            count * element_size > usize::MAX ==> r == Err::<Pool, Status>(Status::BadBufferSize),
            count * element_size <= usize::MAX ==> exists|reply: (Status, usize)|
                call_ensures(
                    S::allocate_pool,
                    (&self.slots, MemoryType::LoaderData, (count * element_size) as usize),
                    reply,
                ) && r == spec_outcome(
                    reply.0,
                    Pool { buffer: reply.1, count, element_size },
                ),
    {
        match count.checked_mul(element_size) {
            None => Err(Status::BadBufferSize),
            Some(size) => {
                let reply = self.slots.allocate_pool(MemoryType::LoaderData, size);
                outcome(reply.0, Pool { buffer: reply.1, count, element_size })
            },
        }
    }
}

} // verus!
