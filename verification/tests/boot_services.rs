use std::cell::RefCell;
use std::collections::BTreeMap;

use efi::boot_services::events::{
    Event, EventType, Notification, TimerDelay, NOTIFY_SIGNAL, TIMER, TPL,
};
use efi::boot_services::memory::{
    AllocateType, MapLayout, MemoryDescriptor, MemoryMapReply, MemoryType, Pool, DESCRIPTOR_SIZE,
    MAP_HEADROOM,
};
use efi::boot_services::protocols::{
    Guid, OpenProtocolAttributes, Protocol, ProtocolHandle, SearchType, BY_HANDLE_PROTOCOL,
    HANDLE_SIZE,
};
use efi::boot_services::{BootServices, BootSlots};
use efi::protocols::files::{
    label_unit_count, File, FileInfo, FileInformationType, FileSlots, FileSystemInfo,
    FileSystemSlots, InfoBuffer, SimpleFileSystem, LABEL_OFFSET,
};
use efi::protocols::text::{SimpleTextInput, SimpleTextOutput, TextInputSlots};
use efi::runtime::{pages_for, AllocErr, PageAllocator};
use efi::types::{Bool, Handle, PhysicalAddress, Status, TableHeader};

const STRIDE: usize = 48;
const ECHO: usize = 0x1000;

struct EventState {
    signaled: bool,
    closed: bool,
    function: usize,
    context: usize,
    timer: Option<(TimerDelay, u64)>,
}

struct Opening {
    handle: Handle,
    protocol: Guid,
    agent: Handle,
    controller: Handle,
}

struct State {
    calls: Vec<String>,
    tpl: Vec<TPL>,
    events: Vec<EventState>,
    arriving: Vec<usize>,
    strings: BTreeMap<usize, String>,
    observed: Vec<String>,
    pool: BTreeMap<usize, usize>,
    next_pool: usize,
    pool_fails: bool,
    pool_null: bool,
    pool_at: Option<usize>,
    pages: BTreeMap<PhysicalAddress, usize>,
    descriptors: Vec<MemoryDescriptor>,
    growth: usize,
    stride: usize,
    key: usize,
    map_query: Option<Status>,
    written_maps: BTreeMap<usize, Vec<MemoryDescriptor>>,
    installed: Vec<(Handle, Vec<Guid>)>,
    empty_is_success: bool,
    locate_second: Option<Status>,
    written_handles: BTreeMap<usize, Vec<Handle>>,
    openings: Vec<Opening>,
    exited: bool,
}

struct Firmware {
    state: RefCell<State>,
}

fn descriptor(kind: MemoryType, start: u64, pages: u64) -> MemoryDescriptor {
    MemoryDescriptor {
        memory_type: kind,
        physical_start: start,
        virtual_start: 0,
        number_of_pages: pages,
        attribute: 0xF,
    }
}

impl Firmware {
    fn new() -> Firmware {
        Firmware {
            state: RefCell::new(State {
                calls: Vec::new(),
                tpl: vec![TPL::Application],
                events: Vec::new(),
                arriving: Vec::new(),
                strings: BTreeMap::new(),
                observed: Vec::new(),
                pool: BTreeMap::new(),
                next_pool: 0x10_0000,
                pool_fails: false,
                pool_null: false,
                pool_at: None,
                pages: BTreeMap::new(),
                descriptors: vec![
                    descriptor(MemoryType::BootServicesCode, 0x0, 1),
                    descriptor(MemoryType::ConventionalMemory, 0x1000, 159),
                    descriptor(MemoryType::LoaderCode, 0x10_0000, 32),
                    descriptor(MemoryType::ACPIReclaimMemory, 0x7F00_0000, 16),
                ],
                growth: 1,
                stride: STRIDE,
                key: 77,
                map_query: None,
                written_maps: BTreeMap::new(),
                installed: Vec::new(),
                empty_is_success: true,
                locate_second: None,
                written_handles: BTreeMap::new(),
                openings: Vec::new(),
                exited: false,
            }),
        }
    }

    fn log(&self, call: &str) {
        self.state.borrow_mut().calls.push(call.to_string());
    }

    fn count(&self, call: &str) -> usize {
        self.state.borrow().calls.iter().filter(|c| c.as_str() == call).count()
    }

    fn notify(&self, index: usize) {
        let (function, context) = {
            let state = self.state.borrow();
            (state.events[index].function, state.events[index].context)
        };
        if function == ECHO {
            let mut state = self.state.borrow_mut();
            let seen = state.strings.get(&context).cloned().unwrap_or_default();
            state.observed.push(seen);
        }
    }

    fn live(&self, token: usize) -> Option<usize> {
        let state = self.state.borrow();
        if token >= 1 && token <= state.events.len() && !state.events[token - 1].closed {
            Some(token - 1)
        } else {
            None
        }
    }
}

impl BootSlots for Firmware {
    fn raise_tpl(&self, new_tpl: TPL) -> Status {
        self.log("raise_tpl");
        let mut state = self.state.borrow_mut();
        if new_tpl.level() < state.tpl.last().unwrap().level() {
            return Status::InvalidParameter;
        }
        state.tpl.push(new_tpl);
        Status::Success
    }

    fn restore_tpl(&self, old_tpl: TPL) -> Status {
        self.log("restore_tpl");
        let mut state = self.state.borrow_mut();
        if state.tpl.len() < 2 || state.tpl[state.tpl.len() - 2] != old_tpl {
            return Status::InvalidParameter;
        }
        state.tpl.pop();
        Status::Success
    }

    fn allocate_pages(
        &self,
        allocation_type: AllocateType,
        _memory_type: MemoryType,
        pages: usize,
        memory: PhysicalAddress,
    ) -> (Status, PhysicalAddress) {
        self.log("allocate_pages");
        let mut state = self.state.borrow_mut();
        if pages == 0 {
            return (Status::InvalidParameter, memory);
        }
        if pages > 1024 {
            return (Status::OutOfResources, memory);
        }
        let address = match allocation_type {
            AllocateType::AllocateAddress => memory,
            _ => 0x40_0000 + 0x1000 * state.pages.len() as u64 * 1024,
        };
        state.pages.insert(address, pages);
        (Status::Success, address)
    }

    fn free_pages(&self, memory: PhysicalAddress, pages: usize) -> Status {
        self.log("free_pages");
        let mut state = self.state.borrow_mut();
        if state.pages.get(&memory) == Some(&pages) {
            state.pages.remove(&memory);
            Status::Success
        } else {
            Status::NotFound
        }
    }

    fn get_memory_map(&self, buffer: usize, capacity: usize) -> MemoryMapReply {
        self.log("get_memory_map");
        let mut state = self.state.borrow_mut();
        let needed = state.descriptors.len() * state.stride;
        let mut reply = MemoryMapReply {
            status: Status::Success,
            size: needed,
            key: state.key,
            descriptor_size: state.stride,
            descriptor_version: 1,
        };
        if buffer == 0 {
            if let Some(status) = state.map_query {
                reply.status = status;
                return reply;
            }
        }
        if capacity < needed {
            reply.status = Status::BufferTooSmall;
            return reply;
        }
        let written = state.descriptors.clone();
        state.written_maps.insert(buffer, written);
        reply
    }

    fn allocate_pool(&self, _pool_type: MemoryType, size: usize) -> (Status, usize) {
        self.log("allocate_pool");
        let mut state = self.state.borrow_mut();
        if state.pool_fails {
            return (Status::OutOfResources, 0);
        }
        if state.pool_null {
            return (Status::Success, 0);
        }
        if let Some(address) = state.pool_at {
            state.pool.insert(address, size);
            return (Status::Success, address);
        }
        let address = state.next_pool;
        state.next_pool += (size + 0xFFF) / 0x1000 * 0x1000 + 0x1000;
        state.pool.insert(address, size);
        for _ in 0..state.growth {
            let start = address as u64;
            state.descriptors.push(descriptor(MemoryType::LoaderData, start, 1));
        }
        state.key += 1;
        (Status::Success, address)
    }

    fn free_pool(&self, buffer: usize) -> Status {
        self.log("free_pool");
        let mut state = self.state.borrow_mut();
        if state.pool.remove(&buffer).is_some() {
            Status::Success
        } else {
            Status::InvalidParameter
        }
    }

    fn descriptor_at(&self, address: usize) -> MemoryDescriptor {
        let state = self.state.borrow();
        let (base, entries) = state.written_maps.range(..=address).next_back().unwrap();
        assert!(state.pool.contains_key(base));
        assert!(address + DESCRIPTOR_SIZE <= base + state.pool[base]);
        assert_eq!((address - base) % state.stride, 0);
        entries[(address - base) / state.stride]
    }

    fn handle_at(&self, address: usize) -> Handle {
        let state = self.state.borrow();
        let (base, entries) = state.written_handles.range(..=address).next_back().unwrap();
        assert!(state.pool.contains_key(base));
        assert!(address + HANDLE_SIZE <= base + state.pool[base]);
        assert_eq!((address - base) % HANDLE_SIZE, 0);
        entries[(address - base) / HANDLE_SIZE]
    }

    fn locate_handle(
        &self,
        search_type: SearchType,
        protocol: Option<Guid>,
        _search_key: usize,
        buffer: usize,
        capacity: usize,
    ) -> (Status, usize) {
        self.log("locate_handle");
        let mut state = self.state.borrow_mut();
        let found: Vec<Handle> = match search_type {
            SearchType::AllHandles => state.installed.iter().map(|entry| entry.0).collect(),
            SearchType::ByProtocol => match protocol {
                Some(guid) => state
                    .installed
                    .iter()
                    .filter(|entry| entry.1.contains(&guid))
                    .map(|entry| entry.0)
                    .collect(),
                None => return (Status::InvalidParameter, 0),
            },
            SearchType::ByRegisterNotify => return (Status::Unsupported, 0),
        };
        if found.is_empty() {
            return if state.empty_is_success {
                (Status::Success, 0)
            } else {
                (Status::NotFound, 0)
            };
        }
        let needed = found.len() * HANDLE_SIZE;
        if capacity < needed {
            return (Status::BufferTooSmall, needed);
        }
        if let Some(status) = state.locate_second {
            return (status, needed);
        }
        state.written_handles.insert(buffer, found);
        (Status::Success, needed)
    }

    fn open_protocol(
        &self,
        handle: Handle,
        protocol: Guid,
        agent_handle: Handle,
        controller_handle: Handle,
        _attributes: OpenProtocolAttributes,
    ) -> (Status, usize) {
        self.log("open_protocol");
        let mut state = self.state.borrow_mut();
        let supported = state
            .installed
            .iter()
            .any(|entry| entry.0 == handle && entry.1.contains(&protocol));
        if !supported {
            return (Status::Unsupported, 0);
        }
        state.openings.push(Opening {
            handle,
            protocol,
            agent: agent_handle,
            controller: controller_handle,
        });
        (Status::Success, 0x9000 + handle.raw())
    }

    fn close_protocol(
        &self,
        handle: Handle,
        protocol: Guid,
        agent_handle: Handle,
        controller_handle: Handle,
    ) -> Status {
        self.log("close_protocol");
        let mut state = self.state.borrow_mut();
        let place = state.openings.iter().position(|o| {
            o.handle == handle
                && o.protocol == protocol
                && o.agent == agent_handle
                && o.controller == controller_handle
        });
        match place {
            Some(index) => {
                state.openings.remove(index);
                Status::Success
            }
            None => Status::NotFound,
        }
    }

    fn exit_boot_services(&self, _image_handle: Handle, map_key: usize) -> Status {
        self.log("exit_boot_services");
        let mut state = self.state.borrow_mut();
        if map_key != state.key {
            return Status::InvalidParameter;
        }
        state.exited = true;
        Status::Success
    }

    fn create_event(
        &self,
        event_type: EventType,
        _notify_tpl: TPL,
        notify_function: usize,
        notify_context: usize,
    ) -> (Status, usize) {
        self.log("create_event");
        let mut state = self.state.borrow_mut();
        if event_type.bits() & NOTIFY_SIGNAL != 0 && notify_function == 0 {
            return (Status::InvalidParameter, 0);
        }
        state.events.push(EventState {
            signaled: false,
            closed: false,
            function: notify_function,
            context: notify_context,
            timer: None,
        });
        (Status::Success, state.events.len())
    }

    fn set_timer(&self, event: usize, timer_type: TimerDelay, trigger_time: u64) -> Status {
        self.log("set_timer");
        match self.live(event) {
            Some(index) => {
                self.state.borrow_mut().events[index].timer = Some((timer_type, trigger_time));
                Status::Success
            }
            None => Status::InvalidParameter,
        }
    }

    fn wait_for_event(&self, events: &[Event]) -> (Status, usize) {
        self.log("wait_for_event");
        if events.is_empty() {
            return (Status::InvalidParameter, 0);
        }
        for (place, event) in events.iter().enumerate() {
            if self.live(event.token).is_none() {
                return (Status::InvalidParameter, place);
            }
        }
        loop {
            for (place, event) in events.iter().enumerate() {
                let index = event.token - 1;
                let mut state = self.state.borrow_mut();
                if state.events[index].signaled {
                    state.events[index].signaled = false;
                    return (Status::Success, place);
                }
            }
            let arrived = self.state.borrow_mut().arriving.pop();
            match arrived {
                Some(token) => {
                    self.signal_event(token);
                }
                None => return (Status::Timeout, 0),
            }
        }
    }

    fn signal_event(&self, event: usize) -> Status {
        self.log("signal_event");
        match self.live(event) {
            Some(index) => {
                let already = self.state.borrow().events[index].signaled;
                if !already {
                    self.state.borrow_mut().events[index].signaled = true;
                    self.notify(index);
                }
                Status::Success
            }
            None => Status::InvalidParameter,
        }
    }

    fn close_event(&self, event: usize) -> Status {
        self.log("close_event");
        match self.live(event) {
            Some(index) => {
                self.state.borrow_mut().events[index].closed = true;
                Status::Success
            }
            None => Status::InvalidParameter,
        }
    }

    fn check_event(&self, event: usize) -> Status {
        self.log("check_event");
        match self.live(event) {
            Some(index) => {
                let mut state = self.state.borrow_mut();
                if state.events[index].signaled {
                    state.events[index].signaled = false;
                    Status::Success
                } else {
                    Status::NotReady
                }
            }
            None => Status::InvalidParameter,
        }
    }
}

fn header() -> TableHeader {
    TableHeader { signature: 0x56524553544f4f42, revision: 0x0002_0046, header_size: 376, crc32: 0, reserved: 0 }
}

fn services() -> BootServices<Firmware> {
    BootServices::new(header(), Firmware::new())
}

fn text_input_guid() -> Guid {
    Guid {
        data_1: 0x387477c1,
        data_2: 0x69c7,
        data_3: 0x11d2,
        data_4: [0x8e, 0x39, 0x00, 0xa0, 0xc9, 0x69, 0x72, 0x3b],
    }
}

struct NoInput;

impl TextInputSlots for NoInput {
    fn reset(&self, _extended_verification: Bool) -> Status {
        Status::Unsupported
    }

    fn read_key_stroke(&self) -> (Status, efi::protocols::text::InputKey) {
        (Status::NotReady, efi::protocols::text::InputKey::default())
    }
}

struct NoFileSystem;

impl FileSystemSlots for NoFileSystem {
    fn open_volume(&self) -> (Status, usize) {
        (Status::NoMedia, 0)
    }
}

// ---- events ----

#[test]
fn new_boot_services_keep_their_header() {
    let bs = services();
    assert_eq!(bs.hdr, header());
}

#[test]
fn event_default_is_the_null_token() {
    let event = Event::default();
    assert_eq!(event.token, 0);
    assert!(event.notification.is_none());
}

#[test]
fn tpl_levels_keep_the_firmware_numbers() {
    assert_eq!(TPL::Application.level(), 4);
    assert_eq!(TPL::Callback.level(), 8);
    assert_eq!(TPL::Notify.level(), 16);
    assert_eq!(TPL::HightLevel.level(), 31);
}

#[test]
fn event_type_bits() {
    assert_eq!(EventType::empty().bits(), 0);
    assert!(EventType::empty().is_empty());
    assert_eq!(EventType::from_bits(TIMER).unwrap().bits(), 0x8000_0000);
    assert_eq!(EventType::from_bits(NOTIFY_SIGNAL).unwrap().bits(), 0x200);
    assert!(EventType::from_bits(0x0000_0004).is_none());
    assert_eq!(EventType::from_bits_truncate(0xFFFF_FFFF).bits(), 0xE000_0303);
    let both = EventType::from_bits(TIMER).unwrap().union(EventType::from_bits(NOTIFY_SIGNAL).unwrap());
    assert_eq!(both.bits(), 0x8000_0200);
    assert!(both.contains(EventType::from_bits(TIMER).unwrap()));
    assert!(!EventType::from_bits(TIMER).unwrap().contains(both));
}

#[test]
fn create_event_without_callback_registers_none() {
    let bs = services();
    let event = bs.create_event(EventType::empty(), TPL::Callback, None, 0x55).unwrap();
    assert_eq!(event.token, 1);
    assert!(event.notification.is_none());
    let state = bs.slots.state.borrow();
    assert_eq!(state.events[0].function, 0);
    assert_eq!(state.events[0].context, 0x55);
}

#[test]
fn create_event_hands_function_and_context_through_unchanged() {
    let bs = services();
    let event = bs
        .create_event(EventType::from_bits(NOTIFY_SIGNAL).unwrap(), TPL::Callback, Some(ECHO), 0x2000)
        .unwrap();
    let notification: Notification = event.notification.unwrap();
    assert_eq!(notification.function, ECHO);
    assert_eq!(notification.context, 0x2000);
    let state = bs.slots.state.borrow();
    assert_eq!(state.events[0].function, ECHO);
    assert_eq!(state.events[0].context, 0x2000);
}

#[test]
fn create_event_reports_the_firmware_error() {
    let bs = services();
    let r = bs.create_event(EventType::from_bits(NOTIFY_SIGNAL).unwrap(), TPL::Callback, None, 0);
    assert_eq!(r.err(), Some(Status::InvalidParameter));
}

#[test]
fn callback_observes_its_context_exactly_once() {
    let bs = services();
    bs.slots.state.borrow_mut().strings.insert(0x2000, "callback message".to_string());
    let event = bs
        .create_event(EventType::from_bits(NOTIFY_SIGNAL).unwrap(), TPL::Callback, Some(ECHO), 0x2000)
        .unwrap();
    assert!(bs.slots.state.borrow().observed.is_empty());
    assert_eq!(bs.signal_event(&event), Ok(()));
    assert_eq!(bs.slots.state.borrow().observed, vec!["callback message".to_string()]);
    assert_eq!(bs.slots.count("signal_event"), 1);
}

#[test]
fn new_event_is_not_ready() {
    let bs = services();
    let event = bs.create_event(EventType::empty(), TPL::Callback, None, 0).unwrap();
    assert_eq!(bs.check_event(&event), Err(Status::NotReady));
    assert_eq!(bs.signal_event(&event), Ok(()));
    assert_eq!(bs.check_event(&event), Ok(()));
    assert_eq!(bs.check_event(&event), Err(Status::NotReady));
}

#[test]
fn wait_returns_index_zero_after_an_external_signal() {
    let bs = services();
    let event = bs.create_event(EventType::empty(), TPL::Callback, None, 0).unwrap();
    assert_eq!(bs.check_event(&event), Err(Status::NotReady));
    bs.slots.state.borrow_mut().arriving.push(event.token);
    assert_eq!(bs.wait_for_event(&[event]), Ok(0));
}

#[test]
fn wait_returns_the_index_of_the_signaled_event() {
    let bs = services();
    let first = bs.create_event(EventType::empty(), TPL::Callback, None, 0).unwrap();
    let second = bs.create_event(EventType::empty(), TPL::Callback, None, 0).unwrap();
    assert_eq!(bs.signal_event(&second), Ok(()));
    assert_eq!(bs.wait_for_event(&[first, second]), Ok(1));
    assert_eq!(bs.wait_for_event(&[]), Err(Status::InvalidParameter));
}

#[test]
fn closed_event_is_gone() {
    let bs = services();
    let event = bs.create_event(EventType::empty(), TPL::Callback, None, 0).unwrap();
    assert_eq!(bs.close_event(&event), Ok(()));
    assert_eq!(bs.close_event(&event), Err(Status::InvalidParameter));
    assert_eq!(bs.signal_event(&event), Err(Status::InvalidParameter));
    assert_eq!(bs.check_event(&event), Err(Status::InvalidParameter));
}

#[test]
fn set_timer_hands_its_arguments_through() {
    let bs = services();
    let event = bs.create_event(EventType::from_bits(TIMER).unwrap(), TPL::Callback, None, 0).unwrap();
    assert_eq!(bs.set_timer(&event, TimerDelay::Relative, 10_000_000), Ok(()));
    assert_eq!(
        bs.slots.state.borrow().events[0].timer,
        Some((TimerDelay::Relative, 10_000_000))
    );
    assert_eq!(bs.set_timer(&Event::default(), TimerDelay::Cancel, 0), Err(Status::InvalidParameter));
}

#[test]
fn raise_and_restore_tpl_pair_up() {
    let bs = services();
    assert_eq!(bs.raise_tpl(TPL::Notify), Ok(()));
    assert_eq!(bs.raise_tpl(TPL::Callback), Err(Status::InvalidParameter));
    assert_eq!(bs.restore_tpl(TPL::Callback), Err(Status::InvalidParameter));
    assert_eq!(bs.restore_tpl(TPL::Application), Ok(()));
}

// ---- memory ----

#[test]
fn allocate_pages_leaves_the_address_in_place() {
    let bs = services();
    let mut address: PhysicalAddress = 0;
    let r = bs.allocate_pages(AllocateType::AllocateAnyPages, MemoryType::LoaderData, 1, &mut address);
    assert_eq!(r, Ok(()));
    assert_eq!(address, 0x40_0000);
    assert_eq!(bs.free_pages(address, 1), Ok(()));
    assert_eq!(bs.free_pages(address, 1), Err(Status::NotFound));
}

#[test]
fn allocate_pages_at_an_address_starts_from_what_was_handed_in() {
    let bs = services();
    let mut address: PhysicalAddress = 0x123000;
    let r = bs.allocate_pages(AllocateType::AllocateAddress, MemoryType::LoaderData, 2, &mut address);
    assert_eq!(r, Ok(()));
    assert_eq!(address, 0x123000);
    let mut other: PhysicalAddress = 9;
    let failed = bs.allocate_pages(AllocateType::AllocateAnyPages, MemoryType::LoaderData, 0, &mut other);
    assert_eq!(failed, Err(Status::InvalidParameter));
    assert_eq!(other, 9);
}

#[test]
fn pool_allocation_and_release() {
    let bs = services();
    let buffer = bs.allocate_pool(MemoryType::LoaderData, 128).unwrap();
    assert_eq!(buffer, 0x10_0000);
    assert_eq!(bs.free_pool(buffer), Ok(()));
    assert_eq!(bs.free_pool(buffer), Err(Status::InvalidParameter));
    bs.slots.state.borrow_mut().pool_fails = true;
    assert_eq!(bs.allocate_pool(MemoryType::LoaderData, 128), Err(Status::OutOfResources));
}

#[test]
fn allocate_slice_multiplies_count_and_element_size() {
    let bs = services();
    let pool = bs.allocate_slice(10, 8).unwrap();
    assert_eq!(pool, Pool { buffer: 0x10_0000, count: 10, element_size: 8 });
    assert_eq!(bs.slots.state.borrow().pool[&0x10_0000], 80);
}

#[test]
fn allocate_slice_refuses_a_size_beyond_the_address_space() {
    let bs = services();
    assert_eq!(bs.allocate_slice(usize::MAX, 2), Err(Status::BadBufferSize));
    assert_eq!(bs.slots.count("allocate_pool"), 0);
}

#[test]
fn memory_type_codes() {
    assert_eq!(MemoryType::ReservedMemoryType.code(), 0);
    assert_eq!(MemoryType::LoaderData.code(), 2);
    assert_eq!(MemoryType::ConventionalMemory.code(), 7);
    assert_eq!(MemoryType::MaxMemoryType.code(), 15);
    assert_eq!(MemoryType::from_code(14), Some(MemoryType::PersistentMemory));
    assert_eq!(MemoryType::from_code(16), None);
}

#[test]
fn memory_map_is_fetched_with_headroom_and_the_firmware_stride() {
    let bs = services();
    let map = bs.get_memory_map().unwrap();
    // Four entries at the query, one more for the buffer itself.
    assert_eq!(bs.slots.state.borrow().pool[&0x10_0000], 4 * STRIDE + MAP_HEADROOM * STRIDE);
    assert_eq!(map.size(), 5 * STRIDE);
    assert_eq!(map.len(), 5);
    assert_eq!(map.key(), 78);
    let layout: MapLayout = map.layout();
    assert_eq!(layout.buffer, 0x10_0000);
    assert_eq!(layout.descriptor_size, STRIDE);
    assert_eq!(layout.descriptor_version, 1);
    assert!(layout.descriptor_size > DESCRIPTOR_SIZE);
    assert!(map.len() * layout.descriptor_size <= map.size());
    assert_eq!(map.index(0), descriptor(MemoryType::BootServicesCode, 0x0, 1));
    assert_eq!(map.index(3), descriptor(MemoryType::ACPIReclaimMemory, 0x7F00_0000, 16));
    assert_eq!(map.index(4), descriptor(MemoryType::LoaderData, 0x10_0000, 1));
    let entries = map.iter();
    assert_eq!(entries.len(), 5);
    assert_eq!(entries[1], descriptor(MemoryType::ConventionalMemory, 0x1000, 159));
    assert_eq!(bs.slots.count("get_memory_map"), 2);
    assert_eq!(bs.slots.count("allocate_pool"), 1);
    assert_eq!(map.release(), Ok(()));
    assert!(bs.slots.state.borrow().pool.is_empty());
}

#[test]
fn memory_map_key_serves_to_exit_boot_services() {
    let bs = services();
    let map = bs.get_memory_map().unwrap();
    assert_eq!(bs.exit_boot_services(Handle::from_raw(1), map.key() + 1), Err(Status::InvalidParameter));
    assert_eq!(bs.exit_boot_services(Handle::from_raw(1), map.key()), Ok(()));
    assert!(bs.slots.state.borrow().exited);
}

#[test]
fn memory_map_query_error_is_returned_unchanged_and_nothing_is_allocated() {
    let bs = services();
    bs.slots.state.borrow_mut().map_query = Some(Status::InvalidParameter);
    assert_eq!(bs.get_memory_map().err(), Some(Status::InvalidParameter));
    assert_eq!(bs.slots.count("allocate_pool"), 0);
    assert_eq!(bs.slots.count("get_memory_map"), 1);
}

#[test]
fn memory_map_query_success_is_an_empty_map_and_nothing_is_allocated() {
    let bs = services();
    bs.slots.state.borrow_mut().map_query = Some(Status::Success);
    let map = bs.get_memory_map().unwrap();
    assert_eq!(map.len(), 0);
    assert_eq!(map.size(), 0);
    assert_eq!(map.layout().buffer, 0);
    assert!(map.iter().is_empty());
    assert_eq!(bs.slots.count("allocate_pool"), 0);
    assert_eq!(map.release(), Ok(()));
    assert_eq!(bs.slots.count("free_pool"), 0);
}

#[test]
fn memory_map_second_too_small_fails_and_gives_the_buffer_back() {
    let bs = services();
    bs.slots.state.borrow_mut().growth = 4;
    assert_eq!(bs.get_memory_map().err(), Some(Status::BufferTooSmall));
    assert_eq!(bs.slots.count("get_memory_map"), 2);
    assert!(bs.slots.state.borrow().pool.is_empty());
}

#[test]
fn memory_map_failed_second_call_gives_the_buffer_back_exactly_once() {
    let bs = services();
    bs.slots.state.borrow_mut().growth = 4;
    assert_eq!(bs.get_memory_map().err(), Some(Status::BufferTooSmall));
    assert_eq!(bs.slots.count("allocate_pool"), 1);
    assert_eq!(bs.slots.count("free_pool"), 1);
    assert!(bs.slots.state.borrow().pool.is_empty());
}

#[test]
fn memory_map_that_comes_out_keeps_its_buffer_until_released() {
    let bs = services();
    let map = bs.get_memory_map().unwrap();
    assert_eq!(bs.slots.count("free_pool"), 0);
    assert_eq!(bs.slots.state.borrow().pool.len(), 1);
    assert_eq!(map.release(), Ok(()));
    assert_eq!(bs.slots.count("free_pool"), 1);
}

#[test]
fn memory_map_allocation_failure_is_returned() {
    let bs = services();
    bs.slots.state.borrow_mut().pool_fails = true;
    assert_eq!(bs.get_memory_map().err(), Some(Status::OutOfResources));
    assert_eq!(bs.slots.count("get_memory_map"), 1);
}

#[test]
fn memory_map_null_buffer_is_out_of_resources() {
    let bs = services();
    bs.slots.state.borrow_mut().pool_null = true;
    assert_eq!(bs.get_memory_map().err(), Some(Status::OutOfResources));
    assert_eq!(bs.slots.count("get_memory_map"), 1);
}

#[test]
fn memory_map_buffer_that_ends_beyond_the_address_space_is_refused() {
    let bs = services();
    bs.slots.state.borrow_mut().pool_at = Some(usize::MAX - 100);
    assert_eq!(bs.get_memory_map().err(), Some(Status::BadBufferSize));
    assert_eq!(bs.slots.count("get_memory_map"), 1);
    assert!(bs.slots.state.borrow().pool.is_empty());
}

#[test]
fn memory_map_stride_narrower_than_a_descriptor_is_refused() {
    let bs = services();
    bs.slots.state.borrow_mut().stride = 24;
    assert_eq!(bs.get_memory_map().err(), Some(Status::BadBufferSize));
    assert!(bs.slots.state.borrow().pool.is_empty());
}

// ---- protocols ----

fn install(bs: &BootServices<Firmware>, raw: usize, protocols: Vec<Guid>) -> Handle {
    let handle = Handle::from_raw(raw);
    bs.slots.state.borrow_mut().installed.push((handle, protocols));
    handle
}

#[test]
fn open_protocol_attribute_bits() {
    assert_eq!(OpenProtocolAttributes::empty().bits(), 0);
    assert_eq!(OpenProtocolAttributes::from_bits(BY_HANDLE_PROTOCOL).unwrap().bits(), 1);
    assert_eq!(OpenProtocolAttributes::from_bits(0x30).unwrap().bits(), 0x30);
    assert!(OpenProtocolAttributes::from_bits(0x40).is_none());
    assert_eq!(OpenProtocolAttributes::from_bits_truncate(0xFF).bits(), 0x3F);
    let by_driver = OpenProtocolAttributes::from_bits(0x10).unwrap();
    let exclusive = OpenProtocolAttributes::from_bits(0x20).unwrap();
    assert_eq!(by_driver.union(exclusive).bits(), 0x30);
    assert!(by_driver.union(exclusive).contains(exclusive));
    assert!(!by_driver.contains(exclusive));
}

#[test]
fn protocol_guids_are_bit_exact() {
    assert_eq!(<SimpleTextInput<NoInput> as Protocol>::guid(), text_input_guid());
    let fs = <SimpleFileSystem<NoFileSystem> as Protocol>::guid();
    assert_eq!(fs.data_1, 0x964e5b22);
    assert_eq!(fs.data_2, 0x6459);
    assert_eq!(fs.data_3, 0x11d2);
    assert_eq!(fs.data_4, [0x8e, 0x39, 0x00, 0xa0, 0xc9, 0x69, 0x72, 0x3b]);
    assert_eq!(<FileInfo as FileInformationType>::guid().data_1, 0x09576e92);
    assert_eq!(<FileSystemInfo as FileInformationType>::guid().data_1, 0x09576e93);
    assert_eq!(<FileInfo as FileInformationType>::size(), 64);
    assert_eq!(<FileSystemInfo as FileInformationType>::size(), 40);
}

#[test]
fn locate_handle_returns_the_handles_in_order_and_frees_its_buffer() {
    let bs = services();
    let guid = text_input_guid();
    let a = install(&bs, 0xA0, vec![guid]);
    let _b = install(&bs, 0xB0, vec![]);
    let c = install(&bs, 0xC0, vec![guid]);
    let found = bs.locate_handle(SearchType::ByProtocol, Some(&guid), None).unwrap();
    assert_eq!(found, vec![a, c]);
    assert_eq!(bs.slots.count("locate_handle"), 2);
    assert_eq!(bs.slots.count("allocate_pool"), 1);
    assert!(bs.slots.state.borrow().pool.is_empty());
    let all = bs.locate_handle(SearchType::AllHandles, None, None).unwrap();
    assert_eq!(all.len(), 3);
}

#[test]
fn locate_handle_for_an_unsupported_protocol_is_the_empty_set() {
    let bs = services();
    let _a = install(&bs, 0xA0, vec![]);
    let guid = text_input_guid();
    let found = bs.locate_handle(SearchType::ByProtocol, Some(&guid), None);
    assert_eq!(found, Ok(Vec::new()));
    assert_eq!(bs.slots.count("allocate_pool"), 0);
}

#[test]
fn locate_handle_buffer_that_ends_beyond_the_address_space_is_refused() {
    let bs = services();
    let guid = text_input_guid();
    let _a = install(&bs, 0xA0, vec![guid]);
    bs.slots.state.borrow_mut().pool_at = Some(usize::MAX - 4);
    assert_eq!(
        bs.locate_handle(SearchType::ByProtocol, Some(&guid), None),
        Err(Status::BadBufferSize)
    );
    assert_eq!(bs.slots.count("locate_handle"), 1);
    assert!(bs.slots.state.borrow().pool.is_empty());
}

#[test]
fn locate_handle_failed_second_call_gives_the_buffer_back_exactly_once() {
    let bs = services();
    let guid = text_input_guid();
    let _a = install(&bs, 0xA0, vec![guid]);
    bs.slots.state.borrow_mut().locate_second = Some(Status::DeviceError);
    assert_eq!(
        bs.locate_handle(SearchType::ByProtocol, Some(&guid), None),
        Err(Status::DeviceError)
    );
    assert_eq!(bs.slots.count("locate_handle"), 2);
    assert_eq!(bs.slots.count("allocate_pool"), 1);
    assert_eq!(bs.slots.count("free_pool"), 1);
    assert!(bs.slots.state.borrow().pool.is_empty());
}

#[test]
fn locate_handle_gives_its_buffer_back_exactly_once_on_success() {
    let bs = services();
    let guid = text_input_guid();
    let a = install(&bs, 0xA0, vec![guid]);
    assert_eq!(bs.locate_handle(SearchType::ByProtocol, Some(&guid), None), Ok(vec![a]));
    assert_eq!(bs.slots.count("free_pool"), 1);
}

#[test]
fn locate_handle_failure_is_returned_unchanged() {
    let bs = services();
    let guid = text_input_guid();
    assert_eq!(
        bs.locate_handle(SearchType::ByRegisterNotify, Some(&guid), Some(5)),
        Err(Status::Unsupported)
    );
    assert_eq!(
        bs.locate_handle(SearchType::ByProtocol, None, None),
        Err(Status::InvalidParameter)
    );
    bs.slots.state.borrow_mut().empty_is_success = false;
    assert_eq!(
        bs.locate_handle(SearchType::ByProtocol, Some(&guid), None),
        Err(Status::NotFound)
    );
    assert_eq!(bs.slots.count("allocate_pool"), 0);
}

#[test]
fn open_protocol_remembers_who_opened_it() {
    let bs = services();
    let guid = text_input_guid();
    let device = install(&bs, 0xA0, vec![guid]);
    let agent = Handle::from_raw(0x11);
    let controller = Handle::null();
    let opened = bs
        .open_protocol::<SimpleTextInput<NoInput>>(
            device,
            agent,
            controller,
            OpenProtocolAttributes::from_bits(BY_HANDLE_PROTOCOL).unwrap(),
        )
        .unwrap();
    assert_eq!(
        opened,
        ProtocolHandle { handle: device, interface: 0x90A0, agent_handle: agent, controller_handle: controller }
    );
    assert_eq!(bs.slots.state.borrow().openings.len(), 1);
    assert_eq!(
        bs.close_protocol::<SimpleTextInput<NoInput>>(device, &opened, agent, controller),
        Ok(())
    );
    assert!(bs.slots.state.borrow().openings.is_empty());
}

#[test]
fn open_protocol_on_a_handle_without_it_fails() {
    let bs = services();
    let device = install(&bs, 0xA0, vec![]);
    let r = bs.open_protocol::<SimpleTextInput<NoInput>>(
        device,
        Handle::from_raw(1),
        Handle::null(),
        OpenProtocolAttributes::empty(),
    );
    assert_eq!(r, Err(Status::Unsupported));
}

#[test]
fn close_with_another_controller_fails_and_leaves_the_interface_open() {
    let bs = services();
    let guid = text_input_guid();
    let device = install(&bs, 0xA0, vec![guid]);
    let a = Handle::from_raw(0x11);
    let c = Handle::from_raw(0x22);
    let d = Handle::from_raw(0x33);
    let opened = bs
        .open_protocol::<SimpleTextInput<NoInput>>(device, a, c, OpenProtocolAttributes::from_bits(0x10).unwrap())
        .unwrap();
    let r = bs.close_protocol::<SimpleTextInput<NoInput>>(device, &opened, a, d);
    assert_eq!(r, Err(Status::NotFound));
    assert_eq!(bs.slots.state.borrow().openings.len(), 1);
    assert_eq!(bs.slots.count("close_protocol"), 0);
    let other_agent = bs.close_protocol::<SimpleTextInput<NoInput>>(device, &opened, d, c);
    assert_eq!(other_agent, Err(Status::NotFound));
    assert_eq!(bs.slots.state.borrow().openings.len(), 1);
    assert_eq!(bs.close_protocol::<SimpleTextInput<NoInput>>(device, &opened, a, c), Ok(()));
    assert!(bs.slots.state.borrow().openings.is_empty());
}

// ---- page allocator ----

#[test]
fn pages_for_a_request() {
    assert_eq!(pages_for(0), 1);
    assert_eq!(pages_for(1), 1);
    assert_eq!(pages_for(4095), 1);
    assert_eq!(pages_for(4096), 2);
    assert_eq!(pages_for(10_000), 3);
}

#[test]
fn page_allocator_asks_for_whole_pages() {
    let bs = services();
    let allocator = PageAllocator {};
    let address = allocator.allocate(&bs, 10_000, 8).unwrap();
    assert_eq!(address, 0x40_0000);
    assert_eq!(bs.slots.state.borrow().pages[&0x40_0000], 3);
    assert_eq!(allocator.deallocate(&bs, address, 10_000), Ok(()));
    assert_eq!(allocator.deallocate(&bs, address, 10_000), Err(Status::NotFound));
}

#[test]
fn page_allocator_refuses_an_alignment_beyond_a_page() {
    let bs = services();
    let allocator = PageAllocator {};
    assert_eq!(allocator.allocate(&bs, 16, 8192), Err(AllocErr::Unsupported));
    assert_eq!(allocator.allocate(&bs, 16, 4096).is_ok(), true);
    assert_eq!(bs.slots.count("allocate_pages"), 1);
}

#[test]
fn page_allocator_reports_exhaustion() {
    let bs = services();
    let allocator = PageAllocator {};
    assert_eq!(allocator.allocate(&bs, 4096 * 2000, 8), Err(AllocErr::Exhausted));
}

// ---- file information ----

struct Volume {
    needed: usize,
    answers: RefCell<Vec<(usize, usize)>>,
    grows: bool,
    fails: Option<Status>,
}

impl FileSlots for Volume {
    fn close(&self) -> Status {
        Status::Success
    }

    fn get_info(&self, information_type: Guid, buffer: usize, capacity: usize) -> (Status, usize) {
        assert_eq!(information_type, <FileSystemInfo as FileInformationType>::guid());
        self.answers.borrow_mut().push((buffer, capacity));
        if let Some(status) = self.fails {
            return (status, 0);
        }
        let needed = if self.grows { capacity + 2 } else { self.needed };
        if capacity < needed {
            (Status::BufferTooSmall, needed)
        } else {
            (Status::Success, needed)
        }
    }
}

fn volume(needed: usize) -> File<Volume> {
    File {
        revision: 0x0001_0000,
        slots: Volume { needed, answers: RefCell::new(Vec::new()), grows: false, fails: None },
    }
}

#[test]
fn get_info_retries_once_with_the_size_asked_for() {
    let bs = services();
    let file = volume(54);
    let info = file.get_info::<FileSystemInfo, Firmware>(&bs).unwrap();
    assert_eq!(info, InfoBuffer { buffer: 0x10_2000, size: 54 });
    assert_eq!(*file.slots.answers.borrow(), vec![(0x10_0000, 40), (0x10_2000, 54)]);
    let state = bs.slots.state.borrow();
    assert_eq!(state.pool.len(), 1);
    assert_eq!(state.pool[&0x10_2000], 54);
}

#[test]
fn get_info_keeps_the_first_buffer_where_it_was_large_enough() {
    let bs = services();
    let file = volume(38);
    let info = file.get_info::<FileSystemInfo, Firmware>(&bs).unwrap();
    assert_eq!(info, InfoBuffer { buffer: 0x10_0000, size: 38 });
    assert_eq!(file.slots.answers.borrow().len(), 1);
    assert_eq!(bs.slots.count("allocate_pool"), 1);
    assert_eq!(bs.slots.count("free_pool"), 0);
}

#[test]
fn get_info_does_not_ask_a_third_time() {
    let bs = services();
    let mut file = volume(54);
    file.slots.grows = true;
    assert_eq!(file.get_info::<FileSystemInfo, Firmware>(&bs), Err(Status::BufferTooSmall));
    assert_eq!(file.slots.answers.borrow().len(), 2);
    assert_eq!(bs.slots.count("allocate_pool"), 2);
    assert_eq!(bs.slots.count("free_pool"), 2);
    assert!(bs.slots.state.borrow().pool.is_empty());
}

#[test]
fn get_info_error_is_returned_and_the_buffer_given_back() {
    let bs = services();
    let mut file = volume(54);
    file.slots.fails = Some(Status::DeviceError);
    assert_eq!(file.get_info::<FileSystemInfo, Firmware>(&bs), Err(Status::DeviceError));
    assert_eq!(file.slots.answers.borrow().len(), 1);
    assert_eq!(bs.slots.count("allocate_pool"), 1);
    assert_eq!(bs.slots.count("free_pool"), 1);
    assert!(bs.slots.state.borrow().pool.is_empty());
}

#[test]
fn get_info_without_memory_does_not_ask_the_file() {
    let bs = services();
    bs.slots.state.borrow_mut().pool_fails = true;
    let file = volume(54);
    assert_eq!(file.get_info::<FileSystemInfo, Firmware>(&bs), Err(Status::OutOfResources));
    assert!(file.slots.answers.borrow().is_empty());
}

#[test]
fn label_unit_count_is_half_the_bytes_behind_the_fixed_fields() {
    assert_eq!(LABEL_OFFSET, 36);
    assert_eq!(label_unit_count(0), None);
    assert_eq!(label_unit_count(35), None);
    assert_eq!(label_unit_count(36), Some(0));
    assert_eq!(label_unit_count(37), Some(0));
    assert_eq!(label_unit_count(38), Some(1));
    assert_eq!(label_unit_count(50), Some(7));
    assert_eq!(label_unit_count(54), Some(9));
}

#[test]
fn firmware_numbers_of_the_plain_enums() {
    assert_eq!(AllocateType::AllocateAnyPages.code(), 0);
    assert_eq!(AllocateType::AllocateMaxAddress.code(), 1);
    assert_eq!(AllocateType::AllocateAddress.code(), 2);
    assert_eq!(AllocateType::MaxAllocateType.code(), 3);
    assert_eq!(TimerDelay::Cancel.code(), 0);
    assert_eq!(TimerDelay::Periodic.code(), 1);
    assert_eq!(TimerDelay::Relative.code(), 2);
    assert_eq!(SearchType::AllHandles.code(), 0);
    assert_eq!(SearchType::ByRegisterNotify.code(), 1);
    assert_eq!(SearchType::ByProtocol.code(), 2);
}

#[test]
fn file_close_classifies_the_status() {
    let file = volume(54);
    assert_eq!(file.close(), Ok(()));
}

#[test]
fn open_volume_classifies_the_status() {
    let fs = SimpleFileSystem { revision: 0x0001_0000, slots: NoFileSystem };
    assert_eq!(fs.open_volume(), Err(Status::NoMedia));
}

#[test]
fn text_output_type_is_nameable_with_any_slots() {
    fn takes<O: efi::protocols::text::TextOutputSlots>(_: Option<&SimpleTextOutput<O>>) {}
    takes::<Quiet>(None);
}

struct Quiet;

impl efi::protocols::text::TextOutputSlots for Quiet {
    fn reset(&self, _e: Bool) -> Status {
        Status::Success
    }

    fn output_string(&self, _s: &[u16]) -> Status {
        Status::Success
    }

    fn test_string(&self, _s: &[u16]) -> Status {
        Status::Success
    }

    fn query_mode(&self, _m: usize) -> (Status, efi::protocols::text::ModeDescriptor) {
        (Status::Success, efi::protocols::text::ModeDescriptor::default())
    }

    fn set_mode(&self, _m: usize) -> Status {
        Status::Success
    }

    fn set_attribute(&self, _a: usize) -> Status {
        Status::Success
    }

    fn clear_screen(&self) -> Status {
        Status::Success
    }

    fn set_cursor_position(&self, _c: usize, _r: usize) -> Status {
        Status::Success
    }

    fn enable_cursor(&self, _v: Bool) -> Status {
        Status::Success
    }
}
