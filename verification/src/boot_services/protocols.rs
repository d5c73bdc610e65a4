//! Protocol discovery, and the opening and closing of protocol interfaces.

use crate::boot_services::memory::MemoryType;
use crate::boot_services::{BootServices, BootSlots};
use crate::negotiation::{
    delivered, element_count, lemma_element_in_bounds, plan, spec_delivered, spec_element_count,
    spec_plan, Plan,
};
use crate::types::{lemma_status_classification, outcome, spec_outcome, Handle, Status};
use vstd::prelude::*;

verus! {

/// Globally-unique identifier, used in UEFI to distinguish protocols
#[derive(Clone, Copy, Debug, PartialEq, Eq)]
pub struct Guid {
    pub data_1: u32,
    pub data_2: u16,
    pub data_3: u16,
    pub data_4: [u8; 8],
}

/// The bit of an opening made through the handle protocol service.
pub const BY_HANDLE_PROTOCOL: u32 = 0x0000_0001u32;

/// The bit of an opening that only fetches the interface.
pub const GET_PROTOCOL: u32 = 0x0000_0002u32;

/// The bit of an opening that only tests for the protocol.
pub const TEST_PROTOCOL: u32 = 0x0000_0004u32;

/// The bit of an opening by a child controller.
pub const BY_CHILD_CONTROLLER: u32 = 0x0000_0008u32;

/// The bit of an opening by a driver.
pub const BY_DRIVER: u32 = 0x0000_0010u32;

/// The bit of an exclusive opening.
pub const EXCLUSIVE: u32 = 0x0000_0020u32;

/// Every bit that the attributes of an opening can have.
pub const OPEN_PROTOCOL_ALL: u32 = 0x0000_003Fu32;

/// Mode in which to open the protocol interface
#[derive(Clone, Copy, Debug, PartialEq, Eq, Structural)]
pub struct OpenProtocolAttributes {
    bits: u32,
}

impl OpenProtocolAttributes {
    #[verifier::type_invariant]
    spec fn inv(self) -> bool {
        self.bits & !OPEN_PROTOCOL_ALL == 0
    }

    /// The raw bits.
    pub closed spec fn spec_bits(self) -> u32 {
        self.bits
    }

    /// Whether `bits` holds nothing but attribute bits.
    pub open spec fn valid_bits(bits: u32) -> bool {
        bits & !OPEN_PROTOCOL_ALL == 0
    }

    /// The attributes with no bit set.
    pub fn empty() -> (r: OpenProtocolAttributes)
        ensures
            r.spec_bits() == 0,
    {
        assert(0u32 & !0x0000_003Fu32 == 0) by (bit_vector);
        OpenProtocolAttributes { bits: 0 }
    }

    /// The raw bits.
    pub fn bits(&self) -> (r: u32)
        ensures
            r == self.spec_bits(),
            Self::valid_bits(r),
    {
        proof {
            use_type_invariant(self);
        }
        self.bits
    }

    /// The attributes with exactly these bits, unless one of them is no attribute
    /// bit.
    pub fn from_bits(bits: u32) -> (r: Option<OpenProtocolAttributes>)
        ensures
            Self::valid_bits(bits) ==> r is Some && r.unwrap().spec_bits() == bits,
            !Self::valid_bits(bits) ==> r is None,
    {
        if bits & !OPEN_PROTOCOL_ALL == 0 {
            Some(OpenProtocolAttributes { bits })
        } else {
            None
        }
    }

    /// The attributes with these bits, without those that are no attribute bits.
    pub fn from_bits_truncate(bits: u32) -> (r: OpenProtocolAttributes)
        ensures
            r.spec_bits() == bits & OPEN_PROTOCOL_ALL,
    {
        assert((bits & 0x0000_003Fu32) & !0x0000_003Fu32 == 0) by (bit_vector);
        OpenProtocolAttributes { bits: bits & OPEN_PROTOCOL_ALL }
    }

    /// Whether every bit of `other` is set in `self`.
    pub fn contains(&self, other: OpenProtocolAttributes) -> (r: bool)
        ensures
            r == (self.spec_bits() & other.spec_bits() == other.spec_bits()),
    {
        self.bits & other.bits == other.bits
    }

    /// The attributes with the bits of both.
    pub fn union(&self, other: OpenProtocolAttributes) -> (r: OpenProtocolAttributes)
        ensures
            r.spec_bits() == self.spec_bits() | other.spec_bits(),
    {
        proof {
            use_type_invariant(self);
            use_type_invariant(&other);
            let a = self.bits;
            let b = other.bits;
            assert((a & !0x0000_003Fu32 == 0 && b & !0x0000_003Fu32 == 0) ==> (a | b)
                & !0x0000_003Fu32 == 0) by (bit_vector);
        }
        OpenProtocolAttributes { bits: self.bits | other.bits }
    }
}

/// Common functionality implemented by all protocols
pub trait Protocol {
    /// The Guid that identifies this protocol
    spec fn spec_guid() -> Guid;

    /// Returns the Guid that identifies this protocol
    fn guid() -> (r: Guid)
        ensures
            r == Self::spec_guid(),
    ;
}

/// Specifies criteria used to search for available Handles
#[derive(Clone, Copy, Debug, PartialEq, Eq, Structural)]
pub enum SearchType {
    AllHandles,
    ByRegisterNotify,
    ByProtocol,
}

impl SearchType {
    /// The number the firmware uses for this kind of search.
    pub open spec fn spec_code(self) -> u32 {
        match self {
            SearchType::AllHandles => 0,
            SearchType::ByRegisterNotify => 1,
            SearchType::ByProtocol => 2,
        }
    }

    /// The number the firmware uses for this kind of search.
    pub fn code(&self) -> (r: u32)
        ensures
            r == self.spec_code(),
    {
        match self {
            SearchType::AllHandles => 0,
            SearchType::ByRegisterNotify => 1,
            SearchType::ByProtocol => 2,
        }
    }
}

/// An opened protocol interface: the handle it was opened on, the address of the
/// interface, and the agent and controller it was opened for. It is closed for
/// that same agent and controller, or not at all.
#[derive(Clone, Copy, Debug, PartialEq, Eq, Structural)]
pub struct ProtocolHandle {
    pub handle: Handle,
    pub interface: usize,
    pub agent_handle: Handle,
    pub controller_handle: Handle,
}

impl ProtocolHandle {
    /// Whether the interface was opened for this agent and this controller.
    pub open spec fn opened_for(self, agent_handle: Handle, controller_handle: Handle) -> bool {
        agent_handle == self.agent_handle && controller_handle == self.controller_handle
    }
}

/// What a close of `interface` for an agent and a controller amounts to, where
/// `status` is what the firmware answers if it is asked: for another pair than
/// the opening's the close is refused with `NotFound` and the firmware's answer
/// has no say; for the opening's pair the firmware's answer decides.
pub open spec fn spec_close_result(
    interface: ProtocolHandle,
    agent_handle: Handle,
    controller_handle: Handle,
    status: Status,
) -> Result<(), Status> {
    if interface.opened_for(agent_handle, controller_handle) {
        spec_outcome(status, ())
    } else {
        Err(Status::NotFound)
    }
}

/// A close for another agent or controller than the opening's fails whatever the
/// firmware would answer, and with an error status. It takes nothing from a
/// close for the opening's pair that follows: that one is decided by the
/// firmware's answer alone, and succeeds wherever the firmware closes the
/// interface.
pub proof fn lemma_refused_close_leaves_the_opening(
    interface: ProtocolHandle,
    agent_handle: Handle,
    controller_handle: Handle,
    status: Status,
)
    requires
        !interface.opened_for(agent_handle, controller_handle),
    ensures
        forall|any: Status| #[trigger]
            spec_close_result(interface, agent_handle, controller_handle, any) == Err::<
                (),
                Status,
            >(Status::NotFound),
        Status::NotFound.is_error(),
        spec_close_result(
            interface,
            interface.agent_handle,
            interface.controller_handle,
            status,
        ) == spec_outcome(status, ()),
        !status.is_error() ==> spec_close_result(
            interface,
            interface.agent_handle,
            interface.controller_handle,
            status,
        ) == Ok::<(), Status>(()),
{
    lemma_status_classification(Status::NotFound);
}

/// The bytes one handle takes in a buffer of handles.
pub const HANDLE_SIZE: usize = 8;

/// The word that stands for an optional search key at the firmware boundary.
pub open spec fn spec_key_word(search_key: Option<usize>) -> usize {
    match search_key {
        Some(key) => key,
        None => 0,
    }
}

/// What is asked of the firmware when handles are located.
pub struct Search {
    pub search_type: SearchType,
    pub protocol: Option<Guid>,
    pub search_key: usize,
}

/// The search that the arguments of `locate_handle` stand for: no protocol and no
/// key are each the null word at the firmware boundary.
pub open spec fn spec_search(
    search_type: SearchType,
    protocol: Option<&Guid>,
    search_key: Option<usize>,
) -> Search {
    Search {
        search_type,
        protocol: match protocol {
            Some(guid) => Some(*guid),
            None => None,
        },
        search_key: spec_key_word(search_key),
    }
}

/// The answers of the firmware in the course of locating handles: to the size
/// query, to the allocation of the buffer, to the call that fills it, the handles
/// read from it, and to the release of the buffer, which follows wherever a
/// buffer was obtained. Where a call was not made its answer is of no account.
pub struct LocateTranscript {
    pub query: (Status, usize),
    pub allocation: (Status, usize),
    pub retrieval: (Status, usize),
    pub handles: Seq<Handle>,
    pub release: Status,
}

/// What the answer to the size query calls for.
pub open spec fn spec_locate_plan(query: (Status, usize)) -> Plan {
    spec_plan(query.0, query.1, HANDLE_SIZE, 0)
}

/// The buffer and its capacity that the second call is made with, where the
/// exchange gets that far.
pub open spec fn spec_locate_buffer(t: LocateTranscript) -> Option<(usize, usize)> {
    match spec_locate_plan(t.query) {
        Plan::Allocate(capacity) => if !t.allocation.0.is_error() && t.allocation.1 != 0
            && t.allocation.1 + capacity <= usize::MAX {
            Some((t.allocation.1, capacity))
        } else {
            None
        },
        _ => None,
    }
}

/// The bytes of handles that were delivered, where the exchange gets that far.
pub open spec fn spec_locate_size(t: LocateTranscript) -> Option<usize> {
    match spec_locate_buffer(t) {
        Some(b) => match spec_delivered(t.retrieval.0, t.retrieval.1, b.1) {
            Ok(size) => Some(size),
            Err(_) => None,
        },
        None => None,
    }
}

/// The handles, or the error, that the firmware's answers amount to.
///
/// A success at the size query is the empty set. An allocation that reports
/// success with a null address is `OutOfResources`. A buffer that would end
/// beyond the address space and a size beyond the buffer are `BadBufferSize`.
pub open spec fn spec_locate_result(t: LocateTranscript) -> Result<Seq<Handle>, Status> {
    match spec_locate_plan(t.query) {
        Plan::Empty => Ok(Seq::empty()),
        Plan::Fail(e) => Err(e),
        Plan::Allocate(capacity) => if t.allocation.0.is_error() {
            Err(t.allocation.0)
        } else if t.allocation.1 == 0 {
            Err(Status::OutOfResources)
        } else if t.allocation.1 + capacity > usize::MAX {
            Err(Status::BadBufferSize)
        } else {
            match spec_delivered(t.retrieval.0, t.retrieval.1, capacity) {
                Err(e) => Err(e),
                Ok(size) => if t.release.is_error() {
                    Err(t.release)
                } else {
                    Ok(t.handles)
                },
            }
        },
    }
}

/// The buffer that is given back to the firmware: the one that was obtained,
/// whether handles come out of it or an error. The handles are copied out, so
/// the buffer is never the caller's.
pub open spec fn spec_locate_given_back(t: LocateTranscript) -> Option<usize> {
    match spec_locate_plan(t.query) {
        Plan::Allocate(_) => if !t.allocation.0.is_error() && t.allocation.1 != 0 {
            Some(t.allocation.1)
        } else {
            None
        },
        _ => None,
    }
}

/// Whether the answers in `t` are ones that `slots` can give to the calls that
/// locating handles makes: the size query with no buffer; then, where a buffer
/// is called for, its allocation as loader data; then the call with that buffer;
/// then one read for each handle delivered, in order; and, wherever a buffer was
/// obtained, the release of that buffer.
pub open spec fn locate_transcript_admissible<S: BootSlots>(
    slots: &S,
    search: Search,
    t: LocateTranscript,
) -> bool {
    &&& call_ensures(
        S::locate_handle,
        (slots, search.search_type, search.protocol, search.search_key, 0usize, 0usize),
        t.query,
    )
    &&& (spec_locate_plan(t.query) matches Plan::Allocate(capacity) ==> call_ensures(
        S::allocate_pool,
        (slots, MemoryType::LoaderData, capacity),
        t.allocation,
    ))
    &&& (spec_locate_buffer(t) matches Some(b) ==> call_ensures(
        S::locate_handle,
        (slots, search.search_type, search.protocol, search.search_key, b.0, b.1),
        t.retrieval,
    ))
    &&& (spec_locate_size(t) matches Some(size) ==> {
        &&& t.handles.len() == spec_element_count(size, HANDLE_SIZE)
        &&& forall|i: int|
            0 <= i < t.handles.len() ==> call_ensures(
                S::handle_at,
                (slots, (spec_locate_buffer(t).unwrap().0 + i * HANDLE_SIZE) as usize),
                #[trigger] t.handles[i],
            )
    })
    &&& (spec_locate_given_back(t) matches Some(buffer) ==> call_ensures(
        S::free_pool,
        (slots, buffer),
        t.release,
    ))
}

/// Whatever the firmware answers, an error that comes out is an error status.
pub proof fn lemma_locate_result_sound(t: LocateTranscript)
    ensures
        spec_locate_result(t) matches Err(e) ==> e.is_error(),
{
    lemma_status_classification(Status::BadBufferSize);
    lemma_status_classification(Status::OutOfResources);
}

/// Unless the size query answers "buffer too small", the result is decided by
/// that answer alone: an error comes back unchanged, and a success is the empty
/// set.
pub proof fn lemma_locate_query_decides(t: LocateTranscript)
    requires
        t.query.0 != Status::BufferTooSmall,
    ensures
        spec_locate_buffer(t) is None,
        !(spec_locate_plan(t.query) is Allocate),
        t.query.0.is_error() ==> spec_locate_result(t) == Err::<Seq<Handle>, Status>(t.query.0),
        !t.query.0.is_error() ==> spec_locate_result(t) == Ok::<Seq<Handle>, Status>(
            Seq::empty(),
        ),
{
}

impl<S: BootSlots> BootServices<S> {
    /// Returns a Vector of handles that support the specified protocols
    ///
    /// The firmware is first asked for the size of the answer. Unless it says
    /// "buffer too small" that is final and nothing is allocated: an error is
    /// returned as it is, a success is the empty set. Otherwise a buffer of that
    /// size is allocated, the firmware asked again, once, the handles read out,
    /// and the buffer given back. The buffer is given back on every path on which
    /// it was obtained, also where the second call fails.
    pub fn locate_handle(
        &self,
        search_type: SearchType,
        protocol: Option<&Guid>,
        search_key: Option<usize>,
    ) -> (r: Result<Vec<Handle>, Status>)
        ensures
            exists|t: LocateTranscript|
                #[trigger] locate_transcript_admissible(
                    &self.slots,
                    spec_search(search_type, protocol, search_key),
                    t,
                ) && (match spec_locate_result(t) {
                    Ok(handles) => r matches Ok(found) && found@ == handles,
                    Err(e) => r matches Err(status) && status == e,
                }),
            r matches Err(e) ==> e.is_error(),
    {
        let ghost search = spec_search(search_type, protocol, search_key);
        let protocol: Option<Guid> = match protocol {
            Some(guid) => Some(*guid),
            None => None,
        };
        let key: usize = match search_key {
            Some(key) => key,
            None => 0,
        };
        assert(search == Search { search_type, protocol, search_key: key });
        let query = self.slots.locate_handle(search_type, protocol, key, 0, 0);
        let ghost mut t = LocateTranscript {
            query,
            allocation: (Status::Success, 0),
            retrieval: query,
            handles: Seq::empty(),
            release: Status::Success,
        };
        match plan(query.0, query.1, HANDLE_SIZE, 0) {
            Plan::Empty => {
                proof {
                    assert(locate_transcript_admissible(&self.slots, search, t));
                }
                let found: Vec<Handle> = Vec::new();
                Ok(found)
            },
            Plan::Fail(e) => {
                proof {
                    lemma_locate_result_sound(t);
                    assert(locate_transcript_admissible(&self.slots, search, t));
                }
                Err(e)
            },
            Plan::Allocate(capacity) => {
                let allocation = self.slots.allocate_pool(MemoryType::LoaderData, capacity);
                proof {
                    t = LocateTranscript { allocation, ..t };
                    lemma_locate_result_sound(t);
                }
                match allocation.0.as_result() {
                    Err(e) => {
                        proof {
                            assert(locate_transcript_admissible(&self.slots, search, t));
                        }
                        Err(e)
                    },
                    Ok(_) => {
                        let buffer = allocation.1;
                        if buffer == 0 {
                            proof {
                                assert(locate_transcript_admissible(&self.slots, search, t));
                            }
                            Err(Status::OutOfResources)
                        } else if capacity > usize::MAX - buffer {
                            let release = self.slots.free_pool(buffer);
                            proof {
                                t = LocateTranscript { release, ..t };
                                lemma_locate_result_sound(t);
                                assert(locate_transcript_admissible(&self.slots, search, t));
                            }
                            Err(Status::BadBufferSize)
                        } else {
                            let retrieval = self.slots.locate_handle(
                                search_type,
                                protocol,
                                key,
                                buffer,
                                capacity,
                            );
                            proof {
                                t = LocateTranscript { retrieval, ..t };
                                lemma_locate_result_sound(t);
                                assert(spec_locate_buffer(t) == Some((buffer, capacity)));
                            }
                            match delivered(retrieval.0, retrieval.1, capacity) {
                                Err(e) => {
                                    let release = self.slots.free_pool(buffer);
                                    proof {
                                        t = LocateTranscript { release, ..t };
                                        lemma_locate_result_sound(t);
                                        assert(spec_locate_buffer(t) == Some((buffer, capacity)));
                                        assert(locate_transcript_admissible(
                                            &self.slots,
                                            search,
                                            t,
                                        ));
                                    }
                                    Err(e)
                                },
                                Ok(size) => {
                                    let count = element_count(size, HANDLE_SIZE);
                                    let mut found: Vec<Handle> = Vec::new();
                                    let mut i: usize = 0;
                                    while i < count
                                        invariant
                                            i <= count,
                                            count == spec_element_count(size, HANDLE_SIZE),
                                            size <= capacity,
                                            buffer + capacity <= usize::MAX,
                                            found.len() == i,
                                            forall|k: int|
                                                0 <= k < i ==> call_ensures(
                                                    S::handle_at,
                                                    (
                                                        &self.slots,
                                                        (buffer + k * HANDLE_SIZE) as usize,
                                                    ),
                                                    #[trigger] found[k],
                                                ),
                                        decreases count - i,
                                    {
                                        proof {
                                            lemma_element_in_bounds(
                                                size,
                                                HANDLE_SIZE,
                                                HANDLE_SIZE,
                                                i,
                                            );
                                        }
                                        let handle = self.slots.handle_at(
                                            buffer + i * HANDLE_SIZE,
                                        );
                                        found.push(handle);
                                        i = i + 1;
                                    }
                                    let release = self.slots.free_pool(buffer);
                                    proof {
                                        t = LocateTranscript { handles: found@, release, ..t };
                                        lemma_locate_result_sound(t);
                                        assert(spec_locate_buffer(t) == Some((buffer, capacity)));
                                        assert(spec_locate_size(t) == Some(size));
                                        assert(locate_transcript_admissible(
                                            &self.slots,
                                            search,
                                            t,
                                        ));
                                    }
                                    match release.as_result() {
                                        Err(e) => Err(e),
                                        Ok(_) => Ok(found),
                                    }
                                },
                            }
                        }
                    },
                }
            },
        }
    }

    /// Opens the specified protocol on behalf of the calling agent
    ///
    /// What comes back remembers the handle, the agent and the controller that the
    /// interface was opened for.
    pub fn open_protocol<T: Protocol>(
        &self,
        handle: Handle,
        agent_handle: Handle,
        controller_handle: Handle,
        attributes: OpenProtocolAttributes,
    ) -> (r: Result<ProtocolHandle, Status>)
        ensures
            exists|reply: (Status, usize)|
                call_ensures(
                    S::open_protocol,
                    (
                        &self.slots,
                        handle,
                        T::spec_guid(),
                        agent_handle,
                        controller_handle,
                        attributes,
                    ),
                    reply,
                ) && r == spec_outcome(
                    reply.0,
                    ProtocolHandle { handle, interface: reply.1, agent_handle, controller_handle },
                ),
    {
        let reply = self.slots.open_protocol(
            handle,
            T::guid(),
            agent_handle,
            controller_handle,
            attributes,
        );
        outcome(
            reply.0,
            ProtocolHandle { handle, interface: reply.1, agent_handle, controller_handle },
        )
    }

    /// Closes the specified protocol that was previously opened on the specified `handle`
    ///
    /// An interface is closed for the agent and the controller it was opened for.
    /// For any other pair the call fails with `NotFound`: the firmware is not
    /// asked, and the interface stays open.
    pub fn close_protocol<T: Protocol>(
        &self,
        handle: Handle,
        interface: &ProtocolHandle,
        agent_handle: Handle,
        controller_handle: Handle,
    ) -> (r: Result<(), Status>)
        ensures
            !interface.opened_for(agent_handle, controller_handle) ==> r == Err::<(), Status>(
                Status::NotFound,
            ),
            exists|status: Status|
                (interface.opened_for(agent_handle, controller_handle) ==> call_ensures(
                    S::close_protocol,
                    (&self.slots, handle, T::spec_guid(), agent_handle, controller_handle),
                    status,
                )) && r == spec_close_result(*interface, agent_handle, controller_handle, status),
    {
        if agent_handle != interface.agent_handle || controller_handle
            != interface.controller_handle {
            assert(Err::<(), Status>(Status::NotFound) == spec_close_result(
                *interface,
                agent_handle,
                controller_handle,
                Status::Success,
            ));
            Err(Status::NotFound)
        } else {
            let status = self.slots.close_protocol(
                handle,
                T::guid(),
                agent_handle,
                controller_handle,
            );
            outcome(status, ())
        }
    }
}

} // verus!
