//! Events, timers and task priority levels.

use crate::boot_services::{BootServices, BootSlots};
use crate::types::{outcome, spec_outcome, Status};
use vstd::prelude::*;

verus! {

/// A notification registered with an event: the address of the function the
/// firmware calls, and the address of the context it passes to that function.
#[derive(Clone, Copy, Debug)]
pub struct Notification {
    pub function: usize,
    pub context: usize,
}

/// UEFI Event
///
/// The firmware's token for the event and, where one was registered, its
/// notification. The context of a notification must stay alive until the event is
/// closed.
#[derive(Clone, Copy, Debug)]
pub struct Event {
    pub token: usize,
    pub notification: Option<Notification>,
}

impl Default for Event {
    fn default() -> (r: Event)
        ensures
            r.token == 0,
            r.notification is None,
    {
        Event { token: 0, notification: None }
    }
}

/// Defines the type of a timer
#[derive(Clone, Copy, Debug, PartialEq, Eq, Structural)]
pub enum TimerDelay {
    Cancel,
    Periodic,
    Relative,
}

impl TimerDelay {
    /// The number the firmware uses for this type of timer.
    pub open spec fn spec_code(self) -> u32 {
        match self {
            TimerDelay::Cancel => 0,
            TimerDelay::Periodic => 1,
            TimerDelay::Relative => 2,
        }
    }

    /// The number the firmware uses for this type of timer.
    pub fn code(&self) -> (r: u32)
        ensures
            r == self.spec_code(),
    {
        match self {
            TimerDelay::Cancel => 0,
            TimerDelay::Periodic => 1,
            TimerDelay::Relative => 2,
        }
    }
}

/// Task priority level
#[derive(Clone, Copy, Debug, PartialEq, Eq, Structural)]
pub enum TPL {
    Application,
    Callback,
    Notify,
    HightLevel,
}

impl TPL {
    /// The numeric level the firmware uses.
    pub open spec fn spec_level(self) -> usize {
        match self {
            TPL::Application => 4,
            TPL::Callback => 8,
            TPL::Notify => 16,
            TPL::HightLevel => 31,
        }
    }

    /// The numeric level the firmware uses.
    pub fn level(&self) -> (r: usize)
        ensures
            r == self.spec_level(),
    {
        match self {
            TPL::Application => 4,
            TPL::Callback => 8,
            TPL::Notify => 16,
            TPL::HightLevel => 31,
        }
    }
}

/// The timer bit of an event type.
pub const TIMER: u32 = 0x8000_0000u32;

/// The runtime bit of an event type.
pub const RUNTIME: u32 = 0x4000_0000u32;

/// The notify-on-wait bit of an event type.
pub const NOTIFY_WAIT: u32 = 0x0000_0100u32;

/// The notify-on-signal bit of an event type.
pub const NOTIFY_SIGNAL: u32 = 0x0000_0200u32;

/// The bits of an event signaled when boot services are exited.
pub const SIGNAL_EXIT_BOOT_SERVICES: u32 = 0x0000_0201u32;

/// The bits of an event signaled when the virtual address map changes.
pub const SIGNAL_VIRTUAL_ADDRESS_CHANGE: u32 = 0x6000_0202u32;

/// Every bit that an event type can have.
pub const EVENT_TYPE_ALL: u32 = 0xE000_0303u32;

/// Specifies an Event's mode and attributes
#[derive(Clone, Copy, Debug, PartialEq, Eq, Structural)]
pub struct EventType {
    bits: u32,
}

impl EventType {
    #[verifier::type_invariant]
    spec fn inv(self) -> bool {
        self.bits & !EVENT_TYPE_ALL == 0
    }

    /// The raw bits.
    pub closed spec fn spec_bits(self) -> u32 {
        self.bits
    }

    /// Whether `bits` holds nothing but event type bits.
    pub open spec fn valid_bits(bits: u32) -> bool {
        bits & !EVENT_TYPE_ALL == 0
    }

    /// The event type with no bit set.
    pub fn empty() -> (r: EventType)
        ensures
            r.spec_bits() == 0,
    {
        assert(0u32 & !0xE000_0303u32 == 0) by (bit_vector);
        EventType { bits: 0 }
    }

    /// The raw bits.
    pub fn bits(&self) -> (r: u32)
        ensures
            r == self.spec_bits(),
            Self::valid_bits(r),
    {
        proof {
            use_type_invariant(self);
        }
        self.bits
    }

    /// The event type with exactly these bits, unless one of them is no event
    /// type bit.
    pub fn from_bits(bits: u32) -> (r: Option<EventType>)
        ensures
            Self::valid_bits(bits) ==> r is Some && r.unwrap().spec_bits() == bits,
            !Self::valid_bits(bits) ==> r is None,
    {
        if bits & !EVENT_TYPE_ALL == 0 {
            Some(EventType { bits })
        } else {
            None
        }
    }

    /// The event type with these bits, without those that are no event type bits.
    pub fn from_bits_truncate(bits: u32) -> (r: EventType)
        ensures
            r.spec_bits() == bits & EVENT_TYPE_ALL,
    {
        assert((bits & 0xE000_0303u32) & !0xE000_0303u32 == 0) by (bit_vector);
        EventType { bits: bits & EVENT_TYPE_ALL }
    }

    /// Whether no bit is set.
    pub fn is_empty(&self) -> (r: bool)
        ensures
            r == (self.spec_bits() == 0),
    {
        self.bits == 0
    }

    /// Whether every bit of `other` is set in `self`.
    pub fn contains(&self, other: EventType) -> (r: bool)
        ensures
            r == (self.spec_bits() & other.spec_bits() == other.spec_bits()),
    {
        self.bits & other.bits == other.bits
    }

    /// The event type with the bits of both.
    pub fn union(&self, other: EventType) -> (r: EventType)
        ensures
            r.spec_bits() == self.spec_bits() | other.spec_bits(),
    {
        proof {
            use_type_invariant(self);
            use_type_invariant(&other);
            let a = self.bits;
            let b = other.bits;
            assert((a & !0xE000_0303u32 == 0 && b & !0xE000_0303u32 == 0) ==> (a | b)
                & !0xE000_0303u32 == 0) by (bit_vector);
        }
        EventType { bits: self.bits | other.bits }
    }
}

/// The word that stands for an optional notification function at the firmware
/// boundary: its address, or zero for none.
pub open spec fn spec_function_word(notify_function: Option<usize>) -> usize {
    match notify_function {
        Some(function) => function,
        None => 0,
    }
}

/// The event that a successful creation yields: the firmware's token, and the
/// notification exactly as it was handed in.
pub open spec fn spec_created_event(
    token: usize,
    notify_function: Option<usize>,
    notify_context: usize,
) -> Event {
    Event {
        token,
        notification: match notify_function {
            Some(function) => Some(Notification { function, context: notify_context }),
            None => None,
        },
    }
}

impl<S: BootSlots> BootServices<S> {
    /// Creates an event
    ///
    /// `notify_function` is the address of the callback and `notify_context` the
    /// address of its context. Both reach the firmware unchanged, and the event
    /// that comes back remembers both: the firmware is expected to call the
    /// function with that very context address.
    pub fn create_event(
        &self,
        event_type: EventType,
        notify_tpl: TPL,
        notify_function: Option<usize>,
        notify_context: usize,
    ) -> (r: Result<Event, Status>)
        ensures
            exists|reply: (Status, usize)|
                call_ensures(
                    S::create_event,
                    (
                        &self.slots,
                        event_type,
                        notify_tpl,
                        spec_function_word(notify_function),
                        notify_context,
                    ),
                    reply,
                ) && r == spec_outcome(
                    reply.0,
                    spec_created_event(reply.1, notify_function, notify_context),
                ),
    {
        let function: usize = match notify_function {
            Some(function) => function,
            None => 0,
        };
        let reply = self.slots.create_event(event_type, notify_tpl, function, notify_context);
        let notification = match notify_function {
            Some(function) => Some(Notification { function, context: notify_context }),
            None => None,
        };
        let event = Event { token: reply.1, notification };
        assert(function == spec_function_word(notify_function));
        assert(event == spec_created_event(reply.1, notify_function, notify_context));
        outcome(reply.0, event)
    }

    /// Closes the given event
    pub fn close_event(&self, event: &Event) -> (r: Result<(), Status>)
        ensures
            exists|status: Status|
                call_ensures(S::close_event, (&self.slots, event.token), status) && r
                    == spec_outcome(status, ()),
    {
        let status = self.slots.close_event(event.token);
        outcome(status, ())
    }

    /// Signals the given event
    pub fn signal_event(&self, event: &Event) -> (r: Result<(), Status>)
        ensures
            exists|status: Status|
                call_ensures(S::signal_event, (&self.slots, event.token), status) && r
                    == spec_outcome(status, ()),
    {
        let status = self.slots.signal_event(event.token);
        outcome(status, ())
    }

    /// Stops execution until an event is signaled
    ///
    /// On success the value is the index, within `events`, of the event that the
    /// firmware saw signaled.
    pub fn wait_for_event(&self, events: &[Event]) -> (r: Result<usize, Status>)
        ensures
            exists|reply: (Status, usize)|
                call_ensures(S::wait_for_event, (&self.slots, events), reply) && r
                    == spec_outcome(reply.0, reply.1),
    {
        let reply = self.slots.wait_for_event(events);
        outcome(reply.0, reply.1)
    }

    /// Checks whether an event is in the signaled state
    pub fn check_event(&self, event: &Event) -> (r: Result<(), Status>)
        ensures
            exists|status: Status|
                call_ensures(S::check_event, (&self.slots, event.token), status) && r
                    == spec_outcome(status, ()),
    {
        let status = self.slots.check_event(event.token);
        outcome(status, ())
    }

    /// Sets the type of timer and the trigger time for a timer event.
    pub fn set_timer(&self, event: &Event, timer_type: TimerDelay, trigger_time: u64) -> (r:
        Result<(), Status>)
        ensures
            exists|status: Status|
                call_ensures(
                    S::set_timer,
                    (&self.slots, event.token, timer_type, trigger_time),
                    status,
                ) && r == spec_outcome(status, ()),
    {
        let status = self.slots.set_timer(event.token, timer_type, trigger_time);
        outcome(status, ())
    }

    /// Raises a task's priority level.
    pub fn raise_tpl(&self, new_tpl: TPL) -> (r: Result<(), Status>)
        ensures
            exists|status: Status|
                call_ensures(S::raise_tpl, (&self.slots, new_tpl), status) && r == spec_outcome(
                    status,
                    (),
                ),
    {
        let status = self.slots.raise_tpl(new_tpl);
        outcome(status, ())
    }

    /// Restores a task's priority level to its previous value.
    pub fn restore_tpl(&self, old_tpl: TPL) -> (r: Result<(), Status>)
        ensures
            exists|status: Status|
                call_ensures(S::restore_tpl, (&self.slots, old_tpl), status) && r
                    == spec_outcome(status, ()),
    {
        let status = self.slots.restore_tpl(old_tpl);
        outcome(status, ())
    }
}

} // verus!
