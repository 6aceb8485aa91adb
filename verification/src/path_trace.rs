//! The event record of a ray traced through a droplet: which events (entry,
//! internal reflection, exit) the tracer recorded, and of what kind.

use vstd::prelude::*;

verus! {

/// The kind of an event along a ray's path, as the tracer encodes it.
#[derive(Debug, Clone, Copy, PartialEq, Eq, Structural)]
pub enum EventType {
    NoEvent,
    Refraction,
    Reflection,
    TotalInternalReflection,
}

/// The event kind encoded by `value`: 1, 2 and 3 name refraction, reflection
/// and total internal reflection; every other value means no event.
pub open spec fn event_type_of(value: u32) -> EventType {
    if value == 1 {
        EventType::Refraction
    } else if value == 2 {
        EventType::Reflection
    } else if value == 3 {
        EventType::TotalInternalReflection
    } else {
        EventType::NoEvent
    }
}

/// The number by which the tracer encodes `e`.
pub open spec fn event_code(e: EventType) -> u32 {
    match e {
        EventType::NoEvent => 0,
        EventType::Refraction => 1,
        EventType::Reflection => 2,
        EventType::TotalInternalReflection => 3,
    }
}

impl EventType {
    /// The number by which the tracer encodes this kind.
    pub fn code(&self) -> (value: u32)
        ensures
            value == event_code(*self),
    {
        match self {
            EventType::NoEvent => 0,
            EventType::Refraction => 1,
            EventType::Reflection => 2,
            EventType::TotalInternalReflection => 3,
        }
    }
}

impl From<u32> for EventType {
    fn from(value: u32) -> (e: Self) {
        if value == 1 {
            EventType::Refraction
        } else if value == 2 {
            EventType::Reflection
        } else if value == 3 {
            EventType::TotalInternalReflection
        } else {
            EventType::NoEvent
        }
    }
}

impl vstd::std_specs::convert::FromSpecImpl<u32> for EventType {
    open spec fn obeys_from_spec() -> bool {
        true
    }

    open spec fn from_spec(v: u32) -> Self {
        event_type_of(v)
    }
}

/// Decoding gives back every kind from its code, and the codes are 0 to 3.
pub proof fn lemma_event_code_round_trip(e: EventType)
    ensures
        event_type_of(event_code(e)) == e,
        event_code(e) <= 3,
{
}

/// The tracer's encoding: 1 is refraction, 2 reflection, 3 total internal
/// reflection, and every other value no event.
pub proof fn lemma_event_encoding(value: u32)
    ensures
        (event_type_of(value) == EventType::Refraction) <==> value == 1,
        (event_type_of(value) == EventType::Reflection) <==> value == 2,
        (event_type_of(value) == EventType::TotalInternalReflection) <==> value == 3,
        (event_type_of(value) == EventType::NoEvent) <==> (value == 0 || value > 3),
        event_code(EventType::NoEvent) == 0,
        event_code(EventType::Refraction) == 1,
        event_code(EventType::Reflection) == 2,
        event_code(EventType::TotalInternalReflection) == 3,
{
}

/// The events a traced path recorded: the kinds of its entry (event 0),
/// internal reflection (event 1) and exit (event 2), as encoded numbers, and
/// how many of them occurred.
#[derive(Debug, Clone, Copy, PartialEq, Eq, Structural)]
pub struct PathTraceResult {
    pub event0_type: u32,
    pub event1_type: u32,
    pub event2_type: u32,
    pub num_events: u32,
}

impl PathTraceResult {
    /// The kind of the entry event.
    pub fn event0_type(&self) -> (e: EventType)
        ensures
            e == event_type_of(self.event0_type),
    {
        EventType::from(self.event0_type)
    }

    /// The kind of the internal reflection event.
    pub fn event1_type(&self) -> (e: EventType)
        ensures
            e == event_type_of(self.event1_type),
    {
        EventType::from(self.event1_type)
    }

    /// The kind of the exit event.
    pub fn event2_type(&self) -> (e: EventType)
        ensures
            e == event_type_of(self.event2_type),
    {
        EventType::from(self.event2_type)
    }

    /// Whether the path has an entry event.
    pub fn has_event0(&self) -> (b: bool)
        ensures
            b == (self.num_events >= 1),
    {
        self.num_events >= 1
    }

    /// Whether the path has an internal reflection event.
    pub fn has_event1(&self) -> (b: bool)
        ensures
            b == (self.num_events >= 2),
    {
        self.num_events >= 2
    }

    /// Whether the path has an exit event.
    pub fn has_event2(&self) -> (b: bool)
        ensures
            b == (self.num_events >= 3),
    {
        self.num_events >= 3
    }
}

/// Events are recorded in order: a path with an exit has an internal
/// reflection, and one with an internal reflection has an entry.
pub proof fn lemma_events_in_order(r: PathTraceResult)
    ensures
        r.num_events >= 3 ==> r.num_events >= 2,
        r.num_events >= 2 ==> r.num_events >= 1,
{
}

} // verus!
