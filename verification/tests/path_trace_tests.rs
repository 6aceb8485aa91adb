use iron_rainbow::path_trace::{EventType, PathTraceResult};

#[test]
fn event_type_from_codes() {
    assert_eq!(EventType::from(0), EventType::NoEvent);
    assert_eq!(EventType::from(1), EventType::Refraction);
    assert_eq!(EventType::from(2), EventType::Reflection);
    assert_eq!(EventType::from(3), EventType::TotalInternalReflection);
    assert_eq!(EventType::from(4), EventType::NoEvent);
    assert_eq!(EventType::from(u32::MAX), EventType::NoEvent);
}

#[test]
fn event_type_code_round_trip() {
    for e in [
        EventType::NoEvent,
        EventType::Refraction,
        EventType::Reflection,
        EventType::TotalInternalReflection,
    ] {
        assert_eq!(EventType::from(e.code()), e);
    }
    assert_eq!(EventType::TotalInternalReflection.code(), 3);
}

#[test]
fn path_events() {
    let r = PathTraceResult {
        event0_type: 1,
        event1_type: 3,
        event2_type: 1,
        num_events: 3,
    };
    assert_eq!(r.event0_type(), EventType::Refraction);
    assert_eq!(r.event1_type(), EventType::TotalInternalReflection);
    assert_eq!(r.event2_type(), EventType::Refraction);
    assert!(r.has_event0() && r.has_event1() && r.has_event2());

    let miss = PathTraceResult {
        event0_type: 0,
        event1_type: 0,
        event2_type: 0,
        num_events: 0,
    };
    assert!(!miss.has_event0() && !miss.has_event1() && !miss.has_event2());
    assert_eq!(miss.event0_type(), EventType::NoEvent);

    let partial = PathTraceResult {
        event0_type: 1,
        event1_type: 2,
        event2_type: 0,
        num_events: 2,
    };
    assert!(partial.has_event0() && partial.has_event1() && !partial.has_event2());
    assert_eq!(partial.event1_type(), EventType::Reflection);
}
