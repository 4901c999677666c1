use remote_control::control::{
    BasicInputType, Identifier, Input, IntegerPair, LiveInput, Real, RealPair, TypeTag,
    ValueInput,
};
use remote_control::platform::{Platform, PlatformMetaInfo};
use remote_control::session::{
    inputs_fit, replace_at, restore_all, DeviceSession, LookupError, RemoteSession,
    SessionEvent, SessionState,
};

fn declared() -> Vec<BasicInputType> {
    vec![
        BasicInputType::new(Identifier::new("control.lights", "Lights", None), vec![TypeTag::Flag]),
        BasicInputType::new(Identifier::new("control.gear", "Gear", None), vec![TypeTag::Integer]),
        BasicInputType::new(
            Identifier::new("control.target", "Target", Some("where to go")),
            vec![TypeTag::Integer, TypeTag::Integer],
        ),
    ]
}

fn live() -> Vec<LiveInput> {
    vec![
        LiveInput::Flag(ValueInput::new(false)),
        LiveInput::Integer(ValueInput::new(1)),
        LiveInput::IntegerPair(ValueInput::new(IntegerPair { first: 0, second: 0 })),
    ]
}

fn platform() -> Platform {
    Platform::new(PlatformMetaInfo::new("Rover", "1.0", ""), declared()).unwrap()
}

fn connected() -> DeviceSession {
    let mut session = DeviceSession::new(platform(), live()).unwrap();
    session.handle(SessionEvent::Connect);
    session.handle(SessionEvent::Established);
    session
}

#[test]
fn session_walks_through_its_states() {
    let mut session = DeviceSession::new(platform(), live()).unwrap();
    assert_eq!(session.state(), SessionState::Disconnected);
    session.handle(SessionEvent::Established);
    assert_eq!(session.state(), SessionState::Disconnected);
    session.handle(SessionEvent::Connect);
    assert_eq!(session.state(), SessionState::Connecting);
    session.handle(SessionEvent::Connect);
    assert_eq!(session.state(), SessionState::Connecting);
    session.handle(SessionEvent::Established);
    assert_eq!(session.state(), SessionState::Connected);
    session.handle(SessionEvent::Connect);
    assert_eq!(session.state(), SessionState::Connected);
    session.handle(SessionEvent::Lost);
    assert_eq!(session.state(), SessionState::Disconnected);
    session.handle(SessionEvent::Connect);
    session.handle(SessionEvent::Lost);
    assert_eq!(session.state(), SessionState::Disconnected);
}

#[test]
fn session_needs_inputs_that_fit() {
    assert!(inputs_fit(&declared(), &live()));
    assert!(DeviceSession::new(platform(), live()).is_some());

    let mut short = live();
    short.pop();
    assert!(!inputs_fit(&declared(), &short));
    assert!(DeviceSession::new(platform(), short).is_none());

    let mut swapped = live();
    swapped.swap(0, 1);
    assert!(!inputs_fit(&declared(), &swapped));
    assert!(DeviceSession::new(platform(), swapped).is_none());

    let mut long = live();
    long.push(LiveInput::Flag(ValueInput::new(true)));
    assert!(DeviceSession::new(platform(), long).is_none());

    assert!(inputs_fit(&Vec::new(), &Vec::new()));
}

#[test]
fn get_input_finds_declared_names_only() {
    let session = connected();
    assert_eq!(session.platform().find_input("control.gear").unwrap().id.display_name(), "Gear");
    let gear = session.get_input("control.gear").unwrap();
    assert_eq!(gear.parameter_tags(), vec![TypeTag::Integer]);
    assert_eq!(*gear.downcast::<i64>().unwrap().get(), 1);
    assert!(gear.downcast::<bool>().is_none());
    assert!(session.get_input("control.lights").is_some());
    assert!(session.get_input("control.target").is_some());
    assert!(session.get_input("control.unknown").is_none());
    assert!(session.get_input("Gear").is_none());
    assert!(session.get_input("").is_none());
}

#[test]
fn get_input_needs_a_connection() {
    let mut session = DeviceSession::new(platform(), live()).unwrap();
    assert!(session.get_input("control.gear").is_none());
    session.handle(SessionEvent::Connect);
    assert!(session.get_input("control.gear").is_none());
    session.handle(SessionEvent::Established);
    assert!(session.get_input("control.gear").is_some());
    session.handle(SessionEvent::Lost);
    assert!(session.get_input("control.gear").is_none());
}

#[test]
fn typed_lookup_tells_absence_from_mismatch() {
    let session = connected();
    assert_eq!(*session.get_typed::<i64>("control.gear").unwrap().get(), 1);
    assert_eq!(session.get_typed::<bool>("control.gear").unwrap_err(), LookupError::TypeMismatch);
    assert_eq!(
        session.get_typed::<IntegerPair>("control.lights").unwrap_err(),
        LookupError::TypeMismatch
    );
    assert_eq!(session.get_typed::<i64>("control.unknown").unwrap_err(), LookupError::NotFound);
    let idle = DeviceSession::new(platform(), live()).unwrap();
    assert_eq!(idle.get_typed::<i64>("control.gear").unwrap_err(), LookupError::NotFound);
}

#[test]
fn set_input_changes_one_input() {
    let mut session = connected();
    assert_eq!(session.set_input("control.gear", 5i64), Ok(()));
    assert_eq!(*session.get_typed::<i64>("control.gear").unwrap().get(), 5);
    assert!(!*session.get_typed::<bool>("control.lights").unwrap().get());
    assert_eq!(
        *session.get_typed::<IntegerPair>("control.target").unwrap().get(),
        IntegerPair { first: 0, second: 0 }
    );
    assert_eq!(session.set_input("control.target", IntegerPair { first: 8, second: -2 }), Ok(()));
    assert_eq!(
        *session.get_typed::<IntegerPair>("control.target").unwrap().get(),
        IntegerPair { first: 8, second: -2 }
    );
    assert_eq!(*session.get_typed::<i64>("control.gear").unwrap().get(), 5);
    assert_eq!(session.state(), SessionState::Connected);
}

#[test]
fn set_input_errors_change_nothing() {
    let mut session = connected();
    assert_eq!(session.set_input("control.gear", true), Err(LookupError::TypeMismatch));
    assert_eq!(session.set_input("control.unknown", 3i64), Err(LookupError::NotFound));
    assert_eq!(*session.get_typed::<i64>("control.gear").unwrap().get(), 1);
    let mut idle = DeviceSession::new(platform(), live()).unwrap();
    assert_eq!(idle.set_input("control.gear", 3i64), Err(LookupError::NotFound));
}

#[test]
fn losing_the_link_restores_defaults() {
    let mut session = connected();
    session.set_input("control.gear", 5i64).unwrap();
    session.set_input("control.lights", true).unwrap();
    session.set_input("control.target", IntegerPair { first: 8, second: -2 }).unwrap();
    session.handle(SessionEvent::Lost);
    session.handle(SessionEvent::Connect);
    session.handle(SessionEvent::Established);
    assert_eq!(*session.get_typed::<i64>("control.gear").unwrap().get(), 1);
    assert!(!*session.get_typed::<bool>("control.lights").unwrap().get());
    assert_eq!(
        *session.get_typed::<IntegerPair>("control.target").unwrap().get(),
        IntegerPair { first: 0, second: 0 }
    );
}

fn gear_of(input: &LiveInput) -> i64 {
    match input {
        LiveInput::Integer(gear) => *gear.get(),
        _ => panic!("not an integer input"),
    }
}

#[test]
fn restore_all_restores_each() {
    let mut first: ValueInput<i64> = ValueInput::new(10);
    first.set(11);
    let mut second: ValueInput<i64> = ValueInput::new(20);
    second.set(21);
    let before = vec![LiveInput::Integer(first), LiveInput::Integer(second)];
    let after = restore_all(&before);
    assert_eq!(after.len(), 2);
    assert_eq!(gear_of(&after[0]), 10);
    assert_eq!(gear_of(&after[1]), 20);
    assert_eq!(gear_of(&before[0]), 11);
    assert!(restore_all(&Vec::new()).is_empty());
}

#[test]
fn replace_at_replaces_one() {
    let before = vec![
        LiveInput::Integer(ValueInput::new(1)),
        LiveInput::Integer(ValueInput::new(2)),
        LiveInput::Integer(ValueInput::new(3)),
    ];
    let after = replace_at(&before, 1, LiveInput::Integer(ValueInput::new(9)));
    assert_eq!(after.len(), 3);
    assert_eq!(gear_of(&after[0]), 1);
    assert_eq!(gear_of(&after[1]), 9);
    assert_eq!(gear_of(&after[2]), 3);
    assert_eq!(gear_of(&before[1]), 2);
    let same = replace_at(&before, 3, LiveInput::Integer(ValueInput::new(9)));
    assert_eq!(same.len(), 3);
    assert_eq!(gear_of(&same[0]), 1);
    assert_eq!(gear_of(&same[1]), 2);
    assert_eq!(gear_of(&same[2]), 3);
}

#[test]
fn session_with_real_inputs() {
    let declared = vec![
        BasicInputType::new(
            Identifier::new("control.speed", "Forward Movement Speed", None),
            vec![TypeTag::Real],
        ),
        BasicInputType::new(
            Identifier::new("control.coordinates", "Coordinates", None),
            vec![TypeTag::Real, TypeTag::Real],
        ),
    ];
    let origin = RealPair { first: Real { bits: 0.0f64.to_bits() }, second: Real { bits: 0.0f64.to_bits() } };
    let live = vec![
        LiveInput::Real(ValueInput::new(Real { bits: 0.0f64.to_bits() })),
        LiveInput::RealPair(ValueInput::new(origin)),
    ];
    let platform = Platform::new(PlatformMetaInfo::new("Rover", "1.0", ""), declared).unwrap();
    let mut session = DeviceSession::new(platform, live).unwrap();
    session.handle(SessionEvent::Connect);
    session.handle(SessionEvent::Established);
    assert_eq!(session.set_input("control.speed", Real { bits: 12.5f64.to_bits() }), Ok(()));
    let speed = session.get_typed::<Real>("control.speed").unwrap();
    assert_eq!(f64::from_bits(speed.get().bits), 12.5);
    assert!(session.get_input("control.speed").is_some());
    assert!(session.get_input("control.unknown").is_none());
    assert_eq!(
        session.set_input("control.coordinates", Real { bits: 0 }),
        Err(LookupError::TypeMismatch)
    );
    session.handle(SessionEvent::Lost);
    session.handle(SessionEvent::Connect);
    session.handle(SessionEvent::Established);
    let speed = session.get_typed::<Real>("control.speed").unwrap();
    assert_eq!(f64::from_bits(speed.get().bits), 0.0);
    assert_eq!(*session.get_typed::<RealPair>("control.coordinates").unwrap().get(), origin);
}

#[test]
fn live_input_restores_whatever_its_type() {
    let mut lights: ValueInput<bool> = ValueInput::new(true);
    lights.set(false);
    let mut live = LiveInput::Flag(lights);
    assert!(!*live.as_any().downcast::<bool>().unwrap().get());
    live.restore_default();
    assert!(*live.as_any().downcast::<bool>().unwrap().get());
    assert!(live.as_any().downcast::<i64>().is_none());
}
