use remote_control::control::{BasicInputType, Identifier, TypeTag};
use remote_control::platform::{
    has_distinct_names, position_of, Platform, PlatformDescription, PlatformMetaInfo,
};

fn input_type(name: &str, display_name: &str, tags: Vec<TypeTag>) -> BasicInputType {
    BasicInputType::new(Identifier::new(name, display_name, None), tags)
}

fn rover_inputs() -> Vec<BasicInputType> {
    vec![
        input_type("control.speed", "Forward Movement Speed", vec![TypeTag::Real]),
        input_type("control.coordinates", "Coordinates", vec![TypeTag::Real, TypeTag::Real]),
        input_type("control.lights", "Lights", vec![TypeTag::Flag]),
    ]
}

// Members should be accessible.
#[test]
fn platform_init_and_lifetime() {
    let platform_a =
        Platform::new(PlatformMetaInfo::new("Example Platform A", "0.0.1a", ""), Vec::new())
            .unwrap();

    assert_eq!("Example Platform A", platform_a.meta_info().name());
}

#[test]
fn meta_info_round_trips() {
    let info = PlatformMetaInfo::new("Example Platform A", "0.0.1a", "A rover");
    assert_eq!(info.name(), "Example Platform A");
    assert_eq!(info.version(), "0.0.1a");
    assert_eq!(info.description(), "A rover");
}

#[test]
fn control_inputs_are_stable() {
    let platform =
        Platform::new(PlatformMetaInfo::new("Rover", "1.0", ""), rover_inputs()).unwrap();
    let first: Vec<String> =
        platform.control_inputs().iter().map(|i| i.id.name().to_string()).collect();
    let second: Vec<String> =
        platform.control_inputs().iter().map(|i| i.id.name().to_string()).collect();
    assert_eq!(first, vec!["control.speed", "control.coordinates", "control.lights"]);
    assert_eq!(first, second);
    assert!(has_distinct_names(platform.control_inputs()));
    assert_eq!(platform.control_inputs()[1].parameters, vec![TypeTag::Real, TypeTag::Real]);
}

#[test]
fn platform_refuses_a_name_twice() {
    let mut inputs = rover_inputs();
    inputs.push(input_type("control.speed", "Speed again", vec![TypeTag::Integer]));
    assert!(!has_distinct_names(&inputs));
    assert!(Platform::new(PlatformMetaInfo::new("Rover", "1.0", ""), inputs).is_none());
}

#[test]
fn distinct_names_edge_cases() {
    assert!(has_distinct_names(&Vec::new()));
    assert!(has_distinct_names(&vec![input_type("a", "A", vec![])]));
    assert!(!has_distinct_names(&vec![input_type("a", "A", vec![]), input_type("a", "B", vec![])]));
    assert!(has_distinct_names(&vec![input_type("a", "A", vec![]), input_type("b", "A", vec![])]));
    assert!(!has_distinct_names(&vec![
        input_type("a", "A", vec![]),
        input_type("b", "B", vec![]),
        input_type("c", "C", vec![]),
        input_type("b", "D", vec![]),
    ]));
}

#[test]
fn find_input_by_name() {
    let platform =
        Platform::new(PlatformMetaInfo::new("Rover", "1.0", ""), rover_inputs()).unwrap();
    let speed = platform.find_input("control.speed").unwrap();
    assert_eq!(speed.id.display_name(), "Forward Movement Speed");
    assert_eq!(speed.parameters, vec![TypeTag::Real]);
    let lights = platform.find_input("control.lights").unwrap();
    assert_eq!(lights.id.display_name(), "Lights");
    assert!(platform.find_input("control.unknown").is_none());
    assert!(platform.find_input("").is_none());
}

#[test]
fn position_of_gives_the_first_place() {
    let inputs = rover_inputs();
    assert_eq!(position_of(&inputs, &String::from("control.speed")), Some(0));
    assert_eq!(position_of(&inputs, &String::from("control.lights")), Some(2));
    assert_eq!(position_of(&inputs, &String::from("control.unknown")), None);
    assert_eq!(position_of(&Vec::new(), &String::from("control.speed")), None);
    let twice = vec![input_type("x", "1", vec![]), input_type("y", "2", vec![]), input_type("y", "3", vec![])];
    assert_eq!(position_of(&twice, &String::from("y")), Some(1));
}
