use frame_relay::broadcaster::Delivery;
use frame_relay::registry::{RegisterError, Registry};

#[test]
fn lookup_ignores_case() {
    let mut registry = Registry::new(100);
    assert_eq!(registry.register(String::from("Cam1")), Ok(0));
    assert_eq!(registry.lookup("CAM1"), Some(0));
    assert_eq!(registry.lookup("cam1"), Some(0));
    assert_eq!(registry.lookup("Cam1"), Some(0));
    assert_eq!(registry.lookup("cam2"), None);
}

#[test]
fn lookup_in_empty_registry_finds_nothing() {
    let registry = Registry::new(1);
    assert_eq!(registry.len(), 0);
    assert_eq!(registry.lookup(""), None);
    assert_eq!(registry.lookup("anything"), None);
}

#[test]
fn lookup_lowercases_beyond_ascii() {
    let mut registry = Registry::new(4);
    assert_eq!(registry.register(String::from("straße")), Ok(0));
    assert_eq!(registry.register(String::from("ÉTAGE")), Ok(1));
    assert_eq!(registry.lookup("étage"), Some(1));
    assert_eq!(registry.lookup("Étage"), Some(1));
    assert_eq!(registry.lookup("STRAßE"), Some(0));
    assert_eq!(registry.lookup("etage"), None);
}

#[test]
fn streams_are_numbered_in_registration_order() {
    let mut registry = Registry::new(100);
    assert_eq!(registry.register(String::from("CCTV_FRONT")), Ok(0));
    assert_eq!(registry.register(String::from("CCTV_Back")), Ok(1));
    assert_eq!(registry.register(String::from("cctv_side")), Ok(2));
    assert_eq!(registry.len(), 3);
    assert_eq!(registry.lookup("cctv_back"), Some(1));
    assert_eq!(registry.lookup("CCTV_SIDE"), Some(2));
    assert_eq!(registry.lookup("cctv_front"), Some(0));
}

#[test]
fn duplicate_name_is_refused_in_any_casing() {
    let mut registry = Registry::new(100);
    assert_eq!(registry.register(String::from("Door")), Ok(0));
    assert_eq!(registry.register(String::from("Gate")), Ok(1));
    assert_eq!(
        registry.register(String::from("GATE")),
        Err(RegisterError::DuplicateName(1))
    );
    assert_eq!(
        registry.register(String::from("Door")),
        Err(RegisterError::DuplicateName(0))
    );
    assert_eq!(registry.len(), 2);
    assert_eq!(registry.list_names(), vec![String::from("Door"), String::from("Gate")]);
}

#[test]
fn list_names_keeps_spelling_and_order() {
    let mut registry = Registry::new(100);
    assert!(registry.list_names().is_empty());
    registry.register(String::from("Zebra")).unwrap();
    registry.register(String::from("apple")).unwrap();
    registry.register(String::from("MANGO")).unwrap();
    assert_eq!(
        registry.list_names(),
        vec![String::from("Zebra"), String::from("apple"), String::from("MANGO")]
    );
}

#[test]
fn registered_broadcaster_starts_empty_with_the_registry_capacity() {
    let mut registry = Registry::new(7);
    let id = registry.register(String::from("Yard")).unwrap();
    let source = registry.broadcaster(id);
    assert_eq!(source.capacity(), 7);
    assert_eq!(source.published(), 0);
    assert_eq!(source.subscriber_count(), 0);
    assert!(!source.is_closed());
}

#[test]
fn streams_do_not_share_frames() {
    let mut registry = Registry::new(4);
    let door = registry.register(String::from("Door")).unwrap();
    let yard = registry.register(String::from("Yard")).unwrap();
    let mut at_door = registry.subscribe(door);
    let mut at_yard = registry.subscribe(yard);
    registry.publish(door, vec![1]);
    assert!(matches!(at_yard.next(registry.broadcaster(yard)), Delivery::Pending));
    match at_door.next(registry.broadcaster(door)) {
        Delivery::Frame(got) => assert_eq!(got, vec![1]),
        other => panic!("expected a frame, got {:?}", other),
    }
    assert_eq!(registry.broadcaster(door).published(), 1);
    assert_eq!(registry.broadcaster(yard).published(), 0);
    assert_eq!(registry.broadcaster(door).subscriber_count(), 1);
    assert_eq!(registry.broadcaster(yard).subscriber_count(), 1);
}

#[test]
fn closing_one_stream_leaves_the_others_open() {
    let mut registry = Registry::new(4);
    let door = registry.register(String::from("Door")).unwrap();
    let yard = registry.register(String::from("Yard")).unwrap();
    registry.close(door);
    assert!(registry.broadcaster(door).is_closed());
    assert!(!registry.broadcaster(yard).is_closed());
    let mut viewer = registry.subscribe(door);
    assert!(matches!(viewer.next(registry.broadcaster(door)), Delivery::Closed));
    registry.release(door, viewer);
    assert_eq!(registry.broadcaster(door).subscriber_count(), 0);
}

#[test]
fn registry_has_room_for_more_viewers() {
    let mut registry = Registry::new(4);
    assert!(registry.has_room());
    let door = registry.register(String::from("Door")).unwrap();
    let _viewer = registry.subscribe(door);
    assert!(registry.has_room());
}

#[test]
fn door_scenario_late_subscriber_gets_later_frames_only() {
    let mut registry = Registry::new(100);
    let door = registry.register(String::from("Door")).unwrap();
    let frames: Vec<Vec<u8>> = (1..=5u8).map(|n| vec![b'F', n]).collect();

    let mut a = registry.subscribe(door);
    registry.publish(door, frames[0].clone());
    registry.publish(door, frames[1].clone());
    registry.publish(door, frames[2].clone());
    let mut b = registry.subscribe(door);
    registry.publish(door, frames[3].clone());
    registry.publish(door, frames[4].clone());

    let source = registry.broadcaster(door);
    let mut got_a = Vec::new();
    while let Delivery::Frame(got) = a.next(source) {
        got_a.push(got);
    }
    let mut got_b = Vec::new();
    while let Delivery::Frame(got) = b.next(source) {
        got_b.push(got);
    }
    assert_eq!(got_a, frames);
    assert_eq!(got_b, frames[3..].to_vec());
    assert!(matches!(a.next(source), Delivery::Pending));
    assert!(matches!(b.next(source), Delivery::Pending));
}
