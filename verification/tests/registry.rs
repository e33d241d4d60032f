//! The registry: doors addressed by identity, with unknown identities
//! reported and other doors left alone.

use sliding_door::{Action, DoorError, DoorEvent, Request, SlidingDoorPlugin};

#[test]
fn registry_starts_empty() {
    let plugin = SlidingDoorPlugin::new();
    assert_eq!(plugin.door_count(), 0);
}

#[test]
fn add_door_hands_out_consecutive_identities() {
    let mut plugin = SlidingDoorPlugin::new();
    assert_eq!(plugin.add_door(0, 4000, 3000, 2000), Ok(0));
    assert_eq!(plugin.add_door(1000, -1000, 0, 500), Ok(1));
    assert_eq!(plugin.door_count(), 2);
}

#[test]
fn add_door_rejects_invalid_configuration() {
    let mut plugin = SlidingDoorPlugin::new();
    assert_eq!(
        plugin.add_door(0, 4000, 3000, 0),
        Err(DoorError::InvalidConfiguration)
    );
    assert_eq!(plugin.door_count(), 0);
}

#[test]
fn unknown_identity_is_reported() {
    let mut plugin = SlidingDoorPlugin::new();
    assert_eq!(plugin.add_door(0, 4000, 3000, 2000), Ok(0));
    assert_eq!(
        plugin.submit_request(1, Request::RequestOpen),
        Err(DoorError::DoorNotFound)
    );
    assert_eq!(plugin.tick(7, 100), Err(DoorError::DoorNotFound));
    assert_eq!(plugin.current_position(2), Err(DoorError::DoorNotFound));
    assert_eq!(plugin.current_action(3), Err(DoorError::DoorNotFound));
}

#[test]
fn requests_are_routed_by_identity() {
    let mut plugin = SlidingDoorPlugin::new();
    let first = plugin.add_door(0, 4000, 3000, 2000).expect("valid");
    let second = plugin.add_door(0, 4000, 3000, 2000).expect("valid");
    assert_eq!(plugin.submit_request(second, Request::RequestOpen), Ok(()));
    assert_eq!(plugin.current_action(first), Ok(None));
    assert_eq!(plugin.current_action(second), Ok(Some(Action::Open)));
}

#[test]
fn tick_runs_one_door() {
    let mut plugin = SlidingDoorPlugin::new();
    let door_id = plugin.add_door(0, 4000, 3000, 2000).expect("valid");
    assert_eq!(plugin.submit_request(door_id, Request::RequestOpen), Ok(()));
    assert_eq!(plugin.tick(door_id, 1000), Ok(None));
    assert_eq!(plugin.current_position(door_id), Ok(2000));
    assert_eq!(
        plugin.tick(door_id, 1000),
        Ok(Some(DoorEvent::FinishedOpening))
    );
    assert_eq!(plugin.current_position(door_id), Ok(4000));
}

#[test]
fn tick_all_advances_every_door_independently() {
    let mut plugin = SlidingDoorPlugin::new();
    let opening = plugin.add_door(0, 4000, 3000, 2000).expect("valid");
    let idle = plugin.add_door(0, 4000, 3000, 2000).expect("valid");
    let closing = plugin.add_door(0, 4000, 3000, 2000).expect("valid");
    assert_eq!(plugin.submit_request(opening, Request::RequestOpen), Ok(()));
    assert_eq!(plugin.submit_request(closing, Request::RequestOpen), Ok(()));
    plugin.tick_all(2000);
    // The third door finished opening; now ask it to close and wait it out.
    assert_eq!(plugin.submit_request(closing, Request::RequestClose), Ok(()));
    plugin.tick_all(3100);
    assert_eq!(plugin.current_action(opening), Ok(None));
    assert_eq!(plugin.current_action(idle), Ok(None));
    assert_eq!(plugin.current_action(closing), Ok(Some(Action::Close)));
    assert_eq!(plugin.current_position(opening), Ok(4000));
    assert_eq!(plugin.current_position(idle), Ok(0));
}
