//! Behaviour of a single door: request arbitration, tick execution, and the
//! end-to-end scenarios. Times are in milliseconds, positions in thousandths
//! of a length unit, so a door from 0 to 4.0 units spans 0 .. 4000.

use sliding_door::{Action, DoorError, DoorEvent, DoorState, Request, SlidingDoor};

fn door_0_to_4000() -> SlidingDoor {
    SlidingDoor::new(0, 4000, 3000, 2000).expect("configuration is valid")
}

#[test]
fn new_accepts_valid_config() {
    let door = door_0_to_4000();
    assert_eq!(door.start_position, 0);
    assert_eq!(door.end_position, 4000);
    assert_eq!(door.idle_duration, 3000);
    assert_eq!(door.target_duration, 2000);
    assert_eq!(door.elapsed, 0);
    assert_eq!(door.action, None);
    assert_eq!(door.pending, None);
}

#[test]
fn new_rejects_zero_target_duration() {
    assert_eq!(
        SlidingDoor::new(0, 4000, 3000, 0),
        Err(DoorError::InvalidConfiguration)
    );
}

#[test]
fn new_rejects_negative_target_duration() {
    assert_eq!(
        SlidingDoor::new(0, 4000, 3000, -5),
        Err(DoorError::InvalidConfiguration)
    );
}

#[test]
fn new_rejects_negative_idle_duration() {
    assert_eq!(
        SlidingDoor::new(0, 4000, -1, 2000),
        Err(DoorError::InvalidConfiguration)
    );
}

#[test]
fn new_rejects_equal_end_positions() {
    assert_eq!(
        SlidingDoor::new(700, 700, 3000, 2000),
        Err(DoorError::InvalidConfiguration)
    );
}

#[test]
fn new_rejects_out_of_range_positions() {
    assert_eq!(
        SlidingDoor::new(0, 2_000_000_000_000_000, 3000, 2000),
        Err(DoorError::InvalidConfiguration)
    );
}

#[test]
fn open_request_always_wins() {
    // Whatever the door is doing, RequestOpen makes it open.
    let idle = door_0_to_4000();
    let opening = SlidingDoor {
        action: Some(Action::Open),
        elapsed: 700,
        ..door_0_to_4000()
    };
    let waiting = SlidingDoor {
        action: Some(Action::WaitBeforeClose { waited_for: 1200 }),
        elapsed: 2000,
        ..door_0_to_4000()
    };
    let closing = SlidingDoor {
        action: Some(Action::Close),
        elapsed: 900,
        ..door_0_to_4000()
    };
    for mut door in [idle, opening, waiting, closing] {
        door.submit_request(Request::RequestOpen);
        assert_eq!(door.action, Some(Action::Open));
        assert_eq!(door.pending, None);
    }
}

#[test]
fn open_request_cancels_deferred_close() {
    let mut door = SlidingDoor {
        action: Some(Action::Open),
        elapsed: 500,
        pending: Some(Request::RequestClose),
        ..door_0_to_4000()
    };
    door.submit_request(Request::RequestOpen);
    assert_eq!(door.action, Some(Action::Open));
    assert_eq!(door.pending, None);
    assert_eq!(door.elapsed, 500);
}

#[test]
fn redundant_close_requests_are_idempotent() {
    // A close request to a waiting or closing door changes nothing, however
    // often it is repeated.
    let waiting = SlidingDoor {
        action: Some(Action::WaitBeforeClose { waited_for: 500 }),
        elapsed: 2000,
        ..door_0_to_4000()
    };
    let closing = SlidingDoor {
        action: Some(Action::Close),
        elapsed: 1500,
        ..door_0_to_4000()
    };
    for original in [waiting, closing] {
        let mut door = original;
        door.submit_request(Request::RequestClose);
        assert_eq!(door, original);
        door.submit_request(Request::RequestClose);
        assert_eq!(door, original);
    }
}

#[test]
fn close_request_on_idle_door_starts_wait() {
    let mut door = door_0_to_4000();
    door.submit_request(Request::RequestClose);
    assert_eq!(door.action, Some(Action::WaitBeforeClose { waited_for: 0 }));
    assert_eq!(door.pending, None);
}

#[test]
fn close_deferred_while_opening() {
    // A close request during the open animation stays pending until the
    // animation has finished; only then does the wait begin.
    let mut door = door_0_to_4000();
    door.submit_request(Request::RequestOpen);
    assert_eq!(door.tick(800), None);
    door.submit_request(Request::RequestClose);
    assert_eq!(door.action, Some(Action::Open));
    assert_eq!(door.pending, Some(Request::RequestClose));

    assert_eq!(door.tick(800), None);
    assert_eq!(door.action, Some(Action::Open));
    assert_eq!(door.pending, Some(Request::RequestClose));

    assert_eq!(door.tick(800), Some(DoorEvent::FinishedOpening));
    assert_eq!(door.action, None);
    assert_eq!(door.pending, Some(Request::RequestClose));

    assert_eq!(door.tick(500), None);
    assert_eq!(door.action, Some(Action::WaitBeforeClose { waited_for: 500 }));
    assert_eq!(door.pending, None);
}

#[test]
fn open_completion_happens_exactly_once() {
    // Cumulative progress past the traversal duration clears the action in
    // that tick; afterwards the idle door never re-enters Open on its own.
    let mut door = door_0_to_4000();
    door.submit_request(Request::RequestOpen);
    assert_eq!(door.tick(1500), None);
    assert_eq!(door.action, Some(Action::Open));
    assert_eq!(door.tick(1500), Some(DoorEvent::FinishedOpening));
    assert_eq!(door.action, None);
    assert_eq!(door.elapsed, 3000);
    for _ in 0..5 {
        assert_eq!(door.tick(1000), None);
        assert_eq!(door.action, None);
    }
}

#[test]
fn idle_door_tick_is_a_noop() {
    let original = door_0_to_4000();
    let mut door = original;
    assert_eq!(door.tick(1234), None);
    assert_eq!(door, original);
}

#[test]
fn wait_holds_the_position() {
    let mut door = SlidingDoor {
        action: Some(Action::WaitBeforeClose { waited_for: 0 }),
        elapsed: 2000,
        ..door_0_to_4000()
    };
    let before = door.current_position();
    assert_eq!(door.tick(1000), None);
    assert_eq!(door.action, Some(Action::WaitBeforeClose { waited_for: 1000 }));
    assert_eq!(door.elapsed, 2000);
    assert_eq!(door.current_position(), before);
}

#[test]
fn continuity_on_reversal() {
    // Reversing mid-flight reuses the raw progress counter, so the position
    // the door shows does not jump when the direction flips.
    let mut door = SlidingDoor::new(0, 4000, 0, 2000).expect("configuration is valid");
    door.submit_request(Request::RequestOpen);
    assert_eq!(door.tick(2000), Some(DoorEvent::FinishedOpening));
    assert_eq!(door.elapsed, 2000);

    door.submit_request(Request::RequestClose);
    assert_eq!(door.tick(1000), Some(DoorEvent::FinishedWaiting));
    assert_eq!(door.action, Some(Action::Close));
    assert_eq!(door.elapsed, 1000);
    let mid_close = door.current_position();
    assert_eq!(mid_close, 2000);

    door.submit_request(Request::RequestOpen);
    assert_eq!(door.action, Some(Action::Open));
    assert_eq!(door.elapsed, 1000);
    assert_eq!(door.current_position(), mid_close);
}

#[test]
fn position_is_bounded_for_any_progress() {
    // However far the raw counter overshoots or undershoots, the displayed
    // position stays between the two end positions — in both travel
    // directions.
    let base = door_0_to_4000();
    let reversed = SlidingDoor::new(4000, -500, 3000, 2000).expect("configuration is valid");
    for elapsed in [-1_000_000, -1, 0, 1, 999, 1000, 1999, 2000, 2001, 1_000_000] {
        let forward = SlidingDoor { elapsed, ..base };
        let x = forward.current_position();
        assert!(0 <= x && x <= 4000);
        let backward = SlidingDoor { elapsed, ..reversed };
        let y = backward.current_position();
        assert!(-500 <= y && y <= 4000);
    }
}

#[test]
fn close_keeps_the_undershoot() {
    let mut door = SlidingDoor {
        action: Some(Action::Close),
        elapsed: 300,
        ..door_0_to_4000()
    };
    assert_eq!(door.tick(1000), Some(DoorEvent::FinishedClosing));
    assert_eq!(door.action, None);
    assert_eq!(door.elapsed, -700);
    assert_eq!(door.current_position(), 0);
}

#[test]
fn end_to_end_scenario() {
    // Open fully, ask to close, sit out the idle time, close fully.
    let mut door = door_0_to_4000();
    door.submit_request(Request::RequestOpen);
    assert_eq!(door.action, Some(Action::Open));

    assert_eq!(door.tick(2000), Some(DoorEvent::FinishedOpening));
    assert_eq!(door.action, None);
    assert_eq!(door.elapsed, 2000);
    assert_eq!(door.current_position(), 4000);

    door.submit_request(Request::RequestClose);
    assert_eq!(door.action, Some(Action::WaitBeforeClose { waited_for: 0 }));

    // 3.1 s against an idle time of 3 s: the wait ends and the leftover
    // 0.1 s already winds the progress counter back.
    assert_eq!(door.tick(3100), Some(DoorEvent::FinishedWaiting));
    assert_eq!(door.action, Some(Action::Close));
    assert_eq!(door.elapsed, 1900);

    assert_eq!(door.tick(2000), Some(DoorEvent::FinishedClosing));
    assert_eq!(door.action, None);
    assert_eq!(door.elapsed, -100);
    assert_eq!(door.current_position(), 0);
}

#[test]
fn observable_state_tracks_the_cycle() {
    let mut door = door_0_to_4000();
    assert_eq!(door.current_state(), DoorState::DoorClosed);
    door.submit_request(Request::RequestOpen);
    assert_eq!(door.current_state(), DoorState::DoorOpening);
    door.tick(2000);
    assert_eq!(door.current_state(), DoorState::DoorOpen);
    door.submit_request(Request::RequestClose);
    assert_eq!(door.current_state(), DoorState::DoorWaiting { waited_for: 0 });
    door.tick(1000);
    assert_eq!(
        door.current_state(),
        DoorState::DoorWaiting { waited_for: 1000 }
    );
    door.tick(2500);
    assert_eq!(door.current_state(), DoorState::DoorClosing);
    door.tick(2000);
    assert_eq!(door.current_state(), DoorState::DoorClosed);
}

#[test]
fn accessors_report_the_state() {
    let door = SlidingDoor {
        action: Some(Action::WaitBeforeClose { waited_for: 42 }),
        pending: None,
        ..door_0_to_4000()
    };
    assert_eq!(
        door.current_action(),
        Some(Action::WaitBeforeClose { waited_for: 42 })
    );
    assert_eq!(door.pending_request(), None);
}
