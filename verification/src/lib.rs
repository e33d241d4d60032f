//! A verified animated sliding door.
//!
//! One [`SlidingDoor`] owns the configuration and the transient state of a
//! single door that slides between two positions along one axis. Each
//! simulation tick, the host hands the door the time that passed; the door
//! arbitrates at most one pending open/close request, advances whatever it
//! is doing, and exposes an eased position that always stays between its two
//! end positions. [`plugin::SlidingDoorPlugin`] holds a set of doors and
//! routes requests and ticks to them by identity.
//!
//! All quantities are plain integers: the caller picks the units (say,
//! milliseconds of time and thousandths of a length unit), and the easing
//! curve works at a granularity of [`SCALE`] steps per traversal.

use vstd::prelude::*;

pub mod plugin;
pub mod state_machine;
pub mod utils;

pub use plugin::SlidingDoorPlugin;
pub use state_machine::{arbitrate, Action, DoorEvent, DoorState, Request};
pub use utils::{ease_quad, slide_interpolate};

use crate::state_machine::arbitrate_spec;
use crate::utils::slide_interpolate_spec;

verus! {

/// Granularity of normalized animation time: a fraction of the travel is
/// represented as an integer in `0 ..= SCALE`.
pub const SCALE: i64 = 1000;

/// Largest magnitude accepted for a duration or for one tick's delta.
pub const TIME_LIMIT: i64 = 1_000_000_000_000;

/// Largest magnitude accepted for an end position.
pub const POS_LIMIT: i64 = 1_000_000_000_000;

/// Bound at which the raw progress counter saturates, far beyond any
/// duration, so that the per-tick arithmetic stays within `i64`.
pub const ELAPSED_LIMIT: i64 = 1_000_000_000_000_000;

/// What can go wrong at the library's boundary: a door configured with
/// impossible values, or a request routed to a door that does not exist.
#[derive(Clone, Copy, PartialEq, Eq, Structural, Debug)]
pub enum DoorError {
    /// The configuration handed to [`SlidingDoor::new`] was rejected.
    InvalidConfiguration,
    /// The door identity handed to the registry names no live door.
    DoorNotFound,
}

/// One sliding door: its fixed configuration and its transient state.
///
/// `elapsed` is the raw travel progress: `0` stands at `start_position`,
/// `target_duration` at `end_position`. It is deliberately not clamped
/// between ticks — it can overshoot or undershoot transiently, and reversing
/// an animation resumes from it directly, which keeps the motion continuous —
/// but the displayed position is always clamped into the travel interval.
#[derive(Clone, Copy, PartialEq, Eq, Debug)]
pub struct SlidingDoor {
    /// Where the door rests when fully closed.
    pub start_position: i64,
    /// Where the door rests when fully open.
    pub end_position: i64,
    /// How long a fully open door waits before an accepted close request
    /// actually starts the close animation.
    pub idle_duration: i64,
    /// How long one full traversal between the two positions takes.
    pub target_duration: i64,
    /// Raw travel progress, advanced by [`SlidingDoor::tick`] alone.
    pub elapsed: i64,
    /// What the door is currently doing; `None` is an idle door.
    pub action: Option<Action>,
    /// At most one pending request, kept only while it cannot be honoured.
    pub pending: Option<Request>,
}

/// A configuration is accepted when the two end positions are distinct and
/// within range, the traversal takes positive time, and the idle duration is
/// not negative; durations are capped so tick arithmetic cannot overflow.
pub open spec fn valid_config(
    start_position: int,
    end_position: int,
    idle_duration: int,
    target_duration: int,
) -> bool {
    &&& -POS_LIMIT <= start_position <= POS_LIMIT
    &&& -POS_LIMIT <= end_position <= POS_LIMIT
    &&& start_position != end_position
    &&& 0 < target_duration <= TIME_LIMIT
    &&& 0 <= idle_duration <= TIME_LIMIT
}

/// Advance the progress counter by one tick's delta, saturating at the
/// counter's upper bound.
pub open spec fn advance_elapsed(elapsed: i64, delta: i64) -> i64 {
    if elapsed + delta > ELAPSED_LIMIT {
        ELAPSED_LIMIT
    } else {
        (elapsed + delta) as i64
    }
}

/// Wind the progress counter back by one tick's delta, saturating at the
/// counter's lower bound.
pub open spec fn retreat_elapsed(elapsed: i64, delta: i64) -> i64 {
    if elapsed - delta < -ELAPSED_LIMIT {
        (-ELAPSED_LIMIT) as i64
    } else {
        (elapsed - delta) as i64
    }
}

/// One executor step for a door that is opening: progress grows by `delta`;
/// when it reaches the traversal duration the action is cleared and the
/// completion is reported. The counter is not reset, so a later close starts
/// from wherever the open ended up.
pub open spec fn open_step(door: SlidingDoor, delta: i64) -> (SlidingDoor, Option<DoorEvent>) {
    let advanced: i64 = advance_elapsed(door.elapsed, delta);
    if advanced < door.target_duration {
        (SlidingDoor { elapsed: advanced, ..door }, None)
    } else {
        (
            SlidingDoor { elapsed: advanced, action: None, ..door },
            Some(DoorEvent::FinishedOpening),
        )
    }
}

/// One executor step for a door waiting to close: the wait counter grows by
/// `delta`; once it exceeds the idle duration, the action moves on to
/// `Close`, and the part of the tick that was left over after the wait ran
/// out is already spent winding the progress counter back.
pub open spec fn wait_step(door: SlidingDoor, delta: i64) -> (SlidingDoor, Option<DoorEvent>) {
    match door.action {
        Some(Action::WaitBeforeClose { waited_for }) => {
            if waited_for + delta > door.idle_duration {
                let excess: i64 = (waited_for + delta - door.idle_duration) as i64;
                (
                    SlidingDoor {
                        elapsed: retreat_elapsed(door.elapsed, excess),
                        action: Some(Action::Close),
                        ..door
                    },
                    Some(DoorEvent::FinishedWaiting),
                )
            } else {
                (
                    SlidingDoor {
                        action: Some(
                            Action::WaitBeforeClose { waited_for: (waited_for + delta) as i64 },
                        ),
                        ..door
                    },
                    None,
                )
            }
        },
        _ => (door, None),
    }
}

/// One executor step for a door that is closing: progress shrinks by
/// `delta`; when it reaches zero the action is cleared and the completion is
/// reported. The counter is not reset, so a later open starts from wherever
/// the close ended up.
pub open spec fn close_step(door: SlidingDoor, delta: i64) -> (SlidingDoor, Option<DoorEvent>) {
    let retreated: i64 = retreat_elapsed(door.elapsed, delta);
    if retreated > 0 {
        (SlidingDoor { elapsed: retreated, ..door }, None)
    } else {
        (
            SlidingDoor { elapsed: retreated, action: None, ..door },
            Some(DoorEvent::FinishedClosing),
        )
    }
}

/// One executor step: dispatch on the current action. A door with no action
/// does no work at all.
pub open spec fn execute_step(door: SlidingDoor, delta: i64) -> (SlidingDoor, Option<DoorEvent>) {
    match door.action {
        None => (door, None),
        Some(Action::Open) => open_step(door, delta),
        Some(Action::WaitBeforeClose { .. }) => wait_step(door, delta),
        Some(Action::Close) => close_step(door, delta),
    }
}

/// The door after one request has gone through the arbiter: the action is
/// whatever the arbiter decided, and the request is kept pending exactly
/// when the arbiter refused to consume it.
pub open spec fn door_after_request(door: SlidingDoor, request: Request) -> SlidingDoor {
    let (next_action, consumed) = arbitrate_spec(door.action, request);
    SlidingDoor {
        action: next_action,
        pending: if consumed {
            None
        } else {
            Some(request)
        },
        ..door
    }
}

/// The door and the event produced by one full tick: the pending request, if
/// any, is retried through the arbiter, then the executor runs once.
pub open spec fn door_after_tick(door: SlidingDoor, delta: i64) -> (SlidingDoor, Option<
    DoorEvent,
>) {
    let arbitrated: SlidingDoor = match door.pending {
        Some(request) => door_after_request(door, request),
        None => door,
    };
    execute_step(arbitrated, delta)
}

impl SlidingDoor {
    /// Well-formedness: the configuration is valid, the progress counter is
    /// within its saturation bounds, a wait counter never exceeds the idle
    /// duration, and only a close request that arrived while the door was
    /// opening can be pending.
    pub open spec fn wf(self) -> bool {
        &&& valid_config(
            self.start_position as int,
            self.end_position as int,
            self.idle_duration as int,
            self.target_duration as int,
        )
        &&& -ELAPSED_LIMIT <= self.elapsed <= ELAPSED_LIMIT
        &&& self.action matches Some(Action::WaitBeforeClose { waited_for }) ==> 0 <= waited_for
            <= self.idle_duration
        &&& self.pending is Some ==> self.pending == Some(Request::RequestClose) && (self.action
            == Some(Action::Open) || self.action is None)
    }

    /// The lower of the two end positions.
    pub open spec fn low_stop(self) -> int {
        if self.start_position <= self.end_position {
            self.start_position as int
        } else {
            self.end_position as int
        }
    }

    /// The higher of the two end positions.
    pub open spec fn high_stop(self) -> int {
        if self.start_position <= self.end_position {
            self.end_position as int
        } else {
            self.start_position as int
        }
    }

    /// Create a door from its configuration, fully closed and idle.
    ///
    /// Rejects exactly the configurations that [`valid_config`] refuses, so
    /// no door with a degenerate traversal ever reaches the executor.
    pub fn new(
        start_position: i64,
        end_position: i64,
        idle_duration: i64,
        target_duration: i64,
    ) -> (result: Result<SlidingDoor, DoorError>)
        ensures
            result is Ok <==> valid_config(
                start_position as int,
                end_position as int,
                idle_duration as int,
                target_duration as int,
            ),
            result matches Ok(door) ==> door == (SlidingDoor {
                start_position,
                end_position,
                idle_duration,
                target_duration,
                elapsed: 0,
                action: None,
                pending: None,
            }) && door.wf(),
            result is Err ==> result == Err::<SlidingDoor, DoorError>(
                DoorError::InvalidConfiguration,
            ),
    {
        if start_position < -POS_LIMIT || start_position > POS_LIMIT || end_position < -POS_LIMIT
            || end_position > POS_LIMIT || start_position == end_position || target_duration <= 0
            || target_duration > TIME_LIMIT || idle_duration < 0 || idle_duration > TIME_LIMIT {
            Err(DoorError::InvalidConfiguration)
        } else {
            Ok(
                SlidingDoor {
                    start_position,
                    end_position,
                    idle_duration,
                    target_duration,
                    elapsed: 0,
                    action: None,
                    pending: None,
                },
            )
        }
    }

    /// Hand the door a request and arbitrate it at once.
    ///
    /// An open request always wins and cancels any pending close; a close
    /// request that arrives while the door is actively opening stays pending
    /// and is retried on every tick until the open animation has finished.
    /// Arbitration never touches the progress counter, so the displayed
    /// position cannot jump here.
    pub fn submit_request(&mut self, request: Request)
        requires
            old(self).wf(),
        ensures
            final(self).wf(),
            *final(self) == door_after_request(*old(self), request),
            request is RequestOpen ==> final(self).action == Some(Action::Open),
            request is RequestOpen ==> final(self).pending is None,
            final(self).elapsed == old(self).elapsed,
    {
        let (next_action, consumed) = arbitrate(self.action, request);
        self.action = next_action;
        self.pending = if consumed {
            None
        } else {
            Some(request)
        };
    }

    /// One executor step for a door that is actively opening.
    pub fn handle_door_open(&mut self, delta: i64) -> (event: Option<DoorEvent>)
        requires
            old(self).wf(),
            old(self).action == Some(Action::Open),
            0 <= delta <= TIME_LIMIT,
        ensures
            final(self).wf(),
            *final(self) == open_step(*old(self), delta).0,
            event == open_step(*old(self), delta).1,
            event == Some(DoorEvent::FinishedOpening) <==> old(self).elapsed + delta >= old(
                self,
            ).target_duration,
    {
        let sum: i64 = self.elapsed + delta;
        let advanced: i64 = if sum > ELAPSED_LIMIT {
            ELAPSED_LIMIT
        } else {
            sum
        };
        self.elapsed = advanced;
        if advanced < self.target_duration {
            None
        } else {
            self.action = None;
            Some(DoorEvent::FinishedOpening)
        }
    }

    /// One executor step for a door counting down its idle time.
    pub fn handle_door_waiting(&mut self, delta: i64) -> (event: Option<DoorEvent>)
        requires
            old(self).wf(),
            old(self).action matches Some(Action::WaitBeforeClose { .. }),
            0 <= delta <= TIME_LIMIT,
        ensures
            final(self).wf(),
            *final(self) == wait_step(*old(self), delta).0,
            event == wait_step(*old(self), delta).1,
    {
        match self.action {
            Some(Action::WaitBeforeClose { waited_for }) => {
                let grown: i64 = waited_for + delta;
                if grown > self.idle_duration {
                    let excess: i64 = grown - self.idle_duration;
                    let diff: i64 = self.elapsed - excess;
                    self.elapsed = if diff < -ELAPSED_LIMIT {
                        -ELAPSED_LIMIT
                    } else {
                        diff
                    };
                    self.action = Some(Action::Close);
                    Some(DoorEvent::FinishedWaiting)
                } else {
                    self.action = Some(Action::WaitBeforeClose { waited_for: grown });
                    None
                }
            },
            _ => vstd::pervasive::unreached(),
        }
    }

    /// One executor step for a door that is actively closing.
    pub fn handle_door_close(&mut self, delta: i64) -> (event: Option<DoorEvent>)
        requires
            old(self).wf(),
            old(self).action == Some(Action::Close),
            0 <= delta <= TIME_LIMIT,
        ensures
            final(self).wf(),
            *final(self) == close_step(*old(self), delta).0,
            event == close_step(*old(self), delta).1,
            event == Some(DoorEvent::FinishedClosing) <==> old(self).elapsed - delta <= 0,
    {
        let diff: i64 = self.elapsed - delta;
        let retreated: i64 = if diff < -ELAPSED_LIMIT {
            -ELAPSED_LIMIT
        } else {
            diff
        };
        self.elapsed = retreated;
        if retreated > 0 {
            None
        } else {
            self.action = None;
            Some(DoorEvent::FinishedClosing)
        }
    }

    /// One full simulation tick: retry the pending request through the
    /// arbiter, then run the executor once with this tick's delta. A door
    /// with no action and no pending request is left untouched.
    pub fn tick(&mut self, delta: i64) -> (event: Option<DoorEvent>)
        requires
            old(self).wf(),
            0 <= delta <= TIME_LIMIT,
        ensures
            final(self).wf(),
            *final(self) == door_after_tick(*old(self), delta).0,
            event == door_after_tick(*old(self), delta).1,
            old(self).action is None && old(self).pending is None ==> *final(self) == *old(self)
                && event is None,
    {
        match self.pending {
            None => {},
            Some(request) => {
                let (next_action, consumed) = arbitrate(self.action, request);
                self.action = next_action;
                if consumed {
                    self.pending = None;
                }
            },
        }
        match self.action {
            None => None,
            Some(Action::Open) => self.handle_door_open(delta),
            Some(Action::WaitBeforeClose { .. }) => self.handle_door_waiting(delta),
            Some(Action::Close) => self.handle_door_close(delta),
        }
    }

    /// The position the door shows right now, eased and always within the
    /// interval its two end positions span.
    pub fn current_position(&self) -> (x: i64)
        requires
            self.wf(),
        ensures
            x == slide_interpolate_spec(*self),
            self.low_stop() <= x <= self.high_stop(),
            self.elapsed <= 0 ==> x == self.start_position,
            self.elapsed >= self.target_duration ==> x == self.end_position,
    {
        crate::utils::slide_interpolate(self)
    }

    /// Which of the five observable states the door is in.
    pub open spec fn state_spec(self) -> DoorState {
        match self.action {
            Some(Action::Open) => DoorState::DoorOpening,
            Some(Action::WaitBeforeClose { waited_for }) => DoorState::DoorWaiting { waited_for },
            Some(Action::Close) => DoorState::DoorClosing,
            None => if self.elapsed >= self.target_duration {
                DoorState::DoorOpen
            } else {
                DoorState::DoorClosed
            },
        }
    }

    /// The observable state of the door, for diagnostic display: an idle
    /// door reports whether it rests fully open or fully closed.
    pub fn current_state(&self) -> (state: DoorState)
        ensures
            state == self.state_spec(),
    {
        match self.action {
            Some(Action::Open) => DoorState::DoorOpening,
            Some(Action::WaitBeforeClose { waited_for }) => DoorState::DoorWaiting { waited_for },
            Some(Action::Close) => DoorState::DoorClosing,
            None => {
                if self.elapsed >= self.target_duration {
                    DoorState::DoorOpen
                } else {
                    DoorState::DoorClosed
                }
            },
        }
    }

    /// What the door is currently doing, for diagnostic display.
    pub fn current_action(&self) -> (action: Option<Action>)
        ensures
            action == self.action,
    {
        self.action
    }

    /// The request that is still pending, if any.
    pub fn pending_request(&self) -> (pending: Option<Request>)
        ensures
            pending == self.pending,
    {
        self.pending
    }
}

/// Submitting a close request to a door that is already waiting to close or
/// already closing changes nothing at all: the request is consumed and the
/// door's whole state — action, wait counter, progress — stays as it was.
pub proof fn lemma_redundant_close_is_noop(door: SlidingDoor)
    requires
        door.wf(),
        door.action matches Some(a) && (a is WaitBeforeClose || a is Close),
    ensures
        door_after_request(door, Request::RequestClose) == door,
{
}

/// An open request always wins: whatever the door was doing, after
/// arbitration the action is `Open`, nothing stays pending, and the progress
/// counter is untouched.
pub proof fn lemma_open_request_always_wins(door: SlidingDoor)
    requires
        door.wf(),
    ensures
        door_after_request(door, Request::RequestOpen).action == Some(Action::Open),
        door_after_request(door, Request::RequestOpen).pending is None,
        door_after_request(door, Request::RequestOpen).elapsed == door.elapsed,
{
}

/// Arbitrating a request never moves the door: the progress counter and
/// with it the displayed position are exactly what they were, so reversing
/// an animation mid-flight cannot make the position jump.
pub proof fn lemma_request_preserves_position(door: SlidingDoor, request: Request)
    requires
        door.wf(),
    ensures
        door_after_request(door, request).elapsed == door.elapsed,
        slide_interpolate_spec(door_after_request(door, request)) == slide_interpolate_spec(door),
{
}

/// A close request received while the door is actively opening defers: the
/// door keeps opening and the request stays pending, tick after tick, until
/// the open animation completes; completion clears the action while the
/// request still waits its turn.
pub proof fn lemma_close_deferred_while_opening(door: SlidingDoor, delta: i64)
    requires
        door.wf(),
        door.action == Some(Action::Open),
        door.pending == Some(Request::RequestClose),
        0 <= delta <= TIME_LIMIT,
    ensures
        door.elapsed + delta < door.target_duration ==> door_after_tick(door, delta).0.action
            == Some(Action::Open) && door_after_tick(door, delta).0.pending == Some(
            Request::RequestClose,
        ),
        door.elapsed + delta >= door.target_duration ==> door_after_tick(door, delta).0.action
            is None && door_after_tick(door, delta).0.pending == Some(Request::RequestClose)
            && door_after_tick(door, delta).1 == Some(DoorEvent::FinishedOpening),
{
}

/// Once the open animation has finished, the deferred close request is
/// honoured on the very next tick: it is consumed, and the door starts (or,
/// with a large enough delta, even finishes) its idle countdown.
pub proof fn lemma_deferred_close_picked_up(door: SlidingDoor, delta: i64)
    requires
        door.wf(),
        door.action is None,
        door.pending == Some(Request::RequestClose),
        0 <= delta <= TIME_LIMIT,
    ensures
        door_after_tick(door, delta).0.pending is None,
        delta <= door.idle_duration ==> door_after_tick(door, delta).0.action == Some(
            Action::WaitBeforeClose { waited_for: delta },
        ),
        delta > door.idle_duration ==> door_after_tick(door, delta).0.action == Some(Action::Close),
{
}

/// A tick that does not yet bring the cumulative progress up to the
/// traversal duration leaves the door opening, with exactly this tick's
/// delta added; so over any run of ticks, opening accrues progress until
/// the tick whose cumulative delta reaches the duration.
pub proof fn lemma_open_keeps_going(door: SlidingDoor, delta: i64)
    requires
        door.wf(),
        door.action == Some(Action::Open),
        door.elapsed + delta < door.target_duration,
        0 <= delta <= TIME_LIMIT,
    ensures
        door_after_tick(door, delta).0.action == Some(Action::Open),
        door_after_tick(door, delta).0.elapsed == door.elapsed + delta,
        door_after_tick(door, delta).1 is None,
{
}

/// A tick whose cumulative progress reaches the traversal duration clears
/// the open action in that very tick and reports the completion exactly
/// then.
pub proof fn lemma_open_completes(door: SlidingDoor, delta: i64)
    requires
        door.wf(),
        door.action == Some(Action::Open),
        door.elapsed + delta >= door.target_duration,
        0 <= delta <= TIME_LIMIT,
    ensures
        door_after_tick(door, delta).0.action is None,
        door_after_tick(door, delta).1 == Some(DoorEvent::FinishedOpening),
{
}

/// A door never starts opening on its own: without an open request, no tick
/// ever produces the `Open` action out of anything else.
pub proof fn lemma_no_spontaneous_open(door: SlidingDoor, delta: i64)
    requires
        door.wf(),
        door.action != Some(Action::Open),
        0 <= delta <= TIME_LIMIT,
    ensures
        door_after_tick(door, delta).0.action != Some(Action::Open),
{
}

/// Ticking preserves well-formedness at the specification level, so tick
/// descriptions can be chained.
pub proof fn lemma_tick_preserves_wf(door: SlidingDoor, delta: i64)
    requires
        door.wf(),
        0 <= delta <= TIME_LIMIT,
    ensures
        door_after_tick(door, delta).0.wf(),
{
}

} // verus!

