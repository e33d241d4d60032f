//! Requests, actions, completion events, and the request arbiter.
//!
//! A door carries at most one current [`Action`] and at most one pending
//! [`Request`]. The arbiter decides, from the current action and an incoming
//! request, what the next action is and whether the request is consumed.

use vstd::prelude::*;

verus! {

/// A request pushed at a door by an outside collaborator (a sensor, a UI
/// trigger). A door holds at most one pending request at a time.
#[derive(Clone, Copy, PartialEq, Eq, Structural, Debug)]
pub enum Request {
    RequestOpen,
    RequestClose,
}

/// What a door is currently doing. A door with no action is idle: fully
/// closed or fully open, depending on where its travel progress stands.
#[derive(Clone, Copy, PartialEq, Eq, Structural, Debug)]
pub enum Action {
    /// Animating from the start position toward the end position.
    Open,
    /// Fully open, counting down the idle time before closing may begin.
    /// `waited_for` starts at zero and grows by each tick's delta.
    WaitBeforeClose { waited_for: i64 },
    /// Animating from the end position back toward the start position.
    Close,
}

/// Emitted by a tick in which an action ran to completion.
#[derive(Clone, Copy, PartialEq, Eq, Structural, Debug)]
pub enum DoorEvent {
    /// The open animation reached the end position; the action was cleared.
    FinishedOpening,
    /// The idle countdown ran out; the action moved on to `Close`.
    FinishedWaiting,
    /// The close animation reached the start position; the action was cleared.
    FinishedClosing,
}

/// The five observable states of a door, for diagnostic display. A door
/// with an action is opening, waiting, or closing; an idle door is fully
/// open if its travel progress has reached the traversal duration, and
/// fully closed otherwise.
#[derive(Clone, Copy, PartialEq, Eq, Structural, Debug)]
pub enum DoorState {
    DoorClosed,
    DoorOpening,
    DoorOpen,
    DoorClosing,
    DoorWaiting { waited_for: i64 },
}

/// The arbiter's decision: the door's next action, and whether the request
/// was consumed. An unconsumed request stays pending and is retried on a
/// later arbitration pass.
///
/// The policy, checked in this order:
/// - `RequestOpen` always wins: whatever the door is doing, the next action
///   is `Open`, and the request is consumed.
/// - `RequestClose` while the door is actively opening is deferred: the
///   action stays `Open` and the request is not consumed.
/// - `RequestClose` otherwise is consumed: an idle door starts the idle
///   countdown at zero; a door already waiting or closing is left alone.
pub open spec fn arbitrate_spec(action: Option<Action>, request: Request) -> (Option<
    Action,
>, bool) {
    match request {
        Request::RequestOpen => (Some(Action::Open), true),
        Request::RequestClose => match action {
            Some(Action::Open) => (Some(Action::Open), false),
            None => (Some(Action::WaitBeforeClose { waited_for: 0 }), true),
            Some(a) => (Some(a), true),
        },
    }
}

/// Decide the next action from the current one and an incoming request.
///
/// Returns the next action and whether the request was consumed; an
/// unconsumed request must be kept pending by the caller.
pub fn arbitrate(action: Option<Action>, request: Request) -> (r: (Option<Action>, bool))
    ensures
        r == arbitrate_spec(action, request),
        request is RequestOpen ==> r.0 == Some(Action::Open) && r.1,
        request is RequestClose && action == Some(Action::Open) ==> r.0 == action && !r.1,
        request is RequestClose && action is None ==> r.0 == Some(
            Action::WaitBeforeClose { waited_for: 0 },
        ) && r.1,
        request is RequestClose && action is Some && action != Some(Action::Open) ==> r.0
            == action && r.1,
{
    match request {
        Request::RequestOpen => (Some(Action::Open), true),
        Request::RequestClose => match action {
            Some(Action::Open) => (Some(Action::Open), false),
            None => (Some(Action::WaitBeforeClose { waited_for: 0 }), true),
            Some(a) => (Some(a), true),
        },
    }
}

/// An open request always wins: whatever the current action, arbitrating
/// `RequestOpen` makes the next action `Open` and consumes the request.
pub proof fn lemma_open_always_wins(action: Option<Action>)
    ensures
        arbitrate_spec(action, Request::RequestOpen) == (Some(Action::Open), true),
{
}

/// A close request never interrupts a door that is actively opening: the
/// action stays `Open` and the request is left pending for a later pass.
pub proof fn lemma_close_deferred_by_arbiter(action: Option<Action>)
    requires
        action == Some(Action::Open),
    ensures
        arbitrate_spec(action, Request::RequestClose) == (action, false),
{
}

/// A close request is redundant for a door already waiting or closing: it
/// is consumed and the action is left exactly as it was.
pub proof fn lemma_redundant_close_ignored(action: Option<Action>)
    requires
        action matches Some(a) && (a is WaitBeforeClose || a is Close),
    ensures
        arbitrate_spec(action, Request::RequestClose) == (action, true),
{
}

} // verus!
