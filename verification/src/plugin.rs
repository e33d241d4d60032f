//! The door registry: owns the live door instances and routes requests and
//! ticks to them by identity.
//!
//! This is the value the host embeds to run any number of independent
//! doors. A door's identity is the index it was handed out at creation;
//! doors are never destroyed, so identities stay valid for the life of the
//! registry.

use vstd::pervasive::VecAdditionalExecFns;
use vstd::prelude::*;

use crate::state_machine::{Action, DoorEvent, Request};
use crate::utils::slide_interpolate_spec;
use crate::{door_after_request, door_after_tick, valid_config, DoorError, SlidingDoor, TIME_LIMIT};

verus! {

/// The door subsystem as one value: every live door, addressed by the
/// identity `add_door` handed out for it.
#[derive(Debug)]
pub struct SlidingDoorPlugin {
    /// The live doors; a door's identity is its index here.
    pub doors: Vec<SlidingDoor>,
}

impl SlidingDoorPlugin {
    /// Well-formedness: every live door is well-formed.
    pub open spec fn wf(self) -> bool {
        forall|i: int| 0 <= i < self.doors@.len() ==> (#[trigger] self.doors@[i]).wf()
    }

    /// An empty registry with no doors.
    pub fn new() -> (plugin: SlidingDoorPlugin)
        ensures
            plugin.doors@.len() == 0,
            plugin.wf(),
    {
        SlidingDoorPlugin { doors: Vec::new() }
    }

    /// How many doors are registered.
    pub fn door_count(&self) -> (count: usize)
        ensures
            count == self.doors@.len(),
    {
        self.doors.len()
    }

    /// Register a door from its configuration and hand out its identity.
    /// Exactly the configurations [`valid_config`] refuses are rejected,
    /// and a rejected configuration leaves the registry untouched.
    pub fn add_door(
        &mut self,
        start_position: i64,
        end_position: i64,
        idle_duration: i64,
        target_duration: i64,
    ) -> (result: Result<usize, DoorError>)
        requires
            old(self).wf(),
        ensures
            final(self).wf(),
            result is Ok <==> valid_config(
                start_position as int,
                end_position as int,
                idle_duration as int,
                target_duration as int,
            ),
            result matches Ok(door_id) ==> door_id == old(self).doors@.len() && final(self).doors@
                == old(self).doors@.push(
                (SlidingDoor {
                    start_position,
                    end_position,
                    idle_duration,
                    target_duration,
                    elapsed: 0,
                    action: None,
                    pending: None,
                }),
            ),
            result is Err ==> result == Err::<usize, DoorError>(DoorError::InvalidConfiguration)
                && *final(self) == *old(self),
    {
        match SlidingDoor::new(start_position, end_position, idle_duration, target_duration) {
            Ok(door) => {
                let door_id: usize = self.doors.len();
                self.doors.push(door);
                Ok(door_id)
            },
            Err(e) => Err(e),
        }
    }

    /// Route a request to the door with the given identity and arbitrate it
    /// at once. An unknown identity is reported to the caller and disturbs
    /// no other door.
    pub fn submit_request(&mut self, door_id: usize, request: Request) -> (result: Result<
        (),
        DoorError,
    >)
        requires
            old(self).wf(),
        ensures
            final(self).wf(),
            result is Ok <==> door_id < old(self).doors@.len(),
            door_id < old(self).doors@.len() ==> final(self).doors@ == old(self).doors@.update(
                door_id as int,
                door_after_request(old(self).doors@[door_id as int], request),
            ),
            door_id >= old(self).doors@.len() ==> result == Err::<(), DoorError>(
                DoorError::DoorNotFound,
            ) && *final(self) == *old(self),
    {
        if door_id < self.doors.len() {
            let mut door: SlidingDoor = self.doors[door_id];
            door.submit_request(request);
            self.doors.set(door_id, door);
            Ok(())
        } else {
            Err(DoorError::DoorNotFound)
        }
    }

    /// Tick one door by identity, returning whatever completion its
    /// executor reported.
    pub fn tick(&mut self, door_id: usize, delta: i64) -> (result: Result<
        Option<DoorEvent>,
        DoorError,
    >)
        requires
            old(self).wf(),
            0 <= delta <= TIME_LIMIT,
        ensures
            final(self).wf(),
            result is Ok <==> door_id < old(self).doors@.len(),
            door_id < old(self).doors@.len() ==> final(self).doors@ == old(self).doors@.update(
                door_id as int,
                door_after_tick(old(self).doors@[door_id as int], delta).0,
            ) && result == Ok::<Option<DoorEvent>, DoorError>(
                door_after_tick(old(self).doors@[door_id as int], delta).1,
            ),
            door_id >= old(self).doors@.len() ==> result == Err::<Option<DoorEvent>, DoorError>(
                DoorError::DoorNotFound,
            ) && *final(self) == *old(self),
    {
        if door_id < self.doors.len() {
            let mut door: SlidingDoor = self.doors[door_id];
            let event = door.tick(delta);
            self.doors.set(door_id, door);
            Ok(event)
        } else {
            Err(DoorError::DoorNotFound)
        }
    }

    /// Tick every door with this tick's delta. Doors are independent: each
    /// ends up exactly where ticking it alone would have left it.
    pub fn tick_all(&mut self, delta: i64)
        requires
            old(self).wf(),
            0 <= delta <= TIME_LIMIT,
        ensures
            final(self).wf(),
            final(self).doors@.len() == old(self).doors@.len(),
            forall|i: int|
                0 <= i < old(self).doors@.len() ==> final(self).doors@[i] == door_after_tick(
                    old(self).doors@[i],
                    delta,
                ).0,
    {
        let count: usize = self.doors.len();
        let mut door_id: usize = 0;
        while door_id < count
            invariant
                count == self.doors@.len(),
                door_id <= count,
                0 <= delta <= TIME_LIMIT,
                forall|i: int| door_id <= i < count ==> self.doors@[i] == old(self).doors@[i],
                forall|i: int|
                    0 <= i < door_id ==> self.doors@[i] == door_after_tick(
                        old(self).doors@[i],
                        delta,
                    ).0,
                forall|i: int| 0 <= i < count ==> (#[trigger] self.doors@[i]).wf(),
                old(self).wf(),
                old(self).doors@.len() == count,
            decreases count - door_id,
        {
            let mut door: SlidingDoor = self.doors[door_id];
            let _event = door.tick(delta);
            self.doors.set(door_id, door);
            door_id = door_id + 1;
        }
    }

    /// The position the door with the given identity shows right now.
    pub fn current_position(&self, door_id: usize) -> (result: Result<i64, DoorError>)
        requires
            self.wf(),
        ensures
            result is Ok <==> door_id < self.doors@.len(),
            door_id < self.doors@.len() ==> result == Ok::<i64, DoorError>(
                slide_interpolate_spec(self.doors@[door_id as int]) as i64,
            ),
            door_id >= self.doors@.len() ==> result == Err::<i64, DoorError>(
                DoorError::DoorNotFound,
            ),
    {
        if door_id < self.doors.len() {
            let door: &SlidingDoor = &self.doors[door_id];
            Ok(door.current_position())
        } else {
            Err(DoorError::DoorNotFound)
        }
    }

    /// What the door with the given identity is currently doing.
    pub fn current_action(&self, door_id: usize) -> (result: Result<Option<Action>, DoorError>)
        ensures
            result is Ok <==> door_id < self.doors@.len(),
            door_id < self.doors@.len() ==> result == Ok::<Option<Action>, DoorError>(
                self.doors@[door_id as int].action,
            ),
            door_id >= self.doors@.len() ==> result == Err::<Option<Action>, DoorError>(
                DoorError::DoorNotFound,
            ),
    {
        if door_id < self.doors.len() {
            Ok(self.doors[door_id].action)
        } else {
            Err(DoorError::DoorNotFound)
        }
    }
}

} // verus!
