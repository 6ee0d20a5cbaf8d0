//! Single-tick strategies: each step issues one move toward a fixed target
//! and reports completion at once.

use crate::action::{Action, ActionWrapper};
use crate::geometry::{Point, Pose, bearing, facing};
use crate::strategy::Strategy;
use crate::world::World;
use vstd::prelude::*;

verus! {

/// Move robot `id` to `target`, facing heading zero.
#[allow(non_camel_case_types)]
pub struct goto {
    id: u8,
    target: Point,
}

/// Turn robot `id` in place to face `target`.
#[allow(non_camel_case_types)]
pub struct look_at {
    id: u8,
    target: Point,
}

pub open spec fn goto_action(target: Point) -> Action {
    Action::MoveTo { target, orientation: 0, dribbler: 0, charge: false, kick: None }
}

pub open spec fn look_at_action(robot: Pose, target: Point) -> Action {
    Action::MoveTo {
        target: robot.position,
        orientation: facing(robot.position, target, robot.orientation as int) as i64,
        dribbler: 0,
        charge: false,
        kick: None,
    }
}

impl goto {
    pub closed spec fn bound(&self) -> u8 {
        self.id
    }

    pub closed spec fn goal(&self) -> Point {
        self.target
    }

    /// A strategy that sends robot `id` to `target`.
    pub fn new(id: u8, target: Point) -> (r: Self)
        ensures
            r.bound() == id,
            r.goal() == target,
    {
        Self { id, target }
    }
}

impl Strategy for goto {
    open spec fn robot(&self) -> u8 {
        self.bound()
    }

    fn name(&self) -> (r: &'static str)
        ensures
            r@ == "goto"@,
    {
        proof {
            reveal_strlit("goto");
        }
        "goto"
    }

    /// Queues the move to the target and reports completion.
    fn step(&mut self, _world: &World, action_wrapper: &mut ActionWrapper, _now: u64) -> (done: bool)
        ensures
            done,
            *final(self) == *old(self),
            final(action_wrapper).pending(old(self).bound()) == old(action_wrapper).pending(
                old(self).bound(),
            ).push(goto_action(old(self).goal())),
    {
        let action = Action::MoveTo {
            target: self.target,
            orientation: 0,
            dribbler: 0,
            charge: false,
            kick: None,
        };
        action_wrapper.push(self.id, action);
        true
    }
}

impl look_at {
    pub closed spec fn bound(&self) -> u8 {
        self.id
    }

    pub closed spec fn goal(&self) -> Point {
        self.target
    }

    /// A strategy that turns robot `id` toward `target`.
    pub fn new(id: u8, target: Point) -> (r: Self)
        ensures
            r.bound() == id,
            r.goal() == target,
    {
        Self { id, target }
    }
}

impl Strategy for look_at {
    open spec fn robot(&self) -> u8 {
        self.bound()
    }

    fn name(&self) -> (r: &'static str)
        ensures
            r@ == "look_at"@,
    {
        proof {
            reveal_strlit("look_at");
        }
        "look_at"
    }

    /// Queues a turn in place toward the target and reports completion; when
    /// the robot is absent from the snapshot, nothing is queued and the tick
    /// reports unfinished.
    fn step(&mut self, world: &World, action_wrapper: &mut ActionWrapper, _now: u64) -> (done: bool)
        ensures
            *final(self) == *old(self),
            match world.robot_pose(old(self).bound()) {
                Some(pose) => {
                    &&& done
                    &&& final(action_wrapper).pending(old(self).bound()) == old(
                        action_wrapper,
                    ).pending(old(self).bound()).push(look_at_action(pose, old(self).goal()))
                },
                None => {
                    &&& !done
                    &&& forall|r: u8| #[trigger]
                        final(action_wrapper).pending(r) == old(action_wrapper).pending(r)
                },
            },
    {
        let robot = match world.robot(self.id) {
            Some(r) => r,
            None => return false,
        };
        let orientation = match bearing(robot.position, self.target) {
            Some(a) => a,
            None => robot.orientation,
        };
        let action = Action::MoveTo {
            target: robot.position,
            orientation,
            dribbler: 0,
            charge: false,
            kick: None,
        };
        action_wrapper.push(self.id, action);
        true
    }
}

} // verus!
