//! The read-only snapshot of the world that strategies consult each tick.

use crate::geometry::{Point, Pose};
use std::collections::HashMap;
use vstd::prelude::*;

verus! {

broadcast use vstd::std_specs::hash::group_hash_axioms;

/// Ball position, if observed, and the pose of each allied robot by id.
pub struct World {
    pub ball: Option<Point>,
    pub allies_bot: HashMap<u8, Pose>,
}

impl World {
    /// The pose of robot `id`, if the snapshot holds it.
    pub open spec fn robot_pose(&self, id: u8) -> Option<Pose> {
        if self.allies_bot@.contains_key(id) {
            Some(self.allies_bot@[id])
        } else {
            None
        }
    }

    /// A snapshot with no ball and no robot.
    pub fn new() -> (r: World)
        ensures
            r.ball is None,
            r.allies_bot@ == Map::<u8, Pose>::empty(),
    {
        World { ball: None, allies_bot: HashMap::new() }
    }

    /// Looks up the pose of robot `id`.
    pub fn robot(&self, id: u8) -> (r: Option<Pose>)
        ensures
            r == self.robot_pose(id),
    {
        match self.allies_bot.get(&id) {
            Some(p) => Some(*p),
            None => None,
        }
    }
}

} // verus!
