//! Commands and the per-robot queue of pending actions for the current tick.

use crate::geometry::Point;
use std::collections::HashMap;
use vstd::prelude::*;

verus! {

broadcast use vstd::std_specs::hash::group_hash_axioms;

/// Full dribbler intensity, in thousandths.
pub const DRIBBLER_FULL: u16 = 1000;

/// A kick request.
#[allow(non_camel_case_types)]
#[derive(Clone, Copy, Debug, PartialEq, Eq, Structural)]
pub enum Kick {
    /// A straight kick; `power` in thousandths of full power.
    StraightKick { power: u32 },
}

/// One tick's desired actuation. All fields are independent; the default
/// (all zero, no kick, no charge) is a stop command with the dribbler off.
#[derive(Clone, Copy, Debug, PartialEq, Eq, Structural)]
pub struct Command {
    /// Forward velocity, mm/s.
    pub forward_velocity: i32,
    /// Lateral (leftward) velocity, mm/s.
    pub left_velocity: i32,
    /// Angular velocity, microradians/s.
    pub angular_velocity: i64,
    /// Whether to charge the kicker.
    pub charge: bool,
    /// Requested kick, if any.
    pub kick: Option<Kick>,
    /// Dribbler intensity, in thousandths.
    pub dribbler: u16,
}

pub open spec fn stop_command() -> Command {
    Command {
        forward_velocity: 0,
        left_velocity: 0,
        angular_velocity: 0,
        charge: false,
        kick: None,
        dribbler: 0,
    }
}

impl Default for Command {
    fn default() -> (r: Command)
        ensures
            r == stop_command(),
    {
        Command {
            forward_velocity: 0,
            left_velocity: 0,
            angular_velocity: 0,
            charge: false,
            kick: None,
            dribbler: 0,
        }
    }
}

/// An action handed to the motion layer for one robot.
#[allow(non_camel_case_types)]
#[derive(Clone, Copy, Debug, PartialEq, Eq, Structural)]
pub enum Action {
    /// Move to `target` and face `orientation` (microradians).
    MoveTo {
        target: Point,
        orientation: i64,
        dribbler: u16,
        charge: bool,
        kick: Option<Kick>,
    },
    /// Send a raw command as is.
    RawOrder(Command),
}

/// Pending actions of each robot for the current tick, in insertion order.
pub struct ActionWrapper {
    queues: HashMap<u8, Vec<Action>>,
}

impl ActionWrapper {
    /// The actions pending for robot `id`, oldest first.
    pub closed spec fn pending(&self, id: u8) -> Seq<Action> {
        if self.queues@.contains_key(id) {
            self.queues@[id]@
        } else {
            Seq::empty()
        }
    }

    /// An empty queue.
    pub fn new() -> (r: ActionWrapper)
        ensures
            forall|id: u8| #[trigger] r.pending(id) == Seq::<Action>::empty(),
    {
        ActionWrapper { queues: HashMap::new() }
    }

    /// Appends `action` to the actions pending for robot `id`.
    pub fn push(&mut self, id: u8, action: Action)
        ensures
            final(self).pending(id) == old(self).pending(id).push(action),
            forall|other: u8|
                other != id ==> #[trigger] final(self).pending(other) == old(self).pending(other),
    {
        let mut queue = match self.queues.remove(&id) {
            Some(q) => q,
            None => Vec::new(),
        };
        queue.push(action);
        self.queues.insert(id, queue);
    }

    /// Removes every action pending for robot `id`.
    pub fn clear(&mut self, id: u8)
        ensures
            final(self).pending(id) == Seq::<Action>::empty(),
            forall|other: u8|
                other != id ==> #[trigger] final(self).pending(other) == old(self).pending(other),
    {
        let _ = self.queues.remove(&id);
    }

    /// Replaces everything pending for robot `id` by the single `action`.
    pub fn replace(&mut self, id: u8, action: Action)
        ensures
            final(self).pending(id) == seq![action],
            forall|other: u8|
                other != id ==> #[trigger] final(self).pending(other) == old(self).pending(other),
    {
        let mut queue = Vec::new();
        queue.push(action);
        self.queues.insert(id, queue);
        proof {
            assert(final(self).pending(id) =~= seq![action]);
        }
    }

    /// A copy of the actions pending for robot `id`, oldest first.
    pub fn actions(&self, id: u8) -> (r: Vec<Action>)
        ensures
            r@ == self.pending(id),
    {
        let mut out: Vec<Action> = Vec::new();
        match self.queues.get(&id) {
            None => {},
            Some(queue) => {
                let mut i: usize = 0;
                while i < queue.len()
                    invariant
                        i <= queue@.len(),
                        out@ == queue@.subrange(0, i as int),
                    decreases queue@.len() - i,
                {
                    out.push(queue[i]);
                    i = i + 1;
                    proof {
                        assert(out@ =~= queue@.subrange(0, i as int));
                    }
                }
                proof {
                    assert(out@ =~= queue@);
                }
            },
        }
        out
    }

    /// Removes and returns the actions pending for robot `id`, oldest first.
    pub fn take(&mut self, id: u8) -> (r: Vec<Action>)
        ensures
            r@ == old(self).pending(id),
            final(self).pending(id) == Seq::<Action>::empty(),
            forall|other: u8|
                other != id ==> #[trigger] final(self).pending(other) == old(self).pending(other),
    {
        match self.queues.remove(&id) {
            Some(q) => q,
            None => Vec::new(),
        }
    }
}

} // verus!
