//! The contract shared by every per-tick behaviour.

use crate::action::ActionWrapper;
use crate::world::World;
use vstd::prelude::*;

verus! {

/// A behaviour bound to one robot, stepped once per tick.
pub trait Strategy {
    /// The robot this strategy drives; fixed for the strategy's lifetime.
    spec fn robot(&self) -> u8;

    /// Name used for diagnostics.
    fn name(&self) -> &'static str;

    /// Runs one tick at time `now` (milliseconds of a monotonic clock): reads
    /// `world`, queues commands for the bound robot only, and returns whether
    /// the behaviour is finished.
    fn step(&mut self, world: &World, action_wrapper: &mut ActionWrapper, now: u64) -> (done: bool)
        ensures
            final(self).robot() == old(self).robot(),
            forall|other: u8|
                other != old(self).robot() ==> #[trigger] final(action_wrapper).pending(other)
                    == old(action_wrapper).pending(other),
    ;
}

} // verus!
