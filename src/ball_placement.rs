//! Ball placement: a five-phase behaviour that fetches the ball, confirms the
//! grip, turns toward a destination, carries the ball there and settles.

use crate::action::{Action, ActionWrapper, Command, Kick, DRIBBLER_FULL, stop_command};
use crate::geometry::{
    Point,
    Pose,
    bearing,
    bearing_spec,
    dist_sq,
    facing,
    heading_matches,
    heading_matches_spec,
    is_ball_staged,
    is_ball_staged_spec,
    lemma_bearing_range,
    staging_reach,
};
use crate::strategy::Strategy;
use crate::world::World;
use vstd::prelude::*;

verus! {

/// Tolerance scale of the staged-ball test while approaching the ball.
pub const APPROACH_SCALE: u32 = 3;

/// Tolerance scale of the staged-ball test while carrying the ball.
pub const HOLD_SCALE: u32 = 30;

/// How long (ms) the dribbler runs before the grip counts as confirmed.
pub const VERIFY_DWELL_MS: u64 = 1000;

/// How long (ms) the robot holds still at the destination.
pub const SETTLE_DWELL_MS: u64 = 2000;

/// Heading tolerance (microradians) for leaving the turn phase.
pub const TURN_TOLERANCE: i64 = 20_000;

/// Heading tolerance (microradians) while carrying the ball.
pub const TRANSIT_TOLERANCE: i64 = 30_000;

/// Distance (mm) from the destination at which the ball counts as placed.
pub const PLACEMENT_TOLERANCE: i64 = 30;

/// Destination x (mm) used by `BallPlacement::new`.
pub const DEFAULT_DESTINATION_X: i32 = 1500;

/// Destination y (mm) used by `BallPlacement::new`.
pub const DEFAULT_DESTINATION_Y: i32 = 0;

/// Phase of a ball placement.
#[allow(non_camel_case_types)]
#[derive(Clone, Copy, Debug, PartialEq, Eq, Structural)]
pub enum BallStatePlacement {
    /// Move behind the ball, facing it.
    GO_BALL,
    /// Run the dribbler for a while to secure the ball.
    DRIBBLE,
    /// Turn toward the destination.
    TURN,
    /// Carry the ball to the destination.
    GO,
    /// Hold still at the destination, then finish.
    STOP,
}

/// What a tick does to the bound robot's queue.
#[derive(Clone, Copy, Debug, PartialEq, Eq, Structural)]
pub enum Effect {
    /// Leave the queue as it is.
    Nothing,
    /// Append an action.
    Push(Action),
    /// Drop the pending actions and queue this one alone.
    Replace(Action),
}

/// The outcome of one tick: next phase, phase entry time, queue effect, and
/// whether the behaviour is finished.
#[derive(Clone, Copy, Debug, PartialEq, Eq, Structural)]
pub struct Decision {
    pub phase: BallStatePlacement,
    pub start_time: u64,
    pub effect: Effect,
    pub done: bool,
}

pub open spec fn apply_effect(queue: Seq<Action>, effect: Effect) -> Seq<Action> {
    match effect {
        Effect::Nothing => queue,
        Effect::Push(a) => queue.push(a),
        Effect::Replace(a) => seq![a],
    }
}

/// Milliseconds since `start`; a clock that went backwards counts as none.
pub open spec fn elapsed(start: u64, now: u64) -> int {
    if now >= start {
        now - start
    } else {
        0
    }
}

pub open spec fn dribble_command() -> Command {
    Command { dribbler: DRIBBLER_FULL, ..stop_command() }
}

pub open spec fn turn_command() -> Command {
    Command {
        forward_velocity: 100,
        angular_velocity: 200_000,
        dribbler: DRIBBLER_FULL,
        ..stop_command()
    }
}

pub open spec fn drive_command() -> Command {
    Command { forward_velocity: 400, dribbler: DRIBBLER_FULL, ..stop_command() }
}

pub open spec fn hold_command() -> Command {
    Command { dribbler: DRIBBLER_FULL, ..stop_command() }
}

/// Move onto the ball, facing it, with an empty kick primed.
pub open spec fn approach_action(robot: Pose, ball: Point) -> Action {
    Action::MoveTo {
        target: ball,
        orientation: facing(robot.position, ball, robot.orientation as int) as i64,
        dribbler: 0,
        charge: false,
        kick: Some(Kick::StraightKick { power: 0 }),
    }
}

/// Turn in place toward `destination` with the dribbler on and an empty kick armed.
pub open spec fn aim_action(robot: Pose, destination: Point) -> Action {
    Action::MoveTo {
        target: robot.position,
        orientation: facing(robot.position, destination, robot.orientation as int) as i64,
        dribbler: DRIBBLER_FULL,
        charge: false,
        kick: Some(Kick::StraightKick { power: 0 }),
    }
}

pub open spec fn faces(robot: Pose, target: Point, tolerance: i64) -> bool {
    heading_matches_spec(
        robot.orientation as int,
        facing(robot.position, target, robot.orientation as int),
        tolerance as int,
    )
}

pub open spec fn decision(
    phase: BallStatePlacement,
    start_time: u64,
    effect: Effect,
    done: bool,
) -> Decision {
    Decision { phase, start_time, effect, done }
}

/// One tick of ball placement, from the phase, its entry time, the
/// destination, the robot's pose, the ball and the time now.
pub open spec fn plan(
    phase: BallStatePlacement,
    start: u64,
    destination: Point,
    robot: Pose,
    ball: Point,
    now: u64,
) -> Decision {
    match phase {
        BallStatePlacement::GO_BALL => {
            if is_ball_staged_spec(robot, ball, APPROACH_SCALE as int) {
                decision(BallStatePlacement::DRIBBLE, now, Effect::Nothing, false)
            } else {
                decision(
                    BallStatePlacement::GO_BALL,
                    start,
                    Effect::Replace(approach_action(robot, ball)),
                    false,
                )
            }
        },
        BallStatePlacement::DRIBBLE => {
            let effect = Effect::Push(Action::RawOrder(dribble_command()));
            if elapsed(start, now) >= VERIFY_DWELL_MS {
                decision(BallStatePlacement::TURN, now, effect, false)
            } else {
                decision(BallStatePlacement::DRIBBLE, start, effect, false)
            }
        },
        BallStatePlacement::TURN => {
            if faces(robot, destination, TURN_TOLERANCE) {
                decision(BallStatePlacement::GO, now, Effect::Nothing, false)
            } else {
                decision(
                    BallStatePlacement::TURN,
                    start,
                    Effect::Push(Action::RawOrder(turn_command())),
                    false,
                )
            }
        },
        BallStatePlacement::GO => {
            if !is_ball_staged_spec(robot, ball, HOLD_SCALE as int) {
                decision(BallStatePlacement::GO_BALL, now, Effect::Nothing, false)
            } else if dist_sq(ball, destination) <= PLACEMENT_TOLERANCE * PLACEMENT_TOLERANCE {
                decision(BallStatePlacement::STOP, now, Effect::Nothing, false)
            } else if !faces(robot, destination, TRANSIT_TOLERANCE) {
                decision(
                    BallStatePlacement::GO,
                    start,
                    Effect::Push(aim_action(robot, destination)),
                    false,
                )
            } else {
                decision(
                    BallStatePlacement::GO,
                    start,
                    Effect::Push(Action::RawOrder(drive_command())),
                    false,
                )
            }
        },
        BallStatePlacement::STOP => {
            if elapsed(start, now) < SETTLE_DWELL_MS {
                decision(
                    BallStatePlacement::STOP,
                    start,
                    Effect::Push(Action::RawOrder(hold_command())),
                    false,
                )
            } else {
                decision(
                    BallStatePlacement::STOP,
                    start,
                    Effect::Push(Action::RawOrder(stop_command())),
                    true,
                )
            }
        },
    }
}

/// Ball placement bound to one robot.
pub struct BallPlacement {
    id: u8,
    start_time: u64,
    state: BallStatePlacement,
    destination: Point,
}

/// The heading toward `to` from `robot`, or the robot's own heading when it
/// stands on `to`.
fn facing_exec(robot: Pose, to: Point) -> (r: i64)
    ensures
        r as int == facing(robot.position, to, robot.orientation as int),
{
    match bearing(robot.position, to) {
        Some(a) => a,
        None => robot.orientation,
    }
}

fn faces_exec(robot: Pose, target: Point, tolerance: i64) -> (r: bool)
    ensures
        r == faces(robot, target, tolerance),
{
    heading_matches(robot.orientation, facing_exec(robot, target), tolerance)
}

fn since(start: u64, now: u64) -> (r: u64)
    ensures
        r as int == elapsed(start, now),
{
    if now >= start {
        now - start
    } else {
        0
    }
}

impl BallPlacement {
    pub closed spec fn phase(&self) -> BallStatePlacement {
        self.state
    }

    pub closed spec fn started(&self) -> u64 {
        self.start_time
    }

    pub closed spec fn target(&self) -> Point {
        self.destination
    }

    pub closed spec fn bound(&self) -> u8 {
        self.id
    }

    /// A placement for robot `id` toward the default destination, entering
    /// the approach phase at time `now`.
    pub fn new(id: u8, now: u64) -> (r: Self)
        ensures
            r.bound() == id,
            r.phase() == BallStatePlacement::GO_BALL,
            r.started() == now,
            r.target() == (Point { x: DEFAULT_DESTINATION_X, y: DEFAULT_DESTINATION_Y }),
    {
        Self {
            id,
            start_time: now,
            state: BallStatePlacement::GO_BALL,
            destination: Point { x: DEFAULT_DESTINATION_X, y: DEFAULT_DESTINATION_Y },
        }
    }

    /// A placement for robot `id` toward `destination`, entering the
    /// approach phase at time `now`.
    pub fn with_destination(id: u8, destination: Point, now: u64) -> (r: Self)
        ensures
            r.bound() == id,
            r.phase() == BallStatePlacement::GO_BALL,
            r.started() == now,
            r.target() == destination,
    {
        Self { id, start_time: now, state: BallStatePlacement::GO_BALL, destination }
    }

    /// The current phase.
    pub fn state(&self) -> (r: BallStatePlacement)
        ensures
            r == self.phase(),
    {
        self.state
    }

    /// When the current phase was entered (ms).
    pub fn start_time(&self) -> (r: u64)
        ensures
            r == self.started(),
    {
        self.start_time
    }

    /// The point the ball is carried to.
    pub fn destination(&self) -> (r: Point)
        ensures
            r == self.target(),
    {
        self.destination
    }

    /// The robot this placement drives.
    pub fn id(&self) -> (r: u8)
        ensures
            r == self.bound(),
    {
        self.id
    }

    /// Decides one tick from the robot's pose, the ball and the time now.
    pub fn decide(&self, robot: Pose, ball: Point, now: u64) -> (r: Decision)
        ensures
            r == plan(self.phase(), self.started(), self.target(), robot, ball, now),
    {
        let start = self.start_time;
        match self.state {
            BallStatePlacement::GO_BALL => {
                if is_ball_staged(robot, ball, APPROACH_SCALE) {
                    Decision {
                        phase: BallStatePlacement::DRIBBLE,
                        start_time: now,
                        effect: Effect::Nothing,
                        done: false,
                    }
                } else {
                    let action = Action::MoveTo {
                        target: ball,
                        orientation: facing_exec(robot, ball),
                        dribbler: 0,
                        charge: false,
                        kick: Some(Kick::StraightKick { power: 0 }),
                    };
                    Decision {
                        phase: BallStatePlacement::GO_BALL,
                        start_time: start,
                        effect: Effect::Replace(action),
                        done: false,
                    }
                }
            },
            BallStatePlacement::DRIBBLE => {
                let command = Command { dribbler: DRIBBLER_FULL, ..Command::default() };
                let effect = Effect::Push(Action::RawOrder(command));
                if since(start, now) >= VERIFY_DWELL_MS {
                    Decision {
                        phase: BallStatePlacement::TURN,
                        start_time: now,
                        effect,
                        done: false,
                    }
                } else {
                    Decision {
                        phase: BallStatePlacement::DRIBBLE,
                        start_time: start,
                        effect,
                        done: false,
                    }
                }
            },
            BallStatePlacement::TURN => {
                if faces_exec(robot, self.destination, TURN_TOLERANCE) {
                    Decision {
                        phase: BallStatePlacement::GO,
                        start_time: now,
                        effect: Effect::Nothing,
                        done: false,
                    }
                } else {
                    let command = Command {
                        forward_velocity: 100,
                        angular_velocity: 200_000,
                        dribbler: DRIBBLER_FULL,
                        ..Command::default()
                    };
                    Decision {
                        phase: BallStatePlacement::TURN,
                        start_time: start,
                        effect: Effect::Push(Action::RawOrder(command)),
                        done: false,
                    }
                }
            },
            BallStatePlacement::GO => {
                if !is_ball_staged(robot, ball, HOLD_SCALE) {
                    return Decision {
                        phase: BallStatePlacement::GO_BALL,
                        start_time: now,
                        effect: Effect::Nothing,
                        done: false,
                    };
                }
                let dx = ball.x as i128 - self.destination.x as i128;
                let dy = ball.y as i128 - self.destination.y as i128;
                assert(dx * dx <= 0x1_0000_0000 * 0x1_0000_0000) by (nonlinear_arith)
                    requires
                        -0x1_0000_0000 <= dx <= 0x1_0000_0000,
                ;
                assert(dy * dy <= 0x1_0000_0000 * 0x1_0000_0000) by (nonlinear_arith)
                    requires
                        -0x1_0000_0000 <= dy <= 0x1_0000_0000,
                ;
                assert(0 <= dx * dx) by (nonlinear_arith);
                assert(0 <= dy * dy) by (nonlinear_arith);
                assert(dist_sq(ball, self.destination) == dx * dx + dy * dy) by (nonlinear_arith)
                    requires
                        dx == ball.x - self.destination.x,
                        dy == ball.y - self.destination.y,
                ;
                let limit = (PLACEMENT_TOLERANCE as i128) * (PLACEMENT_TOLERANCE as i128);
                if dx * dx + dy * dy <= limit {
                    Decision {
                        phase: BallStatePlacement::STOP,
                        start_time: now,
                        effect: Effect::Nothing,
                        done: false,
                    }
                } else if !faces_exec(robot, self.destination, TRANSIT_TOLERANCE) {
                    let action = Action::MoveTo {
                        target: robot.position,
                        orientation: facing_exec(robot, self.destination),
                        dribbler: DRIBBLER_FULL,
                        charge: false,
                        kick: Some(Kick::StraightKick { power: 0 }),
                    };
                    Decision {
                        phase: BallStatePlacement::GO,
                        start_time: start,
                        effect: Effect::Push(action),
                        done: false,
                    }
                } else {
                    let command = Command {
                        forward_velocity: 400,
                        dribbler: DRIBBLER_FULL,
                        ..Command::default()
                    };
                    Decision {
                        phase: BallStatePlacement::GO,
                        start_time: start,
                        effect: Effect::Push(Action::RawOrder(command)),
                        done: false,
                    }
                }
            },
            BallStatePlacement::STOP => {
                if since(start, now) < SETTLE_DWELL_MS {
                    let command = Command { dribbler: DRIBBLER_FULL, ..Command::default() };
                    Decision {
                        phase: BallStatePlacement::STOP,
                        start_time: start,
                        effect: Effect::Push(Action::RawOrder(command)),
                        done: false,
                    }
                } else {
                    Decision {
                        phase: BallStatePlacement::STOP,
                        start_time: start,
                        effect: Effect::Push(Action::RawOrder(Command::default())),
                        done: true,
                    }
                }
            },
        }
    }
}

impl Strategy for BallPlacement {
    open spec fn robot(&self) -> u8 {
        self.bound()
    }

    fn name(&self) -> (r: &'static str)
        ensures
            r@ == "BallPlacement"@,
    {
        proof {
            reveal_strlit("BallPlacement");
        }
        "BallPlacement"
    }

    /// Runs one tick. Without an observed ball, or without the bound robot in
    /// the snapshot, nothing changes and the tick reports unfinished;
    /// otherwise the outcome is the one `plan` gives.
    fn step(&mut self, world: &World, action_wrapper: &mut ActionWrapper, now: u64) -> (done: bool)
        ensures
            match (world.ball, world.robot_pose(old(self).bound())) {
                (Some(ball), Some(pose)) => {
                    let d = plan(
                        old(self).phase(),
                        old(self).started(),
                        old(self).target(),
                        pose,
                        ball,
                        now,
                    );
                    &&& final(self).phase() == d.phase
                    &&& final(self).started() == d.start_time
                    &&& final(self).bound() == old(self).bound()
                    &&& final(self).target() == old(self).target()
                    &&& done == d.done
                    &&& final(action_wrapper).pending(old(self).bound()) == apply_effect(
                        old(action_wrapper).pending(old(self).bound()),
                        d.effect,
                    )
                },
                _ => {
                    &&& !done
                    &&& *final(self) == *old(self)
                    &&& forall|r: u8| #[trigger]
                        final(action_wrapper).pending(r) == old(action_wrapper).pending(r)
                },
            },
    {
        let ball = match world.ball {
            Some(b) => b,
            None => return false,
        };
        let robot = match world.robot(self.id) {
            Some(r) => r,
            None => return false,
        };
        let d = self.decide(robot, ball, now);
        match d.effect {
            Effect::Nothing => {},
            Effect::Push(a) => action_wrapper.push(self.id, a),
            Effect::Replace(a) => action_wrapper.replace(self.id, a),
        }
        self.state = d.phase;
        self.start_time = d.start_time;
        d.done
    }
}

/// A robot that is not staged at the loose tolerance (for instance one far
/// from the ball) stays in the approach phase, and its queue then holds
/// exactly one move onto the ball; away from the ball that move faces the
/// bearing to it.
pub proof fn lemma_far_robot_approaches(
    placement: BallPlacement,
    robot: Pose,
    ball: Point,
    now: u64,
    queue: Seq<Action>,
)
    requires
        placement.phase() == BallStatePlacement::GO_BALL,
        !is_ball_staged_spec(robot, ball, APPROACH_SCALE as int),
    ensures
        ({
            let d = plan(placement.phase(), placement.started(), placement.target(), robot, ball, now);
            &&& d.phase == BallStatePlacement::GO_BALL
            &&& !d.done
            &&& apply_effect(queue, d.effect) == seq![approach_action(robot, ball)]
        }),
        approach_action(robot, ball) matches Action::MoveTo { target, orientation, .. } && target
            == ball && (robot.position != ball ==> orientation == bearing_spec(
            ball.x - robot.position.x,
            ball.y - robot.position.y,
        )),
{
    if robot.position != ball {
        lemma_bearing_range(ball.x - robot.position.x, ball.y - robot.position.y);
    }
}

/// A robot far from the ball is never staged at the loose tolerance.
pub proof fn lemma_far_robot_not_staged(robot: Pose, ball: Point)
    requires
        dist_sq(robot.position, ball) > staging_reach(APPROACH_SCALE as int) * staging_reach(
            APPROACH_SCALE as int,
        ),
    ensures
        !is_ball_staged_spec(robot, ball, APPROACH_SCALE as int),
{
}

/// In the turn phase the robot leaves for transit exactly when its heading
/// matches the bearing to the destination (compared the short way round the
/// circle), queueing nothing; otherwise it stays and queues the turn command.
pub proof fn lemma_turn_exit(placement: BallPlacement, robot: Pose, ball: Point, now: u64)
    requires
        placement.phase() == BallStatePlacement::TURN,
        robot.position != placement.target(),
    ensures
        ({
            let d = plan(placement.phase(), placement.started(), placement.target(), robot, ball, now);
            let aim = bearing_spec(
                placement.target().x - robot.position.x,
                placement.target().y - robot.position.y,
            );
            &&& !d.done
            &&& heading_matches_spec(robot.orientation as int, aim, TURN_TOLERANCE as int) ==> d.phase
                == BallStatePlacement::GO && d.effect == Effect::Nothing
            &&& !heading_matches_spec(robot.orientation as int, aim, TURN_TOLERANCE as int) ==> d.phase
                == BallStatePlacement::TURN && d.effect == Effect::Push(
                Action::RawOrder(turn_command()),
            )
        }),
{
}

/// The settle phase holds still with the dribbler on, unfinished, until its
/// dwell has elapsed since entry; the first tick after that queues the stop
/// command and reports completion.
pub proof fn lemma_settle_dwell(placement: BallPlacement, robot: Pose, ball: Point, now: u64)
    requires
        placement.phase() == BallStatePlacement::STOP,
    ensures
        ({
            let d = plan(placement.phase(), placement.started(), placement.target(), robot, ball, now);
            &&& d.phase == BallStatePlacement::STOP
            &&& d.start_time == placement.started()
            &&& elapsed(placement.started(), now) < SETTLE_DWELL_MS ==> !d.done && d.effect
                == Effect::Push(Action::RawOrder(hold_command()))
            &&& elapsed(placement.started(), now) >= SETTLE_DWELL_MS ==> d.done && d.effect
                == Effect::Push(Action::RawOrder(stop_command()))
        }),
{
}

/// Once the loose staged test holds in the approach phase, the next tick
/// enters the verify phase and records that tick's time as its entry time.
pub proof fn lemma_staged_enters_verify(placement: BallPlacement, robot: Pose, ball: Point, now: u64)
    requires
        placement.phase() == BallStatePlacement::GO_BALL,
        is_ball_staged_spec(robot, ball, APPROACH_SCALE as int),
    ensures
        ({
            let d = plan(placement.phase(), placement.started(), placement.target(), robot, ball, now);
            &&& d.phase == BallStatePlacement::DRIBBLE
            &&& d.start_time == now
            &&& !d.done
        }),
{
}

/// The verify phase lasts until its dwell has elapsed since entry, keeping
/// its entry time; the first tick after that enters the turn phase.
pub proof fn lemma_verify_dwell(placement: BallPlacement, robot: Pose, ball: Point, now: u64)
    requires
        placement.phase() == BallStatePlacement::DRIBBLE,
    ensures
        ({
            let d = plan(placement.phase(), placement.started(), placement.target(), robot, ball, now);
            &&& elapsed(placement.started(), now) < VERIFY_DWELL_MS ==> d.phase
                == BallStatePlacement::DRIBBLE && d.start_time == placement.started()
            &&& elapsed(placement.started(), now) >= VERIFY_DWELL_MS ==> d.phase
                == BallStatePlacement::TURN && d.start_time == now
            &&& !d.done
        }),
{
}

/// Losing the ball while carrying it (the wide staged test fails) sends the
/// behaviour back to the approach phase.
pub proof fn lemma_lost_ball_recovers(placement: BallPlacement, robot: Pose, ball: Point, now: u64)
    requires
        placement.phase() == BallStatePlacement::GO,
        !is_ball_staged_spec(robot, ball, HOLD_SCALE as int),
    ensures
        ({
            let d = plan(placement.phase(), placement.started(), placement.target(), robot, ball, now);
            &&& d.phase == BallStatePlacement::GO_BALL
            &&& !d.done
        }),
{
}

/// Every tick changes the phase at most once; the entry time is set to the
/// tick's time exactly when the phase changes and is kept otherwise; and only
/// the settle phase ever reports completion.
pub proof fn lemma_phase_entry_resets_timer(
    placement: BallPlacement,
    robot: Pose,
    ball: Point,
    now: u64,
)
    ensures
        ({
            let d = plan(placement.phase(), placement.started(), placement.target(), robot, ball, now);
            &&& d.phase != placement.phase() ==> d.start_time == now
            &&& d.phase == placement.phase() ==> d.start_time == placement.started()
            &&& d.done ==> placement.phase() == BallStatePlacement::STOP
        }),
{
}

} // verus!
