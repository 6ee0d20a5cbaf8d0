use crabe_decision::action::{Action, ActionWrapper, Command, Kick};
use crabe_decision::ball_placement::{BallPlacement, BallStatePlacement};
use crabe_decision::geometry::{Point, Pose};
use crabe_decision::strategy::Strategy;
use crabe_decision::world::World;

const ID: u8 = 3;

fn world_with(robot: Option<Pose>, ball: Option<Point>) -> World {
    let mut world = World::new();
    world.ball = ball;
    if let Some(p) = robot {
        world.allies_bot.insert(ID, p);
    }
    world
}

fn dribble() -> Command {
    Command { dribbler: 1000, ..Command::default() }
}

/// Steps a fresh placement with the robot staged behind a ball at (500, 0)
/// until it enters the transit phase; returns it and the time reached.
fn placement_in_transit(queue: &mut ActionWrapper) -> (BallPlacement, u64) {
    let mut placement = BallPlacement::new(ID, 0);
    let world = world_with(Some(Pose::new(Point::new(410, 0), 0)), Some(Point::new(500, 0)));
    assert!(!placement.step(&world, queue, 0));
    assert_eq!(placement.state(), BallStatePlacement::DRIBBLE);
    assert!(!placement.step(&world, queue, 1000));
    assert_eq!(placement.state(), BallStatePlacement::TURN);
    assert!(!placement.step(&world, queue, 1010));
    assert_eq!(placement.state(), BallStatePlacement::GO);
    assert_eq!(placement.start_time(), 1010);
    (placement, 1010)
}

#[test]
fn new_placement_starts_in_approach() {
    let placement = BallPlacement::new(7, 42);
    assert_eq!(placement.state(), BallStatePlacement::GO_BALL);
    assert_eq!(placement.start_time(), 42);
    assert_eq!(placement.id(), 7);
    assert_eq!(placement.destination(), Point::new(1500, 0));
    assert_eq!(placement.name(), "BallPlacement");
}

#[test]
fn far_robot_moves_toward_ball() {
    let mut placement = BallPlacement::new(ID, 0);
    let mut queue = ActionWrapper::new();
    queue.push(ID, Action::RawOrder(Command::default()));
    queue.push(ID + 1, Action::RawOrder(dribble()));
    let world = world_with(Some(Pose::new(Point::new(0, 0), 0)), Some(Point::new(0, 500)));
    assert!(!placement.step(&world, &mut queue, 5));
    assert_eq!(placement.state(), BallStatePlacement::GO_BALL);
    assert_eq!(
        queue.actions(ID),
        vec![Action::MoveTo {
            target: Point::new(0, 500),
            orientation: 1_570_796,
            dribbler: 0,
            charge: false,
            kick: Some(Kick::StraightKick { power: 0 }),
        }]
    );
    assert_eq!(queue.actions(ID + 1), vec![Action::RawOrder(dribble())]);
}

#[test]
fn staged_robot_enters_verify_and_dwells() {
    let mut placement = BallPlacement::new(ID, 0);
    let mut queue = ActionWrapper::new();
    let world = world_with(Some(Pose::new(Point::new(410, 0), 0)), Some(Point::new(500, 0)));
    assert!(!placement.step(&world, &mut queue, 250));
    assert_eq!(placement.state(), BallStatePlacement::DRIBBLE);
    assert_eq!(placement.start_time(), 250);
    assert!(queue.actions(ID).is_empty());
    for now in [250u64, 600, 1249] {
        assert!(!placement.step(&world, &mut queue, now));
        assert_eq!(placement.state(), BallStatePlacement::DRIBBLE);
        assert_eq!(placement.start_time(), 250);
    }
    assert_eq!(queue.actions(ID).len(), 3);
    assert!(!placement.step(&world, &mut queue, 1250));
    assert_eq!(placement.state(), BallStatePlacement::TURN);
    assert_eq!(placement.start_time(), 1250);
    assert_eq!(queue.actions(ID), vec![Action::RawOrder(dribble()); 4]);
}

#[test]
fn clock_going_backwards_does_not_end_the_dwell() {
    let mut placement = BallPlacement::new(ID, 0);
    let mut queue = ActionWrapper::new();
    let world = world_with(Some(Pose::new(Point::new(410, 0), 0)), Some(Point::new(500, 0)));
    assert!(!placement.step(&world, &mut queue, 5000));
    assert!(!placement.step(&world, &mut queue, 10));
    assert_eq!(placement.state(), BallStatePlacement::DRIBBLE);
}

#[test]
fn turn_phase_rotates_until_facing_destination() {
    let mut placement = BallPlacement::new(ID, 0);
    let mut queue = ActionWrapper::new();
    let ball = Point::new(0, 90);
    let world = world_with(Some(Pose::new(Point::new(0, 0), 1_570_796)), Some(ball));
    assert!(!placement.step(&world, &mut queue, 0));
    assert!(!placement.step(&world, &mut queue, 1000));
    assert_eq!(placement.state(), BallStatePlacement::TURN);
    let _ = queue.take(ID);
    assert!(!placement.step(&world, &mut queue, 1016));
    assert_eq!(placement.state(), BallStatePlacement::TURN);
    let turn = Command {
        forward_velocity: 100,
        angular_velocity: 200_000,
        dribbler: 1000,
        ..Command::default()
    };
    assert_eq!(queue.actions(ID), vec![Action::RawOrder(turn)]);
}

#[test]
fn transit_drives_forward_when_aligned() {
    let mut queue = ActionWrapper::new();
    let (mut placement, now) = placement_in_transit(&mut queue);
    let _ = queue.take(ID);
    let world = world_with(Some(Pose::new(Point::new(410, 0), 0)), Some(Point::new(500, 0)));
    assert!(!placement.step(&world, &mut queue, now + 16));
    assert_eq!(placement.state(), BallStatePlacement::GO);
    let drive = Command { forward_velocity: 400, dribbler: 1000, ..Command::default() };
    assert_eq!(queue.actions(ID), vec![Action::RawOrder(drive)]);
}

#[test]
fn transit_turns_in_place_when_misaligned() {
    let mut queue = ActionWrapper::new();
    let (mut placement, now) = placement_in_transit(&mut queue);
    let _ = queue.take(ID);
    // robot below the line to the destination, still facing the ball
    let robot = Pose::new(Point::new(410, -200), 0);
    let ball = Point::new(500, -200);
    let world = world_with(Some(robot), Some(ball));
    assert!(!placement.step(&world, &mut queue, now + 16));
    assert_eq!(placement.state(), BallStatePlacement::GO);
    let pending = queue.actions(ID);
    assert_eq!(pending.len(), 1);
    match pending[0] {
        Action::MoveTo { target, orientation, dribbler, charge, kick } => {
            assert_eq!(target, robot.position);
            assert_eq!(orientation, 182_593);
            assert_eq!(dribbler, 1000);
            assert!(!charge);
            assert_eq!(kick, Some(Kick::StraightKick { power: 0 }));
        }
        _ => panic!("expected a move"),
    }
}

#[test]
fn losing_the_ball_in_transit_returns_to_approach() {
    let mut queue = ActionWrapper::new();
    let (mut placement, now) = placement_in_transit(&mut queue);
    let before = queue.actions(ID);
    let world = world_with(Some(Pose::new(Point::new(410, 0), 0)), Some(Point::new(900, 0)));
    assert!(!placement.step(&world, &mut queue, now + 16));
    assert_eq!(placement.state(), BallStatePlacement::GO_BALL);
    assert_eq!(placement.start_time(), now + 16);
    assert_eq!(queue.actions(ID), before);
}

#[test]
fn ball_at_destination_settles_then_finishes() {
    let mut queue = ActionWrapper::new();
    let (mut placement, now) = placement_in_transit(&mut queue);
    let _ = queue.take(ID);
    let world = world_with(Some(Pose::new(Point::new(1410, 0), 0)), Some(Point::new(1480, 0)));
    assert!(!placement.step(&world, &mut queue, now + 20));
    assert_eq!(placement.state(), BallStatePlacement::STOP);
    assert_eq!(placement.start_time(), now + 20);
    assert!(queue.actions(ID).is_empty());
    assert!(!placement.step(&world, &mut queue, now + 20 + 1999));
    assert_eq!(queue.actions(ID), vec![Action::RawOrder(dribble())]);
    assert!(placement.step(&world, &mut queue, now + 20 + 2000));
    assert_eq!(
        queue.actions(ID),
        vec![Action::RawOrder(dribble()), Action::RawOrder(Command::default())]
    );
}

#[test]
fn missing_ball_stalls() {
    let mut placement = BallPlacement::new(ID, 0);
    let mut queue = ActionWrapper::new();
    queue.push(ID, Action::RawOrder(dribble()));
    let world = world_with(Some(Pose::new(Point::new(0, 0), 0)), None);
    assert!(!placement.step(&world, &mut queue, 100));
    assert_eq!(placement.state(), BallStatePlacement::GO_BALL);
    assert_eq!(queue.actions(ID), vec![Action::RawOrder(dribble())]);
}

#[test]
fn missing_robot_stalls() {
    let mut queue = ActionWrapper::new();
    let (mut placement, now) = placement_in_transit(&mut queue);
    let before = queue.actions(ID);
    let world = world_with(None, Some(Point::new(500, 0)));
    assert!(!placement.step(&world, &mut queue, now + 5000));
    assert_eq!(placement.state(), BallStatePlacement::GO);
    assert_eq!(queue.actions(ID), before);
}

#[test]
fn custom_destination() {
    let placement = BallPlacement::with_destination(1, Point::new(-200, 300), 77);
    assert_eq!(placement.destination(), Point::new(-200, 300));
    assert_eq!(placement.start_time(), 77);
    assert_eq!(placement.state(), BallStatePlacement::GO_BALL);
}

/// A crude field: a move puts the robot 90 mm short of its target, facing the
/// requested heading; a raw command drives it along its heading for one tick
/// and a running dribbler carries the ball 90 mm ahead of it.
fn simulate(robot: &mut Pose, ball: &mut Point, action: Action, dt_ms: i64) {
    match action {
        Action::MoveTo { target, orientation, .. } => {
            robot.orientation = orientation;
            let dx = (target.x - robot.position.x) as f64;
            let dy = (target.y - robot.position.y) as f64;
            let d = (dx * dx + dy * dy).sqrt();
            if d > 90.0 {
                let k = (d - 90.0) / d;
                robot.position.x += (dx * k).round() as i32;
                robot.position.y += (dy * k).round() as i32;
            }
        }
        Action::RawOrder(cmd) => {
            let heading = robot.orientation as f64 / 1e6;
            let step = cmd.forward_velocity as f64 * dt_ms as f64 / 1000.0;
            robot.position.x += (step * heading.cos()).round() as i32;
            robot.position.y += (step * heading.sin()).round() as i32;
            robot.orientation += cmd.angular_velocity * dt_ms / 1000;
            if cmd.dribbler > 0 {
                ball.x = robot.position.x + (90.0 * heading.cos()).round() as i32;
                ball.y = robot.position.y + (90.0 * heading.sin()).round() as i32;
            }
        }
    }
}

#[test]
fn end_to_end_placement() {
    let mut robot = Pose::new(Point::new(0, 0), 0);
    let mut ball = Point::new(500, 0);
    let mut placement = BallPlacement::new(ID, 0);
    let mut queue = ActionWrapper::new();
    let mut phases = vec![placement.state()];
    let mut settle_entry: Option<u64> = None;
    let mut settle_tick: Option<u64> = None;
    let mut finish_tick: Option<u64> = None;
    let mut finished_at: Option<u64> = None;
    let mut last_now: u64 = 0;
    for tick in 0u64..2000 {
        let now = tick * 1000 / 60;
        let dt = (now - last_now) as i64;
        last_now = now;
        let world = world_with(Some(robot), Some(ball));
        let done = placement.step(&world, &mut queue, now);
        if *phases.last().unwrap() != placement.state() {
            phases.push(placement.state());
            if placement.state() == BallStatePlacement::STOP {
                settle_entry = Some(now);
                settle_tick = Some(tick);
            }
        }
        let pending = queue.take(ID);
        if let Some(k) = settle_tick {
            if tick > k && !done {
                assert_eq!(pending, vec![Action::RawOrder(dribble())]);
            }
        }
        if done {
            finish_tick = Some(tick);
        }
        for action in pending {
            simulate(&mut robot, &mut ball, action, dt.max(1));
        }
        if done {
            finished_at = Some(now);
            break;
        }
    }
    assert_eq!(
        phases,
        vec![
            BallStatePlacement::GO_BALL,
            BallStatePlacement::DRIBBLE,
            BallStatePlacement::TURN,
            BallStatePlacement::GO,
            BallStatePlacement::STOP,
        ]
    );
    let finished_at = finished_at.expect("placement did not finish");
    let settle_entry = settle_entry.unwrap();
    assert!(finished_at - settle_entry >= 2000);
    assert!(finish_tick.unwrap() - settle_tick.unwrap() >= 120);
    assert!(finish_tick.unwrap() < 1000);
    assert!((ball.x - 1500).abs() <= 30 && ball.y.abs() <= 30);
}
