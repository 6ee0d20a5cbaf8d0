//! Geometry on integer coordinates: bearings, wrap-aware heading comparison
//! and the "robot is staged behind the ball" predicate.

use vstd::prelude::*;

verus! {

/// Half a turn (pi) in microradians. Angles are reported in `(-HALF_TURN, HALF_TURN]`.
pub const HALF_TURN: i64 = 3_141_593;

/// A full turn in microradians; heading comparisons are taken modulo this value.
pub const FULL_TURN: i64 = 6_283_186;

/// A quarter turn (pi / 2) in microradians.
pub const QUARTER_TURN: i64 = 1_570_796;

/// An eighth of a turn (pi / 4) in microradians.
pub const EIGHTH_TURN: i64 = 785_398;

/// Distance (mm) from the ball centre to the staging point on the robot's side.
pub const STAGE_OFFSET: i64 = 50;

/// Extra distance slack (mm) allowed per unit of tolerance scale.
pub const STAGE_SLACK: i64 = 10;

/// Heading tolerance (microradians) of the staged-ball test.
pub const STAGE_HEADING_TOLERANCE: i64 = 20_000;

/// A point of the field, in millimetres.
#[derive(Clone, Copy, Debug, PartialEq, Eq, Structural)]
pub struct Point {
    pub x: i32,
    pub y: i32,
}

/// Position and orientation (microradians, any range: comparisons wrap).
#[derive(Clone, Copy, Debug, PartialEq, Eq, Structural)]
pub struct Pose {
    pub position: Point,
    pub orientation: i64,
}

impl Point {
    pub fn new(x: i32, y: i32) -> (r: Point)
        ensures
            r.x == x,
            r.y == y,
    {
        Point { x, y }
    }
}

impl Pose {
    pub fn new(position: Point, orientation: i64) -> (r: Pose)
        ensures
            r.position == position,
            r.orientation == orientation,
    {
        Pose { position, orientation }
    }
}

pub open spec fn abs(v: int) -> int {
    if v < 0 {
        -v
    } else {
        v
    }
}

/// Squared Euclidean distance between two points.
pub open spec fn dist_sq(a: Point, b: Point) -> int {
    (a.x - b.x) * (a.x - b.x) + (a.y - b.y) * (a.y - b.y)
}

/// Arctangent of `n / d` for `0 <= n <= d`, `d > 0`, in microradians, by the
/// polynomial `(pi/4) z + z (1 - z) (0.2447 + 0.0663 z)` with `z = n / d`
/// (within about 1.5 milliradians of the true arctangent), rounded down.
pub open spec fn atan_unit(n: int, d: int) -> int {
    (EIGHTH_TURN * n * d * d + n * (d - n) * (244_700 * d + 66_300 * n)) / (d * d * d)
}

/// Four-quadrant arctangent of the vector `(dx, dy)`: the octant is reduced
/// to `[0, pi/4]` by symmetry, and the result lies in `(-pi, pi]`.
pub open spec fn bearing_spec(dx: int, dy: int) -> int {
    let ax = abs(dx);
    let ay = abs(dy);
    let first = if ax >= ay {
        atan_unit(ay, ax)
    } else {
        QUARTER_TURN - atan_unit(ax, ay)
    };
    let upper = if dx < 0 {
        HALF_TURN - first
    } else {
        first
    };
    if dy < 0 && upper < HALF_TURN {
        -upper
    } else {
        upper
    }
}

/// Bearing from `from` to `to`; `None` when the two points coincide.
pub open spec fn bearing_between(from: Point, to: Point) -> Option<int> {
    if from == to {
        None
    } else {
        Some(bearing_spec(to.x - from.x, to.y - from.y))
    }
}

/// The heading to face `to` from `from`, or `fallback` when they coincide.
pub open spec fn facing(from: Point, to: Point, fallback: int) -> int {
    match bearing_between(from, to) {
        Some(a) => a,
        None => fallback,
    }
}

/// Shortest angular distance between two headings, in `[0, HALF_TURN]`.
pub open spec fn angle_gap(a: int, b: int) -> int {
    let r = abs(a - b) % (FULL_TURN as int);
    if r <= FULL_TURN - r {
        r
    } else {
        FULL_TURN - r
    }
}

pub open spec fn heading_matches_spec(current: int, target: int, tolerance: int) -> bool {
    angle_gap(current, target) <= tolerance
}

/// Distance from the ball (mm) within which a robot counts as staged at `scale`.
///
/// The staging point lies `STAGE_OFFSET` from the ball on the robot's side, so a
/// robot at distance `d` from the ball is `|d - STAGE_OFFSET|` from it. The
/// allowed distance to the staging point is `STAGE_OFFSET + STAGE_SLACK * scale`,
/// never below `STAGE_OFFSET`, so the test amounts to `d <= staging_reach(scale)`.
pub open spec fn staging_reach(scale: int) -> int {
    2 * STAGE_OFFSET + STAGE_SLACK * scale
}

pub open spec fn is_ball_staged_spec(robot: Pose, ball: Point, scale: int) -> bool {
    &&& robot.position != ball
    &&& dist_sq(robot.position, ball) <= staging_reach(scale) * staging_reach(scale)
    &&& heading_matches_spec(
        robot.orientation as int,
        bearing_spec(ball.x - robot.position.x, ball.y - robot.position.y),
        STAGE_HEADING_TOLERANCE as int,
    )
}

proof fn lemma_atan_unit_bounds(n: int, d: int)
    requires
        0 <= n <= d,
        0 < d,
    ensures
        0 <= atan_unit(n, d) <= EIGHTH_TURN,
{
    let num = EIGHTH_TURN * n * d * d + n * (d - n) * (244_700 * d + 66_300 * n);
    let den = d * d * d;
    assert(n * (244_700 * d + 66_300 * n) <= EIGHTH_TURN * (d * d)) by (nonlinear_arith)
        requires
            0 <= n <= d,
    ;
    assert(n * (d - n) * (244_700 * d + 66_300 * n) <= EIGHTH_TURN * (d * d) * (d - n))
        by (nonlinear_arith)
        requires
            n * (244_700 * d + 66_300 * n) <= EIGHTH_TURN * (d * d),
            0 <= n <= d,
    ;
    assert(0 <= num <= EIGHTH_TURN * den) by (nonlinear_arith)
        requires
            n * (d - n) * (244_700 * d + 66_300 * n) <= EIGHTH_TURN * (d * d) * (d - n),
            num == EIGHTH_TURN * n * d * d + n * (d - n) * (244_700 * d + 66_300 * n),
            den == d * d * d,
            0 <= n <= d,
    ;
    assert(den > 0) by (nonlinear_arith)
        requires
            den == d * d * d,
            d > 0,
    ;
    vstd::arithmetic::div_mod::lemma_div_pos_is_pos(num, den);
    vstd::arithmetic::div_mod::lemma_div_is_ordered(num, EIGHTH_TURN * den, den);
    vstd::arithmetic::div_mod::lemma_div_multiples_vanish(EIGHTH_TURN as int, den);
    assert(EIGHTH_TURN * den == den * EIGHTH_TURN);
}

/// Every bearing lies in `(-HALF_TURN, HALF_TURN]`.
pub proof fn lemma_bearing_range(dx: int, dy: int)
    requires
        dx != 0 || dy != 0,
    ensures
        -HALF_TURN < bearing_spec(dx, dy) <= HALF_TURN,
{
    let ax = abs(dx);
    let ay = abs(dy);
    if ax >= ay {
        lemma_atan_unit_bounds(ay, ax);
    } else {
        lemma_atan_unit_bounds(ax, ay);
    }
}

/// `atan_unit` computed exactly, for operands below `2^32`.
fn atan_unit_exec(n: i128, d: i128) -> (r: i128)
    requires
        0 <= n <= d,
        0 < d,
        d <= 0x1_0000_0000,
    ensures
        r == atan_unit(n as int, d as int),
{
    let ghost n_i = n as int;
    let ghost d_i = d as int;
    assert(d_i * d_i <= 0x1_0000_0000 * 0x1_0000_0000) by (nonlinear_arith)
        requires
            0 < d_i <= 0x1_0000_0000,
    ;
    let dd = d * d;
    assert(dd * d_i <= 0x1_0000_0000 * 0x1_0000_0000 * 0x1_0000_0000) by (nonlinear_arith)
        requires
            0 < d_i <= 0x1_0000_0000,
            dd == d_i * d_i,
    ;
    assert(dd * d_i > 0) by (nonlinear_arith)
        requires
            0 < d_i,
            dd == d_i * d_i,
    ;
    let ddd = dd * d;
    assert(n_i * dd <= 0x1_0000_0000 * 0x1_0000_0000 * 0x1_0000_0000) by (nonlinear_arith)
        requires
            0 <= n_i <= d_i,
            0 < d_i <= 0x1_0000_0000,
            dd == d_i * d_i,
    ;
    let ndd = n * dd;
    let lead = (EIGHTH_TURN as i128) * ndd;
    let diff = d - n;
    assert(n_i * (d_i - n_i) <= 0x1_0000_0000 * 0x1_0000_0000) by (nonlinear_arith)
        requires
            0 <= n_i <= d_i,
            0 < d_i <= 0x1_0000_0000,
    ;
    assert(0 <= n_i * (d_i - n_i)) by (nonlinear_arith)
        requires
            0 <= n_i <= d_i,
    ;
    let nd = n * diff;
    let poly = 244_700 * d + 66_300 * n;
    assert(nd * poly <= 0x1_0000_0000 * 0x1_0000_0000 * (311_000 * 0x1_0000_0000))
        by (nonlinear_arith)
        requires
            0 <= nd <= 0x1_0000_0000 * 0x1_0000_0000,
            0 <= poly <= 311_000 * 0x1_0000_0000,
    ;
    assert(0 <= nd * poly) by (nonlinear_arith)
        requires
            0 <= nd,
            0 <= poly,
    ;
    let tail = nd * poly;
    assert(EIGHTH_TURN * n_i * d_i * d_i == EIGHTH_TURN * (n_i * (d_i * d_i))) by (nonlinear_arith);
    assert(n_i * (d_i - n_i) * (244_700 * d_i + 66_300 * n_i) == tail);
    assert(d_i * d_i * d_i == ddd);
    (lead + tail) / ddd
}

/// Four-quadrant bearing from `from` to `to`, in microradians; `None` when
/// the points coincide.
pub fn bearing(from: Point, to: Point) -> (r: Option<i64>)
    ensures
        r matches Some(a) ==> bearing_between(from, to) == Some(a as int),
        r is None <==> from == to,
        r matches Some(a) ==> -HALF_TURN < a <= HALF_TURN,
{
    if from.x == to.x && from.y == to.y {
        return None;
    }
    let dx = to.x as i64 - from.x as i64;
    let dy = to.y as i64 - from.y as i64;
    let ax: i64 = if dx < 0 {
        -dx
    } else {
        dx
    };
    let ay: i64 = if dy < 0 {
        -dy
    } else {
        dy
    };
    let first: i64 = if ax >= ay {
        let a = atan_unit_exec(ay as i128, ax as i128);
        proof {
            lemma_atan_unit_bounds(ay as int, ax as int);
        }
        a as i64
    } else {
        let a = atan_unit_exec(ax as i128, ay as i128);
        proof {
            lemma_atan_unit_bounds(ax as int, ay as int);
        }
        QUARTER_TURN - a as i64
    };
    let upper: i64 = if dx < 0 {
        HALF_TURN - first
    } else {
        first
    };
    proof {
        lemma_bearing_range(dx as int, dy as int);
    }
    if dy < 0 && upper < HALF_TURN {
        Some(-upper)
    } else {
        Some(upper)
    }
}

/// Whether two headings are within `tolerance` of each other, measured the
/// short way round the circle.
pub fn heading_matches(current: i64, target: i64, tolerance: i64) -> (r: bool)
    ensures
        r == heading_matches_spec(current as int, target as int, tolerance as int),
{
    let diff: i128 = current as i128 - target as i128;
    let mag: u128 = if diff < 0 {
        (-diff) as u128
    } else {
        diff as u128
    };
    let rem: u128 = mag % (FULL_TURN as u128);
    let gap: u128 = if rem <= FULL_TURN as u128 - rem {
        rem
    } else {
        FULL_TURN as u128 - rem
    };
    tolerance >= 0 && gap <= tolerance as u128
}

/// Whether the robot sits behind the ball within the staging distance allowed
/// at `scale` and faces the ball within `STAGE_HEADING_TOLERANCE`. A larger
/// scale loosens the distance test.
pub fn is_ball_staged(robot: Pose, ball: Point, scale: u32) -> (r: bool)
    ensures
        r == is_ball_staged_spec(robot, ball, scale as int),
{
    assert(0 <= STAGE_SLACK * scale <= 10 * 0x1_0000_0000) by (nonlinear_arith)
        requires
            STAGE_SLACK == 10,
            0 <= scale <= 0xffff_ffff,
    ;
    match bearing(robot.position, ball) {
        None => false,
        Some(angle) => {
            let dx = ball.x as i128 - robot.position.x as i128;
            let dy = ball.y as i128 - robot.position.y as i128;
            let slack: i128 = (STAGE_SLACK as i128) * (scale as i128);
            let reach: i128 = 2 * (STAGE_OFFSET as i128) + slack;
            assert(reach * reach <= 0x10_0000_0000 * 0x10_0000_0000) by (nonlinear_arith)
                requires
                    0 <= reach <= 0x10_0000_0000,
            ;
            assert(dx * dx <= 0x1_0000_0000 * 0x1_0000_0000) by (nonlinear_arith)
                requires
                    -0x1_0000_0000 <= dx <= 0x1_0000_0000,
            ;
            assert(dy * dy <= 0x1_0000_0000 * 0x1_0000_0000) by (nonlinear_arith)
                requires
                    -0x1_0000_0000 <= dy <= 0x1_0000_0000,
            ;
            assert(0 <= dx * dx) by (nonlinear_arith);
            assert(0 <= dy * dy) by (nonlinear_arith);
            let near = dx * dx + dy * dy <= reach * reach;
            assert(dist_sq(robot.position, ball) == dx * dx + dy * dy) by (nonlinear_arith)
                requires
                    dx == ball.x - robot.position.x,
                    dy == ball.y - robot.position.y,
            ;
            near && heading_matches(robot.orientation, angle, STAGE_HEADING_TOLERANCE)
        },
    }
}

/// Tolerance is monotonic: a robot staged at some scale is staged at every
/// larger scale.
pub proof fn lemma_staged_monotonic(robot: Pose, ball: Point, s1: int, s2: int)
    requires
        0 <= s1 <= s2,
        is_ball_staged_spec(robot, ball, s1),
    ensures
        is_ball_staged_spec(robot, ball, s2),
{
    let r1 = staging_reach(s1);
    let r2 = staging_reach(s2);
    assert(r1 * r1 <= r2 * r2) by (nonlinear_arith)
        requires
            0 <= r1 <= r2,
    ;
}

/// Heading comparison is symmetric in its two headings.
pub proof fn lemma_heading_matches_symmetric(a: int, b: int, tolerance: int)
    ensures
        heading_matches_spec(a, b, tolerance) == heading_matches_spec(b, a, tolerance),
{
    assert(abs(a - b) == abs(b - a));
}

/// The circular distance of a difference depends only on its residue modulo
/// a full turn, whatever its sign.
proof fn lemma_gap_by_residue(y: int)
    ensures
        ({
            let w = y % (FULL_TURN as int);
            let g = abs(y) % (FULL_TURN as int);
            &&& g == w || g == FULL_TURN - w
            &&& g == FULL_TURN - w ==> w == FULL_TURN - g
        }),
{
    let f = FULL_TURN as int;
    if y < 0 {
        let w = y % f;
        let q = y / f;
        vstd::arithmetic::div_mod::lemma_fundamental_div_mod(y, f);
        if w == 0 {
            vstd::arithmetic::div_mod::lemma_fundamental_div_mod_converse(-y, f, -q, 0);
        } else {
            vstd::arithmetic::div_mod::lemma_fundamental_div_mod_converse(-y, f, -q - 1, f - w);
        }
    }
}

/// Heading comparison ignores whole turns: adding any number of full turns
/// to a heading never changes whether it matches another.
pub proof fn lemma_heading_matches_whole_turns(a: int, b: int, tolerance: int, turns: int)
    ensures
        heading_matches_spec(a + turns * FULL_TURN, b, tolerance) == heading_matches_spec(
            a,
            b,
            tolerance,
        ),
{
    let f = FULL_TURN as int;
    let y = a - b;
    let z = a + turns * FULL_TURN - b;
    assert(z == f * turns + y) by (nonlinear_arith)
        requires
            z == a + turns * FULL_TURN - b,
            y == a - b,
            f == FULL_TURN,
    ;
    vstd::arithmetic::div_mod::lemma_mod_multiples_vanish(turns, y, f);
    lemma_gap_by_residue(y);
    lemma_gap_by_residue(z);
}

} // verus!
