//! The momentum of one scroll gesture.
//!
//! A gesture starts at a fixed velocity along one axis and loses a fixed
//! share of it with every animation frame. Each frame in which the velocity
//! is still above the threshold sends one wheel event whose deltas are the
//! velocity cut down to whole ticks. Velocity is kept in fixed point, in
//! units of one millionth of a wheel tick, so that every frame is exact
//! integer arithmetic.

use vstd::arithmetic::div_mod::lemma_fundamental_div_mod_converse;
use vstd::arithmetic::power::{lemma_pow_positive, pow};
use vstd::prelude::*;

verus! {

/// Fixed-point units in one wheel tick.
pub const VELOCITY_SCALE: u64 = 1_000_000;

/// The velocity at which every gesture starts: 20 ticks per frame.
pub const INITIAL_VELOCITY: u64 = 20_000_000;

/// The threshold: a velocity of half a tick per frame. A velocity that is
/// not above it sends nothing, and one that decays below it drops to zero.
pub const MIN_VELOCITY: u64 = 500_000;

/// The share of its velocity that a gesture keeps from one frame to the next,
/// in percent.
pub const DECELERATION_PERCENT: u64 = 85;

/// The pause between two frames, in milliseconds.
pub const FRAME_DELAY_MS: u64 = 16;

/// The number of frames in which a gesture sends a wheel event.
pub const GESTURE_FRAMES: usize = 23;

/// The direction of a scroll gesture, in wheel deltas: up and right are
/// positive.
#[derive(Clone, Copy, Debug, PartialEq, Eq, Structural)]
pub enum ScrollDirection {
    Left,
    Right,
    Up,
    Down,
}

impl ScrollDirection {
    /// The x component of the direction's unit vector.
    pub open spec fn unit_x(self) -> int {
        match self {
            ScrollDirection::Left => -1,
            ScrollDirection::Right => 1,
            _ => 0,
        }
    }

    /// The y component of the direction's unit vector.
    pub open spec fn unit_y(self) -> int {
        match self {
            ScrollDirection::Down => -1,
            ScrollDirection::Up => 1,
            _ => 0,
        }
    }

    /// The unit vector `(x, y)` of the direction.
    pub fn vector(self) -> (v: (i64, i64))
        ensures
            v.0 == self.unit_x(),
            v.1 == self.unit_y(),
    {
        match self {
            ScrollDirection::Left => (-1, 0),
            ScrollDirection::Right => (1, 0),
            ScrollDirection::Up => (0, 1),
            ScrollDirection::Down => (0, -1),
        }
    }
}

/// One wheel event: whole ticks on each axis.
#[derive(Clone, Copy, Debug, PartialEq, Eq, Structural)]
pub struct Wheel {
    pub delta_x: i64,
    pub delta_y: i64,
}

/// A signed fixed-point velocity cut down to whole ticks, towards zero.
pub open spec fn whole_ticks(velocity: int) -> int {
    if velocity >= 0 {
        velocity / (VELOCITY_SCALE as int)
    } else {
        -((-velocity) / (VELOCITY_SCALE as int))
    }
}

/// The magnitude that is left of `speed` after one frame: 85 percent of it,
/// rounded down, or nothing if that is below the threshold.
pub open spec fn decayed_speed(speed: u64) -> u64 {
    let kept = speed * DECELERATION_PERCENT / 100;
    if kept < MIN_VELOCITY {
        0
    } else {
        kept as u64
    }
}

/// The state of one gesture: its direction and the magnitude of its
/// velocity. The velocity lies on one axis only, so the other component is
/// always zero.
#[derive(Clone, Copy, Debug, PartialEq, Eq, Structural)]
pub struct ScrollMomentum {
    pub direction: ScrollDirection,
    /// Magnitude of the velocity, in millionths of a tick per frame.
    pub speed: u64,
}

impl ScrollMomentum {
    /// A fresh gesture in the given direction.
    pub open spec fn started(direction: ScrollDirection) -> ScrollMomentum {
        ScrollMomentum { direction, speed: INITIAL_VELOCITY }
    }

    /// The signed velocity on the x axis.
    pub open spec fn velocity_x(self) -> int {
        self.direction.unit_x() * self.speed
    }

    /// The signed velocity on the y axis.
    pub open spec fn velocity_y(self) -> int {
        self.direction.unit_y() * self.speed
    }

    /// Whether the velocity is above the threshold, so that the next frame
    /// sends a wheel event.
    pub open spec fn is_active(self) -> bool {
        self.speed > MIN_VELOCITY
    }

    /// The wheel event of the current velocity.
    pub open spec fn wheel(self) -> Wheel {
        Wheel {
            delta_x: whole_ticks(self.velocity_x()) as i64,
            delta_y: whole_ticks(self.velocity_y()) as i64,
        }
    }

    /// The gesture one frame later.
    pub open spec fn decayed(self) -> ScrollMomentum {
        ScrollMomentum { direction: self.direction, speed: decayed_speed(self.speed) }
    }

    /// The gesture `n` frames later.
    pub open spec fn after(self, n: nat) -> ScrollMomentum
        decreases n,
    {
        if n == 0 {
            self
        } else {
            self.after((n - 1) as nat).decayed()
        }
    }

    /// Starts a gesture: the initial velocity along `direction`, nothing on
    /// the other axis.
    pub fn start(direction: ScrollDirection) -> (m: ScrollMomentum)
        ensures
            m == ScrollMomentum::started(direction),
            m.velocity_x() == direction.unit_x() * INITIAL_VELOCITY,
            m.velocity_y() == direction.unit_y() * INITIAL_VELOCITY,
    {
        ScrollMomentum { direction, speed: INITIAL_VELOCITY }
    }

    /// Whether another frame will send a wheel event.
    pub fn active(&self) -> (a: bool)
        ensures
            a == self.is_active(),
    {
        self.speed > MIN_VELOCITY
    }

    /// The wheel event of the current velocity: each component cut down to
    /// whole ticks, towards zero.
    pub fn current_wheel(&self) -> (w: Wheel)
        ensures
            w == self.wheel(),
            w.delta_x == self.direction.unit_x() * (self.speed / VELOCITY_SCALE),
            w.delta_y == self.direction.unit_y() * (self.speed / VELOCITY_SCALE),
    {
        let ticks: i64 = (self.speed / VELOCITY_SCALE) as i64;
        let (ux, uy): (i64, i64) = self.direction.vector();
        Wheel { delta_x: ux * ticks, delta_y: uy * ticks }
    }

    /// Runs one animation frame. While the gesture is active the frame's
    /// wheel event is returned; a gesture that is no longer active returns
    /// `None`. Either way the velocity decays by one frame.
    pub fn frame(&mut self) -> (sent: Option<Wheel>)
        ensures
            *final(self) == old(self).decayed(),
            old(self).is_active() ==> sent == Some(old(self).wheel()),
            !old(self).is_active() ==> sent.is_none() && final(self).speed == 0,
    {
        let sent = if self.active() {
            Some(self.current_wheel())
        } else {
            None
        };
        let kept: u128 = (self.speed as u128) * (DECELERATION_PERCENT as u128) / 100;
        self.speed = if kept < MIN_VELOCITY as u128 {
            0
        } else {
            kept as u64
        };
        sent
    }

    /// The wheel events of the first `n` frames, in the order in which they
    /// are sent.
    pub open spec fn series(self, n: nat) -> Seq<Wheel> {
        Seq::new(n, |i: int| self.after(i as nat).wheel())
    }

    /// Every frame of a gesture in `direction`, from its start to the frame
    /// before it dies down: the wheel events in the order in which they are
    /// to be sent, one per frame.
    pub fn gesture(direction: ScrollDirection) -> (sent: Vec<Wheel>)
        ensures
            sent@ == ScrollMomentum::started(direction).series(GESTURE_FRAMES as nat),
            sent@.len() == GESTURE_FRAMES,
            !ScrollMomentum::started(direction).after(GESTURE_FRAMES as nat).is_active(),
    {
        let ghost origin = ScrollMomentum::started(direction);
        let mut momentum = ScrollMomentum::start(direction);
        let mut sent: Vec<Wheel> = Vec::new();
        proof {
            lemma_gesture_length(direction);
        }
        while momentum.active()
            invariant
                origin == ScrollMomentum::started(direction),
                momentum == origin.after(sent@.len()),
                sent@ =~= origin.series(sent@.len()),
                forall|k: nat| k < sent@.len() ==> #[trigger] origin.after(k).is_active(),
                forall|k: nat| k < GESTURE_FRAMES ==> #[trigger] origin.after(k).is_active(),
                !origin.after(GESTURE_FRAMES as nat).is_active(),
            decreases momentum.speed,
        {
            let ghost before = sent@;
            let frame = momentum.frame();
            match frame {
                Some(wheel) => {
                    sent.push(wheel);
                },
                None => {},
            }
            assert(sent@ =~= origin.series(before.len() + 1));
        }
        sent
    }
}

/// A velocity above zero is strictly smaller one frame later.
pub proof fn lemma_decay_slows(speed: u64)
    requires
        speed > 0,
    ensures
        decayed_speed(speed) < speed,
{
}

/// A larger velocity decays to a velocity that is at least as large.
pub proof fn lemma_decay_monotone(slower: u64, faster: u64)
    requires
        slower <= faster,
    ensures
        decayed_speed(slower) <= decayed_speed(faster),
{
}

/// From one frame to the next the velocity of a gesture in motion shrinks
/// strictly, and the magnitude of neither wheel delta ever grows.
pub proof fn lemma_frames_fade(momentum: ScrollMomentum)
    ensures
        momentum.speed > 0 ==> momentum.decayed().speed < momentum.speed,
        momentum.decayed().direction == momentum.direction,
        magnitude(momentum.decayed().wheel().delta_x as int) <= magnitude(
            momentum.wheel().delta_x as int,
        ),
        magnitude(momentum.decayed().wheel().delta_y as int) <= magnitude(
            momentum.wheel().delta_y as int,
        ),
{
    lemma_wheel_is_whole_speed(momentum);
    lemma_wheel_is_whole_speed(momentum.decayed());
    let now = (momentum.speed / VELOCITY_SCALE) as int;
    let then = (momentum.decayed().speed / VELOCITY_SCALE) as int;
    assert(momentum.decayed().speed <= momentum.speed);
    assert(0 <= then <= now);
    let ux = momentum.direction.unit_x();
    let uy = momentum.direction.unit_y();
    assert(momentum.wheel().delta_x == ux * now);
    assert(momentum.decayed().wheel().delta_x == ux * then);
    assert(momentum.wheel().delta_y == uy * now);
    assert(momentum.decayed().wheel().delta_y == uy * then);
    assert(magnitude(ux * then) <= magnitude(ux * now)) by {
        lemma_unit_scaling(ux, then, now);
    }
    assert(magnitude(uy * then) <= magnitude(uy * now)) by {
        lemma_unit_scaling(uy, then, now);
    }
}

/// Scaling by a unit keeps the order of two magnitudes.
proof fn lemma_unit_scaling(unit: int, less: int, more: int)
    requires
        -1 <= unit <= 1,
        0 <= less <= more,
    ensures
        magnitude(unit * less) <= magnitude(unit * more),
{
    if unit == -1 {
        assert(unit * less == -less);
        assert(unit * more == -more);
    } else if unit == 0 {
        assert(unit * less == 0);
        assert(unit * more == 0);
    } else {
        assert(unit * less == less);
        assert(unit * more == more);
    }
}

/// The wheel event of a gesture carries the whole ticks of its speed on the
/// axis of its direction, signed like the direction, and zero on the other.
pub proof fn lemma_wheel_is_whole_speed(momentum: ScrollMomentum)
    ensures
        momentum.wheel().delta_x == momentum.direction.unit_x() * (momentum.speed
            / VELOCITY_SCALE),
        momentum.wheel().delta_y == momentum.direction.unit_y() * (momentum.speed
            / VELOCITY_SCALE),
{
    let ticks = (momentum.speed / VELOCITY_SCALE) as int;
    assert(0 <= ticks <= momentum.speed);
    match momentum.direction {
        ScrollDirection::Left => {
            assert(momentum.velocity_x() == -(momentum.speed as int));
            assert(momentum.velocity_y() == 0);
        },
        ScrollDirection::Right => {
            assert(momentum.velocity_x() == momentum.speed as int);
            assert(momentum.velocity_y() == 0);
        },
        ScrollDirection::Up => {
            assert(momentum.velocity_x() == 0);
            assert(momentum.velocity_y() == momentum.speed as int);
        },
        ScrollDirection::Down => {
            assert(momentum.velocity_x() == 0);
            assert(momentum.velocity_y() == -(momentum.speed as int));
        },
    }
}

/// The absolute value.
pub open spec fn magnitude(v: int) -> int {
    if v < 0 {
        -v
    } else {
        v
    }
}

/// The speed of a fresh gesture at each frame, from its start to its rest.
pub open spec fn gesture_speeds() -> Seq<u64> {
    seq![
        20_000_000,
        17_000_000,
        14_450_000,
        12_282_500,
        10_440_125,
        8_874_106,
        7_542_990,
        6_411_541,
        5_449_809,
        4_632_337,
        3_937_486,
        3_346_863,
        2_844_833,
        2_418_108,
        2_055_391,
        1_747_082,
        1_485_019,
        1_262_266,
        1_072_926,
        911_987,
        775_188,
        658_909,
        560_072,
        0,
    ]
}

/// The whole ticks that a fresh gesture sends in each of its frames.
pub open spec fn gesture_ticks() -> Seq<int> {
    seq![20, 17, 14, 12, 10, 8, 7, 6, 5, 4, 3, 3, 2, 2, 2, 1, 1, 1, 1, 0, 0, 0, 0]
}

/// A fresh gesture has the speed of the table at every frame up to its rest.
pub proof fn lemma_gesture_speeds(direction: ScrollDirection, frame: nat)
    requires
        frame <= GESTURE_FRAMES,
    ensures
        ScrollMomentum::started(direction).after(frame).speed == gesture_speeds()[frame as int],
        ScrollMomentum::started(direction).after(frame).direction == direction,
    decreases frame,
{
    if frame > 0 {
        lemma_gesture_speeds(direction, (frame - 1) as nat);
    }
}

/// A gesture sends a wheel event in each of its first 23 frames and has
/// come to rest after them, whatever its direction.
pub proof fn lemma_gesture_length(direction: ScrollDirection)
    ensures
        forall|k: nat|
            k < GESTURE_FRAMES ==> #[trigger] ScrollMomentum::started(direction).after(
                k,
            ).is_active(),
        ScrollMomentum::started(direction).after(GESTURE_FRAMES as nat).speed == 0,
{
    assert forall|k: nat| k < GESTURE_FRAMES implies #[trigger] ScrollMomentum::started(
        direction,
    ).after(k).is_active() by {
        lemma_gesture_speeds(direction, k);
    }
    lemma_gesture_speeds(direction, GESTURE_FRAMES as nat);
}

/// The wheel event of each frame of a fresh gesture: the ticks of the table
/// along the gesture's direction.
pub proof fn lemma_gesture_ticks(direction: ScrollDirection, frame: nat)
    requires
        frame < GESTURE_FRAMES,
    ensures
        ScrollMomentum::started(direction).after(frame).wheel().delta_x == direction.unit_x()
            * gesture_ticks()[frame as int],
        ScrollMomentum::started(direction).after(frame).wheel().delta_y == direction.unit_y()
            * gesture_ticks()[frame as int],
{
    lemma_gesture_speeds(direction, frame);
    lemma_wheel_is_whole_speed(ScrollMomentum::started(direction).after(frame));
}

/// Through its first eleven frames a fresh gesture sends strictly fewer
/// ticks with every frame, from 20 down to 3.
pub proof fn lemma_first_frames_strictly_fade(direction: ScrollDirection, earlier: nat, later: nat)
    requires
        earlier < later <= 10,
    ensures
        gesture_ticks()[later as int] < gesture_ticks()[earlier as int],
        magnitude(
            ScrollMomentum::started(direction).after(later).wheel().delta_x
                + ScrollMomentum::started(direction).after(later).wheel().delta_y,
        ) < magnitude(
            ScrollMomentum::started(direction).after(earlier).wheel().delta_x
                + ScrollMomentum::started(direction).after(earlier).wheel().delta_y,
        ),
{
    lemma_gesture_ticks(direction, earlier);
    lemma_gesture_ticks(direction, later);
    let now = gesture_ticks()[earlier as int];
    let then = gesture_ticks()[later as int];
    assert(0 <= then < now);
    assert(direction.unit_x() * now + direction.unit_y() * now == (direction.unit_x()
        + direction.unit_y()) * now) by (nonlinear_arith);
    assert(direction.unit_x() * then + direction.unit_y() * then == (direction.unit_x()
        + direction.unit_y()) * then) by (nonlinear_arith);
    let unit = direction.unit_x() + direction.unit_y();
    assert(unit == 1 || unit == -1);
    if unit == 1 {
        assert(unit * now == now);
        assert(unit * then == then);
    } else {
        assert(unit * now == -now);
        assert(unit * then == -then);
    }
}

/// Any gesture that is no faster than a fresh one has come to rest after 23
/// frames.
pub proof fn lemma_gesture_ends(momentum: ScrollMomentum)
    requires
        momentum.speed <= INITIAL_VELOCITY,
    ensures
        momentum.after(GESTURE_FRAMES as nat).speed == 0,
{
    let fresh = ScrollMomentum::started(momentum.direction);
    lemma_gesture_length(momentum.direction);
    lemma_after_monotone(momentum, fresh, GESTURE_FRAMES as nat);
}

/// Of two gestures, the one that is not faster now is not faster after any
/// number of frames.
pub proof fn lemma_after_monotone(slower: ScrollMomentum, faster: ScrollMomentum, n: nat)
    requires
        slower.speed <= faster.speed,
    ensures
        slower.after(n).speed <= faster.after(n).speed,
    decreases n,
{
    if n > 0 {
        lemma_after_monotone(slower, faster, (n - 1) as nat);
        lemma_decay_monotone(slower.after((n - 1) as nat).speed, faster.after((n - 1) as nat).speed);
    }
}

/// A gesture in motion is strictly slower at every later frame.
pub proof fn lemma_later_is_slower(momentum: ScrollMomentum, earlier: nat, later: nat)
    requires
        earlier < later,
        momentum.after(earlier).speed > 0,
    ensures
        momentum.after(later).speed < momentum.after(earlier).speed,
    decreases later,
{
    let before = momentum.after((later - 1) as nat);
    if later > earlier + 1 {
        lemma_later_is_slower(momentum, earlier, (later - 1) as nat);
    }
    assert(decayed_speed(before.speed) <= before.speed);
    if before.speed > 0 {
        lemma_decay_slows(before.speed);
    }
}

/// At a later frame of a gesture the magnitude of neither wheel delta is
/// larger than at an earlier one.
pub proof fn lemma_later_deltas_never_grow(momentum: ScrollMomentum, earlier: nat, later: nat)
    requires
        earlier <= later,
    ensures
        magnitude(momentum.after(later).wheel().delta_x as int) <= magnitude(
            momentum.after(earlier).wheel().delta_x as int,
        ),
        magnitude(momentum.after(later).wheel().delta_y as int) <= magnitude(
            momentum.after(earlier).wheel().delta_y as int,
        ),
    decreases later,
{
    if earlier < later {
        lemma_later_deltas_never_grow(momentum, earlier, (later - 1) as nat);
        lemma_frames_fade(momentum.after((later - 1) as nat));
    }
}

/// The fixed-point speed of a fresh gesture follows the exact velocity of
/// 20 x 0.85^n ticks closely: while the gesture sends events it is never
/// above the exact value and less than seven millionths of a tick below it.
/// The exact value is written as the fraction `20 * 85^n / 100^n`.
pub proof fn lemma_fixed_point_error(direction: ScrollDirection, frame: nat)
    requires
        frame < GESTURE_FRAMES,
    ensures
        ScrollMomentum::started(direction).after(frame).speed * pow(100, frame) <= INITIAL_VELOCITY
            * pow(85, frame),
        INITIAL_VELOCITY * pow(85, frame) < (ScrollMomentum::started(direction).after(frame).speed
            + 7) * pow(100, frame),
    decreases frame,
{
    reveal(pow);
    let now = ScrollMomentum::started(direction).after(frame).speed as int;
    if frame == 0 {
        assert(pow(100, 0) == 1);
        assert(pow(85, 0) == 1);
    } else {
        let last = (frame - 1) as nat;
        lemma_fixed_point_error(direction, last);
        lemma_gesture_speeds(direction, last);
        lemma_gesture_speeds(direction, frame);
        let before = ScrollMomentum::started(direction).after(last).speed as int;
        let d = pow(100, last);
        let e = pow(85, last);
        assert(now == before * 85 / 100);
        assert(now * 100 <= before * 85 < now * 100 + 100);
        assert(pow(100, frame) == 100 * d);
        assert(pow(85, frame) == 85 * e);
        lemma_pow_positive(100, last);
        assert(now * (100 * d) <= 20_000_000 * (85 * e)) by (nonlinear_arith)
            requires
                now * 100 <= before * 85,
                before * d <= 20_000_000 * e,
                d > 0,
        ;
        assert(20_000_000 * (85 * e) < (now + 7) * (100 * d)) by (nonlinear_arith)
            requires
                before * 85 < now * 100 + 100,
                20_000_000 * e < (before + 7) * d,
                d > 0,
        ;
    }
}

/// The ticks that a fresh gesture sends in frame `n` are the whole part of
/// the exact velocity 20 x 0.85^n, and the gesture sends for exactly as long
/// as that velocity is above half a tick.
pub proof fn lemma_ticks_are_exact(direction: ScrollDirection, frame: nat)
    requires
        frame < GESTURE_FRAMES,
    ensures
        gesture_ticks()[frame as int] == (20 * pow(85, frame)) / pow(100, frame),
        2 * 20 * pow(85, frame) > pow(100, frame),
        2 * 20 * pow(85, GESTURE_FRAMES as nat) < pow(100, GESTURE_FRAMES as nat),
{
    lemma_fixed_point_error(direction, frame);
    lemma_gesture_speeds(direction, frame);
    lemma_pow_positive(100, frame);
    let speed = ScrollMomentum::started(direction).after(frame).speed as int;
    let ticks = gesture_ticks()[frame as int];
    let n = 20 * pow(85, frame);
    let d = pow(100, frame);
    assert(ticks * 1_000_000 <= speed && speed + 7 <= (ticks + 1) * 1_000_000);
    assert(speed > 500_000);
    assert(20_000_000 * pow(85, frame) == 1_000_000 * n) by (nonlinear_arith)
        requires
            n == 20 * pow(85, frame),
    ;
    assert(ticks * d <= n) by (nonlinear_arith)
        requires
            ticks * 1_000_000 <= speed,
            speed * d <= 1_000_000 * n,
            d > 0,
    ;
    assert(n < (ticks + 1) * d) by (nonlinear_arith)
        requires
            speed + 7 <= (ticks + 1) * 1_000_000,
            1_000_000 * n < (speed + 7) * d,
            d > 0,
    ;
    assert(2 * n > d) by (nonlinear_arith)
        requires
            speed > 500_000,
            speed * d <= 1_000_000 * n,
            d > 0,
    ;
    assert(n == ticks * d + (n - ticks * d));
    assert(n - ticks * d < d) by (nonlinear_arith)
        requires
            n < (ticks + 1) * d,
    ;
    lemma_fundamental_div_mod_converse(n, d, ticks, n - ticks * d);
    lemma_exact_velocity_at_rest();
}

/// After 23 frames the exact velocity 20 x 0.85^23 is below half a tick.
proof fn lemma_exact_velocity_at_rest()
    ensures
        2 * 20 * pow(85, GESTURE_FRAMES as nat) < pow(100, GESTURE_FRAMES as nat),
{
    let last = (GESTURE_FRAMES - 1) as nat;
    let direction = ScrollDirection::Up;
    lemma_fixed_point_error(direction, last);
    lemma_gesture_speeds(direction, last);
    lemma_pow_positive(100, last);
    reveal(pow);
    let d = pow(100, last);
    let e = pow(85, last);
    assert(pow(100, GESTURE_FRAMES as nat) == 100 * d);
    assert(pow(85, GESTURE_FRAMES as nat) == 85 * e);
    assert(2 * 20 * (85 * e) < 100 * d) by (nonlinear_arith)
        requires
            20_000_000 * e < (560_072 + 7) * d,
            d > 0,
    ;
}

} // verus!
