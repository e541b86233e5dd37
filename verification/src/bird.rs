//! The player's avatar: position, vertical velocity and the movement
//! integrator that advances them once per frame.

use vstd::prelude::*;
use crate::game::{ANIMATION_PERIOD_MS, FORWARD_SPEED, GRAVITY, JUMP_SPEED};
use crate::timer::{Timer, TimerModel};

verus! {

/// The bird's state. World coordinates are integers; `vertical_velocity`
/// is in world units per second. `animation_state` is the raw wing-flap
/// counter, always kept in `0..=3` between frames.
#[derive(Clone, Copy, Debug, PartialEq, Eq, Structural)]
pub struct Bird {
    pub x: i64,
    pub y: i64,
    pub vertical_velocity: i64,
    pub animation_state: i32,
}

/// Mathematical model of a bird: the same fields over unbounded integers.
pub ghost struct BirdModel {
    pub x: int,
    pub y: int,
    pub vertical_velocity: int,
    pub animation_state: int,
}

impl View for Bird {
    type V = BirdModel;

    open spec fn view(&self) -> BirdModel {
        BirdModel {
            x: self.x as int,
            y: self.y as int,
            vertical_velocity: self.vertical_velocity as int,
            animation_state: self.animation_state as int,
        }
    }
}

/// One integrator step on the model: gravity first, then the position
/// moves by the *new* velocity, and the bird drifts right at a constant
/// forward speed. Exact — no clamping, no rounding.
pub open spec fn integrated(b: BirdModel, dt: int) -> BirdModel {
    BirdModel {
        x: b.x + FORWARD_SPEED * dt,
        vertical_velocity: b.vertical_velocity + GRAVITY * dt,
        y: b.y + (b.vertical_velocity + GRAVITY * dt) * dt,
        animation_state: b.animation_state,
    }
}

/// True when one integrator step from `b` with elapsed time `dt` stays
/// inside the machine integers.
pub open spec fn move_fits(b: BirdModel, dt: int) -> bool {
    &&& i64::MIN <= GRAVITY * dt <= i64::MAX
    &&& i64::MIN <= FORWARD_SPEED * dt <= i64::MAX
    &&& i64::MIN <= b.x + FORWARD_SPEED * dt <= i64::MAX
    &&& i64::MIN <= b.vertical_velocity + GRAVITY * dt <= i64::MAX
    &&& i64::MIN <= (b.vertical_velocity + GRAVITY * dt) * dt <= i64::MAX
    &&& i64::MIN <= b.y + (b.vertical_velocity + GRAVITY * dt) * dt <= i64::MAX
}

/// Law of the integrator: for every elapsed time `dt >= 0` and every
/// starting state, one step yields exactly
/// `velocity' == velocity + GRAVITY * dt` and `y' == y + velocity' * dt`
/// — no clamping — while `x` advances by `FORWARD_SPEED * dt`.
pub proof fn lemma_integrator_step(b: BirdModel, dt: int)
    requires
        dt >= 0,
    ensures
        integrated(b, dt).vertical_velocity == b.vertical_velocity + GRAVITY * dt,
        integrated(b, dt).y == b.y + integrated(b, dt).vertical_velocity * dt,
        integrated(b, dt).x == b.x + FORWARD_SPEED * dt,
        integrated(b, dt).animation_state == b.animation_state,
{
}

/// Movement integrator: each frame, `velocity += GRAVITY * dt`, then
/// `y += velocity * dt` and `x += FORWARD_SPEED * dt`, all exact.
/// (The sprite's bank angle, `atan(velocity / FORWARD_SPEED)`, is a
/// cosmetic rendering detail left to the host; it plays no part in
/// collision or movement.)
pub fn move_birds(bird: &mut Bird, dt: i64)
    requires
        dt >= 0,
        move_fits(old(bird)@, dt as int),
    ensures
        final(bird)@ == integrated(old(bird)@, dt as int),
        final(bird).vertical_velocity == old(bird).vertical_velocity + GRAVITY * dt,
        final(bird).y == old(bird).y + (old(bird).vertical_velocity + GRAVITY * dt) * dt,
        final(bird).x == old(bird).x + FORWARD_SPEED * dt,
        final(bird).animation_state == old(bird).animation_state,
{
    bird.vertical_velocity = bird.vertical_velocity + GRAVITY * dt;
    bird.y = bird.y + bird.vertical_velocity * dt;
    bird.x = bird.x + FORWARD_SPEED * dt;
}

/// A bird at the world origin, at rest, with its wing-flap counter at 0
/// and its animation timer paused until the first jump.
pub fn spawn_bird() -> (r: (Bird, Timer))
    ensures
        r.0@ == (BirdModel { x: 0, y: 0, vertical_velocity: 0, animation_state: 0 }),
        r.1@ == (TimerModel { elapsed: 0, period: ANIMATION_PERIOD_MS as int, paused: true }),
        r.1@.wf(),
{
    let bird = Bird { x: 0, y: 0, vertical_velocity: 0, animation_state: 0 };
    let timer = Timer::new(ANIMATION_PERIOD_MS, true);
    (bird, timer)
}

/// The bird and its wing-flap timer after the input handler has seen a
/// (possibly absent) fresh jump press.
pub open spec fn jumped(b: BirdModel, t: TimerModel, just_pressed: bool) -> (BirdModel, TimerModel) {
    if just_pressed {
        (BirdModel { vertical_velocity: JUMP_SPEED as int, ..b }, TimerModel { paused: false, ..t })
    } else {
        (b, t)
    }
}

/// Input handler: a freshly pressed jump key overwrites the vertical
/// velocity with `JUMP_SPEED` — it does not add to it — and lets the
/// wing-flap timer run. Without a fresh press, nothing changes.
pub fn jump_input(bird: &mut Bird, animation_timer: &mut Timer, just_pressed: bool)
    ensures
        final(bird)@ == jumped(old(bird)@, old(animation_timer)@, just_pressed).0,
        final(animation_timer)@ == jumped(old(bird)@, old(animation_timer)@, just_pressed).1,
        just_pressed ==> final(bird)@ == (BirdModel {
            vertical_velocity: JUMP_SPEED as int,
            ..old(bird)@
        }),
        just_pressed ==> final(animation_timer)@ == (TimerModel {
            paused: false,
            ..old(animation_timer)@
        }),
        !just_pressed ==> *final(bird) == *old(bird),
        !just_pressed ==> *final(animation_timer) == *old(animation_timer),
{
    if just_pressed {
        bird.vertical_velocity = JUMP_SPEED;
        animation_timer.unpause();
    }
}

} // verus!
