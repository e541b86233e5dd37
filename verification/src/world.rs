//! The whole game world and the frame scheduler's view of it.
//!
//! One `World` value holds everything the systems share: the game mode,
//! the score, the single player bird with its wing-flap timer, the live
//! pipes, the pipe-spawn cadence timer and the camera. `tick` runs one
//! frame: in Playing the full system set — input, movement, animation,
//! fixed-cadence pipe generation, collision, the pipe reaper and the
//! camera — and in Spectating only movement, animation and the camera,
//! so the world coasts on while the host shuts down. The reaper is
//! scheduled here deliberately, so pipe memory stays bounded during
//! long sessions.

use vstd::prelude::*;
use crate::animation::{animate_bird, animated};
use crate::bird::{integrated, jump_input, jumped, move_birds, move_fits, spawn_bird, Bird, BirdModel};
use crate::collision::{any_collision, collision, surviving_pipes};
use crate::game::{CAMERA_LEAD, FORWARD_SPEED, PIPE_PERIOD_MS, SIZE_X};
use crate::pipes::{generate_pipes, is_pair_at, live_pipes, remove_pipes, valid_offset, Pipe};
use crate::score::Score;
use crate::state::AppState;
use crate::timer::{fires, ticked, Timer, TimerModel};

verus! {

/// The shared state of one game session: exactly one player bird and one
/// camera, by construction.
pub struct World {
    pub state: AppState,
    pub score: Score,
    pub bird: Bird,
    pub animation_timer: Timer,
    pub spawn_timer: Timer,
    pub pipes: Vec<Pipe>,
    pub camera_x: i64,
    pub exit_requested: bool,
}

/// Mathematical model of a world.
#[verifier::ext_equal]
pub ghost struct WorldModel {
    pub state: AppState,
    pub score: int,
    pub bird: BirdModel,
    pub animation_timer: TimerModel,
    pub spawn_timer: TimerModel,
    pub pipes: Seq<Pipe>,
    pub camera_x: int,
    pub exit_requested: bool,
}

impl View for World {
    type V = WorldModel;

    open spec fn view(&self) -> WorldModel {
        WorldModel {
            state: self.state,
            score: self.score.0 as int,
            bird: self.bird@,
            animation_timer: self.animation_timer@,
            spawn_timer: self.spawn_timer@,
            pipes: self.pipes@,
            camera_x: self.camera_x as int,
            exit_requested: self.exit_requested,
        }
    }
}

impl WorldModel {
    /// The frame-to-frame invariant: the wing-flap counter sits inside
    /// its cycle and both timers are well formed.
    pub open spec fn wf(self) -> bool {
        &&& 0 <= self.bird.animation_state <= 3
        &&& self.animation_timer.wf()
        &&& self.spawn_timer.wf()
    }
}

/// Camera follower: the camera sits a fixed lead ahead of the player.
pub fn move_camera(camera_x: &mut i64, player_x: i64)
    requires
        player_x + CAMERA_LEAD <= i64::MAX,
    ensures
        *final(camera_x) == player_x + CAMERA_LEAD,
{
    *camera_x = player_x + CAMERA_LEAD;
}

/// World setup: one bird at the origin at rest, no pipes, the score two
/// points in the red (the first pairs spawn ahead of the bird before it
/// can pass any), the camera at the origin — and with setup done, the
/// mode moves straight from Waiting to Playing.
pub fn init() -> (w: World)
    ensures
        w@.wf(),
        w@.state is Playing,
        w@.score == -2,
        w@.bird == (BirdModel { x: 0, y: 0, vertical_velocity: 0, animation_state: 0 }),
        w@.animation_timer.paused,
        w@.animation_timer.elapsed == 0,
        w@.animation_timer.period == crate::game::ANIMATION_PERIOD_MS,
        !w@.spawn_timer.paused,
        w@.spawn_timer.elapsed == 0,
        w@.spawn_timer.period == PIPE_PERIOD_MS,
        w@.pipes == Seq::<Pipe>::empty(),
        w@.camera_x == 0,
        !w@.exit_requested,
{
    let (bird, animation_timer) = spawn_bird();
    let mut state = AppState::Waiting;
    crate::state::finish_setup(&mut state);
    let w = World {
        state,
        score: Score(-2),
        bird,
        animation_timer,
        spawn_timer: Timer::new(PIPE_PERIOD_MS, false),
        pipes: Vec::new(),
        camera_x: 0,
        exit_requested: false,
    };
    proof {
        assert(w@.pipes =~= Seq::<Pipe>::empty());
    }
    w
}

/// A frame in Playing spawns a pipe pair exactly when the cadence timer
/// fires this frame.
pub open spec fn will_spawn(w: WorldModel, delta_ms: int) -> bool {
    w.state is Playing && fires(w.spawn_timer, delta_ms)
}

/// One frame of the world, given the pipe pair `spawned` (empty on a
/// frame without a spawn). Waiting does nothing; Spectating coasts —
/// movement, animation, camera; Playing runs the full system set in
/// order: input, movement, animation, pipe generation, collision, the
/// pipe reaper, the camera.
pub open spec fn spec_tick(
    w: WorldModel,
    dt: int,
    delta_ms: int,
    jump_pressed: bool,
    spawned: Seq<Pipe>,
) -> WorldModel {
    if w.state is Waiting {
        w
    } else if w.state is Spectating {
        let bird = integrated(w.bird, dt);
        let (bird2, anim) = animated(bird, w.animation_timer, delta_ms);
        WorldModel { bird: bird2, animation_timer: anim, camera_x: bird2.x + CAMERA_LEAD, ..w }
    } else {
        let (bird_j, anim_j) = jumped(w.bird, w.animation_timer, jump_pressed);
        let bird_m = integrated(bird_j, dt);
        let (bird2, anim2) = animated(bird_m, anim_j, delta_ms);
        let spawning = fires(w.spawn_timer, delta_ms);
        let pipes1 = if spawning {
            w.pipes + spawned
        } else {
            w.pipes
        };
        let score1 = if spawning {
            w.score + 1
        } else {
            w.score
        };
        let hit = any_collision(bird2, pipes1);
        WorldModel {
            state: if hit {
                AppState::Spectating
            } else {
                w.state
            },
            score: score1,
            bird: bird2,
            animation_timer: anim2,
            spawn_timer: ticked(w.spawn_timer, delta_ms),
            pipes: live_pipes(surviving_pipes(bird2, pipes1)),
            camera_x: bird2.x + CAMERA_LEAD,
            exit_requested: w.exit_requested || hit,
        }
    }
}

/// Law of the state machine: no frame moves the mode backwards along
/// Waiting → Playing → Spectating, and nothing leaves Spectating.
pub proof fn lemma_mode_one_directional(
    w: WorldModel,
    dt: int,
    delta_ms: int,
    jump_pressed: bool,
    spawned: Seq<Pipe>,
)
    ensures
        crate::state::mode_rank(spec_tick(w, dt, delta_ms, jump_pressed, spawned).state)
            >= crate::state::mode_rank(w.state),
        w.state is Spectating ==> spec_tick(w, dt, delta_ms, jump_pressed, spawned).state
            is Spectating,
{
}

/// The machine-integer bounds one frame needs: the integrator step stays
/// in `i64`, the camera and a fresh pipe pair stay in `i64`, both timers
/// stay in `u64`, and one more point fits the score counter.
pub open spec fn tick_fits(w: WorldModel, dt: int, delta_ms: int, jump_pressed: bool) -> bool {
    let bird_j = if w.state is Playing {
        jumped(w.bird, w.animation_timer, jump_pressed).0
    } else {
        w.bird
    };
    &&& move_fits(bird_j, dt)
    &&& w.bird.x + FORWARD_SPEED * dt + CAMERA_LEAD <= i64::MAX
    &&& w.bird.x + FORWARD_SPEED * dt + SIZE_X <= i64::MAX
    &&& w.animation_timer.elapsed + delta_ms <= u64::MAX
    &&& w.spawn_timer.elapsed + delta_ms <= u64::MAX
    &&& w.score < i32::MAX
}

impl World {
    /// One frame: `dt` is the elapsed time in the physics unit, and
    /// `delta_ms` the same interval in milliseconds for the two timers.
    /// The result is exactly `spec_tick`, with a freshly drawn pipe pair
    /// one screen width ahead of the player on a spawning frame and no
    /// pipes otherwise.
    pub fn tick(&mut self, dt: i64, delta_ms: u64, jump_pressed: bool)
        requires
            dt >= 0,
            old(self)@.wf(),
            old(self)@.state.simulates() ==> tick_fits(
                old(self)@,
                dt as int,
                delta_ms as int,
                jump_pressed,
            ),
        ensures
            final(self)@.wf(),
            !will_spawn(old(self)@, delta_ms as int) ==> final(self)@ == spec_tick(
                old(self)@,
                dt as int,
                delta_ms as int,
                jump_pressed,
                Seq::<Pipe>::empty(),
            ),
            will_spawn(old(self)@, delta_ms as int) ==> exists|offset: int, pair: (Pipe, Pipe)|
                {
                    &&& valid_offset(offset)
                    &&& is_pair_at(pair, old(self)@.bird.x + FORWARD_SPEED * dt, offset)
                    &&& final(self)@ == spec_tick(
                        old(self)@,
                        dt as int,
                        delta_ms as int,
                        jump_pressed,
                        seq![pair.0, pair.1],
                    )
                },
    {
        match self.state {
            AppState::Waiting => {
            },
            AppState::Spectating => {
                let mut bird = self.bird;
                let mut anim = self.animation_timer;
                move_birds(&mut bird, dt);
                let _frame = animate_bird(&mut bird, &mut anim, delta_ms);
                let mut camera = self.camera_x;
                move_camera(&mut camera, bird.x);
                self.bird = bird;
                self.animation_timer = anim;
                self.camera_x = camera;
            },
            AppState::Playing => {
                let mut bird = self.bird;
                let mut anim = self.animation_timer;
                jump_input(&mut bird, &mut anim, jump_pressed);
                move_birds(&mut bird, dt);
                let _frame = animate_bird(&mut bird, &mut anim, delta_ms);
                let mut spawn = self.spawn_timer;
                let spawning = spawn.tick(delta_ms);
                let ghost pipes0 = self.pipes@;
                let mut score = self.score;
                if spawning {
                    generate_pipes(&mut score, &mut self.pipes, bird.x);
                    proof {
                        let n = pipes0.len() as int;
                        assert(self.pipes@ =~= pipes0 + seq![self.pipes@[n], self.pipes@[n + 1]]);
                    }
                }
                let mut state = self.state;
                let mut exit = self.exit_requested;
                collision(&bird, &mut self.pipes, &mut state, &mut exit);
                remove_pipes(&mut self.pipes);
                let mut camera = self.camera_x;
                move_camera(&mut camera, bird.x);
                self.bird = bird;
                self.animation_timer = anim;
                self.spawn_timer = spawn;
                self.score = score;
                self.state = state;
                self.exit_requested = exit;
                self.camera_x = camera;
            },
        }
    }
}

} // verus!
