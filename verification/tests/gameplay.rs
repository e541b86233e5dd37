use flappy::animation::animate_bird;
use flappy::bird::{jump_input, move_birds, spawn_bird, Bird};
use flappy::collision::collision;
use flappy::game::{
    ANIMATION_PERIOD_MS, BIRD_RADIUS, FORWARD_SPEED, GAP_SIZE, GRAVITY, JUMP_SPEED, PIPE_HEIGHT,
    SIZE_X, SIZE_Y,
};
use flappy::pipes::{generate_pipes, pipe_pair, remove_pipes, spawn_pipes, Pipe};
use flappy::score::{update_score, Score};
use flappy::state::AppState;
use flappy::timer::Timer;

#[test]
fn integrator_one_step() {
    // One tick of one time unit from rest: velocity and y drop by exactly
    // -GRAVITY, x advances by FORWARD_SPEED.
    let mut bird = Bird {
        x: 0,
        y: 0,
        vertical_velocity: 0,
        animation_state: 0,
    };
    move_birds(&mut bird, 1);
    assert_eq!(bird.vertical_velocity, GRAVITY);
    assert_eq!(bird.vertical_velocity, -1600);
    assert_eq!(bird.y, -1600);
    assert_eq!(bird.x, FORWARD_SPEED);
}

#[test]
fn integrator_uses_new_velocity() {
    // y moves by the post-gravity velocity, exactly.
    let mut bird = Bird {
        x: 10,
        y: 100,
        vertical_velocity: 2000,
        animation_state: 1,
    };
    move_birds(&mut bird, 2);
    assert_eq!(bird.vertical_velocity, 2000 + GRAVITY * 2);
    assert_eq!(bird.y, 100 + (2000 + GRAVITY * 2) * 2);
    assert_eq!(bird.x, 10 + FORWARD_SPEED * 2);
    assert_eq!(bird.animation_state, 1);
}

#[test]
fn integrator_zero_dt() {
    let mut bird = Bird {
        x: 7,
        y: -9,
        vertical_velocity: 55,
        animation_state: 2,
    };
    move_birds(&mut bird, 0);
    assert_eq!(bird.x, 7);
    assert_eq!(bird.y, -9);
    assert_eq!(bird.vertical_velocity, 55);
}

#[test]
fn jump_overwrites_velocity() {
    // A fresh press sets the velocity to exactly JUMP_SPEED, whatever it
    // was before, and unpauses the wing-flap timer.
    let mut bird = Bird {
        x: 0,
        y: 0,
        vertical_velocity: -12345,
        animation_state: 0,
    };
    let mut timer = Timer::new(ANIMATION_PERIOD_MS, true);
    jump_input(&mut bird, &mut timer, true);
    assert_eq!(bird.vertical_velocity, JUMP_SPEED);
    assert!(!timer.paused);

    let mut fast = Bird {
        x: 0,
        y: 0,
        vertical_velocity: 99999,
        animation_state: 0,
    };
    let mut timer2 = Timer::new(ANIMATION_PERIOD_MS, true);
    jump_input(&mut fast, &mut timer2, true);
    assert_eq!(fast.vertical_velocity, JUMP_SPEED);
}

#[test]
fn jump_without_press_changes_nothing() {
    let mut bird = Bird {
        x: 1,
        y: 2,
        vertical_velocity: 3,
        animation_state: 0,
    };
    let mut timer = Timer::new(ANIMATION_PERIOD_MS, true);
    jump_input(&mut bird, &mut timer, false);
    assert_eq!(bird.vertical_velocity, 3);
    assert!(timer.paused);
}

#[test]
fn pipe_pair_gap_and_placement() {
    // Mocked draw of 50 with GAP_SIZE = 200: the gap's top edge lands
    // where the raw offset 250 converts to in world coordinates.
    let (bottom, top) = pipe_pair(0, 50);
    let anchor = 50 - SIZE_Y / 2 + PIPE_HEIGHT / 2;
    assert_eq!(top.y - anchor, GAP_SIZE);
    assert_eq!(top.y, (50 + GAP_SIZE) - SIZE_Y / 2 + PIPE_HEIGHT / 2);
    assert_eq!(top.y, 180);
    assert_eq!(bottom.y, anchor - PIPE_HEIGHT);
    assert_eq!(bottom.y, -480);
    assert_eq!(bottom.x, SIZE_X);
    assert_eq!(top.x, SIZE_X);
}

#[test]
fn spawned_pipes_always_share_one_gap() {
    // Through the real random source: every pair keeps the gap and the
    // draw stays in range. Fails if the source ever leaves its range or
    // the pair ignored the draw.
    for _ in 0..200 {
        let (bottom, top) = spawn_pipes(100);
        assert_eq!(top.y - bottom.y, GAP_SIZE + PIPE_HEIGHT);
        assert_eq!(bottom.x, 100 + SIZE_X);
        assert_eq!(top.x, 100 + SIZE_X);
        // invert the placement back to the raw draw
        let offset = top.y - GAP_SIZE + SIZE_Y / 2 - PIPE_HEIGHT / 2;
        assert!((50..350).contains(&offset));
    }
}

#[test]
fn generate_pipes_counts_a_point() {
    let mut score = Score(-2);
    let mut pipes: Vec<Pipe> = Vec::new();
    generate_pipes(&mut score, &mut pipes, 0);
    assert_eq!(score.0, -1);
    assert_eq!(pipes.len(), 2);
    generate_pipes(&mut score, &mut pipes, 450);
    assert_eq!(score.0, 0);
    assert_eq!(pipes.len(), 4);
    assert_eq!(pipes[2].x, 450 + SIZE_X);
}

#[test]
fn reaper_drops_far_left_pipes() {
    let mut pipes = vec![
        Pipe { x: -801, y: 0 },
        Pipe { x: -800, y: 1 },
        Pipe { x: 0, y: 2 },
        Pipe { x: -5000, y: 3 },
        Pipe { x: 799, y: 4 },
    ];
    remove_pipes(&mut pipes);
    assert_eq!(
        pipes,
        vec![
            Pipe { x: -800, y: 1 },
            Pipe { x: 0, y: 2 },
            Pipe { x: 799, y: 4 },
        ]
    );
}

#[test]
fn collision_requires_both_overlaps() {
    // Horizontal extent: 35 + 18 = 53. Vertical: pipe reaches y ± 230,
    // bird reaches y ± 18.
    let bird = Bird {
        x: 0,
        y: 0,
        vertical_velocity: 0,
        animation_state: 0,
    };

    // both overlaps -> hit: pipe despawns, mode flips, exit requested
    let mut pipes = vec![Pipe { x: 52, y: 0 }];
    let mut state = AppState::Playing;
    let mut exit = false;
    collision(&bird, &mut pipes, &mut state, &mut exit);
    assert_eq!(state, AppState::Spectating);
    assert!(exit);
    assert!(pipes.is_empty());

    // horizontal overlap alone -> no hit
    let mut pipes = vec![Pipe { x: 52, y: 249 }]; // 0 + 18 = 18, not > 249 - 230 = 19
    let mut state = AppState::Playing;
    let mut exit = false;
    collision(&bird, &mut pipes, &mut state, &mut exit);
    assert_eq!(state, AppState::Playing);
    assert!(!exit);
    assert_eq!(pipes.len(), 1);

    // vertical overlap alone -> no hit
    let mut pipes = vec![Pipe { x: 53, y: 0 }]; // |53| not < 53
    let mut state = AppState::Playing;
    let mut exit = false;
    collision(&bird, &mut pipes, &mut state, &mut exit);
    assert_eq!(state, AppState::Playing);
    assert!(!exit);
    assert_eq!(pipes.len(), 1);

    // the vertical edge just inside -> hit
    let mut pipes = vec![Pipe { x: 52, y: 247 }]; // 18 > 247 - 230 = 17
    let mut state = AppState::Playing;
    let mut exit = false;
    collision(&bird, &mut pipes, &mut state, &mut exit);
    assert_eq!(state, AppState::Spectating);
    assert!(exit);
    assert!(pipes.is_empty());
}

#[test]
fn boundary_collision_needs_no_pipe() {
    // 283 + 18 = 301 > 300: past the top edge.
    let bird = Bird {
        x: 0,
        y: 283,
        vertical_velocity: 0,
        animation_state: 0,
    };
    let mut pipes: Vec<Pipe> = Vec::new();
    let mut state = AppState::Playing;
    let mut exit = false;
    collision(&bird, &mut pipes, &mut state, &mut exit);
    assert_eq!(state, AppState::Spectating);
    assert!(exit);

    // 282 + 18 = 300: exactly on the edge is still inside.
    let edge = Bird {
        x: 0,
        y: 282,
        vertical_velocity: 0,
        animation_state: 0,
    };
    let mut state = AppState::Playing;
    let mut exit = false;
    collision(&edge, &mut pipes, &mut state, &mut exit);
    assert_eq!(state, AppState::Playing);
    assert!(!exit);

    // and the bottom edge, -283 - 18 < -300
    let low = Bird {
        x: 0,
        y: -283,
        vertical_velocity: 0,
        animation_state: 0,
    };
    let mut state = AppState::Playing;
    let mut exit = false;
    collision(&low, &mut pipes, &mut state, &mut exit);
    assert_eq!(state, AppState::Spectating);
    assert!(exit);
    assert_eq!(BIRD_RADIUS, 18);
}

#[test]
fn animation_cycle_frames() {
    // A running timer firing four times emits frames 1, 2, 1, 0 — with
    // the resting frame 0 that is the burst 0,1,2,1,0 — then the timer
    // pauses and the counter is back at 0.
    let mut bird = Bird {
        x: 0,
        y: 0,
        vertical_velocity: 0,
        animation_state: 0,
    };
    let mut timer = Timer::new(ANIMATION_PERIOD_MS, false);
    let mut frames: Vec<u32> = Vec::new();
    for _ in 0..4 {
        if let Some(frame) = animate_bird(&mut bird, &mut timer, ANIMATION_PERIOD_MS) {
            frames.push(frame);
        }
    }
    assert_eq!(frames, vec![1, 2, 1, 0]);
    assert_eq!(bird.animation_state, 0);
    assert!(timer.paused);
    for &frame in &frames {
        assert!(frame <= 2);
    }
    // once paused, further time does nothing
    let r = animate_bird(&mut bird, &mut timer, 10 * ANIMATION_PERIOD_MS);
    assert!(r.is_none());
    assert_eq!(bird.animation_state, 0);
}

#[test]
fn animation_waits_for_the_period() {
    let mut bird = Bird {
        x: 0,
        y: 0,
        vertical_velocity: 0,
        animation_state: 0,
    };
    let mut timer = Timer::new(ANIMATION_PERIOD_MS, false);
    assert!(animate_bird(&mut bird, &mut timer, 74).is_none());
    assert_eq!(bird.animation_state, 0);
    // 74 + 1 = 75 reaches the period
    assert_eq!(animate_bird(&mut bird, &mut timer, 1), Some(1));
    assert_eq!(bird.animation_state, 1);
}

#[test]
fn score_display_floors_at_zero() {
    assert_eq!(update_score(&Score(-2)), "Score: 0");
    assert_eq!(update_score(&Score(-1)), "Score: 0");
    assert_eq!(update_score(&Score(0)), "Score: 0");
    assert_eq!(update_score(&Score(3)), "Score: 3");
    assert_eq!(update_score(&Score(12)), "Score: 12");
    assert_eq!(update_score(&Score(2147483647)), "Score: 2147483647");
}

#[test]
fn spawned_bird_is_at_rest() {
    let (bird, timer) = spawn_bird();
    assert_eq!(bird.x, 0);
    assert_eq!(bird.y, 0);
    assert_eq!(bird.vertical_velocity, 0);
    assert_eq!(bird.animation_state, 0);
    assert!(timer.paused);
    assert_eq!(timer.period_ms, ANIMATION_PERIOD_MS);
}

#[test]
fn timer_wraps_overshoot_into_next_cycle() {
    let mut timer = Timer::new(75, false);
    assert!(timer.tick(100));
    assert_eq!(timer.elapsed_ms, 25);
    assert!(!timer.tick(49));
    assert!(timer.tick(1));
    assert_eq!(timer.elapsed_ms, 0);
}

#[test]
fn paused_timer_ignores_time() {
    let mut timer = Timer::new(75, true);
    assert!(!timer.tick(1000));
    assert_eq!(timer.elapsed_ms, 0);
    timer.unpause();
    assert!(timer.tick(75));
}

#[test]
fn reaper_is_idempotent() {
    let mut pipes = vec![Pipe { x: -900, y: 0 }, Pipe { x: 10, y: 1 }];
    remove_pipes(&mut pipes);
    let once = pipes.clone();
    remove_pipes(&mut pipes);
    assert_eq!(pipes, once);
}

#[test]
fn simultaneous_collisions_all_despawn() {
    let bird = Bird {
        x: 0,
        y: 0,
        vertical_velocity: 0,
        animation_state: 0,
    };
    let mut pipes = vec![
        Pipe { x: 10, y: 0 },
        Pipe { x: 500, y: 0 },
        Pipe { x: -10, y: 50 },
    ];
    let mut state = AppState::Playing;
    let mut exit = false;
    collision(&bird, &mut pipes, &mut state, &mut exit);
    assert_eq!(state, AppState::Spectating);
    assert!(exit);
    assert_eq!(pipes, vec![Pipe { x: 500, y: 0 }]);
}

#[test]
fn setup_moves_waiting_to_playing() {
    let mut state = AppState::Waiting;
    flappy::state::finish_setup(&mut state);
    assert_eq!(state, AppState::Playing);
}
