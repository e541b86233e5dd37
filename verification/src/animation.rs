//! Animation driver: flaps the bird's wings in a short burst.
//!
//! The wing-flap counter runs 0,1,2,3,4 while its timer fires, and the
//! sprite frame shown for each counter value is 0,1,2,1,0 — up through
//! the flap and back down. When the counter reaches the end of the burst
//! it is reset to 0 and the timer pauses until the next jump.

use vstd::prelude::*;
use crate::bird::{Bird, BirdModel};
use crate::timer::{Timer, TimerModel};

verus! {

/// Sprite frame shown for a raw wing-flap counter value: the counter
/// values 0,1,2,3,4 map to the frames 0,1,2,1,0.
pub open spec fn frame_of(counter: int) -> int
    recommends
        0 <= counter <= 4,
{
    if counter == 2 {
        2
    } else if counter == 1 || counter == 3 {
        1
    } else {
        0
    }
}

/// The counter after one firing of the animation timer: it advances by
/// one, and wraps back to 0 at the end of the burst.
pub open spec fn next_counter(counter: int) -> int
    recommends
        0 <= counter <= 3,
{
    if counter + 1 >= 4 {
        0
    } else {
        counter + 1
    }
}

/// Law of the wing-flap burst: the counter's five values map exactly to
/// the frame cycle [0, 1, 2, 1, 0], the emitted frame never leaves
/// {0, 1, 2}, and from a fresh counter the burst walks 0 → 1 → 2 → 3 → 0.
pub proof fn lemma_animation_cycle()
    ensures
        frame_of(0) == 0 && frame_of(1) == 1 && frame_of(2) == 2 && frame_of(3) == 1 && frame_of(
            4,
        ) == 0,
        forall|c: int| 0 <= c <= 4 ==> 0 <= #[trigger] frame_of(c) <= 2,
        next_counter(0) == 1 && next_counter(1) == 2 && next_counter(2) == 3 && next_counter(3)
            == 0,
{
}

/// The bird and its timer after one frame of the animation driver:
/// unchanged unless the timer fires; on a firing the counter steps, and
/// at the end of a burst the timer resets and pauses.
pub open spec fn animated(b: BirdModel, t: TimerModel, delta: int) -> (BirdModel, TimerModel) {
    if !crate::timer::fires(t, delta) {
        (b, crate::timer::ticked(t, delta))
    } else if b.animation_state == 3 {
        (
            BirdModel { animation_state: 0, ..b },
            TimerModel { elapsed: 0, period: t.period, paused: true },
        )
    } else {
        (
            BirdModel { animation_state: b.animation_state + 1, ..b },
            crate::timer::ticked(t, delta),
        )
    }
}

/// Animation driver: advance the bird's wing-flap timer by `delta_ms`;
/// when it fires, step the counter and report the new sprite frame. At
/// the end of a burst the counter resets and the timer pauses until the
/// next jump unpauses it. Counter values outside `0..=3` never arise in
/// a well-formed world and are ruled out here rather than handled.
pub fn animate_bird(bird: &mut Bird, timer: &mut Timer, delta_ms: u64) -> (frame: Option<u32>)
    requires
        0 <= old(bird).animation_state <= 3,
        old(timer)@.wf(),
        old(timer)@.elapsed + delta_ms <= u64::MAX,
    ensures
        final(bird)@ == animated(old(bird)@, old(timer)@, delta_ms as int).0,
        final(timer)@ == animated(old(bird)@, old(timer)@, delta_ms as int).1,
        frame matches Some(f) ==> 0 <= f <= 2,
        final(timer)@.wf(),
        final(timer)@.period == old(timer)@.period,
        final(bird)@.x == old(bird)@.x,
        final(bird)@.y == old(bird)@.y,
        final(bird)@.vertical_velocity == old(bird)@.vertical_velocity,
        0 <= final(bird).animation_state <= 3,
        old(timer)@.paused ==> {
            &&& frame is None
            &&& *final(bird) == *old(bird)
            &&& *final(timer) == *old(timer)
        },
        !old(timer)@.paused ==> {
            let fired = old(timer)@.elapsed + delta_ms >= old(timer)@.period;
            &&& !fired ==> {
                &&& frame is None
                &&& *final(bird) == *old(bird)
                &&& final(timer)@ == (TimerModel {
                    elapsed: (old(timer)@.elapsed + delta_ms) % old(timer)@.period,
                    ..old(timer)@
                })
            }
            &&& fired ==> {
                &&& frame == Some(frame_of(old(bird)@.animation_state + 1) as u32)
                &&& final(bird)@.animation_state == next_counter(old(bird)@.animation_state)
                &&& (old(bird)@.animation_state == 3 ==> final(timer)@ == (TimerModel {
                    elapsed: 0,
                    period: old(timer)@.period,
                    paused: true,
                }))
                &&& (old(bird)@.animation_state < 3 ==> final(timer)@ == (TimerModel {
                    elapsed: (old(timer)@.elapsed + delta_ms) % old(timer)@.period,
                    ..old(timer)@
                }))
            }
        },
{
    let fired = timer.tick(delta_ms);
    if !fired {
        return None;
    }
    bird.animation_state = bird.animation_state + 1;
    let frame: u32 = if bird.animation_state == 1 || bird.animation_state == 3 {
        1
    } else if bird.animation_state == 2 {
        2
    } else {
        0
    };
    if bird.animation_state >= 4 {
        bird.animation_state = 0;
        timer.reset();
        timer.pause();
    }
    Some(frame)
}

} // verus!
