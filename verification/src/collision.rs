//! Collision detector: box overlap between the bird and each pipe, and a
//! boundary test against the top and bottom screen edges.
//!
//! The bird's half-extent is its scaled sprite height over two, used for
//! both axes — a deliberate simplification for a sprite that is nearly
//! square. A hit ends play: the mode moves to Spectating, the colliding
//! pipe despawns, and the host is asked to exit.

use vstd::prelude::*;
use vstd::math::abs;
use crate::bird::{Bird, BirdModel};
use crate::game::{BIRD_RADIUS, PIPE_HALF_WIDTH, PIPE_HEIGHT, SIZE_Y};
use crate::pipes::{Pipe, PipeModel};
use crate::state::AppState;

verus! {

/// The bird's and the pipe's horizontal extents overlap.
pub open spec fn horizontal_overlap(bird: BirdModel, pipe: PipeModel) -> bool {
    abs(pipe.x - bird.x) < PIPE_HALF_WIDTH + BIRD_RADIUS
}

/// The bird's and the pipe's vertical extents overlap.
pub open spec fn vertical_overlap(bird: BirdModel, pipe: PipeModel) -> bool {
    &&& bird.y + BIRD_RADIUS > pipe.y - PIPE_HEIGHT / 2
    &&& bird.y - BIRD_RADIUS < pipe.y + PIPE_HEIGHT / 2
}

/// The bird hits a pipe exactly when the horizontal and the vertical
/// overlap hold at once.
pub open spec fn hits_pipe(bird: BirdModel, pipe: PipeModel) -> bool {
    horizontal_overlap(bird, pipe) && vertical_overlap(bird, pipe)
}

/// The bird pokes past the top or the bottom edge of the screen.
pub open spec fn out_of_bounds(bird: BirdModel) -> bool {
    ||| bird.y + BIRD_RADIUS > SIZE_Y / 2
    ||| bird.y - BIRD_RADIUS < -SIZE_Y / 2
}

/// Something ends play this frame: a pipe hit or the screen boundary.
pub open spec fn any_collision(bird: BirdModel, pipes: Seq<Pipe>) -> bool {
    ||| out_of_bounds(bird)
    ||| exists|i: int| 0 <= i < pipes.len() && hits_pipe(bird, pipes[i]@)
}

/// The pipes the bird does not hit, in their original order.
pub open spec fn surviving_pipes(bird: BirdModel, s: Seq<Pipe>) -> Seq<Pipe> {
    s.filter(|p: Pipe| !hits_pipe(bird, p@))
}

/// Law of collision reporting: a pipe collision is reported exactly when
/// the horizontal and the vertical overlap predicates hold at the same
/// time, and the boundary collision is reported — with or without any
/// pipe — exactly when the bird's |y| plus its half-extent passes half
/// the screen height.
pub proof fn lemma_collision_characterisation(bird: BirdModel, pipe: PipeModel)
    ensures
        hits_pipe(bird, pipe) <==> (horizontal_overlap(bird, pipe) && vertical_overlap(
            bird,
            pipe,
        )),
        out_of_bounds(bird) <==> abs(bird.y) + BIRD_RADIUS > SIZE_Y / 2,
{
}

/// Collision detector, run once per Playing frame. Every pipe the bird
/// hits despawns, the others stay in order; on any hit — pipe or screen
/// boundary — the mode moves to Spectating and the host is asked to
/// exit. Without a hit, nothing changes.
#[verifier::loop_isolation(false)]
pub fn collision(bird: &Bird, pipes: &mut Vec<Pipe>, app_state: &mut AppState, exit: &mut bool)
    requires
        *old(app_state) is Playing,
    ensures
        final(pipes)@ == surviving_pipes(bird@, old(pipes)@),
        any_collision(bird@, old(pipes)@) ==> *final(app_state) is Spectating && *final(exit),
        !any_collision(bird@, old(pipes)@) ==> {
            &&& *final(app_state) == *old(app_state)
            &&& *final(exit) == *old(exit)
        },
{
    let mut kept: Vec<Pipe> = Vec::new();
    let mut pipe_hit: bool = false;
    let mut i: usize = 0;
    while i < pipes.len()
        invariant
            i <= pipes@.len(),
            pipes@ == old(pipes)@,
            kept@ == surviving_pipes(bird@, pipes@.subrange(0, i as int)),
            pipe_hit == exists|j: int| 0 <= j < i && hits_pipe(bird@, pipes@[j]@),
        decreases pipes@.len() - i,
    {
        let p = pipes[i];
        let ghost prefix = pipes@.subrange(0, i as int);
        proof {
            reveal(Seq::filter);
            assert(pipes@.subrange(0, i + 1).drop_last() =~= prefix);
            assert(pipes@.subrange(0, i + 1).last() == p);
            assert(surviving_pipes(bird@, pipes@.subrange(0, i + 1)) == if !hits_pipe(
                bird@,
                p@,
            ) {
                surviving_pipes(bird@, prefix).push(p)
            } else {
                surviving_pipes(bird@, prefix)
            });
        }
        let px: i128 = p.x as i128;
        let py: i128 = p.y as i128;
        let bx: i128 = bird.x as i128;
        let by: i128 = bird.y as i128;
        let radius: i128 = BIRD_RADIUS as i128;
        let half_height: i128 = (PIPE_HEIGHT / 2) as i128;
        let dx: i128 = px - bx;
        let adx: i128 = if dx < 0 {
            -dx
        } else {
            dx
        };
        let horizontal = adx < (PIPE_HALF_WIDTH + BIRD_RADIUS) as i128;
        let below_top = by + radius > py - half_height;
        let above_bottom = by - radius < py + half_height;
        let vertical = below_top && above_bottom;
        if horizontal && vertical {
            pipe_hit = true;
            proof {
                assert(hits_pipe(bird@, pipes@[i as int]@));
            }
        } else {
            kept.push(p);
        }
        i = i + 1;
    }
    proof {
        assert(pipes@.subrange(0, pipes@.len() as int) =~= pipes@);
    }
    *pipes = kept;

    let by: i128 = bird.y as i128;
    let radius: i128 = BIRD_RADIUS as i128;
    let half_screen: i128 = (SIZE_Y / 2) as i128;
    let boundary = by + radius > half_screen || by - radius < -half_screen;
    if pipe_hit || boundary {
        *app_state = AppState::Spectating;
        *exit = true;
    }
}

} // verus!
