//! Procedural obstacles: pipe pairs spawned ahead of the bird at a fixed
//! cadence, and reaped once they have scrolled far enough behind it.
//!
//! Each pair shares one random vertical draw: the bottom pipe hangs
//! `PIPE_HEIGHT` below the gap's anchor, the top pipe sits `GAP_SIZE`
//! above it, and both stand one screen width ahead of the player.

use vstd::prelude::*;
use rand::Rng;
use crate::game::{GAP_SIZE, MIN_PIPE_SIZE, PIPE_HEIGHT, SIZE_X, SIZE_Y};
use crate::score::Score;

verus! {

/// One pipe obstacle: the world position of its sprite's centre.
#[derive(Clone, Copy, Debug, PartialEq, Eq, Structural)]
pub struct Pipe {
    pub x: i64,
    pub y: i64,
}

/// Mathematical model of a pipe, over unbounded integers.
pub ghost struct PipeModel {
    pub x: int,
    pub y: int,
}

impl View for Pipe {
    type V = PipeModel;

    open spec fn view(&self) -> PipeModel {
        PipeModel { x: self.x as int, y: self.y as int }
    }
}

/// The vertical draws admitted for a pipe pair: at least `MIN_PIPE_SIZE`
/// of pipe must remain on each screen edge around the gap.
pub open spec fn valid_offset(offset: int) -> bool {
    MIN_PIPE_SIZE <= offset < SIZE_Y - MIN_PIPE_SIZE - GAP_SIZE
}

/// The gap's anchor in world coordinates: the draw is measured from the
/// bottom of the screen, and the pipe sprite is placed by its centre.
pub open spec fn gap_anchor(offset: int) -> int {
    offset - SIZE_Y / 2 + PIPE_HEIGHT / 2
}

/// World-y of the bottom pipe of a pair built from `offset`.
pub open spec fn bottom_pipe_y(offset: int) -> int {
    gap_anchor(offset) - PIPE_HEIGHT
}

/// World-y of the top pipe of a pair built from `offset`.
pub open spec fn top_pipe_y(offset: int) -> int {
    gap_anchor(offset) + GAP_SIZE
}

/// World-x shared by both pipes of a pair spawned at player position
/// `player_x`: one screen width ahead.
pub open spec fn pipe_pair_x(player_x: int) -> int {
    player_x + SIZE_X
}

/// `pair` is exactly the pipe pair built from `player_x` and the
/// vertical draw `offset`.
pub open spec fn is_pair_at(pair: (Pipe, Pipe), player_x: int, offset: int) -> bool {
    &&& pair.0@ == (PipeModel { x: pipe_pair_x(player_x), y: bottom_pipe_y(offset) })
    &&& pair.1@ == (PipeModel { x: pipe_pair_x(player_x), y: top_pipe_y(offset) })
}

/// Law of pipe placement: for every admissible vertical draw, the top
/// pipe of the pair stands exactly `GAP_SIZE` above the gap's anchor —
/// the pipes of one pair always enclose a gap of the same height — and
/// the draw itself stays within
/// `[MIN_PIPE_SIZE, SIZE_Y - MIN_PIPE_SIZE - GAP_SIZE)`.
pub proof fn lemma_pipe_gap(offset: int)
    requires
        valid_offset(offset),
    ensures
        top_pipe_y(offset) - gap_anchor(offset) == GAP_SIZE,
        top_pipe_y(offset) - bottom_pipe_y(offset) == GAP_SIZE + PIPE_HEIGHT,
        MIN_PIPE_SIZE <= offset < SIZE_Y - MIN_PIPE_SIZE - GAP_SIZE,
{
}

/// Relies on `rand::thread_rng` and `rand::Rng::gen_range`: returns a
/// sample of the half-open range `low..high`; it panics only when the
/// range is empty, which the precondition rules out. Nothing beyond the
/// range is assumed — the draw is random.
#[verifier::external_body]
fn random_in_range(low: i64, high: i64) -> (r: i64)
    requires
        low < high,
    ensures
        low <= r < high,
{
    rand::thread_rng().gen_range(low..high)
}

/// Build the pipe pair for player position `player_x` from the vertical
/// draw `offset`: bottom pipe first, top pipe second, both one screen
/// width ahead of the player.
pub fn pipe_pair(player_x: i64, offset: i64) -> (pair: (Pipe, Pipe))
    requires
        valid_offset(offset as int),
        player_x + SIZE_X <= i64::MAX,
    ensures
        is_pair_at(pair, player_x as int, offset as int),
{
    let anchor: i64 = offset - SIZE_Y / 2 + PIPE_HEIGHT / 2;
    let bottom = Pipe { x: player_x + SIZE_X, y: anchor - PIPE_HEIGHT };
    let top = Pipe { x: player_x + SIZE_X, y: anchor + GAP_SIZE };
    (bottom, top)
}

/// Obstacle generator: draw a random vertical offset and build the pipe
/// pair for it. Every pair returned is the exact pair of some admissible
/// draw.
pub fn spawn_pipes(player_x: i64) -> (pair: (Pipe, Pipe))
    requires
        player_x + SIZE_X <= i64::MAX,
    ensures
        exists|offset: int| valid_offset(offset) && is_pair_at(pair, player_x as int, offset),
{
    let offset = random_in_range(MIN_PIPE_SIZE, SIZE_Y - MIN_PIPE_SIZE - GAP_SIZE);
    let pair = pipe_pair(player_x, offset);
    proof {
        assert(valid_offset(offset as int) && is_pair_at(pair, player_x as int, offset as int));
    }
    pair
}

/// Fixed-cadence generation step: append a freshly drawn pipe pair one
/// screen width ahead of the player, and count one point.
pub fn generate_pipes(score: &mut Score, pipes: &mut Vec<Pipe>, player_x: i64)
    requires
        old(score).0 < i32::MAX,
        player_x + SIZE_X <= i64::MAX,
    ensures
        final(score).0 == old(score).0 + 1,
        final(pipes)@.len() == old(pipes)@.len() + 2,
        final(pipes)@.subrange(0, old(pipes)@.len() as int) == old(pipes)@,
        exists|offset: int|
            valid_offset(offset) && is_pair_at(
                (
                    final(pipes)@[old(pipes)@.len() as int],
                    final(pipes)@[old(pipes)@.len() as int + 1],
                ),
                player_x as int,
                offset,
            ),
{
    let pair = spawn_pipes(player_x);
    pipes.push(pair.0);
    pipes.push(pair.1);
    score.0 = score.0 + 1;
    proof {
        assert(pipes@.subrange(0, old(pipes)@.len() as int) =~= old(pipes)@);
    }
}

/// A pipe stays in the world while it is no more than one screen width
/// behind the origin.
pub open spec fn pipe_alive(p: Pipe) -> bool {
    p.x >= -SIZE_X
}

/// The pipes of `s` that are still in the world, in their original order.
pub open spec fn live_pipes(s: Seq<Pipe>) -> Seq<Pipe> {
    s.filter(|p: Pipe| pipe_alive(p))
}

/// Obstacle reaper: despawn every pipe that has scrolled one screen
/// width off to the left, keeping the rest in order. Idempotent, and
/// independent of the order pipes are examined in.
#[verifier::loop_isolation(false)]
pub fn remove_pipes(pipes: &mut Vec<Pipe>)
    ensures
        final(pipes)@ == live_pipes(old(pipes)@),
{
    let mut kept: Vec<Pipe> = Vec::new();
    let mut i: usize = 0;
    while i < pipes.len()
        invariant
            i <= pipes@.len(),
            pipes@ == old(pipes)@,
            kept@ == live_pipes(pipes@.subrange(0, i as int)),
        decreases pipes@.len() - i,
    {
        let p = pipes[i];
        let ghost prefix = pipes@.subrange(0, i as int);
        proof {
            reveal(Seq::filter);
            assert(pipes@.subrange(0, i + 1).drop_last() =~= prefix);
            assert(pipes@.subrange(0, i + 1).last() == p);
            assert(live_pipes(pipes@.subrange(0, i + 1)) == if pipe_alive(p) {
                live_pipes(prefix).push(p)
            } else {
                live_pipes(prefix)
            });
        }
        if p.x >= -SIZE_X {
            kept.push(p);
        }
        i = i + 1;
    }
    proof {
        assert(pipes@.subrange(0, pipes@.len() as int) =~= pipes@);
    }
    *pipes = kept;
}

} // verus!
