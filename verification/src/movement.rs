//! The movement engine: one head step per tick, the self-collision
//! rule against the pre-movement snapshot, the body shift, and the
//! deferred growth that appends segments at the vacated tail cell.

use vstd::prelude::*;
use vstd::pervasive::VecAdditionalExecFns;

use crate::components::{fine_in_bounds, grid_cell, interior_cell, Direction, Position};
use crate::config::MAX_SEGMENTS;
use crate::events::Growth;
use crate::game::{lemma_same_board_partition, same_board, same_scores, Game};
use crate::resources::LastTailPosition;

verus! {

/// Where the head stands after one step in the given direction.
pub open spec fn moved_head(head: Position, d: Direction) -> Position {
    Position { x: (head.x + d.x) as i32, y: (head.y + d.y) as i32 }
}

/// The self-collision rule: the chain moved (a zero direction is no
/// move) and the new head cell equals the pre-movement cell of some
/// segment, the vacating tail included.
pub open spec fn self_collision(segments: Seq<Position>, d: Direction) -> bool {
    !d.is_zero() && segments.contains(moved_head(segments[0], d))
}

/// Whether the list holds the given fine cell.
pub fn contains_position(v: &Vec<Position>, p: &Position) -> (r: bool)
    ensures
        r == v@.contains(*p),
{
    let n = v.len();
    let mut i: usize = 0;
    while i < n
        invariant
            n == v@.len(),
            0 <= i <= n,
            forall|j: int| 0 <= j < i ==> v@[j] != *p,
        decreases n - i,
    {
        if v[i] == *p {
            return true;
        }
        i = i + 1;
    }
    false
}

/// One movement step: the head advances one fine cell along its
/// facing direction, each body segment takes the pre-movement cell of
/// the segment ahead of it, the vacated tail cell is recorded for
/// deferred growth, and a self-collision against the pre-movement
/// snapshot is reported.
pub fn movement(game: &mut Game) -> (collided: bool)
    requires
        old(game).wf(),
        interior_cell(old(game).head_consumable()),
    ensures
        final(game).wf(),
        collided == self_collision(old(game).segments.0@, old(game).head.direction),
        final(game).segments.0@.len() == old(game).segments.0@.len(),
        final(game).segments.0@[0] == moved_head(
            old(game).head_position(),
            old(game).head.direction,
        ),
        forall|i: int|
            1 <= i < final(game).segments.0@.len() ==> final(game).segments.0@[i] == old(game).segments.0@[i - 1],
        final(game).last_tail_position.0 == Some(
            old(game).segments.0@[old(game).segments.0@.len() - 1],
        ),
        grid_cell(final(game).head_consumable()),
        same_board(*old(game), *final(game)),
        same_scores(*old(game), *final(game)),
        final(game).head == old(game).head,
        final(game).immunity_time.0 == old(game).immunity_time.0,
        final(game).last_special_spawn.0 == old(game).last_special_spawn.0,
{
    let ghost pre = *game;
    let n = game.segments.0.len();
    let head = game.segments.0[0];
    let new_head = Position {
        x: head.x + game.head.direction.x,
        y: head.y + game.head.direction.y,
    };

    let moved = game.head.direction.x != 0 || game.head.direction.y != 0;
    let collided = moved && contains_position(&game.segments.0, &new_head);

    let tail = game.segments.0[n - 1];
    game.last_tail_position = LastTailPosition(Some(tail));

    let mut i: usize = n - 1;
    while i >= 1
        invariant
            pre.wf(),
            1 <= n == game.segments.0@.len(),
            0 <= i <= n - 1,
            same_board(pre, *game),
            same_scores(pre, *game),
            game.head == pre.head,
            game.immunity_time.0 == pre.immunity_time.0,
            game.last_special_spawn.0 == pre.last_special_spawn.0,
            game.last_tail_position.0 == Some(pre.segments.0@[n as int - 1]),
            forall|j: int| 0 <= j <= i ==> game.segments.0@[j] == pre.segments.0@[j],
            forall|j: int|
                i < j < n ==> game.segments.0@[j] == pre.segments.0@[j - 1],
        decreases i,
    {
        let prev = game.segments.0[i - 1];
        game.segments.0.set(i, prev);
        i = i - 1;
    }
    game.segments.0.set(0, new_head);

    proof {
        lemma_same_board_partition(pre, *game);
        assert(fine_in_bounds(new_head));
        assert forall|j: int|
            0 <= j < game.segments.0@.len() implies fine_in_bounds(
            #[trigger] game.segments.0@[j],
        ) by {
            if j >= 1 {
                assert(game.segments.0@[j] == pre.segments.0@[j - 1]);
            }
        }
    }
    collided
}

/// Deferred growth: appends the requested number of segments, each at
/// the fine cell the tail vacated during this tick's movement.
pub fn growth(game: &mut Game, growth_event: Growth)
    requires
        old(game).wf(),
        old(game).last_tail_position.0 is Some,
        old(game).segments.0@.len() + growth_event.0 <= MAX_SEGMENTS,
    ensures
        final(game).wf(),
        final(game).segments.0@.len() == old(game).segments.0@.len() + growth_event.0,
        forall|i: int|
            0 <= i < old(game).segments.0@.len() ==> final(game).segments.0@[i] == old(game).segments.0@[i],
        forall|i: int|
            old(game).segments.0@.len() <= i < final(game).segments.0@.len()
                ==> final(game).segments.0@[i] == old(game).last_tail_position.0->Some_0,
        same_board(*old(game), *final(game)),
        same_scores(*old(game), *final(game)),
        final(game).head == old(game).head,
        final(game).immunity_time.0 == old(game).immunity_time.0,
        final(game).last_special_spawn.0 == old(game).last_special_spawn.0,
        final(game).last_tail_position.0 == old(game).last_tail_position.0,
{
    let ghost pre = *game;
    let tail = match game.last_tail_position.0 {
        Some(p) => p,
        None => {
            proof {
                assert(false);
            }
            Position { x: 0, y: 0 }
        },
    };
    let new_segments = growth_event.0;
    let mut k: u16 = 0;
    while k < new_segments
        invariant
            new_segments == growth_event.0,
            pre.wf(),
            0 <= k <= new_segments,
            same_board(pre, *game),
            same_scores(pre, *game),
            game.head == pre.head,
            game.immunity_time.0 == pre.immunity_time.0,
            game.last_special_spawn.0 == pre.last_special_spawn.0,
            game.last_tail_position.0 == pre.last_tail_position.0,
            fine_in_bounds(tail),
            game.segments.0@.len() == pre.segments.0@.len() + k,
            pre.segments.0@.len() + new_segments <= MAX_SEGMENTS,
            tail == pre.last_tail_position.0->Some_0,
            forall|i: int|
                0 <= i < pre.segments.0@.len() ==> game.segments.0@[i] == pre.segments.0@[i],
            forall|i: int|
                pre.segments.0@.len() <= i < game.segments.0@.len() ==> game.segments.0@[i]
                    == tail,
        decreases new_segments - k,
    {
        game.segments.0.push(tail);
        k = k + 1;
    }
    proof {
        lemma_same_board_partition(pre, *game);
        assert forall|j: int|
            0 <= j < game.segments.0@.len() implies fine_in_bounds(
            #[trigger] game.segments.0@[j],
        ) by {
            if j < pre.segments.0@.len() {
                assert(game.segments.0@[j] == pre.segments.0@[j]);
            } else {
                assert(game.segments.0@[j] == tail);
            }
        }
    }
}

} // verus!
