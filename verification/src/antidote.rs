//! The mobile hazard controller: each live antidote takes one random
//! axis-aligned step per interval, accepted only inside the walls and
//! off the chain's coarse footprint.

use vstd::prelude::*;
use vstd::pervasive::VecAdditionalExecFns;

use crate::components::{fine_in_bounds, grid_cell, interior_cell, spec_to_consumable_position,
    ConsumablePosition, Position};
use crate::config::{CONSUMABLE_HEIGHT, CONSUMABLE_WIDTH};
use crate::game::{same_scores, Game};
use crate::rng::random_in_range;

verus! {

/// The neighbour cell one step along the drawn direction: left,
/// right, down, up.
pub open spec fn stepped_cell(c: ConsumablePosition, dir: u32) -> ConsumablePosition {
    if dir == 0 {
        ConsumablePosition { x: (c.x - 1) as i32, y: c.y }
    } else if dir == 1 {
        ConsumablePosition { x: (c.x + 1) as i32, y: c.y }
    } else if dir == 2 {
        ConsumablePosition { x: c.x, y: (c.y - 1) as i32 }
    } else {
        ConsumablePosition { x: c.x, y: (c.y + 1) as i32 }
    }
}

/// The two cells are one axis-aligned step apart.
pub open spec fn one_step(a: ConsumablePosition, b: ConsumablePosition) -> bool {
    ||| (b.y == a.y && (b.x == a.x + 1 || b.x == a.x - 1))
    ||| (b.x == a.x && (b.y == a.y + 1 || b.y == a.y - 1))
}

/// Decides one antidote move, with the randomly drawn direction
/// handed in: the step is accepted only if the new cell stays inside
/// the walls and no chain segment projects onto it; otherwise the
/// antidote stays put for this interval.
pub fn antidote_step(pos: ConsumablePosition, dir: u32, segments: &Vec<Position>) -> (r: Option<
    ConsumablePosition,
>)
    requires
        dir < 4,
        interior_cell(pos),
        forall|i: int| 0 <= i < segments@.len() ==> fine_in_bounds(#[trigger] segments@[i]),
    ensures
        r == (if interior_cell(stepped_cell(pos, dir)) && !segments@.map_values(
            |p: Position| spec_to_consumable_position(p),
        ).contains(stepped_cell(pos, dir)) {
            Some(stepped_cell(pos, dir))
        } else {
            None::<ConsumablePosition>
        }),
{
    let mut new_pos = pos;
    if dir == 0 {
        new_pos.x = new_pos.x - 1;
    } else if dir == 1 {
        new_pos.x = new_pos.x + 1;
    } else if dir == 2 {
        new_pos.y = new_pos.y - 1;
    } else {
        new_pos.y = new_pos.y + 1;
    }
    proof {
        assert(new_pos == stepped_cell(pos, dir));
    }
    if new_pos.x < 1 || new_pos.x >= CONSUMABLE_WIDTH || new_pos.y < 1 || new_pos.y
        >= CONSUMABLE_HEIGHT {
        return None;
    }
    proof {
        assert(interior_cell(new_pos));
    }
    let n = segments.len();
    let mut i: usize = 0;
    while i < n
        invariant
            n == segments@.len(),
            0 <= i <= n,
            dir < 4,
            new_pos == stepped_cell(pos, dir),
            interior_cell(new_pos),
            forall|j: int| 0 <= j < segments@.len() ==> fine_in_bounds(#[trigger] segments@[j]),
            forall|j: int|
                0 <= j < i ==> spec_to_consumable_position(segments@[j]) != new_pos,
        decreases n - i,
    {
        let p = segments[i];
        if p.to_consumable_position() == new_pos {
            proof {
                let coarse = segments@.map_values(|q: Position| spec_to_consumable_position(q));
                assert(coarse[i as int] == new_pos);
                assert(coarse.contains(new_pos));
            }
            return None;
        }
        i = i + 1;
    }
    proof {
        let coarse = segments@.map_values(|q: Position| spec_to_consumable_position(q));
        assert forall|j: int| 0 <= j < coarse.len() implies coarse[j] != new_pos by {
            assert(spec_to_consumable_position(segments@[j]) != new_pos);
        }
        assert(!coarse.contains(new_pos));
    }
    Some(new_pos)
}

/// Moves every live antidote by one random axis-aligned step,
/// leaving it in place when the drawn step would leave the walls or
/// land on the chain.  Its spawn anchor, which the pool accounting
/// charges, never moves.
pub fn move_antidote(game: &mut Game)
    requires
        old(game).wf(),
    ensures
        final(game).wf(),
        final(game).antidotes@.len() == old(game).antidotes@.len(),
        forall|i: int|
            0 <= i < final(game).antidotes@.len() ==> (final(game).antidotes@[i] == old(
                game,
            ).antidotes@[i] || (one_step(old(game).antidotes@[i], final(game).antidotes@[i])
                && interior_cell(final(game).antidotes@[i]) && !old(game).chain_coarse().contains(
                final(game).antidotes@[i],
            ))),
        final(game).antidote_anchors@ == old(game).antidote_anchors@,
        final(game).foods@ == old(game).foods@,
        final(game).poisons@ == old(game).poisons@,
        final(game).superfoods@ == old(game).superfoods@,
        final(game).walls@ == old(game).walls@,
        final(game).free_consumable_positions.positions@ == old(
            game,
        ).free_consumable_positions.positions@,
        final(game).segments.0@ == old(game).segments.0@,
        final(game).head == old(game).head,
        final(game).immunity_time.0 == old(game).immunity_time.0,
        final(game).last_tail_position.0 == old(game).last_tail_position.0,
        final(game).last_special_spawn.0 == old(game).last_special_spawn.0,
        same_scores(*old(game), *final(game)),
{
    let ghost s0 = *game;
    let n = game.antidotes.len();
    let mut i: usize = 0;
    while i < n
        invariant
            s0.wf(),
            n == game.antidotes@.len() == s0.antidotes@.len(),
            0 <= i <= n,
            game.antidote_anchors@ == s0.antidote_anchors@,
            game.foods@ == s0.foods@,
            game.poisons@ == s0.poisons@,
            game.superfoods@ == s0.superfoods@,
            game.walls@ == s0.walls@,
            game.free_consumable_positions.positions@ == s0.free_consumable_positions.positions@,
            game.segments.0@ == s0.segments.0@,
            game.head == s0.head,
            game.immunity_time.0 == s0.immunity_time.0,
            game.last_tail_position.0 == s0.last_tail_position.0,
            game.last_special_spawn.0 == s0.last_special_spawn.0,
            same_scores(s0, *game),
            forall|j: int| i <= j < n ==> game.antidotes@[j] == s0.antidotes@[j],
            forall|j: int|
                0 <= j < n ==> (game.antidotes@[j] == s0.antidotes@[j] || (one_step(
                    s0.antidotes@[j],
                    game.antidotes@[j],
                ) && interior_cell(game.antidotes@[j]) && !s0.chain_coarse().contains(
                    game.antidotes@[j],
                ))),
        decreases n - i,
    {
        let dir = random_in_range(0, 4);
        let pos = game.antidotes[i];
        proof {
            assert(game.antidotes@[i as int] == s0.antidotes@[i as int] || interior_cell(
                game.antidotes@[i as int],
            ));
            assert(interior_cell(pos));
        }
        if let Some(new_pos) = antidote_step(pos, dir, &game.segments.0) {
            game.antidotes.set(i, new_pos);
            proof {
                assert(one_step(pos, new_pos) || pos == new_pos) by {
                    assert(new_pos == stepped_cell(pos, dir));
                }
            }
        }
        i = i + 1;
    }
    proof {
        assert forall|j: int|
            0 <= j < game.antidotes@.len() implies interior_cell(
            #[trigger] game.antidotes@[j],
        ) by {
            assert(interior_cell(s0.antidotes@[j]));
        }
        assert forall|c: ConsumablePosition| #[trigger]
            game.occupancy(c) == (if grid_cell(c) {
                1int
            } else {
                0int
            }) by {
            assert(s0.occupancy(c) == (if grid_cell(c) {
                1int
            } else {
                0int
            }));
        }
    }
}

} // verus!
