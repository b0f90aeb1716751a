//! The library's global laws, stated and proved once over the specs
//! that the operations' contracts use.

use vstd::prelude::*;

use crate::components::{fine_in_bounds, grid_cell, ConsumablePosition, Direction, Position};
use crate::config::ANTIDOTE_IMMUNITY_BONUS;
use crate::eat::boosted_immunity;
use crate::game::{count_if, start_consumable, Game};
use crate::movement::{moved_head, self_collision};

verus! {

/// No duplicate occupancy among the items: in a well-formed state, a
/// coarse cell is claimed by at most one of the food, poison,
/// superfood, antidote (through its spawn anchor) and wall lists, and
/// no list claims a cell twice.  A roaming antidote is the one
/// exception by design: its current cell may cross another item while
/// its anchor keeps the accounting sound.
pub proof fn lemma_no_duplicate_occupancy(g: Game, c: ConsumablePosition)
    requires
        g.wf(),
    ensures
        count_if(g.foods@.contains(c)) + count_if(g.poisons@.contains(c)) + count_if(
            g.superfoods@.contains(c),
        ) + count_if(g.antidote_anchors@.contains(c)) + count_if(g.walls@.contains(c)) <= 1,
        g.foods@.no_duplicates(),
        g.poisons@.no_duplicates(),
        g.superfoods@.no_duplicates(),
        g.antidote_anchors@.no_duplicates(),
        g.walls@.no_duplicates(),
{
    assert(g.occupancy(c) == (if grid_cell(c) {
        1int
    } else {
        0int
    }));
}

/// No duplicate occupancy along the chain: a movement step that does
/// not signal self-collision keeps the segment cells pairwise
/// distinct.  The stated exception is growth: a newly grown segment
/// starts on the cell the tail vacated and stacked segments unwind
/// one cell per tick, so distinctness is an invariant of movement
/// alone, not of the chain at every instant.
pub proof fn lemma_movement_keeps_distinct(pre: Seq<Position>, post: Seq<Position>, d: Direction)
    requires
        pre.len() >= 1,
        pre.no_duplicates(),
        post.len() == pre.len(),
        post[0] == moved_head(pre[0], d),
        forall|i: int| 1 <= i < post.len() ==> post[i] == pre[i - 1],
        !d.is_zero(),
        !self_collision(pre, d),
    ensures
        post.no_duplicates(),
{
    let h = moved_head(pre[0], d);
    assert(!pre.contains(h));
    assert forall|i: int, j: int|
        0 <= i < post.len() && 0 <= j < post.len() && i != j implies post[i] != post[j] by {
        if i == 0 {
            assert(post[j] == pre[j - 1]);
            assert(pre.contains(pre[j - 1]));
        } else if j == 0 {
            assert(post[i] == pre[i - 1]);
            assert(pre.contains(pre[i - 1]));
        }
    }
}

/// The pool partition: in a well-formed state, the free pool, the
/// item lists (an antidote through its spawn anchor), the wall
/// border and the chain's round-start footprint cell together cover
/// the coarse grid exactly once — every grid cell is claimed by
/// exactly one of them, and no cell outside the grid by any.
pub proof fn lemma_pool_partition(g: Game, c: ConsumablePosition)
    requires
        g.wf(),
    ensures
        grid_cell(c) <==> (g.free_consumable_positions.has(c) || g.foods@.contains(c)
            || g.poisons@.contains(c) || g.superfoods@.contains(c)
            || g.antidote_anchors@.contains(c) || g.walls@.contains(c) || c
            == start_consumable()),
        g.occupancy(c) <= 1,
{
    assert(g.occupancy(c) == (if grid_cell(c) {
        1int
    } else {
        0int
    }));
}

/// Antidote stacking: two pickups before the countdown runs out add
/// both bonuses on top of the remaining time; the second pickup does
/// not reset the countdown to a single bonus.
pub proof fn lemma_antidote_stacking(t: u32)
    requires
        t + 2 * ANTIDOTE_IMMUNITY_BONUS <= u32::MAX,
    ensures
        boosted_immunity(boosted_immunity(t)) == t + 2 * ANTIDOTE_IMMUNITY_BONUS,
{
}

/// Self-collision exactness, first half: a chain of a single segment
/// never signals self-collision, whichever direction it moves in.
pub proof fn lemma_single_segment_never_collides(segments: Seq<Position>, d: Direction)
    requires
        segments.len() == 1,
        d.valid(),
        fine_in_bounds(segments[0]),
    ensures
        !self_collision(segments, d),
{
    if !d.is_zero() {
        let h = moved_head(segments[0], d);
        assert(h != segments[0]);
        if segments.contains(h) {
            let k = choose|k: int| 0 <= k < segments.len() && segments[k] == h;
            assert(k == 0);
        }
    }
}

/// Self-collision exactness, second half: a chain of two or more
/// segments that moves straight into its own second segment signals
/// self-collision on that same tick, judged against the pre-movement
/// snapshot.
pub proof fn lemma_reversal_collides(segments: Seq<Position>, d: Direction)
    requires
        segments.len() >= 2,
        !d.is_zero(),
        moved_head(segments[0], d) == segments[1],
    ensures
        self_collision(segments, d),
{
    assert(segments.contains(segments[1]));
}

} // verus!
