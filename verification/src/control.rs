//! The per-tick orchestration and the slower timers: direction
//! buffering, the immunity countdown, and the full simulation tick in
//! its strict order — movement, consumption, spawning, growth.

use vstd::prelude::*;

use crate::components::{border_cell, interior_cell, spec_to_consumable_position,
    ConsumablePosition, Direction, DiplopodHead};
use crate::config::{MAX_SEGMENTS, SPECIAL_SPAWN_INTERVAL};
use crate::eat::{boosted_immunity, eat};
use crate::events::{Growth, TickOutcome};
use crate::game::{lemma_same_board_partition, same_board, same_scores, Game};
use crate::movement::{growth, movement, moved_head, self_collision};
use crate::resources::ImmunityTime;
use crate::rng::random_in_range;
use crate::spawner::{lemma_milestone_bounds, projected_length, spawn_consumables,
    special_milestone};

verus! {

/// The coarse cell the head lands on during the next tick.
pub open spec fn tick_head_cell(g: Game) -> ConsumablePosition {
    spec_to_consumable_position(moved_head(g.head_position(), g.head.direction))
}

/// This tick's spawn batch replaces the antidote: a special batch
/// whose milestone is a multiple of twice the interval.
pub open spec fn tick_replaces_antidote(out: TickOutcome, chain_len: int) -> bool {
    out.spawn is Some && out.spawn->Some_0.special && special_milestone(
        chain_len + out.eat.growth,
    ) % (2 * SPECIAL_SPAWN_INTERVAL) == 0
}

/// The phase of the immunity countdown, for the shell's body colour
/// and looping antidote cue: steady while plenty of time is left,
/// blinking and toggling while it runs out, and back to normal at
/// zero.
#[derive(Clone, Copy, Debug, PartialEq, Eq, Structural)]
pub enum ImmunityPhase {
    Lasting,
    Expiring,
    Over,
}

/// How much ceremony is left in the countdown.  The shell keeps the
/// immune colour and the antidote cue steady while the phase lasts,
/// blinks and toggles them while it expires, and drops both when it
/// is over.
pub fn immunity_phase(immunity: u32) -> (r: ImmunityPhase)
    ensures
        r == (if immunity > 2 {
            ImmunityPhase::Lasting
        } else if immunity > 0 {
            ImmunityPhase::Expiring
        } else {
            ImmunityPhase::Over
        }),
{
    if immunity > 2 {
        ImmunityPhase::Lasting
    } else if immunity > 0 {
        ImmunityPhase::Expiring
    } else {
        ImmunityPhase::Over
    }
}

/// Buffers a requested direction: the latest nonzero request wins,
/// and a zero request leaves the buffered direction alone.
pub fn set_direction(game: &mut Game, direction: Direction)
    requires
        old(game).wf(),
        direction.valid(),
    ensures
        final(game).wf(),
        final(game).head.direction == (if direction.is_zero() {
            old(game).head.direction
        } else {
            direction
        }),
        final(game).segments.0@ == old(game).segments.0@,
        final(game).immunity_time.0 == old(game).immunity_time.0,
        final(game).last_special_spawn.0 == old(game).last_special_spawn.0,
        final(game).last_tail_position.0 == old(game).last_tail_position.0,
        same_board(*old(game), *final(game)),
        same_scores(*old(game), *final(game)),
        old(game).settled() ==> final(game).settled(),
{
    let ghost pre = *game;
    if direction.x != 0 || direction.y != 0 {
        game.head = DiplopodHead { direction };
    }
    proof {
        lemma_same_board_partition(pre, *game);
    }
}

/// One step of the immunity countdown, run on its own fixed interval:
/// remaining time shrinks by one unit and stops at zero.
pub fn limit_immunity(game: &mut Game)
    requires
        old(game).wf(),
    ensures
        final(game).wf(),
        final(game).immunity_time.0 == (if old(game).immunity_time.0 > 0 {
            (old(game).immunity_time.0 - 1) as u32
        } else {
            0u32
        }),
        final(game).segments.0@ == old(game).segments.0@,
        final(game).head == old(game).head,
        final(game).last_special_spawn.0 == old(game).last_special_spawn.0,
        final(game).last_tail_position.0 == old(game).last_tail_position.0,
        same_board(*old(game), *final(game)),
        same_scores(*old(game), *final(game)),
        old(game).settled() ==> final(game).settled(),
{
    let ghost pre = *game;
    if game.immunity_time.0 > 0 {
        game.immunity_time = ImmunityTime(game.immunity_time.0 - 1);
    }
    proof {
        lemma_same_board_partition(pre, *game);
    }
}

/// One full simulation tick, in the strict order movement, then
/// consumption, then spawning, then growth.  A fatal signal from
/// movement or consumption is reported; partial mutations of the tick
/// are not rolled back, and the caller runs the game-over transition
/// before the next tick.  Callers keep the chain at least nine
/// segments below the length ceiling — the worst growth one tick can
/// grant.
pub fn tick(game: &mut Game) -> (out: TickOutcome)
    requires
        old(game).wf(),
        old(game).settled(),
        old(game).segments.0@.len() + 9 <= MAX_SEGMENTS,
    ensures
        final(game).wf(),
        !out.game_over ==> final(game).settled(),
        out.collided == self_collision(old(game).segments.0@, old(game).head.direction),
        out.eat.ate_food == old(game).foods@.contains(tick_head_cell(*old(game))),
        out.eat.ate_superfood == old(game).superfoods@.contains(tick_head_cell(*old(game))),
        out.eat.ate_antidote == old(game).antidotes@.contains(tick_head_cell(*old(game))),
        final(game).immunity_time.0 == (if out.eat.ate_antidote {
            boosted_immunity(old(game).immunity_time.0)
        } else {
            old(game).immunity_time.0
        }),
        out.eat.ate_poison == (old(game).poisons@.contains(tick_head_cell(*old(game))) && final(game).immunity_time.0 > 0),
        out.eat.game_over == (old(game).walls@.contains(tick_head_cell(*old(game))) || (old(game).poisons@.contains(tick_head_cell(*old(game))) && final(game).immunity_time.0 == 0)),
        out.game_over == (out.collided || out.eat.game_over),
        out.eat.ate_food ==> out.eat.growth == 1,
        out.eat.ate_superfood ==> 2 <= out.eat.growth < 10,
        out.eat.ate_poison ==> out.eat.growth == 1,
        (!out.eat.ate_food && !out.eat.ate_superfood && !out.eat.ate_poison) ==> out.eat.growth
            == 0,
        final(game).segments.0@.len() == old(game).segments.0@.len() + out.eat.growth,
        final(game).segments.0@[0] == moved_head(
            old(game).head_position(),
            old(game).head.direction,
        ),
        forall|i: int|
            1 <= i < old(game).segments.0@.len() ==> final(game).segments.0@[i] == old(game).segments.0@[i - 1],
        forall|i: int|
            old(game).segments.0@.len() <= i < final(game).segments.0@.len() ==> final(game).segments.0@[i] == old(game).segments.0@[old(game).segments.0@.len() - 1],
        (out.spawn is Some) <==> (out.eat.spawn is Some),
        (match out.spawn {
            Some(s) => s.special == (old(game).segments.0@.len() + out.eat.growth - old(game).last_special_spawn.0 > SPECIAL_SPAWN_INTERVAL),
            None => true,
        }),
        final(game).last_special_spawn.0 == (if out.spawn matches Some(s) && s.special {
            special_milestone(old(game).segments.0@.len() + out.eat.growth)
        } else {
            old(game).last_special_spawn.0 as int
        }),
        final(game).walls@ == old(game).walls@,
        (!out.eat.ate_antidote && out.eat.spawn is None) ==> same_board(
            *old(game),
            *final(game),
        ),
        forall|c: ConsumablePosition|
            final(game).foods@.contains(c) <==> ((old(game).foods@.contains(c) && c
                != tick_head_cell(*old(game))) || (out.spawn matches Some(s) && s.spawned_food
                == Some(c))),
        forall|c: ConsumablePosition|
            final(game).poisons@.contains(c) <==> ((old(game).poisons@.contains(c) && !(
            out.eat.ate_poison && c == tick_head_cell(*old(game)))) || (out.spawn matches Some(s)
                && s.spawned_poison == Some(c))),
        (out.spawn is Some && out.spawn->Some_0.special) ==> (forall|c: ConsumablePosition|
            final(game).superfoods@.contains(c) <==> out.spawn->Some_0.spawned_superfood == Some(
                c,
            )),
        !(out.spawn is Some && out.spawn->Some_0.special) ==> (forall|c: ConsumablePosition|
            final(game).superfoods@.contains(c) <==> old(game).superfoods@.contains(c) && c
                != tick_head_cell(*old(game))),
        tick_replaces_antidote(out, old(game).segments.0@.len() as int) ==> (match out.spawn->Some_0.spawned_antidote {
            Some(c) => final(game).antidotes@ == seq![c] && final(game).antidote_anchors@
                == seq![c],
            None => final(game).antidotes@.len() == 0 && final(game).antidote_anchors@.len()
                == 0,
        }),
        (!tick_replaces_antidote(out, old(game).segments.0@.len() as int)
            && out.eat.ate_antidote) ==> final(game).antidotes@.len() == 0 && final(game).antidote_anchors@.len() == 0,
        (!tick_replaces_antidote(out, old(game).segments.0@.len() as int)
            && !out.eat.ate_antidote) ==> final(game).antidotes@ == old(game).antidotes@ && final(game).antidote_anchors@ == old(game).antidote_anchors@,
        same_scores(*old(game), *final(game)),
{
    let ghost s0 = *game;
    let collided = movement(game);
    let ghost s1 = *game;
    let superfood_growth = random_in_range(2, 10) as u16;
    let outcome = eat(game, superfood_growth);
    let ghost s2 = *game;
    proof {
        assert(s1.head_consumable() == tick_head_cell(s0));
        assert(s1.foods@ == s0.foods@);
        let hc = s1.head_consumable();
        assert(s1.occupancy(hc) <= 1);
        if outcome.ate_food {
            assert(s1.foods@.contains(hc));
            assert(!s1.superfoods@.contains(hc) && !s1.poisons@.contains(hc));
        }
        if outcome.ate_superfood {
            assert(s1.superfoods@.contains(hc));
            assert(!s1.poisons@.contains(hc));
        }
    }
    let spawn_out = if let Some(ev) = outcome.spawn {
        proof {
            assert(ev.new_segments == outcome.growth);
            assert(game.last_special_spawn.0 <= game.segments.0@.len() + ev.new_segments);
            assert(game.segments.0@.len() + ev.new_segments <= MAX_SEGMENTS);
        }
        Some(spawn_consumables(game, ev))
    } else {
        None
    };
    let ghost s3 = *game;
    proof {
        if spawn_out is Some {
            lemma_milestone_bounds(projected_length(s2, outcome.growth as u16));
        }
    }
    growth(game, Growth(outcome.growth));

    let game_over = collided || outcome.game_over;
    proof {
        if let Some(sp) = spawn_out {
            if let Some(nc) = sp.spawned_food {
                assert(s2.occupancy(nc) == 1);
                assert(!s2.foods@.contains(nc));
                crate::cells::lemma_push_keeps_no_dup(s2.foods@, nc);
            }
            if let Some(nc) = sp.spawned_poison {
                assert(s2.occupancy(nc) == 1);
                assert(!s2.poisons@.contains(nc));
                crate::cells::lemma_push_keeps_no_dup(s2.poisons@, nc);
            }
            if sp.special {
                if let Some(nc) = sp.spawned_superfood {
                    assert(game.superfoods@.len() == 1 && game.superfoods@[0] == nc);
                    assert forall|c: ConsumablePosition|
                        game.superfoods@.contains(c) <==> c == nc by {
                        if c == nc {
                            assert(game.superfoods@[0] == c);
                        }
                    }
                }
            }
        }
        if !game_over {
            assert(!border_cell(tick_head_cell(s0))) by {
                assert(!s0.walls@.contains(tick_head_cell(s0)));
            }
            assert(interior_cell(game.head_consumable()));
            assert(game.last_special_spawn.0 <= game.segments.0@.len());
        }
    }
    TickOutcome { collided, eat: outcome, spawn: spawn_out, game_over }
}

} // verus!
