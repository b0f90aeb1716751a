//! The consumption resolver: what happens when the head's coarse cell
//! overlaps a live item or the wall.

use vstd::prelude::*;

use crate::cells::{contains_cell, index_of_cell, lemma_remove_at_no_dup, take_cell};
use crate::components::{fine_in_bounds, grid_cell, ConsumablePosition};
use crate::config::ANTIDOTE_IMMUNITY_BONUS;
use crate::events::{EatOutcome, ShowMessage, SpawnConsumables};
use crate::game::{same_scores, Game};
use crate::resources::ImmunityTime;

verus! {

/// Immunity time after one antidote: the bonus is added on top of
/// whatever time is left — a pickup stacks instead of resetting the
/// countdown — saturating only at the integer's ceiling.
pub open spec fn boosted_immunity(t: u32) -> u32 {
    if t + ANTIDOTE_IMMUNITY_BONUS <= u32::MAX {
        (t + ANTIDOTE_IMMUNITY_BONUS) as u32
    } else {
        u32::MAX
    }
}

/// Resolves the head's coarse cell against every live item, once per
/// tick and after movement.  Food grows the chain by one; superfood by
/// the amount drawn for this tick (handed in by the caller); an
/// antidote stacks immunity time; poison grows the chain by one if
/// immunity is left and ends the round otherwise — a countdown at
/// exactly zero does not protect; the wall ends the round.  Consumed
/// items despawn and their pool cells return (a roaming antidote
/// returns its spawn anchor).  Growth is not applied here: it is
/// emitted as a request and applied by a separate growth step.
pub fn eat(game: &mut Game, superfood_growth: u16) -> (out: EatOutcome)
    requires
        old(game).wf(),
        2 <= superfood_growth < 10,
    ensures
        final(game).wf(),
        out.ate_food == old(game).foods@.contains(old(game).head_consumable()),
        out.ate_superfood == old(game).superfoods@.contains(old(game).head_consumable()),
        out.ate_antidote == old(game).antidotes@.contains(old(game).head_consumable()),
        final(game).immunity_time.0 == (if out.ate_antidote {
            boosted_immunity(old(game).immunity_time.0)
        } else {
            old(game).immunity_time.0
        }),
        out.ate_poison == (old(game).poisons@.contains(old(game).head_consumable()) && final(game).immunity_time.0 > 0),
        out.game_over == (old(game).walls@.contains(old(game).head_consumable()) || (old(game).poisons@.contains(old(game).head_consumable()) && final(game).immunity_time.0 == 0)),
        out.growth == (if out.ate_food {
            1u16
        } else if out.ate_superfood {
            superfood_growth
        } else if out.ate_poison {
            1u16
        } else {
            0u16
        }),
        out.spawn == (if out.ate_food {
            Some(SpawnConsumables { regular: true, new_segments: 1u16 })
        } else if out.ate_superfood {
            Some(SpawnConsumables { regular: false, new_segments: superfood_growth })
        } else if out.ate_poison {
            Some(SpawnConsumables { regular: false, new_segments: 1u16 })
        } else {
            None
        }),
        out.message == (if out.ate_superfood {
            Some(
                ShowMessage {
                    new_segments: superfood_growth,
                    position: old(game).head_consumable(),
                },
            )
        } else {
            None
        }),
        forall|c: ConsumablePosition|
            final(game).foods@.contains(c) <==> old(game).foods@.contains(c) && c != old(game).head_consumable(),
        !out.ate_food ==> final(game).foods@ == old(game).foods@,
        out.ate_food ==> final(game).foods@.len() == old(game).foods@.len() - 1,
        forall|c: ConsumablePosition|
            final(game).superfoods@.contains(c) <==> old(game).superfoods@.contains(c) && c != old(game).head_consumable(),
        !out.ate_superfood ==> final(game).superfoods@ == old(game).superfoods@,
        out.ate_superfood ==> final(game).superfoods@.len() == old(game).superfoods@.len() - 1,
        out.ate_poison ==> (forall|c: ConsumablePosition|
            final(game).poisons@.contains(c) <==> old(game).poisons@.contains(c) && c != old(game).head_consumable()) && final(game).poisons@.len() == old(game).poisons@.len() - 1,
        !out.ate_poison ==> final(game).poisons@ == old(game).poisons@,
        !out.ate_antidote ==> final(game).antidotes@ == old(game).antidotes@ && final(game).antidote_anchors@ == old(game).antidote_anchors@,
        out.ate_antidote ==> (exists|i: int|
            0 <= i < old(game).antidotes@.len() && old(game).antidotes@[i] == old(game).head_consumable() && final(game).antidotes@ == old(game).antidotes@.remove(i)
                && final(game).antidote_anchors@ == old(game).antidote_anchors@.remove(i)),
        final(game).segments.0@ == old(game).segments.0@,
        final(game).head == old(game).head,
        final(game).last_tail_position.0 == old(game).last_tail_position.0,
        final(game).last_special_spawn.0 == old(game).last_special_spawn.0,
        final(game).walls@ == old(game).walls@,
        (!out.ate_food && !out.ate_superfood && !out.ate_poison && !out.ate_antidote) ==> final(game).free_consumable_positions.positions@ == old(game).free_consumable_positions.positions@,
        same_scores(*old(game), *final(game)),
{
    let ghost s0 = *game;
    proof {
        assert(fine_in_bounds(s0.segments.0@[0]));
    }
    let head = game.segments.0[0];
    let hc = head.to_consumable_position();
    proof {
        assert(hc == s0.head_consumable());
    }

    let mut out = EatOutcome {
        growth: 0,
        spawn: None,
        message: None,
        game_over: false,
        ate_food: false,
        ate_superfood: false,
        ate_poison: false,
        ate_antidote: false,
    };

    if take_cell(&mut game.foods, &hc) {
        proof {
            assert(s0.occupancy(hc) == 1);
            assert(!game.free_consumable_positions.has(hc));
        }
        game.free_consumable_positions.push(hc);
        game.free_consumable_positions.shuffle();
        out.growth = 1;
        out.spawn = Some(SpawnConsumables { regular: true, new_segments: 1 });
        out.ate_food = true;
    }
    proof {
        assert forall|c: ConsumablePosition| #[trigger]
            game.occupancy(c) == (if grid_cell(c) {
                1int
            } else {
                0int
            }) by {
            assert(s0.occupancy(c) == (if grid_cell(c) {
                1int
            } else {
                0int
            }));
        }
        assert(game.wf());
    }
    let ghost s1 = *game;

    if take_cell(&mut game.superfoods, &hc) {
        proof {
            assert(s1.occupancy(hc) == 1);
            assert(!game.free_consumable_positions.has(hc));
        }
        game.free_consumable_positions.push(hc);
        game.free_consumable_positions.shuffle();
        out.growth = superfood_growth;
        out.spawn = Some(SpawnConsumables { regular: false, new_segments: superfood_growth });
        out.message = Some(ShowMessage { new_segments: superfood_growth, position: hc });
        out.ate_superfood = true;
    }
    proof {
        assert forall|c: ConsumablePosition| #[trigger]
            game.occupancy(c) == (if grid_cell(c) {
                1int
            } else {
                0int
            }) by {
            assert(s1.occupancy(c) == (if grid_cell(c) {
                1int
            } else {
                0int
            }));
        }
        assert(game.wf());
    }
    let ghost s2 = *game;

    if let Some(i) = index_of_cell(&game.antidotes, &hc) {
        let anchor = game.antidote_anchors[i];
        proof {
            assert(s2.antidote_anchors@.contains(anchor));
            assert(s2.occupancy(anchor) == 1);
            assert(!game.free_consumable_positions.has(anchor));
        }
        game.antidotes.remove(i);
        game.antidote_anchors.remove(i);
        proof {
            lemma_remove_at_no_dup(s2.antidote_anchors@, i as int);
        }
        game.free_consumable_positions.push(anchor);
        let t = game.immunity_time.0;
        game.immunity_time = ImmunityTime(
            if t <= u32::MAX - ANTIDOTE_IMMUNITY_BONUS {
                t + ANTIDOTE_IMMUNITY_BONUS
            } else {
                u32::MAX
            },
        );
        out.ate_antidote = true;
        proof {
            assert(s2.antidotes@.contains(hc));
        }
    } else {
        proof {
            assert(!s2.antidotes@.contains(hc));
        }
    }
    proof {
        assert forall|c: ConsumablePosition| #[trigger]
            game.occupancy(c) == (if grid_cell(c) {
                1int
            } else {
                0int
            }) by {
            assert(s2.occupancy(c) == (if grid_cell(c) {
                1int
            } else {
                0int
            }));
        }
        assert(game.wf());
    }
    let ghost s3 = *game;

    if game.immunity_time.0 > 0 {
        if take_cell(&mut game.poisons, &hc) {
            proof {
                assert(s3.occupancy(hc) == 1);
                assert(!game.free_consumable_positions.has(hc));
            }
            game.free_consumable_positions.push(hc);
            game.free_consumable_positions.shuffle();
            out.growth = 1;
            out.spawn = Some(SpawnConsumables { regular: false, new_segments: 1 });
            out.ate_poison = true;
        }
    } else {
        if contains_cell(&game.poisons, &hc) {
            out.game_over = true;
        }
    }
    proof {
        assert forall|c: ConsumablePosition| #[trigger]
            game.occupancy(c) == (if grid_cell(c) {
                1int
            } else {
                0int
            }) by {
            assert(s3.occupancy(c) == (if grid_cell(c) {
                1int
            } else {
                0int
            }));
        }
        assert(game.wf());
    }

    if contains_cell(&game.walls, &hc) {
        out.game_over = true;
    }

    proof {
        if s0.foods@.contains(hc) {
            assert(s0.occupancy(hc) == 1);
        }
        if s0.superfoods@.contains(hc) {
            assert(s0.occupancy(hc) == 1);
        }
        if s0.poisons@.contains(hc) {
            assert(s0.occupancy(hc) == 1);
        }
        if s0.walls@.contains(hc) {
            assert(s0.occupancy(hc) == 1);
        }
    }
    out
}

} // verus!
