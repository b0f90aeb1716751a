//! The spawn scheduler: replacement food and poison after a regular
//! consumption, and special spawn batches gated on the chain's
//! projected length.

use vstd::prelude::*;

use crate::cells::{add_cell, lemma_remove_at_no_dup};
use crate::components::{grid_cell, fine_in_bounds, ConsumablePosition, Position,
    spec_to_consumable_position};
use crate::config::{MAX_SEGMENTS, SPECIAL_SPAWN_INTERVAL};
use crate::events::{SpawnConsumables, SpawnOutcome};
use crate::game::{same_scores, Game};
use crate::resources::LastSpecialSpawn;
use vstd::arithmetic::div_mod::lemma_fundamental_div_mod;

verus! {

/// The cell is available for a new item: free in the pool and not
/// under the chain's current coarse footprint.
pub open spec fn free_for_spawn(g: Game, c: ConsumablePosition) -> bool {
    g.free_consumable_positions.has(c) && !g.chain_coarse().contains(c)
}

/// The chain's length once the growth granted this tick is applied.
pub open spec fn projected_length(g: Game, new_segments: u16) -> int {
    g.segments.0@.len() + new_segments
}

/// A special spawn batch fires when the projected length exceeds the
/// last trigger length by more than the interval.
pub open spec fn special_due(g: Game, new_segments: u16) -> bool {
    projected_length(g, new_segments) - g.last_special_spawn.0 > SPECIAL_SPAWN_INTERVAL
}

/// The counter value a firing batch records: the largest multiple of
/// the interval not exceeding the projected length.
pub open spec fn special_milestone(projected: int) -> int {
    (projected / (SPECIAL_SPAWN_INTERVAL as int)) * (SPECIAL_SPAWN_INTERVAL as int)
}

/// An every-other special batch also replaces the antidote: when the
/// new milestone is a multiple of twice the interval.
pub open spec fn antidote_due(g: Game, new_segments: u16) -> bool {
    special_due(g, new_segments) && special_milestone(projected_length(g, new_segments)) % (2
        * SPECIAL_SPAWN_INTERVAL) == 0
}

/// A milestone never runs ahead of the projected length it was
/// computed from, and it is a multiple of the interval.
pub proof fn lemma_milestone_bounds(projected: int)
    requires
        projected >= 0,
    ensures
        0 <= special_milestone(projected) <= projected,
        special_milestone(projected) % (SPECIAL_SPAWN_INTERVAL as int) == 0,
{
    lemma_fundamental_div_mod(projected, SPECIAL_SPAWN_INTERVAL as int);
}

/// Despawns every superfood, returning its cell to the pool, and
/// reshuffles once after the batch.
fn despawn_superfoods(game: &mut Game)
    requires
        old(game).wf(),
    ensures
        final(game).wf(),
        final(game).superfoods@.len() == 0,
        forall|c: ConsumablePosition|
            final(game).free_consumable_positions.has(c) <==> old(game).free_consumable_positions.has(c) || old(game).superfoods@.contains(c),
        final(game).foods@ == old(game).foods@,
        final(game).poisons@ == old(game).poisons@,
        final(game).antidotes@ == old(game).antidotes@,
        final(game).antidote_anchors@ == old(game).antidote_anchors@,
        final(game).walls@ == old(game).walls@,
        final(game).segments.0@ == old(game).segments.0@,
        final(game).head == old(game).head,
        final(game).immunity_time.0 == old(game).immunity_time.0,
        final(game).last_tail_position.0 == old(game).last_tail_position.0,
        final(game).last_special_spawn.0 == old(game).last_special_spawn.0,
        same_scores(*old(game), *final(game)),
{
    let ghost sa = *game;
    while game.superfoods.len() > 0
        invariant
            sa.wf(),
            game.superfoods@.len() <= sa.superfoods@.len(),
            game.superfoods@ == sa.superfoods@.subrange(0, game.superfoods@.len() as int),
            game.superfoods@.no_duplicates(),
            game.free_consumable_positions.wf(),
            forall|c: ConsumablePosition|
                game.free_consumable_positions.has(c) <==> sa.free_consumable_positions.has(c)
                    || (sa.superfoods@.contains(c) && !game.superfoods@.contains(c)),
            game.foods@ == sa.foods@,
            game.poisons@ == sa.poisons@,
            game.antidotes@ == sa.antidotes@,
            game.antidote_anchors@ == sa.antidote_anchors@,
            game.walls@ == sa.walls@,
            game.segments.0@ == sa.segments.0@,
            game.head == sa.head,
            game.immunity_time.0 == sa.immunity_time.0,
            game.last_tail_position.0 == sa.last_tail_position.0,
            game.last_special_spawn.0 == sa.last_special_spawn.0,
            same_scores(sa, *game),
        decreases game.superfoods@.len(),
    {
        let ghost prefix = game.superfoods@;
        if let Some(cell) = game.superfoods.pop() {
            proof {
                let k = prefix.len() - 1;
                assert(prefix.contains(cell));
                assert(sa.superfoods@.contains(cell)) by {
                    assert(sa.superfoods@[k] == cell);
                }
                assert(sa.occupancy(cell) >= 1) by {
                    assert(sa.superfoods@.contains(cell));
                }
                assert(!game.free_consumable_positions.has(cell)) by {
                    assert(sa.occupancy(cell) <= 1);
                    assert(!sa.free_consumable_positions.has(cell));
                }
                lemma_remove_at_no_dup(prefix, k);
                assert(game.superfoods@ =~= prefix.remove(k));
                assert(game.superfoods@ =~= sa.superfoods@.subrange(
                    0,
                    game.superfoods@.len() as int,
                ));
            }
            game.free_consumable_positions.push(cell);
        } else {
            proof {
                assert(false);
            }
        }
    }
    let ghost pexit = *game;
    game.free_consumable_positions.shuffle();
    proof {
        assert forall|c: ConsumablePosition|
            game.free_consumable_positions.has(c) <==> sa.free_consumable_positions.has(c)
                || sa.superfoods@.contains(c) by {
            assert(game.free_consumable_positions.has(c)
                == pexit.free_consumable_positions.has(c));
            assert(!pexit.superfoods@.contains(c));
        }
        assert forall|c: ConsumablePosition| #[trigger]
            game.occupancy(c) == (if grid_cell(c) {
                1int
            } else {
                0int
            }) by {
            assert(sa.occupancy(c) == (if grid_cell(c) {
                1int
            } else {
                0int
            }));
        }
    }
}

/// Despawns every antidote, returning its spawn anchor to the pool,
/// and reshuffles once after the batch.
fn despawn_antidotes(game: &mut Game)
    requires
        old(game).wf(),
    ensures
        final(game).wf(),
        final(game).antidotes@.len() == 0,
        final(game).antidote_anchors@.len() == 0,
        forall|c: ConsumablePosition|
            final(game).free_consumable_positions.has(c) <==> old(game).free_consumable_positions.has(c) || old(game).antidote_anchors@.contains(c),
        final(game).foods@ == old(game).foods@,
        final(game).poisons@ == old(game).poisons@,
        final(game).superfoods@ == old(game).superfoods@,
        final(game).walls@ == old(game).walls@,
        final(game).segments.0@ == old(game).segments.0@,
        final(game).head == old(game).head,
        final(game).immunity_time.0 == old(game).immunity_time.0,
        final(game).last_tail_position.0 == old(game).last_tail_position.0,
        final(game).last_special_spawn.0 == old(game).last_special_spawn.0,
        same_scores(*old(game), *final(game)),
{
    let ghost sa = *game;
    while game.antidotes.len() > 0
        invariant
            sa.wf(),
            game.antidotes@.len() == game.antidote_anchors@.len(),
            game.antidote_anchors@.len() <= sa.antidote_anchors@.len(),
            game.antidotes@ == sa.antidotes@.subrange(0, game.antidotes@.len() as int),
            game.antidote_anchors@ == sa.antidote_anchors@.subrange(
                0,
                game.antidote_anchors@.len() as int,
            ),
            game.antidote_anchors@.no_duplicates(),
            game.free_consumable_positions.wf(),
            forall|c: ConsumablePosition|
                game.free_consumable_positions.has(c) <==> sa.free_consumable_positions.has(c)
                    || (sa.antidote_anchors@.contains(c) && !game.antidote_anchors@.contains(c)),
            game.foods@ == sa.foods@,
            game.poisons@ == sa.poisons@,
            game.superfoods@ == sa.superfoods@,
            game.walls@ == sa.walls@,
            game.segments.0@ == sa.segments.0@,
            game.head == sa.head,
            game.immunity_time.0 == sa.immunity_time.0,
            game.last_tail_position.0 == sa.last_tail_position.0,
            game.last_special_spawn.0 == sa.last_special_spawn.0,
            same_scores(sa, *game),
        decreases game.antidotes@.len(),
    {
        let ghost prefix = game.antidote_anchors@;
        let _ = game.antidotes.pop();
        if let Some(anchor) = game.antidote_anchors.pop() {
            proof {
                let k = prefix.len() - 1;
                assert(prefix.contains(anchor));
                assert(sa.antidote_anchors@.contains(anchor)) by {
                    assert(sa.antidote_anchors@[k] == anchor);
                }
                assert(sa.occupancy(anchor) >= 1) by {
                    assert(sa.antidote_anchors@.contains(anchor));
                }
                assert(!game.free_consumable_positions.has(anchor)) by {
                    assert(sa.occupancy(anchor) <= 1);
                    assert(!sa.free_consumable_positions.has(anchor));
                }
                lemma_remove_at_no_dup(prefix, k);
                assert(game.antidote_anchors@ =~= prefix.remove(k));
                assert(game.antidote_anchors@ =~= sa.antidote_anchors@.subrange(
                    0,
                    game.antidote_anchors@.len() as int,
                ));
                assert(game.antidotes@ =~= sa.antidotes@.subrange(0, game.antidotes@.len() as int));
            }
            game.free_consumable_positions.push(anchor);
        } else {
            proof {
                assert(false);
            }
        }
    }
    let ghost pexit = *game;
    game.free_consumable_positions.shuffle();
    proof {
        assert forall|c: ConsumablePosition|
            game.free_consumable_positions.has(c) <==> sa.free_consumable_positions.has(c)
                || sa.antidote_anchors@.contains(c) by {
            assert(game.free_consumable_positions.has(c)
                == pexit.free_consumable_positions.has(c));
            assert(!pexit.antidote_anchors@.contains(c));
        }
        assert forall|c: ConsumablePosition| #[trigger]
            game.occupancy(c) == (if grid_cell(c) {
                1int
            } else {
                0int
            }) by {
            assert(sa.occupancy(c) == (if grid_cell(c) {
                1int
            } else {
                0int
            }));
        }
    }
}

/// The coarse cells the chain currently projects onto.
fn chain_footprint(game: &Game) -> (v: Vec<ConsumablePosition>)
    requires
        game.wf(),
    ensures
        v@ == game.chain_coarse(),
{
    let mut footprint: Vec<ConsumablePosition> = Vec::new();
    let n = game.segments.0.len();
    let mut i: usize = 0;
    while i < n
        invariant
            game.wf(),
            n == game.segments.0@.len(),
            0 <= i <= n,
            footprint@ == game.segments.0@.subrange(0, i as int).map_values(
                |p: Position| spec_to_consumable_position(p),
            ),
        decreases n - i,
    {
        let p = game.segments.0[i];
        proof {
            assert(fine_in_bounds(game.segments.0@[i as int]));
        }
        footprint.push(p.to_consumable_position());
        proof {
            assert(footprint@ =~= game.segments.0@.subrange(0, i as int + 1).map_values(
                |q: Position| spec_to_consumable_position(q),
            ));
        }
        i = i + 1;
    }
    proof {
        assert(game.segments.0@.subrange(0, n as int) =~= game.segments.0@);
        assert(footprint@ =~= game.chain_coarse());
    }
    footprint
}

/// Handles one spawn request.  The candidate set is the pool with the
/// chain's current coarse footprint excluded; a regular request
/// places one food and one poison from it (silently skipping a slot
/// when no candidate is left).  When the projected chain length
/// crosses a new interval milestone, the batch replaces the superfood
/// and, at every other milestone, the antidote; the counter records
/// the milestone.
pub fn spawn_consumables(game: &mut Game, spawn_event: SpawnConsumables) -> (out: SpawnOutcome)
    requires
        old(game).wf(),
        old(game).last_special_spawn.0 <= old(game).segments.0@.len() + spawn_event.new_segments,
        old(game).segments.0@.len() + spawn_event.new_segments <= MAX_SEGMENTS,
    ensures
        final(game).wf(),
        out.special == special_due(*old(game), spawn_event.new_segments),
        final(game).last_special_spawn.0 == (if out.special {
            special_milestone(projected_length(*old(game), spawn_event.new_segments))
        } else {
            old(game).last_special_spawn.0 as int
        }),
        (out.spawned_food is Some) <==> (spawn_event.regular && (exists|c: ConsumablePosition|
            free_for_spawn(*old(game), c))),
        (match out.spawned_food {
            Some(c) => free_for_spawn(*old(game), c) && final(game).foods@ == old(game).foods@.push(c),
            None => final(game).foods@ == old(game).foods@,
        }),
        (out.spawned_poison is Some) <==> (spawn_event.regular && (exists|c: ConsumablePosition|
            free_for_spawn(*old(game), c) && Some(c) != out.spawned_food)),
        (match out.spawned_poison {
            Some(c) => free_for_spawn(*old(game), c) && Some(c) != out.spawned_food && final(game).poisons@ == old(game).poisons@.push(c),
            None => final(game).poisons@ == old(game).poisons@,
        }),
        !out.special ==> final(game).superfoods@ == old(game).superfoods@ && final(game).antidotes@ == old(game).antidotes@ && final(game).antidote_anchors@ == old(game).antidote_anchors@ && out.spawned_superfood is None && out.spawned_antidote is None,
        out.special ==> ((out.spawned_superfood is Some) <==> (exists|c: ConsumablePosition|
            free_for_spawn(*old(game), c) && Some(c) != out.spawned_food && Some(c)
                != out.spawned_poison && Some(c) != out.spawned_antidote)),
        out.special ==> (match out.spawned_superfood {
            Some(c) => free_for_spawn(*old(game), c) && Some(c) != out.spawned_food && Some(c)
                != out.spawned_poison && Some(c) != out.spawned_antidote && final(game).superfoods@ == seq![c],
            None => final(game).superfoods@.len() == 0,
        }),
        out.special ==> (forall|c: ConsumablePosition|
            old(game).superfoods@.contains(c) ==> final(game).free_consumable_positions.has(c)),
        (out.special && !antidote_due(*old(game), spawn_event.new_segments)) ==> final(game).antidotes@ == old(game).antidotes@ && final(game).antidote_anchors@ == old(game).antidote_anchors@ && out.spawned_antidote is None,
        antidote_due(*old(game), spawn_event.new_segments) ==> ((out.spawned_antidote is Some)
            <==> (exists|c: ConsumablePosition|
            free_for_spawn(*old(game), c) && Some(c) != out.spawned_food && Some(c)
                != out.spawned_poison)),
        antidote_due(*old(game), spawn_event.new_segments) ==> (match out.spawned_antidote {
            Some(c) => free_for_spawn(*old(game), c) && Some(c) != out.spawned_food && Some(c)
                != out.spawned_poison && final(game).antidotes@ == seq![c] && final(game).antidote_anchors@ == seq![c],
            None => final(game).antidotes@.len() == 0 && final(game).antidote_anchors@.len() == 0,
        }),
        antidote_due(*old(game), spawn_event.new_segments) ==> (forall|c: ConsumablePosition|
            old(game).antidote_anchors@.contains(c) ==> final(game).free_consumable_positions.has(c)),
        final(game).segments.0@ == old(game).segments.0@,
        final(game).head == old(game).head,
        final(game).immunity_time.0 == old(game).immunity_time.0,
        final(game).last_tail_position.0 == old(game).last_tail_position.0,
        final(game).walls@ == old(game).walls@,
        same_scores(*old(game), *final(game)),
{
    let ghost s0 = *game;
    let footprint = chain_footprint(game);
    let mut candidates = game.free_consumable_positions.candidates();
    candidates.remove_all(&footprint);
    proof {
        assert forall|c: ConsumablePosition| candidates.has(c) <==> free_for_spawn(s0, c) by {}
    }

    let mut out = SpawnOutcome {
        spawned_food: None,
        spawned_poison: None,
        spawned_superfood: None,
        spawned_antidote: None,
        special: false,
    };

    if spawn_event.regular {
        if let Some(pos) = candidates.pop() {
            proof {
                assert(free_for_spawn(s0, pos));
                assert(s0.occupancy(pos) == 1);
                assert(!game.foods@.contains(pos));
            }
            add_cell(&mut game.foods, pos);
            game.free_consumable_positions.remove(&pos);
            out.spawned_food = Some(pos);
        }
        proof {
            if out.spawned_food is None {
                assert forall|c: ConsumablePosition| !free_for_spawn(s0, c) by {
                    if s0.free_consumable_positions.has(c) && !s0.chain_coarse().contains(c) {
                        assert(candidates.has(c));
                    }
                }
            }
        }
        if let Some(pos) = candidates.pop() {
            proof {
                assert(free_for_spawn(s0, pos));
                assert(s0.occupancy(pos) == 1);
                assert(!game.poisons@.contains(pos));
                assert(game.free_consumable_positions.has(pos));
            }
            add_cell(&mut game.poisons, pos);
            game.free_consumable_positions.remove(&pos);
            out.spawned_poison = Some(pos);
        }
    }
    proof {
        assert forall|c: ConsumablePosition| #[trigger]
            game.occupancy(c) == (if grid_cell(c) {
                1int
            } else {
                0int
            }) by {
            assert(s0.occupancy(c) == (if grid_cell(c) {
                1int
            } else {
                0int
            }));
        }
        assert(game.wf());
    }
    let ghost s1 = *game;

    let len32: u32 = game.segments.0.len() as u32;
    let projected: u32 = len32 + spawn_event.new_segments as u32;
    if projected - game.last_special_spawn.0 > SPECIAL_SPAWN_INTERVAL {
        out.special = true;
        let q: u32 = projected / SPECIAL_SPAWN_INTERVAL;
        proof {
            lemma_fundamental_div_mod(projected as int, SPECIAL_SPAWN_INTERVAL as int);
        }
        game.last_special_spawn = LastSpecialSpawn(q * SPECIAL_SPAWN_INTERVAL);
        proof {
            assert forall|c: ConsumablePosition| #[trigger]
                game.occupancy(c) == (if grid_cell(c) {
                    1int
                } else {
                    0int
                }) by {
                assert(s1.occupancy(c) == (if grid_cell(c) {
                    1int
                } else {
                    0int
                }));
            }
            assert(game.wf());
        }

        despawn_superfoods(game);
        let ghost s2 = *game;

        if game.last_special_spawn.0 % (SPECIAL_SPAWN_INTERVAL * 2) == 0 {
            despawn_antidotes(game);
            let ghost s3 = *game;
            if let Some(pos) = candidates.pop() {
                proof {
                    assert(free_for_spawn(s0, pos));
                    assert(s0.occupancy(pos) == 1);
                    assert(!game.antidote_anchors@.contains(pos));
                    assert(game.free_consumable_positions.has(pos));
                }
                game.antidotes.push(pos);
                add_cell(&mut game.antidote_anchors, pos);
                game.free_consumable_positions.remove(&pos);
                out.spawned_antidote = Some(pos);
                proof {
                    assert(game.antidotes@ =~= seq![pos]);
                    assert(game.antidote_anchors@ =~= seq![pos]);
                }
            } else {
                proof {
                    assert forall|c: ConsumablePosition|
                        !(free_for_spawn(s0, c) && Some(c) != out.spawned_food && Some(c)
                            != out.spawned_poison) by {
                        if free_for_spawn(s0, c) && Some(c) != out.spawned_food && Some(c)
                            != out.spawned_poison {
                            assert(candidates.has(c));
                        }
                    }
                }
            }
            proof {
                assert forall|c: ConsumablePosition| #[trigger]
                    game.occupancy(c) == (if grid_cell(c) {
                        1int
                    } else {
                        0int
                    }) by {
                    assert(s3.occupancy(c) == (if grid_cell(c) {
                        1int
                    } else {
                        0int
                    }));
                }
                assert(game.wf());
            }
        }
        let ghost s4 = *game;

        if let Some(pos) = candidates.pop() {
            proof {
                assert(free_for_spawn(s0, pos));
                assert(s0.occupancy(pos) == 1);
                assert(!game.superfoods@.contains(pos));
                assert(game.free_consumable_positions.has(pos));
            }
            add_cell(&mut game.superfoods, pos);
            game.free_consumable_positions.remove(&pos);
            out.spawned_superfood = Some(pos);
            proof {
                assert(game.superfoods@ =~= seq![pos]);
            }
        } else {
            proof {
                assert forall|c: ConsumablePosition|
                    !(free_for_spawn(s0, c) && Some(c) != out.spawned_food && Some(c)
                        != out.spawned_poison && Some(c) != out.spawned_antidote) by {
                    if free_for_spawn(s0, c) && Some(c) != out.spawned_food && Some(c)
                        != out.spawned_poison && Some(c) != out.spawned_antidote {
                        assert(candidates.has(c));
                    }
                }
            }
        }
        proof {
            assert forall|c: ConsumablePosition| #[trigger]
                game.occupancy(c) == (if grid_cell(c) {
                    1int
                } else {
                    0int
                }) by {
                assert(s4.occupancy(c) == (if grid_cell(c) {
                    1int
                } else {
                    0int
                }));
            }
            assert(game.wf());
        }
    }
    out
}

} // verus!
