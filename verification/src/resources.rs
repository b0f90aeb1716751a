//! Shared state of one game round: the chain's segments, the pool of
//! free coarse cells, and the small counters.

use vstd::prelude::*;

use crate::components::{ConsumablePosition, Position};
use crate::cells::take_cell;
use crate::rng::shuffle_cells;
use vstd::multiset::Multiset;

verus! {

broadcast use vstd::seq_lib::group_to_multiset_ensures, vstd::multiset::group_multiset_axioms;

/// The cells of the chain's segments, head first.
pub struct DiplopodSegments(pub Vec<Position>);

/// The fine cell the tail vacated during the latest movement step;
/// newly grown segments are appended there.
pub struct LastTailPosition(pub Option<Position>);

/// The chain length at which the latest special spawn batch triggered.
pub struct LastSpecialSpawn(pub u32);

/// Remaining immunity time units; the chain survives poison while the
/// count is positive.
pub struct ImmunityTime(pub u32);

/// Largest score observed at a game over during this session.
pub struct Highscore(pub u16);

/// Score of the most recent game over.
pub struct Lastscore(pub u16);

/// The pool of coarse cells that no item occupies.  It is kept
/// shuffled, so that taking the last cell yields a uniformly random
/// free cell without rejection sampling against the occupied set.
pub struct FreeConsumablePositions {
    pub positions: Vec<ConsumablePosition>,
}

impl FreeConsumablePositions {
    /// The cells of the pool, as a multiset; well-formed pools hold
    /// each cell at most once.
    pub open spec fn cells(self) -> Multiset<ConsumablePosition> {
        self.positions@.to_multiset()
    }

    /// The pool holds this cell.
    pub open spec fn has(self, c: ConsumablePosition) -> bool {
        self.positions@.contains(c)
    }

    /// A pool is well-formed when no cell appears twice.
    pub open spec fn wf(self) -> bool {
        self.positions@.no_duplicates()
    }

    /// Builds the pool of every coarse cell of a `width` by `height`
    /// grid, each exactly once, in shuffled order.
    pub fn new(width: i32, height: i32) -> (pool: FreeConsumablePositions)
        requires
            0 < width <= 0x7FFF,
            0 < height <= 0x7FFF,
        ensures
            pool.wf(),
            pool.positions@.len() == width * height,
            forall|c: ConsumablePosition|
                pool.cells().count(c) == (if 0 <= c.x < width && 0 <= c.y < height {
                    1nat
                } else {
                    0nat
                }),
            forall|c: ConsumablePosition|
                pool.has(c) <==> 0 <= c.x < width && 0 <= c.y < height,
    {
        let mut positions: Vec<ConsumablePosition> = Vec::new();
        let mut x: i32 = 0;
        while x < width
            invariant
                0 <= x <= width,
                width <= 0x7FFF,
                0 < height <= 0x7FFF,
                positions@.len() == x * height,
                forall|c: ConsumablePosition|
                    positions@.to_multiset().count(c) == (if 0 <= c.x < x && 0 <= c.y < height {
                        1nat
                    } else {
                        0nat
                    }),
            decreases width - x,
        {
            let mut y: i32 = 0;
            while y < height
                invariant
                    0 <= x < width <= 0x7FFF,
                    0 <= y <= height,
                    0 < height <= 0x7FFF,
                    positions@.len() == x * height + y,
                    forall|c: ConsumablePosition|
                        positions@.to_multiset().count(c) == (
                        if (0 <= c.x < x && 0 <= c.y < height) || (c.x == x && 0 <= c.y < y) {
                            1nat
                        } else {
                            0nat
                        }),
                decreases height - y,
            {
                positions.push(ConsumablePosition { x, y });
                y = y + 1;
            }
            assert(x * height + height == (x + 1) * height) by (nonlinear_arith);
            x = x + 1;
        }
        proof {
            assert(forall|c: ConsumablePosition|
                positions@.to_multiset().contains(c) ==> positions@.to_multiset().count(c) == 1);
            positions@.lemma_multiset_has_no_duplicates_conv();
        }
        let mut pool = FreeConsumablePositions { positions };
        pool.shuffle();
        proof {
            assert forall|c: ConsumablePosition|
                pool.has(c) <==> 0 <= c.x < width && 0 <= c.y < height by {
                assert(pool.cells().count(c) == (if 0 <= c.x < width && 0 <= c.y < height {
                    1nat
                } else {
                    0nat
                }));
            }
        }
        pool
    }

    /// Rearranges the pool into a fresh random order; the cells stay
    /// the same.
    pub fn shuffle(&mut self)
        ensures
            final(self).cells() == old(self).cells(),
            final(self).positions@.len() == old(self).positions@.len(),
            forall|c: ConsumablePosition| final(self).has(c) <==> old(self).has(c),
            old(self).wf() ==> final(self).wf(),
    {
        shuffle_cells(&mut self.positions);
        proof {
            assert forall|c: ConsumablePosition| self.has(c) <==> old(self).has(c) by {
                assert(self.positions@.to_multiset().count(c)
                    == old(self).positions@.to_multiset().count(c));
            }
            if old(self).wf() {
                old(self).positions@.lemma_multiset_has_no_duplicates();
                self.positions@.lemma_multiset_has_no_duplicates_conv();
            }
        }
    }

    /// Removes a cell from the pool; a cell that is not in the pool is
    /// left alone.
    pub fn remove(&mut self, position: &ConsumablePosition)
        requires
            old(self).wf(),
        ensures
            final(self).wf(),
            forall|c: ConsumablePosition|
                final(self).has(c) <==> old(self).has(c) && c != *position,
            old(self).has(*position) ==> final(self).positions@.len() == old(
                self,
            ).positions@.len() - 1,
            !old(self).has(*position) ==> final(self).positions@ == old(self).positions@,
    {
        take_cell(&mut self.positions, position);
    }

    /// Removes every listed cell from the pool; listed cells that are
    /// not in the pool are ignored.
    pub fn remove_all(&mut self, positions: &Vec<ConsumablePosition>)
        requires
            old(self).wf(),
        ensures
            final(self).wf(),
            forall|c: ConsumablePosition|
                final(self).has(c) <==> old(self).has(c) && !positions@.contains(c),
            positions@.no_duplicates() && (forall|j: int|
                0 <= j < positions@.len() ==> old(self).has(#[trigger] positions@[j]))
                ==> final(self).positions@.len() == old(self).positions@.len() - positions@.len(),
    {
        let ghost all_present: bool = positions@.no_duplicates() && (forall|j: int|
            0 <= j < positions@.len() ==> old(self).has(#[trigger] positions@[j]));
        let n = positions.len();
        let mut i: usize = 0;
        while i < n
            invariant
                n == positions@.len(),
                0 <= i <= n,
                self.wf(),
                forall|c: ConsumablePosition|
                    self.has(c) <==> old(self).has(c) && !positions@.subrange(0, i as int).contains(
                        c,
                    ),
                all_present == (positions@.no_duplicates() && (forall|j: int|
                    0 <= j < positions@.len() ==> old(self).has(#[trigger] positions@[j]))),
                all_present ==> self.positions@.len() == old(self).positions@.len() - i,
            decreases n - i,
        {
            let ghost prefix = positions@.subrange(0, i as int);
            let ghost next_prefix = positions@.subrange(0, i as int + 1);
            let ghost before = *self;
            self.remove(&positions[i]);
            proof {
                assert forall|c: ConsumablePosition| next_prefix.contains(c) <==> prefix.contains(
                    c,
                ) || c == positions@[i as int] by {
                    if next_prefix.contains(c) {
                        let k = choose|k: int| 0 <= k < next_prefix.len() && next_prefix[k] == c;
                        if k < i as int {
                            assert(prefix[k] == c);
                        }
                    }
                    if prefix.contains(c) {
                        let k = choose|k: int| 0 <= k < prefix.len() && prefix[k] == c;
                        assert(next_prefix[k] == c);
                    }
                    if c == positions@[i as int] {
                        assert(next_prefix[i as int] == c);
                    }
                }
                if all_present {
                    assert(old(self).has(positions@[i as int]));
                    assert(!prefix.contains(positions@[i as int])) by {
                        if prefix.contains(positions@[i as int]) {
                            let k = choose|k: int|
                                0 <= k < prefix.len() && prefix[k] == positions@[i as int];
                        }
                    }
                    assert(before.has(positions@[i as int]));
                }
            }
            i = i + 1;
        }
        proof {
            assert(positions@.subrange(0, n as int) =~= positions@);
        }
    }

    /// Takes an arbitrary free cell out of the pool, or reports the
    /// pool exhausted.  Thanks to shuffling, the cell handed out is a
    /// uniformly random one.
    pub fn pop(&mut self) -> (r: Option<ConsumablePosition>)
        requires
            old(self).wf(),
        ensures
            final(self).wf(),
            match r {
                Some(c) => old(self).has(c) && final(self).positions@.len() == old(
                    self,
                ).positions@.len() - 1 && (forall|d: ConsumablePosition|
                    final(self).has(d) <==> old(self).has(d) && d != c),
                None => old(self).positions@.len() == 0 && final(self).positions@ == old(
                    self,
                ).positions@,
            },
    {
        proof {
            old(self).positions@.lemma_multiset_has_no_duplicates();
        }
        let r = self.positions.pop();
        proof {
            let s = old(self).positions@;
            if s.len() > 0 {
                let c = s[s.len() - 1];
                assert(s.contains(c));
                assert(self.positions@ =~= s.remove(s.len() - 1));
                assert(self.positions@.to_multiset() =~= s.to_multiset().remove(c));
                assert forall|d: ConsumablePosition| self.has(d) <==> old(self).has(d) && d != c by {
                    assert(self.positions@.to_multiset().count(d) == s.to_multiset().remove(
                        c,
                    ).count(d));
                }
                assert forall|d: ConsumablePosition|
                    self.positions@.to_multiset().contains(d)
                    implies self.positions@.to_multiset().count(d) == 1 by {
                    if d != c && s.to_multiset().count(d) > 0 {
                        assert(s.contains(d));
                    }
                }
                self.positions@.lemma_multiset_has_no_duplicates_conv();
            }
        }
        r
    }

    /// Returns a cell to the pool, on item despawn.  The caller hands
    /// back only cells that left the pool, so no duplicate arises.
    pub fn push(&mut self, position: ConsumablePosition)
        requires
            old(self).wf(),
            !old(self).has(position),
        ensures
            final(self).wf(),
            final(self).positions@.len() == old(self).positions@.len() + 1,
            forall|c: ConsumablePosition|
                final(self).has(c) <==> old(self).has(c) || c == position,
    {
        proof {
            old(self).positions@.lemma_multiset_has_no_duplicates();
        }
        self.positions.push(position);
        proof {
            let s = old(self).positions@;
            assert(self.positions@.to_multiset() =~= s.to_multiset().insert(position));
            assert forall|c: ConsumablePosition|
                self.has(c) <==> old(self).has(c) || c == position by {
                assert(self.positions@.to_multiset().count(c) == s.to_multiset().insert(
                    position,
                ).count(c));
            }
            assert forall|c: ConsumablePosition|
                self.positions@.to_multiset().contains(c)
                implies self.positions@.to_multiset().count(c) == 1 by {
                if c != position && s.to_multiset().count(c) > 0 {
                    assert(s.contains(c));
                }
                if c == position {
                    assert(s.to_multiset().count(c) == 0) by {
                        if s.to_multiset().count(c) > 0 {
                            assert(s.contains(c));
                        }
                    }
                }
            }
            self.positions@.lemma_multiset_has_no_duplicates_conv();
        }
    }

    /// A working copy of the pool, used as the candidate set of one
    /// spawn operation.
    pub fn candidates(&self) -> (r: FreeConsumablePositions)
        ensures
            r.positions@ == self.positions@,
    {
        let positions = self.positions.clone();
        proof {
            assert(positions@ =~= self.positions@);
        }
        FreeConsumablePositions { positions }
    }

    /// Rebuilds the pool from scratch for a fresh round.
    pub fn reset(&mut self, width: i32, height: i32)
        requires
            0 < width <= 0x7FFF,
            0 < height <= 0x7FFF,
        ensures
            final(self).wf(),
            final(self).positions@.len() == width * height,
            forall|c: ConsumablePosition|
                final(self).has(c) <==> 0 <= c.x < width && 0 <= c.y < height,
    {
        *self = FreeConsumablePositions::new(width, height);
    }
}

} // verus!
