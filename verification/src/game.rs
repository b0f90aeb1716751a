//! The owned state of one game session and the session control:
//! round start and the game-over transition.

use vstd::prelude::*;

use crate::cells::{add_cell, contains_cell};
use crate::components::{border_cell, grid_cell, interior_cell, spec_to_consumable_position,
    fine_in_bounds, ConsumablePosition, DiplopodHead, Direction, Obstacle, Position};
use crate::config::{grid_cells, wall_cells, AMOUNT_OF_FOOD, AMOUNT_OF_POISON, ARENA_HEIGHT,
    ARENA_WIDTH, CONSUMABLE_HEIGHT, CONSUMABLE_WIDTH, MAX_SEGMENTS};
use crate::resources::{DiplopodSegments, FreeConsumablePositions, Highscore, ImmunityTime,
    LastSpecialSpawn, LastTailPosition, Lastscore};

verus! {

/// The fine cell the chain's single segment starts a round on.
pub open spec fn start_position() -> Position {
    Position { x: (ARENA_WIDTH / 2) as i32, y: (ARENA_HEIGHT / 2) as i32 }
}

/// The coarse cell of the round-start position; it leaves the free
/// pool when the round begins and stands for the chain's footprint in
/// the pool accounting.
pub open spec fn start_consumable() -> ConsumablePosition {
    spec_to_consumable_position(start_position())
}

/// One if the condition holds, zero otherwise; used to count how many
/// components of the arena claim a cell.
pub open spec fn count_if(b: bool) -> int {
    if b {
        1
    } else {
        0
    }
}

/// The full state of one game round, together with the session scores
/// that survive a round.
pub struct Game {
    /// The chain, head first.
    pub segments: DiplopodSegments,
    /// The head's facing direction.
    pub head: DiplopodHead,
    /// Remaining immunity time units.
    pub immunity_time: ImmunityTime,
    /// The shuffled pool of unoccupied coarse cells.
    pub free_consumable_positions: FreeConsumablePositions,
    /// Where the tail stood before the latest movement step.
    pub last_tail_position: LastTailPosition,
    /// The chain length at the latest special spawn batch.
    pub last_special_spawn: LastSpecialSpawn,
    /// Cells of the live food items.
    pub foods: Vec<ConsumablePosition>,
    /// Cells of the live poison items.
    pub poisons: Vec<ConsumablePosition>,
    /// Cells of the live superfood items.
    pub superfoods: Vec<ConsumablePosition>,
    /// Current cells of the live antidote items; antidotes roam.
    pub antidotes: Vec<ConsumablePosition>,
    /// The cell each live antidote spawned on.  The pool accounting
    /// charges a roaming antidote to its spawn cell, and that cell is
    /// the one returned to the pool when the antidote despawns.
    pub antidote_anchors: Vec<ConsumablePosition>,
    /// Cells of the enclosing wall border.
    pub walls: Vec<ConsumablePosition>,
    /// Largest score of the session.
    pub highscore: Highscore,
    /// Score of the most recent game over.
    pub lastscore: Lastscore,
}

impl Game {
    /// The fine cell of the chain's head.
    pub open spec fn head_position(self) -> Position {
        self.segments.0@[0]
    }

    /// The coarse cell of the chain's head.
    pub open spec fn head_consumable(self) -> ConsumablePosition {
        spec_to_consumable_position(self.head_position())
    }

    /// The coarse cells the chain currently projects onto, one per
    /// segment and in chain order.
    pub open spec fn chain_coarse(self) -> Seq<ConsumablePosition> {
        self.segments.0@.map_values(|p: Position| spec_to_consumable_position(p))
    }

    /// How many components of the arena claim a coarse cell: the free
    /// pool, one of the item lists (an antidote through its spawn
    /// anchor), the wall border, or the chain's round-start footprint.
    pub open spec fn occupancy(self, c: ConsumablePosition) -> int {
        count_if(self.free_consumable_positions.has(c)) + count_if(self.foods@.contains(c))
            + count_if(self.poisons@.contains(c)) + count_if(self.superfoods@.contains(c))
            + count_if(self.antidote_anchors@.contains(c)) + count_if(self.walls@.contains(c))
            + count_if(c == start_consumable())
    }

    /// The pool partition: every coarse cell of the grid is claimed by
    /// exactly one component, and cells outside the grid by none.
    pub open spec fn partition_ok(self) -> bool {
        forall|c: ConsumablePosition| #[trigger]
            self.occupancy(c) == (if grid_cell(c) {
                1int
            } else {
                0int
            })
    }

    /// Well-formedness of a round's state: the partition holds, no
    /// list holds a cell twice, the walls are exactly the border, the
    /// antidotes roam the interior, and the chain is a nonempty run of
    /// in-bounds fine cells.
    pub open spec fn wf(self) -> bool {
        &&& self.free_consumable_positions.wf()
        &&& self.foods@.no_duplicates()
        &&& self.poisons@.no_duplicates()
        &&& self.superfoods@.no_duplicates()
        &&& self.antidote_anchors@.no_duplicates()
        &&& self.walls@.no_duplicates()
        &&& self.partition_ok()
        &&& (forall|c: ConsumablePosition| self.walls@.contains(c) <==> border_cell(c))
        &&& self.walls@.len() == wall_cells()
        &&& self.antidotes@.len() == self.antidote_anchors@.len()
        &&& self.antidotes@.len() <= 1
        &&& (forall|i: int|
            0 <= i < self.antidotes@.len() ==> interior_cell(#[trigger] self.antidotes@[i]))
        &&& 1 <= self.segments.0@.len() <= MAX_SEGMENTS
        &&& (forall|i: int|
            0 <= i < self.segments.0@.len() ==> fine_in_bounds(#[trigger] self.segments.0@[i]))
        &&& self.head.direction.valid()
        &&& (self.last_tail_position.0 matches Some(p) ==> fine_in_bounds(p))
    }

    /// A round that is ready for its next tick: the head stands inside
    /// the walls (a tick that ends elsewhere signals game over and is
    /// followed by a reset), and the special spawn counter never runs
    /// ahead of the chain.
    pub open spec fn settled(self) -> bool {
        &&& interior_cell(self.head_consumable())
        &&& self.last_special_spawn.0 <= self.segments.0@.len()
    }

    /// The state every round starts in.
    pub open spec fn fresh_round(self) -> bool {
        &&& self.segments.0@ == seq![start_position()]
        &&& self.head.direction.is_zero()
        &&& self.immunity_time.0 == 0
        &&& self.last_special_spawn.0 == 0
        &&& self.last_tail_position.0 is None
        &&& self.foods@.len() == AMOUNT_OF_FOOD
        &&& self.poisons@.len() == AMOUNT_OF_POISON
        &&& self.superfoods@.len() == 0
        &&& self.antidotes@.len() == 0
        &&& self.free_consumable_positions.positions@.len() == grid_cells() - wall_cells() - 1
            - AMOUNT_OF_FOOD - AMOUNT_OF_POISON
    }

    /// Starts a session: a fresh round with zeroed scores.
    pub fn new() -> (game: Game)
        ensures
            game.wf(),
            game.settled(),
            game.fresh_round(),
            game.highscore.0 == 0,
            game.lastscore.0 == 0,
    {
        start_round(0, 0)
    }

    /// What a rendering shell finds on a coarse cell: the wall or one
    /// of the live items.  A roaming antidote is reported at its
    /// current cell and may cross another item; every other kind
    /// holds its cell alone.
    pub fn obstacle_at(&self, c: &ConsumablePosition) -> (r: Option<Obstacle>)
        ensures
            r == (if self.walls@.contains(*c) {
                Some(Obstacle::Wall)
            } else if self.foods@.contains(*c) {
                Some(Obstacle::Food)
            } else if self.poisons@.contains(*c) {
                Some(Obstacle::Poison)
            } else if self.superfoods@.contains(*c) {
                Some(Obstacle::Superfood)
            } else if self.antidotes@.contains(*c) {
                Some(Obstacle::Antidote)
            } else {
                None::<Obstacle>
            }),
    {
        if contains_cell(&self.walls, c) {
            Some(Obstacle::Wall)
        } else if contains_cell(&self.foods, c) {
            Some(Obstacle::Food)
        } else if contains_cell(&self.poisons, c) {
            Some(Obstacle::Poison)
        } else if contains_cell(&self.superfoods, c) {
            Some(Obstacle::Superfood)
        } else if contains_cell(&self.antidotes, c) {
            Some(Obstacle::Antidote)
        } else {
            None
        }
    }

    /// The game-over transition: the score is taken from the chain's
    /// length, the session highscore is raised if it was beaten, and a
    /// fresh round replaces the whole round state.
    pub fn game_over(&mut self)
        requires
            old(self).wf(),
        ensures
            final(self).wf(),
            final(self).settled(),
            final(self).fresh_round(),
            final(self).lastscore.0 == old(self).segments.0@.len(),
            final(self).highscore.0 == (if old(self).segments.0@.len() > old(self).highscore.0 {
                old(self).segments.0@.len() as u16
            } else {
                old(self).highscore.0
            }),
    {
        let len = self.segments.0.len();
        let lastscore: u16 = len as u16;
        let highscore: u16 = if lastscore > self.highscore.0 {
            lastscore
        } else {
            self.highscore.0
        };
        *self = start_round(highscore, lastscore);
    }
}

/// The two states agree on everything the pool partition speaks of:
/// the pool, the item lists, and the walls.
pub open spec fn same_board(pre: Game, post: Game) -> bool {
    &&& post.free_consumable_positions.positions@ == pre.free_consumable_positions.positions@
    &&& post.foods@ == pre.foods@
    &&& post.poisons@ == pre.poisons@
    &&& post.superfoods@ == pre.superfoods@
    &&& post.antidotes@ == pre.antidotes@
    &&& post.antidote_anchors@ == pre.antidote_anchors@
    &&& post.walls@ == pre.walls@
}

/// The two states agree on the session scores.
pub open spec fn same_scores(pre: Game, post: Game) -> bool {
    &&& post.highscore.0 == pre.highscore.0
    &&& post.lastscore.0 == pre.lastscore.0
}

/// A step that leaves the board alone leaves the pool partition
/// intact.
pub proof fn lemma_same_board_partition(pre: Game, post: Game)
    requires
        pre.partition_ok(),
        same_board(pre, post),
    ensures
        post.partition_ok(),
{
    assert forall|c: ConsumablePosition| #[trigger]
        post.occupancy(c) == (if grid_cell(c) {
            1int
        } else {
            0int
        }) by {
        assert(pre.occupancy(c) == (if grid_cell(c) {
            1int
        } else {
            0int
        }));
    }
}

/// Builds the state of a fresh round: the wall border, a pool of every
/// interior cell but the chain's start cell, the one-segment chain at
/// the arena's center, and the initial food and poison placed on cells
/// taken from the pool.
fn start_round(highscore: u16, lastscore: u16) -> (game: Game)
    ensures
        game.wf(),
        game.settled(),
        game.fresh_round(),
        game.highscore.0 == highscore,
        game.lastscore.0 == lastscore,
{
    let mut walls: Vec<ConsumablePosition> = Vec::new();
    let mut x: i32 = 0;
    while x < CONSUMABLE_WIDTH + 1
        invariant
            0 <= x <= CONSUMABLE_WIDTH + 1,
            walls@.no_duplicates(),
            walls@.len() == 2 * x,
            forall|c: ConsumablePosition| #[trigger]
                walls@.contains(c) <==> (0 <= c.x < x && (c.y == 0 || c.y == CONSUMABLE_HEIGHT)),
        decreases CONSUMABLE_WIDTH + 1 - x,
    {
        add_cell(&mut walls, ConsumablePosition { x, y: 0 });
        add_cell(&mut walls, ConsumablePosition { x, y: CONSUMABLE_HEIGHT });
        x = x + 1;
    }
    let mut y: i32 = 1;
    while y < CONSUMABLE_HEIGHT
        invariant
            1 <= y <= CONSUMABLE_HEIGHT,
            walls@.no_duplicates(),
            walls@.len() == 2 * (CONSUMABLE_WIDTH + 1) + 2 * (y - 1),
            forall|c: ConsumablePosition| #[trigger]
                walls@.contains(c) <==> ((0 <= c.x <= CONSUMABLE_WIDTH && (c.y == 0 || c.y
                    == CONSUMABLE_HEIGHT)) || ((c.x == 0 || c.x == CONSUMABLE_WIDTH) && 1 <= c.y
                    < y)),
        decreases CONSUMABLE_HEIGHT - y,
    {
        add_cell(&mut walls, ConsumablePosition { x: 0, y });
        add_cell(&mut walls, ConsumablePosition { x: CONSUMABLE_WIDTH, y });
        y = y + 1;
    }
    proof {
        assert forall|c: ConsumablePosition| walls@.contains(c) <==> border_cell(c) by {
            assert(walls@.contains(c) <==> ((0 <= c.x <= CONSUMABLE_WIDTH && (c.y == 0 || c.y
                == CONSUMABLE_HEIGHT)) || ((c.x == 0 || c.x == CONSUMABLE_WIDTH) && 1 <= c.y
                < CONSUMABLE_HEIGHT)));
        }
    }

    let mut free_consumable_positions = FreeConsumablePositions::new(
        CONSUMABLE_WIDTH + 1,
        CONSUMABLE_HEIGHT + 1,
    );
    proof {
        assert forall|j: int|
            0 <= j < walls@.len() implies free_consumable_positions.has(
            #[trigger] walls@[j],
        ) by {
            assert(walls@.contains(walls@[j]));
        }
    }
    free_consumable_positions.remove_all(&walls);

    let start = Position { x: ARENA_WIDTH / 2, y: ARENA_HEIGHT / 2 };
    let start_c = start.to_consumable_position();
    proof {
        assert(start == start_position());
        assert(start_c == start_consumable());
        assert(interior_cell(start_c));
    }
    free_consumable_positions.remove(&start_c);

    let mut foods: Vec<ConsumablePosition> = Vec::new();
    let mut i: u32 = 0;
    while i < AMOUNT_OF_FOOD
        invariant
            0 <= i <= AMOUNT_OF_FOOD,
            foods@.no_duplicates(),
            foods@.len() == i,
            free_consumable_positions.wf(),
            free_consumable_positions.positions@.len() == grid_cells() - wall_cells() - 1 - i,
            forall|c: ConsumablePosition| #[trigger]
                free_consumable_positions.has(c) <==> interior_cell(c) && c != start_consumable()
                    && !foods@.contains(c),
            forall|c: ConsumablePosition| #[trigger]
                foods@.contains(c) ==> interior_cell(c) && c != start_consumable(),
        decreases AMOUNT_OF_FOOD - i,
    {
        if let Some(pos) = free_consumable_positions.pop() {
            add_cell(&mut foods, pos);
        } else {
            proof {
                assert(false);
            }
        }
        i = i + 1;
    }

    let mut poisons: Vec<ConsumablePosition> = Vec::new();
    let mut i: u32 = 0;
    while i < AMOUNT_OF_POISON
        invariant
            0 <= i <= AMOUNT_OF_POISON,
            poisons@.no_duplicates(),
            poisons@.len() == i,
            free_consumable_positions.wf(),
            free_consumable_positions.positions@.len() == grid_cells() - wall_cells() - 1
                - AMOUNT_OF_FOOD - i,
            foods@.no_duplicates(),
            foods@.len() == AMOUNT_OF_FOOD,
            forall|c: ConsumablePosition| #[trigger]
                free_consumable_positions.has(c) <==> interior_cell(c) && c != start_consumable()
                    && !foods@.contains(c) && !poisons@.contains(c),
            forall|c: ConsumablePosition| #[trigger]
                foods@.contains(c) ==> interior_cell(c) && c != start_consumable(),
            forall|c: ConsumablePosition| #[trigger]
                poisons@.contains(c) ==> interior_cell(c) && c != start_consumable()
                    && !foods@.contains(c),
        decreases AMOUNT_OF_POISON - i,
    {
        if let Some(pos) = free_consumable_positions.pop() {
            add_cell(&mut poisons, pos);
        } else {
            proof {
                assert(false);
            }
        }
        i = i + 1;
    }

    let mut segments: Vec<Position> = Vec::new();
    segments.push(start);

    let game = Game {
        segments: DiplopodSegments(segments),
        head: DiplopodHead { direction: Direction::none() },
        immunity_time: ImmunityTime(0),
        free_consumable_positions,
        last_tail_position: LastTailPosition(None),
        last_special_spawn: LastSpecialSpawn(0),
        foods,
        poisons,
        superfoods: Vec::new(),
        antidotes: Vec::new(),
        antidote_anchors: Vec::new(),
        walls,
        highscore: Highscore(highscore),
        lastscore: Lastscore(lastscore),
    };
    proof {
        assert(game.segments.0@ =~= seq![start_position()]);
        assert forall|c: ConsumablePosition| #[trigger]
            game.occupancy(c) == (if grid_cell(c) {
                1int
            } else {
                0int
            }) by {
            assert(!game.superfoods@.contains(c));
            assert(!game.antidote_anchors@.contains(c));
        }
    }
    game
}

} // verus!
