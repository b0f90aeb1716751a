use diplopod::antidote::move_antidote;
use diplopod::components::{ConsumablePosition, DiplopodHead, Direction, Position};
use diplopod::control::{limit_immunity, set_direction, tick};
use diplopod::eat::eat;
use diplopod::events::SpawnConsumables;
use diplopod::game::Game;
use diplopod::movement::movement;
use diplopod::resources::{DiplopodSegments, FreeConsumablePositions, Highscore, ImmunityTime,
    LastSpecialSpawn, LastTailPosition, Lastscore};
use diplopod::spawner::spawn_consumables;
use rand::RngExt;

/// A well-formed round with no transient items: the wall border, the
/// one-segment chain at the arena center, and every other interior
/// cell free.
fn empty_game() -> Game {
    let mut walls = Vec::new();
    for x in 0..41 {
        walls.push(ConsumablePosition { x, y: 0 });
        walls.push(ConsumablePosition { x, y: 22 });
    }
    for y in 1..22 {
        walls.push(ConsumablePosition { x: 0, y });
        walls.push(ConsumablePosition { x: 40, y });
    }
    let start_coarse = ConsumablePosition { x: 20, y: 11 };
    let mut positions = Vec::new();
    for x in 1..40 {
        for y in 1..22 {
            let c = ConsumablePosition { x, y };
            if c != start_coarse {
                positions.push(c);
            }
        }
    }
    Game {
        segments: DiplopodSegments(vec![Position { x: 41, y: 23 }]),
        head: DiplopodHead { direction: Direction { x: 0, y: 0 } },
        immunity_time: ImmunityTime(0),
        free_consumable_positions: FreeConsumablePositions { positions },
        last_tail_position: LastTailPosition(None),
        last_special_spawn: LastSpecialSpawn(0),
        foods: Vec::new(),
        poisons: Vec::new(),
        superfoods: Vec::new(),
        antidotes: Vec::new(),
        antidote_anchors: Vec::new(),
        walls,
        highscore: Highscore(0),
        lastscore: Lastscore(0),
    }
}

/// Places an item cell by taking it out of the free pool.
fn claim_cell(game: &mut Game, c: ConsumablePosition) {
    assert!(game.free_consumable_positions.positions.contains(&c));
    game.free_consumable_positions.remove(&c);
}

#[test]
fn fine_to_coarse_conversion_divides_by_the_scale_factor() {
    let p = Position { x: 5, y: 7 };
    let c = p.to_consumable_position();
    assert_eq!(c, ConsumablePosition { x: 2, y: 3 });
}

#[test]
fn new_round_places_the_whole_arena() {
    let game = Game::new();
    assert_eq!(game.segments.0.len(), 1);
    assert_eq!(game.segments.0[0], Position { x: 41, y: 23 });
    assert_eq!(game.walls.len(), 124);
    assert_eq!(game.foods.len(), 16);
    assert_eq!(game.poisons.len(), 17);
    assert!(game.superfoods.is_empty());
    assert!(game.antidotes.is_empty());
    // 41 * 23 cells minus 124 walls minus the start cell minus 33 items.
    assert_eq!(game.free_consumable_positions.positions.len(), 785);
}

#[test]
fn new_round_has_no_duplicate_occupancy() {
    // The pool, the items, the walls and the start cell partition the
    // whole coarse grid: every cell is claimed exactly once.
    let game = Game::new();
    let start_coarse = ConsumablePosition { x: 20, y: 11 };
    for x in 0..41 {
        for y in 0..23 {
            let c = ConsumablePosition { x, y };
            let claims = game.free_consumable_positions.positions.iter().filter(|p| **p == c).count()
                + game.foods.iter().filter(|p| **p == c).count()
                + game.poisons.iter().filter(|p| **p == c).count()
                + game.walls.iter().filter(|p| **p == c).count()
                + if c == start_coarse { 1 } else { 0 };
            assert_eq!(claims, 1, "cell ({x}, {y}) is claimed {claims} times");
        }
    }
}

#[test]
fn movement_advances_the_head_and_shifts_the_body() {
    let mut game = empty_game();
    game.segments.0 = vec![
        Position { x: 41, y: 23 },
        Position { x: 40, y: 23 },
        Position { x: 39, y: 23 },
    ];
    game.head.direction = Direction { x: 1, y: 0 };
    let collided = movement(&mut game);
    assert!(!collided);
    assert_eq!(
        game.segments.0,
        vec![
            Position { x: 42, y: 23 },
            Position { x: 41, y: 23 },
            Position { x: 40, y: 23 },
        ]
    );
    assert_eq!(game.last_tail_position.0, Some(Position { x: 39, y: 23 }));
}

#[test]
fn movement_applies_diagonal_steps_on_both_axes() {
    let mut game = empty_game();
    game.head.direction = Direction { x: 1, y: -1 };
    let collided = movement(&mut game);
    assert!(!collided);
    assert_eq!(game.segments.0[0], Position { x: 42, y: 22 });
}

#[test]
fn single_segment_chain_never_collides_with_itself() {
    for (dx, dy) in [(1, 0), (-1, 0), (0, 1), (0, -1), (1, 1), (1, -1), (-1, 1), (-1, -1)] {
        let mut game = empty_game();
        game.head.direction = Direction { x: dx, y: dy };
        assert!(!movement(&mut game), "direction ({dx}, {dy}) signalled a collision");
    }
}

#[test]
fn moving_into_the_second_segment_collides() {
    let mut game = empty_game();
    game.segments.0 = vec![Position { x: 41, y: 23 }, Position { x: 40, y: 23 }];
    game.head.direction = Direction { x: -1, y: 0 };
    assert!(movement(&mut game));
}

#[test]
fn moving_into_the_vacating_tail_cell_still_collides() {
    // The rule judges against the pre-movement snapshot, the tail
    // included.
    let mut game = empty_game();
    game.segments.0 = vec![
        Position { x: 41, y: 23 },
        Position { x: 41, y: 24 },
        Position { x: 42, y: 24 },
        Position { x: 42, y: 23 },
    ];
    game.head.direction = Direction { x: 1, y: 0 };
    assert!(movement(&mut game));
}

#[test]
fn stationary_chain_does_not_collide() {
    let mut game = empty_game();
    let collided = movement(&mut game);
    assert!(!collided);
    assert_eq!(game.segments.0[0], Position { x: 41, y: 23 });
}

#[test]
fn eating_food_grows_the_chain_by_exactly_one() {
    let mut game = empty_game();
    let cell = ConsumablePosition { x: 21, y: 11 };
    claim_cell(&mut game, cell);
    game.foods.push(cell);
    game.head.direction = Direction { x: 1, y: 0 };
    let out = tick(&mut game);
    assert!(out.eat.ate_food);
    assert_eq!(out.eat.growth, 1);
    assert!(!out.game_over);
    assert_eq!(game.segments.0.len(), 2);
    // The new segment sits on the tail's pre-movement cell of this
    // same tick: the single segment's old cell.
    assert_eq!(game.segments.0[1], Position { x: 41, y: 23 });
    let spawn = out.spawn.expect("a consumption requests a spawn");
    assert!(out.eat.spawn == Some(SpawnConsumables { regular: true, new_segments: 1 }));
    assert!(!spawn.special);
    // The eaten food despawned and a replacement food and poison were
    // placed on free cells.
    let new_food = spawn.spawned_food.expect("the pool had free cells");
    let new_poison = spawn.spawned_poison.expect("the pool had free cells");
    assert_eq!(game.foods, vec![new_food]);
    assert_eq!(game.poisons, vec![new_poison]);
    // The eaten cell went back to the pool, unless a replacement item
    // drew it again right away.
    assert!(
        game.free_consumable_positions.positions.contains(&cell)
            || new_food == cell
            || new_poison == cell
    );
}

#[test]
fn eating_superfood_grows_by_a_bounded_random_amount() {
    let mut game = empty_game();
    let cell = ConsumablePosition { x: 21, y: 11 };
    claim_cell(&mut game, cell);
    game.superfoods.push(cell);
    game.head.direction = Direction { x: 1, y: 0 };
    let out = tick(&mut game);
    assert!(out.eat.ate_superfood);
    assert!(2 <= out.eat.growth && out.eat.growth < 10);
    assert_eq!(game.segments.0.len(), 1 + out.eat.growth as usize);
    let message = out.eat.message.expect("a superfood announces its growth");
    assert_eq!(message.new_segments, out.eat.growth);
    assert_eq!(message.position, cell);
}

#[test]
fn poison_with_zero_immunity_is_always_fatal() {
    let mut game = empty_game();
    let cell = ConsumablePosition { x: 21, y: 11 };
    claim_cell(&mut game, cell);
    game.poisons.push(cell);
    game.head.direction = Direction { x: 1, y: 0 };
    game.immunity_time = ImmunityTime(0);
    let out = tick(&mut game);
    assert!(out.game_over);
    assert!(out.eat.game_over);
    assert!(!out.eat.ate_poison);
    assert_eq!(game.poisons.len(), 1);
}

#[test]
fn poison_with_any_immunity_left_is_survivable_and_grows() {
    let mut game = empty_game();
    let cell = ConsumablePosition { x: 21, y: 11 };
    claim_cell(&mut game, cell);
    game.poisons.push(cell);
    game.head.direction = Direction { x: 1, y: 0 };
    game.immunity_time = ImmunityTime(1);
    let out = tick(&mut game);
    assert!(!out.game_over);
    assert!(out.eat.ate_poison);
    assert_eq!(out.eat.growth, 1);
    assert_eq!(game.segments.0.len(), 2);
    assert!(game.poisons.is_empty());
    assert!(game.free_consumable_positions.positions.contains(&cell));
}

#[test]
fn antidote_pickups_stack_their_bonus() {
    let mut game = empty_game();
    let first = ConsumablePosition { x: 20, y: 11 };
    game.antidotes.push(first);
    game.antidote_anchors.push(first);
    let out = eat(&mut game, 2);
    assert!(out.ate_antidote);
    assert_eq!(game.immunity_time.0, 10);
    // A second pickup before the countdown expires adds on top.
    let again = ConsumablePosition { x: 20, y: 11 };
    claim_cell(&mut game, ConsumablePosition { x: 19, y: 11 });
    game.antidotes.push(again);
    game.antidote_anchors.push(ConsumablePosition { x: 19, y: 11 });
    let out = eat(&mut game, 2);
    assert!(out.ate_antidote);
    assert_eq!(game.immunity_time.0, 20);
}

#[test]
fn hitting_the_wall_ends_the_round() {
    let mut game = empty_game();
    // Walk the head to the fine cell whose coarse cell is the left
    // border.
    game.segments.0 = vec![Position { x: 2, y: 23 }];
    game.head.direction = Direction { x: -1, y: 0 };
    let out = tick(&mut game);
    assert!(out.game_over);
    assert!(out.eat.game_over);
}

#[test]
fn special_spawn_triggers_once_when_crossing_a_milestone() {
    let mut game = empty_game();
    while game.segments.0.len() < 15 {
        game.segments.0.push(Position { x: 41, y: 23 });
    }
    // One superfood pickup takes the chain from 15 to 17: one batch,
    // and the counter records the milestone 16.
    let out = spawn_consumables(&mut game, SpawnConsumables { regular: false, new_segments: 2 });
    assert!(out.special);
    assert_eq!(game.last_special_spawn.0, 16);
    assert_eq!(game.superfoods.len(), 1);
    assert!(out.spawned_antidote.is_none(), "16 is not a multiple of 32");

    // Growing to 31 stays inside the interval: no batch.
    while game.segments.0.len() < 31 {
        game.segments.0.push(Position { x: 41, y: 23 });
    }
    let out = spawn_consumables(&mut game, SpawnConsumables { regular: false, new_segments: 0 });
    assert!(!out.special);
    assert_eq!(game.last_special_spawn.0, 16);

    // Growing to 33 crosses the next milestone: the counter records
    // 32, and this batch also replaces the antidote.
    let out = spawn_consumables(&mut game, SpawnConsumables { regular: false, new_segments: 2 });
    assert!(out.special);
    assert_eq!(game.last_special_spawn.0, 32);
    assert_eq!(game.superfoods.len(), 1);
    assert_eq!(game.antidotes.len(), 1);
    assert_eq!(game.antidote_anchors, game.antidotes);
}

#[test]
fn special_spawn_returns_the_replaced_superfood_cell() {
    let mut game = empty_game();
    let old_cell = ConsumablePosition { x: 5, y: 5 };
    claim_cell(&mut game, old_cell);
    game.superfoods.push(old_cell);
    while game.segments.0.len() < 20 {
        game.segments.0.push(Position { x: 41, y: 23 });
    }
    let out = spawn_consumables(&mut game, SpawnConsumables { regular: false, new_segments: 0 });
    assert!(out.special);
    assert!(game.free_consumable_positions.positions.contains(&old_cell));
    assert_eq!(game.superfoods.len(), 1);
    assert_ne!(game.superfoods[0], old_cell);
}

#[test]
fn exhausted_pool_skips_the_spawn_silently() {
    let mut game = empty_game();
    game.free_consumable_positions = FreeConsumablePositions { positions: Vec::new() };
    let out = spawn_consumables(&mut game, SpawnConsumables { regular: true, new_segments: 1 });
    assert!(out.spawned_food.is_none());
    assert!(out.spawned_poison.is_none());
    assert!(game.foods.is_empty());
    assert!(game.poisons.is_empty());
}

#[test]
fn antidote_roams_one_step_inside_the_walls_and_off_the_chain() {
    let mut game = empty_game();
    let cell = ConsumablePosition { x: 21, y: 11 };
    claim_cell(&mut game, cell);
    game.antidotes.push(cell);
    game.antidote_anchors.push(cell);
    for _ in 0..50 {
        let before = game.antidotes[0];
        move_antidote(&mut game);
        let after = game.antidotes[0];
        let dx = (after.x - before.x).abs();
        let dy = (after.y - before.y).abs();
        assert!(dx + dy <= 1, "moved more than one step");
        assert!(1 <= after.x && after.x <= 39);
        assert!(1 <= after.y && after.y <= 21);
        for segment in &game.segments.0 {
            assert_ne!(segment.to_consumable_position(), after);
        }
        // The anchor that the pool accounting charges never moves.
        assert_eq!(game.antidote_anchors[0], cell);
    }
}

#[test]
fn immunity_counts_down_to_zero_and_stops() {
    let mut game = empty_game();
    game.immunity_time = ImmunityTime(2);
    limit_immunity(&mut game);
    assert_eq!(game.immunity_time.0, 1);
    limit_immunity(&mut game);
    assert_eq!(game.immunity_time.0, 0);
    limit_immunity(&mut game);
    assert_eq!(game.immunity_time.0, 0);
}

#[test]
fn direction_buffer_keeps_the_last_nonzero_request() {
    let mut game = empty_game();
    set_direction(&mut game, Direction { x: 1, y: 0 });
    assert_eq!(game.head.direction, Direction { x: 1, y: 0 });
    set_direction(&mut game, Direction { x: 0, y: 0 });
    assert_eq!(game.head.direction, Direction { x: 1, y: 0 });
    set_direction(&mut game, Direction { x: 0, y: -1 });
    assert_eq!(game.head.direction, Direction { x: 0, y: -1 });
}

#[test]
fn game_over_scores_and_resets_the_round() {
    let mut game = Game::new();
    while game.segments.0.len() < 7 {
        game.segments.0.push(Position { x: 41, y: 23 });
    }
    game.game_over();
    assert_eq!(game.lastscore.0, 7);
    assert_eq!(game.highscore.0, 7);
    assert_eq!(game.segments.0.len(), 1);
    assert_eq!(game.immunity_time.0, 0);
    assert_eq!(game.last_special_spawn.0, 0);
    // The rebuilt pool partitions the grid again: 41 * 23 cells minus
    // the walls, the start cell and the fresh items.
    assert_eq!(game.free_consumable_positions.positions.len(), 785);
    assert_eq!(
        game.free_consumable_positions.positions.len() + game.foods.len() + game.poisons.len() + 1,
        943 - 124
    );
    // A lower score leaves the session highscore alone.
    while game.segments.0.len() < 3 {
        game.segments.0.push(Position { x: 41, y: 23 });
    }
    game.game_over();
    assert_eq!(game.lastscore.0, 3);
    assert_eq!(game.highscore.0, 7);
}

#[test]
fn self_collision_mid_round_reports_game_over() {
    let mut game = empty_game();
    game.segments.0 = vec![
        Position { x: 41, y: 23 },
        Position { x: 40, y: 23 },
        Position { x: 39, y: 23 },
    ];
    game.head.direction = Direction { x: -1, y: 0 };
    let out = tick(&mut game);
    assert!(out.collided);
    assert!(out.game_over);
}

/// Counts how many components claim each coarse cell and demands the
/// partition: pool, items (an antidote through its anchor), walls and
/// the start cell cover the grid exactly once.
fn assert_partition(game: &Game) {
    let start_coarse = ConsumablePosition { x: 20, y: 11 };
    for x in 0..41 {
        for y in 0..23 {
            let c = ConsumablePosition { x, y };
            let claims = game.free_consumable_positions.positions.iter().filter(|p| **p == c).count()
                + game.foods.iter().filter(|p| **p == c).count()
                + game.poisons.iter().filter(|p| **p == c).count()
                + game.superfoods.iter().filter(|p| **p == c).count()
                + game.antidote_anchors.iter().filter(|p| **p == c).count()
                + game.walls.iter().filter(|p| **p == c).count()
                + if c == start_coarse { 1 } else { 0 };
            assert_eq!(claims, 1, "cell ({x}, {y}) is claimed {claims} times");
        }
    }
}

#[test]
fn partition_survives_hundreds_of_random_ticks() {
    let mut rng = rand::rng();
    let mut game = Game::new();
    for step in 0u32..400 {
        let direction = Direction {
            x: rng.random_range(-1..2),
            y: rng.random_range(-1..2),
        };
        set_direction(&mut game, direction);
        let out = tick(&mut game);
        if out.game_over {
            game.game_over();
        }
        if step % 5 == 0 {
            move_antidote(&mut game);
        }
        if step % 11 == 0 {
            limit_immunity(&mut game);
        }
        if step % 20 == 0 {
            assert_partition(&game);
        }
    }
    assert_partition(&game);
}
