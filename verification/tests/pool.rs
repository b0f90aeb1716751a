use diplopod::components::ConsumablePosition;
use diplopod::highscore::{format_highscore, parse_highscore};
use diplopod::resources::FreeConsumablePositions;

#[test]
fn new_pool_holds_every_cell_exactly_once() {
    let pool = FreeConsumablePositions::new(3, 2);
    assert_eq!(pool.positions.len(), 6);
    for x in 0..3 {
        for y in 0..2 {
            let c = ConsumablePosition { x, y };
            let count = pool.positions.iter().filter(|p| **p == c).count();
            assert_eq!(count, 1);
        }
    }
}

#[test]
fn full_grid_pool_survives_shuffling_intact() {
    // The shuffle behind `new` must only rearrange cells: the full
    // 41 x 23 grid comes back complete and duplicate-free.
    let pool = FreeConsumablePositions::new(41, 23);
    assert_eq!(pool.positions.len(), 943);
    for x in 0..41 {
        for y in 0..23 {
            let c = ConsumablePosition { x, y };
            assert_eq!(pool.positions.iter().filter(|p| **p == c).count(), 1);
        }
    }
}

#[test]
fn remove_drops_exactly_the_given_cell() {
    let mut pool = FreeConsumablePositions::new(4, 4);
    let c = ConsumablePosition { x: 2, y: 3 };
    pool.remove(&c);
    assert_eq!(pool.positions.len(), 15);
    assert!(!pool.positions.contains(&c));
    pool.remove(&c);
    assert_eq!(pool.positions.len(), 15);
}

#[test]
fn remove_all_drops_each_listed_cell() {
    let mut pool = FreeConsumablePositions::new(4, 4);
    let listed = vec![
        ConsumablePosition { x: 0, y: 0 },
        ConsumablePosition { x: 1, y: 2 },
        ConsumablePosition { x: 3, y: 3 },
    ];
    pool.remove_all(&listed);
    assert_eq!(pool.positions.len(), 13);
    for c in &listed {
        assert!(!pool.positions.contains(c));
    }
}

#[test]
fn pop_hands_out_a_free_cell_until_exhausted() {
    let mut pool = FreeConsumablePositions::new(2, 2);
    let mut seen = Vec::new();
    for _ in 0..4 {
        let c = pool.pop().expect("four cells were free");
        assert!(!seen.contains(&c));
        seen.push(c);
    }
    assert_eq!(pool.pop(), None);
}

#[test]
fn push_returns_a_cell_to_the_pool() {
    let mut pool = FreeConsumablePositions::new(2, 2);
    let c = pool.pop().expect("a cell was free");
    assert_eq!(pool.positions.len(), 3);
    pool.push(c);
    assert_eq!(pool.positions.len(), 4);
    assert!(pool.positions.contains(&c));
}

#[test]
fn candidates_copy_the_pool_without_sharing() {
    let mut pool = FreeConsumablePositions::new(3, 3);
    let mut candidates = pool.candidates();
    assert_eq!(candidates.positions, pool.positions);
    candidates.pop();
    assert_eq!(pool.positions.len(), 9);
}

#[test]
fn reset_rebuilds_the_full_grid() {
    let mut pool = FreeConsumablePositions::new(3, 3);
    pool.pop();
    pool.pop();
    pool.reset(3, 3);
    assert_eq!(pool.positions.len(), 9);
}

#[test]
fn highscore_bytes_parse_exactly_when_they_are_a_score() {
    assert_eq!(parse_highscore(b"0"), Some(0));
    assert_eq!(parse_highscore(b"123"), Some(123));
    assert_eq!(parse_highscore(b"65535"), Some(65535));
    assert_eq!(parse_highscore(b"65536"), None);
    assert_eq!(parse_highscore(b""), None);
    assert_eq!(parse_highscore(b"12a"), None);
    assert_eq!(parse_highscore(b"123\n"), None);
    assert_eq!(parse_highscore(b"-1"), None);
}

#[test]
fn highscore_round_trips_through_its_file_bytes() {
    for v in [0u16, 1, 9, 10, 507, 9999, 65535] {
        let bytes = format_highscore(v);
        assert_eq!(parse_highscore(&bytes), Some(v));
    }
    assert_eq!(format_highscore(507), b"507".to_vec());
    assert_eq!(format_highscore(0), b"0".to_vec());
}
