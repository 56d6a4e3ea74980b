//! Territory queries: adjacency, nearest friendly tile, the win scan, and
//! the grid's ownership iteration.

use bitter_boundaries::grid::{Tile, TileGrid};
use bitter_boundaries::tile_utility::{
    closest_player_settlement, has_adjacent_friendly_tile, is_player_wins, TileCoordinates,
};

fn coords(c: &TileCoordinates) -> (usize, usize) {
    (c.x, c.y)
}

#[test]
fn orthogonal_neighbor_beats_diagonal() {
    // 3x3 grid, all enemy except a diagonal and an orthogonal friend of the
    // center; the orthogonal one is closer by city-block distance.
    let mut owner = vec![vec![1; 3], vec![1; 3], vec![1; 3]];
    owner[0][0] = 0; // diagonal of (1, 1)
    owner[1][0] = 0; // orthogonal of (1, 1)
    let c = closest_player_settlement(&owner, 1, 1, 3, 3, 0).unwrap();
    assert_eq!(coords(&c), (1, 0));
}

#[test]
fn first_orthogonal_in_scan_order_wins_ties() {
    // Both (0, 1) and (1, 0) are orthogonal to the center; the row-major
    // scan of the window meets (0, 1) first.
    let mut owner = vec![vec![1; 3], vec![1; 3], vec![1; 3]];
    owner[0][1] = 0;
    owner[1][0] = 0;
    let c = closest_player_settlement(&owner, 1, 1, 3, 3, 0).unwrap();
    assert_eq!(coords(&c), (0, 1));
}

#[test]
fn diagonal_neighbor_found_when_no_orthogonal() {
    let mut owner = vec![vec![1; 3], vec![1; 3], vec![1; 3]];
    owner[0][0] = 0;
    owner[2][2] = 0;
    let c = closest_player_settlement(&owner, 1, 1, 3, 3, 0).unwrap();
    assert_eq!(coords(&c), (0, 0));
}

#[test]
fn window_is_clamped_at_the_corner() {
    // From the corner (0, 0), the cell (2, 2) is outside the 2x2 clamped
    // window: no neighbor qualifies.
    let mut owner = vec![vec![1; 3], vec![1; 3], vec![1; 3]];
    owner[2][2] = 0;
    assert!(closest_player_settlement(&owner, 0, 0, 3, 3, 0).is_none());
    assert!(!has_adjacent_friendly_tile(&owner, 0, 0, 3, 3, 0));
    // The corner's own diagonal neighbor does qualify.
    owner[1][1] = 0;
    let c = closest_player_settlement(&owner, 0, 0, 3, 3, 0).unwrap();
    assert_eq!(coords(&c), (1, 1));
    assert!(has_adjacent_friendly_tile(&owner, 0, 0, 3, 3, 0));
}

#[test]
fn window_is_clamped_at_an_edge() {
    // From the edge cell (1, 0) the window is 3x2: columns 0..=2, rows
    // 0..=1. A tile outside it is never chosen, an orthogonal neighbor
    // beats a diagonal one inside it.
    let mut owner = vec![vec![1; 3], vec![1; 3], vec![1; 3]];
    owner[1][2] = 0; // outside the clamped window
    assert!(closest_player_settlement(&owner, 1, 0, 3, 3, 0).is_none());
    owner[0][1] = 0; // diagonal neighbor
    owner[2][0] = 0; // orthogonal neighbor
    let c = closest_player_settlement(&owner, 1, 0, 3, 3, 0).unwrap();
    assert_eq!(coords(&c), (2, 0));
}

#[test]
fn queries_work_for_any_faction_id() {
    let mut owner = vec![vec![0; 3], vec![0; 3], vec![0; 3]];
    owner[1][0] = 7;
    assert!(has_adjacent_friendly_tile(&owner, 1, 1, 3, 3, 7));
    let c = closest_player_settlement(&owner, 1, 1, 3, 3, 7).unwrap();
    assert_eq!(coords(&c), (1, 0));
    assert!(!is_player_wins(&owner, 3, 3, 7));
}

#[test]
fn center_cell_is_not_its_own_neighbor() {
    // The clicked tile itself is friendly, but the neighborhood excludes
    // the center: no neighbor qualifies.
    let mut owner = vec![vec![1; 3], vec![1; 3], vec![1; 3]];
    owner[1][1] = 0;
    assert!(!has_adjacent_friendly_tile(&owner, 1, 1, 3, 3, 0));
    assert!(closest_player_settlement(&owner, 1, 1, 3, 3, 0).is_none());
}

#[test]
fn full_ownership_is_detected_for_the_owner_only() {
    let owner = vec![vec![0, 0], vec![0, 0]];
    assert!(is_player_wins(&owner, 2, 2, 0));
    assert!(!is_player_wins(&owner, 2, 2, 1));
}

#[test]
fn one_stray_tile_denies_the_win() {
    let mut owner = vec![vec![0, 0], vec![0, 0]];
    owner[1][1] = 1;
    assert!(!is_player_wins(&owner, 2, 2, 0));
    assert!(!is_player_wins(&owner, 2, 2, 1));
}

#[test]
fn empty_grid_is_vacuously_owned_by_everyone() {
    let owner: Vec<Vec<i32>> = Vec::new();
    assert!(is_player_wins(&owner, 0, 0, 0));
    assert!(is_player_wins(&owner, 0, 0, 1));
}

#[test]
fn fresh_grid_splits_ownership_by_half_columns() {
    let grid = TileGrid::new(3, 4, 1000);
    for x in 0..3 {
        for y in 0..4 {
            let tile = grid.get(x, y);
            assert_eq!(tile.owner, if y < 2 { 0 } else { 1 });
            assert_eq!(tile.population, 1);
            assert_eq!(tile.improvement_level, 0);
            assert_eq!(tile.improvement_cost, 1000);
        }
    }
}

#[test]
fn get_reads_back_what_set_wrote() {
    let mut grid = TileGrid::new(2, 2, 1000);
    let written = Tile { owner: 1, population: 250, improvement_level: 1, improvement_cost: 2000 };
    grid.set(0, 1, written);
    assert_eq!(grid.get(0, 1), written);
    // The other tiles are untouched.
    assert_eq!(grid.get(0, 0).population, 1);
    assert_eq!(grid.get(1, 1).owner, 1);
}

#[test]
fn owned_by_lists_owned_coordinates_in_scan_order() {
    let grid = TileGrid::new(2, 4, 1000);
    let player_tiles = grid.owned_by(0);
    let listed: Vec<(usize, usize)> = player_tiles.iter().map(coords).collect();
    assert_eq!(listed, vec![(0, 0), (0, 1), (1, 0), (1, 1)]);
    let opponent_tiles = grid.owned_by(1);
    let listed: Vec<(usize, usize)> = opponent_tiles.iter().map(coords).collect();
    assert_eq!(listed, vec![(0, 2), (0, 3), (1, 2), (1, 3)]);
    assert!(grid.owned_by(2).is_empty());
}

#[test]
fn grid_aggregates_match_the_free_functions() {
    let mut grid = TileGrid::new(2, 2, 1000);
    grid.set(1, 0, Tile { owner: 0, population: 500, improvement_level: 1, improvement_cost: 2000 });
    assert_eq!(grid.total_population(0), 501);
    assert_eq!(grid.total_population(1), 2);
    assert!(!grid.all_owned_by(0));
    grid.set(0, 1, Tile { owner: 0, population: 1, improvement_level: 0, improvement_cost: 1000 });
    grid.set(1, 1, Tile { owner: 0, population: 1, improvement_level: 0, improvement_cost: 1000 });
    assert!(grid.all_owned_by(0));
}
