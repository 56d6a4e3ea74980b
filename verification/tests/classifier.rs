//! Settlement classifier and population aggregation.

use bitter_boundaries::population_utility::{
    get_cash, get_level_of_settlement, get_total_population, get_type_of_settlement,
};

#[test]
fn level_boundaries_are_exact() {
    assert_eq!(get_level_of_settlement(100), 0);
    assert_eq!(get_level_of_settlement(101), 1);
    assert_eq!(get_level_of_settlement(10_000_000), 11);
    assert_eq!(get_level_of_settlement(10_000_001), 12);
}

#[test]
fn level_ladder_samples() {
    assert_eq!(get_level_of_settlement(0), 0);
    assert_eq!(get_level_of_settlement(500), 1);
    assert_eq!(get_level_of_settlement(501), 2);
    assert_eq!(get_level_of_settlement(1_000), 2);
    assert_eq!(get_level_of_settlement(1_001), 3);
    assert_eq!(get_level_of_settlement(2_001), 4);
    assert_eq!(get_level_of_settlement(5_001), 5);
    assert_eq!(get_level_of_settlement(10_000), 5);
    assert_eq!(get_level_of_settlement(10_001), 6);
    assert_eq!(get_level_of_settlement(20_001), 7);
    assert_eq!(get_level_of_settlement(50_001), 8);
    assert_eq!(get_level_of_settlement(100_001), 9);
    assert_eq!(get_level_of_settlement(500_001), 10);
    assert_eq!(get_level_of_settlement(1_000_001), 11);
    assert_eq!(get_level_of_settlement(i32::MAX), 12);
}

#[test]
fn level_is_monotone_on_samples() {
    let samples = [
        0, 1, 99, 100, 101, 500, 501, 1000, 1001, 2000, 2001, 5000, 5001, 10_000, 10_001, 20_000,
        20_001, 50_000, 50_001, 100_000, 100_001, 500_000, 500_001, 1_000_000, 1_000_001,
        10_000_000, 10_000_001, i32::MAX,
    ];
    let mut previous = get_level_of_settlement(samples[0]);
    for &p in &samples[1..] {
        let level = get_level_of_settlement(p);
        assert!(level >= previous);
        previous = level;
    }
}

#[test]
fn labels_follow_the_same_ladder() {
    assert_eq!(get_type_of_settlement(0), "hamlet");
    assert_eq!(get_type_of_settlement(100), "hamlet");
    assert_eq!(get_type_of_settlement(101), "little village");
    assert_eq!(get_type_of_settlement(501), "small village");
    assert_eq!(get_type_of_settlement(1_001), "village");
    assert_eq!(get_type_of_settlement(2_001), "large village");
    assert_eq!(get_type_of_settlement(5_001), "giant village");
    assert_eq!(get_type_of_settlement(10_001), "little town");
    assert_eq!(get_type_of_settlement(20_001), "town");
    assert_eq!(get_type_of_settlement(50_001), "big town");
    assert_eq!(get_type_of_settlement(100_001), "city");
    assert_eq!(get_type_of_settlement(500_001), "great city");
    assert_eq!(get_type_of_settlement(1_000_001), "metropolis");
    assert_eq!(get_type_of_settlement(10_000_001), "megapolis");
}

#[test]
fn cash_gain_follows_the_level() {
    assert_eq!(get_cash(0), 4);
    assert_eq!(get_cash(101), 8);
    assert_eq!(get_cash(1_001), 16);
    assert_eq!(get_cash(10_000_001), 52);
}

#[test]
fn total_population_sums_owned_tiles_only() {
    let population = vec![vec![1, 2], vec![3, 4]];
    let owner = vec![vec![0, 1], vec![0, 0]];
    assert_eq!(get_total_population(0, &population, &owner, 2, 2), 8);
    assert_eq!(get_total_population(1, &population, &owner, 2, 2), 2);
    assert_eq!(get_total_population(2, &population, &owner, 2, 2), 0);
}

#[test]
fn total_population_of_empty_grid_is_zero() {
    let population: Vec<Vec<i32>> = Vec::new();
    let owner: Vec<Vec<i32>> = Vec::new();
    assert_eq!(get_total_population(0, &population, &owner, 0, 0), 0);
}
