//! The session state machine and the per-tick simulation.

use bitter_boundaries::grid::Tile;
use bitter_boundaries::session::{Config, Feedback, GameSession, MenuInput, Phase};
use bitter_boundaries::tile_utility::TileCoordinates;

fn running_session(width: usize, height: usize) -> GameSession {
    let mut session = GameSession::new_session(width, height, Config::default());
    session.handle_input(MenuInput::StartGame);
    session
}

#[test]
fn growth_spends_the_cost_and_reapplies_the_classifier() {
    let mut s = running_session(2, 2);
    s.players_cash[0] = 1000;
    s.grid.set(0, 0, Tile { owner: 0, population: 0, improvement_level: 0, improvement_cost: 1000 });
    let fb = s.apply_tile_action(0, 0, 0);
    assert_eq!(fb, Some(Feedback::Click));
    assert_eq!(s.players_cash[0], 0);
    let grown = s.grid.get(0, 0);
    assert_eq!(grown.population, 100);
    assert_eq!(grown.improvement_level, 0); // 100 is not above the first threshold
    assert_eq!(grown.improvement_cost, 1000);
}

#[test]
fn growth_without_funds_is_refused_without_mutation() {
    let mut s = running_session(2, 2);
    let fb = s.apply_tile_action(0, 0, 0);
    assert_eq!(fb, Some(Feedback::Unable));
    assert_eq!(s.players_cash[0], 0);
    assert_eq!(s.grid.get(0, 0).population, 1);
}

#[test]
fn conquest_by_payment_flips_the_owner_and_charges_the_exact_price() {
    let mut s = running_session(2, 2);
    s.players_cash[0] = 5000;
    // (0, 1) is enemy-owned with population 1, below one population unit;
    // (0, 0) is an adjacent friendly tile.
    let fb = s.apply_tile_action(0, 0, 1);
    assert_eq!(fb, Some(Feedback::Change));
    let taken = s.grid.get(0, 1);
    assert_eq!(taken.owner, 0);
    assert_eq!(taken.population, 1); // a purchase moves no population
    assert_eq!(s.players_cash[0], 0);
}

#[test]
fn conquest_without_funds_is_refused_without_mutation() {
    let mut s = running_session(2, 2);
    s.players_cash[0] = 4999;
    let fb = s.apply_tile_action(0, 0, 1);
    assert_eq!(fb, Some(Feedback::Unable));
    assert_eq!(s.grid.get(0, 1).owner, 1);
    assert_eq!(s.players_cash[0], 4999);
}

#[test]
fn conquest_needs_an_adjacent_friendly_tile() {
    let mut s = running_session(3, 4);
    s.players_cash[0] = 100000;
    // Row 3 is two rows below the friendly half: no neighbor of (1, 3) is
    // friendly, so the action is a no-op.
    let fb = s.apply_tile_action(0, 1, 3);
    assert_eq!(fb, None);
    assert_eq!(s.grid.get(1, 3).owner, 1);
    assert_eq!(s.players_cash[0], 100000);
}

#[test]
fn attrition_wears_down_both_tiles_and_floors_at_zero() {
    let mut s = running_session(2, 2);
    // The enemy tile can resist: its population matches one population unit.
    s.grid.set(0, 1, Tile { owner: 1, population: 100, improvement_level: 0, improvement_cost: 1000 });
    let fb = s.apply_tile_action(0, 0, 1);
    assert_eq!(fb, None);
    let attacked = s.grid.get(0, 1);
    assert_eq!(attacked.owner, 1);
    assert_eq!(attacked.population, 0);
    assert_eq!(attacked.improvement_level, 0);
    assert_eq!(attacked.improvement_cost, 1000);
    // The nearest friendly tile (0, 0) had population 1: the transfer
    // floors it at zero instead of driving it negative.
    assert_eq!(s.grid.get(0, 0).population, 0);
}

#[test]
fn attrition_reclassifies_both_tiles() {
    let mut s = running_session(2, 2);
    s.grid.set(0, 0, Tile { owner: 0, population: 500, improvement_level: 1, improvement_cost: 2000 });
    s.grid.set(0, 1, Tile { owner: 1, population: 300, improvement_level: 1, improvement_cost: 2000 });
    // One population unit scaled past level 1 is 200; 300 can resist.
    let fb = s.apply_tile_action(0, 0, 1);
    assert_eq!(fb, None);
    let attacked = s.grid.get(0, 1);
    assert_eq!(attacked.population, 100);
    assert_eq!(attacked.improvement_level, 0);
    assert_eq!(attacked.improvement_cost, 1000);
    let friendly = s.grid.get(0, 0);
    assert_eq!(friendly.population, 300);
    assert_eq!(friendly.improvement_level, 1);
    assert_eq!(friendly.improvement_cost, 2000);
}

#[test]
fn a_tick_accrues_cash_for_every_faction_first() {
    let mut s = running_session(2, 2);
    // Each faction owns two tiles of population 1: aggregate level 0, so
    // each gains 4. The opponent then tries to grow its own tile (0, 1)
    // with only 4 cash: refused.
    let r = s.advance(None, TileCoordinates { x: 0, y: 1 });
    assert_eq!(s.players_cash, vec![4, 4]);
    assert_eq!(r.player_feedback, None);
    assert_eq!(r.opponent_feedback, Some(Feedback::Unable));
    assert_eq!(r.phase, Phase::Running);
}

#[test]
fn full_ownership_wins_on_the_next_tick() {
    let mut s = running_session(2, 2);
    for x in 0..2 {
        s.grid.set(x, 0, Tile { owner: 1, population: 1, improvement_level: 0, improvement_cost: 1000 });
    }
    assert!(s.grid.all_owned_by(1));
    let r = s.advance(None, TileCoordinates { x: 0, y: 0 });
    assert_eq!(r.phase, Phase::Won { winner: 1 });
    assert_eq!(s.phase, Phase::Won { winner: 1 });
    // The winning tick still accrued cash, then skipped both actions.
    assert_eq!(s.players_cash, vec![4, 4]);
    // Further ticks are ignored until the player acknowledges.
    let r2 = s.advance(Some(TileCoordinates { x: 0, y: 0 }), TileCoordinates { x: 1, y: 1 });
    assert_eq!(r2.phase, Phase::Won { winner: 1 });
    assert_eq!(s.players_cash, vec![4, 4]);
}

#[test]
fn phase_machine_ignores_inputs_in_the_wrong_phase() {
    let mut s = GameSession::new_session(2, 2, Config::default());
    assert_eq!(s.phase, Phase::Menu);
    // A tick in the menu does nothing.
    let r = s.advance(None, TileCoordinates { x: 0, y: 0 });
    assert_eq!(r.phase, Phase::Menu);
    assert_eq!(s.players_cash, vec![0, 0]);
    // Acknowledge only means something on the won screen.
    assert!(!s.handle_input(MenuInput::Acknowledge));
    assert_eq!(s.phase, Phase::Menu);
    // Exit from the menu raises the terminate signal and changes nothing.
    assert!(s.handle_input(MenuInput::ExitGame));
    assert_eq!(s.phase, Phase::Menu);
    assert!(!s.handle_input(MenuInput::StartGame));
    assert_eq!(s.phase, Phase::Running);
    // Exit while running is ignored.
    assert!(!s.handle_input(MenuInput::ExitGame));
    assert_eq!(s.phase, Phase::Running);
}

#[test]
fn acknowledging_a_win_returns_to_the_menu_and_start_resets() {
    let mut s = running_session(2, 2);
    s.players_cash[0] = 7777;
    for x in 0..2 {
        s.grid.set(x, 0, Tile { owner: 1, population: 1, improvement_level: 0, improvement_cost: 1000 });
    }
    s.advance(None, TileCoordinates { x: 0, y: 0 });
    assert_eq!(s.phase, Phase::Won { winner: 1 });
    assert!(!s.handle_input(MenuInput::Acknowledge));
    assert_eq!(s.phase, Phase::Menu);
    assert!(!s.handle_input(MenuInput::StartGame));
    assert_eq!(s.phase, Phase::Running);
    assert_eq!(s.players_cash, vec![0, 0]);
    let reset = s.grid.get(0, 0);
    assert_eq!(reset.owner, 0);
    assert_eq!(reset.population, 1);
    assert_eq!(reset.improvement_level, 0);
    assert_eq!(reset.improvement_cost, 1000);
}

fn drive(opponent_tiles: &[(usize, usize)], actions: &[Option<(usize, usize)>]) -> GameSession {
    let mut s = running_session(4, 4);
    s.players_cash[0] = 20000;
    for (k, t) in opponent_tiles.iter().enumerate() {
        let action = actions[k].map(|(x, y)| TileCoordinates { x, y });
        s.advance(action, TileCoordinates { x: t.0, y: t.1 });
    }
    s
}

#[test]
fn identical_inputs_give_bit_identical_runs() {
    let tiles = [(0, 0), (1, 2), (3, 3), (2, 1), (0, 3), (1, 1)];
    let actions = [None, Some((0, 0)), Some((0, 2)), None, Some((3, 0)), Some((0, 0))];
    let a = drive(&tiles, &actions);
    let b = drive(&tiles, &actions);
    assert_eq!(a.grid.tile_owned_by, b.grid.tile_owned_by);
    assert_eq!(a.grid.tile_population_number, b.grid.tile_population_number);
    assert_eq!(a.grid.tile_improvement_level, b.grid.tile_improvement_level);
    assert_eq!(a.grid.tile_improvement_cost, b.grid.tile_improvement_cost);
    assert_eq!(a.players_cash, b.players_cash);
    assert_eq!(a.phase, b.phase);
}

#[test]
fn headroom_check_accepts_fresh_games_and_spots_saturation() {
    let mut s = running_session(2, 2);
    assert!(s.has_tick_headroom());
    s.players_cash[0] = i32::MAX - 10;
    assert!(!s.has_tick_headroom());
    s.players_cash[0] = 0;
    assert!(s.has_tick_headroom());
    s.grid.set(
        1,
        1,
        Tile {
            owner: 1,
            population: i32::MAX - 100,
            improvement_level: 12,
            improvement_cost: 13000,
        },
    );
    assert!(!s.has_tick_headroom());
}

#[test]
fn random_opponent_tick_stays_on_the_board() {
    let mut s = running_session(2, 2);
    // With 4 cash nobody can afford anything and no tile can resist, so
    // whatever tile the generator picks, only the accrual shows.
    let r = s.tick(None);
    assert_eq!(r.phase, Phase::Running);
    assert_eq!(r.player_feedback, None);
    assert_eq!(r.opponent_feedback, Some(Feedback::Unable));
    assert_eq!(s.players_cash, vec![4, 4]);
    for x in 0..2 {
        for y in 0..2 {
            let tile = s.grid.get(x, y);
            assert_eq!(tile.population, 1);
            assert_eq!(tile.owner, if y < 1 { 0 } else { 1 });
        }
    }
}
