//! The game session and its per-tick simulation.
//!
//! One tick runs in a fixed order: cash accrual for every faction, the win
//! check, the player's tile action, the scripted opponent's tile action.
//! The whole tick is a pure function of the starting state and of the two
//! tile choices handed in — `tick_spec` below is that function, and
//! `advance` is proved to compute exactly it. The opponent's tile is drawn
//! at random only in `tick`, which then defers to `advance`.

use vstd::prelude::*;

use crate::grid::{
    all_owned, cell_owned, const_plane, grid_inv, rows, split_owner_plane, upd, GridView, TileGrid,
};
use crate::population_utility::{cash_gain_of, level_of, total_population_of};
use crate::rng::random_below;
use crate::tile_utility::{adjacent_friendly, nearest_friendly, TileCoordinates};

verus! {

/// Number of factions in a session: the player (faction 0) and the
/// scripted opponent (faction 1).
pub const FACTION_COUNT: usize = 2;

/// Default grid width of the shipped game.
pub const GAME_AREA_WIDTH: usize = 8;

/// Default grid height of the shipped game.
pub const GAME_AREA_HEIGHT: usize = 4;

/// Default cash price of taking over an enemy tile.
pub const TILE_OWNER_CHANGE_PRICE: i32 = 5000;

/// Default base cost of a growth action; the real cost scales with the
/// tile's level.
pub const TILE_IMPROVEMENT_BASE_COST: i32 = 1000;

/// Default population unit moved by growth and attrition; the real amount
/// scales with the tile's level.
pub const TILE_POPULATION_CHANGE_BASE: i32 = 100;

/// Upper bound accepted for the configurable cost and population units,
/// chosen so that a unit scaled by any settlement level fits an `i32` with
/// room to spare.
pub const COST_PARAM_LIMIT: i32 = 1000000;

/// Upper bound accepted for each grid dimension, so that any coordinate
/// fits an `i32`.
pub const GRID_SIDE_LIMIT: usize = 2147483647;

/// The tunable economy constants of a session.
#[derive(Clone, Copy, Debug, PartialEq, Eq, Structural)]
pub struct Config {
    /// Base cost of a growth action.
    pub tile_improvement_base_cost: i32,
    /// Base population amount moved by growth and attrition.
    pub tile_population_change_base: i32,
    /// Cash price of taking over an enemy tile.
    pub tile_owner_change_price: i32,
}

/// The config values are non-negative and small enough that scaling them
/// by a settlement level can never overflow.
pub open spec fn config_wf(c: Config) -> bool {
    &&& 0 <= c.tile_improvement_base_cost <= COST_PARAM_LIMIT
    &&& 0 <= c.tile_population_change_base <= COST_PARAM_LIMIT
    &&& 0 <= c.tile_owner_change_price
}

/// The constants of the shipped game.
pub open spec fn standard_config() -> Config {
    Config {
        tile_improvement_base_cost: TILE_IMPROVEMENT_BASE_COST,
        tile_population_change_base: TILE_POPULATION_CHANGE_BASE,
        tile_owner_change_price: TILE_OWNER_CHANGE_PRICE,
    }
}

impl Default for Config {
    /// The constants of the shipped game.
    fn default() -> (c: Config)
        ensures
            c == standard_config(),
            config_wf(c),
    {
        Config {
            tile_improvement_base_cost: TILE_IMPROVEMENT_BASE_COST,
            tile_population_change_base: TILE_POPULATION_CHANGE_BASE,
            tile_owner_change_price: TILE_OWNER_CHANGE_PRICE,
        }
    }
}

/// Where a session stands: choosing in the menu, playing, or done.
#[derive(Clone, Copy, Debug, PartialEq, Eq, Structural)]
pub enum Phase {
    /// The menu is shown; no simulation runs.
    Menu,
    /// The game is being played; ticks advance the grid.
    Running,
    /// A faction owns the whole grid; ticks are ignored until the player
    /// acknowledges.
    Won { winner: i32 },
}

/// The audible feedback a tile action asks the presentation layer for.
#[derive(Clone, Copy, Debug, PartialEq, Eq, Structural)]
pub enum Feedback {
    /// A growth action went through.
    Click,
    /// A tile changed owner.
    Change,
    /// The acting faction could not afford the action.
    Unable,
}

/// A menu-level input: anything a session reacts to besides tile clicks
/// and the tick itself.
#[derive(Clone, Copy, Debug, PartialEq, Eq, Structural)]
pub enum MenuInput {
    /// From the menu: begin a fresh game.
    StartGame,
    /// From the menu: ask the host to terminate.
    ExitGame,
    /// From the won screen: back to the menu.
    Acknowledge,
}

/// What one tick reports back to the caller.
#[derive(Clone, Copy, Debug)]
pub struct TickResult {
    /// Feedback from the player's tile action, if one was applied.
    pub player_feedback: Option<Feedback>,
    /// Feedback from the opponent's tile action, if one was applied.
    pub opponent_feedback: Option<Feedback>,
    /// The session's phase after the tick.
    pub phase: Phase,
}

/// Abstract outcome of one tile action: the grid, the cash ledger, and the
/// feedback it produced.
#[verifier::ext_equal]
pub struct ActionOutcome {
    pub grid: GridView,
    pub cash: Seq<i32>,
    pub feedback: Option<Feedback>,
}

/// Abstract outcome of one whole tick.
#[verifier::ext_equal]
pub struct TickOutcome {
    pub grid: GridView,
    pub cash: Seq<i32>,
    pub phase: Phase,
    pub player_feedback: Option<Feedback>,
    pub opponent_feedback: Option<Feedback>,
}

/// One tile action by `f` at `(x, y)`, exactly as a tick applies it.
///
/// On a friendly tile the action is growth: if the faction's cash covers
/// the tile's improvement cost, the cost is deducted, the population grows
/// by the population unit scaled past the current level, and level and
/// cost are re-derived; otherwise nothing changes and the feedback is
/// `Unable`.
///
/// On an enemy tile the action is conquest, possible only next to a
/// friendly tile. A tile populous enough to resist (at least the
/// population unit scaled past its level) is worn down by attrition: that
/// amount leaves both the tile and the nearest friendly tile (never
/// dropping a population below zero), and the attacked tile's level and
/// cost are re-derived, as are the friendly tile's. A weaker tile is
/// bought outright if the cash covers the owner-change price; with
/// insufficient cash the feedback is `Unable`. Without an adjacent
/// friendly tile the action is a no-op.
pub open spec fn action_spec(
    g: GridView,
    cash: Seq<i32>,
    f: i32,
    x: int,
    y: int,
    cfg: Config,
) -> ActionOutcome {
    if g.owner[x][y] == f {
        if cash[f as int] >= g.cost[x][y] {
            let increase = cfg.tile_population_change_base * (g.level[x][y] + 1);
            let new_pop = (g.population[x][y] + increase) as i32;
            let new_level = level_of(new_pop as int) as i32;
            let new_cost = (cfg.tile_improvement_base_cost * (new_level + 1)) as i32;
            ActionOutcome {
                grid: GridView {
                    width: g.width,
                    height: g.height,
                    owner: g.owner,
                    population: upd(g.population, x, y, new_pop),
                    level: upd(g.level, x, y, new_level),
                    cost: upd(g.cost, x, y, new_cost),
                },
                cash: cash.update(f as int, (cash[f as int] - g.cost[x][y]) as i32),
                feedback: Some(Feedback::Click),
            }
        } else {
            ActionOutcome { grid: g, cash, feedback: Some(Feedback::Unable) }
        }
    } else {
        if adjacent_friendly(g.owner, g.width, g.height, f, x, y) {
            let need = cfg.tile_population_change_base * (g.level[x][y] + 1);
            if g.population[x][y] >= need {
                match nearest_friendly(g.owner, g.width, g.height, f, x, y) {
                    Some(n) => {
                        let this_pop = (g.population[x][y] - need) as i32;
                        let this_level = level_of(this_pop as int) as i32;
                        let this_cost = (cfg.tile_improvement_base_cost * (this_level + 1)) as i32;
                        let friend_left = g.population[n.0][n.1] - need;
                        let friend_pop = (if friend_left < 0 {
                            0
                        } else {
                            friend_left
                        }) as i32;
                        let friend_level = level_of(friend_pop as int) as i32;
                        let friend_cost = (cfg.tile_improvement_base_cost * (friend_level
                            + 1)) as i32;
                        ActionOutcome {
                            grid: GridView {
                                width: g.width,
                                height: g.height,
                                owner: g.owner,
                                population: upd(
                                    upd(g.population, x, y, this_pop),
                                    n.0,
                                    n.1,
                                    friend_pop,
                                ),
                                level: upd(upd(g.level, x, y, this_level), n.0, n.1, friend_level),
                                cost: upd(upd(g.cost, x, y, this_cost), n.0, n.1, friend_cost),
                            },
                            cash,
                            feedback: None,
                        }
                    },
                    None => ActionOutcome { grid: g, cash, feedback: None },
                }
            } else if cash[f as int] >= cfg.tile_owner_change_price {
                ActionOutcome {
                    grid: GridView {
                        width: g.width,
                        height: g.height,
                        owner: upd(g.owner, x, y, f),
                        population: g.population,
                        level: g.level,
                        cost: g.cost,
                    },
                    cash: cash.update(
                        f as int,
                        (cash[f as int] - cfg.tile_owner_change_price) as i32,
                    ),
                    feedback: Some(Feedback::Change),
                }
            } else {
                ActionOutcome { grid: g, cash, feedback: Some(Feedback::Unable) }
            }
        } else {
            ActionOutcome { grid: g, cash, feedback: None }
        }
    }
}

/// The cash ledger after one accrual step: every faction gains the cash
/// yield of its total population.
pub open spec fn accrue_spec(g: GridView, cash: Seq<i32>) -> Seq<i32> {
    Seq::new(
        cash.len(),
        |f: int| (cash[f] + cash_gain_of(
            total_population_of(g.population, g.owner, f as i32, g.width, g.height),
        )) as i32,
    )
}

/// The first faction at or above `f` that owns the whole grid, if any.
pub open spec fn winner_from(g: GridView, nfactions: int, f: int) -> Option<i32>
    decreases nfactions - f,
{
    if f < 0 || f >= nfactions {
        None
    } else if all_owned(g.owner, g.width, g.height, f as i32) {
        Some(f as i32)
    } else {
        winner_from(g, nfactions, f + 1)
    }
}

/// The first faction that owns the whole grid, if any.
pub open spec fn winner_of(g: GridView, nfactions: int) -> Option<i32> {
    winner_from(g, nfactions, 0)
}

/// The view of an optional tile click.
pub open spec fn click_view(a: Option<TileCoordinates>) -> Option<(int, int)> {
    match a {
        Some(c) => Some((c.x as int, c.y as int)),
        None => None,
    }
}

/// One whole tick as a pure function of the starting state, the player's
/// optional tile choice, and the opponent's tile choice.
///
/// Outside the `Running` phase a tick is ignored. Otherwise cash accrues
/// for every faction; then, if some faction owns the whole grid, the
/// session moves to `Won` and the tile actions are skipped; else the
/// player's action (faction 0) applies first and the opponent's (faction
/// 1) second, in that fixed order.
pub open spec fn tick_spec(
    g: GridView,
    cash: Seq<i32>,
    phase: Phase,
    action: Option<(int, int)>,
    opponent_tile: (int, int),
    cfg: Config,
) -> TickOutcome {
    if !(phase is Running) {
        TickOutcome { grid: g, cash, phase, player_feedback: None, opponent_feedback: None }
    } else {
        let cash1 = accrue_spec(g, cash);
        match winner_of(g, cash.len() as int) {
            Some(f) => TickOutcome {
                grid: g,
                cash: cash1,
                phase: Phase::Won { winner: f },
                player_feedback: None,
                opponent_feedback: None,
            },
            None => {
                let o1 = match action {
                    Some(c) => action_spec(g, cash1, 0, c.0, c.1, cfg),
                    None => ActionOutcome { grid: g, cash: cash1, feedback: None },
                };
                let o2 = action_spec(o1.grid, o1.cash, 1, opponent_tile.0, opponent_tile.1, cfg);
                TickOutcome {
                    grid: o2.grid,
                    cash: o2.cash,
                    phase: Phase::Running,
                    player_feedback: o1.feedback,
                    opponent_feedback: o2.feedback,
                }
            },
        }
    }
}

/// A running game: the grid, each faction's cash, the phase, and the
/// economy constants fixed at session start.
pub struct GameSession {
    pub grid: TileGrid,
    pub players_cash: Vec<i32>,
    pub phase: Phase,
    pub config: Config,
}

impl GameSession {
    /// Invariant of a session: the grid is a well-formed non-empty
    /// rectangle of valid tiles, the config is sane, and every faction's
    /// cash is non-negative.
    pub open spec fn wf(self) -> bool {
        &&& self.grid.wf()
        &&& 1 <= self.grid@.width <= GRID_SIDE_LIMIT as int
        &&& 1 <= self.grid@.height <= GRID_SIDE_LIMIT as int
        &&& config_wf(self.config)
        &&& self.players_cash@.len() == FACTION_COUNT
        &&& grid_inv(
            self.grid@,
            self.players_cash@.len() as int,
            self.config.tile_improvement_base_cost as int,
        )
        &&& forall|f: int|
            0 <= f < self.players_cash@.len() ==> #[trigger] self.players_cash@[f] >= 0
    }
}

/// Machine headroom needed by one tick: every faction's cash can take the
/// largest possible accrual, every faction's total population fits an
/// `i32`, and every tile's population can take the two largest possible
/// growth actions of a tick.
pub open spec fn tick_headroom(s: GameSession) -> bool {
    &&& forall|f: int|
        0 <= f < s.players_cash@.len() ==> #[trigger] s.players_cash@[f] <= i32::MAX - 52
    &&& forall|f: int|
        0 <= f < s.players_cash@.len() ==> #[trigger] total_population_of(
            s.grid@.population,
            s.grid@.owner,
            f as i32,
            s.grid@.width,
            s.grid@.height,
        ) <= i32::MAX
    &&& forall|i: int, j: int|
        0 <= i < s.grid@.width && 0 <= j < s.grid@.height ==> #[trigger] s.grid@.population[i][j]
            + 26 * s.config.tile_population_change_base <= i32::MAX
}

/// Scaling a non-negative unit past a settlement level stays between zero
/// and thirteen units.
pub proof fn lemma_scaled_unit_bounds(unit: int, level: int) by (nonlinear_arith)
    requires
        0 <= unit,
        0 <= level <= 12,
    ensures
        0 <= unit * (level + 1) <= 13 * unit,
{
}

impl GameSession {
    /// One tile action by `faction` at `(x, y)`: growth on a friendly
    /// tile, conquest (attrition or purchase) on an enemy one. Computes
    /// exactly `action_spec` on the session's state. The caller validates
    /// the coordinates; the population headroom bound is what keeps a
    /// growth action within machine integers.
    pub fn apply_tile_action(&mut self, faction: i32, x: usize, y: usize) -> (feedback: Option<
        Feedback,
    >)
        requires
            old(self).wf(),
            0 <= faction < old(self).players_cash@.len(),
            x < old(self).grid.width,
            y < old(self).grid.height,
            forall|i: int, j: int|
                0 <= i < old(self).grid@.width && 0 <= j < old(self).grid@.height
                    ==> #[trigger] old(self).grid@.population[i][j] + 13
                    * old(self).config.tile_population_change_base <= i32::MAX,
        ensures
            final(self).wf(),
            final(self).phase == old(self).phase,
            final(self).config == old(self).config,
            ({
                let o = action_spec(
                    old(self).grid@,
                    old(self).players_cash@,
                    faction,
                    x as int,
                    y as int,
                    old(self).config,
                );
                &&& final(self).grid@ == o.grid
                &&& final(self).players_cash@ == o.cash
                &&& feedback == o.feedback
            }),
            forall|i: int, j: int|
                0 <= i < old(self).grid@.width && 0 <= j < old(self).grid@.height
                    ==> #[trigger] final(self).grid@.population[i][j]
                    <= old(self).grid@.population[i][j] + 13
                    * old(self).config.tile_population_change_base,
            forall|f: int|
                0 <= f < old(self).players_cash@.len()
                    ==> #[trigger] final(self).players_cash@[f] <= old(self).players_cash@[f],
    {
        let ghost g0 = self.grid@;
        let ghost cash0 = self.players_cash@;
        let ghost o = action_spec(g0, cash0, faction, x as int, y as int, self.config);
        let ghost xi = x as int;
        let ghost yi = y as int;
        let fi: usize = faction as usize;
        proof {
            assert(rows(self.grid.tile_owned_by@)[xi] == self.grid.tile_owned_by@[xi]@);
            assert(rows(self.grid.tile_population_number@)[xi]
                == self.grid.tile_population_number@[xi]@);
            assert(rows(self.grid.tile_improvement_level@)[xi]
                == self.grid.tile_improvement_level@[xi]@);
            assert(rows(self.grid.tile_improvement_cost@)[xi]
                == self.grid.tile_improvement_cost@[xi]@);
            assert(g0.level[xi][yi] == level_of(g0.population[xi][yi] as int));
            assert(0 <= level_of(g0.population[xi][yi] as int) <= 12);
            lemma_scaled_unit_bounds(
                self.config.tile_population_change_base as int,
                g0.level[xi][yi] as int,
            );
            lemma_scaled_unit_bounds(
                self.config.tile_improvement_base_cost as int,
                g0.level[xi][yi] as int,
            );
        }
        if self.grid.tile_owned_by[x][y] == faction {
            let cost_xy = self.grid.tile_improvement_cost[x][y];
            if self.players_cash[fi] >= cost_xy {
                let funds = self.players_cash[fi];
                self.players_cash[fi] = funds - cost_xy;
                let level_xy = self.grid.tile_improvement_level[x][y];
                let increase = self.config.tile_population_change_base * (level_xy + 1);
                let pop_xy = self.grid.tile_population_number[x][y];
                let new_pop = pop_xy + increase;
                let ghost pop_plane = self.grid.tile_population_number@;
                self.grid.tile_population_number[x][y] = new_pop;
                proof {
                    crate::grid::lemma_rows_set(
                        pop_plane,
                        self.grid.tile_population_number@,
                        xi,
                        yi,
                        new_pop,
                    );
                }
                let new_level = crate::population_utility::get_level_of_settlement(new_pop);
                let ghost level_plane = self.grid.tile_improvement_level@;
                self.grid.tile_improvement_level[x][y] = new_level;
                proof {
                    crate::grid::lemma_rows_set(
                        level_plane,
                        self.grid.tile_improvement_level@,
                        xi,
                        yi,
                        new_level,
                    );
                }
                proof {
                    lemma_scaled_unit_bounds(
                        self.config.tile_improvement_base_cost as int,
                        new_level as int,
                    );
                }
                let new_cost = self.config.tile_improvement_base_cost * (new_level + 1);
                let ghost cost_plane = self.grid.tile_improvement_cost@;
                self.grid.tile_improvement_cost[x][y] = new_cost;
                proof {
                    crate::grid::lemma_rows_set(
                        cost_plane,
                        self.grid.tile_improvement_cost@,
                        xi,
                        yi,
                        new_cost,
                    );
                    assert(self.grid@ =~~= o.grid);
                    assert(self.players_cash@ =~~= o.cash);
                    lemma_action_spec_preserves(g0, cash0, faction, xi, yi, old(self).config);
                }
                Some(Feedback::Click)
            } else {
                Some(Feedback::Unable)
            }
        } else {
            let closest = crate::tile_utility::closest_player_settlement(
                &self.grid.tile_owned_by,
                x as i32,
                y as i32,
                self.grid.width,
                self.grid.height,
                faction,
            );
            match closest {
                Some(c) => {
                    proof {
                        crate::tile_utility::lemma_nearest_friendly_minimal(
                            g0.owner,
                            g0.width,
                            g0.height,
                            faction,
                            xi,
                            yi,
                        );
                        assert(cell_owned(
                            g0.owner,
                            g0.width,
                            g0.height,
                            faction,
                            c.x as int,
                            c.y as int,
                        ));
                        assert(rows(self.grid.tile_population_number@)[c.x as int]
                            == self.grid.tile_population_number@[c.x as int]@);
                    }
                    let level_xy = self.grid.tile_improvement_level[x][y];
                    let need = self.config.tile_population_change_base * (level_xy + 1);
                    let pop_xy = self.grid.tile_population_number[x][y];
                    if pop_xy >= need {
                        let ghost ni = c.x as int;
                        let ghost nj = c.y as int;
                        let this_pop = pop_xy - need;
                        let ghost pop_plane = self.grid.tile_population_number@;
                        self.grid.tile_population_number[x][y] = this_pop;
                        proof {
                            crate::grid::lemma_rows_set(
                                pop_plane,
                                self.grid.tile_population_number@,
                                xi,
                                yi,
                                this_pop,
                            );
                        }
                        let this_level = crate::population_utility::get_level_of_settlement(
                            this_pop,
                        );
                        let ghost level_plane = self.grid.tile_improvement_level@;
                        self.grid.tile_improvement_level[x][y] = this_level;
                        proof {
                            crate::grid::lemma_rows_set(
                                level_plane,
                                self.grid.tile_improvement_level@,
                                xi,
                                yi,
                                this_level,
                            );
                            lemma_scaled_unit_bounds(
                                self.config.tile_improvement_base_cost as int,
                                this_level as int,
                            );
                        }
                        let this_cost = self.config.tile_improvement_base_cost * (this_level + 1);
                        let ghost cost_plane = self.grid.tile_improvement_cost@;
                        self.grid.tile_improvement_cost[x][y] = this_cost;
                        proof {
                            crate::grid::lemma_rows_set(
                                cost_plane,
                                self.grid.tile_improvement_cost@,
                                xi,
                                yi,
                                this_cost,
                            );
                            assert(rows(self.grid.tile_population_number@)[ni]
                                == self.grid.tile_population_number@[ni]@);
                        }
                        let friend_pop = self.grid.tile_population_number[c.x][c.y];
                        let new_fp = if friend_pop >= need {
                            friend_pop - need
                        } else {
                            0
                        };
                        let ghost pop_plane2 = self.grid.tile_population_number@;
                        self.grid.tile_population_number[c.x][c.y] = new_fp;
                        proof {
                            crate::grid::lemma_rows_set(
                                pop_plane2,
                                self.grid.tile_population_number@,
                                ni,
                                nj,
                                new_fp,
                            );
                        }
                        let friend_level = crate::population_utility::get_level_of_settlement(
                            new_fp,
                        );
                        let ghost level_plane2 = self.grid.tile_improvement_level@;
                        self.grid.tile_improvement_level[c.x][c.y] = friend_level;
                        proof {
                            crate::grid::lemma_rows_set(
                                level_plane2,
                                self.grid.tile_improvement_level@,
                                ni,
                                nj,
                                friend_level,
                            );
                            lemma_scaled_unit_bounds(
                                self.config.tile_improvement_base_cost as int,
                                friend_level as int,
                            );
                        }
                        let friend_cost = self.config.tile_improvement_base_cost * (friend_level
                            + 1);
                        let ghost cost_plane2 = self.grid.tile_improvement_cost@;
                        self.grid.tile_improvement_cost[c.x][c.y] = friend_cost;
                        proof {
                            crate::grid::lemma_rows_set(
                                cost_plane2,
                                self.grid.tile_improvement_cost@,
                                ni,
                                nj,
                                friend_cost,
                            );
                            assert(self.grid@ =~~= o.grid);
                            lemma_action_spec_preserves(g0, cash0, faction, xi, yi, old(self).config);
                        }
                        None
                    } else {
                        let price = self.config.tile_owner_change_price;
                        if self.players_cash[fi] >= price {
                            let funds = self.players_cash[fi];
                            self.players_cash[fi] = funds - price;
                            let ghost owner_plane = self.grid.tile_owned_by@;
                            self.grid.tile_owned_by[x][y] = faction;
                            proof {
                                crate::grid::lemma_rows_set(
                                    owner_plane,
                                    self.grid.tile_owned_by@,
                                    xi,
                                    yi,
                                    faction,
                                );
                                assert(self.grid@ =~~= o.grid);
                                assert(self.players_cash@ =~~= o.cash);
                                lemma_action_spec_preserves(g0, cash0, faction, xi, yi, old(self).config);
                            }
                            Some(Feedback::Change)
                        } else {
                            Some(Feedback::Unable)
                        }
                    }
                },
                None => None,
            }
        }
    }

    /// Read-only view of the grid, for drawing.
    pub fn grid(&self) -> (grid: &TileGrid)
        ensures
            grid == &self.grid,
    {
        &self.grid
    }

    /// The cash balance of one faction.
    pub fn cash(&self, faction: usize) -> (cash: i32)
        requires
            faction < self.players_cash@.len(),
        ensures
            cash == self.players_cash@[faction as int],
    {
        self.players_cash[faction]
    }

    /// The first faction that owns the whole grid, if any.
    pub fn find_winner(&self) -> (winner: Option<i32>)
        requires
            self.wf(),
        ensures
            winner == winner_of(self.grid@, self.players_cash@.len() as int),
    {
        let ghost n: int = self.players_cash@.len() as int;
        let mut f: usize = 0;
        while f < self.players_cash.len()
            invariant
                self.wf(),
                n == self.players_cash@.len() as int,
                0 <= f <= self.players_cash@.len(),
                winner_from(self.grid@, n, 0) == winner_from(self.grid@, n, f as int),
            decreases self.players_cash@.len() - f,
        {
            if self.grid.all_owned_by(f as i32) {
                return Some(f as i32);
            }
            f += 1;
        }
        None
    }

    /// Whether one tick has the machine headroom it needs; what `advance`
    /// requires, checkable by the caller.
    pub fn has_tick_headroom(&self) -> (ok: bool)
        requires
            self.wf(),
        ensures
            ok == tick_headroom(*self),
    {
        let mut f: usize = 0;
        while f < self.players_cash.len()
            invariant
                self.wf(),
                0 <= f <= self.players_cash@.len(),
                forall|k: int|
                    0 <= k < f as int ==> #[trigger] self.players_cash@[k] <= i32::MAX - 52,
            decreases self.players_cash@.len() - f,
        {
            if self.players_cash[f] > i32::MAX - 52 {
                return false;
            }
            f += 1;
        }
        let mut i: usize = 0;
        while i < self.grid.width
            invariant
                self.wf(),
                0 <= i <= self.grid.width,
                forall|a: int, b: int|
                    0 <= a < i as int && 0 <= b < self.grid@.height
                        ==> #[trigger] self.grid@.population[a][b] + 26
                        * self.config.tile_population_change_base <= i32::MAX,
            decreases self.grid.width - i,
        {
            let mut j: usize = 0;
            while j < self.grid.height
                invariant
                    self.wf(),
                    0 <= i < self.grid.width,
                    0 <= j <= self.grid.height,
                    forall|a: int, b: int|
                        0 <= a < i as int && 0 <= b < self.grid@.height
                            ==> #[trigger] self.grid@.population[a][b] + 26
                            * self.config.tile_population_change_base <= i32::MAX,
                    forall|b: int|
                        0 <= b < j as int ==> #[trigger] self.grid@.population[i as int][b] + 26
                            * self.config.tile_population_change_base <= i32::MAX,
                decreases self.grid.height - j,
            {
                proof {
                    assert(rows(self.grid.tile_population_number@)[i as int]
                        == self.grid.tile_population_number@[i as int]@);
                }
                let pop = self.grid.tile_population_number[i][j];
                let reserve = 26 * self.config.tile_population_change_base;
                if pop > i32::MAX - reserve {
                    return false;
                }
                j += 1;
            }
            i += 1;
        }
        let mut f2: usize = 0;
        while f2 < self.players_cash.len()
            invariant
                self.wf(),
                0 <= f2 <= self.players_cash@.len(),
                forall|k: int|
                    0 <= k < f2 as int ==> #[trigger] total_population_of(
                        self.grid@.population,
                        self.grid@.owner,
                        k as i32,
                        self.grid@.width,
                        self.grid@.height,
                    ) <= i32::MAX,
                forall|k: int|
                    0 <= k < self.players_cash@.len() ==> #[trigger] self.players_cash@[k]
                        <= i32::MAX - 52,
                forall|a: int, b: int|
                    0 <= a < self.grid@.width && 0 <= b < self.grid@.height
                        ==> #[trigger] self.grid@.population[a][b] + 26
                        * self.config.tile_population_change_base <= i32::MAX,
            decreases self.players_cash@.len() - f2,
        {
            if !self.faction_population_fits(f2 as i32) {
                return false;
            }
            f2 += 1;
        }
        true
    }

    /// Whether the total population of `faction` fits a machine integer,
    /// computed against that bound with a wide accumulator.
    fn faction_population_fits(&self, faction: i32) -> (fits: bool)
        requires
            self.wf(),
        ensures
            fits == (total_population_of(
                self.grid@.population,
                self.grid@.owner,
                faction,
                self.grid@.width,
                self.grid@.height,
            ) <= i32::MAX),
    {
        let ghost pop: Seq<Seq<i32>> = self.grid@.population;
        let ghost own: Seq<Seq<i32>> = self.grid@.owner;
        let ghost w: int = self.grid@.width;
        let ghost h: int = self.grid@.height;
        let mut total: i64 = 0;
        let mut i: usize = 0;
        while i < self.grid.width
            invariant
                self.wf(),
                pop == self.grid@.population,
                own == self.grid@.owner,
                w == self.grid@.width,
                h == self.grid@.height,
                0 <= i <= self.grid.width,
                total == crate::population_utility::grid_population(pop, own, faction, i as int, h),
                0 <= total <= i32::MAX as i64,
            decreases self.grid.width - i,
        {
            let mut j: usize = 0;
            while j < self.grid.height
                invariant
                    self.wf(),
                    pop == self.grid@.population,
                    own == self.grid@.owner,
                    w == self.grid@.width,
                    h == self.grid@.height,
                    0 <= i < self.grid.width,
                    0 <= j <= self.grid.height,
                    total == crate::population_utility::grid_population(
                        pop,
                        own,
                        faction,
                        i as int,
                        h,
                    ) + crate::population_utility::column_population(
                        pop[i as int],
                        own[i as int],
                        faction,
                        j as int,
                    ),
                    0 <= total <= i32::MAX as i64,
                decreases self.grid.height - j,
            {
                if total > i32::MAX as i64 {
                    proof {
                        crate::population_utility::lemma_column_population_monotonic(
                            pop[i as int],
                            own[i as int],
                            faction,
                            j as int,
                            h,
                        );
                        crate::population_utility::lemma_grid_population_monotonic(
                            pop,
                            own,
                            faction,
                            i as int + 1,
                            w,
                            h,
                        );
                    }
                    return false;
                }
                proof {
                    assert(rows(self.grid.tile_owned_by@)[i as int]
                        == self.grid.tile_owned_by@[i as int]@);
                    assert(rows(self.grid.tile_population_number@)[i as int]
                        == self.grid.tile_population_number@[i as int]@);
                }
                if self.grid.tile_owned_by[i][j] == faction {
                    total = total + self.grid.tile_population_number[i][j] as i64;
                    if total > i32::MAX as i64 {
                        proof {
                            crate::population_utility::lemma_column_population_monotonic(
                                pop[i as int],
                                own[i as int],
                                faction,
                                j as int + 1,
                                h,
                            );
                            crate::population_utility::lemma_grid_population_monotonic(
                                pop,
                                own,
                                faction,
                                i as int + 1,
                                w,
                                h,
                            );
                        }
                        return false;
                    }
                }
                j += 1;
            }
            i += 1;
        }
        true
    }

    /// One simulation tick with both tile choices handed in: computes
    /// exactly `tick_spec` on the session's state. Ignored outside the
    /// `Running` phase. The caller validates both coordinates and the
    /// headroom bound (`has_tick_headroom`).
    pub fn advance(&mut self, player_action: Option<TileCoordinates>, opponent_tile: TileCoordinates) -> (result: TickResult)
        requires
            old(self).wf(),
            tick_headroom(*old(self)),
            player_action matches Some(c) ==> c.x < old(self).grid.width && c.y < old(
                self,
            ).grid.height,
            opponent_tile.x < old(self).grid.width,
            opponent_tile.y < old(self).grid.height,
        ensures
            final(self).wf(),
            final(self).config == old(self).config,
            final(self).grid@.width == old(self).grid@.width,
            final(self).grid@.height == old(self).grid@.height,
            ({
                let o = tick_spec(
                    old(self).grid@,
                    old(self).players_cash@,
                    old(self).phase,
                    click_view(player_action),
                    (opponent_tile.x as int, opponent_tile.y as int),
                    old(self).config,
                );
                &&& final(self).grid@ == o.grid
                &&& final(self).players_cash@ == o.cash
                &&& final(self).phase == o.phase
                &&& result.player_feedback == o.player_feedback
                &&& result.opponent_feedback == o.opponent_feedback
                &&& result.phase == o.phase
            }),
    {
        match self.phase {
            Phase::Running => {},
            _ => {
                return TickResult {
                    player_feedback: None,
                    opponent_feedback: None,
                    phase: self.phase,
                };
            },
        }
        let ghost g0 = self.grid@;
        let ghost cash0 = self.players_cash@;
        let ghost cfg = self.config;
        let mut f: usize = 0;
        while f < self.players_cash.len()
            invariant
                self.grid == old(self).grid,
                self.phase == old(self).phase,
                self.config == old(self).config,
                g0 == self.grid@,
                cash0.len() == self.players_cash@.len(),
                old(self).wf(),
                tick_headroom(*old(self)),
                cash0 == old(self).players_cash@,
                cfg == old(self).config,
                0 <= f <= self.players_cash@.len(),
                forall|k: int|
                    0 <= k < f as int ==> #[trigger] self.players_cash@[k] == accrue_spec(
                        g0,
                        cash0,
                    )[k],
                forall|k: int|
                    f as int <= k < cash0.len() ==> #[trigger] self.players_cash@[k] == cash0[k],
            decreases self.players_cash@.len() - f,
        {
            let total = self.grid.total_population(f as i32);
            let gain = crate::population_utility::get_cash(total);
            let funds = self.players_cash[f];
            self.players_cash[f] = funds + gain;
            f += 1;
        }
        proof {
            assert(self.players_cash@ =~= accrue_spec(g0, cash0));
        }
        let winner = self.find_winner();
        match winner {
            Some(fw) => {
                self.phase = Phase::Won { winner: fw };
                return TickResult {
                    player_feedback: None,
                    opponent_feedback: None,
                    phase: self.phase,
                };
            },
            None => {},
        }
        proof {
            assert forall|k: int| 0 <= k < self.players_cash@.len() implies #[trigger] self
                .players_cash@[k] >= 0 by {
                assert(self.players_cash@[k] == accrue_spec(g0, cash0)[k]);
                assert(cash0[k] >= 0);
                assert(cash0[k] <= i32::MAX - 52);
                assert(0 <= level_of(
                    total_population_of(g0.population, g0.owner, k as i32, g0.width, g0.height),
                ) <= 12);
            }
            assert forall|i: int, j: int|
                0 <= i < self.grid@.width && 0 <= j < self.grid@.height implies #[trigger] self
                .grid@.population[i][j] + 13 * self.config.tile_population_change_base
                <= i32::MAX by {
                assert(self.grid@.population[i][j] + 26 * cfg.tile_population_change_base
                    <= i32::MAX);
            }
        }
        let player_feedback = match player_action {
            Some(c) => self.apply_tile_action(0, c.x, c.y),
            None => None,
        };
        proof {
            assert forall|i: int, j: int|
                0 <= i < self.grid@.width && 0 <= j < self.grid@.height implies #[trigger] self
                .grid@.population[i][j] + 13 * self.config.tile_population_change_base
                <= i32::MAX by {
                assert(g0.population[i][j] + 26 * cfg.tile_population_change_base <= i32::MAX);
            }
        }
        let opponent_feedback = self.apply_tile_action(1, opponent_tile.x, opponent_tile.y);
        TickResult { player_feedback, opponent_feedback, phase: self.phase }
    }

    /// One simulation tick with the opponent's tile drawn uniformly at
    /// random from the grid. Whatever tile the generator picks, the
    /// outcome is `tick_spec` of the state, the player's action, and some
    /// in-range tile.
    pub fn tick(&mut self, player_action: Option<TileCoordinates>) -> (result: TickResult)
        requires
            old(self).wf(),
            tick_headroom(*old(self)),
            player_action matches Some(c) ==> c.x < old(self).grid.width && c.y < old(
                self,
            ).grid.height,
        ensures
            final(self).wf(),
            final(self).config == old(self).config,
            final(self).grid@.width == old(self).grid@.width,
            final(self).grid@.height == old(self).grid@.height,
            exists|t: (int, int)|
                {
                    &&& 0 <= t.0 < old(self).grid@.width
                    &&& 0 <= t.1 < old(self).grid@.height
                    &&& ({
                        let o = #[trigger] tick_spec(
                            old(self).grid@,
                            old(self).players_cash@,
                            old(self).phase,
                            click_view(player_action),
                            t,
                            old(self).config,
                        );
                        &&& final(self).grid@ == o.grid
                        &&& final(self).players_cash@ == o.cash
                        &&& final(self).phase == o.phase
                        &&& result.player_feedback == o.player_feedback
                        &&& result.opponent_feedback == o.opponent_feedback
                        &&& result.phase == o.phase
                    })
                },
    {
        let ox = random_below(self.grid.width);
        let oy = random_below(self.grid.height);
        let opponent_tile = TileCoordinates { x: ox, y: oy };
        let result = self.advance(player_action, opponent_tile);
        proof {
            let t = (opponent_tile.x as int, opponent_tile.y as int);
            assert(0 <= t.0 < old(self).grid@.width && 0 <= t.1 < old(self).grid@.height);
            assert({
                let o = tick_spec(
                    old(self).grid@,
                    old(self).players_cash@,
                    old(self).phase,
                    click_view(player_action),
                    t,
                    old(self).config,
                );
                &&& final(self).grid@ == o.grid
                &&& final(self).players_cash@ == o.cash
                &&& final(self).phase == o.phase
                &&& result.player_feedback == o.player_feedback
                &&& result.opponent_feedback == o.opponent_feedback
                &&& result.phase == o.phase
            });
        }
        result
    }

    /// A new session in the `Menu` phase: a fresh grid of the given
    /// dimensions and an empty cash ledger for both factions.
    pub fn new_session(width: usize, height: usize, config: Config) -> (session: GameSession)
        requires
            1 <= width <= GRID_SIDE_LIMIT,
            1 <= height <= GRID_SIDE_LIMIT,
            config_wf(config),
        ensures
            session.wf(),
            session.phase == Phase::Menu,
            session.config == config,
            session.grid.width == width,
            session.grid.height == height,
            session.grid@.owner == split_owner_plane(width as int, height as int),
            session.grid@.population == const_plane(width as int, height as int, 1),
            session.grid@.level == const_plane(width as int, height as int, 0),
            session.grid@.cost == const_plane(
                width as int,
                height as int,
                config.tile_improvement_base_cost,
            ),
            session.players_cash@ =~= seq![0i32, 0i32],
    {
        let grid = TileGrid::new(width, height, config.tile_improvement_base_cost);
        let mut players_cash: Vec<i32> = Vec::new();
        players_cash.push(0);
        players_cash.push(0);
        GameSession { grid, players_cash, phase: Phase::Menu, config }
    }

    /// A menu-level input. From the menu, `StartGame` begins a fresh game
    /// (grid and cash reset, dimensions and config kept) and `ExitGame`
    /// asks the host to terminate; from the won screen, `Acknowledge`
    /// returns to the menu. Any input in any other phase is ignored.
    pub fn handle_input(&mut self, input: MenuInput) -> (terminate: bool)
        requires
            old(self).wf(),
        ensures
            final(self).wf(),
            final(self).config == old(self).config,
            final(self).grid.width == old(self).grid.width,
            final(self).grid.height == old(self).grid.height,
            terminate == (old(self).phase is Menu && input is ExitGame),
            match (old(self).phase, input) {
                (Phase::Menu, MenuInput::StartGame) => {
                    &&& final(self).phase == Phase::Running
                    &&& final(self).grid@.owner == split_owner_plane(
                        old(self).grid@.width,
                        old(self).grid@.height,
                    )
                    &&& final(self).grid@.population == const_plane(
                        old(self).grid@.width,
                        old(self).grid@.height,
                        1,
                    )
                    &&& final(self).grid@.level == const_plane(
                        old(self).grid@.width,
                        old(self).grid@.height,
                        0,
                    )
                    &&& final(self).grid@.cost == const_plane(
                        old(self).grid@.width,
                        old(self).grid@.height,
                        old(self).config.tile_improvement_base_cost,
                    )
                    &&& final(self).players_cash@ =~= seq![0i32, 0i32]
                },
                (Phase::Won { winner: _ }, MenuInput::Acknowledge) => {
                    &&& final(self).phase == Phase::Menu
                    &&& final(self).grid == old(self).grid
                    &&& final(self).players_cash == old(self).players_cash
                },
                _ => *final(self) == *old(self),
            },
    {
        match (self.phase, input) {
            (Phase::Menu, MenuInput::StartGame) => {
                self.grid = TileGrid::new(
                    self.grid.width,
                    self.grid.height,
                    self.config.tile_improvement_base_cost,
                );
                let mut players_cash: Vec<i32> = Vec::new();
                players_cash.push(0);
                players_cash.push(0);
                self.players_cash = players_cash;
                self.phase = Phase::Running;
                false
            },
            (Phase::Menu, MenuInput::ExitGame) => true,
            (Phase::Won { winner: _ }, MenuInput::Acknowledge) => {
                self.phase = Phase::Menu;
                false
            },
            _ => false,
        }
    }

}

/// A tile action keeps the grid invariant, never grows a tile's population
/// by more than thirteen population units, and never adds cash.
pub proof fn lemma_action_spec_preserves(
    g: GridView,
    cash: Seq<i32>,
    f: i32,
    x: int,
    y: int,
    cfg: Config,
)
    requires
        grid_inv(g, cash.len() as int, cfg.tile_improvement_base_cost as int),
        config_wf(cfg),
        0 <= f < cash.len(),
        0 <= x < g.width,
        0 <= y < g.height,
        forall|k: int| 0 <= k < cash.len() ==> #[trigger] cash[k] >= 0,
        forall|i: int, j: int|
            0 <= i < g.width && 0 <= j < g.height ==> #[trigger] g.population[i][j] + 13
                * cfg.tile_population_change_base <= i32::MAX,
    ensures
        ({
            let o = action_spec(g, cash, f, x, y, cfg);
            &&& grid_inv(o.grid, cash.len() as int, cfg.tile_improvement_base_cost as int)
            &&& o.grid.width == g.width
            &&& o.grid.height == g.height
            &&& o.cash.len() == cash.len()
            &&& forall|k: int| 0 <= k < cash.len() ==> 0 <= #[trigger] o.cash[k] <= cash[k]
            &&& forall|i: int, j: int|
                0 <= i < g.width && 0 <= j < g.height ==> #[trigger] o.grid.population[i][j]
                    <= g.population[i][j] + 13 * cfg.tile_population_change_base
        }),
{
    let o = action_spec(g, cash, f, x, y, cfg);
    assert(g.level[x][y] == level_of(g.population[x][y] as int));
    assert(0 <= level_of(g.population[x][y] as int) <= 12);
    lemma_scaled_unit_bounds(cfg.tile_population_change_base as int, g.level[x][y] as int);
    lemma_scaled_unit_bounds(cfg.tile_improvement_base_cost as int, g.level[x][y] as int);
    if g.owner[x][y] == f {
        if cash[f as int] >= g.cost[x][y] {
            let increase = cfg.tile_population_change_base * (g.level[x][y] + 1);
            let new_pop = (g.population[x][y] + increase) as i32;
            let new_level = level_of(new_pop as int) as i32;
            assert(0 <= level_of(new_pop as int) <= 12);
            lemma_scaled_unit_bounds(cfg.tile_improvement_base_cost as int, new_level as int);
            assert(g.cost[x][y] == cfg.tile_improvement_base_cost * (g.level[x][y] + 1));
            assert(0 <= g.cost[x][y]);
        } else {
        }
    } else {
        if adjacent_friendly(g.owner, g.width, g.height, f, x, y) {
            let need = cfg.tile_population_change_base * (g.level[x][y] + 1);
            if g.population[x][y] >= need {
                match nearest_friendly(g.owner, g.width, g.height, f, x, y) {
                    Some(n) => {
                        crate::tile_utility::lemma_nearest_friendly_minimal(
                            g.owner,
                            g.width,
                            g.height,
                            f,
                            x,
                            y,
                        );
                        assert(cell_owned(g.owner, g.width, g.height, f, n.0, n.1));
                        assert(!(n.0 == x && n.1 == y));
                        let this_pop = (g.population[x][y] - need) as i32;
                        let this_level = level_of(this_pop as int) as i32;
                        assert(0 <= level_of(this_pop as int) <= 12);
                        lemma_scaled_unit_bounds(
                            cfg.tile_improvement_base_cost as int,
                            this_level as int,
                        );
                        let friend_left = g.population[n.0][n.1] - need;
                        let friend_pop = (if friend_left < 0 {
                            0
                        } else {
                            friend_left
                        }) as i32;
                        let friend_level = level_of(friend_pop as int) as i32;
                        assert(0 <= level_of(friend_pop as int) <= 12);
                        lemma_scaled_unit_bounds(
                            cfg.tile_improvement_base_cost as int,
                            friend_level as int,
                        );
                        assert(13 * cfg.tile_population_change_base >= 0);
                    },
                    None => {},
                }
            } else {
            }
        } else {
        }
    }
}

} // verus!
