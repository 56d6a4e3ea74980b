//! Laws of the simulation, stated over the abstract model and proved once
//! for every state: ownership exclusivity, conquest by payment, win
//! detection, and determinism of whole runs.

use vstd::prelude::*;

use crate::grid::{all_owned, grid_dims, GridView};
use crate::session::{
    action_spec, config_wf, tick_spec, winner_from, Config, Feedback, Phase, TickOutcome,
};
use crate::tile_utility::adjacent_friendly;

verus! {

/// A non-empty grid wholly owned by one faction is wholly owned by no
/// other.
pub proof fn lemma_all_owned_exclusive(own: Seq<Seq<i32>>, w: int, h: int, f1: i32, f2: i32)
    requires
        w >= 1,
        h >= 1,
        f1 != f2,
        all_owned(own, w, h, f1),
    ensures
        !all_owned(own, w, h, f2),
{
    assert(own[0][0] == f1);
}

/// Conquest by payment: an enemy tile too weak to resist (population
/// below one population unit scaled past its level), attacked from beside
/// an adjacent friendly tile by a faction whose cash covers the
/// owner-change price, flips to the acting faction, and exactly the price
/// leaves that faction's cash. Nothing else changes: the populations and
/// the feedback say a purchase happened.
pub proof fn lemma_conquest_by_payment(
    g: GridView,
    cash: Seq<i32>,
    f: i32,
    x: int,
    y: int,
    cfg: Config,
)
    requires
        grid_dims(g),
        config_wf(cfg),
        0 <= x < g.width,
        0 <= y < g.height,
        0 <= f < cash.len(),
        g.owner[x][y] != f,
        adjacent_friendly(g.owner, g.width, g.height, f, x, y),
        g.population[x][y] < cfg.tile_population_change_base * (g.level[x][y] + 1),
        cash[f as int] >= cfg.tile_owner_change_price,
    ensures
        ({
            let o = action_spec(g, cash, f, x, y, cfg);
            &&& o.grid.owner[x][y] == f
            &&& o.cash[f as int] == cash[f as int] - cfg.tile_owner_change_price
            &&& o.feedback == Some(Feedback::Change)
            &&& o.grid.population == g.population
            &&& o.grid.level == g.level
            &&& o.grid.cost == g.cost
        }),
{
}

/// Without an adjacent friendly tile, a tile action aimed at an enemy
/// tile is a no-op: grid and cash are untouched and no feedback is
/// produced.
pub proof fn lemma_conquest_needs_adjacency(
    g: GridView,
    cash: Seq<i32>,
    f: i32,
    x: int,
    y: int,
    cfg: Config,
)
    requires
        g.owner[x][y] != f,
        !adjacent_friendly(g.owner, g.width, g.height, f, x, y),
    ensures
        ({
            let o = action_spec(g, cash, f, x, y, cfg);
            &&& o.grid == g
            &&& o.cash == cash
            &&& o.feedback is None
        }),
{
}

/// Below `lemma_win_detected`: scanning for a winner from any faction at
/// or below the owning one finds exactly the owning one.
proof fn lemma_winner_scan_finds_owner(g: GridView, nfactions: int, fi: int, k: int)
    requires
        g.width >= 1,
        g.height >= 1,
        nfactions <= i32::MAX,
        0 <= k <= fi < nfactions,
        all_owned(g.owner, g.width, g.height, fi as i32),
    ensures
        winner_from(g, nfactions, k) == Some(fi as i32),
    decreases fi - k,
{
    if k == fi {
        assert(all_owned(g.owner, g.width, g.height, k as i32));
    } else {
        lemma_all_owned_exclusive(g.owner, g.width, g.height, fi as i32, k as i32);
        lemma_winner_scan_finds_owner(g, nfactions, fi, k + 1);
    }
}

/// Win detection: when faction `f` owns the whole (non-empty) grid at the
/// start of a running tick, the tick moves the session to `Won { f }`,
/// leaves the grid untouched, and applies no tile action.
pub proof fn lemma_win_detected(
    g: GridView,
    cash: Seq<i32>,
    f: i32,
    action: Option<(int, int)>,
    opponent_tile: (int, int),
    cfg: Config,
)
    requires
        g.width >= 1,
        g.height >= 1,
        cash.len() <= i32::MAX,
        0 <= f < cash.len(),
        all_owned(g.owner, g.width, g.height, f),
    ensures
        ({
            let o = tick_spec(g, cash, Phase::Running, action, opponent_tile, cfg);
            &&& o.phase == (Phase::Won { winner: f })
            &&& o.grid == g
            &&& o.player_feedback is None
            &&& o.opponent_feedback is None
        }),
{
    lemma_winner_scan_finds_owner(g, cash.len() as int, f as int, 0);
}

/// A whole run: ticks folded over a sequence of per-tick inputs, each
/// input the player's optional tile choice paired with the opponent's
/// tile.
pub open spec fn run_spec(
    g: GridView,
    cash: Seq<i32>,
    phase: Phase,
    inputs: Seq<(Option<(int, int)>, (int, int))>,
    cfg: Config,
) -> TickOutcome
    decreases inputs.len(),
{
    if inputs.len() == 0 {
        TickOutcome { grid: g, cash, phase, player_feedback: None, opponent_feedback: None }
    } else {
        let first = tick_spec(g, cash, phase, inputs[0].0, inputs[0].1, cfg);
        run_spec(first.grid, first.cash, first.phase, inputs.drop_first(), cfg)
    }
}

/// Determinism: a run is a pure function of its starting state and its
/// inputs. Two runs from equal states, fed equal player actions and equal
/// opponent tile choices — as happens when the random choices are drawn
/// from generators seeded alike — end in identical states, grid for grid
/// and cash for cash.
pub proof fn lemma_run_deterministic(
    g1: GridView,
    cash1: Seq<i32>,
    phase1: Phase,
    inputs1: Seq<(Option<(int, int)>, (int, int))>,
    g2: GridView,
    cash2: Seq<i32>,
    phase2: Phase,
    inputs2: Seq<(Option<(int, int)>, (int, int))>,
    cfg: Config,
)
    requires
        g1 == g2,
        cash1 == cash2,
        phase1 == phase2,
        inputs1 == inputs2,
    ensures
        run_spec(g1, cash1, phase1, inputs1, cfg) == run_spec(g2, cash2, phase2, inputs2, cfg),
{
}

} // verus!
