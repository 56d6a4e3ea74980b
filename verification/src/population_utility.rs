//! Settlement classification and population aggregation.
//!
//! A settlement's discrete level (0..=12) and its display label are both
//! derived from its population through one shared threshold ladder, so the
//! two classifications can never drift apart.

use vstd::prelude::*;

use crate::grid::{grid_dims_ok, rows};

verus! {

/// Number of distinct settlement levels (0 through 12).
pub const SETTLEMENT_NUMBER_OF_LEVELS: i32 = 13;

/// The threshold ladder: the level of a settlement with population `p`.
/// Thresholds are strict (`>`); a boundary value belongs to the lower band.
pub open spec fn level_of(p: int) -> int {
    if p > 10000000 {
        12
    } else if p > 1000000 {
        11
    } else if p > 500000 {
        10
    } else if p > 100000 {
        9
    } else if p > 50000 {
        8
    } else if p > 20000 {
        7
    } else if p > 10000 {
        6
    } else if p > 5000 {
        5
    } else if p > 2000 {
        4
    } else if p > 1000 {
        3
    } else if p > 500 {
        2
    } else if p > 100 {
        1
    } else {
        0
    }
}

/// The display label attached to each settlement level.
pub open spec fn label_of_level(level: int) -> Seq<char> {
    if level == 12 {
        "megapolis"@
    } else if level == 11 {
        "metropolis"@
    } else if level == 10 {
        "great city"@
    } else if level == 9 {
        "city"@
    } else if level == 8 {
        "big town"@
    } else if level == 7 {
        "town"@
    } else if level == 6 {
        "little town"@
    } else if level == 5 {
        "giant village"@
    } else if level == 4 {
        "large village"@
    } else if level == 3 {
        "village"@
    } else if level == 2 {
        "small village"@
    } else if level == 1 {
        "little village"@
    } else {
        "hamlet"@
    }
}

/// The label of a settlement with population `p`: the same ladder as
/// `level_of`, composed with the level-to-label table.
pub open spec fn label_of(p: int) -> Seq<char> {
    label_of_level(level_of(p))
}

/// Settlement level for a population count, 0 through 12.
pub fn get_level_of_settlement(number_of_population: i32) -> (level: i32)
    ensures
        level == level_of(number_of_population as int),
        0 <= level < SETTLEMENT_NUMBER_OF_LEVELS,
{
    if number_of_population > 10000000 {
        12
    } else if number_of_population > 1000000 {
        11
    } else if number_of_population > 500000 {
        10
    } else if number_of_population > 100000 {
        9
    } else if number_of_population > 50000 {
        8
    } else if number_of_population > 20000 {
        7
    } else if number_of_population > 10000 {
        6
    } else if number_of_population > 5000 {
        5
    } else if number_of_population > 2000 {
        4
    } else if number_of_population > 1000 {
        3
    } else if number_of_population > 500 {
        2
    } else if number_of_population > 100 {
        1
    } else {
        0
    }
}

/// Display label for a population count. Shares the threshold ladder with
/// `get_level_of_settlement`: the label is looked up from the computed level,
/// never from a second copy of the thresholds.
pub fn get_type_of_settlement(number_of_population: i32) -> (label: String)
    ensures
        label@ == label_of(number_of_population as int),
{
    let level = get_level_of_settlement(number_of_population);
    if level == 12 {
        "megapolis".to_string()
    } else if level == 11 {
        "metropolis".to_string()
    } else if level == 10 {
        "great city".to_string()
    } else if level == 9 {
        "city".to_string()
    } else if level == 8 {
        "big town".to_string()
    } else if level == 7 {
        "town".to_string()
    } else if level == 6 {
        "little town".to_string()
    } else if level == 5 {
        "giant village".to_string()
    } else if level == 4 {
        "large village".to_string()
    } else if level == 3 {
        "village".to_string()
    } else if level == 2 {
        "small village".to_string()
    } else if level == 1 {
        "little village".to_string()
    } else {
        "hamlet".to_string()
    }
}

/// The settlement level is monotonically non-decreasing in the population:
/// a larger population never classifies to a smaller level.
pub proof fn lemma_level_of_monotonic(p: int, q: int)
    requires
        p <= q,
    ensures
        level_of(p) <= level_of(q),
{
}

/// Population owned by faction `f` within the first `j` cells of one column.
pub open spec fn column_population(pop: Seq<i32>, own: Seq<i32>, f: i32, j: int) -> int
    decreases j,
{
    if j <= 0 {
        0
    } else {
        column_population(pop, own, f, j - 1) + if own[j - 1] == f {
            pop[j - 1] as int
        } else {
            0
        }
    }
}

/// Population owned by faction `f` within the first `i` columns of a grid
/// whose columns are `h` cells tall.
pub open spec fn grid_population(
    pop: Seq<Seq<i32>>,
    own: Seq<Seq<i32>>,
    f: i32,
    i: int,
    h: int,
) -> int
    decreases i,
{
    if i <= 0 {
        0
    } else {
        grid_population(pop, own, f, i - 1, h) + column_population(pop[i - 1], own[i - 1], f, h)
    }
}

/// Total population owned by faction `f` over a whole `w x h` grid.
pub open spec fn total_population_of(
    pop: Seq<Seq<i32>>,
    own: Seq<Seq<i32>>,
    f: i32,
    w: int,
    h: int,
) -> int {
    grid_population(pop, own, f, w, h)
}

/// With non-negative cell populations, a column's partial sums grow with
/// the number of cells taken in.
pub proof fn lemma_column_population_monotonic(
    pop: Seq<i32>,
    own: Seq<i32>,
    f: i32,
    j1: int,
    j2: int,
)
    requires
        0 <= j1 <= j2,
        forall|b: int| 0 <= b < j2 ==> #[trigger] pop[b] >= 0,
    ensures
        column_population(pop, own, f, j1) <= column_population(pop, own, f, j2),
    decreases j2,
{
    if j1 < j2 {
        lemma_column_population_monotonic(pop, own, f, j1, j2 - 1);
    }
}

/// With non-negative cell populations, a grid's partial sums grow with the
/// number of columns taken in.
pub proof fn lemma_grid_population_monotonic(
    pop: Seq<Seq<i32>>,
    own: Seq<Seq<i32>>,
    f: i32,
    i1: int,
    i2: int,
    h: int,
)
    requires
        0 <= i1 <= i2,
        h >= 0,
        forall|a: int, b: int| 0 <= a < i2 && 0 <= b < h ==> #[trigger] pop[a][b] >= 0,
    ensures
        grid_population(pop, own, f, i1, h) <= grid_population(pop, own, f, i2, h),
    decreases i2,
{
    if i1 < i2 {
        lemma_grid_population_monotonic(pop, own, f, i1, i2 - 1, h);
        lemma_column_population_monotonic(pop[i2 - 1], own[i2 - 1], f, 0, h);
    }
}

/// Sum of the population of every tile owned by `player`, scanned column by
/// column as the planes are stored.
pub fn get_total_population(
    player: i32,
    tile_population: &Vec<Vec<i32>>,
    tile_owned_by: &Vec<Vec<i32>>,
    game_area_width: usize,
    game_area_height: usize,
) -> (total: i32)
    requires
        grid_dims_ok(rows(tile_population@), game_area_width as int, game_area_height as int),
        grid_dims_ok(rows(tile_owned_by@), game_area_width as int, game_area_height as int),
        forall|a: int, b: int|
            0 <= a < game_area_width as int && 0 <= b < game_area_height as int
                ==> #[trigger] rows(tile_population@)[a][b] >= 0,
        total_population_of(
            rows(tile_population@),
            rows(tile_owned_by@),
            player,
            game_area_width as int,
            game_area_height as int,
        ) <= i32::MAX,
    ensures
        total == total_population_of(
            rows(tile_population@),
            rows(tile_owned_by@),
            player,
            game_area_width as int,
            game_area_height as int,
        ),
        total >= 0,
{
    let ghost pop: Seq<Seq<i32>> = rows(tile_population@);
    let ghost own: Seq<Seq<i32>> = rows(tile_owned_by@);
    let ghost w: int = game_area_width as int;
    let ghost h: int = game_area_height as int;
    let mut total_population: i32 = 0;
    let mut i: usize = 0;
    while i < game_area_width
        invariant
            grid_dims_ok(pop, w, h),
            grid_dims_ok(own, w, h),
            pop == rows(tile_population@),
            own == rows(tile_owned_by@),
            w == game_area_width as int,
            h == game_area_height as int,
            forall|a: int, b: int| 0 <= a < w && 0 <= b < h ==> #[trigger] pop[a][b] >= 0,
            total_population_of(pop, own, player, w, h) <= i32::MAX,
            0 <= i <= game_area_width,
            total_population == grid_population(pop, own, player, i as int, h),
        decreases game_area_width - i,
    {
        let mut j: usize = 0;
        while j < game_area_height
            invariant
                grid_dims_ok(pop, w, h),
                grid_dims_ok(own, w, h),
                pop == rows(tile_population@),
                own == rows(tile_owned_by@),
                w == game_area_width as int,
                h == game_area_height as int,
                forall|a: int, b: int| 0 <= a < w && 0 <= b < h ==> #[trigger] pop[a][b] >= 0,
                total_population_of(pop, own, player, w, h) <= i32::MAX,
                0 <= i < game_area_width,
                0 <= j <= game_area_height,
                total_population == grid_population(pop, own, player, i as int, h)
                    + column_population(pop[i as int], own[i as int], player, j as int),
            decreases game_area_height - j,
        {
            proof {
                assert(rows(tile_population@)[i as int] == tile_population@[i as int]@);
                assert(rows(tile_owned_by@)[i as int] == tile_owned_by@[i as int]@);
                lemma_column_population_monotonic(
                    pop[i as int],
                    own[i as int],
                    player,
                    j + 1,
                    h,
                );
                lemma_grid_population_monotonic(pop, own, player, i + 1, w, h);
                lemma_grid_population_monotonic(pop, own, player, 0, i as int, h);
                lemma_column_population_monotonic(pop[i as int], own[i as int], player, 0, j as int);
            }
            if tile_owned_by[i][j] == player {
                total_population += tile_population[i][j];
            }
            j += 1;
        }
        i += 1;
    }
    proof {
        lemma_grid_population_monotonic(pop, own, player, 0, w, h);
    }
    total_population
}

/// Per-tick cash gain of a faction whose total population is `total`:
/// four units of cash for every settlement level the aggregate reaches,
/// plus the base four.
pub open spec fn cash_gain_of(total: int) -> int {
    4 * (level_of(total) + 1)
}

/// Per-tick cash accrual for a faction with the given total population.
pub fn get_cash(total_population: i32) -> (gain: i32)
    ensures
        gain == cash_gain_of(total_population as int),
        4 <= gain <= 52,
{
    4 * (get_level_of_settlement(total_population) + 1)
}

} // verus!
