//! Territory queries over the ownership plane of a grid: the nearest
//! friendly tile within a 3x3 neighborhood, adjacency to a friendly tile,
//! and the total-ownership (win) test.
//!
//! The neighborhood of `(x, y)` is the 3x3 window centered there, clamped
//! symmetrically at every grid edge, with the center cell excluded.

use vstd::math::abs;
use vstd::prelude::*;

use crate::grid::{all_owned, cell_owned, grid_dims_ok, rows};

verus! {

/// A pair of grid coordinates.
#[derive(Clone, Copy, Debug, PartialEq, Eq, Structural)]
pub struct TileCoordinates {
    pub x: usize,
    pub y: usize,
}

/// Cell `(i, j)` lies in the 3x3 neighborhood of `(x, y)`: at most one step
/// away on each axis, and not the center itself.
pub open spec fn in_neighborhood(x: int, y: int, i: int, j: int) -> bool {
    &&& abs(i - x) <= 1
    &&& abs(j - y) <= 1
    &&& !(i == x && j == y)
}

/// City-block distance between `(x, y)` and `(i, j)`.
pub open spec fn city_block_distance(x: int, y: int, i: int, j: int) -> int {
    (abs(i - x) + abs(j - y)) as int
}

/// Some cell of the 3x3 neighborhood of `(x, y)` is owned by faction `f`.
/// Spelled out cell by cell; out-of-range cells are excluded by
/// `cell_owned`, which is how the window is clamped at the grid edges.
pub open spec fn adjacent_friendly(
    own: Seq<Seq<i32>>,
    w: int,
    h: int,
    f: i32,
    x: int,
    y: int,
) -> bool {
    ||| cell_owned(own, w, h, f, x - 1, y - 1)
    ||| cell_owned(own, w, h, f, x - 1, y)
    ||| cell_owned(own, w, h, f, x - 1, y + 1)
    ||| cell_owned(own, w, h, f, x, y - 1)
    ||| cell_owned(own, w, h, f, x, y + 1)
    ||| cell_owned(own, w, h, f, x + 1, y - 1)
    ||| cell_owned(own, w, h, f, x + 1, y)
    ||| cell_owned(own, w, h, f, x + 1, y + 1)
}

/// The nearest tile to `(x, y)` owned by faction `f` within the clamped 3x3
/// neighborhood, or `None` if that neighborhood holds no such tile.
///
/// "Nearest" is by city-block distance; among equally near cells the first
/// one in a row-major scan of the window wins. So the four orthogonal
/// neighbors (distance 1) are consulted in row-major order first, then the
/// four diagonal neighbors (distance 2) in row-major order.
pub open spec fn nearest_friendly(
    own: Seq<Seq<i32>>,
    w: int,
    h: int,
    f: i32,
    x: int,
    y: int,
) -> Option<(int, int)> {
    if cell_owned(own, w, h, f, x - 1, y) {
        Some((x - 1, y))
    } else if cell_owned(own, w, h, f, x, y - 1) {
        Some((x, y - 1))
    } else if cell_owned(own, w, h, f, x, y + 1) {
        Some((x, y + 1))
    } else if cell_owned(own, w, h, f, x + 1, y) {
        Some((x + 1, y))
    } else if cell_owned(own, w, h, f, x - 1, y - 1) {
        Some((x - 1, y - 1))
    } else if cell_owned(own, w, h, f, x - 1, y + 1) {
        Some((x - 1, y + 1))
    } else if cell_owned(own, w, h, f, x + 1, y - 1) {
        Some((x + 1, y - 1))
    } else if cell_owned(own, w, h, f, x + 1, y + 1) {
        Some((x + 1, y + 1))
    } else {
        None
    }
}

/// What the nearest-friendly scan returns is a friendly neighborhood cell
/// at minimal city-block distance among all friendly neighborhood cells.
pub proof fn lemma_nearest_friendly_minimal(
    own: Seq<Seq<i32>>,
    w: int,
    h: int,
    f: i32,
    x: int,
    y: int,
)
    ensures
        nearest_friendly(own, w, h, f, x, y) matches Some(c) ==> {
            &&& in_neighborhood(x, y, c.0, c.1)
            &&& cell_owned(own, w, h, f, c.0, c.1)
            &&& forall|i: int, j: int|
                in_neighborhood(x, y, i, j) && cell_owned(own, w, h, f, i, j)
                    ==> city_block_distance(x, y, c.0, c.1) <= #[trigger] city_block_distance(
                    x,
                    y,
                    i,
                    j,
                )
        },
{
    match nearest_friendly(own, w, h, f, x, y) {
        Some(c) => {
            assert forall|i: int, j: int|
                in_neighborhood(x, y, i, j) && cell_owned(own, w, h, f, i, j)
                    implies city_block_distance(x, y, c.0, c.1) <= #[trigger] city_block_distance(
                x,
                y,
                i,
                j,
            ) by {
                assert(x - 1 <= i <= x + 1 && y - 1 <= j <= y + 1);
            }
        },
        None => {},
    }
}

/// Nearest tile to `(enemy_tile_x, enemy_tile_y)` owned by `player_id` in
/// the clamped 3x3 neighborhood, or `None` when no neighbor qualifies.
pub fn closest_player_settlement(
    tile_owned_by: &Vec<Vec<i32>>,
    enemy_tile_x: i32,
    enemy_tile_y: i32,
    game_area_width: usize,
    game_area_height: usize,
    player_id: i32,
) -> (closest: Option<TileCoordinates>)
    requires
        grid_dims_ok(rows(tile_owned_by@), game_area_width as int, game_area_height as int),
        0 <= enemy_tile_x < game_area_width as int,
        0 <= enemy_tile_y < game_area_height as int,
    ensures
        match closest {
            Some(c) => nearest_friendly(
                rows(tile_owned_by@),
                game_area_width as int,
                game_area_height as int,
                player_id,
                enemy_tile_x as int,
                enemy_tile_y as int,
            ) == Some((c.x as int, c.y as int)),
            None => !adjacent_friendly(
                rows(tile_owned_by@),
                game_area_width as int,
                game_area_height as int,
                player_id,
                enemy_tile_x as int,
                enemy_tile_y as int,
            ),
        },
{
    let x: usize = enemy_tile_x as usize;
    let y: usize = enemy_tile_y as usize;
    proof {
        assert(forall|i: int|
            0 <= i < game_area_width as int ==> rows(tile_owned_by@)[i] == tile_owned_by@[i]@);
    }
    if x > 0 && tile_owned_by[x - 1][y] == player_id {
        Some(TileCoordinates { x: x - 1, y })
    } else if y > 0 && tile_owned_by[x][y - 1] == player_id {
        Some(TileCoordinates { x, y: y - 1 })
    } else if y + 1 < game_area_height && tile_owned_by[x][y + 1] == player_id {
        Some(TileCoordinates { x, y: y + 1 })
    } else if x + 1 < game_area_width && tile_owned_by[x + 1][y] == player_id {
        Some(TileCoordinates { x: x + 1, y })
    } else if x > 0 && y > 0 && tile_owned_by[x - 1][y - 1] == player_id {
        Some(TileCoordinates { x: x - 1, y: y - 1 })
    } else if x > 0 && y + 1 < game_area_height && tile_owned_by[x - 1][y + 1] == player_id {
        Some(TileCoordinates { x: x - 1, y: y + 1 })
    } else if x + 1 < game_area_width && y > 0 && tile_owned_by[x + 1][y - 1] == player_id {
        Some(TileCoordinates { x: x + 1, y: y - 1 })
    } else if x + 1 < game_area_width && y + 1 < game_area_height && tile_owned_by[x + 1][y + 1]
        == player_id {
        Some(TileCoordinates { x: x + 1, y: y + 1 })
    } else {
        None
    }
}

/// True exactly when some tile of the clamped 3x3 neighborhood of
/// `(enemy_tile_x, enemy_tile_y)` is owned by `player_id`.
pub fn has_adjacent_friendly_tile(
    tile_owned_by: &Vec<Vec<i32>>,
    enemy_tile_x: i32,
    enemy_tile_y: i32,
    game_area_width: usize,
    game_area_height: usize,
    player_id: i32,
) -> (found: bool)
    requires
        grid_dims_ok(rows(tile_owned_by@), game_area_width as int, game_area_height as int),
        0 <= enemy_tile_x < game_area_width as int,
        0 <= enemy_tile_y < game_area_height as int,
    ensures
        found == adjacent_friendly(
            rows(tile_owned_by@),
            game_area_width as int,
            game_area_height as int,
            player_id,
            enemy_tile_x as int,
            enemy_tile_y as int,
        ),
{
    let closest = closest_player_settlement(
        tile_owned_by,
        enemy_tile_x,
        enemy_tile_y,
        game_area_width,
        game_area_height,
        player_id,
    );
    closest.is_some()
}

/// True exactly when every tile of the grid is owned by `player`.
pub fn is_player_wins(
    tile_owned_by: &Vec<Vec<i32>>,
    game_area_width: usize,
    game_area_height: usize,
    player: i32,
) -> (wins: bool)
    requires
        grid_dims_ok(rows(tile_owned_by@), game_area_width as int, game_area_height as int),
    ensures
        wins == all_owned(
            rows(tile_owned_by@),
            game_area_width as int,
            game_area_height as int,
            player,
        ),
{
    let mut player_wins: bool = true;
    let mut i: usize = 0;
    while i < game_area_width
        invariant
            grid_dims_ok(rows(tile_owned_by@), game_area_width as int, game_area_height as int),
            0 <= i <= game_area_width,
            player_wins == forall|a: int, b: int|
                0 <= a < i as int && 0 <= b < game_area_height as int
                    ==> #[trigger] rows(tile_owned_by@)[a][b] == player,
        decreases game_area_width - i,
    {
        let mut j: usize = 0;
        while j < game_area_height
            invariant
                grid_dims_ok(
                    rows(tile_owned_by@),
                    game_area_width as int,
                    game_area_height as int,
                ),
                0 <= i < game_area_width,
                0 <= j <= game_area_height,
                player_wins == ((forall|a: int, b: int|
                    0 <= a < i as int && 0 <= b < game_area_height as int
                        ==> #[trigger] rows(tile_owned_by@)[a][b] == player) && (forall|b: int|
                    0 <= b < j as int ==> #[trigger] rows(tile_owned_by@)[i as int][b] == player)),
            decreases game_area_height - j,
        {
            proof {
                assert(rows(tile_owned_by@)[i as int] == tile_owned_by@[i as int]@);
            }
            if tile_owned_by[i][j] != player {
                player_wins = false;
            }
            j += 1;
        }
        i += 1;
    }
    player_wins
}

} // verus!
