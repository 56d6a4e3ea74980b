//! The tile grid: a rectangular `width x height` array of tiles, stored
//! column-major as parallel `Vec<Vec<i32>>` planes (`plane[x][y]`), one per
//! tile attribute. The mathematical model of a plane is a `Seq<Seq<i32>>`.

use vstd::prelude::*;

use crate::population_utility::level_of;

verus! {

/// The abstract value of one attribute plane: the sequence of its columns,
/// each column the sequence of that attribute down the column's tiles.
pub open spec fn rows(v: Seq<Vec<i32>>) -> Seq<Seq<i32>> {
    Seq::new(v.len(), |i: int| v[i]@)
}

/// A plane is a well-formed `w x h` rectangle: `w` columns of `h` cells each.
pub open spec fn grid_dims_ok(m: Seq<Seq<i32>>, w: int, h: int) -> bool {
    &&& m.len() == w
    &&& forall|i: int| 0 <= i < w ==> (#[trigger] m[i]).len() == h
}

/// Cell `(i, j)` lies on the grid and is owned by faction `f`.
pub open spec fn cell_owned(own: Seq<Seq<i32>>, w: int, h: int, f: i32, i: int, j: int) -> bool {
    &&& 0 <= i < w
    &&& 0 <= j < h
    &&& own[i][j] == f
}

/// Every cell of the grid is owned by faction `f`. Vacuously true on an
/// empty grid.
pub open spec fn all_owned(own: Seq<Seq<i32>>, w: int, h: int, f: i32) -> bool {
    forall|i: int, j: int| 0 <= i < w && 0 <= j < h ==> #[trigger] own[i][j] == f
}

/// The plane `m` with cell `(x, y)` replaced by `v`.
pub open spec fn upd(m: Seq<Seq<i32>>, x: int, y: int, v: i32) -> Seq<Seq<i32>> {
    m.update(x, m[x].update(y, v))
}

/// Writing one cell of a stored plane updates exactly that cell of its
/// abstract value.
pub proof fn lemma_rows_set(old_v: Seq<Vec<i32>>, new_v: Seq<Vec<i32>>, x: int, y: int, val: i32)
    requires
        0 <= x < old_v.len(),
        new_v.len() == old_v.len(),
        forall|i: int| 0 <= i < old_v.len() && i != x ==> new_v[i] == #[trigger] old_v[i],
        new_v[x]@ == old_v[x]@.update(y, val),
    ensures
        rows(new_v) == upd(rows(old_v), x, y, val),
{
    assert(rows(new_v) =~~= upd(rows(old_v), x, y, val));
}

/// A `w x h` plane holding `v` in every cell.
pub open spec fn const_plane(w: int, h: int, v: i32) -> Seq<Seq<i32>> {
    Seq::new(w as nat, |i: int| Seq::new(h as nat, |j: int| v))
}

/// The starting ownership plane: the top half of every column (the cells
/// with `y` below `height / 2`) belongs to faction 0, the rest to faction 1.
pub open spec fn split_owner_plane(w: int, h: int) -> Seq<Seq<i32>> {
    Seq::new(
        w as nat,
        |i: int| Seq::new(h as nat, |j: int| if j < h / 2 { 0i32 } else { 1i32 }),
    )
}

/// The value of one grid cell.
#[derive(Clone, Copy, Debug, PartialEq, Eq, Structural)]
pub struct Tile {
    /// Faction that owns the tile.
    pub owner: i32,
    /// Number of inhabitants.
    pub population: i32,
    /// Settlement level, derived from the population by the classifier.
    pub improvement_level: i32,
    /// Cash required for the next growth action on this tile.
    pub improvement_cost: i32,
}

/// The abstract value of a grid: its dimensions and the four attribute
/// planes.
#[verifier::ext_equal]
pub struct GridView {
    pub width: int,
    pub height: int,
    pub owner: Seq<Seq<i32>>,
    pub population: Seq<Seq<i32>>,
    pub level: Seq<Seq<i32>>,
    pub cost: Seq<Seq<i32>>,
}

/// A rectangular `width x height` array of tiles, held as four parallel
/// attribute planes indexed `plane[x][y]`.
pub struct TileGrid {
    pub width: usize,
    pub height: usize,
    pub tile_owned_by: Vec<Vec<i32>>,
    pub tile_population_number: Vec<Vec<i32>>,
    pub tile_improvement_level: Vec<Vec<i32>>,
    pub tile_improvement_cost: Vec<Vec<i32>>,
}

impl View for TileGrid {
    type V = GridView;

    open spec fn view(&self) -> GridView {
        GridView {
            width: self.width as int,
            height: self.height as int,
            owner: rows(self.tile_owned_by@),
            population: rows(self.tile_population_number@),
            level: rows(self.tile_improvement_level@),
            cost: rows(self.tile_improvement_cost@),
        }
    }
}

/// Structural well-formedness of a grid view: all four planes are
/// `width x height` rectangles.
pub open spec fn grid_dims(g: GridView) -> bool {
    &&& g.width >= 0
    &&& g.height >= 0
    &&& grid_dims_ok(g.owner, g.width, g.height)
    &&& grid_dims_ok(g.population, g.width, g.height)
    &&& grid_dims_ok(g.level, g.width, g.height)
    &&& grid_dims_ok(g.cost, g.width, g.height)
}

/// Semantic invariant of the tile data, for a game of `nfactions` factions
/// whose growth actions cost `base_cost` per level: every owner id is a
/// valid faction, populations are never negative, every tile's level is
/// what the classifier derives from its population, and every tile's cost
/// is the base cost scaled by the level above its current one.
pub open spec fn grid_inv(g: GridView, nfactions: int, base_cost: int) -> bool {
    &&& grid_dims(g)
    &&& forall|i: int, j: int|
        0 <= i < g.width && 0 <= j < g.height ==> 0 <= #[trigger] g.owner[i][j] < nfactions
    &&& forall|i: int, j: int|
        0 <= i < g.width && 0 <= j < g.height ==> #[trigger] g.population[i][j] >= 0
    &&& forall|i: int, j: int|
        0 <= i < g.width && 0 <= j < g.height ==> #[trigger] g.level[i][j] == level_of(
            g.population[i][j] as int,
        )
    &&& forall|i: int, j: int|
        0 <= i < g.width && 0 <= j < g.height ==> #[trigger] g.cost[i][j] == base_cost * (
        g.level[i][j] + 1)
}

impl TileGrid {
    /// The stored planes really are `width x height` rectangles.
    pub open spec fn wf(&self) -> bool {
        grid_dims(self@)
    }

    /// A fresh grid: ownership split between the top and bottom half of
    /// each column, every tile seeded with one inhabitant at level 0 and
    /// a first growth action costing `tile_improvement_base_cost`.
    pub fn new(width: usize, height: usize, tile_improvement_base_cost: i32) -> (grid: TileGrid)
        requires
            tile_improvement_base_cost >= 0,
        ensures
            grid.wf(),
            grid.width == width,
            grid.height == height,
            grid@.owner == split_owner_plane(width as int, height as int),
            grid@.population == const_plane(width as int, height as int, 1),
            grid@.level == const_plane(width as int, height as int, 0),
            grid@.cost == const_plane(
                width as int,
                height as int,
                tile_improvement_base_cost,
            ),
            grid_inv(grid@, 2, tile_improvement_base_cost as int),
    {
        let mut tile_owned_by: Vec<Vec<i32>> = Vec::new();
        let mut tile_population_number: Vec<Vec<i32>> = Vec::new();
        let mut tile_improvement_level: Vec<Vec<i32>> = Vec::new();
        let mut tile_improvement_cost: Vec<Vec<i32>> = Vec::new();
        let mut i: usize = 0;
        while i < width
            invariant
                0 <= i <= width,
                tile_owned_by@.len() == i,
                tile_population_number@.len() == i,
                tile_improvement_level@.len() == i,
                tile_improvement_cost@.len() == i,
                forall|a: int|
                    0 <= a < i as int ==> (#[trigger] tile_owned_by@[a])@ == Seq::new(
                        height as nat,
                        |j: int| if j < height as int / 2 { 0i32 } else { 1i32 },
                    ),
                forall|a: int|
                    0 <= a < i as int ==> (#[trigger] tile_population_number@[a])@ == Seq::new(
                        height as nat,
                        |j: int| 1i32,
                    ),
                forall|a: int|
                    0 <= a < i as int ==> (#[trigger] tile_improvement_level@[a])@ == Seq::new(
                        height as nat,
                        |j: int| 0i32,
                    ),
                forall|a: int|
                    0 <= a < i as int ==> (#[trigger] tile_improvement_cost@[a])@ == Seq::new(
                        height as nat,
                        |j: int| tile_improvement_base_cost,
                    ),
            decreases width - i,
        {
            let mut col_owner: Vec<i32> = Vec::new();
            let mut col_population: Vec<i32> = Vec::new();
            let mut col_level: Vec<i32> = Vec::new();
            let mut col_cost: Vec<i32> = Vec::new();
            let mut j: usize = 0;
            while j < height
                invariant
                    0 <= j <= height,
                    col_owner@.len() == j,
                    col_population@.len() == j,
                    col_level@.len() == j,
                    col_cost@.len() == j,
                    forall|b: int|
                        0 <= b < j as int ==> #[trigger] col_owner@[b] == (if b
                            < height as int / 2 {
                            0i32
                        } else {
                            1i32
                        }),
                    forall|b: int| 0 <= b < j as int ==> #[trigger] col_population@[b] == 1i32,
                    forall|b: int| 0 <= b < j as int ==> #[trigger] col_level@[b] == 0i32,
                    forall|b: int|
                        0 <= b < j as int ==> #[trigger] col_cost@[b]
                            == tile_improvement_base_cost,
                decreases height - j,
            {
                if j < height / 2 {
                    col_owner.push(0);
                } else {
                    col_owner.push(1);
                }
                col_population.push(1);
                col_level.push(0);
                col_cost.push(tile_improvement_base_cost);
                j += 1;
            }
            proof {
                assert(col_owner@ =~= Seq::new(
                    height as nat,
                    |j: int| if j < height as int / 2 { 0i32 } else { 1i32 },
                ));
                assert(col_population@ =~= Seq::new(height as nat, |j: int| 1i32));
                assert(col_level@ =~= Seq::new(height as nat, |j: int| 0i32));
                assert(col_cost@ =~= Seq::new(height as nat, |j: int| tile_improvement_base_cost));
            }
            tile_owned_by.push(col_owner);
            tile_population_number.push(col_population);
            tile_improvement_level.push(col_level);
            tile_improvement_cost.push(col_cost);
            i += 1;
        }
        let grid = TileGrid {
            width,
            height,
            tile_owned_by,
            tile_population_number,
            tile_improvement_level,
            tile_improvement_cost,
        };
        proof {
            assert(grid@.owner =~~= split_owner_plane(width as int, height as int));
            assert(grid@.population =~~= const_plane(width as int, height as int, 1));
            assert(grid@.level =~~= const_plane(width as int, height as int, 0));
            assert(grid@.cost =~~= const_plane(
                width as int,
                height as int,
                tile_improvement_base_cost,
            ));
            assert forall|i: int, j: int|
                0 <= i < width as int && 0 <= j < height as int implies {
                &&& 0 <= grid@.owner[i][j] < 2
                &&& grid@.population[i][j] >= 0
                &&& grid@.level[i][j] == level_of(grid@.population[i][j] as int)
                &&& grid@.cost[i][j] == tile_improvement_base_cost as int * (grid@.level[i][j]
                    + 1)
            } by {
                assert(grid@.population[i][j] == 1);
                assert(grid@.level[i][j] == 0);
                assert(grid@.cost[i][j] == tile_improvement_base_cost);
                assert(level_of(1) == 0);
                assert(grid@.owner[i][j] == (if j < height as int / 2 {
                    0i32
                } else {
                    1i32
                }));
            }
        }
        grid
    }

    /// Read the tile at `(x, y)`. Out-of-range coordinates are ruled out by
    /// the precondition: the caller validates bounds.
    pub fn get(&self, x: usize, y: usize) -> (tile: Tile)
        requires
            self.wf(),
            x < self.width,
            y < self.height,
        ensures
            tile.owner == self@.owner[x as int][y as int],
            tile.population == self@.population[x as int][y as int],
            tile.improvement_level == self@.level[x as int][y as int],
            tile.improvement_cost == self@.cost[x as int][y as int],
    {
        proof {
            assert(rows(self.tile_owned_by@)[x as int] == self.tile_owned_by@[x as int]@);
            assert(rows(self.tile_population_number@)[x as int] == self.tile_population_number@[x as int]@);
            assert(rows(self.tile_improvement_level@)[x as int] == self.tile_improvement_level@[x as int]@);
            assert(rows(self.tile_improvement_cost@)[x as int] == self.tile_improvement_cost@[x as int]@);
        }
        Tile {
            owner: self.tile_owned_by[x][y],
            population: self.tile_population_number[x][y],
            improvement_level: self.tile_improvement_level[x][y],
            improvement_cost: self.tile_improvement_cost[x][y],
        }
    }

    /// Write the tile at `(x, y)`. Out-of-range coordinates are ruled out by
    /// the precondition: the caller validates bounds.
    pub fn set(&mut self, x: usize, y: usize, tile: Tile)
        requires
            old(self).wf(),
            x < old(self).width,
            y < old(self).height,
        ensures
            final(self).wf(),
            final(self).width == old(self).width,
            final(self).height == old(self).height,
            final(self)@.owner == upd(old(self)@.owner, x as int, y as int, tile.owner),
            final(self)@.population == upd(
                old(self)@.population,
                x as int,
                y as int,
                tile.population,
            ),
            final(self)@.level == upd(old(self)@.level, x as int, y as int, tile.improvement_level),
            final(self)@.cost == upd(old(self)@.cost, x as int, y as int, tile.improvement_cost),
    {
        let ghost old_owner = self.tile_owned_by@;
        let ghost old_population = self.tile_population_number@;
        let ghost old_level = self.tile_improvement_level@;
        let ghost old_cost = self.tile_improvement_cost@;
        proof {
            assert(rows(old_owner)[x as int] == old_owner[x as int]@);
            assert(rows(old_population)[x as int] == old_population[x as int]@);
            assert(rows(old_level)[x as int] == old_level[x as int]@);
            assert(rows(old_cost)[x as int] == old_cost[x as int]@);
        }
        self.tile_owned_by[x][y] = tile.owner;
        self.tile_population_number[x][y] = tile.population;
        self.tile_improvement_level[x][y] = tile.improvement_level;
        self.tile_improvement_cost[x][y] = tile.improvement_cost;
        proof {
            lemma_rows_set(old_owner, self.tile_owned_by@, x as int, y as int, tile.owner);
            lemma_rows_set(
                old_population,
                self.tile_population_number@,
                x as int,
                y as int,
                tile.population,
            );
            lemma_rows_set(
                old_level,
                self.tile_improvement_level@,
                x as int,
                y as int,
                tile.improvement_level,
            );
            lemma_rows_set(
                old_cost,
                self.tile_improvement_cost@,
                x as int,
                y as int,
                tile.improvement_cost,
            );
        }
    }

    /// All coordinates currently owned by `faction`, column by column in
    /// the scan order of the stored planes: the finite, restartable
    /// sequence behind every ownership aggregate.
    pub fn owned_by(&self, faction: i32) -> (coords: Vec<crate::tile_utility::TileCoordinates>)
        requires
            self.wf(),
        ensures
            forall|k: int|
                0 <= k < coords@.len() ==> cell_owned(
                    self@.owner,
                    self@.width,
                    self@.height,
                    faction,
                    (#[trigger] coords@[k]).x as int,
                    coords@[k].y as int,
                ),
            forall|i: int, j: int|
                #[trigger] cell_owned(self@.owner, self@.width, self@.height, faction, i, j)
                    ==> coords@.contains(
                    (crate::tile_utility::TileCoordinates { x: i as usize, y: j as usize }),
                ),
            forall|k1: int, k2: int|
                0 <= k1 < k2 < coords@.len() ==> ((#[trigger] coords@[k1]).x
                    < (#[trigger] coords@[k2]).x || (coords@[k1].x == coords@[k2].x
                    && coords@[k1].y < coords@[k2].y)),
    {
        let ghost own: Seq<Seq<i32>> = self@.owner;
        let ghost w: int = self@.width;
        let ghost h: int = self@.height;
        let mut coords: Vec<crate::tile_utility::TileCoordinates> = Vec::new();
        let mut i: usize = 0;
        while i < self.width
            invariant
                self.wf(),
                own == self@.owner,
                w == self@.width,
                h == self@.height,
                0 <= i <= self.width,
                forall|k: int|
                    0 <= k < coords@.len() ==> cell_owned(
                        own,
                        w,
                        h,
                        faction,
                        (#[trigger] coords@[k]).x as int,
                        coords@[k].y as int,
                    ),
                forall|a: int, b: int|
                    0 <= a < i as int && #[trigger] cell_owned(own, w, h, faction, a, b)
                        ==> coords@.contains(
                        (crate::tile_utility::TileCoordinates { x: a as usize, y: b as usize }),
                    ),
                forall|k: int|
                    0 <= k < coords@.len() ==> (#[trigger] coords@[k]).x < i,
                forall|k1: int, k2: int|
                    0 <= k1 < k2 < coords@.len() ==> ((#[trigger] coords@[k1]).x
                        < (#[trigger] coords@[k2]).x || (coords@[k1].x == coords@[k2].x
                        && coords@[k1].y < coords@[k2].y)),
            decreases self.width - i,
        {
            let mut j: usize = 0;
            while j < self.height
                invariant
                    self.wf(),
                    own == self@.owner,
                    w == self@.width,
                    h == self@.height,
                    0 <= i < self.width,
                    0 <= j <= self.height,
                    forall|k: int|
                        0 <= k < coords@.len() ==> cell_owned(
                            own,
                            w,
                            h,
                            faction,
                            (#[trigger] coords@[k]).x as int,
                            coords@[k].y as int,
                        ),
                    forall|a: int, b: int|
                        0 <= a < i as int && #[trigger] cell_owned(own, w, h, faction, a, b)
                            ==> coords@.contains(
                            (crate::tile_utility::TileCoordinates {
                                x: a as usize,
                                y: b as usize,
                            }),
                        ),
                    forall|b: int|
                        0 <= b < j as int && #[trigger] cell_owned(own, w, h, faction, i as int, b)
                            ==> coords@.contains(
                            (crate::tile_utility::TileCoordinates {
                                x: i,
                                y: b as usize,
                            }),
                        ),
                    forall|k: int|
                        0 <= k < coords@.len() ==> ((#[trigger] coords@[k]).x < i || (
                        coords@[k].x == i && coords@[k].y < j)),
                    forall|k1: int, k2: int|
                        0 <= k1 < k2 < coords@.len() ==> ((#[trigger] coords@[k1]).x
                            < (#[trigger] coords@[k2]).x || (coords@[k1].x == coords@[k2].x
                            && coords@[k1].y < coords@[k2].y)),
                decreases self.height - j,
            {
                proof {
                    assert(rows(self.tile_owned_by@)[i as int] == self.tile_owned_by@[i as int]@);
                }
                if self.tile_owned_by[i][j] == faction {
                    let ghost before = coords@;
                    coords.push(crate::tile_utility::TileCoordinates { x: i, y: j });
                    proof {
                        assert(coords@[before.len() as int] == (crate::tile_utility::TileCoordinates {
                            x: i,
                            y: j,
                        }));
                        assert(forall|k: int| 0 <= k < before.len() ==> coords@[k] == before[k]);
                        assert forall|b: int|
                            0 <= b < j + 1 && #[trigger] cell_owned(own, w, h, faction, i as int, b)
                                implies coords@.contains(
                            (crate::tile_utility::TileCoordinates {
                                x: i,
                                y: b as usize,
                            }),
                        ) by {
                            if b == j as int {
                                assert(coords@[before.len() as int]
                                    == (crate::tile_utility::TileCoordinates {
                                    x: i,
                                    y: b as usize,
                                }));
                            } else {
                                assert(before.contains(
                                    (crate::tile_utility::TileCoordinates {
                                        x: i,
                                        y: b as usize,
                                    }),
                                ));
                                let k = choose|k: int|
                                    0 <= k < before.len() && before[k]
                                        == (crate::tile_utility::TileCoordinates {
                                        x: i,
                                        y: b as usize,
                                    });
                                assert(coords@[k] == (crate::tile_utility::TileCoordinates {
                                    x: i,
                                    y: b as usize,
                                }));
                            }
                        }
                        assert forall|a: int, b: int|
                            0 <= a < i as int && #[trigger] cell_owned(own, w, h, faction, a, b)
                                implies coords@.contains(
                            (crate::tile_utility::TileCoordinates {
                                x: a as usize,
                                y: b as usize,
                            }),
                        ) by {
                            assert(before.contains(
                                (crate::tile_utility::TileCoordinates {
                                    x: a as usize,
                                    y: b as usize,
                                }),
                            ));
                            let k = choose|k: int|
                                0 <= k < before.len() && before[k]
                                    == (crate::tile_utility::TileCoordinates {
                                    x: a as usize,
                                    y: b as usize,
                                });
                            assert(coords@[k] == (crate::tile_utility::TileCoordinates {
                                x: a as usize,
                                y: b as usize,
                            }));
                        }
                    }
                }
                j += 1;
            }
            i += 1;
        }
        coords
    }

    /// Sum of the population of every tile owned by `faction`.
    pub fn total_population(&self, faction: i32) -> (total: i32)
        requires
            self.wf(),
            forall|i: int, j: int|
                0 <= i < self@.width && 0 <= j < self@.height
                    ==> #[trigger] self@.population[i][j] >= 0,
            crate::population_utility::total_population_of(
                self@.population,
                self@.owner,
                faction,
                self@.width,
                self@.height,
            ) <= i32::MAX,
        ensures
            total == crate::population_utility::total_population_of(
                self@.population,
                self@.owner,
                faction,
                self@.width,
                self@.height,
            ),
            total >= 0,
    {
        crate::population_utility::get_total_population(
            faction,
            &self.tile_population_number,
            &self.tile_owned_by,
            self.width,
            self.height,
        )
    }

    /// True exactly when every tile of the grid is owned by `faction`;
    /// vacuously true on an empty grid.
    pub fn all_owned_by(&self, faction: i32) -> (wins: bool)
        requires
            self.wf(),
        ensures
            wins == all_owned(self@.owner, self@.width, self@.height, faction),
    {
        crate::tile_utility::is_player_wins(&self.tile_owned_by, self.width, self.height, faction)
    }
}

} // verus!
