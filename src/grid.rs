use vstd::prelude::*;
use vstd::arithmetic::div_mod::{
    lemma_fundamental_div_mod, lemma_fundamental_div_mod_converse, lemma_mod_bound,
};
use rand::rngs::StdRng;
use rand::{Rng, SeedableRng};
use crate::camera::{
    to_grid, to_world, within, world_to_grid, CameraView, ScreenPoint, SCREEN_LIMIT,
};

verus! {

/// Each tile's terrain is classified from a uniform draw in `[0, DRAW_RANGE)`.
pub const DRAW_RANGE: u32 = 100;

/// The kind of ground a tile has.
#[derive(Debug, Clone, Copy, PartialEq, Eq, Structural)]
pub enum TerrainType {
    Flat,
    Rough,
    Crater,
    Mountain,
}

/// One cell of the map, at grid coordinate (x, y).
#[derive(Debug, Clone, Copy, PartialEq, Eq, Structural)]
pub struct MapTile {
    pub x: u32,
    pub y: u32,
    pub terrain: TerrainType,
}

/// The terrain of a map, one tile per coordinate, stored row by row: the tile
/// at (x, y) sits at index `y * width + x`.
pub struct WorldGrid {
    pub width: u32,
    pub height: u32,
    pub tiles: Vec<MapTile>,
}

/// The terrain for a uniform draw in `[0, 100)`: 0 to 70 flat, 71 to 85
/// rough, 86 to 95 crater, and the rest mountain.
pub open spec fn terrain_of(draw: int) -> TerrainType {
    if draw <= 70 {
        TerrainType::Flat
    } else if draw <= 85 {
        TerrainType::Rough
    } else if draw <= 95 {
        TerrainType::Crater
    } else {
        TerrainType::Mountain
    }
}

pub open spec fn description_of(t: TerrainType) -> Seq<char> {
    match t {
        TerrainType::Flat => "Flat terrain - Ideal for construction"@,
        TerrainType::Rough => "Rough terrain - Requires leveling"@,
        TerrainType::Crater => "Crater - Difficult to build on"@,
        TerrainType::Mountain => "Mountain - Unsuitable for construction"@,
    }
}

impl TerrainType {
    /// A sentence for the player on what the terrain means for building.
    pub fn description(&self) -> (r: &'static str)
        ensures
            r@ == description_of(*self),
    {
        match self {
            TerrainType::Flat => "Flat terrain - Ideal for construction",
            TerrainType::Rough => "Rough terrain - Requires leveling",
            TerrainType::Crater => "Crater - Difficult to build on",
            TerrainType::Mountain => "Mountain - Unsuitable for construction",
        }
    }
}

/// Classifies a uniform draw in `[0, 100)`; larger draws count as mountain.
pub fn classify(draw: u32) -> (r: TerrainType)
    ensures
        r == terrain_of(draw as int),
{
    if draw <= 70 {
        TerrainType::Flat
    } else if draw <= 85 {
        TerrainType::Rough
    } else if draw <= 95 {
        TerrainType::Crater
    } else {
        TerrainType::Mountain
    }
}

impl WorldGrid {
    /// Each tile sits at the index of its coordinate, row by row.
    pub open spec fn wf(&self) -> bool {
        &&& self.tiles@.len() == self.width * self.height
        &&& forall|i: int|
            0 <= i < self.tiles@.len() ==> {
                &&& #[trigger] self.tiles@[i].x == i % (self.width as int)
                &&& self.tiles@[i].y == i / (self.width as int)
            }
    }

    pub open spec fn in_grid(&self, x: int, y: int) -> bool {
        0 <= x < self.width && 0 <= y < self.height
    }

    /// The tile at (x, y), for a coordinate on the map.
    pub open spec fn tile_at(&self, x: int, y: int) -> MapTile {
        self.tiles@[y * self.width + x]
    }

    /// Builds the grid of `width` by `height` tiles whose terrain, row by
    /// row, classifies the draws in `draws`.
    pub fn from_draws(width: u32, height: u32, draws: &Vec<u32>) -> (r: WorldGrid)
        requires
            draws@.len() == width * height,
        ensures
            r.wf(),
            r.width == width,
            r.height == height,
            forall|i: int| 0 <= i < r.tiles@.len() ==> #[trigger] r.tiles@[i].terrain
                == terrain_of(draws@[i] as int),
    {
        let n = draws.len();
        let mut tiles: Vec<MapTile> = Vec::with_capacity(n);
        let mut i: usize = 0;
        while i < n
            invariant
                n == draws@.len(),
                n == width * height,
                i <= n,
                tiles@.len() == i,
                forall|j: int|
                    0 <= j < i ==> {
                        &&& (#[trigger] tiles@[j]).x == j % (width as int)
                        &&& tiles@[j].y == j / (width as int)
                        &&& tiles@[j].terrain == terrain_of(draws@[j] as int)
                    },
            decreases n - i,
        {
            proof {
                if width == 0 {
                    assert(n == 0) by (nonlinear_arith)
                        requires n == width * height, width == 0;
                }
                lemma_index_fits(i as int, width as int, height as int);
            }
            let w = width as usize;
            let tile = MapTile {
                x: (i % w) as u32,
                y: (i / w) as u32,
                terrain: classify(draws[i]),
            };
            tiles.push(tile);
            proof {
                assert(tiles@[i as int] == tile);
            }
            i = i + 1;
        }
        let r = WorldGrid { width, height, tiles };
        assert forall|j: int| 0 <= j < r.tiles@.len() implies {
            &&& #[trigger] r.tiles@[j].x == j % (width as int)
            &&& r.tiles@[j].y == j / (width as int)
        } by {
            assert(r.tiles@[j] == tiles@[j]);
        }
        r
    }

    /// Generates a map of `width` by `height` tiles, drawing each tile's
    /// terrain from a generator seeded with `seed`.
    pub fn generate(width: u32, height: u32, seed: u64) -> (r: WorldGrid)
        requires
            width * height <= usize::MAX,
        ensures
            r.wf(),
            r.width == width,
            r.height == height,
    {
        let n = width as usize * height as usize;
        let mut rng = seeded_rng(seed);
        let mut draws: Vec<u32> = Vec::with_capacity(n);
        let mut i: usize = 0;
        while i < n
            invariant
                i <= n,
                draws@.len() == i,
            decreases n - i,
        {
            draws.push(draw_below(&mut rng, DRAW_RANGE));
            i = i + 1;
        }
        WorldGrid::from_draws(width, height, &draws)
    }

    /// The tile at (x, y), or nothing when the coordinate is off the map.
    pub fn lookup(&self, x: i64, y: i64) -> (r: Option<MapTile>)
        requires
            self.wf(),
        ensures
            self.in_grid(x as int, y as int) ==> r == Some(self.tile_at(x as int, y as int)),
            !self.in_grid(x as int, y as int) ==> r.is_none(),
    {
        if x < 0 || y < 0 || x >= self.width as i64 || y >= self.height as i64 {
            return None;
        }
        let n = self.tiles.len();
        proof {
            lemma_coordinate_index(x as int, y as int, self.width as int, self.height as int);
            assert(0 <= (y as int) * (self.width as int) <= (y as int) * (self.width as int) + x);
        }
        let i = (y as usize) * (self.width as usize) + (x as usize);
        Some(self.tiles[i])
    }
}

impl WorldGrid {
    /// The tile under the screen point `cursor` as seen by `camera`, or
    /// nothing when that point lies off the map.
    pub open spec fn hovered(&self, camera: CameraView, cursor: ScreenPoint) -> Option<MapTile> {
        let gx = to_grid(to_world(camera.position.x as int, camera.zoom as int, cursor.x as int));
        let gy = to_grid(to_world(camera.position.y as int, camera.zoom as int, cursor.y as int));
        if self.in_grid(gx, gy) {
            Some(self.tile_at(gx, gy))
        } else {
            None
        }
    }
}

/// The tile under the screen point `cursor`, or nothing when that point
/// lies off the map.
pub fn handle_tile_hover(grid: &WorldGrid, camera: &CameraView, cursor: ScreenPoint) -> (r: Option<
    MapTile,
>)
    requires
        grid.wf(),
        camera.wf(),
        within(cursor.x as int, SCREEN_LIMIT as int),
        within(cursor.y as int, SCREEN_LIMIT as int),
    ensures
        ({
            let gx = to_grid(to_world(camera.position.x as int, camera.zoom as int, cursor.x as int));
            let gy = to_grid(to_world(camera.position.y as int, camera.zoom as int, cursor.y as int));
            &&& grid.in_grid(gx, gy) ==> r == Some(grid.tile_at(gx, gy))
            &&& !grid.in_grid(gx, gy) ==> r.is_none()
        }),
        r == grid.hovered(*camera, cursor),
{
    let world = camera.screen_to_world(cursor);
    let g = world_to_grid(world);
    grid.lookup(g.x, g.y)
}

/// How many of the draws `0, 1, ..., n - 1` give terrain `t`.
pub open spec fn draws_giving(t: TerrainType, n: nat) -> nat
    decreases n,
{
    if n == 0 {
        0
    } else {
        draws_giving(t, (n - 1) as nat) + if terrain_of(n - 1) == t {
            1nat
        } else {
            0nat
        }
    }
}

/// Of the hundred equally likely draws, 71 give flat terrain, 15 rough, 10
/// crater and 4 mountain: the shares that generation aims at.
pub proof fn terrain_shares_of_the_cutoffs()
    ensures
        draws_giving(TerrainType::Flat, 100) == 71,
        draws_giving(TerrainType::Rough, 100) == 15,
        draws_giving(TerrainType::Crater, 100) == 10,
        draws_giving(TerrainType::Mountain, 100) == 4,
{
    lemma_draws_giving(100);
}

proof fn lemma_draws_giving(n: nat)
    ensures
        draws_giving(TerrainType::Flat, n) == if n <= 71 { n as int } else { 71 },
        draws_giving(TerrainType::Rough, n) == if n <= 71 {
            0
        } else if n <= 86 {
            n - 71
        } else {
            15
        },
        draws_giving(TerrainType::Crater, n) == if n <= 86 {
            0
        } else if n <= 96 {
            n - 86
        } else {
            10
        },
        draws_giving(TerrainType::Mountain, n) == if n <= 96 { 0 } else { n - 96 },
    decreases n,
{
    if n > 0 {
        lemma_draws_giving((n - 1) as nat);
    }
}

/// A well-formed grid has exactly `width * height` tiles, each on the map,
/// and every coordinate of the map appears exactly once among them.
pub proof fn grid_covers_each_coordinate_once(g: &WorldGrid)
    requires
        g.wf(),
    ensures
        g.tiles@.len() == g.width * g.height,
        forall|i: int|
            0 <= i < g.tiles@.len() ==> g.in_grid(
                #[trigger] g.tiles@[i].x as int,
                g.tiles@[i].y as int,
            ),
        forall|i: int, j: int|
            0 <= i < g.tiles@.len() && 0 <= j < g.tiles@.len() && #[trigger] g.tiles@[i].x
                == #[trigger] g.tiles@[j].x && g.tiles@[i].y == g.tiles@[j].y ==> i == j,
        forall|x: int, y: int|
            #![trigger g.in_grid(x, y)]
            g.in_grid(x, y) ==> exists|i: int|
                0 <= i < g.tiles@.len() && g.tiles@[i].x == x && g.tiles@[i].y == y,
{
    let w = g.width as int;
    let h = g.height as int;
    assert forall|i: int| 0 <= i < g.tiles@.len() implies g.in_grid(
        #[trigger] g.tiles@[i].x as int,
        g.tiles@[i].y as int,
    ) by {
        lemma_index_fits(i, w, h);
    }
    assert forall|i: int, j: int|
        0 <= i < g.tiles@.len() && 0 <= j < g.tiles@.len() && #[trigger] g.tiles@[i].x
            == #[trigger] g.tiles@[j].x && g.tiles@[i].y == g.tiles@[j].y implies i == j by {
        lemma_index_fits(i, w, h);
        lemma_fundamental_div_mod(i, w);
        lemma_fundamental_div_mod(j, w);
    }
    assert forall|x: int, y: int| #![trigger g.in_grid(x, y)] g.in_grid(x, y) implies exists|i: int|
        0 <= i < g.tiles@.len() && g.tiles@[i].x == x && g.tiles@[i].y == y by {
        lemma_coordinate_index(x, y, w, h);
        let i = y * w + x;
        assert(0 <= i < g.tiles@.len());
        assert(g.tiles@[i].x == i % w);
        assert(g.tiles@[i].x == x && g.tiles@[i].y == y);
    }
}

/// Index `i` of a `w` by `h` grid lies in column `i % w` and row `i / w`.
proof fn lemma_index_fits(i: int, w: int, h: int)
    requires
        0 <= i < w * h,
        0 <= h,
    ensures
        w > 0,
        0 <= i % w < w,
        0 <= i / w < h,
{
    if w <= 0 {
        assert(w * h <= 0) by (nonlinear_arith)
            requires w <= 0, 0 <= h;
    }
    lemma_fundamental_div_mod(i, w);
    lemma_mod_bound(i, w);
    assert(0 <= i / w < h) by (nonlinear_arith)
        requires w > 0, 0 <= i < w * h, i == w * (i / w) + i % w, 0 <= i % w < w;
}

/// The coordinate (x, y) of a `w` by `h` grid has index `y * w + x`, and
/// that index maps back to it.
proof fn lemma_coordinate_index(x: int, y: int, w: int, h: int)
    requires
        0 <= x < w,
        0 <= y < h,
    ensures
        0 <= y * w + x < w * h,
        (y * w + x) % w == x,
        (y * w + x) / w == y,
{
    assert(0 <= y * w + x < w * h) by (nonlinear_arith)
        requires 0 <= x < w, 0 <= y < h;
    lemma_fundamental_div_mod_converse(y * w + x, w, y, x);
}

/// Relies on `SeedableRng::seed_from_u64` to build the standard generator
/// from a seed; nothing is stated of the generator it returns.
#[verifier::external_body]
fn seeded_rng(seed: u64) -> StdRng {
    StdRng::seed_from_u64(seed)
}

/// Relies on `Rng::gen_range` on `0..bound`: a draw in that range, which is
/// not empty.
#[verifier::external_body]
fn draw_below(rng: &mut StdRng, bound: u32) -> (r: u32)
    requires
        bound > 0,
    ensures
        r < bound,
{
    rng.gen_range(0..bound)
}

#[verifier::external_type_specification]
#[verifier::external_body]
pub struct ExStdRng(StdRng);

} // verus!
