//! Static tile records and the noise-driven chunk populator.
//!
//! A [`TileChunk`] covers a `width x height` grid of cells. Populating it
//! assigns each cell a terrain category from a coherent-noise sample and
//! picks a variant uniformly at random within that category's list. Noise
//! samples arrive as thousandths of the raw `[-1, 1]` value; the sample
//! coordinates for each cell are exact rationals handed out by
//! [`TileChunk::noise_point`].

use vstd::prelude::*;
use crate::geometry::Vec2i;

verus! {

/// Atlas coordinates and tile sizes stay within this bound so that the
/// source-rectangle arithmetic cannot overflow.
pub const MAX_TILE_DIM: i64 = 0x10000;

/// Chunk dimensions (in tiles) stay within this bound.
pub const MAX_CHUNK_DIM: u32 = 0x10000;

/// World coordinates of a chunk origin stay within this bound so that tile
/// positions cannot overflow.
pub const MAX_CHUNK_POS: i64 = 0x1000_0000_0000;

/// Noise samples below this threshold (in thousandths) select the grass
/// category; at or above it, dirt.
pub const DIRT_THRESHOLD: i32 = 200;

/// Noise samples below this threshold also select grass; the branch is kept
/// apart from the main grass branch because the two thresholds are tuned
/// independently, although today they pick the same category.
pub const LOW_THRESHOLD: i32 = -200;

/// An immutable tile record: a numeric id, a display name, a world position,
/// the tile's cell in the atlas (in tile-grid units) and its size in pixels.
#[derive(Clone, Copy, Debug)]
pub struct Tile {
    pub id: u32,
    pub name: &'static str,
    pub position: Vec2i,
    pub tile_pos: Vec2i,
    pub tile_size: i64,
}

/// The draw data for one tile: destination position and the source rectangle
/// of the atlas, `tile_pos` scaled to pixels.
#[derive(Clone, Copy, Debug, PartialEq, Eq, Structural)]
pub struct TileDraw {
    pub x: i64,
    pub y: i64,
    pub source_x: i64,
    pub source_y: i64,
    pub source_size: i64,
}

impl Tile {
    /// Bounds on the atlas coordinate and tile size under which draw and
    /// position arithmetic cannot overflow.
    pub open spec fn fits(self) -> bool {
        &&& 0 <= self.tile_size <= MAX_TILE_DIM
        &&& -MAX_TILE_DIM <= self.tile_pos.x <= MAX_TILE_DIM
        &&& -MAX_TILE_DIM <= self.tile_pos.y <= MAX_TILE_DIM
    }

    pub fn new(id: u32, name: &'static str, position: Vec2i, tile_pos: Vec2i, tile_size: i64) -> (t:
        Tile)
        ensures
            t.id == id,
            t.name@ == name@,
            t.position == position,
            t.tile_pos == tile_pos,
            t.tile_size == tile_size,
    {
        Tile { id, name, position, tile_pos, tile_size }
    }

    /// The draw data for this tile: the atlas source rectangle is the
    /// `tile_pos` cell scaled by the tile size, the destination is the
    /// tile's world position.
    pub fn draw(&self) -> (r: TileDraw)
        requires
            self.fits(),
        ensures
            r == (TileDraw {
                x: self.position.x,
                y: self.position.y,
                source_x: (self.tile_pos.x * self.tile_size) as i64,
                source_y: (self.tile_pos.y * self.tile_size) as i64,
                source_size: self.tile_size,
            }),
    {
        proof {
            assert(-0x10000 * 0x10000 <= self.tile_pos.x as int * self.tile_size as int <= 0x10000
                * 0x10000) by (nonlinear_arith)
                requires
                    -0x10000 <= self.tile_pos.x as int <= 0x10000,
                    0 <= self.tile_size as int <= 0x10000,
            ;
            assert(-0x10000 * 0x10000 <= self.tile_pos.y as int * self.tile_size as int <= 0x10000
                * 0x10000) by (nonlinear_arith)
                requires
                    -0x10000 <= self.tile_pos.y as int <= 0x10000,
                    0 <= self.tile_size as int <= 0x10000,
            ;
        }
        TileDraw {
            x: self.position.x,
            y: self.position.y,
            source_x: self.tile_pos.x * self.tile_size,
            source_y: self.tile_pos.y * self.tile_size,
            source_size: self.tile_size,
        }
    }
}

/// A terrain category: which variant list a cell draws from.
#[derive(Clone, Copy, Debug, PartialEq, Eq, Structural)]
pub enum Category {
    Grass,
    Dirt,
}

/// The category selected by a noise sample (in thousandths of the raw
/// value): grass below the threshold, dirt at or above it.
pub open spec fn spec_category(noise_milli: i32) -> Category {
    if noise_milli < LOW_THRESHOLD {
        Category::Grass
    } else if noise_milli < DIRT_THRESHOLD {
        Category::Grass
    } else {
        Category::Dirt
    }
}

/// Selects a cell's terrain category from its noise sample.
pub fn select_category(noise_milli: i32) -> (c: Category)
    ensures
        c == spec_category(noise_milli),
{
    if noise_milli < LOW_THRESHOLD {
        Category::Grass
    } else if noise_milli < DIRT_THRESHOLD {
        Category::Grass
    } else {
        Category::Dirt
    }
}

/// Whether `t` was stamped from the variant `v`: same id, name, atlas cell
/// and size — everything but the world position.
pub open spec fn matches_variant(t: Tile, v: Tile) -> bool {
    &&& t.id == v.id
    &&& t.name@ == v.name@
    &&& t.tile_pos == v.tile_pos
    &&& t.tile_size == v.tile_size
}

/// Whether `t` was stamped from some variant in `list`.
pub open spec fn variant_of(t: Tile, list: Seq<Tile>) -> bool {
    exists|j: int| 0 <= j < list.len() && matches_variant(t, #[trigger] list[j])
}

/// What populating guarantees of the tile at cell index `idx` (row-major):
/// its position is the cell's corner offset by the chunk origin, and it is a
/// variant of the category selected by the cell's noise sample.
pub open spec fn cell_ok(
    t: Tile,
    idx: int,
    width: int,
    origin: Vec2i,
    noise_milli: i32,
    grass: Seq<Tile>,
    dirt: Seq<Tile>,
) -> bool {
    &&& t.position.x == (idx % width) * t.tile_size + origin.x
    &&& t.position.y == (idx / width) * t.tile_size + origin.y
    &&& if spec_category(noise_milli) is Grass {
        variant_of(t, grass)
    } else {
        variant_of(t, dirt)
    }
}

/// The exact rational coordinates at which the noise field is sampled for
/// one cell: `(x + origin.x / width) / width` and the same for `y`, kept as
/// numerator and denominator.
#[derive(Clone, Copy, Debug, PartialEq, Eq, Structural)]
pub struct NoisePoint {
    pub nx_num: i64,
    pub nx_den: i64,
    pub ny_num: i64,
    pub ny_den: i64,
}

/// A rectangular block of tiles generated together: a world-space origin,
/// dimensions in tiles, the nominal tile size in pixels, and the tiles in
/// row-major generation order (the order matters for rendering only).
pub struct TileChunk {
    pub position: Vec2i,
    pub tiles: Vec<Tile>,
    pub width: u32,
    pub height: u32,
    pub sprite_size: i64,
}

impl TileChunk {
    /// Bounds on the dimensions and origin under which population and
    /// sampling arithmetic cannot overflow.
    pub open spec fn fits(self) -> bool {
        &&& self.width <= MAX_CHUNK_DIM
        &&& self.height <= MAX_CHUNK_DIM
        &&& -MAX_CHUNK_POS <= self.position.x <= MAX_CHUNK_POS
        &&& -MAX_CHUNK_POS <= self.position.y <= MAX_CHUNK_POS
    }

    /// An empty chunk at the given origin; [`TileChunk::populate`] fills it.
    pub fn new(position: Vec2i, width: u32, height: u32, sprite_size: i64) -> (c: TileChunk)
        ensures
            c.position == position,
            c.tiles@.len() == 0,
            c.width == width,
            c.height == height,
            c.sprite_size == sprite_size,
    {
        TileChunk { position, tiles: Vec::new(), width, height, sprite_size }
    }

    /// The exact coordinates at which the noise field is sampled for cell
    /// `(x, y)`: `nx = (x * width + origin.x) / width^2`, which is
    /// `(x + origin.x / width) / width`, tying the noise phase to the
    /// chunk's world position; likewise for `y` with the height.
    pub fn noise_point(&self, x: u32, y: u32) -> (p: NoisePoint)
        requires
            self.fits(),
            0 < self.width,
            0 < self.height,
            x < self.width,
            y < self.height,
        ensures
            p.nx_num == x * self.width + self.position.x,
            p.nx_den == self.width * self.width,
            p.ny_num == y * self.height + self.position.y,
            p.ny_den == self.height * self.height,
    {
        proof {
            vstd::arithmetic::mul::lemma_mul_upper_bound(
                x as int,
                MAX_CHUNK_DIM as int,
                self.width as int,
                MAX_CHUNK_DIM as int,
            );
            vstd::arithmetic::mul::lemma_mul_upper_bound(
                y as int,
                MAX_CHUNK_DIM as int,
                self.height as int,
                MAX_CHUNK_DIM as int,
            );
            vstd::arithmetic::mul::lemma_mul_upper_bound(
                self.width as int,
                MAX_CHUNK_DIM as int,
                self.width as int,
                MAX_CHUNK_DIM as int,
            );
            vstd::arithmetic::mul::lemma_mul_upper_bound(
                self.height as int,
                MAX_CHUNK_DIM as int,
                self.height as int,
                MAX_CHUNK_DIM as int,
            );
            vstd::arithmetic::mul::lemma_mul_strictly_positive(x as int, self.width as int);
            vstd::arithmetic::mul::lemma_mul_strictly_positive(y as int, self.height as int);
        }
        let nx_num: i64 = (x as i64) * (self.width as i64) + self.position.x;
        let nx_den: i64 = (self.width as i64) * (self.width as i64);
        let ny_num: i64 = (y as i64) * (self.height as i64) + self.position.y;
        let ny_den: i64 = (self.height as i64) * (self.height as i64);
        NoisePoint { nx_num, nx_den, ny_num, ny_den }
    }

    /// Fills the chunk: walks the grid row-major (all of row `y = 0` first,
    /// ascending `x` within a row), selects each cell's category from its
    /// noise sample, picks a variant uniformly at random within the
    /// category's list, and stamps a tile at the cell's world position.
    ///
    /// `noise` holds one sample per cell in the same row-major order, in
    /// thousandths of the raw noise value.
    pub fn populate(&mut self, noise: &Vec<i32>, grass_tiles: &Vec<Tile>, dirt_tiles: &Vec<Tile>)
        requires
            old(self).fits(),
            old(self).tiles@.len() == 0,
            noise@.len() == old(self).width as int * old(self).height as int,
            grass_tiles@.len() > 0,
            dirt_tiles@.len() > 0,
            forall|j: int| 0 <= j < grass_tiles@.len() ==> (#[trigger] grass_tiles@[j]).fits(),
            forall|j: int| 0 <= j < dirt_tiles@.len() ==> (#[trigger] dirt_tiles@[j]).fits(),
        ensures
            final(self).position == old(self).position,
            final(self).width == old(self).width,
            final(self).height == old(self).height,
            final(self).sprite_size == old(self).sprite_size,
            final(self).tiles@.len() == old(self).width as int * old(self).height as int,
            forall|idx: int|
                0 <= idx < final(self).tiles@.len() ==> cell_ok(
                    #[trigger] final(self).tiles@[idx],
                    idx,
                    old(self).width as int,
                    old(self).position,
                    noise@[idx],
                    grass_tiles@,
                    dirt_tiles@,
                ),
    {
        let width = self.width;
        let height = self.height;
        let px = self.position.x;
        let py = self.position.y;
        let ghost origin = self.position;
        let mut tiles: Vec<Tile> = Vec::new();
        let mut y: u32 = 0;
        while y < height
            invariant
                width <= MAX_CHUNK_DIM,
                height <= MAX_CHUNK_DIM,
                -MAX_CHUNK_POS <= px <= MAX_CHUNK_POS,
                -MAX_CHUNK_POS <= py <= MAX_CHUNK_POS,
                px == origin.x && py == origin.y,
                noise@.len() == width as int * height as int,
                grass_tiles@.len() > 0,
                dirt_tiles@.len() > 0,
                forall|j: int| 0 <= j < grass_tiles@.len() ==> (#[trigger] grass_tiles@[j]).fits(),
                forall|j: int| 0 <= j < dirt_tiles@.len() ==> (#[trigger] dirt_tiles@[j]).fits(),
                0 <= y <= height,
                tiles@.len() == y as int * width as int,
                forall|idx: int|
                    0 <= idx < tiles@.len() ==> cell_ok(
                        #[trigger] tiles@[idx],
                        idx,
                        width as int,
                        origin,
                        noise@[idx],
                        grass_tiles@,
                        dirt_tiles@,
                    ),
            decreases height - y,
        {
            let mut x: u32 = 0;
            proof {
                vstd::arithmetic::mul::lemma_mul_upper_bound(
                    y as int,
                    MAX_CHUNK_DIM as int,
                    width as int,
                    MAX_CHUNK_DIM as int,
                );
            }
            while x < width
                invariant
                    width <= MAX_CHUNK_DIM,
                    height <= MAX_CHUNK_DIM,
                    -MAX_CHUNK_POS <= px <= MAX_CHUNK_POS,
                    -MAX_CHUNK_POS <= py <= MAX_CHUNK_POS,
                    px == origin.x && py == origin.y,
                    noise@.len() == width as int * height as int,
                    grass_tiles@.len() > 0,
                    dirt_tiles@.len() > 0,
                    forall|j: int|
                        0 <= j < grass_tiles@.len() ==> (#[trigger] grass_tiles@[j]).fits(),
                    forall|j: int| 0 <= j < dirt_tiles@.len() ==> (#[trigger] dirt_tiles@[j]).fits(),
                    0 <= y < height,
                    0 <= x <= width,
                    tiles@.len() == y as int * width as int + x as int,
                    forall|idx: int|
                        0 <= idx < tiles@.len() ==> cell_ok(
                            #[trigger] tiles@[idx],
                            idx,
                            width as int,
                            origin,
                            noise@[idx],
                            grass_tiles@,
                            dirt_tiles@,
                        ),
                decreases width - x,
            {
                proof {
                    vstd::arithmetic::mul::lemma_mul_upper_bound(
                        y as int,
                        MAX_CHUNK_DIM as int,
                        width as int,
                        MAX_CHUNK_DIM as int,
                    );
                    // the cell index is inside the noise table
                    vstd::arithmetic::mul::lemma_mul_inequality(
                        y as int + 1,
                        height as int,
                        width as int,
                    );
                    assert((y as int + 1) * width as int == y as int * width as int + width as int)
                        by (nonlinear_arith);
                }
                let i = tiles.len();
                let noise_value = noise[i];
                let category = select_category(noise_value);
                let list = match category {
                    Category::Grass => grass_tiles,
                    Category::Dirt => dirt_tiles,
                };
                let j = random_below(list.len());
                let v = list[j];
                proof {
                    vstd::arithmetic::mul::lemma_mul_upper_bound(
                        x as int,
                        MAX_CHUNK_DIM as int,
                        v.tile_size as int,
                        MAX_TILE_DIM as int,
                    );
                    vstd::arithmetic::mul::lemma_mul_upper_bound(
                        y as int,
                        MAX_CHUNK_DIM as int,
                        v.tile_size as int,
                        MAX_TILE_DIM as int,
                    );
                    vstd::arithmetic::mul::lemma_mul_strictly_positive(
                        x as int,
                        v.tile_size as int,
                    );
                    vstd::arithmetic::mul::lemma_mul_strictly_positive(
                        y as int,
                        v.tile_size as int,
                    );
                    // the new cell index decomposes back into (x, y)
                    vstd::arithmetic::div_mod::lemma_fundamental_div_mod_converse(
                        i as int,
                        width as int,
                        y as int,
                        x as int,
                    );
                }
                let tile = Tile::new(
                    v.id,
                    v.name,
                    Vec2i::new((x as i64) * v.tile_size + px, (y as i64) * v.tile_size + py),
                    v.tile_pos,
                    v.tile_size,
                );
                tiles.push(tile);
                x = x + 1;
            }
            y = y + 1;
            proof {
                assert(y as int * width as int == (y as int - 1) * width as int + width as int)
                    by (nonlinear_arith);
            }
        }
        proof {
            assert(height as int * width as int == width as int * height as int)
                by (nonlinear_arith);
        }
        self.tiles = tiles;
    }
}

/// Relies on `rand`'s thread-local generator: `Rng::gen_range(0..n)` returns
/// a value of the range, so below `n`; it panics only on an empty range,
/// which the precondition rules out.
#[verifier::external_body]
fn random_below(n: usize) -> (r: usize)
    requires
        0 < n,
    ensures
        r < n,
{
    rand::Rng::gen_range(&mut rand::thread_rng(), 0..n)
}

} // verus!
