//! One-shot procedural tile-map generation.
//!
//! A map is built once at world initialisation and never mutated afterward.
//! Two modes exist: a deterministic fill, which fills every cell of the
//! base layer with the default tile, and a stochastic scatter, which draws
//! positions from a seeded linear-congruential generator and places an
//! animated tile at each on the overlay layer — duplicate draws silently
//! overwrite.  The seed makes scatter reproducible: the same seed and
//! parameters give the same overlay, cell for cell.

use vstd::prelude::*;

verus! {

/// Widest supported map edge, in cells.
pub const MAP_EDGE_MAX: u32 = 4096;

/// Multiplier of the linear-congruential generator.
pub const RNG_MUL: u64 = 6364136223846793005;

/// Increment of the linear-congruential generator.
pub const RNG_INC: u64 = 1442695040888963407;

/// The generator's next state.
pub open spec fn rng_next(s: u64) -> u64 {
    s.wrapping_mul(RNG_MUL).wrapping_add(RNG_INC)
}

/// Advances the pseudo-random generator by one step.
pub fn rng_step(s: u64) -> (r: u64)
    ensures
        r == rng_next(s),
{
    s.wrapping_mul(RNG_MUL).wrapping_add(RNG_INC)
}

/// A cyclic animation descriptor carried by an overlay tile: first frame,
/// frame count, and milliseconds per frame.
#[derive(Clone, Copy, PartialEq, Eq, Structural, Debug)]
pub struct TileAnim {
    pub start: u32,
    pub count: u32,
    pub millis_per_frame: u32,
}

/// A two-layer tile map: a dense base layer of tile indices and a sparse
/// overlay layer of optional animated tiles, both stored row by row.
#[derive(Clone, PartialEq, Eq, Debug)]
pub struct TileMap {
    pub width: u32,
    pub height: u32,
    pub base: Vec<u32>,
    pub overlay: Vec<Option<TileAnim>>,
}

/// Row-major cell index.
pub open spec fn cell_index(x: int, y: int, width: int) -> int {
    y * width + x
}

impl TileMap {
    /// Positive bounded dimensions; both layers hold one entry per cell.
    pub open spec fn wf(self) -> bool {
        &&& 0 < self.width <= MAP_EDGE_MAX
        &&& 0 < self.height <= MAP_EDGE_MAX
        &&& self.base@.len() == self.width * self.height
        &&& self.overlay@.len() == self.width * self.height
    }
}

/// Builds a map of the given chunk counts and chunk size, every base cell
/// filled with the default tile and the overlay empty.
pub fn spawn_map(map_w: u32, map_h: u32, chunk_w: u32, chunk_h: u32) -> (m: TileMap)
    requires
        0 < map_w * chunk_w <= MAP_EDGE_MAX,
        0 < map_h * chunk_h <= MAP_EDGE_MAX,
    ensures
        m.wf(),
        m.width == map_w * chunk_w,
        m.height == map_h * chunk_h,
        forall|i: int| 0 <= i < m.base@.len() ==> (#[trigger] m.base@[i]) == 0,
        forall|i: int| 0 <= i < m.overlay@.len() ==> (#[trigger] m.overlay@[i]) is None,
{
    let width: u32 = map_w * chunk_w;
    let height: u32 = map_h * chunk_h;
    proof {
        crate::fixp::lemma_mul_le(width as int, height as int, 4096, 4096);
    }
    let cells: usize = (width as usize) * (height as usize);
    let mut base: Vec<u32> = Vec::new();
    let mut overlay: Vec<Option<TileAnim>> = Vec::new();
    let mut i: usize = 0;
    while i < cells
        invariant
            i <= cells,
            base@.len() == i,
            overlay@.len() == i,
            forall|j: int| 0 <= j < i ==> (#[trigger] base@[j]) == 0,
            forall|j: int| 0 <= j < i ==> (#[trigger] overlay@[j]) is None,
        decreases cells - i,
    {
        base.push(0);
        overlay.push(None);
        i = i + 1;
    }
    TileMap { width, height, base, overlay }
}

/// The overlay after scattering `count` animated tiles: each draw advances
/// the generator twice — a column within the sub-region's width, then a row
/// within its height — and overwrites the drawn cell.
pub open spec fn scatter_spec(
    overlay: Seq<Option<TileAnim>>,
    width: int,
    seed: u64,
    count: nat,
    region_w: int,
    region_h: int,
    anim: TileAnim,
) -> Seq<Option<TileAnim>>
    decreases count,
{
    if count == 0 {
        overlay
    } else {
        let s1 = rng_next(seed);
        let s2 = rng_next(s1);
        let x = s1 as int % region_w;
        let y = s2 as int % region_h;
        scatter_spec(
            overlay.update(cell_index(x, y, width), Some(anim)),
            width,
            s2,
            (count - 1) as nat,
            region_w,
            region_h,
            anim,
        )
    }
}

/// Scatters `count` copies of an animated tile over the overlay layer,
/// uniformly pseudo-randomly within the sub-region of the given width and
/// height (for instance the map's half-scaled dimensions), reproducibly
/// from the seed.  The base layer and the dimensions are untouched.
pub fn scatter_overlay(
    map: &mut TileMap,
    seed: u64,
    count: u32,
    region_w: u32,
    region_h: u32,
    anim: TileAnim,
)
    requires
        old(map).wf(),
        0 < region_w <= old(map).width,
        0 < region_h <= old(map).height,
    ensures
        final(map).wf(),
        final(map).width == old(map).width,
        final(map).height == old(map).height,
        final(map).base == old(map).base,
        final(map).overlay@ == scatter_spec(
            old(map).overlay@,
            old(map).width as int,
            seed,
            count as nat,
            region_w as int,
            region_h as int,
            anim,
        ),
{
    let ghost target = scatter_spec(
        map.overlay@,
        map.width as int,
        seed,
        count as nat,
        region_w as int,
        region_h as int,
        anim,
    );
    let width: u32 = map.width;
    let mut s: u64 = seed;
    let mut done: u32 = 0;
    while done < count
        invariant
            done <= count,
            map.wf(),
            map.width == old(map).width,
            map.height == old(map).height,
            map.base == old(map).base,
            0 < region_w <= map.width,
            0 < region_h <= map.height,
            width == map.width,
            target == scatter_spec(
                map.overlay@,
                map.width as int,
                s,
                (count - done) as nat,
                region_w as int,
                region_h as int,
                anim,
            ),
        decreases count - done,
    {
        let s1 = rng_step(s);
        let s2 = rng_step(s1);
        let x: u32 = (s1 % (region_w as u64)) as u32;
        let y: u32 = (s2 % (region_h as u64)) as u32;
        proof {
            crate::fixp::lemma_mul_le(y as int, width as int, 4095, 4096);
            assert(y as int * width + x < map.width * map.height) by (nonlinear_arith)
                requires
                    0 <= x < region_w <= map.width,
                    0 <= y < region_h <= map.height,
                    width == map.width,
                    map.width <= 4096,
                    map.height <= 4096,
            ;
        }
        let idx: usize = (y as usize) * (width as usize) + (x as usize);
        map.overlay.set(idx, Some(anim));
        s = s2;
        done = done + 1;
    }
}

/// Runtime tile removal: an anticipated extension point that is
/// deliberately a no-op — a map, once built, is immutable.
pub fn remove_map(map: &mut TileMap)
    ensures
        *final(map) == *old(map),
{
}

/// Stochastic generation is reproducible: the same seed and the same
/// parameters give an overlay identical cell for cell, however often it is
/// rerun.
pub proof fn lemma_scatter_reproducible(
    overlay: Seq<Option<TileAnim>>,
    width: int,
    seed: u64,
    count: nat,
    region_w: int,
    region_h: int,
    anim: TileAnim,
    o1: Seq<Option<TileAnim>>,
    o2: Seq<Option<TileAnim>>,
)
    requires
        o1 == scatter_spec(overlay, width, seed, count, region_w, region_h, anim),
        o2 == scatter_spec(overlay, width, seed, count, region_w, region_h, anim),
    ensures
        o1 == o2,
{
}

} // verus!
