//! Terrain synthesis: turning layered noise samples into a classified tile
//! grid.
//!
//! All values are fixed-point integers. A single noise octave is sampled in
//! `[-1, 1]` at scale [`UNIT`] (so `UNIT` is 1.0); a five-octave field sum
//! with amplitudes 1, 1/2, 1/4, 1/8 and 1/16 is carried at scale
//! [`FIELD_UNIT`]` == 16 * UNIT`, which keeps every amplitude an exact
//! integer multiple. Random draws are uniform in `[0, UNIT)`.
//!
//! Classification is split into a deterministic stage (the octave sums, the
//! optional radial island falloff, and the threshold ladder) and a bounded
//! tie-break randomization stage (the rock and tree draws), so that the
//! deterministic part is a pure function of its inputs.

use vstd::prelude::*;
use vstd::arithmetic::div_mod::{lemma_fundamental_div_mod, lemma_multiply_divide_lt};
use vstd::arithmetic::mul::lemma_mul_inequality;
use crate::tile::{Tile, TileMap, TileStyle};

verus! {

/// Fixed-point 1.0 for single-octave samples and for random draws.
pub const UNIT: u32 = 10000;

/// Fixed-point 1.0 for five-octave field sums: `16 * UNIT`.
pub const FIELD_UNIT: i64 = 160000;

/// Elevation above which a cell is rock (0.75).
pub const ELEV_ROCK: i64 = 120000;

/// Elevation above which a cell is dirt (0.55).
pub const ELEV_DIRT: i64 = 88000;

/// Elevation above which a cell is in the vegetation band (-0.5).
pub const ELEV_GRASS: i64 = -80000;

/// Elevation above which a cell is coastal grass (-0.6).
pub const ELEV_COAST: i64 = -96000;

/// Elevation above which a cell is sand (-0.7).
pub const ELEV_SAND: i64 = -112000;

/// Elevation above which a cell is shallow water (-0.95); deep water below.
pub const ELEV_SHALLOW: i64 = -152000;

/// Pivot of the high-rock probability ramp (0.65).
pub const ROCK_PIVOT: i64 = 104000;

/// Fertility above which the vegetation band is farmed dirt (0.7).
pub const FARM_CUT: i64 = 112000;

/// Vegetation density above which grass is dense (0.6).
pub const VEG_DENSE: i64 = 96000;

/// Vegetation density above which grass is sparse (0.5).
pub const VEG_SPARSE: i64 = 80000;

/// Tree probability in dense grass (0.35), in draw units.
pub const TREE_DENSE_CUT: u32 = 3500;

/// Tree probability in sparse grass (0.05), in draw units.
pub const TREE_SPARSE_CUT: u32 = 500;

/// Largest map dimension the synthesizer accepts; keeps the radial-falloff
/// numerator within `i64`.
pub const MAX_SYNTH_DIM: usize = 1024;

/// One base noise function sampled at five frequencies (x1, x2, x4, x8,
/// x16), each at scale [`UNIT`].
#[derive(Clone, Copy, Debug, PartialEq, Eq, Structural)]
pub struct NoiseSample {
    pub o1: i32,
    pub o2: i32,
    pub o4: i32,
    pub o8: i32,
    pub o16: i32,
}

impl NoiseSample {
    /// Every octave lies in `[-1, 1]`, that is `[-UNIT, UNIT]`.
    pub open spec fn wf(self) -> bool {
        &&& -(UNIT as int) <= self.o1 <= UNIT as int
        &&& -(UNIT as int) <= self.o2 <= UNIT as int
        &&& -(UNIT as int) <= self.o4 <= UNIT as int
        &&& -(UNIT as int) <= self.o8 <= UNIT as int
        &&& -(UNIT as int) <= self.o16 <= UNIT as int
    }
}

/// The three noise fields sampled for one cell: elevation, farmland
/// likelihood (fertility), and vegetation density.
#[derive(Clone, Copy, Debug, PartialEq, Eq, Structural)]
pub struct CellNoise {
    pub elevation: NoiseSample,
    pub farmland: NoiseSample,
    pub vegetation: NoiseSample,
}

impl CellNoise {
    pub open spec fn wf(self) -> bool {
        self.elevation.wf() && self.farmland.wf() && self.vegetation.wf()
    }
}

/// The random draws one cell consumes: the rock tie-break, the tree
/// tie-break, and the stored per-tile rendering offset, each in `[0, UNIT)`.
#[derive(Clone, Copy, Debug, PartialEq, Eq, Structural)]
pub struct TileDraws {
    pub rock: u32,
    pub tree: u32,
    pub offset: u32,
}

impl TileDraws {
    pub open spec fn wf(self) -> bool {
        self.rock < UNIT && self.tree < UNIT && self.offset < UNIT
    }
}

/// Five-octave fractal sum at amplitudes 1, 1/2, 1/4, 1/8, 1/16, carried at
/// scale [`FIELD_UNIT`] so every amplitude is exact.
pub open spec fn spec_octave_sum(s: NoiseSample) -> int {
    16 * s.o1 + 8 * s.o2 + 4 * s.o4 + 2 * s.o8 + s.o16
}

/// The island-mode bias subtracted from elevation:
/// `(dist_from_centre / (width/2))^4 * 2`, exactly in integers because the
/// fourth power removes the square root.
pub open spec fn spec_radial_falloff(x: int, y: int, width: int, height: int) -> int {
    let dx = x - width / 2;
    let dy = y - height / 2;
    let d2 = dx * dx + dy * dy;
    let hw = width / 2;
    (2 * FIELD_UNIT * d2 * d2) / (hw * hw * hw * hw)
}

/// A cell's final elevation: the octave sum, less the radial falloff when
/// island mode is on.
pub open spec fn spec_cell_elevation(
    x: int,
    y: int,
    width: int,
    height: int,
    noise: CellNoise,
    island: bool,
) -> int {
    spec_octave_sum(noise.elevation) - if island {
        spec_radial_falloff(x, y, width, height)
    } else {
        0
    }
}

/// The classification ladder: elevation picks the band; in the rock band a
/// draw against the ramp `(e - 0.65) / 0.4 * 0.8` splits high from low rock;
/// in the middle band fertility picks farmland, then vegetation density and
/// a tree draw pick trees, plain or coastal grass.
pub open spec fn spec_classify(e: int, f: int, v: int, rock_draw: int, tree_draw: int) -> TileStyle {
    if e > ELEV_ROCK {
        if rock_draw > (e - ROCK_PIVOT) / 8 {
            TileStyle::RockLow
        } else {
            TileStyle::RockHigh
        }
    } else if e > ELEV_DIRT {
        TileStyle::Dirt
    } else if e > ELEV_GRASS {
        if f > FARM_CUT {
            TileStyle::DirtFarmed
        } else if v > VEG_DENSE {
            if tree_draw > TREE_DENSE_CUT {
                TileStyle::GrassPlain
            } else {
                TileStyle::Tree
            }
        } else if v > VEG_SPARSE {
            if tree_draw > TREE_SPARSE_CUT {
                TileStyle::GrassPlain
            } else {
                TileStyle::Tree
            }
        } else {
            TileStyle::GrassCoastal
        }
    } else if e > ELEV_COAST {
        TileStyle::GrassCoastal
    } else if e > ELEV_SAND {
        TileStyle::Sand
    } else if e > ELEV_SHALLOW {
        TileStyle::WaterShallow
    } else {
        TileStyle::WaterDeep
    }
}

/// The tile a cell deterministically becomes, given its noise samples and
/// its random draws.
pub open spec fn spec_build_tile(
    x: int,
    y: int,
    width: int,
    height: int,
    noise: CellNoise,
    draws: TileDraws,
    island: bool,
) -> Tile {
    Tile {
        x: x as usize,
        y: y as usize,
        style: spec_classify(
            spec_cell_elevation(x, y, width, height, noise, island),
            spec_octave_sum(noise.farmland),
            spec_octave_sum(noise.vegetation),
            draws.rock as int,
            draws.tree as int,
        ),
        rand_offset: draws.offset,
    }
}

/// Relies on rand::random_range over `0..bound`: a uniform draw below
/// `bound` from the thread-local generator. It panics only on an empty
/// range, which the precondition excludes.
#[verifier::external_body]
fn random_below(bound: u32) -> (r: u32)
    requires
        bound > 0,
    ensures
        r < bound,
{
    rand::random_range(0..bound)
}

/// Five-octave fractal sum of one sampled field, at scale [`FIELD_UNIT`].
pub fn octave_sum(s: &NoiseSample) -> (r: i64)
    requires
        s.wf(),
    ensures
        r == spec_octave_sum(*s),
        -31 * UNIT <= r <= 31 * UNIT,
{
    16 * (s.o1 as i64) + 8 * (s.o2 as i64) + 4 * (s.o4 as i64) + 2 * (s.o8 as i64) + (
    s.o16 as i64)
}

/// The island-mode elevation bias for cell `(x, y)` of a `width x height`
/// grid; non-negative, and zero at the grid's centre.
pub fn radial_falloff(x: usize, y: usize, width: usize, height: usize) -> (r: i64)
    requires
        2 <= width <= MAX_SYNTH_DIM,
        1 <= height <= MAX_SYNTH_DIM,
        x < width,
        y < height,
    ensures
        r == spec_radial_falloff(x as int, y as int, width as int, height as int),
        0 <= r <= 2 * FIELD_UNIT * 2097152 * 2097152,
{
    let dx: i64 = x as i64 - (width / 2) as i64;
    let dy: i64 = y as i64 - (height / 2) as i64;
    proof {
        assert(-1024 <= dx <= 1024);
        assert(-1024 <= dy <= 1024);
        assert(dx * dx <= 1024 * 1024 && dx * dx >= 0) by (nonlinear_arith)
            requires -1024 <= dx <= 1024;
        assert(dy * dy <= 1024 * 1024 && dy * dy >= 0) by (nonlinear_arith)
            requires -1024 <= dy <= 1024;
    }
    let d2: u64 = (dx * dx + dy * dy) as u64;
    let hw: u64 = (width / 2) as u64;
    proof {
        assert(d2 <= 2097152);
        assert(d2 * d2 <= 2097152 * 2097152) by (nonlinear_arith)
            requires 0 <= d2 <= 2097152;
        assert(1 <= hw && hw <= 512);
        assert(1 <= hw * hw <= 512 * 512) by (nonlinear_arith)
            requires 1 <= hw <= 512;
        assert(1 <= (hw * hw) * (hw * hw) <= (512 * 512) * (512 * 512)) by (nonlinear_arith)
            requires 1 <= hw * hw <= 512 * 512;
    }
    let d4: u64 = d2 * d2;
    proof {
        assert(320000 * d4 <= 320000 * (2097152 * 2097152)) by (nonlinear_arith)
            requires 0 <= d4 <= 2097152 * 2097152;
    }
    let num: u64 = 2 * (FIELD_UNIT as u64) * d4;
    let hw2: u64 = hw * hw;
    proof {
        assert(1 <= hw2 <= 262144);
        assert(hw2 * hw2 <= 68719476736) by (nonlinear_arith)
            requires 1 <= hw2 <= 262144;
    }
    let hw4: u64 = hw2 * hw2;
    let r: u64 = num / hw4;
    proof {
        assert(num / hw4 <= num) by (nonlinear_arith)
            requires hw4 >= 1 && num >= 0;
        assert(2 * FIELD_UNIT * (dx * dx + dy * dy) * (dx * dx + dy * dy) == 2 * (FIELD_UNIT
            as int) * ((dx * dx + dy * dy) * (dx * dx + dy * dy))) by (nonlinear_arith);
        assert(hw * hw * hw * hw == (hw * hw) * (hw * hw)) by (nonlinear_arith);
    }
    r as i64
}

/// Classify one cell from its field values and tie-break draws. Total: it
/// never fails for any input.
pub fn classify_tile_style(e: i64, f: i64, v: i64, rock_draw: u32, tree_draw: u32) -> (s: TileStyle)
    ensures
        s == spec_classify(e as int, f as int, v as int, rock_draw as int, tree_draw as int),
{
    if e > ELEV_ROCK {
        let ramp: u64 = ((e - ROCK_PIVOT) as u64) / 8;
        if (rock_draw as u64) > ramp {
            TileStyle::RockLow
        } else {
            TileStyle::RockHigh
        }
    } else if e > ELEV_DIRT {
        TileStyle::Dirt
    } else if e > ELEV_GRASS {
        if f > FARM_CUT {
            TileStyle::DirtFarmed
        } else if v > VEG_DENSE {
            if tree_draw > TREE_DENSE_CUT {
                TileStyle::GrassPlain
            } else {
                TileStyle::Tree
            }
        } else if v > VEG_SPARSE {
            if tree_draw > TREE_SPARSE_CUT {
                TileStyle::GrassPlain
            } else {
                TileStyle::Tree
            }
        } else {
            TileStyle::GrassCoastal
        }
    } else if e > ELEV_COAST {
        TileStyle::GrassCoastal
    } else if e > ELEV_SAND {
        TileStyle::Sand
    } else if e > ELEV_SHALLOW {
        TileStyle::WaterShallow
    } else {
        TileStyle::WaterDeep
    }
}

/// Build the tile for one cell from its noise samples and draws.
pub fn build_tile(
    x: usize,
    y: usize,
    width: usize,
    height: usize,
    noise: &CellNoise,
    draws: TileDraws,
    island: bool,
) -> (t: Tile)
    requires
        2 <= width <= MAX_SYNTH_DIM,
        1 <= height <= MAX_SYNTH_DIM,
        x < width,
        y < height,
        noise.wf(),
    ensures
        t == spec_build_tile(
            x as int,
            y as int,
            width as int,
            height as int,
            *noise,
            draws,
            island,
        ),
{
    let e_sum = octave_sum(&noise.elevation);
    let e = if island {
        e_sum - radial_falloff(x, y, width, height)
    } else {
        e_sum
    };
    let f = octave_sum(&noise.farmland);
    let v = octave_sum(&noise.vegetation);
    let style = classify_tile_style(e, f, v, draws.rock, draws.tree);
    Tile { x, y, style, rand_offset: draws.offset }
}

/// Deterministic synthesis core: build a full map from per-cell noise
/// samples and per-cell draws, row-major. Every tile of the result is
/// exactly [`spec_build_tile`] of its cell's inputs, so equal inputs always
/// yield an equal map.
pub fn build_tilemap(
    width: usize,
    height: usize,
    cells: &Vec<CellNoise>,
    draws: &Vec<TileDraws>,
    island: bool,
) -> (map: TileMap)
    requires
        2 <= width <= MAX_SYNTH_DIM,
        1 <= height <= MAX_SYNTH_DIM,
        cells.len() == width * height,
        draws.len() == width * height,
        forall|i: int| 0 <= i < cells.len() ==> (#[trigger] cells[i]).wf(),
    ensures
        map.wf(),
        map.width == width,
        map.height == height,
        forall|i: int|
            0 <= i < map.tiles.len() ==> #[trigger] map.tiles[i] == spec_build_tile(
                i % (width as int),
                i / (width as int),
                width as int,
                height as int,
                cells[i],
                draws[i],
                island,
            ),
{
    let mut map = TileMap::new(width, height);
    let factory = |x: usize, y: usize| -> (t: Tile)
        requires
            x < width,
            y < height,
            2 <= width <= MAX_SYNTH_DIM,
            1 <= height <= MAX_SYNTH_DIM,
            cells.len() == width * height,
            draws.len() == width * height,
            forall|i: int| 0 <= i < cells.len() ==> (#[trigger] cells[i]).wf(),
        ensures
            t == spec_build_tile(
                x as int,
                y as int,
                width as int,
                height as int,
                cells[y * width + x],
                draws[y * width + x],
                island,
            ),
            t.x == x,
            t.y == y,
        {
            proof {
                lemma_mul_inequality(y as int, height as int - 1, width as int);
                assert((height - 1) * width + width == height * width) by (nonlinear_arith);
                assert(height * width == width * height) by (nonlinear_arith);
            }
            let idx = y * width + x;
            build_tile(x, y, width, height, &cells[idx], draws[idx], island)
        };
    map.fill_tiles(factory);
    proof {
        assert forall|i: int| 0 <= i < map.tiles.len() implies #[trigger] map.tiles[i]
            == spec_build_tile(
            i % (width as int),
            i / (width as int),
            width as int,
            height as int,
            cells[i],
            draws[i],
            island,
        ) by {
            let xi = i % (width as int);
            let yi = i / (width as int);
            lemma_fundamental_div_mod(i, width as int);
            assert(width * height == height * width) by (nonlinear_arith);
            lemma_multiply_divide_lt(i, width as int, height as int);
            assert(0 <= xi < width);
            assert(0 <= yi < height);
            assert(call_ensures(factory, ((xi as usize, yi as usize)), map.tiles[i]));
            assert((yi as usize) * width + (xi as usize) == i);
        }
    }
    map
}

/// A tile that some well-formed draws would deterministically produce from
/// the given cell inputs: what randomized synthesis guarantees per cell.
pub open spec fn spec_tile_consistent(
    t: Tile,
    i: int,
    width: int,
    height: int,
    noise: CellNoise,
    island: bool,
) -> bool {
    exists|d: TileDraws|
        d.wf() && t == spec_build_tile(i % width, i / width, width, height, noise, d, island)
}

/// Synthesize a map from per-cell noise samples, drawing the rock, tree and
/// per-tile offset randomization internally (so the result is not required
/// to be reproducible across runs). Every tile is [`spec_build_tile`] of its
/// cell's samples and some well-formed draws.
pub fn generate_tilemap(width: usize, height: usize, cells: &Vec<CellNoise>, island: bool) -> (map:
    TileMap)
    requires
        2 <= width <= MAX_SYNTH_DIM,
        1 <= height <= MAX_SYNTH_DIM,
        cells.len() == width * height,
        forall|i: int| 0 <= i < cells.len() ==> (#[trigger] cells[i]).wf(),
    ensures
        map.wf(),
        map.width == width,
        map.height == height,
        forall|i: int|
            0 <= i < map.tiles.len() ==> spec_tile_consistent(
                #[trigger] map.tiles[i],
                i,
                width as int,
                height as int,
                cells[i],
                island,
            ),
        forall|i: int| 0 <= i < map.tiles.len() ==> (#[trigger] map.tiles[i]).rand_offset < UNIT,
{
    let total = width * height;
    let mut draws: Vec<TileDraws> = Vec::new();
    let mut k: usize = 0;
    while k < total
        invariant
            draws.len() == k,
            k <= total,
            forall|i: int| 0 <= i < draws.len() ==> (#[trigger] draws[i]).wf(),
        decreases total - k,
    {
        let d = TileDraws {
            rock: random_below(UNIT),
            tree: random_below(UNIT),
            offset: random_below(UNIT),
        };
        draws.push(d);
        k += 1;
    }
    let map = build_tilemap(width, height, cells, &draws, island);
    proof {
        assert forall|i: int| 0 <= i < map.tiles.len() implies spec_tile_consistent(
            #[trigger] map.tiles[i],
            i,
            width as int,
            height as int,
            cells[i],
            island,
        ) by {
            let d0 = draws[i];
            assert(d0.wf() && map.tiles[i] == spec_build_tile(
                i % (width as int),
                i / (width as int),
                width as int,
                height as int,
                cells[i],
                d0,
                island,
            ));
        }
    }
    map
}

/// Whether a tile's terrain admits the player: false exactly for shallow and
/// deep water, true for every other style.
pub open spec fn spec_passable(style: TileStyle) -> bool {
    !(style == TileStyle::WaterShallow || style == TileStyle::WaterDeep)
}

/// The single passability gate consulted before any player move is
/// committed.
pub fn tile_is_passable(tile: &Tile) -> (r: bool)
    ensures
        r == spec_passable(tile.style),
{
    match tile.style {
        TileStyle::WaterShallow | TileStyle::WaterDeep => false,
        _ => true,
    }
}

/// Classification is a pure function of the sampled field values and the
/// draws consumed: replaying identical inputs yields an identical style.
pub proof fn lemma_classification_deterministic(
    e1: int,
    o1: int,
    v1: int,
    rock1: int,
    tree1: int,
    e2: int,
    o2: int,
    v2: int,
    rock2: int,
    tree2: int,
)
    requires
        e1 == e2,
        o1 == o2,
        v1 == v2,
        rock1 == rock2,
        tree1 == tree2,
    ensures
        spec_classify(e1, o1, v1, rock1, tree1) == spec_classify(e2, o2, v2, rock2, tree2),
{
}

} // verus!
