use tileworld::flock::{
    build_tile, build_tilemap, classify_tile_style, generate_tilemap, octave_sum, radial_falloff,
    tile_is_passable, CellNoise, NoiseSample, TileDraws,
};
use tileworld::tile::{Tile, TileStyle};

fn constant_sample(v: i32) -> NoiseSample {
    NoiseSample { o1: v, o2: v, o4: v, o8: v, o16: v }
}

fn constant_cell(v: i32) -> CellNoise {
    CellNoise {
        elevation: constant_sample(v),
        farmland: constant_sample(v),
        vegetation: constant_sample(v),
    }
}

fn constant_cells(v: i32, n: usize) -> Vec<CellNoise> {
    let mut cells = Vec::new();
    for _ in 0..n {
        cells.push(constant_cell(v));
    }
    cells
}

fn zero_draws(n: usize) -> Vec<TileDraws> {
    let mut draws = Vec::new();
    for _ in 0..n {
        draws.push(TileDraws { rock: 0, tree: 0, offset: 0 });
    }
    draws
}

#[test]
fn octave_sum_weights_each_layer_exactly() {
    let s = NoiseSample { o1: 10000, o2: -10000, o4: 5000, o8: 0, o16: 1 };
    assert_eq!(octave_sum(&s), 16 * 10000 - 8 * 10000 + 4 * 5000 + 0 + 1);
    assert_eq!(octave_sum(&constant_sample(0)), 0);
    assert_eq!(octave_sum(&constant_sample(10000)), 310000);
    assert_eq!(octave_sum(&constant_sample(-10000)), -310000);
}

#[test]
fn radial_falloff_exact_at_corner_and_zero_at_centre() {
    // 10x10 grid, corner (0,0): dx = dy = -5, d2 = 50, half-width 5.
    // 320000 * 50 * 50 / 625 == 1280000.
    assert_eq!(radial_falloff(0, 0, 10, 10), 1_280_000);
    assert_eq!(radial_falloff(5, 5, 10, 10), 0);
}

#[test]
fn rock_band_splits_on_the_ramp_draw() {
    // e = 120001: ramp is (120001 - 104000) / 8 == 2000.
    assert_eq!(classify_tile_style(120001, 0, 0, 2001, 0), TileStyle::RockLow);
    assert_eq!(classify_tile_style(120001, 0, 0, 2000, 0), TileStyle::RockHigh);
    // Far above the ramp the draw can never exceed it: always high rock.
    assert_eq!(classify_tile_style(279000, 0, 0, 9999, 0), TileStyle::RockHigh);
}

#[test]
fn elevation_band_boundaries_are_exclusive_at_the_top() {
    assert_eq!(classify_tile_style(120000, 0, 0, 0, 0), TileStyle::Dirt);
    assert_eq!(classify_tile_style(88001, 0, 0, 0, 0), TileStyle::Dirt);
    assert_eq!(classify_tile_style(-80000, 0, 0, 0, 0), TileStyle::GrassCoastal);
    assert_eq!(classify_tile_style(-96000, 0, 0, 0, 0), TileStyle::Sand);
    assert_eq!(classify_tile_style(-112000, 0, 0, 0, 0), TileStyle::WaterShallow);
    assert_eq!(classify_tile_style(-152000, 0, 0, 0, 0), TileStyle::WaterDeep);
    assert_eq!(classify_tile_style(-151999, 0, 0, 0, 0), TileStyle::WaterShallow);
}

#[test]
fn vegetation_band_picks_farmland_trees_and_grass() {
    // Fertility wins first.
    assert_eq!(classify_tile_style(0, 112001, 0, 0, 0), TileStyle::DirtFarmed);
    assert_eq!(classify_tile_style(0, 112000, 96001, 0, 3500), TileStyle::Tree);
    assert_eq!(classify_tile_style(0, 112000, 96001, 0, 3501), TileStyle::GrassPlain);
    assert_eq!(classify_tile_style(0, 112000, 96000, 0, 500), TileStyle::Tree);
    assert_eq!(classify_tile_style(0, 112000, 96000, 0, 501), TileStyle::GrassPlain);
    assert_eq!(classify_tile_style(0, 112000, 80000, 0, 0), TileStyle::GrassCoastal);
}

#[test]
fn classification_replays_identically_on_identical_inputs() {
    let a = classify_tile_style(91000, 50000, 87000, 1234, 4321);
    let b = classify_tile_style(91000, 50000, 87000, 1234, 4321);
    assert_eq!(a, b);
    let cells = constant_cells(3000, 100);
    let draws = zero_draws(100);
    let m1 = build_tilemap(10, 10, &cells, &draws, true);
    let m2 = build_tilemap(10, 10, &cells, &draws, true);
    for i in 0..100 {
        assert_eq!(m1.tiles[i], m2.tiles[i]);
    }
}

#[test]
fn build_tile_applies_island_falloff() {
    // Constant 0.5 noise: elevation sum 155000, rock ramp
    // (155000 - 104000) / 8 == 6375. At the corner of a 10x10 grid the
    // falloff is 1280000, pushing the cell into deep water; at the centre
    // it stays rock, split by the draw against the ramp.
    let cell = constant_cell(5000);
    let d = TileDraws { rock: 9999, tree: 0, offset: 7 };
    let corner = build_tile(0, 0, 10, 10, &cell, d, true);
    assert_eq!(corner.style, TileStyle::WaterDeep);
    assert_eq!(corner.x, 0);
    assert_eq!(corner.y, 0);
    assert_eq!(corner.rand_offset, 7);
    let centre = build_tile(5, 5, 10, 10, &cell, d, true);
    assert_eq!(centre.style, TileStyle::RockLow);
    let low_draw = TileDraws { rock: 6375, tree: 0, offset: 7 };
    let centre_high = build_tile(5, 5, 10, 10, &cell, low_draw, true);
    assert_eq!(centre_high.style, TileStyle::RockHigh);
    let flat = build_tile(0, 0, 10, 10, &cell, low_draw, false);
    assert_eq!(flat.style, TileStyle::RockHigh);
}

#[test]
fn passability_is_false_exactly_for_water() {
    let styles = [
        (TileStyle::RockHigh, true),
        (TileStyle::RockLow, true),
        (TileStyle::Dirt, true),
        (TileStyle::DirtFarmed, true),
        (TileStyle::Tree, true),
        (TileStyle::GrassPlain, true),
        (TileStyle::GrassCoastal, true),
        (TileStyle::Sand, true),
        (TileStyle::WaterShallow, false),
        (TileStyle::WaterDeep, false),
    ];
    for (style, expected) in styles {
        let tile = Tile { x: 0, y: 0, style, rand_offset: 0 };
        assert_eq!(tile_is_passable(&tile), expected);
    }
}

#[test]
fn high_constant_noise_synthesizes_only_rock() {
    // A noise stub returning 0.9 everywhere: every cell classifies as rock
    // (high or low), and every tile is passable.
    let cells = constant_cells(9000, 100);
    let map = generate_tilemap(10, 10, &cells, false);
    assert_eq!(map.width, 10);
    assert_eq!(map.height, 10);
    assert_eq!(map.tiles.len(), 100);
    for t in map.tiles.iter() {
        assert!(t.style == TileStyle::RockHigh || t.style == TileStyle::RockLow);
        assert!(tile_is_passable(t));
    }
}

#[test]
fn low_constant_noise_synthesizes_only_deep_water() {
    let cells = constant_cells(-10000, 100);
    let map = generate_tilemap(10, 10, &cells, false);
    for t in map.tiles.iter() {
        assert_eq!(t.style, TileStyle::WaterDeep);
        assert!(!tile_is_passable(t));
    }
}

#[test]
fn generated_offsets_are_fresh_draws_below_one() {
    // The per-tile offset comes from the random draw, bounded by the unit:
    // a draw that simply echoed its bound back would fail this.
    let cells = constant_cells(0, 36);
    let map = generate_tilemap(6, 6, &cells, true);
    for t in map.tiles.iter() {
        assert!(t.rand_offset < 10000);
    }
}
