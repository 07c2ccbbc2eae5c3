use tileworld::ecs_entities::{EntityRegistry, Utterance};
use tileworld::ecs_systems::{GameTimeNow, UtteranceSystem};
use tileworld::flock::{build_tilemap, CellNoise, NoiseSample, TileDraws};
use tileworld::orchestrator::{control_step, step_player, KeyInput, UTTERANCE_LIFESPAN};
use tileworld::player::Player;
use tileworld::tile::{TileMap, TileStyle};

fn constant_sample(v: i32) -> NoiseSample {
    NoiseSample { o1: v, o2: v, o4: v, o8: v, o16: v }
}

fn cell_of(elevation: i32) -> CellNoise {
    CellNoise {
        elevation: constant_sample(elevation),
        farmland: constant_sample(0),
        vegetation: constant_sample(0),
    }
}

/// A 3x3 map whose centre column's top cell is deep water and whose other
/// cells are coastal grass.
fn map_with_water_at_1_0() -> TileMap {
    let mut cells = Vec::new();
    for i in 0..9 {
        cells.push(if i == 1 { cell_of(-10000) } else { cell_of(0) });
    }
    let mut draws = Vec::new();
    for _ in 0..9 {
        draws.push(TileDraws { rock: 0, tree: 0, offset: 0 });
    }
    let map = build_tilemap(3, 3, &cells, &draws, false);
    assert_eq!(map.tiles[1].style, TileStyle::WaterDeep);
    assert_eq!(map.tiles[4].style, TileStyle::GrassCoastal);
    map
}

fn player_at(x: usize, y: usize) -> Player {
    Player { x, y, limit_x: 2, limit_y: 2 }
}

#[test]
fn raw_moves_stop_at_the_limits() {
    let mut p = player_at(0, 0);
    p.try_north();
    assert_eq!((p.x, p.y), (0, 0));
    p.try_west();
    assert_eq!((p.x, p.y), (0, 0));
    p.try_south();
    assert_eq!((p.x, p.y), (0, 1));
    p.try_east();
    assert_eq!((p.x, p.y), (1, 1));
    let mut q = player_at(2, 2);
    q.try_south();
    assert_eq!((q.x, q.y), (2, 2));
    q.try_east();
    assert_eq!((q.x, q.y), (2, 2));
}

#[test]
fn move_toward_impassable_tile_is_rejected_unchanged() {
    let map = map_with_water_at_1_0();
    let mut p = player_at(1, 1);
    step_player(&mut p, &map, KeyInput::Up);
    assert_eq!((p.x, p.y), (1, 1));
    // A rejected request is idempotent: asking again changes nothing.
    step_player(&mut p, &map, KeyInput::Up);
    assert_eq!((p.x, p.y), (1, 1));
}

#[test]
fn move_outside_the_limits_is_rejected_unchanged() {
    let map = map_with_water_at_1_0();
    let mut p = player_at(0, 0);
    step_player(&mut p, &map, KeyInput::Up);
    assert_eq!((p.x, p.y), (0, 0));
    step_player(&mut p, &map, KeyInput::Left);
    assert_eq!((p.x, p.y), (0, 0));
    let mut q = player_at(2, 2);
    step_player(&mut q, &map, KeyInput::Down);
    assert_eq!((q.x, q.y), (2, 2));
    step_player(&mut q, &map, KeyInput::Right);
    assert_eq!((q.x, q.y), (2, 2));
}

#[test]
fn granted_move_changes_exactly_one_coordinate_by_one() {
    let map = map_with_water_at_1_0();
    let mut p = player_at(1, 1);
    step_player(&mut p, &map, KeyInput::Right);
    assert_eq!((p.x, p.y), (2, 1));
    step_player(&mut p, &map, KeyInput::Down);
    assert_eq!((p.x, p.y), (2, 2));
    step_player(&mut p, &map, KeyInput::Left);
    assert_eq!((p.x, p.y), (1, 2));
    step_player(&mut p, &map, KeyInput::Up);
    assert_eq!((p.x, p.y), (1, 1));
    assert_eq!(p.limit_x, 2);
    assert_eq!(p.limit_y, 2);
}

#[test]
fn utterance_lives_until_its_deadline_and_not_past_it() {
    let created_at: i64 = 100;
    let mut registry = EntityRegistry::new();
    registry.insert(Utterance::new("Howdy".to_owned(), created_at, UTTERANCE_LIFESPAN));
    assert_eq!(registry.len(), 1);

    let mut system = UtteranceSystem;
    // Present in every query strictly before creation time + lifespan.
    for now in [100, 101, 104] {
        system.run(&mut registry, &GameTimeNow(now));
        assert_eq!(registry.len(), 1);
    }
    // Absent from the boundary on: equality counts as expired.
    system.run(&mut registry, &GameTimeNow(105));
    assert_eq!(registry.len(), 0);
}

#[test]
fn expiry_sweep_keeps_survivors_in_order() {
    let mut registry = EntityRegistry::new();
    registry.insert(Utterance::new("a".to_owned(), 0, 3));
    registry.insert(Utterance::new("b".to_owned(), 0, 90));
    registry.insert(Utterance::new("c".to_owned(), 0, 2));
    registry.insert(Utterance::new("d".to_owned(), 0, 80));
    let mut system = UtteranceSystem;
    system.run(&mut registry, &GameTimeNow(50));
    assert_eq!(registry.len(), 2);
    assert_eq!(registry.get(0).text, "b");
    assert_eq!(registry.get(1).text, "d");
    // Sweeping again at the same time removes nothing further.
    system.run(&mut registry, &GameTimeNow(50));
    assert_eq!(registry.len(), 2);
}

#[test]
fn control_step_space_speaks_a_five_unit_utterance() {
    let map = map_with_water_at_1_0();
    let mut p = player_at(1, 1);
    let mut registry = EntityRegistry::new();
    let quit = control_step(&mut p, &mut registry, &map, &GameTimeNow(40), KeyInput::Space);
    assert!(!quit);
    assert_eq!((p.x, p.y), (1, 1));
    assert_eq!(registry.len(), 1);
    assert_eq!(registry.get(0).text, "Howdy");
    assert_eq!(registry.get(0).dead_at, 45);
}

#[test]
fn control_step_quits_only_on_the_terminate_signal() {
    let map = map_with_water_at_1_0();
    let mut p = player_at(1, 1);
    let mut registry = EntityRegistry::new();
    for key in [KeyInput::Up, KeyInput::Down, KeyInput::Left, KeyInput::Right, KeyInput::Space] {
        assert!(!control_step(&mut p, &mut registry, &map, &GameTimeNow(0), key));
    }
    assert!(control_step(&mut p, &mut registry, &map, &GameTimeNow(0), KeyInput::Other));
    // The terminate signal touches neither the player nor the registry.
    assert_eq!(registry.len(), 1);
    assert_eq!((p.x, p.y), (1, 2));
}

#[test]
fn control_step_moves_through_the_passability_gate() {
    let map = map_with_water_at_1_0();
    let mut p = player_at(1, 1);
    let mut registry = EntityRegistry::new();
    control_step(&mut p, &mut registry, &map, &GameTimeNow(0), KeyInput::Up);
    assert_eq!((p.x, p.y), (1, 1));
    control_step(&mut p, &mut registry, &map, &GameTimeNow(0), KeyInput::Right);
    assert_eq!((p.x, p.y), (2, 1));
    assert_eq!(registry.len(), 0);
}
