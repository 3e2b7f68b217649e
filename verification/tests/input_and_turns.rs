use rogue_core::components::{enemy_line_of_sight, NpcState};
use rogue_core::dimension::Dimension2d;
use rogue_core::fov::Fov;
use rogue_core::game_map::GameMap;
use rogue_core::generator::TestTileMapGenerator;
use rogue_core::input::{InputConfig, InputType};
use rogue_core::movement::handle_player_movement;
use rogue_core::position::Coord2d;
use rogue_core::states::GameTurnState;
use rogue_core::tile::MapTile;
use rogue_core::window_config::WindowConfig;

#[test]
fn test_movement_type_detection() {
    assert_eq!(true, InputType::Up.is_movement_event());
    assert_eq!(true, InputType::Left.is_movement_event());
    assert_eq!(true, InputType::Down.is_movement_event());
    assert_eq!(true, InputType::Right.is_movement_event());
    assert_eq!(false, InputType::Cancel.is_movement_event());
}

#[test]
fn test_config_file_path() {
    assert_eq!(String::from("input.json"), InputConfig::file_name());
}

#[test]
fn test_config_file_name() {
    assert_eq!("window.json", WindowConfig::file_name());
}

#[test]
fn test_terminal_size_calculation() {
    assert_eq!([100, 80], WindowConfig::new([800, 640], false, 0).terminal_size())
}

#[test]
fn key_codes_parse_in_binding_order() {
    let config = InputConfig::new(17, 30, 31, 32, 1);

    assert_eq!(Some(InputType::Up), config.parse_input(17));
    assert_eq!(Some(InputType::Left), config.parse_input(30));
    assert_eq!(Some(InputType::Down), config.parse_input(31));
    assert_eq!(Some(InputType::Right), config.parse_input(32));
    assert_eq!(Some(InputType::Cancel), config.parse_input(1));
    assert_eq!(None, config.parse_input(99));

    // With one key bound twice the earlier binding wins.
    let clashed = InputConfig::new(5, 5, 6, 7, 8);
    assert_eq!(Some(InputType::Up), clashed.parse_input(5));
}

#[test]
fn test_enemy_line_of_sight_system() {}

#[test]
fn enemy_notices_player_once() {
    let mut fov = Fov::new(8);
    let map = GameMap::new(&[10, 10], &TestTileMapGenerator);
    let origin = map.center();
    rogue_core::algorithm::field_of_view(&mut fov, &origin, &map);

    let mut state = NpcState::default();
    assert!(!state.is_seeing_player);

    // The player stands next to the NPC, inside its field of view.
    let player = Coord2d::new(5, 4);
    let noticed = enemy_line_of_sight(&fov, &mut state, &player);
    assert!(noticed);
    assert!(state.is_seeing_player);

    // Already seen: no fresh sighting.
    let noticed_again = enemy_line_of_sight(&fov, &mut state, &player);
    assert!(!noticed_again);
    assert!(state.is_seeing_player);

    // The player steps out of view.
    let far_player = Coord2d::new(1, 1);
    let lost = enemy_line_of_sight(&fov, &mut state, &far_player);
    assert!(!lost);
    assert!(!state.is_seeing_player);
}

/// A map whose center tile and the tile above it are floor.
fn two_floor_map() -> GameMap {
    let mut map = GameMap::new(&[10, 10], &TestTileMapGenerator);
    map.set_tile_at(&(5, 6), MapTile::floor('.'));
    map
}

#[test]
fn movement_into_wall_changes_nothing() {
    let map = GameMap::new(&[10, 10], &TestTileMapGenerator);
    let mut fov = Fov::new(8);
    fov.is_dirty = false;
    let mut position = Coord2d::new(5, 5);

    let turn = handle_player_movement(&InputType::Up, &mut fov, &map, &mut position, &Vec::new());

    assert_eq!(GameTurnState::Npc, turn);
    assert_eq!(Coord2d::new(5, 5), position);
    assert!(!fov.is_dirty);
}

#[test]
fn movement_into_floor_moves_and_dirties() {
    let map = two_floor_map();
    let mut fov = Fov::new(8);
    fov.is_dirty = false;
    let mut position = Coord2d::new(5, 5);

    let turn = handle_player_movement(&InputType::Up, &mut fov, &map, &mut position, &Vec::new());

    assert_eq!(GameTurnState::Npc, turn);
    assert_eq!(Coord2d::new(5, 6), position);
    assert!(fov.is_dirty);
}

#[test]
fn movement_into_occupied_tile_changes_nothing() {
    let map = two_floor_map();
    let mut fov = Fov::new(8);
    fov.is_dirty = false;
    let mut position = Coord2d::new(5, 5);
    let blockers = vec![Coord2d::new(5, 6)];

    let turn = handle_player_movement(&InputType::Up, &mut fov, &map, &mut position, &blockers);

    assert_eq!(GameTurnState::Npc, turn);
    assert_eq!(Coord2d::new(5, 5), position);
    assert!(!fov.is_dirty);
}

#[test]
fn non_movement_input_stays_in_place() {
    let map = two_floor_map();
    let mut fov = Fov::new(8);
    fov.is_dirty = false;
    let mut position = Coord2d::new(5, 5);

    let turn = handle_player_movement(
        &InputType::Cancel,
        &mut fov,
        &map,
        &mut position,
        &Vec::new(),
    );

    assert_eq!(GameTurnState::Npc, turn);
    assert_eq!(Coord2d::new(5, 5), position);
    assert!(!fov.is_dirty);
}

#[test]
fn turn_states_have_defaults() {
    assert_eq!(GameTurnState::Player, GameTurnState::default());
    assert_eq!(rogue_core::states::AppState::Game, rogue_core::states::AppState::default());
    assert_eq!(InputType::Up, InputType::default());
}
