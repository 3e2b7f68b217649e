use rogue_core::algorithm::{
    calculate_distance, field_of_view, get_sign_multiplier, is_in_line_of_sight, project_fov,
};
use rogue_core::dimension::Dimension2d;
use rogue_core::fov::Fov;
use rogue_core::game_map::GameMap;
use rogue_core::generator::TestTileMapGenerator;
use rogue_core::position::Coord2d;
use rogue_core::tile::MapTile;

#[test]
fn test_sign_multiplier_evaluation() {
    let position1 = (3, -1);
    let position2 = (-1, 4);
    let position3 = (0, 0);

    assert_eq!([1, -1], get_sign_multiplier(&position1));
    assert_eq!([-1, 1], get_sign_multiplier(&position2));
    assert_eq!([1, 1], get_sign_multiplier(&position3));
}

#[test]
fn test_fov_calculation() {
    let mut map = GameMap::new(&[10, 10], &TestTileMapGenerator);

    let mut fov = Fov::new(8);

    let center = map.center();
    field_of_view(&mut fov, &center, &map);

    let positions: Vec<(i32, i32)> = fov.positions().clone();
    for position in positions.iter() {
        map.mark_tile_as_seen(position);
        map.mark_tile_as_visible(position);
    }

    for x in 0..map.width - 1 {
        for y in 0..map.height - 1 {
            let position = [x, y];

            if [4, 5, 6].contains(&x) && [4, 5, 6].contains(&y) {
                assert!(fov.contains(&position));
                assert!(map.is_tile_seen(&position));
                assert!(map.is_tile_visible(&position));
            } else {
                assert!(!fov.contains(&position));
                assert!(!map.is_tile_seen(&position));
                assert!(!map.is_tile_visible(&position));
            }
        }
    }
}

#[test]
fn step_distance_is_floored_euclidean() {
    assert_eq!(5, calculate_distance(&(2, 2), &(6, 5)));
    assert_eq!(1, calculate_distance(&(0, 0), &(1, 1)));
    assert_eq!(0, calculate_distance(&(3, 3), &(3, 3)));
    assert_eq!(3, calculate_distance(&(5, 5), &(5, 8)));
    assert_eq!(2, calculate_distance(&(5, 5), &(5, 3)));
}

/// A corridor map: floor carved along row 5 from x = 2 to x = 7, inside an
/// otherwise solid 10 by 10 map.
fn corridor_map() -> GameMap {
    let mut map = GameMap::new(&[10, 10], &TestTileMapGenerator);
    for x in 2..8 {
        map.set_tile_at(&(x, 5), MapTile::floor('.'));
    }
    map
}

#[test]
fn line_of_sight_blocked_by_wall_segment() {
    let mut map = corridor_map();
    let start = (2, 5);
    let end = (6, 5);

    assert!(is_in_line_of_sight(&start, &end, &map));

    map.set_tile_at(&(4, 5), MapTile::wall('#'));
    assert!(!is_in_line_of_sight(&start, &end, &map));

    map.set_tile_at(&(4, 5), MapTile::floor('.'));
    assert!(is_in_line_of_sight(&start, &end, &map));
}

#[test]
fn fov_excludes_radius_edge_and_includes_inside() {
    let mut map = GameMap::new(&[12, 12], &TestTileMapGenerator);
    for y in 2..10 {
        map.set_tile_at(&(5, y), MapTile::floor('.'));
    }

    let mut fov = Fov::new(3);
    field_of_view(&mut fov, &Coord2d::new(5, 5), &map);

    // (5, 2) lies inside the candidate square but at step distance exactly
    // 3 from (5, 5): excluded.
    assert!(!fov.contains(&(5, 2)));
    // (5, 3) is at step distance 2 and unobstructed: included.
    assert!(fov.contains(&(5, 3)));
    // (5, 8) is at step distance exactly 3 as well: excluded.
    assert!(!fov.contains(&(5, 8)));
}

#[test]
fn fov_recompute_is_noop_while_clean() {
    let map = GameMap::new(&[10, 10], &TestTileMapGenerator);
    let center = map.center();

    let mut fov = Fov::new(8);
    field_of_view(&mut fov, &center, &map);
    assert!(!fov.is_dirty);

    let first: Vec<(i32, i32)> = fov.positions().clone();
    field_of_view(&mut fov, &center, &map);

    assert_eq!(&first, fov.positions());
    assert!(!fov.is_dirty);
}

#[test]
fn visibility_reset_on_recompute() {
    let mut map = corridor_map();

    // Compute and project the view from one end of the corridor.
    let mut fov = Fov::new(2);
    field_of_view(&mut fov, &Coord2d::new(3, 5), &map);
    project_fov(&fov, &mut map);
    assert!(map.is_tile_visible(&(2, 5)));
    assert!(map.is_tile_seen(&(2, 5)));

    // Move to the other end and recompute: (2, 5) leaves the view.
    fov.is_dirty = true;
    field_of_view(&mut fov, &Coord2d::new(6, 5), &map);
    project_fov(&fov, &mut map);

    assert!(!fov.contains(&(2, 5)));
    assert!(!map.is_tile_visible(&(2, 5)));
    assert!(map.is_tile_seen(&(2, 5)));
}

#[test]
fn fov_coordinates_hold_no_duplicates() {
    let map = GameMap::new(&[10, 10], &TestTileMapGenerator);
    let mut fov = Fov::new(8);
    field_of_view(&mut fov, &Coord2d::new(5, 5), &map);

    let positions = fov.positions();
    for i in 0..positions.len() {
        for j in 0..positions.len() {
            if i != j {
                assert_ne!(positions[i], positions[j]);
            }
        }
    }
}

#[test]
fn fov_new_starts_dirty_and_empty() {
    let fov = Fov::new(4);
    assert_eq!(4, fov.radius);
    assert!(fov.is_dirty);
    assert!(fov.positions().is_empty());
}
