use rogue_core::game_map::GameMap;
use rogue_core::generator::{BaseTileMapGenerator, TestTileMapGenerator};
use rogue_core::rectangle::Rectangle;
use rogue_core::tile::{MapTile, MapTileType};

#[test]
fn test_collision() {
    let rectangle1 = Rectangle::new([0, 0], [50, 50]);
    let rectangle2 = Rectangle::new([100, 100], [50, 50]);
    let rectangle3 = Rectangle::new([0, 0], [10, 10]);

    assert!(!rectangle1.collides(&rectangle2));
    assert!(rectangle1.collides(&rectangle3));
    assert!(!rectangle2.collides(&rectangle3));
}

#[test]
fn rooms_are_added_to_map_correctly() {
    let mut map = GameMap::new(&[80, 50], &BaseTileMapGenerator);
    let rect = Rectangle::new([0, 0], [5, 5]);

    rect.add_to_map(&mut map);

    for x in 1..5 {
        for y in 1..5 {
            assert!(!map.get_tile_at(&[x, y]).has_collision())
        }
    }
}

#[test]
fn rooms_are_connected_correctly() {
    let mut map = GameMap::new(&[80, 50], &BaseTileMapGenerator);
    let rect1 = Rectangle::new([0, 0], [5, 5]);
    let rect2 = Rectangle::new([6, 6], [5, 5]);

    rect1.add_to_map(&mut map);
    rect2.add_to_map(&mut map);

    rect1.connect(&rect2, &mut map);

    let [x_start, y_start] = rect1.center();
    let [x_end, y_end] = rect2.center();

    for x in x_start..x_end {
        assert!(!map.tile_has_collision(&[x, y_end]));
    }

    for y in y_start..y_end {
        assert!(!map.tile_has_collision(&[x_start, y]));
    }
}

#[test]
fn generated_rooms_are_in_bounds_and_disjoint() {
    let map = GameMap::new(&[80, 50], &BaseTileMapGenerator);
    let rooms = map.rooms();

    assert!(rooms.len() >= 1);

    for room in rooms.iter() {
        assert!(0 <= room.left && room.left < room.right && room.right <= map.width - 1);
        assert!(0 <= room.bottom && room.bottom < room.top && room.top <= map.height - 1);
    }

    for i in 0..rooms.len() {
        for j in 0..rooms.len() {
            if i != j {
                assert!(!rooms[i].collides(&rooms[j]));
            }
        }
    }
}

#[test]
fn generated_map_keeps_border_ring_and_carves_rooms() {
    let map = GameMap::new(&[80, 50], &BaseTileMapGenerator);

    // The outer wall ring is unbroken.
    for x in 0..map.width {
        assert!(map.tile_has_collision(&(x, 0)));
        assert!(map.tile_has_collision(&(x, map.height - 1)));
    }
    for y in 0..map.height {
        assert!(map.tile_has_collision(&(0, y)));
        assert!(map.tile_has_collision(&(map.width - 1, y)));
    }

    // Every recorded room's interior is walkable floor.
    for room in map.rooms().iter() {
        for x in room.left + 1..room.right {
            for y in room.bottom + 1..room.top {
                assert!(!map.tile_has_collision(&(x, y)));
            }
        }
    }
}

#[test]
fn fresh_map_is_solid_unseen_wall() {
    let map = GameMap::new(&(10, 8), &TestTileMapGenerator);
    assert_eq!(10, map.width);
    assert_eq!(8, map.height);

    for x in 0..10 {
        for y in 0..8 {
            assert!(!map.is_tile_seen(&(x, y)));
            assert!(!map.is_tile_visible(&(x, y)));
            if !(x == 5 && y == 4) {
                assert!(map.tile_has_collision(&(x, y)));
            }
        }
    }
    // The test layout carves a single floor tile at the center.
    assert!(!map.tile_has_collision(&(5, 4)));
    assert!(map.rooms().is_empty());
}

#[test]
fn seen_and_visible_marks_work_independently() {
    let mut map = GameMap::new(&[10, 10], &TestTileMapGenerator);

    map.mark_tile_as_seen(&(3, 3));
    map.mark_tile_as_visible(&(3, 3));
    assert!(map.is_tile_seen(&(3, 3)));
    assert!(map.is_tile_visible(&(3, 3)));
    assert!(!map.is_tile_seen(&(4, 3)));

    map.reset_visible_tiles();
    assert!(!map.is_tile_visible(&(3, 3)));
    assert!(map.is_tile_seen(&(3, 3)));
}

#[test]
fn tiles_carry_glyph_and_collision() {
    let floor = MapTile::floor('.');
    assert_eq!('.', floor.glyph);
    assert_eq!(MapTileType::Floor, floor.kind);
    assert!(!floor.has_collision());

    let wall = MapTile::wall('#');
    assert!(wall.has_collision());

    let default_tile = MapTile::default();
    assert_eq!('#', default_tile.glyph);
    assert_eq!(MapTileType::Wall, default_tile.kind);
    assert!(default_tile.has_collision());
}
