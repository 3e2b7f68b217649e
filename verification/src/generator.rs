//! Dungeon layout generation: room placement by rejection sampling with
//! corridor stitching, and a deterministic single-tile layout for tests.

use vstd::prelude::*;

verus! {

use crate::constants::{MAP_MAX_ROOMS, MAP_MAX_ROOM_SIZE, MAP_MIN_ROOM_SIZE, MAX_MAP_DIMENSION};
use crate::dimension::Dimension2d;
use crate::game_map::GameMap;
use crate::rectangle::{corridor_l, Rectangle};
use crate::rng::RandomNumberGenerator;
use crate::tile::MapTile;

/// Whether `(x, y)` lies in the open interior of some room of the list.
pub open spec fn rooms_carve_interior(rooms: Seq<Rectangle>, x: int, y: int) -> bool {
    exists|i: int| 0 <= i < rooms.len() && #[trigger] rooms[i].carves(x, y)
}

/// Whether `(x, y)` lies on an L-corridor joining two consecutive rooms of
/// the list.
pub open spec fn rooms_carve_corridor(rooms: Seq<Rectangle>, x: int, y: int) -> bool {
    exists|i: int, j: int|
        0 <= i && j == i + 1 && j < rooms.len() && #[trigger] corridor_l(rooms[i], rooms[j], x, y)
}

/// The cells a recorded room list carves to floor: the open interior of
/// each room, and the L-corridors joining consecutive rooms in acceptance
/// order.
pub open spec fn rooms_carve(rooms: Seq<Rectangle>, x: int, y: int) -> bool {
    rooms_carve_interior(rooms, x, y) || rooms_carve_corridor(rooms, x, y)
}

/// Whether a room spans at least the minimum generated room size on both
/// axes; the standard generator only records such rooms, which keeps all
/// corridor runs off the map's border ring.
pub open spec fn room_spans_min(r: Rectangle) -> bool {
    &&& r.right - r.left >= MAP_MIN_ROOM_SIZE
    &&& r.top - r.bottom >= MAP_MIN_ROOM_SIZE
}

/// Extending a room list by one room extends its carved cells by exactly
/// the new room's interior and the corridor from the previously last room.
pub proof fn lemma_rooms_carve_push(rooms: Seq<Rectangle>, room: Rectangle, x: int, y: int)
    ensures
        rooms_carve(rooms.push(room), x, y) <==> ({
            ||| rooms_carve(rooms, x, y)
            ||| room.carves(x, y)
            ||| (rooms.len() > 0 && corridor_l(rooms[rooms.len() - 1], room, x, y))
        }),
{
    let rs = rooms.push(room);
    let n = rooms.len() as int;

    if rooms_carve_interior(rs, x, y) {
        let i = choose|i: int| 0 <= i < rs.len() && #[trigger] rs[i].carves(x, y);
        if i < n {
            assert(rs[i] == rooms[i]);
            assert(rooms[i].carves(x, y));
        } else {
            assert(rs[i] == room);
        }
    }
    if rooms_carve_corridor(rs, x, y) {
        let (i, j) = choose|i: int, j: int|
            0 <= i && j == i + 1 && j < rs.len() && #[trigger] corridor_l(rs[i], rs[j], x, y);
        if j < n {
            assert(rs[i] == rooms[i] && rs[j] == rooms[j]);
            assert(corridor_l(rooms[i], rooms[j], x, y));
        } else {
            assert(j == n && i == n - 1);
            assert(rs[i] == rooms[n - 1] && rs[j] == room);
            assert(corridor_l(rooms[n - 1], room, x, y));
        }
    }
    if rooms_carve_interior(rooms, x, y) {
        let i = choose|i: int| 0 <= i < rooms.len() && #[trigger] rooms[i].carves(x, y);
        assert(rs[i] == rooms[i]);
        assert(rs[i].carves(x, y));
    }
    if rooms_carve_corridor(rooms, x, y) {
        let (i, j) = choose|i: int, j: int|
            0 <= i && j == i + 1 && j < rooms.len() && #[trigger] corridor_l(rooms[i], rooms[j], x, y);
        assert(rs[i] == rooms[i] && rs[j] == rooms[j]);
        assert(corridor_l(rs[i], rs[j], x, y));
    }
    if room.carves(x, y) {
        assert(rs[n] == room);
        assert(rs[n].carves(x, y));
    }
    if rooms.len() > 0 && corridor_l(rooms[n - 1], room, x, y) {
        assert(rs[n - 1] == rooms[n - 1] && rs[n] == room);
        assert(corridor_l(rs[n - 1], rs[n], x, y));
    }
}

/// Cells carved by an in-bounds room list of minimum-span rooms lie
/// strictly inside the border ring: room interiors start one tile inside
/// the room's own walls, and corridor runs lie on room center rows and
/// columns, which minimum-span rooms keep away from the map's edge.
pub proof fn lemma_carve_off_border(rooms: Seq<Rectangle>, width: int, height: int, x: int, y: int)
    requires
        crate::game_map::rooms_wf(rooms, width, height),
        forall|i: int| 0 <= i < rooms.len() ==> room_spans_min(#[trigger] rooms[i]),
        rooms_carve(rooms, x, y),
    ensures
        1 <= x <= width - 2,
        1 <= y <= height - 2,
{
    if rooms_carve_interior(rooms, x, y) {
        let i = choose|i: int| 0 <= i < rooms.len() && #[trigger] rooms[i].carves(x, y);
        assert(rooms[i].in_map_bounds(width, height));
    } else {
        assert(rooms_carve_corridor(rooms, x, y));
        let (i, j) = choose|i: int, j: int|
            0 <= i && j == i + 1 && j < rooms.len() && #[trigger] corridor_l(rooms[i], rooms[j], x, y);
        let a = rooms[i];
        let b = rooms[j];
        assert(a.in_map_bounds(width, height));
        assert(b.in_map_bounds(width, height));
        assert(room_spans_min(a) && room_spans_min(b));
        assert(1 <= a.center_spec().0 <= width - 2);
        assert(1 <= a.center_spec().1 <= height - 2);
        assert(1 <= b.center_spec().0 <= width - 2);
        assert(1 <= b.center_spec().1 <= height - 2);
    }
}

/// Produces the initial layout of a freshly created game map: which tiles
/// are floor, and which rooms exist.
pub trait TileMapLayoutGenerator: Sized {
    /// The map dimensions this generator is able to work with.
    spec fn accepts(&self, width: int, height: int) -> bool;

    /// Whether the generator promises to place at least one room, so that
    /// callers may use the first room's center as the player's spawn point.
    spec fn yields_room(&self) -> bool;

    /// The cells the generator carves to floor besides the interiors and
    /// corridors of the rooms it records, on a map of the given dimensions.
    spec fn carves_extra(&self, width: int, height: int, x: int, y: int) -> bool;

    /// Carves the layout into the passed all-wall `map` and records the
    /// rooms it placed, keeping the map well formed: the interior of every
    /// recorded room and the corridors between consecutive rooms are floor,
    /// the generator's extra cells are floor, every other tile — the map's
    /// outer border ring among them — is left as it was.
    fn generate_layout(&self, map: &mut GameMap)
        requires
            old(map).wf(),
            old(map).rooms_seq().len() == 0,
            self.accepts(old(map).width as int, old(map).height as int),
        ensures
            final(map).wf(),
            final(map).width == old(map).width,
            final(map).height == old(map).height,
            final(map).seen_tiles@ == old(map).seen_tiles@,
            final(map).visible_tiles@ == old(map).visible_tiles@,
            self.yields_room() ==> final(map).rooms_seq().len() >= 1,
            final(map).rooms_seq().len() <= MAP_MAX_ROOMS,
            forall|x: int, y: int|
                old(map).in_tile_range(x, y) && rooms_carve(final(map).rooms_seq(), x, y)
                    ==> #[trigger] final(map).tile_at_spec(x, y) == MapTile::floor_spec('.'),
            forall|x: int, y: int|
                old(map).in_tile_range(x, y) && self.carves_extra(
                    old(map).width as int,
                    old(map).height as int,
                    x,
                    y,
                ) ==> #[trigger] final(map).tile_at_spec(x, y) == MapTile::floor_spec('.'),
            forall|x: int, y: int|
                old(map).in_tile_range(x, y) && !rooms_carve(final(map).rooms_seq(), x, y)
                    && !self.carves_extra(old(map).width as int, old(map).height as int, x, y)
                    ==> #[trigger] final(map).tile_at_spec(x, y) == old(map).tile_at_spec(x, y),
            forall|x: int, y: int|
                old(map).in_tile_range(x, y) && (x == 0 || x == old(map).width - 1 || y == 0 || y
                    == old(map).height - 1) ==> #[trigger] final(map).tile_at_spec(x, y) == old(
                    map,
                ).tile_at_spec(x, y),
    ;
}

/// The standard dungeon layout: up to `MAP_MAX_ROOMS` randomly placed,
/// non-overlapping rectangular rooms, each connected to the previously
/// accepted one by an L-shaped corridor.
pub struct BaseTileMapGenerator;

impl TileMapLayoutGenerator for BaseTileMapGenerator {
    /// Both dimensions must leave space for the largest possible room plus
    /// the reserved one-tile border on each side.
    open spec fn accepts(&self, width: int, height: int) -> bool {
        &&& MAP_MAX_ROOM_SIZE + 2 <= width
        &&& MAP_MAX_ROOM_SIZE + 2 <= height
    }

    /// The first candidate room never collides with anything, so at least
    /// one room is always accepted.
    open spec fn yields_room(&self) -> bool {
        true
    }

    /// This generator carves nothing but room interiors and corridors.
    open spec fn carves_extra(&self, width: int, height: int, x: int, y: int) -> bool {
        false
    }

    fn generate_layout(&self, map: &mut GameMap) {
        let mut rng = RandomNumberGenerator::new();
        let mut attempt: i32 = 0;
        while attempt < MAP_MAX_ROOMS
            invariant
                map.wf(),
                map.width == old(map).width,
                map.height == old(map).height,
                map.seen_tiles@ == old(map).seen_tiles@,
                map.visible_tiles@ == old(map).visible_tiles@,
                MAP_MAX_ROOM_SIZE + 2 <= map.width,
                MAP_MAX_ROOM_SIZE + 2 <= map.height,
                0 <= attempt <= MAP_MAX_ROOMS,
                attempt >= 1 ==> map.rooms_seq().len() >= 1,
                map.rooms_seq().len() <= attempt,
                forall|i: int|
                    0 <= i < map.rooms_seq().len() ==> room_spans_min(#[trigger] map.rooms_seq()[i]),
                forall|x: int, y: int|
                    old(map).in_tile_range(x, y) && rooms_carve(map.rooms_seq(), x, y)
                        ==> #[trigger] map.tile_at_spec(x, y) == MapTile::floor_spec('.'),
                forall|x: int, y: int|
                    old(map).in_tile_range(x, y) && !rooms_carve(map.rooms_seq(), x, y)
                        ==> #[trigger] map.tile_at_spec(x, y) == old(map).tile_at_spec(x, y),
            decreases MAP_MAX_ROOMS - attempt,
        {
            let room_width = rng.range(MAP_MIN_ROOM_SIZE, MAP_MAX_ROOM_SIZE);
            let room_height = rng.range(MAP_MIN_ROOM_SIZE, MAP_MAX_ROOM_SIZE);

            let room = Rectangle::new(
                (
                    rng.roll_dice(1, map.width - room_width - 1) - 1,
                    rng.roll_dice(1, map.height - room_height - 1) - 1,
                ),
                (room_width, room_height),
            );
            proof {
                assert(room.in_map_bounds(map.width as int, map.height as int));
                assert(room_spans_min(room));
            }

            let rooms_len = map.rooms().len();
            let mut collides = false;
            let mut k: usize = 0;
            while k < rooms_len
                invariant
                    map.wf(),
                    rooms_len == map.rooms_seq().len(),
                    0 <= k <= rooms_len,
                    !collides ==> forall|i: int|
                        0 <= i < k ==> !(#[trigger] map.rooms_seq()[i]).collides_with(room),
                    rooms_len == 0 ==> !collides,
                decreases rooms_len - k,
            {
                if room.collides(&map.rooms()[k]) {
                    collides = true;
                }
                proof {
                    crate::rectangle::lemma_collision_symmetric(room, map.rooms_seq()[k as int]);
                }
                k = k + 1;
            }

            if !collides {
                let ghost rooms0 = map.rooms_seq();
                let ghost before = *map;
                if map.rooms().len() > 0 {
                    let previous_room = map.rooms()[map.rooms().len() - 1];
                    room.connect(&previous_room, map);
                }
                let ghost mid = *map;
                room.add_to_map(map);
                let ghost carved = *map;
                map.push_room(room);
                proof {
                    let rs = map.rooms_seq();
                    let n0 = rooms0.len() as int;
                    assert(rs == rooms0.push(room));
                    assert(rs[n0] == room);

                    assert forall|i: int| 0 <= i < rs.len() implies room_spans_min(
                        #[trigger] rs[i],
                    ) by {
                        if i < n0 {
                            assert(rs[i] == rooms0[i]);
                        }
                    }

                    assert forall|x: int, y: int|
                        old(map).in_tile_range(x, y) && rooms_carve(rs, x, y) implies #[trigger] map.tile_at_spec(
                        x,
                        y,
                    ) == MapTile::floor_spec('.') by {
                        lemma_rooms_carve_push(rooms0, room, x, y);
                        assert(map.tile_at_spec(x, y) == carved.tile_at_spec(x, y));
                        if room.carves(x, y) {
                            assert(carved.tile_at_spec(x, y) == MapTile::floor_spec('.'));
                        } else {
                            assert(carved.tile_at_spec(x, y) == mid.tile_at_spec(x, y));
                            if rooms_carve(rooms0, x, y) {
                                assert(before.tile_at_spec(x, y) == MapTile::floor_spec('.'));
                                if n0 > 0 && corridor_l(rooms0[n0 - 1], room, x, y) {
                                    assert(mid.tile_at_spec(x, y) == MapTile::floor_spec('.'));
                                } else {
                                    assert(mid.tile_at_spec(x, y) == before.tile_at_spec(x, y));
                                }
                            } else {
                                assert(n0 > 0 && corridor_l(rooms0[n0 - 1], room, x, y));
                                assert(mid.tile_at_spec(x, y) == MapTile::floor_spec('.'));
                            }
                        }
                    }

                    assert forall|x: int, y: int|
                        old(map).in_tile_range(x, y) && !rooms_carve(rs, x, y) implies #[trigger] map.tile_at_spec(
                        x,
                        y,
                    ) == old(map).tile_at_spec(x, y) by {
                        lemma_rooms_carve_push(rooms0, room, x, y);
                        assert(map.tile_at_spec(x, y) == carved.tile_at_spec(x, y));
                        assert(carved.tile_at_spec(x, y) == mid.tile_at_spec(x, y));
                        assert(mid.tile_at_spec(x, y) == before.tile_at_spec(x, y));
                        assert(before.tile_at_spec(x, y) == old(map).tile_at_spec(x, y));
                    }
                }
            }
            attempt = attempt + 1;
        }
        proof {
            assert forall|x: int, y: int|
                old(map).in_tile_range(x, y) && (x == 0 || x == old(map).width - 1 || y == 0 || y
                    == old(map).height - 1) implies #[trigger] map.tile_at_spec(x, y) == old(
                map,
            ).tile_at_spec(x, y) by {
                if rooms_carve(map.rooms_seq(), x, y) {
                    lemma_carve_off_border(
                        map.rooms_seq(),
                        map.width as int,
                        map.height as int,
                        x,
                        y,
                    );
                }
            }
        }
    }
}

/// A deterministic layout for tests and examples: a single floor tile at
/// the exact center of the map, everything else left as wall, and no rooms
/// recorded.
pub struct TestTileMapGenerator;

impl TileMapLayoutGenerator for TestTileMapGenerator {
    /// Three tiles each way, so that the carved center stays off the border
    /// ring.
    open spec fn accepts(&self, width: int, height: int) -> bool {
        &&& 3 <= width
        &&& 3 <= height
    }

    open spec fn yields_room(&self) -> bool {
        false
    }

    /// The single carved cell: the exact center of the map.
    open spec fn carves_extra(&self, width: int, height: int, x: int, y: int) -> bool {
        x == width / 2 && y == height / 2
    }

    fn generate_layout(&self, map: &mut GameMap) {
        let center = map.center();
        map.set_tile_at(&center, MapTile::floor('.'));
        proof {
            assert(1 <= map.width as int / 2 <= map.width - 2);
            assert(1 <= map.height as int / 2 <= map.height - 2);
        }
    }
}

} // verus!
