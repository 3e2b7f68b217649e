//! Player movement: one step per input, clamped to the map and rejected
//! on collision, with the dirty-flag discipline of the field of view.

use vstd::prelude::*;

verus! {

use crate::fov::Fov;
use crate::game_map::GameMap;
use crate::input::InputType;
use crate::position::Coord2d;
use crate::states::GameTurnState;

/// The position the player intends to reach from `pos` under the given
/// input on a map of the given dimensions: one step in the input's
/// direction, clamped to the map's full coordinate range, or the unchanged
/// position for a non-movement input.
pub open spec fn moved_position(
    input: InputType,
    pos: Coord2d,
    width: int,
    height: int,
) -> (int, int) {
    match input {
        InputType::Up => (
            pos.x as int,
            if pos.y + 1 <= height - 1 {
                pos.y + 1
            } else {
                height - 1
            },
        ),
        InputType::Left => (
            if pos.x - 1 >= 0 {
                pos.x - 1
            } else {
                0
            },
            pos.y as int,
        ),
        InputType::Right => (
            if pos.x + 1 <= width - 1 {
                pos.x + 1
            } else {
                width - 1
            },
            pos.y as int,
        ),
        InputType::Down => (
            pos.x as int,
            if pos.y - 1 >= 0 {
                pos.y - 1
            } else {
                0
            },
        ),
        InputType::Cancel => (pos.x as int, pos.y as int),
    }
}

/// Whether any of the `positions` equals `(x, y)`.
pub open spec fn occupies(positions: Seq<Coord2d>, x: int, y: int) -> bool {
    exists|i: int| 0 <= i < positions.len() && (#[trigger] positions[i]).x == x && positions[i].y == y
}

/// Updates the player's position according to the passed movement input,
/// within the bounds of the map and around entities with collision.
///
/// The tentative new position is one step in the input's direction, clamped
/// to the map. If the map blocks that tile or an entity occupies it,
/// nothing changes. If the move is accepted and actually changes the
/// position, the position is updated and the player's field of view is
/// marked dirty; staying in place leaves the dirty flag untouched. The
/// player's action always hands the turn to the NPCs.
pub fn handle_player_movement(
    input_type: &InputType,
    player_fov: &mut Fov,
    tile_map: &GameMap,
    player_position: &mut Coord2d,
    entity_collision_positions: &Vec<Coord2d>,
) -> (r: GameTurnState)
    requires
        tile_map.wf(),
        tile_map.in_tile_range(old(player_position).x as int, old(player_position).y as int),
    ensures
        r == GameTurnState::Npc,
        final(player_fov).radius == old(player_fov).radius,
        final(player_fov).coords() == old(player_fov).coords(),
        ({
            let target = moved_position(
                *input_type,
                *old(player_position),
                tile_map.width as int,
                tile_map.height as int,
            );
            let rejected = tile_map.blocked(target.0, target.1) || occupies(
                entity_collision_positions@,
                target.0,
                target.1,
            );
            let moved = !rejected && !(target.0 == old(player_position).x && target.1 == old(
                player_position,
            ).y);
            &&& final(player_position).x as int == if moved {
                target.0
            } else {
                old(player_position).x as int
            }
            &&& final(player_position).y as int == if moved {
                target.1
            } else {
                old(player_position).y as int
            }
            &&& final(player_fov).is_dirty == (old(player_fov).is_dirty || moved)
        }),
{
    let new_position = match input_type {
        InputType::Up => player_position.up(tile_map.height - 1),
        InputType::Left => player_position.left(0),
        InputType::Right => player_position.right(tile_map.width - 1),
        InputType::Down => player_position.down(0),
        InputType::Cancel => Coord2d::new(player_position.x, player_position.y),
    };

    let mut collides_with_entity = false;
    let n = entity_collision_positions.len();
    let mut i: usize = 0;
    while i < n
        invariant
            n == entity_collision_positions@.len(),
            0 <= i <= n,
            collides_with_entity ==> occupies(
                entity_collision_positions@,
                new_position.x as int,
                new_position.y as int,
            ),
            !collides_with_entity ==> forall|j: int|
                0 <= j < i ==> !((#[trigger] entity_collision_positions@[j]).x == new_position.x
                    && entity_collision_positions@[j].y == new_position.y),
        decreases n - i,
    {
        let c = entity_collision_positions[i];
        if c.x == new_position.x && c.y == new_position.y {
            collides_with_entity = true;
        }
        i = i + 1;
    }

    if tile_map.tile_has_collision(&new_position) || collides_with_entity {
        return GameTurnState::Npc;
    }

    if !(new_position.x == player_position.x && new_position.y == player_position.y) {
        player_fov.is_dirty = true;
        player_position.x = new_position.x;
        player_position.y = new_position.y;
    }

    GameTurnState::Npc
}

} // verus!
