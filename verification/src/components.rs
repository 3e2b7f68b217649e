//! Small per-entity records: markers, name tags, NPC state, and the NPC
//! line-of-sight reaction.

use vstd::prelude::*;

verus! {

use crate::fov::Fov;
use crate::position::Position2d;

/// Marker denoting that the associated entity has collision: the player
/// cannot move onto the space occupied by it.
#[derive(Debug, Copy, Clone, PartialEq, Eq, Structural, Hash)]
pub struct Collision;

/// Marker denoting that an entity belongs to the running game state, so it
/// can be cleaned up when the state ends.
#[derive(Debug, Copy, Clone, PartialEq, Eq, Structural, Hash)]
pub struct GameStateLabel;

/// A display name for the associated entity.
#[derive(Debug, Clone, PartialEq, Eq, Hash)]
pub struct NameTag {
    /// The name shown for the entity.
    pub text: String,
}

impl NameTag {
    /// Creates a new name tag with the passed `text`.
    pub fn new(text: &str) -> (r: Self)
        ensures
            r.text@ == text@,
    {
        Self { text: String::from_str(text) }
    }
}

/// The reactive state of a non-player character.
#[derive(Debug, Copy, Clone, PartialEq, Eq, Structural, Hash)]
pub struct NpcState {
    /// Whether the player is currently inside the NPC's field of view.
    pub is_seeing_player: bool,
}

impl Default for NpcState {
    /// A freshly spawned NPC has not noticed the player yet.
    fn default() -> (r: Self)
        ensures
            !r.is_seeing_player,
    {
        Self { is_seeing_player: false }
    }
}

/// One NPC's line-of-sight reaction to the player: the NPC sees the player
/// exactly when the player's position is a member of the NPC's field of
/// view. The result reports a fresh sighting — the transition from not
/// seeing to seeing — on which callers emit a one-time reaction.
pub fn enemy_line_of_sight<P: Position2d>(
    fov: &Fov,
    npc_state: &mut NpcState,
    player_position: &P,
) -> (noticed: bool)
    ensures
        final(npc_state).is_seeing_player == fov.contains_pos(
            ((player_position.pos_x() as i32), (player_position.pos_y() as i32)),
        ),
        noticed == (final(npc_state).is_seeing_player && !old(npc_state).is_seeing_player),
{
    let sees = fov.contains(player_position);
    let noticed = sees && !npc_state.is_seeing_player;
    npc_state.is_seeing_player = sees;
    noticed
}

} // verus!
