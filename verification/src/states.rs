//! The game's state machine: the application state and whose turn it is.

use vstd::prelude::*;

verus! {

/// The top level states of the game's state machine. Each state owns its
/// entities and logic; this game only has its main gameplay state.
#[derive(Debug, Copy, Clone, PartialEq, Eq, Structural, Hash)]
pub enum AppState {
    /// The main gameplay state, in which the player traverses the world.
    Game,
}

impl Default for AppState {
    fn default() -> (r: Self)
        ensures
            r == AppState::Game,
    {
        AppState::Game
    }
}

/// Whose turn it currently is inside the gameplay state: systems bound to
/// the player's action run in `Player`, reactive NPC systems in `Npc`.
#[derive(Debug, Copy, Clone, PartialEq, Eq, Structural, Hash)]
pub enum GameTurnState {
    /// The player may act.
    Player,
    /// The NPCs respond to the player's action.
    Npc,
}

impl Default for GameTurnState {
    /// A turn cycle starts with the player.
    fn default() -> (r: Self)
        ensures
            r == GameTurnState::Player,
    {
        GameTurnState::Player
    }
}

/// Hands control back to the player once the NPCs have taken their turn.
/// Reports whether the state actually changed, so callers only touch the
/// shared state when necessary.
pub fn npc_turn_end(state: &mut GameTurnState) -> (changed: bool)
    ensures
        *final(state) == GameTurnState::Player,
        changed == (*old(state) != GameTurnState::Player),
{
    match state {
        GameTurnState::Player => false,
        GameTurnState::Npc => {
            *state = GameTurnState::Player;
            true
        },
    }
}

} // verus!
