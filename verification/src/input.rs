//! Abstract input events and the key bindings that produce them.

use vstd::prelude::*;

verus! {

/// An abstract input event of the game: the meaning of a key press,
/// independent of the physical key it is bound to. What an input means
/// depends on context; during play the directions move the player.
#[derive(Debug, Copy, Clone, PartialEq, Eq, Structural, Hash)]
pub enum InputType {
    /// An upwards directed movement.
    Up,
    /// A leftwards directed movement.
    Left,
    /// A downwards directed movement.
    Down,
    /// A rightwards directed movement.
    Right,
    /// Cancelling the current action, e.g. leaving the game.
    Cancel,
}

impl Default for InputType {
    fn default() -> (r: Self)
        ensures
            r == InputType::Up,
    {
        InputType::Up
    }
}

impl InputType {
    /// `true` if the input is a movement event of any kind.
    pub fn is_movement_event(&self) -> (r: bool)
        ensures
            r == (*self == InputType::Up || *self == InputType::Left || *self == InputType::Down
                || *self == InputType::Right),
    {
        match self {
            InputType::Up => true,
            InputType::Left => true,
            InputType::Down => true,
            InputType::Right => true,
            InputType::Cancel => false,
        }
    }
}

/// The key bindings of the game: for each input event, the numeric code of
/// the physical key bound to it. The surrounding platform layer translates
/// its key identifiers to these plain codes.
#[derive(Debug, Copy, Clone, PartialEq, Eq, Structural, Hash)]
pub struct InputConfig {
    /// The key code bound to the upwards movement.
    pub up: u32,
    /// The key code bound to the leftwards movement.
    pub left: u32,
    /// The key code bound to the downwards movement.
    pub down: u32,
    /// The key code bound to the rightwards movement.
    pub right: u32,
    /// The key code bound to cancelling.
    pub cancel: u32,
}

impl InputConfig {
    /// Creates a new key binding table from the five key codes.
    pub fn new(up: u32, left: u32, down: u32, right: u32, cancel: u32) -> (r: Self)
        ensures
            r == (InputConfig { up, left, down, right, cancel }),
    {
        Self { up, left, down, right, cancel }
    }

    /// What `parse_input` returns for `key_code` under this configuration:
    /// the first binding that matches, in the order up, left, down, right,
    /// cancel, or nothing when no binding matches.
    pub open spec fn parse_spec(self, key_code: u32) -> Option<InputType> {
        if self.up == key_code {
            Some(InputType::Up)
        } else if self.left == key_code {
            Some(InputType::Left)
        } else if self.down == key_code {
            Some(InputType::Down)
        } else if self.right == key_code {
            Some(InputType::Right)
        } else if self.cancel == key_code {
            Some(InputType::Cancel)
        } else {
            None
        }
    }

    /// Translates the passed key code to the input event it is bound to,
    /// or nothing when the key is unbound.
    pub fn parse_input(&self, key_code: u32) -> (r: Option<InputType>)
        ensures
            r == self.parse_spec(key_code),
    {
        if self.up == key_code {
            Some(InputType::Up)
        } else if self.left == key_code {
            Some(InputType::Left)
        } else if self.down == key_code {
            Some(InputType::Down)
        } else if self.right == key_code {
            Some(InputType::Right)
        } else if self.cancel == key_code {
            Some(InputType::Cancel)
        } else {
            None
        }
    }

    /// The name of the file this configuration is loaded from.
    pub fn file_name() -> (r: &'static str)
        ensures
            r@ == "input.json"@,
    {
        "input.json"
    }
}

} // verus!
