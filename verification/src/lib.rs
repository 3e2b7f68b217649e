//! Core logic of a terminal roguelike: grid primitives, a tile map with
//! seen/visible tracking, a room-and-corridor dungeon generator, and a
//! raycast field-of-view engine, all with verified contracts.

pub mod algorithm;
pub mod components;
pub mod constants;
pub mod dimension;
pub mod fov;
pub mod game_map;
pub mod generator;
pub mod input;
pub mod movement;
pub mod position;
pub mod rectangle;
pub mod rng;
pub mod states;
pub mod tile;
pub mod window_config;
