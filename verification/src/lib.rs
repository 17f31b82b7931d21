//! Game logic of a small top-down role-playing game: character progression,
//! sprite animation, texture bookkeeping, window widgets and world generation.

pub mod achievements;
pub mod animation;
pub mod building;
pub mod character;
pub mod collisions;
pub mod death_animation;
pub mod debug_display;
pub mod direction;
pub mod enemy;
pub mod env;
pub mod environment;
pub mod font_handler;
pub mod game;
pub mod geometry;
pub mod health_bar;
pub mod inventory;
pub mod menu;
pub mod player;
pub mod player_stats;
pub mod registry;
pub mod reward;
pub mod skeleton;
pub mod status;
pub mod system;
pub mod text_outline;
pub mod texture_handler;
pub mod texture_holder;
pub mod weapons;
pub mod window;

use vstd::prelude::*;

verus! {

/// One second, in microseconds.
pub const ONE_SECOND: u32 = 1_000_000;

} // verus!
