//! The game: a field of cells, a hero moved by the keys, and monsters.
//!
//! Entities:
//! * the hero, moved by the player;
//! * monsters, which end the game when the hero meets one;
//! * walls, which nothing can enter;
//! * free cells, where entities walk.
pub mod entities;
pub mod laws;
pub mod map_navigator;
pub mod monster_list;
pub mod utils;
