//! The simulation core of a tile-based platformer: a map of 48 by 27 cells,
//! a resolver that moves actors against the walls of the map, the player and
//! its enemies, and the screens that own them.
//!
//! All lengths, speeds and forces are whole numbers of thousandths of a
//! world unit, so that every tick has one exact result; a cell is eight
//! world units wide. Painting and the reading of keys are not done here:
//! a tick takes the held keys as a value and leaves the instructions for
//! the painter in the layers of the picture.

pub mod assets;
pub mod entity;
pub mod graphics;
pub mod parse;
pub mod physics;
pub mod player;
pub mod registry;
pub mod screens;
pub mod tilemap;
pub mod utils;
