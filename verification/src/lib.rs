//! The authoritative state of one zone of a multiplayer world: its entity
//! tables, the visibility rule that decides who hears of what, and the
//! respawn of its creatures.

pub mod chance;
pub mod character;
pub mod clock;
pub mod commands;
pub mod coords;
pub mod entity;
pub mod player;
pub mod population;
pub mod respawn;
pub mod visibility;
pub mod zone;
