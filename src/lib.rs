//! Core rules of a small camp-and-dungeon role-playing game: equipment and
//! monster generation on a stat budget, dungeon room sampling, turn-based
//! combat, levelling, the shop and the cooking station.

pub mod combat;
pub mod communication;
pub mod dice;
pub mod display;
pub mod dungeon;
pub mod items;
pub mod monster;
pub mod state;
