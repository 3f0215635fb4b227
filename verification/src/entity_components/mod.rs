//! The parts a combatant is made of, and the combatants themselves.

pub mod enemy;
pub mod entity;
pub mod moves;
pub mod player;
pub mod stats;
pub mod status;
