//! Turn-based combat between a player and a sequence of enemies.
//!
//! The crate holds the combat rules only: stats and their formulas, status
//! effects, the move catalog, the two kinds of combatant, and the scheduler
//! that decides who may act and what happens when a turn ends. Drawing the
//! screen and reading keys are left to the program that drives it.

pub mod dice;
pub mod text;
pub mod entity_components;
pub mod game;
pub mod laws;
