//! A two-player, turn-based arithmetic duel engine.
//!
//! Each combatant picks one of four actions (damage, heal, weaken,
//! strengthen); the engine turns the choice into an arithmetic equation,
//! and only a correct answer applies the effect. This crate holds the
//! verified core: the combatants and their stats, the equation/resolution
//! algorithm, and the duel state machine. Rendering and keyboard input
//! live outside, feeding the engine plain boundary events each frame.

pub mod game;
pub mod nerds;
pub mod text;
