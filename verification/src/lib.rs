//! A turn-driven engine for a small terminal skirmish: one player and a few
//! wandering enemies on a bounded grid, each shown as a bordered panel.
//!
//! The engine owns the entities, the movement rules and the registry that
//! ties every entity to its panel on screen. It never touches the terminal:
//! each tick it hands back what has to be erased and drawn, and takes the
//! handles of the new panels in return.

pub mod chance;
pub mod entity;
pub mod panel;
pub mod game;
