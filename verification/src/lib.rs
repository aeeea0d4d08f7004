//! Game logic of a turn-based roguelike: entity tables, 3D vectors, rules that
//! react to actions, and the decisions taken while a turn is resolved.

pub mod game;
pub mod geometry;
