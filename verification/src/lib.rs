//! A Battlesnake server core: the per-game session registry, the turn
//! budget, the anytime decision runner and the request dispatch rules,
//! each with a machine-checked contract.

pub mod api;
pub mod budget;
pub mod dispatch;
pub mod error;
pub mod path;
pub mod registry;
pub mod runner;
pub mod snakes;
pub mod text;
