//! Turn engine of a small network-defence game: a command interpreter, the
//! game-state model, the rules that resolve player actions, and the
//! adversary's decision procedure.

pub mod ai;
pub mod command;
pub mod engine;
pub mod laws;
pub mod node;
pub mod state;
pub mod text;
