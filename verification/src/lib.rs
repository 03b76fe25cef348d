//! An in-memory registry of multiplayer lobby sessions: short unique session
//! codes, the set of live sessions, and the players that joined each of them.

pub mod code;
pub mod error;
pub mod laws;
pub mod membership;
pub mod models;
pub mod registry;
pub mod sessions;
pub mod string_set;
