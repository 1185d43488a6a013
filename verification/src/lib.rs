//! Deterministic simulation core for a rollback-synchronized multiplayer game.
//!
//! The crate covers the boundary between a game simulation and a rollback
//! netcode session: bit-exact encoding of per-player input, an integer model
//! of per-player state, the pure frame-update function, and the session
//! adapter that answers the engine's save / load / advance / event callbacks.

pub mod input;
pub mod player;
pub mod session;
