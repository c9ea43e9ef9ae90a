//! A grid-based snake simulation: a snake moves on a toroidal board in fixed
//! simulation ticks, grows by eating food, and dies on self-collision.
//!
//! The crate holds the deterministic core: grid geometry, the snake state
//! machine, and the per-frame game session logic. Window creation, key
//! polling and drawing live outside it.

pub mod game;
pub mod grid;
pub mod snake;
