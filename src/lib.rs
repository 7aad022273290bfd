//! A grid-based snake game core: a toroidal grid of cell tags, a snake that
//! moves, grows and collides on it, randomly placed food, and the state
//! machine that decides which player actions are honoured.

mod random;

pub mod direction;
pub mod engine;
pub mod grid;
pub mod laws;
