//! The level: the facts shared during a frame, and the session that owns
//! them together with the entities.

pub mod level;
