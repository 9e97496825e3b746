//! Core rules of a small real-time 2D action game, free of windowing and
//! drawing back ends: a player steered by the keyboard, enemies that walk
//! straight at it, box collisions and contact damage, driven frame by
//! frame.
//!
//! Everything is counted in whole numbers. Positions and lengths are in
//! units, a billion to the pixel; a frame's length is in microseconds;
//! speeds are in pixels per second. A frame is asked for with
//! [`levels::level::Level::update`], the picture of the moment with
//! [`levels::level::Level::render`], which lays out draw commands for
//! whoever owns the screen.
//!
//! Each type comes with a mathematical model, its view, and each function
//! with a contract over the models that says exactly what it returns or
//! changes. What holds of the rules beyond a single call is stated and
//! proved beside them, in the functions whose names begin with `lemma_`.

pub mod entities;
pub mod levels;
pub mod tools;
