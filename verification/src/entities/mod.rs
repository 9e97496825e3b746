//! Entities: what every kind shares, the kinds, and their collection.

pub mod enemy;
pub mod entities;
pub mod entity;
pub mod model;
pub mod player;
