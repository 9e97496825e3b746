//! Value types and tables shared by the rest of the crate.

pub mod assets;
pub mod chance;
pub mod fixed;
pub mod helpers;
pub mod input;
