//! A 3×3×3 twisty puzzle: six faces of nine stickers and the twelve quarter
//! turns that permute them.

pub mod color;
pub mod configuration;
pub mod conservation;
pub mod cube;
pub mod face;
pub mod laws;

pub use crate::color::Color;
pub use crate::configuration::Configuration;
pub use crate::cube::Cube;
pub use crate::face::Face;
