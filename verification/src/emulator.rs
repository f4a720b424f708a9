//! The machine and its parts, leaves first.

pub mod comp_mode;
pub mod font;
pub mod instruction;
pub mod keys;
pub mod machine;
pub mod raster;
pub mod screen;
pub mod state;
