pub mod coord;
pub mod extent;
pub mod laws;
pub mod rect;
