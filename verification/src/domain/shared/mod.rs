pub mod float_bits;
pub mod geometry;
pub mod render;
