pub mod color;
pub mod escape;
pub mod grid;
pub mod plane;
pub mod raster;
