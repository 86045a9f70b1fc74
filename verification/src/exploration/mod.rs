pub mod rasterizer;

pub use rasterizer::{blur_patch, blur_region};
pub mod zones;
pub mod patch;
