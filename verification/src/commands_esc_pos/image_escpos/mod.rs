//! Raster images: decoding, scaling, conversion to black and white, and the
//! commands that print them.

pub mod dither;
pub mod image_code;
pub mod image_processor;
pub mod logo;
pub mod raster;

pub use image_code::{Image, ImageAlignment, ImageMode};
pub use image_processor::ImageProcessor;
pub use logo::Logo;
