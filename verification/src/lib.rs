//! Glitch-art animation by repeated chunk copies.
//!
//! A still image is turned into a sequence of frames: every iteration copies
//! one randomly chosen rectangle of a source raster to a randomly chosen place
//! of a working raster, and the working raster after each copy is one frame.

pub mod codec;
pub mod compositor;
pub mod frame;
pub mod image_buf;
pub mod raster;
pub mod sampler;
pub mod span;
