//! Repair of the alpha channel of upscaled images.
//!
//! An upscaler keeps the colour of an image but loses its transparency. This
//! crate rebuilds an alpha mask at the upscaled resolution from the alpha
//! channel of the original and merges it into the upscaled picture.

pub mod composite;
pub mod error;
pub mod geometry;
pub mod mask;
pub mod opacity;
pub mod policy;
pub mod raster;
pub mod reconstruct;
pub mod repair;
pub mod resample;
pub mod task;
