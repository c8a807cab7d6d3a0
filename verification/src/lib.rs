//! A stateless raster image engine: geometric transforms, colour transforms
//! and two-image compositing over decoded RGBA pixel buffers, each operation
//! stated against a mathematical model of the image and proved to meet it.

pub mod buffer;
pub mod color;
pub mod error;
pub mod geometry;
pub mod laws;
pub mod metadata;
pub mod options;
pub mod resample;
pub mod selector;

pub use buffer::{Pixel, PixelBuffer};
pub use color::{brighten, grayscale, invert, sepia};
pub use error::ValidationError;
pub use geometry::{crop_square, fliph, flipv, rotate180, rotate270, rotate90};
pub use metadata::{get_dimensions, is_square_ish};
pub use options::{CompressionLevel, EncodeOptions, OutputFormat};
pub use resample::{can_resample, resample};
pub use selector::{combine_selector, compose, SelectorKind};
