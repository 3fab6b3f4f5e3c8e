//! An image processor that holds a single pixel buffer: it takes in raw or
//! decoded pixels, resizes and clips them in place, and remembers the reason
//! of the last operation that failed.

pub mod decoder;
pub mod error;
pub mod format;
pub mod image;
pub mod laws;
pub mod pixel_buffer;
pub mod processor;
pub mod text;
pub mod transformer;

pub use crate::error::{UnimageError, UnimageErrorKind};
pub use crate::format::UnimageFormat;
pub use crate::processor::UnimageProcessor;
