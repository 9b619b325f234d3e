//! Converts raster images between JPEG and PNG through one canonical RGBA8 pixel buffer.
pub mod error;
pub mod pixel;
pub mod format;
pub mod codec;
pub mod decode;
pub mod encode;
