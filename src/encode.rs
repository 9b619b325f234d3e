//! The encoder adapters: from the canonical pixel buffer to a PNG stream, optimized where the
//! optimizer succeeds, and the result of a JPEG compressor.
use crate::codec::{png_encode_rgba, png_optimize, png_optimized, png_rgba_encoding};
use crate::error::{encoding_error, EncodingError};
use crate::pixel::{rgba_bytes, rgba_bytes_of, Rgba8};
use vstd::prelude::*;

verus! {

/// The effort preset of the PNG optimizer: a moderate one.
pub const OPTIMIZE_PRESET: u8 = 2;

/// The stream that PNG encoding ends with for a baseline stream: the optimizer's result where
/// it succeeds, else the baseline itself.
pub open spec fn optimized_or_baseline(baseline: Seq<u8>) -> Seq<u8> {
    match png_optimized(baseline, OPTIMIZE_PRESET) {
        Some(o) => o,
        None => baseline,
    }
}

/// The text of the error for a JPEG compressor that failed or faulted.
pub open spec fn jpeg_write_text() -> Seq<char> {
    "Failed to write jpeg"@
}

/// The geometry that PNG encoding accepts for a buffer: dimensions that fit PNG's 32-bit
/// fields, and one pixel for each position.
pub open spec fn png_geometry_fits(pixels: Seq<Rgba8>, width: usize, height: usize) -> bool {
    &&& width <= u32::MAX
    &&& height <= u32::MAX
    &&& pixels.len() == width * height
}

/// Encodes the buffer as an 8-bit RGBA PNG, then runs the optimizer over it and keeps the
/// baseline where the optimizer fails. Geometry that does not fit PNG's 32-bit fields, or that
/// disagrees with the number of pixels, is an `Encoding` error. A failure of the PNG writer is
/// an `IoError` where it failed to write and an `Encoding` error otherwise. The result is never
/// longer than the baseline.
pub fn encode_png(pixels: &[Rgba8], width: usize, height: usize) -> (r: Result<
    Vec<u8>,
    EncodingError,
>)
    requires
        4 * pixels@.len() <= usize::MAX,
    ensures
        !png_geometry_fits(pixels@, width, height) ==> r matches Err(EncodingError::Encoding(_)),
        png_geometry_fits(pixels@, width, height) ==> match png_rgba_encoding(
            rgba_bytes_of(pixels@),
            width as u32,
            height as u32,
        ) {
            Ok(baseline) => r matches Ok(out) && out@ == optimized_or_baseline(baseline)
                && out@.len() <= baseline.len(),
            Err((io_failure, cause)) => if io_failure {
                r matches Err(EncodingError::IoError(m)) && m@ == cause
            } else {
                r matches Err(EncodingError::Encoding(m)) && m@ == cause
            },
        },
{
    if width > u32::MAX as usize || height > u32::MAX as usize {
        return Err(EncodingError::Encoding(String::from_str("Image dimensions are too large")));
    }
    let matches_geometry = match width.checked_mul(height) {
        Some(area) => pixels.len() == area,
        None => false,
    };
    if !matches_geometry {
        return Err(
            EncodingError::Encoding(String::from_str("Pixel count does not match dimensions")),
        );
    }
    let bytes = rgba_bytes(pixels);
    assert(bytes@.len() == 4 * (width as u32 as int) * (height as u32 as int)) by (nonlinear_arith)
        requires
            bytes@.len() == 4 * pixels@.len(),
            pixels@.len() == width * height,
            width <= u32::MAX,
            height <= u32::MAX,
    ;
    match png_encode_rgba(bytes.as_slice(), width as u32, height as u32) {
        Ok(baseline) => match png_optimize(baseline.as_slice(), OPTIMIZE_PRESET) {
            Some(optimized) => Ok(optimized),
            None => Ok(baseline),
        },
        Err((io_failure, cause)) => Err(encoding_error(io_failure, cause)),
    }
}

/// Takes what a JPEG compressor produced: its stream, or `None` where it failed or faulted,
/// which is an `Encoding` error.
pub fn encode_jpeg(compressed: Option<Vec<u8>>) -> (r: Result<Vec<u8>, EncodingError>)
    ensures
        match compressed {
            Some(data) => r == Ok::<Vec<u8>, EncodingError>(data),
            None => r matches Err(EncodingError::Encoding(m)) && m@ == jpeg_write_text(),
        },
{
    match compressed {
        Some(data) => Ok(data),
        None => Err(EncodingError::Encoding(String::from_str("Failed to write jpeg"))),
    }
}

} // verus!
