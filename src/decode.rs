//! The decoder adapters: from a PNG stream, or from the scanlines of a JPEG decompressor,
//! to the canonical pixel buffer.
use crate::codec::{png_frame_of, png_read_frame, PngFrame};
use crate::error::{decoding_error, DecodingError};
use crate::pixel::{
    channels, lemma_rgba_round_trip, normalize, normalized, rgba_bytes_of, ColorLayout, Rgba8,
};
use vstd::prelude::*;

verus! {

/// The layout of a PNG color-type code that the canonical buffer takes; indexed color (3)
/// and unknown codes have none.
pub open spec fn layout_of(color_type: u8) -> Option<ColorLayout> {
    if color_type == 0 {
        Some(ColorLayout::Grayscale)
    } else if color_type == 2 {
        Some(ColorLayout::Rgb)
    } else if color_type == 4 {
        Some(ColorLayout::GrayscaleAlpha)
    } else if color_type == 6 {
        Some(ColorLayout::Rgba)
    } else {
        None
    }
}

/// A frame that becomes a canonical buffer: a supported layout at 8 bits per sample, a
/// positive width and height, and exactly one pixel's bytes for each pixel of its geometry.
pub open spec fn frame_supported(f: (u8, u8, u32, u32, Seq<u8>)) -> bool {
    &&& layout_of(f.0) is Some
    &&& f.1 == 8
    &&& f.2 > 0
    &&& f.3 > 0
    &&& f.4.len() == f.2 * f.3 * channels(layout_of(f.0)->Some_0)
}

/// The text of the error for a PNG in indexed color.
pub open spec fn color_scheme_text() -> Seq<char> {
    "File ColorScheme not supported"@
}

/// The text of the error for a malformed JPEG or a faulting JPEG decompressor.
pub open spec fn jpeg_read_text() -> Seq<char> {
    "Failed to read jpeg"@
}

/// What a decoder adapter returns for a frame: on success the frame's pixels in the canonical
/// layout with the frame's geometry, one pixel per position; otherwise a `Parsing` error,
/// which for indexed color says that the color scheme is not supported.
pub open spec fn frame_outcome(
    f: (u8, u8, u32, u32, Seq<u8>),
    r: Result<(Vec<Rgba8>, usize, usize), DecodingError>,
) -> bool {
    match r {
        Ok((pixels, width, height)) => {
            &&& frame_supported(f)
            &&& width == f.2
            &&& height == f.3
            &&& pixels@ == normalized(layout_of(f.0)->Some_0, f.4)
            &&& pixels@.len() == width * height
            &&& width > 0
            &&& height > 0
        },
        Err(e) => {
            &&& !frame_supported(f)
            &&& e is Parsing
            &&& f.0 == 3 ==> e == DecodingError::Parsing(e->Parsing_0) && e->Parsing_0@
                == color_scheme_text()
        },
    }
}

proof fn lemma_frame_pixel_count(n: int, w: int, h: int, ch: int)
    requires
        0 <= w,
        0 <= h,
        1 <= ch,
        n == w * h * ch,
    ensures
        n / ch == w * h,
        n % ch == 0,
{
    assert(n == (w * h) * ch) by (nonlinear_arith)
        requires
            n == w * h * ch,
    ;
    vstd::arithmetic::div_mod::lemma_div_multiples_vanish(w * h, ch);
    vstd::arithmetic::div_mod::lemma_mod_multiples_basic(w * h, ch);
}

/// A PNG frame that holds a buffer's pixels as 8-bit RGBA rows, with the buffer's geometry,
/// decodes back to exactly that buffer: the lossless path loses nothing.
pub proof fn lemma_rgba_frame_round_trip(
    pixels: Seq<Rgba8>,
    width: u32,
    height: u32,
    r: Result<(Vec<Rgba8>, usize, usize), DecodingError>,
)
    requires
        pixels.len() == width * height,
        width > 0,
        height > 0,
        frame_outcome((6u8, 8u8, width, height, rgba_bytes_of(pixels)), r),
    ensures
        r matches Ok((p, w, h)) && p@ == pixels && w == width && h == height,
{
    assert(4 * pixels.len() == width * height * 4) by (nonlinear_arith)
        requires
            pixels.len() == width * height,
    ;
    lemma_rgba_round_trip(pixels);
}

/// A PNG frame in indexed color never degrades to some buffer: it is a `Parsing` error that
/// says the color scheme is not supported.
pub proof fn lemma_indexed_frame_rejected(
    f: (u8, u8, u32, u32, Seq<u8>),
    r: Result<(Vec<Rgba8>, usize, usize), DecodingError>,
)
    requires
        f.0 == 3,
        frame_outcome(f, r),
    ensures
        r matches Err(DecodingError::Parsing(m)) && m@ == color_scheme_text(),
{
}

/// Turns a decoded PNG frame into the canonical buffer: luminance is copied to red, green
/// and blue, a layout without alpha becomes fully opaque, and RGBA passes through unchanged.
pub fn pixels_from_png_frame(frame: &PngFrame) -> (r: Result<
    (Vec<Rgba8>, usize, usize),
    DecodingError,
>)
    ensures
        frame_outcome(frame@, r),
{
    let (layout, ch): (ColorLayout, u64) = if frame.color_type == 0 {
        (ColorLayout::Grayscale, 1)
    } else if frame.color_type == 2 {
        (ColorLayout::Rgb, 3)
    } else if frame.color_type == 4 {
        (ColorLayout::GrayscaleAlpha, 2)
    } else if frame.color_type == 6 {
        (ColorLayout::Rgba, 4)
    } else if frame.color_type == 3 {
        return Err(DecodingError::Parsing(String::from_str("File ColorScheme not supported")));
    } else {
        return Err(DecodingError::Parsing(String::from_str("Unknown color type")));
    };
    if frame.bit_depth != 8 {
        return Err(DecodingError::Parsing(String::from_str("Bit depth not supported")));
    }
    if frame.width == 0 || frame.height == 0 {
        return Err(DecodingError::Parsing(String::from_str("Image has no pixels")));
    }
    assert(frame.width as u64 * frame.height as u64 <= u64::MAX) by (nonlinear_arith)
        requires
            frame.width <= u32::MAX,
            frame.height <= u32::MAX,
    ;
    let area: u64 = frame.width as u64 * frame.height as u64;
    let len: usize = frame.data.len();
    let expected = area.checked_mul(ch);
    let fits = match expected {
        Some(n) => len as u64 == n,
        None => false,
    };
    if !fits {
        assert(len <= u64::MAX);
        return Err(DecodingError::Parsing(String::from_str("Frame size does not match geometry")));
    }
    proof {
        lemma_frame_pixel_count(
            frame.data@.len() as int,
            frame.width as int,
            frame.height as int,
            ch as int,
        );
    }
    let pixels = normalize(layout, frame.data.as_slice());
    Ok((pixels, frame.width as usize, frame.height as usize))
}

/// The error that a decoder adapter returns for a codec failure: a failure of reading is an
/// `IoError`, any other a `Parsing` error, with the codec's description of the cause.
pub open spec fn failure_outcome(
    io_failure: bool,
    cause: Seq<char>,
    r: Result<(Vec<Rgba8>, usize, usize), DecodingError>,
) -> bool {
    if io_failure {
        r matches Err(DecodingError::IoError(m)) && m@ == cause
    } else {
        r matches Err(DecodingError::Parsing(m)) && m@ == cause
    }
}

/// Decodes a PNG stream to the canonical buffer. Where the PNG reader fails, a stream cut
/// short is an `IoError` and one that fails validation a `Parsing` error.
pub fn decode_png(data: &[u8]) -> (r: Result<(Vec<Rgba8>, usize, usize), DecodingError>)
    ensures
        match png_frame_of(data@) {
            Ok(f) => frame_outcome(f, r),
            Err((io_failure, cause)) => failure_outcome(io_failure, cause, r),
        },
{
    match png_read_frame(data) {
        Ok(frame) => pixels_from_png_frame(&frame),
        Err((io_failure, cause)) => Err(decoding_error(io_failure, cause)),
    }
}

/// Turns what a JPEG decompressor produced into the canonical buffer: `scanlines` holds its
/// RGBA rows and reported geometry, or is `None` where it failed or faulted. A failure, or rows
/// that do not hold four bytes for each pixel of a geometry with positive width and height,
/// is a `Parsing` error.
pub fn decode_jpeg(scanlines: Option<(Vec<u8>, usize, usize)>) -> (r: Result<
    (Vec<Rgba8>, usize, usize),
    DecodingError,
>)
    ensures
        match scanlines {
            Some((data, width, height)) if data@.len() == width * height * 4 && width > 0 && height
                > 0 => r matches Ok(
                (pixels, w, h),
            ) && w == width && h == height && pixels@ == normalized(ColorLayout::Rgba, data@)
                && pixels@.len() == width * height,
            _ => r matches Err(DecodingError::Parsing(m)) && m@ == jpeg_read_text(),
        },
{
    match scanlines {
        Some((data, width, height)) => {
            let expected = match width.checked_mul(height) {
                Some(area) => area.checked_mul(4),
                None => None,
            };
            let len: usize = data.len();
            let fits = match expected {
                Some(n) => len == n,
                None => false,
            };
            if !fits || width == 0 || height == 0 {
                proof {
                    if data@.len() == width * height * 4 {
                        assert(width * height <= len) by (nonlinear_arith)
                            requires
                                len == width * height * 4,
                                width >= 0,
                                height >= 0,
                        ;
                    }
                }
                return Err(DecodingError::Parsing(String::from_str("Failed to read jpeg")));
            }
            proof {
                lemma_frame_pixel_count(data@.len() as int, width as int, height as int, 4);
            }
            let pixels = normalize(ColorLayout::Rgba, data.as_slice());
            Ok((pixels, width, height))
        },
        None => Err(DecodingError::Parsing(String::from_str("Failed to read jpeg"))),
    }
}

} // verus!
