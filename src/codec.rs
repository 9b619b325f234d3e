//! The calls into the PNG codec and the PNG optimizer, with what this library relies on
//! from each.
use png::{DecodingError as PngDecodingError, EncodingError as PngEncodingError};
use vstd::prelude::*;

verus! {

/// One decoded PNG frame as the PNG reader hands it out: the PNG color-type code
/// (0 grayscale, 2 RGB, 3 indexed, 4 grayscale with alpha, 6 RGBA), the bit depth, the
/// geometry, and the decoded rows without padding.
pub struct PngFrame {
    pub color_type: u8,
    pub bit_depth: u8,
    pub width: u32,
    pub height: u32,
    pub data: Vec<u8>,
}

impl View for PngFrame {
    type V = (u8, u8, u32, u32, Seq<u8>);

    open spec fn view(&self) -> Self::V {
        (self.color_type, self.bit_depth, self.width, self.height, self.data@)
    }
}

/// The outcome of the PNG reader on a byte stream: the first frame it decodes, or, where it
/// fails, whether the failure was one of reading the stream (png's `IoError`) and its cause.
pub uninterp spec fn png_frame_of(data: Seq<u8>) -> Result<
    (u8, u8, u32, u32, Seq<u8>),
    (bool, Seq<char>),
>;

/// The outcome of the PNG writer on 8-bit RGBA rows of the given geometry: the stream, or,
/// where it fails, whether the failure was one of writing (png's `IoError`) and its cause.
pub uninterp spec fn png_rgba_encoding(data: Seq<u8>, width: u32, height: u32) -> Result<
    Seq<u8>,
    (bool, Seq<char>),
>;

/// What the PNG optimizer makes of a stream at an effort preset, or `None` where it fails.
pub uninterp spec fn png_optimized(data: Seq<u8>, preset: u8) -> Option<Seq<u8>>;

/// Relies on png's `Decoder::new`, `Decoder::read_info`, `Reader::output_buffer_size` and
/// `Reader::next_frame`: decoding from memory with the identity transformation, whose outcome
/// depends on the bytes alone; `OutputInfo::buffer_size` bounds the bytes of the frame. A
/// failure is reported by png's `DecodingError`: its `IoError` variant marks a failure of
/// reading the stream (one cut short), and its `Display` describes the cause.
#[verifier::external_body]
pub(crate) fn png_read_frame(data: &[u8]) -> (r: Result<PngFrame, (bool, String)>)
    ensures
        match png_frame_of(data@) {
            Ok(f) => r matches Ok(frame) && frame@ == f,
            Err((io, cause)) => r matches Err((i, c)) && i == io && c@ == cause,
        },
{
    let frame = (|| -> Result<PngFrame, PngDecodingError> {
        let mut reader = png::Decoder::new(std::io::Cursor::new(data)).read_info()?;
        let size = reader.output_buffer_size().ok_or(PngDecodingError::LimitsExceeded)?;
        let mut buf = vec![0u8; size];
        let info = reader.next_frame(&mut buf)?;
        buf.truncate(info.buffer_size());
        let (color_type, bit_depth) = (info.color_type as u8, info.bit_depth as u8);
        Ok(PngFrame { color_type, bit_depth, width: info.width, height: info.height, data: buf })
    })();
    frame.map_err(|e| match e {
        PngDecodingError::IoError(io) => (true, io.to_string()),
        other => (false, other.to_string()),
    })
}

/// Relies on png's `Encoder::new`, `Encoder::write_header`, `Writer::write_image_data` and
/// `Writer::finish`: an 8-bit RGBA stream written to memory, whose outcome depends on the
/// rows and the geometry alone. `write_image_data` multiplies the row length by the height
/// unchecked, so the rows must hold exactly four bytes per pixel. A failure is reported by
/// png's `EncodingError`: its `IoError` variant marks a failure of writing, and its `Display`
/// describes the cause.
#[verifier::external_body]
pub(crate) fn png_encode_rgba(data: &[u8], width: u32, height: u32) -> (r: Result<
    Vec<u8>,
    (bool, String),
>)
    requires
        data@.len() == 4 * (width as int) * (height as int),
    ensures
        match png_rgba_encoding(data@, width, height) {
            Ok(s) => r matches Ok(v) && v@ == s,
            Err((io, cause)) => r matches Err((i, c)) && i == io && c@ == cause,
        },
{
    let mut out: Vec<u8> = Vec::new();
    let written = (|| -> Result<(), PngEncodingError> {
        let mut encoder = png::Encoder::new(&mut out, width, height);
        encoder.set_color(png::ColorType::Rgba);
        encoder.set_depth(png::BitDepth::Eight);
        let mut writer = encoder.write_header()?;
        writer.write_image_data(data)?;
        writer.finish()
    })();
    match written {
        Ok(()) => Ok(out),
        Err(PngEncodingError::IoError(io)) => Err((true, io.to_string())),
        Err(other) => Err((false, other.to_string())),
    }
}

/// Relies on oxipng's `optimize_from_memory` with `Options::from_preset`: where the optimized
/// stream would not be smaller it hands back the input, so a result is never longer than
/// the input.
#[verifier::external_body]
pub(crate) fn png_optimize(data: &[u8], preset: u8) -> (r: Option<Vec<u8>>)
    ensures
        r matches Some(v) ==> Some(v@) == png_optimized(data@, preset),
        r is None ==> png_optimized(data@, preset) is None,
        r matches Some(v) ==> v@.len() <= data@.len(),
{
    oxipng::optimize_from_memory(data, &oxipng::Options::from_preset(preset)).ok()
}

} // verus!
