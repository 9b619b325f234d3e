//! The image formats, chosen by file extension or by a requested format token.
use crate::error::{DecodingError, EncodingError};
use vstd::prelude::*;

verus! {

/// The encodings that the codec pipeline reads and writes.
#[derive(Debug, Clone, Copy, PartialEq, Eq, Structural)]
pub enum ImageFormat {
    Jpeg,
    Png,
}

/// The format that a token names: `jpg` and `jpeg` name JPEG, `png` names PNG, matched
/// exactly and case-sensitively; any other token names none.
pub open spec fn format_of(token: Seq<char>) -> Option<ImageFormat> {
    if token == "jpg"@ || token == "jpeg"@ {
        Some(ImageFormat::Jpeg)
    } else if token == "png"@ {
        Some(ImageFormat::Png)
    } else {
        None
    }
}

fn same_text(a: &str, b: &str) -> (r: bool)
    ensures
        r == (a@ == b@),
{
    let a = a.to_owned();
    let b = b.to_owned();
    a == b
}

/// The format that a token names, if any.
pub fn format_from_extension(token: &str) -> (r: Option<ImageFormat>)
    ensures
        r == format_of(token@),
{
    if same_text(token, "jpg") || same_text(token, "jpeg") {
        Some(ImageFormat::Jpeg)
    } else if same_text(token, "png") {
        Some(ImageFormat::Png)
    } else {
        None
    }
}

/// The text of the error for a format outside the supported set.
pub open spec fn unsupported_text() -> Seq<char> {
    "File not supported"@
}

/// The input format for a file extension; a path without extension, or an extension outside
/// the supported set, is a `Format` error.
pub fn input_format(extension: Option<&str>) -> (r: Result<ImageFormat, DecodingError>)
    ensures
        match extension {
            Some(e) => match format_of(e@) {
                Some(f) => r == Ok::<ImageFormat, DecodingError>(f),
                None => r matches Err(DecodingError::Format(m)) && m@ == unsupported_text(),
            },
            None => r matches Err(DecodingError::Format(m)) && m@ == unsupported_text(),
        },
{
    match extension {
        Some(e) => match format_from_extension(e) {
            Some(f) => Ok(f),
            None => Err(DecodingError::Format(String::from_str("File not supported"))),
        },
        None => Err(DecodingError::Format(String::from_str("File not supported"))),
    }
}

/// The output format for a requested format token; a token outside the supported set is a
/// `Format` error.
pub fn output_format(token: &str) -> (r: Result<ImageFormat, EncodingError>)
    ensures
        match format_of(token@) {
            Some(f) => r == Ok::<ImageFormat, EncodingError>(f),
            None => r matches Err(EncodingError::Format(m)) && m@ == unsupported_text(),
        },
{
    match format_from_extension(token) {
        Some(f) => Ok(f),
        None => Err(EncodingError::Format(String::from_str("File not supported"))),
    }
}

} // verus!
