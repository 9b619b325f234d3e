use rimage::error::{DecodingError, EncodingError};
use rimage::format::{format_from_extension, input_format, output_format, ImageFormat};

#[test]
fn known_extensions() {
    assert_eq!(format_from_extension("jpg"), Some(ImageFormat::Jpeg));
    assert_eq!(format_from_extension("jpeg"), Some(ImageFormat::Jpeg));
    assert_eq!(format_from_extension("png"), Some(ImageFormat::Png));
}

#[test]
fn extensions_match_case_sensitively() {
    assert_eq!(format_from_extension("JPG"), None);
    assert_eq!(format_from_extension("Png"), None);
    assert_eq!(format_from_extension(""), None);
}

#[test]
fn unsupported_extension_is_format_error() {
    assert_eq!(
        input_format(Some("bmp")),
        Err(DecodingError::Format("File not supported".to_string()))
    );
}

#[test]
fn missing_extension_is_format_error() {
    assert_eq!(
        input_format(None),
        Err(DecodingError::Format("File not supported".to_string()))
    );
}

#[test]
fn supported_input_formats() {
    assert_eq!(input_format(Some("jpeg")), Ok(ImageFormat::Jpeg));
    assert_eq!(input_format(Some("png")), Ok(ImageFormat::Png));
}

#[test]
fn output_format_tokens() {
    assert_eq!(output_format("jpg"), Ok(ImageFormat::Jpeg));
    assert_eq!(output_format("png"), Ok(ImageFormat::Png));
    assert_eq!(
        output_format("webp"),
        Err(EncodingError::Format("File not supported".to_string()))
    );
}
