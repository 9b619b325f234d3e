use rimage::error::{decoding_error, encoding_error, ConfigError, DecodingError, EncodingError};

#[test]
fn display_decoder_error() {
    assert_eq!(
        DecodingError::IoError("path not found".to_string()).to_string(),
        "IO Error: path not found"
    );
    assert_eq!(
        DecodingError::Format("webp not supported".to_string()).to_string(),
        "Format Error: webp not supported"
    );
}

#[test]
fn display_config_error() {
    assert_eq!(
        ConfigError::QualityOutOfBounds.to_string(),
        "Quality is out of bounds"
    );
    assert_eq!(ConfigError::WidthIsZero.to_string(), "Width cannot be zero");
    assert_eq!(
        ConfigError::HeightIsZero.to_string(),
        "Height cannot be zero"
    );
    assert_eq!(ConfigError::SizeIsZero.to_string(), "Size cannot be zero");
    assert_eq!(
        ConfigError::InputIsEmpty.to_string(),
        "Input cannot be zero"
    )
}

#[test]
fn display_parsing_error() {
    assert_eq!(
        DecodingError::Parsing("bad header".to_string()).to_string(),
        "Parsing Error: bad header"
    );
}

#[test]
fn display_encoder_errors() {
    let cases = vec![
        (EncodingError::IoError("x".to_string()), "IO Error: x"),
        (EncodingError::Format("x".to_string()), "Format Error: x"),
        (EncodingError::Encoding("x".to_string()), "Encoding Error: x"),
        (EncodingError::Quantization("x".to_string()), "Quantization Error: x"),
        (EncodingError::Resize("x".to_string()), "Resize Error: x"),
    ];
    for (e, text) in cases {
        assert_eq!(e.to_string(), text);
    }
}

#[test]
fn codec_failures_keep_their_kind() {
    assert_eq!(decoding_error(true, "eof".to_string()), DecodingError::IoError("eof".to_string()));
    assert_eq!(decoding_error(false, "crc".to_string()), DecodingError::Parsing("crc".to_string()));
    assert_eq!(encoding_error(true, "disk".to_string()), EncodingError::IoError("disk".to_string()));
    assert_eq!(encoding_error(false, "size".to_string()), EncodingError::Encoding("size".to_string()));
}
