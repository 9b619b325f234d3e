//! The errors of configuration, decoding and encoding.
use vstd::prelude::*;

verus! {

/// An error that occurred if configuration is invalid.
#[derive(Debug, Clone, Copy, PartialEq, Eq, Structural)]
pub enum ConfigError {
    /// Quality is less than 0 or greater than 100
    QualityOutOfBounds,
    /// Width is 0
    WidthIsZero,
    /// Height is 0
    HeightIsZero,
    /// Size is 0
    SizeIsZero,
    /// Input is empty
    InputIsEmpty,
}

impl ConfigError {
    /// The text that describes the error.
    pub open spec fn message(self) -> Seq<char> {
        match self {
            ConfigError::QualityOutOfBounds => "Quality is out of bounds"@,
            ConfigError::WidthIsZero => "Width cannot be zero"@,
            ConfigError::HeightIsZero => "Height cannot be zero"@,
            ConfigError::SizeIsZero => "Size cannot be zero"@,
            ConfigError::InputIsEmpty => "Input cannot be zero"@,
        }
    }

    /// Describes the error in words.
    pub fn to_string(&self) -> (r: String)
        ensures
            r@ == self.message(),
    {
        match self {
            ConfigError::QualityOutOfBounds => String::from_str("Quality is out of bounds"),
            ConfigError::WidthIsZero => String::from_str("Width cannot be zero"),
            ConfigError::HeightIsZero => String::from_str("Height cannot be zero"),
            ConfigError::SizeIsZero => String::from_str("Size cannot be zero"),
            ConfigError::InputIsEmpty => String::from_str("Input cannot be zero"),
        }
    }
}

/// An error that occurred during decoding an image; each kind carries a description of its cause.
#[derive(Debug, Clone, PartialEq, Eq)]
pub enum DecodingError {
    /// The input could not be read: missing, unreadable or cut short.
    IoError(String),
    /// The format of the input is not supported.
    Format(String),
    /// The input is not a valid image, or its color layout is not supported.
    Parsing(String),
}

impl DecodingError {
    /// The text that describes the error: a prefix for its kind, then its cause.
    pub open spec fn message(&self) -> Seq<char> {
        match self {
            DecodingError::IoError(m) => "IO Error: "@ + m@,
            DecodingError::Format(m) => "Format Error: "@ + m@,
            DecodingError::Parsing(m) => "Parsing Error: "@ + m@,
        }
    }

    /// Describes the error in words.
    pub fn to_string(&self) -> (r: String)
        ensures
            r@ == self.message(),
    {
        match self {
            DecodingError::IoError(m) => String::from_str("IO Error: ").concat(m.as_str()),
            DecodingError::Format(m) => String::from_str("Format Error: ").concat(m.as_str()),
            DecodingError::Parsing(m) => String::from_str("Parsing Error: ").concat(m.as_str()),
        }
    }
}

/// The decoding error for a failure of a codec: a failure of reading the input is an
/// `IoError`, any other a `Parsing` error, either carrying the cause.
pub fn decoding_error(io_failure: bool, cause: String) -> (r: DecodingError)
    ensures
        r == (if io_failure {
            DecodingError::IoError(cause)
        } else {
            DecodingError::Parsing(cause)
        }),
{
    if io_failure {
        DecodingError::IoError(cause)
    } else {
        DecodingError::Parsing(cause)
    }
}

/// An error that occurred during encoding an image; each kind carries a description of its cause.
#[derive(Debug, Clone, PartialEq, Eq)]
pub enum EncodingError {
    /// The output could not be written.
    IoError(String),
    /// The requested format is not supported.
    Format(String),
    /// The codec failed: the data is invalid, or the codec faulted.
    Encoding(String),
    /// Color reduction failed.
    Quantization(String),
    /// Resizing failed.
    Resize(String),
}

impl EncodingError {
    /// The text that describes the error: a prefix for its kind, then its cause.
    pub open spec fn message(&self) -> Seq<char> {
        match self {
            EncodingError::IoError(m) => "IO Error: "@ + m@,
            EncodingError::Format(m) => "Format Error: "@ + m@,
            EncodingError::Encoding(m) => "Encoding Error: "@ + m@,
            EncodingError::Quantization(m) => "Quantization Error: "@ + m@,
            EncodingError::Resize(m) => "Resize Error: "@ + m@,
        }
    }

    /// Describes the error in words.
    pub fn to_string(&self) -> (r: String)
        ensures
            r@ == self.message(),
    {
        match self {
            EncodingError::IoError(m) => String::from_str("IO Error: ").concat(m.as_str()),
            EncodingError::Format(m) => String::from_str("Format Error: ").concat(m.as_str()),
            EncodingError::Encoding(m) => String::from_str("Encoding Error: ").concat(
                m.as_str(),
            ),
            EncodingError::Quantization(m) => String::from_str("Quantization Error: ").concat(
                m.as_str(),
            ),
            EncodingError::Resize(m) => String::from_str("Resize Error: ").concat(m.as_str()),
        }
    }
}

/// The encoding error for a failure of a codec: a failure of writing is an `IoError`, any
/// other an `Encoding` error, either carrying the cause.
pub fn encoding_error(io_failure: bool, cause: String) -> (r: EncodingError)
    ensures
        r == (if io_failure {
            EncodingError::IoError(cause)
        } else {
            EncodingError::Encoding(cause)
        }),
{
    if io_failure {
        EncodingError::IoError(cause)
    } else {
        EncodingError::Encoding(cause)
    }
}

} // verus!
