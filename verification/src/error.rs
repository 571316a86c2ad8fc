//! Error taxonomy for the recorder core.
//!
//! Configuration errors are raised before any subprocess is spawned;
//! capture and process errors classify the ways a running pipeline ends.

use vstd::prelude::*;

verus! {

/// Every failure the recorder core can report.
#[derive(Debug)]
pub enum RecorderError {
    /// The resolution string is not `WIDTHxHEIGHT` with both parts decimal.
    InvalidResolution(String),
    /// The frame rate is outside the accepted 1..=120 range.
    InvalidFps(u32),
    /// The codec identifier is not on the accepted list.
    UnsupportedCodec(String),
    /// A live output target whose URL does not parse or lacks the scheme.
    InvalidStreamUrl(String),
    /// The output target is the empty string.
    EmptyOutput,
    /// The external encoder could not be initialized.
    FFmpegInitError(String),
    /// Screen capture failed fatally.
    CaptureError(String),
    /// The encoder reported an encoding failure.
    EncodingError(String),
    /// A live push failed.
    StreamError(String),
    /// An I/O error, carried as its rendered text.
    IoError(String),
    /// A platform probe or other system-level failure.
    SystemError(String),
}

impl RecorderError {
    /// A human-readable description of the error.
    pub fn message(&self) -> (r: String)
        ensures
            r@ == match self {
                RecorderError::InvalidResolution(s) => "invalid resolution (expected WIDTHxHEIGHT): "@ + s@,
                RecorderError::InvalidFps(_) => "invalid fps (expected 1-120)"@,
                RecorderError::UnsupportedCodec(s) => "unsupported codec: "@ + s@,
                RecorderError::InvalidStreamUrl(s) => "invalid stream url: "@ + s@,
                RecorderError::EmptyOutput => "output path is empty"@,
                RecorderError::FFmpegInitError(s) => "ffmpeg initialization failed: "@ + s@,
                RecorderError::CaptureError(s) => "screen capture failed: "@ + s@,
                RecorderError::EncodingError(s) => "encoding error: "@ + s@,
                RecorderError::StreamError(s) => "streaming error: "@ + s@,
                RecorderError::IoError(s) => "io error: "@ + s@,
                RecorderError::SystemError(s) => "system error: "@ + s@,
            },
    {
        match self {
            RecorderError::InvalidResolution(s) => {
                "invalid resolution (expected WIDTHxHEIGHT): ".to_owned().concat(s.as_str())
            },
            RecorderError::InvalidFps(_) => "invalid fps (expected 1-120)".to_owned(),
            RecorderError::UnsupportedCodec(s) => "unsupported codec: ".to_owned().concat(s.as_str()),
            RecorderError::InvalidStreamUrl(s) => "invalid stream url: ".to_owned().concat(s.as_str()),
            RecorderError::EmptyOutput => "output path is empty".to_owned(),
            RecorderError::FFmpegInitError(s) => {
                "ffmpeg initialization failed: ".to_owned().concat(s.as_str())
            },
            RecorderError::CaptureError(s) => "screen capture failed: ".to_owned().concat(s.as_str()),
            RecorderError::EncodingError(s) => "encoding error: ".to_owned().concat(s.as_str()),
            RecorderError::StreamError(s) => "streaming error: ".to_owned().concat(s.as_str()),
            RecorderError::IoError(s) => "io error: ".to_owned().concat(s.as_str()),
            RecorderError::SystemError(s) => "system error: ".to_owned().concat(s.as_str()),
        }
    }
}

} // verus!
