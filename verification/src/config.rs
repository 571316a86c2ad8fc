//! The validated, immutable description of a recording or streaming intent,
//! and the checks that establish it.

use vstd::prelude::*;
use vstd::string::*;

use crate::error::RecorderError;
use crate::strutil::{
    is_blank, parse_resolution, spec_is_blank, spec_parse_resolution, spec_starts_with, str_eq,
    str_starts_with,
};

verus! {

/// Where the encoder's output goes, derived from the output target's scheme.
#[derive(Debug, Clone, PartialEq, Eq, Structural)]
pub enum StreamProtocol {
    /// RTMP-family live push (`rtmp://`, `rtmps://`).
    RTMP,
    /// RTSP-family live push (`rtsp://`, `rtsps://`).
    RTSP,
    /// A local container file.
    File,
}

/// The platform the recorder runs on; selects capture devices, input format
/// tags and audio backends.
#[derive(Debug, Clone, Copy, PartialEq, Eq, Structural)]
pub enum Platform {
    Windows,
    Linux,
    MacOs,
    Other,
}

/// A recording/streaming intent: output target, capture device, audio
/// options, frame rate, resolution, encoder settings, and run duration.
#[derive(Debug, Clone)]
pub struct RecorderConfig {
    /// Output file path or live-push URL.
    pub output: String,
    /// Screen capture device identifier.
    pub device: String,
    /// Whether audio capture is requested.
    pub audio_enabled: bool,
    /// Optional audio device name.
    pub audio_device: Option<String>,
    /// Whether the cursor is drawn into the captured video.
    pub draw_mouse: bool,
    /// Target frame rate, 1..=120.
    pub fps: u32,
    /// Requested output resolution as `WIDTHxHEIGHT`.
    pub resolution: String,
    /// Video bitrate, e.g. `5000k`.
    pub bitrate: String,
    /// Codec identifier, e.g. `h264`.
    pub codec: String,
    /// Run duration in seconds; 0 means unbounded.
    pub duration: u32,
    /// Whether the run is a live push rather than a recording.
    pub is_stream: bool,
    /// Output protocol; re-derived from `output` by `detect_protocol`.
    pub protocol: StreamProtocol,
}

/// Whether `url::Url::parse` accepts a string. With the default options (no
/// base URL), the result is a function of the input string alone.
pub uninterp spec fn url_parse_accepts(s: Seq<char>) -> bool;

/// Relies on `url::Url::parse`: parses an absolute URL from the string with
/// the default options, so acceptance depends on the string alone.
#[verifier::external_body]
fn url_parse_ok(s: &str) -> (r: bool)
    ensures
        r == url_parse_accepts(s@),
{
    url::Url::parse(s).is_ok()
}

/// An accepted RTMP-family target: correct scheme prefix and a parseable URL.
pub open spec fn spec_rtmp_url_ok(s: Seq<char>) -> bool {
    &&& spec_starts_with(s, "rtmp://"@) || spec_starts_with(s, "rtmps://"@)
    &&& url_parse_accepts(s)
}

/// An accepted RTSP-family target: correct scheme prefix and a parseable URL.
pub open spec fn spec_rtsp_url_ok(s: Seq<char>) -> bool {
    &&& spec_starts_with(s, "rtsp://"@) || spec_starts_with(s, "rtsps://"@)
    &&& url_parse_accepts(s)
}

/// The codec identifiers `validate` accepts.
pub open spec fn spec_valid_codec(s: Seq<char>) -> bool {
    ||| s == "h264"@
    ||| s == "h265"@
    ||| s == "libx264"@
    ||| s == "libx265"@
    ||| s == "nvenc"@
    ||| s == "qsv"@
}

/// The protocol a given output target selects: RTMP-family schemes map to
/// `RTMP`, RTSP-family schemes to `RTSP`, and anything else to `File`.
/// Total over all strings.
pub open spec fn spec_detect_protocol(s: Seq<char>) -> StreamProtocol {
    if spec_starts_with(s, "rtmp://"@) || spec_starts_with(s, "rtmps://"@) {
        StreamProtocol::RTMP
    } else if spec_starts_with(s, "rtsp://"@) || spec_starts_with(s, "rtsps://"@) {
        StreamProtocol::RTSP
    } else {
        StreamProtocol::File
    }
}

/// An acceptable resolution string: it parses as `"{w}x{h}"`, with both
/// dimensions positive.
pub open spec fn spec_resolution_ok(s: Seq<char>) -> bool {
    match spec_parse_resolution(s) {
        Some(p) => p.0 > 0 && p.1 > 0,
        None => false,
    }
}

/// Everything `validate` checks: resolution parses with both dimensions
/// positive, fps in range, codec on the accepted list, output nonempty,
/// live URLs well-formed, and a given audio device name not blank.
pub open spec fn spec_config_ok(c: &RecorderConfig) -> bool {
    &&& spec_resolution_ok(c.resolution@)
    &&& 1 <= c.fps <= 120
    &&& spec_valid_codec(c.codec@)
    &&& c.output@.len() > 0
    &&& match c.protocol {
        StreamProtocol::RTMP => spec_rtmp_url_ok(c.output@),
        StreamProtocol::RTSP => spec_rtsp_url_ok(c.output@),
        StreamProtocol::File => true,
    }
    &&& (c.audio_enabled ==> match c.audio_device {
        Some(d) => !spec_is_blank(d@),
        None => true,
    })
}

impl RecorderConfig {
    /// Checks the whole configuration before any subprocess is spawned.
    ///
    /// Returns `Ok` exactly on configurations that satisfy
    /// [`spec_config_ok`]; on failure, the error names the first check (in
    /// the order resolution, fps, codec, output, URL, audio device) that
    /// does not hold.
    pub fn validate(&self) -> (r: Result<(), RecorderError>)
        ensures
            r is Ok <==> spec_config_ok(self),
            (!spec_resolution_ok(self.resolution@)) ==> (r matches Err(
                RecorderError::InvalidResolution(s),
            ) && s@ == self.resolution@),
            (spec_resolution_ok(self.resolution@) && !(1 <= self.fps <= 120)) ==> (
            r matches Err(RecorderError::InvalidFps(f)) && f == self.fps),
            (spec_resolution_ok(self.resolution@) && 1 <= self.fps <= 120
                && !spec_valid_codec(self.codec@)) ==> (r matches Err(
                RecorderError::UnsupportedCodec(s),
            ) && s@ == self.codec@),
            (spec_resolution_ok(self.resolution@) && 1 <= self.fps <= 120
                && spec_valid_codec(self.codec@) && self.output@.len() == 0) ==> r matches Err(
                RecorderError::EmptyOutput,
            ),
            (spec_resolution_ok(self.resolution@) && 1 <= self.fps <= 120
                && spec_valid_codec(self.codec@) && self.output@.len() > 0 && !(
            match self.protocol {
                StreamProtocol::RTMP => spec_rtmp_url_ok(self.output@),
                StreamProtocol::RTSP => spec_rtsp_url_ok(self.output@),
                StreamProtocol::File => true,
            })) ==> (r matches Err(RecorderError::InvalidStreamUrl(s)) && s@ == self.output@),
            (spec_resolution_ok(self.resolution@) && 1 <= self.fps <= 120
                && spec_valid_codec(self.codec@) && self.output@.len() > 0 && (
            match self.protocol {
                StreamProtocol::RTMP => spec_rtmp_url_ok(self.output@),
                StreamProtocol::RTSP => spec_rtsp_url_ok(self.output@),
                StreamProtocol::File => true,
            }) && !spec_config_ok(self)) ==> r matches Err(RecorderError::SystemError(_)),
    {
        match parse_resolution(self.resolution.as_str()) {
            Some((w, h)) => {
                if w == 0 || h == 0 {
                    return Err(RecorderError::InvalidResolution(self.resolution.clone()));
                }
            },
            None => {
                return Err(RecorderError::InvalidResolution(self.resolution.clone()));
            },
        }
        if self.fps < 1 || self.fps > 120 {
            return Err(RecorderError::InvalidFps(self.fps));
        }
        let codec = self.codec.as_str();
        if !(str_eq(codec, "h264") || str_eq(codec, "h265") || str_eq(codec, "libx264") || str_eq(
            codec,
            "libx265",
        ) || str_eq(codec, "nvenc") || str_eq(codec, "qsv")) {
            return Err(RecorderError::UnsupportedCodec(self.codec.clone()));
        }
        if self.output.as_str().is_empty() {
            return Err(RecorderError::EmptyOutput);
        }
        match &self.protocol {
            StreamProtocol::RTMP => {
                if let Err(e) = self.validate_rtmp_url() {
                    return Err(e);
                }
            },
            StreamProtocol::RTSP => {
                if let Err(e) = self.validate_rtsp_url() {
                    return Err(e);
                }
            },
            StreamProtocol::File => {},
        }
        if self.audio_enabled {
            if let Some(dev) = &self.audio_device {
                if is_blank(dev.as_str()) {
                    return Err(RecorderError::SystemError("blank audio device name".to_owned()));
                }
            }
        }
        Ok(())
    }

    /// Checks that the output is an acceptable RTMP-family URL.
    fn validate_rtmp_url(&self) -> (r: Result<(), RecorderError>)
        ensures
            r is Ok <==> spec_rtmp_url_ok(self.output@),
            r matches Err(e) ==> (e matches RecorderError::InvalidStreamUrl(s) && s@
                == self.output@),
    {
        let out = self.output.as_str();
        if !str_starts_with(out, "rtmp://") && !str_starts_with(out, "rtmps://") {
            return Err(RecorderError::InvalidStreamUrl(self.output.clone()));
        }
        if url_parse_ok(out) {
            Ok(())
        } else {
            Err(RecorderError::InvalidStreamUrl(self.output.clone()))
        }
    }

    /// Checks that the output is an acceptable RTSP-family URL.
    fn validate_rtsp_url(&self) -> (r: Result<(), RecorderError>)
        ensures
            r is Ok <==> spec_rtsp_url_ok(self.output@),
            r matches Err(e) ==> (e matches RecorderError::InvalidStreamUrl(s) && s@
                == self.output@),
    {
        let out = self.output.as_str();
        if !str_starts_with(out, "rtsp://") && !str_starts_with(out, "rtsps://") {
            return Err(RecorderError::InvalidStreamUrl(self.output.clone()));
        }
        if url_parse_ok(out) {
            Ok(())
        } else {
            Err(RecorderError::InvalidStreamUrl(self.output.clone()))
        }
    }

    /// Re-derives the protocol tag from the output target's scheme prefix,
    /// leaving every other field unchanged.
    pub fn detect_protocol(&mut self)
        ensures
            final(self).protocol == spec_detect_protocol(old(self).output@),
            final(self).output == old(self).output,
            final(self).device == old(self).device,
            final(self).audio_enabled == old(self).audio_enabled,
            final(self).audio_device == old(self).audio_device,
            final(self).draw_mouse == old(self).draw_mouse,
            final(self).fps == old(self).fps,
            final(self).resolution == old(self).resolution,
            final(self).bitrate == old(self).bitrate,
            final(self).codec == old(self).codec,
            final(self).duration == old(self).duration,
            final(self).is_stream == old(self).is_stream,
    {
        let out = self.output.as_str();
        if str_starts_with(out, "rtmp://") || str_starts_with(out, "rtmps://") {
            self.protocol = StreamProtocol::RTMP;
        } else if str_starts_with(out, "rtsp://") || str_starts_with(out, "rtsps://") {
            self.protocol = StreamProtocol::RTSP;
        } else {
            self.protocol = StreamProtocol::File;
        }
    }

    /// Parses the configured resolution into a `(width, height)` pair.
    pub fn get_resolution_parts(&self) -> (r: Result<(u32, u32), RecorderError>)
        ensures
            r matches Ok(p) ==> spec_parse_resolution(self.resolution@) == Some(p),
            r matches Err(e) ==> spec_parse_resolution(self.resolution@) is None && (e matches
            RecorderError::InvalidResolution(s) && s@ == self.resolution@),
    {
        match parse_resolution(self.resolution.as_str()) {
            Some(p) => Ok(p),
            None => Err(RecorderError::InvalidResolution(self.resolution.clone())),
        }
    }

    /// The capture device identifier handed to the encoder: the platform's
    /// default-screen name when the generic `desktop` device is configured,
    /// the configured identifier otherwise (macOS always captures screen 1).
    pub fn get_capture_device(&self, platform: Platform) -> (r: String)
        ensures
            r@ == match platform {
                Platform::Windows => self.device@,
                Platform::Linux => if self.device@ == "desktop"@ {
                    ":0"@
                } else {
                    self.device@
                },
                Platform::MacOs => "1"@,
                Platform::Other => self.device@,
            },
    {
        match platform {
            Platform::Windows => {
                if str_eq(self.device.as_str(), "desktop") {
                    "desktop".to_owned()
                } else {
                    self.device.clone()
                }
            },
            Platform::Linux => {
                if str_eq(self.device.as_str(), "desktop") {
                    ":0".to_owned()
                } else {
                    self.device.clone()
                }
            },
            Platform::MacOs => "1".to_owned(),
            Platform::Other => self.device.clone(),
        }
    }

    /// The grabber input-format tag for the platform.
    pub fn get_input_format(&self, platform: Platform) -> (r: &'static str)
        ensures
            r@ == spec_input_format(platform),
    {
        match platform {
            Platform::Windows => "gdigrab",
            Platform::Linux => "x11grab",
            Platform::MacOs => "avfoundation",
            Platform::Other => "unknown",
        }
    }
}

/// The protocol tag is re-derived from the output's scheme, never set
/// independently of it: once detection has run, a live protocol's scheme
/// prefix is guaranteed, and URL validation reduces to parseability.
pub proof fn lemma_detected_scheme_consistent(s: Seq<char>)
    ensures
        spec_detect_protocol(s) == StreamProtocol::RTMP ==> (spec_rtmp_url_ok(s)
            <==> url_parse_accepts(s)),
        spec_detect_protocol(s) == StreamProtocol::RTSP ==> (spec_rtsp_url_ok(s)
            <==> url_parse_accepts(s)),
{
}

/// The grabber input-format tag for each platform.
pub open spec fn spec_input_format(platform: Platform) -> Seq<char> {
    match platform {
        Platform::Windows => "gdigrab"@,
        Platform::Linux => "x11grab"@,
        Platform::MacOs => "avfoundation"@,
        Platform::Other => "unknown"@,
    }
}

} // verus!
