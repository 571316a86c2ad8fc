//! The pipeline builder: a pure mapping from a recording intent (plus
//! measured capture geometry and capture variant) to the ordered argument
//! list for the external encoder process.
//!
//! Every invocation is built from the same stages, in order: video input,
//! optional audio input, the scale+pixel-format filter, video encode
//! settings (preset and rate control keyed on the output protocol: live
//! protocols get the faster preset and rate control, file output gets
//! neither), an audio encode stage whenever an audio input stage was
//! included, and the protocol-specific output stage. The grabber-fed
//! builders describe a device the encoder captures from itself; the piped
//! builder describes raw frames arriving on the encoder's standard input
//! at the measured display geometry, scaled to the requested resolution by
//! the filter stage.

use vstd::prelude::*;
use vstd::string::*;

use crate::config::{Platform, RecorderConfig, StreamProtocol};
use crate::strutil::{
    spec_dec_digits, spec_format_resolution, spec_parse_resolution, parse_resolution, str_eq,
    u32_to_dec,
};

verus! {

/// The encoder identifier used for a configured codec name: the canonical
/// names `h264`/`h265` map to their production encoders, anything else
/// passes through unchanged.
pub open spec fn spec_codec_name(s: Seq<char>) -> Seq<char> {
    if s == "h264"@ {
        "libx264"@
    } else if s == "h265"@ {
        "libx265"@
    } else {
        s
    }
}

/// The configured audio device name, or `default` when none is given.
pub open spec fn spec_audio_dev_or(c: &RecorderConfig, default: Seq<char>) -> Seq<char> {
    match c.audio_device {
        Some(d) => d@,
        None => default,
    }
}

/// Video input stage for the grabber-fed builders: format tag, framerate,
/// optional cursor suppression and capture size (grabber formats only),
/// then the device identifier.
pub open spec fn spec_grab_input_args(
    c: &RecorderConfig,
    input_format: Seq<char>,
    device: Seq<char>,
) -> Seq<Seq<char>> {
    seq!["-f"@, input_format, "-framerate"@, spec_dec_digits(c.fps as nat)] + (
    match spec_parse_resolution(c.resolution@) {
        Some(p) => {
            if input_format == "gdigrab"@ || input_format == "x11grab"@ {
                (if input_format == "gdigrab"@ && !c.draw_mouse {
                    seq!["-draw_mouse"@, "0"@]
                } else {
                    Seq::<Seq<char>>::empty()
                }) + seq!["-video_size"@, spec_format_resolution(p.0 as nat, p.1 as nat)]
            } else {
                Seq::<Seq<char>>::empty()
            }
        },
        None => Seq::<Seq<char>>::empty(),
    }) + seq!["-i"@, device]
}

/// Whether the grabber-fed builders include an audio input stage: audio
/// must be requested, and the platform's policy must admit the device.
/// Windows probes and skips the stage when the probe failed; Linux adds it
/// unprobed; macOS adds it when the name is nonempty.
pub open spec fn spec_grab_audio_included(
    c: &RecorderConfig,
    platform: Platform,
    audio_present: bool,
) -> bool {
    &&& c.audio_enabled
    &&& match platform {
        Platform::Windows => audio_present,
        Platform::Linux => true,
        Platform::MacOs => spec_audio_dev_or(c, "Microphone"@).len() > 0,
        Platform::Other => false,
    }
}

/// Audio input stage for the grabber-fed builders.
pub open spec fn spec_grab_audio_args(
    c: &RecorderConfig,
    platform: Platform,
    audio_present: bool,
) -> Seq<Seq<char>> {
    if !spec_grab_audio_included(c, platform, audio_present) {
        Seq::<Seq<char>>::empty()
    } else {
        let dev = spec_audio_dev_or(c, "Microphone"@);
        match platform {
            Platform::Windows => seq!["-f"@, "dshow"@, "-i"@, "audio="@ + dev],
            Platform::Linux => seq!["-f"@, "pulse"@, "-i"@, dev],
            Platform::MacOs => seq!["-f"@, "avfoundation"@, "-i"@, ":"@ + dev],
            Platform::Other => Seq::<Seq<char>>::empty(),
        }
    }
}

/// Video filter stage: a combined scale+pixel-format filter at the
/// requested resolution when it is known, a pixel-format-only filter
/// otherwise.
pub open spec fn spec_filter_args(c: &RecorderConfig) -> Seq<Seq<char>> {
    match spec_parse_resolution(c.resolution@) {
        Some(p) => seq![
            "-vf"@,
            "scale="@ + spec_dec_digits(p.0 as nat) + ":"@ + spec_dec_digits(p.1 as nat)
                + ":flags=lanczos,format=yuv420p"@,
        ],
        None => seq!["-vf"@, "format=yuv420p"@],
    }
}

/// Video encode stage plus rate control: codec and bitrate always; live
/// protocols get the faster preset and rate control pinned to the
/// configured bitrate, file output gets the slower preset and no rate
/// control.
pub open spec fn spec_encode_args(c: &RecorderConfig) -> Seq<Seq<char>> {
    seq![
        "-c:v"@,
        spec_codec_name(c.codec@),
        "-b:v"@,
        c.bitrate@,
        "-preset"@,
        if c.protocol == StreamProtocol::File {
            "medium"@
        } else {
            "veryfast"@
        },
    ] + (if c.protocol == StreamProtocol::File {
        Seq::<Seq<char>>::empty()
    } else {
        seq!["-maxrate"@, c.bitrate@, "-bufsize"@, c.bitrate@]
    })
}

/// Audio encode stage: fixed codec, bitrate and sample rate. Included
/// exactly when an audio input stage was included.
pub open spec fn spec_audio_encode_args() -> Seq<Seq<char>> {
    seq!["-c:a"@, "aac"@, "-b:a"@, "128k"@, "-ar"@, "44100"@]
}

/// Protocol/output stage: for a file, the fast-start container tag, the
/// force-overwrite flag, then the path; for the live protocols, their
/// container and transport flags, then the URL.
pub open spec fn spec_output_args(c: &RecorderConfig) -> Seq<Seq<char>> {
    match c.protocol {
        StreamProtocol::File => seq![
            "-f"@,
            "mp4"@,
            "-movflags"@,
            "faststart"@,
            "-y"@,
            c.output@,
        ],
        StreamProtocol::RTMP => seq![
            "-f"@,
            "flv"@,
            "-flvflags"@,
            "no_duration_filesize"@,
            "-rtmp_live"@,
            "live"@,
            c.output@,
        ],
        StreamProtocol::RTSP => seq!["-rtsp_transport"@, "tcp"@, "-f"@, "rtsp"@, c.output@],
    }
}

/// The full argument list for a grabber-fed run: the stages in order, with
/// the audio encode stage present exactly when the audio input stage is.
pub open spec fn spec_grab_args(
    c: &RecorderConfig,
    input_format: Seq<char>,
    device: Seq<char>,
    platform: Platform,
    audio_present: bool,
) -> Seq<Seq<char>> {
    spec_grab_input_args(c, input_format, device) + spec_grab_audio_args(
        c,
        platform,
        audio_present,
    ) + spec_filter_args(c) + spec_encode_args(c) + (if spec_grab_audio_included(
        c,
        platform,
        audio_present,
    ) {
        spec_audio_encode_args()
    } else {
        Seq::<Seq<char>>::empty()
    }) + spec_output_args(c)
}

/// Appends one borrowed argument.
fn push_arg(v: &mut Vec<String>, s: &str)
    ensures
        final(v).deep_view() == old(v).deep_view().push(s@),
{
    v.push(s.to_owned());
    proof {
        assert(v.deep_view() =~= old(v).deep_view().push(s@));
    }
}

/// Appends one owned argument.
fn push_owned(v: &mut Vec<String>, s: String)
    ensures
        final(v).deep_view() == old(v).deep_view().push(s@),
{
    let ghost sv = s@;
    v.push(s);
    proof {
        assert(v.deep_view() =~= old(v).deep_view().push(sv));
    }
}

/// The encoder identifier for the configured codec.
fn codec_name(c: &RecorderConfig) -> (r: String)
    ensures
        r@ == spec_codec_name(c.codec@),
{
    let codec = c.codec.as_str();
    if str_eq(codec, "h264") {
        "libx264".to_owned()
    } else if str_eq(codec, "h265") {
        "libx265".to_owned()
    } else {
        c.codec.clone()
    }
}

/// The configured audio device name, or the given default.
fn audio_dev_or(c: &RecorderConfig, default: &str) -> (r: String)
    ensures
        r@ == spec_audio_dev_or(c, default@),
{
    match &c.audio_device {
        Some(d) => d.clone(),
        None => default.to_owned(),
    }
}

/// Whether the grabber-fed builders include the audio stages.
fn grab_audio_included(c: &RecorderConfig, platform: Platform, audio_present: bool) -> (r: bool)
    ensures
        r == spec_grab_audio_included(c, platform, audio_present),
{
    c.audio_enabled && match platform {
        Platform::Windows => audio_present,
        Platform::Linux => true,
        Platform::MacOs => !audio_dev_or(c, "Microphone").as_str().is_empty(),
        Platform::Other => false,
    }
}

/// Appends the grabber video input stage.
fn push_grab_input_args(v: &mut Vec<String>, c: &RecorderConfig, input_format: &str, device: &str)
    ensures
        final(v).deep_view() == old(v).deep_view() + spec_grab_input_args(
            c,
            input_format@,
            device@,
        ),
{
    push_arg(v, "-f");
    push_arg(v, input_format);
    push_arg(v, "-framerate");
    push_owned(v, u32_to_dec(c.fps));
    match parse_resolution(c.resolution.as_str()) {
        Some((w, h)) => {
            if str_eq(input_format, "gdigrab") || str_eq(input_format, "x11grab") {
                if str_eq(input_format, "gdigrab") && !c.draw_mouse {
                    push_arg(v, "-draw_mouse");
                    push_arg(v, "0");
                }
                push_arg(v, "-video_size");
                push_owned(v, crate::strutil::format_resolution(w, h));
            }
        },
        None => {},
    }
    push_arg(v, "-i");
    push_arg(v, device);
    proof {
        assert(v.deep_view() =~= old(v).deep_view() + spec_grab_input_args(
            c,
            input_format@,
            device@,
        ));
    }
}

/// Appends the grabber audio input stage.
fn push_grab_audio_args(
    v: &mut Vec<String>,
    c: &RecorderConfig,
    platform: Platform,
    audio_present: bool,
)
    ensures
        final(v).deep_view() == old(v).deep_view() + spec_grab_audio_args(
            c,
            platform,
            audio_present,
        ),
{
    if grab_audio_included(c, platform, audio_present) {
        let dev = audio_dev_or(c, "Microphone");
        match platform {
            Platform::Windows => {
                push_arg(v, "-f");
                push_arg(v, "dshow");
                push_arg(v, "-i");
                push_owned(v, "audio=".to_owned().concat(dev.as_str()));
            },
            Platform::Linux => {
                push_arg(v, "-f");
                push_arg(v, "pulse");
                push_arg(v, "-i");
                push_owned(v, dev);
            },
            Platform::MacOs => {
                push_arg(v, "-f");
                push_arg(v, "avfoundation");
                push_arg(v, "-i");
                push_owned(v, ":".to_owned().concat(dev.as_str()));
            },
            Platform::Other => {},
        }
    }
    proof {
        assert(v.deep_view() =~= old(v).deep_view() + spec_grab_audio_args(
            c,
            platform,
            audio_present,
        ));
    }
}

/// Appends the video filter stage.
fn push_filter_args(v: &mut Vec<String>, c: &RecorderConfig)
    ensures
        final(v).deep_view() == old(v).deep_view() + spec_filter_args(c),
{
    push_arg(v, "-vf");
    match parse_resolution(c.resolution.as_str()) {
        Some((w, h)) => {
            let f = "scale=".to_owned().concat(u32_to_dec(w).as_str()).concat(":").concat(
                u32_to_dec(h).as_str(),
            ).concat(":flags=lanczos,format=yuv420p");
            push_owned(v, f);
        },
        None => {
            push_arg(v, "format=yuv420p");
        },
    }
    proof {
        assert(v.deep_view() =~= old(v).deep_view() + spec_filter_args(c));
    }
}

/// Appends the video encode stage with its protocol-keyed preset and rate
/// control.
fn push_encode_args(v: &mut Vec<String>, c: &RecorderConfig)
    ensures
        final(v).deep_view() == old(v).deep_view() + spec_encode_args(c),
{
    push_arg(v, "-c:v");
    push_owned(v, codec_name(c));
    push_arg(v, "-b:v");
    push_arg(v, c.bitrate.as_str());
    push_arg(v, "-preset");
    if c.protocol == StreamProtocol::File {
        push_arg(v, "medium");
    } else {
        push_arg(v, "veryfast");
        push_arg(v, "-maxrate");
        push_arg(v, c.bitrate.as_str());
        push_arg(v, "-bufsize");
        push_arg(v, c.bitrate.as_str());
    }
    proof {
        assert(v.deep_view() =~= old(v).deep_view() + spec_encode_args(c));
    }
}

/// Appends the audio encode stage.
fn push_audio_encode_args(v: &mut Vec<String>)
    ensures
        final(v).deep_view() == old(v).deep_view() + spec_audio_encode_args(),
{
    push_arg(v, "-c:a");
    push_arg(v, "aac");
    push_arg(v, "-b:a");
    push_arg(v, "128k");
    push_arg(v, "-ar");
    push_arg(v, "44100");
    proof {
        assert(v.deep_view() =~= old(v).deep_view() + spec_audio_encode_args());
    }
}

/// Appends the protocol/output stage.
fn push_output_args(v: &mut Vec<String>, c: &RecorderConfig)
    ensures
        final(v).deep_view() == old(v).deep_view() + spec_output_args(c),
{
    match &c.protocol {
        StreamProtocol::File => {
            push_arg(v, "-f");
            push_arg(v, "mp4");
            push_arg(v, "-movflags");
            push_arg(v, "faststart");
            push_arg(v, "-y");
            push_arg(v, c.output.as_str());
        },
        StreamProtocol::RTMP => {
            push_arg(v, "-f");
            push_arg(v, "flv");
            push_arg(v, "-flvflags");
            push_arg(v, "no_duration_filesize");
            push_arg(v, "-rtmp_live");
            push_arg(v, "live");
            push_arg(v, c.output.as_str());
        },
        StreamProtocol::RTSP => {
            push_arg(v, "-rtsp_transport");
            push_arg(v, "tcp");
            push_arg(v, "-f");
            push_arg(v, "rtsp");
            push_arg(v, c.output.as_str());
        },
    }
    proof {
        assert(v.deep_view() =~= old(v).deep_view() + spec_output_args(c));
    }
}

/// Builds the encoder invocation for a grabber-fed recording run.
pub fn build_ffmpeg_command(
    c: &RecorderConfig,
    input_format: &str,
    device: &str,
    platform: Platform,
    audio_present: bool,
) -> (r: Vec<String>)
    ensures
        r.deep_view() == spec_grab_args(c, input_format@, device@, platform, audio_present),
{
    let mut v: Vec<String> = Vec::new();
    proof {
        assert(v.deep_view() =~= Seq::<Seq<char>>::empty());
    }
    push_grab_input_args(&mut v, c, input_format, device);
    push_grab_audio_args(&mut v, c, platform, audio_present);
    push_filter_args(&mut v, c);
    push_encode_args(&mut v, c);
    if grab_audio_included(c, platform, audio_present) {
        push_audio_encode_args(&mut v);
    }
    push_output_args(&mut v, c);
    proof {
        assert(v.deep_view() =~= spec_grab_args(
            c,
            input_format@,
            device@,
            platform,
            audio_present,
        ));
    }
    v
}

/// Builds the encoder invocation for a grabber-fed live push. The stages
/// are keyed on the output protocol, so this agrees with
/// [`build_ffmpeg_command`] on every input; it is the entry point the
/// streaming path calls.
pub fn build_streaming_command(
    c: &RecorderConfig,
    input_format: &str,
    device: &str,
    platform: Platform,
    audio_present: bool,
) -> (r: Vec<String>)
    ensures
        r.deep_view() == spec_grab_args(c, input_format@, device@, platform, audio_present),
{
    build_ffmpeg_command(c, input_format, device, platform, audio_present)
}

/// The grabber-fed builder is pure: any two argument lists built from the
/// same recording intent and inputs are identical. The builders' results
/// are pinned to a function of their inputs alone, so two calls with
/// identical inputs cannot differ.
pub proof fn lemma_grab_builder_pure(
    c: &RecorderConfig,
    input_format: Seq<char>,
    device: Seq<char>,
    platform: Platform,
    audio_present: bool,
    r1: Seq<Seq<char>>,
    r2: Seq<Seq<char>>,
)
    requires
        r1 == spec_grab_args(c, input_format, device, platform, audio_present),
        r2 == spec_grab_args(c, input_format, device, platform, audio_present),
    ensures
        r1 == r2,
{
}

/// An audio device the probe reports absent yields a video-only argument
/// list: the audio input and audio encode stages are both omitted, and
/// the whole sequence equals the one built for the same intent with audio
/// disabled.
pub proof fn lemma_audio_absent_video_only(
    c: &RecorderConfig,
    c2: &RecorderConfig,
    input_format: Seq<char>,
    device: Seq<char>,
    platform2: Platform,
    audio_present2: bool,
)
    requires
        !c2.audio_enabled,
        c2.fps == c.fps,
        c2.resolution@ == c.resolution@,
        c2.draw_mouse == c.draw_mouse,
        c2.bitrate@ == c.bitrate@,
        c2.codec@ == c.codec@,
        c2.output@ == c.output@,
        c2.protocol == c.protocol,
    ensures
        !spec_grab_audio_included(c, Platform::Windows, false),
        spec_grab_audio_args(c, Platform::Windows, false) == Seq::<Seq<char>>::empty(),
        spec_grab_args(c, input_format, device, Platform::Windows, false) == spec_grab_args(
            c2,
            input_format,
            device,
            platform2,
            audio_present2,
        ),
{
    assert(spec_grab_audio_args(c2, platform2, audio_present2) == Seq::<Seq<char>>::empty());
    assert(spec_grab_input_args(c, input_format, device) =~~= spec_grab_input_args(
        c2,
        input_format,
        device,
    ));
    assert(spec_filter_args(c) =~~= spec_filter_args(c2));
    assert(spec_encode_args(c) =~~= spec_encode_args(c2));
    assert(spec_output_args(c) =~~= spec_output_args(c2));
    assert(spec_grab_args(c, input_format, device, Platform::Windows, false) =~~= spec_grab_args(
        c2,
        input_format,
        device,
        platform2,
        audio_present2,
    ));
}

/// Whether the piped builder includes the audio stages: it never probes;
/// audio is included whenever it is requested and the platform has an
/// audio backend.
pub open spec fn spec_pipe_audio_included(c: &RecorderConfig, platform: Platform) -> bool {
    c.audio_enabled && platform != Platform::Other
}

/// Audio input stage of the piped builder, with a per-platform default
/// device name.
pub open spec fn spec_pipe_audio_args(c: &RecorderConfig, platform: Platform) -> Seq<Seq<char>> {
    if !c.audio_enabled {
        Seq::<Seq<char>>::empty()
    } else {
        match platform {
            Platform::Windows => seq![
                "-f"@,
                "dshow"@,
                "-i"@,
                "audio="@ + spec_audio_dev_or(c, "Microphone"@),
            ],
            Platform::Linux => seq!["-f"@, "pulse"@, "-i"@, spec_audio_dev_or(c, "default"@)],
            Platform::MacOs => seq!["-f"@, "avfoundation"@, "-i"@, spec_audio_dev_or(c, ":0"@)],
            Platform::Other => Seq::<Seq<char>>::empty(),
        }
    }
}

/// The full argument list for a native-capture run: the encoder reads raw
/// BGRA frames of the measured geometry from its standard input, the
/// filter stage scales them to the requested resolution, and the stages
/// then follow the same order as the grabber-fed builders.
pub open spec fn spec_pipe_args(
    c: &RecorderConfig,
    width: nat,
    height: nat,
    platform: Platform,
) -> Seq<Seq<char>> {
    seq![
        "-f"@,
        "rawvideo"@,
        "-pix_fmt"@,
        "bgra"@,
        "-video_size"@,
        spec_format_resolution(width, height),
        "-framerate"@,
        spec_dec_digits(c.fps as nat),
        "-i"@,
        "pipe:0"@,
    ] + spec_pipe_audio_args(c, platform) + spec_filter_args(c) + spec_encode_args(c) + (
    if spec_pipe_audio_included(c, platform) {
        spec_audio_encode_args()
    } else {
        Seq::<Seq<char>>::empty()
    }) + spec_output_args(c)
}

/// Appends the piped builder's audio input stage.
fn push_pipe_audio_args(v: &mut Vec<String>, c: &RecorderConfig, platform: Platform)
    ensures
        final(v).deep_view() == old(v).deep_view() + spec_pipe_audio_args(c, platform),
{
    if c.audio_enabled {
        match platform {
            Platform::Windows => {
                push_arg(v, "-f");
                push_arg(v, "dshow");
                push_arg(v, "-i");
                push_owned(v, "audio=".to_owned().concat(audio_dev_or(c, "Microphone").as_str()));
            },
            Platform::Linux => {
                push_arg(v, "-f");
                push_arg(v, "pulse");
                push_arg(v, "-i");
                push_owned(v, audio_dev_or(c, "default"));
            },
            Platform::MacOs => {
                push_arg(v, "-f");
                push_arg(v, "avfoundation");
                push_arg(v, "-i");
                push_owned(v, audio_dev_or(c, ":0"));
            },
            Platform::Other => {},
        }
    }
    proof {
        assert(v.deep_view() =~= old(v).deep_view() + spec_pipe_audio_args(c, platform));
    }
}

/// Builds the encoder invocation for a native-capture run. The raw-pixel
/// input description carries the measured geometry; the filter stage
/// scales to the requested resolution when it is known.
pub fn build_ffmpeg_pipe_command(
    c: &RecorderConfig,
    width: u32,
    height: u32,
    platform: Platform,
) -> (r: Vec<String>)
    ensures
        r.deep_view() == spec_pipe_args(c, width as nat, height as nat, platform),
{
    let mut v: Vec<String> = Vec::new();
    proof {
        assert(v.deep_view() =~= Seq::<Seq<char>>::empty());
    }
    push_arg(&mut v, "-f");
    push_arg(&mut v, "rawvideo");
    push_arg(&mut v, "-pix_fmt");
    push_arg(&mut v, "bgra");
    push_arg(&mut v, "-video_size");
    push_owned(&mut v, crate::strutil::format_resolution(width, height));
    push_arg(&mut v, "-framerate");
    push_owned(&mut v, u32_to_dec(c.fps));
    push_arg(&mut v, "-i");
    push_arg(&mut v, "pipe:0");
    let ghost head = v.deep_view();
    push_pipe_audio_args(&mut v, c, platform);
    push_filter_args(&mut v, c);
    push_encode_args(&mut v, c);
    if c.audio_enabled && !matches!(platform, Platform::Other) {
        push_audio_encode_args(&mut v);
    }
    proof {
        assert(v.deep_view() =~= head + spec_pipe_audio_args(c, platform) + spec_filter_args(c)
            + spec_encode_args(c) + (if spec_pipe_audio_included(c, platform) {
            spec_audio_encode_args()
        } else {
            Seq::<Seq<char>>::empty()
        }));
    }
    push_output_args(&mut v, c);
    proof {
        assert(v.deep_view() =~= spec_pipe_args(c, width as nat, height as nat, platform));
    }
    v
}

/// The piped builder is pure in the same way as the grabber-fed one.
pub proof fn lemma_pipeline_builder_pure(
    c: &RecorderConfig,
    width: nat,
    height: nat,
    platform: Platform,
    r1: Seq<Seq<char>>,
    r2: Seq<Seq<char>>,
)
    requires
        r1 == spec_pipe_args(c, width, height, platform),
        r2 == spec_pipe_args(c, width, height, platform),
    ensures
        r1 == r2,
{
}

} // verus!
