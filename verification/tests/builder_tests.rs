use screen_recorder::builder::{
    build_ffmpeg_command, build_ffmpeg_pipe_command, build_streaming_command,
};
use screen_recorder::config::{Platform, RecorderConfig, StreamProtocol};
use screen_recorder::encoder::should_warn_missing_audio;

fn file_config() -> RecorderConfig {
    RecorderConfig {
        output: String::from("/tmp/out.mp4"),
        device: String::from("desktop"),
        audio_enabled: false,
        audio_device: None,
        draw_mouse: true,
        fps: 30,
        resolution: String::from("1920x1080"),
        bitrate: String::from("5000k"),
        codec: String::from("h264"),
        duration: 0,
        is_stream: false,
        protocol: StreamProtocol::File,
    }
}

fn rtmp_config() -> RecorderConfig {
    let mut c = file_config();
    c.output = String::from("rtmp://example.com/live/key");
    c.is_stream = true;
    c.detect_protocol();
    c
}

#[test]
fn recording_args_exact() {
    let c = file_config();
    let args = build_ffmpeg_command(&c, "gdigrab", "desktop", Platform::Windows, true);
    let expected: Vec<&str> = vec![
        "-f",
        "gdigrab",
        "-framerate",
        "30",
        "-video_size",
        "1920x1080",
        "-i",
        "desktop",
        "-vf",
        "scale=1920:1080:flags=lanczos,format=yuv420p",
        "-c:v",
        "libx264",
        "-b:v",
        "5000k",
        "-preset",
        "medium",
        "-f",
        "mp4",
        "-movflags",
        "faststart",
        "-y",
        "/tmp/out.mp4",
    ];
    assert_eq!(args, expected);
}

#[test]
fn recording_args_suppress_cursor() {
    let mut c = file_config();
    c.draw_mouse = false;
    let args = build_ffmpeg_command(&c, "gdigrab", "desktop", Platform::Windows, true);
    let pos = args.iter().position(|a| a == "-draw_mouse").expect("cursor flag present");
    assert_eq!(args[pos + 1], "0");
    // x11grab never takes the cursor flag
    let args = build_ffmpeg_command(&c, "x11grab", ":0", Platform::Linux, true);
    assert!(!args.contains(&String::from("-draw_mouse")));
}

#[test]
fn recording_args_unknown_resolution_drops_size_and_scale() {
    let mut c = file_config();
    c.resolution = String::from("bad");
    let args = build_ffmpeg_command(&c, "gdigrab", "desktop", Platform::Windows, true);
    assert!(!args.contains(&String::from("-video_size")));
    let pos = args.iter().position(|a| a == "-vf").unwrap();
    assert_eq!(args[pos + 1], "format=yuv420p");
}

#[test]
fn file_output_has_no_rate_control_and_slow_preset() {
    let c = file_config();
    for args in [
        build_ffmpeg_command(&c, "gdigrab", "desktop", Platform::Windows, true),
        build_streaming_command(&c, "gdigrab", "desktop", Platform::Windows, true),
        build_ffmpeg_pipe_command(&c, 2560, 1440, Platform::Linux),
    ] {
        assert!(!args.contains(&String::from("-maxrate")));
        assert!(!args.contains(&String::from("-bufsize")));
        let pos = args.iter().position(|a| a == "-preset").unwrap();
        assert_eq!(args[pos + 1], "medium");
    }
}

#[test]
fn live_output_has_rate_control_and_fast_preset() {
    let c = rtmp_config();
    for args in [
        build_streaming_command(&c, "gdigrab", "desktop", Platform::Windows, true),
        build_ffmpeg_pipe_command(&c, 2560, 1440, Platform::Linux),
    ] {
        let pos = args.iter().position(|a| a == "-maxrate").unwrap();
        assert_eq!(args[pos + 1], "5000k");
        let pos = args.iter().position(|a| a == "-bufsize").unwrap();
        assert_eq!(args[pos + 1], "5000k");
        let pos = args.iter().position(|a| a == "-preset").unwrap();
        assert_eq!(args[pos + 1], "veryfast");
    }
}

#[test]
fn overwrite_flag_precedes_output_path() {
    let c = file_config();
    for args in [
        build_ffmpeg_command(&c, "gdigrab", "desktop", Platform::Windows, true),
        build_streaming_command(&c, "x11grab", ":0", Platform::Linux, true),
        build_ffmpeg_pipe_command(&c, 2560, 1440, Platform::Linux),
    ] {
        assert_eq!(args[args.len() - 2], "-y");
        assert_eq!(args[args.len() - 1], "/tmp/out.mp4");
    }
}

#[test]
fn builder_is_pure_identical_calls_identical_args() {
    let c = rtmp_config();
    let a1 = build_streaming_command(&c, "gdigrab", "desktop", Platform::Windows, true);
    let a2 = build_streaming_command(&c, "gdigrab", "desktop", Platform::Windows, true);
    assert_eq!(a1, a2);
    let p1 = build_ffmpeg_pipe_command(&c, 2560, 1440, Platform::Linux);
    let p2 = build_ffmpeg_pipe_command(&c, 2560, 1440, Platform::Linux);
    assert_eq!(p1, p2);
}

#[test]
fn streaming_args_exact_rtmp() {
    let c = rtmp_config();
    let args = build_streaming_command(&c, "gdigrab", "desktop", Platform::Windows, true);
    let expected: Vec<&str> = vec![
        "-f",
        "gdigrab",
        "-framerate",
        "30",
        "-video_size",
        "1920x1080",
        "-i",
        "desktop",
        "-vf",
        "scale=1920:1080:flags=lanczos,format=yuv420p",
        "-c:v",
        "libx264",
        "-b:v",
        "5000k",
        "-preset",
        "veryfast",
        "-maxrate",
        "5000k",
        "-bufsize",
        "5000k",
        "-f",
        "flv",
        "-flvflags",
        "no_duration_filesize",
        "-rtmp_live",
        "live",
        "rtmp://example.com/live/key",
    ];
    assert_eq!(args, expected);
}

#[test]
fn streaming_args_rtsp_transport() {
    let mut c = file_config();
    c.output = String::from("rtsp://example.com:8554/stream");
    c.detect_protocol();
    let args = build_streaming_command(&c, "x11grab", ":0", Platform::Linux, true);
    let tail = &args[args.len() - 5..];
    assert_eq!(
        tail,
        [
            "-rtsp_transport",
            "tcp",
            "-f",
            "rtsp",
            "rtsp://example.com:8554/stream"
        ]
    );
}

#[test]
fn streaming_file_tail_has_fast_start_container() {
    let c = file_config();
    let args = build_streaming_command(&c, "gdigrab", "desktop", Platform::Windows, true);
    let tail = &args[args.len() - 6..];
    assert_eq!(
        tail,
        ["-f", "mp4", "-movflags", "faststart", "-y", "/tmp/out.mp4"]
    );
}

#[test]
fn audio_absent_yields_video_only_args_and_one_warning() {
    let mut c = rtmp_config();
    c.audio_enabled = true;
    c.audio_device = Some(String::from("Microphone"));

    let absent = build_streaming_command(&c, "gdigrab", "desktop", Platform::Windows, false);
    assert!(!absent.contains(&String::from("dshow")));
    assert!(!absent.iter().any(|a| a.starts_with("audio=")));
    assert!(!absent.contains(&String::from("-c:a")));

    let mut no_audio = c.clone();
    no_audio.audio_enabled = false;
    let video_only = build_streaming_command(&no_audio, "gdigrab", "desktop", Platform::Windows, true);
    assert_eq!(absent, video_only);

    assert!(should_warn_missing_audio(&c, Platform::Windows, false));
    assert!(!should_warn_missing_audio(&c, Platform::Windows, true));
    assert!(!should_warn_missing_audio(&no_audio, Platform::Windows, false));
}

#[test]
fn audio_present_adds_dshow_and_encode_stages() {
    let mut c = rtmp_config();
    c.audio_enabled = true;
    c.audio_device = Some(String::from("USB Mic"));
    let args = build_streaming_command(&c, "gdigrab", "desktop", Platform::Windows, true);
    let pos = args.iter().position(|a| a == "dshow").expect("dshow stage present");
    assert_eq!(args[pos + 1], "-i");
    assert_eq!(args[pos + 2], "audio=USB Mic");
    // the audio encode stage accompanies the audio input stage
    let ca = args.iter().position(|a| a == "-c:a").expect("audio encode present");
    assert_eq!(args[ca + 1], "aac");
    assert_eq!(args[ca + 3], "128k");
    assert_eq!(args[ca + 5], "44100");
}

#[test]
fn audio_linux_defaults_to_microphone_in_grabber_builders() {
    let mut c = file_config();
    c.audio_enabled = true;
    let args = build_ffmpeg_command(&c, "x11grab", ":0", Platform::Linux, true);
    let pos = args.iter().position(|a| a == "pulse").expect("pulse stage present");
    assert_eq!(args[pos + 1], "-i");
    assert_eq!(args[pos + 2], "Microphone");
    assert!(args.contains(&String::from("-c:a")));
}

#[test]
fn pipe_args_exact_file_output() {
    let c = file_config();
    let args = build_ffmpeg_pipe_command(&c, 2560, 1440, Platform::Linux);
    let expected: Vec<&str> = vec![
        "-f",
        "rawvideo",
        "-pix_fmt",
        "bgra",
        "-video_size",
        "2560x1440",
        "-framerate",
        "30",
        "-i",
        "pipe:0",
        "-vf",
        "scale=1920:1080:flags=lanczos,format=yuv420p",
        "-c:v",
        "libx264",
        "-b:v",
        "5000k",
        "-preset",
        "medium",
        "-f",
        "mp4",
        "-movflags",
        "faststart",
        "-y",
        "/tmp/out.mp4",
    ];
    assert_eq!(args, expected);
}

#[test]
fn pipe_args_measured_input_scaled_to_requested() {
    // requested 1920x1080, measured 2560x1440: the raw input description
    // carries the measured geometry, and the filter scales to the
    // requested resolution
    let c = file_config();
    let args = build_ffmpeg_pipe_command(&c, 2560, 1440, Platform::Linux);
    let pos = args.iter().position(|a| a == "-video_size").unwrap();
    assert_eq!(args[pos + 1], "2560x1440");
    let pos = args.iter().position(|a| a == "-vf").unwrap();
    assert_eq!(args[pos + 1], "scale=1920:1080:flags=lanczos,format=yuv420p");
}

#[test]
fn pipe_args_audio_unprobed_with_platform_defaults() {
    let mut c = rtmp_config();
    c.audio_enabled = true;
    let args = build_ffmpeg_pipe_command(&c, 1920, 1080, Platform::Linux);
    let pos = args.iter().position(|a| a == "pulse").expect("pulse stage present");
    assert_eq!(args[pos + 2], "default");
    // audio encode stage follows
    let ca = args.iter().position(|a| a == "-c:a").expect("audio encode present");
    assert_eq!(args[ca + 1], "aac");
    assert_eq!(args[ca + 3], "128k");
    assert_eq!(args[ca + 5], "44100");
    // RTMP tail: flv container, live flags, then the URL last
    assert_eq!(args.last().unwrap(), "rtmp://example.com/live/key");
    assert!(args.contains(&String::from("flv")));
}

#[test]
fn pipe_args_rtsp_tail_has_no_overwrite_flag() {
    let mut c = file_config();
    c.output = String::from("rtsp://example.com/stream");
    c.detect_protocol();
    let args = build_ffmpeg_pipe_command(&c, 1920, 1080, Platform::Linux);
    let tail = &args[args.len() - 5..];
    assert_eq!(
        tail,
        [
            "-rtsp_transport",
            "tcp",
            "-f",
            "rtsp",
            "rtsp://example.com/stream"
        ]
    );
    assert!(!args.contains(&String::from("-y")));
}

#[test]
fn pipe_args_codec_passthrough() {
    let mut c = file_config();
    c.codec = String::from("nvenc");
    let args = build_ffmpeg_pipe_command(&c, 1920, 1080, Platform::Linux);
    let pos = args.iter().position(|a| a == "-c:v").unwrap();
    assert_eq!(args[pos + 1], "nvenc");
}
