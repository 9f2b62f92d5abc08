//! What is captured, and how.

use iroh_live_cli::args::{AudioCodecArg, CaptureArgs, VideoCodecArg};
use iroh_live_cli::backend::Backend;
use iroh_live_cli::rendition::{CaptureFramerate, FramerateOrigin, Size};
use iroh_live_cli::source::{
    audio_encoding, audio_source, check_rpicam_flags, is_microphone, microphone_config,
    open_video, paint_gradient, video_source, AudioEncoding, AudioPlan, CaptureSource, VideoPlan,
};
use iroh_live_cli::source_spec::{
    AudioSourceSpec, RpicamMode, TestPattern, TestTone, VideoSourceSpec,
};

const THIRTY: CaptureFramerate =
    CaptureFramerate::Requested { fps: 30, origin: FramerateOrigin::Default };

/// Every command that plays the other side's audio publishes a microphone that
/// cancels it. This fails if the config drops the output.
#[test]
fn the_microphone_cancels_the_output_it_is_given() {
    let config = microphone_config(None, Some(true), true);
    assert!(
        config.echo_reference,
        "the microphone config carries no echo reference"
    );
    assert!(!microphone_config(None, None, true).echo_reference);
}

#[test]
fn a_microphone_by_id_keeps_its_id() {
    let config = microphone_config(Some("hw:1".into()), None, true);
    assert_eq!(config.device, Some("hw:1".to_string()));
}

/// Without cancellation, a speaker that plays is warned of.
#[test]
fn an_echo_is_warned_of() {
    assert!(microphone_config(None, Some(false), false).warn_of_echo);
    assert!(!microphone_config(None, Some(true), false).warn_of_echo);
    assert!(!microphone_config(None, Some(false), true).warn_of_echo);
}

#[test]
fn a_file_is_no_capture_device() {
    let file = VideoSourceSpec::File { path: "a.mp4".to_string(), looping: false };
    let err = video_source(&file, &CaptureArgs::default(), THIRTY).unwrap_err();
    assert!(err.starts_with(
        "a file: video source is published by `irl publish --video file:a.mp4`"
    ));
}

#[test]
fn a_camera_is_captured_as_the_flags_say() {
    let args = CaptureArgs { width: Some(640), no_cursor: true, ..CaptureArgs::default() };
    let plan = video_source(&VideoSourceSpec::Camera(Some("0".to_string())), &args, THIRTY).unwrap();
    match plan {
        VideoPlan::Capture(config) => {
            assert_eq!(config.source, CaptureSource::Camera(Some("0".to_string())));
            assert_eq!((config.width, config.height), (Some(640), None));
            assert_eq!(config.framerate, Some(30));
            assert!(!config.cursor);
        }
        other => panic!("unexpected: {other:?}"),
    }
}

#[test]
fn a_test_pattern_has_a_default_size() {
    let plan = video_source(
        &VideoSourceSpec::Test(TestPattern::Gradient),
        &CaptureArgs::default(),
        CaptureFramerate::Device,
    );
    match plan.unwrap() {
        VideoPlan::Test { pattern, size, framerate } => {
            assert_eq!(pattern, TestPattern::Gradient);
            assert_eq!(size, Size::new(1280, 720));
            assert_eq!(framerate, 30);
        }
        other => panic!("unexpected: {other:?}"),
    }
}

#[test]
fn rpicam_refuses_flags_for_an_encoder() {
    let codec = CaptureArgs { codec: VideoCodecArg::H265, ..CaptureArgs::default() };
    assert!(check_rpicam_flags(&codec).unwrap_err().contains("--codec"));
    let encoder = CaptureArgs { encoder: Backend::Named("vaapi"), ..CaptureArgs::default() };
    assert!(check_rpicam_flags(&encoder).unwrap_err().starts_with("--encoder vaapi "));
    let ladder = CaptureArgs {
        renditions: vec!["720p".to_string(), "360p".to_string()],
        ..CaptureArgs::default()
    };
    assert!(check_rpicam_flags(&ladder).unwrap_err().contains("one rendition"));
    let spec = VideoSourceSpec::Rpicam(RpicamMode::Raw);
    assert!(video_source(&spec, &ladder, THIRTY).is_ok());
    let spec = VideoSourceSpec::Rpicam(RpicamMode::Encoded);
    assert!(video_source(&spec, &ladder, THIRTY).is_err());
}

#[test]
fn nothing_to_open_is_no_error() {
    let none = CaptureArgs { video: "none".to_string(), ..CaptureArgs::default() };
    assert!(matches!(open_video(&none, false, false), Ok(None)));
    let test = CaptureArgs { video: "test".to_string(), ..CaptureArgs::default() };
    assert!(matches!(open_video(&test, false, false), Ok(Some(_))));
    let bad = CaptureArgs { video: "webcam".to_string(), ..CaptureArgs::default() };
    assert!(open_video(&bad, false, false).is_err());
}

#[test]
fn the_gradient_moves() {
    let size = Size::new(4, 2);
    let first = paint_gradient(size, 0);
    assert_eq!(first.len(), 32);
    assert_eq!(&first[4..8], &[1, 0, 0, 255]);
    let second = paint_gradient(size, 1);
    assert_eq!(&second[4..8], &[4, 3, 3, 255]);
    assert_ne!(first, second);
}

#[test]
fn audio_plans_and_encodings() {
    assert_eq!(
        audio_source(&AudioSourceSpec::Test(TestTone::Tone), None, false),
        AudioPlan::Test(TestTone::Tone)
    );
    assert_eq!(audio_source(&AudioSourceSpec::Nothing, None, false), AudioPlan::Nothing);
    let mic = CaptureArgs { audio_bitrate: Some(24_000), ..CaptureArgs::default() };
    assert!(is_microphone(&mic));
    assert_eq!(audio_encoding(&mic), AudioEncoding::Voice(Some(24_000)));
    let system = CaptureArgs { audio: "system".to_string(), ..CaptureArgs::default() };
    assert_eq!(audio_encoding(&system), AudioEncoding::Music(None));
    let pcm = CaptureArgs { audio_codec: AudioCodecArg::Pcm, ..CaptureArgs::default() };
    assert_eq!(audio_encoding(&pcm), AudioEncoding::Pcm);
}
