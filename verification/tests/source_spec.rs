//! `--video` and `--audio` specifiers.

use iroh_live_cli::source_spec::{
    split_loop, split_once, AudioSourceSpec, RpicamMode, TestPattern, TestTone, VideoSourceSpec,
};

#[test]
fn video_kinds() {
    assert_eq!(
        VideoSourceSpec::parse("cam").unwrap(),
        VideoSourceSpec::Camera(None)
    );
    assert_eq!(
        VideoSourceSpec::parse("screen").unwrap(),
        VideoSourceSpec::Display(None)
    );
    assert_eq!(
        VideoSourceSpec::parse("test").unwrap(),
        VideoSourceSpec::Test(TestPattern::Timing)
    );
    assert_eq!(
        VideoSourceSpec::parse("none").unwrap(),
        VideoSourceSpec::Nothing
    );
}

/// The bare specifier is the timing pattern, and the gradient has a name.
#[test]
fn test_patterns_by_name() {
    assert_eq!(
        VideoSourceSpec::parse("test:timing").unwrap(),
        VideoSourceSpec::Test(TestPattern::Timing)
    );
    assert_eq!(
        VideoSourceSpec::parse("test:GRADIENT").unwrap(),
        VideoSourceSpec::Test(TestPattern::Gradient)
    );
    let err = VideoSourceSpec::parse("test:bars").unwrap_err();
    assert!(err.contains("timing"), "{err}");
}

#[test]
fn test_tones_by_name() {
    assert_eq!(
        AudioSourceSpec::parse("test:beeps").unwrap(),
        AudioSourceSpec::Test(TestTone::Beeps)
    );
    assert_eq!(
        AudioSourceSpec::parse("test:tone").unwrap(),
        AudioSourceSpec::Test(TestTone::Tone)
    );
    let err = AudioSourceSpec::parse("test:sine").unwrap_err();
    assert!(err.contains("beeps"), "{err}");
}

#[test]
fn video_device_ids_survive_colons() {
    assert_eq!(
        VideoSourceSpec::parse("cam:/dev/video2").unwrap(),
        VideoSourceSpec::Camera(Some("/dev/video2".into()))
    );
    assert_eq!(
        VideoSourceSpec::parse("file:C:/clips/demo.mp4").unwrap(),
        VideoSourceSpec::File {
            path: "C:/clips/demo.mp4".into(),
            looping: false,
        }
    );
}

#[test]
fn video_rpicam() {
    assert_eq!(
        VideoSourceSpec::parse("rpicam").unwrap(),
        VideoSourceSpec::Rpicam(RpicamMode::Encoded)
    );
    assert_eq!(
        VideoSourceSpec::parse("picam").unwrap(),
        VideoSourceSpec::Rpicam(RpicamMode::Encoded)
    );
    assert!(VideoSourceSpec::parse("rpicam:0").is_err());
}

/// `:raw` asks for pictures instead of the hardware encoder's H.264.
#[test]
fn video_rpicam_raw() {
    assert_eq!(
        VideoSourceSpec::parse("rpicam:raw").unwrap(),
        VideoSourceSpec::Rpicam(RpicamMode::Raw)
    );
    assert_eq!(
        VideoSourceSpec::parse("picam:RAW").unwrap(),
        VideoSourceSpec::Rpicam(RpicamMode::Raw)
    );
    let err = VideoSourceSpec::parse("rpicam:yuv").unwrap_err();
    assert!(err.contains(":raw"), "{err}");
}

/// A build without the source names the missing feature.
#[test]
fn video_rpicam_needs_the_feature() {
    let err = VideoSourceSpec::parse_for("rpicam", false).unwrap_err();
    assert!(err.contains("'rpicam' feature"), "{err}");
}

#[test]
fn video_forms_that_need_an_id() {
    assert!(VideoSourceSpec::parse("window").is_err());
    assert!(VideoSourceSpec::parse("app").is_err());
    assert!(VideoSourceSpec::parse("file").is_err());
    assert!(VideoSourceSpec::parse("webcam").is_err());
}

#[test]
fn video_file_loop_suffix() {
    assert_eq!(
        VideoSourceSpec::parse("file:/tmp/clip.mp4:loop").unwrap(),
        VideoSourceSpec::File {
            path: "/tmp/clip.mp4".into(),
            looping: true,
        }
    );
}

#[test]
fn audio_kinds() {
    assert_eq!(
        AudioSourceSpec::parse("mic").unwrap(),
        AudioSourceSpec::Microphone(None)
    );
    assert_eq!(
        AudioSourceSpec::parse("test").unwrap(),
        AudioSourceSpec::Test(TestTone::Beeps)
    );
    assert_eq!(
        AudioSourceSpec::parse("none").unwrap(),
        AudioSourceSpec::Nothing
    );
    assert_eq!(
        AudioSourceSpec::parse("system").unwrap(),
        AudioSourceSpec::System
    );
}

#[test]
fn audio_unknown_is_a_device_name() {
    assert_eq!(
        AudioSourceSpec::parse("hw:0,1").unwrap(),
        AudioSourceSpec::Microphone(Some("hw:0,1".into()))
    );
}

#[test]
fn audio_file_loop_suffix() {
    assert_eq!(
        AudioSourceSpec::parse("file:/tmp/song.flac:loop").unwrap(),
        AudioSourceSpec::File {
            path: "/tmp/song.flac".into(),
            looping: true,
        }
    );
    assert_eq!(
        AudioSourceSpec::parse("file:music.mp3").unwrap(),
        AudioSourceSpec::File {
            path: "music.mp3".into(),
            looping: false,
        }
    );
}

/// Only the last suffix is taken off, and only once.
#[test]
fn the_loop_suffix_is_taken_once() {
    assert_eq!(split_loop("a:loop:loop"), ("a:loop", true));
    assert_eq!(split_loop("a:looped"), ("a:looped", false));
}

#[test]
fn a_specifier_splits_at_its_first_colon() {
    assert_eq!(split_once("cam:a:b"), ("cam", Some("a:b")));
    assert_eq!(split_once("cam"), ("cam", None));
    assert_eq!(split_once("cam:"), ("cam", Some("")));
}

#[test]
fn a_window_and_an_app_take_an_id() {
    assert_eq!(
        VideoSourceSpec::parse("window:7").unwrap(),
        VideoSourceSpec::Window("7".into())
    );
    assert_eq!(
        VideoSourceSpec::parse("app:org.example").unwrap(),
        VideoSourceSpec::App("org.example".into())
    );
    assert_eq!(
        VideoSourceSpec::parse("screen:1").unwrap(),
        VideoSourceSpec::Display(Some("1".into()))
    );
}

/// A form that needs an identifier fails without one, also behind its colon.
#[test]
fn an_empty_identifier_is_none() {
    for spec in ["window", "window:", "WINDOW:"] {
        assert_eq!(
            VideoSourceSpec::parse(spec),
            Err("window: needs an id (e.g. window:1042)".to_string())
        );
    }
    for spec in ["app", "app:"] {
        assert_eq!(
            VideoSourceSpec::parse(spec),
            Err("app: needs a bundle id (e.g. app:com.apple.Safari)".to_string())
        );
    }
    for spec in ["file", "file:", "file::loop", "FILE::LOOP"] {
        assert_eq!(
            VideoSourceSpec::parse(spec),
            Err("file: needs a path (e.g. file:clip.mp4)".to_string())
        );
        assert_eq!(
            AudioSourceSpec::parse(spec),
            Err("file: needs a path (e.g. file:music.mp3)".to_string())
        );
    }
    assert_eq!(
        AudioSourceSpec::parse("file:loop").unwrap(),
        AudioSourceSpec::File { path: "loop".into(), looping: false }
    );
    assert_eq!(
        VideoSourceSpec::parse("cam:").unwrap(),
        VideoSourceSpec::Camera(Some(String::new()))
    );
}

/// An identifier may hold any character.
#[test]
fn an_identifier_need_not_be_ascii() {
    assert_eq!(
        VideoSourceSpec::parse("CAM:Büro").unwrap(),
        VideoSourceSpec::Camera(Some("Büro".into()))
    );
    assert_eq!(
        AudioSourceSpec::parse("File:Höhle.mp3:Loop").unwrap(),
        AudioSourceSpec::File { path: "Höhle.mp3".into(), looping: true }
    );
    assert_eq!(
        AudioSourceSpec::parse("Größe").unwrap(),
        AudioSourceSpec::Microphone(Some("Größe".into()))
    );
}
