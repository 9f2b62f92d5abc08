//! Rungs, ladders and frame rates.

use iroh_live_cli::args::CaptureArgs;
use iroh_live_cli::rendition::{
    even, flag_framerate, ladder, ladder_on, parse_size, rung, scaled_bitrate, takes_framerate,
    CaptureFramerate, FramerateOrigin, Rung, Size, UnmetRate, DEFAULT_FRAMERATE, MAX_FRAMERATE,
    SINGLE_RENDITION,
};
use iroh_live_cli::source_spec::{TestPattern, VideoSourceSpec};

/// Capture flags carrying nothing but a ladder.
fn args(renditions: &[&str], fps: Option<u32>) -> CaptureArgs {
    CaptureArgs {
        renditions: renditions.iter().map(|spec| (*spec).to_string()).collect(),
        fps,
        ..CaptureArgs::default()
    }
}

/// A source that takes a requested frame rate on every platform.
const TEST_SOURCE: VideoSourceSpec = VideoSourceSpec::Test(TestPattern::Timing);

#[test]
fn sizes_parse() {
    assert_eq!(parse_size("720p"), Some(Size::new(1280, 720)));
    assert_eq!(parse_size("1080p"), Some(Size::new(1920, 1080)));
    assert_eq!(parse_size("480p"), Some(Size::new(854, 480)));
    assert_eq!(parse_size("640x360"), Some(Size::new(640, 360)));
    // Odd dimensions round up to even.
    assert_eq!(parse_size("641x361"), Some(Size::new(642, 362)));
    assert_eq!(parse_size("source"), None);
}

#[test]
fn ladder_bitrates_scale_by_pixel_count() {
    let quarter = scaled_bitrate(
        4_000_000,
        Some(Size::new(640, 360)),
        Some(Size::new(1280, 720)),
    );
    assert_eq!(quarter, 1_000_000);

    let top = scaled_bitrate(
        4_000_000,
        Some(Size::new(1280, 720)),
        Some(Size::new(1280, 720)),
    );
    assert_eq!(top, 4_000_000);

    let tiny = scaled_bitrate(
        4_000_000,
        Some(Size::new(16, 16)),
        Some(Size::new(1920, 1080)),
    );
    assert_eq!(tiny, 64_000);

    assert_eq!(scaled_bitrate(4_000_000, None, None), 4_000_000);
}

#[test]
fn rendition_rungs_parse() {
    assert_eq!(
        rung("720p").unwrap(),
        Rung {
            name: "720p".to_string(),
            size: Some(Size::new(1280, 720)),
            framerate: None,
        }
    );
    assert_eq!(
        rung("low:640x360").unwrap(),
        Rung {
            name: "low".to_string(),
            size: Some(Size::new(640, 360)),
            framerate: None,
        }
    );
    assert_eq!(
        rung("source").unwrap(),
        Rung {
            name: "source".to_string(),
            size: None,
            framerate: None,
        }
    );
    assert!(rung("low:wide").is_err());
}

#[test]
fn a_rung_takes_a_frame_rate_after_its_size() {
    assert_eq!(
        rung("720p@60").unwrap(),
        Rung {
            name: "720p".to_string(),
            size: Some(Size::new(1280, 720)),
            framerate: Some(60),
        }
    );
    assert_eq!(
        rung("high:1280x720@60").unwrap(),
        Rung {
            name: "high".to_string(),
            size: Some(Size::new(1280, 720)),
            framerate: Some(60),
        }
    );
    assert_eq!(
        rung("source@24").unwrap(),
        Rung {
            name: "source".to_string(),
            size: None,
            framerate: Some(24),
        }
    );
}

#[test]
fn a_rung_with_an_unusable_frame_rate_is_refused() {
    assert!(rung("720p@").is_err());
    assert!(rung("720p@sixty").is_err());
    assert!(rung("720p@0").is_err());
    assert!(rung(&format!("720p@{}", MAX_FRAMERATE + 1)).is_err());
    assert!(rung("a@b@60").is_err());
    assert!(rung("@60").is_err());
    assert!(rung("high:@60").is_err());
}

#[test]
fn a_ladder_without_a_rate_captures_at_the_default() {
    let ladder = ladder(&TEST_SOURCE, &args(&["720p", "low:640x360"], None)).unwrap();
    assert_eq!(
        ladder.framerate,
        CaptureFramerate::Requested {
            fps: DEFAULT_FRAMERATE,
            origin: FramerateOrigin::Default,
        }
    );
    assert!(ladder.unmet.is_empty());
}

#[test]
fn the_highest_rung_rate_sets_the_capture_rate() {
    let ladder = ladder(
        &TEST_SOURCE,
        &args(&["high:1280x720@60", "low:640x360@30"], None),
    )
    .unwrap();
    assert_eq!(
        ladder.framerate,
        CaptureFramerate::Requested {
            fps: 60,
            origin: FramerateOrigin::Renditions,
        }
    );
    assert_eq!(
        ladder.unmet,
        vec![UnmetRate {
            name: "low".to_string(),
            asked: 30,
        }]
    );
}

#[test]
fn the_fps_flag_outranks_the_ladder() {
    let ladder = ladder(&TEST_SOURCE, &args(&["720p@30"], Some(60))).unwrap();
    assert_eq!(
        ladder.framerate,
        CaptureFramerate::Requested {
            fps: 60,
            origin: FramerateOrigin::Flag,
        }
    );
    assert_eq!(
        ladder.unmet,
        vec![UnmetRate {
            name: "720p".to_string(),
            asked: 30,
        }]
    );
}

#[test]
fn the_fps_flag_caps_a_rung_asking_for_more() {
    let ladder = ladder(&TEST_SOURCE, &args(&["720p@60"], Some(30))).unwrap();
    assert_eq!(
        ladder.framerate,
        CaptureFramerate::Requested {
            fps: 30,
            origin: FramerateOrigin::Capped,
        }
    );
    assert_eq!(
        ladder.unmet,
        vec![UnmetRate {
            name: "720p".to_string(),
            asked: 60,
        }]
    );
}

#[test]
fn a_rung_that_matches_the_capture_rate_is_not_reported() {
    let ladder = ladder(&TEST_SOURCE, &args(&["720p@60", "low:640x360@60"], None)).unwrap();
    assert_eq!(ladder.framerate.request(), Some(60));
    assert!(ladder.unmet.is_empty());
}

#[test]
fn an_unusable_fps_flag_is_refused() {
    assert!(ladder(&TEST_SOURCE, &args(&[], Some(0))).is_err());
    assert!(ladder(&TEST_SOURCE, &args(&[], Some(MAX_FRAMERATE + 1))).is_err());
}

#[test]
fn a_ladder_without_the_flag_is_one_unscaled_rendition() {
    let ladder = ladder(&TEST_SOURCE, &args(&[], None)).unwrap();
    assert_eq!(ladder.renditions.len(), 1);
    assert_eq!(ladder.renditions[0].name, SINGLE_RENDITION);
    assert_eq!(ladder.renditions[0].size, None);
}

#[test]
fn a_rate_does_not_reach_the_rendition_the_encoder_is_built_from() {
    let ladder = ladder(&TEST_SOURCE, &args(&["high:1280x720@60"], None)).unwrap();
    assert_eq!(ladder.renditions.len(), 1);
    assert_eq!(ladder.renditions[0].name, "high");
    assert_eq!(ladder.renditions[0].size, Some(Size::new(1280, 720)));
}

/// The largest rung keeps the bitrate, and the others get their share.
#[test]
fn a_ladder_shares_the_bitrate() {
    let mut flags = args(&["1280x720", "640x360"], None);
    flags.bitrate = Some(4_000_000);
    let ladder = ladder(&TEST_SOURCE, &flags).unwrap();
    assert_eq!(ladder.renditions[0].bitrate, Some(4_000_000));
    assert_eq!(ladder.renditions[1].bitrate, Some(1_000_000));
}

#[test]
fn a_camera_on_a_mac_keeps_its_own_rate() {
    assert!(!takes_framerate(&VideoSourceSpec::Camera(None), true));
    assert!(takes_framerate(&VideoSourceSpec::Camera(None), false));
    assert!(takes_framerate(&VideoSourceSpec::Display(None), true));
    assert_eq!(CaptureFramerate::Device.request(), None);
    assert_eq!(CaptureFramerate::Device.generated(), DEFAULT_FRAMERATE);
    assert_eq!(even(7), 8);
    assert_eq!(even(8), 8);
    assert_eq!(flag_framerate(30), Ok(30));
}

/// The log warns of the rungs whose rate is not met.
#[test]
fn a_ladder_reports_its_rate() {
    let report = ladder(&TEST_SOURCE, &args(&["720p@60"], Some(30))).unwrap().report();
    assert_eq!(report.fps, Some(30));
    assert_eq!(report.origin, "--fps, capping the ladder");
    assert_eq!(report.warned, vec![UnmetRate { name: "720p".to_string(), asked: 60 }]);
    let camera = VideoSourceSpec::Camera(None);
    let device = ladder_on(true, &camera, &args(&["720p"], None)).unwrap();
    assert_eq!(device.framerate, CaptureFramerate::Device);
    assert_eq!(device.report().origin, "device");
    assert!(device.report().warned.is_empty());
}
