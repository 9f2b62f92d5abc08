//! Recording a broadcast.

use iroh_live_cli::args::{RecordArgs, RecordFormat, RemoteArgs};
use iroh_live_cli::record::{
    catalog_line, container_of, options, progress_line, running_line, stops, unknown_extension, wrote_line,
    StopEvent,
};

/// Returns empty remote arguments. No test dials them.
fn remote_args() -> RemoteArgs {
    RemoteArgs { ticket: None, endpoint_id: None, broadcast_name: None }
}

#[test]
fn options_prefer_the_flag_over_the_extension() {
    let args = RecordArgs {
        remote: remote_args(),
        output: "out.avi".to_string(),
        format: Some(RecordFormat::Mkv),
        rendition: None,
        duration: None,
        max_age: 500,
    };
    let options = options(&args, None).expect("--format names the container");
    assert_eq!(options.format, RecordFormat::Mkv);
    assert_eq!(options.max_age, Some(500));
}

#[test]
fn an_unknown_extension_without_a_flag_is_rejected() {
    let args = RecordArgs {
        remote: remote_args(),
        output: "out.avi".to_string(),
        format: None,
        rendition: None,
        duration: None,
        max_age: 2_000,
    };
    let err = options(&args, None).expect_err("nothing names the container");
    assert!(err.contains("--format"), "unexpected: {err}");
    assert_eq!(err, unknown_extension("out.avi"));
}

#[test]
fn the_extension_counts_without_a_flag() {
    let args = RecordArgs {
        remote: remote_args(),
        output: "out.mkv".to_string(),
        format: None,
        rendition: Some("720p".to_string()),
        duration: Some(5),
        max_age: 2_000,
    };
    let options = options(&args, Some(RecordFormat::Mkv)).expect("the extension names it");
    assert_eq!(options.format, RecordFormat::Mkv);
    assert_eq!(options.path, "out.mkv");
    assert_eq!(options.rendition, Some("720p".to_string()));
    assert_eq!(options.duration, Some(5));
}

#[test]
fn containers_by_extension() {
    assert_eq!(container_of("m4v"), Some(RecordFormat::Fmp4));
    assert_eq!(container_of("webm"), Some(RecordFormat::Mkv));
    assert_eq!(container_of("avi"), None);
}

#[test]
fn an_empty_catalog_is_nothing_to_record() {
    assert_eq!(
        catalog_line(2, 1),
        ("catalog: 2 video, 1 audio renditions".to_string(), Ok(()))
    );
    let (line, outcome) = catalog_line(0, 0);
    assert_eq!(line, "catalog: 0 video, 0 audio renditions");
    assert_eq!(
        outcome,
        Err("the broadcast carries no video and no audio, so there is nothing to record".to_string())
    );
}

#[test]
fn recording_lines() {
    assert_eq!(running_line(Some(90)), "recording for 90s ...");
    assert_eq!(running_line(None), "recording, press Ctrl+C to stop");
    assert_eq!(wrote_line(12, "a.mp4"), "wrote 12 B to a.mp4");
    assert_eq!(wrote_line(1_536, "a.mp4"), "wrote 1.5 KiB to a.mp4");
    assert_eq!(progress_line("3", 2 * 1024 * 1024), "[3s] 2.0 MiB");
    assert!(stops(StopEvent::Interrupted));
    assert!(stops(StopEvent::Elapsed));
    assert!(!stops(StopEvent::CannotListen));
}
