//! Flags, and how they name a broadcast.

use iroh_live_cli::args::{
    record_format, AudioCodecArg, CaptureArgs, Latency, LatencyArg, PlaybackArgs, RecordFormat,
    RemoteArgs, TransportArgs, VideoCodecArg, WatchArgs,
};
use iroh_live_cli::backend::Backend;
use iroh_live_cli::ids::{BroadcastTicket, EndpointId};
use iroh_live_cli::source_spec::{AudioSourceSpec, TestPattern, TestTone, VideoSourceSpec};
use iroh_live_cli::watch::{start, Start};

/// The balanced delay of a player that is told nothing.
const BALANCED: Latency = Latency { min: 150, max: 300 };

/// Returns an endpoint id and broadcast name to use instead of a ticket.
fn endpoint_and_name() -> (EndpointId, String) {
    let public = iroh::SecretKey::generate().public();
    let bytes = public.as_bytes();
    let mut high = [0u8; 16];
    let mut low = [0u8; 16];
    high.copy_from_slice(&bytes[..16]);
    low.copy_from_slice(&bytes[16..]);
    let id = EndpointId { high: u128::from_be_bytes(high), low: u128::from_be_bytes(low) };
    (id, "hello".to_string())
}

fn remote(id: Option<EndpointId>, name: Option<String>) -> RemoteArgs {
    RemoteArgs { ticket: None, endpoint_id: id, broadcast_name: name }
}

fn watch(remote: RemoteArgs, scan: bool) -> WatchArgs {
    WatchArgs {
        remote,
        playback: PlaybackArgs::default(),
        no_video: false,
        scan,
        scan_camera: None,
        rendition: None,
        fullscreen: false,
        audio_output: None,
    }
}

/// Each mode skips past more than it holds, and the modes grow in delay.
#[test]
fn the_latency_modes_are_ordered_and_consistent() {
    let modes = [LatencyArg::Realtime, LatencyArg::Balanced, LatencyArg::Smooth];
    for mode in modes {
        let latency = mode.latency(BALANCED);
        assert!(latency.max > latency.min, "{mode:?}: {latency:?}");
    }
    for pair in modes.windows(2) {
        let (less, more) = (pair[0].latency(BALANCED), pair[1].latency(BALANCED));
        assert!(less.min < more.min && less.max < more.max, "{pair:?}");
    }
}

#[test]
fn watch_and_record_name_a_broadcast_the_same_way() {
    let (id, name) = endpoint_and_name();
    let watched = watch(remote(Some(id), Some(name.clone())), false);
    assert_eq!(watched.remote.ticket().expect("resolves").name, name);

    let recorded = remote(Some(id), Some(name.clone()));
    assert_eq!(recorded.ticket().expect("resolves").name, name);
}

#[test]
fn a_broadcast_named_no_way_at_all_is_rejected() {
    let args = watch(remote(None, None), false);
    let err = args.remote.ticket().expect_err("nothing names a broadcast");
    assert!(err.contains("--endpoint-id"), "unexpected: {err}");
}

#[test]
fn the_endpoint_id_needs_a_name() {
    let (id, _) = endpoint_and_name();
    remote(Some(id), None)
        .ticket()
        .expect_err("--endpoint-id alone does not name a broadcast");
}

/// `--scan` names the broadcast, so no ticket is needed.
#[test]
fn scanning_stands_in_for_a_ticket() {
    let args = watch(remote(None, None), true);
    assert!(args.scan);
    assert!(args.remote.ticket().is_err(), "nothing named a broadcast");
    assert!(matches!(start(&args), Ok(Start::Scan)));
}

#[test]
fn a_ticket_on_its_own_is_dialed_before_the_window_opens() {
    let (id, name) = endpoint_and_name();
    let start = start(&watch(remote(Some(id), Some(name)), false));
    assert!(matches!(start, Ok(Start::Ticket(_))));
}

#[test]
fn a_ticket_alongside_scan_is_dialed_from_inside_the_window() {
    let (id, name) = endpoint_and_name();
    let start = start(&watch(remote(Some(id), Some(name)), true));
    assert!(matches!(start, Ok(Start::TicketInWindow(_))));
}

#[test]
fn scan_without_a_ticket_opens_the_camera() {
    assert!(matches!(start(&watch(remote(None, None), true)), Ok(Start::Scan)));
}

#[test]
fn a_run_that_names_no_broadcast_is_rejected() {
    let err = start(&watch(remote(None, None), false)).expect_err("nothing names a broadcast");
    assert!(err.contains("--endpoint-id"), "unexpected: {err}");
}

/// A ticket outranks the pair.
#[test]
fn a_ticket_is_taken_as_it_is() {
    let (id, name) = endpoint_and_name();
    let args = RemoteArgs {
        ticket: Some(BroadcastTicket::new(id, "cam".to_string())),
        endpoint_id: None,
        broadcast_name: None,
    };
    let ticket = args.ticket().expect("a ticket names a broadcast");
    assert_eq!(ticket.name, "cam");
    assert_eq!(ticket.endpoint, id);
    assert_ne!(ticket.name, name);
}

#[test]
fn flag_defaults() {
    let capture = CaptureArgs::default();
    assert_eq!(capture.video, "cam");
    assert_eq!(capture.audio, "mic");
    assert_eq!(capture.codec, VideoCodecArg::H264);
    assert_eq!(capture.audio_codec, AudioCodecArg::Opus);
    assert_eq!(capture.encoder, Backend::Auto);
    assert!(capture.renditions.is_empty());
    assert_eq!(capture.fps, None);
    let transport = TransportArgs::default();
    assert_eq!(transport.name, "hello");
    assert!(!transport.no_serve);
    assert_eq!(PlaybackArgs::default().decoder, Backend::Auto);
}

/// `--test-source` overrides both specifiers.
#[test]
fn the_test_source_flag_wins() {
    let args = CaptureArgs { test_source: true, ..CaptureArgs::default() };
    assert_eq!(args.video_source(), Ok(VideoSourceSpec::Test(TestPattern::Timing)));
    assert_eq!(args.audio_source(), Ok(AudioSourceSpec::Test(TestTone::Beeps)));
    assert_eq!(CaptureArgs::default().video_source(), Ok(VideoSourceSpec::Camera(None)));
    assert_eq!(CaptureArgs::default().audio_source(), Ok(AudioSourceSpec::Microphone(None)));
}

#[test]
fn a_cloned_capture_keeps_its_flags() {
    let args = CaptureArgs {
        video: "screen".to_string(),
        renditions: vec!["720p".to_string(), "low:320x180".to_string()],
        bitrate: Some(3_000_000),
        no_cursor: true,
        ..CaptureArgs::default()
    };
    let copy = args.clone();
    assert_eq!(copy.video, "screen");
    assert_eq!(copy.renditions, ["720p", "low:320x180"]);
    assert_eq!(copy.bitrate, Some(3_000_000));
    assert!(copy.no_cursor);
}

#[test]
fn the_recording_format_by_name() {
    assert_eq!(record_format("mkv"), RecordFormat::Mkv);
    assert_eq!(record_format("mp4"), RecordFormat::Fmp4);
}
