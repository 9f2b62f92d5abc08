//! Publishing, importing, reaching peers and playing.

use iroh_live_cli::args::{CaptureArgs, ImportFormat, PublishArgs, TransportArgs};
use iroh_live_cli::call::Arrival;
use iroh_live_cli::ids::{BroadcastTicket, EndpointId};
use iroh_live_cli::import::{import_end, is_h264, FileSource, HeaderNext, HeaderRead, ImportNext, ImportPart};
use iroh_live_cli::play::{play_mode, run_step, PlayMode, PlayStep, SubscribeSource};
use iroh_live_cli::playback::{catalog, output, CatalogWait, OutputPlan};
use iroh_live_cli::publish::{
    opened_names, plan, PickedSource, PublishPlan, SourcePicker, Switch,
};
use iroh_live_cli::relay::{find_relay_binary, relay_outcome, RelayArgs, RelayExit};
use iroh_live_cli::source_spec::{RpicamMode, VideoSourceSpec};
use iroh_live_cli::text;
use iroh_live_cli::transport::{
    advertise, connecting_line, mdns, relay_line, relay_url, still_waiting_line, Mdns,
};

fn publish_args() -> PublishArgs {
    PublishArgs {
        capture: CaptureArgs::default(),
        transport: TransportArgs::default(),
        preview: false,
        fullscreen: false,
        format: ImportFormat::Fmp4,
        transcode: false,
    }
}

fn clip(looping: bool) -> VideoSourceSpec {
    VideoSourceSpec::File { path: "clip.mp4".to_string(), looping }
}

#[test]
fn a_file_is_republished() {
    let args = publish_args();
    assert!(matches!(plan(clip(false), &args, true), Ok(PublishPlan::File(_))));
    assert!(plan(clip(false), &args, false).unwrap_err().starts_with("no readable file at clip.mp4"));
    assert!(plan(clip(true), &args, true).unwrap_err().contains(":loop needs --transcode"));
    let preview = PublishArgs { preview: true, ..publish_args() };
    assert!(plan(clip(false), &preview, true).unwrap_err().starts_with("--preview is not"));
}

#[test]
fn a_preview_has_frames() {
    let preview = PublishArgs { preview: true, ..publish_args() };
    let encoded = VideoSourceSpec::Rpicam(RpicamMode::Encoded);
    assert!(plan(encoded, &preview, false).is_err());
    let raw = VideoSourceSpec::Rpicam(RpicamMode::Raw);
    assert!(matches!(
        plan(raw, &preview, false),
        Ok(PublishPlan::Capture { preview: true, ignores_transcode: false })
    ));
    assert_eq!(opened_names(&preview.capture), ("cam", "mic"));
}

#[test]
fn a_loop_is_transcoded() {
    let args = PublishArgs { transcode: true, ..publish_args() };
    let source = FileSource::new("clip.mp4".to_string(), true, &args, true).unwrap();
    assert!(source.transcode());
    assert_eq!(source.path(), "clip.mp4");
    assert_eq!(source.format(), ImportFormat::Fmp4);
    let line = source.ffmpeg_args(false).join(" ");
    assert_eq!(
        line,
        "-hide_banner -loglevel error -stream_loop -1 -re -i clip.mp4 -c:v libx264 -pix_fmt \
         yuv420p -c:a libopus -b:a 128k -movflags \
         cmaf+separate_moof+delay_moov+skip_trailer+frag_every_frame -f mp4 -"
    );
    assert!(source.ffmpeg_args(true).join(" ").contains("-c:v copy"));
    assert_eq!(source.ffprobe_args().last(), Some(&"clip.mp4".to_string()));
    assert!(is_h264(" h264\n"));
    assert!(!is_h264("hevc\n"));
}

#[test]
fn a_header_that_never_comes_is_told() {
    let args = publish_args();
    let source = FileSource::new("clip.mp4".to_string(), false, &args, true).unwrap();
    let mut header = HeaderRead::new();
    assert!(matches!(header.next(true), HeaderNext::Read));
    assert_eq!(header.chunk(&source, 10), Ok(()));
    assert!(matches!(header.next(false), HeaderNext::Done(10)));
    assert_eq!(
        header.chunk(&source, 0),
        Err(
            "reached the end of clip.mp4 after 10 bytes without finding a Fmp4 header; if this \
             is a plain MP4, re-run with --transcode"
                .to_string()
        )
    );
}

/// Whichever part of an import fails, the tracks are aborted with its error.
#[test]
fn an_import_ends_or_is_aborted() {
    assert!(matches!(import_end(ImportPart::Header, Ok(())), ImportNext::Read));
    assert!(matches!(import_end(ImportPart::Rest, Ok(())), ImportNext::Flush));
    assert!(matches!(import_end(ImportPart::Flush, Ok(())), ImportNext::Done));
    for part in [ImportPart::Header, ImportPart::Rest, ImportPart::Flush] {
        match import_end(part, Err("broken pipe".to_string())) {
            ImportNext::Abort(err) => assert_eq!(err, "broken pipe"),
            other => panic!("the tracks go on: {other:?}"),
        }
    }
}

#[test]
fn entries_match_their_specifier() {
    for source in PickedSource::all() {
        let spec = VideoSourceSpec::parse(source.spec()).unwrap();
        assert_eq!(PickedSource::from_spec(&spec), Some(source));
    }
    assert_eq!(PickedSource::Test.label(), "Test pattern");
}

#[test]
fn a_picked_source_is_opened() {
    let mut picker = SourcePicker::new(CaptureArgs::default());
    assert_eq!(picker.label(), "Camera");
    assert!(picker.pick(PickedSource::Camera).is_none());
    match picker.pick(PickedSource::Screen) {
        Some(Switch::Open(args)) => assert_eq!(args.video, "screen"),
        other => panic!("unexpected: {other:?}"),
    }
    assert!(picker.is_opening());
    assert!(!picker.poll(Arrival::Empty));
    assert!(!picker.poll(Arrival::Ready(Err("busy".to_string()))));
    assert_eq!(picker.error(), Some("busy"));
    assert!(!picker.is_opening());
    assert!(matches!(picker.pick(PickedSource::Nothing), Some(Switch::Clear)));
    assert!(picker.poll(Arrival::Ready(Ok(()))));
    assert_eq!(picker.error(), None);
}

#[test]
fn an_unreachable_broadcast_is_warned_of() {
    let args = TransportArgs::default();
    let advert = advertise(&args, "t");
    assert_eq!(advert.line, Some("publishing at t".to_string()));
    assert!(advert.qr);
    let hidden = TransportArgs { no_serve: true, ..TransportArgs::default() };
    let advert = advertise(&hidden, "t");
    assert!(advert.warning.is_some() && advert.line.is_none() && !advert.qr);
    let relay = EndpointId { high: 0, low: 0xab };
    let relayed = TransportArgs { no_serve: true, relay: Some(relay), ..TransportArgs::default() };
    let advert = advertise(&relayed, "t");
    assert!(advert.warning.is_none());
    assert_eq!(advert.relay, Some(relay));
    assert_eq!(relay_url(&relay), format!("iroh://{}/", "0".repeat(62) + "ab"));
    assert!(relay_line(&relay, "p").ends_with(": viewers find the broadcast there at p"));
    assert_eq!(mdns(true), Mdns::Announce);
    assert_eq!(mdns(false), Mdns::Lookup);
}

#[test]
fn connecting_is_told() {
    assert_eq!(connecting_line("t"), "connecting to t ...");
    let ticket = BroadcastTicket::new(EndpointId { high: 0xab << 120, low: 0 }, "cam".to_string());
    assert_eq!(
        still_waiting_line(&ticket),
        "still waiting for 'cam' on ab00000000: is the publisher running? press Ctrl+C to give up"
    );
    let direct =
        SubscribeSource::Direct { ticket: "t".to_string(), broadcast_name: "cam".to_string() };
    assert_eq!(direct.broadcast_name(), "cam");
    assert_eq!(direct.connecting_line(), "connecting to t ...");
    let relay = SubscribeSource::Relay {
        endpoint: EndpointId { high: 0, low: 0 },
        broadcast_name: "cam".to_string(),
    };
    assert_eq!(
        relay.connecting_line(),
        format!("connecting via relay {} (cam) ...", "0".repeat(64))
    );
    assert_eq!(play_mode(true), PlayMode::Audio);
    assert_eq!(play_mode(false), PlayMode::Window);
}

#[test]
fn playing_goes_step_by_step() {
    let mut step = PlayStep::SetUp;
    let mut steps = vec![step];
    while let Ok(Some(next)) = run_step(step, Ok(()), false) {
        steps.push(next);
        step = next;
    }
    assert_eq!(
        steps,
        vec![
            PlayStep::SetUp,
            PlayStep::Subscribe,
            PlayStep::AwaitSession,
            PlayStep::OpenMedia,
            PlayStep::Play(PlayMode::Window),
            PlayStep::Close,
        ]
    );
    assert_eq!(
        run_step(PlayStep::OpenMedia, Ok(()), true),
        Ok(Some(PlayStep::Play(PlayMode::Audio)))
    );
    assert_eq!(
        run_step(PlayStep::Play(PlayMode::Window), Err("x".to_string()), false),
        Err("eframe failed: x".to_string())
    );
    assert_eq!(
        run_step(PlayStep::AwaitSession, Err("x".to_string()), false),
        Err("x".to_string())
    );
}

#[test]
fn a_catalog_is_waited_for() {
    assert_eq!(catalog(CatalogWait::Arrived), Ok(()));
    assert!(catalog(CatalogWait::Closed).unwrap_err().contains("closed"));
    assert!(catalog(CatalogWait::TimedOut).unwrap_err().contains("15s"));
}

#[test]
fn an_output_that_was_asked_for_has_to_open() {
    let busy = || Err("busy".to_string());
    assert_eq!(output(None, Ok(()), true), Ok(OutputPlan::Opened));
    assert_eq!(output(None, busy(), true), Ok(OutputPlan::Discard));
    assert_eq!(output(Some("hw:1"), Ok(()), false), Ok(OutputPlan::Discard));
    assert_eq!(
        output(Some("hw:1"), busy(), true),
        Err(
            "cannot open audio output 'hw:1': busy. Run `irl devices` for the ids this machine \
             accepts"
                .to_string()
        )
    );
}

#[test]
fn the_relay_is_started_as_told() {
    assert_eq!(RelayArgs::default().command_args(), ["--dev", "--bind", "[::]:4443"]);
    let quiet = RelayArgs { dev: false, ..RelayArgs::default() };
    assert_eq!(quiet.command_args(), ["--bind", "[::]:4443"]);
    let args = RelayArgs {
        dev: true,
        bind: "[::]:1".to_string(),
        http_bind: Some("[::]:2".to_string()),
    };
    assert_eq!(args.command_args(), ["--dev", "--bind", "[::]:1", "--http-bind", "[::]:2"]);
    assert_eq!(find_relay_binary(Some(("/x/relay".to_string(), true))), "/x/relay");
    assert_eq!(find_relay_binary(Some(("/x/relay".to_string(), false))), "iroh-live-relay");
    assert_eq!(find_relay_binary(None), "iroh-live-relay");
    assert_eq!(
        relay_outcome(RelayExit::NotStarted("x".to_string())),
        Err("failed to start iroh-live-relay: x. Is it installed?".to_string())
    );
    assert_eq!(
        relay_outcome(RelayExit::Ended { status: "1".to_string(), success: false }),
        Err("iroh-live-relay exited with 1".to_string())
    );
    assert_eq!(
        relay_outcome(RelayExit::Ended { status: "0".to_string(), success: true }),
        Ok(())
    );
}

#[test]
fn texts() {
    assert_eq!(text::parse_u32("+42"), Some(42));
    assert_eq!(text::parse_u32("4294967295"), Some(u32::MAX));
    assert_eq!(text::parse_u32("4294967296"), None);
    assert_eq!(text::parse_u32(""), None);
    assert_eq!(text::parse_u32("+"), None);
    assert_eq!(text::decimal_text(u64::MAX), "18446744073709551615");
    assert_eq!(text::decimal_text(0), "0");
    assert_eq!(text::trim(" \t a b\u{a0}\n"), "a b");
    assert_eq!(text::lines("a\r\nb\n\nc"), "a\r\nb\n\nc".lines().collect::<Vec<_>>());
    assert_eq!(text::join(&["a".to_string(), "b".to_string()], ", "), "a, b");
    assert_eq!(text::split_pattern("a : b : c", " : "), Some(("a", "b : c")));
    assert_eq!(text::split_first("a:b/c", &['/', ':']), Some(("a", "b/c")));
    assert!(text::is_before("a", "ab"));
    assert!(!text::is_before("b", "ab"));
    assert!(text::same("\u{e9}", "\u{e9}"));
}
