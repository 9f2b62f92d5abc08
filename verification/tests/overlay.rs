//! The statistics overlay and the playback controls.

use iroh_live_cli::args::{Latency, LatencyArg, PlaybackArgs};
use iroh_live_cli::backend::Backend;
use iroh_live_cli::overlay::{DebugOverlay, History, HISTORY_LEN};
use iroh_live_cli::{play, publish};
use iroh_live_cli::stats::{
    capture_publish, higher_is_better, is_less, lower_is_better, mode_text, net_playback, net_publish,
    render_playback, sent, slot_line, AudioEncodeStats, AudioStats, Bitrate, EncodeRow, Grade,
    Line, NetworkSample, PlaybackStats, PlayerStatus, PublishStats, PublishStatus, Reading,
    RenditionMode, RenditionState, Section, SlotState, StatCategory, StatusRow, VideoStats,
    FIFTEEN, FORTY, HUNDRED, SIXTEEN, TEN, THIRTY_THREE, TWENTY_FOUR, TWO, TWO_HUNDRED,
};
use iroh_live_cli::ui::{
    player_config, toggled_fullscreen, CatalogEntry, CursorIdle, Link, Playing, RemoteView,
    Serving,
};

fn reading(value: f64) -> Reading {
    Reading {
        bits: value.to_bits(),
        short: format!("{value:.0}"),
        long: format!("{value:.1}"),
    }
}

fn player_status() -> PlayerStatus {
    PlayerStatus {
        mode: RenditionMode::Auto { max_height: None },
        video: SlotState::Running,
        audio: SlotState::Off,
        rendition: Some("720p".to_string()),
        decoder: Some("vaapi".to_string()),
        switching_to: None,
        switch_error: None,
    }
}

fn stats() -> PlaybackStats {
    PlaybackStats {
        network: Some(NetworkSample {
            rtt: Some(reading(150.0)),
            min_rtt: Some("20.0".to_string()),
            loss: Some(reading(1.0)),
            delivery: None,
            path_generation: 2,
        }),
        video: Some(VideoStats {
            rendition: String::new(),
            decoder: "nvdec".to_string(),
            size: None,
            fps: Some(reading(30.0)),
            decode_time: None,
            frames: 10,
            skipped: 1,
        }),
        audio: None,
        latency: reading(90.0),
    }
}

/// The thresholds are the doubles they are named after.
#[test]
fn thresholds_are_doubles() {
    for (bits, value) in [
        (TWO, 2.0f64),
        (TEN, 10.0),
        (FIFTEEN, 15.0),
        (SIXTEEN, 16.0),
        (TWENTY_FOUR, 24.0),
        (THIRTY_THREE, 33.0),
        (FORTY, 40.0),
        (HUNDRED, 100.0),
        (TWO_HUNDRED, 200.0),
    ] {
        assert_eq!(bits, value.to_bits());
    }
    assert_eq!(lower_is_better(99.9f64.to_bits(), HUNDRED, TWO_HUNDRED), Grade::Good);
    assert_eq!(lower_is_better(100.0f64.to_bits(), HUNDRED, TWO_HUNDRED), Grade::Warn);
    assert_eq!(lower_is_better(200.0f64.to_bits(), HUNDRED, TWO_HUNDRED), Grade::Bad);
    assert_eq!(higher_is_better(24.5f64.to_bits(), TWENTY_FOUR, FIFTEEN), Grade::Good);
    assert_eq!(higher_is_better(24.0f64.to_bits(), TWENTY_FOUR, FIFTEEN), Grade::Warn);
    assert_eq!(higher_is_better(15.0f64.to_bits(), TWENTY_FOUR, FIFTEEN), Grade::Bad);
    // A figure below zero, or a negative zero, is low; what is no number is bad.
    for value in [-0.0f64, -1.0, -150.0, f64::NEG_INFINITY] {
        assert_eq!(lower_is_better(value.to_bits(), HUNDRED, TWO_HUNDRED), Grade::Good);
        assert_eq!(higher_is_better(value.to_bits(), TWENTY_FOUR, FIFTEEN), Grade::Bad);
    }
    for value in [f64::NAN, -f64::NAN] {
        assert_eq!(lower_is_better(value.to_bits(), HUNDRED, TWO_HUNDRED), Grade::Bad);
        assert_eq!(higher_is_better(value.to_bits(), TWENTY_FOUR, FIFTEEN), Grade::Bad);
    }
    assert_eq!(lower_is_better(f64::INFINITY.to_bits(), HUNDRED, TWO_HUNDRED), Grade::Bad);
    assert_eq!(higher_is_better(f64::INFINITY.to_bits(), TWENTY_FOUR, FIFTEEN), Grade::Good);
}

/// Bits order as the doubles do that they stand for.
#[test]
fn bits_order_as_doubles() {
    let values = [
        f64::NEG_INFINITY,
        -2.5,
        -1.0,
        -f64::MIN_POSITIVE,
        -0.0,
        0.0,
        f64::MIN_POSITIVE,
        1.0,
        2.5,
        f64::INFINITY,
        f64::NAN,
    ];
    for left in values {
        for right in values {
            assert_eq!(is_less(left.to_bits(), right.to_bits()), left < right, "{left} {right}");
        }
    }
}

#[test]
fn labels() {
    assert_eq!(StatCategory::Net.label(), "NET");
    assert_eq!(StatCategory::Capture.label(), "CAPTURE");
    assert_eq!(StatCategory::Render.label(), "RENDER");
    assert_eq!(StatCategory::Audio.label(), "AUDIO");
    assert_eq!(StatCategory::Time.label(), "TIME");
    assert_eq!(mode_text(&RenditionMode::Auto { max_height: Some(720) }), "auto, up to 720p");
    assert_eq!(mode_text(&RenditionMode::Pinned("a".to_string())), "pinned to a");
    assert_eq!(mode_text(&RenditionMode::Off), "off");
    assert_eq!(
        slot_line("video", &SlotState::Failed("no".to_string())),
        Line::colored("video: failed: no".to_string(), Grade::Bad)
    );
}

#[test]
fn the_network_section() {
    let section = net_playback(&stats().network);
    assert_eq!(section.summary, "NET rtt:150ms loss:1%");
    let texts: Vec<&str> = section.lines.iter().map(|line| line.text.as_str()).collect();
    assert_eq!(texts, ["rtt: 150.0 ms", "min rtt: 20.0 ms", "loss: 1.0%", "path generation: 2"]);
    assert_eq!(section.lines[0].grade, Grade::Warn);
    assert_eq!(section.lines[0].plot, Some(("net.rtt".to_string(), 150.0f64.to_bits())));
    assert_eq!(net_playback(&None).summary, "NET no link data");
}

/// A statistic that names nothing leaves the name to the status.
#[test]
fn the_render_section() {
    let section = render_playback(&stats(), &player_status());
    assert_eq!(section.summary, "RENDER 720p 30fps");
    let texts: Vec<&str> = section.lines.iter().map(|line| line.text.as_str()).collect();
    assert_eq!(
        texts,
        [
            "mode: auto",
            "video: running",
            "rendition: 720p",
            "decoder: nvdec",
            "fps: 30.0",
            "frames: 10, skipped: 1",
        ]
    );
    assert_eq!(section.lines[5].grade, Grade::Warn);
}

fn row(name: &str, bps: Option<u64>) -> EncodeRow {
    EncodeRow {
        name: name.to_string(),
        encoder: Some("x264".to_string()),
        size: Some("640x360".to_string()),
        fps: Some("30".to_string()),
        bitrate: bps.map(|bps| Bitrate { bps, shown: reading(bps as f64) }),
        encode_time: None,
        frames: 5,
        bytes: 100,
    }
}

/// Every rendition is listed once, in order, whoever knows of it.
#[test]
fn every_rendition_is_listed() {
    let status = PublishStatus {
        video: SlotState::Running,
        audio: SlotState::Off,
        renditions: vec![
            StatusRow { name: "a".to_string(), state: RenditionState::Idle },
            StatusRow { name: "c".to_string(), state: RenditionState::Encoding("hw".to_string()) },
        ],
    };
    let stats = PublishStats {
        source_fps: Some(reading(30.0)),
        renditions: vec![row("b", Some(1_000)), row("c", None)],
        audio: Some(AudioEncodeStats { codec: None, frames: 3, dropped: 2 }),
    };
    let section = capture_publish(&stats, &status);
    assert_eq!(section.summary, "CAPTURE src:30fps 1/3 encoding audio dropped:2");
    let texts: Vec<&str> = section.lines.iter().map(|line| line.text.as_str()).collect();
    assert_eq!(
        texts,
        [
            "video: running",
            "source: 30.0 fps",
            "a: idle",
            "b: x264 640x360 30fps 1000.0 5 frames",
            "c: x264 640x360 30fps 5 frames",
            "audio: off",
            "audio: 3 frames, 2 dropped",
        ]
    );
    let total = sent(&stats.renditions);
    assert_eq!((total.renditions, total.bps, total.bytes), (1, 1_000, 200));
    let net = net_publish(total, &reading(1_000.0), "200 B");
    assert_eq!(net.summary, "NET out:1000");
    assert_eq!(net.lines[0].text, "video out: 1000.0 over 1 renditions");
    assert_eq!(net.lines[1].text, "video sent: 200 B");
    assert_eq!(net_publish(sent(&vec![]), &reading(0.0), "").summary, "NET idle");
}

/// A series keeps its newest values, and one that is not fed is forgotten.
#[test]
fn the_history_stays_bounded() {
    let section = |key: &str, value: u64| {
        vec![Section::new(
            StatCategory::Net,
            vec![],
            vec![Line::metric(key.to_string(), String::new(), value, Grade::Plain)],
        )]
    };
    let mut history = History::default();
    history.record(&section("old", 7), 0);
    let mut now = 0;
    for value in 0..HISTORY_LEN as u64 + 5 {
        now += 100;
        history.record(&section("net.rtt", value), now);
    }
    history.record(&section("net.rtt", 999), now + 1);
    let values = history.get("net.rtt").expect("it was fed");
    assert_eq!(values.len(), HISTORY_LEN);
    assert_eq!(values[0], 5);
    assert_eq!(values[HISTORY_LEN - 1], HISTORY_LEN as u64 + 4);
    assert!(history.get("old").is_none());
}

#[test]
fn a_click_toggles_one_panel() {
    let mut overlay = DebugOverlay::new(&[StatCategory::Net, StatCategory::Render]);
    assert!(!overlay.any_expanded());
    overlay.click(StatCategory::Render);
    assert!(overlay.is_expanded(StatCategory::Render));
    assert!(!overlay.is_expanded(StatCategory::Net));
    let sections = overlay.show_playback(&stats(), &player_status(), 0).expect("it is visible");
    assert_eq!(sections.len(), 2);
    assert!(overlay.shows_panel(&sections[1]));
    assert!(!overlay.shows_panel(&sections[0]));
    assert!(overlay.sparkline(&sections[0].lines[0]).is_none());
    overlay.show_playback(&stats(), &player_status(), 100);
    assert_eq!(overlay.sparkline(&sections[0].lines[0]).map(|values| values.len()), Some(2));
    assert!(overlay.sparkline(&sections[0].lines[1]).is_none());
    overlay.click(StatCategory::Render);
    assert!(!overlay.any_expanded());
    overlay.toggle();
    assert!(overlay.show_playback(&stats(), &player_status(), 0).is_none());
}

#[test]
fn an_audio_section() {
    let mut overlay = DebugOverlay::new(&[StatCategory::Audio]);
    let stats = PlaybackStats {
        audio: Some(AudioStats {
            rendition: "audio".to_string(),
            buffered: reading(50.0),
            peak: reading(0.5),
            frames: 9,
        }),
        ..stats()
    };
    let sections = overlay.show_playback(&stats, &player_status(), 0).expect("it is visible");
    assert_eq!(sections[0].summary, "AUDIO buf:50ms lat:90ms");
    let texts: Vec<&str> = sections[0].lines.iter().map(|line| line.text.as_str()).collect();
    assert_eq!(
        texts,
        [
            "audio: off",
            "rendition: audio",
            "buffered: 50.0 ms",
            "peak: 0.5",
            "frames: 9",
            "latency: 90.0 ms",
        ]
    );
}

/// The controls hide only when the cursor rested for a while.
#[test]
fn the_overlay_hides_only_when_idle() {
    let mut idle = CursorIdle::new(0);
    assert!(idle.update(false, false, 2_000));
    assert!(!idle.update(false, false, 2_001));
    assert!(idle.update(false, true, 2_100));
    assert!(idle.update(true, false, 9_000));
    assert!(toggled_fullscreen(None));
    assert!(!toggled_fullscreen(Some(true)));
}

#[test]
fn the_link_is_told() {
    assert_eq!(Link::lines(&None), ["no link serves the broadcast"]);
    let direct =
        Serving { relay: false, relayed: false, arriving: Some("3.0 Mbit/s".to_string()) };
    assert_eq!(Link::lines(&Some(direct)), ["direct", "arriving: 3.0 Mbit/s"]);
    let relay = Serving { relay: true, relayed: true, arriving: None };
    assert_eq!(Link::lines(&Some(relay)), ["via a relay link"]);
    let mut link = Link { refreshed: None };
    assert!(link.refresh(0));
    assert!(!link.refresh(499));
    assert!(link.refresh(500));
}

/// One rendition is selected, and the decoder that runs is shown.
#[test]
fn one_rendition_is_selected() {
    let mut view = RemoteView::new(Backend::Auto).with_link();
    assert!(!view.overlay_expanded());
    let catalog = Some(vec![
        CatalogEntry { name: "720p".to_string(), label: Some("720p (3 Mbit/s)".to_string()) },
        CatalogEntry { name: "360p".to_string(), label: None },
    ]);
    let playing = Playing {
        mode: RenditionMode::Pinned("360p".to_string()),
        rendition: Some("360p".to_string()),
        decoder: Some("vaapi".to_string()),
        audio: true,
    };
    let controls = view.controls(&playing, &catalog, &["vaapi"]).expect("there is a catalog");
    assert_eq!(controls.rendition, "360p");
    assert_eq!(controls.decoder, "auto (vaapi)");
    let selected: Vec<bool> = controls.renditions.iter().map(|entry| entry.selected).collect();
    assert_eq!(selected, [false, false, true]);
    assert_eq!(controls.renditions[1].text, "720p (3 Mbit/s)");
    assert_eq!(controls.decoders.len(), 4);
    assert!(controls.decoders[0].selected);
    assert!(controls.volume);
    view.set_decoder(Backend::Named("vaapi"));
    let auto = Playing { mode: RenditionMode::Auto { max_height: None }, ..playing };
    let controls = view.controls(&auto, &catalog, &["vaapi"]).expect("there is a catalog");
    assert_eq!(controls.rendition, "Auto (360p)");
    assert_eq!(controls.decoder, "vaapi");
    assert!(controls.decoders[3].selected);
    assert!(view.controls(&auto, &None, &["vaapi"]).is_none());
    assert!(view.controls(&auto, &Some(vec![]), &["vaapi"]).is_none());
}

#[test]
fn a_player_is_set_up_from_its_flags() {
    let args = PlaybackArgs { decoder: Backend::Software, latency: LatencyArg::Smooth };
    let config = player_config(&args, true, Latency { min: 1, max: 2 });
    assert_eq!(config.decoder, Backend::Software);
    assert_eq!(config.latency, Latency { min: 400, max: 600 });
    assert!(config.audio);
}

/// The timeline is copied only while the TIME panel is open, and the link lines
/// are refreshed only when they are due.
#[test]
fn the_timeline_is_copied_while_its_panel_is_open() {
    let mut view = RemoteView::new(Backend::Auto);
    assert!(!view.overlay.timeline_open());
    let pass = view.draw_overlay(&None, 0);
    assert!(pass.link.is_none() && !pass.timeline);
    view.overlay.click(StatCategory::Time);
    assert!(view.draw_overlay(&None, 0).timeline);
    view.overlay.click(StatCategory::Time);
    let mut view = view.with_link();
    let pass = view.draw_overlay(&None, 1_000);
    assert_eq!(pass.link, Some(vec!["no link serves the broadcast".to_string()]));
    assert!(!pass.timeline);
    assert_eq!(view.draw_overlay(&None, 1_499).link, None);
    assert!(view.draw_overlay(&None, 1_500).link.is_some());
}

/// Each window enables its own sections.
#[test]
fn windows_enable_their_sections() {
    let mut play = play::overlay();
    for category in [StatCategory::Net, StatCategory::Render, StatCategory::Time] {
        play.click(category);
        assert!(play.is_expanded(category));
    }
    play.click(StatCategory::Audio);
    assert!(!play.is_expanded(StatCategory::Audio));
    let mut publish = publish::overlay();
    publish.click(StatCategory::Capture);
    publish.click(StatCategory::Time);
    assert!(publish.is_expanded(StatCategory::Capture));
    assert!(!publish.timeline_open());
}
