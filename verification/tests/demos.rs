//! The demos: small boards, windows without a toolkit, and headless runs.

use iroh_live_cli::args::RemoteArgs;
use iroh_live_cli::codec_test::{
    frame_file, heading, make_encoder_config, saved_line, tests_to_run, CodecTest, DecodeAction, DecodeEvent,
    DecodeRun, EncodeAction, EncodeEvent, EncodeTally, EncoderConfig,
};
use iroh_live_cli::epaper::{display_qr, display_test_pattern, qr_layout, DisplayBuffer};
use iroh_live_cli::epd::{clear, display, init_full, sleep, Op, BUF_LEN, HEIGHT, WIDTH};
use iroh_live_cli::frame_view::{
    create_egui_wgpu_config, FrameView, GpuFound, GpuSetup, Picture, Rendered,
    VideoView,
};
use iroh_live_cli::headless::{unknown_codec, Loopback};
use iroh_live_cli::libcamera::{CaptureLog, LibcameraSource};
use iroh_live_cli::pi::{
    publishing, publishing_line, watch, watch_ticket, PiPublish, PublishEvent, PublishNote,
    PublishOpts, PublishStep, Rendering, WatchEvent, WatchNext,
};
use iroh_live_cli::playback::CatalogWait;
use iroh_live_cli::viewer::{
    choose_output, open_card, output_line, selected_rtt, stats_line, window_event, ConnectorProbe,
    EncoderProbe, Output, PathInfo, Texture, Upload, Viewer, WindowAct, WindowEvent,
};

/// Whether a pixel of a display buffer is black.
fn black(buffer: &DisplayBuffer, x: usize, y: usize) -> bool {
    buffer.buffer()[y * 16 + x / 8] & (0x80 >> (x % 8)) == 0
}

#[test]
fn pixels_are_bits() {
    let mut buffer = DisplayBuffer::new_white();
    assert_eq!(buffer.buffer().len(), BUF_LEN);
    assert!(buffer.buffer().iter().all(|byte| *byte == 0xff));
    buffer.draw_pixel(9, 1, true);
    assert_eq!(buffer.buffer()[17], 0b1011_1111);
    assert!(black(&buffer, 9, 1));
    buffer.draw_pixel(9, 1, false);
    assert_eq!(buffer.buffer()[17], 0xff);
    buffer.draw_pixel(WIDTH, 0, true);
    buffer.draw_pixel(0, HEIGHT, true);
    assert!(buffer.buffer().iter().all(|byte| *byte == 0xff));
    buffer.fill(0, 0, 2, 2, true);
    assert!(black(&buffer, 1, 1) && !black(&buffer, 2, 1));
}

/// A code that fits is drawn whole, with its finder patterns in the corners.
#[test]
fn a_code_is_drawn_whole() {
    let text = "iroh-live:hello";
    let code = qrcode::QrCode::new(text).expect("the text fits");
    let layout = qr_layout(code.width());
    let drawn = display_qr(text).expect("the text fits");
    let colors = code.to_colors();
    for row in 0..code.width() {
        for column in 0..code.width() {
            let x = layout.left as usize + column * layout.scale as usize;
            let y = layout.top as usize + row * layout.scale as usize;
            assert_eq!(
                black(&drawn, x, y),
                colors[row * code.width() + column] == qrcode::Color::Dark,
                "row {row}, column {column}"
            );
        }
    }
    assert!(display_qr(&"x".repeat(8_000)).is_err());
}

/// The label is drawn outside the code.
#[test]
fn a_label_is_drawn() {
    let text = "iroh-live:hello";
    let layout = qr_layout(qrcode::QrCode::new(text).expect("the text fits").width());
    let drawn = display_qr(text).expect("the text fits");
    let mut outside = 0;
    for y in 0..HEIGHT as usize {
        for x in 0..WIDTH as usize {
            let inside = (layout.left as usize..(layout.left + layout.side) as usize).contains(&x)
                && (layout.top as usize..(layout.top + layout.side) as usize).contains(&y);
            if !inside && black(&drawn, x, y) {
                outside += 1;
            }
        }
    }
    assert!(outside > 0);
}

#[test]
fn a_test_pattern_is_a_checkerboard() {
    let pattern = display_test_pattern();
    for y in 0..HEIGHT as usize {
        for x in 0..WIDTH as usize {
            assert_eq!(black(&pattern, x, y), (x / 20) % 2 != (y / 20) % 2, "{x}, {y}");
        }
    }
}

/// Chunks carry the data, in order.
#[test]
fn a_buffer_is_sent_whole() {
    let buffer: Vec<u8> = (0..BUF_LEN).map(|i| (i % 251) as u8).collect();
    let mut sent: Vec<u8> = Vec::new();
    let mut data = false;
    for op in display(&buffer) {
        match op {
            Op::DataMode(on) => data = on,
            Op::Write(bytes) if data && bytes.len() > 8 => sent.extend(bytes),
            _ => {}
        }
    }
    assert_eq!(sent, buffer);
    assert!(init_full().contains(&Op::WaitBusy));
    assert!(sleep().iter().any(|op| matches!(op, Op::Pause(_))));
    let white: Vec<Vec<u8>> = clear(0xff)
        .into_iter()
        .filter_map(|op| match op {
            Op::Write(bytes) if bytes.len() == BUF_LEN => Some(bytes),
            _ => None,
        })
        .collect();
    assert!(!white.is_empty());
    assert!(white.iter().all(|bytes| bytes.iter().all(|byte| *byte == 0xff)));
}

#[test]
fn the_planes_are_the_frame() {
    let mut source = LibcameraSource::new(4, 2, 1);
    assert_eq!(source.frame_size, 12);
    let line = source.start().join(" ");
    assert!(line.contains("--width 4 --height 2 --framerate 1"));
    let frame: Vec<u8> = (0..12).collect();
    let (planes, log) = source.pop_frame(&frame);
    assert_eq!(planes.y, [0, 1, 2, 3, 4, 5, 6, 7]);
    assert_eq!((planes.u, planes.v), (vec![8, 9], vec![10, 11]));
    assert_eq!(log, CaptureLog::First);
    for _ in 0..3 {
        assert_eq!(source.pop_frame(&frame).1, CaptureLog::Quiet);
    }
    assert_eq!(source.pop_frame(&frame).1, CaptureLog::Running);
}

#[test]
fn codec_tests_by_name() {
    assert_eq!(tests_to_run("rt"), Ok(vec![CodecTest::Roundtrip]));
    assert_eq!(
        tests_to_run("all"),
        Ok(vec![CodecTest::Encode, CodecTest::Decode, CodecTest::Roundtrip])
    );
    assert_eq!(
        tests_to_run("x"),
        Err("unknown test: x. Use encode, decode, roundtrip, or all.".to_string())
    );
    assert!(heading(CodecTest::Encode, 30, 640, 360).contains("640x360"));
    assert!(frame_file("a", 2, 3).contains("2x3"));
    assert_eq!(
        saved_line("out/a.rgba", 2, 3),
        "    saved out/a.rgba (view: ffplay -f rawvideo -pixel_format rgba -video_size 2x3 \
         out/a.rgba)"
    );
    let preset = EncoderConfig { width: 640, height: 360, framerate: 25, bitrate: Some(1) };
    assert_eq!(
        make_encoder_config(preset, 1920, 1080),
        EncoderConfig { width: 1920, height: 1080, framerate: 30, bitrate: Some(1) }
    );
}

#[test]
fn an_encoder_is_fed_and_asked() {
    let mut tally = EncodeTally::new(1);
    assert_eq!(tally.start(), EncodeAction::Feed);
    assert_eq!(tally.step(EncodeEvent::Fed), (None, EncodeAction::Ask));
    assert_eq!(
        tally.step(EncodeEvent::Packet { keyframe: true, len: 7 }),
        (None, EncodeAction::Ask)
    );
    let (line, next) = tally.step(EncodeEvent::Dry);
    assert_eq!(line, Some("  frame 1: 1 packets, 1 keyframes, 7 bytes".to_string()));
    assert_eq!(next, EncodeAction::Finish);
    assert_eq!(tally.finish(), Ok(()));
    assert_eq!(
        EncodeTally::new(1).finish(),
        Err("encoder produced no packets".to_string())
    );
    let mut dull = EncodeTally::new(1);
    dull.packet(false, 1);
    assert_eq!(dull.finish(), Err("encoder produced no keyframes".to_string()));
}

/// A drain ends after ten looks that found nothing.
#[test]
fn a_decoder_is_drained() {
    let mut run = DecodeRun::new(false, 1);
    assert_eq!(run.start(), DecodeAction::Feed(0));
    assert_eq!(run.step(DecodeEvent::Fed).1, DecodeAction::Ask);
    assert!(matches!(run.step(DecodeEvent::Frame).1, DecodeAction::Save(name) if name == "v4l2dec_0000"));
    assert_eq!(run.step(DecodeEvent::Saved).1, DecodeAction::Ask);
    assert_eq!(run.step(DecodeEvent::Dry).1, DecodeAction::Pause);
    for _ in 0..9 {
        assert_eq!(run.step(DecodeEvent::Paused).1, DecodeAction::Ask);
        assert_eq!(run.step(DecodeEvent::Dry).1, DecodeAction::Pause);
    }
    assert_eq!(run.step(DecodeEvent::Paused).1, DecodeAction::Ask);
    assert_eq!(run.step(DecodeEvent::Dry).1, DecodeAction::Finish);
    assert_eq!(run.tally.finish(), Ok(()));
    assert!(DecodeRun::new(true, 1).tally.finish().unwrap_err().contains("roundtrip"));
}

#[test]
fn a_frame_is_uploaded_once() {
    let mut viewer = Viewer::new(0);
    assert!(!viewer.try_upload_frame(None));
    assert!(viewer.try_upload_frame(Some(1)));
    assert!(!viewer.try_upload_frame(Some(1)));
    assert!(viewer.try_upload_frame(Some(2)));
    assert_eq!(viewer.stats(999), None);
    assert_eq!(viewer.stats(1_000), Some((2, 1_000)));
    assert_eq!(viewer.stats(2_000), Some((0, 1_000)));
    let paths = [
        PathInfo { selected: false, rtt: Some(9) },
        PathInfo { selected: true, rtt: Some(4) },
    ];
    assert_eq!(selected_rtt(&paths), 4);
    assert_eq!(selected_rtt(&[]), 0);
    assert_eq!(stats_line("30", 4, "vaapi"), "fps: 30  rtt: 4ms  decoder: vaapi");
    let mut texture = Texture::new();
    assert_eq!(texture.upload(2, 2), Upload::Allocate);
    assert_eq!(texture.upload(2, 2), Upload::Replace);
}

#[test]
fn a_window_is_resized_and_closed() {
    assert_eq!(window_event(WindowEvent::CloseRequested, false), WindowAct::Exit);
    let escape = WindowEvent::Key { escape: true, pressed: true };
    assert_eq!(window_event(escape, false), WindowAct::Exit);
    assert_eq!(window_event(WindowEvent::Resized(0, 7), true), WindowAct::Resize(1, 7));
    assert_eq!(window_event(WindowEvent::Resized(0, 7), false), WindowAct::Nothing);
    assert_eq!(window_event(WindowEvent::RedrawRequested, true), WindowAct::Redraw);
}

#[test]
fn the_first_display_is_driven() {
    assert_eq!(open_card(0), Ok("/dev/dri/card1"));
    assert_eq!(open_card(1), Ok("/dev/dri/card0"));
    assert_eq!(open_card(2), Err("no DRM device found".to_string()));
    let connected = |encoder| ConnectorProbe::Connected {
        has_mode: true,
        width: 1920,
        height: 1080,
        encoder,
    };
    let output = choose_output(&[
        ConnectorProbe::Disconnected,
        connected(EncoderProbe::Crtc(5)),
        ConnectorProbe::Failed,
    ]);
    assert_eq!(output, Ok(Output { connector: 1, crtc: 5, width: 1920, height: 1080 }));
    assert_eq!(output_line(output.unwrap()), "rendering to HDMI (1920x1080)");
    assert_eq!(choose_output(&[connected(EncoderProbe::Idle)]), Err("no CRTC".to_string()));
    assert_eq!(choose_output(&[connected(EncoderProbe::Missing)]), Err("no encoder".to_string()));
    assert_eq!(choose_output(&[connected(EncoderProbe::Failed)]), Err("get_encoder".to_string()));
    assert_eq!(choose_output(&[ConnectorProbe::Failed]), Err("get_connector".to_string()));
    assert_eq!(choose_output(&[]), Err("no connected display found".to_string()));
}

/// A ticket that is shown is cleared in the end, and a display that is missing is
/// left alone.
#[test]
fn a_shown_ticket_is_cleared() {
    let (mut state, step) = PiPublish::new(true);
    assert_eq!(step, PublishStep::Draw);
    assert_eq!(
        state.step(PublishEvent::Drawn(Ok(()))),
        (PublishStep::Wait { refresh: true }, PublishNote::Displayed)
    );
    assert_eq!(state.step(PublishEvent::RefreshDue), (PublishStep::Draw, PublishNote::Nothing));
    assert_eq!(
        state.step(PublishEvent::Drawn(Err("x".to_string()))),
        (PublishStep::Wait { refresh: true }, PublishNote::NotRefreshed)
    );
    assert_eq!(state.step(PublishEvent::Interrupted), (PublishStep::Clear, PublishNote::Nothing));
    assert_eq!(
        state.step(PublishEvent::Cleared(Ok(()))),
        (PublishStep::Close, PublishNote::Cleared)
    );

    let (mut state, _) = PiPublish::new(true);
    state.step(PublishEvent::Drawn(Err("missing".to_string())));
    assert_eq!(state.step(PublishEvent::Interrupted), (PublishStep::Close, PublishNote::Nothing));
    assert_eq!(publishing_line("t"), "publishing at t");
    let opts = PublishOpts::default();
    assert_eq!(publishing(&opts).bitrate, u64::from(opts.bitrate));
}

#[test]
fn watching_on_the_board() {
    let usage = "Usage: watch --ticket <TICKET> or --endpoint-id <ID> --name <NAME>";
    let remote = RemoteArgs { ticket: None, endpoint_id: None, broadcast_name: None };
    assert_eq!(watch_ticket(&remote), Err(usage.to_string()));
    let next = |event| watch(event, true, false, false);
    assert_eq!(next(WatchEvent::Subscribed { direct: true }), Ok(WatchNext::AwaitCatalog));
    assert!(next(WatchEvent::Subscribed { direct: false }).is_err());
    assert_eq!(next(WatchEvent::Catalog(CatalogWait::Arrived)), Ok(WatchNext::Play));
    assert!(next(WatchEvent::Catalog(CatalogWait::Closed)).is_err());
    assert_eq!(next(WatchEvent::Playing), Ok(WatchNext::Render(Rendering::Hdmi)));
    assert!(watch(WatchEvent::Playing, false, false, false).is_err());
    assert_eq!(
        watch(WatchEvent::Playing, false, true, true),
        Ok(WatchNext::Render(Rendering::Window { fullscreen: true }))
    );
}

#[test]
fn a_loopback_counts_its_frames() {
    let mut run = Loopback::new(2, 1, 100);
    assert_eq!(run.remaining(600), Some(1_500));
    assert_eq!(run.remaining(9_000), Some(0));
    assert!(!run.healthy());
    let report = run.frame(150);
    assert_eq!((report.first, report.due), (Some(50), false));
    let report = run.frame(1_100);
    assert_eq!((report.first, report.due, report.frames, report.elapsed), (None, true, 2, 1_000));
    assert!(run.healthy());
    assert_eq!(Loopback::new(0, 1, 0).remaining(5), None);
    assert_eq!(
        unknown_codec("x", &["h264".to_string(), "av1".to_string()]),
        "unknown video codec 'x'. Available: h264, av1"
    );
}

#[test]
fn a_failed_frame_keeps_the_picture() {
    let mut view = FrameView::new(true);
    assert_eq!(view.image(), Picture::Placeholder);
    assert!(!view.render_frame(Some((4, 2))));
    assert!(view.render_frame(None));
    assert!(!view.render_frame(None));
    assert_eq!(view.image(), Picture::Frame(4, 2));
    let mut none = FrameView::new(false);
    none.render_frame(Some((4, 2)));
    assert_eq!(none.image(), Picture::Placeholder);
}

/// A new stream keeps the picture until it delivers a frame.
#[test]
fn a_new_stream_keeps_the_picture() {
    let mut view = VideoView::new(true, true);
    assert_eq!(view.render(None).picture, Picture::Placeholder);
    assert_eq!(view.render(Some(Some((4, 2)))).picture, Picture::Frame(4, 2));
    view.set_frames(false);
    assert_eq!(view.render(None).picture, Picture::Frame(4, 2));
    view.set_frames(true);
    assert_eq!(view.render(Some(None)).picture, Picture::Frame(4, 2));
    assert_eq!(view.render(Some(Some((2, 2)))).picture, Picture::Frame(2, 2));
}

/// A run of failures warns once, and a view without a stream never warns.
#[test]
fn a_run_of_failures_warns_once() {
    let mut view = VideoView::new(true, true);
    let failed = Rendered { picture: Picture::Placeholder, warn: true };
    assert_eq!(view.render(Some(None)), failed);
    assert!(!view.render(Some(None)).warn);
    assert!(!view.render(None).warn);
    assert!(!view.render(Some(Some((4, 2)))).warn);
    assert!(view.render(Some(None)).warn);
    assert!(!VideoView::new(false, true).render(Some(None)).warn);
    assert!(!VideoView::new(true, false).render(Some(None)).warn);
}

#[test]
fn the_gpu_is_set_up_as_found() {
    let found = GpuFound { linux: true, requested: None, adapter: true, dma_buf: true, device: true };
    assert_eq!(create_egui_wgpu_config(found), GpuSetup::Vulkan { dma_buf: true });
    assert_eq!(
        create_egui_wgpu_config(GpuFound { linux: false, ..found }),
        GpuSetup::AdapterLimits
    );
    assert_eq!(
        create_egui_wgpu_config(GpuFound { requested: Some(false), ..found }),
        GpuSetup::AdapterLimits
    );
    assert_eq!(
        create_egui_wgpu_config(GpuFound { device: false, ..found }),
        GpuSetup::AdapterLimits
    );
}
