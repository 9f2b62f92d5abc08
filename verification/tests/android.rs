//! The Android demo.

use iroh_live_cli::android::{
    dimensions_or_zero, disconnect, log_line, pack_dimensions, priority, rgba_matches,
    session_parts, session_rtt, video_dimensions, Answered, Answering, CallerWait, CameraError,
    CameraFrame, CameraFrameSource, CameraSink, CodedSize, Counters, Drawn, Level, OpenStep, Opened, Opening, Playout, SessionInfo,
    SessionKind, Status, Teardown, Track,
};
use iroh_live_cli::nv12::{
    has_area, interleave_chroma, letterbox, nv12_upload, rotated, strip_stride, Fit, Nv12Error,
    Nv12Planes, Viewport,
};
use iroh_live_cli::rendition::Size;

#[test]
fn row_padding_is_stripped() {
    assert_eq!(strip_stride(&[1, 2, 9, 3, 4, 9], 2, 3, 2), [1, 2, 3, 4]);
    // A truncated last row is filled up, and a missing one is left out.
    assert_eq!(strip_stride(&[1, 2, 9, 3], 2, 3, 3), [1, 2, 3, 0]);
}

#[test]
fn an_upload_needs_whole_planes() {
    let upload = nv12_upload(vec![1, 2, 3, 0, 4, 5, 6, 0], 4, vec![7, 8, 7, 8], 4, 3, 2)
        .expect("both planes are whole");
    assert_eq!(upload.y, [1, 2, 3, 4, 5, 6]);
    assert_eq!(upload.uv, [7, 8, 7, 8]);
    assert_eq!((upload.uv_width, upload.uv_height), (2, 1));
    assert!(nv12_upload(vec![1, 2], 3, vec![7, 8, 7, 8], 4, 3, 2).is_none());
    assert!(nv12_upload(vec![0; 6], 3, vec![7, 8], 4, 3, 2).is_none());
    // A padded plane may end with its last row, and not a byte earlier.
    assert!(nv12_upload(vec![1], 3, vec![7, 8], 2, 2, 1).is_none());
    assert!(nv12_upload(vec![1, 2, 3, 0, 4, 5], 4, vec![7, 8, 7, 8], 4, 3, 2).is_none());
    assert!(nv12_upload(vec![1, 2, 3, 0, 4, 5, 6], 4, vec![7, 8, 7, 8], 4, 3, 2).is_some());
    assert!(nv12_upload(vec![0; 4], 2, vec![7], 3, 2, 2).is_none());
    let upload = nv12_upload(vec![1, 2, 9, 3, 4], 3, vec![7, 8], 3, 2, 2)
        .expect("both planes hold every row");
    assert_eq!((upload.y, upload.uv), (vec![1, 2, 3, 4], vec![7, 8]));
    // A picture without an area needs no bytes.
    assert!(nv12_upload(vec![], 3, vec![], 3, 0, 2).is_some());
    assert!(nv12_upload(vec![], 3, vec![], 3, 2, 0).is_some());
}

#[test]
fn a_picture_is_packed_for_the_encoder() {
    let planes = Nv12Planes {
        y: vec![1, 2, 0, 3, 4, 0],
        y_stride: 3,
        uv: vec![5, 6, 0],
        uv_stride: 3,
    };
    assert_eq!(planes.to_i420(2, 2, 6), Ok(vec![1, 2, 3, 4, 5, 6]));
    assert_eq!(planes.to_i420(4, 2, 12), Err(Nv12Error::Narrow));
    assert_eq!(planes.to_i420(2, 4, 12), Err(Nv12Error::Short));
    assert_eq!(
        planes.message(Nv12Error::Narrow, "4x2"),
        "strides 3/3 are narrower than 4x2"
    );
    assert_eq!(
        planes.message(Nv12Error::Short, "2x4"),
        "planes are 6/3 bytes, too short for 2x4 at strides 3/3"
    );
}

/// Packing and interleaving give the chroma back.
#[test]
fn chroma_survives_both_ways() {
    let planes = Nv12Planes {
        y: (0..16).collect(),
        y_stride: 4,
        uv: (20..28).collect(),
        uv_stride: 4,
    };
    let packed = planes.to_i420(4, 4, 24).expect("the planes are whole");
    assert_eq!(interleave_chroma(&packed[16..20], &packed[20..24]), planes.uv);
}

#[test]
fn a_picture_is_centered() {
    assert_eq!(rotated(4, 2, 90), (2, 4));
    assert_eq!(rotated(4, 2, 180), (4, 2));
    assert!(has_area(1, 1, 1, 1));
    assert!(!has_area(0, 1, 1, 1));
    assert_eq!(
        letterbox(100, 100, Some(Fit::Wider(50))),
        Viewport { x: 0, y: 25, width: 100, height: 50 }
    );
    assert_eq!(
        letterbox(100, 100, Some(Fit::Taller(51))),
        Viewport { x: 24, y: 0, width: 51, height: 100 }
    );
    assert_eq!(letterbox(0, 9, None), Viewport { x: 0, y: 0, width: 1, height: 9 });
}

#[test]
fn dimensions_are_one_number() {
    assert_eq!(pack_dimensions(1280, 720), (1280 << 32) | 720);
    assert_eq!(pack_dimensions(u32::MAX, 1), (i64::from(u32::MAX) << 32) | 1);
    let coded = CodedSize { width: Some(640), height: Some(360) };
    assert_eq!(video_dimensions(Some((2, 1)), Some(coded)), (2 << 32) | 1);
    assert_eq!(video_dimensions(None, Some(coded)), (640 << 32) | 360);
    let half = CodedSize { width: Some(640), height: None };
    assert_eq!(video_dimensions(None, Some(half)), 0);
    assert_eq!(dimensions_or_zero(None, Some(half)), 640 << 32);
    assert_eq!(dimensions_or_zero(None, None), 0);
}

#[test]
fn status_lines() {
    let status = Status {
        track: Track::Rendition("720p".to_string()),
        size: Some("1280x720".to_string()),
        cam_frames_pushed: 3,
        dec_frames_rendered: 4,
        rtt: Some(20),
        playout: Some(Playout::Latency(120)),
        elapsed: 9,
    };
    assert_eq!(
        status.status_line(),
        "trk:720p 1280x720 | cam:3 dec:4 | rtt:20ms lat:120ms | 9s"
    );
    let status = Status {
        track: Track::Decoding { decoder: "hw".to_string(), rendition: "video".to_string() },
        size: None,
        rtt: None,
        playout: Some(Playout::Buffer { millis: 80, jitter: "5".to_string() }),
        ..status
    };
    assert_eq!(
        status.status_line(),
        "dec:hw trk:video ? | cam:3 dec:4 |  buf:80ms jit:5ms | 9s"
    );
    let status = Status { track: Track::NoTrack, playout: None, ..status };
    assert_eq!(status.status_line(), "no track ? | cam:3 dec:4 |   | 9s");
    let status = Status { track: Track::NoVideo, ..status };
    assert!(status.status_line().starts_with("no video ?"));
    assert_eq!(session_rtt(Some(None), Some(Some(3))), None);
    assert_eq!(session_rtt(None, Some(Some(3))), Some(3));
}

#[test]
fn frames_are_counted() {
    let mut counters = Counters::new();
    assert!(counters.pushed());
    assert!(!counters.pushed());
    assert!(counters.drawn(4, 2));
    assert!(!counters.drawn(4, 2));
    assert!(counters.drawn(2, 4));
    assert_eq!(counters.dec_frames_rendered, 3);
    let mut slot = CameraFrameSource::new();
    slot.push_frame(1);
    slot.push_frame(2);
    assert_eq!(slot.pop_frame(), Some(2));
    assert_eq!(slot.pop_frame(), None);
    slot.start();
    assert!(slot.started);
    slot.stop();
    assert!(!slot.started);
    assert!(rgba_matches(24, 3, 2));
    assert!(!rgba_matches(24, 3, 3));
}

/// A camera frame has to have the declared size, and the newest one wins.
#[test]
fn a_camera_frame_has_the_declared_size() {
    let mut sink = CameraSink::new(Size::new(1, 2));
    assert_eq!(sink.push_rgba(vec![0; 7], 1), Err(CameraError::Frame));
    assert_eq!(sink.push_rgba(vec![0; 8], 1), Ok(()));
    assert_eq!(sink.push_rgba(vec![1; 8], 2), Ok(()));
    assert_eq!(sink.pending, Some(CameraFrame { rgba: vec![1; 8], micros: 2 }));
    sink.open = false;
    assert_eq!(sink.push_rgba(vec![2; 8], 3), Err(CameraError::Closed));
    assert_eq!(CameraError::Frame.message(), "invalid camera frame");
    assert_eq!(CameraError::Closed.message(), "the camera source has closed");
}

/// A step that a session can do without does not fail it.
#[test]
fn a_session_opens_step_by_step() {
    let mut opening = Opening::new(SessionKind::Dial);
    assert_eq!(opening.next(), Some(OpenStep::ParseCallTicket));
    let mut steps = vec![];
    loop {
        let step = opening.next().expect("a step is left");
        steps.push(step);
        let outcome = match step {
            OpenStep::OpenSpeaker | OpenStep::SetMicrophone => Err("busy".to_string()),
            _ => Ok(()),
        };
        match opening.took(outcome) {
            Opened::Next(_) => {}
            Opened::Ready => break,
            Opened::Failed(message) => panic!("{message}"),
        }
    }
    assert_eq!(steps.len(), 8);
    assert_eq!(steps[7], OpenStep::Play);
    assert_eq!(opening.next(), None);

    let mut opening = Opening::new(SessionKind::Connect);
    assert!(matches!(
        opening.took(Err("bad".to_string())),
        Opened::Failed(message) if message == "failed to parse ticket: bad"
    ));
    let mut call = Opening::media_call();
    for _ in 0..3 {
        call.took(Ok(()));
    }
    assert!(matches!(
        call.took(Err("busy".to_string())),
        Opened::Failed(message) if message == "failed to open microphone: busy"
    ));
    assert_eq!(Opening::media_connect().steps.len(), 5);
    assert_eq!(OpenStep::Bind.message("x"), "x");
}

#[test]
fn a_session_closes_in_order() {
    let parts = session_parts(SessionKind::Dial);
    assert_eq!(
        disconnect(parts),
        vec![
            Teardown::DropPlayer,
            Teardown::CloseCall,
            Teardown::CloseBroadcast,
            Teardown::ShutDown,
        ]
    );
    let parts = session_parts(SessionKind::Answer);
    assert_eq!(parts.frames, Drawn::Preview);
    assert_eq!(disconnect(parts)[0], Teardown::StopWaiting);
    assert_eq!(disconnect(session_parts(SessionKind::Direct)), vec![Teardown::CloseBroadcast]);
}

/// A session is tried once, and never one that this node dialed.
#[test]
fn the_first_caller_is_answered() {
    let session = |id, dialed| SessionInfo { id, dialed };
    let mut answering = Answering::new();
    assert_eq!(answering.look(vec![session(1, true)]), None);
    assert_eq!(answering.look(vec![session(1, true), session(2, false)]), Some(2));
    assert_eq!(answering.look(vec![session(1, true), session(2, false)]), None);
    assert_eq!(answering.look(vec![]), None);
    assert_eq!(answering.look(vec![session(2, false)]), Some(2));
    assert!(Answering::is_caller(CallerWait::Caller));
    assert!(!Answering::is_caller(CallerWait::TimedOut));
    assert!(!Answering::is_caller(CallerWait::NotACaller("x".to_string())));
    assert_eq!(Answering::settle(true, false), Answered::Installed);
    assert_eq!(Answering::settle(true, true), Answered::Closed);
    assert_eq!(Answering::settle(false, false), Answered::Closed);
}

#[test]
fn a_log_line_is_not_cut_short() {
    assert_eq!(log_line(b""), None);
    assert_eq!(log_line(b"a\0b\n"), Some(b"a?b\0".to_vec()));
    assert_eq!(log_line(b"a\n\n"), Some(b"a\n\0".to_vec()));
    assert_eq!(priority(Level::Error), 6);
    assert_eq!(priority(Level::Trace), 2);
}
