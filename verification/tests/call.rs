//! The call window.

use iroh_live_cli::args::CaptureArgs;
use iroh_live_cli::call::{
    entered, may_set_video, reach, restore_step, video_running, watch_callers, Answer, Arrival,
    CallState, Camera, Direction, Reached, RestoreNext, Restored, ScanFrames, Screen, SlotEvent,
    SlotState, RESTORE_DELAY,
};
use iroh_live_cli::ids::{BroadcastTicket, EndpointId};
use iroh_live_cli::peers::PeerSet;
use iroh_live_cli::source_spec::VideoSourceSpec;

/// Returns capture flags with the given `--video` specifier.
fn capture(video: &str) -> CaptureArgs {
    CaptureArgs { video: video.to_string(), ..Default::default() }
}

fn id(n: u128) -> EndpointId {
    EndpointId { high: n, low: 0 }
}

fn ticket(n: u128) -> BroadcastTicket {
    BroadcastTicket::new(id(n), "call".to_string())
}

/// The message on the waiting screen.
fn message(state: &CallState) -> Option<String> {
    match state.screen() {
        Screen::Waiting { message, .. } => message.clone(),
        other => panic!("not waiting: {other:?}"),
    }
}

/// A camera publisher lends its device to the scan screen.
#[test]
fn a_camera_publisher_hands_the_scan_screen_its_device() {
    assert_eq!(Camera::of(&capture("cam"), None), Camera::Publisher);
    assert_eq!(Camera::of(&capture("cam:0"), None), Camera::Publisher);
}

/// A publisher without a camera leaves the camera free.
#[test]
fn a_publisher_of_anything_else_keeps_its_source() {
    assert_eq!(Camera::of(&capture("screen"), None), Camera::Free);
    assert_eq!(Camera::of(&capture("test"), None), Camera::Free);
    assert_eq!(Camera::of(&capture("none"), None), Camera::Free);
}

/// A scan camera on another device leaves the publisher alone.
///
/// One that may be the same device is shared.
#[test]
fn a_scan_camera_of_its_own_leaves_the_publisher_alone() {
    let usb = VideoSourceSpec::Camera(Some("usb".to_string()));
    assert_eq!(Camera::of(&capture("cam:0"), Some(&usb)), Camera::Free);
    assert_eq!(
        Camera::of(&capture("cam:usb"), Some(&usb)),
        Camera::Publisher
    );
    assert_eq!(Camera::of(&capture("cam"), Some(&usb)), Camera::Publisher);
    assert_eq!(Camera::of(&capture("screen"), Some(&usb)), Camera::Free);
}

/// A `--video` that does not parse holds no camera.
#[test]
fn a_specifier_that_never_opened_anything_holds_nothing() {
    assert_eq!(Camera::of(&capture("nonsense:"), None), Camera::Free);
}

#[test]
fn a_dial_that_connects_is_a_call() {
    let mut state = CallState::new(Camera::Free, true);
    assert_eq!(state.dial(id(1)), Direction::Outgoing(id(1)));
    assert!(matches!(state.screen(), Screen::Calling { name } if *name == id(1).fmt_short()));
    state.start(Direction::Outgoing(id(1)), Ok(()));
    assert_eq!(state.poll_pending(Arrival::Empty), None);
    assert_eq!(state.poll_pending(Arrival::Ready(Answer::Connected)), Some(id(1)));
    assert!(matches!(state.screen(), Screen::InCall { peer } if *peer == id(1)));
    state.poll_hangup(false);
    assert!(matches!(state.screen(), Screen::InCall { .. }));
    state.poll_hangup(true);
    assert_eq!(message(&state), Some("the call ended".to_string()));
    assert!(state.is_shunned(&id(1)));
}

/// A peer whose call ended is not answered again while it still rings.
#[test]
fn an_ended_call_is_not_answered_again() {
    let mut ringing = PeerSet::new();
    ringing.insert(id(1));
    let mut state = CallState::new(Camera::Free, true);
    assert_eq!(state.answer_next(&ringing), Some(Direction::Incoming(id(1))));
    state.start(Direction::Incoming(id(1)), Ok(()));
    assert_eq!(state.answer_next(&ringing), None);
    state.poll_pending(Arrival::Ready(Answer::Connected));
    state.hang_up("bye");
    assert_eq!(state.answer_next(&ringing), None);
    ringing.remove(&id(1));
    assert_eq!(state.answer_next(&ringing), None);
    ringing.insert(id(1));
    assert_eq!(state.answer_next(&ringing), Some(Direction::Incoming(id(1))));
}

/// A failed answer says nothing, a failed dial does, and both shun the peer.
#[test]
fn every_end_shuns_the_peer() {
    let mut state = CallState::new(Camera::Free, true);
    state.start(Direction::Incoming(id(1)), Ok(()));
    state.poll_pending(Arrival::Ready(Answer::Failed("no".to_string())));
    assert_eq!(message(&state), None);
    assert!(state.is_shunned(&id(1)));

    let direction = state.dial(id(2));
    state.start(direction, Ok(()));
    state.poll_pending(Arrival::Closed);
    assert_eq!(message(&state), Some("the call attempt stopped".to_string()));
    assert!(state.is_shunned(&id(2)));

    let direction = state.dial(id(3));
    state.start(direction, Err("not offered".to_string()));
    assert_eq!(message(&state), Some("not offered".to_string()));
    assert!(state.is_shunned(&id(3)));
}

#[test]
fn a_dial_replaces_the_attempt() {
    let mut state = CallState::new(Camera::Free, true);
    let direction = state.dial(id(1));
    state.start(direction, Ok(()));
    state.dial(id(2));
    assert_eq!(state.pending(), None);
    assert!(state.is_shunned(&id(1)));
}

#[test]
fn a_camera_without_frames_is_taken_and_given_back() {
    let mut state = CallState::new(Camera::Publisher, false);
    assert_eq!(state.enter_scan(), ScanFrames::Taken);
    assert_eq!(state.camera_epoch(), 1);
    assert!(!state.settle_camera());
    assert_eq!(state.poll_scan(Some(&ticket(4))), Some(Direction::Outgoing(id(4))));
    assert!(state.settle_camera());
    assert!(!state.settle_camera());
    state.poll_restore(Arrival::Ready(Ok(true)));
    state.hang_up("done");
    assert_eq!(state.enter_scan(), ScanFrames::Borrowed);
}

#[test]
fn a_lost_camera_is_told_on_the_waiting_screen() {
    let mut state = CallState::new(Camera::Publisher, false);
    state.enter_scan();
    state.leave_scan();
    assert!(state.settle_camera());
    state.poll_restore(Arrival::Ready(Err("busy".to_string())));
    state.show_notice();
    assert_eq!(
        message(&state),
        Some("the camera did not come back after the scan: busy".to_string())
    );
}

#[test]
fn other_frames_owe_nothing() {
    let mut state = CallState::new(Camera::Free, false);
    assert_eq!(state.enter_scan(), ScanFrames::Opened);
    state.leave_scan();
    assert!(!state.settle_camera());
    assert_eq!(state.camera_epoch(), 0);
    assert!(may_set_video(1, 1));
    assert!(!may_set_video(2, 1));
}

#[test]
fn restores_are_retried_a_few_times() {
    assert_eq!(RESTORE_DELAY, 1);
    assert!(matches!(
        restore_step(1, Restored::Running(true)),
        RestoreNext::Report(Ok(true))
    ));
    assert!(matches!(restore_step(1, Restored::Superseded), RestoreNext::Abandon));
    assert!(matches!(
        restore_step(1, Restored::Failed("busy".to_string())),
        RestoreNext::Retry(RESTORE_DELAY)
    ));
    assert!(matches!(
        restore_step(5, Restored::Failed("busy".to_string())),
        RestoreNext::Report(Err(_))
    ));
}

#[test]
fn a_slot_runs_or_says_why_not() {
    assert_eq!(video_running(SlotEvent::State(SlotState::Running)), Some(Ok(())));
    assert_eq!(
        video_running(SlotEvent::State(SlotState::Failed("no".to_string()))),
        Some(Err("the camera failed: no".to_string()))
    );
    assert_eq!(video_running(SlotEvent::State(SlotState::Other)), None);
    assert_eq!(
        video_running(SlotEvent::TimedOut),
        Some(Err("the camera did not start within 10s".to_string()))
    );
    assert_eq!(
        video_running(SlotEvent::Closed),
        Some(Err("the broadcast closed".to_string()))
    );
}

#[test]
fn a_peer_is_reached_or_not() {
    assert!(matches!(reach(Reached::Playing), Answer::Connected));
    assert!(matches!(reach(Reached::Failed("no".to_string())), Answer::Failed(text) if text == "no"));
    assert!(matches!(reach(Reached::TimedOut), Answer::Failed(_)));
}

#[test]
fn callers_come_and_go() {
    let mut ringing = PeerSet::new();
    watch_callers(&mut ringing, id(9), &Some(ticket(1)), true);
    assert!(ringing.contains(&id(1)));
    watch_callers(&mut ringing, id(9), &Some(ticket(9)), true);
    assert!(!ringing.contains(&id(9)));
    watch_callers(&mut ringing, id(9), &None, true);
    watch_callers(&mut ringing, id(9), &Some(ticket(1)), false);
    assert!(!ringing.contains(&id(1)));
}

#[test]
fn a_typed_ticket_is_dialed() {
    let mut state = CallState::new(Camera::Free, true);
    state.type_ticket("abc".to_string());
    assert!(matches!(state.screen(), Screen::Waiting { input, .. } if input == "abc"));
    assert_eq!(entered("  abc ", true, false, false), Some("abc".to_string()));
    assert_eq!(entered("  abc ", false, true, false), None);
    assert_eq!(entered("  ", true, false, false), None);
    assert_eq!(state.dial_text(Ok(ticket(7))), Some(Direction::Outgoing(id(7))));
    let mut state = CallState::new(Camera::Free, true);
    assert_eq!(state.dial_text(Err("bad".to_string())), None);
    assert!(message(&state).is_some());
}

#[test]
fn a_cancelled_call_is_told() {
    let mut state = CallState::new(Camera::Free, true);
    let direction = state.dial(id(1));
    state.start(direction, Ok(()));
    state.cancel("peer");
    assert_eq!(state.pending(), None);
    assert!(message(&state).is_some());
    state.exit();
}
