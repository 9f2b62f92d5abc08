//! Watching a broadcast.

use iroh_live_cli::call::Arrival;
use iroh_live_cli::ids::{BroadcastTicket, EndpointId};
use iroh_live_cli::playback::CatalogWait;
use iroh_live_cli::watch::{
    back_label, connect, video_mode, Act, Closing, ConnectEvent, ConnectNext, Mode, Opening,
    Refused, VideoMode, WatchState, REDIAL_WAIT, REDIAL_WAIT_MAX,
};

fn ticket(name: &str) -> BroadcastTicket {
    BroadcastTicket::new(EndpointId { high: 7, low: 9 }, name.to_string())
}

fn refused(strikes: u32) -> Refused {
    Refused { ticket: ticket("hello"), strikes }
}

#[test]
fn the_first_failure_waits_the_base_interval() {
    assert_eq!(refused(0).wait(), REDIAL_WAIT);
}

#[test]
fn each_repeat_doubles_the_wait_up_to_the_ceiling() {
    assert_eq!(refused(1).wait(), REDIAL_WAIT * 2);
    assert_eq!(refused(2).wait(), REDIAL_WAIT * 4);
    assert_eq!(refused(4).wait(), REDIAL_WAIT_MAX);
}

/// Many failures in a row do not overflow the shift.
#[test]
fn a_ticket_that_never_connects_stays_at_the_ceiling() {
    assert_eq!(refused(u32::MAX).wait(), REDIAL_WAIT_MAX);
}

#[test]
fn a_short_broadcast_name_is_on_the_button_whole() {
    assert_eq!(back_label("camera"), "Back to camera");
}

#[test]
fn a_long_broadcast_name_is_cut_short() {
    let label = back_label("a-broadcast-with-a-name-nobody-should-have-chosen");
    assert_eq!(label, "Back to a-broadcast-with-a-name-...");
}

/// A cut by byte index would panic on this name.
#[test]
fn a_name_of_multi_byte_characters_is_cut_on_a_character() {
    let label = back_label(&"e\u{301}".repeat(40));
    assert!(label.starts_with("Back to "), "unexpected: {label}");
    assert!(label.ends_with("..."), "unexpected: {label}");
}

#[test]
fn a_scanned_ticket_is_dialed_and_watched() {
    let mut state = WatchState::new(Opening::Scanning);
    assert_eq!(state.poll_scan(None), Act::Stay);
    match state.poll_scan(Some(ticket("a"))) {
        Act::Dial(_, dialed) => assert_eq!(dialed, ticket("a")),
        other => panic!("unexpected: {other:?}"),
    }
    assert_eq!(state.poll_connecting(Arrival::Empty, 0), Act::Stay);
    assert_eq!(state.poll_connecting(Arrival::Ready(Ok(())), 0), Act::Play);
    assert!(matches!(state.mode(), Mode::Watching { ticket: watched } if *watched == ticket("a")));
    assert_eq!(state.close_mode(), Closing::Subscription);
}

/// A ticket that fails in a row is held off for longer and longer.
#[test]
fn a_failed_ticket_is_held_off() {
    let mut state = WatchState::new(Opening::Scanning);
    let mut waits = Vec::new();
    for _ in 0..3 {
        state.poll_scan(Some(ticket("a")));
        match state.poll_connecting(Arrival::Ready(Err("no".to_string())), 100) {
            Act::Scan(_, Some(skip)) => {
                assert_eq!(skip.ticket, ticket("a"));
                waits.push(skip.until - 100);
            }
            other => panic!("unexpected: {other:?}"),
        }
        assert_eq!(state.message(), Some("no".to_string()));
    }
    assert_eq!(waits, vec![3_000, 6_000, 12_000]);
    state.poll_scan(Some(ticket("b")));
    match state.poll_connecting(Arrival::Ready(Err("no".to_string())), 100) {
        Act::Scan(_, Some(skip)) => assert_eq!(skip.until, 3_100),
        other => panic!("unexpected: {other:?}"),
    }
}

/// The broadcast that was watched stays in reach while another is scanned for.
#[test]
fn the_previous_broadcast_stays_in_reach() {
    let mut state = WatchState::new(Opening::Watching(ticket("a")));
    assert!(matches!(state.watch_ui(true, 0), Act::Scan(Closing::Subscription, _)));
    let panel = state.scan_panel().expect("the scan screen is up");
    assert_eq!(panel.back, Some("Back to a".to_string()));
    match state.scan_ui(true) {
        Act::Dial(_, dialed) => assert_eq!(dialed, ticket("a")),
        other => panic!("unexpected: {other:?}"),
    }
    assert!(state.connecting_heading().is_some());
}

#[test]
fn a_cancelled_dial_stops() {
    let mut state = WatchState::new(Opening::Connecting(ticket("a")));
    assert!(matches!(state.mode(), Mode::Connecting { .. }));
    state.cancel_dial();
    assert!(!matches!(state.mode(), Mode::Connecting { .. }));
}

#[test]
fn the_video_that_is_asked_for() {
    assert_eq!(video_mode(true, &Some("720p".to_string())), VideoMode::Off);
    assert_eq!(
        video_mode(false, &Some("720p".to_string())),
        VideoMode::Pinned("720p".to_string())
    );
    assert_eq!(video_mode(false, &None), VideoMode::Automatic);
}

#[test]
fn connecting_goes_step_by_step() {
    let t = ticket("a");
    let pinned = Some("720p".to_string());
    assert_eq!(
        connect(&t, false, &pinned, 20, ConnectEvent::Subscribed),
        Ok(ConnectNext::AwaitCatalog)
    );
    assert_eq!(
        connect(&t, false, &pinned, 20, ConnectEvent::Catalog(CatalogWait::Arrived)),
        Ok(ConnectNext::Check("720p".to_string()))
    );
    assert_eq!(
        connect(&t, false, &None, 20, ConnectEvent::Catalog(CatalogWait::Arrived)),
        Ok(ConnectNext::Play(VideoMode::Automatic))
    );
    assert_eq!(
        connect(&t, false, &pinned, 20, ConnectEvent::Checked(Err("none".to_string()))),
        Err("none".to_string())
    );
    assert_eq!(
        connect(&t, false, &pinned, 20, ConnectEvent::Playing(Ok(()))),
        Ok(ConnectNext::Connected)
    );
    assert!(connect(&t, false, &pinned, 20, ConnectEvent::Late).is_err());
    assert!(connect(&t, false, &None, 20, ConnectEvent::Catalog(CatalogWait::TimedOut)).is_err());
}
