//! Rooms and their chat.

use iroh_live_cli::chat::{joined_ms, unix_ms, Cursor, Frame, Reading, Writer};
use iroh_live_cli::ids::EndpointId;
use iroh_live_cli::peers::PeerSet;
use iroh_live_cli::room::{
    layout, ChatLine, ChatState, Collected, Forwarder, Handed, Incoming, Member, RoomState,
    TileKey, MAX_CHAT_LINES,
};

fn id(n: u128) -> EndpointId {
    EndpointId { high: n, low: 0 }
}

fn member(n: u128, name: Option<&str>, broadcasts: &[&str]) -> Member {
    Member {
        id: id(n),
        display_name: name.map(str::to_string),
        broadcasts: broadcasts.iter().map(|name| name.to_string()).collect(),
    }
}

fn key(n: u128, name: &str) -> TileKey {
    TileKey { remote: id(n), name: name.to_string() }
}

/// A broadcast is opened once, and moves to the grid when it opened.
#[test]
fn a_broadcast_moves_from_opening_to_the_grid() {
    let mut room = RoomState::new("me".to_string());
    assert_eq!(room.own_label(), "me (you)");
    let state = || vec![member(1, Some("ann"), &["cam"]), member(2, None, &["cam"])];
    assert_eq!(room.apply_state(state(), 0), vec![key(1, "cam"), key(2, "cam")]);
    assert!(room.apply_state(state(), 1).is_empty());
    assert_eq!(room.collect_opened(key(1, "cam"), true, 2), Collected::Shown);
    assert_eq!(room.tiles(), &[key(1, "cam")]);
    assert_eq!(room.participants_line(), "2 participants");
    assert_eq!(room.label(&id(1)), "ann");
    assert_eq!(room.label(&id(2)), id(2).fmt_short());

    // One that did not open is tried again, after a while.
    assert_eq!(room.collect_opened(key(2, "cam"), false, 10), Collected::Retried);
    assert!(room.apply_state(state(), 11).is_empty());
    assert_eq!(room.apply_state(state(), 2_010), vec![key(2, "cam")]);

    // One that its member withdrew meanwhile is not shown.
    room.apply_state(vec![member(1, Some("ann"), &["cam"])], 2_011);
    assert_eq!(room.collect_opened(key(2, "cam"), true, 2_012), Collected::Withdrawn);

    // One that closed leaves the grid, and a later look opens it again.
    assert!(!room.drop_closed(&[true], 2_013));
    assert!(room.tiles().is_empty());
    assert_eq!(
        room.apply_state(vec![member(1, Some("ann"), &["cam"])], 9_000),
        vec![key(1, "cam")]
    );
}

/// A member that leaves takes its broadcasts off the grid.
#[test]
fn the_grid_follows_the_membership() {
    let mut room = RoomState::new("me".to_string());
    room.apply_state(vec![member(1, None, &["cam"])], 0);
    room.collect_opened(key(1, "cam"), true, 0);
    room.apply_state(vec![], 1);
    assert!(room.tiles().is_empty());
    assert_eq!(room.participants_line(), "1 participants");
}

#[test]
fn the_chat_shows_who_said_what() {
    let mut room = RoomState::new("me".to_string());
    room.apply_state(vec![member(1, Some("ann"), &[])], 0);
    let before = room.chat().len();
    room.drain_chat(Incoming::Message { from: id(1), text: "hi".to_string() });
    room.drain_chat(Incoming::Skipped(3));
    assert_eq!(
        room.chat().line(before),
        &ChatLine { sender: Some("ann".to_string()), text: "hi".to_string() }
    );
    assert_eq!(
        room.chat().line(before + 1),
        &ChatLine { sender: None, text: "3 chat messages skipped".to_string() }
    );
    assert_eq!(room.send_chat(), None);
    room.type_line("  hello ".to_string());
    assert_eq!(room.send_chat(), Some("hello".to_string()));
    assert_eq!(room.chat().input(), "");
    assert_eq!(
        room.chat().line(before + 2),
        &ChatLine { sender: Some("me".to_string()), text: "hello".to_string() }
    );
}

#[test]
fn the_scrollback_keeps_the_newest_lines() {
    let mut chat = ChatState::default();
    for i in 0..MAX_CHAT_LINES + 5 {
        chat.push("a".to_string(), format!("{i}"));
    }
    assert_eq!(chat.len(), MAX_CHAT_LINES);
    assert_eq!(chat.line(0).text, "5");
}

#[test]
fn skipped_messages_are_told_once() {
    let mut forwarder = Forwarder::new();
    assert!(forwarder.forwarded(1, Handed::Taken));
    assert_eq!(forwarder.owed(), None);
    assert!(forwarder.forwarded(2, Handed::Full));
    assert!(forwarder.forwarded(1, Handed::Full));
    assert_eq!(forwarder.owed(), Some(3));
    forwarder.told(Handed::Full);
    assert_eq!(forwarder.owed(), Some(3));
    forwarder.told(Handed::Taken);
    assert_eq!(forwarder.owed(), None);
    assert!(!forwarder.forwarded(1, Handed::Closed));
}

#[test]
fn the_grid_is_nearly_square() {
    assert_eq!(layout(0), (1, 1));
    assert_eq!(layout(1), (1, 1));
    assert_eq!(layout(2), (2, 1));
    assert_eq!(layout(5), (3, 2));
    assert_eq!(layout(10), (4, 3));
}

/// A frame reads back as it was written, and noise reads as nothing.
#[test]
fn a_chat_frame_survives_the_wire() {
    let frame = Frame { text: "hi \u{1f600}".to_string(), sent_at_ms: 1_234, writer: 99 };
    let bytes = frame.to_bytes();
    assert_eq!(Frame::from_bytes(&bytes), Some(frame));
    assert_eq!(Frame::from_bytes(&bytes[..3]), None);
    assert_eq!(Frame::from_bytes(&[]), None);
    assert_eq!(bytes, [7, b'h', b'i', b' ', 0xf0, 0x9f, 0x98, 0x80, 0xd2, 0x09, 99]);
    assert_eq!(Writer::numbered(99).send("hi \u{1f600}", 1_234), bytes);
}

/// Two writers of one member differ, so a restarted member is heard.
#[test]
fn writers_are_told_apart() {
    let bytes = Writer::new().send("x", 0);
    let frame = Frame::from_bytes(&bytes).expect("a frame that was just written");
    assert_eq!(frame.text, "x");
    assert_ne!(Writer::new().send("x", 0), Writer::new().send("x", 0));
}

/// A message is delivered once, however often its group is read.
#[test]
fn a_message_is_delivered_once_across_reads() {
    let frame = |writer: u64, at: u64| Frame { text: "m".to_string(), sent_at_ms: at, writer };
    let mut reading = Reading::new(Cursor::default());
    assert_eq!(reading.take(0, frame(1, 50), 100), None);
    assert_eq!(reading.take(1, frame(1, 150), 100), Some("m".to_string()));
    assert_eq!(reading.again(true), None);
    let (wait, mut again) = reading.again(false).expect("the member is read again");
    assert_eq!(wait, 2_000);
    assert_eq!(again, Reading::new(reading.cursor));
    assert_eq!(again.take(1, frame(1, 150), 100), None);
    assert_eq!(again.take(2, frame(1, 160), 100), Some("m".to_string()));
    assert_eq!(again.take(0, frame(2, 170), 100), Some("m".to_string()));
    assert_eq!(again.take_payload(5, &[0xff], 100), None);
}

#[test]
fn the_clock_is_given_some_slack() {
    assert_eq!(joined_ms(5_000), 3_000);
    assert_eq!(joined_ms(10), 0);
    assert_eq!(unix_ms(None), 0);
    assert_eq!(unix_ms(Some(7)), 7);
}

#[test]
fn a_set_of_peers() {
    let mut set = PeerSet::new();
    set.insert(id(2));
    set.insert(id(1));
    set.insert(id(2));
    assert!(set.contains(&id(2)));
    let mut other = PeerSet::new();
    other.insert(id(1));
    assert_eq!(set.first_outside(&other), Some(id(2)));
    assert_eq!(set.first_outside(&PeerSet::new()), Some(id(1)));
    set.retain_in(&other);
    assert!(!set.contains(&id(2)));
    set.remove(&id(1));
    assert_eq!(set.first_outside(&PeerSet::new()), None);
}

/// The texts of an id are those of the endpoint.
#[test]
fn ids_read_as_their_bytes_do() {
    let public = iroh::SecretKey::generate().public();
    let bytes = public.as_bytes();
    let mut high = [0u8; 16];
    let mut low = [0u8; 16];
    high.copy_from_slice(&bytes[..16]);
    low.copy_from_slice(&bytes[16..]);
    let id = EndpointId { high: u128::from_be_bytes(high), low: u128::from_be_bytes(low) };
    assert_eq!(id.to_hex(), public.to_string());
    assert_eq!(id.fmt_short(), public.fmt_short().to_string());
    assert!(!id.is_before(&id));
    assert!(EndpointId { high: 0, low: 1 }.is_before(&EndpointId { high: 1, low: 0 }));
}
