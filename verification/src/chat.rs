//! Room chat: one more broadcast every member publishes into the room.
//!
//! The broadcast is named [`NAME`] and has one track of that name, which
//! carries one message per group. This module frames the messages and decides
//! which of them a reader delivers.

use vstd::prelude::*;

verus! {

/// The name of the chat broadcast, and of its one track.
pub const NAME: &'static str = "chat";

/// How many milliseconds a message stays readable, on both ends of the track.
///
/// A track that keeps the newest group or nothing would drop a message that a
/// second one overtook before it was read.
pub const MAX_AGE: u64 = 5_000;

/// How many milliseconds a reader waits before reading a member again once its
/// read ended.
pub const RETRY: u64 = 2_000;

/// How many milliseconds before joining a message may have been sent and still
/// show, for clocks that disagree a little.
pub const CLOCK_TOLERANCE: u64 = 2_000;

/// One message on the chat track.
#[derive(Debug, PartialEq, Eq)]
pub struct Frame {
    pub text: String,
    /// Milliseconds since the Unix epoch, by the sender's clock.
    pub sent_at_ms: u64,
    /// Drawn per chat broadcast, so a reader can tell a member that restarted,
    /// whose group sequence starts over, from a repeat.
    pub writer: u64,
}

/// A [`Frame`] with its text as a character sequence.
pub struct FrameView {
    pub text: Seq<char>,
    pub sent_at_ms: u64,
    pub writer: u64,
}

impl View for Frame {
    type V = FrameView;

    open spec fn view(&self) -> FrameView {
        FrameView { text: self.text@, sent_at_ms: self.sent_at_ms, writer: self.writer }
    }
}

/// The bytes that `postcard::to_stdvec` makes of a text and two numbers.
pub uninterp spec fn postcard_bytes(text: Seq<char>, sent_at_ms: u64, writer: u64) -> Seq<u8>;

/// The text and two numbers that `postcard::from_bytes` reads from `bytes`.
pub uninterp spec fn postcard_read(bytes: Seq<u8>) -> Option<(Seq<char>, u64, u64)>;

/// Serializes a tuple with `postcard::to_stdvec`, which writes its items one
/// after another.
///
/// What the bytes are is not stated. Reading them gives the items back.
#[verifier::external_body]
fn to_postcard(text: &str, sent_at_ms: u64, writer: u64) -> (res: Vec<u8>)
    ensures
        res@ == postcard_bytes(text@, sent_at_ms, writer),
        postcard_read(res@) == Some((text@, sent_at_ms, writer)),
{
    postcard::to_stdvec(&(text, sent_at_ms, writer)).expect("a text and two numbers serialize")
}

/// Deserializes a tuple with `postcard::from_bytes`, which ignores bytes behind
/// it. Which bytes hold a tuple is not stated.
#[verifier::external_body]
fn from_postcard(bytes: &[u8]) -> (res: Option<(String, u64, u64)>)
    ensures
        match res {
            Some((text, sent_at_ms, writer)) => postcard_read(bytes@) == Some(
                (text@, sent_at_ms, writer),
            ),
            None => postcard_read(bytes@) is None,
        },
{
    postcard::from_bytes::<(String, u64, u64)>(bytes).ok()
}

/// An optional frame by its view.
pub open spec fn opt_frame(frame: Option<Frame>) -> Option<FrameView> {
    match frame {
        Some(frame) => Some(frame@),
        None => None,
    }
}

/// The frame that `bytes` hold.
pub open spec fn frame_of(bytes: Seq<u8>) -> Option<FrameView> {
    match postcard_read(bytes) {
        Some((text, sent_at_ms, writer)) => Some(FrameView { text, sent_at_ms, writer }),
        None => None,
    }
}

impl Frame {
    /// Returns the bytes of the frame.
    pub fn to_bytes(&self) -> (res: Vec<u8>)
        ensures
            res@ == postcard_bytes(self.text@, self.sent_at_ms, self.writer),
            frame_of(res@) == Some(self@),
    {
        to_postcard(self.text.as_str(), self.sent_at_ms, self.writer)
    }

    /// Reads a frame from its bytes, or returns `None` if they hold none.
    pub fn from_bytes(bytes: &[u8]) -> (res: Option<Frame>)
        ensures
            opt_frame(res) == frame_of(bytes@),
    {
        match from_postcard(bytes) {
            Some((text, sent_at_ms, writer)) => Some(Frame { text, sent_at_ms, writer }),
            None => None,
        }
    }
}

/// Draws the number of a writer with `rand::random`. Any number may come.
#[verifier::external_body]
fn random_writer() -> (res: u64) {
    rand::random()
}

/// The sending side of this member's chat broadcast.
#[derive(Debug)]
pub struct Writer {
    writer: u64,
}

impl Writer {
    /// The number that every frame of this writer carries.
    pub closed spec fn number(self) -> u64 {
        self.writer
    }

    /// Creates a writer with a number of its own.
    pub fn new() -> (res: Self) {
        Self::numbered(random_writer())
    }

    /// Creates a writer with this number.
    pub fn numbered(writer: u64) -> (res: Self)
        ensures
            res.number() == writer,
    {
        Writer { writer }
    }

    /// Returns the bytes that send `text` at the time `now_ms`, in milliseconds
    /// since the Unix epoch.
    pub fn send(&self, text: &str, now_ms: u64) -> (res: Vec<u8>)
        ensures
            res@ == postcard_bytes(text@, now_ms, self.number()),
            frame_of(res@) == Some(
                (FrameView { text: text@, sent_at_ms: now_ms, writer: self.number() }),
            ),
    {
        Frame { text: text.to_owned(), sent_at_ms: now_ms, writer: self.writer }.to_bytes()
    }
}

/// How far a member's chat has been delivered.
#[derive(Debug, Clone, Copy, PartialEq, Eq, Structural)]
pub struct Cursor {
    /// The writer the count is of.
    pub writer: Option<u64>,
    /// One past the highest group sequence delivered.
    pub next: u64,
}

impl Default for Cursor {
    fn default() -> (res: Self)
        ensures
            res == (Cursor { writer: None, next: 0 }),
    {
        Cursor { writer: None, next: 0 }
    }
}

/// One read of a member's chat, until its broadcast ends.
///
/// A new subscription starts with the newest message, which the last read may
/// have delivered already.
#[derive(Debug, Clone, Copy, PartialEq, Eq, Structural)]
pub struct Reading {
    /// How far the member's chat has been delivered.
    pub cursor: Cursor,
    /// Groups below this were delivered by an earlier read.
    pub floor: u64,
}

impl Reading {
    /// The read that continues at `cursor`.
    pub open spec fn resumed(cursor: Cursor) -> Reading {
        Reading { cursor, floor: cursor.next }
    }

    /// Whether the frame comes from another writer than the one that is
    /// counted.
    pub open spec fn restarts(self, writer: u64) -> bool {
        self.cursor.writer != Some(writer)
    }

    /// Whether the frame is the first one ever read and was sent before this
    /// member joined.
    pub open spec fn predates(self, frame: FrameView, joined_ms: u64) -> bool {
        self.cursor.writer is None && frame.sent_at_ms < joined_ms
    }

    /// Whether the frame in group `sequence` is delivered.
    pub open spec fn delivers(self, sequence: u64, frame: FrameView, joined_ms: u64) -> bool {
        if self.restarts(frame.writer) {
            !self.predates(frame, joined_ms)
        } else {
            sequence >= self.floor
        }
    }

    /// The read after the frame in group `sequence`.
    pub open spec fn after(self, sequence: u64, frame: FrameView, joined_ms: u64) -> Reading {
        if self.restarts(frame.writer) {
            Reading {
                cursor: Cursor { writer: Some(frame.writer), next: (sequence + 1) as u64 },
                floor: 0,
            }
        } else if sequence < self.floor {
            self
        } else {
            Reading {
                cursor: Cursor {
                    writer: self.cursor.writer,
                    next: if self.cursor.next > sequence {
                        self.cursor.next
                    } else {
                        (sequence + 1) as u64
                    },
                },
                floor: self.floor,
            }
        }
    }

    /// Starts a read that continues at `cursor`.
    pub fn new(cursor: Cursor) -> (res: Self)
        ensures
            res == Reading::resumed(cursor),
    {
        Reading { cursor, floor: cursor.next }
    }

    /// Returns what follows once this read has ended: how many milliseconds to
    /// wait, and the read that continues then, or `None` where nobody takes the
    /// messages any more.
    pub fn again(&self, closed: bool) -> (res: Option<(u64, Reading)>)
        ensures
            res == if closed {
                None
            } else {
                Some((RETRY, Reading::resumed(self.cursor)))
            },
    {
        if closed {
            None
        } else {
            Some((RETRY, Reading::new(self.cursor)))
        }
    }

    /// Takes the frame that group `sequence` holds, and returns its text if it
    /// is delivered.
    ///
    /// `joined_ms` is when this member joined, less [`CLOCK_TOLERANCE`]. The
    /// first message of the first read was sent before that if the sender's
    /// clock says so, and is left out.
    pub fn take(&mut self, sequence: u64, frame: Frame, joined_ms: u64) -> (res: Option<String>)
        requires
            sequence < u64::MAX,
        ensures
            *final(self) == old(self).after(sequence, frame@, joined_ms),
            match res {
                Some(text) => old(self).delivers(sequence, frame@, joined_ms) && text@
                    == frame.text@,
                None => !old(self).delivers(sequence, frame@, joined_ms),
            },
    {
        let restarts: bool = match self.cursor.writer {
            Some(writer) => writer != frame.writer,
            None => true,
        };
        if restarts {
            let first: bool = self.cursor.writer.is_none();
            self.cursor = Cursor { writer: Some(frame.writer), next: 0 };
            self.floor = 0;
            if first && frame.sent_at_ms < joined_ms {
                self.cursor.next = sequence + 1;
                return None;
            }
        }
        if sequence < self.floor {
            return None;
        }
        if self.cursor.next < sequence + 1 {
            self.cursor.next = sequence + 1;
        }
        Some(frame.text)
    }

    /// Takes the payload of group `sequence`, and returns the text to deliver,
    /// if any. A payload that holds no frame is skipped.
    pub fn take_payload(&mut self, sequence: u64, payload: &[u8], joined_ms: u64) -> (res: Option<
        String,
    >)
        requires
            sequence < u64::MAX,
        ensures
            match frame_of(payload@) {
                None => *final(self) == *old(self) && res is None,
                Some(frame) => {
                    &&& *final(self) == old(self).after(sequence, frame, joined_ms)
                    &&& match res {
                        Some(text) => old(self).delivers(sequence, frame, joined_ms) && text@
                            == frame.text,
                        None => !old(self).delivers(sequence, frame, joined_ms),
                    }
                },
            },
    {
        match Frame::from_bytes(payload) {
            Some(frame) => self.take(sequence, frame, joined_ms),
            None => None,
        }
    }
}

/// Returns a time as milliseconds since the Unix epoch, from the time that has
/// passed since, or zero for a time before it.
pub fn unix_ms(since: Option<u128>) -> (res: u64)
    ensures
        res == match since {
            Some(millis) => millis % 0x1_0000_0000_0000_0000,
            None => 0,
        },
{
    match since {
        Some(millis) => (millis % 0x1_0000_0000_0000_0000) as u64,
        None => 0,
    }
}

/// Returns the time a reader compares the first message with.
pub fn joined_ms(now_ms: u64) -> (res: u64)
    ensures
        res == if now_ms >= CLOCK_TOLERANCE {
            (now_ms - CLOCK_TOLERANCE) as u64
        } else {
            0
        },
{
    if now_ms >= CLOCK_TOLERANCE {
        now_ms - CLOCK_TOLERANCE
    } else {
        0
    }
}

/// A delivered message is never delivered again by a later read of the same
/// writer: whatever further frames of that writer the read takes, the group
/// stays below where the next read begins.
pub proof fn law_a_message_is_delivered_once_across_reads(
    reading: Reading,
    sequence: u64,
    frame: FrameView,
    more: u64,
    next: FrameView,
    joined_ms: u64,
)
    requires
        sequence < u64::MAX,
        more < u64::MAX,
        reading.delivers(sequence, frame, joined_ms),
        next.writer == frame.writer,
    ensures
        sequence < reading.after(sequence, frame, joined_ms).cursor.next,
        reading.after(sequence, frame, joined_ms).cursor.writer == Some(frame.writer),
        reading.after(sequence, frame, joined_ms).cursor.next <= reading.after(
            sequence,
            frame,
            joined_ms,
        ).after(more, next, joined_ms).cursor.next,
        !Reading::resumed(reading.after(sequence, frame, joined_ms).cursor).delivers(
            sequence,
            frame,
            joined_ms,
        ),
        !Reading::resumed(
            reading.after(sequence, frame, joined_ms).after(more, next, joined_ms).cursor,
        ).delivers(sequence, frame, joined_ms),
{
}

/// A member that restarted is heard from its first message on, whatever number
/// its groups start at.
pub proof fn law_a_restarted_member_is_heard(
    reading: Reading,
    sequence: u64,
    frame: FrameView,
    joined_ms: u64,
)
    requires
        reading.cursor.writer is Some,
        reading.cursor.writer != Some(frame.writer),
    ensures
        reading.delivers(sequence, frame, joined_ms),
{
}

/// Within one read, every message of the writer from the floor on is
/// delivered, in whatever order the groups arrive.
pub proof fn law_no_new_message_is_lost(
    reading: Reading,
    first: u64,
    one: FrameView,
    second: u64,
    other: FrameView,
    joined_ms: u64,
)
    requires
        first < u64::MAX,
        one.writer == other.writer,
        reading.cursor.writer == Some(one.writer),
        second >= reading.floor,
    ensures
        reading.after(first, one, joined_ms).delivers(second, other, joined_ms),
{
}

/// A frame is read back as it was written: its text, its time and its writer.
pub proof fn law_a_frame_is_what_was_written(
    bytes: Seq<u8>,
    text: Seq<char>,
    sent_at_ms: u64,
    writer: u64,
)
    ensures
        postcard_read(bytes) == Some((text, sent_at_ms, writer)) ==> (frame_of(bytes) matches Some(
            frame,
        ) && frame.text == text && frame.sent_at_ms == sent_at_ms && frame.writer == writer),
        postcard_read(bytes) is None ==> frame_of(bytes) is None,
{
}

/// The first message ever read of a member is left out where it was sent before
/// this member joined, and delivered elsewhere.
pub proof fn law_only_what_was_said_before_joining_is_left_out(
    floor: u64,
    sequence: u64,
    frame: FrameView,
    joined_ms: u64,
    next: u64,
)
    ensures
        ({
            let fresh = Reading { cursor: Cursor { writer: None, next }, floor };
            fresh.delivers(sequence, frame, joined_ms) <==> frame.sent_at_ms >= joined_ms
        }),
{
}

/// A message that was left out counts as read: neither it nor an older one of its
/// writer comes later, on the next read either.
pub proof fn law_what_was_left_out_stays_out(
    reading: Reading,
    sequence: u64,
    frame: FrameView,
    older: u64,
    again: FrameView,
    joined_ms: u64,
)
    requires
        sequence < u64::MAX,
        reading.cursor.writer is None,
        older <= sequence,
        again.writer == frame.writer,
    ensures
        !Reading::resumed(reading.after(sequence, frame, joined_ms).cursor).delivers(
            older,
            again,
            joined_ms,
        ),
{
}

/// A read that goes on delivers every message that no earlier read delivered, and
/// messages of one writer whatever their time.
pub proof fn law_a_read_goes_on_where_the_last_ended(
    cursor: Cursor,
    sequence: u64,
    frame: FrameView,
    joined_ms: u64,
)
    requires
        cursor.writer == Some(frame.writer),
    ensures
        Reading::resumed(cursor).delivers(sequence, frame, joined_ms) <==> sequence >= cursor.next,
        Reading::resumed(cursor).cursor == cursor,
{
}

/// A message never moves the cursor back, and moves it just past itself where it
/// is the newest.
pub proof fn law_the_cursor_follows_the_newest_message(
    reading: Reading,
    sequence: u64,
    frame: FrameView,
    joined_ms: u64,
)
    requires
        sequence < u64::MAX,
    ensures
        ({
            let after = reading.after(sequence, frame, joined_ms);
            &&& after.cursor.writer == Some(frame.writer)
            &&& reading.cursor.writer != Some(frame.writer) ==> after.cursor.next == sequence + 1
            &&& reading.cursor.writer == Some(frame.writer) ==> after.cursor.next
                >= reading.cursor.next
            &&& reading.cursor.writer == Some(frame.writer) && sequence >= reading.cursor.next
                && sequence >= reading.floor ==> after.cursor.next == sequence + 1
            &&& reading.cursor.writer == Some(frame.writer) && sequence < reading.cursor.next
                ==> after.cursor.next == reading.cursor.next
            &&& reading.cursor.writer == Some(frame.writer) ==> after.floor == reading.floor
        }),
{
}

} // verus!
