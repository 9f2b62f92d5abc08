//! Reading a connection ticket off a QR code held up to the camera.
//!
//! `irl watch --scan` opens the camera instead of taking a ticket on the
//! command line: the window shows what the lens sees and connects as soon as a
//! frame carries a QR code that parses as a ticket.
//!
//! The capture thread owns the camera. It asks a [`Look`] which frames to look
//! at, takes the [`first_text`] that a QR reader finds in their luma planes, and
//! hands what came of it to a [`Scanner`], which says what the screen shows and
//! whether the camera is opened again.

use vstd::prelude::*;

use crate::ids::{self, BroadcastTicket, TicketView};
use crate::source::{CaptureConfig, CaptureConfigView, CaptureSource, CaptureSourceView};
use crate::text;

verus! {

/// How many milliseconds the scanner waits between two looks for a QR code.
///
/// Finding a grid costs a full-frame binarization pass followed by a corner
/// search. Running that on every frame would take most of a small core, and
/// somebody lining a code up in front of a lens holds it there for a second or
/// more, so three looks a second find it as fast as thirty would.
pub const DECODE_INTERVAL: u64 = 333;

/// Width of the picture the scanner asks the camera for, in pixels.
///
/// Resolution matters more here than frame rate, because a QR code has to
/// survive binarization at whatever size it lands in the picture.
pub const SCAN_WIDTH: u32 = 1280;

/// Height of the picture the scanner asks the camera for, in pixels.
pub const SCAN_HEIGHT: u32 = 720;

/// Capture frame rate the scanner asks the camera for.
pub const SCAN_FRAMERATE: u32 = 15;

/// How many milliseconds the scanner waits before it reopens a camera that
/// failed.
pub const REOPEN_DELAY: u64 = 2_000;

/// What the scan screen tells the user to do.
pub const PROMPT: &'static str = "Hold a ticket QR code up to the camera";

/// How far the scanner has got.
#[derive(Debug, PartialEq, Eq)]
pub enum ScanState {
    /// The camera is open and no QR code has decoded yet.
    Looking,
    /// A QR code decoded but is not a ticket. Worth saying out loud: pointing
    /// the camera at the wrong code otherwise looks exactly like pointing it
    /// at nothing.
    NotATicket,
    /// A ticket decoded. The camera has been released.
    Found(BroadcastTicket),
    /// The camera could not be opened, or it stopped.
    Failed(String),
}

/// A [`ScanState`] with its texts as character sequences.
pub enum ScanStateView {
    Looking,
    NotATicket,
    Found(TicketView),
    Failed(Seq<char>),
}

impl View for ScanState {
    type V = ScanStateView;

    open spec fn view(&self) -> ScanStateView {
        match *self {
            ScanState::Looking => ScanStateView::Looking,
            ScanState::NotATicket => ScanStateView::NotATicket,
            ScanState::Found(ticket) => ScanStateView::Found(ticket@),
            ScanState::Failed(problem) => ScanStateView::Failed(problem@),
        }
    }
}

/// The scan screen: how far the scanner behind it has got.
#[derive(Debug, PartialEq, Eq)]
pub struct ScanView {
    state: ScanState,
}

impl View for ScanView {
    type V = ScanStateView;

    closed spec fn view(&self) -> ScanStateView {
        self.state@
    }
}

/// What a state reports over the picture, besides the prompt.
pub open spec fn note_of(state: ScanStateView) -> Option<Seq<char>> {
    match state {
        ScanStateView::Looking => None,
        ScanStateView::NotATicket => Some("that QR code is not an iroh-live ticket"@),
        ScanStateView::Found(ticket) => Some("connecting to "@ + ticket.name),
        ScanStateView::Failed(problem) => Some(problem),
    }
}

impl ScanView {
    /// Creates the screen of a scanner that is looking for a ticket.
    pub fn new() -> (res: Self)
        ensures
            res@ == ScanStateView::Looking,
    {
        ScanView { state: ScanState::Looking }
    }

    /// Publishes `next`.
    pub fn report(&mut self, next: ScanState)
        ensures
            final(self)@ == next@,
    {
        self.state = next;
    }

    /// Returns the ticket, once the camera has read one.
    pub fn ticket(&self) -> (res: Option<BroadcastTicket>)
        ensures
            ids::opt_ticket(res) == match self@ {
                ScanStateView::Found(ticket) => Some(ticket),
                _ => None,
            },
    {
        match &self.state {
            ScanState::Found(ticket) => Some(ticket.clone()),
            _ => None,
        }
    }

    /// Returns what the scanner has to report, to draw under the prompt.
    pub fn banner(&self) -> (res: Option<String>)
        ensures
            text::opt_text(res) == note_of(self@),
    {
        match &self.state {
            ScanState::Looking => None,
            ScanState::NotATicket => Some("that QR code is not an iroh-live ticket".to_owned()),
            ScanState::Found(ticket) => Some(
                "connecting to ".to_owned().concat(ticket.name.as_str()),
            ),
            ScanState::Failed(problem) => Some(problem.clone()),
        }
    }
}

/// Returns the capture configuration the scan camera opens with.
///
/// Always the default camera. `cursor` is what a capture is opened with where
/// nothing is said, since a camera has no mouse cursor to leave out.
pub fn camera_config(cursor: bool) -> (res: CaptureConfig)
    ensures
        res@ == (CaptureConfigView {
            source: CaptureSourceView::Camera(None),
            width: Some(1280),
            height: Some(720),
            framerate: Some(15),
            cursor,
        }),
{
    CaptureConfig {
        source: CaptureSource::Camera(None),
        width: Some(SCAN_WIDTH),
        height: Some(SCAN_HEIGHT),
        framerate: Some(SCAN_FRAMERATE),
        cursor,
    }
}

/// What the scanner does after the camera was released.
#[derive(Debug, PartialEq, Eq)]
pub enum Next {
    /// The ticket was found and the scan is over.
    Done,
    /// The camera is opened again after [`REOPEN_DELAY`]. `warn` tells whether
    /// the problem goes to the log as a warning.
    Reopen { warn: bool },
}

/// Reads the camera until it yields a ticket, reopening it whenever it fails.
///
/// The scan screen has no way forward other than a working camera, so a device
/// that is momentarily busy is worth waiting for rather than reporting once and
/// giving up.
#[derive(Debug, PartialEq, Eq)]
pub struct Scanner {
    said_so: bool,
}

impl Scanner {
    /// Whether the log already holds that the camera is unusable.
    pub closed spec fn warned(self) -> bool {
        self.said_so
    }

    /// Creates a scanner that has not opened the camera yet.
    pub fn new() -> (res: Self)
        ensures
            !res.warned(),
    {
        Scanner { said_so: false }
    }

    /// Takes what came of one run of the camera, and returns what the screen
    /// shows and what happens next.
    ///
    /// One camera that is not there would otherwise warn every couple of
    /// seconds and bury everything else in the log, so only the first failure
    /// does.
    pub fn scan(&mut self, outcome: Result<BroadcastTicket, String>) -> (res: (ScanState, Next))
        ensures
            match outcome {
                Ok(ticket) => res.0@ == ScanStateView::Found(ticket@) && res.1 == Next::Done
                    && *final(self) == *old(self),
                Err(problem) => res.0@ == ScanStateView::Failed(problem@) && res.1
                    == (Next::Reopen { warn: !old(self).warned() }) && final(self).warned(),
            },
    {
        match outcome {
            Ok(ticket) => (ScanState::Found(ticket), Next::Done),
            Err(problem) => {
                let warn: bool = !self.said_so;
                self.said_so = true;
                (ScanState::Failed(problem), Next::Reopen { warn })
            },
        }
    }
}

/// Returns the message for a camera that would not open.
pub fn open_problem(err: &str) -> (res: String)
    ensures
        res@ == "the camera would not open: "@ + err@,
{
    "the camera would not open: ".to_owned().concat(err)
}

/// What a read of the camera gave instead of a frame.
#[derive(Debug, PartialEq, Eq)]
pub enum Outage {
    /// The camera has no more frames.
    Ended,
    /// The camera reported an error.
    Failed(String),
}

/// Returns the message for a camera that stopped producing frames.
pub fn read_problem(outage: Outage) -> (res: String)
    ensures
        res@ == match outage {
            Outage::Ended => "the camera stopped"@,
            Outage::Failed(err) => "the camera failed: "@ + err@,
        },
{
    match outage {
        Outage::Ended => "the camera stopped".to_owned(),
        Outage::Failed(err) => "the camera failed: ".to_owned().concat(err.as_str()),
    }
}

/// What came of looking at one frame.
#[derive(Debug, PartialEq, Eq)]
pub enum Verdict {
    /// The frame holds no code that reads.
    Nothing,
    /// The frame holds a code that is not a ticket.
    NotATicket,
    /// The frame holds a ticket.
    Found(BroadcastTicket),
}

/// A [`Verdict`] with its texts as character sequences.
pub enum VerdictView {
    Nothing,
    NotATicket,
    Found(TicketView),
}

impl View for Verdict {
    type V = VerdictView;

    open spec fn view(&self) -> VerdictView {
        match *self {
            Verdict::Nothing => VerdictView::Nothing,
            Verdict::NotATicket => VerdictView::NotATicket,
            Verdict::Found(ticket) => VerdictView::Found(ticket@),
        }
    }
}

/// Decides which frames of an open camera are looked at.
///
/// Times are in milliseconds.
#[derive(Debug, PartialEq, Eq)]
pub struct Look {
    next_look: u64,
}

impl View for Look {
    type V = u64;

    closed spec fn view(&self) -> u64 {
        self.next_look
    }
}

impl Look {
    /// Starts at time `now`, with the first frame to be looked at.
    pub fn new(now: u64) -> (res: Self)
        ensures
            res@ == now,
    {
        Look { next_look: now }
    }

    /// Returns whether a frame that arrives at time `now` is looked at.
    pub fn due(&self, now: u64) -> (res: bool)
        ensures
            res == (now >= self@),
    {
        now >= self.next_look
    }

    /// Puts the next look off, after a frame whose pixels could not be read or
    /// that was decoded until time `now`.
    ///
    /// The interval is a gap between decodes rather than a period each one has
    /// to fit inside: a decode slower than the interval would otherwise leave
    /// the next frame already past the deadline. A download that fails once
    /// will fail again, so it restarts the interval as well.
    pub fn put_off(&mut self, now: u64)
        requires
            now + DECODE_INTERVAL <= u64::MAX,
        ensures
            final(self)@ == now + DECODE_INTERVAL,
    {
        self.next_look = now + DECODE_INTERVAL;
    }

    /// Takes what a frame held: the ticket that its text parses as, or `None`
    /// inside where the text is no ticket.
    pub fn judge(found: Option<Option<BroadcastTicket>>) -> (res: Verdict)
        ensures
            res@ == match found {
                None => VerdictView::Nothing,
                Some(None) => VerdictView::NotATicket,
                Some(Some(ticket)) => VerdictView::Found(ticket@),
            },
    {
        match found {
            None => Verdict::Nothing,
            Some(None) => Verdict::NotATicket,
            Some(Some(ticket)) => Verdict::Found(ticket),
        }
    }
}

/// A grayscale image: one byte per pixel, rows tightly packed.
///
/// This is the Y plane of a captured frame, which is exactly what a QR decoder
/// wants. Nothing converts to RGB along the way, because a QR code carries no
/// color and the round trip would cost two passes over the pixels.
#[derive(Debug, PartialEq, Eq)]
pub struct Luma {
    pub width: u32,
    pub height: u32,
    pub data: Vec<u8>,
}

impl Luma {
    /// Whether there is a byte for each pixel.
    pub open spec fn wf(self) -> bool {
        self.width * self.height <= self.data@.len()
    }

    /// Returns the pixel at column `x` of row `y`.
    pub fn pixel(&self, x: usize, y: usize) -> (res: u8)
        requires
            self.wf(),
            x < self.width,
            y < self.height,
        ensures
            res == self.data@[y * self.width + x],
    {
        let len: usize = self.data.len();
        let width: usize = self.width as usize;
        assert(y * width + x < self.width * self.height) by (nonlinear_arith)
            requires
                x < width,
                y < self.height,
                width == self.width,
        ;
        assert(0 <= y * width) by (nonlinear_arith)
            requires
                y >= 0,
                width >= 0,
        ;
        assert(y * width + x < len);
        self.data[y * width + x]
    }
}

/// Copies the luma plane out of the planes of a frame, which start with it.
pub fn split_luma(planes: &[u8], width: u32, height: u32) -> (res: Luma)
    requires
        width * height <= planes@.len(),
    ensures
        res.width == width,
        res.height == height,
        res.data@ == planes@.take(width * height),
        res.wf(),
{
    assert(0 <= width * height) by (nonlinear_arith)
        requires
            width >= 0,
            height >= 0,
    ;
    let len: usize = planes.len();
    assert(width * height <= len);
    let size: usize = width as usize * height as usize;
    let mut data: Vec<u8> = Vec::new();
    let mut i: usize = 0;
    while i < size
        invariant
            i <= size <= planes@.len(),
            data@ =~= planes@.take(i as int),
        decreases size - i,
    {
        data.push(planes[i]);
        i += 1;
    }
    Luma { width, height, data }
}

/// Texts that may be missing, by their views.
pub open spec fn opt_texts(list: Seq<Option<String>>) -> Seq<Option<Seq<char>>> {
    Seq::new(list.len(), |i: int| text::opt_text(list[i]))
}

/// The first text that is there.
pub open spec fn first_read(texts: Seq<Option<Seq<char>>>) -> Option<Seq<char>>
    decreases texts.len(),
{
    if texts.len() == 0 {
        None
    } else if texts[0] is Some {
        texts[0]
    } else {
        first_read(texts.skip(1))
    }
}

/// Returns the first code that reads among those that were found: each is its
/// text, or `None` where it does not decode.
///
/// A picture can hold several codes, and a partly obscured one detects as a
/// grid that will not decode, so this takes the first that reads rather than
/// the first that was found.
pub fn first_text(found: Vec<Option<String>>) -> (res: Option<String>)
    ensures
        text::opt_text(res) == first_read(opt_texts(found@)),
{
    let ghost all = opt_texts(found@);
    let mut i: usize = 0;
    assert(all.skip(0) =~= all);
    while i < found.len()
        invariant
            i <= found@.len(),
            all == opt_texts(found@),
            first_read(all) == first_read(all.skip(i as int)),
        decreases found@.len() - i,
    {
        let ghost rest = all.skip(i as int);
        assert(rest[0] == all[i as int]);
        if let Some(text) = &found[i] {
            return Some(text.clone());
        }
        assert(rest.skip(1) =~= all.skip(i + 1));
        i += 1;
    }
    None
}

/// A code that does not decode hides none that does: what is read is what some
/// grid says, and nothing is read only where no grid says anything.
pub proof fn law_the_first_code_that_reads_is_taken(texts: Seq<Option<Seq<char>>>)
    ensures
        first_read(texts) is Some ==> texts.contains(first_read(texts)),
        first_read(texts) is None ==> forall|i: int|
            0 <= i < texts.len() ==> (#[trigger] texts[i]) is None,
    decreases texts.len(),
{
    if texts.len() > 0 {
        let rest = texts.skip(1);
        law_the_first_code_that_reads_is_taken(rest);
        if texts[0] is None {
            if first_read(rest) is Some {
                let at = choose|at: int| 0 <= at < rest.len() && rest[at] == first_read(rest);
                assert(texts[at + 1] == first_read(rest));
            } else {
                assert forall|i: int| 0 <= i < texts.len() implies (#[trigger] texts[i]) is None by {
                    if i > 0 {
                        assert(rest[i - 1] == texts[i]);
                    }
                }
            }
        } else {
            assert(texts[0] == first_read(texts));
        }
    }
}

/// The code that is taken is the first that reads: every grid before it did not.
pub proof fn law_nothing_that_reads_is_passed_over(
    before: Seq<Option<Seq<char>>>,
    read: Seq<char>,
    after: Seq<Option<Seq<char>>>,
)
    requires
        forall|i: int| 0 <= i < before.len() ==> (#[trigger] before[i]) is None,
    ensures
        first_read(before.push(Some(read)) + after) == Some(read),
    decreases before.len(),
{
    let all = before.push(Some(read)) + after;
    if before.len() > 0 {
        let rest = before.skip(1);
        assert(all[0] == before[0]);
        assert(all.skip(1) =~= rest.push(Some(read)) + after);
        law_nothing_that_reads_is_passed_over(rest, read, after);
    } else {
        assert(all[0] == Some(read));
    }
}

/// The banner says what the scanner saw: nothing while it looks, the broadcast
/// that a ticket names, and the reason of a failure.
pub proof fn law_the_banner_says_what_was_seen(ticket: TicketView, problem: Seq<char>)
    ensures
        note_of(ScanStateView::Looking) is None,
        note_of(ScanStateView::NotATicket) is Some,
        note_of(ScanStateView::Found(ticket)) == Some("connecting to "@ + ticket.name),
        note_of(ScanStateView::Failed(problem)) == Some(problem),
{
}

/// The state of a scan is seen as what it is, with what it holds.
pub proof fn law_a_scan_is_seen_as_it_is(one: ScanState)
    ensures
        one matches ScanState::Looking ==> one@ == ScanStateView::Looking,
        one matches ScanState::NotATicket ==> one@ == ScanStateView::NotATicket,
        one matches ScanState::Found(ticket) ==> one@ == ScanStateView::Found(ticket@),
        one matches ScanState::Failed(problem) ==> one@ == ScanStateView::Failed(problem@),
{
}

/// A verdict is seen as what it is, with what it holds.
pub proof fn law_a_verdict_is_seen_as_it_is(one: Verdict)
    ensures
        one matches Verdict::Nothing ==> one@ == VerdictView::Nothing,
        one matches Verdict::NotATicket ==> one@ == VerdictView::NotATicket,
        one matches Verdict::Found(ticket) ==> one@ == VerdictView::Found(ticket@),
{
}

} // verus!
