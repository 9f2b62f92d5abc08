//! `irl watch`: subscribe to a remote broadcast and play it.
//!
//! Unless `--rendition` pins one, the player switches renditions to follow the
//! downlink. `--scan` opens the window on the camera and connects to the ticket
//! in a QR code held up to it (see [`crate::scan`]).
//!
//! [`WatchState`] is the player window with its scan, connecting and stopped
//! screens. The window performs what its methods return and hands the outcome
//! back.

use vstd::prelude::*;

use crate::args::WatchArgs;
use crate::call::Arrival;
use crate::ids::{self, BroadcastTicket, TicketView};
use crate::playback::{self, CatalogWait};
use crate::text;

verus! {

/// The top bar title while nothing is playing.
pub const IDLE_TITLE: &'static str = "irl watch";

/// How many milliseconds pass before the window is woken while nothing draws it.
///
/// A dial can finish while the window is hidden, and the state machine still has
/// to pick it up.
pub const HEARTBEAT: u64 = 100;

/// How many characters of a broadcast name a button label shows.
pub const LABEL_CHARS: usize = 24;

/// How many seconds a dial from the window may take before it fails.
///
/// A running publisher answers within a few seconds even over a relay. Twenty
/// seconds leave room for a slow hole-punch. The terminal path has no limit.
pub const DIAL_DEADLINE: u64 = 20;

/// How many seconds the scanner ignores a ticket whose dial just failed.
pub const REDIAL_WAIT: u64 = 3;

/// The cap for [`REDIAL_WAIT`] as it doubles.
pub const REDIAL_WAIT_MAX: u64 = 30;

/// Where the first ticket comes from, and who dials it.
#[derive(Debug, PartialEq, Eq)]
pub enum Start {
    /// A ticket the terminal dials before any window opens.
    Ticket(BroadcastTicket),
    /// A ticket the window dials, so `--scan` has a screen to cancel into.
    TicketInWindow(BroadcastTicket),
    /// No ticket: the camera reads one.
    Scan,
}

/// A [`Start`] with its texts as character sequences.
pub enum StartView {
    Ticket(TicketView),
    TicketInWindow(TicketView),
    Scan,
}

impl View for Start {
    type V = StartView;

    open spec fn view(&self) -> StartView {
        match *self {
            Start::Ticket(ticket) => StartView::Ticket(ticket@),
            Start::TicketInWindow(ticket) => StartView::TicketInWindow(ticket@),
            Start::Scan => StartView::Scan,
        }
    }
}

/// Where the first ticket comes from, for `--scan` and the ticket that the
/// arguments name.
pub open spec fn start_of(scan: bool, named: Result<TicketView, Seq<char>>) -> Result<
    StartView,
    Seq<char>,
> {
    match named {
        Ok(ticket) => if scan {
            Ok(StartView::TicketInWindow(ticket))
        } else {
            Ok(StartView::Ticket(ticket))
        },
        Err(problem) => if scan {
            Ok(StartView::Scan)
        } else {
            Err(problem + ", or pass --scan to read one off a QR code"@)
        },
    }
}

/// Decides where the first ticket comes from and who dials it.
///
/// With `--scan`, a ticket is dialed from the window, because the machines
/// `--scan` is for often have no keyboard to press Ctrl+C on.
///
/// Fails if nothing names a broadcast and `--scan` is not set.
pub fn start(args: &WatchArgs) -> (res: Result<Start, String>)
    ensures
        text::outcome(res) == start_of(args.scan, args.remote.named()),
{
    match args.remote.ticket() {
        Ok(ticket) => if args.scan {
            Ok(Start::TicketInWindow(ticket))
        } else {
            Ok(Start::Ticket(ticket))
        },
        Err(problem) => if args.scan {
            Ok(Start::Scan)
        } else {
            Err(problem.concat(", or pass --scan to read one off a QR code"))
        },
    }
}

/// Which video rendition the player opens.
#[derive(Debug, PartialEq, Eq)]
pub enum VideoMode {
    /// None: an unused video decoder would still cost a core.
    Off,
    /// The one of this name.
    Pinned(String),
    /// Whichever the player picks by default.
    Automatic,
}

/// A [`VideoMode`] with its texts as character sequences.
pub enum VideoModeView {
    Off,
    Pinned(Seq<char>),
    Automatic,
}

impl View for VideoMode {
    type V = VideoModeView;

    open spec fn view(&self) -> VideoModeView {
        match *self {
            VideoMode::Off => VideoModeView::Off,
            VideoMode::Pinned(name) => VideoModeView::Pinned(name@),
            VideoMode::Automatic => VideoModeView::Automatic,
        }
    }
}

/// The rendition for `--no-video` and `--rendition`.
pub open spec fn mode_of(no_video: bool, rendition: Option<Seq<char>>) -> VideoModeView {
    match (no_video, rendition) {
        (true, _) => VideoModeView::Off,
        (false, Some(name)) => VideoModeView::Pinned(name),
        (false, None) => VideoModeView::Automatic,
    }
}

/// What happened on the way to a playing broadcast.
#[derive(Debug)]
pub enum ConnectEvent {
    /// The peer answered the subscription.
    Subscribed,
    /// The subscription failed.
    NotSubscribed(String),
    /// The deadline passed before the peer answered.
    Late,
    /// The wait for the catalog is over.
    Catalog(CatalogWait),
    /// The catalog was asked for the pinned rendition, and why it lacks it.
    Checked(Result<(), String>),
    /// The player was started.
    Playing(Result<(), String>),
}

/// What to do next on the way to a playing broadcast.
#[derive(Debug, PartialEq, Eq)]
pub enum ConnectNext {
    /// Wait for the catalog. A broadcast without one fails here instead of
    /// opening a black window.
    AwaitCatalog,
    /// Look this rendition up in the catalog.
    Check(String),
    /// Start the player.
    Play(VideoMode),
    /// The broadcast is open and playing.
    Connected,
}

/// A [`ConnectNext`] with its texts as character sequences.
pub enum ConnectNextView {
    AwaitCatalog,
    Check(Seq<char>),
    Play(VideoModeView),
    Connected,
}

impl View for ConnectNext {
    type V = ConnectNextView;

    open spec fn view(&self) -> ConnectNextView {
        match *self {
            ConnectNext::AwaitCatalog => ConnectNextView::AwaitCatalog,
            ConnectNext::Check(name) => ConnectNextView::Check(name@),
            ConnectNext::Play(mode) => ConnectNextView::Play(mode@),
            ConnectNext::Connected => ConnectNextView::Connected,
        }
    }
}

/// The message for a peer that did not answer within `deadline` seconds.
pub open spec fn no_answer(ticket: TicketView, deadline: u64) -> Seq<char> {
    "no answer from "@ + ticket.endpoint.short() + " within "@ + text::decimal(deadline as nat)
        + "s: is the publisher running?"@
}

/// The step after `event`.
pub open spec fn connect_step(
    ticket: TicketView,
    no_video: bool,
    rendition: Option<Seq<char>>,
    deadline: u64,
    event: ConnectEvent,
) -> Result<ConnectNextView, Seq<char>> {
    match event {
        ConnectEvent::Subscribed => Ok(ConnectNextView::AwaitCatalog),
        ConnectEvent::NotSubscribed(problem) => Err(problem@),
        ConnectEvent::Late => Err(no_answer(ticket, deadline)),
        ConnectEvent::Catalog(CatalogWait::Closed) => Err(
            "the broadcast closed before it described itself"@,
        ),
        ConnectEvent::Catalog(CatalogWait::TimedOut) => Err(
            "the broadcast sent no catalog within 15s, or sent one this build could not read (the log says which)"@,
        ),
        ConnectEvent::Catalog(CatalogWait::Arrived) => match rendition {
            Some(name) => Ok(ConnectNextView::Check(name)),
            None => Ok(ConnectNextView::Play(mode_of(no_video, None))),
        },
        ConnectEvent::Checked(Ok(_)) => Ok(ConnectNextView::Play(mode_of(no_video, rendition))),
        ConnectEvent::Checked(Err(problem)) => Err(problem@),
        ConnectEvent::Playing(Ok(_)) => Ok(ConnectNextView::Connected),
        ConnectEvent::Playing(Err(problem)) => Err(problem@),
    }
}

/// Connects to `ticket` and starts playing, one step at a time.
///
/// `deadline` is what the dial was given, in seconds. It bounds only the
/// subscribe, not the wait for the catalog. Fails if the peer does not answer
/// in time, if the catalog does not arrive, or if the broadcast does not offer
/// the pinned rendition.
pub fn connect(
    ticket: &BroadcastTicket,
    no_video: bool,
    rendition: &Option<String>,
    deadline: u64,
    event: ConnectEvent,
) -> (res: Result<ConnectNext, String>)
    ensures
        text::outcome(res) == connect_step(
            ticket@,
            no_video,
            text::opt_text(*rendition),
            deadline,
            event,
        ),
{
    match event {
        ConnectEvent::Subscribed => Ok(ConnectNext::AwaitCatalog),
        ConnectEvent::NotSubscribed(problem) => Err(problem),
        ConnectEvent::Late => Err(
            "no answer from ".to_owned().concat(ticket.endpoint.fmt_short().as_str()).concat(
                " within ",
            ).concat(text::decimal_text(deadline).as_str()).concat("s: is the publisher running?"),
        ),
        ConnectEvent::Catalog(wait) => match playback::catalog(wait) {
            Err(problem) => Err(problem),
            Ok(_) => match rendition {
                Some(name) => Ok(ConnectNext::Check(name.clone())),
                None => Ok(ConnectNext::Play(video_mode(no_video, rendition))),
            },
        },
        ConnectEvent::Checked(Ok(_)) => Ok(ConnectNext::Play(video_mode(no_video, rendition))),
        ConnectEvent::Checked(Err(problem)) => Err(problem),
        ConnectEvent::Playing(Ok(_)) => Ok(ConnectNext::Connected),
        ConnectEvent::Playing(Err(problem)) => Err(problem),
    }
}

/// Returns the rendition for `--no-video` and `--rendition`.
pub fn video_mode(no_video: bool, rendition: &Option<String>) -> (res: VideoMode)
    ensures
        res@ == mode_of(no_video, text::opt_text(*rendition)),
{
    match (no_video, rendition) {
        (true, _) => VideoMode::Off,
        (false, Some(name)) => VideoMode::Pinned(name.clone()),
        (false, None) => VideoMode::Automatic,
    }
}

/// The label for a button that goes back to the broadcast `name`.
pub open spec fn label_for(name: Seq<char>) -> Seq<char> {
    if name.len() > LABEL_CHARS {
        "Back to "@ + name.take(LABEL_CHARS as int) + "..."@
    } else {
        "Back to "@ + name
    }
}

/// Returns the label for a button that goes back to the broadcast `name`.
pub fn back_label(name: &str) -> (res: String)
    ensures
        res@ == label_for(name@),
{
    if name.unicode_len() > LABEL_CHARS {
        let start = name.substring_char(0, LABEL_CHARS);
        assert(start@ =~= name@.take(LABEL_CHARS as int));
        "Back to ".to_owned().concat(start).concat("...")
    } else {
        "Back to ".to_owned().concat(name)
    }
}

/// A wait that doubled this many times.
pub open spec fn doubled(wait: nat, times: nat) -> nat
    decreases times,
{
    if times == 0 {
        wait
    } else {
        2 * doubled(wait, (times - 1) as nat)
    }
}

proof fn lemma_doubled_grows(wait: nat, fewer: nat, more: nat)
    requires
        fewer <= more,
    ensures
        doubled(wait, fewer) <= doubled(wait, more),
    decreases more,
{
    if fewer < more {
        lemma_doubled_grows(wait, fewer, (more - 1) as nat);
    }
}

/// How long the scanner ignores a ticket that failed this often before: the
/// base interval, doubled with each failure, up to the ceiling.
pub open spec fn redial_wait(strikes: u32) -> nat {
    let wait = doubled(REDIAL_WAIT as nat, strikes as nat);
    if wait <= REDIAL_WAIT_MAX {
        wait
    } else {
        REDIAL_WAIT_MAX as nat
    }
}

/// A ticket whose dial failed, and how many times in a row.
///
/// The code is usually still in front of the camera. Without this, the scanner
/// reads it again at once and redials a peer that just failed. A successful
/// dial clears it.
#[derive(Debug, PartialEq, Eq)]
pub struct Refused {
    pub ticket: BroadcastTicket,
    /// Consecutive failures, starting at zero.
    pub strikes: u32,
}

impl Refused {
    /// Returns how many seconds the scanner ignores this ticket.
    ///
    /// The wait doubles with each failure.
    pub fn wait(&self) -> (res: u64)
        ensures
            res == redial_wait(self.strikes),
    {
        let mut wait: u64 = REDIAL_WAIT;
        let mut times: u32 = 0;
        while times < self.strikes && wait < REDIAL_WAIT_MAX
            invariant
                times <= self.strikes,
                wait == doubled(REDIAL_WAIT as nat, times as nat),
                wait < 2 * REDIAL_WAIT_MAX,
            decreases self.strikes - times,
        {
            wait = wait * 2;
            times += 1;
        }
        proof {
            lemma_doubled_grows(REDIAL_WAIT as nat, times as nat, self.strikes as nat);
        }
        if wait < REDIAL_WAIT_MAX {
            wait
        } else {
            REDIAL_WAIT_MAX
        }
    }
}

/// A ticket that the scanner ignores for a while.
#[derive(Debug, PartialEq, Eq)]
pub struct Skip {
    pub ticket: BroadcastTicket,
    /// Until when, in milliseconds.
    pub until: u64,
}

/// A [`Skip`] with its texts as character sequences.
pub struct SkipView {
    pub ticket: TicketView,
    pub until: u64,
}

impl View for Skip {
    type V = SkipView;

    open spec fn view(&self) -> SkipView {
        SkipView { ticket: self.ticket@, until: self.until }
    }
}

/// An optional skip by its view.
pub open spec fn opt_skip(skip: Option<Skip>) -> Option<SkipView> {
    match skip {
        Some(skip) => Some(skip@),
        None => None,
    }
}

/// What the window shows when it opens.
#[derive(Debug, PartialEq, Eq)]
pub enum Opening {
    /// A subscription the terminal already opened.
    Watching(BroadcastTicket),
    /// A ticket to dial from inside the window.
    Connecting(BroadcastTicket),
    /// The scan screen.
    Scanning,
}

/// What the window is doing.
///
/// A `previous` is the broadcast that a screen without a picture offers to go
/// back to. Going back dials the ticket again.
#[derive(Debug, PartialEq, Eq)]
pub enum Mode {
    /// Idle after a cancelled dial.
    Stopped { previous: Option<BroadcastTicket> },
    /// Looking for a ticket in the camera picture.
    Scanning { previous: Option<BroadcastTicket> },
    /// Dialing a ticket.
    Connecting { ticket: BroadcastTicket, previous: Option<BroadcastTicket> },
    /// Playing a broadcast, whose name is in the top bar.
    Watching { ticket: BroadcastTicket },
}

/// A [`Mode`] with its texts as character sequences.
pub enum ModeView {
    Stopped { previous: Option<TicketView> },
    Scanning { previous: Option<TicketView> },
    Connecting { ticket: TicketView, previous: Option<TicketView> },
    Watching { ticket: TicketView },
}

impl View for Mode {
    type V = ModeView;

    open spec fn view(&self) -> ModeView {
        match *self {
            Mode::Stopped { previous } => ModeView::Stopped { previous: ids::opt_ticket(previous) },
            Mode::Scanning { previous } => ModeView::Scanning {
                previous: ids::opt_ticket(previous),
            },
            Mode::Connecting { ticket, previous } => ModeView::Connecting {
                ticket: ticket@,
                previous: ids::opt_ticket(previous),
            },
            Mode::Watching { ticket } => ModeView::Watching { ticket: ticket@ },
        }
    }
}

/// What has to be closed when a screen is replaced.
#[derive(Debug, Clone, Copy, PartialEq, Eq, Structural)]
pub enum Closing {
    /// Nothing is open.
    Nothing,
    /// The subscription of the broadcast that plays.
    Subscription,
    /// The dial in flight: its channel closes, then the subscription it may
    /// have answered with, then its task is aborted. A dial that answers later
    /// closes its own subscription.
    Dial,
}

/// What the window does after an event.
#[derive(Debug, PartialEq, Eq)]
pub enum Act {
    /// Nothing.
    Stay,
    /// Close what is open, if anything, and dial this ticket.
    Dial(Closing, BroadcastTicket),
    /// Close what is open, if anything, and open the camera, ignoring a ticket
    /// that just failed.
    Scan(Closing, Option<Skip>),
    /// Close what is open and stay idle.
    Stop(Closing),
    /// Play the broadcast that was dialed.
    Play,
}

/// An [`Act`] with its texts as character sequences.
pub enum ActView {
    Stay,
    Dial(Closing, TicketView),
    Scan(Closing, Option<SkipView>),
    Stop(Closing),
    Play,
}

impl View for Act {
    type V = ActView;

    open spec fn view(&self) -> ActView {
        match *self {
            Act::Stay => ActView::Stay,
            Act::Dial(closing, ticket) => ActView::Dial(closing, ticket@),
            Act::Scan(closing, skip) => ActView::Scan(closing, opt_skip(skip)),
            Act::Stop(closing) => ActView::Stop(closing),
            Act::Play => ActView::Play,
        }
    }
}

/// The state of the player window.
#[derive(Debug, PartialEq, Eq)]
pub struct WatchState {
    mode: Mode,
    message: Option<String>,
    refused: Option<Refused>,
}

/// A [`WatchState`] as mathematical values.
pub struct WatchView {
    pub mode: ModeView,
    /// The outcome of the last dial, for the next screen without a picture.
    pub message: Option<Seq<char>>,
    /// The ticket the last dial failed on, and how often it failed before.
    pub refused: Option<(TicketView, u32)>,
}

impl View for WatchState {
    type V = WatchView;

    closed spec fn view(&self) -> WatchView {
        WatchView {
            mode: self.mode@,
            message: text::opt_text(self.message),
            refused: match self.refused {
                Some(refused) => Some((refused.ticket@, refused.strikes)),
                None => None,
            },
        }
    }
}

impl WatchView {
    /// Whether another failed dial can be counted.
    pub open spec fn can_count(self) -> bool {
        match self.refused {
            Some((_, strikes)) => strikes < u32::MAX,
            None => true,
        }
    }

    /// What has to be closed when the screen is replaced.
    pub open spec fn closing(self) -> Closing {
        match self.mode {
            ModeView::Watching { .. } => Closing::Subscription,
            ModeView::Connecting { .. } => Closing::Dial,
            _ => Closing::Nothing,
        }
    }

    /// The window while it dials `ticket`.
    pub open spec fn dialing(self, ticket: TicketView, previous: Option<TicketView>) -> WatchView {
        WatchView {
            mode: ModeView::Connecting { ticket, previous },
            message: None,
            refused: self.refused,
        }
    }

    /// The window on the scan screen.
    pub open spec fn scanning(self, previous: Option<TicketView>) -> WatchView {
        WatchView { mode: ModeView::Scanning { previous }, ..self }
    }

    /// What the scanner ignores from time `now` on.
    pub open spec fn skipping(self, now: u64) -> Option<SkipView> {
        match self.refused {
            Some((ticket, strikes)) => Some(
                SkipView { ticket, until: (now + 1000 * redial_wait(strikes)) as u64 },
            ),
            None => None,
        }
    }

    /// The window after a dial was cancelled.
    pub open spec fn stopped(self, name: Seq<char>, previous: Option<TicketView>) -> WatchView {
        WatchView {
            mode: ModeView::Stopped { previous },
            message: Some("stopped connecting to "@ + name),
            refused: self.refused,
        }
    }

    /// The window once the broadcast it dialed plays.
    pub open spec fn connected(self, ticket: TicketView) -> WatchView {
        WatchView { mode: ModeView::Watching { ticket }, message: None, refused: None }
    }

    /// How often a dial of `ticket` failed before, when it fails now.
    pub open spec fn strikes(self, ticket: TicketView) -> u32 {
        match self.refused {
            Some((refused, strikes)) => if refused == ticket {
                (strikes + 1) as u32
            } else {
                0
            },
            None => 0,
        }
    }

    /// The window after a dial of `ticket` failed.
    pub open spec fn failed(
        self,
        ticket: TicketView,
        previous: Option<TicketView>,
        message: Seq<char>,
    ) -> WatchView {
        WatchView {
            mode: ModeView::Scanning { previous },
            message: Some(message),
            refused: Some((ticket, self.strikes(ticket))),
        }
    }
}

/// The outcome of a dial, where its channel holds one.
pub open spec fn dial_outcome(arrived: Arrival<Result<(), String>>) -> Option<
    Result<(), Seq<char>>,
> {
    match arrived {
        Arrival::Empty => None,
        Arrival::Closed => Some(Err("the connection attempt stopped"@)),
        Arrival::Ready(Ok(_)) => Some(Ok(())),
        Arrival::Ready(Err(message)) => Some(Err(message@)),
    }
}

/// What the panel over the scan picture holds.
#[derive(Debug, PartialEq, Eq)]
pub struct ScanPanel {
    /// The label of the button that goes back.
    pub back: Option<String>,
    /// The outcome of the last dial.
    pub message: Option<String>,
}

impl WatchState {
    /// Creates the state of a window that opens on `opening`.
    pub fn new(opening: Opening) -> (res: Self)
        ensures
            res@ == (WatchView {
                mode: match opening {
                    Opening::Watching(ticket) => ModeView::Watching { ticket: ticket@ },
                    Opening::Connecting(ticket) => ModeView::Connecting {
                        ticket: ticket@,
                        previous: None,
                    },
                    Opening::Scanning => ModeView::Scanning { previous: None },
                },
                message: None,
                refused: None,
            }),
    {
        WatchState {
            mode: match opening {
                Opening::Watching(ticket) => Mode::Watching { ticket },
                Opening::Connecting(ticket) => Mode::Connecting { ticket, previous: None },
                Opening::Scanning => Mode::Scanning { previous: None },
            },
            message: None,
            refused: None,
        }
    }

    /// Returns what the window is doing.
    pub fn mode(&self) -> (res: &Mode)
        ensures
            res@ == self@.mode,
    {
        &self.mode
    }

    /// Takes the ticket the camera read, if it has read one.
    pub fn poll_scan(&mut self, read: Option<BroadcastTicket>) -> (res: Act)
        ensures
            match (old(self)@.mode, read) {
                (ModeView::Scanning { previous }, Some(ticket)) => res@ == ActView::Dial(
                    Closing::Nothing,
                    ticket@,
                ) && final(self)@ == old(self)@.dialing(ticket@, previous),
                _ => res@ == ActView::Stay && final(self)@ == old(self)@,
            },
    {
        let previous = match &self.mode {
            Mode::Scanning { previous } => ids::clone_opt_ticket(previous),
            _ => {
                return Act::Stay;
            },
        };
        match read {
            Some(ticket) => self.dial(ticket, previous),
            None => Act::Stay,
        }
    }

    /// Takes the outcome of a dial that finished since the last pass, at time
    /// `now` in milliseconds.
    ///
    /// A failure goes back to the scan screen. It is counted, and clears once a
    /// dial succeeds.
    pub fn poll_connecting(&mut self, arrived: Arrival<Result<(), String>>, now: u64) -> (res: Act)
        requires
            old(self)@.can_count(),
            now + 1000 * REDIAL_WAIT_MAX <= u64::MAX,
        ensures
            match (old(self)@.mode, dial_outcome(arrived)) {
                (ModeView::Connecting { ticket, .. }, Some(Ok(_))) => res@ == ActView::Play
                    && final(self)@ == old(self)@.connected(ticket),
                (ModeView::Connecting { ticket, previous }, Some(Err(message))) => {
                    &&& final(self)@ == old(self)@.failed(ticket, previous, message)
                    &&& res@ == ActView::Scan(Closing::Dial, final(self)@.skipping(now))
                },
                _ => res@ == ActView::Stay && final(self)@ == old(self)@,
            },
    {
        let (ticket, previous) = match &self.mode {
            Mode::Connecting { ticket, previous } => (
                ticket.clone(),
                ids::clone_opt_ticket(previous),
            ),
            _ => {
                return Act::Stay;
            },
        };
        let message: String = match arrived {
            Arrival::Empty => {
                return Act::Stay;
            },
            Arrival::Closed => "the connection attempt stopped".to_owned(),
            Arrival::Ready(Ok(_)) => {
                self.message = None;
                self.refused = None;
                self.mode = Mode::Watching { ticket };
                return Act::Play;
            },
            Arrival::Ready(Err(message)) => message,
        };
        let strikes: u32 = match &self.refused {
            Some(refused) => if refused.ticket.same_as(&ticket) {
                refused.strikes + 1
            } else {
                0
            },
            None => 0,
        };
        self.message = Some(message);
        self.refused = Some(Refused { ticket, strikes });
        self.enter_scan(previous, now)
    }

    /// Subscribes to `ticket`, replacing whatever is on screen.
    ///
    /// `previous` is the broadcast that played before this dial.
    fn dial(&mut self, ticket: BroadcastTicket, previous: Option<BroadcastTicket>) -> (res: Act)
        ensures
            res@ == ActView::Dial(old(self)@.closing(), ticket@),
            final(self)@ == old(self)@.dialing(ticket@, ids::opt_ticket(previous)),
    {
        let closing = self.close_mode();
        self.message = None;
        self.mode = Mode::Connecting { ticket: ticket.clone(), previous };
        Act::Dial(closing, ticket)
    }

    /// Abandons the dial in flight and shows the stopped screen.
    ///
    /// The session to the peer stays cached in the transport, and the next dial
    /// to that peer reuses it.
    pub fn cancel_dial(&mut self) -> (res: Act)
        ensures
            match old(self)@.mode {
                ModeView::Connecting { ticket, previous } => res@ == ActView::Stop(Closing::Dial)
                    && final(self)@ == old(self)@.stopped(ticket.name, previous),
                _ => res@ == ActView::Stay && final(self)@ == old(self)@,
            },
    {
        let (name, previous) = match &self.mode {
            Mode::Connecting { ticket, previous } => (
                ticket.name.clone(),
                ids::clone_opt_ticket(previous),
            ),
            _ => {
                return Act::Stay;
            },
        };
        let closing = self.close_mode();
        self.message = Some("stopped connecting to ".to_owned().concat(name.as_str()));
        self.mode = Mode::Stopped { previous };
        Act::Stop(closing)
    }

    /// Closes whatever is on screen and opens the camera.
    ///
    /// The subscription closes because a small device cannot run a video
    /// decoder and the QR decoder at once.
    fn enter_scan(&mut self, previous: Option<BroadcastTicket>, now: u64) -> (res: Act)
        requires
            now + 1000 * REDIAL_WAIT_MAX <= u64::MAX,
        ensures
            res@ == ActView::Scan(old(self)@.closing(), old(self)@.skipping(now)),
            final(self)@ == old(self)@.scanning(ids::opt_ticket(previous)),
    {
        let skip: Option<Skip> = match &self.refused {
            Some(refused) => Some(
                Skip { ticket: refused.ticket.clone(), until: now + 1000 * refused.wait() },
            ),
            None => None,
        };
        let closing = self.close_mode();
        self.mode = Mode::Scanning { previous };
        Act::Scan(closing, skip)
    }

    /// Returns what the current mode holds open.
    pub fn close_mode(&self) -> (res: Closing)
        ensures
            res == self@.closing(),
    {
        match &self.mode {
            Mode::Watching { .. } => Closing::Subscription,
            Mode::Connecting { .. } => Closing::Dial,
            Mode::Stopped { .. } => Closing::Nothing,
            Mode::Scanning { .. } => Closing::Nothing,
        }
    }

    /// Returns whether the stats overlay is expanded, where `expanded` tells it
    /// of the broadcast that plays.
    ///
    /// An expanded overlay keeps the controls visible.
    pub fn overlay_expanded(&self, expanded: bool) -> (res: bool)
        ensures
            res == (self@.mode is Watching && expanded),
    {
        match &self.mode {
            Mode::Watching { .. } => expanded,
            _ => false,
        }
    }

    /// Takes a click on the screen shown after a cancelled dial.
    ///
    /// The camera does not reopen by itself. The QR code is usually still in
    /// front of it, and the scanner would dial it again within a third of a
    /// second.
    pub fn stopped_ui(&mut self, back: bool, rescan: bool, now: u64) -> (res: Act)
        requires
            now + 1000 * REDIAL_WAIT_MAX <= u64::MAX,
        ensures
            match old(self)@.mode {
                ModeView::Stopped { previous } => if back && previous is Some {
                    res@ == ActView::Dial(Closing::Nothing, previous->0) && final(self)@ == old(
                        self,
                    )@.dialing(previous->0, previous)
                } else if rescan {
                    res@ == ActView::Scan(Closing::Nothing, old(self)@.skipping(now))
                        && final(self)@ == old(self)@.scanning(previous)
                } else {
                    res@ == ActView::Stay && final(self)@ == old(self)@
                },
                _ => res@ == ActView::Stay && final(self)@ == old(self)@,
            },
    {
        let previous = match &self.mode {
            Mode::Stopped { previous } => ids::clone_opt_ticket(previous),
            _ => {
                return Act::Stay;
            },
        };
        match (back, previous) {
            (true, Some(ticket)) => {
                let again = ticket.clone();
                self.dial(again, Some(ticket))
            },
            (_, previous) => if rescan {
                self.enter_scan(previous, now)
            } else {
                Act::Stay
            },
        }
    }

    /// Returns the panel over the scan picture: the button to go back and the
    /// last error, where there is either.
    pub fn scan_panel(&self) -> (res: Option<ScanPanel>)
        ensures
            match self@.mode {
                ModeView::Scanning { previous } => match res {
                    None => previous is None && self@.message is None,
                    Some(panel) => {
                        &&& previous is Some || self@.message is Some
                        &&& text::opt_text(panel.back) == match previous {
                            Some(ticket) => Some(label_for(ticket.name)),
                            None => None,
                        }
                        &&& text::opt_text(panel.message) == self@.message
                    },
                },
                _ => res is None,
            },
    {
        let back: Option<String> = match &self.mode {
            Mode::Scanning { previous: Some(ticket) } => Some(back_label(ticket.name.as_str())),
            Mode::Scanning { previous: None } => None,
            _ => {
                return None;
            },
        };
        let message = text::clone_opt(&self.message);
        if message.is_none() && back.is_none() {
            return None;
        }
        Some(ScanPanel { back, message })
    }

    /// Takes a click on the button of the scan screen that goes back.
    pub fn scan_ui(&mut self, back: bool) -> (res: Act)
        ensures
            match old(self)@.mode {
                ModeView::Scanning { previous: Some(ticket) } => if back {
                    res@ == ActView::Dial(Closing::Nothing, ticket) && final(self)@ == old(
                        self,
                    )@.dialing(ticket, Some(ticket))
                } else {
                    res@ == ActView::Stay && final(self)@ == old(self)@
                },
                _ => res@ == ActView::Stay && final(self)@ == old(self)@,
            },
    {
        let ticket = match &self.mode {
            Mode::Scanning { previous: Some(ticket) } => ticket.clone(),
            _ => {
                return Act::Stay;
            },
        };
        if back {
            let again = ticket.clone();
            self.dial(again, Some(ticket))
        } else {
            Act::Stay
        }
    }

    /// Returns the heading of the connecting screen.
    pub fn connecting_heading(&self) -> (res: Option<String>)
        ensures
            text::opt_text(res) == match self@.mode {
                ModeView::Connecting { ticket, .. } => Some(
                    "connecting to "@ + ticket.name + " ..."@,
                ),
                _ => None,
            },
    {
        match &self.mode {
            Mode::Connecting { ticket, .. } => Some(
                "connecting to ".to_owned().concat(ticket.name.as_str()).concat(" ..."),
            ),
            _ => None,
        }
    }

    /// Takes a click on the button of the player that scans for a new ticket.
    pub fn watch_ui(&mut self, rescan: bool, now: u64) -> (res: Act)
        requires
            now + 1000 * REDIAL_WAIT_MAX <= u64::MAX,
        ensures
            match old(self)@.mode {
                ModeView::Watching { ticket } => if rescan {
                    res@ == ActView::Scan(Closing::Subscription, old(self)@.skipping(now))
                        && final(self)@ == old(self)@.scanning(Some(ticket))
                } else {
                    res@ == ActView::Stay && final(self)@ == old(self)@
                },
                _ => res@ == ActView::Stay && final(self)@ == old(self)@,
            },
    {
        let ticket = match &self.mode {
            Mode::Watching { ticket } => ticket.clone(),
            _ => {
                return Act::Stay;
            },
        };
        if rescan {
            self.enter_scan(Some(ticket), now)
        } else {
            Act::Stay
        }
    }

    /// Returns the outcome of the last dial.
    pub fn message(&self) -> (res: Option<String>)
        ensures
            text::opt_text(res) == self@.message,
    {
        text::clone_opt(&self.message)
    }
}

/// The wait starts at the base interval, never shrinks with another failure,
/// and stays at the ceiling.
pub proof fn law_the_wait_grows_to_the_ceiling(fewer: u32, more: u32)
    requires
        fewer <= more,
    ensures
        REDIAL_WAIT <= redial_wait(fewer) <= redial_wait(more) <= REDIAL_WAIT_MAX,
        redial_wait(0) == REDIAL_WAIT,
        more >= 4 ==> redial_wait(more) == REDIAL_WAIT_MAX,
        more < u32::MAX && 2 * redial_wait(more) <= REDIAL_WAIT_MAX ==> redial_wait(
            (more + 1) as u32,
        ) == 2 * redial_wait(more),
{
    lemma_doubled_grows(REDIAL_WAIT as nat, fewer as nat, more as nat);
    lemma_doubled_grows(REDIAL_WAIT as nat, 0, fewer as nat);
    assert(doubled(3, 4) == 48) by {
        reveal_with_fuel(doubled, 5);
    }
    if more >= 4 {
        lemma_doubled_grows(REDIAL_WAIT as nat, 4, more as nat);
    }
}

/// Each failure in a row on the same ticket counts one strike more, and a
/// failure on another ticket starts over.
pub proof fn law_failures_in_a_row_are_counted(
    state: WatchView,
    ticket: TicketView,
    previous: Option<TicketView>,
    message: Seq<char>,
    again: TicketView,
)
    requires
        state.strikes(ticket) < u32::MAX,
    ensures
        ({
            let failed = state.failed(ticket, previous, message);
            let next = failed.dialing(again, previous).failed(again, previous, message);
            next.refused == Some(
                (
                    again,
                    if again == ticket {
                        (state.strikes(ticket) + 1) as u32
                    } else {
                        0
                    },
                ),
            )
        }),
{
}

/// A dial that succeeds clears what was counted: the next failure is a first
/// one.
pub proof fn law_success_clears_the_refusal(
    state: WatchView,
    ticket: TicketView,
    next: TicketView,
    previous: Option<TicketView>,
    message: Seq<char>,
)
    ensures
        state.connected(ticket).refused is None,
        state.connected(ticket).message is None,
        state.connected(ticket).dialing(next, previous).failed(next, previous, message).refused
            == Some((next, 0u32)),
{
}

/// Neither a cancelled nor a failed dial loses the broadcast that played
/// before: going back dials it.
pub proof fn law_the_previous_broadcast_stays_in_reach(
    state: WatchView,
    ticket: TicketView,
    previous: TicketView,
    message: Seq<char>,
)
    ensures
        ({
            let dialing = state.scanning(Some(previous)).dialing(ticket, Some(previous));
            &&& dialing.stopped(ticket.name, Some(previous)).mode == (ModeView::Stopped {
                previous: Some(previous),
            })
            &&& dialing.failed(ticket, Some(previous), message).mode == (ModeView::Scanning {
                previous: Some(previous),
            })
            &&& dialing.stopped(ticket.name, Some(previous)).dialing(previous, Some(previous)).mode
                == (ModeView::Connecting { ticket: previous, previous: Some(previous) })
        }),
{
}

/// A ticket whose dial just failed is ignored by the scanner that opens next,
/// for at least the base interval.
pub proof fn law_a_failed_ticket_is_held_off(
    state: WatchView,
    ticket: TicketView,
    previous: Option<TicketView>,
    message: Seq<char>,
    now: u64,
)
    requires
        now + 1000 * REDIAL_WAIT_MAX <= u64::MAX,
    ensures
        ({
            let skip = state.failed(ticket, previous, message).skipping(now);
            &&& skip is Some
            &&& skip->0.ticket == ticket
            &&& now + 3000 <= skip->0.until <= now + 30_000
        }),
{
    let strikes = state.strikes(ticket);
    law_the_wait_grows_to_the_ceiling(strikes, strikes);
}

/// Whenever connecting says to play, the mode is the one that the flags ask for:
/// none under `--no-video`, the rendition that `--rendition` names, and whichever
/// the player picks otherwise. A rendition is looked up before it plays.
pub proof fn law_playing_heeds_the_flags(
    ticket: TicketView,
    no_video: bool,
    rendition: Option<Seq<char>>,
    deadline: u64,
    event: ConnectEvent,
)
    ensures
        ({
            let next = connect_step(ticket, no_video, rendition, deadline, event);
            &&& next matches Ok(ConnectNextView::Play(mode)) ==> {
                &&& no_video ==> mode is Off
                &&& !no_video && rendition is Some ==> mode == VideoModeView::Pinned(rendition->0)
                &&& !no_video && rendition is None ==> mode is Automatic
            }
            &&& next matches Ok(ConnectNextView::Check(name)) ==> rendition == Some(name)
            &&& next matches Ok(ConnectNextView::Play(mode)) ==> (rendition is Some ==> event
                is Checked)
        }),
{
}

/// Connecting goes from the subscription over the catalog to the player, and a
/// part that fails ends it with that part's own reason.
pub proof fn law_connecting_goes_step_by_step(
    ticket: TicketView,
    no_video: bool,
    rendition: Option<Seq<char>>,
    deadline: u64,
    problem: String,
)
    ensures
        connect_step(ticket, no_video, rendition, deadline, ConnectEvent::Subscribed) == Ok::<
            ConnectNextView,
            Seq<char>,
        >(ConnectNextView::AwaitCatalog),
        rendition is None ==> (connect_step(
            ticket,
            no_video,
            rendition,
            deadline,
            ConnectEvent::Catalog(CatalogWait::Arrived),
        ) matches Ok(next) && next is Play),
        rendition is Some ==> (connect_step(
            ticket,
            no_video,
            rendition,
            deadline,
            ConnectEvent::Catalog(CatalogWait::Arrived),
        ) matches Ok(next) && next is Check),
        connect_step(ticket, no_video, rendition, deadline, ConnectEvent::Checked(Ok(()))) matches Ok(
            next,
        ) && next is Play,
        connect_step(ticket, no_video, rendition, deadline, ConnectEvent::Playing(Ok(()))) == Ok::<
            ConnectNextView,
            Seq<char>,
        >(ConnectNextView::Connected),
        connect_step(ticket, no_video, rendition, deadline, ConnectEvent::NotSubscribed(problem))
            == Err::<ConnectNextView, Seq<char>>(problem@),
        connect_step(
            ticket,
            no_video,
            rendition,
            deadline,
            ConnectEvent::Checked(Err(problem)),
        ) == Err::<ConnectNextView, Seq<char>>(problem@),
        connect_step(
            ticket,
            no_video,
            rendition,
            deadline,
            ConnectEvent::Playing(Err(problem)),
        ) == Err::<ConnectNextView, Seq<char>>(problem@),
        connect_step(ticket, no_video, rendition, deadline, ConnectEvent::Late) is Err,
        connect_step(
            ticket,
            no_video,
            rendition,
            deadline,
            ConnectEvent::Catalog(CatalogWait::Closed),
        ) is Err,
        connect_step(
            ticket,
            no_video,
            rendition,
            deadline,
            ConnectEvent::Catalog(CatalogWait::TimedOut),
        ) is Err,
{
}

/// A ticket that is named is the one that is dialed, from the window under
/// `--scan` and from the terminal otherwise. Where none is named, `--scan` reads
/// one and nothing else can start.
pub proof fn law_the_named_ticket_is_dialed(
    scan: bool,
    ticket: TicketView,
    problem: Seq<char>,
)
    ensures
        scan ==> start_of(scan, Ok(ticket)) == Ok::<StartView, Seq<char>>(
            StartView::TicketInWindow(ticket),
        ),
        !scan ==> start_of(scan, Ok(ticket)) == Ok::<StartView, Seq<char>>(
            StartView::Ticket(ticket),
        ),
        start_of(scan, Err(problem)) is Ok <==> scan,
        scan ==> start_of(scan, Err(problem)) == Ok::<StartView, Seq<char>>(StartView::Scan),
{
}

/// A button shows a name whole where it is short, and its start elsewhere.
pub proof fn law_a_label_shows_the_name(name: Seq<char>)
    ensures
        name.len() <= LABEL_CHARS ==> label_for(name) == "Back to "@ + name,
        label_for(name).len() <= 8 + LABEL_CHARS + 3,
        name.len() > LABEL_CHARS ==> label_for(name).take(8 + LABEL_CHARS as int) == "Back to "@
            + name.take(LABEL_CHARS as int),
{
    reveal_strlit("Back to ");
    reveal_strlit("...");
    if name.len() > LABEL_CHARS {
        assert(label_for(name).take(8 + LABEL_CHARS as int) =~= "Back to "@ + name.take(
            LABEL_CHARS as int,
        ));
    }
}

/// Leaving a screen closes what it holds: a broadcast that plays is unsubscribed
/// and a dial in flight is dropped.
pub proof fn law_leaving_closes_what_is_open(
    state: WatchView,
    ticket: TicketView,
    previous: Option<TicketView>,
    message: Seq<char>,
)
    ensures
        state.connected(ticket).closing() == Closing::Subscription,
        state.dialing(ticket, previous).closing() == Closing::Dial,
        state.scanning(previous).closing() == Closing::Nothing,
        state.stopped(message, previous).closing() == Closing::Nothing,
        state.failed(ticket, previous, message).closing() == Closing::Nothing,
{
}

/// A dial shows what it dials and clears the last message; one that fails leaves
/// its reason on the scan screen, and one that is stopped says which it was.
pub proof fn law_a_dial_leads_to_one_screen(
    state: WatchView,
    ticket: TicketView,
    previous: Option<TicketView>,
    message: Seq<char>,
)
    ensures
        state.dialing(ticket, previous).mode == (ModeView::Connecting { ticket, previous }),
        state.dialing(ticket, previous).message is None,
        state.dialing(ticket, previous).refused == state.refused,
        state.connected(ticket).mode == (ModeView::Watching { ticket }),
        state.failed(ticket, previous, message).mode == (ModeView::Scanning { previous }),
        state.failed(ticket, previous, message).message == Some(message),
        state.failed(ticket, previous, message).refused matches Some((refused, _)) && refused
            == ticket,
        state.stopped(ticket.name, previous).mode == (ModeView::Stopped { previous }),
        state.stopped(ticket.name, previous).message == Some(
            "stopped connecting to "@ + ticket.name,
        ),
        state.stopped(ticket.name, previous).refused == state.refused,
        state.scanning(previous).mode == (ModeView::Scanning { previous }),
        state.scanning(previous).message == state.message,
        state.scanning(previous).refused == state.refused,
{
}

/// A scanner ignores the refused ticket alone, for its wait.
pub proof fn law_only_the_refused_ticket_is_skipped(
    state: WatchView,
    ticket: TicketView,
    strikes: u32,
    now: u64,
)
    requires
        now + 1000 * REDIAL_WAIT_MAX <= u64::MAX,
    ensures
        state.refused is None ==> state.skipping(now) is None,
        state.refused == Some((ticket, strikes)) ==> (state.skipping(now) matches Some(skip) && {
            &&& skip.ticket == ticket
            &&& now + 1000 * REDIAL_WAIT <= skip.until <= now + 1000 * REDIAL_WAIT_MAX
            &&& skip.until - now == 1000 * redial_wait(strikes)
        }),
{
    law_the_wait_grows_to_the_ceiling(0, strikes);
}

/// A dial that answers is its answer, one that is gone has failed, and one that
/// says nothing yet is awaited.
pub proof fn law_a_dial_is_awaited_until_it_answers(message: String)
    ensures
        dial_outcome(Arrival::Empty) is None,
        dial_outcome(Arrival::Ready(Ok(()))) == Some(Ok::<(), Seq<char>>(())),
        dial_outcome(Arrival::Ready(Err(message))) == Some(Err::<(), Seq<char>>(message@)),
        dial_outcome(Arrival::Closed) matches Some(Err(_)),
{
}

/// A start is seen as what it is, with what it holds.
pub proof fn law_a_start_is_seen_as_it_is(one: Start)
    ensures
        one matches Start::Ticket(ticket) ==> one@ == StartView::Ticket(ticket@),
        one matches Start::TicketInWindow(ticket) ==> one@ == StartView::TicketInWindow(ticket@),
        one matches Start::Scan ==> one@ == StartView::Scan,
{
}

/// A video mode is seen as what it is, with what it holds.
pub proof fn law_a_video_mode_is_seen_as_it_is(one: VideoMode)
    ensures
        one matches VideoMode::Off ==> one@ == VideoModeView::Off,
        one matches VideoMode::Pinned(name) ==> one@ == VideoModeView::Pinned(name@),
        one matches VideoMode::Automatic ==> one@ == VideoModeView::Automatic,
{
}

/// A step is seen as what it is, with what it holds.
pub proof fn law_a_step_is_seen_as_it_is(one: ConnectNext)
    ensures
        one matches ConnectNext::AwaitCatalog ==> one@ == ConnectNextView::AwaitCatalog,
        one matches ConnectNext::Check(name) ==> one@ == ConnectNextView::Check(name@),
        one matches ConnectNext::Play(mode) ==> one@ == ConnectNextView::Play(mode@),
        one matches ConnectNext::Connected ==> one@ == ConnectNextView::Connected,
{
}

/// The mode of the watcher is seen as what it is, with what it holds.
pub proof fn law_the_watcher_is_seen_as_it_is(one: Mode)
    ensures
        one matches Mode::Stopped { previous } ==> one@ == (ModeView::Stopped { previous: ids::opt_ticket(previous) }),
        one matches Mode::Scanning { previous } ==> one@ == (ModeView::Scanning {
                previous: ids::opt_ticket(previous),
            }),
        one matches Mode::Connecting { ticket, previous } ==> one@ == (ModeView::Connecting {
                ticket: ticket@,
                previous: ids::opt_ticket(previous),
            }),
        one matches Mode::Watching { ticket } ==> one@ == (ModeView::Watching { ticket: ticket@ }),
{
}

/// An act is seen as what it is, with what it holds.
pub proof fn law_an_act_is_seen_as_it_is(one: Act)
    ensures
        one matches Act::Stay ==> one@ == ActView::Stay,
        one matches Act::Dial(closing, ticket) ==> one@ == ActView::Dial(closing, ticket@),
        one matches Act::Scan(closing, skip) ==> one@ == ActView::Scan(closing, opt_skip(skip)),
        one matches Act::Stop(closing) ==> one@ == ActView::Stop(closing),
        one matches Act::Play ==> one@ == ActView::Play,
{
}

} // verus!
