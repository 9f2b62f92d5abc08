//! `irl call`: a 1:1 video call.
//!
//! Each side offers its broadcast as [`CALL`] to the other peer only, and
//! subscribes to the other's. A node is called when a peer's `call` path
//! appears in its route table, and a hang-up withdraws the offer.
//!
//! [`CallState`] holds what the window decides: which screen is up, which
//! attempt is in flight, which peers are not to be answered, and who has the
//! camera. The window performs what its methods return and hands the outcome
//! back.

use vstd::prelude::*;

use crate::args::CaptureArgs;
use crate::ids::{BroadcastTicket, EndpointId};
use crate::peers::{self, PeerSet};
use crate::source_spec::{VideoSourceSpec, VideoSourceView};
use crate::text;

verus! {

/// The name each side offers its broadcast under.
pub const CALL: &'static str = "call";

/// How many milliseconds pass between two runs of the state machine while nothing
/// draws the window.
pub const HEARTBEAT: u64 = 100;

/// How many seconds a window waits for a peer before giving up.
pub const PEER_TIMEOUT: u64 = 20;

/// How many times the camera is tried while the scan screen releases it.
pub const RESTORE_ATTEMPTS: u32 = 5;

/// How many seconds one attempt has to get the video running.
pub const RESTORE_PATIENCE: u64 = 10;

/// How many seconds a restore pauses between two attempts.
pub const RESTORE_DELAY: u64 = 1;

/// Who holds the camera while nothing is being scanned.
///
/// A capture device does not open twice. When the publisher already has the
/// camera, the scan screen reads its frames instead of opening it.
#[derive(Debug, Clone, Copy, PartialEq, Eq, Structural)]
pub enum Camera {
    /// The publisher has the camera, and the scan screen reads or borrows it.
    Publisher,
    /// Nothing here has the camera, so the scan screen opens it itself.
    Free,
}

/// Whether a source is a camera.
pub open spec fn is_camera(source: VideoSourceView) -> bool {
    source is Camera || source is Rpicam
}

/// Whether two specifiers may name the same camera.
///
/// A default camera counts as the same as any named one.
pub open spec fn may_be_same(left: VideoSourceView, right: VideoSourceView) -> bool {
    match (left, right) {
        (VideoSourceView::Camera(left), VideoSourceView::Camera(right)) => left is None || right
            is None || left == right,
        (VideoSourceView::Rpicam(_), VideoSourceView::Rpicam(_)) => true,
        _ => false,
    }
}

/// Who holds the camera, given what is published and what the scan screen
/// opens.
pub open spec fn holder(
    publishing: Result<VideoSourceView, Seq<char>>,
    scan: Option<VideoSourceView>,
) -> Camera {
    if publishing is Ok && is_camera(publishing->Ok_0) && (scan is None || may_be_same(
        publishing->Ok_0,
        scan->0,
    )) {
        Camera::Publisher
    } else {
        Camera::Free
    }
}

/// An optional source by its view.
pub open spec fn opt_source(source: Option<&VideoSourceSpec>) -> Option<VideoSourceView> {
    match source {
        Some(source) => Some(source@),
        None => None,
    }
}

impl Camera {
    /// Works out who holds the camera, from `--video` and `--scan-camera`.
    ///
    /// A `--video` that does not parse opened nothing, so the camera counts as
    /// free. A scan camera on another device leaves the publisher alone.
    pub fn of(args: &CaptureArgs, scan: Option<&VideoSourceSpec>) -> (res: Self)
        ensures
            res == holder(args.video_of(true), opt_source(scan)),
    {
        Self::between(args.video_source(), scan)
    }

    /// Works out who holds the camera, from the source that is published.
    pub fn between(publishing: Result<VideoSourceSpec, String>, scan: Option<&VideoSourceSpec>) -> (res:
        Self)
        ensures
            res == holder(text::outcome(publishing), opt_source(scan)),
    {
        let publishing = match publishing {
            Ok(publishing) => publishing,
            Err(_) => return Camera::Free,
        };
        let holds_a_camera: bool = match &publishing {
            VideoSourceSpec::Camera(_) => true,
            // `rpicam-vid` goes through libcamera, not V4L2, and the two still
            // cannot hold one sensor at once.
            VideoSourceSpec::Rpicam(_) => true,
            _ => false,
        };
        let shared: bool = match scan {
            None => true,
            Some(scan) => same_device(&publishing, scan),
        };
        if holds_a_camera && shared {
            Camera::Publisher
        } else {
            Camera::Free
        }
    }
}

/// Returns whether two camera specifiers may name the same device.
///
/// Guessing wrong would open one device twice, which fails.
pub fn same_device(left: &VideoSourceSpec, right: &VideoSourceSpec) -> (res: bool)
    ensures
        res == may_be_same(left@, right@),
{
    match (left, right) {
        (VideoSourceSpec::Camera(left), VideoSourceSpec::Camera(right)) => match (left, right) {
            (Some(left), Some(right)) => text::same(left.as_str(), right.as_str()),
            _ => true,
        },
        (VideoSourceSpec::Rpicam(_), VideoSourceSpec::Rpicam(_)) => true,
        _ => false,
    }
}

/// What the window is showing.
#[derive(Debug)]
pub enum Screen {
    /// Nobody on the line: this node's ticket and a box for the peer's.
    Waiting {
        /// The ticket being typed.
        input: String,
        /// The outcome of the last attempt, if any.
        message: Option<String>,
    },
    /// The camera, looking for the peer's ticket.
    Scanning,
    /// A dial this window started, not yet answered.
    Calling {
        /// Who is being called, in short.
        name: String,
    },
    /// A call in progress.
    InCall {
        /// Who is on the line.
        peer: EndpointId,
    },
}

/// A [`Screen`] with its texts as character sequences.
pub enum ScreenView {
    Waiting { input: Seq<char>, message: Option<Seq<char>> },
    Scanning,
    Calling { name: Seq<char> },
    InCall { peer: EndpointId },
}

impl View for Screen {
    type V = ScreenView;

    open spec fn view(&self) -> ScreenView {
        match *self {
            Screen::Waiting { input, message } => ScreenView::Waiting {
                input: input@,
                message: text::opt_text(message),
            },
            Screen::Scanning => ScreenView::Scanning,
            Screen::Calling { name } => ScreenView::Calling { name: name@ },
            Screen::InCall { peer } => ScreenView::InCall { peer },
        }
    }
}

/// The waiting screen with an empty box, showing `message`.
pub open spec fn waiting_with(message: Option<Seq<char>>) -> ScreenView {
    ScreenView::Waiting { input: Seq::empty(), message }
}

impl Screen {
    /// Returns an empty waiting screen.
    pub fn waiting() -> (res: Self)
        ensures
            res@ == waiting_with(None),
    {
        Screen::Waiting { input: String::new(), message: None }
    }

    /// Returns the waiting screen showing `message`.
    pub fn reporting(message: String) -> (res: Self)
        ensures
            res@ == waiting_with(Some(message@)),
    {
        Screen::Waiting { input: String::new(), message: Some(message) }
    }
}

/// Which side started an attempt.
#[derive(Debug, Clone, Copy, PartialEq, Eq, Structural)]
pub enum Direction {
    /// This node dialed. The calling screen waits on it and can cancel it.
    Outgoing(EndpointId),
    /// A peer offered its side and this node is answering.
    ///
    /// This runs behind the current screen.
    Incoming(EndpointId),
}

impl Direction {
    /// The other side of the attempt.
    pub open spec fn other(self) -> EndpointId {
        match self {
            Direction::Outgoing(peer) => peer,
            Direction::Incoming(peer) => peer,
        }
    }

    /// Returns the other side of the attempt.
    pub fn peer(self) -> (res: EndpointId)
        ensures
            res == self.other(),
    {
        match self {
            Direction::Outgoing(peer) => peer,
            Direction::Incoming(peer) => peer,
        }
    }
}

/// The outcome of a dial or an answer.
#[derive(Debug)]
pub enum Answer {
    /// The peer is on the line and its tracks are open.
    Connected,
    /// The attempt failed, with a message for the user.
    Failed(String),
}

/// What a channel that reports an attempt holds.
#[derive(Debug)]
pub enum Arrival<T> {
    /// Nothing yet.
    Empty,
    /// The sender is gone, which only happens at shutdown.
    Closed,
    /// The outcome.
    Ready(T),
}

/// Where the scan screen gets its frames.
#[derive(Debug, Clone, Copy, PartialEq, Eq, Structural)]
pub enum ScanFrames {
    /// From the publisher, which keeps publishing.
    Borrowed,
    /// From the camera, which the publisher releases first.
    ///
    /// The publisher holds the camera but has no frames to lend, since
    /// `rpicam` outputs encoded H.264.
    Taken,
    /// From the camera, which nothing else holds.
    Opened,
}

/// The state of the call window.
#[derive(Debug)]
pub struct CallState {
    screen: Screen,
    camera: Camera,
    /// Whether the publisher has frames that the preview draws and the scan
    /// screen may read.
    has_frames: bool,
    /// Whether the publisher's camera is reopening after a scan.
    restoring: bool,
    /// Whether the scan screen took the publisher's camera and has not
    /// returned it.
    camera_owed: bool,
    /// Bumped each time the scan screen takes the camera.
    camera_epoch: u64,
    /// A message for the waiting screen that arrived while another was up.
    notice: Option<String>,
    /// Peers whose call ended here and who still offer their side.
    ended: PeerSet,
    /// The attempt in flight. There is at most one.
    pending: Option<Direction>,
}

/// A [`CallState`] with its texts and its set as mathematical values.
pub struct CallView {
    pub screen: ScreenView,
    pub camera: Camera,
    pub has_frames: bool,
    pub restoring: bool,
    pub camera_owed: bool,
    pub camera_epoch: u64,
    pub notice: Option<Seq<char>>,
    pub ended: Set<EndpointId>,
    pub pending: Option<Direction>,
}

impl View for CallState {
    type V = CallView;

    closed spec fn view(&self) -> CallView {
        CallView {
            screen: self.screen@,
            camera: self.camera,
            has_frames: self.has_frames,
            restoring: self.restoring,
            camera_owed: self.camera_owed,
            camera_epoch: self.camera_epoch,
            notice: text::opt_text(self.notice),
            ended: self.ended@,
            pending: self.pending,
        }
    }
}

impl CallView {
    /// The state a window opens in.
    pub open spec fn initial(camera: Camera, has_frames: bool) -> CallView {
        CallView {
            screen: waiting_with(None),
            camera,
            has_frames,
            restoring: false,
            camera_owed: false,
            camera_epoch: 0,
            notice: None,
            ended: Set::empty(),
            pending: None,
        }
    }

    /// Marks `peer` as not to be answered until it withdraws its offer.
    pub open spec fn shunning(self, peer: EndpointId) -> CallView {
        CallView { ended: self.ended.insert(peer), ..self }
    }

    /// Shows `screen`.
    pub open spec fn showing(self, screen: ScreenView) -> CallView {
        CallView { screen, ..self }
    }

    /// Shows the waiting screen with `message`.
    pub open spec fn reporting(self, message: Seq<char>) -> CallView {
        self.showing(waiting_with(Some(message)))
    }

    /// Abandons the attempt in flight, if any.
    pub open spec fn discarded(self) -> CallView {
        match self.pending {
            Some(direction) => CallView { pending: None, ..self }.shunning(direction.other()),
            None => self,
        }
    }

    /// Leaves the scan screen for the waiting screen, if it is up.
    pub open spec fn out_of_scan(self) -> CallView {
        if self.screen is Scanning {
            self.showing(waiting_with(None))
        } else {
            self
        }
    }

    /// Starts to call `peer`.
    pub open spec fn dialing(self, peer: EndpointId) -> CallView {
        self.out_of_scan().discarded().showing(ScreenView::Calling { name: peer.short() })
    }

    /// Takes note of whether this node's side could be offered.
    pub open spec fn after_offer(self, direction: Direction, offer: Result<(), Seq<char>>) -> CallView {
        match offer {
            Ok(_) => CallView { pending: Some(direction), ..self },
            Err(message) => {
                let shunned = self.shunning(direction.other());
                match direction {
                    Direction::Outgoing(_) => shunned.reporting(message),
                    Direction::Incoming(_) => shunned,
                }
            },
        }
    }

    /// Takes the attempt in flight as answered.
    pub open spec fn connected(self) -> CallView
        recommends
            self.pending is Some,
    {
        CallView { pending: None, ..self }.showing(
            ScreenView::InCall { peer: self.pending->0.other() },
        )
    }

    /// Takes the attempt in flight as failed.
    pub open spec fn failed(self, message: Seq<char>) -> CallView
        recommends
            self.pending is Some,
    {
        let direction = self.pending->0;
        let over = CallView { pending: None, ..self }.shunning(direction.other());
        match direction {
            Direction::Outgoing(_) => over.reporting(message),
            Direction::Incoming(_) => over,
        }
    }

    /// Ends the call on screen, if any, and shows `message`.
    pub open spec fn hung_up(self, message: Seq<char>) -> CallView {
        match self.screen {
            ScreenView::InCall { peer } => self.shunning(peer).reporting(message),
            _ => self.reporting(message),
        }
    }

    /// Forgets the ended calls of peers that withdrew their offer.
    pub open spec fn heard(self, ringing: Set<EndpointId>) -> CallView {
        CallView { ended: self.ended.intersect(ringing), ..self }
    }

    /// Whether this node may answer a call.
    pub open spec fn idle(self) -> bool {
        self.pending is None && !(self.screen is InCall)
    }

    /// Where the scan screen would get its frames.
    pub open spec fn scan_frames(self) -> ScanFrames {
        if self.camera is Free {
            ScanFrames::Opened
        } else if self.has_frames {
            ScanFrames::Borrowed
        } else {
            ScanFrames::Taken
        }
    }

    /// Shows the scan screen.
    pub open spec fn scanning(self) -> CallView {
        if self.scan_frames() is Taken {
            CallView {
                camera_epoch: (self.camera_epoch + 1) as u64,
                restoring: false,
                camera_owed: true,
                ..self
            }.showing(ScreenView::Scanning)
        } else {
            self.showing(ScreenView::Scanning)
        }
    }

    /// Whether the publisher is due its camera back.
    pub open spec fn due(self) -> bool {
        self.camera_owed && !(self.screen is Scanning)
    }

    /// Starts to give the publisher its camera back, if it is due.
    pub open spec fn settled(self) -> CallView {
        if self.due() {
            CallView { camera_owed: false, restoring: true, ..self }
        } else {
            self
        }
    }

    /// Takes the camera as reopened, with or without frames, or as lost.
    pub open spec fn restored(self, outcome: Result<bool, Seq<char>>) -> CallView {
        match outcome {
            Ok(has_frames) => CallView { restoring: false, has_frames, ..self },
            Err(message) => CallView {
                restoring: false,
                notice: Some("the camera did not come back after the scan: "@ + message),
                ..self
            },
        }
    }

    /// Shows `message` on the waiting screen, if it is up.
    pub open spec fn reported(self, message: Seq<char>) -> CallView {
        match self.screen {
            ScreenView::Waiting { input, message: _ } => self.showing(
                ScreenView::Waiting { input, message: Some(message) },
            ),
            _ => self,
        }
    }

    /// Moves the kept notice onto the waiting screen, if it is up and free.
    pub open spec fn noticed(self) -> CallView {
        match (self.screen, self.notice) {
            (ScreenView::Waiting { input, message: None }, Some(message)) => CallView {
                notice: None,
                ..self
            }.showing(ScreenView::Waiting { input, message: Some(message) }),
            _ => self,
        }
    }
}

/// An attempt by its outcome, or the text of its failure.
pub open spec fn attempt_outcome(res: Result<(), String>) -> Result<(), Seq<char>> {
    match res {
        Ok(_) => Ok(()),
        Err(text) => Err(text@),
    }
}

impl CallState {
    /// Whether the state is well formed.
    pub closed spec fn wf(self) -> bool {
        self.ended.wf()
    }

    /// Creates the state a window opens in.
    pub fn new(camera: Camera, has_frames: bool) -> (res: Self)
        ensures
            res.wf(),
            res@ == CallView::initial(camera, has_frames),
    {
        CallState {
            screen: Screen::waiting(),
            camera,
            has_frames,
            restoring: false,
            camera_owed: false,
            camera_epoch: 0,
            notice: None,
            ended: PeerSet::new(),
            pending: None,
        }
    }

    /// Returns what the window is showing.
    pub fn screen(&self) -> (res: &Screen)
        ensures
            res@ == self@.screen,
    {
        &self.screen
    }

    /// Returns the attempt in flight.
    pub fn pending(&self) -> (res: Option<Direction>)
        ensures
            res == self@.pending,
    {
        self.pending
    }

    /// Returns whether `peer` is not to be answered.
    pub fn is_shunned(&self, peer: &EndpointId) -> (res: bool)
        requires
            self.wf(),
        ensures
            res == self@.ended.contains(*peer),
    {
        self.ended.contains(peer)
    }

    /// Returns the epoch a restore that starts now belongs to.
    pub fn camera_epoch(&self) -> (res: u64)
        ensures
            res == self@.camera_epoch,
    {
        self.camera_epoch
    }

    /// Replaces the text in the ticket box of the waiting screen.
    pub fn type_ticket(&mut self, text: String)
        requires
            old(self).wf(),
        ensures
            final(self).wf(),
            final(self)@ == match old(self)@.screen {
                ScreenView::Waiting { input: _, message } => old(self)@.showing(
                    ScreenView::Waiting { input: text@, message },
                ),
                _ => old(self)@,
            },
    {
        if let Screen::Waiting { input, .. } = &mut self.screen {
            *input = text;
        }
    }

    /// Calls the ticket the camera has read, if any.
    ///
    /// Returns the peer to offer this node's side to.
    pub fn poll_scan(&mut self, read: Option<&BroadcastTicket>) -> (res: Option<Direction>)
        requires
            old(self).wf(),
        ensures
            final(self).wf(),
            match (old(self)@.screen, read) {
                (ScreenView::Scanning, Some(ticket)) => {
                    &&& final(self)@ == old(self)@.dialing(ticket.endpoint)
                    &&& res == Some(Direction::Outgoing(ticket.endpoint))
                },
                _ => final(self)@ == old(self)@ && res is None,
            },
    {
        match (&self.screen, read) {
            (Screen::Scanning, Some(ticket)) => Some(self.dial(ticket.endpoint)),
            _ => None,
        }
    }

    /// Calls `peer`, replacing whatever the window was doing.
    ///
    /// Leaves the scan screen first, so the publisher gets its camera back
    /// while the dial runs. Returns the attempt to start.
    pub fn dial(&mut self, peer: EndpointId) -> (res: Direction)
        requires
            old(self).wf(),
        ensures
            final(self).wf(),
            final(self)@ == old(self)@.dialing(peer),
            res == Direction::Outgoing(peer),
    {
        self.leave_scan();
        self.discard_pending();
        self.screen = Screen::Calling { name: peer.fmt_short() };
        Direction::Outgoing(peer)
    }

    /// Takes note of whether this node's side could be offered to the peer of
    /// the attempt, which is pending if it could.
    pub fn start(&mut self, direction: Direction, offer: Result<(), String>)
        requires
            old(self).wf(),
        ensures
            final(self).wf(),
            final(self)@ == old(self)@.after_offer(direction, attempt_outcome(offer)),
    {
        match offer {
            Ok(_) => {
                self.pending = Some(direction);
            },
            Err(message) => {
                self.ended.insert(direction.peer());
                if let Direction::Outgoing(_) = direction {
                    self.screen = Screen::reporting(message);
                }
            },
        }
    }

    /// Handles an attempt that finished since the last pass.
    ///
    /// Returns the peer that is now on the line, if the attempt connected.
    pub fn poll_pending(&mut self, arrived: Arrival<Answer>) -> (res: Option<EndpointId>)
        requires
            old(self).wf(),
        ensures
            final(self).wf(),
            match (old(self)@.pending, arrived) {
                (Some(direction), Arrival::Ready(Answer::Connected)) => {
                    &&& final(self)@ == old(self)@.connected()
                    &&& res == Some(direction.other())
                },
                (Some(_), Arrival::Ready(Answer::Failed(message))) => {
                    &&& final(self)@ == old(self)@.failed(message@)
                    &&& res is None
                },
                (Some(_), Arrival::Closed) => {
                    &&& final(self)@ == old(self)@.failed("the call attempt stopped"@)
                    &&& res is None
                },
                _ => final(self)@ == old(self)@ && res is None,
            },
    {
        let direction = match self.pending {
            Some(direction) => direction,
            None => return None,
        };
        let message: String = match arrived {
            Arrival::Empty => return None,
            Arrival::Ready(Answer::Connected) => {
                self.pending = None;
                self.screen = Screen::InCall { peer: direction.peer() };
                return Some(direction.peer());
            },
            Arrival::Ready(Answer::Failed(message)) => message,
            Arrival::Closed => "the call attempt stopped".to_owned(),
        };
        self.pending = None;
        self.ended.insert(direction.peer());
        if let Direction::Outgoing(_) = direction {
            self.screen = Screen::reporting(message);
        }
        None
    }

    /// Returns to the waiting screen once the peer hung up.
    ///
    /// `over` tells whether the peer's broadcast or its session ended.
    pub fn poll_hangup(&mut self, over: bool)
        requires
            old(self).wf(),
        ensures
            final(self).wf(),
            final(self)@ == if over && old(self)@.screen is InCall {
                old(self)@.hung_up("the call ended"@)
            } else {
                old(self)@
            },
    {
        let in_call: bool = match &self.screen {
            Screen::InCall { .. } => true,
            _ => false,
        };
        if over && in_call {
            self.hang_up("the call ended");
        }
    }

    /// Ends the call on screen, if any, and shows `message`.
    pub fn hang_up(&mut self, message: &str)
        requires
            old(self).wf(),
        ensures
            final(self).wf(),
            final(self)@ == old(self)@.hung_up(message@),
    {
        if let Screen::InCall { peer } = &self.screen {
            self.ended.insert(*peer);
        }
        self.screen = Screen::reporting(message.to_owned());
    }

    /// Picks a peer that offers its side, if this node is idle.
    ///
    /// Returns the attempt to start. Peers whose call ended here are skipped
    /// until they withdraw their offer.
    pub fn answer_next(&mut self, ringing: &PeerSet) -> (res: Option<Direction>)
        requires
            old(self).wf(),
            ringing.wf(),
        ensures
            final(self).wf(),
            final(self)@ == old(self)@.heard(ringing@),
            match res {
                Some(direction) => {
                    &&& old(self)@.idle()
                    &&& direction is Incoming
                    &&& peers::is_first(
                        direction.other(),
                        ringing@.difference(final(self)@.ended),
                    )
                },
                None => !old(self)@.idle() || ringing@.difference(final(self)@.ended) == Set::<
                    EndpointId,
                >::empty(),
            },
    {
        self.ended.retain_in(ringing);
        let in_call: bool = match &self.screen {
            Screen::InCall { .. } => true,
            _ => false,
        };
        if self.pending.is_some() || in_call {
            return None;
        }
        match ringing.first_outside(&self.ended) {
            Some(peer) => Some(Direction::Incoming(peer)),
            None => None,
        }
    }

    /// Abandons the attempt in flight, withdrawing this node's offer.
    pub fn discard_pending(&mut self)
        requires
            old(self).wf(),
        ensures
            final(self).wf(),
            final(self)@ == old(self)@.discarded(),
    {
        if let Some(direction) = self.pending {
            self.pending = None;
            self.ended.insert(direction.peer());
        }
    }

    /// Gives up on the dial in flight and returns to the waiting screen.
    pub fn cancel(&mut self, peer: &str)
        requires
            old(self).wf(),
        ensures
            final(self).wf(),
            final(self)@ == old(self)@.discarded().reporting("stopped calling "@ + peer@),
    {
        self.discard_pending();
        self.screen = Screen::reporting("stopped calling ".to_owned().concat(peer));
    }

    /// Switches to the scan screen.
    ///
    /// A publisher holding the camera lends the scan screen its frames and
    /// keeps publishing. Otherwise the scan screen opens the camera itself.
    pub fn enter_scan(&mut self) -> (res: ScanFrames)
        requires
            old(self).wf(),
            old(self)@.scan_frames() is Taken ==> old(self)@.camera_epoch < u64::MAX,
        ensures
            final(self).wf(),
            final(self)@ == old(self)@.scanning(),
            res == old(self)@.scan_frames(),
    {
        self.screen = Screen::Scanning;
        match self.camera {
            Camera::Free => ScanFrames::Opened,
            Camera::Publisher => if self.has_frames {
                ScanFrames::Borrowed
            } else {
                self.camera_epoch += 1;
                self.restoring = false;
                self.camera_owed = true;
                ScanFrames::Taken
            },
        }
    }

    /// Closes the scan screen, if it is up, and shows the waiting screen.
    ///
    /// [`CallState::settle_camera`] gives the publisher its camera back.
    pub fn leave_scan(&mut self)
        requires
            old(self).wf(),
        ensures
            final(self).wf(),
            final(self)@ == old(self)@.out_of_scan(),
    {
        if let Screen::Scanning = &self.screen {
            self.screen = Screen::waiting();
        }
    }

    /// Gives the publisher its camera back once the scan screen is gone.
    ///
    /// Returns whether to reopen the camera.
    pub fn settle_camera(&mut self) -> (res: bool)
        requires
            old(self).wf(),
        ensures
            final(self).wf(),
            final(self)@ == old(self)@.settled(),
            res == old(self)@.due(),
    {
        let scanning: bool = match &self.screen {
            Screen::Scanning => true,
            _ => false,
        };
        if self.camera_owed && !scanning {
            self.camera_owed = false;
            self.restoring = true;
            return true;
        }
        false
    }

    /// Collects the result of reopening the publisher's camera.
    ///
    /// The result tells whether the publisher has frames to lend.
    pub fn poll_restore(&mut self, arrived: Arrival<Result<bool, String>>)
        requires
            old(self).wf(),
        ensures
            final(self).wf(),
            final(self)@ == if !old(self)@.restoring {
                old(self)@
            } else {
                match arrived {
                    Arrival::Empty => old(self)@,
                    Arrival::Closed => old(self)@.restored(
                        Err("the camera restore was abandoned"@),
                    ),
                    Arrival::Ready(Ok(has_frames)) => old(self)@.restored(Ok(has_frames)),
                    Arrival::Ready(Err(message)) => old(self)@.restored(Err(message@)),
                }
            },
    {
        if !self.restoring {
            return;
        }
        let outcome: Result<bool, String> = match arrived {
            Arrival::Empty => return,
            Arrival::Closed => Err("the camera restore was abandoned".to_owned()),
            Arrival::Ready(outcome) => outcome,
        };
        self.restoring = false;
        match outcome {
            Ok(has_frames) => {
                self.has_frames = has_frames;
            },
            Err(message) => {
                self.notice = Some(
                    "the camera did not come back after the scan: ".to_owned().concat(
                        message.as_str(),
                    ),
                );
            },
        }
    }

    /// Shows `message` on the waiting screen, if it is up.
    pub fn report(&mut self, message: String)
        requires
            old(self).wf(),
        ensures
            final(self).wf(),
            final(self)@ == old(self)@.reported(message@),
    {
        if let Screen::Waiting { message: shown, .. } = &mut self.screen {
            *shown = Some(message);
        }
    }

    /// Calls what was typed or pasted, or says why it is not a ticket.
    ///
    /// `parsed` is the ticket the text spells, or the parser's complaint.
    pub fn dial_text(&mut self, parsed: Result<BroadcastTicket, String>) -> (res: Option<Direction>)
        requires
            old(self).wf(),
        ensures
            final(self).wf(),
            match parsed {
                Ok(ticket) => {
                    &&& final(self)@ == old(self)@.dialing(ticket.endpoint)
                    &&& res == Some(Direction::Outgoing(ticket.endpoint))
                },
                Err(err) => {
                    &&& final(self)@ == old(self)@.reported("that is not a ticket: "@ + err@)
                    &&& res is None
                },
            },
    {
        match parsed {
            Ok(ticket) => Some(self.dial(ticket.endpoint)),
            Err(err) => {
                self.report("that is not a ticket: ".to_owned().concat(err.as_str()));
                None
            },
        }
    }

    /// Moves the kept notice onto the waiting screen once it is up and free.
    pub fn show_notice(&mut self)
        requires
            old(self).wf(),
        ensures
            final(self).wf(),
            final(self)@ == old(self)@.noticed(),
    {
        let free: bool = match &self.screen {
            Screen::Waiting { message, .. } => message.is_none(),
            _ => false,
        };
        if !free || self.notice.is_none() {
            return;
        }
        let kept: Option<String> = self.notice.take();
        if let Screen::Waiting { message, .. } = &mut self.screen {
            *message = kept;
        }
    }

    /// Leaves the call and gives up any attempt, for a window that closes.
    pub fn exit(&mut self)
        requires
            old(self).wf(),
        ensures
            final(self).wf(),
            final(self)@ == (CallView { pending: None, ..old(self)@ }.showing(waiting_with(None))),
    {
        self.screen = Screen::waiting();
        self.pending = None;
    }
}

/// Whether a restore that began in epoch `mine` may still set the video.
///
/// A scan screen that took the camera meanwhile bumped the epoch, and is never
/// undone.
pub fn may_set_video(current: u64, mine: u64) -> (res: bool)
    ensures
        res == (current == mine),
{
    current == mine
}

/// The outcome of one attempt to reopen the publisher's camera.
#[derive(Debug)]
pub enum Restored {
    /// The video runs. Tells whether there are frames to lend.
    Running(bool),
    /// The scan screen took the camera again before the source was set.
    Superseded,
    /// The camera did not come up.
    Failed(String),
}

/// What a restore does after an attempt.
#[derive(Debug)]
pub enum RestoreNext {
    /// Report the outcome and stop.
    Report(Result<bool, String>),
    /// Stop and report nothing.
    Abandon,
    /// Wait this many seconds and try once more.
    Retry(u64),
}

/// Decides what a restore does after attempt number `attempt`, counted from
/// one.
pub fn restore_step(attempt: u32, outcome: Restored) -> (res: RestoreNext)
    ensures
        match outcome {
            Restored::Running(has_frames) => res matches RestoreNext::Report(Ok(got)) && got
                == has_frames,
            Restored::Superseded => res is Abandon,
            Restored::Failed(message) => if attempt >= RESTORE_ATTEMPTS {
                res matches RestoreNext::Report(Err(got)) && got@ == message@
            } else {
                res == RestoreNext::Retry(RESTORE_DELAY)
            },
        },
{
    match outcome {
        Restored::Running(has_frames) => RestoreNext::Report(Ok(has_frames)),
        Restored::Superseded => RestoreNext::Abandon,
        Restored::Failed(message) => if attempt >= RESTORE_ATTEMPTS {
            RestoreNext::Report(Err(message))
        } else {
            RestoreNext::Retry(RESTORE_DELAY)
        },
    }
}

/// The state of the published video, as far as a restore asks.
#[derive(Debug)]
pub enum SlotState {
    /// The video runs.
    Running,
    /// The video failed, with the reason.
    Failed(String),
    /// Anything else.
    Other,
}

/// What a restore sees while it waits for the video to run.
#[derive(Debug)]
pub enum SlotEvent {
    /// The video is in this state.
    State(SlotState),
    /// The broadcast closed.
    Closed,
    /// The patience ran out.
    TimedOut,
}

/// Decides how a wait for the video ends, or `None` to keep waiting.
pub fn video_running(event: SlotEvent) -> (res: Option<Result<(), String>>)
    ensures
        match event {
            SlotEvent::State(SlotState::Running) => res matches Some(Ok(_)),
            SlotEvent::State(SlotState::Failed(err)) => res matches Some(Err(text)) && text@
                == "the camera failed: "@ + err@,
            SlotEvent::State(SlotState::Other) => res is None,
            SlotEvent::Closed => res matches Some(Err(text)) && text@ == "the broadcast closed"@,
            SlotEvent::TimedOut => res matches Some(Err(text)) && text@
                == "the camera did not start within 10s"@,
        },
{
    match event {
        SlotEvent::State(SlotState::Running) => Some(Ok(())),
        SlotEvent::State(SlotState::Failed(err)) => Some(
            Err("the camera failed: ".to_owned().concat(err.as_str())),
        ),
        SlotEvent::State(SlotState::Other) => None,
        SlotEvent::Closed => Some(Err("the broadcast closed".to_owned())),
        SlotEvent::TimedOut => Some(Err("the camera did not start within 10s".to_owned())),
    }
}

/// What came of waiting for a peer's side of the call and playing it.
#[derive(Debug)]
pub enum Reached {
    /// The peer's side plays.
    Playing,
    /// Subscribing or playing failed, with the reason.
    Failed(String),
    /// The peer did not answer in time.
    TimedOut,
}

/// Turns what came of reaching a peer into the outcome of the attempt.
pub fn reach(reached: Reached) -> (res: Answer)
    ensures
        match reached {
            Reached::Playing => res is Connected,
            Reached::Failed(err) => res matches Answer::Failed(text) && text@ == err@,
            Reached::TimedOut => res matches Answer::Failed(text) && text@
                == "gave up after 20s: the peer did not answer"@,
        },
{
    match reached {
        Reached::Playing => Answer::Connected,
        Reached::Failed(err) => Answer::Failed(err),
        Reached::TimedOut => Answer::Failed(
            "gave up after 20s: the peer did not answer".to_owned(),
        ),
    }
}

/// The peers that ring after a route appeared or went away.
///
/// A caller offers its `call` path to the callee only, so the path appearing
/// in the route table is the ring.
pub open spec fn ringing_after(
    ringing: Set<EndpointId>,
    me: EndpointId,
    route: Option<BroadcastTicket>,
    active: bool,
) -> Set<EndpointId> {
    match route {
        Some(ticket) => if ticket.name@ == CALL@ && ticket.endpoint != me {
            if active {
                ringing.insert(ticket.endpoint)
            } else {
                ringing.remove(ticket.endpoint)
            }
        } else {
            ringing
        },
        None => ringing,
    }
}

/// Takes note of a route that appeared or went away.
///
/// `route` is the broadcast the path names, if it names one.
pub fn watch_callers(
    ringing: &mut PeerSet,
    me: EndpointId,
    route: &Option<BroadcastTicket>,
    active: bool,
)
    requires
        old(ringing).wf(),
    ensures
        final(ringing).wf(),
        final(ringing)@ == ringing_after(old(ringing)@, me, *route, active),
{
    if let Some(ticket) = route {
        if text::same(ticket.name.as_str(), CALL) && ticket.endpoint != me {
            if active {
                ringing.insert(ticket.endpoint);
            } else {
                ringing.remove(&ticket.endpoint);
            }
        }
    }
}

/// Returns the ticket entered in the box, if one was.
///
/// The box counts only when it holds more than white space. It is entered with
/// the button, or with Enter as the box loses the focus.
pub fn entered(input: &str, clicked: bool, lost_focus: bool, enter: bool) -> (res: Option<String>)
    ensures
        text::opt_text(res) == if text::trimmed(input@).len() > 0 && (clicked || (lost_focus
            && enter)) {
            Some(text::trimmed(input@))
        } else {
            None
        },
{
    let trimmed = text::trim(input);
    let ready: bool = !trimmed.is_empty();
    if ready && (clicked || (lost_focus && enter)) {
        Some(trimmed.to_owned())
    } else {
        None
    }
}

/// A peer whose call ended here stays unanswered for as long as it keeps
/// offering its side: whatever the window then does, hearing the same ring
/// keeps it out.
pub proof fn law_an_ended_call_is_not_answered_again(
    state: CallView,
    peer: EndpointId,
    ringing: Set<EndpointId>,
    picked: EndpointId,
)
    requires
        state.ended.contains(peer),
        ringing.contains(peer),
        peers::is_first(picked, ringing.difference(state.heard(ringing).ended)),
    ensures
        picked != peer,
        state.heard(ringing).ended.contains(peer),
{
}

/// A peer that withdrew its offer may be answered when it rings again.
pub proof fn law_a_withdrawn_offer_is_forgotten(
    state: CallView,
    peer: EndpointId,
    quiet: Set<EndpointId>,
    again: Set<EndpointId>,
)
    requires
        !quiet.contains(peer),
        again.contains(peer),
    ensures
        again.difference(state.heard(quiet).heard(again).ended).contains(peer),
{
}

/// However an attempt or a call ends, its peer is not answered until it
/// withdraws: by hanging up, by giving up, by a failure, or by dialing someone
/// else.
pub proof fn law_every_end_shuns_the_peer(state: CallView, message: Seq<char>, next: EndpointId)
    ensures
        state.screen matches ScreenView::InCall { peer } ==> state.hung_up(message).ended.contains(
            peer,
        ),
        state.pending matches Some(direction) ==> {
            &&& state.failed(message).ended.contains(direction.other())
            &&& state.discarded().ended.contains(direction.other())
            &&& state.dialing(next).ended.contains(direction.other())
        },
{
}

/// A dial leaves no other attempt in flight.
pub proof fn law_a_dial_replaces_the_attempt(state: CallView, peer: EndpointId)
    ensures
        state.dialing(peer).pending is None,
        state.dialing(peer).screen == (ScreenView::Calling { name: peer.short() }),
{
}

/// The publisher gets its camera back: once a pass is over, the camera is owed
/// only while the scan screen is up.
pub proof fn law_the_camera_is_owed_only_while_scanning(state: CallView)
    ensures
        state.settled().camera_owed ==> state.settled().screen is Scanning,
        state.due() ==> state.settled().restoring,
{
}

/// A restore that began before the scan screen took the camera again belongs
/// to another epoch, so it never sets the video.
pub proof fn law_a_taken_camera_supersedes_the_restore(state: CallView)
    requires
        state.scan_frames() is Taken,
        state.camera_epoch < u64::MAX,
    ensures
        state.scanning().camera_epoch != state.camera_epoch,
        state.scanning().camera_owed,
        !state.scanning().restoring,
{
}

/// A scan that borrows the publisher's frames, or opens a free camera, leaves
/// the publisher alone.
pub proof fn law_a_scan_on_other_frames_owes_nothing(state: CallView)
    requires
        !(state.scan_frames() is Taken),
    ensures
        state.scanning() == state.showing(ScreenView::Scanning),
{
}

/// A notice is kept until the waiting screen is up with nothing on it, and is
/// then shown.
pub proof fn law_a_notice_is_shown_in_the_end(state: CallView, message: Seq<char>)
    requires
        state.notice == Some(message),
    ensures
        match state.screen {
            ScreenView::Waiting { input, message: None } => {
                &&& state.noticed().screen == (ScreenView::Waiting { input, message: Some(message) })
                &&& state.noticed().notice is None
            },
            _ => state.noticed() == state,
        },
{
}

/// The publisher holds the camera exactly where it publishes one that the scan
/// may be after: a scan without a camera of its own, or one on the same device.
pub proof fn law_the_publisher_holds_the_camera_it_publishes(
    id: Option<Seq<char>>,
    other: Option<Seq<char>>,
    mode: crate::source_spec::RpicamMode,
    pattern: crate::source_spec::TestPattern,
    problem: Seq<char>,
)
    ensures
        holder(Ok(VideoSourceView::Camera(id)), None) is Publisher,
        holder(Ok(VideoSourceView::Rpicam(mode)), None) is Publisher,
        holder(Ok(VideoSourceView::Rpicam(mode)), Some(VideoSourceView::Rpicam(mode)))
            is Publisher,
        holder(Ok(VideoSourceView::Camera(id)), Some(VideoSourceView::Camera(other))) is Publisher
            <==> id is None || other is None || id == other,
        holder(Ok(VideoSourceView::Camera(id)), Some(VideoSourceView::Rpicam(mode))) is Free,
        holder(Ok(VideoSourceView::Display(id)), None) is Free,
        holder(Ok(VideoSourceView::Test(pattern)), None) is Free,
        holder(Ok(VideoSourceView::Nothing), None) is Free,
        holder(Err(problem), None) is Free,
{
}

/// Whether two specifiers may name one device does not depend on their order, and
/// a device may be itself.
pub proof fn law_devices_are_compared_either_way(left: VideoSourceView, right: VideoSourceView)
    ensures
        may_be_same(left, right) == may_be_same(right, left),
        left is Camera || left is Rpicam ==> may_be_same(left, left),
        may_be_same(left, right) ==> (left is Camera && right is Camera) || (left is Rpicam
            && right is Rpicam),
{
}

/// An attempt that was offered is awaited. One whose offer failed is over: its
/// peer is not answered again, and only a call from here says why.
pub proof fn law_an_offer_is_awaited_or_over(
    state: CallView,
    peer: EndpointId,
    message: Seq<char>,
)
    ensures
        ({
            let out = Direction::Outgoing(peer);
            let back = Direction::Incoming(peer);
            &&& state.after_offer(out, Ok(())).pending == Some(out)
            &&& state.after_offer(back, Ok(())).pending == Some(back)
            &&& state.after_offer(out, Ok(())).screen == state.screen
            &&& state.after_offer(out, Err(message)).screen == (ScreenView::Waiting {
                input: Seq::empty(),
                message: Some(message),
            })
            &&& state.after_offer(back, Err(message)).screen == state.screen
            &&& state.after_offer(out, Err(message)).ended.contains(peer)
            &&& state.after_offer(back, Err(message)).ended.contains(peer)
            &&& state.after_offer(out, Err(message)).pending == state.pending
        }),
{
}

/// An attempt that connects shows the call with its peer; one that fails ends,
/// and only a call from here says why. What else the window knows stays.
pub proof fn law_an_attempt_ends_in_a_call_or_not(
    state: CallView,
    peer: EndpointId,
    message: Seq<char>,
)
    ensures
        state.pending == Some(Direction::Outgoing(peer)) || state.pending == Some(
            Direction::Incoming(peer),
        ) ==> {
            &&& state.connected().screen == (ScreenView::InCall { peer })
            &&& state.connected().pending is None
            &&& state.connected().ended == state.ended
            &&& state.connected().camera_owed == state.camera_owed
            &&& state.failed(message).pending is None
            &&& state.failed(message).ended == state.ended.insert(peer)
            &&& state.failed(message).camera_owed == state.camera_owed
        },
        state.pending == Some(Direction::Outgoing(peer)) ==> state.failed(message).screen == (
        ScreenView::Waiting { input: Seq::empty(), message: Some(message) }),
        state.pending == Some(Direction::Incoming(peer)) ==> state.failed(message).screen
            == state.screen,
{
}

/// Hanging up goes back to the waiting screen with the reason, and shuns the peer
/// of the call and nobody else.
pub proof fn law_hanging_up_goes_back_to_waiting(
    state: CallView,
    peer: EndpointId,
    message: Seq<char>,
)
    ensures
        state.hung_up(message).screen == (ScreenView::Waiting {
            input: Seq::empty(),
            message: Some(message),
        }),
        state.screen == (ScreenView::InCall { peer }) ==> state.hung_up(message).ended
            == state.ended.insert(peer),
        !(state.screen is InCall) ==> state.hung_up(message).ended == state.ended,
        state.hung_up(message).pending == state.pending,
        state.hung_up(message).camera_owed == state.camera_owed,
        state.hung_up(message).notice == state.notice,
{
}

/// A caller is answered only while nothing else goes on, and is one that rings
/// and was not shunned, the first of them.
pub proof fn law_a_caller_is_answered_in_order(
    state: CallView,
    ringing: Set<EndpointId>,
    picked: EndpointId,
    other: EndpointId,
)
    requires
        peers::is_first(picked, ringing.difference(state.heard(ringing).ended)),
        ringing.contains(other),
        !state.ended.contains(other),
    ensures
        ringing.contains(picked),
        !state.ended.contains(picked),
        picked == other || picked.precedes(other),
        state.idle() <==> state.pending is None && !(state.screen is InCall),
        state.heard(ringing).screen == state.screen,
        state.heard(ringing).pending == state.pending,
{
    assert(ringing.difference(state.heard(ringing).ended).contains(other));
}

/// A peer rings from the moment it offers its side of a call until it withdraws
/// it. Broadcasts of other names, this node's own and routes that name none
/// change nothing.
pub proof fn law_a_peer_rings_while_it_offers(
    ringing: Set<EndpointId>,
    me: EndpointId,
    ticket: BroadcastTicket,
    other: EndpointId,
)
    ensures
        ticket.name@ == "call"@ && ticket.endpoint != me ==> {
            &&& ringing_after(ringing, me, Some(ticket), true).contains(ticket.endpoint)
            &&& !ringing_after(ringing, me, Some(ticket), false).contains(ticket.endpoint)
        },
        other != ticket.endpoint ==> {
            &&& ringing_after(ringing, me, Some(ticket), true).contains(other)
                == ringing.contains(other)
            &&& ringing_after(ringing, me, Some(ticket), false).contains(other)
                == ringing.contains(other)
        },
        ticket.name@ != "call"@ || ticket.endpoint == me ==> {
            &&& ringing_after(ringing, me, Some(ticket), true) == ringing
            &&& ringing_after(ringing, me, Some(ticket), false) == ringing
        },
        ringing_after(ringing, me, None, true) == ringing,
        ringing_after(ringing, me, None, false) == ringing,
{
}

/// The scan screen reads the publisher's frames where it has some to lend, takes
/// its camera where it has none, and opens a camera that is free.
pub proof fn law_the_scan_finds_its_frames(state: CallView)
    ensures
        state.camera is Free ==> state.scan_frames() is Opened,
        state.camera is Publisher && state.has_frames ==> state.scan_frames() is Borrowed,
        state.camera is Publisher && !state.has_frames ==> state.scan_frames() is Taken,
        state.scanning().screen is Scanning,
        state.scanning().pending == state.pending,
        state.scanning().ended == state.ended,
        state.scanning().out_of_scan().screen == (ScreenView::Waiting {
            input: Seq::empty(),
            message: None,
        }),
        !(state.screen is Scanning) ==> state.out_of_scan() == state,
{
}

/// The camera that a scan took is asked back once the scan screen is left, and
/// once only.
pub proof fn law_the_camera_comes_back_once(state: CallView)
    ensures
        state.camera_owed && !(state.screen is Scanning) ==> state.due(),
        state.due() ==> state.camera_owed && !(state.screen is Scanning),
        !state.settled().due(),
        !state.due() ==> state.settled() == state,
        state.settled().screen == state.screen,
        state.settled().camera_epoch == state.camera_epoch,
{
}

/// A restore that succeeds tells whether there are frames to lend, and one that
/// fails leaves a notice with its reason. Either ends the restore.
pub proof fn law_a_restore_reports(state: CallView, has_frames: bool, message: Seq<char>)
    ensures
        !state.restored(Ok(has_frames)).restoring,
        !state.restored(Err(message)).restoring,
        state.restored(Ok(has_frames)).has_frames == has_frames,
        state.restored(Ok(has_frames)).notice == state.notice,
        state.restored(Err(message)).has_frames == state.has_frames,
        state.restored(Err(message)).notice == Some(
            "the camera did not come back after the scan: "@ + message,
        ),
        state.restored(Err(message)).screen == state.screen,
{
}

/// A message is shown on the waiting screen beside what is typed, and nowhere
/// else.
pub proof fn law_a_message_leaves_what_is_typed(
    state: CallView,
    input: Seq<char>,
    before: Option<Seq<char>>,
    message: Seq<char>,
)
    ensures
        state.screen == (ScreenView::Waiting { input, message: before }) ==> state.reported(
            message,
        ).screen == (ScreenView::Waiting { input, message: Some(message) }),
        !(state.screen is Waiting) ==> state.reported(message) == state,
        state.reported(message).pending == state.pending,
        state.reported(message).ended == state.ended,
{
}

/// A dial keeps what the window owes, and shuns the attempt that it replaces and
/// nobody else.
pub proof fn law_a_dial_drops_only_the_attempt(
    state: CallView,
    peer: EndpointId,
    dropped: EndpointId,
)
    ensures
        state.pending is None ==> state.dialing(peer).ended == state.ended,
        state.pending == Some(Direction::Incoming(dropped)) || state.pending == Some(
            Direction::Outgoing(dropped),
        ) ==> state.dialing(peer).ended == state.ended.insert(dropped),
        state.dialing(peer).camera_owed == state.camera_owed,
        state.dialing(peer).notice == state.notice,
        state.pending is None ==> state.discarded() == state,
        state.discarded().pending is None,
        state.discarded().screen == state.screen,
{
}

/// A window starts on the waiting screen, with nothing typed, said, owed or
/// shunned.
pub proof fn law_a_call_window_starts_waiting(camera: Camera, has_frames: bool)
    ensures
        ({
            let state = CallView::initial(camera, has_frames);
            &&& state.screen == (ScreenView::Waiting { input: Seq::empty(), message: None })
            &&& state.camera == camera
            &&& state.has_frames == has_frames
            &&& !state.restoring && !state.camera_owed
            &&& state.notice is None && state.pending is None
            &&& forall|peer: EndpointId| !state.ended.contains(peer)
        }),
{
}

/// A screen is seen as what it is, with what it holds.
pub proof fn law_a_screen_is_seen_as_it_is(one: Screen)
    ensures
        one matches Screen::Waiting { input, message } ==> one@ == (ScreenView::Waiting {
                input: input@,
                message: text::opt_text(message),
            }),
        one matches Screen::Scanning ==> one@ == ScreenView::Scanning,
        one matches Screen::Calling { name } ==> one@ == (ScreenView::Calling { name: name@ }),
        one matches Screen::InCall { peer } ==> one@ == (ScreenView::InCall { peer }),
{
}

} // verus!
