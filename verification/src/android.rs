//! The Android demo: one session per screen, and what the overlay says of it.
//!
//! The bridge to Java and the drawing stay with the platform. What is decided
//! here is how a session opens, which parts it has and in what order they close,
//! who is answered, what the status line says, and how a log line reaches the
//! system log.

use vstd::prelude::*;

use crate::rendition::Size;
use crate::text;

verus! {

/// A width and a height as one number: the width in the upper half of its bits.
pub open spec fn both(width: u32, height: u32) -> int {
    if width < 0x8000_0000 {
        width * 0x1_0000_0000 + height
    } else {
        (width - 0x1_0000_0000) * 0x1_0000_0000 + height
    }
}

/// Returns a width and a height as one number, `(width << 32) | height`.
pub fn pack_dimensions(width: u32, height: u32) -> (res: i64)
    ensures
        res == both(width, height),
{
    if width < 0x8000_0000 {
        width as i64 * 0x1_0000_0000 + height as i64
    } else {
        (width as i64 - 0x1_0000_0000) * 0x1_0000_0000 + height as i64
    }
}

/// The coded size of the rendition that plays, as far as the catalog says.
#[derive(Debug, Clone, Copy, PartialEq, Eq, Structural)]
pub struct CodedSize {
    pub width: Option<u32>,
    pub height: Option<u32>,
}

/// Returns the size of the video being drawn as one number, or zero.
///
/// The decoder's own answer, in `frame`, beats the catalog's, which describes
/// the encoded resolution rather than what came out.
pub fn video_dimensions(frame: Option<(u32, u32)>, coded: Option<CodedSize>) -> (res: i64)
    ensures
        res == match frame {
            Some((width, height)) => both(width, height),
            None => match coded {
                Some(CodedSize { width: Some(width), height: Some(height) }) => both(width, height),
                _ => 0,
            },
        },
{
    if let Some((width, height)) = frame {
        return pack_dimensions(width, height);
    }
    match coded {
        Some(CodedSize { width: Some(width), height: Some(height) }) => pack_dimensions(
            width,
            height,
        ),
        _ => 0,
    }
}

/// Returns the size of the video being drawn as one number, or zero, with zero
/// for a side that the catalog leaves out.
pub fn dimensions_or_zero(frame: Option<(u32, u32)>, coded: Option<CodedSize>) -> (res: i64)
    ensures
        res == match (frame, coded) {
            (Some((width, height)), _) => both(width, height),
            (None, Some(CodedSize { width, height })) => both(
                match width {
                    Some(width) => width,
                    None => 0,
                },
                match height {
                    Some(height) => height,
                    None => 0,
                },
            ),
            (None, None) => 0,
        },
{
    if let Some((width, height)) = frame {
        return pack_dimensions(width, height);
    }
    match coded {
        Some(CodedSize { width, height }) => pack_dimensions(
            match width {
                Some(width) => width,
                None => 0,
            },
            match height {
                Some(height) => height,
                None => 0,
            },
        ),
        None => 0,
    }
}

// Status

/// What plays, for the status line.
#[derive(Debug)]
pub enum Track {
    /// The player has picked no rendition.
    NoTrack,
    /// The rendition of this name.
    Rendition(String),
    /// There is no video to decode.
    NoVideo,
    /// This decoder decodes the rendition of this name.
    Decoding { decoder: String, rendition: String },
}

impl Track {
    /// The text of what plays.
    pub open spec fn text(self) -> Seq<char> {
        match self {
            Track::NoTrack => "no track"@,
            Track::Rendition(name) => "trk:"@ + name@,
            Track::NoVideo => "no video"@,
            Track::Decoding { decoder, rendition } => "dec:"@ + decoder@ + " trk:"@ + rendition@,
        }
    }

    /// Returns the text of what plays.
    fn label(&self) -> (res: String)
        ensures
            res@ == self.text(),
    {
        match self {
            Track::NoTrack => "no track".to_owned(),
            Track::Rendition(name) => "trk:".to_owned().concat(name.as_str()),
            Track::NoVideo => "no video".to_owned(),
            Track::Decoding { decoder, rendition } => "dec:".to_owned().concat(
                decoder.as_str(),
            ).concat(" trk:").concat(rendition.as_str()),
        }
    }
}

/// How playout goes, for the status line.
#[derive(Debug)]
pub enum Playout {
    /// The latency in milliseconds.
    Latency(u64),
    /// The buffer in milliseconds, and the jitter in whole milliseconds as text.
    Buffer { millis: u64, jitter: String },
}

impl Playout {
    /// The text of how playout goes.
    pub open spec fn text(self) -> Seq<char> {
        match self {
            Playout::Latency(millis) => "lat:"@ + text::decimal(millis as nat) + "ms"@,
            Playout::Buffer { millis, jitter } => "buf:"@ + text::decimal(millis as nat)
                + "ms jit:"@ + jitter@ + "ms"@,
        }
    }

    /// Returns the text of how playout goes.
    fn label(&self) -> (res: String)
        ensures
            res@ == self.text(),
    {
        match self {
            Playout::Latency(millis) => "lat:".to_owned().concat(
                text::decimal_text(*millis).as_str(),
            ).concat("ms"),
            Playout::Buffer { millis, jitter } => "buf:".to_owned().concat(
                text::decimal_text(*millis).as_str(),
            ).concat("ms jit:").concat(jitter.as_str()).concat("ms"),
        }
    }
}

/// What the status line is made of.
#[derive(Debug)]
pub struct Status {
    pub track: Track,
    /// The text of the size of the last frame drawn.
    pub size: Option<String>,
    pub cam_frames_pushed: u64,
    pub dec_frames_rendered: u64,
    /// The round trip in milliseconds.
    pub rtt: Option<u64>,
    pub playout: Option<Playout>,
    /// How many seconds the session is old.
    pub elapsed: u64,
}

impl Status {
    /// The status line.
    pub open spec fn text(self) -> Seq<char> {
        let size = match self.size {
            Some(size) => size@,
            None => "?"@,
        };
        let net = match self.rtt {
            Some(rtt) => "rtt:"@ + text::decimal(rtt as nat) + "ms"@,
            None => ""@,
        };
        let playout = match self.playout {
            Some(playout) => playout.text(),
            None => ""@,
        };
        self.track.text() + " "@ + size + " | cam:"@ + text::decimal(self.cam_frames_pushed as nat)
            + " dec:"@ + text::decimal(self.dec_frames_rendered as nat) + " | "@ + net + " "@
            + playout + " | "@ + text::decimal(self.elapsed as nat) + "s"@
    }

    /// Returns a compact status line for the debug overlay.
    pub fn status_line(&self) -> (res: String)
        ensures
            res@ == self.text(),
    {
        let size: String = match &self.size {
            Some(size) => size.clone(),
            None => "?".to_owned(),
        };
        let net: String = match self.rtt {
            Some(rtt) => "rtt:".to_owned().concat(text::decimal_text(rtt).as_str()).concat("ms"),
            None => "".to_owned(),
        };
        let playout: String = match &self.playout {
            Some(playout) => playout.label(),
            None => "".to_owned(),
        };
        self.track.label().concat(" ").concat(size.as_str()).concat(" | cam:").concat(
            text::decimal_text(self.cam_frames_pushed).as_str(),
        ).concat(" dec:").concat(text::decimal_text(self.dec_frames_rendered).as_str()).concat(
            " | ",
        ).concat(net.as_str()).concat(" ").concat(playout.as_str()).concat(" | ").concat(
            text::decimal_text(self.elapsed).as_str(),
        ).concat("s")
    }
}

/// Returns the round trip on the serving link, once it measured one.
///
/// `link` is the link that serves a subscription, `call` the link of a call,
/// each with its round trip in milliseconds.
pub fn session_rtt(link: Option<Option<u64>>, call: Option<Option<u64>>) -> (res: Option<u64>)
    ensures
        res == match link {
            Some(rtt) => rtt,
            None => match call {
                Some(rtt) => rtt,
                None => None,
            },
        },
{
    match link {
        Some(rtt) => rtt,
        None => match call {
            Some(rtt) => rtt,
            None => None,
        },
    }
}

/// What a session has drawn and sent.
#[derive(Debug, Clone, Copy, PartialEq, Eq)]
pub struct Counters {
    pub cam_frames_pushed: u64,
    pub dec_frames_rendered: u64,
    /// The size of the last frame drawn.
    pub frame_dims: Option<(u32, u32)>,
}

impl Counters {
    /// Starts at zero.
    pub fn new() -> (res: Self)
        ensures
            res == (Counters { cam_frames_pushed: 0, dec_frames_rendered: 0, frame_dims: None }),
    {
        Counters { cam_frames_pushed: 0, dec_frames_rendered: 0, frame_dims: None }
    }

    /// Counts a frame that reached the publish pipeline, and returns whether it
    /// is the first.
    pub fn pushed(&mut self) -> (res: bool)
        requires
            old(self).cam_frames_pushed < u64::MAX,
        ensures
            *final(self) == (Counters {
                cam_frames_pushed: (old(self).cam_frames_pushed + 1) as u64,
                ..*old(self)
            }),
            res == (old(self).cam_frames_pushed == 0),
    {
        let first: bool = self.cam_frames_pushed == 0;
        self.cam_frames_pushed += 1;
        first
    }

    /// Counts a frame that is drawn, and returns whether its size is new.
    pub fn drawn(&mut self, width: u32, height: u32) -> (res: bool)
        requires
            old(self).dec_frames_rendered < u64::MAX,
        ensures
            *final(self) == (Counters {
                dec_frames_rendered: (old(self).dec_frames_rendered + 1) as u64,
                frame_dims: Some((width, height)),
                ..*old(self)
            }),
            res == (old(self).frame_dims != Some((width, height))),
    {
        self.dec_frames_rendered += 1;
        let same: bool = match self.frame_dims {
            Some((w, h)) => w == width && h == height,
            None => false,
        };
        self.frame_dims = Some((width, height));
        !same
    }
}

// Camera

/// Holds the newest camera frame until the encoder takes it.
///
/// Newer frames replace unconsumed older ones. That is the right policy for a
/// camera, where a frame the encoder never got to is stale rather than owed.
#[derive(Debug)]
pub struct CameraFrameSource<T> {
    pub pending_frame: Option<T>,
    pub started: bool,
}

impl<T> CameraFrameSource<T> {
    /// Creates a source with no frame.
    pub fn new() -> (res: Self)
        ensures
            res.pending_frame is None,
            !res.started,
    {
        CameraFrameSource { pending_frame: None, started: false }
    }

    /// Pushes a frame, replacing any frame not yet consumed.
    pub fn push_frame(&mut self, frame: T)
        ensures
            final(self).pending_frame == Some(frame),
            final(self).started == old(self).started,
    {
        self.pending_frame = Some(frame);
    }

    /// Takes the newest frame.
    pub fn pop_frame(&mut self) -> (res: Option<T>)
        ensures
            res == old(self).pending_frame,
            final(self).pending_frame is None,
            final(self).started == old(self).started,
    {
        self.pending_frame.take()
    }

    /// Starts the source.
    pub fn start(&mut self)
        ensures
            final(self).pending_frame == old(self).pending_frame,
            final(self).started,
    {
        self.started = true;
    }

    /// Stops the source.
    pub fn stop(&mut self)
        ensures
            final(self).pending_frame == old(self).pending_frame,
            !final(self).started,
    {
        self.started = false;
    }
}

/// Why a camera frame is not taken.
#[derive(Debug, Clone, Copy, PartialEq, Eq, Structural)]
pub enum CameraError {
    /// The pixel buffer does not match the declared size and format.
    Frame,
    /// The source the frames were for has gone.
    Closed,
}

impl CameraError {
    /// Returns the message.
    pub fn message(self) -> (res: &'static str)
        ensures
            res@ == match self {
                CameraError::Frame => "invalid camera frame"@,
                CameraError::Closed => "the camera source has closed"@,
            },
    {
        match self {
            CameraError::Frame => "invalid camera frame",
            CameraError::Closed => "the camera source has closed",
        }
    }
}

/// A packed RGBA frame with its time in microseconds.
#[derive(Debug, PartialEq, Eq)]
pub struct CameraFrame {
    pub rgba: Vec<u8>,
    pub micros: u64,
}

/// The app side of the camera: push frames here from the camera callback.
#[derive(Debug)]
pub struct CameraSink {
    /// The size every pushed frame must have.
    pub size: Size,
    /// Whether the source is still there.
    pub open: bool,
    /// The frame that the source has not consumed.
    pub pending: Option<CameraFrame>,
}

impl CameraSink {
    /// Creates a sink for a fixed capture size.
    pub fn new(size: Size) -> (res: Self)
        ensures
            res == (CameraSink { size, open: true, pending: None }),
    {
        CameraSink { size, open: true, pending: None }
    }

    /// Pushes one RGBA frame, replacing any frame not yet consumed.
    ///
    /// `rgba` is tightly packed, four bytes per pixel. Fails if it does not match
    /// the size this sink was created with, or if the source has closed.
    pub fn push_rgba(&mut self, rgba: Vec<u8>, micros: u64) -> (res: Result<(), CameraError>)
        ensures
            final(self).size == old(self).size,
            final(self).open == old(self).open,
            if rgba@.len() != 4 * old(self).size.area() {
                res == Err::<(), CameraError>(CameraError::Frame) && final(self).pending == old(
                    self,
                ).pending
            } else if !old(self).open {
                res == Err::<(), CameraError>(CameraError::Closed) && final(self).pending == old(
                    self,
                ).pending
            } else {
                res is Ok && final(self).pending == Some(CameraFrame { rgba, micros })
            },
    {
        let pixels: u64 = self.size.pixels();
        if rgba.len() as u128 != 4 * (pixels as u128) {
            return Err(CameraError::Frame);
        }
        if !self.open {
            return Err(CameraError::Closed);
        }
        self.pending = Some(CameraFrame { rgba, micros });
        Ok(())
    }
}

/// Returns whether a packed RGBA frame has the bytes that its size needs.
pub fn rgba_matches(len: usize, width: i32, height: i32) -> (res: bool)
    requires
        i32::MIN <= width * height * 4 <= i32::MAX,
        i32::MIN <= width * height <= i32::MAX,
    ensures
        res == (len == width * height * 4),
{
    let need: i32 = width * height * 4;
    need >= 0 && len == need as usize
}

// Sessions

/// What a screen opens a session for.
#[derive(Debug, Clone, Copy, PartialEq, Eq, Structural)]
pub enum SessionKind {
    /// Watching a broadcast.
    Connect,
    /// Calling a peer.
    Dial,
    /// Waiting for a peer to call.
    Answer,
    /// Publishing the camera and the microphone.
    Publish,
    /// Showing the camera: no encode, no decode, no network.
    Direct,
    /// Encoding and decoding the camera, with no network in between.
    Loopback,
}

/// What the render loop draws.
#[derive(Debug, Clone, Copy, PartialEq, Eq, Structural)]
pub enum Drawn {
    /// The player's decoded frames.
    Player,
    /// This node's own camera frames as they reach the encoder, which costs no
    /// decode.
    Preview,
}

/// What a session holds open.
#[derive(Debug, Clone, Copy, PartialEq, Eq, Structural)]
pub struct Parts {
    /// The endpoint and transport.
    pub live: bool,
    pub subscription: bool,
    pub call: bool,
    pub player: bool,
    /// The speaker that the player's audio plays through, and that the
    /// microphone's echo canceller subtracts.
    pub output: bool,
    pub broadcast: bool,
    /// Where the camera frames go.
    pub camera: bool,
    pub microphone: bool,
    pub ticket: bool,
    /// The task waiting for somebody to call.
    pub waiting: bool,
    pub frames: Drawn,
}

/// The parts of a session when it opens.
pub open spec fn parts_of(kind: SessionKind) -> Parts {
    let network = kind != SessionKind::Direct && kind != SessionKind::Loopback;
    let calls = kind == SessionKind::Dial || kind == SessionKind::Answer;
    let plays = kind == SessionKind::Connect || kind == SessionKind::Dial || kind
        == SessionKind::Loopback;
    let publishes = kind != SessionKind::Connect;
    Parts {
        live: network,
        subscription: kind == SessionKind::Connect,
        call: kind == SessionKind::Dial,
        player: plays,
        output: calls || kind == SessionKind::Connect,
        broadcast: publishes,
        camera: publishes,
        microphone: publishes && network,
        ticket: kind == SessionKind::Answer || kind == SessionKind::Publish,
        waiting: kind == SessionKind::Answer,
        frames: if plays {
            Drawn::Player
        } else {
            Drawn::Preview
        },
    }
}

/// Returns the parts of a session when it opens.
///
/// Each peer of a call publishes its own side and subscribes to the other's. A
/// session that answers starts its camera before a peer arrives, so the preview
/// is live while the code is on screen. Nothing plays sound in a publish-only
/// session, so there is no echo to cancel and no speaker to open.
pub fn session_parts(kind: SessionKind) -> (res: Parts)
    ensures
        res == parts_of(kind),
{
    let network: bool = kind != SessionKind::Direct && kind != SessionKind::Loopback;
    let calls: bool = kind == SessionKind::Dial || kind == SessionKind::Answer;
    let plays: bool = kind == SessionKind::Connect || kind == SessionKind::Dial || kind
        == SessionKind::Loopback;
    let publishes: bool = kind != SessionKind::Connect;
    Parts {
        live: network,
        subscription: kind == SessionKind::Connect,
        call: kind == SessionKind::Dial,
        player: plays,
        output: calls || kind == SessionKind::Connect,
        broadcast: publishes,
        camera: publishes,
        microphone: publishes && network,
        ticket: kind == SessionKind::Answer || kind == SessionKind::Publish,
        waiting: kind == SessionKind::Answer,
        frames: if plays {
            Drawn::Player
        } else {
            Drawn::Preview
        },
    }
}

/// One step of opening a session.
#[derive(Debug, Clone, Copy, PartialEq, Eq, Structural)]
pub enum OpenStep {
    ParseTicket,
    ParseCallTicket,
    ParseTicketString,
    /// Bind the endpoint.
    Bind,
    Subscribe,
    OpenSpeaker,
    /// Publish this node's broadcast.
    Publish,
    SetCamera,
    /// Open the default microphone and publish it.
    SetMicrophone,
    SetVideo,
    OpenMicrophone,
    SetAudio,
    DialPeer,
    Play,
    SubscribeMedia,
    OpenVideo,
    OpenAudio,
}

impl OpenStep {
    /// Whether a session is worth having without this step.
    pub open spec fn optional(self) -> bool {
        self is OpenSpeaker || self is SetMicrophone || self is OpenVideo || self is OpenAudio
    }

    /// Returns whether a session is worth having without this step.
    fn is_optional(&self) -> (res: bool)
        ensures
            res == self.optional(),
    {
        matches!(
            self,
            OpenStep::OpenSpeaker | OpenStep::SetMicrophone | OpenStep::OpenVideo
                | OpenStep::OpenAudio,
        )
    }

    /// The message for a step that failed.
    pub open spec fn failure(self, cause: Seq<char>) -> Seq<char> {
        match self {
            OpenStep::ParseTicket => "failed to parse ticket: "@ + cause,
            OpenStep::ParseCallTicket => "failed to parse call ticket: "@ + cause,
            OpenStep::ParseTicketString => "failed to parse ticket string: "@ + cause,
            OpenStep::SetVideo => "failed to set video source: "@ + cause,
            OpenStep::OpenMicrophone => "failed to open microphone: "@ + cause,
            OpenStep::SetAudio => "failed to set audio source: "@ + cause,
            OpenStep::SubscribeMedia => "failed to subscribe to remote media: "@ + cause,
            OpenStep::OpenSpeaker => "playing audio nowhere, the speaker did not open: "@ + cause,
            OpenStep::SetMicrophone => "publishing without audio: "@ + cause,
            OpenStep::OpenVideo => "no video track: "@ + cause,
            OpenStep::OpenAudio => "no audio track: "@ + cause,
            _ => cause,
        }
    }

    /// Returns the message for a step that failed.
    pub fn message(&self, cause: &str) -> (res: String)
        ensures
            res@ == self.failure(cause@),
    {
        let context: &str = match self {
            OpenStep::ParseTicket => "failed to parse ticket: ",
            OpenStep::ParseCallTicket => "failed to parse call ticket: ",
            OpenStep::ParseTicketString => "failed to parse ticket string: ",
            OpenStep::SetVideo => "failed to set video source: ",
            OpenStep::OpenMicrophone => "failed to open microphone: ",
            OpenStep::SetAudio => "failed to set audio source: ",
            OpenStep::SubscribeMedia => "failed to subscribe to remote media: ",
            OpenStep::OpenSpeaker => "playing audio nowhere, the speaker did not open: ",
            OpenStep::SetMicrophone => "publishing without audio: ",
            OpenStep::OpenVideo => "no video track: ",
            OpenStep::OpenAudio => "no audio track: ",
            _ => {
                return cause.to_owned();
            },
        };
        context.to_owned().concat(cause)
    }
}

/// The steps that open a session, in order.
pub open spec fn opening(kind: SessionKind) -> Seq<OpenStep> {
    match kind {
        SessionKind::Connect => seq![
            OpenStep::ParseTicket,
            OpenStep::Bind,
            OpenStep::Subscribe,
            OpenStep::OpenSpeaker,
            OpenStep::Play,
        ],
        SessionKind::Dial => seq![
            OpenStep::ParseCallTicket,
            OpenStep::Bind,
            OpenStep::OpenSpeaker,
            OpenStep::Publish,
            OpenStep::SetCamera,
            OpenStep::SetMicrophone,
            OpenStep::DialPeer,
            OpenStep::Play,
        ],
        SessionKind::Answer => seq![
            OpenStep::Bind,
            OpenStep::OpenSpeaker,
            OpenStep::Publish,
            OpenStep::SetCamera,
            OpenStep::SetMicrophone,
        ],
        SessionKind::Publish => seq![
            OpenStep::Bind,
            OpenStep::SetCamera,
            OpenStep::SetMicrophone,
            OpenStep::Publish,
        ],
        SessionKind::Direct => seq![OpenStep::SetCamera],
        SessionKind::Loopback => seq![OpenStep::SetCamera, OpenStep::Play],
    }
}

/// The steps that open a call whose camera and microphone both have to open.
pub open spec fn media_call() -> Seq<OpenStep> {
    seq![
        OpenStep::ParseCallTicket,
        OpenStep::Bind,
        OpenStep::SetVideo,
        OpenStep::OpenMicrophone,
        OpenStep::SetAudio,
        OpenStep::DialPeer,
        OpenStep::SubscribeMedia,
    ]
}

/// The steps that open a broadcast track by track.
pub open spec fn media_connect() -> Seq<OpenStep> {
    seq![
        OpenStep::ParseTicketString,
        OpenStep::Bind,
        OpenStep::Subscribe,
        OpenStep::OpenVideo,
        OpenStep::OpenAudio,
    ]
}

/// What comes after a step.
#[derive(Debug)]
pub enum Opened {
    /// Take this step.
    Next(OpenStep),
    /// The session is open.
    Ready,
    /// It did not open, for this reason.
    Failed(String),
}

/// A session that is opening, step by step.
#[derive(Debug)]
pub struct Opening {
    /// The steps, in order.
    pub steps: Vec<OpenStep>,
    /// How many were taken.
    pub taken: usize,
}

impl Opening {
    /// Starts to open a session.
    pub fn new(kind: SessionKind) -> (res: Self)
        ensures
            res.steps@ == opening(kind),
            res.taken == 0,
    {
        let steps: Vec<OpenStep> = match kind {
            SessionKind::Connect => vec![
                OpenStep::ParseTicket,
                OpenStep::Bind,
                OpenStep::Subscribe,
                OpenStep::OpenSpeaker,
                OpenStep::Play,
            ],
            SessionKind::Dial => vec![
                OpenStep::ParseCallTicket,
                OpenStep::Bind,
                OpenStep::OpenSpeaker,
                OpenStep::Publish,
                OpenStep::SetCamera,
                OpenStep::SetMicrophone,
                OpenStep::DialPeer,
                OpenStep::Play,
            ],
            SessionKind::Answer => vec![
                OpenStep::Bind,
                OpenStep::OpenSpeaker,
                OpenStep::Publish,
                OpenStep::SetCamera,
                OpenStep::SetMicrophone,
            ],
            SessionKind::Publish => vec![
                OpenStep::Bind,
                OpenStep::SetCamera,
                OpenStep::SetMicrophone,
                OpenStep::Publish,
            ],
            SessionKind::Direct => vec![OpenStep::SetCamera],
            SessionKind::Loopback => vec![OpenStep::SetCamera, OpenStep::Play],
        };
        assert(steps@ =~= opening(kind));
        Opening { steps, taken: 0 }
    }

    /// Starts to open a call whose camera and microphone both have to open.
    pub fn media_call() -> (res: Self)
        ensures
            res.steps@ == media_call(),
            res.taken == 0,
    {
        let steps: Vec<OpenStep> = vec![
            OpenStep::ParseCallTicket,
            OpenStep::Bind,
            OpenStep::SetVideo,
            OpenStep::OpenMicrophone,
            OpenStep::SetAudio,
            OpenStep::DialPeer,
            OpenStep::SubscribeMedia,
        ];
        assert(steps@ =~= media_call());
        Opening { steps, taken: 0 }
    }

    /// Starts to open a broadcast track by track.
    pub fn media_connect() -> (res: Self)
        ensures
            res.steps@ == media_connect(),
            res.taken == 0,
    {
        let steps: Vec<OpenStep> = vec![
            OpenStep::ParseTicketString,
            OpenStep::Bind,
            OpenStep::Subscribe,
            OpenStep::OpenVideo,
            OpenStep::OpenAudio,
        ];
        assert(steps@ =~= media_connect());
        Opening { steps, taken: 0 }
    }

    /// Returns the step to take, if one is left.
    pub fn next(&self) -> (res: Option<OpenStep>)
        ensures
            res == if self.taken < self.steps@.len() {
                Some(self.steps@[self.taken as int])
            } else {
                None
            },
    {
        if self.taken < self.steps.len() {
            Some(self.steps[self.taken])
        } else {
            None
        }
    }

    /// Takes the outcome of the step that [`Opening::next`] gave, with the cause
    /// where it failed.
    ///
    /// A session without sound is still worth having, so a speaker or a
    /// microphone that will not open fails nothing.
    pub fn took(&mut self, outcome: Result<(), String>) -> (res: Opened)
        requires
            old(self).taken < old(self).steps@.len(),
        ensures
            final(self).steps == old(self).steps,
            ({
                let step = old(self).steps@[old(self).taken as int];
                match outcome {
                    Err(cause) if !step.optional() => {
                        &&& final(self).taken == old(self).taken
                        &&& res matches Opened::Failed(message) && message@ == step.failure(cause@)
                    },
                    _ => {
                        &&& final(self).taken == old(self).taken + 1
                        &&& res == if final(self).taken < old(self).steps@.len() {
                            Opened::Next(old(self).steps@[final(self).taken as int])
                        } else {
                            Opened::Ready
                        }
                    },
                }
            }),
    {
        let step: OpenStep = self.steps[self.taken];
        if let Err(cause) = outcome {
            if !step.is_optional() {
                return Opened::Failed(step.message(cause.as_str()));
            }
        }
        let total: usize = self.steps.len();
        self.taken += 1;
        if self.taken < total {
            Opened::Next(self.steps[self.taken])
        } else {
            Opened::Ready
        }
    }
}

/// Every part that an open session holds was opened by a step of its own, and
/// nothing else was opened.
pub proof fn law_parts_are_opened(kind: SessionKind)
    ensures
        parts_of(kind).live == opening(kind).contains(OpenStep::Bind),
        parts_of(kind).subscription == opening(kind).contains(OpenStep::Subscribe),
        parts_of(kind).call == opening(kind).contains(OpenStep::DialPeer),
        parts_of(kind).player == opening(kind).contains(OpenStep::Play),
        parts_of(kind).output == opening(kind).contains(OpenStep::OpenSpeaker),
        parts_of(kind).camera == opening(kind).contains(OpenStep::SetCamera),
        parts_of(kind).microphone == opening(kind).contains(OpenStep::SetMicrophone),
        parts_of(kind).live && parts_of(kind).broadcast == opening(kind).contains(
            OpenStep::Publish,
        ) || !parts_of(kind).live && !opening(kind).contains(OpenStep::Publish),
{
    let steps = opening(kind);
    match kind {
        SessionKind::Connect => {
            assert(steps[1] == OpenStep::Bind && steps[2] == OpenStep::Subscribe);
            assert(steps[3] == OpenStep::OpenSpeaker && steps[4] == OpenStep::Play);
        },
        SessionKind::Dial => {
            assert(steps[1] == OpenStep::Bind && steps[2] == OpenStep::OpenSpeaker);
            assert(steps[3] == OpenStep::Publish && steps[4] == OpenStep::SetCamera);
            assert(steps[5] == OpenStep::SetMicrophone && steps[6] == OpenStep::DialPeer);
            assert(steps[7] == OpenStep::Play);
        },
        SessionKind::Answer => {
            assert(steps[0] == OpenStep::Bind && steps[1] == OpenStep::OpenSpeaker);
            assert(steps[2] == OpenStep::Publish && steps[3] == OpenStep::SetCamera);
            assert(steps[4] == OpenStep::SetMicrophone);
        },
        SessionKind::Publish => {
            assert(steps[0] == OpenStep::Bind && steps[1] == OpenStep::SetCamera);
            assert(steps[2] == OpenStep::SetMicrophone && steps[3] == OpenStep::Publish);
        },
        SessionKind::Direct => {
            assert(steps[0] == OpenStep::SetCamera);
        },
        SessionKind::Loopback => {
            assert(steps[0] == OpenStep::SetCamera && steps[1] == OpenStep::Play);
        },
    }
}

/// One step of closing a session.
#[derive(Debug, Clone, Copy, PartialEq, Eq, Structural)]
pub enum Teardown {
    /// Stop waiting for a caller, so none is accepted while the rest closes.
    StopWaiting,
    /// Stop the decoders and take the audio off the speaker.
    DropPlayer,
    /// Tell the peer, where only dropping the call would leave it to wait out a
    /// timeout.
    CloseCall,
    DropSubscription,
    /// Let the encoders finish their tracks, so subscribers see the broadcast
    /// end rather than stall.
    CloseBroadcast,
    ShutDown,
}

/// A step, where there is something for it.
pub open spec fn step_if(there: bool, step: Teardown) -> Seq<Teardown> {
    if there {
        seq![step]
    } else {
        seq![]
    }
}

/// The steps of closing a session, in order.
pub open spec fn closing(parts: Parts) -> Seq<Teardown> {
    step_if(parts.waiting, Teardown::StopWaiting) + step_if(parts.player, Teardown::DropPlayer)
        + step_if(parts.call, Teardown::CloseCall) + step_if(
        parts.subscription,
        Teardown::DropSubscription,
    ) + step_if(parts.broadcast, Teardown::CloseBroadcast) + step_if(
        parts.live,
        Teardown::ShutDown,
    )
}

/// Appends a step, where there is something for it.
fn push_if(steps: &mut Vec<Teardown>, there: bool, step: Teardown)
    ensures
        final(steps)@ == old(steps)@ + step_if(there, step),
{
    let ghost before = steps@;
    if there {
        steps.push(step);
    }
    assert(steps@ =~= before + step_if(there, step));
}

/// Returns the steps of closing a session, in order.
pub fn disconnect(parts: Parts) -> (res: Vec<Teardown>)
    ensures
        res@ == closing(parts),
{
    let mut steps: Vec<Teardown> = Vec::new();
    assert(steps@ =~= Seq::<Teardown>::empty());
    push_if(&mut steps, parts.waiting, Teardown::StopWaiting);
    push_if(&mut steps, parts.player, Teardown::DropPlayer);
    push_if(&mut steps, parts.call, Teardown::CloseCall);
    push_if(&mut steps, parts.subscription, Teardown::DropSubscription);
    push_if(&mut steps, parts.broadcast, Teardown::CloseBroadcast);
    push_if(&mut steps, parts.live, Teardown::ShutDown);
    assert(steps@ =~= closing(parts));
    steps
}

// Answering

/// A session of this node, by a number that no other session has.
#[derive(Debug, Clone, Copy, PartialEq, Eq, Structural)]
pub struct SessionInfo {
    pub id: u64,
    /// Whether this node dialed it.
    pub dialed: bool,
}

/// Whether a list holds a session.
pub open spec fn has_session(list: Seq<SessionInfo>, id: u64) -> bool {
    exists|i: int| 0 <= i < list.len() && (#[trigger] list[i]).id == id
}

/// The first session that arrived since the last look and was not dialed from
/// here.
pub open spec fn first_arrival(current: Seq<SessionInfo>, seen: Seq<SessionInfo>) -> Option<u64>
    decreases current.len(),
{
    if current.len() == 0 {
        None
    } else if !current[0].dialed && !has_session(seen, current[0].id) {
        Some(current[0].id)
    } else {
        first_arrival(current.skip(1), seen)
    }
}

/// Whether a list holds a session.
fn knows(list: &Vec<SessionInfo>, id: u64) -> (res: bool)
    ensures
        res == has_session(list@, id),
{
    let mut i: usize = 0;
    while i < list.len()
        invariant
            i <= list@.len(),
            forall|j: int| 0 <= j < i ==> (#[trigger] list@[j]).id != id,
        decreases list@.len() - i,
    {
        if list[i].id == id {
            assert(list@[i as int].id == id);
            return true;
        }
        i += 1;
    }
    false
}

/// Waits for somebody to call.
#[derive(Debug)]
pub struct Answering {
    /// The sessions of the last look.
    pub seen: Vec<SessionInfo>,
}

/// What came of waiting for a session to show its side of a call.
#[derive(Debug)]
pub enum CallerWait {
    /// It did.
    Caller,
    /// It failed, with the reason.
    NotACaller(String),
    /// It announced no call in time. A plain subscriber never does.
    TimedOut,
}

/// How many seconds an incoming session has to show its side of a call before it
/// counts as not a caller.
pub const CALLER_TIMEOUT: u64 = 10;

/// What happens with a call that was answered.
#[derive(Debug, Clone, Copy, PartialEq, Eq, Structural)]
pub enum Answered {
    /// It replaces the local preview on the screen.
    Installed,
    /// The screen was left while this was settling. Closing the call tells the
    /// peer.
    Closed,
}

impl Answering {
    /// Starts with no session seen.
    pub fn new() -> (res: Self)
        ensures
            res.seen@ == Seq::<SessionInfo>::empty(),
    {
        Answering { seen: Vec::new() }
    }

    /// Takes the current sessions, and returns the one to try as a caller, if
    /// one arrived.
    ///
    /// Sessions this node dialed are skipped: only an inbound one can be a
    /// caller.
    pub fn look(&mut self, current: Vec<SessionInfo>) -> (res: Option<u64>)
        ensures
            res == first_arrival(current@, old(self).seen@),
            final(self).seen@ == current@,
    {
        let mut res: Option<u64> = None;
        let mut i: usize = 0;
        assert(current@.skip(0) =~= current@);
        while i < current.len() && res.is_none()
            invariant
                i <= current@.len(),
                self.seen@ == old(self).seen@,
                res is None ==> first_arrival(current@, self.seen@) == first_arrival(
                    current@.skip(i as int),
                    self.seen@,
                ),
                res is Some ==> first_arrival(current@, self.seen@) == res,
            decreases current@.len() - i,
        {
            let ghost rest = current@.skip(i as int);
            assert(rest[0] == current@[i as int]);
            assert(rest.skip(1) =~= current@.skip(i + 1));
            if !current[i].dialed && !knows(&self.seen, current[i].id) {
                res = Some(current[i].id);
            }
            i += 1;
        }
        self.seen = current;
        res
    }

    /// Returns whether a session is a caller. Otherwise the wait goes on.
    pub fn is_caller(wait: CallerWait) -> (res: bool)
        ensures
            res == (wait is Caller),
    {
        matches!(wait, CallerWait::Caller)
    }

    /// Decides what happens with a call that was answered: `screen` tells whether
    /// the screen is still there, and `closing` whether it is closing.
    pub fn settle(screen: bool, closing: bool) -> (res: Answered)
        ensures
            res == if screen && !closing {
                Answered::Installed
            } else {
                Answered::Closed
            },
    {
        if screen && !closing {
            Answered::Installed
        } else {
            Answered::Closed
        }
    }
}

// Log

/// How important a log line is.
#[derive(Debug, Clone, Copy, PartialEq, Eq, Structural)]
pub enum Level {
    Error,
    Warn,
    Info,
    Debug,
    Trace,
}

/// Returns the priority of the system log for a level.
pub fn priority(level: Level) -> (res: i32)
    ensures
        res == match level {
            Level::Error => 6i32,
            Level::Warn => 5i32,
            Level::Info => 4i32,
            Level::Debug => 3i32,
            Level::Trace => 2i32,
        },
{
    match level {
        Level::Error => 6,
        Level::Warn => 5,
        Level::Info => 4,
        Level::Debug => 3,
        Level::Trace => 2,
    }
}

/// A log line as the system log takes it: without the newline at its end, with a
/// question mark for each null byte, and a null byte at the end.
pub open spec fn log_bytes(line: Seq<u8>) -> Seq<u8> {
    let trimmed = if line.last() == 10 {
        line.drop_last()
    } else {
        line
    };
    Seq::new(
        trimmed.len(),
        |i: int|
            if trimmed[i] == 0 {
                63u8
            } else {
                trimmed[i]
            },
    ).push(0)
}

/// Returns a log line as the system log takes it, or `None` for an empty one.
pub fn log_line(line: &[u8]) -> (res: Option<Vec<u8>>)
    ensures
        match res {
            Some(bytes) => line@.len() > 0 && bytes@ == log_bytes(line@),
            None => line@.len() == 0,
        },
{
    if line.len() == 0 {
        return None;
    }
    let end: usize = if line[line.len() - 1] == 10 {
        line.len() - 1
    } else {
        line.len()
    };
    let ghost whole = log_bytes(line@);
    let mut bytes: Vec<u8> = Vec::new();
    let mut i: usize = 0;
    while i < end
        invariant
            i <= end <= line@.len(),
            whole == log_bytes(line@),
            whole.len() == end + 1,
            forall|j: int|
                0 <= j < end ==> #[trigger] whole[j] == if line@[j] == 0 {
                    63u8
                } else {
                    line@[j]
                },
            bytes@ == whole.take(i as int),
        decreases end - i,
    {
        let byte: u8 = if line[i] == 0 {
            63
        } else {
            line[i]
        };
        assert(whole.take(i as int).push(byte) =~= whole.take(i + 1));
        bytes.push(byte);
        i += 1;
    }
    bytes.push(0);
    assert(bytes@ =~= whole);
    Some(bytes)
}

/// A line that reaches the system log holds no null byte before its end, so it
/// is not cut short there.
pub proof fn law_a_log_line_is_not_cut_short(line: Seq<u8>)
    requires
        line.len() > 0,
    ensures
        log_bytes(line).last() == 0,
        forall|i: int| 0 <= i < log_bytes(line).len() - 1 ==> #[trigger] log_bytes(line)[i] != 0,
{
}

/// A session that closes tells its peer and ends its broadcast before the
/// transport goes, and accepts nobody meanwhile.
pub proof fn law_the_transport_goes_last(parts: Parts)
    ensures
        parts.live ==> closing(parts).last() == Teardown::ShutDown,
        parts.waiting ==> closing(parts)[0] == Teardown::StopWaiting,
        parts.call ==> closing(parts).contains(Teardown::CloseCall),
        parts.broadcast ==> closing(parts).contains(Teardown::CloseBroadcast),
{
    let a = step_if(parts.waiting, Teardown::StopWaiting);
    let b = a + step_if(parts.player, Teardown::DropPlayer);
    let c = b + step_if(parts.call, Teardown::CloseCall);
    let d = c + step_if(parts.subscription, Teardown::DropSubscription);
    let e = d + step_if(parts.broadcast, Teardown::CloseBroadcast);
    let f = e + step_if(parts.live, Teardown::ShutDown);
    assert(f == closing(parts));
    if parts.call {
        assert(f[b.len() as int] == Teardown::CloseCall);
    }
    if parts.broadcast {
        assert(f[d.len() as int] == Teardown::CloseBroadcast);
    }
}

/// A session is tried as a caller once: after a look, one that was there is not
/// tried again.
pub proof fn law_a_session_is_tried_once(current: Seq<SessionInfo>, next: Seq<SessionInfo>)
    ensures
        first_arrival(next, current) matches Some(id) ==> !has_session(current, id),
        first_arrival(current, current) is None,
    decreases next.len(),
{
    if next.len() > 0 {
        law_a_session_is_tried_once(current, next.skip(1));
    }
    lemma_nothing_new(current, current);
}

/// Only a session that a peer opened is tried as a caller.
pub proof fn law_a_dialed_session_is_no_caller(current: Seq<SessionInfo>, seen: Seq<SessionInfo>)
    ensures
        first_arrival(current, seen) matches Some(id) ==> exists|i: int|
            0 <= i < current.len() && (#[trigger] current[i]).id == id && !current[i].dialed,
    decreases current.len(),
{
    if current.len() > 0 {
        let rest = current.skip(1);
        law_a_dialed_session_is_no_caller(rest, seen);
        if first_arrival(current, seen) is Some {
            if !current[0].dialed && !has_session(seen, current[0].id) {
                assert(current[0].id == first_arrival(current, seen)->0);
            } else {
                let id = first_arrival(rest, seen)->0;
                let i = choose|i: int|
                    0 <= i < rest.len() && (#[trigger] rest[i]).id == id && !rest[i].dialed;
                assert(current[i + 1] == rest[i]);
            }
        }
    }
}

/// Nothing arrives that was all seen.
proof fn lemma_nothing_new(rest: Seq<SessionInfo>, seen: Seq<SessionInfo>)
    requires
        forall|i: int| 0 <= i < rest.len() ==> has_session(seen, (#[trigger] rest[i]).id),
    ensures
        first_arrival(rest, seen) is None,
    decreases rest.len(),
{
    if rest.len() > 0 {
        assert(has_session(seen, rest[0].id));
        let shorter = rest.skip(1);
        assert forall|i: int| 0 <= i < shorter.len() implies has_session(
            seen,
            (#[trigger] shorter[i]).id,
        ) by {
            assert(shorter[i] == rest[i + 1]);
        }
        lemma_nothing_new(shorter, seen);
    }
}

/// Two sides are packed so that both are found again: the width in the upper half
/// and the height in the lower.
pub proof fn law_both_sides_are_found_again(width: u32, height: u32)
    requires
        width < 0x8000_0000,
    ensures
        both(width, height) / 0x1_0000_0000 == width,
        both(width, height) % 0x1_0000_0000 == height,
{
}

/// No two sizes are packed the same.
pub proof fn law_sizes_are_packed_apart(
    width: u32,
    height: u32,
    other_width: u32,
    other_height: u32,
)
    requires
        both(width, height) == both(other_width, other_height),
    ensures
        width == other_width,
        height == other_height,
{
}

/// A session has the network unless it stays on the device, plays what it is
/// after or what loops back, publishes the camera unless it only watches, and has
/// a ticket where others are to find it.
pub proof fn law_a_session_has_the_parts_it_needs(kind: SessionKind)
    ensures
        ({
            let parts = parts_of(kind);
            &&& parts.live <==> !(kind is Direct) && !(kind is Loopback)
            &&& parts.player <==> kind is Connect || kind is Dial || kind is Loopback
            &&& parts.camera <==> !(kind is Connect)
            &&& parts.broadcast == parts.camera
            &&& parts.microphone == (parts.broadcast && parts.live)
            &&& parts.subscription <==> kind is Connect
            &&& parts.call <==> kind is Dial
            &&& parts.ticket <==> kind is Answer || kind is Publish
            &&& parts.waiting <==> kind is Answer
            &&& parts.output <==> kind is Connect || kind is Dial || kind is Answer
            &&& parts.frames == Drawn::Player <==> parts.player
        }),
{
}

/// A session opens its parts in an order that works: a ticket is parsed first, the
/// endpoint is bound before anything goes through it, and the player comes last.
pub proof fn law_parts_are_opened_in_order(kind: SessionKind, i: int, j: int)
    requires
        0 <= i < opening(kind).len(),
        0 <= j < opening(kind).len(),
    ensures
        opening(kind)[i] is ParseTicket || opening(kind)[i] is ParseCallTicket ==> i == 0,
        opening(kind)[i] is Bind && (opening(kind)[j] is Subscribe || opening(kind)[j] is Publish
            || opening(kind)[j] is DialPeer || opening(kind)[j] is Play) ==> i < j,
        opening(kind)[i] is Play ==> i == opening(kind).len() - 1,
        opening(kind)[i] is SetCamera && opening(kind)[j] is DialPeer ==> i < j,
        i != j ==> opening(kind)[i] != opening(kind)[j],
        kind is Connect ==> opening(kind)[0] is ParseTicket,
        kind is Dial ==> opening(kind)[0] is ParseCallTicket,
        parts_of(kind).live ==> opening(kind).contains(OpenStep::Bind),
{
    if parts_of(kind).live {
        assert(opening(kind)[0] is Bind || opening(kind)[1] is Bind);
    }
}

/// A session of the media crate opens its parts in an order that works too.
pub proof fn law_media_sessions_open_in_order(i: int, j: int)
    ensures
        0 <= i < j < media_call().len() ==> media_call()[i] != media_call()[j],
        0 <= i < j < media_connect().len() ==> media_connect()[i] != media_connect()[j],
        media_call()[0] is ParseCallTicket && media_call()[1] is Bind,
        media_call().last() is SubscribeMedia,
        media_connect()[0] is ParseTicketString && media_connect()[1] is Bind,
        media_connect()[2] is Subscribe,
        media_call().contains(OpenStep::DialPeer),
        media_call().contains(OpenStep::SetVideo),
        media_call().contains(OpenStep::SetAudio),
        media_call().contains(OpenStep::OpenMicrophone),
        media_connect().contains(OpenStep::OpenVideo),
        media_connect().contains(OpenStep::OpenAudio),
        media_call().len() == 7,
        media_connect().len() == 5,
{
    assert(media_call()[2] is SetVideo && media_call()[3] is OpenMicrophone);
    assert(media_call()[4] is SetAudio && media_call()[5] is DialPeer);
    assert(media_connect()[3] is OpenVideo && media_connect()[4] is OpenAudio);
}

/// A session goes on without sound or a track of its own, and not without
/// anything else. What failed is told with its cause.
pub proof fn law_a_session_needs_all_but_sound(step: OpenStep, cause: Seq<char>)
    ensures
        step.optional() <==> step is OpenSpeaker || step is SetMicrophone || step is OpenVideo
            || step is OpenAudio,
        step.failure(cause).len() >= cause.len(),
        step.failure(cause).skip(step.failure(cause).len() - cause.len()) == cause,
        step is ParseTicket ==> step.failure(cause) == "failed to parse ticket: "@ + cause,
        step is ParseCallTicket ==> step.failure(cause) == "failed to parse call ticket: "@ + cause,
        step is ParseTicketString ==> step.failure(cause) == "failed to parse ticket string: "@
            + cause,
        step is SetVideo ==> step.failure(cause) == "failed to set video source: "@ + cause,
        step is OpenMicrophone ==> step.failure(cause) == "failed to open microphone: "@ + cause,
        step is SetAudio ==> step.failure(cause) == "failed to set audio source: "@ + cause,
        step is SubscribeMedia ==> step.failure(cause) == "failed to subscribe to remote media: "@
            + cause,
        step is OpenSpeaker ==> step.failure(cause)
            == "playing audio nowhere, the speaker did not open: "@ + cause,
        step is SetMicrophone ==> step.failure(cause) == "publishing without audio: "@ + cause,
        step is OpenVideo ==> step.failure(cause) == "no video track: "@ + cause,
        step is OpenAudio ==> step.failure(cause) == "no audio track: "@ + cause,
        step is Bind || step is Subscribe || step is Publish || step is DialPeer || step is Play
            ==> step.failure(cause) == cause,
{
    assert(step.failure(cause).skip(step.failure(cause).len() - cause.len()) =~= cause);
}

/// Where a part stands in the order in which a session closes.
spec fn turn(step: Teardown) -> int {
    match step {
        Teardown::StopWaiting => 0,
        Teardown::DropPlayer => 1,
        Teardown::CloseCall => 2,
        Teardown::DropSubscription => 3,
        Teardown::CloseBroadcast => 4,
        Teardown::ShutDown => 5,
    }
}

/// Steps in their order, all from before a turn.
spec fn in_turn(steps: Seq<Teardown>, end: int) -> bool {
    &&& forall|i: int| 0 <= i < steps.len() ==> turn(#[trigger] steps[i]) < end
    &&& forall|i: int, j: int|
        0 <= i < j < steps.len() ==> turn(#[trigger] steps[i]) < turn(#[trigger] steps[j])
}

/// One more step keeps the order, and is there where it is added.
proof fn lemma_turn(steps: Seq<Teardown>, there: bool, step: Teardown, other: Teardown)
    requires
        in_turn(steps, turn(step)),
    ensures
        in_turn(steps + step_if(there, step), turn(step) + 1),
        (steps + step_if(there, step)).contains(other) == (steps.contains(other) || (there && other
            == step)),
{
    let all = steps + step_if(there, step);
    if steps.contains(other) {
        let at = steps.index_of(other);
        assert(all[at] == other);
    }
    if there {
        assert(all[steps.len() as int] == step);
    }
}

/// A session closes what it opened and nothing else, each part once and in one
/// order: it stops waiting, drops the player, then the call, the subscription and
/// the broadcast, and shuts down last.
pub proof fn law_a_session_closes_what_it_has(parts: Parts, step: Teardown, i: int, j: int)
    ensures
        closing(parts).contains(step) == match step {
            Teardown::StopWaiting => parts.waiting,
            Teardown::DropPlayer => parts.player,
            Teardown::CloseCall => parts.call,
            Teardown::DropSubscription => parts.subscription,
            Teardown::CloseBroadcast => parts.broadcast,
            Teardown::ShutDown => parts.live,
        },
        0 <= i < j < closing(parts).len() ==> {
            let (one, next) = (closing(parts)[i], closing(parts)[j]);
            &&& one != next
            &&& next !is StopWaiting
            &&& one !is ShutDown
            &&& next is DropPlayer ==> one is StopWaiting
            &&& one is CloseBroadcast ==> next is ShutDown
            &&& one is DropSubscription ==> next is CloseBroadcast || next is ShutDown
        },
{
    let a = step_if(parts.waiting, Teardown::StopWaiting);
    let b = a + step_if(parts.player, Teardown::DropPlayer);
    let c = b + step_if(parts.call, Teardown::CloseCall);
    let d = c + step_if(parts.subscription, Teardown::DropSubscription);
    let e = d + step_if(parts.broadcast, Teardown::CloseBroadcast);
    let none = Seq::<Teardown>::empty();
    assert(!none.contains(step));
    lemma_turn(none, parts.waiting, Teardown::StopWaiting, step);
    assert(none + a =~= a);
    lemma_turn(a, parts.player, Teardown::DropPlayer, step);
    lemma_turn(b, parts.call, Teardown::CloseCall, step);
    lemma_turn(c, parts.subscription, Teardown::DropSubscription, step);
    lemma_turn(d, parts.broadcast, Teardown::CloseBroadcast, step);
    lemma_turn(e, parts.live, Teardown::ShutDown, step);
    if 0 <= i < j < closing(parts).len() {
        assert(turn(closing(parts)[i]) < turn(closing(parts)[j]) < 6);
    }
}

/// The caller is the first session that neither was dialed from here nor was
/// there before.
pub proof fn law_the_first_new_session_is_the_caller(
    before: Seq<SessionInfo>,
    caller: SessionInfo,
    after: Seq<SessionInfo>,
    seen: Seq<SessionInfo>,
)
    requires
        forall|i: int|
            0 <= i < before.len() ==> (#[trigger] before[i]).dialed || has_session(
                seen,
                before[i].id,
            ),
        !caller.dialed,
        !has_session(seen, caller.id),
    ensures
        first_arrival(before.push(caller) + after, seen) == Some(caller.id),
    decreases before.len(),
{
    let all = before.push(caller) + after;
    if before.len() > 0 {
        let rest = before.skip(1);
        assert(all[0] == before[0]);
        assert(all.skip(1) =~= rest.push(caller) + after);
        law_the_first_new_session_is_the_caller(rest, caller, after, seen);
    } else {
        assert(all[0] == caller);
    }
}

/// A log line is handed over whole, without its line feed, and with a question
/// mark for each zero byte.
pub proof fn law_a_log_line_is_kept(line: Seq<u8>, i: int)
    requires
        line.len() > 0,
    ensures
        log_bytes(line).len() == if line.last() == 10 {
            line.len()
        } else {
            line.len() + 1
        },
        0 <= i < log_bytes(line).len() - 1 && line[i] != 0 ==> log_bytes(line)[i] == line[i],
        0 <= i < log_bytes(line).len() - 1 && line[i] == 0 ==> log_bytes(line)[i] == 63,
{
}

/// What is decoded is named by its rendition, and by its decoder where there is
/// one.
pub proof fn law_a_track_is_named(name: String, decoder: String)
    ensures
        Track::Rendition(name).text() == "trk:"@ + name@,
        (Track::Decoding { decoder, rendition: name }).text() == "dec:"@ + decoder@ + " "@
            + Track::Rendition(name).text(),
        Track::NoTrack.text() != Track::NoVideo.text(),
{
    reveal_strlit("no track");
    reveal_strlit("no video");
    reveal_strlit(" trk:");
    reveal_strlit(" ");
    reveal_strlit("trk:");
    assert("no track"@[3] != "no video"@[3]);
    assert((Track::Decoding { decoder, rendition: name }).text() =~= "dec:"@ + decoder@ + " "@
        + Track::Rendition(name).text());
}

/// The latency and the buffer are told in milliseconds.
pub proof fn law_the_playout_is_told(millis: u64, jitter: String)
    ensures
        Playout::Latency(millis).text() == "lat:"@ + text::decimal(millis as nat) + "ms"@,
        (Playout::Buffer { millis, jitter }).text() == "buf:"@ + text::decimal(millis as nat)
            + "ms jit:"@ + jitter@ + "ms"@,
{
}

/// A status tells the track, the size, the frames pushed and drawn, the round
/// trip, the playout and the time, in this order.
pub proof fn law_a_status_tells_it_all(status: Status, size: Seq<char>, net: Seq<char>, out: Seq<char>)
    requires
        status.size matches Some(known) ==> size == known@,
        status.size is None ==> size == "?"@,
        status.rtt matches Some(rtt) ==> net == "rtt:"@ + text::decimal(rtt as nat) + "ms"@,
        status.rtt is None ==> net == ""@,
        status.playout matches Some(playout) ==> out == playout.text(),
        status.playout is None ==> out == ""@,
    ensures
        status.text() == status.track.text() + " "@ + size + " | cam:"@ + text::decimal(
            status.cam_frames_pushed as nat,
        ) + " dec:"@ + text::decimal(status.dec_frames_rendered as nat) + " | "@ + net + " "@ + out
            + " | "@ + text::decimal(status.elapsed as nat) + "s"@,
{
}

} // verus!
