//! Command-line arguments.
//!
//! [`crate::rendition`] parses `--renditions`, and [`crate::source_spec`] the
//! source specifiers.

use vstd::prelude::*;

use crate::backend::Backend;
use crate::ids::{BroadcastTicket, EndpointId, TicketView};
use crate::source_spec::{
    self, AudioSourceSpec, AudioSourceView, TestPattern, TestTone, VideoSourceSpec, VideoSourceView,
};
use crate::text;

verus! {

/// Where a broadcast is served and how its address is shared.
#[derive(Debug)]
pub struct TransportArgs {
    /// Broadcast path, as it appears in the ticket.
    pub name: String,
    /// Also push the broadcast to this relay endpoint.
    pub relay: Option<EndpointId>,
    /// Do not accept incoming subscriber connections.
    pub no_serve: bool,
    /// Suppress the terminal QR code.
    pub no_qr: bool,
}

/// The broadcast path when none is given.
pub const DEFAULT_NAME: &'static str = "hello";

impl Default for TransportArgs {
    fn default() -> (res: Self)
        ensures
            res.name@ == DEFAULT_NAME@,
            res.relay is None,
            !res.no_serve,
            !res.no_qr,
    {
        TransportArgs { name: DEFAULT_NAME.to_owned(), relay: None, no_serve: false, no_qr: false }
    }
}

/// The default keyframe interval, in nanoseconds: two seconds.
///
/// A viewer waits up to this long for a first picture, and a rendition switch
/// waits as long.
pub const DEFAULT_KEYFRAME_NANOS: u64 = 2_000_000_000;

/// The `--video` specifier when none is given.
pub const DEFAULT_VIDEO: &'static str = "cam";

/// The `--audio` specifier when none is given.
pub const DEFAULT_AUDIO: &'static str = "mic";

/// What to capture and how to encode it.
#[derive(Debug)]
pub struct CaptureArgs {
    /// Video source.
    pub video: String,
    /// Audio source.
    pub audio: String,
    /// Publish the test pattern and tone, as `--video test --audio test`.
    pub test_source: bool,
    /// Video codec. H.265 needs a hardware encoder.
    pub codec: VideoCodecArg,
    /// Encoder backend. A named backend has no fallback.
    pub encoder: Backend,
    /// Simulcast ladder. Empty for one unscaled rendition.
    pub renditions: Vec<String>,
    /// Time between keyframes in nanoseconds, or `None` for the encoder's own
    /// default.
    pub keyframe_interval: Option<u64>,
    /// Target video bitrate of the largest rung, in bits per second.
    pub bitrate: Option<u64>,
    /// Requested capture width. The device picks its nearest mode.
    pub width: Option<u32>,
    /// Requested capture height.
    pub height: Option<u32>,
    /// Requested capture frame rate. Overrides the ladder's `@<fps>`.
    pub fps: Option<u32>,
    /// Hide the mouse cursor. Screen, window, and application capture only.
    pub no_cursor: bool,
    /// Audio codec.
    pub audio_codec: AudioCodecArg,
    /// Target audio bitrate in bits per second. Opus only.
    pub audio_bitrate: Option<u32>,
}

impl Default for CaptureArgs {
    /// Returns the defaults of the command line.
    fn default() -> (res: Self)
        ensures
            res.video@ == DEFAULT_VIDEO@,
            res.audio@ == DEFAULT_AUDIO@,
            !res.test_source,
            res.codec == VideoCodecArg::H264,
            res.encoder == Backend::Auto,
            res.renditions@.len() == 0,
            res.keyframe_interval == Some(DEFAULT_KEYFRAME_NANOS),
            res.bitrate is None,
            res.width is None,
            res.height is None,
            res.fps is None,
            !res.no_cursor,
            res.audio_codec == AudioCodecArg::Opus,
            res.audio_bitrate is None,
    {
        CaptureArgs {
            video: DEFAULT_VIDEO.to_owned(),
            audio: DEFAULT_AUDIO.to_owned(),
            test_source: false,
            codec: VideoCodecArg::H264,
            encoder: Backend::Auto,
            renditions: Vec::new(),
            keyframe_interval: Some(DEFAULT_KEYFRAME_NANOS),
            bitrate: None,
            width: None,
            height: None,
            fps: None,
            no_cursor: false,
            audio_codec: AudioCodecArg::Opus,
            audio_bitrate: None,
        }
    }
}

impl Clone for CaptureArgs {
    fn clone(&self) -> (res: Self)
        ensures
            res.same_as(*self),
    {
        let mut renditions: Vec<String> = Vec::new();
        let mut i: usize = 0;
        while i < self.renditions.len()
            invariant
                i <= self.renditions@.len(),
                text::string_list(renditions@) == text::string_list(self.renditions@).take(
                    i as int,
                ),
            decreases self.renditions@.len() - i,
        {
            let ghost all = text::string_list(self.renditions@);
            let ghost before = text::string_list(renditions@);
            renditions.push(self.renditions[i].clone());
            assert(text::string_list(renditions@) =~= before.push(all[i as int]));
            assert(all.take(i + 1) =~= all.take(i as int).push(all[i as int]));
            i += 1;
        }
        assert(text::string_list(renditions@) =~= text::string_list(self.renditions@));
        CaptureArgs {
            video: self.video.clone(),
            audio: self.audio.clone(),
            test_source: self.test_source,
            codec: self.codec,
            encoder: self.encoder,
            renditions,
            keyframe_interval: self.keyframe_interval,
            bitrate: self.bitrate,
            width: self.width,
            height: self.height,
            fps: self.fps,
            no_cursor: self.no_cursor,
            audio_codec: self.audio_codec,
            audio_bitrate: self.audio_bitrate,
        }
    }
}

impl CaptureArgs {
    /// Whether the flags are the same, apart from `--video` and
    /// `--test-source`.
    pub open spec fn same_but_video(self, other: CaptureArgs) -> bool {
        &&& self.audio@ == other.audio@
        &&& self.codec == other.codec
        &&& self.encoder == other.encoder
        &&& text::string_list(self.renditions@) == text::string_list(other.renditions@)
        &&& self.keyframe_interval == other.keyframe_interval
        &&& self.bitrate == other.bitrate
        &&& self.width == other.width
        &&& self.height == other.height
        &&& self.fps == other.fps
        &&& self.no_cursor == other.no_cursor
        &&& self.audio_codec == other.audio_codec
        &&& self.audio_bitrate == other.audio_bitrate
    }

    /// Whether all the flags are the same.
    pub open spec fn same_as(self, other: CaptureArgs) -> bool {
        &&& self.same_but_video(other)
        &&& self.video@ == other.video@
        &&& self.test_source == other.test_source
    }
}

/// Puts the name of a flag in front of an error text.
pub open spec fn under_flag<V>(flag: Seq<char>, res: Result<V, Seq<char>>) -> Result<V, Seq<char>> {
    match res {
        Ok(value) => Ok(value),
        Err(text) => Err(flag + text),
    }
}

impl CaptureArgs {
    /// What `--video` stands for: the test pattern under `--test-source`, and
    /// otherwise its specifier.
    pub open spec fn video_of(self, rpicam: bool) -> Result<
        VideoSourceView,
        Seq<char>,
    > {
        if self.test_source {
            Ok(VideoSourceView::Test(TestPattern::Timing))
        } else {
            under_flag(
                "--video: "@,
                source_spec::video_source(
                    text::lower(source_spec::kind_of(self.video@)),
                    source_spec::rest_of(self.video@),
                    source_spec::lowered(source_spec::rest_of(self.video@)),
                    rpicam,
                ),
            )
        }
    }

    /// What `--audio` stands for: the test tone under `--test-source`, and
    /// otherwise its specifier.
    pub open spec fn audio_of(self) -> Result<
        AudioSourceView,
        Seq<char>,
    > {
        if self.test_source {
            Ok(AudioSourceView::Test(TestTone::Beeps))
        } else {
            under_flag(
                "--audio: "@,
                source_spec::audio_source(
                    self.audio@,
                    text::lower(source_spec::kind_of(self.audio@)),
                    source_spec::rest_of(self.audio@),
                    source_spec::lowered(source_spec::rest_of(self.audio@)),
                ),
            )
        }
    }

    /// Parses `--video`, or returns the test pattern under `--test-source`, in
    /// a build with the Raspberry Pi camera.
    pub fn video_source(&self) -> (res: Result<VideoSourceSpec, String>)
        ensures
            text::outcome(res) == self.video_of(true),
    {
        self.video_source_for(true)
    }

    /// Parses `--video`, or returns the test pattern under `--test-source`.
    ///
    /// `rpicam` tells whether this build has the Raspberry Pi camera.
    pub fn video_source_for(&self, rpicam: bool) -> (res: Result<VideoSourceSpec, String>)
        ensures
            text::outcome(res) == self.video_of(rpicam),
    {
        if self.test_source {
            return Ok(VideoSourceSpec::Test(TestPattern::Timing));
        }
        match VideoSourceSpec::parse_for(self.video.as_str(), rpicam) {
            Ok(spec) => Ok(spec),
            Err(err) => Err("--video: ".to_owned().concat(err.as_str())),
        }
    }

    /// Parses `--audio`, or returns the test tone under `--test-source`.
    pub fn audio_source(&self) -> (res: Result<AudioSourceSpec, String>)
        ensures
            text::outcome(res) == self.audio_of(),
    {
        if self.test_source {
            return Ok(AudioSourceSpec::Test(TestTone::Beeps));
        }
        match AudioSourceSpec::parse(self.audio.as_str()) {
            Ok(spec) => Ok(spec),
            Err(err) => Err("--audio: ".to_owned().concat(err.as_str())),
        }
    }
}

/// The video codec `--codec` selects.
#[derive(Debug, Clone, Copy, PartialEq, Eq, Structural)]
pub enum VideoCodecArg {
    /// H.264 (AVC). Widest support.
    H264,
    /// H.265 (HEVC). Hardware encoders only.
    H265,
}

impl Default for VideoCodecArg {
    fn default() -> (res: Self)
        ensures
            res == VideoCodecArg::H264,
    {
        VideoCodecArg::H264
    }
}

/// The audio codec `--audio-codec` selects.
#[derive(Debug, Clone, Copy, PartialEq, Eq, Structural)]
pub enum AudioCodecArg {
    /// Opus.
    Opus,
    /// Uncompressed 32-bit float PCM.
    Pcm,
}

impl Default for AudioCodecArg {
    fn default() -> (res: Self)
        ensures
            res == AudioCodecArg::Opus,
    {
        AudioCodecArg::Opus
    }
}

/// Arguments for `irl publish`.
#[derive(Debug)]
pub struct PublishArgs {
    pub capture: CaptureArgs,
    pub transport: TransportArgs,
    /// Open a preview window of the published video.
    pub preview: bool,
    /// Start the preview window in fullscreen.
    pub fullscreen: bool,
    /// Container of a `file:` video source.
    pub format: ImportFormat,
    /// Pass a `file:` video source through ffmpeg first.
    pub transcode: bool,
}

/// The container a `file:` video source is read as.
#[derive(Debug, Clone, Copy, PartialEq, Eq, Structural)]
pub enum ImportFormat {
    /// Fragmented MP4 / CMAF.
    Fmp4,
    /// Raw H.264 Annex-B stream.
    Avc3,
}

impl Default for ImportFormat {
    fn default() -> (res: Self)
        ensures
            res == ImportFormat::Fmp4,
    {
        ImportFormat::Fmp4
    }
}

/// How a subscriber decodes and plays the video in a window.
#[derive(Debug, Clone, Copy)]
pub struct PlaybackArgs {
    /// Decoder backend. A named backend has no fallback.
    pub decoder: Backend,
    /// Trade between delay and smooth playback.
    pub latency: LatencyArg,
}

impl Default for PlaybackArgs {
    fn default() -> (res: Self)
        ensures
            res.decoder == Backend::Auto,
            res.latency == LatencyArg::Balanced,
    {
        PlaybackArgs { decoder: Backend::Auto, latency: LatencyArg::Balanced }
    }
}

/// How long the player holds frames back to absorb late arrivals.
#[derive(Debug, Clone, Copy, PartialEq, Eq, Structural)]
pub enum LatencyArg {
    /// Least delay. For conversations.
    Realtime,
    /// Enough slack for an ordinary network.
    Balanced,
    /// Rides out a stuttering link, with more delay.
    Smooth,
}

impl Default for LatencyArg {
    fn default() -> (res: Self)
        ensures
            res == LatencyArg::Balanced,
    {
        LatencyArg::Balanced
    }
}

/// The bounds of a player's delay, in milliseconds.
#[derive(Debug, Clone, Copy, PartialEq, Eq, Structural)]
pub struct Latency {
    /// The playout hold.
    pub min: u64,
    /// Where the player skips ahead.
    pub max: u64,
}

impl LatencyArg {
    /// The player latency for a mode, given the player's own default.
    pub open spec fn bounds(self, default: Latency) -> Latency {
        match self {
            LatencyArg::Realtime => Latency { min: 60, max: 100 },
            LatencyArg::Balanced => default,
            LatencyArg::Smooth => Latency { min: 400, max: 600 },
        }
    }

    /// Returns the player latency for this mode.
    ///
    /// `min` is the playout hold: two frames at 30 fps for Realtime, a Wi-Fi
    /// retransmission burst for Smooth. `default` is the player's own default,
    /// which Balanced uses.
    pub fn latency(self, default: Latency) -> (res: Latency)
        ensures
            res == self.bounds(default),
    {
        match self {
            LatencyArg::Realtime => Latency { min: 60, max: 100 },
            LatencyArg::Balanced => default,
            LatencyArg::Smooth => Latency { min: 400, max: 600 },
        }
    }
}

/// Realtime, balanced and smooth latency are ordered: each mode skips past more
/// than it holds, and the modes grow in delay, in what they hold and in where
/// they skip. The player's own default is any that skips past more than it holds
/// and lies strictly between the realtime and the smooth bounds.
pub proof fn law_latency_modes_are_ordered(default: Latency)
    requires
        LatencyArg::Realtime.bounds(default).min < default.min < LatencyArg::Smooth.bounds(
            default,
        ).min,
        LatencyArg::Realtime.bounds(default).max < default.max < LatencyArg::Smooth.bounds(
            default,
        ).max,
        default.min < default.max,
    ensures
        forall|mode: LatencyArg| (#[trigger] mode.bounds(default)).min < mode.bounds(default).max,
        LatencyArg::Realtime.bounds(default).min < LatencyArg::Balanced.bounds(default).min
            < LatencyArg::Smooth.bounds(default).min,
        LatencyArg::Realtime.bounds(default).max < LatencyArg::Balanced.bounds(default).max
            < LatencyArg::Smooth.bounds(default).max,
{
}

/// The modes are ordered for no other default.
pub proof fn law_only_a_default_in_between_orders_the_modes(default: Latency)
    requires
        LatencyArg::Realtime.bounds(default).min < LatencyArg::Balanced.bounds(default).min
            < LatencyArg::Smooth.bounds(default).min,
        LatencyArg::Realtime.bounds(default).max < LatencyArg::Balanced.bounds(default).max
            < LatencyArg::Smooth.bounds(default).max,
    ensures
        60 < default.min < 400,
        100 < default.max < 600,
{
}

/// Arguments for `irl call`.
#[derive(Debug)]
pub struct CallArgs {
    /// Ticket the peer's `irl call` printed. Omit to wait for a call.
    pub ticket: Option<BroadcastTicket>,
    pub capture: CaptureArgs,
    pub playback: PlaybackArgs,
    /// Camera for the QR scanner, as in `irl watch --scan-camera`.
    pub scan_camera: Option<String>,
    /// Suppress the terminal QR code.
    pub no_qr: bool,
    /// Start in fullscreen.
    pub fullscreen: bool,
}

/// Arguments for `irl room`.
#[derive(Debug)]
pub struct RoomArgs {
    /// Ticket another participant's `irl room` printed, as text. Omit to open
    /// a new room.
    pub ticket: Option<String>,
    pub capture: CaptureArgs,
    pub playback: PlaybackArgs,
    /// Name shown to other participants. Default: the short endpoint id.
    pub display_name: Option<String>,
    /// Suppress the terminal QR code.
    pub no_qr: bool,
    /// Start in fullscreen.
    pub fullscreen: bool,
}

/// The remote broadcast, as a ticket or as endpoint id plus broadcast path.
#[derive(Debug)]
pub struct RemoteArgs {
    /// Ticket that `irl publish` printed.
    pub ticket: Option<BroadcastTicket>,
    /// Remote endpoint id. Needs `--name`.
    pub endpoint_id: Option<EndpointId>,
    /// Broadcast path. Needs `--endpoint-id`.
    pub broadcast_name: Option<String>,
}

impl RemoteArgs {
    /// The ticket that the arguments name: the one given, or the one that the
    /// endpoint id and the path make. Any other combination names none.
    pub open spec fn named(self) -> Result<TicketView, Seq<char>> {
        match (self.ticket, self.endpoint_id, self.broadcast_name) {
            (Some(ticket), None, None) => Ok(ticket@),
            (None, Some(endpoint), Some(name)) => Ok(TicketView { endpoint, name: name@ }),
            _ => Err("provide either <TICKET> or --endpoint-id and --name"@),
        }
    }

    /// Returns the ticket from either form, or fails if neither was given.
    pub fn ticket(&self) -> (res: Result<BroadcastTicket, String>)
        ensures
            text::outcome(res) == self.named(),
    {
        match (&self.ticket, self.endpoint_id, &self.broadcast_name) {
            (Some(ticket), None, None) => Ok(ticket.clone()),
            (None, Some(id), Some(name)) => Ok(BroadcastTicket::new(id, name.clone())),
            _ => Err("provide either <TICKET> or --endpoint-id and --name".to_owned()),
        }
    }
}

/// Arguments for `irl watch`.
#[derive(Debug)]
pub struct WatchArgs {
    pub remote: RemoteArgs,
    /// Video decoding. Unused under `--no-video`.
    pub playback: PlaybackArgs,
    /// Play audio only. No window opens.
    pub no_video: bool,
    /// Read the ticket from a QR code held up to the camera.
    pub scan: bool,
    /// Camera for the QR scanner: `cam`, `cam:<id>`, or `rpicam`.
    pub scan_camera: Option<String>,
    /// Pin a rendition by name instead of adapting to the downlink.
    pub rendition: Option<String>,
    /// Start in fullscreen.
    pub fullscreen: bool,
    /// Audio output device, by its id.
    pub audio_output: Option<String>,
}

/// Arguments for `irl run`.
#[derive(Debug)]
pub struct RunArgs {
    /// TOML session file.
    pub config: String,
}

/// The container of a recording.
#[derive(Debug, Clone, Copy, PartialEq, Eq, Structural)]
pub enum RecordFormat {
    /// Fragmented MP4.
    Fmp4,
    /// Matroska.
    Mkv,
}

/// Arguments for `irl record`.
#[derive(Debug)]
pub struct RecordArgs {
    pub remote: RemoteArgs,
    /// Output file.
    pub output: String,
    /// Container format, overriding the `--output` extension.
    pub format: Option<RecordFormat>,
    /// Record only this video rendition. Default: all of them.
    pub rendition: Option<String>,
    /// Stop after this many seconds. Omit to record until interrupted.
    pub duration: Option<u64>,
    /// How many milliseconds to wait for a stalled group before skipping it.
    pub max_age: u64,
}

/// The output file of a recording when none is given.
pub const DEFAULT_OUTPUT: &'static str = "recording.mp4";

/// How long a recording waits for a stalled group by default, in milliseconds.
pub const DEFAULT_MAX_AGE: u64 = 2_000;

/// Parses the value of `--format`, which is `fmp4` or `mkv`.
pub fn record_format(format: &str) -> (res: RecordFormat)
    ensures
        res == if format@ == "mkv"@ {
            RecordFormat::Mkv
        } else {
            RecordFormat::Fmp4
        },
{
    if text::same(format, "mkv") {
        RecordFormat::Mkv
    } else {
        RecordFormat::Fmp4
    }
}

/// `--test-source` stands for the test pattern and the test tone whatever else
/// was given.
pub proof fn law_the_test_source_outranks_the_specifiers(args: CaptureArgs, rpicam: bool)
    requires
        args.test_source,
    ensures
        args.video_of(rpicam) == Ok::<VideoSourceView, Seq<char>>(
            VideoSourceView::Test(TestPattern::Timing),
        ),
        args.audio_of() == Ok::<AudioSourceView, Seq<char>>(AudioSourceView::Test(TestTone::Beeps)),
{
}

/// The flags stand for the sources that their specifiers stand for, and a
/// specifier that is refused is refused under its flag.
pub proof fn law_the_flags_stand_for_their_specifiers(
    args: CaptureArgs,
    kind: Seq<char>,
    id: Seq<char>,
    rpicam: bool,
)
    requires
        !args.test_source,
    ensures
        args.video@ == kind.push(':') + id ==> match source_spec::video_of(kind, id, rpicam) {
            Ok(source) => args.video_of(rpicam) == Ok::<VideoSourceView, Seq<char>>(source),
            Err(text) => args.video_of(rpicam) == Err::<VideoSourceView, Seq<char>>(
                "--video: "@ + text,
            ),
        },
        args.audio@ == kind.push(':') + id ==> match source_spec::audio_of(kind, id) {
            Ok(source) => args.audio_of() == Ok::<AudioSourceView, Seq<char>>(source),
            Err(text) => args.audio_of() == Err::<AudioSourceView, Seq<char>>("--audio: "@ + text),
        },
{
}

/// A broadcast is named by its ticket, or by an endpoint and a name together, and
/// in no other way.
pub proof fn law_a_broadcast_is_named_one_way(args: RemoteArgs)
    ensures
        args.named() is Ok <==> (args.ticket is Some && args.endpoint_id is None
            && args.broadcast_name is None) || (args.ticket is None && args.endpoint_id is Some
            && args.broadcast_name is Some),
        args.named() is Ok && args.ticket is Some ==> args.named()->Ok_0 == args.ticket->0@,
        args.named() is Ok && args.ticket is None ==> args.named()->Ok_0.endpoint
            == args.endpoint_id->0 && args.named()->Ok_0.name == args.broadcast_name->0@,
{
}

/// Realtime holds two frames at thirty a second, and balanced is the player's own
/// default.
pub proof fn law_the_modes_are_what_they_say(default: Latency)
    ensures
        LatencyArg::Balanced.bounds(default) == default,
        LatencyArg::Realtime.bounds(default).max == LatencyArg::Realtime.bounds(default).min + 40,
        LatencyArg::Smooth.bounds(default).max == LatencyArg::Smooth.bounds(default).min + 200,
        LatencyArg::Smooth.bounds(default).max == 6 * LatencyArg::Realtime.bounds(default).max,
        LatencyArg::Smooth.bounds(default).min == 4 * LatencyArg::Realtime.bounds(default).max,
        30 * LatencyArg::Realtime.bounds(default).min <= 2 * 1000 < 30 * (
        LatencyArg::Realtime.bounds(default).min + 10),
        LatencyArg::Smooth.bounds(default).min >= 5 * LatencyArg::Realtime.bounds(default).min,
{
}

/// Flags that are the same but for the video agree in every other flag.
pub proof fn law_flags_are_compared_one_by_one(one: CaptureArgs, other: CaptureArgs)
    ensures
        one.same_but_video(other) ==> one.audio@ == other.audio@ && one.codec == other.codec
            && one.encoder == other.encoder && one.keyframe_interval == other.keyframe_interval
            && one.bitrate == other.bitrate && one.width == other.width && one.height
            == other.height && one.fps == other.fps && one.no_cursor == other.no_cursor
            && one.audio_codec == other.audio_codec && one.audio_bitrate == other.audio_bitrate
            && one.renditions@.len() == other.renditions@.len(),
        one.same_as(other) ==> one.video@ == other.video@ && one.test_source == other.test_source
            && one.same_but_video(other),
        one.same_as(one),
{
    assert(text::string_list(one.renditions@).len() == one.renditions@.len());
    assert(text::string_list(other.renditions@).len() == other.renditions@.len());
}

} // verus!
