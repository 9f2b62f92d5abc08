//! Turning parsed specifiers into what is opened.
//!
//! The plans here say which device, pattern or file a specifier opens, and how.
//! Opening them is left to the caller.

use vstd::prelude::*;

use crate::args::{AudioCodecArg, CaptureArgs, VideoCodecArg};
use crate::backend::{Backend, BackendView};
use crate::rendition::{self, CaptureFramerate, Ladder, LadderView, Size};
use crate::source_spec::{
    AudioSourceSpec, AudioSourceView, RpicamMode, TestPattern, TestTone, VideoSourceSpec,
    VideoSourceView,
};
use crate::text;

verus! {

/// Width of the test pattern when `--width` is not given.
pub const TEST_WIDTH: u32 = 1280;

/// Height of the test pattern when `--height` is not given.
pub const TEST_HEIGHT: u32 = 720;

/// Capture width of the Raspberry Pi camera when `--width` is not given.
pub const RPICAM_WIDTH: u32 = 640;

/// Capture height of the Raspberry Pi camera when `--height` is not given.
pub const RPICAM_HEIGHT: u32 = 360;

/// A device to capture.
#[derive(Debug, PartialEq, Eq)]
pub enum CaptureSource {
    /// A camera, or the default one.
    Camera(Option<String>),
    /// A display, or the main one.
    Display(Option<String>),
    /// One window.
    Window(String),
    /// The windows of one application.
    App(String),
}

/// A [`CaptureSource`] with its texts as character sequences.
pub enum CaptureSourceView {
    Camera(Option<Seq<char>>),
    Display(Option<Seq<char>>),
    Window(Seq<char>),
    App(Seq<char>),
}

impl View for CaptureSource {
    type V = CaptureSourceView;

    open spec fn view(&self) -> CaptureSourceView {
        match *self {
            CaptureSource::Camera(id) => CaptureSourceView::Camera(text::opt_text(id)),
            CaptureSource::Display(id) => CaptureSourceView::Display(text::opt_text(id)),
            CaptureSource::Window(id) => CaptureSourceView::Window(id@),
            CaptureSource::App(id) => CaptureSourceView::App(id@),
        }
    }
}

/// How a device is captured. What is `None` is left to the device.
#[derive(Debug, PartialEq, Eq)]
pub struct CaptureConfig {
    pub source: CaptureSource,
    pub width: Option<u32>,
    pub height: Option<u32>,
    /// Frames per second.
    pub framerate: Option<u32>,
    /// Whether the mouse cursor is captured.
    pub cursor: bool,
}

/// A [`CaptureConfig`] with its texts as character sequences.
pub struct CaptureConfigView {
    pub source: CaptureSourceView,
    pub width: Option<u32>,
    pub height: Option<u32>,
    pub framerate: Option<u32>,
    pub cursor: bool,
}

impl View for CaptureConfig {
    type V = CaptureConfigView;

    open spec fn view(&self) -> CaptureConfigView {
        CaptureConfigView {
            source: self.source@,
            width: self.width,
            height: self.height,
            framerate: self.framerate,
            cursor: self.cursor,
        }
    }
}

/// How `rpicam-vid` is started.
#[derive(Debug, Clone, Copy, PartialEq, Eq, Structural)]
pub struct RpicamPlan {
    pub size: Size,
    /// Frames per second.
    pub framerate: u32,
    /// Frames between two keyframes: a keyframe a second.
    pub keyframe_interval: u32,
    /// Which of H.264 and pictures it hands over.
    pub mode: RpicamMode,
    /// Bits per second, or `None` for the subprocess's own default.
    pub bitrate: Option<u64>,
}

/// What a `--video` specifier opens.
#[derive(Debug, PartialEq, Eq)]
pub enum VideoPlan {
    /// Nothing.
    Nothing,
    /// A generated picture.
    Test { pattern: TestPattern, size: Size, framerate: u32 },
    /// The Raspberry Pi camera.
    Rpicam(RpicamPlan),
    /// A capture device.
    Capture(CaptureConfig),
}

/// A [`VideoPlan`] with its texts as character sequences.
pub enum VideoPlanView {
    Nothing,
    Test { pattern: TestPattern, size: Size, framerate: u32 },
    Rpicam(RpicamPlan),
    Capture(CaptureConfigView),
}

impl View for VideoPlan {
    type V = VideoPlanView;

    open spec fn view(&self) -> VideoPlanView {
        match *self {
            VideoPlan::Nothing => VideoPlanView::Nothing,
            VideoPlan::Test { pattern, size, framerate } => VideoPlanView::Test {
                pattern,
                size,
                framerate,
            },
            VideoPlan::Rpicam(plan) => VideoPlanView::Rpicam(plan),
            VideoPlan::Capture(config) => VideoPlanView::Capture(config@),
        }
    }
}

/// The value, or `default` when there is none.
pub open spec fn or(value: Option<u32>, default: u32) -> u32 {
    match value {
        Some(value) => value,
        None => default,
    }
}

/// The rate of a source that generates its own frames.
pub open spec fn generated_rate(framerate: CaptureFramerate) -> u32 {
    or(framerate.requested(), rendition::DEFAULT_FRAMERATE)
}

/// The configuration that the flags give a capture of `source`.
pub open spec fn device_plan(
    source: CaptureSourceView,
    args: CaptureArgs,
    framerate: CaptureFramerate,
) -> VideoPlanView {
    VideoPlanView::Capture(
        CaptureConfigView {
            source,
            width: args.width,
            height: args.height,
            framerate: framerate.requested(),
            cursor: !args.no_cursor,
        },
    )
}

/// Why the flags ask a pre-encoded source for an encode it cannot perform, if
/// they do.
pub open spec fn rpicam_complaint(args: CaptureArgs) -> Option<Seq<char>> {
    if args.codec != VideoCodecArg::H264 {
        Some(
            "--video rpicam publishes the H.264 that rpicam-vid encoded in hardware, so --codec cannot select another codec; --video rpicam:raw takes the pictures instead and encodes them here"@,
        )
    } else if !(args.encoder is Auto) {
        Some(
            "--encoder "@ + args.encoder@.name()
                + " has nothing to do under --video rpicam: rpicam-vid has already encoded the picture, and no encoder of ours runs. --video rpicam:raw takes the pictures instead, which is what comparing an encoder against the hardware one needs"@,
        )
    } else if args.renditions@.len() > 1 {
        Some(
            "--video rpicam publishes one rendition: the stream arrives encoded and cannot be produced again at a second size. Give at most one rung, or use --video rpicam:raw to encode a ladder from the pictures"@,
        )
    } else {
        None
    }
}

/// What a `--video` specifier opens, given the other flags and the settled
/// capture rate.
pub open spec fn video_plan(
    spec: VideoSourceView,
    args: CaptureArgs,
    framerate: CaptureFramerate,
) -> Result<VideoPlanView, Seq<char>> {
    match spec {
        VideoSourceView::Nothing => Ok(VideoPlanView::Nothing),
        VideoSourceView::Test(pattern) => Ok(
            VideoPlanView::Test {
                pattern,
                size: Size {
                    width: or(args.width, TEST_WIDTH),
                    height: or(args.height, TEST_HEIGHT),
                },
                framerate: generated_rate(framerate),
            },
        ),
        VideoSourceView::File { path, looping: _ } => Err(
            "a file: video source is published by `irl publish --video file:"@ + path
                + "`, which republishes the file without re-encoding it; here the source has to be a capture device, `test`, or `none`"@,
        ),
        VideoSourceView::Rpicam(mode) => if mode is Encoded && rpicam_complaint(args) is Some {
            Err(rpicam_complaint(args)->0)
        } else {
            Ok(
                VideoPlanView::Rpicam(
                    RpicamPlan {
                        size: Size {
                            width: or(args.width, RPICAM_WIDTH),
                            height: or(args.height, RPICAM_HEIGHT),
                        },
                        framerate: generated_rate(framerate),
                        keyframe_interval: generated_rate(framerate),
                        mode,
                        bitrate: if mode is Encoded {
                            args.bitrate
                        } else {
                            None
                        },
                    },
                ),
            )
        },
        VideoSourceView::Camera(id) => Ok(
            device_plan(CaptureSourceView::Camera(id), args, framerate),
        ),
        VideoSourceView::Display(id) => Ok(
            device_plan(CaptureSourceView::Display(id), args, framerate),
        ),
        VideoSourceView::Window(id) => Ok(
            device_plan(CaptureSourceView::Window(id), args, framerate),
        ),
        VideoSourceView::App(id) => Ok(device_plan(CaptureSourceView::App(id), args, framerate)),
    }
}

fn value_or(value: Option<u32>, default: u32) -> (res: u32)
    ensures
        res == or(value, default),
{
    match value {
        Some(value) => value,
        None => default,
    }
}

/// Plans the capture of a device, carrying the geometry hints from the flags.
pub fn capture(source: CaptureSource, args: &CaptureArgs, framerate: CaptureFramerate) -> (res:
    VideoPlan)
    ensures
        res@ == device_plan(source@, *args, framerate),
{
    VideoPlan::Capture(
        CaptureConfig {
            source,
            width: args.width,
            height: args.height,
            framerate: framerate.request(),
            cursor: !args.no_cursor,
        },
    )
}

/// Refuses the encoding flags a pre-encoded source cannot act on.
///
/// The picture is already H.264 by the time it arrives, so `--codec` and
/// `--encoder` describe an encode that does not happen and a ladder has nothing
/// to scale.
pub fn check_rpicam_flags(args: &CaptureArgs) -> (res: Result<(), String>)
    ensures
        match res {
            Ok(_) => rpicam_complaint(*args) is None,
            Err(text) => rpicam_complaint(*args) == Some(text@),
        },
{
    if args.codec != VideoCodecArg::H264 {
        return Err(
            "--video rpicam publishes the H.264 that rpicam-vid encoded in hardware, so --codec cannot select another codec; --video rpicam:raw takes the pictures instead and encodes them here".to_owned(),
        );
    }
    let auto: bool = match args.encoder {
        Backend::Auto => true,
        _ => false,
    };
    if !auto {
        return Err(
            "--encoder ".to_owned().concat(args.encoder.name()).concat(
                " has nothing to do under --video rpicam: rpicam-vid has already encoded the picture, and no encoder of ours runs. --video rpicam:raw takes the pictures instead, which is what comparing an encoder against the hardware one needs",
            ),
        );
    }
    if args.renditions.len() > 1 {
        return Err(
            "--video rpicam publishes one rendition: the stream arrives encoded and cannot be produced again at a second size. Give at most one rung, or use --video rpicam:raw to encode a ladder from the pictures".to_owned(),
        );
    }
    Ok(())
}

/// Plans `rpicam-vid` for whichever of H.264 and pictures `mode` asked for.
///
/// Under [`RpicamMode::Encoded`] `--bitrate` goes to the subprocess, and the
/// flags that describe another encode are refused. Under [`RpicamMode::Raw`]
/// `--bitrate` belongs to the rendition ladder.
pub fn rpicam_source(args: &CaptureArgs, framerate: CaptureFramerate, mode: RpicamMode) -> (res:
    Result<VideoPlan, String>)
    ensures
        text::outcome(res) == video_plan(VideoSourceView::Rpicam(mode), *args, framerate),
{
    let rate: u32 = framerate.generated();
    let mut plan = RpicamPlan {
        size: Size::new(value_or(args.width, RPICAM_WIDTH), value_or(args.height, RPICAM_HEIGHT)),
        framerate: rate,
        keyframe_interval: rate,
        mode,
        bitrate: None,
    };
    match mode {
        RpicamMode::Raw => {},
        RpicamMode::Encoded => {
            match check_rpicam_flags(args) {
                Ok(_) => {},
                Err(err) => return Err(err),
            }
            plan.bitrate = args.bitrate;
        },
    }
    Ok(VideoPlan::Rpicam(plan))
}

/// Plans the test pattern `pattern` names, at whatever geometry the flags asked
/// for.
pub fn test_pattern(args: &CaptureArgs, framerate: CaptureFramerate, pattern: TestPattern) -> (res:
    VideoPlan)
    ensures
        Ok::<VideoPlanView, Seq<char>>(res@) == video_plan(
            VideoSourceView::Test(pattern),
            *args,
            framerate,
        ),
{
    VideoPlan::Test {
        pattern,
        size: Size::new(value_or(args.width, TEST_WIDTH), value_or(args.height, TEST_HEIGHT)),
        framerate: framerate.generated(),
    }
}

/// Plans the video source a specifier names.
///
/// Fails for a `file:` source, which only `irl publish` can take, and for flags
/// that a pre-encoded source cannot act on.
pub fn video_source(spec: &VideoSourceSpec, args: &CaptureArgs, framerate: CaptureFramerate) -> (res:
    Result<VideoPlan, String>)
    ensures
        text::outcome(res) == video_plan(spec@, *args, framerate),
{
    match spec {
        VideoSourceSpec::Nothing => Ok(VideoPlan::Nothing),
        VideoSourceSpec::Test(pattern) => Ok(test_pattern(args, framerate, *pattern)),
        VideoSourceSpec::File { path, .. } => Err(
            "a file: video source is published by `irl publish --video file:".to_owned().concat(
                path.as_str(),
            ).concat(
                "`, which republishes the file without re-encoding it; here the source has to be a capture device, `test`, or `none`",
            ),
        ),
        VideoSourceSpec::Rpicam(mode) => rpicam_source(args, framerate, *mode),
        VideoSourceSpec::Camera(id) => Ok(
            capture(CaptureSource::Camera(text::clone_opt(id)), args, framerate),
        ),
        VideoSourceSpec::Display(id) => Ok(
            capture(CaptureSource::Display(text::clone_opt(id)), args, framerate),
        ),
        VideoSourceSpec::Window(id) => Ok(
            capture(CaptureSource::Window(id.clone()), args, framerate),
        ),
        VideoSourceSpec::App(id) => Ok(capture(CaptureSource::App(id.clone()), args, framerate)),
    }
}

/// A video source planned for a broadcast, with the ladder it is encoded into.
#[derive(Debug)]
pub struct OpenedVideo {
    pub plan: VideoPlan,
    pub ladder: Ladder,
}

/// What the flags open and encode for the source `spec`: nothing under
/// `--video none`, and otherwise its plan and its ladder. A ladder that does
/// not parse is reported first.
pub open spec fn opened(
    spec: VideoSourceView,
    args: CaptureArgs,
    macos: bool,
) -> Result<Option<(VideoPlanView, LadderView)>, Seq<char>> {
    match rendition::ladder_of(args, rendition::heeds_framerate(spec, macos)) {
        Err(text) => Err(text),
        Ok(ladder) => match video_plan(spec, args, ladder.framerate) {
            Err(text) => Err(text),
            Ok(plan) => if plan is Nothing {
                Ok(None)
            } else {
                Ok(Some((plan, ladder)))
            },
        },
    }
}

/// What the flags open and encode, given what `--video` stands for.
pub open spec fn opened_by(
    source: Result<VideoSourceView, Seq<char>>,
    args: CaptureArgs,
    macos: bool,
) -> Result<Option<(VideoPlanView, LadderView)>, Seq<char>> {
    match source {
        Ok(spec) => opened(spec, args, macos),
        Err(text) => Err(text),
    }
}

/// A result with an opened video, by its views or the text of its error.
pub open spec fn opened_outcome(res: Result<Option<OpenedVideo>, String>) -> Result<
    Option<(VideoPlanView, LadderView)>,
    Seq<char>,
> {
    match res {
        Ok(Some(video)) => Ok(Some((video.plan@, video.ladder@))),
        Ok(None) => Ok(None),
        Err(text) => Err(text@),
    }
}

/// Plans the video that the flags ask for and that `spec` names.
///
/// `macos` tells whether this build captures through AVFoundation.
pub fn open_source(spec: &VideoSourceSpec, args: &CaptureArgs, macos: bool) -> (res: Result<
    Option<OpenedVideo>,
    String,
>)
    ensures
        opened_outcome(res) == opened(spec@, *args, macos),
{
    let ladder = match rendition::ladder_on(macos, spec, args) {
        Ok(ladder) => ladder,
        Err(err) => return Err(err),
    };
    match video_source(spec, args, ladder.framerate) {
        Ok(VideoPlan::Nothing) => Ok(None),
        Ok(plan) => Ok(Some(OpenedVideo { plan, ladder })),
        Err(err) => Err(err),
    }
}

/// Plans the video that `args` asks for.
///
/// Fails if `--video` does not parse, and as [`open_source`] does.
pub fn open_video(args: &CaptureArgs, rpicam: bool, macos: bool) -> (res: Result<
    Option<OpenedVideo>,
    String,
>)
    ensures
        opened_outcome(res) == opened_by(
            args.video_of(rpicam),
            *args,
            macos,
        ),
{
    match args.video_source_for(rpicam) {
        Ok(spec) => open_source(&spec, args, macos),
        Err(err) => Err(err),
    }
}

/// The color of the gradient at this column and row, in red, green, blue and
/// alpha.
pub open spec fn gradient_at(x: nat, y: nat, tick: nat) -> Seq<u8> {
    let phase = tick * 3 % 256;
    seq![
        ((x + phase) % 256) as u8,
        ((y + phase) % 256) as u8,
        phase as u8,
        255u8,
    ]
}

/// The bytes of a gradient picture, rows packed.
pub open spec fn gradient_bytes(size: Size, tick: nat) -> Seq<u8> {
    Seq::new(
        size.area() * 4,
        |i: int|
            {
                let pixel = i / 4;
                gradient_at(
                    (pixel % size.width as int) as nat,
                    (pixel / size.width as int) as nat,
                    tick,
                )[i % 4]
            },
    )
}

/// Paints a diagonal gradient that shifts with `tick`.
///
/// Cheap, and different in every frame: a static image compresses to almost
/// nothing after the first keyframe, so a pipeline that had stalled would still
/// look like one moving bytes.
pub fn paint_gradient(size: Size, tick: u32) -> (rgba: Vec<u8>)
    requires
        size.area() * 4 <= u32::MAX,
    ensures
        rgba@ == gradient_bytes(size, tick as nat),
{
    let ghost want = gradient_bytes(size, tick as nat);
    let phase: u64 = tick as u64 * 3 % 256;
    let width: usize = size.width as usize;
    let height: usize = size.height as usize;
    let mut rgba: Vec<u8> = Vec::new();
    let mut y: usize = 0;
    while y < height
        invariant
            y <= height,
            width == size.width,
            height == size.height,
            phase == tick as nat * 3 % 256,
            want == gradient_bytes(size, tick as nat),
            rgba@.len() == y * width * 4,
            forall|i: int| 0 <= i < rgba@.len() ==> #[trigger] rgba@[i] == want[i],
        decreases height - y,
    {
        let mut x: usize = 0;
        while x < width
            invariant
                y < height,
                x <= width,
                width == size.width,
                height == size.height,
                phase == tick as nat * 3 % 256,
                want == gradient_bytes(size, tick as nat),
                rgba@.len() == (y * width + x) * 4,
                forall|i: int| 0 <= i < rgba@.len() ==> #[trigger] rgba@[i] == want[i],
            decreases width - x,
        {
            let ghost before = rgba@;
            let ghost pixel = y * width + x;
            let red: u8 = ((x as u64 + phase) % 256) as u8;
            let green: u8 = ((y as u64 + phase) % 256) as u8;
            rgba.push(red);
            rgba.push(green);
            rgba.push(phase as u8);
            rgba.push(255);
            proof {
                lemma_pixel(x as int, y as int, width as int, height as int);
                let color = gradient_at(x as nat, y as nat, tick as nat);
                assert forall|i: int| 0 <= i < rgba@.len() implies #[trigger] rgba@[i]
                    == want[i] by {
                    if i >= before.len() {
                        let k = i - pixel * 4;
                        assert(i / 4 == pixel && i % 4 == k);
                        assert(want[i] == color[k]);
                    } else {
                        assert(rgba@[i] == before[i]);
                    }
                }
            }
            x += 1;
        }
        assert((y + 1) * width * 4 == (y * width + width) * 4) by (nonlinear_arith);
        y += 1;
    }
    assert(height * width * 4 == size.area() * 4) by (nonlinear_arith)
        requires
            width == size.width,
            height == size.height,
            size.area() == size.width * size.height,
    ;
    assert(rgba@ =~= want);
    rgba
}

/// A column and a row give a pixel of the picture, and are found back from it.
proof fn lemma_pixel(x: int, y: int, width: int, height: int)
    requires
        0 <= x < width,
        0 <= y < height,
    ensures
        0 <= y * width + x < width * height,
        (y * width + x) % width == x,
        (y * width + x) / width == y,
{
    assert(0 <= y * width + x < width * height) by (nonlinear_arith)
        requires
            0 <= x < width,
            0 <= y < height,
    ;
    vstd::arithmetic::div_mod::lemma_fundamental_div_mod_converse(y * width + x, width, y, x);
}

/// How a microphone is opened.
#[derive(Debug, PartialEq, Eq)]
pub struct MicrophonePlan {
    /// The device, or `None` for the default.
    pub device: Option<String>,
    /// Whether the output's echo is cancelled from it.
    pub echo_reference: bool,
    /// Whether to warn that the other side may hear itself.
    pub warn_of_echo: bool,
}

/// Plans the microphone `id` names, with the output's echo cancelled from it.
///
/// `output` tells of the speaker that plays the other side, if one does,
/// whether it discards what it is given. A build without `aec` says so and
/// publishes the microphone as it is; an output that discards plays nothing, so
/// there is no echo to warn about.
pub fn microphone_config(id: Option<String>, output: Option<bool>, aec: bool) -> (res:
    MicrophonePlan)
    ensures
        text::opt_text(res.device) == text::opt_text(id),
        res.echo_reference == (output is Some && aec),
        res.warn_of_echo == (output == Some(false) && !aec),
{
    let (echo_reference, warn_of_echo): (bool, bool) = match output {
        Some(discards) => (aec, !aec && !discards),
        None => (false, false),
    };
    MicrophonePlan { device: id, echo_reference, warn_of_echo }
}

/// What an `--audio` specifier opens.
#[derive(Debug, PartialEq, Eq)]
pub enum AudioPlan {
    /// Nothing.
    Nothing,
    /// A microphone.
    Microphone(MicrophonePlan),
    /// Everything the machine is playing.
    System,
    /// A generated tone.
    Test(TestTone),
    /// An audio file.
    File { path: String, looping: bool },
}

/// Plans the audio source a specifier names.
pub fn audio_source(spec: &AudioSourceSpec, output: Option<bool>, aec: bool) -> (res: AudioPlan)
    ensures
        match spec@ {
            AudioSourceView::Nothing => res is Nothing,
            AudioSourceView::Microphone(id) => res matches AudioPlan::Microphone(plan)
                && text::opt_text(plan.device) == id && plan.echo_reference == (output is Some
                && aec) && plan.warn_of_echo == (output == Some(false) && !aec),
            AudioSourceView::System => res is System,
            AudioSourceView::Test(tone) => res == AudioPlan::Test(tone),
            AudioSourceView::File { path, looping } => res matches AudioPlan::File {
                path: got,
                looping: again,
            } && got@ == path && again == looping,
        },
{
    match spec {
        AudioSourceSpec::Nothing => AudioPlan::Nothing,
        AudioSourceSpec::Microphone(id) => AudioPlan::Microphone(
            microphone_config(text::clone_opt(id), output, aec),
        ),
        AudioSourceSpec::System => AudioPlan::System,
        AudioSourceSpec::Test(tone) => AudioPlan::Test(*tone),
        AudioSourceSpec::File { path, looping } => AudioPlan::File {
            path: path.clone(),
            looping: *looping,
        },
    }
}

/// How audio is encoded.
#[derive(Debug, Clone, Copy, PartialEq, Eq, Structural)]
pub enum AudioEncoding {
    /// Uncompressed.
    Pcm,
    /// Opus for speech, at this bitrate in bits per second, or the preset's.
    Voice(Option<u32>),
    /// Opus for music, at this bitrate in bits per second, or the preset's.
    Music(Option<u32>),
}

/// The encoding that the flags imply for a source that is or is not a
/// microphone.
pub open spec fn encoding_of(args: CaptureArgs, microphone: bool) -> AudioEncoding {
    match args.audio_codec {
        AudioCodecArg::Pcm => AudioEncoding::Pcm,
        AudioCodecArg::Opus => if microphone {
            AudioEncoding::Voice(args.audio_bitrate)
        } else {
            AudioEncoding::Music(args.audio_bitrate)
        },
    }
}

/// Whether an `--audio` value names a microphone.
pub open spec fn names_microphone(source: Result<AudioSourceView, Seq<char>>) -> bool {
    source is Ok && source->Ok_0 is Microphone
}

/// Returns the encoding `--audio-codec` and `--audio-bitrate` imply.
///
/// A microphone is speech and gets the voice preset; anything else may be music
/// and keeps its channels. PCM's bitrate follows from its sample rate and
/// channel count, so only Opus takes `--audio-bitrate`.
pub fn audio_encoding(args: &CaptureArgs) -> (res: AudioEncoding)
    ensures
        res == encoding_of(
            *args,
            names_microphone(args.audio_of()),
        ),
{
    match args.audio_codec {
        AudioCodecArg::Pcm => AudioEncoding::Pcm,
        AudioCodecArg::Opus => if is_microphone(args) {
            AudioEncoding::Voice(args.audio_bitrate)
        } else {
            AudioEncoding::Music(args.audio_bitrate)
        },
    }
}

/// Returns whether `--audio` names a microphone.
pub fn is_microphone(args: &CaptureArgs) -> (res: bool)
    ensures
        res == names_microphone(args.audio_of()),
{
    match args.audio_source() {
        Ok(AudioSourceSpec::Microphone(_)) => true,
        _ => false,
    }
}

/// A picture of the gradient differs from the next one.
pub proof fn law_the_gradient_moves(size: Size, tick: nat)
    requires
        size.width > 0,
        size.height > 0,
    ensures
        gradient_bytes(size, tick) != gradient_bytes(size, tick + 1),
{
    let now = gradient_bytes(size, tick);
    let next = gradient_bytes(size, tick + 1);
    assert(size.area() > 0) by (nonlinear_arith)
        requires
            size.width > 0,
            size.height > 0,
            size.area() == size.width * size.height,
    ;
    assert(now[2] == (tick * 3 % 256) as u8);
    assert(next[2] == ((tick + 1) * 3 % 256) as u8);
}

/// A device is captured as the flags ask: the source with its own identifier, the
/// size of the flags, the settled rate, and the cursor unless it is switched off.
pub proof fn law_a_device_is_captured_as_asked(
    id: Option<Seq<char>>,
    name: Seq<char>,
    args: CaptureArgs,
    framerate: CaptureFramerate,
)
    ensures
        forall|spec: VideoSourceView| #[trigger]
            video_plan(spec, args, framerate) matches Ok(VideoPlanView::Capture(config)) ==> {
                &&& config.width == args.width
                &&& config.height == args.height
                &&& config.framerate == framerate.requested()
                &&& config.cursor == !args.no_cursor
            },
        video_plan(VideoSourceView::Camera(id), args, framerate) matches Ok(
            VideoPlanView::Capture(config),
        ) && config.source == CaptureSourceView::Camera(id),
        video_plan(VideoSourceView::Display(id), args, framerate) matches Ok(
            VideoPlanView::Capture(config),
        ) && config.source == CaptureSourceView::Display(id),
        video_plan(VideoSourceView::Window(name), args, framerate) matches Ok(
            VideoPlanView::Capture(config),
        ) && config.source == CaptureSourceView::Window(name),
        video_plan(VideoSourceView::App(name), args, framerate) matches Ok(
            VideoPlanView::Capture(config),
        ) && config.source == CaptureSourceView::App(name),
{
}

/// A generated picture has the pattern that was named, the size of the flags or
/// 720p, and the settled rate or thirty frames a second.
pub proof fn law_a_test_pattern_is_generated_as_asked(
    pattern: TestPattern,
    args: CaptureArgs,
    framerate: CaptureFramerate,
)
    ensures
        video_plan(VideoSourceView::Test(pattern), args, framerate) matches Ok(
            VideoPlanView::Test { pattern: got, size, framerate: fps },
        ) && {
            &&& got == pattern
            &&& args.width is Some ==> size.width == args.width->0
            &&& args.width is None ==> size.width == 1280
            &&& args.height is Some ==> size.height == args.height->0
            &&& args.height is None ==> size.height == 720
            &&& framerate.requested() is Some ==> fps == framerate.requested()->0
            &&& framerate.requested() is None ==> fps == 30
        },
{
}

/// The Pi's camera hands over its own stream only where no flag asks for another
/// encode, and raw pictures always. It has a keyframe a second, and a bitrate of
/// its own only where it encodes.
pub proof fn law_the_pi_camera_is_run_as_asked(
    mode: RpicamMode,
    args: CaptureArgs,
    framerate: CaptureFramerate,
)
    ensures
        ({
            let plan = video_plan(VideoSourceView::Rpicam(mode), args, framerate);
            &&& mode is Raw ==> plan is Ok
            &&& mode is Encoded ==> (plan is Ok <==> args.codec == VideoCodecArg::H264
                && args.encoder is Auto && args.renditions@.len() <= 1)
            &&& plan is Ok ==> (plan->Ok_0 matches VideoPlanView::Rpicam(pi) && {
                &&& pi.mode == mode
                &&& args.width is Some ==> pi.size.width == args.width->0
                &&& args.width is None ==> pi.size.width == 640
                &&& args.height is Some ==> pi.size.height == args.height->0
                &&& args.height is None ==> pi.size.height == 360
                &&& pi.keyframe_interval == pi.framerate
                &&& framerate.requested() is Some ==> pi.framerate == framerate.requested()->0
                &&& framerate.requested() is None ==> pi.framerate == 30
                &&& mode is Encoded ==> pi.bitrate == args.bitrate
                &&& mode is Raw ==> pi.bitrate is None
            })
        }),
{
}

/// A file is not captured, and no video is nothing to open. What is opened comes
/// with the ladder of the flags, whose rate it is captured at.
pub proof fn law_what_is_opened_comes_with_its_ladder(
    spec: VideoSourceView,
    path: Seq<char>,
    looping: bool,
    args: CaptureArgs,
    macos: bool,
    problem: Seq<char>,
)
    ensures
        opened(VideoSourceView::File { path, looping }, args, macos) is Err,
        opened(VideoSourceView::Nothing, args, macos) is Ok ==> opened(
            VideoSourceView::Nothing,
            args,
            macos,
        )->Ok_0 is None,
        opened(spec, args, macos) matches Ok(Some((plan, ladder))) ==> {
            &&& rendition::ladder_of(args, rendition::heeds_framerate(spec, macos)) == Ok::<
                LadderView,
                Seq<char>,
            >(ladder)
            &&& !(plan is Nothing)
            &&& plan matches VideoPlanView::Capture(config) ==> config.framerate
                == ladder.framerate.requested()
        },
        opened(spec, args, macos) matches Ok(None) ==> spec is Nothing,
        opened_by(Err(problem), args, macos) == Err::<
            Option<(VideoPlanView, LadderView)>,
            Seq<char>,
        >(problem),
        opened_by(Ok(spec), args, macos) == opened(spec, args, macos),
{
}

/// The gradient is a byte of red that grows by one with each column, one of green
/// that grows by one with each row, one of blue, all of which grow by three with
/// each tick, and no transparency. The pixels stand row by row.
pub proof fn law_the_gradient_is_a_gradient(size: Size, tick: nat, x: nat, y: nat)
    requires
        x < size.width,
        y < size.height,
    ensures
        ({
            let bytes = gradient_bytes(size, tick);
            let here = 4 * (y * size.width + x);
            &&& bytes.len() == 4 * size.area()
            &&& 0 <= here && here + 3 < bytes.len()
            &&& bytes[here] as int == (x + 3 * tick) % 256
            &&& bytes[here + 1] as int == (y + 3 * tick) % 256
            &&& bytes[here + 2] as int == (3 * tick) % 256
            &&& bytes[here + 3] == 255
        }),
{
    let width = size.width as int;
    lemma_pixel(x as int, y as int, width, size.height as int);
    let pixel = y * width + x;
    let here = 4 * pixel;
    assert(here / 4 == pixel && (here + 1) / 4 == pixel && (here + 2) / 4 == pixel && (here + 3)
        / 4 == pixel);
    assert(here % 4 == 0 && (here + 1) % 4 == 1 && (here + 2) % 4 == 2 && (here + 3) % 4 == 3);
    let phase = tick * 3 % 256;
    assert((x + phase) % 256 == (x + 3 * tick) % 256);
    assert((y + phase) % 256 == (y + 3 * tick) % 256);
}

/// Speech gets the voice preset, anything else the one for music, and PCM none.
/// The bitrate is the flag's.
pub proof fn law_speech_and_music_are_encoded_apart(args: CaptureArgs, microphone: bool)
    ensures
        args.audio_codec == AudioCodecArg::Pcm ==> encoding_of(args, microphone)
            == AudioEncoding::Pcm,
        args.audio_codec == AudioCodecArg::Opus ==> encoding_of(args, true)
            == AudioEncoding::Voice(args.audio_bitrate),
        args.audio_codec == AudioCodecArg::Opus ==> encoding_of(args, false)
            == AudioEncoding::Music(args.audio_bitrate),
{
}

/// A microphone is one by any identifier, and nothing else is one.
pub proof fn law_only_a_microphone_is_one(
    id: Option<Seq<char>>,
    tone: TestTone,
    problem: Seq<char>,
)
    ensures
        names_microphone(Ok(AudioSourceView::Microphone(id))),
        !names_microphone(Ok(AudioSourceView::System)),
        !names_microphone(Ok(AudioSourceView::Test(tone))),
        !names_microphone(Ok(AudioSourceView::Nothing)),
        !names_microphone(Err(problem)),
{
}

/// A capture source is seen as what it is, with what it holds.
pub proof fn law_a_capture_source_is_seen_as_it_is(one: CaptureSource)
    ensures
        one matches CaptureSource::Camera(id) ==> one@ == CaptureSourceView::Camera(text::opt_text(id)),
        one matches CaptureSource::Display(id) ==> one@ == CaptureSourceView::Display(text::opt_text(id)),
        one matches CaptureSource::Window(id) ==> one@ == CaptureSourceView::Window(id@),
        one matches CaptureSource::App(id) ==> one@ == CaptureSourceView::App(id@),
{
}

/// A video plan is seen as what it is, with what it holds.
pub proof fn law_a_video_plan_is_seen_as_it_is(one: VideoPlan)
    ensures
        one matches VideoPlan::Nothing ==> one@ == VideoPlanView::Nothing,
        one matches VideoPlan::Test { pattern, size, framerate } ==> one@ == (VideoPlanView::Test {
                pattern,
                size,
                framerate,
            }),
        one matches VideoPlan::Rpicam(plan) ==> one@ == VideoPlanView::Rpicam(plan),
        one matches VideoPlan::Capture(config) ==> one@ == VideoPlanView::Capture(config@),
{
}

} // verus!
