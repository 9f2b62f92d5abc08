//! The `--renditions` grammar, and the capture frame rate it settles.
//!
//! A rung is `[<name>:]<geometry>[@<fps>]`, where the geometry is `<height>p`
//! or `<width>x<height>`. A rung with no geometry is a name for the source's
//! own resolution.
//!
//! One capture feeds every encoder of a ladder, so `@<fps>` is a capture rate.
//! The highest one wins, and `--fps` overrides them all.

use vstd::prelude::*;

use crate::args::{CaptureArgs, VideoCodecArg};
use crate::backend::{Backend, BackendView};
use crate::source_spec::{VideoSourceSpec, VideoSourceView};
use crate::text;

verus! {

/// The capture frame rate when nothing asks for one.
pub const DEFAULT_FRAMERATE: u32 = 30;

/// The highest frame rate `--fps` or an `@<fps>` suffix may name.
pub const MAX_FRAMERATE: u32 = 1_000;

/// The rendition name a publish without `--renditions` uses.
pub const SINGLE_RENDITION: &'static str = "video";

/// The bitrate below which no rung is usable, in bits per second.
pub const BITRATE_FLOOR: u64 = 64_000;

/// The size of a picture in pixels.
#[derive(Debug, Clone, Copy, PartialEq, Eq, Structural)]
pub struct Size {
    pub width: u32,
    pub height: u32,
}

impl Size {
    /// The number of pixels.
    pub open spec fn area(self) -> nat {
        (self.width * self.height) as nat
    }

    /// Creates a size.
    pub fn new(width: u32, height: u32) -> (res: Self)
        ensures
            res == (Size { width, height }),
    {
        Size { width, height }
    }

    /// Returns the number of pixels.
    pub fn pixels(&self) -> (res: u64)
        ensures
            res == self.area(),
    {
        proof {
            lemma_area_fits(*self);
        }
        self.width as u64 * self.height as u64
    }
}

proof fn lemma_area_fits(size: Size)
    ensures
        0 <= size.width * size.height <= 0xffff_ffff * 0xffff_ffff,
{
    let w = size.width as int;
    let h = size.height as int;
    assert(0 <= w * h <= 0xffff_ffff * 0xffff_ffff) by (nonlinear_arith)
        requires
            0 <= w <= 0xffff_ffff,
            0 <= h <= 0xffff_ffff,
    ;
}

/// The capture frame rate a publish runs at.
#[derive(Debug, Clone, Copy, PartialEq, Eq, Structural)]
pub enum CaptureFramerate {
    /// The rate the backend is asked for.
    ///
    /// A device may substitute its nearest rate.
    Requested {
        /// Frames per second.
        fps: u32,
        /// What settled the number.
        origin: FramerateOrigin,
    },
    /// The backend runs at its own rate.
    Device,
}

impl CaptureFramerate {
    /// The rate that is asked for, if any.
    pub open spec fn requested(self) -> Option<u32> {
        match self {
            CaptureFramerate::Requested { fps, .. } => Some(fps),
            CaptureFramerate::Device => None,
        }
    }

    /// Returns the rate for a capture config, or `None` for the backend's own.
    pub fn request(self) -> (res: Option<u32>)
        ensures
            res == self.requested(),
    {
        match self {
            CaptureFramerate::Requested { fps, .. } => Some(fps),
            CaptureFramerate::Device => None,
        }
    }

    /// Returns the rate for a source that generates its own frames.
    ///
    /// The test pattern and `rpicam-vid` have no device mode to defer to, so
    /// [`DEFAULT_FRAMERATE`] stands in.
    pub fn generated(self) -> (res: u32)
        ensures
            res == match self.requested() {
                Some(fps) => fps,
                None => DEFAULT_FRAMERATE,
            },
    {
        match self.request() {
            Some(fps) => fps,
            None => DEFAULT_FRAMERATE,
        }
    }
}

/// What settled a requested capture frame rate.
#[derive(Debug, Clone, Copy, PartialEq, Eq, Structural)]
pub enum FramerateOrigin {
    /// `--fps` named it.
    Flag,
    /// The highest `@<fps>` in `--renditions` named it.
    Renditions,
    /// `--fps` named it, below what a rung asked for.
    Capped,
    /// Nothing named a rate, so [`DEFAULT_FRAMERATE`] applies.
    Default,
}

impl FramerateOrigin {
    /// Returns the `origin` log field.
    pub fn label(self) -> (res: &'static str)
        ensures
            res@ == match self {
                FramerateOrigin::Flag => "--fps"@,
                FramerateOrigin::Renditions => "--renditions"@,
                FramerateOrigin::Capped => "--fps, capping the ladder"@,
                FramerateOrigin::Default => "default"@,
            },
    {
        match self {
            FramerateOrigin::Flag => "--fps",
            FramerateOrigin::Renditions => "--renditions",
            FramerateOrigin::Capped => "--fps, capping the ladder",
            FramerateOrigin::Default => "default",
        }
    }
}

/// A rung that asked for a frame rate the capture does not run at.
#[derive(Debug, PartialEq, Eq)]
pub struct UnmetRate {
    /// The rendition name.
    pub name: String,
    /// The rate its `@<fps>` asked for.
    pub asked: u32,
}

impl View for UnmetRate {
    type V = (Seq<char>, u32);

    open spec fn view(&self) -> (Seq<char>, u32) {
        (self.name@, self.asked)
    }
}

/// One rung of `--renditions`, as it was typed.
#[derive(Debug, PartialEq, Eq)]
pub struct Rung {
    /// The catalog name for this rendition.
    pub name: String,
    /// The encoded size, or `None` for the source's own resolution.
    pub size: Option<Size>,
    /// The rate its `@<fps>` asked for, if any.
    pub framerate: Option<u32>,
}

/// A [`Rung`] with its name as a character sequence.
pub struct RungView {
    pub name: Seq<char>,
    pub size: Option<Size>,
    pub framerate: Option<u32>,
}

impl View for Rung {
    type V = RungView;

    open spec fn view(&self) -> RungView {
        RungView { name: self.name@, size: self.size, framerate: self.framerate }
    }
}

/// What one encoder of a ladder is built from.
#[derive(Debug, PartialEq, Eq)]
pub struct VideoRendition {
    /// The catalog name.
    pub name: String,
    /// The encoded size, or `None` for the source's own resolution.
    pub size: Option<Size>,
    /// The codec.
    pub codec: VideoCodecArg,
    /// The encoder backend.
    pub encoder: Backend,
    /// Time between keyframes in nanoseconds, or `None` for the encoder's own
    /// default.
    pub keyframe_interval: Option<u64>,
    /// Target bitrate in bits per second, or `None` to derive it from the
    /// resolution.
    pub bitrate: Option<u64>,
}

/// A [`VideoRendition`] with its texts as character sequences.
pub struct RenditionView {
    pub name: Seq<char>,
    pub size: Option<Size>,
    pub codec: VideoCodecArg,
    pub encoder: BackendView,
    pub keyframe_interval: Option<u64>,
    pub bitrate: Option<u64>,
}

impl View for VideoRendition {
    type V = RenditionView;

    open spec fn view(&self) -> RenditionView {
        RenditionView {
            name: self.name@,
            size: self.size,
            codec: self.codec,
            encoder: self.encoder@,
            keyframe_interval: self.keyframe_interval,
            bitrate: self.bitrate,
        }
    }
}

/// A list by the views of its items.
pub open spec fn views<T: View>(list: Seq<T>) -> Seq<T::V> {
    Seq::new(list.len(), |i: int| list[i]@)
}

/// The simulcast ladder and its capture frame rate.
#[derive(Debug)]
pub struct Ladder {
    /// The rungs, ready to encode.
    pub renditions: Vec<VideoRendition>,
    /// The rate the capture backend is asked for.
    pub framerate: CaptureFramerate,
    /// The rungs whose `@<fps>` differs from the capture rate.
    pub unmet: Vec<UnmetRate>,
}

/// A [`Ladder`] with its texts as character sequences.
pub struct LadderView {
    pub renditions: Seq<RenditionView>,
    pub framerate: CaptureFramerate,
    pub unmet: Seq<(Seq<char>, u32)>,
}

impl View for Ladder {
    type V = LadderView;

    open spec fn view(&self) -> LadderView {
        LadderView {
            renditions: views(self.renditions@),
            framerate: self.framerate,
            unmet: views(self.unmet@),
        }
    }
}

/// What the log says of a ladder.
#[derive(Debug, PartialEq, Eq)]
pub struct RateReport {
    /// The rate the capture was asked for. Without one the backend picks its own.
    pub fps: Option<u32>,
    /// Where the rate comes from.
    pub origin: &'static str,
    /// The rungs to warn of: a ladder is captured once, so each encodes at the
    /// capture frame rate rather than the rate it asked for.
    pub warned: Vec<UnmetRate>,
}

impl Ladder {
    /// Reports the capture frame rate and the rungs that asked for another.
    ///
    /// Call it only once a video source opened.
    pub fn report(&self) -> (res: RateReport)
        ensures
            res.fps == self.framerate.requested(),
            res.origin@ == match self.framerate {
                CaptureFramerate::Requested { fps: _, origin } => match origin {
                    FramerateOrigin::Flag => "--fps"@,
                    FramerateOrigin::Renditions => "--renditions"@,
                    FramerateOrigin::Capped => "--fps, capping the ladder"@,
                    FramerateOrigin::Default => "default"@,
                },
                CaptureFramerate::Device => "device"@,
            },
            views(res.warned@) == if self.framerate is Device {
                Seq::<(Seq<char>, u32)>::empty()
            } else {
                views(self.unmet@)
            },
    {
        let mut warned: Vec<UnmetRate> = Vec::new();
        let origin: &'static str = match self.framerate {
            CaptureFramerate::Requested { fps: _, origin } => origin.label(),
            CaptureFramerate::Device => {
                assert(views(warned@) =~= Seq::<(Seq<char>, u32)>::empty());
                return RateReport { fps: None, origin: "device", warned };
            },
        };
        let ghost all = views(self.unmet@);
        let mut i: usize = 0;
        while i < self.unmet.len()
            invariant
                i <= self.unmet@.len(),
                all == views(self.unmet@),
                views(warned@) =~= all.take(i as int),
            decreases self.unmet@.len() - i,
        {
            let rung = &self.unmet[i];
            assert(all.take(i + 1) =~= all.take(i as int).push(rung@));
            warned.push(UnmetRate { name: rung.name.clone(), asked: rung.asked });
            i += 1;
        }
        assert(all.take(all.len() as int) =~= all);
        RateReport { fps: self.framerate.request(), origin, warned }
    }
}

/// Whether a capture backend accepts this frame rate.
pub open spec fn in_range(fps: u32) -> bool {
    1 <= fps <= MAX_FRAMERATE
}

/// Rounds up to the next even number.
pub open spec fn evened(value: nat) -> nat {
    value + value % 2
}

/// The size with these dimensions rounded up to even, where they then fit.
pub open spec fn even_size(width: nat, height: nat) -> Option<Size> {
    if evened(width) <= u32::MAX && evened(height) <= u32::MAX {
        Some(Size { width: evened(width) as u32, height: evened(height) as u32 })
    } else {
        None
    }
}

/// The width that goes with `height` at 16:9.
pub open spec fn wide(height: nat) -> nat {
    (height * 16 + 4) / 9
}

/// The size that `<width>x<height>` or `<height>p` spells.
pub open spec fn size_of(spec: Seq<char>) -> Option<Size> {
    match text::split(spec, seq!['x', 'X']) {
        Some((width, height)) => match (text::u32_of(width), text::u32_of(height)) {
            (Some(width), Some(height)) => even_size(width as nat, height as nat),
            _ => None,
        },
        None => if spec.len() > 0 && (spec.last() == 'p' || spec.last() == 'P') {
            match text::u32_of(spec.drop_last()) {
                Some(height) => even_size(wide(height as nat), height as nat),
                None => None,
            }
        } else {
            None
        },
    }
}

/// The frame rate that the suffix `value` of the rung `spec` asks for.
pub open spec fn suffix_rate(spec: Seq<char>, value: Seq<char>) -> Result<u32, Seq<char>> {
    match text::u32_of(value) {
        None => Err("rendition '"@ + spec + "': '"@ + value + "' is not a frame rate"@),
        Some(fps) => if in_range(fps) {
            Ok(fps)
        } else {
            Err(
                "rendition '"@ + spec + "': "@ + text::decimal(fps as nat)
                    + " frames per second is outside the 1 to 1000 a capture backend accepts"@,
            )
        },
    }
}

/// The name and the size of the rung `spec`, out of its part before `@`.
pub open spec fn shape_of(spec: Seq<char>, geometry: Seq<char>) -> Result<
    (Seq<char>, Option<Size>),
    Seq<char>,
> {
    match text::split(geometry, seq![':']) {
        Some((name, size)) => match size_of(size) {
            Some(parsed) => Ok((name, Some(parsed))),
            None => Err(
                "rendition '"@ + spec + "': '"@ + size + "' is not <height>p or <width>x<height>"@,
            ),
        },
        None => Ok((geometry, size_of(geometry))),
    }
}

/// The rung that `spec` spells, or why it spells none.
///
/// The frame rate is judged first, then the size, then the name.
pub open spec fn rung_of(spec: Seq<char>) -> Result<RungView, Seq<char>> {
    let (geometry, rate) = match text::split(spec, seq!['@']) {
        Some((geometry, value)) => (
            geometry,
            match suffix_rate(spec, value) {
                Ok(fps) => Ok(Some(fps)),
                Err(text) => Err(text),
            },
        ),
        None => (spec, Ok(None)),
    };
    match rate {
        Err(text) => Err(text),
        Ok(framerate) => match shape_of(spec, geometry) {
            Err(text) => Err(text),
            Ok((name, size)) => if name.len() == 0 {
                Err("rendition '"@ + spec + "': a rung needs a name or a size of its own"@)
            } else {
                Ok(RungView { name, size, framerate })
            },
        },
    }
}

/// The rungs that the specs spell, or why the first bad one spells none.
pub open spec fn rungs_of(specs: Seq<Seq<char>>) -> Result<Seq<RungView>, Seq<char>>
    decreases specs.len(),
{
    if specs.len() == 0 {
        Ok(seq![])
    } else {
        match rungs_of(specs.drop_last()) {
            Err(text) => Err(text),
            Ok(rungs) => match rung_of(specs.last()) {
                Err(text) => Err(text),
                Ok(rung) => Ok(rungs.push(rung)),
            },
        }
    }
}

/// The rungs of a ladder: one unscaled rung when none is asked for.
pub open spec fn ladder_rungs(specs: Seq<Seq<char>>) -> Result<Seq<RungView>, Seq<char>> {
    if specs.len() == 0 {
        Ok(seq![RungView { name: SINGLE_RENDITION@, size: None, framerate: None }])
    } else {
        rungs_of(specs)
    }
}

/// The highest frame rate any rung asks for.
pub open spec fn highest(rungs: Seq<RungView>) -> Option<u32>
    decreases rungs.len(),
{
    if rungs.len() == 0 {
        None
    } else {
        match (highest(rungs.drop_last()), rungs.last().framerate) {
            (Some(a), Some(b)) => Some(
                if a >= b {
                    a
                } else {
                    b
                },
            ),
            (Some(a), None) => Some(a),
            (None, rate) => rate,
        }
    }
}

/// Whether the backend behind the source acts on a requested frame rate.
pub open spec fn heeds_framerate(spec: VideoSourceView, macos: bool) -> bool {
    !(macos && spec is Camera)
}

/// The capture frame rate, from `--fps`, the rungs, and the backend.
pub open spec fn settled(
    flag: Option<u32>,
    rungs: Seq<RungView>,
    heeds: bool,
) -> Result<CaptureFramerate, Seq<char>> {
    match (flag, highest(rungs)) {
        (Some(fps), asked) => if !in_range(fps) {
            Err(
                "--fps "@ + text::decimal(fps as nat)
                    + " is outside the 1 to 1000 a capture backend accepts"@,
            )
        } else if asked is Some && asked->0 > fps {
            Ok(CaptureFramerate::Requested { fps, origin: FramerateOrigin::Capped })
        } else {
            Ok(CaptureFramerate::Requested { fps, origin: FramerateOrigin::Flag })
        },
        (None, Some(fps)) => Ok(
            CaptureFramerate::Requested { fps, origin: FramerateOrigin::Renditions },
        ),
        (None, None) => Ok(
            if heeds {
                CaptureFramerate::Requested {
                    fps: DEFAULT_FRAMERATE,
                    origin: FramerateOrigin::Default,
                }
            } else {
                CaptureFramerate::Device
            },
        ),
    }
}

/// Whether this rung asks for another rate than the capture runs at.
pub open spec fn misses(rung: RungView, framerate: CaptureFramerate) -> bool {
    rung.framerate is Some && framerate.requested() is Some && rung.framerate->0
        != framerate.requested()->0
}

/// The rungs that ask for another rate than the capture runs at, in order.
pub open spec fn unmet_of(rungs: Seq<RungView>, framerate: CaptureFramerate) -> Seq<
    (Seq<char>, u32),
>
    decreases rungs.len(),
{
    if rungs.len() == 0 {
        seq![]
    } else {
        let before = unmet_of(rungs.drop_last(), framerate);
        if misses(rungs.last(), framerate) {
            before.push((rungs.last().name, rungs.last().framerate->0))
        } else {
            before
        }
    }
}

/// The pixel count of the largest rung, or `None` when a rung is unsized.
pub open spec fn largest_area(rungs: Seq<RungView>) -> Option<nat>
    decreases rungs.len(),
{
    if rungs.len() == 0 {
        Some(0)
    } else {
        match (largest_area(rungs.drop_last()), rungs.last().size) {
            (Some(a), Some(size)) => Some(
                if a >= size.area() {
                    a
                } else {
                    size.area()
                },
            ),
            _ => None,
        }
    }
}

/// The share of `bitrate` that a rung of `area` pixels gets in a ladder whose
/// largest rung has `largest` pixels.
pub open spec fn share(bitrate: nat, area: nat, largest: nat) -> nat {
    if largest == 0 {
        bitrate
    } else {
        let part = bitrate * area / largest;
        if part >= BITRATE_FLOOR {
            part
        } else {
            BITRATE_FLOOR as nat
        }
    }
}

/// The bitrate of a rung, as [`scaled_bitrate`] computes it.
pub open spec fn rung_bitrate(bitrate: nat, size: Option<Size>, largest: Option<nat>) -> nat {
    match (size, largest) {
        (Some(size), Some(largest)) => share(bitrate, size.area(), largest),
        _ => bitrate,
    }
}

/// The renditions that the rungs are encoded as.
pub open spec fn encoded(args: CaptureArgs, rungs: Seq<RungView>) -> Seq<RenditionView> {
    Seq::new(
        rungs.len(),
        |i: int|
            RenditionView {
                name: rungs[i].name,
                size: rungs[i].size,
                codec: args.codec,
                encoder: args.encoder@,
                keyframe_interval: args.keyframe_interval,
                bitrate: match args.bitrate {
                    Some(bitrate) => Some(
                        rung_bitrate(bitrate as nat, rungs[i].size, largest_area(rungs)) as u64,
                    ),
                    None => None,
                },
            },
    )
}

/// The ladder that the arguments describe.
pub open spec fn ladder_of(args: CaptureArgs, heeds: bool) -> Result<LadderView, Seq<char>> {
    match ladder_rungs(views(args.renditions@)) {
        Err(text) => Err(text),
        Ok(rungs) => match settled(args.fps, rungs, heeds) {
            Err(text) => Err(text),
            Ok(framerate) => Ok(
                LadderView {
                    renditions: encoded(args, rungs),
                    framerate,
                    unmet: unmet_of(rungs, framerate),
                },
            ),
        },
    }
}

/// Rounds up to the next even number.
pub fn even(value: u32) -> (res: u32)
    requires
        value < u32::MAX,
    ensures
        res == evened(value as nat),
{
    value + (value % 2)
}

/// Parses `<height>p` or `<width>x<height>`.
///
/// Rounds both dimensions up to even, since I420 chroma is subsampled 2x2.
/// `<height>p` assumes 16:9. A dimension that does not fit after rounding is
/// no size.
pub fn parse_size(spec: &str) -> (res: Option<Size>)
    ensures
        res == size_of(spec@),
{
    let cross: [char; 2] = ['x', 'X'];
    assert(cross@ =~= seq!['x', 'X']);
    if let Some((width, height)) = text::split_first(spec, &cross) {
        let width: u32 = match text::parse_u32(width) {
            Some(width) => width,
            None => return None,
        };
        let height: u32 = match text::parse_u32(height) {
            Some(height) => height,
            None => return None,
        };
        return rounded(width as u64, height as u64);
    }
    let len: usize = spec.unicode_len();
    if len == 0 {
        return None;
    }
    let last: char = spec.get_char(len - 1);
    if last != 'p' && last != 'P' {
        return None;
    }
    let digits = spec.substring_char(0, len - 1);
    assert(digits@ =~= spec@.drop_last());
    match text::parse_u32(digits) {
        Some(height) => rounded((height as u64 * 16 + 4) / 9, height as u64),
        None => None,
    }
}

fn rounded(width: u64, height: u64) -> (res: Option<Size>)
    ensures
        res == even_size(width as nat, height as nat),
{
    if width >= 0xffff_ffff || height >= 0xffff_ffff {
        return None;
    }
    Some(Size::new(even(width as u32), even(height as u32)))
}

/// Parses one rung: `[<name>:]<geometry>[@<fps>]`.
pub fn rung(spec: &str) -> (res: Result<Rung, String>)
    ensures
        text::outcome(res) == rung_of(spec@),
{
    // Splitting on the first `@` makes `a@b@60` fail on `b@60` instead of
    // accepting `a@b` as a name.
    let at: [char; 1] = ['@'];
    assert(at@ =~= seq!['@']);
    let (geometry, framerate): (&str, Option<u32>) = match text::split_first(spec, &at) {
        Some((geometry, value)) => match rung_framerate(spec, value) {
            Ok(fps) => (geometry, Some(fps)),
            Err(err) => return Err(err),
        },
        None => (spec, None),
    };
    let colon: [char; 1] = [':'];
    assert(colon@ =~= seq![':']);
    let (name, size): (&str, Option<Size>) = match text::split_first(geometry, &colon) {
        Some((name, size)) => match parse_size(size) {
            Some(parsed) => (name, Some(parsed)),
            None => return Err(
                "rendition '".to_owned().concat(spec).concat("': '").concat(size).concat(
                    "' is not <height>p or <width>x<height>",
                ),
            ),
        },
        // A bare size names itself. Anything else is a name at source size.
        None => (geometry, parse_size(geometry)),
    };
    if name.is_empty() {
        return Err(
            "rendition '".to_owned().concat(spec).concat(
                "': a rung needs a name or a size of its own",
            ),
        );
    }
    Ok(Rung { name: name.to_owned(), size, framerate })
}

/// A result with a number, by its value or the text of its error.
pub open spec fn number_outcome(res: Result<u32, String>) -> Result<u32, Seq<char>> {
    match res {
        Ok(value) => Ok(value),
        Err(text) => Err(text@),
    }
}

/// Parses the `@<fps>` suffix of `spec`.
pub fn rung_framerate(spec: &str, value: &str) -> (res: Result<u32, String>)
    ensures
        number_outcome(res) == suffix_rate(spec@, value@),
{
    match text::parse_u32(value) {
        None => Err(
            "rendition '".to_owned().concat(spec).concat("': '").concat(value).concat(
                "' is not a frame rate",
            ),
        ),
        Some(fps) => if fps < 1 || fps > MAX_FRAMERATE {
            Err(
                "rendition '".to_owned().concat(spec).concat("': ").concat(
                    text::decimal_text(fps as u64).as_str(),
                ).concat(" frames per second is outside the 1 to 1000 a capture backend accepts"),
            )
        } else {
            Ok(fps)
        },
    }
}

/// Checks the rate `--fps` names.
pub fn flag_framerate(fps: u32) -> (res: Result<u32, String>)
    ensures
        number_outcome(res) == if in_range(fps) {
            Ok(fps)
        } else {
            Err(
                "--fps "@ + text::decimal(fps as nat)
                    + " is outside the 1 to 1000 a capture backend accepts"@,
            )
        },
{
    if fps < 1 || fps > MAX_FRAMERATE {
        Err(
            "--fps ".to_owned().concat(text::decimal_text(fps as u64).as_str()).concat(
                " is outside the 1 to 1000 a capture backend accepts",
            ),
        )
    } else {
        Ok(fps)
    }
}

/// A result with a list of rungs, by their views or the text of its error.
pub open spec fn rungs_outcome(res: Result<Vec<Rung>, String>) -> Result<
    Seq<RungView>,
    Seq<char>,
> {
    match res {
        Ok(rungs) => Ok(views(rungs@)),
        Err(text) => Err(text@),
    }
}

/// A bad spec stays the first bad one, however many follow.
proof fn lemma_first_error_stays(specs: Seq<Seq<char>>, n: int)
    requires
        0 <= n <= specs.len(),
        rungs_of(specs.take(n)) is Err,
    ensures
        rungs_of(specs) == rungs_of(specs.take(n)),
    decreases specs.len(),
{
    if n < specs.len() {
        assert(specs.drop_last().take(n) =~= specs.take(n));
        lemma_first_error_stays(specs.drop_last(), n);
    } else {
        assert(specs.take(n) =~= specs);
    }
}

/// Parses `--renditions`, or returns one unscaled rung when it is empty.
pub fn rungs(args: &CaptureArgs) -> (res: Result<Vec<Rung>, String>)
    ensures
        rungs_outcome(res) == ladder_rungs(views(args.renditions@)),
{
    let ghost specs = views(args.renditions@);
    if args.renditions.len() == 0 {
        let mut single: Vec<Rung> = Vec::new();
        single.push(Rung { name: SINGLE_RENDITION.to_owned(), size: None, framerate: None });
        assert(views(single@) =~= seq![
            RungView { name: SINGLE_RENDITION@, size: None, framerate: None },
        ]);
        return Ok(single);
    }
    let mut parsed: Vec<Rung> = Vec::new();
    let mut i: usize = 0;
    assert(specs.take(0) =~= seq![]);
    assert(views(parsed@) =~= seq![]);
    while i < args.renditions.len()
        invariant
            i <= args.renditions.len(),
            specs == views(args.renditions@),
            specs.len() > 0,
            rungs_of(specs.take(i as int)) == Ok::<Seq<RungView>, Seq<char>>(views(parsed@)),
        decreases args.renditions.len() - i,
    {
        let ghost longer = specs.take(i + 1);
        assert(longer.drop_last() =~= specs.take(i as int));
        assert(longer.last() == args.renditions@[i as int]@);
        match rung(args.renditions[i].as_str()) {
            Ok(one) => {
                let ghost before = parsed@;
                parsed.push(one);
                assert(views(parsed@) =~= views(before).push(one@));
            },
            Err(err) => {
                proof {
                    lemma_first_error_stays(specs, i + 1);
                }
                return Err(err);
            },
        }
        i += 1;
    }
    assert(specs.take(specs.len() as int) =~= specs);
    Ok(parsed)
}

/// A result with a frame rate, by its value or the text of its error.
pub open spec fn rate_outcome(res: Result<CaptureFramerate, String>) -> Result<
    CaptureFramerate,
    Seq<char>,
> {
    match res {
        Ok(rate) => Ok(rate),
        Err(text) => Err(text@),
    }
}

/// Returns the highest rate any rung asks for.
fn highest_rate(rungs: &[Rung]) -> (res: Option<u32>)
    ensures
        res == highest(views(rungs@)),
{
    let ghost all = views(rungs@);
    let mut best: Option<u32> = None;
    let mut i: usize = 0;
    assert(all.take(0) =~= seq![]);
    while i < rungs.len()
        invariant
            i <= rungs.len(),
            all == views(rungs@),
            best == highest(all.take(i as int)),
        decreases rungs.len() - i,
    {
        let ghost longer = all.take(i + 1);
        assert(longer.drop_last() =~= all.take(i as int));
        assert(longer.last() == rungs@[i as int]@);
        best = match (best, rungs[i].framerate) {
            (Some(a), Some(b)) => if a >= b {
                Some(a)
            } else {
                Some(b)
            },
            (Some(a), None) => Some(a),
            (None, rate) => rate,
        };
        i += 1;
    }
    assert(all.take(all.len() as int) =~= all);
    best
}

/// Settles the capture frame rate and its origin.
///
/// `macos` tells whether this build captures through AVFoundation.
pub fn capture_framerate(
    spec: &VideoSourceSpec,
    args: &CaptureArgs,
    rungs: &[Rung],
    macos: bool,
) -> (res: Result<CaptureFramerate, String>)
    ensures
        rate_outcome(res) == settled(args.fps, views(rungs@), heeds_framerate(spec@, macos)),
{
    let asked: Option<u32> = highest_rate(rungs);
    match args.fps {
        Some(fps) => match flag_framerate(fps) {
            Err(err) => Err(err),
            Ok(fps) => {
                let capped: bool = match asked {
                    Some(asked) => asked > fps,
                    None => false,
                };
                Ok(
                    CaptureFramerate::Requested {
                        fps,
                        origin: if capped {
                            FramerateOrigin::Capped
                        } else {
                            FramerateOrigin::Flag
                        },
                    },
                )
            },
        },
        None => match asked {
            Some(fps) => Ok(
                CaptureFramerate::Requested { fps, origin: FramerateOrigin::Renditions },
            ),
            None => if takes_framerate(spec, macos) {
                Ok(
                    CaptureFramerate::Requested {
                        fps: DEFAULT_FRAMERATE,
                        origin: FramerateOrigin::Default,
                    },
                )
            } else {
                Ok(CaptureFramerate::Device)
            },
        },
    }
}

/// Returns whether the backend behind `spec` acts on a requested frame rate.
///
/// The AVFoundation camera backend ignores it and warns. The default is skipped
/// there to avoid that warning, but an explicit `--fps` is still passed.
pub fn takes_framerate(spec: &VideoSourceSpec, macos: bool) -> (res: bool)
    ensures
        res == heeds_framerate(spec@, macos),
{
    let camera: bool = match spec {
        VideoSourceSpec::Camera(_) => true,
        _ => false,
    };
    !(macos && camera)
}

/// Returns the rungs whose `@<fps>` differs from the capture rate.
pub fn unmet_rates(rungs: &[Rung], framerate: CaptureFramerate) -> (res: Vec<UnmetRate>)
    ensures
        views(res@) == unmet_of(views(rungs@), framerate),
{
    let ghost all = views(rungs@);
    let mut unmet: Vec<UnmetRate> = Vec::new();
    let mut i: usize = 0;
    assert(all.take(0) =~= seq![]);
    assert(views(unmet@) =~= seq![]);
    while i < rungs.len()
        invariant
            i <= rungs.len(),
            all == views(rungs@),
            views(unmet@) == unmet_of(all.take(i as int), framerate),
        decreases rungs.len() - i,
    {
        let ghost longer = all.take(i + 1);
        assert(longer.drop_last() =~= all.take(i as int));
        assert(longer.last() == rungs@[i as int]@);
        let ghost before = unmet@;
        if let (Some(asked), Some(fps)) = (rungs[i].framerate, framerate.request()) {
            if asked != fps {
                let one = UnmetRate { name: rungs[i].name.clone(), asked };
                unmet.push(one);
                assert(views(unmet@) =~= views(before).push(one@));
            }
        }
        i += 1;
    }
    assert(all.take(all.len() as int) =~= all);
    unmet
}

/// The pixel count of the largest rung is no less than that of any rung.
proof fn lemma_largest_bounds(rungs: Seq<RungView>, i: int)
    requires
        largest_area(rungs) is Some,
        0 <= i < rungs.len(),
    ensures
        rungs[i].size is Some,
        rungs[i].size->0.area() <= largest_area(rungs)->0,
    decreases rungs.len(),
{
    if i < rungs.len() - 1 {
        lemma_largest_bounds(rungs.drop_last(), i);
        assert(rungs.drop_last()[i] == rungs[i]);
    }
}

/// Returns the pixel count of the largest rung, or `None` when one is unsized.
fn largest_pixels(rungs: &[Rung]) -> (res: Option<u64>)
    ensures
        match res {
            Some(area) => largest_area(views(rungs@)) == Some(area as nat),
            None => largest_area(views(rungs@)) is None,
        },
{
    let ghost all = views(rungs@);
    let mut largest: u64 = 0;
    let mut i: usize = 0;
    assert(all.take(0) =~= seq![]);
    while i < rungs.len()
        invariant
            i <= rungs.len(),
            all == views(rungs@),
            largest_area(all.take(i as int)) == Some(largest as nat),
        decreases rungs.len() - i,
    {
        let ghost longer = all.take(i + 1);
        assert(longer.drop_last() =~= all.take(i as int));
        assert(longer.last() == rungs@[i as int]@);
        match rungs[i].size {
            Some(size) => {
                if size.pixels() > largest {
                    largest = size.pixels();
                }
            },
            None => {
                proof {
                    if largest_area(all) is Some {
                        lemma_largest_bounds(all, i as int);
                    }
                }
                return None;
            },
        }
        i += 1;
    }
    assert(all.take(all.len() as int) =~= all);
    Some(largest)
}

/// A share of a part no larger than the whole is no larger than the bitrate or
/// the floor.
proof fn lemma_share_bound(bitrate: nat, area: nat, largest: nat)
    requires
        area <= largest,
    ensures
        share(bitrate, area, largest) <= if bitrate >= BITRATE_FLOOR {
            bitrate
        } else {
            BITRATE_FLOOR as nat
        },
{
    if largest > 0 {
        assert(bitrate * area / largest <= bitrate) by (nonlinear_arith)
            requires
                area <= largest,
                largest > 0,
        ;
    }
}

/// Shares `bitrate` across a ladder in proportion to pixel count.
///
/// `bitrate` is for the largest rung. The result has a floor, so a tiny rung
/// still gets a usable rate.
pub fn scaled_bitrate(bitrate: u64, size: Option<Size>, largest: Option<Size>) -> (res: u64)
    requires
        (size is Some && largest is Some) ==> share(
            bitrate as nat,
            size->0.area(),
            largest->0.area(),
        ) <= u64::MAX,
    ensures
        res == rung_bitrate(
            bitrate as nat,
            size,
            match largest {
                Some(largest) => Some(largest.area()),
                None => None,
            },
        ),
{
    match (size, largest) {
        (Some(size), Some(largest)) => part_of(bitrate, size.pixels(), largest.pixels()),
        _ => bitrate,
    }
}

fn part_of(bitrate: u64, area: u64, largest: u64) -> (res: u64)
    requires
        share(bitrate as nat, area as nat, largest as nat) <= u64::MAX,
    ensures
        res == share(bitrate as nat, area as nat, largest as nat),
{
    if largest == 0 {
        return bitrate;
    }
    proof {
        let b = bitrate as int;
        let a = area as int;
        assert(0 <= b * a <= 0xffff_ffff_ffff_ffff * 0xffff_ffff_ffff_ffff) by (nonlinear_arith)
            requires
                0 <= b <= 0xffff_ffff_ffff_ffff,
                0 <= a <= 0xffff_ffff_ffff_ffff,
        ;
    }
    let part: u128 = bitrate as u128 * area as u128 / largest as u128;
    if part >= BITRATE_FLOOR as u128 {
        part as u64
    } else {
        BITRATE_FLOOR
    }
}

/// Turns parsed rungs into the renditions that are encoded.
pub fn renditions(args: &CaptureArgs, rungs: &[Rung]) -> (res: Vec<VideoRendition>)
    ensures
        views(res@) == encoded(*args, views(rungs@)),
{
    // `--bitrate` is for the largest rung. An unsized rung is at source size,
    // which is unknown here, so there is nothing to scale against.
    let largest: Option<u64> = largest_pixels(rungs);
    let ghost all = views(rungs@);
    let ghost want = encoded(*args, all);
    let mut list: Vec<VideoRendition> = Vec::new();
    let mut i: usize = 0;
    while i < rungs.len()
        invariant
            i <= rungs.len(),
            all == views(rungs@),
            want == encoded(*args, all),
            match largest {
                Some(area) => largest_area(all) == Some(area as nat),
                None => largest_area(all) is None,
            },
            list@.len() == i,
            forall|j: int| 0 <= j < i ==> (#[trigger] list@[j])@ == want[j],
        decreases rungs.len() - i,
    {
        assert(all[i as int] == rungs@[i as int]@);
        // A subscriber picks a rung by comparing its bandwidth estimate with
        // each rung's bitrate, so the rungs must differ.
        let bitrate: Option<u64> = match args.bitrate {
            Some(bitrate) => match (rungs[i].size, largest) {
                (Some(size), Some(largest)) => {
                    proof {
                        lemma_largest_bounds(all, i as int);
                        lemma_share_bound(bitrate as nat, size.area(), largest as nat);
                    }
                    Some(part_of(bitrate, size.pixels(), largest))
                },
                _ => Some(bitrate),
            },
            None => None,
        };
        list.push(
            VideoRendition {
                name: rungs[i].name.clone(),
                size: rungs[i].size,
                codec: args.codec,
                encoder: args.encoder,
                keyframe_interval: args.keyframe_interval,
                bitrate,
            },
        );
        assert(list@[i as int]@ == want[i as int]);
        i += 1;
    }
    assert(views(list@) =~= want);
    list
}

/// Builds the ladder and capture frame rate for `spec` from `args`.
///
/// Fails if a rung does not parse or a frame rate is out of range.
pub fn ladder(spec: &VideoSourceSpec, args: &CaptureArgs) -> (res: Result<Ladder, String>)
    ensures
        text::outcome(res) == ladder_of(*args, true),
{
    ladder_on(false, spec, args)
}

/// Builds the ladder as [`ladder`] does, where `macos` tells whether this build
/// captures through AVFoundation.
pub fn ladder_on(macos: bool, spec: &VideoSourceSpec, args: &CaptureArgs) -> (res: Result<
    Ladder,
    String,
>)
    ensures
        text::outcome(res) == ladder_of(*args, heeds_framerate(spec@, macos)),
{
    let rungs: Vec<Rung> = match rungs(args) {
        Ok(rungs) => rungs,
        Err(err) => return Err(err),
    };
    let framerate = match capture_framerate(spec, args, rungs.as_slice(), macos) {
        Ok(framerate) => framerate,
        Err(err) => return Err(err),
    };
    Ok(
        Ladder {
            renditions: renditions(args, rungs.as_slice()),
            unmet: unmet_rates(rungs.as_slice(), framerate),
            framerate,
        },
    )
}

/// The highest rate is one that a rung asks for, and no rung asks for more.
pub proof fn law_highest_is_the_maximum(rungs: Seq<RungView>)
    ensures
        match highest(rungs) {
            Some(top) => {
                &&& exists|i: int| 0 <= i < rungs.len() && (#[trigger] rungs[i]).framerate == Some(top)
                &&& forall|i: int|
                    0 <= i < rungs.len() && (#[trigger] rungs[i]).framerate is Some
                        ==> rungs[i].framerate->0 <= top
            },
            None => forall|i: int| 0 <= i < rungs.len() ==> (#[trigger] rungs[i]).framerate is None,
        },
    decreases rungs.len(),
{
    if rungs.len() > 0 {
        let before = rungs.drop_last();
        law_highest_is_the_maximum(before);
        assert forall|i: int| 0 <= i < before.len() implies before[i] == #[trigger] rungs[i] by {}
        assert(rungs.last() == rungs[rungs.len() - 1]);
        if let Some(top) = highest(rungs) {
            if rungs.last().framerate == Some(top) {
                assert(rungs[rungs.len() - 1].framerate == Some(top));
            } else {
                let i = choose|i: int|
                    0 <= i < before.len() && (#[trigger] before[i]).framerate == Some(top);
                assert(rungs[i].framerate == Some(top));
            }
        }
    }
}

/// Without `--fps`, the capture runs at the highest rate any rung asks for.
pub proof fn law_the_highest_rung_rate_wins(rungs: Seq<RungView>, heeds: bool)
    requires
        highest(rungs) is Some,
    ensures
        settled(None, rungs, heeds) == Ok::<CaptureFramerate, Seq<char>>(
            CaptureFramerate::Requested {
                fps: highest(rungs)->0,
                origin: FramerateOrigin::Renditions,
            },
        ),
{
}

/// `--fps` settles the capture rate, whatever the rungs ask for.
pub proof fn law_the_flag_overrides_the_ladder(fps: u32, rungs: Seq<RungView>, heeds: bool)
    requires
        in_range(fps),
    ensures
        settled(Some(fps), rungs, heeds) is Ok,
        settled(Some(fps), rungs, heeds)->Ok_0.requested() == Some(fps),
{
}

/// A parsed rung has a name, and its rate is one a capture backend accepts.
pub proof fn law_a_rung_is_usable(spec: Seq<char>)
    requires
        rung_of(spec) is Ok,
    ensures
        rung_of(spec)->Ok_0.name.len() > 0,
        rung_of(spec)->Ok_0.framerate is Some ==> in_range(rung_of(spec)->Ok_0.framerate->0),
{
}

proof fn lemma_every_rung_is_usable(specs: Seq<Seq<char>>)
    requires
        rungs_of(specs) is Ok,
    ensures
        rungs_of(specs)->Ok_0.len() == specs.len(),
        forall|i: int|
            0 <= i < specs.len() ==> rung_of(specs[i]) == Ok::<RungView, Seq<char>>(
                #[trigger] rungs_of(specs)->Ok_0[i],
            ),
    decreases specs.len(),
{
    if specs.len() > 0 {
        lemma_every_rung_is_usable(specs.drop_last());
        assert forall|i: int| 0 <= i < specs.len() implies rung_of(specs[i]) == Ok::<
            RungView,
            Seq<char>,
        >(#[trigger] rungs_of(specs)->Ok_0[i]) by {
            if i < specs.len() - 1 {
                assert(specs.drop_last()[i] == specs[i]);
                assert(rungs_of(specs)->Ok_0[i] == rungs_of(specs.drop_last())->Ok_0[i]);
            }
        }
    }
}

/// A ladder holds one rendition for each spec, in order, and one when there is
/// no spec.
pub proof fn law_a_ladder_has_a_rendition_per_spec(args: CaptureArgs, heeds: bool)
    requires
        ladder_of(args, heeds) is Ok,
    ensures
        ladder_of(args, heeds)->Ok_0.renditions.len() == if args.renditions@.len() == 0 {
            1
        } else {
            args.renditions@.len()
        },
        forall|i: int|
            0 <= i < args.renditions@.len() ==> {
                let one = #[trigger] ladder_of(args, heeds)->Ok_0.renditions[i];
                &&& rung_of(args.renditions@[i]@) is Ok
                &&& one.name == rung_of(args.renditions@[i]@)->Ok_0.name
                &&& one.size == rung_of(args.renditions@[i]@)->Ok_0.size
            },
{
    let specs = views(args.renditions@);
    if specs.len() > 0 {
        lemma_every_rung_is_usable(specs);
        assert forall|i: int| 0 <= i < specs.len() implies {
            let one = #[trigger] ladder_of(args, heeds)->Ok_0.renditions[i];
            &&& rung_of(args.renditions@[i]@) is Ok
            &&& one.name == rung_of(args.renditions@[i]@)->Ok_0.name
            &&& one.size == rung_of(args.renditions@[i]@)->Ok_0.size
        } by {
            assert(specs[i] == args.renditions@[i]@);
            assert(rung_of(specs[i]) == Ok::<RungView, Seq<char>>(rungs_of(specs)->Ok_0[i]));
        }
    }
}

/// The capture rate of a ladder is one a capture backend accepts.
pub proof fn law_the_capture_rate_is_in_range(args: CaptureArgs, heeds: bool)
    requires
        ladder_of(args, heeds) is Ok,
    ensures
        ladder_of(args, heeds)->Ok_0.framerate.requested() matches Some(fps) ==> in_range(fps),
{
    let specs = views(args.renditions@);
    let rungs = ladder_rungs(specs)->Ok_0;
    law_highest_is_the_maximum(rungs);
    if specs.len() > 0 {
        lemma_every_rung_is_usable(specs);
    }
    if let Some(top) = highest(rungs) {
        let i = choose|i: int| 0 <= i < rungs.len() && (#[trigger] rungs[i]).framerate == Some(top);
        if specs.len() > 0 {
            assert(rung_of(specs[i]) == Ok::<RungView, Seq<char>>(rungs_of(specs)->Ok_0[i]));
            law_a_rung_is_usable(specs[i]);
        }
    }
}

/// Whether a rung with this name asks for this rate, and the capture runs at
/// another.
pub open spec fn asked_in_vain(
    rungs: Seq<RungView>,
    framerate: CaptureFramerate,
    entry: (Seq<char>, u32),
) -> bool {
    exists|i: int|
        0 <= i < rungs.len() && misses(#[trigger] rungs[i], framerate) && entry == (
            rungs[i].name,
            rungs[i].framerate->0,
        )
}

/// A rung is reported if and only if it asks for another rate than the capture
/// runs at, and nothing is reported of a capture that runs at its own rate.
pub proof fn law_unmet_rates_are_exact(rungs: Seq<RungView>, framerate: CaptureFramerate)
    ensures
        forall|i: int|
            0 <= i < rungs.len() && misses(#[trigger] rungs[i], framerate) ==> unmet_of(
                rungs,
                framerate,
            ).contains((rungs[i].name, rungs[i].framerate->0)),
        forall|k: int|
            0 <= k < unmet_of(rungs, framerate).len() ==> asked_in_vain(
                rungs,
                framerate,
                #[trigger] unmet_of(rungs, framerate)[k],
            ),
        framerate is Device ==> unmet_of(rungs, framerate).len() == 0,
    decreases rungs.len(),
{
    if rungs.len() > 0 {
        let before = rungs.drop_last();
        let got = unmet_of(rungs, framerate);
        let past = unmet_of(before, framerate);
        law_unmet_rates_are_exact(before, framerate);
        assert(rungs.last() == rungs[rungs.len() - 1]);
        assert forall|i: int|
            0 <= i < rungs.len() && misses(#[trigger] rungs[i], framerate) implies got.contains(
            (rungs[i].name, rungs[i].framerate->0),
        ) by {
            if i < rungs.len() - 1 {
                assert(before[i] == rungs[i]);
                let k = choose|k: int|
                    0 <= k < past.len() && past[k] == (rungs[i].name, rungs[i].framerate->0);
                assert(got[k] == (rungs[i].name, rungs[i].framerate->0));
            } else {
                assert(got[got.len() - 1] == (rungs[i].name, rungs[i].framerate->0));
            }
        }
        assert forall|k: int| 0 <= k < got.len() implies asked_in_vain(
            rungs,
            framerate,
            #[trigger] got[k],
        ) by {
            if k < past.len() {
                assert(got[k] == past[k]);
                assert(asked_in_vain(before, framerate, past[k]));
                let i = choose|i: int|
                    0 <= i < before.len() && misses(#[trigger] before[i], framerate) && past[k] == (
                        before[i].name,
                        before[i].framerate->0,
                    );
                assert(before[i] == rungs[i]);
                assert(misses(rungs[i], framerate));
            } else {
                assert(misses(rungs[rungs.len() - 1], framerate));
            }
        }
    }
}

/// A parsed size has even dimensions.
pub proof fn law_sizes_are_even(spec: Seq<char>)
    requires
        size_of(spec) is Some,
    ensures
        size_of(spec)->0.width % 2 == 0,
        size_of(spec)->0.height % 2 == 0,
{
}

/// The largest rung keeps the whole bitrate, where that is no less than the
/// floor.
pub proof fn law_the_largest_rung_keeps_the_bitrate(bitrate: nat, largest: nat)
    requires
        bitrate >= BITRATE_FLOOR,
    ensures
        share(bitrate, largest, largest) == bitrate,
{
    if largest > 0 {
        assert(bitrate * largest / largest == bitrate) by (nonlinear_arith)
            requires
                largest > 0,
        ;
    }
}

/// A rung with more pixels gets no less of the bitrate, and every rung of a
/// ladder gets a usable rate.
pub proof fn law_shares_follow_the_pixel_count(bitrate: nat, less: nat, more: nat, largest: nat)
    requires
        less <= more <= largest,
        largest > 0,
    ensures
        share(bitrate, less, largest) <= share(bitrate, more, largest),
        share(bitrate, less, largest) >= BITRATE_FLOOR,
{
    assert(bitrate * less / largest <= bitrate * more / largest) by (nonlinear_arith)
        requires
            less <= more,
            largest > 0,
    ;
}

proof fn lemma_no_mark(n: nat, set: Seq<char>)
    requires
        forall|c: char| '0' <= c <= '9' ==> !set.contains(c),
    ensures
        forall|i: int| 0 <= i < text::decimal(n).len() ==> !set.contains(#[trigger] text::decimal(n)[i]),
{
    text::law_a_decimal_reads_back(n);
}

/// A text splits where its first part holds no separator.
proof fn lemma_split_there(left: Seq<char>, mark: char, right: Seq<char>, set: Seq<char>)
    requires
        set.contains(mark),
        forall|i: int| 0 <= i < left.len() ==> !set.contains(#[trigger] left[i]),
    ensures
        text::split(left.push(mark) + right, set) == Some((left, right)),
{
    let whole = left.push(mark) + right;
    let at = left.len();
    assert(whole[at as int] == mark);
    assert forall|j: int| 0 <= j < at implies !set.contains(#[trigger] whole[j]) by {
        assert(whole[j] == left[j]);
    }
    text::lemma_first_at(whole, set, at);
    assert(whole.take(at as int) =~= left);
    assert(whole.skip(at as int + 1) =~= right);
}

/// A text without a separator does not split.
proof fn lemma_no_split(whole: Seq<char>, set: Seq<char>)
    requires
        forall|i: int| 0 <= i < whole.len() ==> !set.contains(#[trigger] whole[i]),
    ensures
        text::split(whole, set) is None,
{
    text::lemma_first_at(whole, set, whole.len());
}

/// A size that is written as width and height is that size, each side rounded up
/// to an even number.
pub proof fn law_a_size_is_read_as_written(width: u32, height: u32)
    requires
        width < u32::MAX,
        height < u32::MAX,
    ensures
        ({
            let small = size_of(
                text::decimal(width as nat).push('x') + text::decimal(height as nat),
            );
            let capital = size_of(
                text::decimal(width as nat).push('X') + text::decimal(height as nat),
            );
            &&& small == capital
            &&& small matches Some(size) && {
                &&& size.width == width || size.width == width + 1
                &&& size.height == height || size.height == height + 1
                &&& size.width % 2 == 0 && size.height % 2 == 0
            }
        }),
{
    let set = seq!['x', 'X'];
    assert(set[0] == 'x' && set[1] == 'X');
    lemma_no_mark(width as nat, set);
    lemma_split_there(text::decimal(width as nat), 'x', text::decimal(height as nat), set);
    lemma_split_there(text::decimal(width as nat), 'X', text::decimal(height as nat), set);
    text::law_a_decimal_reads_back(width as nat);
    text::law_a_decimal_reads_back(height as nat);
}

/// A size that is written as a height is that height, rounded up to an even
/// number, at the width that is nearest to sixteen by nine, made even too.
pub proof fn law_a_height_is_sixteen_by_nine(height: u32)
    requires
        height <= 100_000,
    ensures
        ({
            let small = size_of(text::decimal(height as nat).push('p'));
            &&& small == size_of(text::decimal(height as nat).push('P'))
            &&& small matches Some(size) && {
                &&& size.height == height || size.height == height + 1
                &&& size.width % 2 == 0 && size.height % 2 == 0
                &&& -4 <= 9 * size.width - 16 * height <= 13
            }
        }),
{
    let digits = text::decimal(height as nat);
    let set = seq!['x', 'X'];
    text::law_a_decimal_reads_back(height as nat);
    let small = digits.push('p');
    let capital = digits.push('P');
    assert(small.drop_last() =~= digits && capital.drop_last() =~= digits);
    assert forall|i: int| 0 <= i < small.len() implies !set.contains(#[trigger] small[i]) by {
        if i < digits.len() {
            assert(small[i] == digits[i]);
        }
    }
    assert forall|i: int| 0 <= i < capital.len() implies !set.contains(#[trigger] capital[i]) by {
        if i < digits.len() {
            assert(capital[i] == digits[i]);
        }
    }
    lemma_no_split(small, set);
    lemma_no_split(capital, set);
}

/// A rung that is written as a name, a size and a rate has that name, that size
/// and that rate, where the rate is one that a backend takes.
pub proof fn law_a_rung_is_read_as_written(name: Seq<char>, size: Seq<char>, fps: u32)
    requires
        name.len() > 0,
        !name.contains(':'),
        !name.contains('@'),
        !size.contains('@'),
        size_of(size) is Some,
    ensures
        ({
            let shape = name.push(':') + size;
            let rated = shape.push('@') + text::decimal(fps as nat);
            &&& rung_of(shape) == Ok::<RungView, Seq<char>>(
                RungView { name, size: size_of(size), framerate: None },
            )
            &&& 1 <= fps <= 1000 ==> rung_of(rated) == Ok::<RungView, Seq<char>>(
                RungView { name, size: size_of(size), framerate: Some(fps) },
            )
            &&& fps == 0 || fps > 1000 ==> rung_of(rated) is Err
        }),
{
    let shape = name.push(':') + size;
    let at = seq!['@'];
    let colon = seq![':'];
    assert(at[0] == '@' && colon[0] == ':');
    assert forall|i: int| 0 <= i < shape.len() implies !at.contains(#[trigger] shape[i]) by {
        if i < name.len() {
            assert(shape[i] == name[i] && name.contains(name[i]));
        } else if i > name.len() {
            assert(shape[i] == size[i - name.len() - 1]);
            assert(size.contains(size[i - name.len() - 1]));
        }
    }
    assert forall|i: int| 0 <= i < name.len() implies !colon.contains(#[trigger] name[i]) by {
        assert(name.contains(name[i]));
    }
    lemma_no_split(shape, at);
    lemma_split_there(shape, '@', text::decimal(fps as nat), at);
    lemma_split_there(name, ':', size, colon);
    text::law_a_decimal_reads_back(fps as nat);
}

/// A rung without a colon names itself, and has a size where its name is one. A
/// rung without a name is refused.
pub proof fn law_a_bare_rung_names_itself(name: Seq<char>, size: Seq<char>)
    requires
        !name.contains(':'),
        !name.contains('@'),
    ensures
        name.len() > 0 ==> rung_of(name) == Ok::<RungView, Seq<char>>(
            RungView { name, size: size_of(name), framerate: None },
        ),
        name.len() == 0 ==> rung_of(name) is Err,
        !size.contains('@') ==> rung_of(seq![':'] + size) is Err,
        !size.contains('@') && size_of(size) is None ==> rung_of(name.push(':') + size) is Err,
{
    let at = seq!['@'];
    let colon = seq![':'];
    assert(at[0] == '@' && colon[0] == ':');
    assert forall|i: int| 0 <= i < name.len() implies !colon.contains(#[trigger] name[i])
        && !at.contains(name[i]) by {
        assert(name.contains(name[i]));
    }
    lemma_no_split(name, at);
    lemma_no_split(name, colon);
    if !size.contains('@') {
        let empty = Seq::<char>::empty();
        assert(seq![':'] + size =~= empty.push(':') + size);
        lemma_split_there(empty, ':', size, colon);
        lemma_split_there(name, ':', size, colon);
        let whole = empty.push(':') + size;
        assert forall|i: int| 0 <= i < whole.len() implies !at.contains(#[trigger] whole[i]) by {
            if i > 0 {
                assert(whole[i] == size[i - 1] && size.contains(size[i - 1]));
            }
        }
        lemma_no_split(whole, at);
        let shape = name.push(':') + size;
        assert forall|i: int| 0 <= i < shape.len() implies !at.contains(#[trigger] shape[i]) by {
            if i < name.len() {
                assert(shape[i] == name[i] && name.contains(name[i]));
            } else if i > name.len() {
                assert(shape[i] == size[i - name.len() - 1]);
                assert(size.contains(size[i - name.len() - 1]));
            }
        }
        lemma_no_split(shape, at);
    }
}

/// A ladder has one rung per specifier, in order, and fails exactly where one of
/// them does. Without a specifier there is one rung at the source's own size.
pub proof fn law_rungs_follow_their_specifiers(specs: Seq<Seq<char>>, at: int)
    requires
        0 <= at < specs.len(),
    ensures
        ladder_rungs(specs) is Ok ==> {
            &&& ladder_rungs(specs)->Ok_0.len() == specs.len()
            &&& rung_of(specs[at]) == Ok::<RungView, Seq<char>>(ladder_rungs(specs)->Ok_0[at])
        },
        rung_of(specs[at]) is Err ==> ladder_rungs(specs) is Err,
        ladder_rungs(Seq::<Seq<char>>::empty()) matches Ok(rungs) && rungs.len() == 1
            && rungs[0].name == "video"@ && rungs[0].size is None && rungs[0].framerate is None,
{
    if rungs_of(specs) is Ok {
        lemma_every_rung_is_usable(specs);
        let rungs = rungs_of(specs)->Ok_0;
        assert(rung_of(specs[at]) == Ok::<RungView, Seq<char>>(rungs[at]));
    }
}

/// Every rendition is encoded with the codec, the encoder and the keyframes that
/// the flags ask for, under its rung's name and at its size. Only `--bitrate`
/// gives it a bitrate.
pub proof fn law_a_rendition_follows_its_rung_and_the_flags(
    args: CaptureArgs,
    rungs: Seq<RungView>,
    at: int,
)
    requires
        0 <= at < rungs.len(),
    ensures
        ({
            let one = encoded(args, rungs)[at];
            &&& encoded(args, rungs).len() == rungs.len()
            &&& one.name == rungs[at].name
            &&& one.size == rungs[at].size
            &&& one.codec == args.codec
            &&& one.encoder == args.encoder@
            &&& one.keyframe_interval == args.keyframe_interval
            &&& one.bitrate is Some <==> args.bitrate is Some
            &&& args.bitrate is Some && rungs[at].size is None ==> one.bitrate
                == args.bitrate
        }),
{
}

/// The largest rung is one of the rungs and no rung is larger. A rung at the
/// source's own size leaves it unknown.
pub proof fn law_the_largest_area_is_a_rungs(rungs: Seq<RungView>)
    ensures
        match largest_area(rungs) {
            Some(area) => {
                &&& forall|i: int|
                    0 <= i < rungs.len() ==> (#[trigger] rungs[i]).size is Some
                        && rungs[i].size->0.area() <= area
                &&& area == 0 || exists|i: int|
                    0 <= i < rungs.len() && (#[trigger] rungs[i]).size is Some
                        && rungs[i].size->0.area() == area
            },
            None => exists|i: int| 0 <= i < rungs.len() && (#[trigger] rungs[i]).size is None,
        },
    decreases rungs.len(),
{
    if rungs.len() > 0 {
        let rest = rungs.drop_last();
        let last = rungs.len() - 1;
        law_the_largest_area_is_a_rungs(rest);
        assert forall|i: int| 0 <= i < rest.len() implies rest[i] == #[trigger] rungs[i] by {}
        match largest_area(rest) {
            Some(area) => {
                if rungs[last].size is None {
                    assert(largest_area(rungs) is None);
                } else if area > 0 && area >= rungs[last].size->0.area() {
                    let i = choose|i: int|
                        0 <= i < rest.len() && (#[trigger] rest[i]).size is Some
                            && rest[i].size->0.area() == area;
                    assert(rungs[i].size->0.area() == area);
                } else {
                    assert(rungs[last].size->0.area() == largest_area(rungs)->0);
                }
            },
            None => {
                let i = choose|i: int| 0 <= i < rest.len() && (#[trigger] rest[i]).size is None;
                assert(rungs[i].size is None);
            },
        }
    }
}

/// A rung's share of the bitrate is its share of the pixels, and no more than the
/// whole where that is above the floor.
pub proof fn law_a_share_is_proportional(bitrate: nat, area: nat, largest: nat)
    requires
        0 < area <= largest,
    ensures
        share(bitrate, area, largest) > BITRATE_FLOOR ==> {
            &&& share(bitrate, area, largest) * largest <= bitrate * area
            &&& bitrate * area < (share(bitrate, area, largest) + 1) * largest
        },
        bitrate >= BITRATE_FLOOR ==> share(bitrate, area, largest) <= bitrate,
{
    lemma_share_bound(bitrate, area, largest);
    let part = bitrate * area / largest;
    assert(part * largest <= bitrate * area < (part + 1) * largest) by (nonlinear_arith)
        requires
            largest > 0,
            part == bitrate * area / largest,
    ;
}

/// Without a rate from a flag or a rung, a source that heeds one is asked for
/// thirty frames a second and another is left alone. Only the cameras of macOS do
/// not heed one.
pub proof fn law_nobody_asked_for_a_rate(
    rungs: Seq<RungView>,
    id: Option<Seq<char>>,
    pattern: crate::source_spec::TestPattern,
    macos: bool,
)
    requires
        highest(rungs) is None,
    ensures
        settled(None, rungs, true) == Ok::<CaptureFramerate, Seq<char>>(
            CaptureFramerate::Requested { fps: 30, origin: FramerateOrigin::Default },
        ),
        settled(None, rungs, false) == Ok::<CaptureFramerate, Seq<char>>(CaptureFramerate::Device),
        heeds_framerate(VideoSourceView::Camera(id), macos) == !macos,
        heeds_framerate(VideoSourceView::Display(id), macos),
        heeds_framerate(VideoSourceView::Test(pattern), macos),
        heeds_framerate(VideoSourceView::Nothing, macos),
{
}

/// A flag that no backend takes is refused, and one that a rung exceeds is said
/// to cap the ladder.
pub proof fn law_a_flag_is_in_range_and_caps(fps: u32, rungs: Seq<RungView>, heeds: bool)
    ensures
        fps == 0 || fps > 1000 ==> settled(Some(fps), rungs, heeds) is Err,
        1 <= fps <= 1000 ==> (settled(Some(fps), rungs, heeds)
            matches Ok(CaptureFramerate::Requested { fps: got, origin }) && got == fps && (origin
            == FramerateOrigin::Capped <==> highest(rungs) is Some && highest(rungs)->0 > fps) && (
        origin == FramerateOrigin::Flag <==> !(highest(rungs) is Some && highest(rungs)->0 > fps))),
{
}

/// A ladder is made of its rungs: their renditions, the rate that they and the
/// flag settle, and the rungs that asked for another.
pub proof fn law_a_ladder_is_made_of_its_rungs(args: CaptureArgs, heeds: bool)
    requires
        ladder_of(args, heeds) is Ok,
    ensures
        ({
            let ladder = ladder_of(args, heeds)->Ok_0;
            &&& args.fps matches Some(fps) ==> ladder.framerate.requested() == Some(fps)
            &&& forall|k: int|
                0 <= k < ladder.unmet.len() ==> ladder.framerate.requested() is Some
                    && ladder.framerate.requested()->0 != (#[trigger] ladder.unmet[k]).1
        }),
{
    let rungs = ladder_rungs(views(args.renditions@))->Ok_0;
    let framerate = ladder_of(args, heeds)->Ok_0.framerate;
    law_unmet_rates_are_exact(rungs, framerate);
    let unmet = unmet_of(rungs, framerate);
    assert forall|k: int| 0 <= k < unmet.len() implies framerate.requested() is Some
        && framerate.requested()->0 != (#[trigger] unmet[k]).1 by {
        assert(asked_in_vain(rungs, framerate, unmet[k]));
    }
}

/// A text without an `x` and without a `p` at its end spells no size, and neither
/// does one with no number before the `p`.
pub proof fn law_other_texts_spell_no_size(spec: Seq<char>)
    requires
        forall|i: int| 0 <= i < spec.len() ==> #[trigger] spec[i] != 'x' && spec[i] != 'X',
        spec.len() > 0 && (spec.last() == 'p' || spec.last() == 'P') ==> text::u32_of(
            spec.drop_last(),
        ) is None,
    ensures
        size_of(spec) is None,
{
    let set = seq!['x', 'X'];
    assert forall|i: int| 0 <= i < spec.len() implies !set.contains(#[trigger] spec[i]) by {
        if set.contains(spec[i]) {
            let at = set.index_of(spec[i]);
            assert(set[at] == spec[i]);
        }
    }
    lemma_no_split(spec, set);
}

} // verus!
