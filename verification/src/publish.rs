//! `irl publish`: publishes a capture device or a media file over iroh.
//!
//! Capture sources are encoded into the renditions `--renditions` lists. A
//! `file:` source is republished without re-encoding.

use vstd::prelude::*;

use crate::args::{CaptureArgs, PublishArgs};
use crate::call::Arrival;
use crate::import::{self, FileSource, FileSourceView};
use crate::overlay::DebugOverlay;
use crate::source_spec::{self, RpicamMode, TestPattern, VideoSourceSpec, VideoSourceView};
use crate::stats::StatCategory;
use crate::text;

verus! {

/// How `irl publish` goes about it.
#[derive(Debug)]
pub enum PublishPlan {
    /// Republish a file.
    File(FileSource),
    /// Capture, and encode.
    Capture {
        /// Whether to warn that `--transcode` is ignored.
        ignores_transcode: bool,
        /// Whether to open a preview window.
        preview: bool,
    },
}

/// A [`PublishPlan`] with its texts as character sequences.
pub enum PublishPlanView {
    File(FileSourceView),
    Capture { ignores_transcode: bool, preview: bool },
}

impl View for PublishPlan {
    type V = PublishPlanView;

    open spec fn view(&self) -> PublishPlanView {
        match *self {
            PublishPlan::File(source) => PublishPlanView::File(source@),
            PublishPlan::Capture { ignores_transcode, preview } => PublishPlanView::Capture {
                ignores_transcode,
                preview,
            },
        }
    }
}

/// How `spec` is published, where `is_file` tells whether a `file:` path names
/// a file.
pub open spec fn publish_plan(spec: VideoSourceView, args: PublishArgs, is_file: bool) -> Result<
    PublishPlanView,
    Seq<char>,
> {
    match spec {
        VideoSourceView::File { path, looping } => match import::file_source(
            path,
            looping,
            args.format,
            args.transcode,
            is_file,
        ) {
            Err(text) => Err(text),
            Ok(source) => if args.preview {
                Err(
                    "--preview is not available for a file source: its tracks are republished as they are, so there are no raw frames to draw"@,
                )
            } else {
                Ok(PublishPlanView::File(source))
            },
        },
        _ => if spec == VideoSourceView::Rpicam(RpicamMode::Encoded) && args.preview {
            Err(
                "--preview is not available for --video rpicam: rpicam-vid hands over H.264 it has already encoded, so there are no raw frames to draw. --video rpicam:raw captures pictures and can be previewed"@,
            )
        } else {
            Ok(
                PublishPlanView::Capture {
                    ignores_transcode: args.transcode,
                    preview: args.preview,
                },
            )
        },
    }
}

/// Decides how the source `spec` is published.
///
/// Fails for a file that is not there or cannot be looped, and for a preview of
/// a source that arrives encoded. `rpicam:raw` captures pictures, so it can be
/// previewed.
pub fn plan(spec: VideoSourceSpec, args: &PublishArgs, is_file: bool) -> (res: Result<
    PublishPlan,
    String,
>)
    ensures
        text::outcome(res) == publish_plan(spec@, *args, is_file),
{
    match spec {
        VideoSourceSpec::File { path, looping } => match FileSource::new(
            path,
            looping,
            args,
            is_file,
        ) {
            Err(err) => Err(err),
            Ok(source) => if args.preview {
                Err(
                    "--preview is not available for a file source: its tracks are republished as they are, so there are no raw frames to draw".to_owned(),
                )
            } else {
                Ok(PublishPlan::File(source))
            },
        },
        other => {
            let encoded: bool = match other {
                VideoSourceSpec::Rpicam(RpicamMode::Encoded) => true,
                _ => false,
            };
            if encoded && args.preview {
                return Err(
                    "--preview is not available for --video rpicam: rpicam-vid hands over H.264 it has already encoded, so there are no raw frames to draw. --video rpicam:raw captures pictures and can be previewed".to_owned(),
                );
            }
            Ok(PublishPlan::Capture { ignores_transcode: args.transcode, preview: args.preview })
        },
    }
}

/// Returns the names of what was opened, for the log.
///
/// `--test-source` overrides both flags.
pub fn opened_names(args: &CaptureArgs) -> (res: (&str, &str))
    ensures
        args.test_source ==> res.0@ == "test"@ && res.1@ == "test"@,
        !args.test_source ==> res.0@ == args.video@ && res.1@ == args.audio@,
{
    if args.test_source {
        ("test", "test")
    } else {
        (args.video.as_str(), args.audio.as_str())
    }
}

/// A source the picker can switch to.
///
/// Only defaults are offered. `--video` picks a specific device. The other
/// capture and encoding flags apply to every entry.
#[derive(Debug, Clone, Copy, PartialEq, Eq, Structural)]
pub enum PickedSource {
    Camera,
    Screen,
    Test,
    Nothing,
}

/// The entry that a source matches, if any.
pub open spec fn entry_of(spec: VideoSourceView) -> Option<PickedSource> {
    match spec {
        VideoSourceView::Camera(None) => Some(PickedSource::Camera),
        VideoSourceView::Display(None) => Some(PickedSource::Screen),
        VideoSourceView::Test(_) => Some(PickedSource::Test),
        VideoSourceView::Nothing => Some(PickedSource::Nothing),
        _ => None,
    }
}

impl PickedSource {
    /// The text of the entry.
    pub open spec fn title(self) -> Seq<char> {
        match self {
            PickedSource::Camera => "Camera"@,
            PickedSource::Screen => "Screen"@,
            PickedSource::Test => "Test pattern"@,
            PickedSource::Nothing => "No video"@,
        }
    }

    /// The `--video` specifier of the entry.
    pub open spec fn specifier(self) -> Seq<char> {
        match self {
            PickedSource::Camera => "cam"@,
            PickedSource::Screen => "screen"@,
            PickedSource::Test => "test"@,
            PickedSource::Nothing => "none"@,
        }
    }

    /// Returns every entry.
    pub fn all() -> (res: [PickedSource; 4])
        ensures
            res@ == seq![
                PickedSource::Camera,
                PickedSource::Screen,
                PickedSource::Test,
                PickedSource::Nothing,
            ],
    {
        let all = [
            PickedSource::Camera,
            PickedSource::Screen,
            PickedSource::Test,
            PickedSource::Nothing,
        ];
        assert(all@ =~= seq![
            PickedSource::Camera,
            PickedSource::Screen,
            PickedSource::Test,
            PickedSource::Nothing,
        ]);
        all
    }

    /// Returns the text of this entry.
    pub fn label(self) -> (res: &'static str)
        ensures
            res@ == self.title(),
    {
        match self {
            PickedSource::Camera => "Camera",
            PickedSource::Screen => "Screen",
            PickedSource::Test => "Test pattern",
            PickedSource::Nothing => "No video",
        }
    }

    /// Returns the `--video` specifier of this entry.
    pub fn spec(self) -> (res: &'static str)
        ensures
            res@ == self.specifier(),
    {
        match self {
            PickedSource::Camera => "cam",
            PickedSource::Screen => "screen",
            PickedSource::Test => "test",
            PickedSource::Nothing => "none",
        }
    }

    /// Returns the entry matching a `--video` specifier, if any.
    ///
    /// Specific devices, windows, and apps have no entry. The picker then shows
    /// the flag text.
    pub fn from_spec(spec: &VideoSourceSpec) -> (res: Option<PickedSource>)
        ensures
            res == entry_of(spec@),
    {
        match spec {
            VideoSourceSpec::Camera(None) => Some(PickedSource::Camera),
            VideoSourceSpec::Display(None) => Some(PickedSource::Screen),
            VideoSourceSpec::Test(_) => Some(PickedSource::Test),
            VideoSourceSpec::Nothing => Some(PickedSource::Nothing),
            _ => None,
        }
    }
}

/// Creates the stats overlay of the window.
pub fn overlay() -> (res: DebugOverlay)
    ensures
        res.wf(),
        res@.visible,
        res@.categories == seq![(StatCategory::Capture, false), (StatCategory::Net, false)],
{
    let overlay = DebugOverlay::new(&[StatCategory::Capture, StatCategory::Net]);
    assert(overlay@.categories =~= seq![
        (StatCategory::Capture, false),
        (StatCategory::Net, false),
    ]);
    overlay
}

/// The source combo.
///
/// A switch opens the new source, then sets it on the broadcast in place of the
/// old one. If the new source fails to open, the old one keeps publishing.
#[derive(Debug)]
pub struct SourcePicker {
    selected: Option<PickedSource>,
    capture: CaptureArgs,
    error: Option<String>,
    opening: bool,
}

/// What a switch has to do.
#[derive(Debug)]
pub enum Switch {
    /// Take the video off the broadcast.
    Clear,
    /// Open what these flags ask for and set it.
    Open(CaptureArgs),
}

impl SourcePicker {
    /// The entry that is selected.
    pub closed spec fn choice(self) -> Option<PickedSource> {
        self.selected
    }

    /// The flags the window was opened with.
    pub closed spec fn flags(self) -> CaptureArgs {
        self.capture
    }

    /// The text of the last failure.
    pub closed spec fn failure(self) -> Option<Seq<char>> {
        text::opt_text(self.error)
    }

    /// Whether a switch is in flight.
    pub closed spec fn busy(self) -> bool {
        self.opening
    }

    /// Creates a picker for what `capture` publishes.
    pub fn new(capture: CaptureArgs) -> (res: Self)
        ensures
            res.flags() == capture,
            res.failure() is None,
            !res.busy(),
            res.choice() == match capture.video_of(true) {
                Ok(spec) => entry_of(spec),
                Err(_) => None,
            },
    {
        let selected: Option<PickedSource> = match capture.video_source() {
            Ok(spec) => PickedSource::from_spec(&spec),
            Err(_) => None,
        };
        SourcePicker { selected, capture, error: None, opening: false }
    }

    /// Returns the text of the combo: the entry, or the flag while no entry
    /// matches it.
    pub fn label(&self) -> (res: &str)
        ensures
            res@ == match self.choice() {
                Some(source) => source.title(),
                None => self.flags().video@,
            },
    {
        match self.selected {
            Some(source) => source.label(),
            None => self.capture.video.as_str(),
        }
    }

    /// Returns the text of the last failure.
    pub fn error(&self) -> (res: Option<&str>)
        ensures
            text::opt_str(res) == self.failure(),
    {
        match &self.error {
            Some(error) => Some(error.as_str()),
            None => None,
        }
    }

    /// Returns whether a switch is in flight.
    pub fn is_opening(&self) -> (res: bool)
        ensures
            res == self.busy(),
    {
        self.opening
    }

    /// Takes the click on an entry.
    ///
    /// Returns what to do, if that changed the selection. A new switch replaces
    /// one still in flight.
    pub fn pick(&mut self, source: PickedSource) -> (res: Option<Switch>)
        ensures
            final(self).flags() == old(self).flags(),
            final(self).choice() == Some(source),
            old(self).choice() == Some(source) ==> res is None && final(self).failure() == old(
                self,
            ).failure() && final(self).busy() == old(self).busy(),
            old(self).choice() != Some(source) ==> {
                &&& final(self).failure() is None
                &&& final(self).busy()
                &&& if source is Nothing {
                    res matches Some(Switch::Clear)
                } else {
                    &&& res matches Some(Switch::Open(args))
                    &&& args.video@ == source.specifier()
                    &&& !args.test_source
                    &&& args.same_but_video(old(self).flags())
                }
            },
    {
        let unchanged: bool = match self.selected {
            Some(selected) => selected == source,
            None => false,
        };
        if unchanged {
            return None;
        }
        self.selected = Some(source);
        self.error = None;
        self.opening = true;
        if let PickedSource::Nothing = source {
            return Some(Switch::Clear);
        }
        let mut args = self.capture.clone();
        args.video = source.spec().to_owned();
        args.test_source = false;
        Some(Switch::Open(args))
    }

    /// Collects a finished switch, and returns whether the frames changed.
    pub fn poll(&mut self, arrived: Arrival<Result<(), String>>) -> (res: bool)
        ensures
            final(self).flags() == old(self).flags(),
            final(self).choice() == old(self).choice(),
            if !old(self).busy() || arrived is Empty {
                res == false && final(self).busy() == old(self).busy() && final(self).failure()
                    == old(self).failure()
            } else {
                &&& !final(self).busy()
                &&& match arrived {
                    Arrival::Ready(Ok(_)) => res && final(self).failure() == old(self).failure(),
                    Arrival::Ready(Err(text)) => !res && final(self).failure() == Some(text@),
                    _ => !res && final(self).failure() == Some("the source switch was abandoned"@),
                }
            },
    {
        if !self.opening {
            return false;
        }
        let outcome: Result<(), String> = match arrived {
            Arrival::Empty => return false,
            Arrival::Closed => Err("the source switch was abandoned".to_owned()),
            Arrival::Ready(outcome) => outcome,
        };
        self.opening = false;
        match outcome {
            Ok(_) => true,
            Err(err) => {
                self.error = Some(err);
                false
            },
        }
    }
}

/// Each entry is the one its own specifier matches.
pub proof fn law_entries_match_their_specifier(source: PickedSource)
    ensures
        source_spec::video_source(source.specifier(), None, None, true) is Ok,
        entry_of(source_spec::video_source(source.specifier(), None, None, true)->Ok_0) == Some(
            source,
        ),
{
    reveal_strlit("cam");
    reveal_strlit("camera");
    reveal_strlit("screen");
    reveal_strlit("display");
    reveal_strlit("window");
    reveal_strlit("app");
    reveal_strlit("rpicam");
    reveal_strlit("picam");
    reveal_strlit("test");
    reveal_strlit("file");
    reveal_strlit("none");
    assert("test"@.len() == 4 && "none"@.len() == 4 && "file"@.len() == 4 && "cam"@.len() == 3
        && "camera"@.len() == 6 && "screen"@.len() == 6 && "display"@.len() == 7 && "window"@.len()
        == 6 && "app"@.len() == 3 && "rpicam"@.len() == 6 && "picam"@.len() == 5);
    assert("none"@[0] != "test"@[0] && "none"@[0] != "file"@[0] && "test"@[0] != "file"@[0]);
    assert("screen"@[0] != "camera"@[0]);
}

/// Whatever can be previewed has raw frames to draw.
pub proof fn law_a_preview_has_frames(spec: VideoSourceView, args: PublishArgs, is_file: bool)
    requires
        publish_plan(spec, args, is_file) is Ok,
        args.preview,
    ensures
        !(spec is File),
        spec != VideoSourceView::Rpicam(RpicamMode::Encoded),
{
}

/// A file is republished as itself where it can be opened, and never previewed.
/// Anything else is captured, previewed where that is asked for.
pub proof fn law_a_file_is_republished_and_the_rest_captured(
    spec: VideoSourceView,
    path: Seq<char>,
    looping: bool,
    args: PublishArgs,
    is_file: bool,
)
    ensures
        publish_plan(VideoSourceView::File { path, looping }, args, is_file) is Ok <==> is_file
            && (looping ==> args.transcode) && !args.preview,
        publish_plan(VideoSourceView::File { path, looping }, args, is_file) is Ok ==> (publish_plan(
            VideoSourceView::File { path, looping },
            args,
            is_file,
        )->Ok_0 matches PublishPlanView::File(source) && source.path == path && source.looping
            == looping && source.format == args.format && source.transcode == args.transcode),
        !(spec is File) && !args.preview ==> publish_plan(spec, args, is_file) is Ok,
        !(spec is File) && spec != VideoSourceView::Rpicam(RpicamMode::Encoded) ==> publish_plan(
            spec,
            args,
            is_file,
        ) is Ok,
        !(spec is File) && publish_plan(spec, args, is_file) is Ok ==> (publish_plan(
            spec,
            args,
            is_file,
        )->Ok_0 matches PublishPlanView::Capture { ignores_transcode, preview }
            && ignores_transcode == args.transcode && preview == args.preview),
{
}

/// An entry stands for the default device of its kind. A device that was named
/// has no entry.
pub proof fn law_a_named_device_has_no_entry(id: Seq<char>, mode: RpicamMode)
    ensures
        entry_of(VideoSourceView::Camera(Some(id))) is None,
        entry_of(VideoSourceView::Display(Some(id))) is None,
        entry_of(VideoSourceView::Window(id)) is None,
        entry_of(VideoSourceView::Rpicam(mode)) is None,
        entry_of(VideoSourceView::Camera(None)) == Some(PickedSource::Camera),
        entry_of(VideoSourceView::Display(None)) == Some(PickedSource::Screen),
        entry_of(VideoSourceView::Nothing) == Some(PickedSource::Nothing),
{
}

/// No two entries look the same.
pub proof fn law_entries_have_titles_of_their_own(one: PickedSource, other: PickedSource)
    requires
        one != other,
    ensures
        one.title() != other.title(),
        one.specifier() != other.specifier(),
{
    reveal_strlit("Camera");
    reveal_strlit("Screen");
    reveal_strlit("Test pattern");
    reveal_strlit("No video");
    reveal_strlit("cam");
    reveal_strlit("screen");
    reveal_strlit("test");
    reveal_strlit("none");
    assert("Camera"@[0] == 'C' && "Screen"@[0] == 'S' && "Test pattern"@[0] == 'T');
    assert("No video"@[0] == 'N');
    assert("cam"@[0] == 'c' && "screen"@[0] == 's' && "test"@[0] == 't' && "none"@[0] == 'n');
    assert(one.title()[0] != other.title()[0]);
    assert(one.specifier()[0] != other.specifier()[0]);
}

/// A plan is seen as what it is, with what it holds.
pub proof fn law_a_plan_is_seen_as_it_is(one: PublishPlan)
    ensures
        one matches PublishPlan::File(source) ==> one@ == PublishPlanView::File(source@),
        one matches PublishPlan::Capture { ignores_transcode, preview } ==> one@ == (PublishPlanView::Capture {
                ignores_transcode,
                preview,
            }),
{
}

} // verus!
