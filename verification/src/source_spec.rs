//! Parsing for the `--video` and `--audio` source specifiers.
//!
//! A specifier is a kind and an optional id, such as `cam:2` or
//! `file:clip.mp4`. There is no backend segment: the platform picks the
//! backend for a device.

use vstd::prelude::*;

use crate::text;

verus! {

/// A parsed `--video` specifier.
#[derive(Debug, PartialEq, Eq)]
pub enum VideoSourceSpec {
    /// A camera, by its device id. `None` opens the default.
    Camera(Option<String>),
    /// A whole display. `None` opens the main one.
    ///
    /// On Linux the desktop portal picks, and the id is ignored.
    Display(Option<String>),
    /// A single window, by id. macOS only.
    Window(String),
    /// Every window of one application, by bundle id. macOS only.
    App(String),
    /// The Raspberry Pi camera, driven through `rpicam-vid`.
    Rpicam(RpicamMode),
    /// A generated picture, for publishing without a camera.
    Test(TestPattern),
    /// A media file, imported rather than encoded.
    File {
        /// Path to the file.
        path: String,
        /// Restart at the beginning on end of file.
        looping: bool,
    },
    /// Publish no video.
    Nothing,
}

/// The generated picture `test` and `test:<name>` publish.
#[derive(Debug, Clone, Copy, PartialEq, Eq, Structural)]
pub enum TestPattern {
    /// A sweeping bar, a frame counter, a clock, and a flashing marker.
    Timing,
    /// A moving gradient. Cheap, and different in every frame.
    Gradient,
}

impl Default for TestPattern {
    fn default() -> (res: Self)
        ensures
            res == TestPattern::Timing,
    {
        TestPattern::Timing
    }
}

/// What `rpicam-vid` hands over: `rpicam` or `rpicam:raw`.
#[derive(Debug, Clone, Copy, PartialEq, Eq, Structural)]
pub enum RpicamMode {
    /// H.264 from the Pi's hardware encoder, published unchanged.
    Encoded,
    /// Raw pictures, which are encoded like any other camera's.
    Raw,
}

/// A parsed `--audio` specifier.
#[derive(Debug, PartialEq, Eq)]
pub enum AudioSourceSpec {
    /// An input device, by its id. `None` opens the default microphone.
    Microphone(Option<String>),
    /// Everything the machine is playing. macOS only.
    System,
    /// A generated tone, for publishing without a microphone.
    Test(TestTone),
    /// An audio file, decoded and encoded like any other PCM source.
    File {
        /// Path to the file.
        path: String,
        /// Restart at the beginning on end of file.
        looping: bool,
    },
    /// Publish no audio.
    Nothing,
}

/// The generated tone `test` and `test:<name>` publish.
#[derive(Debug, Clone, Copy, PartialEq, Eq, Structural)]
pub enum TestTone {
    /// A beep every second, silent in between.
    Beeps,
    /// A continuous sine tone. Dropouts are easy to hear.
    Tone,
}

impl Default for TestTone {
    fn default() -> (res: Self)
        ensures
            res == TestTone::Beeps,
    {
        TestTone::Beeps
    }
}

/// A [`VideoSourceSpec`] with its texts as character sequences.
pub enum VideoSourceView {
    Camera(Option<Seq<char>>),
    Display(Option<Seq<char>>),
    Window(Seq<char>),
    App(Seq<char>),
    Rpicam(RpicamMode),
    Test(TestPattern),
    File { path: Seq<char>, looping: bool },
    Nothing,
}

impl View for VideoSourceSpec {
    type V = VideoSourceView;

    open spec fn view(&self) -> VideoSourceView {
        match *self {
            VideoSourceSpec::Camera(id) => VideoSourceView::Camera(text::opt_text(id)),
            VideoSourceSpec::Display(id) => VideoSourceView::Display(text::opt_text(id)),
            VideoSourceSpec::Window(id) => VideoSourceView::Window(id@),
            VideoSourceSpec::App(id) => VideoSourceView::App(id@),
            VideoSourceSpec::Rpicam(mode) => VideoSourceView::Rpicam(mode),
            VideoSourceSpec::Test(pattern) => VideoSourceView::Test(pattern),
            VideoSourceSpec::File { path, looping } => VideoSourceView::File {
                path: path@,
                looping,
            },
            VideoSourceSpec::Nothing => VideoSourceView::Nothing,
        }
    }
}

/// An [`AudioSourceSpec`] with its texts as character sequences.
pub enum AudioSourceView {
    Microphone(Option<Seq<char>>),
    System,
    Test(TestTone),
    File { path: Seq<char>, looping: bool },
    Nothing,
}

impl View for AudioSourceSpec {
    type V = AudioSourceView;

    open spec fn view(&self) -> AudioSourceView {
        match *self {
            AudioSourceSpec::Microphone(id) => AudioSourceView::Microphone(text::opt_text(id)),
            AudioSourceSpec::System => AudioSourceView::System,
            AudioSourceSpec::Test(tone) => AudioSourceView::Test(tone),
            AudioSourceSpec::File { path, looping } => AudioSourceView::File {
                path: path@,
                looping,
            },
            AudioSourceSpec::Nothing => AudioSourceView::Nothing,
        }
    }
}

/// The kind of a specifier: everything before its first colon.
pub open spec fn kind_of(spec: Seq<char>) -> Seq<char> {
    match text::split(spec, seq![':']) {
        Some((kind, _)) => kind,
        None => spec,
    }
}

/// The identifier of a specifier: everything behind its first colon, if any.
pub open spec fn rest_of(spec: Seq<char>) -> Option<Seq<char>> {
    match text::split(spec, seq![':']) {
        Some((_, rest)) => Some(rest),
        None => None,
    }
}

/// Whether a path carries the `:loop` suffix, in any mix of capitals.
pub open spec fn loops(path: Seq<char>) -> bool {
    text::ends(text::ascii_lowercase(path), ":loop"@)
}

/// A path without its `:loop` suffix.
pub open spec fn without_loop(path: Seq<char>) -> Seq<char> {
    if loops(path) {
        path.take(path.len() - 5)
    } else {
        path
    }
}

/// A text in lower case, if there is one.
pub open spec fn lowered(text: Option<Seq<char>>) -> Option<Seq<char>> {
    match text {
        Some(text) => Some(text::lower(text)),
        None => None,
    }
}

/// Whether a form that needs an identifier got none: there is no colon, or
/// nothing behind it.
pub open spec fn missing(rest: Option<Seq<char>>) -> bool {
    match rest {
        Some(rest) => rest.len() == 0,
        None => true,
    }
}

/// Whether `file` got no path: there is no colon, or nothing behind it but the
/// `:loop` suffix.
pub open spec fn pathless(rest: Option<Seq<char>>) -> bool {
    match rest {
        Some(rest) => without_loop(rest).len() == 0,
        None => true,
    }
}

/// What a `--video` specifier stands for.
///
/// `kind` is its kind and `lowered` its identifier, both in lower case, and
/// `rest` is the identifier as it was typed. `rpicam` tells whether this build
/// has the Raspberry Pi camera.
pub open spec fn video_source(
    kind: Seq<char>,
    rest: Option<Seq<char>>,
    lowered: Option<Seq<char>>,
    rpicam: bool,
) -> Result<VideoSourceView, Seq<char>> {
    if kind == "cam"@ || kind == "camera"@ {
        Ok(VideoSourceView::Camera(rest))
    } else if kind == "screen"@ || kind == "display"@ {
        Ok(VideoSourceView::Display(rest))
    } else if kind == "window"@ {
        if missing(rest) {
            Err("window: needs an id (e.g. window:1042)"@)
        } else {
            Ok(VideoSourceView::Window(rest->0))
        }
    } else if kind == "app"@ {
        if missing(rest) {
            Err("app: needs a bundle id (e.g. app:com.apple.Safari)"@)
        } else {
            Ok(VideoSourceView::App(rest->0))
        }
    } else if kind == "rpicam"@ || kind == "picam"@ {
        match lowered {
            None => rpicam_source(RpicamMode::Encoded, rpicam),
            Some(other) => if other == "raw"@ {
                rpicam_source(RpicamMode::Raw, rpicam)
            } else {
                Err(
                    "rpicam: takes no camera id, and the only suffix is ':raw' for uncompressed pictures; got '"@
                        + other + "'"@,
                )
            },
        }
    } else if kind == "test"@ {
        match lowered {
            None => Ok(VideoSourceView::Test(TestPattern::Timing)),
            Some(other) => if other == "timing"@ {
                Ok(VideoSourceView::Test(TestPattern::Timing))
            } else if other == "gradient"@ {
                Ok(VideoSourceView::Test(TestPattern::Gradient))
            } else {
                Err(
                    "test: the patterns are 'timing' (the default) and 'gradient'; got '"@ + other
                        + "'"@,
                )
            },
        }
    } else if kind == "file"@ {
        if pathless(rest) {
            Err("file: needs a path (e.g. file:clip.mp4)"@)
        } else {
            Ok(
                VideoSourceView::File { path: without_loop(rest->0), looping: loops(rest->0) },
            )
        }
    } else if kind == "none"@ {
        Ok(VideoSourceView::Nothing)
    } else {
        Err(
            "unknown video source '"@ + kind
                + "': expected cam, screen, window, app, rpicam, rpicam:raw, file, test, or none"@,
        )
    }
}

/// The Raspberry Pi camera where the build has it, and the reason where not.
pub open spec fn rpicam_source(mode: RpicamMode, rpicam: bool) -> Result<
    VideoSourceView,
    Seq<char>,
> {
    if rpicam {
        Ok(VideoSourceView::Rpicam(mode))
    } else {
        Err(
            "rpicam: this build has no Raspberry Pi camera source; it needs Linux and the 'rpicam' feature"@,
        )
    }
}

/// What an `--audio` specifier stands for.
///
/// `spec` is the whole specifier; the other arguments are as for
/// [`video_source`].
pub open spec fn audio_source(
    spec: Seq<char>,
    kind: Seq<char>,
    rest: Option<Seq<char>>,
    lowered: Option<Seq<char>>,
) -> Result<AudioSourceView, Seq<char>> {
    if kind == "mic"@ || kind == "microphone"@ || kind == "default"@ {
        Ok(AudioSourceView::Microphone(rest))
    } else if kind == "system"@ || kind == "system-audio"@ {
        Ok(AudioSourceView::System)
    } else if kind == "test"@ {
        match lowered {
            None => Ok(AudioSourceView::Test(TestTone::Beeps)),
            Some(other) => if other == "beeps"@ {
                Ok(AudioSourceView::Test(TestTone::Beeps))
            } else if other == "tone"@ {
                Ok(AudioSourceView::Test(TestTone::Tone))
            } else {
                Err("test: the tones are 'beeps' (the default) and 'tone'; got '"@ + other + "'"@)
            },
        }
    } else if kind == "none"@ {
        Ok(AudioSourceView::Nothing)
    } else if kind == "file"@ {
        if pathless(rest) {
            Err("file: needs a path (e.g. file:music.mp3)"@)
        } else {
            Ok(
                AudioSourceView::File { path: without_loop(rest->0), looping: loops(rest->0) },
            )
        }
    } else {
        Ok(AudioSourceView::Microphone(Some(spec)))
    }
}

impl VideoSourceSpec {
    /// Parses a `--video` specifier in a build with the Raspberry Pi camera.
    ///
    /// Fails with a message naming the accepted forms if `spec` is not one of
    /// them, or if a form that needs an identifier was given without one.
    pub fn parse(spec: &str) -> (res: Result<Self, String>)
        ensures
            text::outcome(res) == video_source(
                text::lower(kind_of(spec@)),
                rest_of(spec@),
                lowered(rest_of(spec@)),
                true,
            ),
    {
        Self::parse_for(spec, true)
    }

    /// Parses a `--video` specifier, where `rpicam` tells whether this build
    /// has the Raspberry Pi camera.
    pub fn parse_for(spec: &str, rpicam: bool) -> (res: Result<Self, String>)
        ensures
            text::outcome(res) == video_source(
                text::lower(kind_of(spec@)),
                rest_of(spec@),
                lowered(rest_of(spec@)),
                rpicam,
            ),
    {
        let (kind, rest) = split_once(spec);
        let kind = text::to_lowercase(kind);
        match rest {
            Some(rest) => {
                let lowered = text::to_lowercase(rest);
                Self::of_parts(kind.as_str(), Some(rest), Some(lowered.as_str()), rpicam)
            },
            None => Self::of_parts(kind.as_str(), None, None, rpicam),
        }
    }

    /// Turns the parts of a specifier into a source.
    ///
    /// `kind` and `lowered` are in lower case; `rest` is the identifier as it
    /// was typed.
    pub fn of_parts(kind: &str, rest: Option<&str>, lowered: Option<&str>, rpicam: bool) -> (res:
        Result<Self, String>)
        ensures
            text::outcome(res) == video_source(
                kind@,
                text::opt_str(rest),
                text::opt_str(lowered),
                rpicam,
            ),
    {
        if text::same(kind, "cam") || text::same(kind, "camera") {
            Ok(Self::Camera(text::to_opt_string(rest)))
        } else if text::same(kind, "screen") || text::same(kind, "display") {
            Ok(Self::Display(text::to_opt_string(rest)))
        } else if text::same(kind, "window") {
            match rest {
                Some(id) if !is_empty(id) => Ok(Self::Window(id.to_owned())),
                _ => Err("window: needs an id (e.g. window:1042)".to_owned()),
            }
        } else if text::same(kind, "app") {
            match rest {
                Some(id) if !is_empty(id) => Ok(Self::App(id.to_owned())),
                _ => Err("app: needs a bundle id (e.g. app:com.apple.Safari)".to_owned()),
            }
        } else if text::same(kind, "rpicam") || text::same(kind, "picam") {
            // No id, because `rpicam-vid` picks the camera.
            match lowered {
                None => self::rpicam(RpicamMode::Encoded, rpicam),
                Some(other) => if text::same(other, "raw") {
                    self::rpicam(RpicamMode::Raw, rpicam)
                } else {
                    Err(
                        "rpicam: takes no camera id, and the only suffix is ':raw' for uncompressed pictures; got '".to_owned().concat(
                        other).concat("'"),
                    )
                },
            }
        } else if text::same(kind, "test") {
            match lowered {
                None => Ok(Self::Test(TestPattern::Timing)),
                Some(other) => if text::same(other, "timing") {
                    Ok(Self::Test(TestPattern::Timing))
                } else if text::same(other, "gradient") {
                    Ok(Self::Test(TestPattern::Gradient))
                } else {
                    Err(
                        "test: the patterns are 'timing' (the default) and 'gradient'; got '".to_owned().concat(
                        other).concat("'"),
                    )
                },
            }
        } else if text::same(kind, "file") {
            if let Some(rest) = rest {
                let (path, looping) = split_loop(rest);
                if !is_empty(path) {
                    return Ok(Self::File { path: path.to_owned(), looping });
                }
            }
            Err("file: needs a path (e.g. file:clip.mp4)".to_owned())
        } else if text::same(kind, "none") {
            Ok(Self::Nothing)
        } else {
            Err(
                "unknown video source '".to_owned().concat(kind).concat(
                    "': expected cam, screen, window, app, rpicam, rpicam:raw, file, test, or none",
                ),
            )
        }
    }
}

impl Clone for VideoSourceSpec {
    fn clone(&self) -> (res: Self)
        ensures
            res@ == self@,
    {
        match self {
            Self::Camera(id) => Self::Camera(text::clone_opt(id)),
            Self::Display(id) => Self::Display(text::clone_opt(id)),
            Self::Window(id) => Self::Window(id.clone()),
            Self::App(id) => Self::App(id.clone()),
            Self::Rpicam(mode) => Self::Rpicam(*mode),
            Self::Test(pattern) => Self::Test(*pattern),
            Self::File { path, looping } => Self::File { path: path.clone(), looping: *looping },
            Self::Nothing => Self::Nothing,
        }
    }
}

impl Clone for AudioSourceSpec {
    fn clone(&self) -> (res: Self)
        ensures
            res@ == self@,
    {
        match self {
            Self::Microphone(id) => Self::Microphone(text::clone_opt(id)),
            Self::System => Self::System,
            Self::Test(tone) => Self::Test(*tone),
            Self::File { path, looping } => Self::File { path: path.clone(), looping: *looping },
            Self::Nothing => Self::Nothing,
        }
    }
}

/// Returns the `rpicam` source, or fails with a message that names the missing
/// feature.
fn rpicam(mode: RpicamMode, available: bool) -> (res: Result<VideoSourceSpec, String>)
    ensures
        text::outcome(res) == rpicam_source(mode, available),
{
    if available {
        Ok(VideoSourceSpec::Rpicam(mode))
    } else {
        Err(
            "rpicam: this build has no Raspberry Pi camera source; it needs Linux and the 'rpicam' feature".to_owned(),
        )
    }
}

impl AudioSourceSpec {
    /// Parses an `--audio` specifier.
    ///
    /// An unknown kind is a device name, such as `hw:0,1`. Fails for `file:`
    /// without a path and for an unknown test tone.
    pub fn parse(spec: &str) -> (res: Result<Self, String>)
        ensures
            text::outcome(res) == audio_source(
                spec@,
                text::lower(kind_of(spec@)),
                rest_of(spec@),
                lowered(rest_of(spec@)),
            ),
    {
        let (kind, rest) = split_once(spec);
        let kind = text::to_lowercase(kind);
        match rest {
            Some(rest) => {
                let lowered = text::to_lowercase(rest);
                Self::of_parts(spec, kind.as_str(), Some(rest), Some(lowered.as_str()))
            },
            None => Self::of_parts(spec, kind.as_str(), None, None),
        }
    }

    /// Turns the parts of a specifier into a source.
    ///
    /// `spec` is the whole specifier; `kind` and `lowered` are in lower case,
    /// and `rest` is the identifier as it was typed.
    pub fn of_parts(spec: &str, kind: &str, rest: Option<&str>, lowered: Option<&str>) -> (res:
        Result<Self, String>)
        ensures
            text::outcome(res) == audio_source(
                spec@,
                kind@,
                text::opt_str(rest),
                text::opt_str(lowered),
            ),
    {
        if text::same(kind, "mic") || text::same(kind, "microphone") || text::same(
            kind,
            "default",
        ) {
            Ok(Self::Microphone(text::to_opt_string(rest)))
        } else if text::same(kind, "system") || text::same(kind, "system-audio") {
            Ok(Self::System)
        } else if text::same(kind, "test") {
            match lowered {
                None => Ok(Self::Test(TestTone::Beeps)),
                Some(other) => if text::same(other, "beeps") {
                    Ok(Self::Test(TestTone::Beeps))
                } else if text::same(other, "tone") {
                    Ok(Self::Test(TestTone::Tone))
                } else {
                    Err(
                        "test: the tones are 'beeps' (the default) and 'tone'; got '".to_owned().concat(
                        other).concat("'"),
                    )
                },
            }
        } else if text::same(kind, "none") {
            Ok(Self::Nothing)
        } else if text::same(kind, "file") {
            if let Some(rest) = rest {
                let (path, looping) = split_loop(rest);
                if !is_empty(path) {
                    return Ok(Self::File { path: path.to_owned(), looping });
                }
            }
            Err("file: needs a path (e.g. file:music.mp3)".to_owned())
        } else {
            Ok(Self::Microphone(Some(spec.to_owned())))
        }
    }
}

/// Splits the `:loop` suffix off a file path, if it carries one.
pub fn split_loop(rest: &str) -> (res: (&str, bool))
    ensures
        res.0@ == without_loop(rest@),
        res.1 == loops(rest@),
{
    let len: usize = rest.unicode_len();
    let ghost lower = text::ascii_lowercase(rest@);
    proof {
        reveal_strlit(":loop");
    }
    if len < 5 {
        return (rest, false);
    }
    let ghost tail = lower.skip(len - 5);
    if is_letter(rest.get_char(len - 5), ':', ':') && is_letter(rest.get_char(len - 4), 'l', 'L')
        && is_letter(rest.get_char(len - 3), 'o', 'O') && is_letter(
        rest.get_char(len - 2),
        'o',
        'O',
    ) && is_letter(rest.get_char(len - 1), 'p', 'P') {
        proof {
            lemma_lower(rest@[len - 5]);
            lemma_lower(rest@[len - 4]);
            lemma_lower(rest@[len - 3]);
            lemma_lower(rest@[len - 2]);
            lemma_lower(rest@[len - 1]);
            assert(tail =~= ":loop"@);
        }
        let path = rest.substring_char(0, len - 5);
        assert(path@ =~= rest@.take(len - 5));
        (path, true)
    } else {
        proof {
            if tail == ":loop"@ {
                assert(tail[0] == ':' && tail[1] == 'l' && tail[2] == 'o' && tail[3] == 'o'
                    && tail[4] == 'p');
                assert(tail[0] == text::ascii_lower(rest@[len - 5]));
                assert(tail[1] == text::ascii_lower(rest@[len - 4]));
                assert(tail[2] == text::ascii_lower(rest@[len - 3]));
                assert(tail[3] == text::ascii_lower(rest@[len - 2]));
                assert(tail[4] == text::ascii_lower(rest@[len - 1]));
                lemma_lower(rest@[len - 5]);
                lemma_lower(rest@[len - 4]);
                lemma_lower(rest@[len - 3]);
                lemma_lower(rest@[len - 2]);
                lemma_lower(rest@[len - 1]);
                assert(false);
            }
        }
        (rest, false)
    }
}

/// The characters that `ascii_lower` takes to each character of `:loop`.
proof fn lemma_lower(c: char)
    ensures
        text::ascii_lower(c) == ':' <==> c == ':',
        text::ascii_lower(c) == 'l' <==> c == 'l' || c == 'L',
        text::ascii_lower(c) == 'o' <==> c == 'o' || c == 'O',
        text::ascii_lower(c) == 'p' <==> c == 'p' || c == 'P',
{
}

fn is_empty(text: &str) -> (res: bool)
    ensures
        res == (text@.len() == 0),
{
    text.unicode_len() == 0
}

fn is_letter(c: char, small: char, capital: char) -> (res: bool)
    ensures
        res == (c == small || c == capital),
{
    c == small || c == capital
}

/// Splits a specifier into its kind and the identifier that follows.
///
/// Only the first colon separates, because ids and paths such as `hw:0,1` and
/// `C:\clips\demo.mp4` contain their own.
pub fn split_once(spec: &str) -> (res: (&str, Option<&str>))
    ensures
        res.0@ == kind_of(spec@),
        text::opt_str(res.1) == rest_of(spec@),
{
    let set: [char; 1] = [':'];
    assert(set@ =~= seq![':']);
    match text::split_first(spec, &set) {
        Some((kind, rest)) => (kind, Some(rest)),
        None => (spec, None),
    }
}

/// Only the first colon separates: whatever follows it reaches the identifier
/// with its own colons.
pub proof fn law_identifiers_keep_their_colons(kind: Seq<char>, rest: Seq<char>)
    requires
        !kind.contains(':'),
    ensures
        kind_of(kind.push(':') + rest) == kind,
        rest_of(kind.push(':') + rest) == Some(rest),
{
    let spec = kind.push(':') + rest;
    let at = kind.len();
    assert(seq![':'].contains(spec[at as int])) by {
        assert(seq![':'][0] == ':');
    }
    assert forall|j: int| 0 <= j < at implies !seq![':'].contains(#[trigger] spec[j]) by {
        assert(spec[j] == kind[j]);
        assert(kind.contains(kind[j]));
    }
    text::lemma_first_at(spec, seq![':'], at);
    assert(spec.take(at as int) =~= kind);
    assert(spec.skip(at as int + 1) =~= rest);
}

/// A path that carries `:loop` is the path without it, restarted at its end;
/// stripping takes the suffix and nothing else.
pub proof fn law_the_loop_suffix_is_taken_once(path: Seq<char>)
    ensures
        loops(path + ":loop"@),
        without_loop(path + ":loop"@) == path,
        !loops(path) ==> without_loop(path) == path,
{
    reveal_strlit(":loop");
    let whole = path + ":loop"@;
    let lower = text::ascii_lowercase(whole);
    assert(lower.skip(lower.len() - 5) =~= ":loop"@);
    assert(whole.take(whole.len() - 5) =~= path);
}

/// A kind that is typed in lower case is its own lower case.
proof fn lemma_small_kind(kind: Seq<char>)
    requires
        forall|i: int| 0 <= i < kind.len() ==> 'a' <= #[trigger] kind[i] <= 'z',
    ensures
        text::lower(kind) == kind,
        !kind.contains(':'),
{
    assert(text::lower(kind) =~= kind);
}

/// What a specifier with this kind and identifier stands for in `--video`.
pub open spec fn video_of(kind: Seq<char>, id: Seq<char>, rpicam: bool) -> Result<
    VideoSourceView,
    Seq<char>,
> {
    let spec = kind.push(':') + id;
    video_source(text::lower(kind_of(spec)), rest_of(spec), lowered(rest_of(spec)), rpicam)
}

/// What a specifier with this kind and identifier stands for in `--audio`.
pub open spec fn audio_of(kind: Seq<char>, id: Seq<char>) -> Result<AudioSourceView, Seq<char>> {
    let spec = kind.push(':') + id;
    audio_source(spec, text::lower(kind_of(spec)), rest_of(spec), lowered(rest_of(spec)))
}

/// A video specifier stands for the device with exactly the identifier behind its
/// first colon: a camera, a display, a window or an application.
pub proof fn law_a_video_specifier_carries_its_identifier(id: Seq<char>, rpicam: bool)
    ensures
        video_of("cam"@, id, rpicam) == Ok::<VideoSourceView, Seq<char>>(
            VideoSourceView::Camera(Some(id)),
        ),
        video_of("camera"@, id, rpicam) == video_of("cam"@, id, rpicam),
        video_of("screen"@, id, rpicam) == Ok::<VideoSourceView, Seq<char>>(
            VideoSourceView::Display(Some(id)),
        ),
        video_of("display"@, id, rpicam) == video_of("screen"@, id, rpicam),
        id.len() > 0 ==> video_of("window"@, id, rpicam) == Ok::<VideoSourceView, Seq<char>>(
            VideoSourceView::Window(id),
        ),
        id.len() > 0 ==> video_of("app"@, id, rpicam) == Ok::<VideoSourceView, Seq<char>>(
            VideoSourceView::App(id),
        ),
        id.len() == 0 ==> video_of("window"@, id, rpicam) is Err && video_of("app"@, id, rpicam)
            is Err,
{
    lemma_kinds();
    law_identifiers_keep_their_colons("cam"@, id);
    law_identifiers_keep_their_colons("camera"@, id);
    law_identifiers_keep_their_colons("screen"@, id);
    law_identifiers_keep_their_colons("display"@, id);
    law_identifiers_keep_their_colons("window"@, id);
    law_identifiers_keep_their_colons("app"@, id);
}

/// An audio specifier stands for the microphone with exactly the identifier
/// behind its first colon. A kind that is not known is a device name as a whole.
pub proof fn law_an_audio_specifier_carries_its_identifier(id: Seq<char>)
    ensures
        audio_of("mic"@, id) == Ok::<AudioSourceView, Seq<char>>(
            AudioSourceView::Microphone(Some(id)),
        ),
        audio_of("microphone"@, id) == audio_of("mic"@, id),
        audio_of("default"@, id) == audio_of("mic"@, id),
        audio_of("hw"@, id) == Ok::<AudioSourceView, Seq<char>>(
            AudioSourceView::Microphone(Some("hw"@.push(':') + id)),
        ),
{
    lemma_kinds();
    law_identifiers_keep_their_colons("mic"@, id);
    law_identifiers_keep_their_colons("microphone"@, id);
    law_identifiers_keep_their_colons("default"@, id);
    law_identifiers_keep_their_colons("hw"@, id);
}

/// A file specifier stands for exactly the file behind its first colon, repeated
/// where `:loop` follows, and for no file where no path is left.
pub proof fn law_a_file_specifier_carries_its_path(path: Seq<char>, rpicam: bool)
    ensures
        ({
            let repeated = path + ":loop"@;
            &&& path.len() > 0 && !loops(path) ==> video_of("file"@, path, rpicam) == Ok::<
                VideoSourceView,
                Seq<char>,
            >(VideoSourceView::File { path, looping: false })
            &&& path.len() > 0 && !loops(path) ==> audio_of("file"@, path) == Ok::<
                AudioSourceView,
                Seq<char>,
            >(AudioSourceView::File { path, looping: false })
            &&& path.len() > 0 ==> video_of("file"@, repeated, rpicam) == Ok::<
                VideoSourceView,
                Seq<char>,
            >(VideoSourceView::File { path, looping: true })
            &&& path.len() > 0 ==> audio_of("file"@, repeated) == Ok::<
                AudioSourceView,
                Seq<char>,
            >(AudioSourceView::File { path, looping: true })
            &&& path.len() == 0 ==> video_of("file"@, path, rpicam) is Err && video_of(
                "file"@,
                repeated,
                rpicam,
            ) is Err && audio_of("file"@, path) is Err && audio_of("file"@, repeated) is Err
        }),
{
    lemma_kinds();
    law_the_loop_suffix_is_taken_once(path);
    law_identifiers_keep_their_colons("file"@, path);
    law_identifiers_keep_their_colons("file"@, path + ":loop"@);
    reveal_strlit(":loop");
}

/// The texts of the kinds, which differ from each other.
proof fn lemma_kinds()
    ensures
        text::lower("cam"@) == "cam"@,
        text::lower("camera"@) == "camera"@,
        text::lower("screen"@) == "screen"@,
        text::lower("display"@) == "display"@,
        text::lower("window"@) == "window"@,
        text::lower("app"@) == "app"@,
        text::lower("rpicam"@) == "rpicam"@,
        text::lower("picam"@) == "picam"@,
        text::lower("test"@) == "test"@,
        text::lower("file"@) == "file"@,
        text::lower("none"@) == "none"@,
        text::lower("mic"@) == "mic"@,
        text::lower("microphone"@) == "microphone"@,
        text::lower("default"@) == "default"@,
        text::lower("system"@) == "system"@,
        text::lower("hw"@) == "hw"@,
        !"cam"@.contains(':'),
        !"camera"@.contains(':'),
        !"screen"@.contains(':'),
        !"display"@.contains(':'),
        !"window"@.contains(':'),
        !"app"@.contains(':'),
        !"rpicam"@.contains(':'),
        !"picam"@.contains(':'),
        !"test"@.contains(':'),
        !"file"@.contains(':'),
        !"none"@.contains(':'),
        !"mic"@.contains(':'),
        !"microphone"@.contains(':'),
        !"default"@.contains(':'),
        !"system"@.contains(':'),
        !"hw"@.contains(':'),
        "cam"@.len() == 3 && "cam"@[0] == 'c',
        "camera"@.len() == 6 && "camera"@[0] == 'c',
        "screen"@.len() == 6 && "screen"@[0] == 's',
        "display"@.len() == 7 && "display"@[0] == 'd' && "display"@[1] == 'i',
        "window"@.len() == 6 && "window"@[0] == 'w',
        "app"@.len() == 3 && "app"@[0] == 'a',
        "rpicam"@.len() == 6 && "rpicam"@[0] == 'r',
        "picam"@.len() == 5,
        "test"@.len() == 4 && "test"@[0] == 't',
        "file"@.len() == 4 && "file"@[0] == 'f',
        "none"@.len() == 4 && "none"@[0] == 'n',
        "mic"@.len() == 3 && "mic"@[0] == 'm',
        "microphone"@.len() == 10,
        "default"@.len() == 7 && "default"@[0] == 'd' && "default"@[1] == 'e',
        "system"@.len() == 6 && "system"@[0] == 's' && "system"@[1] == 'y',
        "screen"@[1] == 'c',
        "system-audio"@.len() == 12,
        "hw"@.len() == 2,
{
    reveal_strlit("cam");
    reveal_strlit("camera");
    reveal_strlit("screen");
    reveal_strlit("display");
    reveal_strlit("window");
    reveal_strlit("app");
    reveal_strlit("rpicam");
    reveal_strlit("picam");
    reveal_strlit("test");
    reveal_strlit("file");
    reveal_strlit("none");
    reveal_strlit("mic");
    reveal_strlit("microphone");
    reveal_strlit("default");
    reveal_strlit("system");
    reveal_strlit("system-audio");
    reveal_strlit("hw");
    lemma_small_kind("cam"@);
    lemma_small_kind("camera"@);
    lemma_small_kind("screen"@);
    lemma_small_kind("display"@);
    lemma_small_kind("window"@);
    lemma_small_kind("app"@);
    lemma_small_kind("rpicam"@);
    lemma_small_kind("picam"@);
    lemma_small_kind("test"@);
    lemma_small_kind("file"@);
    lemma_small_kind("none"@);
    lemma_small_kind("mic"@);
    lemma_small_kind("microphone"@);
    lemma_small_kind("default"@);
    lemma_small_kind("system"@);
    lemma_small_kind("hw"@);
}

/// A kind without an identifier stands for the default: the default camera, the
/// main display, the timing pattern, the beeps and the default microphone. `none`
/// publishes nothing.
pub proof fn law_a_bare_kind_is_the_default(rpicam: bool)
    ensures
        video_source("cam"@, None, None, rpicam) == Ok::<VideoSourceView, Seq<char>>(
            VideoSourceView::Camera(None),
        ),
        video_source("screen"@, None, None, rpicam) == Ok::<VideoSourceView, Seq<char>>(
            VideoSourceView::Display(None),
        ),
        video_source("test"@, None, None, rpicam) == Ok::<VideoSourceView, Seq<char>>(
            VideoSourceView::Test(TestPattern::Timing),
        ),
        video_source("none"@, None, None, rpicam) == Ok::<VideoSourceView, Seq<char>>(
            VideoSourceView::Nothing,
        ),
        video_source("rpicam"@, None, None, true) == Ok::<VideoSourceView, Seq<char>>(
            VideoSourceView::Rpicam(RpicamMode::Encoded),
        ),
        video_source("rpicam"@, None, None, false) is Err,
        video_source("window"@, None, None, rpicam) is Err,
        video_source("app"@, None, None, rpicam) is Err,
        video_source("file"@, None, None, rpicam) is Err,
        audio_source("mic"@, "mic"@, None, None) == Ok::<AudioSourceView, Seq<char>>(
            AudioSourceView::Microphone(None),
        ),
        audio_source("test"@, "test"@, None, None) == Ok::<AudioSourceView, Seq<char>>(
            AudioSourceView::Test(TestTone::Beeps),
        ),
        audio_source("system"@, "system"@, None, None) == Ok::<AudioSourceView, Seq<char>>(
            AudioSourceView::System,
        ),
        audio_source("none"@, "none"@, None, None) == Ok::<AudioSourceView, Seq<char>>(
            AudioSourceView::Nothing,
        ),
        audio_source("file"@, "file"@, None, None) is Err,
{
    lemma_kinds();
}

/// The suffix of a generated source names its pattern or tone, in any mix of
/// capitals, and any other suffix is refused.
pub proof fn law_generated_sources_are_named(
    rest: Seq<char>,
    lower: Seq<char>,
    rpicam: bool,
)
    ensures
        ({
            let video = video_source("test"@, Some(rest), Some(lower), rpicam);
            let audio = audio_source("test"@, "test"@, Some(rest), Some(lower));
            let pi = video_source("rpicam"@, Some(rest), Some(lower), rpicam);
            &&& video == Ok::<VideoSourceView, Seq<char>>(VideoSourceView::Test(TestPattern::Timing))
                <==> lower == "timing"@
            &&& video == Ok::<VideoSourceView, Seq<char>>(
                VideoSourceView::Test(TestPattern::Gradient),
            ) <==> lower == "gradient"@
            &&& video is Ok ==> lower == "timing"@ || lower == "gradient"@
            &&& audio == Ok::<AudioSourceView, Seq<char>>(AudioSourceView::Test(TestTone::Beeps))
                <==> lower == "beeps"@
            &&& audio == Ok::<AudioSourceView, Seq<char>>(AudioSourceView::Test(TestTone::Tone))
                <==> lower == "tone"@
            &&& audio is Ok ==> lower == "beeps"@ || lower == "tone"@
            &&& pi == Ok::<VideoSourceView, Seq<char>>(VideoSourceView::Rpicam(RpicamMode::Raw))
                <==> lower == "raw"@ && rpicam
            &&& pi is Ok ==> lower == "raw"@
        }),
{
    lemma_kinds();
    reveal_strlit("timing");
    reveal_strlit("gradient");
    reveal_strlit("beeps");
    reveal_strlit("tone");
    reveal_strlit("raw");
}

/// A kind that is not known names no video source.
pub proof fn law_an_unknown_video_kind_is_refused(
    kind: Seq<char>,
    rest: Option<Seq<char>>,
    lower: Option<Seq<char>>,
    rpicam: bool,
)
    ensures
        video_source(kind, rest, lower, rpicam) is Ok ==> kind == "cam"@ || kind == "camera"@
            || kind == "screen"@ || kind == "display"@ || kind == "window"@ || kind == "app"@
            || kind == "rpicam"@ || kind == "picam"@ || kind == "test"@ || kind == "file"@
            || kind == "none"@,
{
}

/// A path repeats exactly where its last five characters spell `:loop`, in any
/// mix of capitals.
pub proof fn law_only_the_loop_suffix_repeats(path: Seq<char>)
    ensures
        loops(path) <==> {
            let n = path.len() as int;
            &&& n >= 5
            &&& path[n - 5] == ':'
            &&& path[n - 4] == 'l' || path[n - 4] == 'L'
            &&& path[n - 3] == 'o' || path[n - 3] == 'O'
            &&& path[n - 2] == 'o' || path[n - 2] == 'O'
            &&& path[n - 1] == 'p' || path[n - 1] == 'P'
        },
        loops(path) ==> without_loop(path) == path.take(path.len() - 5),
        !loops(path) ==> without_loop(path) == path,
{
    reveal_strlit(":loop");
    let n = path.len() as int;
    let lower = text::ascii_lowercase(path);
    if n >= 5 {
        let tail = lower.skip(n - 5);
        lemma_lower(path[n - 5]);
        lemma_lower(path[n - 4]);
        lemma_lower(path[n - 3]);
        lemma_lower(path[n - 2]);
        lemma_lower(path[n - 1]);
        assert(tail[0] == text::ascii_lower(path[n - 5]));
        assert(tail[1] == text::ascii_lower(path[n - 4]));
        assert(tail[2] == text::ascii_lower(path[n - 3]));
        assert(tail[3] == text::ascii_lower(path[n - 2]));
        assert(tail[4] == text::ascii_lower(path[n - 1]));
        if tail[0] == ':' && tail[1] == 'l' && tail[2] == 'o' && tail[3] == 'o' && tail[4] == 'p' {
            assert(tail =~= ":loop"@);
        }
    }
}

/// A video source is seen as what it is, with what it holds.
pub proof fn law_a_video_source_is_seen_as_it_is(one: VideoSourceSpec)
    ensures
        one matches VideoSourceSpec::Camera(id) ==> one@ == VideoSourceView::Camera(text::opt_text(id)),
        one matches VideoSourceSpec::Display(id) ==> one@ == VideoSourceView::Display(text::opt_text(id)),
        one matches VideoSourceSpec::Window(id) ==> one@ == VideoSourceView::Window(id@),
        one matches VideoSourceSpec::App(id) ==> one@ == VideoSourceView::App(id@),
        one matches VideoSourceSpec::Rpicam(mode) ==> one@ == VideoSourceView::Rpicam(mode),
        one matches VideoSourceSpec::Test(pattern) ==> one@ == VideoSourceView::Test(pattern),
        one matches VideoSourceSpec::File { path, looping } ==> one@ == (VideoSourceView::File {
                path: path@,
                looping,
            }),
        one matches VideoSourceSpec::Nothing ==> one@ == VideoSourceView::Nothing,
{
}

/// An audio source is seen as what it is, with what it holds.
pub proof fn law_an_audio_source_is_seen_as_it_is(one: AudioSourceSpec)
    ensures
        one matches AudioSourceSpec::Microphone(id) ==> one@ == AudioSourceView::Microphone(text::opt_text(id)),
        one matches AudioSourceSpec::System ==> one@ == AudioSourceView::System,
        one matches AudioSourceSpec::Test(tone) ==> one@ == AudioSourceView::Test(tone),
        one matches AudioSourceSpec::File { path, looping } ==> one@ == (AudioSourceView::File {
                path: path@,
                looping,
            }),
        one matches AudioSourceSpec::Nothing ==> one@ == AudioSourceView::Nothing,
{
}

} // verus!
