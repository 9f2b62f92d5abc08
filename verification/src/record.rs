//! `irl record`: subscribes to a remote broadcast and writes it to a file.
//!
//! The encoded frames are remuxed into fragmented MP4 or Matroska without
//! decoding. This module holds the options and the lines that are printed.

use vstd::prelude::*;

use crate::args::{RecordArgs, RecordFormat};
use crate::text;

verus! {

/// How many seconds lie between two progress lines.
pub const REPORT_INTERVAL: u64 = 2;

/// Where a recording goes, what it keeps, and for how long.
#[derive(Debug)]
pub struct RecordOptions {
    /// The file to write.
    pub path: String,
    /// The container.
    pub format: RecordFormat,
    /// The only video rendition to keep, or `None` for all.
    pub rendition: Option<String>,
    /// Milliseconds to wait for a stalled group, or `None` for the recorder's
    /// own default.
    pub max_age: Option<u64>,
    /// How many seconds to record, or `None` to record until interrupted.
    pub duration: Option<u64>,
}

/// A [`RecordOptions`] with its texts as character sequences.
pub struct RecordOptionsView {
    pub path: Seq<char>,
    pub format: RecordFormat,
    pub rendition: Option<Seq<char>>,
    pub max_age: Option<u64>,
    pub duration: Option<u64>,
}

impl View for RecordOptions {
    type V = RecordOptionsView;

    open spec fn view(&self) -> RecordOptionsView {
        RecordOptionsView {
            path: self.path@,
            format: self.format,
            rendition: text::opt_text(self.rendition),
            max_age: self.max_age,
            duration: self.duration,
        }
    }
}

/// The message for a path whose extension names no container.
pub open spec fn extension_unknown(path: Seq<char>) -> Seq<char> {
    "cannot tell which container "@ + path
        + " should be, so pass --format fmp4 or --format mkv; the extensions recognised here are .mp4, .m4v, .m4s, .mkv, and .webm"@
}

/// The container: the one that is asked for, or the one the extension names.
pub open spec fn container(
    path: Seq<char>,
    format: Option<RecordFormat>,
    extension: Option<RecordFormat>,
) -> Result<RecordFormat, Seq<char>> {
    match (format, extension) {
        (Some(format), _) => Ok(format),
        (None, Some(format)) => Ok(format),
        (None, None) => Err(extension_unknown(path)),
    }
}

/// The options that record every rendition to `path` until the end.
pub open spec fn plain_options(
    path: Seq<char>,
    format: Option<RecordFormat>,
    extension: Option<RecordFormat>,
) -> Result<RecordOptionsView, Seq<char>> {
    match container(path, format, extension) {
        Ok(format) => Ok(
            RecordOptionsView { path, format, rendition: None, max_age: None, duration: None },
        ),
        Err(text) => Err(text),
    }
}

/// The options that the arguments describe.
pub open spec fn described(args: RecordArgs, extension: Option<RecordFormat>) -> Result<
    RecordOptionsView,
    Seq<char>,
> {
    match container(args.output@, args.format, extension) {
        Ok(format) => Ok(
            RecordOptionsView {
                path: args.output@,
                format,
                rendition: text::opt_text(args.rendition),
                max_age: Some(args.max_age),
                duration: args.duration,
            },
        ),
        Err(text) => Err(text),
    }
}

/// Returns the message for a path whose extension names no container.
pub fn unknown_extension(path: &str) -> (res: String)
    ensures
        res@ == extension_unknown(path@),
{
    "cannot tell which container ".to_owned().concat(path).concat(
        " should be, so pass --format fmp4 or --format mkv; the extensions recognised here are .mp4, .m4v, .m4s, .mkv, and .webm",
    )
}

/// The container that a file extension names.
pub open spec fn named_container(extension: Seq<char>) -> Option<RecordFormat> {
    if extension == "mp4"@ || extension == "m4v"@ || extension == "m4s"@ {
        Some(RecordFormat::Fmp4)
    } else if extension == "mkv"@ || extension == "webm"@ {
        Some(RecordFormat::Mkv)
    } else {
        None
    }
}

/// Returns the container that a file extension names, if it is one of those
/// recognised.
pub fn container_of(extension: &str) -> (res: Option<RecordFormat>)
    ensures
        res == named_container(extension@),
{
    if text::same(extension, "mp4") || text::same(extension, "m4v") || text::same(
        extension,
        "m4s",
    ) {
        Some(RecordFormat::Fmp4)
    } else if text::same(extension, "mkv") || text::same(extension, "webm") {
        Some(RecordFormat::Mkv)
    } else {
        None
    }
}

impl RecordOptions {
    /// Creates options that record every rendition to `path` until the end.
    ///
    /// `extension` is the container the extension of `path` names, if any, and
    /// counts only without `format`. Fails if neither names a container.
    pub fn new(path: String, format: Option<RecordFormat>, extension: Option<RecordFormat>) -> (res:
        Result<Self, String>)
        ensures
            text::outcome(res) == plain_options(path@, format, extension),
    {
        let format = match (format, extension) {
            (Some(format), _) => format,
            (None, Some(format)) => format,
            (None, None) => return Err(unknown_extension(path.as_str())),
        };
        Ok(RecordOptions { path, format, rendition: None, max_age: None, duration: None })
    }
}

/// Builds the options from the command-line arguments.
pub fn options(args: &RecordArgs, extension: Option<RecordFormat>) -> (res: Result<
    RecordOptions,
    String,
>)
    ensures
        text::outcome(res) == described(*args, extension),
{
    let mut options = match RecordOptions::new(args.output.clone(), args.format, extension) {
        Ok(options) => options,
        Err(err) => return Err(err),
    };
    options.rendition = text::clone_opt(&args.rendition);
    options.max_age = Some(args.max_age);
    options.duration = args.duration;
    Ok(options)
}

/// The line that says what a catalog holds.
pub open spec fn catalog_text(video: nat, audio: nat) -> Seq<char> {
    "catalog: "@ + text::decimal(video) + " video, "@ + text::decimal(audio)
        + " audio renditions"@
}

/// Returns the line that says what the catalog holds, and whether that can be
/// recorded.
pub fn catalog_line(video: usize, audio: usize) -> (res: (String, Result<(), String>))
    ensures
        res.0@ == catalog_text(video as nat, audio as nat),
        match res.1 {
            Ok(_) => video > 0 || audio > 0,
            Err(text) => video == 0 && audio == 0 && text@
                == "the broadcast carries no video and no audio, so there is nothing to record"@,
        },
{
    let line: String = "catalog: ".to_owned().concat(
        text::decimal_text(video as u64).as_str(),
    ).concat(" video, ").concat(text::decimal_text(audio as u64).as_str()).concat(
        " audio renditions",
    );
    if video == 0 && audio == 0 {
        return (
            line,
            Err(
                "the broadcast carries no video and no audio, so there is nothing to record".to_owned(),
            ),
        );
    }
    (line, Ok(()))
}

/// Returns the line that says a recording runs.
pub fn running_line(duration: Option<u64>) -> (res: String)
    ensures
        res@ == match duration {
            Some(seconds) => "recording for "@ + text::decimal(seconds as nat) + "s ..."@,
            None => "recording, press Ctrl+C to stop"@,
        },
{
    match duration {
        Some(seconds) => "recording for ".to_owned().concat(
            text::decimal_text(seconds).as_str(),
        ).concat("s ..."),
        None => "recording, press Ctrl+C to stop".to_owned(),
    }
}

/// The text of a number of bytes, as `bytesize::ByteSize` shows it.
pub uninterp spec fn byte_size(bytes: u64) -> Seq<char>;

/// Formats a number of bytes with the `Display` of `bytesize::ByteSize`, which
/// picks a binary unit and one decimal.
///
/// Which unit and digits it picks is not stated, with one exception: less than
/// 1024 bytes are shown as a whole number of `B`.
#[verifier::external_body]
fn byte_size_text(bytes: u64) -> (res: String)
    ensures
        res@ == byte_size(bytes),
        bytes < 1024 ==> res@ == text::decimal(bytes as nat) + " B"@,
{
    bytesize::ByteSize(bytes).to_string()
}

/// Returns the line that says what was written, and where.
pub fn wrote_line(written: u64, path: &str) -> (res: String)
    ensures
        res@ == "wrote "@ + byte_size(written) + " to "@ + path@,
        written < 1024 ==> res@ == "wrote "@ + (text::decimal(written as nat) + " B"@) + " to "@
            + path@,
{
    let size: String = byte_size_text(written);
    self::wrote(size.as_str(), path)
}

/// Returns the line for a size that is already a text.
pub fn wrote(size: &str, path: &str) -> (res: String)
    ensures
        res@ == "wrote "@ + size@ + " to "@ + path@,
{
    "wrote ".to_owned().concat(size).concat(" to ").concat(path)
}

/// Returns the progress line, from the elapsed whole seconds as text.
pub fn progress_line(elapsed: &str, written: u64) -> (res: String)
    ensures
        res@ == "["@ + elapsed@ + "s] "@ + byte_size(written),
        written < 1024 ==> res@ == "["@ + elapsed@ + "s] "@ + (text::decimal(written as nat)
            + " B"@),
{
    let size: String = byte_size_text(written);
    self::progress(elapsed, size.as_str())
}

/// Returns the progress line for a size that is already a text.
pub fn progress(elapsed: &str, size: &str) -> (res: String)
    ensures
        res@ == "["@ + elapsed@ + "s] "@ + size@,
{
    "[".to_owned().concat(elapsed).concat("s] ").concat(size)
}

/// What may stop a recording.
#[derive(Debug, Clone, Copy, PartialEq, Eq, Structural)]
pub enum StopEvent {
    /// The user interrupted.
    Interrupted,
    /// Interrupts cannot be listened for.
    CannotListen,
    /// The duration has elapsed.
    Elapsed,
}

/// Decides whether an event stops a recording.
///
/// One that cannot listen for interrupts runs until the broadcast ends.
pub fn stops(event: StopEvent) -> (res: bool)
    ensures
        res == (event != StopEvent::CannotListen),
{
    match event {
        StopEvent::Interrupted => true,
        StopEvent::CannotListen => false,
        StopEvent::Elapsed => true,
    }
}

/// `--format` outranks the extension of the file.
pub proof fn law_the_flag_outranks_the_extension(
    path: Seq<char>,
    format: RecordFormat,
    extension: Option<RecordFormat>,
)
    ensures
        container(path, Some(format), extension) == Ok::<RecordFormat, Seq<char>>(format),
{
}

/// A recording goes where the arguments say, in the container of the flag or of
/// the extension, and keeps what they ask for. It fails exactly where neither
/// names a container.
pub proof fn law_a_recording_is_as_asked(args: RecordArgs, extension: Option<RecordFormat>)
    ensures
        described(args, extension) is Ok <==> args.format is Some || extension is Some,
        described(args, extension) matches Ok(options) ==> {
            &&& options.path == args.output@
            &&& args.format is Some ==> options.format == args.format->0
            &&& args.format is None ==> extension == Some(options.format)
            &&& args.rendition is Some ==> options.rendition == Some(args.rendition->0@)
            &&& args.rendition is None ==> options.rendition is None
            &&& options.max_age == Some(args.max_age)
            &&& options.duration == args.duration
        },
{
}

/// Plain options record every rendition until the end, into the same container
/// as the arguments would.
pub proof fn law_plain_options_keep_everything(
    path: Seq<char>,
    format: Option<RecordFormat>,
    extension: Option<RecordFormat>,
)
    ensures
        plain_options(path, format, extension) is Ok <==> format is Some || extension is Some,
        plain_options(path, format, extension) matches Ok(options) ==> {
            &&& options.path == path
            &&& options.rendition is None && options.duration is None && options.max_age is None
            &&& format is Some ==> format == Some(options.format)
            &&& format is None ==> extension == Some(options.format)
        },
{
}

/// The extensions that the message lists are those that name a container, and no
/// other does.
pub proof fn law_the_listed_extensions_are_recognised(extension: Seq<char>)
    ensures
        named_container("mp4"@) == Some(RecordFormat::Fmp4),
        named_container("m4v"@) == Some(RecordFormat::Fmp4),
        named_container("m4s"@) == Some(RecordFormat::Fmp4),
        named_container("mkv"@) == Some(RecordFormat::Mkv),
        named_container("webm"@) == Some(RecordFormat::Mkv),
        named_container(extension) is Some ==> extension == "mp4"@ || extension == "m4v"@
            || extension == "m4s"@ || extension == "mkv"@ || extension == "webm"@,
{
    reveal_strlit("mp4");
    reveal_strlit("m4v");
    reveal_strlit("m4s");
    reveal_strlit("mkv");
    reveal_strlit("webm");
    assert("mkv"@[1] == 'k' && "mp4"@[1] == 'p' && "m4v"@[1] == '4' && "m4s"@[1] == '4');
}

/// The line on a catalog counts its video and its audio renditions.
pub proof fn law_a_catalog_is_counted(video: nat, audio: nat)
    ensures
        catalog_text(video, audio) == "catalog: "@ + text::decimal(video) + " video, "@
            + text::decimal(audio) + " audio renditions"@,
{
}

} // verus!
