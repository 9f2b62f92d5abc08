//! Publishing a media file.
//!
//! The file is demuxed and its tracks written onto the broadcast without
//! decoding. `--transcode` runs the file through ffmpeg first. A plain
//! (non-fragmented) MP4 needs this, and so does `:loop`.

use vstd::prelude::*;

use crate::args::{ImportFormat, PublishArgs};
use crate::text;

verus! {

/// A `file:` video source and the flags that say how to read it.
#[derive(Debug, PartialEq, Eq)]
pub struct FileSource {
    path: String,
    format: ImportFormat,
    transcode: bool,
    looping: bool,
}

/// A [`FileSource`] with its path as a character sequence.
pub struct FileSourceView {
    pub path: Seq<char>,
    pub format: ImportFormat,
    pub transcode: bool,
    pub looping: bool,
}

impl View for FileSource {
    type V = FileSourceView;

    closed spec fn view(&self) -> FileSourceView {
        FileSourceView {
            path: self.path@,
            format: self.format,
            transcode: self.transcode,
            looping: self.looping,
        }
    }
}

/// The source for `path`, where `is_file` tells whether a file is there.
pub open spec fn file_source(
    path: Seq<char>,
    looping: bool,
    format: ImportFormat,
    transcode: bool,
    is_file: bool,
) -> Result<FileSourceView, Seq<char>> {
    if !is_file {
        Err(
            "no readable file at "@ + path
                + "; --video takes a path, as in --video file:clip.mp4"@,
        )
    } else if looping && !transcode {
        Err(
            "file:"@ + path
                + ":loop needs --transcode: ffmpeg is what repeats the input, and without it the file is published once and ends"@,
        )
    } else {
        Ok(FileSourceView { path, format, transcode, looping })
    }
}

/// The name of a format, as it is shown in messages.
pub open spec fn format_name(format: ImportFormat) -> Seq<char> {
    match format {
        ImportFormat::Fmp4 => "Fmp4"@,
        ImportFormat::Avc3 => "Avc3"@,
    }
}

/// The arguments for ffmpeg, which reads the file and writes to its output.
pub open spec fn ffmpeg_line(source: FileSourceView, copy_video: bool) -> Seq<Seq<char>> {
    let quiet = seq!["-hide_banner"@, "-loglevel"@, "error"@];
    let repeat = if source.looping {
        seq!["-stream_loop"@, "-1"@]
    } else {
        seq![]
    };
    let input = seq!["-re"@, "-i"@, source.path];
    let video = if copy_video {
        seq!["-c:v"@, "copy"@]
    } else {
        seq!["-c:v"@, "libx264"@, "-pix_fmt"@, "yuv420p"@]
    };
    let container = match source.format {
        ImportFormat::Fmp4 => seq![
            "-c:a"@,
            "libopus"@,
            "-b:a"@,
            "128k"@,
            "-movflags"@,
            "cmaf+separate_moof+delay_moov+skip_trailer+frag_every_frame"@,
            "-f"@,
            "mp4"@,
        ],
        ImportFormat::Avc3 => seq!["-an"@, "-bsf:v"@, "h264_mp4toannexb"@, "-f"@, "h264"@],
    };
    quiet + repeat + input + video + container + seq!["-"@]
}

/// The arguments for ffprobe, which prints the codec of the first video stream.
pub open spec fn ffprobe_line(path: Seq<char>) -> Seq<Seq<char>> {
    seq![
        "-v"@,
        "error"@,
        "-select_streams"@,
        "v:0"@,
        "-show_entries"@,
        "stream=codec_name"@,
        "-of"@,
        "default=nokey=1:noprint_wrappers=1"@,
        path,
    ]
}

/// Adds a text to a list.
fn put(list: &mut Vec<String>, text: &str)
    ensures
        text::string_list(final(list)@) == text::string_list(old(list)@).push(text@),
{
    list.push(text.to_owned());
    assert(text::string_list(list@) =~= text::string_list(old(list)@).push(text@));
}

impl FileSource {
    /// Creates a source for `path` with the other publish flags applied.
    ///
    /// `is_file` tells whether a file is at `path`. Fails if there is none, or
    /// if `looping` is set without `--transcode`. Only ffmpeg can repeat the
    /// input.
    pub fn new(path: String, looping: bool, args: &PublishArgs, is_file: bool) -> (res: Result<
        Self,
        String,
    >)
        ensures
            text::outcome(res) == file_source(
                path@,
                looping,
                args.format,
                args.transcode,
                is_file,
            ),
    {
        if !is_file {
            return Err(
                "no readable file at ".to_owned().concat(path.as_str()).concat(
                    "; --video takes a path, as in --video file:clip.mp4",
                ),
            );
        }
        if looping && !args.transcode {
            return Err(
                "file:".to_owned().concat(path.as_str()).concat(
                    ":loop needs --transcode: ffmpeg is what repeats the input, and without it the file is published once and ends",
                ),
            );
        }
        Ok(FileSource { path, format: args.format, transcode: args.transcode, looping })
    }

    /// Returns the path of the file.
    pub fn path(&self) -> (res: &str)
        ensures
            res@ == self@.path,
    {
        self.path.as_str()
    }

    /// Returns the container the file is read as.
    pub fn format(&self) -> (res: ImportFormat)
        ensures
            res == self@.format,
    {
        self.format
    }

    /// Returns whether the file goes through ffmpeg first.
    pub fn transcode(&self) -> (res: bool)
        ensures
            res == self@.transcode,
    {
        self.transcode
    }

    /// Returns the arguments for ffmpeg.
    ///
    /// `copy_video` tells whether the video is H.264 already. `-re` paces the
    /// input at its own frame rate, like a live source.
    pub fn ffmpeg_args(&self, copy_video: bool) -> (res: Vec<String>)
        ensures
            text::string_list(res@) == ffmpeg_line(self@, copy_video),
    {
        let mut args: Vec<String> = Vec::new();
        assert(text::string_list(args@) =~= seq![]);
        put(&mut args, "-hide_banner");
        put(&mut args, "-loglevel");
        put(&mut args, "error");
        if self.looping {
            put(&mut args, "-stream_loop");
            put(&mut args, "-1");
        }
        put(&mut args, "-re");
        put(&mut args, "-i");
        put(&mut args, self.path.as_str());
        if copy_video {
            put(&mut args, "-c:v");
            put(&mut args, "copy");
        } else {
            put(&mut args, "-c:v");
            put(&mut args, "libx264");
            put(&mut args, "-pix_fmt");
            put(&mut args, "yuv420p");
        }
        match self.format {
            ImportFormat::Fmp4 => {
                put(&mut args, "-c:a");
                put(&mut args, "libopus");
                put(&mut args, "-b:a");
                put(&mut args, "128k");
                put(&mut args, "-movflags");
                put(&mut args, "cmaf+separate_moof+delay_moov+skip_trailer+frag_every_frame");
                put(&mut args, "-f");
                put(&mut args, "mp4");
            },
            ImportFormat::Avc3 => {
                put(&mut args, "-an");
                put(&mut args, "-bsf:v");
                put(&mut args, "h264_mp4toannexb");
                put(&mut args, "-f");
                put(&mut args, "h264");
            },
        }
        put(&mut args, "-");
        assert(text::string_list(args@) =~= ffmpeg_line(self@, copy_video));
        args
    }

    /// Returns the arguments for ffprobe.
    pub fn ffprobe_args(&self) -> (res: Vec<String>)
        ensures
            text::string_list(res@) == ffprobe_line(self@.path),
    {
        let mut args: Vec<String> = Vec::new();
        assert(text::string_list(args@) =~= seq![]);
        put(&mut args, "-v");
        put(&mut args, "error");
        put(&mut args, "-select_streams");
        put(&mut args, "v:0");
        put(&mut args, "-show_entries");
        put(&mut args, "stream=codec_name");
        put(&mut args, "-of");
        put(&mut args, "default=nokey=1:noprint_wrappers=1");
        put(&mut args, self.path.as_str());
        assert(text::string_list(args@) =~= ffprobe_line(self@.path));
        args
    }
}

/// Returns whether ffprobe's output says that the video is H.264.
pub fn is_h264(printed: &str) -> (res: bool)
    ensures
        res == (text::trimmed(printed@) == "h264"@),
{
    text::same(text::trim(printed), "h264")
}

/// What a header read does next.
#[derive(Debug)]
pub enum HeaderNext {
    /// The catalog is published, after this many bytes.
    Done(u64),
    /// Read a chunk and feed it to the importer.
    Read,
}

/// How far a header read has got.
#[derive(Debug, Clone, Copy, PartialEq, Eq, Structural)]
pub struct HeaderRead {
    /// The bytes fed to the importer.
    pub read: u64,
}

/// The message for a file that ends before its header.
pub open spec fn header_missing(source: FileSourceView, read: nat) -> Seq<char> {
    let hint = if source.transcode {
        ""@
    } else {
        "; if this is a plain MP4, re-run with --transcode"@
    };
    "reached the end of "@ + source.path + " after "@ + text::decimal(read)
        + " bytes without finding a "@ + format_name(source.format) + " header"@ + hint
}

impl HeaderRead {
    /// Starts a header read.
    pub fn new() -> (res: Self)
        ensures
            res.read == 0,
    {
        HeaderRead { read: 0 }
    }

    /// Decides what follows, from whether the catalog still has no rendition.
    ///
    /// fMP4 needs the moov box. Annex-B needs a keyframe with SPS and PPS.
    pub fn next(&self, catalog_is_empty: bool) -> (res: HeaderNext)
        ensures
            catalog_is_empty ==> res is Read,
            !catalog_is_empty ==> res == HeaderNext::Done(self.read),
    {
        if catalog_is_empty {
            HeaderNext::Read
        } else {
            HeaderNext::Done(self.read)
        }
    }

    /// Takes note of a chunk of this many bytes, and returns a message if the
    /// file ended.
    pub fn chunk(&mut self, source: &FileSource, len: u64) -> (res: Result<(), String>)
        requires
            old(self).read + len <= u64::MAX,
        ensures
            match res {
                Ok(_) => len > 0 && final(self).read == old(self).read + len,
                Err(text) => len == 0 && *final(self) == *old(self) && text@ == header_missing(
                    source@,
                    old(self).read as nat,
                ),
            },
    {
        if len == 0 {
            let hint: &str = if source.transcode {
                ""
            } else {
                "; if this is a plain MP4, re-run with --transcode"
            };
            let format: &str = match source.format {
                ImportFormat::Fmp4 => "Fmp4",
                ImportFormat::Avc3 => "Avc3",
            };
            return Err(
                "reached the end of ".to_owned().concat(source.path.as_str()).concat(
                    " after ",
                ).concat(text::decimal_text(self.read).as_str()).concat(
                    " bytes without finding a ",
                ).concat(format).concat(" header").concat(hint),
            );
        }
        self.read += len;
        Ok(())
    }
}

/// A part of an import that has come to its end.
#[derive(Debug, Clone, Copy, PartialEq, Eq, Structural)]
pub enum ImportPart {
    /// Reading the header, until the catalog is published.
    Header,
    /// Reading the rest of the file.
    Rest,
    /// Flushing and closing the tracks.
    Flush,
}

/// What an import does after one of its parts.
#[derive(Debug)]
pub enum ImportNext {
    /// Read the rest of the file.
    Read,
    /// Flush and close the tracks, which may still fail.
    Flush,
    /// Nothing more: the import succeeded.
    Done,
    /// Abort the tracks with this error, so subscribers see the real cause, and
    /// fail with it.
    Abort(String),
}

/// An [`ImportNext`] with its text as a character sequence.
pub enum ImportNextView {
    Read,
    Flush,
    Done,
    Abort(Seq<char>),
}

impl View for ImportNext {
    type V = ImportNextView;

    open spec fn view(&self) -> ImportNextView {
        match *self {
            ImportNext::Read => ImportNextView::Read,
            ImportNext::Flush => ImportNextView::Flush,
            ImportNext::Done => ImportNextView::Done,
            ImportNext::Abort(err) => ImportNextView::Abort(err@),
        }
    }
}

/// What follows a part of an import: whichever part fails, the tracks are
/// aborted with its error.
pub open spec fn after_part(part: ImportPart, outcome: Result<(), Seq<char>>) -> ImportNextView {
    match outcome {
        Err(err) => ImportNextView::Abort(err),
        Ok(_) => match part {
            ImportPart::Header => ImportNextView::Read,
            ImportPart::Rest => ImportNextView::Flush,
            ImportPart::Flush => ImportNextView::Done,
        },
    }
}

/// Decides what an import does after one of its parts, from how that ended.
pub fn import_end(part: ImportPart, outcome: Result<(), String>) -> (res: ImportNext)
    ensures
        res@ == after_part(
            part,
            match outcome {
                Ok(_) => Ok(()),
                Err(err) => Err(err@),
            },
        ),
{
    match outcome {
        Err(err) => ImportNext::Abort(err),
        Ok(_) => match part {
            ImportPart::Header => ImportNext::Read,
            ImportPart::Rest => ImportNext::Flush,
            ImportPart::Flush => ImportNext::Done,
        },
    }
}

/// A file that is repeated always goes through ffmpeg.
pub proof fn law_a_loop_is_transcoded(
    path: Seq<char>,
    looping: bool,
    format: ImportFormat,
    transcode: bool,
    is_file: bool,
)
    requires
        file_source(path, looping, format, transcode, is_file) is Ok,
    ensures
        file_source(path, looping, format, transcode, is_file)->Ok_0.looping ==> file_source(
            path,
            looping,
            format,
            transcode,
            is_file,
        )->Ok_0.transcode,
        is_file,
{
}

/// A file is imported exactly where there is one, and repeated only by ffmpeg. It
/// is imported as it was named and with the flags' format.
pub proof fn law_a_file_is_imported_as_named(
    path: Seq<char>,
    looping: bool,
    format: ImportFormat,
    transcode: bool,
    is_file: bool,
)
    ensures
        file_source(path, looping, format, transcode, is_file) is Ok <==> is_file && (looping
            ==> transcode),
        file_source(path, looping, format, transcode, is_file) matches Ok(source) ==> source.path
            == path && source.format == format && source.transcode == transcode && source.looping
            == looping,
{
}

/// ffmpeg reads the file in real time and writes to its output, repeats the file
/// exactly where that is asked for, and copies a video that needs no encode.
pub proof fn law_ffmpeg_is_run_on_the_file(source: FileSourceView, copy_video: bool)
    ensures
        ({
            let line = ffmpeg_line(source, copy_video);
            let at = if source.looping {
                5int
            } else {
                3int
            };
            &&& line.len() > at + 4
            &&& line[at] == "-re"@ && line[at + 1] == "-i"@ && line[at + 2] == source.path
            &&& source.looping ==> line[3] == "-stream_loop"@ && line[4] == "-1"@
            &&& line[at + 3] == "-c:v"@
            &&& copy_video ==> line[at + 4] == "copy"@
            &&& !copy_video ==> line[at + 4] == "libx264"@
            &&& line.last() == "-"@
            &&& source.format is Fmp4 ==> line[line.len() - 3] == "-f"@ && line[line.len() - 2]
                == "mp4"@
            &&& source.format is Avc3 ==> line[line.len() - 3] == "-f"@ && line[line.len() - 2]
                == "h264"@
        }),
{
}

/// ffprobe is asked for the codec of the first video stream of the file.
pub proof fn law_ffprobe_is_run_on_the_file(path: Seq<char>)
    ensures
        ffprobe_line(path).last() == path,
        ffprobe_line(path).len() == 9,
        ffprobe_line(path).contains("stream=codec_name"@),
        ffprobe_line(path).contains("v:0"@),
        exists|i: int|
            0 <= i < 8 && #[trigger] ffprobe_line(path)[i] == "-v"@ && ffprobe_line(path)[i + 1]
                == "error"@,
        exists|i: int|
            0 <= i < 8 && #[trigger] ffprobe_line(path)[i] == "-select_streams"@ && ffprobe_line(
                path,
            )[i + 1] == "v:0"@,
        exists|i: int|
            0 <= i < 8 && #[trigger] ffprobe_line(path)[i] == "-show_entries"@ && ffprobe_line(
                path,
            )[i + 1] == "stream=codec_name"@,
        exists|i: int|
            0 <= i < 8 && #[trigger] ffprobe_line(path)[i] == "-of"@ && ffprobe_line(path)[i + 1]
                == "default=nokey=1:noprint_wrappers=1"@,
{
    assert(ffprobe_line(path)[0] == "-v"@);
    assert(ffprobe_line(path)[2] == "-select_streams"@);
    assert(ffprobe_line(path)[4] == "-show_entries"@);
    assert(ffprobe_line(path)[6] == "-of"@);
    assert(ffprobe_line(path)[5] == "stream=codec_name"@);
    assert(ffprobe_line(path)[3] == "v:0"@);
}

/// An import reads its header, then the rest, then flushes, and whichever part
/// fails aborts it with that part's error.
pub proof fn law_a_failed_part_aborts_the_import(part: ImportPart, err: Seq<char>)
    ensures
        after_part(part, Err(err)) == ImportNextView::Abort(err),
        !(after_part(part, Ok(())) is Abort),
        after_part(ImportPart::Header, Ok(())) is Read,
        after_part(ImportPart::Rest, Ok(())) is Flush,
        after_part(ImportPart::Flush, Ok(())) is Done,
{
}

/// The message for a file without a header names the file and says how much was
/// read of it, and hints at `--transcode` where that was not tried.
pub proof fn law_a_missing_header_names_the_file(
    path: Seq<char>,
    format: ImportFormat,
    looping: bool,
    read: nat,
)
    ensures
        ({
            let plain = header_missing(
                FileSourceView { path, format, transcode: false, looping },
                read,
            );
            let tried = header_missing(
                FileSourceView { path, format, transcode: true, looping },
                read,
            );
            &&& tried == "reached the end of "@ + path + " after "@ + text::decimal(read)
                + " bytes without finding a "@ + format_name(format) + " header"@
            &&& plain == tried + "; if this is a plain MP4, re-run with --transcode"@
            &&& format_name(ImportFormat::Fmp4) != format_name(ImportFormat::Avc3)
        }),
{
    reveal_strlit("");
    reveal_strlit("Fmp4");
    reveal_strlit("Avc3");
    assert("Fmp4"@[0] != "Avc3"@[0]);
    let tried = header_missing(FileSourceView { path, format, transcode: true, looping }, read);
    assert(tried =~= "reached the end of "@ + path + " after "@ + text::decimal(read)
        + " bytes without finding a "@ + format_name(format) + " header"@);
    let plain = header_missing(FileSourceView { path, format, transcode: false, looping }, read);
    assert(plain =~= tried + "; if this is a plain MP4, re-run with --transcode"@);
}

/// A next step is seen as what it is, with what it holds.
pub proof fn law_a_next_step_is_seen_as_it_is(one: ImportNext)
    ensures
        one matches ImportNext::Read ==> one@ == ImportNextView::Read,
        one matches ImportNext::Flush ==> one@ == ImportNextView::Flush,
        one matches ImportNext::Done ==> one@ == ImportNextView::Done,
        one matches ImportNext::Abort(err) ==> one@ == ImportNextView::Abort(err@),
{
}

} // verus!
