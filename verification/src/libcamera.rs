//! Video source that captures with the `rpicam-vid` (libcamera) subprocess.
//!
//! On Raspberry Pi OS Bookworm, the CSI camera is only accessible through the
//! libcamera stack. `rpicam-vid --codec yuv420` writes processed I420 frames to
//! its standard output, one after the other.

use vstd::prelude::*;

use crate::text;

verus! {

/// A capture of `rpicam-vid`.
#[derive(Debug, Clone, Copy, PartialEq, Eq, Structural)]
pub struct LibcameraSource {
    pub width: u32,
    pub height: u32,
    pub framerate: u32,
    /// Bytes per frame.
    pub frame_size: usize,
    /// Frames read since the subprocess started.
    pub frame_count: u64,
}

/// The planes of an I420 frame.
#[derive(Debug, PartialEq, Eq)]
pub struct Planes {
    pub y: Vec<u8>,
    pub u: Vec<u8>,
    pub v: Vec<u8>,
}

/// What the capture writes to the log after a frame.
#[derive(Debug, Clone, Copy, PartialEq, Eq, Structural)]
pub enum CaptureLog {
    /// Nothing.
    Quiet,
    /// The first frame arrived.
    First,
    /// The capture runs, every five seconds.
    Running,
}

/// The bytes of a slice from one place to another.
fn part(data: &Vec<u8>, from: usize, to: usize) -> (res: Vec<u8>)
    requires
        from <= to <= data@.len(),
    ensures
        res@ == data@.subrange(from as int, to as int),
{
    let mut res: Vec<u8> = Vec::new();
    let mut i: usize = from;
    while i < to
        invariant
            from <= i <= to <= data@.len(),
            res@ =~= data@.subrange(from as int, i as int),
        decreases to - i,
    {
        res.push(data[i]);
        i += 1;
    }
    res
}

/// Appends a text to a list.
fn say(list: &mut Vec<String>, one: String)
    ensures
        text::string_list(final(list)@) == text::string_list(old(list)@) + seq![one@],
{
    let ghost before = text::string_list(list@);
    list.push(one);
    assert(text::string_list(list@) =~= before + seq![one@]);
}

impl LibcameraSource {
    /// Whether a frame fits in memory and has the bytes that its size needs.
    pub open spec fn wf(self) -> bool {
        &&& self.width * self.height <= u32::MAX
        &&& self.width * self.height * 3 <= usize::MAX
        &&& self.frame_size == self.width * self.height * 3 / 2
    }

    /// Creates a source that has not started.
    pub fn new(width: u32, height: u32, framerate: u32) -> (res: Self)
        requires
            width * height <= u32::MAX,
            width * height * 3 <= usize::MAX,
        ensures
            res.wf(),
            res == (LibcameraSource {
                width,
                height,
                framerate,
                frame_size: (width * height * 3 / 2) as usize,
                frame_count: 0,
            }),
    {
        assert(0 <= width * height) by (nonlinear_arith)
            requires
                width >= 0,
                height >= 0,
        ;
        let frame_size: usize = width as usize * height as usize * 3 / 2;
        LibcameraSource { width, height, framerate, frame_size, frame_count: 0 }
    }

    /// The arguments of the subprocess.
    pub open spec fn arguments(self) -> Seq<Seq<char>> {
        seq![
            "--codec"@,
            "yuv420"@,
            "--width"@,
            text::decimal(self.width as nat),
            "--height"@,
            text::decimal(self.height as nat),
            "--framerate"@,
            text::decimal(self.framerate as nat),
            "--timeout"@,
            "0"@,
            "--nopreview"@,
            "-o"@,
            "-"@,
        ]
    }

    /// Starts counting frames and returns the arguments of the subprocess, which
    /// runs until it is stopped and writes to its standard output.
    pub fn start(&mut self) -> (res: Vec<String>)
        ensures
            text::string_list(res@) == old(self).arguments(),
            *final(self) == (LibcameraSource { frame_count: 0, ..*old(self) }),
    {
        self.frame_count = 0;
        let mut args: Vec<String> = Vec::new();
        assert(text::string_list(args@) =~= Seq::<Seq<char>>::empty());
        say(&mut args, "--codec".to_owned());
        say(&mut args, "yuv420".to_owned());
        say(&mut args, "--width".to_owned());
        say(&mut args, text::decimal_text(self.width as u64));
        say(&mut args, "--height".to_owned());
        say(&mut args, text::decimal_text(self.height as u64));
        say(&mut args, "--framerate".to_owned());
        say(&mut args, text::decimal_text(self.framerate as u64));
        say(&mut args, "--timeout".to_owned());
        say(&mut args, "0".to_owned());
        say(&mut args, "--nopreview".to_owned());
        say(&mut args, "-o".to_owned());
        say(&mut args, "-".to_owned());
        assert(text::string_list(args@) =~= old(self).arguments());
        args
    }

    /// Takes the bytes of one frame and returns its planes: the luma plane, then
    /// the two chroma planes of a quarter of its size each.
    pub fn pop_frame(&mut self, frame: &Vec<u8>) -> (res: (Planes, CaptureLog))
        requires
            old(self).wf(),
            frame@.len() == old(self).frame_size,
            old(self).frame_count < u64::MAX,
        ensures
            final(self).wf(),
            *final(self) == (LibcameraSource {
                frame_count: (old(self).frame_count + 1) as u64,
                ..*old(self)
            }),
            ({
                let luma = old(self).width * old(self).height;
                let chroma = luma / 4;
                &&& res.0.y@ == frame@.subrange(0, luma)
                &&& res.0.u@ == frame@.subrange(luma, luma + chroma)
                &&& res.0.v@ == frame@.subrange(luma + chroma, luma + 2 * chroma)
            }),
            res.1 == if final(self).frame_count == 1 {
                CaptureLog::First
            } else if old(self).framerate > 0 && final(self).frame_count as int % (old(
                self,
            ).framerate * 5) == 0 {
                CaptureLog::Running
            } else {
                CaptureLog::Quiet
            },
    {
        assert(0 <= self.width * self.height) by (nonlinear_arith)
            requires
                self.width >= 0,
                self.height >= 0,
        ;
        let luma: usize = (self.width * self.height) as usize;
        let chroma: usize = luma / 4;
        let y = part(frame, 0, luma);
        let u = part(frame, luma, luma + chroma);
        let v = part(frame, luma + chroma, luma + 2 * chroma);
        self.frame_count = self.frame_count + 1;
        let every: u64 = self.framerate as u64 * 5;
        let log = if self.frame_count == 1 {
            CaptureLog::First
        } else if every > 0 && self.frame_count % every == 0 {
            CaptureLog::Running
        } else {
            CaptureLog::Quiet
        };
        (Planes { y, u, v }, log)
    }
}

/// The three planes are the frame: nothing is left over where the picture has a
/// multiple of four pixels.
pub proof fn law_the_planes_are_the_frame(source: LibcameraSource, frame: Seq<u8>)
    requires
        source.wf(),
        frame.len() == source.frame_size,
        (source.width * source.height) % 4 == 0,
    ensures
        ({
            let luma = source.width * source.height;
            let chroma = luma / 4;
            frame.subrange(0, luma) + frame.subrange(luma, luma + chroma) + frame.subrange(
                luma + chroma,
                luma + 2 * chroma,
            ) == frame
        }),
{
    let luma = source.width * source.height;
    let chroma = luma / 4;
    assert(0 <= luma) by (nonlinear_arith)
        requires
            luma == source.width * source.height,
            source.width >= 0,
            source.height >= 0,
    ;
    assert(frame.subrange(0, luma) + frame.subrange(luma, luma + chroma) + frame.subrange(
        luma + chroma,
        luma + 2 * chroma,
    ) =~= frame);
}

/// The camera is asked for its size and rate, each behind its option, and for raw
/// frames on its standard output, without an end.
pub proof fn law_the_camera_is_asked_for_its_size(source: LibcameraSource)
    ensures
        ({
            let arguments = source.arguments();
            &&& arguments.contains("--nopreview"@)
            &&& arguments[arguments.index_of("--codec"@) + 1] == "yuv420"@
            &&& arguments[arguments.len() - 2] == "-o"@
            &&& arguments.last() == "-"@
            &&& exists|i: int|
                0 <= i < arguments.len() - 1 && #[trigger] arguments[i] == "--width"@ && arguments[i
                    + 1] == text::decimal(source.width as nat)
            &&& exists|i: int|
                0 <= i < arguments.len() - 1 && #[trigger] arguments[i] == "--height"@
                    && arguments[i + 1] == text::decimal(source.height as nat)
            &&& exists|i: int|
                0 <= i < arguments.len() - 1 && #[trigger] arguments[i] == "--framerate"@
                    && arguments[i + 1] == text::decimal(source.framerate as nat)
            &&& exists|i: int|
                0 <= i < arguments.len() - 1 && #[trigger] arguments[i] == "--timeout"@
                    && arguments[i + 1] == "0"@
            &&& arguments.len() == 13
        }),
{
    let arguments = source.arguments();
    reveal_strlit("--codec");
    reveal_strlit("yuv420");
    assert(arguments[0] == "--codec"@);
    assert(arguments[10] == "--nopreview"@);
    assert(arguments[2] == "--width"@ && arguments[4] == "--height"@);
    assert(arguments[6] == "--framerate"@ && arguments[8] == "--timeout"@);
    lemma_codec_once(source);
}

/// The codec is asked for once.
proof fn lemma_codec_once(source: LibcameraSource)
    ensures
        source.arguments().index_of("--codec"@) == 0,
{
    let arguments = source.arguments();
    reveal_strlit("--codec");
    reveal_strlit("yuv420");
    reveal_strlit("--width");
    reveal_strlit("--height");
    reveal_strlit("--framerate");
    reveal_strlit("--timeout");
    reveal_strlit("0");
    reveal_strlit("--nopreview");
    reveal_strlit("-o");
    reveal_strlit("-");
    text::law_a_decimal_reads_back(source.width as nat);
    text::law_a_decimal_reads_back(source.height as nat);
    text::law_a_decimal_reads_back(source.framerate as nat);
    let codec = "--codec"@;
    assert(codec[0] == '-' && codec[2] == 'c');
    assert forall|i: int| 0 < i < 13 implies #[trigger] arguments[i] != codec by {
        let one = arguments[i];
        assert(one.len() < 3 || one[0] != '-' || one[2] != 'c');
    }
    assert(arguments[0] == codec);
}

/// A frame has a byte of luma for each pixel, and half as many of chroma.
pub proof fn law_a_frame_has_half_as_much_chroma(source: LibcameraSource)
    requires
        source.wf(),
        (source.width * source.height) % 2 == 0,
    ensures
        source.frame_size - source.width * source.height == (source.width * source.height) / 2,
{
}

} // verus!
