//! The GLES2 video viewer, in a window or directly on HDMI.
//!
//! The renderer and the windowing stay with the window system. What is decided
//! here is which frames are uploaded and how, when figures are printed, what a
//! window event does, and which output a display is driven through.

use vstd::prelude::*;

use crate::text;

verus! {

/// How many milliseconds pass between two looks for a frame.
pub const POLL_INTERVAL: u64 = 4;

/// How many milliseconds of frames a figure covers.
pub const STATS_INTERVAL: u64 = 1_000;

/// Follows a video track: which frame was shown last, and how many were new.
///
/// Timestamps are in nanoseconds, times in milliseconds.
#[derive(Debug, Clone, Copy, PartialEq, Eq, Structural)]
pub struct Viewer {
    /// The timestamp of the frame that was uploaded last.
    pub last_ts: Option<u128>,
    /// Frames uploaded since the figures were last printed.
    pub frame_count: u64,
    /// When the figures were last printed.
    pub fps_last: u64,
}

impl Viewer {
    /// Starts at time `now`.
    pub fn new(now: u64) -> (res: Self)
        ensures
            res == (Viewer { last_ts: None, frame_count: 0, fps_last: now }),
    {
        Viewer { last_ts: None, frame_count: 0, fps_last: now }
    }

    /// Whether a frame is new.
    pub open spec fn is_new(self, frame: Option<u128>) -> bool {
        frame is Some && self.last_ts != frame
    }

    /// Takes the timestamp of the current frame, if there is one, and returns
    /// whether the frame is new and has to be uploaded.
    pub fn try_upload_frame(&mut self, frame: Option<u128>) -> (res: bool)
        requires
            old(self).frame_count < u64::MAX,
        ensures
            res == old(self).is_new(frame),
            *final(self) == if res {
                Viewer {
                    last_ts: frame,
                    frame_count: (old(self).frame_count + 1) as u64,
                    fps_last: old(self).fps_last,
                }
            } else {
                *old(self)
            },
    {
        let timestamp: u128 = match frame {
            Some(timestamp) => timestamp,
            None => {
                return false;
            },
        };
        if let Some(last) = self.last_ts {
            if last == timestamp {
                return false;
            }
        }
        self.last_ts = Some(timestamp);
        self.frame_count += 1;
        true
    }

    /// Returns the frames and the milliseconds to make a figure of, once a
    /// second, and starts counting anew.
    pub fn stats(&mut self, now: u64) -> (res: Option<(u64, u64)>)
        requires
            old(self).fps_last <= now,
        ensures
            if now - old(self).fps_last < STATS_INTERVAL {
                res is None && *final(self) == *old(self)
            } else {
                &&& res == Some((old(self).frame_count, (now - old(self).fps_last) as u64))
                &&& *final(self) == (Viewer { frame_count: 0, fps_last: now, ..*old(self) })
            },
    {
        let elapsed: u64 = now - self.fps_last;
        if elapsed < STATS_INTERVAL {
            return None;
        }
        let frames: u64 = self.frame_count;
        self.frame_count = 0;
        self.fps_last = now;
        Some((frames, elapsed))
    }
}

/// A network path of a session.
#[derive(Debug, Clone, Copy, PartialEq, Eq, Structural)]
pub struct PathInfo {
    /// Whether the session sends on it.
    pub selected: bool,
    /// The round trip in milliseconds, where it is known.
    pub rtt: Option<u64>,
}

/// The round trip of the first selected path, or zero.
pub open spec fn rtt_of(paths: Seq<PathInfo>) -> u64
    decreases paths.len(),
{
    if paths.len() == 0 {
        0
    } else if paths[0].selected {
        match paths[0].rtt {
            Some(rtt) => rtt,
            None => 0,
        }
    } else {
        rtt_of(paths.skip(1))
    }
}

/// Returns the round trip of the path that the session sends on, or zero.
pub fn selected_rtt(paths: &[PathInfo]) -> (res: u64)
    ensures
        res == rtt_of(paths@),
{
    let mut i: usize = 0;
    assert(paths@.skip(0) =~= paths@);
    while i < paths.len()
        invariant
            i <= paths@.len(),
            rtt_of(paths@) == rtt_of(paths@.skip(i as int)),
        decreases paths@.len() - i,
    {
        let ghost rest = paths@.skip(i as int);
        assert(rest[0] == paths@[i as int]);
        if paths[i].selected {
            return match paths[i].rtt {
                Some(rtt) => rtt,
                None => 0,
            };
        }
        assert(rest.skip(1) =~= paths@.skip(i + 1));
        i += 1;
    }
    0
}

/// Returns the line of figures. `fps` is the text of the frame rate.
pub fn stats_line(fps: &str, rtt: u64, decoder: &str) -> (res: String)
    ensures
        res@ == "fps: "@ + fps@ + "  rtt: "@ + text::decimal(rtt as nat) + "ms  decoder: "@
            + decoder@,
{
    "fps: ".to_owned().concat(fps).concat("  rtt: ").concat(
        text::decimal_text(rtt).as_str(),
    ).concat("ms  decoder: ").concat(decoder)
}

/// How a frame is uploaded.
#[derive(Debug, Clone, Copy, PartialEq, Eq, Structural)]
pub enum Upload {
    /// The texture is allocated anew, at the frame's size.
    Allocate,
    /// The texture has the frame's size, and its pixels are replaced.
    Replace,
}

/// The size of the texture that frames are uploaded to.
#[derive(Debug, Clone, Copy, PartialEq, Eq, Structural)]
pub struct Texture {
    pub width: u32,
    pub height: u32,
}

impl Texture {
    /// Starts with no texture.
    pub fn new() -> (res: Self)
        ensures
            res == (Texture { width: 0, height: 0 }),
    {
        Texture { width: 0, height: 0 }
    }

    /// Takes a frame of this size and returns how it is uploaded.
    pub fn upload(&mut self, width: u32, height: u32) -> (res: Upload)
        ensures
            res == if old(self).width == width && old(self).height == height {
                Upload::Replace
            } else {
                Upload::Allocate
            },
            *final(self) == (Texture { width, height }),
    {
        if width != self.width || height != self.height {
            self.width = width;
            self.height = height;
            Upload::Allocate
        } else {
            Upload::Replace
        }
    }
}

/// What happened to the window.
#[derive(Debug, Clone, Copy, PartialEq, Eq, Structural)]
pub enum WindowEvent {
    CloseRequested,
    /// A key went down or up, and whether it is Escape.
    Key { escape: bool, pressed: bool },
    /// The window has this width and height now.
    Resized(u32, u32),
    RedrawRequested,
    /// Anything else.
    Other,
}

/// What the viewer does about it.
#[derive(Debug, Clone, Copy, PartialEq, Eq, Structural)]
pub enum WindowAct {
    Nothing,
    /// Leave the event loop.
    Exit,
    /// Resize the surface.
    Resize(u32, u32),
    /// Upload the current frame if it is new, draw, print the figures, and ask
    /// for the next redraw after [`POLL_INTERVAL`].
    Redraw,
}

/// A side of a surface, which is not empty even where the window is.
pub open spec fn side(length: u32) -> u32 {
    if length > 1 {
        length
    } else {
        1
    }
}

/// Returns the side of a surface for a window, which is not empty even where the
/// window is.
pub fn surface_side(length: u32) -> (res: u32)
    ensures
        res == side(length),
        res >= 1,
{
    if length > 1 {
        length
    } else {
        1
    }
}

/// Decides what a window event does. `ready` tells whether the window has its
/// surface and renderer.
pub fn window_event(event: WindowEvent, ready: bool) -> (res: WindowAct)
    ensures
        res == match event {
            WindowEvent::CloseRequested => WindowAct::Exit,
            WindowEvent::Key { escape, pressed } => if escape && pressed {
                WindowAct::Exit
            } else {
                WindowAct::Nothing
            },
            WindowEvent::Resized(width, height) => if ready {
                WindowAct::Resize(side(width), side(height))
            } else {
                WindowAct::Nothing
            },
            WindowEvent::RedrawRequested => if ready {
                WindowAct::Redraw
            } else {
                WindowAct::Nothing
            },
            WindowEvent::Other => WindowAct::Nothing,
        },
{
    match event {
        WindowEvent::CloseRequested => WindowAct::Exit,
        WindowEvent::Key { escape, pressed } => if escape && pressed {
            WindowAct::Exit
        } else {
            WindowAct::Nothing
        },
        WindowEvent::Resized(width, height) => if ready {
            WindowAct::Resize(surface_side(width), surface_side(height))
        } else {
            WindowAct::Nothing
        },
        WindowEvent::RedrawRequested => if ready {
            WindowAct::Redraw
        } else {
            WindowAct::Nothing
        },
        WindowEvent::Other => WindowAct::Nothing,
    }
}

/// The devices that are tried for output, in order.
pub const CARDS: [&'static str; 2] = ["/dev/dri/card1", "/dev/dri/card0"];

/// Returns the device to open next, after this many failed to open.
///
/// A device is tried only once every one before it failed.
pub fn open_card(failed: usize) -> (res: Result<&'static str, String>)
    ensures
        match res {
            Ok(path) => failed < 2 && path@ == CARDS@[failed as int]@,
            Err(problem) => failed >= 2 && problem@ == "no DRM device found"@,
        },
{
    if failed < 2 {
        let cards: [&'static str; 2] = CARDS;
        return Ok(cards[failed]);
    }
    Err("no DRM device found".to_owned())
}

/// What the encoder of a connector leads to.
#[derive(Debug, Clone, Copy, PartialEq, Eq, Structural)]
pub enum EncoderProbe {
    /// The connector has no encoder.
    Missing,
    /// The encoder could not be read.
    Failed,
    /// The encoder drives no CRTC.
    Idle,
    /// The encoder drives this CRTC.
    Crtc(u32),
}

/// What is found on a connector.
#[derive(Debug, Clone, Copy, PartialEq, Eq, Structural)]
pub enum ConnectorProbe {
    /// The connector could not be read.
    Failed,
    /// Nothing is plugged in.
    Disconnected,
    /// A display is plugged in: whether it has a mode, the width and height of
    /// the first, and what its encoder leads to.
    Connected { has_mode: bool, width: u16, height: u16, encoder: EncoderProbe },
}

/// The output that a display is driven through.
#[derive(Debug, Clone, Copy, PartialEq, Eq, Structural)]
pub struct Output {
    /// The place of the connector in the list.
    pub connector: usize,
    pub crtc: u32,
    pub width: u32,
    pub height: u32,
}

/// What a connector at a place decides: an output, a problem, or nothing.
pub open spec fn probe_outcome(probe: ConnectorProbe, at: nat) -> Option<
    Result<Output, Seq<char>>,
> {
    match probe {
        ConnectorProbe::Failed => Some(Err("get_connector"@)),
        ConnectorProbe::Disconnected => None,
        ConnectorProbe::Connected { has_mode, width, height, encoder } => if !has_mode {
            Some(Err("connector has no modes"@))
        } else {
            match encoder {
                EncoderProbe::Missing => Some(Err("no encoder"@)),
                EncoderProbe::Failed => Some(Err("get_encoder"@)),
                EncoderProbe::Idle => Some(Err("no CRTC"@)),
                EncoderProbe::Crtc(crtc) => Some(
                    Ok(
                        Output {
                            connector: at as usize,
                            crtc,
                            width: width as u32,
                            height: height as u32,
                        },
                    ),
                ),
            }
        },
    }
}

/// The output that the connectors from a place on lead to.
pub open spec fn output_from(probes: Seq<ConnectorProbe>, at: nat) -> Result<Output, Seq<char>>
    decreases probes.len() - at,
{
    if at >= probes.len() {
        Err("no connected display found"@)
    } else {
        match probe_outcome(probes[at as int], at) {
            Some(outcome) => outcome,
            None => output_from(probes, at + 1),
        }
    }
}

/// Finds a connected output: the first connector that has a display, at its
/// first mode.
pub fn choose_output(probes: &[ConnectorProbe]) -> (res: Result<Output, String>)
    ensures
        match (res, output_from(probes@, 0)) {
            (Ok(output), Ok(want)) => output == want,
            (Err(problem), Err(want)) => problem@ == want,
            _ => false,
        },
{
    let mut at: usize = 0;
    while at < probes.len()
        invariant
            at <= probes@.len(),
            output_from(probes@, 0) == output_from(probes@, at as nat),
        decreases probes@.len() - at,
    {
        match probes[at] {
            ConnectorProbe::Failed => {
                return Err("get_connector".to_owned());
            },
            ConnectorProbe::Disconnected => {},
            ConnectorProbe::Connected { has_mode, width, height, encoder } => {
                if !has_mode {
                    return Err("connector has no modes".to_owned());
                }
                return match encoder {
                    EncoderProbe::Missing => Err("no encoder".to_owned()),
                    EncoderProbe::Failed => Err("get_encoder".to_owned()),
                    EncoderProbe::Idle => Err("no CRTC".to_owned()),
                    EncoderProbe::Crtc(crtc) => Ok(
                        Output {
                            connector: at,
                            crtc,
                            width: width as u32,
                            height: height as u32,
                        },
                    ),
                };
            },
        }
        at += 1;
    }
    Err("no connected display found".to_owned())
}

/// Returns the line that names the size of the output.
pub fn output_line(output: Output) -> (res: String)
    ensures
        res@ == "rendering to HDMI ("@ + text::decimal(output.width as nat) + "x"@ + text::decimal(
            output.height as nat,
        ) + ")"@,
{
    "rendering to HDMI (".to_owned().concat(
        text::decimal_text(output.width as u64).as_str(),
    ).concat("x").concat(text::decimal_text(output.height as u64).as_str()).concat(")")
}

/// A frame is uploaded once, however often it is seen.
pub proof fn law_a_frame_is_uploaded_once(viewer: Viewer, frame: u128, count: u64)
    ensures
        !(Viewer { last_ts: Some(frame), frame_count: count, ..viewer }).is_new(Some(frame)),
        viewer.last_ts != Some(frame) ==> viewer.is_new(Some(frame)),
{
}

/// Where an output is found, every connector before it has no display, and it
/// has one with a mode and a CRTC.
pub proof fn law_the_first_display_is_driven(probes: Seq<ConnectorProbe>, at: nat)
    requires
        at <= probes.len() <= usize::MAX,
        output_from(probes, at) is Ok,
    ensures
        ({
            let output = output_from(probes, at)->Ok_0;
            &&& at <= output.connector < probes.len()
            &&& forall|i: int|
                at <= i < output.connector ==> #[trigger] probes[i] is Disconnected
            &&& probes[output.connector as int] == (ConnectorProbe::Connected {
                has_mode: true,
                width: output.width as u16,
                height: output.height as u16,
                encoder: EncoderProbe::Crtc(output.crtc),
            })
        }),
    decreases probes.len() - at,
{
    if at < probes.len() {
        match probe_outcome(probes[at as int], at) {
            Some(_) => {},
            None => {
                law_the_first_display_is_driven(probes, at + 1);
            },
        }
    }
}

/// The round trip is that of the selected path, and zero where there is none or it
/// is not known.
pub proof fn law_the_selected_path_gives_the_round_trip(
    before: Seq<PathInfo>,
    path: PathInfo,
    after: Seq<PathInfo>,
)
    requires
        forall|i: int| 0 <= i < before.len() ==> !(#[trigger] before[i]).selected,
    ensures
        rtt_of(before) == 0,
        path.selected && path.rtt is Some ==> rtt_of(before + seq![path] + after) == path.rtt->0,
        path.selected && path.rtt is None ==> rtt_of(before + seq![path] + after) == 0,
        !path.selected ==> rtt_of(before + seq![path] + after) == rtt_of(after),
    decreases before.len(),
{
    let all = before + seq![path] + after;
    if before.len() > 0 {
        law_the_selected_path_gives_the_round_trip(before.skip(1), path, after);
        assert(all[0] == before[0]);
        assert(all.skip(1) =~= before.skip(1) + seq![path] + after);
    } else {
        assert(all[0] == path);
        assert(all.skip(1) =~= after);
    }
}

/// A surface is as long as it is asked to be, and never empty.
pub proof fn law_a_surface_is_never_empty(length: u32)
    ensures
        side(length) >= 1,
        length >= 1 ==> side(length) == length,
        length == 0 ==> side(length) == 1,
{
}

/// A connector without a display is passed over. The first other one decides:
/// without a mode, an encoder or a controller it is an error, each told as such.
pub proof fn law_the_first_connected_display_decides(probes: Seq<ConnectorProbe>, at: nat)
    requires
        at <= probes.len() <= usize::MAX,
    ensures
        at == probes.len() ==> output_from(probes, at) == Err::<Output, Seq<char>>(
            "no connected display found"@,
        ),
        at < probes.len() ==> match probes[at as int] {
            ConnectorProbe::Disconnected => output_from(probes, at) == output_from(probes, at + 1),
            ConnectorProbe::Failed => output_from(probes, at) == Err::<Output, Seq<char>>(
                "get_connector"@,
            ),
            ConnectorProbe::Connected { has_mode, width, height, encoder } => {
                &&& output_from(probes, at) is Ok <==> has_mode && encoder is Crtc
                &&& !has_mode ==> output_from(probes, at) == Err::<Output, Seq<char>>(
                    "connector has no modes"@,
                )
                &&& has_mode && encoder is Missing ==> output_from(probes, at) == Err::<
                    Output,
                    Seq<char>,
                >("no encoder"@)
                &&& has_mode && encoder is Failed ==> output_from(probes, at) == Err::<
                    Output,
                    Seq<char>,
                >("get_encoder"@)
                &&& has_mode && encoder is Idle ==> output_from(probes, at) == Err::<
                    Output,
                    Seq<char>,
                >("no CRTC"@)
                &&& has_mode && encoder is Crtc ==> ({
                    let output = output_from(probes, at)->Ok_0;
                    output.connector == at && output.width == width && output.height == height
                        && encoder == EncoderProbe::Crtc(output.crtc)
                })
            },
        },
{
}

/// Only a frame that is there and is not the last one shown is new.
pub proof fn law_no_frame_is_not_new(viewer: Viewer, frame: Option<u128>)
    ensures
        !viewer.is_new(None),
        viewer.last_ts is None && frame is Some ==> viewer.is_new(frame),
        viewer.is_new(frame) ==> frame is Some && viewer.last_ts != frame,
{
}

} // verus!
