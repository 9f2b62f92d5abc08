//! On-device codec tests: encoder-only, decoder-only, and encode-decode round
//! trip.
//!
//! The tests are bookkeeping around an encoder and a decoder: they count what
//! comes out, report progress, wait for a pipeline to run dry, and decide
//! whether the codec passed.

use vstd::prelude::*;

use crate::text;

verus! {

/// What an encoder is set up with.
#[derive(Debug, Clone, Copy, PartialEq, Eq, Structural)]
pub struct EncoderConfig {
    pub width: u32,
    pub height: u32,
    /// Frames per second.
    pub framerate: u32,
    /// Bits per second, where the preset sets it.
    pub bitrate: Option<u64>,
}

/// Returns a preset's configuration at another size, with 30 frames per second.
pub fn make_encoder_config(preset: EncoderConfig, width: u32, height: u32) -> (res: EncoderConfig)
    ensures
        res == (EncoderConfig { width, height, framerate: 30, bitrate: preset.bitrate }),
{
    EncoderConfig { width, height, framerate: 30, bitrate: preset.bitrate }
}

/// One of the tests.
#[derive(Debug, Clone, Copy, PartialEq, Eq, Structural)]
pub enum CodecTest {
    /// Feeds a test pattern to the hardware encoder.
    Encode,
    /// Encodes in software, then decodes in hardware.
    Decode,
    /// Encodes and decodes in hardware.
    Roundtrip,
}

/// The tests that a name asks for.
pub open spec fn tests_named(name: Seq<char>) -> Option<Seq<CodecTest>> {
    if name == "encode"@ {
        Some(seq![CodecTest::Encode])
    } else if name == "decode"@ {
        Some(seq![CodecTest::Decode])
    } else if name == "roundtrip"@ || name == "rt"@ {
        Some(seq![CodecTest::Roundtrip])
    } else if name == "all"@ {
        Some(seq![CodecTest::Encode, CodecTest::Decode, CodecTest::Roundtrip])
    } else {
        None
    }
}

/// Returns the tests that a name asks for, in the order in which they run until
/// one fails, or a message for a name that asks for none.
pub fn tests_to_run(name: &str) -> (res: Result<Vec<CodecTest>, String>)
    ensures
        match res {
            Ok(tests) => tests_named(name@) == Some(tests@),
            Err(message) => tests_named(name@) is None && message@ == "unknown test: "@ + name@
                + ". Use encode, decode, roundtrip, or all."@,
        },
{
    let mut tests: Vec<CodecTest> = Vec::new();
    if text::same(name, "encode") {
        tests.push(CodecTest::Encode);
        assert(tests@ =~= seq![CodecTest::Encode]);
    } else if text::same(name, "decode") {
        tests.push(CodecTest::Decode);
        assert(tests@ =~= seq![CodecTest::Decode]);
    } else if text::same(name, "roundtrip") || text::same(name, "rt") {
        tests.push(CodecTest::Roundtrip);
        assert(tests@ =~= seq![CodecTest::Roundtrip]);
    } else if text::same(name, "all") {
        tests.push(CodecTest::Encode);
        tests.push(CodecTest::Decode);
        tests.push(CodecTest::Roundtrip);
        assert(tests@ =~= seq![CodecTest::Encode, CodecTest::Decode, CodecTest::Roundtrip]);
    } else {
        return Err(
            "unknown test: ".to_owned().concat(name).concat(
                ". Use encode, decode, roundtrip, or all.",
            ),
        );
    }
    Ok(tests)
}

/// The name of a test in its heading.
pub open spec fn title_of(test: CodecTest) -> Seq<char> {
    match test {
        CodecTest::Encode => "ENCODER"@,
        CodecTest::Decode => "DECODER"@,
        CodecTest::Roundtrip => "ROUNDTRIP"@,
    }
}

/// Returns the heading of a test.
pub fn heading(test: CodecTest, frames: u32, width: u32, height: u32) -> (res: String)
    ensures
        res@ == "=== V4L2 "@ + title_of(test) + " TEST ("@ + text::decimal(frames as nat)
            + " frames, "@ + text::decimal(width as nat) + "x"@ + text::decimal(height as nat)
            + ") ==="@,
{
    let title: &str = match test {
        CodecTest::Encode => "ENCODER",
        CodecTest::Decode => "DECODER",
        CodecTest::Roundtrip => "ROUNDTRIP",
    };
    "=== V4L2 ".to_owned().concat(title).concat(" TEST (").concat(
        text::decimal_text(frames as u64).as_str(),
    ).concat(" frames, ").concat(text::decimal_text(width as u64).as_str()).concat("x").concat(
        text::decimal_text(height as u64).as_str(),
    ).concat(") ===")
}

/// Whether progress is reported after step `done` of `total`: after the first,
/// the last, and every tenth.
pub open spec fn reports(done: int, total: int) -> bool {
    done == 1 || done == total || done % 10 == 0
}

/// What the encoder test has seen.
#[derive(Debug, Clone, Copy, PartialEq, Eq, Structural)]
pub struct EncodeTally {
    /// Frames to encode.
    pub frames: u32,
    /// Frames encoded.
    pub done: u32,
    pub packets: u32,
    pub keyframes: u32,
    pub bytes: usize,
}

impl EncodeTally {
    /// The line of progress after a frame, where one is due.
    pub open spec fn progress(self) -> Option<Seq<char>> {
        if reports(self.done as int, self.frames as int) {
            Some(
                "  frame "@ + text::decimal(self.done as nat) + ": "@ + text::decimal(
                    self.packets as nat,
                ) + " packets, "@ + text::decimal(self.keyframes as nat) + " keyframes, "@
                    + text::decimal(self.bytes as nat) + " bytes"@,
            )
        } else {
            None
        }
    }

    /// Starts a test of this many frames.
    pub fn new(frames: u32) -> (res: Self)
        ensures
            res == (EncodeTally { frames, done: 0, packets: 0, keyframes: 0, bytes: 0 }),
    {
        EncodeTally { frames, done: 0, packets: 0, keyframes: 0, bytes: 0 }
    }

    /// Counts a packet.
    pub fn packet(&mut self, keyframe: bool, len: usize)
        requires
            old(self).packets < u32::MAX,
            old(self).keyframes <= old(self).packets,
            old(self).bytes + len <= usize::MAX,
        ensures
            *final(self) == (EncodeTally {
                packets: (old(self).packets + 1) as u32,
                keyframes: if keyframe {
                    (old(self).keyframes + 1) as u32
                } else {
                    old(self).keyframes
                },
                bytes: (old(self).bytes + len) as usize,
                ..*old(self)
            }),
            final(self).keyframes <= final(self).packets,
    {
        if keyframe {
            self.keyframes += 1;
        }
        self.bytes += len;
        self.packets += 1;
    }

    /// Counts a frame, and returns a line of progress where one is due.
    pub fn frame(&mut self) -> (res: Option<String>)
        requires
            old(self).done < old(self).frames,
        ensures
            *final(self) == (EncodeTally { done: (old(self).done + 1) as u32, ..*old(self) }),
            text::opt_text(res) == final(self).progress(),
    {
        self.done += 1;
        if self.done == 1 || self.done == self.frames || self.done % 10 == 0 {
            Some(
                "  frame ".to_owned().concat(text::decimal_text(self.done as u64).as_str()).concat(
                    ": ",
                ).concat(text::decimal_text(self.packets as u64).as_str()).concat(
                    " packets, ",
                ).concat(text::decimal_text(self.keyframes as u64).as_str()).concat(
                    " keyframes, ",
                ).concat(text::decimal_text(self.bytes as u64).as_str()).concat(" bytes"),
            )
        } else {
            None
        }
    }

    /// Decides whether the encoder passed.
    pub fn finish(&self) -> (res: Result<(), String>)
        ensures
            match res {
                Ok(_) => self.packets > 0 && self.keyframes > 0,
                Err(problem) => {
                    ||| self.packets == 0 && problem@ == "encoder produced no packets"@
                    ||| self.packets > 0 && self.keyframes == 0 && problem@
                        == "encoder produced no keyframes"@
                },
            },
    {
        if self.packets == 0 {
            return Err("encoder produced no packets".to_owned());
        }
        if self.keyframes == 0 {
            return Err("encoder produced no keyframes".to_owned());
        }
        Ok(())
    }
}

/// How many looks in a row find no frame before a decoder is taken to have run
/// dry.
pub const IDLE_LOOKS: u32 = 10;

/// How many milliseconds pass between two such looks. The pipeline latency is
/// several frames, so a decoder is idle only after half a second without one.
pub const IDLE_PAUSE: u64 = 50;

/// A number with at least four digits.
pub open spec fn four_digits(n: nat) -> Seq<char> {
    if n < 10 {
        "000"@ + text::decimal(n)
    } else if n < 100 {
        "00"@ + text::decimal(n)
    } else if n < 1000 {
        "0"@ + text::decimal(n)
    } else {
        text::decimal(n)
    }
}

/// Returns a number with at least four digits.
fn padded(n: u32) -> (res: String)
    ensures
        res@ == four_digits(n as nat),
{
    let digits = text::decimal_text(n as u64);
    if n < 10 {
        "000".to_owned().concat(digits.as_str())
    } else if n < 100 {
        "00".to_owned().concat(digits.as_str())
    } else if n < 1000 {
        "0".to_owned().concat(digits.as_str())
    } else {
        digits
    }
}

/// What a decoder test has seen.
#[derive(Debug, Clone, Copy, PartialEq, Eq, Structural)]
pub struct DecodeTally {
    /// Whether the packets came out of the hardware encoder too.
    pub roundtrip: bool,
    /// Packets to decode.
    pub packets: usize,
    /// Packets fed to the decoder.
    pub fed: usize,
    /// Frames that came out.
    pub decoded: u32,
    /// Looks in a row that found none.
    pub idle: u32,
}

impl DecodeTally {
    /// The line of progress after a packet, where one is due. A round trip
    /// reports none.
    pub open spec fn progress(self) -> Option<Seq<char>> {
        if !self.roundtrip && reports(self.fed as int, self.packets as int) {
            Some(
                "  packet "@ + text::decimal(self.fed as nat) + ": "@ + text::decimal(
                    self.decoded as nat,
                ) + " decoded frames"@,
            )
        } else {
            None
        }
    }

    /// Starts a test of this many packets.
    pub fn new(roundtrip: bool, packets: usize) -> (res: Self)
        ensures
            res == (DecodeTally { roundtrip, packets, fed: 0, decoded: 0, idle: 0 }),
    {
        DecodeTally { roundtrip, packets, fed: 0, decoded: 0, idle: 0 }
    }

    /// Counts a decoded frame, and returns the name that it is saved under.
    pub fn frame(&mut self) -> (res: String)
        requires
            old(self).decoded < u32::MAX,
        ensures
            *final(self) == (DecodeTally {
                decoded: (old(self).decoded + 1) as u32,
                ..*old(self)
            }),
            res@ == (if old(self).roundtrip {
                "roundtrip_"@
            } else {
                "v4l2dec_"@
            }) + four_digits(old(self).decoded as nat),
    {
        let index: u32 = self.decoded;
        self.decoded += 1;
        let prefix: &str = if self.roundtrip {
            "roundtrip_"
        } else {
            "v4l2dec_"
        };
        prefix.to_owned().concat(padded(index).as_str())
    }

    /// Counts a packet that was fed, and returns a line of progress where one is
    /// due. A round trip reports none.
    pub fn packet(&mut self) -> (res: Option<String>)
        requires
            old(self).fed < old(self).packets,
        ensures
            *final(self) == (DecodeTally { fed: (old(self).fed + 1) as usize, ..*old(self) }),
            text::opt_text(res) == final(self).progress(),
    {
        self.fed += 1;
        if !self.roundtrip && (self.fed == 1 || self.fed == self.packets || self.fed % 10 == 0) {
            Some(
                "  packet ".to_owned().concat(text::decimal_text(self.fed as u64).as_str()).concat(
                    ": ",
                ).concat(text::decimal_text(self.decoded as u64).as_str()).concat(
                    " decoded frames",
                ),
            )
        } else {
            None
        }
    }

    /// Whether the decoder may still hold frames.
    pub open spec fn draining(self) -> bool {
        self.idle < IDLE_LOOKS
    }

    /// Takes a look at the decoder that found frames or none, and returns
    /// whether to look again.
    pub fn looked(&mut self, got_any: bool) -> (res: bool)
        requires
            old(self).draining(),
        ensures
            *final(self) == (DecodeTally {
                idle: if got_any {
                    0
                } else {
                    (old(self).idle + 1) as u32
                },
                ..*old(self)
            }),
            res == final(self).draining(),
    {
        if got_any {
            self.idle = 0;
        } else {
            self.idle += 1;
        }
        self.idle < IDLE_LOOKS
    }

    /// Decides whether the decoder passed.
    pub fn finish(&self) -> (res: Result<(), String>)
        ensures
            match res {
                Ok(_) => self.decoded > 0,
                Err(problem) => self.decoded == 0 && problem@ == if self.roundtrip {
                    "roundtrip produced no decoded frames"@
                } else {
                    "V4L2 decoder produced no frames"@
                },
            },
    {
        if self.decoded == 0 {
            if self.roundtrip {
                return Err("roundtrip produced no decoded frames".to_owned());
            }
            return Err("V4L2 decoder produced no frames".to_owned());
        }
        Ok(())
    }
}

/// What the codec answered, in the encoding half of a test.
#[derive(Debug, Clone, Copy, PartialEq, Eq, Structural)]
pub enum EncodeEvent {
    /// A frame was fed to the encoder.
    Fed,
    /// The encoder handed over a packet of this many bytes.
    Packet { keyframe: bool, len: usize },
    /// The encoder has no packet, or failed to hand one over.
    Dry,
}

/// What the encoding half of a test does next.
#[derive(Debug, Clone, Copy, PartialEq, Eq, Structural)]
pub enum EncodeAction {
    /// Take the next frame of the test pattern and feed it to the encoder.
    Feed,
    /// Ask the encoder for a packet.
    Ask,
    /// Stop.
    Finish,
}

impl EncodeTally {
    /// Whether another frame is to be fed.
    pub open spec fn next_feed(self) -> EncodeAction {
        if self.done < self.frames {
            EncodeAction::Feed
        } else {
            EncodeAction::Finish
        }
    }

    /// Returns what a test does first.
    pub fn start(&self) -> (res: EncodeAction)
        ensures
            res == self.next_feed(),
    {
        if self.done < self.frames {
            EncodeAction::Feed
        } else {
            EncodeAction::Finish
        }
    }

    /// Takes what the encoder answered, and returns what to do next, with a line
    /// of progress where one is due.
    ///
    /// Each frame is followed by every packet that the encoder has ready.
    pub fn step(&mut self, event: EncodeEvent) -> (res: (Option<String>, EncodeAction))
        requires
            old(self).done < old(self).frames,
            old(self).keyframes <= old(self).packets < u32::MAX,
            event matches EncodeEvent::Packet { len, .. } ==> old(self).bytes + len <= usize::MAX,
        ensures
            final(self).keyframes <= final(self).packets,
            match event {
                EncodeEvent::Fed => res.0 is None && res.1 == EncodeAction::Ask && *final(self)
                    == *old(self),
                EncodeEvent::Packet { keyframe, len } => {
                    &&& res.0 is None
                    &&& res.1 == EncodeAction::Ask
                    &&& *final(self) == (EncodeTally {
                        packets: (old(self).packets + 1) as u32,
                        keyframes: if keyframe {
                            (old(self).keyframes + 1) as u32
                        } else {
                            old(self).keyframes
                        },
                        bytes: (old(self).bytes + len) as usize,
                        ..*old(self)
                    })
                },
                EncodeEvent::Dry => {
                    &&& *final(self) == (EncodeTally {
                        done: (old(self).done + 1) as u32,
                        ..*old(self)
                    })
                    &&& text::opt_text(res.0) == final(self).progress()
                    &&& res.1 == final(self).next_feed()
                },
            },
    {
        match event {
            EncodeEvent::Fed => (None, EncodeAction::Ask),
            EncodeEvent::Packet { keyframe, len } => {
                self.packet(keyframe, len);
                (None, EncodeAction::Ask)
            },
            EncodeEvent::Dry => {
                let line = self.frame();
                let next = self.start();
                (line, next)
            },
        }
    }
}

/// What the decoder answered, in the decoding half of a test.
#[derive(Debug, Clone, Copy, PartialEq, Eq, Structural)]
pub enum DecodeEvent {
    /// A packet was fed to the decoder.
    Fed,
    /// The decoder handed over a frame.
    Frame,
    /// The frame was saved, where frames are saved.
    Saved,
    /// The decoder has no frame, or failed to hand one over.
    Dry,
    /// The pause is over.
    Paused,
}

/// What the decoding half of a test does next.
#[derive(Debug, PartialEq, Eq)]
pub enum DecodeAction {
    /// Feed the packet at this place to the decoder.
    Feed(usize),
    /// Ask the decoder for a frame.
    Ask,
    /// Save the frame under this name, if frames are saved.
    Save(String),
    /// Wait for [`IDLE_PAUSE`].
    Pause,
    /// Stop.
    Finish,
}

/// A [`DecodeAction`] with its texts as character sequences.
pub enum DecodeActionView {
    Feed(usize),
    Ask,
    Save(Seq<char>),
    Pause,
    Finish,
}

impl View for DecodeAction {
    type V = DecodeActionView;

    open spec fn view(&self) -> DecodeActionView {
        match *self {
            DecodeAction::Feed(at) => DecodeActionView::Feed(at),
            DecodeAction::Ask => DecodeActionView::Ask,
            DecodeAction::Save(name) => DecodeActionView::Save(name@),
            DecodeAction::Pause => DecodeActionView::Pause,
            DecodeAction::Finish => DecodeActionView::Finish,
        }
    }
}

/// The decoding half of a test: every packet is fed, with the frames that are
/// ready drained after each, and then the pipeline is drained until it runs dry.
#[derive(Debug, Clone, Copy, PartialEq, Eq, Structural)]
pub struct DecodeRun {
    pub tally: DecodeTally,
    /// Whether the last look found a frame, once everything is fed.
    pub got_any: bool,
}

impl DecodeRun {
    /// Whether the counts are within bounds and the run is not over.
    pub open spec fn running(self) -> bool {
        &&& self.tally.fed <= self.tally.packets
        &&& self.tally.draining()
        &&& self.tally.decoded < u32::MAX
    }

    /// What follows once the decoder is dry.
    pub open spec fn next_feed(self) -> DecodeActionView {
        if self.tally.fed < self.tally.packets {
            DecodeActionView::Feed(self.tally.fed)
        } else {
            DecodeActionView::Pause
        }
    }

    /// Starts a run over this many packets.
    pub fn new(roundtrip: bool, packets: usize) -> (res: Self)
        ensures
            res.running(),
            res == (DecodeRun {
                tally: DecodeTally { roundtrip, packets, fed: 0, decoded: 0, idle: 0 },
                got_any: false,
            }),
    {
        DecodeRun { tally: DecodeTally::new(roundtrip, packets), got_any: false }
    }

    /// Returns what a run does first.
    pub fn start(&self) -> (res: DecodeAction)
        ensures
            res@ == self.next_feed(),
    {
        if self.tally.fed < self.tally.packets {
            DecodeAction::Feed(self.tally.fed)
        } else {
            DecodeAction::Pause
        }
    }

    /// The run and its action after an event.
    pub open spec fn after(self, event: DecodeEvent) -> (DecodeRun, DecodeActionView) {
        match event {
            DecodeEvent::Fed => (self, DecodeActionView::Ask),
            DecodeEvent::Saved => (self, DecodeActionView::Ask),
            DecodeEvent::Paused => (self, DecodeActionView::Ask),
            DecodeEvent::Frame => (
                DecodeRun {
                    tally: DecodeTally {
                        decoded: (self.tally.decoded + 1) as u32,
                        ..self.tally
                    },
                    got_any: true,
                },
                DecodeActionView::Save(
                    (if self.tally.roundtrip {
                        "roundtrip_"@
                    } else {
                        "v4l2dec_"@
                    }) + four_digits(self.tally.decoded as nat),
                ),
            ),
            DecodeEvent::Dry => if self.tally.fed < self.tally.packets {
                let fed = DecodeRun {
                    tally: DecodeTally { fed: (self.tally.fed + 1) as usize, ..self.tally },
                    got_any: false,
                };
                (fed, fed.next_feed())
            } else {
                let looked = DecodeRun {
                    tally: DecodeTally {
                        idle: if self.got_any {
                            0
                        } else {
                            (self.tally.idle + 1) as u32
                        },
                        ..self.tally
                    },
                    got_any: false,
                };
                (
                    looked,
                    if looked.tally.draining() {
                        DecodeActionView::Pause
                    } else {
                        DecodeActionView::Finish
                    },
                )
            },
        }
    }

    /// Takes what the decoder answered, and returns what to do next, with a line
    /// of progress where one is due.
    pub fn step(&mut self, event: DecodeEvent) -> (res: (Option<String>, DecodeAction))
        requires
            old(self).running(),
        ensures
            *final(self) == old(self).after(event).0,
            res.1@ == old(self).after(event).1,
            text::opt_text(res.0) == if event == DecodeEvent::Dry && old(self).tally.fed < old(
                self,
            ).tally.packets {
                final(self).tally.progress()
            } else {
                None
            },
            final(self).tally.fed <= final(self).tally.packets,
    {
        match event {
            DecodeEvent::Fed => (None, DecodeAction::Ask),
            DecodeEvent::Saved => (None, DecodeAction::Ask),
            DecodeEvent::Paused => (None, DecodeAction::Ask),
            DecodeEvent::Frame => {
                let name = self.tally.frame();
                self.got_any = true;
                (None, DecodeAction::Save(name))
            },
            DecodeEvent::Dry => {
                if self.tally.fed < self.tally.packets {
                    let line = self.tally.packet();
                    self.got_any = false;
                    let next = self.start();
                    (line, next)
                } else {
                    let more = self.tally.looked(self.got_any);
                    self.got_any = false;
                    (
                        None,
                        if more {
                            DecodeAction::Pause
                        } else {
                            DecodeAction::Finish
                        },
                    )
                }
            },
        }
    }
}

/// Returns the line that says where a frame was saved, and how to view it.
pub fn saved_line(path: &str, width: u32, height: u32) -> (res: String)
    ensures
        res@ == "    saved "@ + path@
            + " (view: ffplay -f rawvideo -pixel_format rgba -video_size "@ + text::decimal(
            width as nat,
        ) + "x"@ + text::decimal(height as nat) + " "@ + path@ + ")"@,
{
    "    saved ".to_owned().concat(path).concat(
        " (view: ffplay -f rawvideo -pixel_format rgba -video_size ",
    ).concat(text::decimal_text(width as u64).as_str()).concat("x").concat(
        text::decimal_text(height as u64).as_str(),
    ).concat(" ").concat(path).concat(")")
}

/// Returns the file name of a saved frame.
pub fn frame_file(name: &str, width: u32, height: u32) -> (res: String)
    ensures
        res@ == name@ + "_"@ + text::decimal(width as nat) + "x"@ + text::decimal(height as nat)
            + ".rgba"@,
{
    name.to_owned().concat("_").concat(text::decimal_text(width as u64).as_str()).concat(
        "x",
    ).concat(text::decimal_text(height as u64).as_str()).concat(".rgba")
}

/// The run after some looks at a decoder that was fed everything, each of which
/// found a frame or none.
pub open spec fn idle_after(idle: nat, looks: Seq<bool>) -> nat
    decreases looks.len(),
{
    if looks.len() == 0 {
        idle
    } else if looks.last() {
        0
    } else {
        idle_after(idle, looks.drop_last()) + 1
    }
}

/// The count after some looks is how many of the last found nothing in a row.
/// Ten of them end a run, whatever came before, and no fewer do.
pub proof fn law_a_drain_ends_after_ten_idle_looks(idle: nat, looks: Seq<bool>, quiet: nat)
    requires
        quiet <= looks.len(),
        forall|i: int| looks.len() - quiet <= i < looks.len() ==> !#[trigger] looks[i],
        quiet < looks.len() ==> looks[looks.len() - quiet - 1],
    ensures
        idle_after(idle, looks) == if quiet < looks.len() {
            quiet
        } else {
            idle + quiet
        },
    decreases quiet,
{
    if quiet > 0 {
        let rest = looks.drop_last();
        assert(!looks[looks.len() - 1]);
        assert forall|i: int| rest.len() - (quiet - 1) <= i < rest.len() implies !#[trigger] rest[i] by {
            assert(rest[i] == looks[i]);
        }
        law_a_drain_ends_after_ten_idle_looks(idle, rest, (quiet - 1) as nat);
    } else if looks.len() > 0 {
        assert(looks.last());
    }
}

/// A run stops only once every packet was fed and the last ten looks found
/// nothing.
pub proof fn law_a_run_stops_only_when_dry(run: DecodeRun, event: DecodeEvent)
    requires
        run.running(),
        run.after(event).1 == DecodeActionView::Finish,
    ensures
        run.tally.fed == run.tally.packets,
        event == DecodeEvent::Dry && !run.got_any,
        run.after(event).0.tally.idle == IDLE_LOOKS,
{
}

/// The packets are fed once each, in order: what is fed after a packet is the
/// next one.
pub proof fn law_packets_are_fed_in_order(run: DecodeRun, event: DecodeEvent, at: usize)
    requires
        run.running(),
        run.after(event).1 == DecodeActionView::Feed(at),
    ensures
        at == run.tally.fed + 1,
        at < run.tally.packets,
        run.after(event).0.tally.fed == at,
{
}

/// Each test has its name, `rt` is short for the round trip, and `all` runs every
/// one of them, the encoder first. No other name runs anything.
pub proof fn law_tests_are_run_by_name(name: Seq<char>)
    ensures
        tests_named(name) is Some <==> name == "encode"@ || name == "decode"@ || name
            == "roundtrip"@ || name == "rt"@ || name == "all"@,
        tests_named(name) matches Some(tests) ==> {
            &&& tests.contains(CodecTest::Encode) <==> name == "encode"@ || name == "all"@
            &&& tests.contains(CodecTest::Decode) <==> name == "decode"@ || name == "all"@
            &&& tests.contains(CodecTest::Roundtrip) <==> name == "roundtrip"@ || name == "rt"@
                || name == "all"@
            &&& tests.no_duplicates()
            &&& tests.len() > 1 ==> tests[0] is Encode && tests.last() is Roundtrip
        },
{
    reveal_strlit("encode");
    reveal_strlit("decode");
    reveal_strlit("roundtrip");
    reveal_strlit("rt");
    reveal_strlit("all");
    assert("encode"@[0] == 'e' && "decode"@[0] == 'd' && "roundtrip"@[1] == 'o' && "rt"@[1] == 't'
        && "all"@[0] == 'a' && "roundtrip"@[0] == 'r' && "rt"@[0] == 'r');
    if let Some(tests) = tests_named(name) {
        if name == "all"@ {
            assert(tests[0] is Encode && tests[1] is Decode && tests[2] is Roundtrip);
        } else {
            assert(tests.len() == 1);
            assert(tests.contains(tests[0]));
        }
    }
}

/// The tests are told apart in their headings.
pub proof fn law_headings_differ(one: CodecTest, other: CodecTest)
    requires
        one != other,
    ensures
        title_of(one) != title_of(other),
        one is Encode ==> title_of(one) == "ENCODER"@,
        one is Decode ==> title_of(one) == "DECODER"@,
        one is Roundtrip ==> title_of(one) == "ROUNDTRIP"@,
{
    reveal_strlit("ENCODER");
    reveal_strlit("DECODER");
    reveal_strlit("ROUNDTRIP");
    assert("ENCODER"@[0] == 'E' && "DECODER"@[0] == 'D' && "ROUNDTRIP"@[0] == 'R');
}

/// The first frame is reported, the last one, and each tenth, and nothing between.
pub proof fn law_each_tenth_is_reported(done: int, total: int, tens: int)
    requires
        done > 0,
    ensures
        reports(1, total),
        reports(total, total),
        reports(10 * tens, total),
        done != 1 && done != total && 10 * tens < done < 10 * tens + 10 ==> !reports(done, total),
{
}

/// A report of the encoder tells how far it is and what it made.
pub proof fn law_an_encoder_report_tells_the_tally(tally: EncodeTally)
    ensures
        tally.progress() is Some <==> reports(tally.done as int, tally.frames as int),
        tally.progress() matches Some(line) ==> line == "  frame "@ + text::decimal(
            tally.done as nat,
        ) + ": "@ + text::decimal(tally.packets as nat) + " packets, "@ + text::decimal(
            tally.keyframes as nat,
        ) + " keyframes, "@ + text::decimal(tally.bytes as nat) + " bytes"@,
{
}

/// A report of the decoder tells how far it is and what it made. A round trip is
/// not reported packet by packet.
pub proof fn law_a_decoder_report_tells_the_tally(tally: DecodeTally)
    ensures
        tally.roundtrip ==> tally.progress() is None,
        !tally.roundtrip ==> (tally.progress() is Some <==> reports(
            tally.fed as int,
            tally.packets as int,
        )),
        tally.progress() matches Some(line) ==> line == "  packet "@ + text::decimal(
            tally.fed as nat,
        ) + ": "@ + text::decimal(tally.decoded as nat) + " decoded frames"@,
{
}

/// A number of a saved frame is its decimal behind as many zeros as make four
/// digits.
pub proof fn law_frames_are_numbered_with_four_digits(n: nat)
    ensures
        ({
            let number = four_digits(n);
            let decimal = text::decimal(n);
            &&& n < 10000 ==> number.len() == 4
            &&& n >= 10000 ==> number == decimal
            &&& number.len() >= decimal.len()
            &&& number.skip(number.len() - decimal.len()) == decimal
            &&& forall|i: int| 0 <= i < number.len() - decimal.len() ==> #[trigger] number[i] == '0'
        }),
{
    reveal_strlit("0");
    reveal_strlit("00");
    reveal_strlit("000");
    lemma_decimal_len(n);
    let number = four_digits(n);
    let decimal = text::decimal(n);
    assert(number.skip(number.len() - decimal.len()) =~= decimal);
}

/// A number has as many digits as its size asks for.
proof fn lemma_decimal_len(n: nat)
    ensures
        n < 10 ==> text::decimal(n).len() == 1,
        10 <= n < 100 ==> text::decimal(n).len() == 2,
        100 <= n < 1000 ==> text::decimal(n).len() == 3,
        1000 <= n < 10000 ==> text::decimal(n).len() == 4,
{
    reveal_with_fuel(text::decimal, 5);
    reveal_strlit("0");
    reveal_strlit("1");
    reveal_strlit("2");
    reveal_strlit("3");
    reveal_strlit("4");
    reveal_strlit("5");
    reveal_strlit("6");
    reveal_strlit("7");
    reveal_strlit("8");
    reveal_strlit("9");
}

/// Frames are fed to the encoder until all of them are.
pub proof fn law_every_frame_is_encoded(tally: EncodeTally)
    ensures
        tally.done < tally.frames <==> tally.next_feed() is Feed,
        tally.done >= tally.frames <==> tally.next_feed() is Finish,
{
}

/// Each frame that comes out is counted and saved, and nothing else is. The frames
/// keep their order in their names.
pub proof fn law_each_decoded_frame_is_saved(run: DecodeRun, event: DecodeEvent)
    requires
        run.running(),
    ensures
        ({
            let (next, action) = run.after(event);
            &&& action is Save <==> event is Frame
            &&& next.tally.decoded == run.tally.decoded + if event is Frame {
                1int
            } else {
                0
            }
            &&& action matches DecodeActionView::Save(name) ==> text::ends(
                name,
                four_digits(run.tally.decoded as nat),
            )
            &&& next.tally.packets == run.tally.packets
            &&& next.tally.roundtrip == run.tally.roundtrip
        }),
{
    law_frames_are_numbered_with_four_digits(run.tally.decoded as nat);
    let number = four_digits(run.tally.decoded as nat);
    let (long, short) = ("roundtrip_"@ + number, "v4l2dec_"@ + number);
    assert(long.skip(long.len() - number.len()) =~= number);
    assert(short.skip(short.len() - number.len()) =~= number);
}

/// The decoder is asked until it is dry. Each packet fed makes one step, a frame
/// among the looks keeps the drain going, and a look without one brings its end a
/// step nearer.
pub proof fn law_the_decoder_is_asked_until_it_is_dry(run: DecodeRun, event: DecodeEvent)
    requires
        run.running(),
    ensures
        ({
            let (next, action) = run.after(event);
            &&& event is Fed || event is Saved || event is Paused ==> action is Ask && next == run
            &&& event is Frame ==> next.got_any && next.tally.idle == run.tally.idle
                && next.tally.fed == run.tally.fed
            &&& event is Dry ==> !next.got_any
            &&& event is Dry && run.tally.fed < run.tally.packets ==> next.tally.fed
                == run.tally.fed + 1 && next.tally.idle == run.tally.idle
            &&& event is Dry && run.tally.fed == run.tally.packets ==> next.tally.fed
                == run.tally.fed && next.tally.idle == if run.got_any {
                0int
            } else {
                run.tally.idle + 1
            }
            &&& event is Dry && next.tally.fed == next.tally.packets && next.tally.idle < 10
                ==> action is Pause
        }),
{
}

/// An action is seen as what it is, with what it holds.
pub proof fn law_an_action_is_seen_as_it_is(one: DecodeAction)
    ensures
        one matches DecodeAction::Feed(at) ==> one@ == DecodeActionView::Feed(at),
        one matches DecodeAction::Ask ==> one@ == DecodeActionView::Ask,
        one matches DecodeAction::Save(name) ==> one@ == DecodeActionView::Save(name@),
        one matches DecodeAction::Pause ==> one@ == DecodeActionView::Pause,
        one matches DecodeAction::Finish ==> one@ == DecodeActionView::Finish,
{
}

} // verus!
