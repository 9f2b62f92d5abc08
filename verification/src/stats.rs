//! What the stat bars say: sections of graded lines, made from what a player and
//! a local broadcast report.
//!
//! A reading is a figure that is held as the bits of a double. Its texts come
//! with it.

use vstd::prelude::*;

use crate::text;

verus! {

/// A section of the overlay's bottom bar.
#[derive(Debug, Clone, Copy, PartialEq, Eq, Structural)]
pub enum StatCategory {
    /// The link: round trip, loss and the sender's delivery estimate on a
    /// player; the encoded video leaving a broadcast on the publish side,
    /// which has no link figures of its own.
    Net,
    /// The publish side: the source frame rate, each rendition's encoder, the
    /// audio encoder, and the state of every slot.
    Capture,
    /// The player's video: rendition mode, rendition, decoder, frame rate and
    /// decode time, plus the reason the last switch failed, if one did.
    Render,
    /// The player's audio and the playout latency.
    ///
    /// The latency sits here rather than under `Render` because it is the
    /// jitter allowance plus the audio queued at the speaker, so it moves with
    /// the audio buffer shown next to it.
    Audio,
    /// The player's timeline.
    Time,
}

impl StatCategory {
    /// The short label shown in the bottom bar.
    pub open spec fn title(self) -> Seq<char> {
        match self {
            StatCategory::Net => "NET"@,
            StatCategory::Capture => "CAPTURE"@,
            StatCategory::Render => "RENDER"@,
            StatCategory::Audio => "AUDIO"@,
            StatCategory::Time => "TIME"@,
        }
    }

    /// Returns the short label shown in the bottom bar.
    pub fn label(self) -> (res: &'static str)
        ensures
            res@ == self.title(),
    {
        match self {
            StatCategory::Net => "NET",
            StatCategory::Capture => "CAPTURE",
            StatCategory::Render => "RENDER",
            StatCategory::Audio => "AUDIO",
            StatCategory::Time => "TIME",
        }
    }
}

/// How good a figure is, which picks the color of its line.
#[derive(Debug, Clone, Copy, PartialEq, Eq, Structural)]
pub enum Grade {
    /// Green.
    Good,
    /// Yellow.
    Warn,
    /// Red.
    Bad,
    /// Gray: plain information.
    Dim,
    /// White: a figure that is neither good nor bad.
    Plain,
}

/// The sign of a double, as a bit; the magnitudes below it order as the figures
/// do.
pub const SIGN: u64 = 0x8000_0000_0000_0000;

/// The bits of infinity. Above them, up to the sign, stand the bits of what is
/// not a number.
pub const INFINITE: u64 = 0x7ff0_0000_0000_0000;

/// A double's bits without the sign.
pub open spec fn magnitude(bits: u64) -> int {
    if bits >= SIGN {
        bits - SIGN
    } else {
        bits as int
    }
}

/// Whether these are the bits of a number.
pub open spec fn is_number(bits: u64) -> bool {
    magnitude(bits) <= INFINITE
}

/// Where a number stands among the numbers. Both zeros stand at the same place.
pub open spec fn rank(bits: u64) -> int {
    if bits >= SIGN {
        -magnitude(bits)
    } else {
        magnitude(bits)
    }
}

/// Whether one double is less than another, by their bits. What is not a number
/// is neither less nor greater than anything.
pub open spec fn less(left: u64, right: u64) -> bool {
    is_number(left) && is_number(right) && rank(left) < rank(right)
}

/// Returns whether one double is less than another, by their bits.
pub fn is_less(left: u64, right: u64) -> (res: bool)
    ensures
        res == less(left, right),
{
    let left_size: u64 = if left >= SIGN {
        left - SIGN
    } else {
        left
    };
    let right_size: u64 = if right >= SIGN {
        right - SIGN
    } else {
        right
    };
    if left_size > INFINITE || right_size > INFINITE {
        false
    } else if left >= SIGN {
        if right >= SIGN {
            right_size < left_size
        } else {
            left_size > 0 || right_size > 0
        }
    } else {
        right < SIGN && left_size < right_size
    }
}

/// Grades a figure where lower is better, such as a round trip.
///
/// What is not a number is bad.
pub fn lower_is_better(value: u64, good: u64, warn: u64) -> (res: Grade)
    ensures
        res == low(value, good, warn),
{
    if is_less(value, good) {
        Grade::Good
    } else if is_less(value, warn) {
        Grade::Warn
    } else {
        Grade::Bad
    }
}

/// The grade of a figure where lower is better.
pub open spec fn low(value: u64, good: u64, warn: u64) -> Grade {
    if less(value, good) {
        Grade::Good
    } else if less(value, warn) {
        Grade::Warn
    } else {
        Grade::Bad
    }
}

/// Grades a figure where higher is better, such as a frame rate.
///
/// What is not a number is bad.
pub fn higher_is_better(value: u64, good: u64, warn: u64) -> (res: Grade)
    ensures
        res == high(value, good, warn),
{
    if is_less(good, value) {
        Grade::Good
    } else if is_less(warn, value) {
        Grade::Warn
    } else {
        Grade::Bad
    }
}

/// The grade of a figure where higher is better.
pub open spec fn high(value: u64, good: u64, warn: u64) -> Grade {
    if less(good, value) {
        Grade::Good
    } else if less(warn, value) {
        Grade::Warn
    } else {
        Grade::Bad
    }
}

/// The bits of two.
pub const TWO: u64 = 0x4000_0000_0000_0000;

/// The bits of ten.
pub const TEN: u64 = 0x4024_0000_0000_0000;

/// The bits of fifteen.
pub const FIFTEEN: u64 = 0x402e_0000_0000_0000;

/// The bits of sixteen.
pub const SIXTEEN: u64 = 0x4030_0000_0000_0000;

/// The bits of twenty-four.
pub const TWENTY_FOUR: u64 = 0x4038_0000_0000_0000;

/// The bits of thirty-three.
pub const THIRTY_THREE: u64 = 0x4040_8000_0000_0000;

/// The bits of forty.
pub const FORTY: u64 = 0x4044_0000_0000_0000;

/// The bits of one hundred.
pub const HUNDRED: u64 = 0x4059_0000_0000_0000;

/// The bits of two hundred.
pub const TWO_HUNDRED: u64 = 0x4069_0000_0000_0000;

/// A reading: its bits, and its texts.
#[derive(Debug, PartialEq, Eq)]
pub struct Reading {
    /// The figure as the bits of a double.
    pub bits: u64,
    /// The figure as the bar shows it.
    pub short: String,
    /// The figure as the panel shows it.
    pub long: String,
}

/// One line of a detail panel.
#[derive(Debug, PartialEq, Eq)]
pub struct Line {
    pub text: String,
    pub grade: Grade,
    /// The history key and the current value, for a line with a sparkline.
    pub plot: Option<(String, u64)>,
}

/// A [`Line`] with its texts as character sequences.
pub struct LineView {
    pub text: Seq<char>,
    pub grade: Grade,
    pub plot: Option<(Seq<char>, u64)>,
}

impl View for Line {
    type V = LineView;

    open spec fn view(&self) -> LineView {
        LineView {
            text: self.text@,
            grade: self.grade,
            plot: match self.plot {
                Some((key, value)) => Some((key@, value)),
                None => None,
            },
        }
    }
}

/// A line with no sparkline.
pub open spec fn plain(text: Seq<char>, grade: Grade) -> LineView {
    LineView { text, grade, plot: None }
}

/// A line whose value is recorded under a key and plotted.
pub open spec fn plotted(key: Seq<char>, text: Seq<char>, value: u64, grade: Grade) -> LineView {
    LineView { text, grade, plot: Some((key, value)) }
}

impl Line {
    /// Creates a line of plain information.
    pub fn info(text: String) -> (res: Self)
        ensures
            res@ == plain(text@, Grade::Dim),
    {
        Self::colored(text, Grade::Dim)
    }

    /// Creates a line of some grade, with no sparkline.
    pub fn colored(text: String, grade: Grade) -> (res: Self)
        ensures
            res@ == plain(text@, grade),
    {
        Line { text, grade, plot: None }
    }

    /// Creates a line whose `value` is recorded under `key` and plotted.
    pub fn metric(key: String, text: String, value: u64, grade: Grade) -> (res: Self)
        ensures
            res@ == plotted(key@, text@, value, grade),
    {
        Line { text, grade, plot: Some((key, value)) }
    }
}

/// Lines by their views.
pub open spec fn line_list(lines: Seq<Line>) -> Seq<LineView> {
    Seq::new(lines.len(), |i: int| lines[i]@)
}

/// A list of one element, or of none.
pub open spec fn listed<V>(one: Option<V>) -> Seq<V> {
    match one {
        Some(one) => seq![one],
        None => seq![],
    }
}

/// Appends a line.
fn add_line(lines: &mut Vec<Line>, line: Line)
    ensures
        line_list(final(lines)@) == line_list(old(lines)@) + seq![line@],
{
    let ghost before = line_list(lines@);
    lines.push(line);
    assert(line_list(lines@) =~= before + seq![line@]);
}

/// Appends a part of a summary.
fn add_part(parts: &mut Vec<String>, part: String)
    ensures
        text::string_list(final(parts)@) == text::string_list(old(parts)@) + seq![part@],
{
    let ghost before = text::string_list(parts@);
    parts.push(part);
    assert(text::string_list(parts@) =~= before + seq![part@]);
}

/// One section of the bar: its summary, and the lines of its detail panel.
#[derive(Debug, PartialEq, Eq)]
pub struct Section {
    pub category: StatCategory,
    pub summary: String,
    pub lines: Vec<Line>,
}

/// A [`Section`] with its texts as character sequences.
pub struct SectionView {
    pub category: StatCategory,
    pub summary: Seq<char>,
    pub lines: Seq<LineView>,
}

impl View for Section {
    type V = SectionView;

    open spec fn view(&self) -> SectionView {
        SectionView {
            category: self.category,
            summary: self.summary@,
            lines: line_list(self.lines@),
        }
    }
}

/// A text followed by each of the parts, with a space before each.
pub open spec fn spaced(start: Seq<char>, parts: Seq<Seq<char>>) -> Seq<char>
    decreases parts.len(),
{
    if parts.len() == 0 {
        start
    } else {
        spaced(start, parts.drop_last()) + " "@ + parts.last()
    }
}

/// Returns `start` followed by each of the parts, with a space before each.
fn with_spaces(start: String, parts: &Vec<String>) -> (res: String)
    ensures
        res@ == spaced(start@, text::string_list(parts@)),
{
    let ghost all = text::string_list(parts@);
    let ghost first = start@;
    let mut res: String = start;
    let mut i: usize = 0;
    assert(all.take(0) =~= seq![]);
    while i < parts.len()
        invariant
            i <= parts@.len(),
            all == text::string_list(parts@),
            res@ == spaced(first, all.take(i as int)),
        decreases parts@.len() - i,
    {
        let ghost longer = all.take(i + 1);
        assert(longer.drop_last() =~= all.take(i as int));
        assert(longer.last() == parts@[i as int]@);
        res = res.concat(" ").concat(parts[i].as_str());
        i += 1;
    }
    assert(all.take(all.len() as int) =~= all);
    res
}

/// The section of these parts and lines.
pub open spec fn section_of(
    category: StatCategory,
    parts: Seq<Seq<char>>,
    lines: Seq<LineView>,
) -> SectionView {
    SectionView { category, summary: spaced(category.title(), parts), lines }
}

impl Section {
    /// Creates a section whose summary joins the category label and `parts`.
    pub fn new(category: StatCategory, parts: Vec<String>, lines: Vec<Line>) -> (res: Self)
        ensures
            res@ == section_of(category, text::string_list(parts@), line_list(lines@)),
    {
        let summary = with_spaces(category.label().to_owned(), &parts);
        Section { category, summary, lines }
    }
}

/// The state of a slot: the video or the audio of a player or a broadcast.
#[derive(Debug, PartialEq, Eq)]
pub enum SlotState {
    Off,
    Starting,
    Running,
    /// It failed, with the reason.
    Failed(String),
    Ended,
}

/// The line for the state of a slot.
pub open spec fn slot_text(name: Seq<char>, state: SlotState) -> LineView {
    match state {
        SlotState::Off => plain(name + ": off"@, Grade::Dim),
        SlotState::Starting => plain(name + ": starting"@, Grade::Warn),
        SlotState::Running => plain(name + ": running"@, Grade::Good),
        SlotState::Failed(err) => plain(name + ": failed: "@ + err@, Grade::Bad),
        SlotState::Ended => plain(name + ": ended"@, Grade::Dim),
    }
}

/// Returns a line for the state of the slot called `name`.
pub fn slot_line(name: &str, state: &SlotState) -> (res: Line)
    ensures
        res@ == slot_text(name@, *state),
{
    let start: String = name.to_owned();
    match state {
        SlotState::Off => Line::info(start.concat(": off")),
        SlotState::Starting => Line::colored(start.concat(": starting"), Grade::Warn),
        SlotState::Running => Line::colored(start.concat(": running"), Grade::Good),
        SlotState::Failed(err) => Line::colored(
            start.concat(": failed: ").concat(err.as_str()),
            Grade::Bad,
        ),
        SlotState::Ended => Line::info(start.concat(": ended")),
    }
}

/// Which video rendition a player plays.
#[derive(Debug, PartialEq, Eq)]
pub enum RenditionMode {
    /// The one that fits the downlink, up to a height.
    Auto { max_height: Option<u32> },
    /// The one of this name.
    Pinned(String),
    /// None.
    Off,
}

/// A [`RenditionMode`] with its texts as character sequences.
pub enum RenditionModeView {
    Auto { max_height: Option<u32> },
    Pinned(Seq<char>),
    Off,
}

impl View for RenditionMode {
    type V = RenditionModeView;

    open spec fn view(&self) -> RenditionModeView {
        match *self {
            RenditionMode::Auto { max_height } => RenditionModeView::Auto { max_height },
            RenditionMode::Pinned(name) => RenditionModeView::Pinned(name@),
            RenditionMode::Off => RenditionModeView::Off,
        }
    }
}

/// A rendition mode in a few words.
pub open spec fn mode_words(mode: RenditionModeView) -> Seq<char> {
    match mode {
        RenditionModeView::Auto { max_height: None } => "auto"@,
        RenditionModeView::Auto { max_height: Some(height) } => "auto, up to "@ + text::decimal(
            height as nat,
        ) + "p"@,
        RenditionModeView::Pinned(name) => "pinned to "@ + name,
        RenditionModeView::Off => "off"@,
    }
}

/// Describes a rendition mode in a few words.
pub fn mode_text(mode: &RenditionMode) -> (res: String)
    ensures
        res@ == mode_words(mode@),
{
    match mode {
        RenditionMode::Auto { max_height: None } => "auto".to_owned(),
        RenditionMode::Auto { max_height: Some(height) } => "auto, up to ".to_owned().concat(
            text::decimal_text(*height as u64).as_str(),
        ).concat("p"),
        RenditionMode::Pinned(name) => "pinned to ".to_owned().concat(name.as_str()),
        RenditionMode::Off => "off".to_owned(),
    }
}

/// The last link reading of a player.
#[derive(Debug, PartialEq, Eq)]
pub struct NetworkSample {
    /// The round trip in milliseconds.
    pub rtt: Option<Reading>,
    /// The least round trip in milliseconds, with its text.
    pub min_rtt: Option<String>,
    /// The loss in percent.
    pub loss: Option<Reading>,
    /// The sender's delivery estimate in bits per second.
    pub delivery: Option<Reading>,
    /// How often the path changed.
    pub path_generation: u64,
}

/// What the NET section of a player's summary holds.
pub open spec fn net_parts(net: NetworkSample) -> Seq<Seq<char>> {
    Seq::<Seq<char>>::empty() + listed(
        match net.rtt {
            Some(rtt) => Some("rtt:"@ + rtt.short@ + "ms"@),
            None => None,
        },
    ) + listed(
        match net.loss {
            Some(loss) => Some("loss:"@ + loss.short@ + "%"@),
            None => None,
        },
    ) + listed(
        match net.delivery {
            Some(delivery) => Some("bw:"@ + delivery.short@),
            None => None,
        },
    )
}

/// The lines of a player's NET section.
pub open spec fn net_lines(net: NetworkSample) -> Seq<LineView> {
    Seq::<LineView>::empty() + listed(
        match net.rtt {
            Some(rtt) => Some(
                plotted(
                    "net.rtt"@,
                    "rtt: "@ + rtt.long@ + " ms"@,
                    rtt.bits,
                    low(rtt.bits, HUNDRED, TWO_HUNDRED),
                ),
            ),
            None => None,
        },
    ) + listed(
        match net.min_rtt {
            Some(min) => Some(plain("min rtt: "@ + min@ + " ms"@, Grade::Dim)),
            None => None,
        },
    ) + listed(
        match net.loss {
            Some(loss) => Some(
                plotted(
                    "net.loss"@,
                    "loss: "@ + loss.long@ + "%"@,
                    loss.bits,
                    low(loss.bits, TWO, TEN),
                ),
            ),
            None => None,
        },
    ) + listed(
        match net.delivery {
            Some(delivery) => Some(
                plotted(
                    "net.delivery"@,
                    "delivery estimate: "@ + delivery.long@,
                    delivery.bits,
                    Grade::Plain,
                ),
            ),
            None => None,
        },
    ) + seq![
        plain("path generation: "@ + text::decimal(net.path_generation as nat), Grade::Dim),
    ]
}

/// A player's NET section.
pub open spec fn net_section(network: Option<NetworkSample>) -> SectionView {
    match network {
        None => section_of(
            StatCategory::Net,
            seq!["no link data"@],
            seq![plain("no link data: the broadcast carries no network signals"@, Grade::Dim)],
        ),
        Some(net) => section_of(StatCategory::Net, net_parts(net), net_lines(net)),
    }
}

/// Builds the NET section of a player from the last link reading.
pub fn net_playback(network: &Option<NetworkSample>) -> (res: Section)
    ensures
        res@ == net_section(*network),
{
    let mut parts: Vec<String> = Vec::new();
    let mut lines: Vec<Line> = Vec::new();
    assert(text::string_list(parts@) =~= Seq::<Seq<char>>::empty());
    assert(line_list(lines@) =~= Seq::<LineView>::empty());
    let net = match network {
        Some(net) => net,
        None => {
            add_part(&mut parts, "no link data".to_owned());
            add_line(
                &mut lines,
                Line::info("no link data: the broadcast carries no network signals".to_owned()),
            );
            assert(text::string_list(parts@) =~= seq!["no link data"@]);
            assert(line_list(lines@) =~= seq![
                plain("no link data: the broadcast carries no network signals"@, Grade::Dim),
            ]);
            return Section::new(StatCategory::Net, parts, lines);
        },
    };
    if let Some(rtt) = &net.rtt {
        add_part(&mut parts, "rtt:".to_owned().concat(rtt.short.as_str()).concat("ms"));
        add_line(
            &mut lines,
            Line::metric(
                "net.rtt".to_owned(),
                "rtt: ".to_owned().concat(rtt.long.as_str()).concat(" ms"),
                rtt.bits,
                lower_is_better(rtt.bits, HUNDRED, TWO_HUNDRED),
            ),
        );
    }
    if let Some(min) = &net.min_rtt {
        add_line(
            &mut lines,
            Line::info("min rtt: ".to_owned().concat(min.as_str()).concat(" ms")),
        );
    }
    if let Some(loss) = &net.loss {
        add_part(&mut parts, "loss:".to_owned().concat(loss.short.as_str()).concat("%"));
        add_line(
            &mut lines,
            Line::metric(
                "net.loss".to_owned(),
                "loss: ".to_owned().concat(loss.long.as_str()).concat("%"),
                loss.bits,
                lower_is_better(loss.bits, TWO, TEN),
            ),
        );
    }
    if let Some(delivery) = &net.delivery {
        add_part(&mut parts, "bw:".to_owned().concat(delivery.short.as_str()));
        add_line(
            &mut lines,
            Line::metric(
                "net.delivery".to_owned(),
                "delivery estimate: ".to_owned().concat(delivery.long.as_str()),
                delivery.bits,
                Grade::Plain,
            ),
        );
    }
    add_line(
        &mut lines,
        Line::info(
            "path generation: ".to_owned().concat(
                text::decimal_text(net.path_generation).as_str(),
            ),
        ),
    );
    assert(text::string_list(parts@) =~= net_parts(*net));
    assert(line_list(lines@) =~= net_lines(*net));
    Section::new(StatCategory::Net, parts, lines)
}

/// What a player knows of its video.
#[derive(Debug, PartialEq, Eq)]
pub struct VideoStats {
    pub rendition: String,
    pub decoder: String,
    /// The size of the picture, with its text.
    pub size: Option<String>,
    /// Frames per second.
    pub fps: Option<Reading>,
    /// The decode time in milliseconds.
    pub decode_time: Option<Reading>,
    pub frames: u64,
    pub skipped: u64,
}

/// What a player knows of its audio.
#[derive(Debug, PartialEq, Eq)]
pub struct AudioStats {
    pub rendition: String,
    /// The audio queued, in milliseconds.
    pub buffered: Reading,
    /// The peak sample, whose texts are its level, or `silent`.
    pub peak: Reading,
    pub frames: u64,
}

/// The figures of a player.
#[derive(Debug, PartialEq, Eq)]
pub struct PlaybackStats {
    pub network: Option<NetworkSample>,
    pub video: Option<VideoStats>,
    pub audio: Option<AudioStats>,
    /// The playout latency in milliseconds.
    pub latency: Reading,
}

/// The state of a player.
#[derive(Debug, PartialEq, Eq)]
pub struct PlayerStatus {
    pub mode: RenditionMode,
    pub video: SlotState,
    pub audio: SlotState,
    pub rendition: Option<String>,
    pub decoder: Option<String>,
    /// The rendition that is warming up.
    pub switching_to: Option<String>,
    /// Why the last switch failed.
    pub switch_error: Option<String>,
}

/// The name that the figures give where it is not empty, else the one that the
/// status gives.
pub open spec fn named(shown: Option<Seq<char>>, known: Option<Seq<char>>) -> Option<Seq<char>> {
    match shown {
        Some(name) => if name.len() > 0 {
            Some(name)
        } else {
            known
        },
        None => known,
    }
}

/// The rendition to show.
pub open spec fn shown_rendition(stats: PlaybackStats, status: PlayerStatus) -> Option<Seq<char>> {
    named(
        match stats.video {
            Some(video) => Some(video.rendition@),
            None => None,
        },
        text::opt_text(status.rendition),
    )
}

/// The decoder to show.
pub open spec fn shown_decoder(stats: PlaybackStats, status: PlayerStatus) -> Option<Seq<char>> {
    named(
        match stats.video {
            Some(video) => Some(video.decoder@),
            None => None,
        },
        text::opt_text(status.decoder),
    )
}

/// Returns the name that the figures give where it is not empty, else the one
/// that the status gives.
fn pick_name(shown: Option<&String>, known: &Option<String>) -> (res: Option<String>)
    ensures
        text::opt_text(res) == named(
            match shown {
                Some(name) => Some(name@),
                None => None,
            },
            text::opt_text(*known),
        ),
{
    if let Some(name) = shown {
        if !name.as_str().is_empty() {
            return Some(name.clone());
        }
    }
    text::clone_opt(known)
}

/// What the RENDER section of a player's summary holds.
pub open spec fn render_parts(stats: PlaybackStats, status: PlayerStatus) -> Seq<Seq<char>> {
    Seq::<Seq<char>>::empty() + listed(
        if status.mode is Off {
            Some("off"@)
        } else {
            None
        },
    ) + listed(shown_rendition(stats, status)) + listed(
        match status.switch_error {
            Some(_) => Some("switch failed"@),
            None => None,
        },
    ) + match stats.video {
        Some(video) => video_parts(video),
        None => seq![],
    }
}

/// What the figures of the video add to the summary.
pub open spec fn video_parts(video: VideoStats) -> Seq<Seq<char>> {
    Seq::<Seq<char>>::empty() + listed(
        match video.fps {
            Some(fps) => Some(fps.short@ + "fps"@),
            None => None,
        },
    ) + listed(
        match video.decode_time {
            Some(decode) => Some("dec:"@ + decode.short@ + "ms"@),
            None => None,
        },
    )
}

/// The line of the rendition that plays.
pub open spec fn rendition_line(rendition: Seq<char>, status: PlayerStatus) -> Seq<char> {
    match status.switching_to {
        Some(next) => "rendition: "@ + rendition + " -> "@ + next@ + " (warming up)"@,
        None => "rendition: "@ + rendition,
    }
}

/// The lines that the figures of the video add.
pub open spec fn video_lines(video: VideoStats) -> Seq<LineView> {
    Seq::<LineView>::empty() + listed(
        match video.size {
            Some(size) => Some(plain("size: "@ + size@, Grade::Dim)),
            None => None,
        },
    ) + listed(
        match video.fps {
            Some(fps) => Some(
                plotted(
                    "render.fps"@,
                    "fps: "@ + fps.long@,
                    fps.bits,
                    high(fps.bits, TWENTY_FOUR, FIFTEEN),
                ),
            ),
            None => None,
        },
    ) + listed(
        match video.decode_time {
            Some(decode) => Some(
                plotted(
                    "render.decode"@,
                    "decode: "@ + decode.long@ + " ms"@,
                    decode.bits,
                    low(decode.bits, SIXTEEN, THIRTY_THREE),
                ),
            ),
            None => None,
        },
    ) + seq![
        plain(
            "frames: "@ + text::decimal(video.frames as nat) + ", skipped: "@ + text::decimal(
                video.skipped as nat,
            ),
            if video.skipped > 0 {
                Grade::Warn
            } else {
                Grade::Dim
            },
        ),
    ]
}

/// The lines of a player's RENDER section.
pub open spec fn render_lines(stats: PlaybackStats, status: PlayerStatus) -> Seq<LineView> {
    seq![
        plain("mode: "@ + mode_words(status.mode@), Grade::Dim),
        slot_text("video"@, status.video),
    ] + listed(
        match shown_rendition(stats, status) {
            Some(rendition) => Some(plain(rendition_line(rendition, status), Grade::Dim)),
            None => None,
        },
    ) + listed(
        match status.switch_error {
            Some(err) => Some(plain("switch error: "@ + err@, Grade::Bad)),
            None => None,
        },
    ) + listed(
        match shown_decoder(stats, status) {
            Some(decoder) => Some(plain("decoder: "@ + decoder, Grade::Dim)),
            None => None,
        },
    ) + match stats.video {
        Some(video) => video_lines(video),
        None => seq![],
    }
}

/// Appends what the figures of the video say.
fn add_video(parts: &mut Vec<String>, lines: &mut Vec<Line>, video: &VideoStats)
    ensures
        text::string_list(final(parts)@) == text::string_list(old(parts)@) + video_parts(*video),
        line_list(final(lines)@) == line_list(old(lines)@) + video_lines(*video),
{
    let ghost parts_before = text::string_list(parts@);
    let ghost lines_before = line_list(lines@);
    if let Some(size) = &video.size {
        add_line(lines, Line::info("size: ".to_owned().concat(size.as_str())));
    }
    if let Some(fps) = &video.fps {
        add_part(parts, fps.short.clone().concat("fps"));
        add_line(
            lines,
            Line::metric(
                "render.fps".to_owned(),
                "fps: ".to_owned().concat(fps.long.as_str()),
                fps.bits,
                higher_is_better(fps.bits, TWENTY_FOUR, FIFTEEN),
            ),
        );
    }
    if let Some(decode) = &video.decode_time {
        add_part(parts, "dec:".to_owned().concat(decode.short.as_str()).concat("ms"));
        add_line(
            lines,
            Line::metric(
                "render.decode".to_owned(),
                "decode: ".to_owned().concat(decode.long.as_str()).concat(" ms"),
                decode.bits,
                lower_is_better(decode.bits, SIXTEEN, THIRTY_THREE),
            ),
        );
    }
    let grade = if video.skipped > 0 {
        Grade::Warn
    } else {
        Grade::Dim
    };
    add_line(
        lines,
        Line::colored(
            "frames: ".to_owned().concat(text::decimal_text(video.frames).as_str()).concat(
                ", skipped: ",
            ).concat(text::decimal_text(video.skipped).as_str()),
            grade,
        ),
    );
    assert(text::string_list(parts@) =~= parts_before + video_parts(*video));
    assert(line_list(lines@) =~= lines_before + video_lines(*video));
}

/// Builds the RENDER section of a player.
#[verifier::rlimit(30)]
pub fn render_playback(stats: &PlaybackStats, status: &PlayerStatus) -> (res: Section)
    ensures
        res@ == section_of(
            StatCategory::Render,
            render_parts(*stats, *status),
            render_lines(*stats, *status),
        ),
{
    let (rendition, decoder) = match &stats.video {
        Some(video) => (
            pick_name(Some(&video.rendition), &status.rendition),
            pick_name(Some(&video.decoder), &status.decoder),
        ),
        None => (pick_name(None, &status.rendition), pick_name(None, &status.decoder)),
    };
    let mut parts: Vec<String> = Vec::new();
    let mut lines: Vec<Line> = Vec::new();
    assert(text::string_list(parts@) =~= Seq::<Seq<char>>::empty());
    assert(line_list(lines@) =~= Seq::<LineView>::empty());
    add_line(
        &mut lines,
        Line::info("mode: ".to_owned().concat(mode_text(&status.mode).as_str())),
    );
    add_line(&mut lines, slot_line("video", &status.video));
    if matches!(status.mode, RenditionMode::Off) {
        add_part(&mut parts, "off".to_owned());
    }
    if let Some(rendition) = &rendition {
        add_part(&mut parts, rendition.clone());
        let line: String = match &status.switching_to {
            Some(next) => "rendition: ".to_owned().concat(rendition.as_str()).concat(
                " -> ",
            ).concat(next.as_str()).concat(" (warming up)"),
            None => "rendition: ".to_owned().concat(rendition.as_str()),
        };
        add_line(&mut lines, Line::info(line));
    }
    if let Some(err) = &status.switch_error {
        add_part(&mut parts, "switch failed".to_owned());
        add_line(
            &mut lines,
            Line::colored("switch error: ".to_owned().concat(err.as_str()), Grade::Bad),
        );
    }
    if let Some(decoder) = &decoder {
        add_line(&mut lines, Line::info("decoder: ".to_owned().concat(decoder.as_str())));
    }
    if let Some(video) = &stats.video {
        add_video(&mut parts, &mut lines, video);
    }
    assert(text::string_list(parts@) =~= render_parts(*stats, *status));
    assert(line_list(lines@) =~= render_lines(*stats, *status));
    Section::new(StatCategory::Render, parts, lines)
}

/// The lines that the figures of the audio add.
pub open spec fn audio_lines(audio: AudioStats) -> Seq<LineView> {
    Seq::<LineView>::empty() + listed(
        if audio.rendition@.len() > 0 {
            Some(plain("rendition: "@ + audio.rendition@, Grade::Dim))
        } else {
            None
        },
    ) + seq![
        plotted(
            "audio.buffered"@,
            "buffered: "@ + audio.buffered.long@ + " ms"@,
            audio.buffered.bits,
            high(audio.buffered.bits, FORTY, FIFTEEN),
        ),
        plotted("audio.peak"@, "peak: "@ + audio.peak.long@, audio.peak.bits, Grade::Plain),
        plain("frames: "@ + text::decimal(audio.frames as nat), Grade::Dim),
    ]
}

/// What the AUDIO section of a player's summary holds.
pub open spec fn audio_parts(stats: PlaybackStats) -> Seq<Seq<char>> {
    Seq::<Seq<char>>::empty() + listed(
        match stats.audio {
            Some(audio) => Some("buf:"@ + audio.buffered.short@ + "ms"@),
            None => None,
        },
    ) + seq!["lat:"@ + stats.latency.short@ + "ms"@]
}

/// Builds the AUDIO section of a player, latency included.
pub fn audio_playback(stats: &PlaybackStats, status: &PlayerStatus) -> (res: Section)
    ensures
        res@ == section_of(
            StatCategory::Audio,
            audio_parts(*stats),
            seq![slot_text("audio"@, status.audio)] + match stats.audio {
                Some(audio) => audio_lines(audio),
                None => seq![],
            } + seq![
                plotted(
                    "audio.latency"@,
                    "latency: "@ + stats.latency.long@ + " ms"@,
                    stats.latency.bits,
                    low(stats.latency.bits, HUNDRED, TWO_HUNDRED),
                ),
            ],
        ),
{
    let mut parts: Vec<String> = Vec::new();
    let mut lines: Vec<Line> = Vec::new();
    assert(text::string_list(parts@) =~= Seq::<Seq<char>>::empty());
    assert(line_list(lines@) =~= Seq::<LineView>::empty());
    add_line(&mut lines, slot_line("audio", &status.audio));
    if let Some(audio) = &stats.audio {
        if !audio.rendition.as_str().is_empty() {
            add_line(
                &mut lines,
                Line::info("rendition: ".to_owned().concat(audio.rendition.as_str())),
            );
        }
        add_part(
            &mut parts,
            "buf:".to_owned().concat(audio.buffered.short.as_str()).concat("ms"),
        );
        add_line(
            &mut lines,
            Line::metric(
                "audio.buffered".to_owned(),
                "buffered: ".to_owned().concat(audio.buffered.long.as_str()).concat(" ms"),
                audio.buffered.bits,
                higher_is_better(audio.buffered.bits, FORTY, FIFTEEN),
            ),
        );
        add_line(
            &mut lines,
            Line::metric(
                "audio.peak".to_owned(),
                "peak: ".to_owned().concat(audio.peak.long.as_str()),
                audio.peak.bits,
                Grade::Plain,
            ),
        );
        add_line(
            &mut lines,
            Line::info(
                "frames: ".to_owned().concat(text::decimal_text(audio.frames).as_str()),
            ),
        );
    }
    add_part(&mut parts, "lat:".to_owned().concat(stats.latency.short.as_str()).concat("ms"));
    add_line(
        &mut lines,
        Line::metric(
            "audio.latency".to_owned(),
            "latency: ".to_owned().concat(stats.latency.long.as_str()).concat(" ms"),
            stats.latency.bits,
            lower_is_better(stats.latency.bits, HUNDRED, TWO_HUNDRED),
        ),
    );
    assert(text::string_list(parts@) =~= audio_parts(*stats));
    assert(line_list(lines@) =~= seq![slot_text("audio"@, status.audio)] + match stats.audio {
        Some(audio) => audio_lines(audio),
        None => seq![],
    } + seq![
        plotted(
            "audio.latency"@,
            "latency: "@ + stats.latency.long@ + " ms"@,
            stats.latency.bits,
            low(stats.latency.bits, HUNDRED, TWO_HUNDRED),
        ),
    ]);
    Section::new(StatCategory::Audio, parts, lines)
}

/// What the encoder of a rendition does.
#[derive(Debug, PartialEq, Eq)]
pub enum RenditionState {
    /// Nobody watches the rendition.
    Idle,
    /// The encoder failed, with the reason.
    Failed(String),
    /// The encoder of this name runs.
    Encoding(String),
}

/// The state of one rendition.
#[derive(Debug, PartialEq, Eq)]
pub struct StatusRow {
    pub name: String,
    pub state: RenditionState,
}

/// A bitrate and its texts.
#[derive(Debug, PartialEq, Eq)]
pub struct Bitrate {
    /// Bits per second.
    pub bps: u64,
    pub shown: Reading,
}

/// The figures of one rendition whose encoder has started.
#[derive(Debug, PartialEq, Eq)]
pub struct EncodeRow {
    pub name: String,
    pub encoder: Option<String>,
    /// The size of the picture, with its text.
    pub size: Option<String>,
    /// Frames per second, with their text.
    pub fps: Option<String>,
    pub bitrate: Option<Bitrate>,
    /// The encode time in milliseconds, with its text.
    pub encode_time: Option<String>,
    pub frames: u64,
    pub bytes: u64,
}

/// The figures of the published audio.
#[derive(Debug, PartialEq, Eq)]
pub struct AudioEncodeStats {
    pub codec: Option<String>,
    pub frames: u64,
    pub dropped: u64,
}

/// The figures of a broadcast. The renditions stand in the order of their
/// names.
#[derive(Debug, PartialEq, Eq)]
pub struct PublishStats {
    /// The frame rate of the source.
    pub source_fps: Option<Reading>,
    pub renditions: Vec<EncodeRow>,
    pub audio: Option<AudioEncodeStats>,
}

/// The state of a broadcast. The renditions stand in the order of their names.
#[derive(Debug, PartialEq, Eq)]
pub struct PublishStatus {
    pub video: SlotState,
    pub audio: SlotState,
    pub renditions: Vec<StatusRow>,
}

/// The names of the renditions of a status.
pub open spec fn status_names(rows: Seq<StatusRow>) -> Seq<Seq<char>> {
    Seq::new(rows.len(), |i: int| rows[i].name@)
}

/// The names of the renditions of some figures.
pub open spec fn encode_names(rows: Seq<EncodeRow>) -> Seq<Seq<char>> {
    Seq::new(rows.len(), |i: int| rows[i].name@)
}

/// Two lists of names merged by their order, where a name that both hold stands
/// once.
pub open spec fn merged(a: Seq<Seq<char>>, b: Seq<Seq<char>>) -> Seq<Seq<char>>
    decreases a.len() + b.len(),
{
    if a.len() == 0 {
        b
    } else if b.len() == 0 {
        a
    } else if a[0] == b[0] {
        seq![a[0]] + merged(a.skip(1), b.skip(1))
    } else if text::precedes(a[0], b[0]) {
        seq![a[0]] + merged(a.skip(1), b)
    } else {
        seq![b[0]] + merged(a, b.skip(1))
    }
}

/// The index of the first rendition of this name, or the length of the list.
pub open spec fn place(names: Seq<Seq<char>>, name: Seq<char>) -> nat
    decreases names.len(),
{
    if names.len() == 0 || names[0] == name {
        0
    } else {
        1 + place(names.skip(1), name)
    }
}

/// The state of the rendition of this name.
pub open spec fn state_of(rows: Seq<StatusRow>, name: Seq<char>) -> Option<RenditionState> {
    let at = place(status_names(rows), name);
    if at < rows.len() {
        Some(rows[at as int].state)
    } else {
        None
    }
}

/// The figures of the rendition of this name.
pub open spec fn encode_of(rows: Seq<EncodeRow>, name: Seq<char>) -> Option<EncodeRow> {
    let at = place(encode_names(rows), name);
    if at < rows.len() {
        Some(rows[at as int])
    } else {
        None
    }
}

proof fn lemma_place(names: Seq<Seq<char>>, name: Seq<char>, at: nat)
    requires
        at <= names.len(),
        forall|j: int| 0 <= j < at ==> #[trigger] names[j] != name,
        at < names.len() ==> names[at as int] == name,
    ensures
        place(names, name) == at,
    decreases names.len(),
{
    if names.len() > 0 && at > 0 {
        assert(names[0] != name);
        let rest = names.skip(1);
        assert forall|j: int| 0 <= j < at - 1 implies #[trigger] rest[j] != name by {
            assert(rest[j] == names[j + 1]);
        }
        lemma_place(rest, name, (at - 1) as nat);
    }
}

/// Returns the state of the rendition of this name.
fn find_state<'a>(rows: &'a Vec<StatusRow>, name: &str) -> (res: Option<&'a RenditionState>)
    ensures
        match res {
            Some(state) => state_of(rows@, name@) == Some(*state),
            None => state_of(rows@, name@) is None,
        },
{
    let ghost names = status_names(rows@);
    let mut i: usize = 0;
    while i < rows.len()
        invariant
            i <= rows@.len(),
            names == status_names(rows@),
            forall|j: int| 0 <= j < i ==> #[trigger] names[j] != name@,
        decreases rows@.len() - i,
    {
        assert(names[i as int] == rows@[i as int].name@);
        if text::same(rows[i].name.as_str(), name) {
            proof {
                lemma_place(names, name@, i as nat);
            }
            return Some(&rows[i].state);
        }
        i += 1;
    }
    proof {
        lemma_place(names, name@, names.len());
    }
    None
}

/// Returns the figures of the rendition of this name.
fn find_encode<'a>(rows: &'a Vec<EncodeRow>, name: &str) -> (res: Option<&'a EncodeRow>)
    ensures
        match res {
            Some(row) => encode_of(rows@, name@) == Some(*row),
            None => encode_of(rows@, name@) is None,
        },
{
    let ghost names = encode_names(rows@);
    let mut i: usize = 0;
    while i < rows.len()
        invariant
            i <= rows@.len(),
            names == encode_names(rows@),
            forall|j: int| 0 <= j < i ==> #[trigger] names[j] != name@,
        decreases rows@.len() - i,
    {
        assert(names[i as int] == rows@[i as int].name@);
        if text::same(rows[i].name.as_str(), name) {
            proof {
                lemma_place(names, name@, i as nat);
            }
            return Some(&rows[i]);
        }
        i += 1;
    }
    proof {
        lemma_place(names, name@, names.len());
    }
    None
}

/// Returns every rendition name either snapshot knows of, in order.
fn known_names(status: &Vec<StatusRow>, stats: &Vec<EncodeRow>) -> (res: Vec<String>)
    ensures
        text::string_list(res@) == merged(status_names(status@), encode_names(stats@)),
{
    let ghost a = status_names(status@);
    let ghost b = encode_names(stats@);
    let mut res: Vec<String> = Vec::new();
    let mut i: usize = 0;
    let mut j: usize = 0;
    assert(a.skip(0) =~= a && b.skip(0) =~= b);
    assert(text::string_list(res@) =~= Seq::empty());
    assert(Seq::<Seq<char>>::empty() + merged(a, b) =~= merged(a, b));
    while i < status.len() || j < stats.len()
        invariant
            i <= status@.len(),
            j <= stats@.len(),
            a == status_names(status@),
            b == encode_names(stats@),
            text::string_list(res@) + merged(a.skip(i as int), b.skip(j as int)) == merged(a, b),
        decreases status@.len() - i + (stats@.len() - j),
    {
        let ghost before = text::string_list(res@);
        let ghost left = a.skip(i as int);
        let ghost right = b.skip(j as int);
        if i < status.len() && j < stats.len() {
            assert(left[0] == status@[i as int].name@);
            assert(right[0] == stats@[j as int].name@);
            if text::same(status[i].name.as_str(), stats[j].name.as_str()) {
                add_part(&mut res, status[i].name.clone());
                assert(left.skip(1) =~= a.skip(i + 1));
                assert(right.skip(1) =~= b.skip(j + 1));
                i += 1;
                j += 1;
            } else if text::is_before(status[i].name.as_str(), stats[j].name.as_str()) {
                add_part(&mut res, status[i].name.clone());
                assert(left.skip(1) =~= a.skip(i + 1));
                i += 1;
            } else {
                add_part(&mut res, stats[j].name.clone());
                assert(right.skip(1) =~= b.skip(j + 1));
                j += 1;
            }
        } else if i < status.len() {
            assert(left[0] == status@[i as int].name@);
            assert(right =~= seq![]);
            add_part(&mut res, status[i].name.clone());
            assert(left =~= seq![left[0]] + a.skip(i + 1));
            assert(merged(a.skip(i + 1), right) =~= a.skip(i + 1));
            i += 1;
        } else {
            assert(right[0] == stats@[j as int].name@);
            assert(left =~= seq![]);
            add_part(&mut res, stats[j].name.clone());
            assert(right =~= seq![right[0]] + b.skip(j + 1));
            assert(merged(left, b.skip(j + 1)) =~= b.skip(j + 1));
            j += 1;
        }
        proof {
            let rest = merged(a.skip(i as int), b.skip(j as int));
            let one = text::string_list(res@).last();
            assert(text::string_list(res@) =~= before + seq![one]);
            assert(merged(left, right) =~= seq![one] + rest);
            assert((before + seq![one]) + rest =~= before + (seq![one] + rest));
        }
    }
    assert(a.skip(i as int) =~= seq![] && b.skip(j as int) =~= seq![]);
    assert(text::string_list(res@) + Seq::<Seq<char>>::empty() =~= text::string_list(res@));
    res
}

/// What a rendition's line says of its state, and how good that is.
pub open spec fn state_words(name: Seq<char>, state: Option<RenditionState>) -> (Seq<char>, Grade) {
    match state {
        Some(RenditionState::Idle) => (name + ":"@ + " idle"@, Grade::Dim),
        Some(RenditionState::Failed(err)) => (name + ":"@ + " failed: "@ + err@, Grade::Bad),
        _ => (name + ":"@, Grade::Plain),
    }
}

/// The encoder of a rendition: the one the figures name, else the one that the
/// state names.
pub open spec fn encoder_of(row: EncodeRow, state: Option<RenditionState>) -> Option<Seq<char>> {
    match row.encoder {
        Some(encoder) => Some(encoder@),
        None => match state {
            Some(RenditionState::Encoding(encoder)) => Some(encoder@),
            _ => None,
        },
    }
}

/// What a rendition's line says of its figures.
pub open spec fn encode_fields(row: EncodeRow, state: Option<RenditionState>) -> Seq<Seq<char>> {
    Seq::<Seq<char>>::empty() + listed(encoder_of(row, state)) + listed(text::opt_text(row.size))
        + listed(
        match row.fps {
            Some(fps) => Some(fps@ + "fps"@),
            None => None,
        },
    ) + listed(
        match row.bitrate {
            Some(bitrate) => Some(bitrate.shown.long@),
            None => None,
        },
    ) + listed(
        match row.encode_time {
            Some(time) => Some("enc:"@ + time@ + "ms"@),
            None => None,
        },
    ) + seq![text::decimal(row.frames as nat) + " frames"@]
}

/// The line of one rendition.
pub open spec fn rendition_row(
    name: Seq<char>,
    state: Option<RenditionState>,
    row: Option<EncodeRow>,
) -> LineView {
    let (start, grade) = state_words(name, state);
    match row {
        None => plain(
            match state {
                Some(RenditionState::Encoding(encoder)) => start + " "@ + encoder@,
                _ => start,
            },
            grade,
        ),
        Some(row) => {
            let words = spaced(start, encode_fields(row, state));
            match row.bitrate {
                Some(bitrate) => plotted(
                    "capture."@ + name + ".bitrate"@,
                    words,
                    bitrate.shown.bits,
                    grade,
                ),
                None => plain(words, grade),
            }
        },
    }
}

/// Returns the line of one rendition.
fn rendition_entry(
    name: &str,
    state: Option<&RenditionState>,
    row: Option<&EncodeRow>,
) -> (res: Line)
    ensures
        res@ == rendition_row(
            name@,
            match state {
                Some(state) => Some(*state),
                None => None,
            },
            match row {
                Some(row) => Some(*row),
                None => None,
            },
        ),
{
    let start: String = name.to_owned().concat(":");
    let (start, grade) = match state {
        Some(RenditionState::Idle) => (start.concat(" idle"), Grade::Dim),
        Some(RenditionState::Failed(err)) => (
            start.concat(" failed: ").concat(err.as_str()),
            Grade::Bad,
        ),
        _ => (start, Grade::Plain),
    };
    let row = match row {
        Some(row) => row,
        None => {
            let words: String = match state {
                Some(RenditionState::Encoding(encoder)) => start.concat(" ").concat(
                    encoder.as_str(),
                ),
                _ => start,
            };
            return Line::colored(words, grade);
        },
    };
    let ghost shown_state = match state {
        Some(state) => Some(*state),
        None => None,
    };
    let mut fields: Vec<String> = Vec::new();
    assert(text::string_list(fields@) =~= Seq::<Seq<char>>::empty());
    match (&row.encoder, state) {
        (Some(encoder), _) => add_part(&mut fields, encoder.clone()),
        (None, Some(RenditionState::Encoding(encoder))) => add_part(&mut fields, encoder.clone()),
        _ => {},
    }
    if let Some(size) = &row.size {
        add_part(&mut fields, size.clone());
    }
    if let Some(fps) = &row.fps {
        add_part(&mut fields, fps.clone().concat("fps"));
    }
    if let Some(bitrate) = &row.bitrate {
        add_part(&mut fields, bitrate.shown.long.clone());
    }
    if let Some(time) = &row.encode_time {
        add_part(&mut fields, "enc:".to_owned().concat(time.as_str()).concat("ms"));
    }
    add_part(&mut fields, text::decimal_text(row.frames).concat(" frames"));
    assert(text::string_list(fields@) =~= encode_fields(*row, shown_state));
    let words = with_spaces(start, &fields);
    match &row.bitrate {
        Some(bitrate) => Line::metric(
            "capture.".to_owned().concat(name).concat(".bitrate"),
            words,
            bitrate.shown.bits,
            grade,
        ),
        None => Line::colored(words, grade),
    }
}

/// How many renditions of a status are being encoded.
pub open spec fn encoding_count(rows: Seq<StatusRow>) -> nat
    decreases rows.len(),
{
    if rows.len() == 0 {
        0
    } else {
        encoding_count(rows.drop_last()) + if rows.last().state is Encoding {
            1nat
        } else {
            0
        }
    }
}

/// Returns how many renditions of a status are being encoded.
fn count_encoding(rows: &Vec<StatusRow>) -> (res: usize)
    ensures
        res == encoding_count(rows@),
{
    let mut res: usize = 0;
    let mut i: usize = 0;
    assert(rows@.take(0) =~= seq![]);
    while i < rows.len()
        invariant
            i <= rows@.len(),
            res <= i,
            res == encoding_count(rows@.take(i as int)),
        decreases rows@.len() - i,
    {
        assert(rows@.take(i + 1).drop_last() =~= rows@.take(i as int));
        if matches!(rows[i].state, RenditionState::Encoding(_)) {
            res += 1;
        }
        i += 1;
    }
    assert(rows@.take(rows@.len() as int) =~= rows@);
    res
}

/// The lines of the renditions of these names.
pub open spec fn rendition_rows(
    names: Seq<Seq<char>>,
    status: Seq<StatusRow>,
    stats: Seq<EncodeRow>,
) -> Seq<LineView> {
    Seq::new(
        names.len(),
        |i: int| rendition_row(names[i], state_of(status, names[i]), encode_of(stats, names[i])),
    )
}

/// The codec of the published audio.
pub open spec fn codec_of(audio: AudioEncodeStats) -> Seq<char> {
    match audio.codec {
        Some(codec) => codec@,
        None => "audio"@,
    }
}

/// What the CAPTURE section's summary holds.
pub open spec fn capture_parts(stats: PublishStats, status: PublishStatus) -> Seq<Seq<char>> {
    let names = merged(status_names(status.renditions@), encode_names(stats.renditions@));
    Seq::<Seq<char>>::empty() + listed(
        match stats.source_fps {
            Some(fps) => Some("src:"@ + fps.short@ + "fps"@),
            None => None,
        },
    ) + listed(
        if names.len() > 0 {
            Some(
                text::decimal(encoding_count(status.renditions@)) + "/"@ + text::decimal(
                    names.len(),
                ) + " encoding"@,
            )
        } else {
            None
        },
    ) + listed(
        match stats.audio {
            Some(audio) => if audio.dropped > 0 {
                Some("audio dropped:"@ + text::decimal(audio.dropped as nat))
            } else {
                None
            },
            None => None,
        },
    )
}

/// The lines of the CAPTURE section.
pub open spec fn capture_lines(stats: PublishStats, status: PublishStatus) -> Seq<LineView> {
    let names = merged(status_names(status.renditions@), encode_names(stats.renditions@));
    seq![slot_text("video"@, status.video)] + listed(
        match stats.source_fps {
            Some(fps) => Some(
                plotted(
                    "capture.source_fps"@,
                    "source: "@ + fps.long@ + " fps"@,
                    fps.bits,
                    high(fps.bits, TWENTY_FOUR, FIFTEEN),
                ),
            ),
            None => None,
        },
    ) + rendition_rows(names, status.renditions@, stats.renditions@) + seq![
        slot_text("audio"@, status.audio),
    ] + listed(
        match stats.audio {
            Some(audio) => Some(
                plain(
                    codec_of(audio) + ": "@ + text::decimal(audio.frames as nat) + " frames, "@
                        + text::decimal(audio.dropped as nat) + " dropped"@,
                    if audio.dropped > 0 {
                        Grade::Warn
                    } else {
                        Grade::Dim
                    },
                ),
            ),
            None => None,
        },
    )
}

/// Builds the CAPTURE section of a broadcast.
///
/// Lists every rendition either snapshot knows of: the status names audio
/// renditions and idle video ones too, while the stats hold an entry only for a
/// video rendition whose encoder has started.
pub fn capture_publish(stats: &PublishStats, status: &PublishStatus) -> (res: Section)
    ensures
        res@ == section_of(
            StatCategory::Capture,
            capture_parts(*stats, *status),
            capture_lines(*stats, *status),
        ),
{
    let mut parts: Vec<String> = Vec::new();
    let mut lines: Vec<Line> = Vec::new();
    assert(text::string_list(parts@) =~= Seq::<Seq<char>>::empty());
    assert(line_list(lines@) =~= Seq::<LineView>::empty());
    add_line(&mut lines, slot_line("video", &status.video));
    if let Some(fps) = &stats.source_fps {
        add_part(&mut parts, "src:".to_owned().concat(fps.short.as_str()).concat("fps"));
        add_line(
            &mut lines,
            Line::metric(
                "capture.source_fps".to_owned(),
                "source: ".to_owned().concat(fps.long.as_str()).concat(" fps"),
                fps.bits,
                higher_is_better(fps.bits, TWENTY_FOUR, FIFTEEN),
            ),
        );
    }
    let names = known_names(&status.renditions, &stats.renditions);
    let ghost all = text::string_list(names@);
    let encoding: usize = count_encoding(&status.renditions);
    if names.len() > 0 {
        add_part(
            &mut parts,
            text::decimal_text(encoding as u64).concat("/").concat(
                text::decimal_text(names.len() as u64).as_str(),
            ).concat(" encoding"),
        );
    }
    let ghost before = line_list(lines@);
    let ghost rows = rendition_rows(all, status.renditions@, stats.renditions@);
    let mut i: usize = 0;
    assert(before + rows.take(0) =~= before);
    while i < names.len()
        invariant
            i <= names@.len(),
            all == text::string_list(names@),
            rows == rendition_rows(all, status.renditions@, stats.renditions@),
            line_list(lines@) == before + rows.take(i as int),
        decreases names@.len() - i,
    {
        let name: &str = names[i].as_str();
        assert(all[i as int] == name@);
        let state = find_state(&status.renditions, name);
        let row = find_encode(&stats.renditions, name);
        let line = rendition_entry(name, state, row);
        assert(line@ == rows[i as int]);
        add_line(&mut lines, line);
        assert(before + rows.take(i as int) + seq![rows[i as int]] =~= before + rows.take(i + 1));
        i += 1;
    }
    assert(rows.take(rows.len() as int) =~= rows);
    add_line(&mut lines, slot_line("audio", &status.audio));
    if let Some(audio) = &stats.audio {
        let codec: String = match &audio.codec {
            Some(codec) => codec.clone(),
            None => "audio".to_owned(),
        };
        let grade = if audio.dropped > 0 {
            Grade::Warn
        } else {
            Grade::Dim
        };
        add_line(
            &mut lines,
            Line::colored(
                codec.concat(": ").concat(text::decimal_text(audio.frames).as_str()).concat(
                    " frames, ",
                ).concat(text::decimal_text(audio.dropped).as_str()).concat(" dropped"),
                grade,
            ),
        );
        if audio.dropped > 0 {
            add_part(
                &mut parts,
                "audio dropped:".to_owned().concat(text::decimal_text(audio.dropped).as_str()),
            );
        }
    }
    assert(text::string_list(parts@) =~= capture_parts(*stats, *status));
    assert(line_list(lines@) =~= capture_lines(*stats, *status));
    Section::new(StatCategory::Capture, parts, lines)
}

/// The encoded video a broadcast sends, summed over its renditions.
#[derive(Debug, Clone, Copy, PartialEq, Eq, Structural)]
pub struct Sent {
    /// How many renditions have a rate.
    pub renditions: usize,
    /// Bits per second.
    pub bps: u64,
    pub bytes: u64,
}

/// How many renditions have a rate.
pub open spec fn rate_count(rows: Seq<EncodeRow>) -> nat
    decreases rows.len(),
{
    if rows.len() == 0 {
        0
    } else {
        rate_count(rows.drop_last()) + if rows.last().bitrate is Some {
            1nat
        } else {
            0
        }
    }
}

/// The rates of the renditions, summed.
pub open spec fn rate_sum(rows: Seq<EncodeRow>) -> nat
    decreases rows.len(),
{
    if rows.len() == 0 {
        0
    } else {
        rate_sum(rows.drop_last()) + match rows.last().bitrate {
            Some(bitrate) => bitrate.bps as nat,
            None => 0,
        }
    }
}

/// The bytes of the renditions, summed.
pub open spec fn byte_sum(rows: Seq<EncodeRow>) -> nat
    decreases rows.len(),
{
    if rows.len() == 0 {
        0
    } else {
        byte_sum(rows.drop_last()) + rows.last().bytes as nat
    }
}

proof fn lemma_sums_grow(rows: Seq<EncodeRow>, fewer: int)
    requires
        0 <= fewer <= rows.len(),
    ensures
        rate_sum(rows.take(fewer)) <= rate_sum(rows),
        byte_sum(rows.take(fewer)) <= byte_sum(rows),
    decreases rows.len(),
{
    if fewer == rows.len() {
        assert(rows.take(fewer) =~= rows);
    } else {
        lemma_sums_grow(rows.drop_last(), fewer);
        assert(rows.drop_last().take(fewer) =~= rows.take(fewer));
    }
}

/// Returns the encoded video a broadcast sends, summed over its renditions.
pub fn sent(rows: &Vec<EncodeRow>) -> (res: Sent)
    requires
        rate_sum(rows@) <= u64::MAX,
        byte_sum(rows@) <= u64::MAX,
    ensures
        res.renditions == rate_count(rows@),
        res.bps == rate_sum(rows@),
        res.bytes == byte_sum(rows@),
{
    let mut renditions: usize = 0;
    let mut bps: u64 = 0;
    let mut bytes: u64 = 0;
    let mut i: usize = 0;
    assert(rows@.take(0) =~= seq![]);
    while i < rows.len()
        invariant
            rate_sum(rows@) <= u64::MAX,
            byte_sum(rows@) <= u64::MAX,
            i <= rows@.len(),
            renditions <= i,
            renditions == rate_count(rows@.take(i as int)),
            bps == rate_sum(rows@.take(i as int)),
            bytes == byte_sum(rows@.take(i as int)),
        decreases rows@.len() - i,
    {
        assert(rows@.take(i + 1).drop_last() =~= rows@.take(i as int));
        proof {
            lemma_sums_grow(rows@, i + 1);
        }
        if let Some(bitrate) = &rows[i].bitrate {
            renditions += 1;
            bps += bitrate.bps;
        }
        bytes += rows[i].bytes;
        i += 1;
    }
    assert(rows@.take(rows@.len() as int) =~= rows@);
    Sent { renditions, bps, bytes }
}

/// A broadcast's NET section, for what it sends and the texts of that.
pub open spec fn net_out(sent: Sent, total: Reading, size: Seq<char>) -> SectionView {
    if sent.renditions == 0 {
        section_of(
            StatCategory::Net,
            seq!["idle"@],
            seq![plain("no video encoding"@, Grade::Dim)],
        )
    } else {
        section_of(
            StatCategory::Net,
            seq!["out:"@ + total.short@],
            seq![
                plotted(
                    "net.out"@,
                    "video out: "@ + total.long@ + " over "@ + text::decimal(
                        sent.renditions as nat,
                    ) + " renditions"@,
                    total.bits,
                    Grade::Plain,
                ),
                plain("video sent: "@ + size, Grade::Dim),
            ],
        )
    }
}

/// Builds the NET section of a broadcast: the encoded video it sends.
///
/// `total` is the rate of `sent` with its texts, and `size` the text of its
/// bytes.
pub fn net_publish(sent: Sent, total: &Reading, size: &str) -> (res: Section)
    ensures
        res@ == net_out(sent, *total, size@),
{
    let mut parts: Vec<String> = Vec::new();
    let mut lines: Vec<Line> = Vec::new();
    assert(text::string_list(parts@) =~= Seq::<Seq<char>>::empty());
    assert(line_list(lines@) =~= Seq::<LineView>::empty());
    if sent.renditions == 0 {
        add_part(&mut parts, "idle".to_owned());
        add_line(&mut lines, Line::info("no video encoding".to_owned()));
        assert(text::string_list(parts@) =~= seq!["idle"@]);
        assert(line_list(lines@) =~= seq![plain("no video encoding"@, Grade::Dim)]);
        return Section::new(StatCategory::Net, parts, lines);
    }
    add_part(&mut parts, "out:".to_owned().concat(total.short.as_str()));
    let out = Line::metric(
        "net.out".to_owned(),
        "video out: ".to_owned().concat(total.long.as_str()).concat(" over ").concat(
            text::decimal_text(sent.renditions as u64).as_str(),
        ).concat(" renditions"),
        total.bits,
        Grade::Plain,
    );
    let bytes = Line::info("video sent: ".to_owned().concat(size));
    let ghost both = seq![out@, bytes@];
    add_line(&mut lines, out);
    add_line(&mut lines, bytes);
    assert(text::string_list(parts@) =~= seq!["out:"@ + total.short@]);
    assert(line_list(lines@) =~= both);
    Section::new(StatCategory::Net, parts, lines)
}

/// The CAPTURE section lists every rendition that either snapshot knows of, and
/// no other.
pub proof fn law_every_rendition_is_listed(a: Seq<Seq<char>>, b: Seq<Seq<char>>, name: Seq<char>)
    ensures
        merged(a, b).contains(name) == (a.contains(name) || b.contains(name)),
    decreases a.len() + b.len(),
{
    if a.len() > 0 && b.len() > 0 {
        let (one, x, y) = if a[0] == b[0] {
            (a[0], a.skip(1), b.skip(1))
        } else if text::precedes(a[0], b[0]) {
            (a[0], a.skip(1), b)
        } else {
            (b[0], a, b.skip(1))
        };
        law_every_rendition_is_listed(x, y, name);
        lemma_front(a, name);
        lemma_front(b, name);
        let rest = merged(x, y);
        assert(merged(a, b) =~= seq![one] + rest);
        lemma_front(merged(a, b), name);
        assert(merged(a, b).skip(1) =~= rest);
        assert(merged(a, b)[0] == one);
    } else if a.len() == 0 {
        assert(!a.contains(name));
    }
}

proof fn lemma_front(list: Seq<Seq<char>>, name: Seq<char>)
    requires
        list.len() > 0,
    ensures
        list.contains(name) == (list[0] == name || list.skip(1).contains(name)),
{
    let rest = list.skip(1);
    if list.contains(name) {
        let at = choose|at: int| 0 <= at < list.len() && list[at] == name;
        if at > 0 {
            assert(rest[at - 1] == name);
        }
    }
    if rest.contains(name) {
        let at = choose|at: int| 0 <= at < rest.len() && rest[at] == name;
        assert(list[at + 1] == name);
    }
}

/// Positive numbers are ordered as their bits are, negative ones the other way
/// round and before them, the two zeros are the same, and what is no number is
/// neither less nor more than anything.
pub proof fn law_numbers_are_ordered(left: u64, right: u64)
    ensures
        left <= INFINITE && right <= INFINITE ==> (less(left, right) <==> left < right),
        left <= INFINITE && right <= INFINITE ==> (less(
            (SIGN + left) as u64,
            (SIGN + right) as u64,
        ) <==> right < left),
        left <= INFINITE && right <= INFINITE ==> (less((SIGN + left) as u64, right) <==> left > 0
            || right > 0),
        left <= INFINITE && right <= INFINITE ==> !less(left, (SIGN + right) as u64),
        INFINITE < left < SIGN ==> !less(left, right) && !less(right, left) && !less(
            (SIGN + left) as u64,
            right,
        ) && !less(right, (SIGN + left) as u64),
{
}

/// A number that is less stays less than what is more than the other.
pub proof fn law_the_order_of_numbers_carries_on(a: u64, b: u64, c: u64)
    ensures
        !less(a, a),
        less(a, b) ==> !less(b, a),
        less(a, b) && less(b, c) ==> less(a, c),
{
}

/// The bits of a double that is a whole number: its fraction, with the leading one,
/// is the number shifted by its exponent.
pub open spec fn is_double(bits: u64, whole: nat) -> bool {
    let exponent = bits as int / 0x10_0000_0000_0000;
    let fraction = 0x10_0000_0000_0000 + bits as int % 0x10_0000_0000_0000;
    exponent <= 1075 && whole * vstd::arithmetic::power2::pow2((1075 - exponent) as nat) == fraction
}

/// The bounds of the grades are the numbers they are named after.
pub proof fn law_the_bounds_are_their_numbers()
    ensures
        is_double(TWO, 2),
        is_double(TEN, 10),
        is_double(FIFTEEN, 15),
        is_double(SIXTEEN, 16),
        is_double(TWENTY_FOUR, 24),
        is_double(THIRTY_THREE, 33),
        is_double(FORTY, 40),
        is_double(HUNDRED, 100),
        is_double(TWO_HUNDRED, 200),
{
    vstd::arithmetic::power2::lemma2_to64();
    vstd::arithmetic::power2::lemma2_to64_rest();
}

/// Of what is better low, less is never graded worse, and of what is better high,
/// more is not. A good value is within the first bound and a bad one beyond the
/// second.
pub proof fn law_a_better_value_is_graded_no_worse(value: u64, better: u64, good: u64, warn: u64)
    ensures
        low(value, good, warn) is Good <==> less(value, good),
        low(value, good, warn) is Bad <==> !less(value, good) && !less(value, warn),
        high(value, good, warn) is Good <==> less(good, value),
        high(value, good, warn) is Bad <==> !less(good, value) && !less(warn, value),
        low(value, good, warn) is Good || low(value, good, warn) is Warn || low(
            value,
            good,
            warn,
        ) is Bad,
        high(value, good, warn) is Good || high(value, good, warn) is Warn || high(
            value,
            good,
            warn,
        ) is Bad,
        less(better, value) && low(value, good, warn) is Good ==> low(better, good, warn) is Good,
        less(better, value) && low(value, good, warn) is Warn ==> !(low(better, good, warn) is Bad),
        less(value, better) && high(value, good, warn) is Good ==> high(better, good, warn) is Good,
        less(value, better) && high(value, good, warn) is Warn ==> !(high(
            better,
            good,
            warn,
        ) is Bad),
{
}

/// Each kind of reading has a title of its own.
pub proof fn law_titles_differ(one: StatCategory, other: StatCategory)
    requires
        one.title() == other.title(),
    ensures
        one == other,
        one.title() == match one {
            StatCategory::Net => "NET"@,
            StatCategory::Capture => "CAPTURE"@,
            StatCategory::Render => "RENDER"@,
            StatCategory::Audio => "AUDIO"@,
            StatCategory::Time => "TIME"@,
        },
{
    reveal_strlit("NET");
    reveal_strlit("CAPTURE");
    reveal_strlit("RENDER");
    reveal_strlit("AUDIO");
    reveal_strlit("TIME");
    assert("NET"@[0] == 'N' && "CAPTURE"@[0] == 'C' && "RENDER"@[0] == 'R' && "AUDIO"@[0] == 'A'
        && "TIME"@[0] == 'T');
}

/// A plotted line carries its text, its grade and its value, and a plain one no
/// value.
pub proof fn law_a_line_carries_what_it_shows(
    key: Seq<char>,
    text: Seq<char>,
    value: u64,
    grade: Grade,
)
    ensures
        plain(text, grade).plot is None,
        plotted(key, text, value, grade).plot == Some((key, value)),
        plain(text, grade).text == text && plotted(key, text, value, grade).text == text,
        plain(text, grade).grade == grade && plotted(key, text, value, grade).grade == grade,
{
}

/// The parts of a summary follow each other with a blank between, the title first.
pub proof fn law_a_summary_is_its_parts(start: Seq<char>, parts: Seq<Seq<char>>)
    ensures
        spaced(start, parts) == text::joined(seq![start] + parts, " "@),
    decreases parts.len(),
{
    let all = seq![start] + parts;
    if parts.len() == 0 {
        reveal_with_fuel(text::joined, 2);
        assert(text::joined(all, " "@) =~= start);
    } else {
        law_a_summary_is_its_parts(start, parts.drop_last());
        assert(all.drop_last() =~= seq![start] + parts.drop_last());
        assert(all.last() == parts.last());
    }
}

/// A section has its lines, and starts its summary with its title.
pub proof fn law_a_section_starts_with_its_title(
    category: StatCategory,
    parts: Seq<Seq<char>>,
    lines: Seq<LineView>,
)
    ensures
        section_of(category, parts, lines).category == category,
        section_of(category, parts, lines).lines == lines,
        section_of(category, parts, lines).summary == text::joined(
            seq![category.title()] + parts,
            " "@,
        ),
{
    law_a_summary_is_its_parts(category.title(), parts);
}

/// What runs is good, what failed is bad and says why, what starts is warned of,
/// and the rest is dim. Each line starts with the name.
pub proof fn law_a_slot_is_graded_by_its_state(name: Seq<char>, state: SlotState)
    ensures
        ({
            let line = slot_text(name, state);
            &&& line.plot is None
            &&& line.grade is Good <==> state is Running
            &&& line.grade is Bad <==> state is Failed
            &&& line.grade is Warn <==> state is Starting
            &&& line.grade is Dim <==> state is Off || state is Ended
            &&& state matches SlotState::Failed(err) ==> line.text == name + ": failed: "@ + err@
            &&& state is Off ==> line.text == name + ": off"@
            &&& state is Starting ==> line.text == name + ": starting"@
            &&& state is Running ==> line.text == name + ": running"@
            &&& state is Ended ==> line.text == name + ": ended"@
        }),
{
}

/// A mode is told by what it does.
pub proof fn law_a_mode_is_told(height: u32, name: Seq<char>)
    ensures
        mode_words(RenditionModeView::Auto { max_height: None }) == "auto"@,
        mode_words(RenditionModeView::Auto { max_height: Some(height) }) == "auto, up to "@
            + text::decimal(height as nat) + "p"@,
        mode_words(RenditionModeView::Pinned(name)) == "pinned to "@ + name,
        mode_words(RenditionModeView::Off) == "off"@,
{
}

/// The readings of a link are summed up in their order, each where it is known:
/// the round trip, the loss and the bandwidth.
pub proof fn law_a_link_is_summed_up(net: NetworkSample)
    ensures
        net.rtt is Some ==> net_parts(net) == seq!["rtt:"@ + net.rtt->0.short@ + "ms"@] + net_parts(
            NetworkSample { rtt: None, ..net },
        ),
        net.rtt is None && net.loss is Some ==> net_parts(net) == seq![
            "loss:"@ + net.loss->0.short@ + "%"@,
        ] + net_parts(NetworkSample { loss: None, ..net }),
        net.rtt is None && net.loss is None && net.delivery is Some ==> net_parts(net) == seq![
            "bw:"@ + net.delivery->0.short@,
        ],
        net.rtt is None && net.loss is None && net.delivery is None ==> net_parts(net)
            == Seq::<Seq<char>>::empty(),
{
    assert(net.rtt is Some ==> net_parts(net) =~= seq!["rtt:"@ + net.rtt->0.short@ + "ms"@]
        + net_parts(NetworkSample { rtt: None, ..net }));
    assert(net.rtt is None && net.loss is Some ==> net_parts(net) =~= seq![
        "loss:"@ + net.loss->0.short@ + "%"@,
    ] + net_parts(NetworkSample { loss: None, ..net }));
}

/// Each reading of a link has a line of its own where it is known, in one order,
/// graded and plotted by its value.
pub proof fn law_each_link_reading_has_its_line(net: NetworkSample)
    ensures
        net.rtt is Some ==> net_lines(net) == seq![
            LineView {
                text: "rtt: "@ + net.rtt->0.long@ + " ms"@,
                grade: low(net.rtt->0.bits, HUNDRED, TWO_HUNDRED),
                plot: Some(("net.rtt"@, net.rtt->0.bits)),
            },
        ] + net_lines(NetworkSample { rtt: None, ..net }),
        net.rtt is None && net.min_rtt is Some ==> net_lines(net) == seq![
            LineView {
                text: "min rtt: "@ + net.min_rtt->0@ + " ms"@,
                grade: Grade::Dim,
                plot: None,
            },
        ] + net_lines(NetworkSample { min_rtt: None, ..net }),
        net.rtt is None && net.min_rtt is None && net.loss is Some ==> net_lines(net) == seq![
            LineView {
                text: "loss: "@ + net.loss->0.long@ + "%"@,
                grade: low(net.loss->0.bits, TWO, TEN),
                plot: Some(("net.loss"@, net.loss->0.bits)),
            },
        ] + net_lines(NetworkSample { loss: None, ..net }),
        net.rtt is None && net.min_rtt is None && net.loss is None && net.delivery is Some
            ==> net_lines(net) == seq![
            LineView {
                text: "delivery estimate: "@ + net.delivery->0.long@,
                grade: Grade::Plain,
                plot: Some(("net.delivery"@, net.delivery->0.bits)),
            },
        ] + net_lines(NetworkSample { delivery: None, ..net }),
        net_lines(net).last() == (LineView {
            text: "path generation: "@ + text::decimal(net.path_generation as nat),
            grade: Grade::Dim,
            plot: None,
        }),
        net.rtt is None && net.min_rtt is None && net.loss is None && net.delivery is None
            ==> net_lines(net).len() == 1,
{
    if net.rtt is Some {
        assert(net_lines(net) =~= seq![net_lines(net)[0]] + net_lines(
            NetworkSample { rtt: None, ..net },
        ));
    } else if net.min_rtt is Some {
        assert(net_lines(net) =~= seq![net_lines(net)[0]] + net_lines(
            NetworkSample { min_rtt: None, ..net },
        ));
    } else if net.loss is Some {
        assert(net_lines(net) =~= seq![net_lines(net)[0]] + net_lines(
            NetworkSample { loss: None, ..net },
        ));
    } else if net.delivery is Some {
        assert(net_lines(net) =~= seq![net_lines(net)[0]] + net_lines(
            NetworkSample { delivery: None, ..net },
        ));
    }
}

/// A link without signals says so.
pub proof fn law_a_link_without_signals_says_so(network: Option<NetworkSample>)
    ensures
        net_section(network).category is Net,
        network is Some ==> net_section(network).lines == net_lines(network->0)
            && net_section(network).summary == text::joined(
            seq!["NET"@] + net_parts(network->0),
            " "@,
        ),
        network is None ==> net_section(network).lines == seq![
            LineView {
                text: "no link data: the broadcast carries no network signals"@,
                grade: Grade::Dim,
                plot: None,
            },
        ] && net_section(network).summary == "NET"@ + " "@ + "no link data"@,
{
    if let Some(net) = network {
        law_a_summary_is_its_parts("NET"@, net_parts(net));
    } else {
        reveal_with_fuel(spaced, 2);
        assert(seq!["no link data"@].drop_last() =~= Seq::<Seq<char>>::empty());
    }
}

/// What is shown has its own name, or where that is empty or missing the known
/// one.
pub proof fn law_a_name_that_is_shown_counts(stats: PlaybackStats, status: PlayerStatus)
    ensures
        stats.video is Some && stats.video->0.rendition@.len() > 0 ==> shown_rendition(
            stats,
            status,
        ) == Some(stats.video->0.rendition@),
        stats.video is None || stats.video->0.rendition@.len() == 0 ==> shown_rendition(
            stats,
            status,
        ) == text::opt_text(status.rendition),
        stats.video is Some && stats.video->0.decoder@.len() > 0 ==> shown_decoder(stats, status)
            == Some(stats.video->0.decoder@),
        stats.video is None || stats.video->0.decoder@.len() == 0 ==> shown_decoder(stats, status)
            == text::opt_text(status.decoder),
{
}

/// A picture is summed up by its rate and by what a frame takes to decode, each
/// where it is known.
pub proof fn law_a_picture_is_summed_up(video: VideoStats)
    ensures
        video.fps is Some ==> video_parts(video) == seq![video.fps->0.short@ + "fps"@]
            + video_parts(VideoStats { fps: None, ..video }),
        video.fps is None && video.decode_time is Some ==> video_parts(video) == seq![
            "dec:"@ + video.decode_time->0.short@ + "ms"@,
        ],
        video.fps is None && video.decode_time is None ==> video_parts(video)
            == Seq::<Seq<char>>::empty(),
{
    if video.fps is Some {
        assert(video_parts(video) =~= seq![video.fps->0.short@ + "fps"@] + video_parts(
            VideoStats { fps: None, ..video },
        ));
    }
}

/// Each reading of a picture has a line of its own where it is known, in one order,
/// and frames that were skipped are warned of.
pub proof fn law_each_picture_reading_has_its_line(video: VideoStats)
    ensures
        video.size is Some ==> video_lines(video) == seq![
            LineView { text: "size: "@ + video.size->0@, grade: Grade::Dim, plot: None },
        ] + video_lines(VideoStats { size: None, ..video }),
        video.size is None && video.fps is Some ==> video_lines(video) == seq![
            LineView {
                text: "fps: "@ + video.fps->0.long@,
                grade: high(video.fps->0.bits, TWENTY_FOUR, FIFTEEN),
                plot: Some(("render.fps"@, video.fps->0.bits)),
            },
        ] + video_lines(VideoStats { fps: None, ..video }),
        video.size is None && video.fps is None && video.decode_time is Some ==> video_lines(video)
            == seq![
            LineView {
                text: "decode: "@ + video.decode_time->0.long@ + " ms"@,
                grade: low(video.decode_time->0.bits, SIXTEEN, THIRTY_THREE),
                plot: Some(("render.decode"@, video.decode_time->0.bits)),
            },
        ] + video_lines(VideoStats { decode_time: None, ..video }),
        video_lines(video).last() == (LineView {
            text: "frames: "@ + text::decimal(video.frames as nat) + ", skipped: "@ + text::decimal(
                video.skipped as nat,
            ),
            grade: if video.skipped == 0 {
                Grade::Dim
            } else {
                Grade::Warn
            },
            plot: None,
        }),
        video.size is None && video.fps is None && video.decode_time is None ==> video_lines(
            video,
        ).len() == 1,
{
    if video.size is Some {
        assert(video_lines(video) =~= seq![video_lines(video)[0]] + video_lines(
            VideoStats { size: None, ..video },
        ));
    } else if video.fps is Some {
        assert(video_lines(video) =~= seq![video_lines(video)[0]] + video_lines(
            VideoStats { fps: None, ..video },
        ));
    } else if video.decode_time is Some {
        assert(video_lines(video) =~= seq![video_lines(video)[0]] + video_lines(
            VideoStats { decode_time: None, ..video },
        ));
    }
}

/// A player is summed up by whether it is off, its rendition, whether a switch
/// failed, and then its picture.
pub proof fn law_a_player_is_summed_up(stats: PlaybackStats, status: PlayerStatus)
    ensures
        ({
            let parts = render_parts(stats, status);
            let off = if status.mode is Off {
                seq!["off"@]
            } else {
                Seq::<Seq<char>>::empty()
            };
            let rendition = match shown_rendition(stats, status) {
                Some(name) => seq![name],
                None => Seq::<Seq<char>>::empty(),
            };
            let failed = if status.switch_error is Some {
                seq!["switch failed"@]
            } else {
                Seq::<Seq<char>>::empty()
            };
            &&& stats.video is None ==> parts == off + rendition + failed
            &&& stats.video is Some ==> parts == off + rendition + failed + video_parts(
                stats.video->0,
            )
        }),
{
    assert(Seq::<Seq<char>>::empty() + listed(
        if status.mode is Off {
            Some("off"@)
        } else {
            None
        },
    ) =~= listed(
        if status.mode is Off {
            Some("off"@)
        } else {
            None
        },
    ));
    let front = render_parts(PlaybackStats { video: None, ..stats }, status);
    if stats.video is None {
        let off = listed(
            if status.mode is Off {
                Some("off"@)
            } else {
                None
            },
        );
        let failed = listed(
            match status.switch_error {
                Some(_) => Some("switch failed"@),
                None => None,
            },
        );
        assert(render_parts(stats, status) =~= off + listed(shown_rendition(stats, status))
            + failed);
    }
}

/// A rendition that another is warming up for says which.
pub proof fn law_a_switch_is_told(rendition: Seq<char>, status: PlayerStatus)
    ensures
        status.switching_to is None ==> rendition_line(rendition, status) == "rendition: "@
            + rendition,
        status.switching_to is Some ==> rendition_line(rendition, status) == "rendition: "@
            + rendition + " -> "@ + status.switching_to->0@ + " (warming up)"@,
{
}

/// The lines of a player are its mode, the state of its video, its rendition, the
/// error of its last switch and its decoder, each where it is known, and then its
/// picture.
pub proof fn law_a_player_has_its_lines(stats: PlaybackStats, status: PlayerStatus)
    ensures
        ({
            let lines = render_lines(stats, status);
            let rendition = match shown_rendition(stats, status) {
                Some(name) => seq![
                    LineView { text: rendition_line(name, status), grade: Grade::Dim, plot: None },
                ],
                None => Seq::<LineView>::empty(),
            };
            let failed = match status.switch_error {
                Some(err) => seq![
                    LineView { text: "switch error: "@ + err@, grade: Grade::Bad, plot: None },
                ],
                None => Seq::<LineView>::empty(),
            };
            let decoder = match shown_decoder(stats, status) {
                Some(name) => seq![
                    LineView { text: "decoder: "@ + name, grade: Grade::Dim, plot: None },
                ],
                None => Seq::<LineView>::empty(),
            };
            let picture = match stats.video {
                Some(video) => video_lines(video),
                None => Seq::<LineView>::empty(),
            };
            &&& lines[0] == (LineView {
                text: "mode: "@ + mode_words(status.mode@),
                grade: Grade::Dim,
                plot: None,
            })
            &&& lines[1] == slot_text("video"@, status.video)
            &&& lines.skip(2) == rendition + failed + decoder + picture
        }),
{
    let lines = render_lines(stats, status);
    let rendition = match shown_rendition(stats, status) {
        Some(name) => seq![
            LineView { text: rendition_line(name, status), grade: Grade::Dim, plot: None },
        ],
        None => Seq::<LineView>::empty(),
    };
    let failed = match status.switch_error {
        Some(err) => seq![
            LineView { text: "switch error: "@ + err@, grade: Grade::Bad, plot: None },
        ],
        None => Seq::<LineView>::empty(),
    };
    let decoder = match shown_decoder(stats, status) {
        Some(name) => seq![LineView { text: "decoder: "@ + name, grade: Grade::Dim, plot: None }],
        None => Seq::<LineView>::empty(),
    };
    let picture = match stats.video {
        Some(video) => video_lines(video),
        None => Seq::<LineView>::empty(),
    };
    let head = seq![
        plain("mode: "@ + mode_words(status.mode@), Grade::Dim),
        slot_text("video"@, status.video),
    ];
    assert(lines == head + rendition + failed + decoder + picture);
    assert(lines.skip(2) =~= rendition + failed + decoder + picture);
}

/// The sound has a line for its rendition where it has a name, for what is
/// buffered, for its peak and for its frames.
pub proof fn law_the_sound_has_its_lines(audio: AudioStats)
    ensures
        ({
            let lines = audio_lines(audio);
            let at = lines.len() - 3;
            &&& audio.rendition@.len() == 0 ==> at == 0
            &&& audio.rendition@.len() > 0 ==> at == 1 && lines[0] == (LineView {
                text: "rendition: "@ + audio.rendition@,
                grade: Grade::Dim,
                plot: None,
            })
            &&& lines[at] == (LineView {
                text: "buffered: "@ + audio.buffered.long@ + " ms"@,
                grade: high(audio.buffered.bits, FORTY, FIFTEEN),
                plot: Some(("audio.buffered"@, audio.buffered.bits)),
            })
            &&& lines[at + 1] == (LineView {
                text: "peak: "@ + audio.peak.long@,
                grade: Grade::Plain,
                plot: Some(("audio.peak"@, audio.peak.bits)),
            })
            &&& lines[at + 2] == (LineView {
                text: "frames: "@ + text::decimal(audio.frames as nat),
                grade: Grade::Dim,
                plot: None,
            })
        }),
{
}

/// The sound is summed up by what is buffered, where it plays, and by its latency.
pub proof fn law_the_sound_is_summed_up(stats: PlaybackStats)
    ensures
        audio_parts(stats).last() == "lat:"@ + stats.latency.short@ + "ms"@,
        stats.audio is None ==> audio_parts(stats).len() == 1,
        stats.audio is Some ==> audio_parts(stats).len() == 2 && audio_parts(stats)[0] == "buf:"@
            + stats.audio->0.buffered.short@ + "ms"@,
{
}

/// Names in order.
pub open spec fn in_order(names: Seq<Seq<char>>) -> bool {
    forall|i: int, j: int|
        0 <= i < j < names.len() ==> text::precedes(#[trigger] names[i], #[trigger] names[j])
}

/// Two lists of names in order make one in order, in which no name stands twice.
pub proof fn law_merged_names_stay_in_order(a: Seq<Seq<char>>, b: Seq<Seq<char>>)
    requires
        in_order(a),
        in_order(b),
    ensures
        in_order(merged(a, b)),
    decreases a.len() + b.len(),
{
    if a.len() > 0 && b.len() > 0 {
        text::law_two_texts_are_in_one_order(a[0], b[0]);
        let same = a[0] == b[0];
        let first = same || text::precedes(a[0], b[0]);
        let head = if first {
            a[0]
        } else {
            b[0]
        };
        let left = if first {
            a.skip(1)
        } else {
            a
        };
        let right = if same || !first {
            b.skip(1)
        } else {
            b
        };
        law_merged_names_stay_in_order(left, right);
        let rest = merged(left, right);
        assert(merged(a, b) == seq![head] + rest);
        assert forall|j: int| 0 <= j < rest.len() implies text::precedes(
            head,
            #[trigger] rest[j],
        ) by {
            law_every_rendition_is_listed(left, right, rest[j]);
            assert(rest.contains(rest[j]));
            if left.contains(rest[j]) {
                let i = left.index_of(rest[j]);
                lemma_after_head(a, b, head, left, i);
            } else {
                let i = right.index_of(rest[j]);
                lemma_after_head(b, a, head, right, i);
            }
        }
        let all = merged(a, b);
        assert forall|i: int, j: int| 0 <= i < j < all.len() implies text::precedes(
            #[trigger] all[i],
            #[trigger] all[j],
        ) by {
            assert(all[j] == rest[j - 1]);
            if i > 0 {
                assert(all[i] == rest[i - 1]);
            }
        }
    }
}

/// The first of two lists in order comes before all that is left of them.
proof fn lemma_after_head(
    own: Seq<Seq<char>>,
    other: Seq<Seq<char>>,
    head: Seq<char>,
    rest: Seq<Seq<char>>,
    i: int,
)
    requires
        in_order(own),
        own.len() > 0,
        other.len() > 0,
        0 <= i < rest.len(),
        head == own[0] || (head == other[0] && text::precedes(other[0], own[0])),
        head == own[0] ==> rest == own.skip(1),
        head != own[0] ==> rest == own,
    ensures
        text::precedes(head, rest[i]),
{
    if head == own[0] {
        assert(rest[i] == own[i + 1]);
    } else if i > 0 {
        text::law_the_order_of_texts_carries_on(head, own[0], own[i]);
    }
}

/// The state of a rendition is that of the first row with its name, and there is
/// none where no row has it.
pub proof fn law_a_state_is_found_by_its_name(
    before: Seq<StatusRow>,
    row: StatusRow,
    after: Seq<StatusRow>,
)
    requires
        forall|i: int| 0 <= i < before.len() ==> (#[trigger] before[i]).name@ != row.name@,
    ensures
        state_of(before + seq![row] + after, row.name@) == Some(row.state),
        state_of(before, row.name@) is None,
{
    let all = before + seq![row] + after;
    let names = status_names(all);
    assert forall|j: int| 0 <= j < before.len() implies #[trigger] names[j] != row.name@ by {
        assert(names[j] == before[j].name@);
    }
    lemma_place(names, row.name@, before.len());
    lemma_place(status_names(before), row.name@, before.len());
}

/// The row of a rendition is the first with its name, and there is none where no
/// row has it.
pub proof fn law_a_row_is_found_by_its_name(
    before: Seq<EncodeRow>,
    row: EncodeRow,
    after: Seq<EncodeRow>,
)
    requires
        forall|i: int| 0 <= i < before.len() ==> (#[trigger] before[i]).name@ != row.name@,
    ensures
        encode_of(before + seq![row] + after, row.name@) == Some(row),
        encode_of(before, row.name@) is None,
{
    let all = before + seq![row] + after;
    let names = encode_names(all);
    assert forall|j: int| 0 <= j < before.len() implies #[trigger] names[j] != row.name@ by {
        assert(names[j] == before[j].name@);
    }
    lemma_place(names, row.name@, before.len());
    lemma_place(encode_names(before), row.name@, before.len());
}

/// Each row gives its own name.
pub proof fn law_rows_give_their_names(status: Seq<StatusRow>, stats: Seq<EncodeRow>, i: int)
    ensures
        status_names(status).len() == status.len(),
        encode_names(stats).len() == stats.len(),
        0 <= i < status.len() ==> status_names(status)[i] == status[i].name@,
        0 <= i < stats.len() ==> encode_names(stats)[i] == stats[i].name@,
{
}

/// A row says of a rendition that it idles, or why it failed, and is bad only where
/// it failed.
pub proof fn law_a_row_says_how_it_is(name: Seq<char>, state: Option<RenditionState>)
    ensures
        ({
            let (words, grade) = state_words(name, state);
            &&& grade is Bad <==> state is Some && state->0 is Failed
            &&& grade is Dim <==> state is Some && state->0 is Idle
            &&& grade is Plain <==> state is None || state->0 is Encoding
            &&& state is Some && state->0 is Idle ==> words == name + ":"@ + " idle"@
            &&& state matches Some(RenditionState::Failed(err)) ==> words == name + ":"@
                + " failed: "@ + err@
            &&& state is None || state->0 is Encoding ==> words == name + ":"@
        }),
{
}

/// An encoder is named by its own row, or else by the state.
pub proof fn law_an_encoder_is_named_by_its_row(row: EncodeRow, state: Option<RenditionState>)
    ensures
        row.encoder is Some ==> encoder_of(row, state) == Some(row.encoder->0@),
        row.encoder is None ==> match state {
            Some(RenditionState::Encoding(encoder)) => encoder_of(row, state) == Some(encoder@),
            _ => encoder_of(row, state) is None,
        },
{
}

/// The fields of a row stand in one order, each where it is known: the encoder, the
/// size, the rate, the bitrate and the time of a frame. The frames come last.
pub proof fn law_a_row_has_its_fields(row: EncodeRow, state: Option<RenditionState>)
    ensures
        ({
            let encoder = if encoder_of(row, state) is Some {
                seq![encoder_of(row, state)->0]
            } else {
                Seq::<Seq<char>>::empty()
            };
            let size = if row.size is Some {
                seq![row.size->0@]
            } else {
                Seq::<Seq<char>>::empty()
            };
            let fps = if row.fps is Some {
                seq![row.fps->0@ + "fps"@]
            } else {
                Seq::<Seq<char>>::empty()
            };
            let bitrate = if row.bitrate is Some {
                seq![row.bitrate->0.shown.long@]
            } else {
                Seq::<Seq<char>>::empty()
            };
            let time = if row.encode_time is Some {
                seq!["enc:"@ + row.encode_time->0@ + "ms"@]
            } else {
                Seq::<Seq<char>>::empty()
            };
            encode_fields(row, state) == encoder + size + fps + bitrate + time + seq![
                text::decimal(row.frames as nat) + " frames"@,
            ]
        }),
{
    assert(Seq::<Seq<char>>::empty() + listed(encoder_of(row, state)) =~= listed(
        encoder_of(row, state),
    ));
}

/// A rendition has one line: how it is and then its fields, where it has a row, or
/// its encoder. Its bitrate is plotted where it is known, and only there.
pub proof fn law_a_rendition_has_one_line(
    name: Seq<char>,
    state: Option<RenditionState>,
    row: Option<EncodeRow>,
)
    ensures
        ({
            let line = rendition_row(name, state, row);
            let (words, grade) = state_words(name, state);
            &&& line.grade == grade
            &&& line.plot is Some <==> row is Some && row->0.bitrate is Some
            &&& row is Some && row->0.bitrate is Some ==> line.plot == Some(
                ("capture."@ + name + ".bitrate"@, row->0.bitrate->0.shown.bits),
            )
            &&& row is Some ==> line.text == spaced(words, encode_fields(row->0, state))
            &&& row is None ==> match state {
                Some(RenditionState::Encoding(encoder)) => line.text == words + " "@ + encoder@,
                _ => line.text == words,
            }
        }),
{
}

/// Each rendition has its line, in the order of their names.
pub proof fn law_each_rendition_has_its_line(
    names: Seq<Seq<char>>,
    status: Seq<StatusRow>,
    stats: Seq<EncodeRow>,
    i: int,
)
    ensures
        rendition_rows(names, status, stats).len() == names.len(),
        0 <= i < names.len() ==> rendition_rows(names, status, stats)[i] == rendition_row(
            names[i],
            state_of(status, names[i]),
            encode_of(stats, names[i]),
        ),
{
}

/// The renditions that are encoding are counted one by one.
pub proof fn law_encoding_renditions_are_counted(before: Seq<StatusRow>, row: StatusRow, after: Seq<StatusRow>)
    ensures
        encoding_count(Seq::empty()) == 0,
        encoding_count(before + seq![row] + after) == encoding_count(before + after)
            + if row.state is Encoding {
            1nat
        } else {
            0
        },
    decreases after.len(),
{
    let all = before + seq![row] + after;
    if after.len() == 0 {
        assert(all.drop_last() =~= before);
        assert(before + after =~= before);
    } else {
        law_encoding_renditions_are_counted(before, row, after.drop_last());
        assert(all.drop_last() =~= before + seq![row] + after.drop_last());
        assert((before + after).drop_last() =~= before + after.drop_last());
    }
}

/// Rates and bytes are summed up over all the rows, and the rows with a rate are
/// counted.
pub proof fn law_what_is_sent_is_summed_up(before: Seq<EncodeRow>, row: EncodeRow, after: Seq<EncodeRow>)
    ensures
        rate_count(Seq::empty()) == 0 && rate_sum(Seq::empty()) == 0 && byte_sum(Seq::empty()) == 0,
        byte_sum(before + seq![row] + after) == byte_sum(before + after) + row.bytes,
        row.bitrate is Some ==> rate_sum(before + seq![row] + after) == rate_sum(before + after)
            + row.bitrate->0.bps && rate_count(before + seq![row] + after) == rate_count(
            before + after,
        ) + 1,
        row.bitrate is None ==> rate_sum(before + seq![row] + after) == rate_sum(before + after)
            && rate_count(before + seq![row] + after) == rate_count(before + after),
    decreases after.len(),
{
    let all = before + seq![row] + after;
    if after.len() == 0 {
        assert(all.drop_last() =~= before);
        assert(before + after =~= before);
    } else {
        law_what_is_sent_is_summed_up(before, row, after.drop_last());
        assert(all.drop_last() =~= before + seq![row] + after.drop_last());
        assert((before + after).drop_last() =~= before + after.drop_last());
    }
}

/// Sound is named by its codec.
pub proof fn law_sound_is_named_by_its_codec(audio: AudioEncodeStats)
    ensures
        audio.codec is Some ==> codec_of(audio) == audio.codec->0@,
        audio.codec is None ==> codec_of(audio) == "audio"@,
{
}

/// A capture is summed up by the rate of its source, where it is known, by how many
/// of its renditions encode, where it has any, and by the sound it dropped, where it
/// dropped some.
pub proof fn law_a_capture_is_summed_up(stats: PublishStats, status: PublishStatus)
    ensures
        ({
            let names = merged(status_names(status.renditions@), encode_names(stats.renditions@));
            let parts = capture_parts(stats, status);
            let source = if stats.source_fps is Some {
                seq!["src:"@ + stats.source_fps->0.short@ + "fps"@]
            } else {
                Seq::<Seq<char>>::empty()
            };
            let encoding = if names.len() == 0 {
                Seq::<Seq<char>>::empty()
            } else {
                seq![
                    text::decimal(encoding_count(status.renditions@)) + "/"@ + text::decimal(
                        names.len(),
                    ) + " encoding"@,
                ]
            };
            let dropped = if stats.audio is Some && stats.audio->0.dropped != 0 {
                seq!["audio dropped:"@ + text::decimal(stats.audio->0.dropped as nat)]
            } else {
                Seq::<Seq<char>>::empty()
            };
            parts == source + encoding + dropped
        }),
{
    assert(Seq::<Seq<char>>::empty() + listed(
        match stats.source_fps {
            Some(fps) => Some("src:"@ + fps.short@ + "fps"@),
            None => None,
        },
    ) =~= listed(
        match stats.source_fps {
            Some(fps) => Some("src:"@ + fps.short@ + "fps"@),
            None => None,
        },
    ));
}

/// The lines of a capture are the state of its video, the rate of its source where
/// it is known, each rendition by its name, the state of its sound and what became
/// of the sound, which is warned of where some was dropped.
pub proof fn law_a_capture_has_its_lines(stats: PublishStats, status: PublishStatus)
    ensures
        ({
            let names = merged(status_names(status.renditions@), encode_names(stats.renditions@));
            let source = if stats.source_fps is Some {
                seq![
                    LineView {
                        text: "source: "@ + stats.source_fps->0.long@ + " fps"@,
                        grade: high(stats.source_fps->0.bits, TWENTY_FOUR, FIFTEEN),
                        plot: Some(("capture.source_fps"@, stats.source_fps->0.bits)),
                    },
                ]
            } else {
                Seq::<LineView>::empty()
            };
            let sound = if stats.audio is Some {
                seq![
                    LineView {
                        text: codec_of(stats.audio->0) + ": "@ + text::decimal(
                            stats.audio->0.frames as nat,
                        ) + " frames, "@ + text::decimal(stats.audio->0.dropped as nat)
                            + " dropped"@,
                        grade: if stats.audio->0.dropped == 0 {
                            Grade::Dim
                        } else {
                            Grade::Warn
                        },
                        plot: None,
                    },
                ]
            } else {
                Seq::<LineView>::empty()
            };
            capture_lines(stats, status) == seq![slot_text("video"@, status.video)] + source
                + rendition_rows(names, status.renditions@, stats.renditions@) + seq![
                slot_text("audio"@, status.audio),
            ] + sound
        }),
{
}

/// A publisher that sends nothing is idle. Otherwise the whole rate is plotted, over
/// as many renditions as have one.
pub proof fn law_what_goes_out_is_told(sent: Sent, total: Reading, size: Seq<char>)
    ensures
        ({
            let section = net_out(sent, total, size);
            &&& section.category is Net
            &&& sent.renditions == 0 ==> section.lines == seq![
                LineView { text: "no video encoding"@, grade: Grade::Dim, plot: None },
            ] && section.summary == "NET"@ + " "@ + "idle"@
            &&& sent.renditions > 0 ==> section.summary == "NET"@ + " "@ + ("out:"@ + total.short@)
                && section.lines == seq![
                LineView {
                    text: "video out: "@ + total.long@ + " over "@ + text::decimal(
                        sent.renditions as nat,
                    ) + " renditions"@,
                    grade: Grade::Plain,
                    plot: Some(("net.out"@, total.bits)),
                },
                LineView { text: "video sent: "@ + size, grade: Grade::Dim, plot: None },
            ]
        }),
{
    reveal_with_fuel(spaced, 2);
    assert(seq!["idle"@].drop_last() =~= Seq::<Seq<char>>::empty());
    assert(seq!["out:"@ + total.short@].drop_last() =~= Seq::<Seq<char>>::empty());
}

/// A mode is seen as what it is, with what it holds.
pub proof fn law_a_mode_is_seen_as_it_is(one: RenditionMode)
    ensures
        one matches RenditionMode::Auto { max_height } ==> one@ == (RenditionModeView::Auto { max_height }),
        one matches RenditionMode::Pinned(name) ==> one@ == RenditionModeView::Pinned(name@),
        one matches RenditionMode::Off ==> one@ == RenditionModeView::Off,
{
}

} // verus!
