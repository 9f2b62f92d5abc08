//! `irl run`: a multi-stream session described by a TOML file.
//!
//! One endpoint publishes every `[[send]]` block and subscribes to every
//! `[[recv]]` block. The session is headless: a `[[recv]]` block plays audio
//! and can record, but opens no window.

use vstd::prelude::*;

use crate::args::CaptureArgs;
use crate::text;

verus! {

/// A session file.
#[derive(Debug)]
pub struct RunConfig {
    /// Name of a stored secret key, so the session's tickets survive a restart.
    pub secret_key_name: Option<String>,
    /// The broadcasts this session publishes.
    pub send: Vec<SendConfig>,
    /// The broadcasts this session subscribes to.
    pub recv: Vec<RecvConfig>,
}

/// One broadcast to publish: `name` plus the `irl publish` capture flags.
#[derive(Debug)]
pub struct SendConfig {
    /// The broadcast name, also the label in output.
    pub name: String,
    /// The capture and encoding flags. `file:` sources need `irl publish`.
    pub capture: CaptureArgs,
}

/// What a `[[recv]]` block does with the audio it receives.
#[derive(Debug, Clone, Copy, PartialEq, Eq, Structural)]
pub enum AudioOutput {
    /// Play it through the system default output.
    Default,
    /// Do not play it.
    Nothing,
}

impl Default for AudioOutput {
    fn default() -> (res: Self)
        ensures
            res == AudioOutput::Default,
    {
        AudioOutput::Default
    }
}

/// One broadcast to subscribe to.
#[derive(Debug)]
pub struct RecvConfig {
    /// Label for this subscription in output.
    pub name: String,
    /// Ticket that `irl publish` printed.
    pub ticket: String,
    /// Whether to play the audio.
    ///
    /// All blocks share one output, so this cannot name a device.
    pub audio_output: AudioOutput,
    /// File to record to. Its extension picks the container.
    pub record: Option<String>,
    /// The only video rendition to record. Needs `record`.
    pub rendition: Option<String>,
}

impl RunConfig {
    /// Whether a block plays audio.
    pub open spec fn plays(self) -> bool {
        exists|i: int|
            0 <= i < self.recv@.len() && (#[trigger] self.recv@[i]).audio_output
                == AudioOutput::Default
    }

    /// Checks that the session has something to run.
    ///
    /// `path` names the session file in the message.
    pub fn check(&self, path: &str) -> (res: Result<(), String>)
        ensures
            match res {
                Ok(_) => self.send@.len() > 0 || self.recv@.len() > 0,
                Err(text) => self.send@.len() == 0 && self.recv@.len() == 0 && text@ == path@
                    + " has no [[send]] and no [[recv]] blocks, so there is nothing to run"@,
            },
    {
        if self.send.len() == 0 && self.recv.len() == 0 {
            return Err(
                path.to_owned().concat(
                    " has no [[send]] and no [[recv]] blocks, so there is nothing to run",
                ),
            );
        }
        Ok(())
    }

    /// Returns the line that says what was loaded.
    pub fn loaded_line(&self, path: &str) -> (res: String)
        ensures
            res@ == "loaded "@ + path@ + ": "@ + text::decimal(self.send@.len()) + " send, "@
                + text::decimal(self.recv@.len()) + " recv"@,
    {
        "loaded ".to_owned().concat(path).concat(": ").concat(
            text::decimal_text(self.send.len() as u64).as_str(),
        ).concat(" send, ").concat(text::decimal_text(self.recv.len() as u64).as_str()).concat(
            " recv",
        )
    }

    /// Returns whether the session accepts subscribers.
    pub fn serves(&self) -> (res: bool)
        ensures
            res == (self.send@.len() > 0),
    {
        self.send.len() > 0
    }

    /// Returns whether the session opens an audio output.
    pub fn needs_output(&self) -> (res: bool)
        ensures
            res == self.plays(),
    {
        let mut i: usize = 0;
        while i < self.recv.len()
            invariant
                i <= self.recv@.len(),
                forall|j: int|
                    0 <= j < i ==> (#[trigger] self.recv@[j]).audio_output != AudioOutput::Default,
            decreases self.recv@.len() - i,
        {
            if self.recv[i].audio_output == AudioOutput::Default {
                return true;
            }
            i += 1;
        }
        false
    }
}

/// A line for standard output or for standard error.
#[derive(Debug)]
pub enum Line {
    Out(String),
    Problem(String),
}

/// A [`Line`] with its text as a character sequence.
pub enum LineView {
    Out(Seq<char>),
    Problem(Seq<char>),
}

impl View for Line {
    type V = LineView;

    open spec fn view(&self) -> LineView {
        match *self {
            Line::Out(text) => LineView::Out(text@),
            Line::Problem(text) => LineView::Problem(text@),
        }
    }
}

/// The line for a `[[send]]` block: its ticket, or why it failed.
pub open spec fn send_text(name: Seq<char>, outcome: Result<Seq<char>, Seq<char>>) -> LineView {
    match outcome {
        Ok(ticket) => LineView::Out("[send] "@ + name + ": "@ + ticket),
        Err(err) => LineView::Problem("[send] "@ + name + ": "@ + err),
    }
}

/// The lines for a `[[recv]]` block: its ticket and its recording, or why it
/// failed.
pub open spec fn recv_text(
    name: Seq<char>,
    ticket: Seq<char>,
    outcome: Result<Option<Seq<char>>, Seq<char>>,
) -> Seq<LineView> {
    match outcome {
        Ok(None) => seq![LineView::Out("[recv] "@ + name + ": subscribed to "@ + ticket)],
        Ok(Some(path)) => seq![
            LineView::Out("[recv] "@ + name + ": subscribed to "@ + ticket),
            LineView::Out("[recv] "@ + name + ": recording to "@ + path),
        ],
        Err(err) => seq![LineView::Problem("[recv] "@ + name + ": "@ + err)],
    }
}

/// A text, or the text of an error.
pub open spec fn text_outcome(res: Result<String, String>) -> Result<Seq<char>, Seq<char>> {
    match res {
        Ok(text) => Ok(text@),
        Err(text) => Err(text@),
    }
}

/// An optional text, or the text of an error.
pub open spec fn opt_outcome(res: Result<Option<String>, String>) -> Result<
    Option<Seq<char>>,
    Seq<char>,
> {
    match res {
        Ok(text) => Ok(text::opt_text(text)),
        Err(text) => Err(text@),
    }
}

/// A list of lines by their views.
pub open spec fn line_list(lines: Seq<Line>) -> Seq<LineView> {
    Seq::new(lines.len(), |i: int| lines[i]@)
}

/// What is closed when a session stops.
#[derive(Debug, Clone, Copy, PartialEq, Eq, Structural)]
pub enum Closing {
    /// Finish the recording of this `[[recv]]` block.
    Recording(usize),
    /// Close the broadcast of this `[[send]]` block.
    Broadcast(usize),
    /// Close the subscription of this `[[recv]]` block.
    Receiver(usize),
}

/// The blocks of a running session that are up.
///
/// A block that fails is reported and skipped.
#[derive(Debug)]
pub struct Streams {
    broadcasts: Vec<usize>,
    receivers: Vec<usize>,
    recordings: Vec<usize>,
}

impl Streams {
    /// The `[[send]]` blocks that are up, in order.
    pub closed spec fn sending(self) -> Seq<usize> {
        self.broadcasts@
    }

    /// The `[[recv]]` blocks that are up, in order.
    pub closed spec fn receiving(self) -> Seq<usize> {
        self.receivers@
    }

    /// The `[[recv]]` blocks that record, in order.
    pub closed spec fn recording(self) -> Seq<usize> {
        self.recordings@
    }

    /// What is closed when the session stops: the recordings first, while
    /// their broadcasts are still open, then the broadcasts, then the
    /// subscriptions.
    pub open spec fn teardown(self) -> Seq<Closing> {
        Seq::new(self.recording().len(), |i: int| Closing::Recording(self.recording()[i]))
            + Seq::new(self.sending().len(), |i: int| Closing::Broadcast(self.sending()[i]))
            + Seq::new(self.receiving().len(), |i: int| Closing::Receiver(self.receiving()[i]))
    }

    /// Creates a session with nothing up.
    pub fn new() -> (res: Self)
        ensures
            res.sending() == Seq::<usize>::empty(),
            res.receiving() == Seq::<usize>::empty(),
            res.recording() == Seq::<usize>::empty(),
    {
        Streams { broadcasts: Vec::new(), receivers: Vec::new(), recordings: Vec::new() }
    }

    /// Takes note of what came of setting up a `[[send]]` block, and returns
    /// the line to print.
    ///
    /// `outcome` is the ticket of the broadcast, or why it failed.
    pub fn sent(&mut self, config: &RunConfig, index: usize, outcome: Result<String, String>) -> (res:
        Line)
        requires
            index < config.send@.len(),
        ensures
            final(self).sending() == if outcome is Ok {
                old(self).sending().push(index)
            } else {
                old(self).sending()
            },
            final(self).receiving() == old(self).receiving(),
            final(self).recording() == old(self).recording(),
            res@ == send_text(config.send@[index as int].name@, text_outcome(outcome)),
    {
        let name: &str = config.send[index].name.as_str();
        match outcome {
            Ok(ticket) => {
                self.broadcasts.push(index);
                Line::Out("[send] ".to_owned().concat(name).concat(": ").concat(ticket.as_str()))
            },
            Err(err) => Line::Problem(
                "[send] ".to_owned().concat(name).concat(": ").concat(err.as_str()),
            ),
        }
    }

    /// Takes note of what came of setting up a `[[recv]]` block, and returns
    /// the lines to print.
    ///
    /// `outcome` is the path of the recording, if the block records, or why it
    /// failed.
    pub fn received(
        &mut self,
        config: &RunConfig,
        index: usize,
        outcome: Result<Option<String>, String>,
    ) -> (res: Vec<Line>)
        requires
            index < config.recv@.len(),
        ensures
            final(self).sending() == old(self).sending(),
            final(self).receiving() == if outcome is Ok {
                old(self).receiving().push(index)
            } else {
                old(self).receiving()
            },
            final(self).recording() == if outcome is Ok && outcome->Ok_0 is Some {
                old(self).recording().push(index)
            } else {
                old(self).recording()
            },
            line_list(res@) == recv_text(
                config.recv@[index as int].name@,
                config.recv@[index as int].ticket@,
                opt_outcome(outcome),
            ),
    {
        let name: &str = config.recv[index].name.as_str();
        let mut lines: Vec<Line> = Vec::new();
        match &outcome {
            Ok(recording) => {
                lines.push(
                    Line::Out(
                        "[recv] ".to_owned().concat(name).concat(": subscribed to ").concat(
                            config.recv[index].ticket.as_str(),
                        ),
                    ),
                );
                if let Some(path) = recording {
                    lines.push(
                        Line::Out(
                            "[recv] ".to_owned().concat(name).concat(": recording to ").concat(
                                path.as_str(),
                            ),
                        ),
                    );
                    self.recordings.push(index);
                }
                self.receivers.push(index);
            },
            Err(err) => {
                lines.push(
                    Line::Problem("[recv] ".to_owned().concat(name).concat(": ").concat(err.as_str())),
                );
            },
        }
        assert(line_list(lines@) =~= recv_text(
            config.recv@[index as int].name@,
            config.recv@[index as int].ticket@,
            opt_outcome(outcome),
        ));
        lines
    }

    /// Returns the line that says the session runs, or fails if no block could
    /// be set up.
    pub fn ready(&self) -> (res: Result<String, String>)
        ensures
            text_outcome(res) == if self.sending().len() == 0 && self.receiving().len() == 0 {
                Err("no stream could be set up, so there is nothing to do"@)
            } else {
                Ok(
                    text::decimal(self.sending().len()) + " send, "@ + text::decimal(
                        self.receiving().len(),
                    ) + " recv. press Ctrl+C to stop"@,
                )
            },
    {
        if self.broadcasts.len() == 0 && self.receivers.len() == 0 {
            return Err("no stream could be set up, so there is nothing to do".to_owned());
        }
        Ok(
            text::decimal_text(self.broadcasts.len() as u64).concat(" send, ").concat(
                text::decimal_text(self.receivers.len() as u64).as_str(),
            ).concat(" recv. press Ctrl+C to stop"),
        )
    }

    /// Returns what to close, in order, when the session stops.
    pub fn closing(&self) -> (res: Vec<Closing>)
        ensures
            res@ == self.teardown(),
    {
        let mut steps: Vec<Closing> = Vec::new();
        let mut i: usize = 0;
        while i < self.recordings.len()
            invariant
                i <= self.recordings@.len(),
                steps@.len() == i,
                forall|j: int| 0 <= j < i ==> steps@[j] == Closing::Recording(self.recordings@[j]),
            decreases self.recordings@.len() - i,
        {
            steps.push(Closing::Recording(self.recordings[i]));
            i += 1;
        }
        let ghost first = steps@;
        assert(first =~= Seq::new(
            self.recording().len(),
            |i: int| Closing::Recording(self.recording()[i]),
        ));
        let mut i: usize = 0;
        while i < self.broadcasts.len()
            invariant
                i <= self.broadcasts@.len(),
                steps@.len() == first.len() + i,
                steps@.take(first.len() as int) == first,
                forall|j: int|
                    0 <= j < i ==> steps@[first.len() + j] == Closing::Broadcast(
                        self.broadcasts@[j],
                    ),
            decreases self.broadcasts@.len() - i,
        {
            let ghost before = steps@;
            steps.push(Closing::Broadcast(self.broadcasts[i]));
            assert(steps@.take(first.len() as int) =~= before.take(first.len() as int));
            i += 1;
        }
        let ghost second = steps@;
        assert(second =~= first + Seq::new(
            self.sending().len(),
            |i: int| Closing::Broadcast(self.sending()[i]),
        )) by {
            assert forall|k: int| 0 <= k < first.len() implies second[k] == first[k] by {
                assert(second.take(first.len() as int)[k] == second[k]);
            }
            assert forall|k: int| first.len() <= k < second.len() implies second[k]
                == Closing::Broadcast(self.broadcasts@[k - first.len()]) by {
                assert(second[first.len() + (k - first.len())] == Closing::Broadcast(
                    self.broadcasts@[k - first.len()],
                ));
            }
        }
        let mut i: usize = 0;
        while i < self.receivers.len()
            invariant
                i <= self.receivers@.len(),
                steps@.len() == second.len() + i,
                steps@.take(second.len() as int) == second,
                forall|j: int|
                    0 <= j < i ==> steps@[second.len() + j] == Closing::Receiver(
                        self.receivers@[j],
                    ),
            decreases self.receivers@.len() - i,
        {
            let ghost before = steps@;
            steps.push(Closing::Receiver(self.receivers[i]));
            assert(steps@.take(second.len() as int) =~= before.take(second.len() as int));
            i += 1;
        }
        assert(steps@ =~= self.teardown()) by {
            assert forall|k: int| 0 <= k < second.len() implies steps@[k] == second[k] by {
                assert(steps@.take(second.len() as int)[k] == steps@[k]);
            }
            assert forall|k: int| second.len() <= k < steps@.len() implies steps@[k]
                == Closing::Receiver(self.receivers@[k - second.len()]) by {
                assert(steps@[second.len() + (k - second.len())] == Closing::Receiver(
                    self.receivers@[k - second.len()],
                ));
            }
        }
        steps
    }
}

/// Returns the message for a `ticket` that does not parse.
pub fn invalid_ticket(err: &str) -> (res: String)
    ensures
        res@ == "invalid ticket: "@ + err@
            + "; it should be the string `irl publish` printed, starting with `iroh-live:`"@,
{
    "invalid ticket: ".to_owned().concat(err).concat(
        "; it should be the string `irl publish` printed, starting with `iroh-live:`",
    )
}

/// Returns whether a `[[recv]]` block plays audio.
///
/// `output` tells whether an output is open, and `audio` how many audio
/// renditions the broadcast carries.
pub fn plays_audio(config: &RecvConfig, output: bool, audio: usize) -> (res: bool)
    ensures
        res == (config.audio_output == AudioOutput::Default && output && audio > 0),
{
    config.audio_output == AudioOutput::Default && output && audio > 0
}

/// Whether `name` starts with the letter of a drive and a colon.
pub open spec fn names_a_drive(name: Seq<char>) -> bool {
    name.len() >= 2 && ('A' <= name[0] <= 'Z' || 'a' <= name[0] <= 'z') && name[1] == ':'
}

/// Whether `name` is a single, non-empty file name: one path component that is
/// neither the directory itself nor its parent.
///
/// On Windows a backslash separates components too, and a drive is no part of a
/// file name.
pub open spec fn is_file_name(name: Seq<char>, windows: bool) -> bool {
    &&& name.len() > 0
    &&& !name.contains('/')
    &&& name != "."@
    &&& name != ".."@
    &&& windows ==> !name.contains('\\') && !names_a_drive(name)
}

/// Checks that `name` is a single, non-empty file name, where a slash alone
/// separates the components of a path.
///
/// Joining a name to a directory escapes it for an absolute name or `..`. This
/// catches typos in a session file.
pub fn check_key_name(name: &str) -> (res: Result<(), String>)
    ensures
        match res {
            Ok(_) => is_file_name(name@, false),
            Err(text) => !is_file_name(name@, false) && text@ == no_file_name(name@),
        },
{
    check_key_name_on(name, false)
}

/// Checks that `name` is a single, non-empty file name. `windows` tells whether
/// the paths are those of Windows.
pub fn check_key_name_on(name: &str, windows: bool) -> (res: Result<(), String>)
    ensures
        match res {
            Ok(_) => is_file_name(name@, windows),
            Err(text) => !is_file_name(name@, windows) && text@ == no_file_name(name@),
        },
{
    let one_part: bool = !holds(name, '/') && !(windows && (holds(name, '\\') || has_drive(name)));
    if !name.is_empty() && one_part && !text::same(name, ".") && !text::same(name, "..") {
        return Ok(());
    }
    Err(
        "secret_key_name = ".to_owned().concat(text::debug_text(name).as_str()).concat(
            " is not a file name; it names one file in this platform's config directory, so it cannot be a path or empty",
        ),
    )
}

/// The message for a key name that is no file name.
pub open spec fn no_file_name(name: Seq<char>) -> Seq<char> {
    "secret_key_name = "@ + text::debug_quoted(name)
        + " is not a file name; it names one file in this platform's config directory, so it cannot be a path or empty"@
}

/// Returns whether `name` holds the character `c`.
fn holds(name: &str, c: char) -> (res: bool)
    ensures
        res == name@.contains(c),
{
    let set: [char; 1] = [c];
    assert(set@ =~= seq![c]);
    proof {
        lemma_split_finds(name@, c);
    }
    text::split_first(name, &set).is_some()
}

/// Returns whether `name` starts with the letter of a drive and a colon.
fn has_drive(name: &str) -> (res: bool)
    ensures
        res == names_a_drive(name@),
{
    if name.unicode_len() < 2 {
        return false;
    }
    let letter: char = name.get_char(0);
    (('A' <= letter && letter <= 'Z') || ('a' <= letter && letter <= 'z')) && name.get_char(1)
        == ':'
}

/// A text splits at a character if and only if it holds it.
proof fn lemma_split_finds(text: Seq<char>, c: char)
    ensures
        text::split(text, seq![c]) is None <==> !text.contains(c),
    decreases text.len(),
{
    text::lemma_first_at_bound(text, seq![c]);
    if text.len() > 0 {
        assert(seq![c][0] == c);
        if text[0] == c {
            assert(seq![c].contains(text[0]));
        } else {
            assert(!seq![c].contains(text[0]));
            let rest = text.skip(1);
            lemma_split_finds(rest, c);
            text::lemma_first_at_bound(rest, seq![c]);
            if text.contains(c) {
                let k = choose|k: int| 0 <= k < text.len() && text[k] == c;
                assert(rest[k - 1] == c);
            }
            if rest.contains(c) {
                let k = choose|k: int| 0 <= k < rest.len() && rest[k] == c;
                assert(text[k + 1] == c);
            }
        }
    }
}

/// Returns the name of the file that a stored key lives in.
pub fn key_file(name: &str) -> (res: String)
    ensures
        res@ == name@ + ".key"@,
{
    name.to_owned().concat(".key")
}

/// Whatever comes up is closed exactly once, and no recording is cut off by the
/// closing of a broadcast or a subscription.
pub proof fn law_recordings_are_closed_first(streams: Streams, i: int, j: int)
    requires
        0 <= i < streams.teardown().len(),
        0 <= j < streams.teardown().len(),
        streams.teardown()[i] is Recording,
        !(streams.teardown()[j] is Recording),
    ensures
        i < j,
        streams.teardown().len() == streams.recording().len() + streams.sending().len()
            + streams.receiving().len(),
{
}

/// A stream that came up is told on the output, and one that did not as a
/// problem, each under the name of its block and with its own text.
pub proof fn law_every_block_is_told(
    name: Seq<char>,
    ticket: Seq<char>,
    path: Seq<char>,
    err: Seq<char>,
)
    ensures
        send_text(name, Ok(ticket)) == LineView::Out("[send] "@ + name + ": "@ + ticket),
        send_text(name, Err(err)) == LineView::Problem("[send] "@ + name + ": "@ + err),
        recv_text(name, ticket, Ok(None)) == seq![
            LineView::Out("[recv] "@ + name + ": subscribed to "@ + ticket),
        ],
        recv_text(name, ticket, Ok(Some(path))).len() == 2,
        recv_text(name, ticket, Ok(Some(path)))[0] == recv_text(name, ticket, Ok(None))[0],
        recv_text(name, ticket, Ok(Some(path)))[1] == LineView::Out(
            "[recv] "@ + name + ": recording to "@ + path,
        ),
        recv_text(name, ticket, Err(err)) == seq![
            LineView::Problem("[recv] "@ + name + ": "@ + err),
        ],
{
}

/// Whatever came up is closed, each once and in the order in which it came up:
/// recordings, then broadcasts, then subscriptions.
pub proof fn law_everything_is_closed(streams: Streams, i: int)
    ensures
        0 <= i < streams.recording().len() ==> streams.teardown()[i] == Closing::Recording(
            streams.recording()[i],
        ),
        0 <= i < streams.sending().len() ==> streams.teardown()[streams.recording().len() + i]
            == Closing::Broadcast(streams.sending()[i]),
        0 <= i < streams.receiving().len() ==> streams.teardown()[streams.recording().len()
            + streams.sending().len() + i] == Closing::Receiver(streams.receiving()[i]),
        streams.teardown().len() == streams.recording().len() + streams.sending().len()
            + streams.receiving().len(),
{
}

/// A session opens an output exactly where a block plays its audio.
pub proof fn law_an_output_is_opened_for_a_block_that_plays(config: RunConfig, at: int)
    ensures
        0 <= at < config.recv@.len() && config.recv@[at].audio_output == AudioOutput::Default
            ==> config.plays(),
        (forall|i: int|
            0 <= i < config.recv@.len() ==> (#[trigger] config.recv@[i]).audio_output
                == AudioOutput::Nothing) ==> !config.plays(),
{
}

/// A name that is joined to the key directory stays in it: it has no separator of
/// the platform, and is neither empty nor a step up nor the directory itself.
/// Any name of letters, digits and inner dots is taken.
pub proof fn law_a_key_name_stays_in_its_directory(name: Seq<char>, front: Seq<char>, windows: bool)
    ensures
        is_file_name(name, windows) ==> name.len() > 0 && name != "."@ && name != ".."@,
        !is_file_name(front.push('/') + name, windows),
        windows ==> !is_file_name(front.push('\\') + name, windows),
        windows ==> !is_file_name(seq!['C', ':'] + name, windows),
        windows ==> !is_file_name(seq!['z', ':'] + name, windows),
        !is_file_name("."@, windows),
        !is_file_name(".."@, windows),
        !is_file_name(Seq::<char>::empty(), windows),
        name.len() > 0 && (forall|i: int|
            0 <= i < name.len() ==> 'a' <= #[trigger] name[i] <= 'z' || '0' <= name[i] <= '9')
            ==> is_file_name(name, windows),
        is_file_name(name, true) ==> is_file_name(name, false),
{
    assert((front.push('/') + name)[front.len() as int] == '/');
    assert((front.push('\\') + name)[front.len() as int] == '\\');
    assert((seq!['C', ':'] + name)[0] == 'C' && (seq!['C', ':'] + name)[1] == ':');
    assert((seq!['z', ':'] + name)[0] == 'z' && (seq!['z', ':'] + name)[1] == ':');
    reveal_strlit(".");
    reveal_strlit("..");
    if name.len() > 0 {
        assert("."@[0] == '.' && ".."@[0] == '.');
        if forall|i: int|
            0 <= i < name.len() ==> 'a' <= #[trigger] name[i] <= 'z' || '0' <= name[i] <= '9' {
            assert('a' <= name[0] <= 'z' || '0' <= name[0] <= '9');
            assert(name.len() >= 2 ==> name[1] != ':');
        }
    }
}

/// The message for a name that is no file name quotes it.
pub proof fn law_a_refused_name_is_quoted(name: Seq<char>)
    ensures
        no_file_name(name).len() >= text::debug_quoted(name).len() + 18,
        no_file_name(name).subrange(18, 18 + text::debug_quoted(name).len() as int)
            == text::debug_quoted(name),
{
    reveal_strlit("secret_key_name = ");
    assert(no_file_name(name).subrange(18, 18 + text::debug_quoted(name).len() as int)
        =~= text::debug_quoted(name));
}

/// A line is seen as what it is, with what it holds.
pub proof fn law_a_line_is_seen_as_it_is(one: Line)
    ensures
        one matches Line::Out(text) ==> one@ == LineView::Out(text@),
        one matches Line::Problem(text) ==> one@ == LineView::Problem(text@),
{
}

} // verus!
