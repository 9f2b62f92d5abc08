//! `irl room`: a multi-party room, publishing one broadcast and watching
//! everyone else's.
//!
//! [`RoomState`] follows the membership: which broadcasts the grid shows, which
//! are opening, who joined and left, and the chat. The window performs what its
//! methods return and hands the outcome back.

use std::collections::VecDeque;

use vstd::prelude::*;

use crate::ids::EndpointId;
use crate::text;

verus! {

/// The name this node publishes its camera under inside the room.
pub const BROADCAST_NAME: &'static str = "cam";

/// How many chat messages wait for the window before the forwarder holds back.
pub const CHAT_QUEUE: usize = 64;

/// How many milliseconds pass between two looks of the window at its tiles when
/// nothing else wakes it.
pub const TILE_CHECK: u64 = 1_000;

/// How many chat lines are kept in the scrollback.
pub const MAX_CHAT_LINES: usize = 200;

/// How many milliseconds the grid waits before it opens a member's broadcast
/// again after the tile's broadcast ended or opening it failed.
pub const REOPEN_DELAY: u64 = 2_000;

/// One line of the scrollback.
#[derive(Debug, PartialEq, Eq)]
pub struct ChatLine {
    /// Who said it, or `None` for a line the room itself produced.
    pub sender: Option<String>,
    pub text: String,
}

/// A [`ChatLine`] with its texts as character sequences.
pub struct ChatLineView {
    pub sender: Option<Seq<char>>,
    pub text: Seq<char>,
}

impl View for ChatLine {
    type V = ChatLineView;

    open spec fn view(&self) -> ChatLineView {
        ChatLineView { sender: text::opt_text(self.sender), text: self.text@ }
    }
}

/// The chat scrollback and the line being typed.
#[derive(Debug)]
pub struct ChatState {
    lines: VecDeque<ChatLine>,
    input: String,
}

/// A [`ChatState`] with its texts as character sequences.
pub struct ChatView {
    pub lines: Seq<ChatLineView>,
    pub input: Seq<char>,
}

impl View for ChatState {
    type V = ChatView;

    closed spec fn view(&self) -> ChatView {
        ChatView {
            lines: Seq::new(self.lines@.len(), |i: int| self.lines@[i]@),
            input: self.input@,
        }
    }
}

/// The scrollback after one more line: the newest lines, as many as are kept.
pub open spec fn with_line(lines: Seq<ChatLineView>, line: ChatLineView) -> Seq<ChatLineView> {
    let longer = lines.push(line);
    if longer.len() > MAX_CHAT_LINES {
        longer.skip(1)
    } else {
        longer
    }
}

impl ChatView {
    /// The chat after one more line.
    pub open spec fn saying(self, line: ChatLineView) -> ChatView {
        ChatView { lines: with_line(self.lines, line), input: self.input }
    }

    /// The chat after a line the room produced.
    pub open spec fn noting(self, text: Seq<char>) -> ChatView {
        self.saying(ChatLineView { sender: None, text })
    }
}

impl Default for ChatState {
    fn default() -> (res: Self)
        ensures
            res@ == (ChatView { lines: Seq::empty(), input: Seq::empty() }),
    {
        let res = ChatState { lines: VecDeque::new(), input: String::new() };
        assert(res@.lines =~= Seq::empty());
        res
    }
}

impl ChatState {
    /// Appends a message from `sender`.
    pub fn push(&mut self, sender: String, text: String)
        requires
            old(self)@.lines.len() < usize::MAX,
        ensures
            final(self)@ == old(self)@.saying(
                ChatLineView { sender: Some(sender@), text: text@ },
            ),
    {
        self.append(ChatLine { sender: Some(sender), text });
    }

    /// Appends a line the room produced, such as somebody joining.
    pub fn push_system(&mut self, text: String)
        requires
            old(self)@.lines.len() < usize::MAX,
        ensures
            final(self)@ == old(self)@.noting(text@),
    {
        self.append(ChatLine { sender: None, text });
    }

    /// Appends `line`, dropping the oldest once the scrollback is full.
    pub fn append(&mut self, line: ChatLine)
        requires
            old(self)@.lines.len() < usize::MAX,
        ensures
            final(self)@ == old(self)@.saying(line@),
    {
        let ghost before = self@.lines;
        let ghost line_view = line@;
        self.lines.push_back(line);
        assert(self@.lines =~= before.push(line_view));
        if self.lines.len() > MAX_CHAT_LINES {
            let ghost full = self@.lines;
            let _ = self.lines.pop_front();
            assert(self@.lines =~= full.skip(1));
        }
    }

    /// Returns how many lines there are.
    pub fn len(&self) -> (res: usize)
        ensures
            res == self@.lines.len(),
    {
        self.lines.len()
    }

    /// Returns the line at `index`, counted from the oldest.
    pub fn line(&self, index: usize) -> (res: &ChatLine)
        requires
            index < self@.lines.len(),
        ensures
            res@ == self@.lines[index as int],
    {
        &self.lines[index]
    }

    /// Returns the line being typed.
    pub fn input(&self) -> (res: &str)
        ensures
            res@ == self@.input,
    {
        self.input.as_str()
    }

    /// Replaces the line being typed.
    pub fn type_line(&mut self, input: String)
        ensures
            final(self)@ == (ChatView { lines: old(self)@.lines, input: input@ }),
    {
        self.input = input;
        assert(self@.lines =~= old(self)@.lines);
    }

    /// Takes what is typed, shows it as said by `sender`, and returns it for
    /// sending. Nothing but white space is not sent.
    ///
    /// A room's chat receivers carry other members' messages only, so the local
    /// copy is the only one this window will ever see.
    pub fn send(&mut self, sender: &str) -> (res: Option<String>)
        requires
            old(self)@.lines.len() < usize::MAX,
        ensures
            text::trimmed(old(self)@.input).len() == 0 ==> res is None && final(self)@ == old(
                self,
            )@,
            text::trimmed(old(self)@.input).len() > 0 ==> {
                &&& text::opt_text(res) == Some(text::trimmed(old(self)@.input))
                &&& final(self)@.input == Seq::<char>::empty()
                &&& final(self)@.lines == with_line(
                    old(self)@.lines,
                    (ChatLineView {
                        sender: Some(sender@),
                        text: text::trimmed(old(self)@.input),
                    }),
                )
            },
    {
        let text: String = text::trim(self.input.as_str()).to_owned();
        if text.as_str().is_empty() {
            return None;
        }
        self.type_line(String::new());
        self.push(sender.to_owned(), text.clone());
        Some(text)
    }
}

/// A member of the room.
#[derive(Debug, PartialEq, Eq)]
pub struct Member {
    pub id: EndpointId,
    /// The name it announced, if any.
    pub display_name: Option<String>,
    /// The names of the broadcasts it publishes.
    pub broadcasts: Vec<String>,
}

/// A [`Member`] with its texts as character sequences.
pub struct MemberView {
    pub id: EndpointId,
    pub display_name: Option<Seq<char>>,
    pub broadcasts: Seq<Seq<char>>,
}

impl View for Member {
    type V = MemberView;

    open spec fn view(&self) -> MemberView {
        MemberView {
            id: self.id,
            display_name: text::opt_text(self.display_name),
            broadcasts: text::string_list(self.broadcasts@),
        }
    }
}

/// The members by their views.
pub open spec fn members(list: Seq<Member>) -> Seq<MemberView> {
    Seq::new(list.len(), |i: int| list[i]@)
}

/// Whether no two members have the same id.
pub open spec fn distinct(list: Seq<MemberView>) -> bool {
    forall|i: int, j: int|
        0 <= i < j < list.len() ==> (#[trigger] list[i]).id != (#[trigger] list[j]).id
}

/// Whether a member with this id is in the list.
pub open spec fn present(list: Seq<MemberView>, id: EndpointId) -> bool {
    exists|i: int| 0 <= i < list.len() && (#[trigger] list[i]).id == id
}

/// The name to show for an id: the one it announced, or the short id.
pub open spec fn shown_name(list: Seq<MemberView>, id: EndpointId) -> Seq<char>
    decreases list.len(),
{
    if list.len() == 0 {
        id.short()
    } else if list.last().id == id {
        match list.last().display_name {
            Some(name) => name,
            None => id.short(),
        }
    } else {
        shown_name(list.drop_last(), id)
    }
}

/// A broadcast of a member, which the grid shows or opens.
#[derive(Debug, PartialEq, Eq)]
pub struct TileKey {
    pub remote: EndpointId,
    /// The name the member announced the broadcast under.
    pub name: String,
}

impl View for TileKey {
    type V = (EndpointId, Seq<char>);

    open spec fn view(&self) -> (EndpointId, Seq<char>) {
        (self.remote, self.name@)
    }
}

impl Clone for TileKey {
    fn clone(&self) -> (res: Self)
        ensures
            res@ == self@,
    {
        TileKey { remote: self.remote, name: self.name.clone() }
    }
}

/// The keys by their views.
pub open spec fn keys(list: Seq<TileKey>) -> Seq<(EndpointId, Seq<char>)> {
    Seq::new(list.len(), |i: int| list[i]@)
}

/// Whether a member of the list publishes this broadcast.
pub open spec fn publishes(list: Seq<MemberView>, key: (EndpointId, Seq<char>)) -> bool {
    exists|i: int|
        0 <= i < list.len() && (#[trigger] list[i]).id == key.0 && list[i].broadcasts.contains(
            key.1,
        )
}

/// The lines for the members of `now` that are not in `before`.
pub open spec fn join_lines(now: Seq<MemberView>, before: Seq<MemberView>) -> Seq<Seq<char>>
    decreases now.len(),
{
    if now.len() == 0 {
        seq![]
    } else {
        let lines = join_lines(now.drop_last(), before);
        let one = now.last();
        if present(before, one.id) {
            lines
        } else {
            let name = match one.display_name {
                Some(name) => name,
                None => one.id.short(),
            };
            lines.push(name + " joined"@)
        }
    }
}

/// The lines for the members of `before` that are not in `now`.
pub open spec fn leave_lines(before: Seq<MemberView>, now: Seq<MemberView>, all: Seq<MemberView>) -> Seq<
    Seq<char>,
>
    decreases before.len(),
{
    if before.len() == 0 {
        seq![]
    } else {
        let lines = leave_lines(before.drop_last(), now, all);
        let one = before.last();
        if present(now, one.id) {
            lines
        } else {
            lines.push(shown_name(all, one.id) + " left"@)
        }
    }
}

/// The chat after these lines the room produced, in order.
pub open spec fn noting_all(chat: ChatView, lines: Seq<Seq<char>>) -> ChatView
    decreases lines.len(),
{
    if lines.len() == 0 {
        chat
    } else {
        noting_all(chat, lines.drop_last()).noting(lines.last())
    }
}

/// The broadcasts that one member publishes and that are neither shown nor
/// opening, in order and each once.
pub open spec fn missing_of(
    id: EndpointId,
    names: Seq<Seq<char>>,
    tiles: Seq<(EndpointId, Seq<char>)>,
    opening: Seq<(EndpointId, Seq<char>)>,
) -> Seq<(EndpointId, Seq<char>)>
    decreases names.len(),
{
    if names.len() == 0 {
        seq![]
    } else {
        let before = missing_of(id, names.drop_last(), tiles, opening);
        let key = (id, names.last());
        if tiles.contains(key) || (opening + before).contains(key) {
            before
        } else {
            before.push(key)
        }
    }
}

/// The broadcasts that the members publish and that are neither shown nor
/// opening, in order and each once.
pub open spec fn missing(
    list: Seq<MemberView>,
    tiles: Seq<(EndpointId, Seq<char>)>,
    opening: Seq<(EndpointId, Seq<char>)>,
) -> Seq<(EndpointId, Seq<char>)>
    decreases list.len(),
{
    if list.len() == 0 {
        seq![]
    } else {
        let before = missing(list.drop_last(), tiles, opening);
        before + missing_of(list.last().id, list.last().broadcasts, tiles, opening + before)
    }
}

/// The tiles whose broadcast is still published.
pub open spec fn still_published(
    tiles: Seq<(EndpointId, Seq<char>)>,
    list: Seq<MemberView>,
) -> Seq<(EndpointId, Seq<char>)>
    decreases tiles.len(),
{
    if tiles.len() == 0 {
        seq![]
    } else {
        let before = still_published(tiles.drop_last(), list);
        if publishes(list, tiles.last()) {
            before.push(tiles.last())
        } else {
            before
        }
    }
}

/// The tiles at the places that are not closed.
pub open spec fn still_open(tiles: Seq<(EndpointId, Seq<char>)>, closed: Seq<bool>) -> Seq<
    (EndpointId, Seq<char>),
>
    decreases tiles.len(),
{
    if tiles.len() == 0 {
        seq![]
    } else {
        let before = still_open(tiles.drop_last(), closed);
        if closed[tiles.len() - 1] {
            before
        } else {
            before.push(tiles.last())
        }
    }
}

/// The sooner of two times, where there may be no first one.
pub open spec fn sooner(due: Option<u64>, at: u64) -> u64 {
    match due {
        Some(due) => if due <= at {
            due
        } else {
            at
        },
        None => at,
    }
}

/// What the room window knows.
#[derive(Debug)]
pub struct RoomState {
    known: Vec<Member>,
    tiles: Vec<TileKey>,
    opening: Vec<TileKey>,
    reconcile_at: Option<u64>,
    chat: ChatState,
    display_name: String,
}

/// A [`RoomState`] as mathematical values.
pub struct RoomView {
    /// The membership the grid and the lines were last brought in line with.
    pub known: Seq<MemberView>,
    /// The broadcasts the grid shows.
    pub tiles: Seq<(EndpointId, Seq<char>)>,
    /// The broadcasts being opened, so each is opened once.
    pub opening: Seq<(EndpointId, Seq<char>)>,
    /// When to bring the grid in line again, although the membership did not
    /// change.
    pub reconcile_at: Option<u64>,
    pub chat: ChatView,
    /// The name this node announced.
    pub display_name: Seq<char>,
}

impl View for RoomState {
    type V = RoomView;

    closed spec fn view(&self) -> RoomView {
        RoomView {
            known: members(self.known@),
            tiles: keys(self.tiles@),
            opening: keys(self.opening@),
            reconcile_at: self.reconcile_at,
            chat: self.chat@,
            display_name: self.display_name@,
        }
    }
}

impl RoomView {
    /// Whether a pass at time `now` has the membership `state` to follow.
    pub open spec fn behind(self, state: Seq<MemberView>, now: u64) -> bool {
        state != self.known || (self.reconcile_at is Some && now >= self.reconcile_at->0)
    }

    /// The room after the lines of a changed membership.
    pub open spec fn told(self, state: Seq<MemberView>) -> RoomView {
        RoomView {
            known: state,
            chat: noting_all(
                noting_all(self.chat, join_lines(state, self.known)),
                leave_lines(self.known, state, self.known),
            ),
            ..self
        }
    }

    /// The broadcasts to open, once the grid has dropped what is not published.
    pub open spec fn to_open(self) -> Seq<(EndpointId, Seq<char>)> {
        missing(self.known, still_published(self.tiles, self.known), self.opening)
    }

    /// The room after the grid was brought in line with the membership.
    pub open spec fn reconciled(self) -> RoomView {
        RoomView {
            tiles: still_published(self.tiles, self.known),
            opening: self.opening + self.to_open(),
            reconcile_at: None,
            ..self
        }
    }

    /// The room once it is to be brought in line again after a pause.
    pub open spec fn later(self, now: u64) -> RoomView {
        RoomView {
            reconcile_at: Some(sooner(self.reconcile_at, (now + REOPEN_DELAY) as u64)),
            ..self
        }
    }
}

/// What the chat forwarder hands the window.
#[derive(Debug)]
pub enum Incoming {
    /// A message of a member.
    Message { from: EndpointId, text: String },
    /// The window fell this many messages behind.
    Skipped(u64),
}

/// What becomes of a broadcast that finished opening.
#[derive(Debug, Clone, Copy, PartialEq, Eq, Structural)]
pub enum Collected {
    /// It is tried again after a pause, while the member still lists it.
    Retried,
    /// It was withdrawn while it was opening, and is dropped.
    Withdrawn,
    /// The grid shows it.
    Shown,
}

/// Returns whether the list holds a member with this id.
fn is_present(list: &[Member], id: &EndpointId) -> (res: bool)
    ensures
        res == present(members(list@), *id),
{
    let ghost all = members(list@);
    let mut i: usize = 0;
    while i < list.len()
        invariant
            i <= list.len(),
            all == members(list@),
            forall|j: int| 0 <= j < i ==> (#[trigger] all[j]).id != *id,
        decreases list.len() - i,
    {
        if list[i].id == *id {
            assert(all[i as int].id == *id);
            return true;
        }
        assert(all[i as int].id == list@[i as int].id);
        i += 1;
    }
    false
}

/// Returns whether the list holds this key.
fn holds_key(list: &[TileKey], key: &TileKey) -> (res: bool)
    ensures
        res == keys(list@).contains(key@),
{
    let ghost all = keys(list@);
    let mut i: usize = 0;
    while i < list.len()
        invariant
            i <= list.len(),
            all == keys(list@),
            forall|j: int| 0 <= j < i ==> #[trigger] all[j] != key@,
        decreases list.len() - i,
    {
        assert(all[i as int] == list@[i as int]@);
        if list[i].remote == key.remote && text::same(list[i].name.as_str(), key.name.as_str()) {
            assert(all[i as int] == key@);
            return true;
        }
        i += 1;
    }
    false
}

/// Returns whether the list holds this text.
fn holds_text(list: &[String], text: &str) -> (res: bool)
    ensures
        res == text::string_list(list@).contains(text@),
{
    let ghost all = text::string_list(list@);
    let mut i: usize = 0;
    while i < list.len()
        invariant
            i <= list.len(),
            all == text::string_list(list@),
            forall|j: int| 0 <= j < i ==> #[trigger] all[j] != text@,
        decreases list.len() - i,
    {
        assert(all[i as int] == list@[i as int]@);
        if text::same(list[i].as_str(), text) {
            assert(all[i as int] == text@);
            return true;
        }
        i += 1;
    }
    false
}

/// Returns whether a member of the list publishes this broadcast.
fn is_published(list: &[Member], key: &TileKey) -> (res: bool)
    ensures
        res == publishes(members(list@), key@),
{
    let ghost all = members(list@);
    let mut i: usize = 0;
    while i < list.len()
        invariant
            i <= list.len(),
            all == members(list@),
            forall|j: int|
                0 <= j < i ==> !((#[trigger] all[j]).id == key.remote && all[j].broadcasts.contains(
                    key.name@,
                )),
        decreases list.len() - i,
    {
        assert(all[i as int] == list@[i as int]@);
        if list[i].id == key.remote && holds_text(
            list[i].broadcasts.as_slice(),
            key.name.as_str(),
        ) {
            assert(all[i as int].id == key@.0);
            return true;
        }
        i += 1;
    }
    false
}

/// Returns whether two lists of texts are the same.
fn same_texts(a: &[String], b: &[String]) -> (res: bool)
    ensures
        res == (text::string_list(a@) == text::string_list(b@)),
{
    let ghost left = text::string_list(a@);
    let ghost right = text::string_list(b@);
    if a.len() != b.len() {
        assert(left.len() != right.len());
        return false;
    }
    let mut i: usize = 0;
    while i < a.len()
        invariant
            i <= a.len() == b.len(),
            left == text::string_list(a@),
            right == text::string_list(b@),
            forall|j: int| 0 <= j < i ==> #[trigger] left[j] == right[j],
        decreases a.len() - i,
    {
        assert(left[i as int] == a@[i as int]@ && right[i as int] == b@[i as int]@);
        if !text::same(a[i].as_str(), b[i].as_str()) {
            return false;
        }
        i += 1;
    }
    assert(left =~= right);
    true
}

/// Returns whether two optional texts are the same.
fn same_opt(a: &Option<String>, b: &Option<String>) -> (res: bool)
    ensures
        res == (text::opt_text(*a) == text::opt_text(*b)),
{
    match (a, b) {
        (Some(a), Some(b)) => text::same(a.as_str(), b.as_str()),
        (None, None) => true,
        _ => false,
    }
}

/// Returns whether two memberships are the same.
fn same_members(a: &[Member], b: &[Member]) -> (res: bool)
    ensures
        res == (members(a@) == members(b@)),
{
    let ghost left = members(a@);
    let ghost right = members(b@);
    if a.len() != b.len() {
        assert(left.len() != right.len());
        return false;
    }
    let mut i: usize = 0;
    while i < a.len()
        invariant
            i <= a.len() == b.len(),
            left == members(a@),
            right == members(b@),
            forall|j: int| 0 <= j < i ==> #[trigger] left[j] == right[j],
        decreases a.len() - i,
    {
        assert(left[i as int] == a@[i as int]@ && right[i as int] == b@[i as int]@);
        if a[i].id != b[i].id || !same_opt(&a[i].display_name, &b[i].display_name) || !same_texts(
            a[i].broadcasts.as_slice(),
            b[i].broadcasts.as_slice(),
        ) {
            return false;
        }
        i += 1;
    }
    assert(left =~= right);
    true
}

/// A name that is found at one place is the name that is shown, where the ids
/// are distinct.
proof fn lemma_shown_name(list: Seq<MemberView>, id: EndpointId, at: int)
    requires
        distinct(list),
        0 <= at < list.len(),
        list[at].id == id,
    ensures
        shown_name(list, id) == match list[at].display_name {
            Some(name) => name,
            None => id.short(),
        },
    decreases list.len(),
{
    if at < list.len() - 1 {
        assert(list[at].id != list[list.len() - 1].id);
        let rest = list.drop_last();
        assert(rest[at] == list[at]);
        assert forall|i: int, j: int| 0 <= i < j < rest.len() implies (#[trigger] rest[i]).id != (
        #[trigger] rest[j]).id by {
            assert(list[i].id != list[j].id);
        }
        lemma_shown_name(rest, id, at);
    }
}

/// Nobody has a name to show but the short id where the id is absent.
proof fn lemma_no_shown_name(list: Seq<MemberView>, id: EndpointId)
    requires
        !present(list, id),
    ensures
        shown_name(list, id) == id.short(),
    decreases list.len(),
{
    if list.len() > 0 {
        assert(list[list.len() - 1].id != id);
        let rest = list.drop_last();
        if present(rest, id) {
            let i = choose|i: int| 0 <= i < rest.len() && (#[trigger] rest[i]).id == id;
            assert(list[i].id == id);
        }
        lemma_no_shown_name(rest, id);
    }
}

impl RoomState {
    /// Whether the members are distinct and the scrollback is within bounds.
    pub closed spec fn wf(self) -> bool {
        &&& distinct(members(self.known@))
        &&& self.chat@.lines.len() <= MAX_CHAT_LINES
    }

    /// Creates the state of a window that just joined.
    pub fn new(display_name: String) -> (res: Self)
        ensures
            res.wf(),
            res@ == (RoomView {
                known: Seq::empty(),
                tiles: Seq::empty(),
                opening: Seq::empty(),
                reconcile_at: None,
                chat: ChatView { lines: Seq::empty(), input: Seq::empty() },
                display_name: display_name@,
            }),
    {
        let res = RoomState {
            known: Vec::new(),
            tiles: Vec::new(),
            opening: Vec::new(),
            reconcile_at: None,
            chat: ChatState::default(),
            display_name,
        };
        assert(members(res.known@) =~= Seq::empty());
        assert(keys(res.tiles@) =~= Seq::empty());
        assert(keys(res.opening@) =~= Seq::empty());
        res
    }

    /// Returns the chat.
    pub fn chat(&self) -> (res: &ChatState)
        ensures
            res@ == self@.chat,
    {
        &self.chat
    }

    /// Returns the broadcasts the grid shows, in order.
    pub fn tiles(&self) -> (res: &[TileKey])
        ensures
            keys(res@) == self@.tiles,
    {
        self.tiles.as_slice()
    }

    /// Returns the name to show for `remote`, falling back to its short
    /// endpoint id.
    pub fn label(&self, remote: &EndpointId) -> (res: String)
        requires
            self.wf(),
        ensures
            res@ == shown_name(self@.known, *remote),
    {
        let ghost all = members(self.known@);
        let mut i: usize = 0;
        while i < self.known.len()
            invariant
                i <= self.known@.len(),
                all == members(self.known@),
                distinct(all),
                forall|j: int| 0 <= j < i ==> (#[trigger] all[j]).id != *remote,
            decreases self.known@.len() - i,
        {
            assert(all[i as int] == self.known@[i as int]@);
            if self.known[i].id == *remote {
                proof {
                    lemma_shown_name(all, *remote, i as int);
                }
                return match &self.known[i].display_name {
                    Some(name) => name.clone(),
                    None => remote.fmt_short(),
                };
            }
            i += 1;
        }
        proof {
            lemma_no_shown_name(all, *remote);
        }
        remote.fmt_short()
    }

    /// Brings the grid and the join and leave lines in line with the room's
    /// membership at time `now`, in milliseconds.
    ///
    /// The lines follow changes of the membership only; the grid also catches
    /// up when a reconcile is due, since a tile can go while the membership
    /// stays the same. Returns the broadcasts to open.
    pub fn apply_state(&mut self, state: Vec<Member>, now: u64) -> (res: Vec<TileKey>)
        requires
            old(self).wf(),
            distinct(members(state@)),
        ensures
            final(self).wf(),
            if !old(self)@.behind(members(state@), now) {
                keys(res@) == Seq::<(EndpointId, Seq<char>)>::empty() && final(self)@ == old(self)@
            } else if members(state@) != old(self)@.known {
                &&& final(self)@ == old(self)@.told(members(state@)).reconciled()
                &&& keys(res@) == old(self)@.told(members(state@)).to_open()
            } else {
                final(self)@ == old(self)@.reconciled() && keys(res@) == old(self)@.to_open()
            },
    {
        let changed: bool = !same_members(state.as_slice(), self.known.as_slice());
        let due: bool = match self.reconcile_at {
            Some(at) => now >= at,
            None => false,
        };
        if !changed && !due {
            let none: Vec<TileKey> = Vec::new();
            assert(keys(none@) =~= Seq::empty());
            return none;
        }
        if changed {
            self.tell(state);
        }
        self.reconcile_tiles()
    }

    /// Notes who joined and left, and takes over the membership.
    fn tell(&mut self, state: Vec<Member>)
        requires
            old(self).wf(),
            distinct(members(state@)),
        ensures
            final(self).wf(),
            final(self)@ == old(self)@.told(members(state@)),
    {
        let ghost before = self@;
        let ghost now = members(state@);
        let mut i: usize = 0;
        assert(now.take(0) =~= seq![]);
        while i < state.len()
            invariant
                i <= state@.len(),
                now == members(state@),
                self.wf(),
                self@ == (RoomView {
                    chat: noting_all(before.chat, join_lines(now.take(i as int), before.known)),
                    ..before
                }),
            decreases state@.len() - i,
        {
            let ghost longer = now.take(i + 1);
            assert(longer.drop_last() =~= now.take(i as int));
            assert(longer.last() == state@[i as int]@);
            if !is_present(self.known.as_slice(), &state[i].id) {
                let name: String = match &state[i].display_name {
                    Some(name) => name.clone(),
                    None => state[i].id.fmt_short(),
                };
                let line: String = name.concat(" joined");
                proof {
                    let lines = join_lines(longer, before.known);
                    assert(lines.drop_last() =~= join_lines(now.take(i as int), before.known));
                    assert(lines.last() == line@);
                }
                self.chat.push_system(line);
            }
            i += 1;
        }
        assert(now.take(now.len() as int) =~= now);
        let ghost greeted = noting_all(before.chat, join_lines(now, before.known));
        let mut i: usize = 0;
        assert(before.known.take(0) =~= seq![]);
        while i < self.known.len()
            invariant
                i <= self.known@.len(),
                now == members(state@),
                before.known == members(self.known@),
                self.wf(),
                self@ == (RoomView {
                    chat: noting_all(
                        greeted,
                        leave_lines(before.known.take(i as int), now, before.known),
                    ),
                    ..before
                }),
            decreases self.known@.len() - i,
        {
            let ghost longer = before.known.take(i + 1);
            assert(longer.drop_last() =~= before.known.take(i as int));
            assert(longer.last() == self.known@[i as int]@);
            let id = self.known[i].id;
            if !is_present(state.as_slice(), &id) {
                let line: String = self.label(&id).concat(" left");
                proof {
                    let lines = leave_lines(longer, now, before.known);
                    assert(lines.drop_last() =~= leave_lines(
                        before.known.take(i as int),
                        now,
                        before.known,
                    ));
                    assert(lines.last() == line@);
                }
                self.chat.push_system(line);
            }
            i += 1;
        }
        assert(before.known.take(before.known.len() as int) =~= before.known);
        self.known = state;
    }

    /// Opens a tile for every broadcast the membership lists and the grid
    /// lacks, and drops the tiles of broadcasts it no longer lists.
    fn reconcile_tiles(&mut self) -> (res: Vec<TileKey>)
        requires
            old(self).wf(),
        ensures
            final(self).wf(),
            final(self)@ == old(self)@.reconciled(),
            keys(res@) == old(self)@.to_open(),
    {
        let ghost before = self@;
        let mut kept: Vec<TileKey> = Vec::new();
        let mut i: usize = 0;
        assert(before.tiles.take(0) =~= seq![]);
        assert(keys(kept@) =~= seq![]);
        while i < self.tiles.len()
            invariant
                i <= self.tiles@.len(),
                before.tiles == keys(self.tiles@),
                before.known == members(self.known@),
                keys(kept@) == still_published(before.tiles.take(i as int), before.known),
            decreases self.tiles@.len() - i,
        {
            let ghost longer = before.tiles.take(i + 1);
            assert(longer.drop_last() =~= before.tiles.take(i as int));
            assert(longer.last() == self.tiles@[i as int]@);
            let ghost past = keys(kept@);
            if is_published(self.known.as_slice(), &self.tiles[i]) {
                let key = self.tiles[i].clone();
                kept.push(key);
                assert(keys(kept@) =~= past.push(key@));
            }
            i += 1;
        }
        assert(before.tiles.take(before.tiles.len() as int) =~= before.tiles);
        let ghost shown = keys(kept@);
        self.tiles = kept;
        self.reconcile_at = None;
        let mut found: Vec<TileKey> = Vec::new();
        let mut i: usize = 0;
        assert(before.known.take(0) =~= seq![]);
        assert(keys(found@) =~= seq![]);
        assert(before.opening + seq![] =~= before.opening);
        while i < self.known.len()
            invariant
                i <= self.known@.len(),
                self.wf(),
                self.reconcile_at is None,
                self.chat@ == before.chat,
                self.display_name@ == before.display_name,
                before.known == members(self.known@),
                shown == keys(self.tiles@),
                shown == still_published(before.tiles, before.known),
                keys(found@) == missing(before.known.take(i as int), shown, before.opening),
                keys(self.opening@) == before.opening + keys(found@),
            decreases self.known@.len() - i,
        {
            let ghost longer = before.known.take(i + 1);
            assert(longer.drop_last() =~= before.known.take(i as int));
            let ghost one = self.known@[i as int]@;
            assert(longer.last() == one);
            let ghost past = keys(found@);
            let ghost pending = before.opening + past;
            let mut j: usize = 0;
            assert(one.broadcasts.take(0) =~= seq![]);
            assert(past + seq![] =~= past);
            while j < self.known[i as usize].broadcasts.len()
                invariant
                    i < self.known@.len(),
                    j <= self.known@[i as int].broadcasts@.len(),
                    self.wf(),
                    self.reconcile_at is None,
                    self.chat@ == before.chat,
                    self.display_name@ == before.display_name,
                    before.known == members(self.known@),
                    shown == keys(self.tiles@),
                    shown == still_published(before.tiles, before.known),
                    one == self.known@[i as int]@,
                    pending == before.opening + past,
                    keys(found@) == past + missing_of(
                        one.id,
                        one.broadcasts.take(j as int),
                        shown,
                        pending,
                    ),
                    keys(self.opening@) == before.opening + keys(found@),
                decreases self.known@[i as int].broadcasts@.len() - j,
            {
                let ghost names = one.broadcasts.take(j + 1);
                assert(names.drop_last() =~= one.broadcasts.take(j as int));
                assert(names.last() == self.known@[i as int].broadcasts@[j as int]@);
                let key = TileKey {
                    remote: self.known[i].id,
                    name: self.known[i].broadcasts[j].clone(),
                };
                let ghost earlier = missing_of(
                    one.id,
                    one.broadcasts.take(j as int),
                    shown,
                    pending,
                );
                assert(before.opening + (past + earlier) =~= pending + earlier);
                if !holds_key(self.tiles.as_slice(), &key) && !holds_key(
                    self.opening.as_slice(),
                    &key,
                ) {
                    let ghost all = keys(found@);
                    let ghost underway = keys(self.opening@);
                    let again = key.clone();
                    self.opening.push(again);
                    assert(keys(self.opening@) =~= underway.push(key@));
                    found.push(key);
                    assert(keys(found@) =~= all.push(key@));
                    assert(all.push(key@) =~= past + earlier.push(key@));
                    assert(underway.push(key@) =~= before.opening + keys(found@));
                }
                j += 1;
            }
            assert(one.broadcasts.take(one.broadcasts.len() as int) =~= one.broadcasts);
            i += 1;
        }
        assert(before.known.take(before.known.len() as int) =~= before.known);
        found
    }

    /// Brings the grid in line again after [`REOPEN_DELAY`].
    fn reconcile_later(&mut self, now: u64)
        requires
            old(self).wf(),
            now + REOPEN_DELAY <= u64::MAX,
        ensures
            final(self).wf(),
            final(self)@ == old(self)@.later(now),
    {
        let at: u64 = now + REOPEN_DELAY;
        self.reconcile_at = Some(
            match self.reconcile_at {
                Some(due) => if due <= at {
                    due
                } else {
                    at
                },
                None => at,
            },
        );
    }

    /// Takes a broadcast that finished opening at time `now`.
    ///
    /// `opened` tells whether it plays.
    pub fn collect_opened(&mut self, key: TileKey, opened: bool, now: u64) -> (res: Collected)
        requires
            old(self).wf(),
            now + REOPEN_DELAY <= u64::MAX,
        ensures
            final(self).wf(),
            ({
                let rest = RoomView {
                    opening: without_key(old(self)@.opening, key@),
                    ..old(self)@
                };
                if !opened {
                    res == Collected::Retried && final(self)@ == rest.later(now)
                } else if !publishes(old(self)@.known, key@) {
                    res == Collected::Withdrawn && final(self)@ == rest
                } else {
                    res == Collected::Shown && final(self)@ == (RoomView {
                        tiles: old(self)@.tiles.push(key@),
                        ..rest
                    })
                }
            }),
    {
        self.forget_opening(&key);
        if !opened {
            self.reconcile_later(now);
            return Collected::Retried;
        }
        if !is_published(self.known.as_slice(), &key) {
            // Only the player and the broadcast go: the session also carries
            // the room's chat and whatever else is open with the member.
            return Collected::Withdrawn;
        }
        let ghost before = self@.tiles;
        self.tiles.push(key);
        assert(self@.tiles =~= before.push(key@));
        Collected::Shown
    }

    /// Takes a key off the list of what is opening.
    fn forget_opening(&mut self, key: &TileKey)
        requires
            old(self).wf(),
        ensures
            final(self).wf(),
            final(self)@ == (RoomView {
                opening: without_key(old(self)@.opening, key@),
                ..old(self)@
            }),
    {
        let ghost before = self@;
        let mut kept: Vec<TileKey> = Vec::new();
        let mut i: usize = 0;
        assert(before.opening.take(0) =~= seq![]);
        assert(keys(kept@) =~= seq![]);
        while i < self.opening.len()
            invariant
                i <= self.opening@.len(),
                before.opening == keys(self.opening@),
                keys(kept@) == without_key(before.opening.take(i as int), key@),
            decreases self.opening@.len() - i,
        {
            let ghost longer = before.opening.take(i + 1);
            assert(longer.drop_last() =~= before.opening.take(i as int));
            assert(longer.last() == self.opening@[i as int]@);
            let ghost past = keys(kept@);
            let one = self.opening[i].clone();
            if !(one.remote == key.remote && text::same(one.name.as_str(), key.name.as_str())) {
                kept.push(one);
                assert(keys(kept@) =~= past.push(one@));
            }
            i += 1;
        }
        assert(before.opening.take(before.opening.len() as int) =~= before.opening);
        self.opening = kept;
    }

    /// Drops the tiles whose broadcast has gone, and opens them again after a
    /// pause if the member still lists them.
    ///
    /// `closed` tells of each tile whether its broadcast ended. The room's
    /// state drops a member that went away only minutes later, so without this
    /// the tile would freeze. Returns whether any tile is left to check again.
    pub fn drop_closed(&mut self, closed: &[bool], now: u64) -> (res: bool)
        requires
            old(self).wf(),
            closed@.len() == old(self)@.tiles.len(),
            now + REOPEN_DELAY <= u64::MAX,
        ensures
            final(self).wf(),
            ({
                let rest = RoomView {
                    tiles: still_open(old(self)@.tiles, closed@),
                    ..old(self)@
                };
                &&& final(self)@ == if closed@.contains(true) {
                    rest.later(now)
                } else {
                    rest
                }
                &&& res == (final(self)@.tiles.len() > 0)
            }),
    {
        let ghost before = self@;
        let mut kept: Vec<TileKey> = Vec::new();
        let mut dropped: bool = false;
        let mut i: usize = 0;
        assert(before.tiles.take(0) =~= seq![]);
        assert(keys(kept@) =~= seq![]);
        while i < self.tiles.len()
            invariant
                i <= self.tiles@.len() == closed@.len(),
                before.tiles == keys(self.tiles@),
                keys(kept@) == still_open(before.tiles.take(i as int), closed@),
                dropped == (exists|j: int| 0 <= j < i && #[trigger] closed@[j]),
            decreases self.tiles@.len() - i,
        {
            let ghost longer = before.tiles.take(i + 1);
            assert(longer.drop_last() =~= before.tiles.take(i as int));
            assert(longer.last() == self.tiles@[i as int]@);
            let ghost past = keys(kept@);
            if closed[i] {
                dropped = true;
                assert(closed@[i as int]);
            } else {
                let one = self.tiles[i].clone();
                kept.push(one);
                assert(keys(kept@) =~= past.push(one@));
            }
            i += 1;
        }
        assert(before.tiles.take(before.tiles.len() as int) =~= before.tiles);
        proof {
            if dropped {
                let j = choose|j: int| 0 <= j < closed@.len() && #[trigger] closed@[j];
                assert(closed@[j] == true);
                assert(closed@.contains(true));
            }
        }
        self.tiles = kept;
        if dropped {
            self.reconcile_later(now);
        }
        self.tiles.len() > 0
    }

    /// Appends what the chat forwarder handed over.
    pub fn drain_chat(&mut self, incoming: Incoming)
        requires
            old(self).wf(),
        ensures
            final(self).wf(),
            final(self)@ == (RoomView {
                chat: match incoming {
                    Incoming::Message { from, text } => old(self)@.chat.saying(
                        ChatLineView {
                            sender: Some(shown_name(old(self)@.known, from)),
                            text: text@,
                        },
                    ),
                    Incoming::Skipped(skipped) => old(self)@.chat.noting(
                        text::decimal(skipped as nat) + " chat messages skipped"@,
                    ),
                },
                ..old(self)@
            }),
    {
        match incoming {
            Incoming::Message { from, text } => {
                let sender: String = self.label(&from);
                self.chat.push(sender, text);
            },
            Incoming::Skipped(skipped) => {
                self.chat.push_system(text::decimal_text(skipped).concat(" chat messages skipped"));
            },
        }
    }

    /// Replaces the chat line being typed.
    pub fn type_line(&mut self, input: String)
        requires
            old(self).wf(),
        ensures
            final(self).wf(),
            final(self)@ == (RoomView {
                chat: ChatView { lines: old(self)@.chat.lines, input: input@ },
                ..old(self)@
            }),
    {
        self.chat.type_line(input);
    }

    /// Takes what is typed, shows it locally, and returns it for sending.
    pub fn send_chat(&mut self) -> (res: Option<String>)
        requires
            old(self).wf(),
        ensures
            final(self).wf(),
            ({
                let said = text::trimmed(old(self)@.chat.input);
                if said.len() == 0 {
                    res is None && final(self)@ == old(self)@
                } else {
                    &&& text::opt_text(res) == Some(said)
                    &&& final(self)@ == (RoomView {
                        chat: ChatView {
                            lines: with_line(
                                old(self)@.chat.lines,
                                (ChatLineView {
                                    sender: Some(old(self)@.display_name),
                                    text: said,
                                }),
                            ),
                            input: Seq::empty(),
                        },
                        ..old(self)@
                    })
                }
            }),
    {
        self.chat.send(self.display_name.as_str())
    }

    /// Returns the line that says how many are here.
    pub fn participants_line(&self) -> (res: String)
        requires
            self@.tiles.len() < usize::MAX,
        ensures
            res@ == text::decimal(self@.tiles.len() + 1) + " participants"@,
    {
        text::decimal_text(self.tiles.len() as u64 + 1).concat(" participants")
    }

    /// Returns the label of this node's own tile.
    pub fn own_label(&self) -> (res: String)
        ensures
            res@ == self@.display_name + " (you)"@,
    {
        self.display_name.clone().concat(" (you)")
    }
}

/// The keys other than this one.
pub open spec fn without_key(list: Seq<(EndpointId, Seq<char>)>, key: (EndpointId, Seq<char>)) -> Seq<
    (EndpointId, Seq<char>),
>
    decreases list.len(),
{
    if list.len() == 0 {
        seq![]
    } else {
        let before = without_key(list.drop_last(), key);
        if list.last() == key {
            before
        } else {
            before.push(list.last())
        }
    }
}

/// What came of handing something to the window's queue.
#[derive(Debug, Clone, Copy, PartialEq, Eq, Structural)]
pub enum Handed {
    /// The window has it.
    Taken,
    /// The queue is full.
    Full,
    /// The window is gone.
    Closed,
}

/// Counts the chat messages that a full queue turned away.
///
/// A window that stops draining its queue loses chat lines, counted, rather
/// than holding back its wake-ups.
#[derive(Debug, Clone, Copy, PartialEq, Eq, Structural)]
pub struct Forwarder {
    /// The messages not yet told of.
    pub skipped: u64,
}

impl Forwarder {
    /// Starts with nothing skipped.
    pub fn new() -> (res: Self)
        ensures
            res.skipped == 0,
    {
        Forwarder { skipped: 0 }
    }

    /// Returns the count to hand over before the next message, if there is one.
    pub fn owed(&self) -> (res: Option<u64>)
        ensures
            res == if self.skipped > 0 {
                Some(self.skipped)
            } else {
                None
            },
    {
        if self.skipped > 0 {
            Some(self.skipped)
        } else {
            None
        }
    }

    /// Takes note of whether the count was handed over.
    pub fn told(&mut self, handed: Handed)
        ensures
            final(self).skipped == if handed == Handed::Taken {
                0
            } else {
                old(self).skipped
            },
    {
        if handed == Handed::Taken {
            self.skipped = 0;
        }
    }

    /// Takes note of whether something that stands for `messages` messages was
    /// handed over, and returns whether to go on.
    pub fn forwarded(&mut self, messages: u64, handed: Handed) -> (res: bool)
        requires
            old(self).skipped + messages <= u64::MAX,
        ensures
            res == (handed != Handed::Closed),
            final(self).skipped == if handed == Handed::Full {
                old(self).skipped + messages
            } else {
                old(self).skipped as int
            },
    {
        match handed {
            Handed::Taken => true,
            Handed::Full => {
                self.skipped += messages;
                true
            },
            Handed::Closed => false,
        }
    }
}

/// Whether a grid of `cols` columns is the squarest that holds `count` tiles:
/// the square root rounded up, and at least one.
pub open spec fn is_square_enough(count: nat, cols: nat) -> bool {
    cols >= 1 && cols * cols >= count && (cols > 1 ==> (cols - 1) * (cols - 1) < count)
}

/// The rows that `cols` columns need for `count` tiles, and at least one.
pub open spec fn rows_for(count: nat, cols: nat) -> nat {
    let rows = (count + cols - 1) / cols as int;
    if rows >= 1 {
        rows as nat
    } else {
        1
    }
}

/// Returns the columns and rows of a grid of `count` tiles.
///
/// A square-ish grid wastes the least room, so the column count is the square
/// root rounded up.
pub fn layout(count: usize) -> (res: (usize, usize))
    ensures
        is_square_enough(count as nat, res.0 as nat),
        res.1 == rows_for(count as nat, res.0 as nat),
{
    let total: u128 = count as u128;
    let mut cols: u128 = 1;
    while cols * cols < total
        invariant
            total == count,
            1 <= cols <= 0x1_0000_0000,
            cols * cols <= 0x1_0000_0000_0000_0000,
            cols > 1 ==> (cols - 1) * (cols - 1) < total,
        decreases 0x1_0000_0000 - cols,
    {
        assert(cols < 0x1_0000_0000) by (nonlinear_arith)
            requires
                cols * cols < total,
                total <= 0xffff_ffff_ffff_ffff,
        ;
        cols += 1;
        assert(cols * cols <= 0x1_0000_0000_0000_0000) by (nonlinear_arith)
            requires
                cols <= 0x1_0000_0000,
        ;
    }
    let rows: u128 = (total + cols - 1) / cols;
    proof {
        assert(cols <= total || cols == 1) by (nonlinear_arith)
            requires
                cols > 1 ==> (cols - 1) * (cols - 1) < total,
                cols >= 1,
        ;
        assert(cols == 1 ==> total <= 1) by {
            if cols == 1 {
                assert(cols * cols == 1);
            }
        }
        assert(rows <= total || rows <= 1) by (nonlinear_arith)
            requires
                rows == (total + cols - 1) / cols as int,
                cols >= 1,
                cols == 1 ==> total <= 1,
        ;
    }
    (
        cols as usize,
        if rows >= 1 {
            rows as usize
        } else {
            1
        },
    )
}

impl RoomView {
    /// Whether no broadcast is shown or opening twice.
    pub open spec fn once(self) -> bool {
        &&& self.tiles.no_duplicates()
        &&& self.opening.no_duplicates()
        &&& forall|key: (EndpointId, Seq<char>)|
            !(#[trigger] self.tiles.contains(key) && self.opening.contains(key))
    }
}

/// What is missing of one member is new, each once, and all there is.
proof fn lemma_missing_of(
    id: EndpointId,
    names: Seq<Seq<char>>,
    tiles: Seq<(EndpointId, Seq<char>)>,
    opening: Seq<(EndpointId, Seq<char>)>,
)
    ensures
        ({
            let found = missing_of(id, names, tiles, opening);
            &&& found.no_duplicates()
            &&& forall|i: int|
                0 <= i < found.len() ==> !tiles.contains(#[trigger] found[i]) && !opening.contains(
                    found[i],
                )
            &&& forall|j: int|
                0 <= j < names.len() ==> tiles.contains((id, #[trigger] names[j])) || opening.contains(
                    (id, names[j]),
                ) || found.contains((id, names[j]))
        }),
    decreases names.len(),
{
    if names.len() > 0 {
        let rest = names.drop_last();
        let before = missing_of(id, rest, tiles, opening);
        let found = missing_of(id, names, tiles, opening);
        let key = (id, names.last());
        lemma_missing_of(id, rest, tiles, opening);
        lemma_contains_sum(opening, before, key);
        assert forall|j: int| 0 <= j < names.len() implies tiles.contains((id, #[trigger] names[j]))
            || opening.contains((id, names[j])) || found.contains((id, names[j])) by {
            if j < rest.len() {
                assert(rest[j] == names[j]);
                if before.contains((id, names[j])) {
                    let at = choose|at: int|
                        0 <= at < before.len() && before[at] == (id, names[j]);
                    assert(found[at] == (id, names[j]));
                }
            } else if found != before {
                assert(found[found.len() - 1] == key);
            }
        }
        assert forall|i: int| 0 <= i < found.len() implies !tiles.contains(#[trigger] found[i])
            && !opening.contains(found[i]) by {
            if i < before.len() {
                assert(found[i] == before[i]);
            }
        }
        if found != before {
            assert forall|i: int, j: int| 0 <= i < j < found.len() implies found[i] != found[j] by {
                if j == before.len() {
                    assert(before[i] == found[i]);
                    assert(before.contains(found[i]));
                }
            }
        }
    }
}

/// A key is in a sum where it is in one of the parts.
proof fn lemma_contains_sum(
    a: Seq<(EndpointId, Seq<char>)>,
    b: Seq<(EndpointId, Seq<char>)>,
    key: (EndpointId, Seq<char>),
)
    ensures
        (a + b).contains(key) == (a.contains(key) || b.contains(key)),
{
    let sum = a + b;
    if a.contains(key) {
        let at = choose|at: int| 0 <= at < a.len() && a[at] == key;
        assert(sum[at] == key);
    }
    if b.contains(key) {
        let at = choose|at: int| 0 <= at < b.len() && b[at] == key;
        assert(sum[a.len() + at] == key);
    }
    if sum.contains(key) {
        let at = choose|at: int| 0 <= at < sum.len() && sum[at] == key;
        if at < a.len() {
            assert(a[at] == key);
        } else {
            assert(b[at - a.len()] == key);
        }
    }
}

/// What is missing of all members is new, each once, and all there is.
proof fn lemma_missing(
    list: Seq<MemberView>,
    tiles: Seq<(EndpointId, Seq<char>)>,
    opening: Seq<(EndpointId, Seq<char>)>,
)
    ensures
        ({
            let found = missing(list, tiles, opening);
            &&& found.no_duplicates()
            &&& forall|i: int|
                0 <= i < found.len() ==> !tiles.contains(#[trigger] found[i]) && !opening.contains(
                    found[i],
                )
            &&& forall|key: (EndpointId, Seq<char>)| #[trigger]
                publishes(list, key) ==> tiles.contains(key) || opening.contains(key)
                    || found.contains(key)
        }),
    decreases list.len(),
{
    if list.len() > 0 {
        let rest = list.drop_last();
        let one = list.last();
        let before = missing(rest, tiles, opening);
        let more = missing_of(one.id, one.broadcasts, tiles, opening + before);
        let found = missing(list, tiles, opening);
        lemma_missing(rest, tiles, opening);
        lemma_missing_of(one.id, one.broadcasts, tiles, opening + before);
        assert forall|i: int| 0 <= i < found.len() implies !tiles.contains(#[trigger] found[i])
            && !opening.contains(found[i]) by {
            if i < before.len() {
                assert(found[i] == before[i]);
            } else {
                assert(found[i] == more[i - before.len()]);
                lemma_contains_sum(opening, before, found[i]);
            }
        }
        assert forall|i: int, j: int| 0 <= i < j < found.len() implies found[i] != found[j] by {
            if j < before.len() {
                assert(found[i] == before[i] && found[j] == before[j]);
            } else if i >= before.len() {
                assert(found[i] == more[i - before.len()] && found[j] == more[j - before.len()]);
            } else {
                assert(found[j] == more[j - before.len()]);
                assert(found[i] == before[i]);
                assert(before.contains(found[i]));
                lemma_contains_sum(opening, before, found[j]);
            }
        }
        assert forall|key: (EndpointId, Seq<char>)| #[trigger] publishes(list, key) implies tiles.contains(
            key,
        ) || opening.contains(key) || found.contains(key) by {
            let at = choose|at: int|
                0 <= at < list.len() && (#[trigger] list[at]).id == key.0
                    && list[at].broadcasts.contains(key.1);
            lemma_contains_sum(before, more, key);
            if at < rest.len() {
                assert(rest[at] == list[at]);
                assert(publishes(rest, key));
            } else {
                let j = choose|j: int|
                    0 <= j < one.broadcasts.len() && one.broadcasts[j] == key.1;
                assert(key == (one.id, one.broadcasts[j]));
                lemma_contains_sum(opening, before, key);
            }
        }
    }
}

/// The tiles that stay are tiles, each where it is published.
proof fn lemma_still_published(tiles: Seq<(EndpointId, Seq<char>)>, list: Seq<MemberView>)
    ensures
        ({
            let kept = still_published(tiles, list);
            &&& forall|key: (EndpointId, Seq<char>)| #[trigger]
                kept.contains(key) == (tiles.contains(key) && publishes(list, key))
            &&& tiles.no_duplicates() ==> kept.no_duplicates()
        }),
    decreases tiles.len(),
{
    if tiles.len() > 0 {
        let rest = tiles.drop_last();
        let one = tiles.last();
        let before = still_published(rest, list);
        let kept = still_published(tiles, list);
        lemma_still_published(rest, list);
        assert(tiles =~= rest.push(one));
        assert forall|key: (EndpointId, Seq<char>)| #[trigger] kept.contains(key) == (
        tiles.contains(key) && publishes(list, key)) by {
            assert(kept == before || kept == before.push(one));
            lemma_contains_push(rest, one, key);
            lemma_contains_push(before, one, key);
        }
        if tiles.no_duplicates() {
            assert forall|i: int, j: int| 0 <= i < j < rest.len() implies rest[i] != rest[j] by {
                assert(tiles[i] != tiles[j]);
            }
            assert(!rest.contains(one)) by {
                if rest.contains(one) {
                    let at = choose|at: int| 0 <= at < rest.len() && rest[at] == one;
                    assert(tiles[at] == tiles[tiles.len() - 1]);
                }
            }
            if kept != before {
                assert(!before.contains(one));
                assert forall|i: int, j: int| 0 <= i < j < kept.len() implies kept[i] != kept[j] by {
                    if j == before.len() {
                        assert(kept[i] == before[i]);
                        assert(before.contains(kept[i]));
                    }
                }
            }
        }
    }
}

/// A key is in a longer list where it was before or is the one added.
proof fn lemma_contains_push(
    list: Seq<(EndpointId, Seq<char>)>,
    one: (EndpointId, Seq<char>),
    key: (EndpointId, Seq<char>),
)
    ensures
        list.push(one).contains(key) == (list.contains(key) || one == key),
{
    assert(list.push(one) =~= list + seq![one]);
    lemma_contains_sum(list, seq![one], key);
    assert(seq![one].contains(key) == (one == key)) by {
        assert(seq![one][0] == one);
    }
}

/// Bringing the grid in line opens no broadcast that is shown or opening, and
/// none twice.
pub proof fn law_a_broadcast_is_opened_once(room: RoomView)
    requires
        room.once(),
    ensures
        room.reconciled().once(),
        forall|i: int|
            0 <= i < room.to_open().len() ==> !room.opening.contains(#[trigger] room.to_open()[i]),
{
    let kept = still_published(room.tiles, room.known);
    let found = room.to_open();
    lemma_still_published(room.tiles, room.known);
    lemma_missing(room.known, kept, room.opening);
    let opening = room.opening + found;
    assert forall|i: int, j: int| 0 <= i < j < opening.len() implies opening[i] != opening[j] by {
        if j < room.opening.len() {
            assert(room.opening[i] != room.opening[j]);
        } else if i < room.opening.len() {
            assert(opening[j] == found[j - room.opening.len()]);
            assert(room.opening.contains(room.opening[i]));
        } else {
            assert(found[i - room.opening.len()] != found[j - room.opening.len()]);
        }
    }
    assert forall|key: (EndpointId, Seq<char>)|
        !(#[trigger] room.reconciled().tiles.contains(key) && room.reconciled().opening.contains(
            key,
        )) by {
        lemma_contains_sum(room.opening, found, key);
        if found.contains(key) {
            let at = choose|at: int| 0 <= at < found.len() && found[at] == key;
            assert(!kept.contains(found[at]));
        }
        if kept.contains(key) {
            assert(room.tiles.contains(key));
        }
    }
}

/// Once the grid is in line, every broadcast a member publishes is shown or
/// opening, and every broadcast that is shown is published.
pub proof fn law_the_grid_follows_the_membership(room: RoomView, key: (EndpointId, Seq<char>))
    ensures
        publishes(room.known, key) ==> room.reconciled().tiles.contains(key)
            || room.reconciled().opening.contains(key),
        room.reconciled().tiles.contains(key) ==> publishes(room.known, key)
            && room.tiles.contains(key),
{
    let kept = still_published(room.tiles, room.known);
    lemma_still_published(room.tiles, room.known);
    lemma_missing(room.known, kept, room.opening);
    lemma_contains_sum(room.opening, room.to_open(), key);
}

/// The list without a key holds every other key and not that one.
proof fn lemma_without_key(list: Seq<(EndpointId, Seq<char>)>, key: (EndpointId, Seq<char>))
    ensures
        ({
            let rest = without_key(list, key);
            &&& forall|other: (EndpointId, Seq<char>)| #[trigger]
                rest.contains(other) == (list.contains(other) && other != key)
            &&& list.no_duplicates() ==> rest.no_duplicates()
        }),
    decreases list.len(),
{
    if list.len() > 0 {
        let before = list.drop_last();
        let one = list.last();
        let short = without_key(before, key);
        let rest = without_key(list, key);
        lemma_without_key(before, key);
        assert(list =~= before.push(one));
        assert forall|other: (EndpointId, Seq<char>)| #[trigger] rest.contains(other) == (
        list.contains(other) && other != key) by {
            assert(rest == short || rest == short.push(one));
            lemma_contains_push(before, one, other);
            lemma_contains_push(short, one, other);
        }
        if list.no_duplicates() {
            assert forall|i: int, j: int| 0 <= i < j < before.len() implies before[i] != before[j] by {
                assert(list[i] != list[j]);
            }
            assert(!before.contains(one)) by {
                if before.contains(one) {
                    let at = choose|at: int| 0 <= at < before.len() && before[at] == one;
                    assert(list[at] == list[list.len() - 1]);
                }
            }
            if rest != short {
                assert(!short.contains(one));
                assert forall|i: int, j: int| 0 <= i < j < rest.len() implies rest[i] != rest[j] by {
                    if j == short.len() {
                        assert(rest[i] == short[i]);
                        assert(short.contains(rest[i]));
                    }
                }
            }
        }
    }
}

/// A broadcast that finished opening is shown once and is no longer opening.
pub proof fn law_a_broadcast_moves_from_opening_to_the_grid(
    room: RoomView,
    key: (EndpointId, Seq<char>),
)
    requires
        room.once(),
        room.opening.contains(key),
    ensures
        ({
            let shown = RoomView {
                opening: without_key(room.opening, key),
                tiles: room.tiles.push(key),
                ..room
            };
            shown.once() && !shown.opening.contains(key) && shown.tiles.contains(key)
        }),
{
    let shown = RoomView {
        opening: without_key(room.opening, key),
        tiles: room.tiles.push(key),
        ..room
    };
    lemma_without_key(room.opening, key);
    assert(!room.tiles.contains(key));
    assert forall|i: int, j: int| 0 <= i < j < shown.tiles.len() implies shown.tiles[i]
        != shown.tiles[j] by {
        if j == room.tiles.len() {
            assert(room.tiles.contains(room.tiles[i]));
        } else {
            assert(room.tiles[i] != room.tiles[j]);
        }
    }
    assert forall|other: (EndpointId, Seq<char>)|
        !(#[trigger] shown.tiles.contains(other) && shown.opening.contains(other)) by {
        lemma_contains_push(room.tiles, key, other);
        if room.tiles.contains(other) {
            assert(!room.opening.contains(other));
        }
    }
    assert(shown.tiles[room.tiles.len() as int] == key);
}

/// The scrollback keeps the newest lines: it ends with the line said last, and
/// never grows past what is kept.
pub proof fn law_the_scrollback_keeps_the_newest_lines(
    lines: Seq<ChatLineView>,
    line: ChatLineView,
)
    requires
        lines.len() <= MAX_CHAT_LINES,
    ensures
        with_line(lines, line).len() <= MAX_CHAT_LINES,
        with_line(lines, line).last() == line,
        lines.len() < MAX_CHAT_LINES ==> with_line(lines, line).drop_last() == lines,
        lines.len() == MAX_CHAT_LINES ==> with_line(lines, line).drop_last() == lines.skip(1),
{
    if lines.len() < MAX_CHAT_LINES {
        assert(with_line(lines, line).drop_last() =~= lines);
    } else {
        assert(with_line(lines, line).drop_last() =~= lines.skip(1));
    }
}

/// The grid holds every tile and has no empty row, and it is as square as it can
/// be: there are as many rows as columns, or one less.
pub proof fn law_the_grid_holds_every_tile(count: nat, cols: nat)
    requires
        is_square_enough(count, cols),
    ensures
        cols >= 1,
        rows_for(count, cols) >= 1,
        cols * rows_for(count, cols) >= count,
        rows_for(count, cols) > 1 ==> cols * (rows_for(count, cols) - 1) < count,
        rows_for(count, cols) <= cols,
        count > 0 ==> cols <= rows_for(count, cols) + 1,
{
    let rows = rows_for(count, cols) as int;
    let exact = (count + cols - 1) / cols as int;
    assert(cols * exact <= count + cols - 1 < cols * exact + cols) by (nonlinear_arith)
        requires
            cols >= 1,
            exact == (count + cols - 1) / cols as int,
    ;
    assert(cols * (exact - 1) == cols * exact - cols) by (nonlinear_arith);
    assert(exact >= 0) by (nonlinear_arith)
        requires
            cols * exact + cols > count + cols - 1,
            cols >= 1,
            count >= 0,
    ;
    assert(cols * 1 == cols && cols * 0 == 0);
    if exact >= 1 {
        assert(exact <= cols) by (nonlinear_arith)
            requires
                cols * exact <= count + cols - 1,
                cols * cols >= count,
                cols >= 1,
        ;
        if cols > 1 {
            assert(cols <= exact + 1) by (nonlinear_arith)
                requires
                    cols * exact + cols > count + cols - 1,
                    (cols - 1) * (cols - 1) < count,
                    cols > 1,
                    exact >= 1,
            ;
        }
    } else {
        assert(count == 0) by (nonlinear_arith)
            requires
                cols * exact + cols > count + cols - 1,
                exact <= 0,
                cols >= 1,
        ;
    }
}

/// Only one width of grid is square enough.
pub proof fn law_one_grid_is_square_enough(count: nat, one: nat, other: nat)
    requires
        is_square_enough(count, one),
        is_square_enough(count, other),
    ensures
        one == other,
{
    if one < other {
        assert(one * one <= (other - 1) * (other - 1)) by (nonlinear_arith)
            requires
                1 <= one <= other - 1,
        ;
    }
    if other < one {
        assert(other * other <= (one - 1) * (one - 1)) by (nonlinear_arith)
            requires
                1 <= other <= one - 1,
        ;
    }
}

/// A member is shown by the name it announced, and by its short id where it
/// announced none or is not there.
pub proof fn law_a_member_is_shown_by_its_name(list: Seq<MemberView>, id: EndpointId, at: int)
    requires
        distinct(list),
    ensures
        0 <= at < list.len() && list[at].id == id && list[at].display_name is Some ==> shown_name(
            list,
            id,
        ) == list[at].display_name->0,
        0 <= at < list.len() && list[at].id == id && list[at].display_name is None ==> shown_name(
            list,
            id,
        ) == id.short(),
        (forall|i: int| 0 <= i < list.len() ==> (#[trigger] list[i]).id != id) ==> shown_name(
            list,
            id,
        ) == id.short(),
{
    if 0 <= at < list.len() && list[at].id == id {
        lemma_shown_name(list, id, at);
    }
    if forall|i: int| 0 <= i < list.len() ==> (#[trigger] list[i]).id != id {
        lemma_no_shown_name(list, id);
    }
}

/// Every member that is new gets a line that says so, by its name, and nobody
/// else gets one.
pub proof fn law_who_joined_is_told(now: Seq<MemberView>, before: Seq<MemberView>, at: int)
    requires
        0 <= at < now.len(),
    ensures
        !present(before, now[at].id) ==> join_lines(now, before).contains(
            match now[at].display_name {
                Some(name) => name,
                None => now[at].id.short(),
            } + " joined"@,
        ),
        join_lines(now, before).len() <= now.len(),
        (forall|i: int| 0 <= i < now.len() ==> present(before, (#[trigger] now[i]).id))
            ==> join_lines(now, before).len() == 0,
        (forall|i: int| 0 <= i < now.len() ==> !present(before, (#[trigger] now[i]).id))
            ==> join_lines(now, before).len() == now.len(),
    decreases now.len(),
{
    let rest = now.drop_last();
    let lines = join_lines(now, before);
    let fewer = join_lines(rest, before);
    let last = now[now.len() - 1];
    if now.len() > 1 {
        law_who_joined_is_told(
            rest,
            before,
            if at < rest.len() {
                at
            } else {
                0
            },
        );
        if forall|i: int| 0 <= i < now.len() ==> present(before, (#[trigger] now[i]).id) {
            assert forall|i: int| 0 <= i < rest.len() implies present(
                before,
                (#[trigger] rest[i]).id,
            ) by {
                assert(rest[i] == now[i]);
            }
            assert(present(before, last.id));
        }
        if forall|i: int| 0 <= i < now.len() ==> !present(before, (#[trigger] now[i]).id) {
            assert forall|i: int| 0 <= i < rest.len() implies !present(
                before,
                (#[trigger] rest[i]).id,
            ) by {
                assert(rest[i] == now[i]);
            }
            assert(!present(before, last.id));
        }
    } else {
        assert(fewer.len() == 0);
        assert(now[0] == last);
    }
    if !present(before, now[at].id) {
        let name = match now[at].display_name {
            Some(name) => name,
            None => now[at].id.short(),
        };
        if at == now.len() - 1 {
            assert(lines.last() == name + " joined"@);
        } else {
            assert(rest[at] == now[at]);
            let k = choose|k: int| 0 <= k < fewer.len() && fewer[k] == name + " joined"@;
            assert(lines[k] == fewer[k]);
        }
    }
}

/// Every member that is gone gets a line that says so, by the name it was shown
/// by, and nobody else gets one.
pub proof fn law_who_left_is_told(
    before: Seq<MemberView>,
    now: Seq<MemberView>,
    all: Seq<MemberView>,
    at: int,
)
    requires
        0 <= at < before.len(),
    ensures
        !present(now, before[at].id) ==> leave_lines(before, now, all).contains(
            shown_name(all, before[at].id) + " left"@,
        ),
        leave_lines(before, now, all).len() <= before.len(),
        (forall|i: int| 0 <= i < before.len() ==> present(now, (#[trigger] before[i]).id))
            ==> leave_lines(before, now, all).len() == 0,
        (forall|i: int| 0 <= i < before.len() ==> !present(now, (#[trigger] before[i]).id))
            ==> leave_lines(before, now, all).len() == before.len(),
    decreases before.len(),
{
    let rest = before.drop_last();
    let lines = leave_lines(before, now, all);
    let fewer = leave_lines(rest, now, all);
    let last = before[before.len() - 1];
    if before.len() > 1 {
        law_who_left_is_told(
            rest,
            now,
            all,
            if at < rest.len() {
                at
            } else {
                0
            },
        );
        if forall|i: int| 0 <= i < before.len() ==> present(now, (#[trigger] before[i]).id) {
            assert forall|i: int| 0 <= i < rest.len() implies present(
                now,
                (#[trigger] rest[i]).id,
            ) by {
                assert(rest[i] == before[i]);
            }
            assert(present(now, last.id));
        }
        if forall|i: int| 0 <= i < before.len() ==> !present(now, (#[trigger] before[i]).id) {
            assert forall|i: int| 0 <= i < rest.len() implies !present(
                now,
                (#[trigger] rest[i]).id,
            ) by {
                assert(rest[i] == before[i]);
            }
            assert(!present(now, last.id));
        }
    } else {
        assert(fewer.len() == 0);
        assert(before[0] == last);
    }
    if !present(now, before[at].id) {
        let line = shown_name(all, before[at].id) + " left"@;
        if at == before.len() - 1 {
            assert(lines.last() == line);
        } else {
            assert(rest[at] == before[at]);
            let k = choose|k: int| 0 <= k < fewer.len() && fewer[k] == line;
            assert(lines[k] == fewer[k]);
        }
    }
}

proof fn lemma_noting_all(chat: ChatView, lines: Seq<Seq<char>>)
    ensures
        noting_all(chat, lines).input == chat.input,
        chat.lines.len() + lines.len() <= MAX_CHAT_LINES ==> noting_all(chat, lines).lines
            == chat.lines + Seq::new(
            lines.len(),
            |i: int| ChatLineView { sender: None, text: lines[i] },
        ),
    decreases lines.len(),
{
    if lines.len() > 0 {
        lemma_noting_all(chat, lines.drop_last());
        if chat.lines.len() + lines.len() <= MAX_CHAT_LINES {
            assert(noting_all(chat, lines).lines =~= chat.lines + Seq::new(
                lines.len(),
                |i: int| ChatLineView { sender: None, text: lines[i] },
            ));
        }
    } else {
        assert(chat.lines =~= chat.lines + Seq::new(
            lines.len(),
            |i: int| ChatLineView { sender: None, text: lines[i] },
        ));
    }
}

/// A changed membership is taken over and told of: first who joined, then who
/// left, as lines of the room itself. Nothing else of the room changes.
pub proof fn law_a_changed_membership_is_told(room: RoomView, state: Seq<MemberView>)
    ensures
        ({
            let told = room.told(state);
            let joined = join_lines(state, room.known);
            let left = leave_lines(room.known, state, room.known);
            &&& told.known == state
            &&& told.tiles == room.tiles
            &&& told.opening == room.opening
            &&& told.reconcile_at == room.reconcile_at
            &&& told.display_name == room.display_name
            &&& told.chat.input == room.chat.input
            &&& room.chat.lines.len() + joined.len() + left.len() <= MAX_CHAT_LINES
                ==> told.chat.lines == room.chat.lines + Seq::new(
                joined.len() + left.len(),
                |i: int|
                    ChatLineView {
                        sender: None,
                        text: if i < joined.len() {
                            joined[i]
                        } else {
                            left[i - joined.len()]
                        },
                    },
            )
        }),
{
    let joined = join_lines(state, room.known);
    let left = leave_lines(room.known, state, room.known);
    let greeted = noting_all(room.chat, joined);
    lemma_noting_all(room.chat, joined);
    lemma_noting_all(greeted, left);
    if room.chat.lines.len() + joined.len() + left.len() <= MAX_CHAT_LINES {
        assert(room.told(state).chat.lines =~= room.chat.lines + Seq::new(
            joined.len() + left.len(),
            |i: int|
                ChatLineView {
                    sender: None,
                    text: if i < joined.len() {
                        joined[i]
                    } else {
                        left[i - joined.len()]
                    },
                },
        ));
    }
}

proof fn lemma_published_is_filter(tiles: Seq<(EndpointId, Seq<char>)>, list: Seq<MemberView>)
    ensures
        still_published(tiles, list) == tiles.filter(
            |key: (EndpointId, Seq<char>)| publishes(list, key),
        ),
    decreases tiles.len(),
{
    reveal(Seq::filter);
    if tiles.len() > 0 {
        lemma_published_is_filter(tiles.drop_last(), list);
    }
}

/// Bringing the grid in line keeps every tile whose broadcast is still published,
/// in order, and opens only broadcasts that a member publishes.
pub proof fn law_only_withdrawn_tiles_go(room: RoomView)
    ensures
        room.reconciled().tiles == room.tiles.filter(
            |key: (EndpointId, Seq<char>)| publishes(room.known, key),
        ),
        forall|i: int|
            0 <= i < room.to_open().len() ==> publishes(room.known, #[trigger] room.to_open()[i]),
        room.reconciled().opening == room.opening + room.to_open(),
        room.reconciled().known == room.known,
        room.reconciled().chat == room.chat,
        room.reconciled().reconcile_at is None,
{
    lemma_published_is_filter(room.tiles, room.known);
    lemma_missing_is_published(
        room.known,
        still_published(room.tiles, room.known),
        room.opening,
        room.known,
    );
}

proof fn lemma_missing_of_is_named(
    id: EndpointId,
    names: Seq<Seq<char>>,
    tiles: Seq<(EndpointId, Seq<char>)>,
    opening: Seq<(EndpointId, Seq<char>)>,
)
    ensures
        forall|i: int|
            0 <= i < missing_of(id, names, tiles, opening).len() ==> (#[trigger] missing_of(
                id,
                names,
                tiles,
                opening,
            )[i]).0 == id && names.contains(missing_of(id, names, tiles, opening)[i].1),
    decreases names.len(),
{
    if names.len() > 0 {
        let rest = names.drop_last();
        lemma_missing_of_is_named(id, rest, tiles, opening);
        let found = missing_of(id, names, tiles, opening);
        let fewer = missing_of(id, rest, tiles, opening);
        assert forall|i: int| 0 <= i < found.len() implies (#[trigger] found[i]).0 == id
            && names.contains(found[i].1) by {
            if i < fewer.len() {
                assert(found[i] == fewer[i]);
                let k = choose|k: int| 0 <= k < rest.len() && rest[k] == fewer[i].1;
                assert(names[k] == found[i].1);
            } else {
                assert(names[names.len() - 1] == found[i].1);
            }
        }
    }
}

proof fn lemma_missing_is_published(
    list: Seq<MemberView>,
    tiles: Seq<(EndpointId, Seq<char>)>,
    opening: Seq<(EndpointId, Seq<char>)>,
    whole: Seq<MemberView>,
)
    requires
        list.len() <= whole.len(),
        forall|i: int| 0 <= i < list.len() ==> #[trigger] list[i] == whole[i],
    ensures
        forall|i: int|
            0 <= i < missing(list, tiles, opening).len() ==> publishes(
                whole,
                #[trigger] missing(list, tiles, opening)[i],
            ),
    decreases list.len(),
{
    if list.len() > 0 {
        let rest = list.drop_last();
        let last = list[list.len() - 1];
        lemma_missing_is_published(rest, tiles, opening, whole);
        let before = missing(rest, tiles, opening);
        lemma_missing_of_is_named(last.id, last.broadcasts, tiles, opening + before);
        let own = missing_of(last.id, last.broadcasts, tiles, opening + before);
        let found = missing(list, tiles, opening);
        assert forall|i: int| 0 <= i < found.len() implies publishes(
            whole,
            #[trigger] found[i],
        ) by {
            if i < before.len() {
                assert(found[i] == before[i]);
            } else {
                assert(found[i] == own[i - before.len()]);
                assert(whole[list.len() - 1].id == found[i].0);
            }
        }
    }
}

/// The grid is brought in line when the membership changed or a time that was set
/// has come, and then only.
pub proof fn law_a_pass_follows_what_changed(room: RoomView, state: Seq<MemberView>, now: u64)
    ensures
        state != room.known ==> room.behind(state, now),
        state == room.known && room.reconcile_at is None ==> !room.behind(state, now),
        state == room.known && room.reconcile_at is Some ==> (room.behind(state, now) <==> now
            >= room.reconcile_at->0),
{
}

/// A reconcile that is put off comes within the pause, and no later than one that
/// was set before.
pub proof fn law_a_reconcile_is_not_put_off_twice(room: RoomView, now: u64)
    requires
        now + REOPEN_DELAY <= u64::MAX,
    ensures
        room.later(now).reconcile_at matches Some(at) && {
            &&& at <= now + REOPEN_DELAY
            &&& room.reconcile_at matches Some(due) ==> at <= due
            &&& at == now + REOPEN_DELAY || room.reconcile_at == Some(at)
        },
        room.later(now).tiles == room.tiles,
        room.later(now).opening == room.opening,
        room.later(now).known == room.known,
        room.later(now).chat == room.chat,
{
}

/// A tile goes exactly where its broadcast ended, and the others keep their
/// order.
pub proof fn law_open_tiles_stay(
    tiles: Seq<(EndpointId, Seq<char>)>,
    closed: Seq<bool>,
    at: int,
)
    requires
        closed.len() >= tiles.len(),
        0 <= at < tiles.len(),
    ensures
        !closed[at] ==> still_open(tiles, closed).contains(tiles[at]),
        still_open(tiles, closed).len() <= tiles.len(),
        tiles.no_duplicates() && closed[at] ==> !still_open(tiles, closed).contains(tiles[at]),
        (forall|i: int| 0 <= i < tiles.len() ==> !#[trigger] closed[i]) ==> still_open(tiles, closed)
            == tiles,
        (forall|i: int| 0 <= i < tiles.len() ==> #[trigger] closed[i]) ==> still_open(
            tiles,
            closed,
        ).len() == 0,
    decreases tiles.len(),
{
    let rest = tiles.drop_last();
    let kept = still_open(tiles, closed);
    let fewer = still_open(rest, closed);
    let last = tiles.len() - 1;
    lemma_still_open_from(rest, closed);
    if rest.len() > 0 {
        law_open_tiles_stay(
            rest,
            closed,
            if at < last {
                at
            } else {
                0
            },
        );
    }
    if !closed[at] {
        if at == last {
            assert(kept.last() == tiles[at]);
        } else {
            assert(rest[at] == tiles[at]);
            let k = choose|k: int| 0 <= k < fewer.len() && fewer[k] == rest[at];
            assert(kept[k] == fewer[k]);
        }
    }
    if tiles.no_duplicates() && closed[at] && kept.contains(tiles[at]) {
        let k = choose|k: int| 0 <= k < kept.len() && kept[k] == tiles[at];
        if at == last {
            assert(kept == fewer);
            assert(rest.contains(fewer[k]));
            let j = choose|j: int| 0 <= j < rest.len() && rest[j] == fewer[k];
            assert(tiles[j] == tiles[at]);
        } else {
            assert(rest[at] == tiles[at]);
            if k < fewer.len() {
                assert(fewer[k] == rest[at]);
                assert(fewer.contains(rest[at]));
                assert forall|i: int, j: int| 0 <= i < j < rest.len() implies rest[i] != rest[j] by {
                    assert(tiles[i] != tiles[j]);
                }
            } else {
                assert(kept[k] == tiles[last]);
            }
        }
    }
    if forall|i: int| 0 <= i < tiles.len() ==> !#[trigger] closed[i] {
        assert(!closed[last]);
        assert(kept =~= tiles);
    }
    if forall|i: int| 0 <= i < tiles.len() ==> #[trigger] closed[i] {
        assert(closed[last]);
    }
}

proof fn lemma_still_open_from(tiles: Seq<(EndpointId, Seq<char>)>, closed: Seq<bool>)
    ensures
        forall|k: int|
            0 <= k < still_open(tiles, closed).len() ==> tiles.contains(
                #[trigger] still_open(tiles, closed)[k],
            ),
    decreases tiles.len(),
{
    if tiles.len() > 0 {
        let rest = tiles.drop_last();
        lemma_still_open_from(rest, closed);
        let kept = still_open(tiles, closed);
        let fewer = still_open(rest, closed);
        assert forall|k: int| 0 <= k < kept.len() implies tiles.contains(#[trigger] kept[k]) by {
            if k < fewer.len() {
                assert(kept[k] == fewer[k]);
                let j = choose|j: int| 0 <= j < rest.len() && rest[j] == fewer[k];
                assert(tiles[j] == kept[k]);
            } else {
                assert(tiles[tiles.len() - 1] == kept[k]);
            }
        }
    }
}

/// A line that is said is the newest line, by its sender and with its text, and
/// what is being typed stays. A line of the room has no sender.
pub proof fn law_what_is_said_is_shown_last(chat: ChatView, line: ChatLineView, note: Seq<char>)
    ensures
        chat.saying(line).lines.len() > 0,
        chat.saying(line).lines.last() == line,
        chat.saying(line).input == chat.input,
        chat.lines.len() < MAX_CHAT_LINES ==> chat.saying(line).lines.drop_last() == chat.lines,
        chat.noting(note).lines.last().sender is None,
        chat.noting(note).lines.last().text == note,
{
    assert(chat.lines.push(line).drop_last() =~= chat.lines);
}

/// Who is in a list is there, and nobody is in an empty one.
pub proof fn law_a_listed_member_is_there(list: Seq<MemberView>, member: MemberView, id: EndpointId)
    ensures
        !present(Seq::empty(), id),
        present(list.push(member), id) <==> present(list, id) || member.id == id,
{
    let all = list.push(member);
    if member.id == id {
        assert(all[list.len() as int].id == id);
    }
    if present(list, id) {
        let i = choose|i: int| 0 <= i < list.len() && (#[trigger] list[i]).id == id;
        assert(all[i].id == id);
    }
    if present(all, id) && member.id != id {
        let i = choose|i: int| 0 <= i < all.len() && (#[trigger] all[i]).id == id;
        assert(list[i].id == id);
    }
}

/// A member that is listed publishes what it names, and nobody else publishes it.
pub proof fn law_a_listed_broadcast_is_published(
    list: Seq<MemberView>,
    member: MemberView,
    key: (EndpointId, Seq<char>),
)
    ensures
        !publishes(Seq::empty(), key),
        publishes(list.push(member), key) <==> publishes(list, key) || publishes(
            seq![member],
            key,
        ),
        member.id != key.0 ==> !publishes(seq![member], key),
{
    let all = list.push(member);
    let one = seq![member];
    if publishes(list, key) {
        let i = choose|i: int|
            0 <= i < list.len() && (#[trigger] list[i]).id == key.0
                && list[i].broadcasts.contains(key.1);
        assert(all[i] == list[i]);
    }
    if publishes(one, key) {
        assert(one[0] == member);
        assert(all[list.len() as int] == member);
    }
    if publishes(all, key) {
        let i = choose|i: int|
            0 <= i < all.len() && (#[trigger] all[i]).id == key.0
                && all[i].broadcasts.contains(key.1);
        if i < list.len() {
            assert(list[i] == all[i]);
        } else {
            assert(one[0] == all[i]);
        }
    }
}

/// The grid is as wide as the smallest square that holds every tile, and one wide
/// for one tile or none.
pub proof fn law_the_grid_is_the_smallest_square(count: nat, cols: nat, fewer: nat)
    requires
        is_square_enough(count, cols),
    ensures
        cols * cols >= count,
        1 <= fewer < cols ==> fewer * fewer < count,
        count <= 1 ==> cols == 1,
        1 <= fewer && fewer * fewer >= count ==> cols <= fewer,
        count >= 1 ==> is_square_enough(count * count, count),
        is_square_enough(0, 1),
{
    if 1 <= fewer < cols {
        assert(fewer * fewer <= (cols - 1) * (cols - 1)) by (nonlinear_arith)
            requires
                1 <= fewer <= cols - 1,
        ;
    }
    if cols > 1 {
        assert((cols - 1) * (cols - 1) >= 1) by (nonlinear_arith)
            requires
                cols > 1,
        ;
    }
    if count >= 1 {
        assert((count - 1) * (count - 1) < count * count) by (nonlinear_arith)
            requires
                count >= 1,
        ;
    }
}

} // verus!
