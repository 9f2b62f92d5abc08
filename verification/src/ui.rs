//! Widgets and lifecycle rules shared by the windows.

use vstd::prelude::*;

use crate::args::{Latency, PlaybackArgs};
use crate::backend::{self, Backend, BackendView};
use crate::overlay::DebugOverlay;
use crate::stats::{RenditionMode, RenditionModeView, StatCategory};
use crate::text;

verus! {

/// How a player is opened.
#[derive(Debug)]
pub struct PlayerConfig {
    pub decoder: Backend,
    pub latency: Latency,
    /// Whether audio plays on the output that is open.
    pub audio: bool,
}

/// Returns a player config from `--decoder` and `--latency`, with audio to the
/// output if there is one.
///
/// `default` is the latency of a player that is told nothing.
pub fn player_config(args: &PlaybackArgs, output: bool, default: Latency) -> (res: PlayerConfig)
    ensures
        res.decoder == args.decoder,
        res.latency == args.latency.bounds(default),
        res.audio == output,
{
    PlayerConfig {
        decoder: args.decoder,
        latency: args.latency.latency(default),
        audio: output,
    }
}

/// How many milliseconds the pointer must sit still before the overlay fades
/// out.
pub const CURSOR_IDLE: u64 = 2_000;

/// Hides the overlay and the pointer once the pointer has been still for a while.
///
/// Times are in milliseconds.
#[derive(Debug, Clone, Copy, PartialEq, Eq, Structural)]
pub struct CursorIdle {
    /// Whether the overlay is drawn.
    pub visible: bool,
    /// When the pointer last moved.
    pub since: u64,
}

impl CursorIdle {
    /// The state after a pass at time `now`.
    pub open spec fn after(self, active: bool, now: u64) -> CursorIdle {
        if active {
            CursorIdle { visible: true, since: now }
        } else if now - self.since > CURSOR_IDLE {
            CursorIdle { visible: false, since: self.since }
        } else {
            self
        }
    }

    /// Starts at time `now` with the overlay visible.
    pub fn new(now: u64) -> (res: Self)
        ensures
            res == (CursorIdle { visible: true, since: now }),
    {
        CursorIdle { visible: true, since: now }
    }

    /// Returns whether to draw the overlay this frame.
    ///
    /// `pinned` keeps it visible, for example while a stats panel is expanded.
    /// `moved` tells whether the pointer moved. Where the overlay is hidden the
    /// pointer is hidden too, on every pass.
    pub fn update(&mut self, pinned: bool, moved: bool, now: u64) -> (res: bool)
        requires
            old(self).since <= now,
        ensures
            *final(self) == old(self).after(pinned || moved, now),
            final(self).since <= now,
            res == final(self).visible,
    {
        if pinned || moved {
            self.visible = true;
            self.since = now;
        } else if now - self.since > CURSOR_IDLE {
            self.visible = false;
        }
        self.visible
    }
}

/// Returns the fullscreen state to ask for when the toggle of the top bar is
/// clicked. A window that does not say is not in full screen.
pub fn toggled_fullscreen(fullscreen: Option<bool>) -> (res: bool)
    ensures
        res == match fullscreen {
            Some(on) => !on,
            None => true,
        },
{
    match fullscreen {
        Some(on) => !on,
        None => true,
    }
}

/// The link that serves a broadcast.
#[derive(Debug)]
pub struct Serving {
    /// Whether the link goes to a relay that serves the broadcast.
    pub relay: bool,
    /// Whether the link itself is relayed.
    pub relayed: bool,
    /// The text of the bitrate that arrives, where it is known.
    pub arriving: Option<String>,
}

/// The lines about a link.
pub open spec fn link_text(serving: Option<Serving>) -> Seq<Seq<char>> {
    match serving {
        None => seq!["no link serves the broadcast"@],
        Some(link) => {
            let kind = if link.relay {
                "via a relay link"@
            } else if link.relayed {
                "relayed"@
            } else {
                "direct"@
            };
            match link.arriving {
                Some(rate) => seq![kind, "arriving: "@ + rate@],
                None => seq![kind],
            }
        },
    }
}

/// How many milliseconds pass before the overlay's link lines are refreshed.
pub const LINK_REFRESH: u64 = 500;

/// When the overlay's transport lines were last refreshed.
#[derive(Debug, Clone, Copy, PartialEq, Eq, Structural)]
pub struct Link {
    /// The time in milliseconds.
    pub refreshed: Option<u64>,
}

impl Link {
    /// Whether the lines are due for a refresh at time `now`.
    pub open spec fn due(self, now: u64) -> bool {
        match self.refreshed {
            Some(at) => now - at >= LINK_REFRESH,
            None => true,
        }
    }

    /// Returns whether the lines are due for a refresh at time `now`, and takes
    /// note of it.
    pub fn refresh(&mut self, now: u64) -> (res: bool)
        requires
            old(self).refreshed is Some ==> old(self).refreshed->0 <= now,
        ensures
            res == old(self).due(now),
            final(self).refreshed == if res {
                Some(now)
            } else {
                old(self).refreshed
            },
    {
        if let Some(at) = self.refreshed {
            if now - at < LINK_REFRESH {
                return false;
            }
        }
        self.refreshed = Some(now);
        true
    }

    /// Returns the overlay's NET lines: the path kind and the arriving bitrate.
    pub fn lines(serving: &Option<Serving>) -> (res: Vec<String>)
        ensures
            text::string_list(res@) == link_text(*serving),
    {
        let mut res: Vec<String> = Vec::new();
        match serving {
            None => {
                res.push("no link serves the broadcast".to_owned());
            },
            Some(link) => {
                let kind: &str = if link.relay {
                    "via a relay link"
                } else if link.relayed {
                    "relayed"
                } else {
                    "direct"
                };
                res.push(kind.to_owned());
                if let Some(rate) = &link.arriving {
                    res.push("arriving: ".to_owned().concat(rate.as_str()));
                }
            },
        }
        assert(text::string_list(res@) =~= link_text(*serving));
        res
    }
}

/// A video rendition of a catalog, in the catalog's own order of preference.
#[derive(Debug)]
pub struct CatalogEntry {
    pub name: String,
    /// What the publisher calls it.
    pub label: Option<String>,
}

/// What the player reports.
#[derive(Debug)]
pub struct Playing {
    pub mode: RenditionMode,
    /// The rendition that plays.
    pub rendition: Option<String>,
    /// The decoder that runs.
    pub decoder: Option<String>,
    /// Whether there is audio.
    pub audio: bool,
}

/// An entry of the rendition picker.
#[derive(Debug)]
pub struct RenditionEntry {
    pub text: String,
    pub selected: bool,
    /// The mode that a click sets.
    pub mode: RenditionMode,
}

/// A [`RenditionEntry`] with its texts as character sequences.
pub struct RenditionEntryView {
    pub text: Seq<char>,
    pub selected: bool,
    pub mode: RenditionModeView,
}

impl View for RenditionEntry {
    type V = RenditionEntryView;

    open spec fn view(&self) -> RenditionEntryView {
        RenditionEntryView { text: self.text@, selected: self.selected, mode: self.mode@ }
    }
}

/// An entry of the decoder picker.
#[derive(Debug)]
pub struct DecoderEntry {
    pub choice: Backend,
    pub selected: bool,
}

/// The rendition and decoder pickers, and whether there is a volume slider.
#[derive(Debug)]
pub struct Controls {
    /// What the rendition picker shows.
    pub rendition: String,
    pub renditions: Vec<RenditionEntry>,
    /// What the decoder picker shows.
    pub decoder: String,
    pub decoders: Vec<DecoderEntry>,
    pub volume: bool,
}

/// A text, or the empty one.
pub open spec fn or_empty(text: Option<String>) -> Seq<char> {
    match text {
        Some(text) => text@,
        None => Seq::empty(),
    }
}

/// Returns a text, or the empty one.
fn text_or_empty(text: &Option<String>) -> (res: String)
    ensures
        res@ == or_empty(*text),
{
    match text {
        Some(text) => text.clone(),
        None => {
            let res = String::new();
            assert(res@ =~= Seq::empty());
            res
        },
    }
}

/// What the rendition picker shows.
pub open spec fn rendition_label(playing: Playing) -> Seq<char> {
    match playing.mode {
        RenditionMode::Pinned(name) => name@,
        _ => "Auto ("@ + or_empty(playing.rendition) + ")"@,
    }
}

/// The entry of the rendition picker for one rendition.
pub open spec fn entry_of(mode: RenditionModeView, entry: CatalogEntry) -> RenditionEntryView {
    RenditionEntryView {
        text: match entry.label {
            Some(label) => label@,
            None => entry.name@,
        },
        selected: mode == RenditionModeView::Pinned(entry.name@),
        mode: RenditionModeView::Pinned(entry.name@),
    }
}

/// The entries of the rendition picker: the automatic choice, then each
/// rendition.
pub open spec fn rendition_entries(mode: RenditionModeView, catalog: Seq<CatalogEntry>) -> Seq<
    RenditionEntryView,
> {
    seq![
        RenditionEntryView {
            text: "Auto"@,
            selected: mode is Auto,
            mode: RenditionModeView::Auto { max_height: None },
        },
    ] + Seq::new(catalog.len(), |i: int| entry_of(mode, catalog[i]))
}

/// What the decoder picker shows: the running backend, next to the choice when
/// they differ, as with `auto` or a named backend that failed to open.
pub open spec fn decoder_label(choice: BackendView, running: Seq<char>) -> Seq<char> {
    if choice.name() == running {
        running
    } else {
        choice.name() + " ("@ + running + ")"@
    }
}

/// What is fetched for a pass of the stats overlay.
#[derive(Debug)]
pub struct OverlayPass {
    /// The new link lines.
    pub link: Option<Vec<String>>,
    /// Whether the player's timeline is copied.
    pub timeline: bool,
}

/// A remote broadcast on screen, with its stats overlay.
///
/// Used for the remote of a call and for each tile of a room.
#[derive(Debug)]
pub struct RemoteView {
    /// The stats overlay.
    pub overlay: DebugOverlay,
    /// The decoder the picker last chose, which may differ from the one running.
    pub decoder: Backend,
    /// The subscription the broadcast arrives over, for the overlay.
    pub link: Option<Link>,
}

impl RemoteView {
    /// Creates a view.
    pub fn new(decoder: Backend) -> (res: Self)
        ensures
            res.decoder == decoder,
            res.link is None,
            res.overlay.wf(),
            res.overlay@.visible,
            res.overlay@.categories == seq![
                (StatCategory::Net, false),
                (StatCategory::Render, false),
                (StatCategory::Audio, false),
                (StatCategory::Time, false),
            ],
    {
        let overlay = DebugOverlay::new(
            &[
                StatCategory::Net,
                StatCategory::Render,
                StatCategory::Audio,
                StatCategory::Time,
            ],
        );
        assert(overlay@.categories =~= seq![
            (StatCategory::Net, false),
            (StatCategory::Render, false),
            (StatCategory::Audio, false),
            (StatCategory::Time, false),
        ]);
        RemoteView { overlay, decoder, link: None }
    }

    /// Adds link lines to the overlay.
    pub fn with_link(self) -> (res: Self)
        ensures
            res.link == Some(Link { refreshed: None }),
            res.overlay == self.overlay,
            res.decoder == self.decoder,
    {
        RemoteView { overlay: self.overlay, decoder: self.decoder, link: Some(Link { refreshed: None }) }
    }

    /// Returns whether the stats overlay is expanded.
    pub fn overlay_expanded(&self) -> (res: bool)
        ensures
            res == exists|category: StatCategory| self.overlay@.expanded(category),
    {
        self.overlay.any_expanded()
    }

    /// Decides what is fetched for a pass of the stats overlay at time `now`, in
    /// milliseconds: the link lines where they are due for a refresh, from the
    /// link that serves the broadcast, and the timeline only while the TIME panel
    /// is open.
    pub fn draw_overlay(&mut self, serving: &Option<Serving>, now: u64) -> (res: OverlayPass)
        requires
            old(self).link matches Some(link) ==> (link.refreshed is Some ==> link.refreshed->0
                <= now),
        ensures
            final(self).overlay == old(self).overlay,
            final(self).decoder == old(self).decoder,
            final(self).link == match old(self).link {
                Some(link) => Some(
                    if link.due(now) {
                        Link { refreshed: Some(now) }
                    } else {
                        link
                    },
                ),
                None => None,
            },
            match res.link {
                Some(lines) => {
                    &&& old(self).link matches Some(link) && link.due(now)
                    &&& text::string_list(lines@) == link_text(*serving)
                },
                None => old(self).link matches Some(link) ==> !link.due(now),
            },
            res.timeline == old(self).overlay@.expanded(StatCategory::Time),
    {
        let timeline: bool = self.overlay.timeline_open();
        let mut lines: Option<Vec<String>> = None;
        if let Some(link) = self.link {
            let mut link = link;
            if link.refresh(now) {
                lines = Some(Link::lines(serving));
            }
            self.link = Some(link);
        }
        OverlayPass { link: lines, timeline }
    }

    /// Switches the video decoder to `choice`.
    pub fn set_decoder(&mut self, choice: Backend)
        ensures
            final(self).decoder == choice,
            final(self).overlay == old(self).overlay,
            final(self).link == old(self).link,
    {
        self.decoder = choice;
    }

    /// Returns the rendition and decoder pickers, or `None` where the catalog
    /// has no video. `names` are the decoder backends.
    pub fn controls(
        &self,
        playing: &Playing,
        catalog: &Option<Vec<CatalogEntry>>,
        names: &'static [&'static str],
    ) -> (res: Option<Controls>)
        ensures
            match *catalog {
                None => res is None,
                Some(entries) => if entries@.len() == 0 {
                    res is None
                } else {
                    &&& res is Some
                    &&& res->0.rendition@ == rendition_label(*playing)
                    &&& Seq::new(
                        res->0.renditions@.len(),
                        |i: int| res->0.renditions@[i]@,
                    ) == rendition_entries(playing.mode@, entries@)
                    &&& res->0.decoder@ == decoder_label(self.decoder@, or_empty(playing.decoder))
                    &&& res->0.decoders@.len() == names@.len() + 3
                    &&& forall|i: int|
                        0 <= i < res->0.decoders@.len() ==> {
                            let entry = #[trigger] res->0.decoders@[i];
                            let choice = backend::all_choices(backend::name_list(names@))[i];
                            entry.choice@ == choice && entry.selected == (self.decoder@ == choice)
                        }
                    &&& res->0.volume == playing.audio
                },
            },
    {
        let entries: &Vec<CatalogEntry> = match catalog {
            Some(entries) => entries,
            None => {
                return None;
            },
        };
        if entries.len() == 0 {
            return None;
        }
        let rendition: String = match &playing.mode {
            RenditionMode::Pinned(name) => name.clone(),
            _ => "Auto (".to_owned().concat(text_or_empty(&playing.rendition).as_str()).concat(
                ")",
            ),
        };
        let running: String = text_or_empty(&playing.decoder);
        let decoder: String = if text::same(self.decoder.name(), running.as_str()) {
            running
        } else {
            self.decoder.name().to_owned().concat(" (").concat(running.as_str()).concat(")")
        };
        let renditions = rendition_picker(&playing.mode, entries);
        let choices = Backend::choices(names);
        let mut decoders: Vec<DecoderEntry> = Vec::new();
        let ghost all = backend::all_choices(backend::name_list(names@));
        let mut i: usize = 0;
        while i < choices.len()
            invariant
                i <= choices@.len(),
                choices@.len() == all.len(),
                forall|j: int| 0 <= j < choices@.len() ==> (#[trigger] choices@[j])@ == all[j],
                decoders@.len() == i,
                forall|j: int|
                    0 <= j < i ==> (#[trigger] decoders@[j]).choice@ == all[j]
                        && decoders@[j].selected == (self.decoder@ == all[j]),
            decreases choices@.len() - i,
        {
            let choice = choices[i];
            decoders.push(DecoderEntry { choice, selected: self.decoder.same_as(&choice) });
            i += 1;
        }
        Some(Controls { rendition, renditions, decoder, decoders, volume: playing.audio })
    }
}

/// Returns the entries of the rendition picker.
fn rendition_picker(mode: &RenditionMode, catalog: &Vec<CatalogEntry>) -> (res: Vec<RenditionEntry>)
    ensures
        Seq::new(res@.len(), |i: int| res@[i]@) == rendition_entries(mode@, catalog@),
{
    let mut res: Vec<RenditionEntry> = Vec::new();
    let auto: bool = matches!(mode, RenditionMode::Auto { .. });
    res.push(
        RenditionEntry {
            text: "Auto".to_owned(),
            selected: auto,
            mode: RenditionMode::Auto { max_height: None },
        },
    );
    let ghost all = rendition_entries(mode@, catalog@);
    let mut i: usize = 0;
    while i < catalog.len()
        invariant
            i <= catalog@.len(),
            all == rendition_entries(mode@, catalog@),
            res@.len() == i + 1,
            forall|j: int| 0 <= j <= i ==> (#[trigger] res@[j])@ == all[j],
        decreases catalog@.len() - i,
    {
        let entry = &catalog[i];
        let pinned: bool = match mode {
            RenditionMode::Pinned(name) => text::same(name.as_str(), entry.name.as_str()),
            _ => false,
        };
        let text: String = match &entry.label {
            Some(label) => label.clone(),
            None => entry.name.clone(),
        };
        assert(all[i + 1] == entry_of(mode@, catalog@[i as int]));
        res.push(
            RenditionEntry {
                text,
                selected: pinned,
                mode: RenditionMode::Pinned(entry.name.clone()),
            },
        );
        i += 1;
    }
    assert(Seq::new(res@.len(), |i: int| res@[i]@) =~= all);
    res
}

/// The overlay stays while the pointer moves or something pins it, and hides
/// once both have ended for longer than the idle time. It comes back at once.
pub proof fn law_the_overlay_hides_only_when_idle(cursor: CursorIdle, active: bool, now: u64)
    requires
        cursor.since <= now,
    ensures
        active ==> cursor.after(active, now).visible,
        cursor.visible && now - cursor.since <= 2000 ==> cursor.after(active, now).visible,
        !active && now - cursor.since > 2000 ==> !cursor.after(active, now).visible,
        !active ==> cursor.after(active, now).since == cursor.since,
{
}

/// One rendition at most is selected, and none while the choice is automatic.
pub proof fn law_one_rendition_is_selected(
    mode: RenditionModeView,
    catalog: Seq<CatalogEntry>,
    i: int,
    j: int,
)
    requires
        0 <= i < j < catalog.len() + 1,
        forall|a: int, b: int|
            0 <= a < b < catalog.len() ==> (#[trigger] catalog[a]).name@ != (
            #[trigger] catalog[b]).name@,
    ensures
        !(rendition_entries(mode, catalog)[i].selected && rendition_entries(
            mode,
            catalog,
        )[j].selected),
{
    let all = rendition_entries(mode, catalog);
    assert(all[j] == entry_of(mode, catalog[j - 1]));
    if i > 0 {
        assert(all[i] == entry_of(mode, catalog[i - 1]));
        assert(catalog[i - 1].name@ != catalog[j - 1].name@);
    }
}

/// The cursor is seen as soon as it moves, from when its rest is counted, and what
/// is hidden stays so until it moves.
pub proof fn law_a_moved_cursor_rests_anew(cursor: CursorIdle, now: u64)
    requires
        cursor.since <= now,
    ensures
        cursor.after(true, now) == (CursorIdle { visible: true, since: now }),
        !cursor.visible ==> !cursor.after(false, now).visible,
        cursor.after(false, now).visible ==> cursor.after(false, now) == cursor,
{
}

/// A link is told by how it goes, a relay link before all else, and by the rate
/// where one is known.
pub proof fn law_a_link_is_told_by_its_way(link: Serving)
    ensures
        link_text(None) == seq!["no link serves the broadcast"@],
        link_text(Some(link))[0] == if link.relay {
            "via a relay link"@
        } else if link.relayed {
            "relayed"@
        } else {
            "direct"@
        },
        link.arriving is None ==> link_text(Some(link)).len() == 1,
        link.arriving is Some ==> link_text(Some(link)).len() == 2 && link_text(Some(link))[1]
            == "arriving: "@ + link.arriving->0@,
{
}

/// A link is looked at at once, and then half a second apart at least.
pub proof fn law_a_link_is_looked_at_twice_a_second(at: u64, now: u64)
    ensures
        (Link { refreshed: None }).due(now),
        (Link { refreshed: Some(at) }).due(now) <==> now >= at + 500,
{
}

/// A pinned rendition is shown by its name, and any other with what it came to.
pub proof fn law_a_pinned_rendition_is_shown_by_name(playing: Playing)
    ensures
        playing.mode matches RenditionMode::Pinned(name) ==> rendition_label(playing) == name@,
        !(playing.mode is Pinned) && playing.rendition is Some ==> rendition_label(playing)
            == "Auto ("@ + playing.rendition->0@ + ")"@,
        !(playing.mode is Pinned) && playing.rendition is None ==> rendition_label(playing)
            == "Auto ("@ + ")"@,
{
    assert("Auto ("@ + Seq::<char>::empty() =~= "Auto ("@);
}

/// The list starts with the choice by itself, followed by each rendition of the
/// catalog. Choosing an entry pins its rendition, and the one that is pinned is
/// marked.
pub proof fn law_each_rendition_can_be_chosen(
    mode: RenditionModeView,
    catalog: Seq<CatalogEntry>,
    i: int,
)
    ensures
        ({
            let entries = rendition_entries(mode, catalog);
            &&& entries.len() == catalog.len() + 1
            &&& entries[0].text == "Auto"@
            &&& entries[0].selected <==> mode is Auto
            &&& entries[0].mode == (RenditionModeView::Auto { max_height: None })
            &&& 0 <= i < catalog.len() ==> {
                let entry = entries[i + 1];
                &&& entry.mode == RenditionModeView::Pinned(catalog[i].name@)
                &&& entry.selected <==> mode == entry.mode
                &&& catalog[i].label is Some ==> entry.text == catalog[i].label->0@
                &&& catalog[i].label is None ==> entry.text == catalog[i].name@
            }
        }),
{
}

/// The decoder is shown by the name it was chosen by, with what is running beside
/// it where that is another.
pub proof fn law_the_running_decoder_is_shown(choice: BackendView, running: Seq<char>)
    ensures
        choice.name() == running ==> decoder_label(choice, running) == running,
        choice.name() != running ==> decoder_label(choice, running) == choice.name() + " ("@
            + running + ")"@,
        or_empty(None) == Seq::<char>::empty(),
{
}

/// A text that is there is shown as it is.
pub proof fn law_a_known_text_is_shown(known: String)
    ensures
        or_empty(Some(known)) == known@,
{
}

} // verus!
