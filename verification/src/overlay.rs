//! Translucent stat bars painted over video.
//!
//! [`DebugOverlay`] is a bottom bar of collapsible sections made from the
//! snapshots a player and a local broadcast hand out. Those snapshots carry only
//! current values, so the overlay keeps the short history behind its sparklines
//! itself.

use std::collections::VecDeque;

use vstd::prelude::*;

use crate::stats;
use crate::stats::{
    audio_playback, capture_publish, net_playback, net_publish, render_playback, sent, Line,
    LineView, PlaybackStats, PlayerStatus, PublishStats, PublishStatus, Reading, Section,
    SectionView, Sent, StatCategory,
};
use crate::text;

verus! {

/// How many milliseconds pass between two points of a sparkline.
///
/// The overlay is drawn every frame, and recording at the frame rate would make
/// the length of the visible history depend on how fast the window repaints.
pub const SAMPLE_INTERVAL: u64 = 100;

/// Points kept per sparkline, twelve seconds at [`SAMPLE_INTERVAL`].
pub const HISTORY_LEN: usize = 120;

/// The recorded points of one figure, and when it was last fed.
#[derive(Debug)]
struct Series {
    key: String,
    values: VecDeque<u64>,
    last_tick: u64,
}

/// A series by its points, oldest first, and the tick that fed it last.
pub struct SeriesView {
    pub values: Seq<u64>,
    pub last_tick: u64,
}

impl View for Series {
    type V = SeriesView;

    closed spec fn view(&self) -> SeriesView {
        SeriesView { values: self.values@, last_tick: self.last_tick }
    }
}

/// The overlay's own record of the figures it plots.
///
/// Every series is a ring of at most [`HISTORY_LEN`] points, and a series not
/// fed for that many samples is dropped, so the history stays bounded however
/// many figures come and go.
#[derive(Debug)]
pub struct History {
    last_sample: Option<u64>,
    tick: u64,
    series: Vec<Series>,
}

/// A [`History`] as mathematical values.
pub struct HistoryView {
    /// When the last point was recorded, in milliseconds.
    pub last_sample: Option<u64>,
    /// How many points were recorded.
    pub tick: u64,
    /// The series by their keys.
    pub series: Map<Seq<char>, SeriesView>,
}

/// The series by their keys.
spec fn series_map(list: Seq<Series>) -> Map<Seq<char>, SeriesView>
    decreases list.len(),
{
    if list.len() == 0 {
        Map::empty()
    } else {
        series_map(list.drop_last()).insert(list.last().key@, list.last()@)
    }
}

/// Whether no two series have the same key.
spec fn keys_differ(list: Seq<Series>) -> bool {
    forall|i: int, j: int|
        0 <= i < j < list.len() ==> (#[trigger] list[i]).key@ != (#[trigger] list[j]).key@
}

impl View for History {
    type V = HistoryView;

    closed spec fn view(&self) -> HistoryView {
        HistoryView {
            last_sample: self.last_sample,
            tick: self.tick,
            series: series_map(self.series@),
        }
    }
}

/// The points of a series after one more: the newest, as many as are kept.
pub open spec fn ring(values: Seq<u64>, value: u64) -> Seq<u64> {
    if values.len() >= HISTORY_LEN {
        values.skip(1).push(value)
    } else {
        values.push(value)
    }
}

/// The series after a point of one figure.
pub open spec fn fed(
    series: Map<Seq<char>, SeriesView>,
    key: Seq<char>,
    value: u64,
    tick: u64,
) -> Map<Seq<char>, SeriesView> {
    let values = if series.dom().contains(key) {
        series[key].values
    } else {
        Seq::empty()
    };
    series.insert(key, SeriesView { values: ring(values, value), last_tick: tick })
}

/// The series after the points of these lines.
pub open spec fn fed_lines(
    series: Map<Seq<char>, SeriesView>,
    lines: Seq<LineView>,
    tick: u64,
) -> Map<Seq<char>, SeriesView>
    decreases lines.len(),
{
    if lines.len() == 0 {
        series
    } else {
        let before = fed_lines(series, lines.drop_last(), tick);
        match lines.last().plot {
            Some((key, value)) => fed(before, key, value, tick),
            None => before,
        }
    }
}

/// The lines of these sections, in order.
pub open spec fn all_lines(sections: Seq<SectionView>) -> Seq<LineView>
    decreases sections.len(),
{
    if sections.len() == 0 {
        seq![]
    } else {
        all_lines(sections.drop_last()) + sections.last().lines
    }
}

/// The series that were fed lately.
pub open spec fn lately(series: Map<Seq<char>, SeriesView>, tick: u64) -> Map<
    Seq<char>,
    SeriesView,
> {
    series.restrict(Set::new(|key: Seq<char>| tick - series[key].last_tick < HISTORY_LEN))
}

impl HistoryView {
    /// Whether a pass at time `now` records a point.
    pub open spec fn due(self, now: u64) -> bool {
        match self.last_sample {
            Some(last) => now - last >= SAMPLE_INTERVAL,
            None => true,
        }
    }

    /// The history after a pass over these lines at time `now`.
    pub open spec fn recorded(self, lines: Seq<LineView>, now: u64) -> HistoryView {
        if self.due(now) {
            let tick = (self.tick + 1) as u64;
            HistoryView {
                last_sample: Some(now),
                tick,
                series: lately(fed_lines(self.series, lines, tick), tick),
            }
        } else {
            self
        }
    }

    /// Whether no series is older than the history or longer than is kept.
    pub open spec fn bounded(self) -> bool {
        forall|key: Seq<char>| #[trigger]
            self.series.dom().contains(key) ==> self.series[key].last_tick <= self.tick
                && self.series[key].values.len() <= HISTORY_LEN
    }
}

/// Sections by their views.
pub open spec fn section_list(sections: Seq<Section>) -> Seq<SectionView> {
    Seq::new(sections.len(), |i: int| sections[i]@)
}

proof fn lemma_series_map(list: Seq<Series>)
    ensures
        forall|key: Seq<char>| #[trigger]
            series_map(list).dom().contains(key) ==> exists|i: int|
                0 <= i < list.len() && (#[trigger] list[i]).key@ == key && series_map(list)[key]
                    == list[i]@,
        keys_differ(list) ==> forall|i: int|
            0 <= i < list.len() ==> series_map(list).dom().contains((#[trigger] list[i]).key@)
                && series_map(list)[list[i].key@] == list[i]@,
    decreases list.len(),
{
    if list.len() > 0 {
        let rest = list.drop_last();
        lemma_series_map(rest);
        assert forall|key: Seq<char>| #[trigger] series_map(list).dom().contains(key) implies exists|
            i: int,
        |
            0 <= i < list.len() && (#[trigger] list[i]).key@ == key && series_map(list)[key]
                == list[i]@ by {
            if key == list.last().key@ {
                assert(list[list.len() - 1].key@ == key);
            } else {
                assert(series_map(rest).dom().contains(key));
                let i = choose|i: int|
                    0 <= i < rest.len() && (#[trigger] rest[i]).key@ == key && series_map(rest)[key]
                        == rest[i]@;
                assert(list[i] == rest[i]);
            }
        }
        if keys_differ(list) {
            assert(keys_differ(rest)) by {
                assert forall|i: int, j: int| 0 <= i < j < rest.len() implies (
                #[trigger] rest[i]).key@ != (#[trigger] rest[j]).key@ by {
                    assert(list[i].key@ != list[j].key@);
                }
            }
            assert forall|i: int| 0 <= i < list.len() implies series_map(list).dom().contains(
                (#[trigger] list[i]).key@,
            ) && series_map(list)[list[i].key@] == list[i]@ by {
                if i < rest.len() {
                    assert(rest[i] == list[i]);
                    assert(list[i].key@ != list[list.len() - 1].key@);
                }
            }
        }
    }
}

proof fn lemma_series_push(list: Seq<Series>, one: Series)
    ensures
        series_map(list.push(one)) == series_map(list).insert(one.key@, one@),
{
    assert(list.push(one).drop_last() =~= list);
}

impl Default for History {
    fn default() -> (res: Self)
        ensures
            res.wf(),
            res@ == (HistoryView { last_sample: None, tick: 0, series: Map::empty() }),
    {
        History { last_sample: None, tick: 0, series: Vec::new() }
    }
}

impl History {
    /// Whether the series have distinct keys and are within bounds.
    pub closed spec fn wf(self) -> bool {
        keys_differ(self.series@) && self@.bounded()
    }

    /// Returns the index of the series of this key, or how many there are.
    fn position(&self, key: &str) -> (res: usize)
        ensures
            res <= self.series@.len(),
            res < self.series@.len() ==> self.series@[res as int].key@ == key@,
            res == self.series@.len() ==> !series_map(self.series@).dom().contains(key@),
    {
        let mut i: usize = 0;
        while i < self.series.len()
            invariant
                i <= self.series@.len(),
                forall|j: int| 0 <= j < i ==> (#[trigger] self.series@[j]).key@ != key@,
            decreases self.series@.len() - i,
        {
            if text::same(self.series[i].key.as_str(), key) {
                return i;
            }
            i += 1;
        }
        proof {
            lemma_series_map(self.series@);
        }
        i
    }

    /// Appends a point to the series of `key`.
    fn feed(&mut self, key: &str, value: u64)
        requires
            keys_differ(old(self).series@),
        ensures
            keys_differ(final(self).series@),
            final(self).last_sample == old(self).last_sample,
            final(self).tick == old(self).tick,
            series_map(final(self).series@) == fed(
                series_map(old(self).series@),
                key@,
                value,
                old(self).tick,
            ),
    {
        let ghost before = self.series@;
        let tick: u64 = self.tick;
        let at: usize = self.position(key);
        proof {
            lemma_series_map(before);
        }
        if at == self.series.len() {
            let mut values: VecDeque<u64> = VecDeque::new();
            values.push_back(value);
            let one = Series { key: key.to_owned(), values, last_tick: tick };
            assert(one.values@ =~= ring(Seq::empty(), value));
            self.series.push(one);
            proof {
                lemma_series_push(before, one);
                assert forall|i: int, j: int| 0 <= i < j < self.series@.len() implies (
                #[trigger] self.series@[i]).key@ != (#[trigger] self.series@[j]).key@ by {
                    if j == before.len() {
                        assert(before[i].key@ != key@);
                    } else {
                        assert(before[i].key@ != before[j].key@);
                    }
                }
            }
            return;
        }
        let mut one = self.series.remove(at);
        let ghost old_values = one.values@;
        assert(old_values == before[at as int].values@);
        if one.values.len() >= HISTORY_LEN {
            let _ = one.values.pop_front();
            assert(one.values@ =~= old_values.skip(1));
        }
        one.values.push_back(value);
        one.last_tick = tick;
        assert(one.values@ =~= ring(old_values, value));
        let ghost rest = self.series@;
        self.series.push(one);
        proof {
            assert(rest =~= before.remove(at as int));
            assert forall|i: int, j: int| 0 <= i < j < self.series@.len() implies (
            #[trigger] self.series@[i]).key@ != (#[trigger] self.series@[j]).key@ by {
                let x = if i < at {
                    i
                } else {
                    i + 1
                };
                if j == rest.len() {
                    assert(self.series@[i] == before[x]);
                    assert(before[x].key@ != before[at as int].key@);
                } else {
                    let y = if j < at {
                        j
                    } else {
                        j + 1
                    };
                    assert(self.series@[i] == before[x] && self.series@[j] == before[y]);
                    assert(before[x].key@ != before[y].key@);
                }
            }
            lemma_series_push(rest, one);
            lemma_series_map(rest);
            assert(keys_differ(rest)) by {
                assert forall|i: int, j: int| 0 <= i < j < rest.len() implies (
                #[trigger] rest[i]).key@ != (#[trigger] rest[j]).key@ by {
                    assert(self.series@[i] == rest[i] && self.series@[j] == rest[j]);
                }
            }
            let target = fed(series_map(before), key@, value, tick);
            assert forall|other: Seq<char>| other != key@ implies #[trigger] series_map(
                rest,
            ).dom().contains(other) == series_map(before).dom().contains(other) && (series_map(
                rest,
            ).dom().contains(other) ==> series_map(rest)[other] == series_map(before)[other]) by {
                if series_map(rest).dom().contains(other) {
                    let i = choose|i: int|
                        0 <= i < rest.len() && (#[trigger] rest[i]).key@ == other && series_map(
                            rest,
                        )[other] == rest[i]@;
                    let x = if i < at {
                        i
                    } else {
                        i + 1
                    };
                    assert(before[x] == rest[i]);
                }
                if series_map(before).dom().contains(other) {
                    let x = choose|x: int|
                        0 <= x < before.len() && (#[trigger] before[x]).key@ == other && series_map(
                            before,
                        )[other] == before[x]@;
                    assert(x != at);
                    let i = if x < at {
                        x
                    } else {
                        x - 1
                    };
                    assert(rest[i] == before[x]);
                }
            }
            assert(series_map(before).dom().contains(key@));
            assert(series_map(self.series@) =~= target);
        }
    }

    /// Drops the series that were not fed lately.
    fn retain(&mut self)
        requires
            keys_differ(old(self).series@),
            forall|i: int|
                0 <= i < old(self).series@.len() ==> (#[trigger] old(self).series@[i]).last_tick
                    <= old(self).tick,
        ensures
            keys_differ(final(self).series@),
            final(self).last_sample == old(self).last_sample,
            final(self).tick == old(self).tick,
            series_map(final(self).series@) == lately(
                series_map(old(self).series@),
                old(self).tick,
            ),
    {
        let ghost before = self.series@;
        let ghost whole = series_map(before);
        let tick: u64 = self.tick;
        let mut i: usize = 0;
        proof {
            lemma_series_map(before);
        }
        while i < self.series.len()
            invariant
                i <= self.series@.len(),
                tick == self.tick,
                self.last_sample == old(self).last_sample,
                self.tick == old(self).tick,
                whole == series_map(before),
                keys_differ(before),
                keys_differ(self.series@),
                forall|k: int|
                    0 <= k < before.len() ==> whole.dom().contains((#[trigger] before[k]).key@)
                        && whole[before[k].key@] == before[k]@ && before[k].last_tick <= tick,
                forall|j: int|
                    0 <= j < self.series@.len() ==> (#[trigger] self.series@[j]).last_tick <= tick
                        && whole.dom().contains(self.series@[j].key@)
                        && whole[self.series@[j].key@] == self.series@[j]@,
                forall|j: int|
                    0 <= j < i ==> tick - (#[trigger] self.series@[j]).last_tick < HISTORY_LEN,
                forall|k: int|
                    0 <= k < before.len() && tick - (#[trigger] before[k]).last_tick < HISTORY_LEN
                        ==> self.series@.contains(before[k]),
            decreases self.series@.len() - i,
        {
            if tick - self.series[i].last_tick < HISTORY_LEN as u64 {
                i += 1;
            } else {
                let ghost list = self.series@;
                let _ = self.series.remove(i);
                proof {
                    let shorter = self.series@;
                    assert(shorter =~= list.remove(i as int));
                    assert forall|a: int, b: int| 0 <= a < b < shorter.len() implies (
                    #[trigger] shorter[a]).key@ != (#[trigger] shorter[b]).key@ by {
                        let x = if a < i {
                            a
                        } else {
                            a + 1
                        };
                        let y = if b < i {
                            b
                        } else {
                            b + 1
                        };
                        assert(shorter[a] == list[x] && shorter[b] == list[y]);
                        assert(list[x].key@ != list[y].key@);
                    }
                    assert forall|j: int| 0 <= j < shorter.len() implies (
                    #[trigger] shorter[j]).last_tick <= tick && whole.dom().contains(
                        shorter[j].key@,
                    ) && whole[shorter[j].key@] == shorter[j]@ by {
                        let x = if j < i {
                            j
                        } else {
                            j + 1
                        };
                        assert(shorter[j] == list[x]);
                    }
                    assert forall|k: int|
                        0 <= k < before.len() && tick - (#[trigger] before[k]).last_tick
                            < HISTORY_LEN implies shorter.contains(before[k]) by {
                        let x = choose|x: int| 0 <= x < list.len() && list[x] == before[k];
                        assert(x != i);
                        let j = if x < i {
                            x
                        } else {
                            x - 1
                        };
                        assert(shorter[j] == before[k]);
                    }
                }
            }
        }
        proof {
            let list = self.series@;
            let target = lately(whole, tick);
            lemma_series_map(list);
            assert forall|key: Seq<char>| series_map(list).dom().contains(key)
                == target.dom().contains(key) by {
                if series_map(list).dom().contains(key) {
                    let j = choose|j: int|
                        0 <= j < list.len() && (#[trigger] list[j]).key@ == key && series_map(
                            list,
                        )[key] == list[j]@;
                    assert(whole.dom().contains(list[j].key@));
                }
                if target.dom().contains(key) {
                    let k = choose|k: int|
                        0 <= k < before.len() && (#[trigger] before[k]).key@ == key && whole[key]
                            == before[k]@;
                    assert(tick - before[k].last_tick < HISTORY_LEN);
                    let j = choose|j: int| 0 <= j < list.len() && list[j] == before[k];
                    assert(series_map(list).dom().contains(list[j].key@));
                }
            }
            assert forall|key: Seq<char>| series_map(list).dom().contains(key) implies series_map(
                list,
            )[key] == target[key] by {
                let j = choose|j: int|
                    0 <= j < list.len() && (#[trigger] list[j]).key@ == key && series_map(
                        list,
                    )[key] == list[j]@;
                assert(whole[list[j].key@] == list[j]@);
            }
            assert(series_map(list) =~= target);
        }
    }

    /// Appends the current value of every plotted line, at most once per
    /// [`SAMPLE_INTERVAL`]. `now` is in milliseconds.
    pub fn record(&mut self, sections: &Vec<Section>, now: u64)
        requires
            old(self).wf(),
            old(self)@.tick < u64::MAX,
            old(self)@.last_sample is Some ==> old(self)@.last_sample->0 <= now,
        ensures
            final(self).wf(),
            final(self)@ == old(self)@.recorded(all_lines(section_list(sections@)), now),
    {
        if let Some(last) = self.last_sample {
            if now - last < SAMPLE_INTERVAL {
                return;
            }
        }
        self.last_sample = Some(now);
        self.tick = self.tick + 1;
        let ghost start = series_map(self.series@);
        let ghost tick = self.tick;
        let ghost all = section_list(sections@);
        let mut i: usize = 0;
        assert(all.take(0) =~= seq![]);
        while i < sections.len()
            invariant
                i <= sections@.len(),
                all == section_list(sections@),
                self.tick == tick,
                self.last_sample == Some(now),
                keys_differ(self.series@),
                series_map(self.series@) == fed_lines(start, all_lines(all.take(i as int)), tick),
            decreases sections@.len() - i,
        {
            let ghost done = all_lines(all.take(i as int));
            let ghost more = all[i as int].lines;
            let lines: &Vec<Line> = &sections[i].lines;
            assert(more == stats::line_list(lines@));
            let mut j: usize = 0;
            assert(done + more.take(0) =~= done);
            while j < lines.len()
                invariant
                    j <= lines@.len(),
                    more == stats::line_list(lines@),
                    self.tick == tick,
                    self.last_sample == Some(now),
                    keys_differ(self.series@),
                    series_map(self.series@) == fed_lines(
                        start,
                        done + more.take(j as int),
                        tick,
                    ),
                decreases lines@.len() - j,
            {
                let ghost longer = done + more.take(j + 1);
                assert(longer.drop_last() =~= done + more.take(j as int));
                assert(longer.last() == lines@[j as int]@);
                if let Some((key, value)) = &lines[j].plot {
                    self.feed(key.as_str(), *value);
                }
                j += 1;
            }
            assert(more.take(more.len() as int) =~= more);
            assert(all.take(i + 1).drop_last() =~= all.take(i as int));
            assert(all.take(i + 1).last() == all[i as int]);
            i += 1;
        }
        assert(all.take(all.len() as int) =~= all);
        proof {
            let fedup = series_map(self.series@);
            lemma_fed_bounded(start, all_lines(all), tick);
            lemma_series_map(self.series@);
            assert forall|k: int| 0 <= k < self.series@.len() implies (
            #[trigger] self.series@[k]).last_tick <= self.tick by {
                assert(fedup.dom().contains(self.series@[k].key@));
            }
        }
        self.retain();
    }

    /// Returns the recorded points of `key`, oldest first.
    pub fn get(&self, key: &str) -> (res: Option<&VecDeque<u64>>)
        requires
            self.wf(),
        ensures
            match res {
                Some(values) => self@.series.dom().contains(key@) && self@.series[key@].values
                    == values@,
                None => !self@.series.dom().contains(key@),
            },
    {
        let at: usize = self.position(key);
        proof {
            lemma_series_map(self.series@);
        }
        if at < self.series.len() {
            Some(&self.series[at].values)
        } else {
            None
        }
    }
}

/// Feeding keeps every series within bounds.
proof fn lemma_fed_bounded(series: Map<Seq<char>, SeriesView>, lines: Seq<LineView>, tick: u64)
    requires
        forall|key: Seq<char>| #[trigger]
            series.dom().contains(key) ==> series[key].last_tick <= tick
                && series[key].values.len() <= HISTORY_LEN,
    ensures
        ({
            let after = fed_lines(series, lines, tick);
            forall|key: Seq<char>| #[trigger]
                after.dom().contains(key) ==> after[key].last_tick <= tick
                    && after[key].values.len() <= HISTORY_LEN
        }),
    decreases lines.len(),
{
    if lines.len() > 0 {
        let before = fed_lines(series, lines.drop_last(), tick);
        let after = fed_lines(series, lines, tick);
        lemma_fed_bounded(series, lines.drop_last(), tick);
        assert forall|key: Seq<char>| #[trigger] after.dom().contains(key) implies after[key].last_tick
            <= tick && after[key].values.len() <= HISTORY_LEN by {
            if let Some((one, value)) = lines.last().plot {
                if key != one {
                    assert(before.dom().contains(key));
                } else if before.dom().contains(one) {
                    assert(before[one].values.len() <= HISTORY_LEN);
                }
            } else {
                assert(before.dom().contains(key));
            }
        }
    }
}

/// Consolidated debug overlay with a persistent bottom bar and click-to-expand
/// detail panels.
///
/// The bottom bar shows every enabled section that has something to say, each
/// with a few key figures. Clicking a section toggles a detail panel above the
/// bar with every figure, and a sparkline next to those that change over time.
/// Several panels can be open at once.
#[derive(Debug)]
pub struct DebugOverlay {
    categories: Vec<(StatCategory, bool)>,
    visible: bool,
    history: History,
}

/// A [`DebugOverlay`] as mathematical values.
pub struct OverlayView {
    /// The enabled categories in bar order, each with whether its panel is
    /// open.
    pub categories: Seq<(StatCategory, bool)>,
    pub visible: bool,
    pub history: HistoryView,
}

impl View for DebugOverlay {
    type V = OverlayView;

    closed spec fn view(&self) -> OverlayView {
        OverlayView {
            categories: self.categories@,
            visible: self.visible,
            history: self.history@,
        }
    }
}

impl OverlayView {
    /// Whether the panel of a category is open.
    pub open spec fn expanded(self, category: StatCategory) -> bool {
        self.categories.contains((category, true))
    }

    /// The overlay after a click on the section of a category.
    pub open spec fn clicked(self, category: StatCategory) -> OverlayView {
        OverlayView {
            categories: Seq::new(
                self.categories.len(),
                |i: int|
                    {
                        let (one, open) = self.categories[i];
                        (
                            one,
                            if one == category {
                                !open
                            } else {
                                open
                            },
                        )
                    },
            ),
            ..self
        }
    }
}

/// A player's section of a category, if it has one.
pub open spec fn playback_section(
    category: StatCategory,
    stats: PlaybackStats,
    status: PlayerStatus,
) -> Option<SectionView> {
    match category {
        StatCategory::Net => Some(stats::net_section(stats.network)),
        StatCategory::Render => Some(
            stats::section_of(
                StatCategory::Render,
                stats::render_parts(stats, status),
                stats::render_lines(stats, status),
            ),
        ),
        StatCategory::Audio => Some(
            stats::section_of(
                StatCategory::Audio,
                stats::audio_parts(stats),
                seq![stats::slot_text("audio"@, status.audio)] + match stats.audio {
                    Some(audio) => stats::audio_lines(audio),
                    None => seq![],
                } + seq![
                    stats::plotted(
                        "audio.latency"@,
                        "latency: "@ + stats.latency.long@ + " ms"@,
                        stats.latency.bits,
                        stats::low(stats.latency.bits, stats::HUNDRED, stats::TWO_HUNDRED),
                    ),
                ],
            ),
        ),
        StatCategory::Capture => None,
        StatCategory::Time => None,
    }
}

/// A player's sections of these categories, in order.
pub open spec fn playback_sections(
    categories: Seq<(StatCategory, bool)>,
    stats: PlaybackStats,
    status: PlayerStatus,
) -> Seq<SectionView>
    decreases categories.len(),
{
    if categories.len() == 0 {
        seq![]
    } else {
        playback_sections(categories.drop_last(), stats, status) + stats::listed(
            playback_section(categories.last().0, stats, status),
        )
    }
}

/// A broadcast's sections of these categories, in order, given its NET section.
pub open spec fn publish_sections(
    categories: Seq<(StatCategory, bool)>,
    stats: PublishStats,
    status: PublishStatus,
    net: SectionView,
) -> Seq<SectionView>
    decreases categories.len(),
{
    if categories.len() == 0 {
        seq![]
    } else {
        publish_sections(categories.drop_last(), stats, status, net) + stats::listed(
            match categories.last().0 {
                StatCategory::Capture => Some(
                    stats::section_of(
                        StatCategory::Capture,
                        stats::capture_parts(stats, status),
                        stats::capture_lines(stats, status),
                    ),
                ),
                StatCategory::Net => Some(net),
                _ => None,
            },
        )
    }
}

/// Appends a section.
fn add_section(sections: &mut Vec<Section>, section: Section)
    ensures
        section_list(final(sections)@) == section_list(old(sections)@) + seq![section@],
{
    let ghost before = section_list(sections@);
    sections.push(section);
    assert(section_list(sections@) =~= before + seq![section@]);
}

impl DebugOverlay {
    /// Whether the history behind the sparklines is within bounds.
    pub closed spec fn wf(self) -> bool {
        self.history.wf()
    }

    /// Creates a new overlay with the given categories enabled, all collapsed.
    pub fn new(categories: &[StatCategory]) -> (res: Self)
        ensures
            res.wf(),
            res@ == (OverlayView {
                categories: Seq::new(categories@.len(), |i: int| (categories@[i], false)),
                visible: true,
                history: HistoryView { last_sample: None, tick: 0, series: Map::empty() },
            }),
    {
        let mut list: Vec<(StatCategory, bool)> = Vec::new();
        let mut i: usize = 0;
        while i < categories.len()
            invariant
                i <= categories@.len(),
                list@ =~= Seq::new(i as nat, |j: int| (categories@[j], false)),
            decreases categories@.len() - i,
        {
            list.push((categories[i], false));
            i += 1;
        }
        DebugOverlay { categories: list, visible: true, history: History::default() }
    }

    /// Toggles overall visibility.
    pub fn toggle(&mut self)
        requires
            old(self).wf(),
        ensures
            final(self).wf(),
            final(self)@ == (OverlayView { visible: !old(self)@.visible, ..old(self)@ }),
    {
        self.visible = !self.visible;
    }

    /// Returns true if any detail panel is currently expanded.
    pub fn any_expanded(&self) -> (res: bool)
        ensures
            res == exists|category: StatCategory| self@.expanded(category),
    {
        let mut i: usize = 0;
        while i < self.categories.len()
            invariant
                i <= self.categories@.len(),
                forall|j: int| 0 <= j < i ==> !(#[trigger] self.categories@[j]).1,
            decreases self.categories@.len() - i,
        {
            if self.categories[i].1 {
                proof {
                    let category = self.categories@[i as int].0;
                    assert(self.categories@[i as int] == (category, true));
                    assert(self@.expanded(category));
                }
                return true;
            }
            i += 1;
        }
        proof {
            assert forall|category: StatCategory| !self@.expanded(category) by {
                if self@.expanded(category) {
                    let at = choose|at: int|
                        0 <= at < self.categories@.len() && self.categories@[at] == (
                            category,
                            true,
                        );
                    assert(self.categories@[at].1);
                }
            }
        }
        false
    }

    /// Returns whether the panel of a category is open.
    pub fn is_expanded(&self, category: StatCategory) -> (res: bool)
        ensures
            res == self@.expanded(category),
    {
        let mut i: usize = 0;
        while i < self.categories.len()
            invariant
                i <= self.categories@.len(),
                forall|j: int| 0 <= j < i ==> #[trigger] self.categories@[j] != (category, true),
            decreases self.categories@.len() - i,
        {
            if self.categories[i].0 == category && self.categories[i].1 {
                assert(self.categories@[i as int] == (category, true));
                return true;
            }
            i += 1;
        }
        false
    }

    /// Returns whether the TIME panel is open.
    pub fn timeline_open(&self) -> (res: bool)
        ensures
            res == self@.expanded(StatCategory::Time),
    {
        self.is_expanded(StatCategory::Time)
    }

    /// Returns whether a section's panel is drawn: it is open and not empty.
    pub fn shows_panel(&self, section: &Section) -> (res: bool)
        ensures
            res == (section.lines@.len() > 0 && self@.expanded(section.category)),
    {
        section.lines.len() > 0 && self.is_expanded(section.category)
    }

    /// Takes a click on the section of a category.
    pub fn click(&mut self, category: StatCategory)
        requires
            old(self).wf(),
        ensures
            final(self).wf(),
            final(self)@ == old(self)@.clicked(category),
    {
        let ghost before = self.categories@;
        let mut i: usize = 0;
        while i < self.categories.len()
            invariant
                i <= self.categories@.len() == before.len(),
                before == old(self).categories@,
                self.visible == old(self).visible,
                self.history == old(self).history,
                forall|j: int|
                    0 <= j < i ==> #[trigger] self.categories@[j] == old(self)@.clicked(
                        category,
                    ).categories[j],
                forall|j: int| i <= j < before.len() ==> #[trigger] self.categories@[j] == before[j],
            decreases self.categories@.len() - i,
        {
            let (one, open) = self.categories[i];
            if one == category {
                self.categories.set(i, (one, !open));
            }
            i += 1;
        }
        assert(self.categories@ =~= old(self)@.clicked(category).categories);
    }

    /// Records and returns the sections for a player, or `None` while the
    /// overlay is hidden. `now` is in milliseconds.
    ///
    /// Uses the NET, RENDER and AUDIO categories; CAPTURE has nothing to show
    /// for a player and is left out of the bar. TIME is drawn from the player's
    /// timeline and makes no section of figures.
    pub fn show_playback(
        &mut self,
        stats: &PlaybackStats,
        status: &PlayerStatus,
        now: u64,
    ) -> (res: Option<Vec<Section>>)
        requires
            old(self).wf(),
            old(self)@.history.tick < u64::MAX,
            old(self)@.history.last_sample is Some ==> old(self)@.history.last_sample->0 <= now,
        ensures
            final(self).wf(),
            match res {
                Some(sections) => {
                    &&& old(self)@.visible
                    &&& section_list(sections@) == playback_sections(
                        old(self)@.categories,
                        *stats,
                        *status,
                    )
                    &&& final(self)@ == (OverlayView {
                        history: old(self)@.history.recorded(
                            all_lines(section_list(sections@)),
                            now,
                        ),
                        ..old(self)@
                    })
                },
                None => !old(self)@.visible && final(self)@ == old(self)@,
            },
    {
        if !self.visible {
            return None;
        }
        let ghost all = self.categories@;
        let mut sections: Vec<Section> = Vec::new();
        let mut i: usize = 0;
        assert(all.take(0) =~= seq![]);
        assert(section_list(sections@) =~= seq![]);
        while i < self.categories.len()
            invariant
                i <= self.categories@.len(),
                all == self.categories@,
                section_list(sections@) == playback_sections(all.take(i as int), *stats, *status),
            decreases self.categories@.len() - i,
        {
            assert(all.take(i + 1).drop_last() =~= all.take(i as int));
            match self.categories[i].0 {
                StatCategory::Net => add_section(&mut sections, net_playback(&stats.network)),
                StatCategory::Render => add_section(&mut sections, render_playback(stats, status)),
                StatCategory::Audio => add_section(&mut sections, audio_playback(stats, status)),
                StatCategory::Capture => {},
                StatCategory::Time => {},
            }
            assert(section_list(sections@) =~= playback_sections(all.take(i + 1), *stats, *status));
            i += 1;
        }
        assert(all.take(all.len() as int) =~= all);
        self.history.record(&sections, now);
        Some(sections)
    }

    /// Records and returns the sections for a local broadcast, or `None` while
    /// the overlay is hidden. `now` is in milliseconds.
    ///
    /// Uses the CAPTURE and NET categories. NET shows the encoded video the
    /// broadcast sends, summed over its renditions, since the publish side
    /// carries no link figures: `total` is the rate of what [`sent`] returns
    /// with its texts, and `size` the text of its bytes. RENDER, AUDIO and
    /// TIME are left out of the bar.
    pub fn show_publish(
        &mut self,
        stats: &PublishStats,
        status: &PublishStatus,
        total: &Reading,
        size: &str,
        now: u64,
    ) -> (res: Option<Vec<Section>>)
        requires
            old(self).wf(),
            old(self)@.history.tick < u64::MAX,
            old(self)@.history.last_sample is Some ==> old(self)@.history.last_sample->0 <= now,
            stats::rate_sum(stats.renditions@) <= u64::MAX,
            stats::byte_sum(stats.renditions@) <= u64::MAX,
        ensures
            final(self).wf(),
            match res {
                Some(sections) => {
                    &&& old(self)@.visible
                    &&& section_list(sections@) == publish_sections(
                        old(self)@.categories,
                        *stats,
                        *status,
                        stats::net_out(
                            (Sent {
                                renditions: stats::rate_count(stats.renditions@) as usize,
                                bps: stats::rate_sum(stats.renditions@) as u64,
                                bytes: stats::byte_sum(stats.renditions@) as u64,
                            }),
                            *total,
                            size@,
                        ),
                    )
                    &&& final(self)@ == (OverlayView {
                        history: old(self)@.history.recorded(
                            all_lines(section_list(sections@)),
                            now,
                        ),
                        ..old(self)@
                    })
                },
                None => !old(self)@.visible && final(self)@ == old(self)@,
            },
    {
        if !self.visible {
            return None;
        }
        let out = sent(&stats.renditions);
        let ghost net = stats::net_out(out, *total, size@);
        let ghost all = self.categories@;
        let mut sections: Vec<Section> = Vec::new();
        let mut i: usize = 0;
        assert(all.take(0) =~= seq![]);
        assert(section_list(sections@) =~= seq![]);
        while i < self.categories.len()
            invariant
                i <= self.categories@.len(),
                all == self.categories@,
                net == stats::net_out(out, *total, size@),
                section_list(sections@) == publish_sections(
                    all.take(i as int),
                    *stats,
                    *status,
                    net,
                ),
            decreases self.categories@.len() - i,
        {
            assert(all.take(i + 1).drop_last() =~= all.take(i as int));
            match self.categories[i].0 {
                StatCategory::Capture => add_section(&mut sections, capture_publish(stats, status)),
                StatCategory::Net => add_section(&mut sections, net_publish(out, total, size)),
                StatCategory::Render => {},
                StatCategory::Audio => {},
                StatCategory::Time => {},
            }
            assert(section_list(sections@) =~= publish_sections(
                all.take(i + 1),
                *stats,
                *status,
                net,
            ));
            i += 1;
        }
        assert(all.take(all.len() as int) =~= all);
        self.history.record(&sections, now);
        Some(sections)
    }

    /// Returns the points of a line's sparkline, for a line with a history of at
    /// least two.
    pub fn sparkline(&self, line: &Line) -> (res: Option<&VecDeque<u64>>)
        requires
            self.wf(),
        ensures
            match line@.plot {
                None => res is None,
                Some((key, _)) => match res {
                    Some(values) => self@.history.series.dom().contains(key)
                        && self@.history.series[key].values == values@ && values@.len() >= 2,
                    None => self@.history.series.dom().contains(key)
                        ==> self@.history.series[key].values.len() < 2,
                },
            },
    {
        if let Some((key, _)) = &line.plot {
            if let Some(values) = self.history.get(key.as_str()) {
                if values.len() >= 2 {
                    return Some(values);
                }
            }
        }
        None
    }
}

/// A pass keeps the history within bounds: no series holds more points than are
/// kept, and none lives on that was not fed for as many samples.
pub proof fn law_the_history_stays_bounded(history: HistoryView, lines: Seq<LineView>, now: u64)
    requires
        history.bounded(),
        history.tick < u64::MAX,
    ensures
        history.recorded(lines, now).bounded(),
        history.due(now) ==> forall|key: Seq<char>| #[trigger]
            history.recorded(lines, now).series.dom().contains(key) ==> history.recorded(
                lines,
                now,
            ).tick - history.recorded(lines, now).series[key].last_tick < HISTORY_LEN,
{
    if history.due(now) {
        let tick = (history.tick + 1) as u64;
        lemma_fed_bounded(history.series, lines, tick);
    }
}

/// Two clicks on a section leave its panel as it was, and a click changes no
/// other.
pub proof fn law_a_click_toggles_one_panel(
    overlay: OverlayView,
    category: StatCategory,
    other: StatCategory,
)
    ensures
        overlay.clicked(category).clicked(category) == overlay,
        other != category ==> overlay.clicked(category).expanded(other) == overlay.expanded(other),
{
    let once = overlay.clicked(category);
    assert(once.clicked(category).categories =~= overlay.categories);
    if other != category {
        if overlay.expanded(other) {
            let at = choose|at: int|
                0 <= at < overlay.categories.len() && overlay.categories[at] == (other, true);
            assert(once.categories[at] == (other, true));
        }
        if once.expanded(other) {
            let at = choose|at: int|
                0 <= at < once.categories.len() && once.categories[at] == (other, true);
            assert(overlay.categories[at] == (other, true));
        }
    }
}

/// A value is put last. The values before it stay in order, and only the oldest
/// goes once there are 120 of them.
pub proof fn law_the_oldest_value_goes_first(values: Seq<u64>, value: u64, i: int)
    requires
        values.len() <= 120,
    ensures
        ({
            let after = ring(values, value);
            &&& after.last() == value
            &&& values.len() < 120 ==> after.len() == values.len() + 1
            &&& values.len() == 120 ==> after.len() == 120
            &&& 0 <= i < after.len() - 1 ==> after[i] == values[values.len() - after.len() + 1 + i]
        }),
{
}

/// A value goes to its own series, which starts with it where there was none. The
/// other series stay.
pub proof fn law_a_value_goes_to_its_series(
    series: Map<Seq<char>, SeriesView>,
    key: Seq<char>,
    value: u64,
    tick: u64,
    other: Seq<char>,
)
    ensures
        ({
            let after = fed(series, key, value, tick);
            &&& after.dom().contains(key)
            &&& after[key].last_tick == tick
            &&& after[key].values.last() == value
            &&& !series.dom().contains(key) ==> after[key].values == seq![value]
            &&& series.dom().contains(key) ==> after[key].values == ring(series[key].values, value)
            &&& other != key ==> after.dom().contains(other) == series.dom().contains(other)
            &&& other != key && series.dom().contains(other) ==> after[other] == series[other]
        }),
{
    let after = fed(series, key, value, tick);
    if !series.dom().contains(key) {
        assert(after[key].values =~= seq![value]);
    }
}

/// Each plotted line feeds its series, one after the other, and a line without a
/// plot feeds none.
pub proof fn law_plotted_lines_are_fed_in_turn(
    series: Map<Seq<char>, SeriesView>,
    lines: Seq<LineView>,
    line: LineView,
    key: Seq<char>,
    value: u64,
    tick: u64,
)
    ensures
        fed_lines(series, Seq::empty(), tick) == series,
        line.plot is None ==> fed_lines(series, lines.push(line), tick) == fed_lines(
            series,
            lines,
            tick,
        ),
        line.plot == Some((key, value)) ==> fed_lines(series, lines.push(line), tick) == fed(
            fed_lines(series, lines, tick),
            key,
            value,
            tick,
        ),
{
    assert(lines.push(line).drop_last() =~= lines);
}

/// The lines of every section count, in the order of the sections.
pub proof fn law_all_sections_give_their_lines(
    before: Seq<SectionView>,
    section: SectionView,
    after: Seq<SectionView>,
)
    ensures
        all_lines(before + seq![section] + after) == all_lines(before) + section.lines + all_lines(
            after,
        ),
    decreases after.len(),
{
    let all = before + seq![section] + after;
    if after.len() == 0 {
        assert(all.drop_last() =~= before);
        assert(all_lines(all) =~= all_lines(before) + section.lines + all_lines(after));
    } else {
        assert(all.drop_last() =~= before + seq![section] + after.drop_last());
        law_all_sections_give_their_lines(before, section, after.drop_last());
        assert(all_lines(all) =~= all_lines(before) + section.lines + all_lines(after));
    }
}

/// A series is forgotten once it has not been fed for 120 ticks, and is kept as it
/// is until then.
pub proof fn law_a_series_is_kept_while_it_is_fed(
    series: Map<Seq<char>, SeriesView>,
    tick: u64,
    key: Seq<char>,
)
    ensures
        lately(series, tick).dom().contains(key) <==> series.dom().contains(key) && tick
            < series[key].last_tick + 120,
        lately(series, tick).dom().contains(key) ==> lately(series, tick)[key] == series[key],
{
}

/// Samples are taken a tenth of a second apart at least. Between two nothing
/// changes, and each counts one tick.
pub proof fn law_samples_keep_their_distance(history: HistoryView, lines: Seq<LineView>, now: u64, again: u64)
    requires
        history.tick < u64::MAX,
    ensures
        history.last_sample is None ==> history.due(now),
        history.last_sample is Some ==> (history.due(now) <==> now >= history.last_sample->0 + 100),
        !history.due(now) ==> history.recorded(lines, now) == history,
        history.due(now) ==> history.recorded(lines, now).last_sample == Some(now)
            && history.recorded(lines, now).tick == history.tick + 1,
        history.due(now) ==> (history.recorded(lines, now).due(again) <==> again >= now + 100),
{
}

/// What a sample plots last under a key is the newest value of its series.
pub proof fn law_a_sample_is_the_newest_value(
    history: HistoryView,
    lines: Seq<LineView>,
    line: LineView,
    key: Seq<char>,
    value: u64,
    now: u64,
)
    requires
        history.tick < u64::MAX,
        history.due(now),
        line.plot == Some((key, value)),
    ensures
        ({
            let after = history.recorded(lines.push(line), now);
            &&& after.series.dom().contains(key)
            &&& after.series[key].values.last() == value
            &&& after.series[key].last_tick == after.tick
        }),
{
    let tick = (history.tick + 1) as u64;
    law_plotted_lines_are_fed_in_turn(history.series, lines, line, key, value, tick);
    law_a_value_goes_to_its_series(
        fed_lines(history.series, lines, tick),
        key,
        value,
        tick,
        key,
    );
    law_a_series_is_kept_while_it_is_fed(
        fed_lines(history.series, lines.push(line), tick),
        tick,
        key,
    );
}

/// A click opens the panel that was closed and closes the one that was open, and
/// leaves everything else.
pub proof fn law_a_click_opens_and_closes(
    overlay: OverlayView,
    category: StatCategory,
    at: int,
)
    requires
        0 <= at < overlay.categories.len(),
        overlay.categories[at].0 == category,
        forall|i: int|
            0 <= i < overlay.categories.len() && i != at ==> (
            #[trigger] overlay.categories[i]).0 != category,
    ensures
        overlay.clicked(category).expanded(category) == !overlay.expanded(category),
        overlay.expanded(category) == overlay.categories[at].1,
        overlay.clicked(category).visible == overlay.visible,
        overlay.clicked(category).history == overlay.history,
        overlay.clicked(category).categories.len() == overlay.categories.len(),
{
    let after = overlay.clicked(category);
    if overlay.categories[at].1 {
        assert(overlay.categories[at] == (category, true));
        assert(overlay.expanded(category));
        if after.expanded(category) {
            let i = after.categories.index_of((category, true));
            assert(after.categories[i] == (category, true));
            assert(overlay.categories[i].0 == category);
        }
    } else {
        assert(after.categories[at] == (category, true));
        assert(after.expanded(category));
        if overlay.expanded(category) {
            let i = overlay.categories.index_of((category, true));
            assert(overlay.categories[i] == (category, true));
        }
    }
}

/// A player has a section for the link, the picture and the sound, each under its
/// own category, and for nothing else.
pub proof fn law_a_player_has_three_sections(
    category: StatCategory,
    stats: PlaybackStats,
    status: PlayerStatus,
)
    ensures
        playback_section(category, stats, status) is Some <==> category is Net || category is Render
            || category is Audio,
        playback_section(category, stats, status) is Some ==> playback_section(
            category,
            stats,
            status,
        )->0.category == category,
        category is Net ==> playback_section(category, stats, status) == Some(
            stats::net_section(stats.network),
        ),
        category is Render ==> playback_section(category, stats, status)->0.lines
            == stats::render_lines(stats, status),
        category is Render ==> playback_section(category, stats, status)->0.summary
            == stats::spaced("RENDER"@, stats::render_parts(stats, status)),
        category is Audio ==> playback_section(category, stats, status)->0.summary
            == stats::spaced("AUDIO"@, stats::audio_parts(stats)),
        category is Audio ==> playback_section(category, stats, status)->0.lines[0]
            == stats::slot_text("audio"@, status.audio),
        category is Audio && stats.audio is Some ==> playback_section(
            category,
            stats,
            status,
        )->0.lines.drop_last().skip(1) == stats::audio_lines(stats.audio->0),
        category is Audio ==> playback_section(category, stats, status)->0.lines.last()
            == (LineView {
            text: "latency: "@ + stats.latency.long@ + " ms"@,
            grade: stats::low(stats.latency.bits, stats::HUNDRED, stats::TWO_HUNDRED),
            plot: Some(("audio.latency"@, stats.latency.bits)),
        }),
{
    if category is Audio && stats.audio is Some {
        assert(playback_section(category, stats, status)->0.lines.drop_last().skip(1)
            =~= stats::audio_lines(stats.audio->0));
    }
}

/// The sections of a player stand in the order of their categories.
pub proof fn law_player_sections_keep_their_order(
    before: Seq<(StatCategory, bool)>,
    category: StatCategory,
    open: bool,
    after: Seq<(StatCategory, bool)>,
    stats: PlaybackStats,
    status: PlayerStatus,
)
    ensures
        playback_sections(before + seq![(category, open)] + after, stats, status) == playback_sections(
            before,
            stats,
            status,
        ) + (match playback_section(category, stats, status) {
            Some(section) => seq![section],
            None => Seq::<SectionView>::empty(),
        }) + playback_sections(after, stats, status),
    decreases after.len(),
{
    let all = before + seq![(category, open)] + after;
    if after.len() == 0 {
        assert(all.drop_last() =~= before);
    } else {
        assert(all.drop_last() =~= before + seq![(category, open)] + after.drop_last());
        law_player_sections_keep_their_order(before, category, open, after.drop_last(), stats, status);
    }
    assert(playback_sections(all, stats, status) =~= playback_sections(before, stats, status) + (
    match playback_section(category, stats, status) {
        Some(section) => seq![section],
        None => Seq::<SectionView>::empty(),
    }) + playback_sections(after, stats, status));
}

/// A publisher has a section for what it captures and one for the link, in the
/// order of their categories, and for nothing else.
pub proof fn law_publisher_sections_keep_their_order(
    before: Seq<(StatCategory, bool)>,
    category: StatCategory,
    open: bool,
    after: Seq<(StatCategory, bool)>,
    stats: PublishStats,
    status: PublishStatus,
    net: SectionView,
)
    ensures
        ({
            let sections = publish_sections(before + seq![(category, open)] + after, stats, status, net);
            let left = publish_sections(before, stats, status, net);
            let right = publish_sections(after, stats, status, net);
            &&& category is Net ==> sections == left + seq![net] + right
            &&& category is Capture ==> sections.len() == left.len() + 1 + right.len()
                && sections.take(left.len() as int) == left && sections.skip(left.len() as int + 1)
                == right && sections[left.len() as int] == (SectionView {
                category: StatCategory::Capture,
                summary: stats::spaced("CAPTURE"@, stats::capture_parts(stats, status)),
                lines: stats::capture_lines(stats, status),
            })
            &&& !(category is Net) && !(category is Capture) ==> sections == left + right
        }),
    decreases after.len(),
{
    let all = before + seq![(category, open)] + after;
    let made = stats::section_of(
        StatCategory::Capture,
        stats::capture_parts(stats, status),
        stats::capture_lines(stats, status),
    );
    let middle = match category {
        StatCategory::Capture => seq![made],
        StatCategory::Net => seq![net],
        _ => Seq::<SectionView>::empty(),
    };
    lemma_publish_sections(before, category, open, after, stats, status, net);
    let left = publish_sections(before, stats, status, net);
    let right = publish_sections(after, stats, status, net);
    let sections = left + middle + right;
    assert(publish_sections(all, stats, status, net) == sections);
    if category is Capture {
        assert(sections.take(left.len() as int) =~= left);
        assert(sections.skip(left.len() as int + 1) =~= right);
    }
    if !(category is Net) && !(category is Capture) {
        assert(sections =~= left + right);
    }
}

/// What the categories before and after one give stays around what it gives.
proof fn lemma_publish_sections(
    before: Seq<(StatCategory, bool)>,
    category: StatCategory,
    open: bool,
    after: Seq<(StatCategory, bool)>,
    stats: PublishStats,
    status: PublishStatus,
    net: SectionView,
)
    ensures
        publish_sections(before + seq![(category, open)] + after, stats, status, net) == publish_sections(
            before,
            stats,
            status,
            net,
        ) + (match category {
            StatCategory::Capture => seq![
                stats::section_of(
                    StatCategory::Capture,
                    stats::capture_parts(stats, status),
                    stats::capture_lines(stats, status),
                ),
            ],
            StatCategory::Net => seq![net],
            _ => Seq::<SectionView>::empty(),
        }) + publish_sections(after, stats, status, net),
    decreases after.len(),
{
    let all = before + seq![(category, open)] + after;
    if after.len() == 0 {
        assert(all.drop_last() =~= before);
    } else {
        assert(all.drop_last() =~= before + seq![(category, open)] + after.drop_last());
        lemma_publish_sections(before, category, open, after.drop_last(), stats, status, net);
    }
    assert(publish_sections(all, stats, status, net) =~= publish_sections(
        before,
        stats,
        status,
        net,
    ) + (match category {
        StatCategory::Capture => seq![
            stats::section_of(
                StatCategory::Capture,
                stats::capture_parts(stats, status),
                stats::capture_lines(stats, status),
            ),
        ],
        StatCategory::Net => seq![net],
        _ => Seq::<SectionView>::empty(),
    }) + publish_sections(after, stats, status, net));
}

} // verus!
