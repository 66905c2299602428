//! The two bar-chart panels drawn from the window.

use vstd::prelude::*;
use crate::aggregator::{entries_view, Aggregator, EntryView, WindowEntry, WINDOW_SIZE};

verus! {

/// Colour of the bars of a panel.
#[derive(Clone, Copy, Debug, PartialEq, Eq, Structural)]
pub enum BarColor {
    Yellow,
    Green,
}

/// Which of the two values of an entry a panel shows.
#[derive(Clone, Copy, Debug, PartialEq, Eq, Structural)]
pub enum Series {
    /// The instantaneous reading.
    Instant,
    /// The rolling average.
    Average,
}

/// One bar chart: a title, a colour, and one labelled bar per window
/// entry, newest first.
#[derive(Debug, PartialEq, Eq)]
pub struct Panel<'a> {
    pub title: &'static str,
    pub color: BarColor,
    pub bars: Vec<(&'a str, u64)>,
}

/// The upper and the lower panel of the screen.
#[derive(Debug, PartialEq, Eq)]
pub struct Chart<'a> {
    pub instant: Panel<'a>,
    pub average: Panel<'a>,
}

/// The value of entry `e` in the series `series`.
pub open spec fn bar_value(e: EntryView, series: Series) -> nat {
    match series {
        Series::Instant => e.instant_watts,
        Series::Average => e.rolling_avg_watts,
    }
}

/// The bars of a series over window `w`: label and value of every entry,
/// in the window's order.
pub open spec fn bars_of(w: Seq<EntryView>, series: Series) -> Seq<(Seq<char>, nat)> {
    w.map_values(|e: EntryView| (e.label, bar_value(e, series)))
}

/// The bars of a panel as plain values.
pub open spec fn bars_view(bars: Seq<(&str, u64)>) -> Seq<(Seq<char>, nat)> {
    bars.map_values(|b: (&str, u64)| (b.0@, b.1 as nat))
}

/// Title of the panel of a series.
pub open spec fn title_of(series: Series) -> Seq<char> {
    match series {
        Series::Instant => "Current Watt"@,
        Series::Average => "AVG x samples"@,
    }
}

/// Bar colour of the panel of a series.
pub open spec fn color_of(series: Series) -> BarColor {
    match series {
        Series::Instant => BarColor::Yellow,
        Series::Average => BarColor::Green,
    }
}

/// Panel `p` is the panel of `series` over window `w`.
pub open spec fn panel_shows(p: Panel, w: Seq<EntryView>, series: Series) -> bool {
    &&& p.title@ == title_of(series)
    &&& p.color == color_of(series)
    &&& bars_view(p.bars@) == bars_of(w, series)
}

/// `chart` is the chart of window `w`: the instantaneous readings above,
/// the rolling averages below, bar for bar over the same entries.
pub open spec fn chart_shows(chart: Chart, w: Seq<EntryView>) -> bool {
    &&& panel_shows(chart.instant, w, Series::Instant)
    &&& panel_shows(chart.average, w, Series::Average)
    &&& chart.instant.bars.len() == w.len()
    &&& chart.average.bars.len() == w.len()
}

/// The panel of one series over the entries of a window.
pub fn panel<'a>(entries: &'a Vec<WindowEntry>, series: Series) -> (p: Panel<'a>)
    ensures
        panel_shows(p, entries_view(entries@), series),
        p.bars.len() == entries.len(),
{
    let mut bars: Vec<(&'a str, u64)> = Vec::new();
    let mut i: usize = 0;
    while i < entries.len()
        invariant
            i <= entries.len(),
            bars.len() == i,
            forall|j: int|
                0 <= j < i ==> (#[trigger] bars[j]).0@ == entries[j].label@ && bars[j].1
                    == bar_value(entries[j]@, series),
        decreases entries.len() - i,
    {
        let entry = &entries[i];
        let value = match series {
            Series::Instant => entry.instant_watts,
            Series::Average => entry.rolling_avg_watts,
        };
        bars.push((entry.label.as_str(), value));
        i = i + 1;
    }
    assert(bars_view(bars@) =~= bars_of(entries_view(entries@), series));
    match series {
        Series::Instant => Panel { title: "Current Watt", color: BarColor::Yellow, bars },
        Series::Average => Panel { title: "AVG x samples", color: BarColor::Green, bars },
    }
}

/// Both panels for the current window. The window is only read.
pub fn render<'a>(window: &'a Aggregator) -> (chart: Chart<'a>)
    ensures
        chart_shows(chart, window@),
        window@.len() <= WINDOW_SIZE,
{
    let entries = window.entries();
    Chart { instant: panel(entries, Series::Instant), average: panel(entries, Series::Average) }
}

} // verus!
