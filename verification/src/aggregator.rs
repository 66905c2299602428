//! The bounded, newest-first window of recent readings and its rolling
//! average.

use vstd::prelude::*;
use crate::clock::{label_text, stamp_text};
use crate::reading::MeterReading;
use crate::text::{decimal_digits, push_decimal};

verus! {

/// Number of entries the window retains.
pub const WINDOW_SIZE: usize = 20;

/// The line that opens the log each time the program starts.
pub const LOG_HEADER: &'static str = "TIME;NORMAAL [kW];DAL [kW];POWER [W];AVG [W];\n";

/// The retained summary of one reading.
#[derive(Clone, Debug, PartialEq, Eq)]
pub struct WindowEntry {
    pub label: String,
    pub instant_watts: u64,
    pub rolling_avg_watts: u64,
}

/// A window entry as plain values.
pub struct EntryView {
    pub label: Seq<char>,
    pub instant_watts: nat,
    pub rolling_avg_watts: nat,
}

impl View for WindowEntry {
    type V = EntryView;

    open spec fn view(&self) -> EntryView {
        EntryView {
            label: self.label@,
            instant_watts: self.instant_watts as nat,
            rolling_avg_watts: self.rolling_avg_watts as nat,
        }
    }
}

/// Sum of the instantaneous readings of `w`.
pub open spec fn watts_sum(w: Seq<EntryView>) -> nat
    decreases w.len(),
{
    if w.len() == 0 {
        0
    } else {
        watts_sum(w.drop_last()) + w.last().instant_watts
    }
}

/// What is left of the window `w` once room is made for a new entry: a full
/// window loses its oldest entry, the last one.
pub open spec fn retained(w: Seq<EntryView>) -> Seq<EntryView> {
    if w.len() == WINDOW_SIZE {
        w.drop_last()
    } else {
        w
    }
}

/// The average recorded for a reading of `watts` arriving at window `w`:
/// the truncated mean of the new reading and the retained ones.
pub open spec fn rolling_average(w: Seq<EntryView>, watts: nat) -> nat {
    (watts + watts_sum(retained(w))) / (retained(w).len() + 1)
}

/// The entry that `reading` leaves in window `w`.
pub open spec fn entry_for(w: Seq<EntryView>, reading: MeterReading) -> EntryView {
    EntryView {
        label: label_text(reading.timestamp@),
        instant_watts: reading.instant_watts as nat,
        rolling_avg_watts: rolling_average(w, reading.instant_watts as nat),
    }
}

/// The window after `reading` arrived at window `w`: the new entry in
/// front of the retained ones.
pub open spec fn window_after(w: Seq<EntryView>, reading: MeterReading) -> Seq<EntryView> {
    seq![entry_for(w, reading)] + retained(w)
}

/// The log record of `reading` with rolling average `avg`:
/// `YYYY-MM-DD HH:MM:SS;total0;total1;instant;average;` and a line feed.
pub open spec fn log_line(reading: MeterReading, avg: nat) -> Seq<char> {
    stamp_text(reading.timestamp@) + seq![';'] + decimal_digits(
        reading.cumulative_totals.0 as nat,
    ) + seq![';'] + decimal_digits(reading.cumulative_totals.1 as nat) + seq![';']
        + decimal_digits(reading.instant_watts as nat) + seq![';'] + decimal_digits(avg)
        + seq![';', '\n']
}

/// The views of the entries of a window, in order.
pub open spec fn entries_view(entries: Seq<WindowEntry>) -> Seq<EntryView> {
    entries.map_values(|e: WindowEntry| e@)
}

/// Rolling aggregator state: the window of the most recent readings,
/// newest first, never longer than `WINDOW_SIZE`.
pub struct Aggregator {
    window: Vec<WindowEntry>,
}

impl View for Aggregator {
    type V = Seq<EntryView>;

    closed spec fn view(&self) -> Seq<EntryView> {
        entries_view(self.window@)
    }
}

/// Truncated mean of `watts` and the readings of the first `count` of
/// `entries`.
fn mean_with(entries: &Vec<WindowEntry>, count: usize, watts: u64) -> (avg: u64)
    requires
        count <= entries.len(),
        count < WINDOW_SIZE,
    ensures
        avg == (watts + watts_sum(entries_view(entries@).take(count as int))) / (count + 1),
{
    let ghost view = entries_view(entries@);
    let mut sum: u128 = watts as u128;
    let mut i: usize = 0;
    while i < count
        invariant
            i <= count <= entries.len(),
            count < WINDOW_SIZE,
            view == entries_view(entries@),
            sum == watts + watts_sum(view.take(i as int)),
            sum <= (i + 1) * u64::MAX,
        decreases count - i,
    {
        proof {
            assert(view.take(i + 1).drop_last() =~= view.take(i as int));
            assert(view.take(i + 1).last() == entries@[i as int]@);
            assert((i + 1) * u64::MAX + u64::MAX == (i + 2) * u64::MAX) by (nonlinear_arith);
            assert((i + 2) * u64::MAX <= (WINDOW_SIZE + 1) * u64::MAX) by (nonlinear_arith)
                requires
                    i + 2 <= WINDOW_SIZE + 1,
            ;
        }
        sum = sum + entries[i].instant_watts as u128;
        i = i + 1;
    }
    let divisor: u128 = count as u128 + 1;
    proof {
        assert(sum / divisor <= u64::MAX) by (nonlinear_arith)
            requires
                sum <= divisor * u64::MAX,
                divisor > 0,
        ;
    }
    (sum / divisor) as u64
}

/// The log record of `reading` with rolling average `avg`.
fn record_text(reading: &MeterReading, avg: u64) -> (line: String)
    ensures
        line@ == log_line(*reading, avg as nat),
{
    let mut line = reading.timestamp.stamp();
    line.append(";");
    push_decimal(&mut line, reading.cumulative_totals.0);
    line.append(";");
    push_decimal(&mut line, reading.cumulative_totals.1);
    line.append(";");
    push_decimal(&mut line, reading.instant_watts);
    line.append(";");
    push_decimal(&mut line, avg);
    line.append(";\n");
    proof {
        reveal_strlit(";");
        reveal_strlit(";\n");
        assert(";"@ =~= seq![';']);
        assert(";\n"@ =~= seq![';', '\n']);
        assert(line@ =~= log_line(*reading, avg as nat));
    }
    line
}

impl Aggregator {
    #[verifier::type_invariant]
    spec fn bounded(self) -> bool {
        self.window.len() <= WINDOW_SIZE
    }

    /// An aggregator with an empty window.
    pub fn new() -> (a: Aggregator)
        ensures
            a@ == Seq::<EntryView>::empty(),
    {
        let a = Aggregator { window: Vec::with_capacity(WINDOW_SIZE) };
        assert(a@ =~= Seq::<EntryView>::empty());
        a
    }

    /// Number of entries in the window.
    pub fn len(&self) -> (n: usize)
        ensures
            n == self@.len(),
            n <= WINDOW_SIZE,
    {
        proof {
            use_type_invariant(self);
        }
        self.window.len()
    }

    /// The entries of the window, newest first.
    pub fn entries(&self) -> (entries: &Vec<WindowEntry>)
        ensures
            entries_view(entries@) == self@,
            entries.len() <= WINDOW_SIZE,
    {
        proof {
            use_type_invariant(self);
        }
        &self.window
    }

    /// The average that a reading of `watts` arriving now would be recorded
    /// with. The window is only read.
    pub fn average_for(&self, watts: u64) -> (avg: u64)
        ensures
            avg == rolling_average(self@, watts as nat),
    {
        proof {
            use_type_invariant(self);
        }
        let len = self.window.len();
        let count = if len == WINDOW_SIZE {
            len - 1
        } else {
            len
        };
        assert(entries_view(self.window@).take(count as int) =~= retained(self@));
        mean_with(&self.window, count, watts)
    }

    /// The log record that `reading` gets if it arrives now. The window is
    /// only read, so the record can be written before the reading is taken
    /// in.
    pub fn record_for(&self, reading: MeterReading) -> (line: String)
        ensures
            line@ == log_line(
                reading,
                rolling_average(self@, reading.instant_watts as nat),
            ),
    {
        let avg = self.average_for(reading.instant_watts);
        record_text(&reading, avg)
    }

    /// Takes one reading in: makes room in a full window, computes the
    /// rolling average, puts the new entry in front, and returns the log
    /// record of the reading, the one that `record_for` gave for it.
    pub fn on_reading(&mut self, reading: MeterReading) -> (line: String)
        ensures
            final(self)@ == window_after(old(self)@, reading),
            final(self)@.len() <= WINDOW_SIZE,
            line@ == log_line(
                reading,
                rolling_average(old(self)@, reading.instant_watts as nat),
            ),
    {
        proof {
            use_type_invariant(&*self);
        }
        let avg = self.average_for(reading.instant_watts);
        let line = record_text(&reading, avg);
        let label = reading.timestamp.label();

        let mut window: Vec<WindowEntry> = Vec::new();
        core::mem::swap(&mut self.window, &mut window);
        if window.len() == WINDOW_SIZE {
            window.pop();
        }
        assert(entries_view(window@) =~= retained(old(self)@));
        window.insert(
            0,
            WindowEntry { label, instant_watts: reading.instant_watts, rolling_avg_watts: avg },
        );
        self.window = window;
        assert(self@ =~= window_after(old(self)@, reading));
        line
    }
}

} // verus!
