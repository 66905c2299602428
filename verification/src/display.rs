//! The display loop as a state machine: what to do next, and how each
//! outcome of what was done moves the loop on.

use vstd::prelude::*;
use crate::aggregator::{log_line, rolling_average, window_after, Aggregator, EntryView};
use crate::history::{log_after_all, window_after_all};
use crate::reading::MeterReading;
use crate::render::{chart_shows, render, Chart};

verus! {

/// Longest wait, in milliseconds, for a key in one turn of the loop.
pub const KEY_POLL_MS: u64 = 100;

/// Longest wait, in milliseconds, for the next reading. Silence beyond it
/// ends the loop.
pub const RECEIVE_TIMEOUT_MS: u64 = 3000;

/// The key that ends the loop.
pub const QUIT_KEY: char = 'q';

/// Why the loop ended.
#[derive(Clone, Copy, Debug, PartialEq, Eq, Structural)]
pub enum Exit {
    /// The operator pressed the quit key.
    Quit,
    /// No reading arrived within `RECEIVE_TIMEOUT_MS`.
    Stalled,
    /// The source is gone and the channel is closed.
    Disconnected,
    /// A log record could not be written.
    LogFailed,
}

/// Where the loop stands. All phases but `Done` are the running loop.
#[derive(Clone, Copy, Debug, PartialEq, Eq, Structural)]
pub enum Phase {
    /// The chart is to be drawn.
    Render,
    /// The keyboard is to be polled.
    PollKey,
    /// The next reading is awaited.
    Receive,
    /// The record of the reading just delivered is to be logged; the
    /// reading itself waits outside the window until that is done.
    Log,
    /// The loop has ended.
    Done(Exit),
}

/// How a wait on the delivery channel ended.
#[derive(Clone, Copy, Debug, PartialEq, Eq)]
pub enum Delivery {
    Reading(MeterReading),
    TimedOut,
    Closed,
}

/// What happened when the caller did what the loop asked for.
#[derive(Clone, Copy, Debug, PartialEq, Eq)]
pub enum Event {
    /// The chart was drawn.
    Rendered,
    /// The key poll ended, with the character key that was pressed, if any.
    KeyPolled(Option<char>),
    /// The wait for a reading ended.
    Delivered(Delivery),
    /// The log record was written.
    LogWritten,
    /// Writing the log record failed.
    LogFailed,
}

/// What the caller is to do next.
#[derive(Debug, PartialEq, Eq)]
pub enum Action {
    /// Draw the chart of the current window.
    Render,
    /// Wait for a key, at most this many milliseconds.
    PollKey(u64),
    /// Wait for a reading, at most this many milliseconds.
    Receive(u64),
    /// Append this record to the log.
    AppendLog(String),
    /// Leave the loop.
    Stop(Exit),
}

/// The state of the loop as plain values.
pub struct LoopView {
    pub phase: Phase,
    pub window: Seq<EntryView>,
    /// The record of the last reading that was delivered.
    pub pending: Seq<char>,
    /// The delivered reading whose record is not written yet.
    pub held: Option<MeterReading>,
}

/// An exit is fatal unless the operator asked for it.
pub open spec fn exit_is_fatal(exit: Exit) -> bool {
    exit != Exit::Quit
}

/// The process exit code of an exit: zero for a clean one.
pub open spec fn exit_code_of(exit: Exit) -> int {
    if exit == Exit::Quit {
        0
    } else {
        1
    }
}

/// The error text of an exit; empty for a clean one.
pub open spec fn exit_message(exit: Exit) -> Seq<char> {
    match exit {
        Exit::Quit => ""@,
        Exit::Stalled => "RX channel: Timeout: Quit!"@,
        Exit::Disconnected => "RX channel: Disconnected: Quit!"@,
        Exit::LogFailed => "Log write failed: Quit!"@,
    }
}

/// The phase that follows `phase` on `event`. An event that does not
/// answer the phase's action changes nothing, and nothing leaves `Done`.
pub open spec fn next_phase(phase: Phase, event: Event) -> Phase {
    match (phase, event) {
        (Phase::Render, Event::Rendered) => Phase::PollKey,
        (Phase::PollKey, Event::KeyPolled(key)) => if key == Some(QUIT_KEY) {
            Phase::Done(Exit::Quit)
        } else {
            Phase::Receive
        },
        (Phase::Receive, Event::Delivered(Delivery::Reading(_))) => Phase::Log,
        (Phase::Receive, Event::Delivered(Delivery::TimedOut)) => Phase::Done(Exit::Stalled),
        (Phase::Receive, Event::Delivered(Delivery::Closed)) => Phase::Done(Exit::Disconnected),
        (Phase::Log, Event::LogWritten) => Phase::Render,
        (Phase::Log, Event::LogFailed) => Phase::Done(Exit::LogFailed),
        _ => phase,
    }
}

/// The state that follows `state` on `event`.
///
/// A reading that was waited for is held, and its record becomes the
/// pending one; the window does not change yet. Only when that record is
/// reported written does the held reading enter the window. A failed write
/// ends the loop with the window as it was.
pub open spec fn next_state(state: LoopView, event: Event) -> LoopView {
    match (state.phase, event) {
        (Phase::Receive, Event::Delivered(Delivery::Reading(reading))) => LoopView {
            phase: Phase::Log,
            window: state.window,
            pending: log_line(
                reading,
                rolling_average(state.window, reading.instant_watts as nat),
            ),
            held: Some(reading),
        },
        (Phase::Log, Event::LogWritten) => LoopView {
            phase: Phase::Render,
            window: match state.held {
                Some(reading) => window_after(state.window, reading),
                None => state.window,
            },
            pending: state.pending,
            held: None,
        },
        _ => LoopView { phase: next_phase(state.phase, event), ..state },
    }
}

/// The state a loop starts in: about to draw an empty window, with nothing
/// delivered yet.
pub open spec fn initial_state() -> LoopView {
    LoopView {
        phase: Phase::Render,
        window: Seq::empty(),
        pending: Seq::empty(),
        held: None,
    }
}

/// The state reached from `state` after the events of `events` in order.
pub open spec fn state_after_all(state: LoopView, events: Seq<Event>) -> LoopView
    decreases events.len(),
{
    if events.len() == 0 {
        state
    } else {
        next_state(state_after_all(state, events.drop_last()), events.last())
    }
}

impl Exit {
    /// Whether this exit is a failure of the pipeline.
    pub fn is_fatal(&self) -> (fatal: bool)
        ensures
            fatal == exit_is_fatal(*self),
    {
        match self {
            Exit::Quit => false,
            _ => true,
        }
    }

    /// The exit code the process ends with.
    pub fn exit_code(&self) -> (code: i32)
        ensures
            code == exit_code_of(*self),
    {
        match self {
            Exit::Quit => 0,
            _ => 1,
        }
    }

    /// The error text to print once the terminal is restored.
    pub fn message(&self) -> (text: &'static str)
        ensures
            text@ == exit_message(*self),
    {
        match self {
            Exit::Quit => "",
            Exit::Stalled => "RX channel: Timeout: Quit!",
            Exit::Disconnected => "RX channel: Disconnected: Quit!",
            Exit::LogFailed => "Log write failed: Quit!",
        }
    }
}

/// The display loop: its phase, the aggregator it feeds, the reading that
/// waits for its log record, and that record.
pub struct DisplayLoop {
    phase: Phase,
    aggregator: Aggregator,
    pending: String,
    held: Option<MeterReading>,
}

impl View for DisplayLoop {
    type V = LoopView;

    closed spec fn view(&self) -> LoopView {
        LoopView {
            phase: self.phase,
            window: self.aggregator@,
            pending: self.pending@,
            held: self.held,
        }
    }
}

impl DisplayLoop {
    /// A loop about to draw an empty window.
    pub fn new() -> (l: DisplayLoop)
        ensures
            l@ == initial_state(),
    {
        DisplayLoop {
            phase: Phase::Render,
            aggregator: Aggregator::new(),
            pending: String::new(),
            held: None,
        }
    }

    /// The phase the loop is in.
    pub fn phase(&self) -> (phase: Phase)
        ensures
            phase == self@.phase,
    {
        self.phase
    }

    /// The window the loop has aggregated so far.
    pub fn window(&self) -> (window: &Aggregator)
        ensures
            window@ == self@.window,
    {
        &self.aggregator
    }

    /// The chart of the current window.
    pub fn chart(&self) -> (chart: Chart<'_>)
        ensures
            chart_shows(chart, self@.window),
    {
        render(&self.aggregator)
    }

    /// What the caller is to do now. It is fixed by the phase: draw, poll
    /// the keyboard for `KEY_POLL_MS`, wait for a reading for
    /// `RECEIVE_TIMEOUT_MS`, append the pending record, or stop.
    pub fn action(&self) -> (action: Action)
        ensures
            match action {
                Action::Render => self@.phase == Phase::Render,
                Action::PollKey(ms) => self@.phase == Phase::PollKey && ms == KEY_POLL_MS,
                Action::Receive(ms) => self@.phase == Phase::Receive && ms == RECEIVE_TIMEOUT_MS,
                Action::AppendLog(line) => self@.phase == Phase::Log && line@ == self@.pending,
                Action::Stop(exit) => self@.phase == Phase::Done(exit),
            },
    {
        match self.phase {
            Phase::Render => Action::Render,
            Phase::PollKey => Action::PollKey(KEY_POLL_MS),
            Phase::Receive => Action::Receive(RECEIVE_TIMEOUT_MS),
            Phase::Log => Action::AppendLog(self.pending.clone()),
            Phase::Done(exit) => Action::Stop(exit),
        }
    }

    /// Moves the loop on by one event. A reading that was waited for is
    /// held while its log record is pending; it enters the window once the
    /// record is reported written, and never if the write failed.
    pub fn step(&mut self, event: Event)
        ensures
            final(self)@ == next_state(old(self)@, event),
    {
        match (self.phase, event) {
            (Phase::Render, Event::Rendered) => {
                self.phase = Phase::PollKey;
            },
            (Phase::PollKey, Event::KeyPolled(key)) => {
                let quit = match key {
                    Some(c) => c == QUIT_KEY,
                    None => false,
                };
                if quit {
                    self.phase = Phase::Done(Exit::Quit);
                } else {
                    self.phase = Phase::Receive;
                }
            },
            (Phase::Receive, Event::Delivered(Delivery::Reading(reading))) => {
                self.pending = self.aggregator.record_for(reading);
                self.held = Some(reading);
                self.phase = Phase::Log;
            },
            (Phase::Receive, Event::Delivered(Delivery::TimedOut)) => {
                self.phase = Phase::Done(Exit::Stalled);
            },
            (Phase::Receive, Event::Delivered(Delivery::Closed)) => {
                self.phase = Phase::Done(Exit::Disconnected);
            },
            (Phase::Log, Event::LogWritten) => {
                match self.held {
                    Some(reading) => {
                        self.aggregator.on_reading(reading);
                    },
                    None => {},
                }
                self.held = None;
                self.phase = Phase::Render;
            },
            (Phase::Log, Event::LogFailed) => {
                self.phase = Phase::Done(Exit::LogFailed);
            },
            _ => {},
        }
    }
}

/// Silence is fatal: when the wait for a reading times out, the loop ends
/// with an exit that is an error, with a non-zero exit code and an error
/// text, and the wait it asks for is `RECEIVE_TIMEOUT_MS` long.
pub proof fn lemma_silence_is_fatal(state: LoopView)
    requires
        state.phase == Phase::Receive,
    ensures
        next_state(state, Event::Delivered(Delivery::TimedOut)).phase == Phase::Done(
            Exit::Stalled,
        ),
        next_state(state, Event::Delivered(Delivery::TimedOut)).window == state.window,
        exit_is_fatal(Exit::Stalled),
        exit_code_of(Exit::Stalled) != 0,
        exit_message(Exit::Stalled).len() > 0,
{
    reveal_strlit("RX channel: Timeout: Quit!");
}

/// Every way the loop can end other than the quit key is fatal.
pub proof fn lemma_only_quit_is_clean(exit: Exit)
    ensures
        exit_is_fatal(exit) <==> exit != Exit::Quit,
        exit_code_of(exit) == 0 <==> exit == Exit::Quit,
{
}

/// The quit key ends a polling loop cleanly, with exit code zero, whatever
/// the window holds; no reading is asked for or taken in on the way.
pub proof fn lemma_quit_is_clean(state: LoopView)
    requires
        state.phase == Phase::PollKey,
    ensures
        next_state(state, Event::KeyPolled(Some(QUIT_KEY))) == (LoopView {
            phase: Phase::Done(Exit::Quit),
            ..state
        }),
        !exit_is_fatal(Exit::Quit),
        exit_code_of(Exit::Quit) == 0,
{
}

/// Once the loop has ended nothing moves it: whatever events follow, also
/// readings still under way, the phase, the window, the held reading and
/// the pending record stay as they are.
pub proof fn lemma_done_is_final(state: LoopView, events: Seq<Event>)
    requires
        state.phase is Done,
    ensures
        state_after_all(state, events) == state,
    decreases events.len(),
{
    if events.len() > 0 {
        lemma_done_is_final(state, events.drop_last());
    }
}

/// While the loop runs, its phases follow each other in the order draw,
/// poll, wait, log: each answered action leads to the next or ends the
/// loop.
pub proof fn lemma_phase_order(key: Option<char>, reading: MeterReading)
    ensures
        next_phase(Phase::Render, Event::Rendered) == Phase::PollKey,
        key != Some(QUIT_KEY) ==> next_phase(Phase::PollKey, Event::KeyPolled(key))
            == Phase::Receive,
        next_phase(Phase::Receive, Event::Delivered(Delivery::Reading(reading))) == Phase::Log,
        next_phase(Phase::Log, Event::LogWritten) == Phase::Render,
{
}

/// A delivered reading does not reach the window before its record is
/// written: on delivery the loop only holds the reading and makes its
/// record the pending one.
pub proof fn lemma_reading_waits_for_its_record(state: LoopView, reading: MeterReading)
    requires
        state.phase == Phase::Receive,
    ensures
        next_state(state, Event::Delivered(Delivery::Reading(reading))) == (LoopView {
            phase: Phase::Log,
            window: state.window,
            pending: log_line(
                reading,
                rolling_average(state.window, reading.instant_watts as nat),
            ),
            held: Some(reading),
        }),
{
}

/// Once its record is written, the held reading enters the window and the
/// loop goes back to drawing.
pub proof fn lemma_written_record_admits_reading(state: LoopView, reading: MeterReading)
    requires
        state.phase == Phase::Log,
        state.held == Some(reading),
    ensures
        next_state(state, Event::LogWritten).phase == Phase::Render,
        next_state(state, Event::LogWritten).window == window_after(state.window, reading),
        next_state(state, Event::LogWritten).held is None,
{
}

/// A failed log write is fatal and leaves the window as it was: the reading
/// whose record could not be written never becomes an entry.
pub proof fn lemma_failed_write_keeps_window(state: LoopView, events: Seq<Event>)
    requires
        state.phase == Phase::Log,
    ensures
        next_state(state, Event::LogFailed).phase == Phase::Done(Exit::LogFailed),
        state_after_all(next_state(state, Event::LogFailed), events).window == state.window,
        exit_is_fatal(Exit::LogFailed),
        exit_code_of(Exit::LogFailed) != 0,
{
    lemma_done_is_final(next_state(state, Event::LogFailed), events);
}

/// In phase `Log` a reading is held and the pending record is the record of
/// that reading at the current window. Every state a loop reaches is like
/// that.
pub open spec fn consistent(state: LoopView) -> bool {
    state.phase == Phase::Log ==> match state.held {
        Some(reading) => state.pending == log_line(
            reading,
            rolling_average(state.window, reading.instant_watts as nat),
        ),
        None => false,
    }
}

/// The readings that entered the window while `events` happened from
/// `state` on, in order.
pub open spec fn admitted_readings(state: LoopView, events: Seq<Event>) -> Seq<MeterReading>
    decreases events.len(),
{
    if events.len() == 0 {
        Seq::empty()
    } else {
        let earlier = admitted_readings(state, events.drop_last());
        let before = state_after_all(state, events.drop_last());
        match (before.phase, events.last(), before.held) {
            (Phase::Log, Event::LogWritten, Some(reading)) => earlier.push(reading),
            _ => earlier,
        }
    }
}

/// The records reported written while `events` happened from `state` on, in
/// order.
pub open spec fn written_records(state: LoopView, events: Seq<Event>) -> Seq<Seq<char>>
    decreases events.len(),
{
    if events.len() == 0 {
        Seq::empty()
    } else {
        let earlier = written_records(state, events.drop_last());
        let before = state_after_all(state, events.drop_last());
        match (before.phase, events.last()) {
            (Phase::Log, Event::LogWritten) => earlier.push(before.pending),
            _ => earlier,
        }
    }
}

/// The log and the window tell the same history. Whatever events happen,
/// the window is what the admitted readings make of the window the loop
/// started with, and the records written are the records of exactly those
/// readings, one each and in the same order. A reading whose record was
/// not written is in neither.
pub proof fn lemma_log_matches_window(state: LoopView, events: Seq<Event>)
    requires
        consistent(state),
    ensures
        consistent(state_after_all(state, events)),
        state_after_all(state, events).window == window_after_all(
            state.window,
            admitted_readings(state, events),
        ),
        written_records(state, events) == log_after_all(
            state.window,
            admitted_readings(state, events),
        ),
    decreases events.len(),
{
    if events.len() > 0 {
        let earlier = events.drop_last();
        lemma_log_matches_window(state, earlier);
        let before = state_after_all(state, earlier);
        let readings = admitted_readings(state, earlier);
        match (before.phase, events.last(), before.held) {
            (Phase::Log, Event::LogWritten, Some(reading)) => {
                assert(readings.push(reading).drop_last() =~= readings);
                assert(readings.push(reading).last() == reading);
            },
            _ => {},
        }
    }
}

/// For a loop run from its start: the window holds what the admitted
/// readings make of an empty window, and the log holds their records.
pub proof fn lemma_log_matches_window_from_start(events: Seq<Event>)
    ensures
        state_after_all(initial_state(), events).window == window_after_all(
            Seq::empty(),
            admitted_readings(initial_state(), events),
        ),
        written_records(initial_state(), events) == log_after_all(
            Seq::empty(),
            admitted_readings(initial_state(), events),
        ),
{
    lemma_log_matches_window(initial_state(), events);
}

} // verus!
