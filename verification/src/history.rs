//! What the window and the log hold after a whole sequence of readings.

use vstd::prelude::*;
use crate::aggregator::{
    entry_for, log_line, retained, rolling_average, watts_sum, window_after, EntryView,
    WINDOW_SIZE,
};
use crate::clock::label_text;
use crate::reading::MeterReading;

verus! {

/// The window reached from `w` after the readings of `readings` arrived in
/// order.
pub open spec fn window_after_all(w: Seq<EntryView>, readings: Seq<MeterReading>) -> Seq<
    EntryView,
>
    decreases readings.len(),
{
    if readings.len() == 0 {
        w
    } else {
        window_after(window_after_all(w, readings.drop_last()), readings.last())
    }
}

/// The log records written while the readings of `readings` arrived in
/// order at window `w`.
pub open spec fn log_after_all(w: Seq<EntryView>, readings: Seq<MeterReading>) -> Seq<Seq<char>>
    decreases readings.len(),
{
    if readings.len() == 0 {
        Seq::empty()
    } else {
        log_after_all(w, readings.drop_last()).push(
            log_line(
                readings.last(),
                rolling_average(
                    window_after_all(w, readings.drop_last()),
                    readings.last().instant_watts as nat,
                ),
            ),
        )
    }
}

/// Sum of the instantaneous readings of the last `count` of `readings`.
pub open spec fn recent_sum(readings: Seq<MeterReading>, count: nat) -> nat
    recommends
        count <= readings.len(),
    decreases count,
{
    if count == 0 {
        0
    } else {
        recent_sum(readings, (count - 1) as nat) + readings[readings.len()
            - count].instant_watts as nat
    }
}

/// How many of `n` readings a window can show.
pub open spec fn shown(n: nat) -> nat {
    if n <= WINDOW_SIZE {
        n
    } else {
        WINDOW_SIZE as nat
    }
}

/// The entry that the last reading of a non-empty history leaves behind:
/// its label, its reading, and the truncated mean of the most recent
/// readings, at most `WINDOW_SIZE` of them, itself included.
pub open spec fn summary(readings: Seq<MeterReading>) -> EntryView
    recommends
        readings.len() > 0,
{
    EntryView {
        label: label_text(readings.last().timestamp@),
        instant_watts: readings.last().instant_watts as nat,
        rolling_avg_watts: recent_sum(readings, shown(readings.len())) / shown(readings.len()),
    }
}

/// The sum over the last `count` readings splits into the newest reading
/// and the sum over the `count - 1` readings before it.
pub proof fn lemma_recent_sum_newest(readings: Seq<MeterReading>, count: nat)
    requires
        1 <= count <= readings.len(),
    ensures
        recent_sum(readings, count) == readings.last().instant_watts + recent_sum(
            readings.drop_last(),
            (count - 1) as nat,
        ),
    decreases count,
{
    let before = readings.drop_last();
    if count > 1 {
        lemma_recent_sum_newest(readings, (count - 1) as nat);
        assert(before[before.len() - (count - 1)] == readings[readings.len() - count]);
        assert(recent_sum(before, (count - 1) as nat) == recent_sum(before, (count - 2) as nat)
            + before[before.len() - (count - 1)].instant_watts as nat);
    } else {
        assert(recent_sum(readings, 0) == 0);
        assert(recent_sum(before, 0) == 0);
    }
}

/// A window whose entries carry, newest first, the last readings of a
/// history sums to the sum of those readings.
pub proof fn lemma_watts_sum_of_recent(w: Seq<EntryView>, readings: Seq<MeterReading>)
    requires
        w.len() <= readings.len(),
        forall|i: int|
            0 <= i < w.len() ==> (#[trigger] w[i]).instant_watts == readings[readings.len() - 1
                - i].instant_watts,
    ensures
        watts_sum(w) == recent_sum(readings, w.len()),
    decreases w.len(),
{
    if w.len() > 0 {
        let rest = w.drop_last();
        assert forall|i: int| 0 <= i < rest.len() implies (#[trigger] rest[i]).instant_watts
            == readings[readings.len() - 1 - i].instant_watts by {
            assert(rest[i] == w[i]);
        }
        lemma_watts_sum_of_recent(rest, readings);
        assert(w.last() == w[w.len() - 1]);
    }
}

/// Starting from an empty window, the window shows the most recent
/// readings, at most `WINDOW_SIZE` of them, newest first: the entry at
/// index `i` is the summary of the history up to the `i`-th newest reading.
pub proof fn lemma_window_contents(readings: Seq<MeterReading>)
    ensures
        window_after_all(Seq::empty(), readings).len() == shown(readings.len()),
        forall|i: int|
            0 <= i < shown(readings.len()) ==> #[trigger] window_after_all(
                Seq::empty(),
                readings,
            )[i] == summary(readings.take(readings.len() - i)),
    decreases readings.len(),
{
    let n = readings.len();
    if n > 0 {
        let before = readings.drop_last();
        let newest = readings.last();
        let wp = window_after_all(Seq::empty(), before);
        let w = window_after_all(Seq::empty(), readings);
        lemma_window_contents(before);
        let kept = retained(wp);
        assert(kept.len() == shown(n) - 1);
        assert forall|i: int| 0 <= i < kept.len() implies (#[trigger] kept[i]).instant_watts
            == before[before.len() - 1 - i].instant_watts by {
            assert(kept[i] == wp[i]);
            assert(wp[i] == summary(before.take(before.len() - i)));
            assert(before.take(before.len() - i).last() == before[before.len() - 1 - i]);
        }
        lemma_watts_sum_of_recent(kept, before);
        lemma_recent_sum_newest(readings, shown(n));
        assert(readings.take(n as int) =~= readings);
        assert(w[0] == entry_for(wp, newest));
        assert(w[0] == summary(readings.take(n - 0)));
        assert forall|i: int| 0 <= i < shown(n) implies #[trigger] w[i] == summary(
            readings.take(n - i),
        ) by {
            if i > 0 {
                assert(w[i] == kept[i - 1]);
                assert(kept[i - 1] == wp[i - 1]);
                assert(before.take(before.len() - (i - 1)) =~= readings.take(n - i));
            }
        }
    }
}

/// Starting from an empty window, the window holds as many entries as
/// readings were processed, up to `WINDOW_SIZE`, and never more.
pub proof fn lemma_window_length(readings: Seq<MeterReading>)
    ensures
        readings.len() <= WINDOW_SIZE ==> window_after_all(Seq::empty(), readings).len()
            == readings.len(),
        readings.len() > WINDOW_SIZE ==> window_after_all(Seq::empty(), readings).len()
            == WINDOW_SIZE,
{
    lemma_window_contents(readings);
}

/// A reading that arrives at a full window pushes out the oldest entry, the
/// one at the tail, and no other: the length stays `WINDOW_SIZE` and every
/// other entry moves one place towards the tail. Below capacity nothing is
/// dropped.
pub proof fn lemma_oldest_leaves_first(w: Seq<EntryView>, reading: MeterReading)
    requires
        w.len() <= WINDOW_SIZE,
    ensures
        w.len() == WINDOW_SIZE ==> window_after(w, reading).len() == WINDOW_SIZE,
        w.len() < WINDOW_SIZE ==> window_after(w, reading).len() == w.len() + 1,
        forall|i: int|
            1 <= i < window_after(w, reading).len() ==> #[trigger] window_after(w, reading)[i]
                == w[i - 1],
{
}

/// While the window is filling, that is for the first `WINDOW_SIZE`
/// readings, the average recorded for the newest reading is the sum of all
/// readings so far divided, with truncation, by their number.
pub proof fn lemma_average_while_filling(readings: Seq<MeterReading>)
    requires
        1 <= readings.len() <= WINDOW_SIZE,
    ensures
        window_after_all(Seq::empty(), readings)[0].rolling_avg_watts == recent_sum(
            readings,
            readings.len(),
        ) / readings.len(),
{
    lemma_window_contents(readings);
    assert(readings.take(readings.len() - 0) =~= readings);
}

/// Once more readings than `WINDOW_SIZE` have been processed, the average
/// recorded for the newest reading is the truncated mean of the
/// `WINDOW_SIZE` most recent readings, the newest included.
pub proof fn lemma_average_when_full(readings: Seq<MeterReading>)
    requires
        readings.len() > WINDOW_SIZE,
    ensures
        window_after_all(Seq::empty(), readings)[0].rolling_avg_watts == recent_sum(
            readings,
            WINDOW_SIZE as nat,
        ) / (WINDOW_SIZE as nat),
{
    lemma_window_contents(readings);
    assert(readings.take(readings.len() - 0) =~= readings);
}

/// At a full window the recorded average is taken over the new reading and
/// the entries that stay, the oldest left out.
pub proof fn lemma_average_at_full_window(w: Seq<EntryView>, watts: nat)
    requires
        w.len() == WINDOW_SIZE,
    ensures
        rolling_average(w, watts) == (watts + watts_sum(w.drop_last())) / (WINDOW_SIZE as nat),
{
}

/// At a full window the recorded average equals the truncated mean of the
/// new reading and all `WINDOW_SIZE` entries held on arrival whenever
/// leaving the oldest entry out does not change that mean.
pub proof fn lemma_average_over_held_entries(w: Seq<EntryView>, watts: nat)
    requires
        w.len() == WINDOW_SIZE,
        (watts + watts_sum(w)) / (WINDOW_SIZE as nat + 1) == (watts + watts_sum(w.drop_last()))
            / (WINDOW_SIZE as nat),
    ensures
        rolling_average(w, watts) == (watts + watts_sum(w)) / (WINDOW_SIZE as nat + 1),
{
}

/// Starting from an empty window, the newest reading is at index 0 and the
/// entries follow from newest to oldest: the entry at index `i` carries the
/// label and the reading of the `i`-th newest reading.
pub proof fn lemma_newest_first(readings: Seq<MeterReading>, i: int)
    requires
        0 <= i < shown(readings.len()),
    ensures
        i < window_after_all(Seq::empty(), readings).len(),
        window_after_all(Seq::empty(), readings)[i].instant_watts == readings[readings.len() - 1
            - i].instant_watts,
        window_after_all(Seq::empty(), readings)[i].label == label_text(
            readings[readings.len() - 1 - i].timestamp@,
        ),
{
    lemma_window_contents(readings);
    assert(readings.take(readings.len() - i).last() == readings[readings.len() - 1 - i]);
}

/// One log record is written per reading, in arrival order, and the record
/// of a reading carries that reading's own fields and the average that the
/// window keeps for it.
pub proof fn lemma_one_record_per_reading(w: Seq<EntryView>, readings: Seq<MeterReading>)
    ensures
        log_after_all(w, readings).len() == readings.len(),
        forall|k: int|
            0 <= k < readings.len() ==> #[trigger] log_after_all(w, readings)[k] == log_line(
                readings[k],
                window_after_all(w, readings.take(k + 1))[0].rolling_avg_watts,
            ),
    decreases readings.len(),
{
    if readings.len() > 0 {
        let before = readings.drop_last();
        lemma_one_record_per_reading(w, before);
        assert forall|k: int| 0 <= k < readings.len() implies #[trigger] log_after_all(
            w,
            readings,
        )[k] == log_line(
            readings[k],
            window_after_all(w, readings.take(k + 1))[0].rolling_avg_watts,
        ) by {
            if k < before.len() {
                assert(before.take(k + 1) =~= readings.take(k + 1));
                assert(log_after_all(w, readings)[k] == log_after_all(w, before)[k]);
            } else {
                assert(readings.take(k + 1) =~= readings);
            }
        }
    }
}

} // verus!
