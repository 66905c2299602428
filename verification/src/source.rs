//! The two reading sources: how a decoded meter telegram and how a
//! synthetic draw become a reading.

use vstd::prelude::*;
use crate::clock::{CivilTime, ClockFields, Timestamp};
use crate::reading::MeterReading;

verus! {

/// Why a source could not produce a reading. Each of them ends the source.
#[derive(Clone, Copy, Debug, PartialEq, Eq, Structural)]
pub enum SourceError {
    /// The telegram carries no date and time.
    MissingTimestamp,
    /// The date and time do not exist in the calendar.
    InvalidTimestamp,
    /// The telegram carries no delivered power.
    MissingPower,
    /// The telegram lacks one of the two cumulative registers.
    MissingTotal,
    /// The running total of the synthetic source no longer fits its counter.
    TotalOverflow,
}

/// Date and time as a meter reports them: the year counted from 2000.
#[derive(Clone, Copy, Debug, PartialEq, Eq)]
pub struct MeterTime {
    pub year: u8,
    pub month: u8,
    pub day: u8,
    pub hour: u8,
    pub minute: u8,
    pub second: u8,
}

impl MeterTime {
    /// The date and time meant, with the full year.
    pub open spec fn civil(self) -> CivilTime {
        CivilTime {
            year: 2000 + self.year,
            month: self.month as int,
            day: self.day as int,
            hour: self.hour as int,
            minute: self.minute as int,
            second: self.second as int,
        }
    }
}

/// The fields of one decoded telegram that a reading is made of: the
/// meter's date and time, the delivered power in watts, and the two
/// cumulative registers. A field the telegram lacks is `None`.
#[derive(Clone, Copy, Debug, PartialEq, Eq)]
pub struct TelegramFields {
    pub datetime: Option<MeterTime>,
    pub power_delivered_watts: Option<u64>,
    pub totals: (Option<u64>, Option<u64>),
}

/// The first thing wrong with a telegram, if anything is: the fields are
/// looked at in the order date and time, power, first and second register.
pub open spec fn telegram_defect(fields: TelegramFields) -> Option<SourceError> {
    match fields.datetime {
        None => Some(SourceError::MissingTimestamp),
        Some(time) => if !time.civil().is_valid() {
            Some(SourceError::InvalidTimestamp)
        } else if fields.power_delivered_watts is None {
            Some(SourceError::MissingPower)
        } else if fields.totals.0 is None || fields.totals.1 is None {
            Some(SourceError::MissingTotal)
        } else {
            None
        },
    }
}

/// The reading of one decoded telegram, or the first defect that keeps the
/// telegram from giving one.
pub fn reading_from_telegram(fields: TelegramFields) -> (r: Result<MeterReading, SourceError>)
    ensures
        match r {
            Ok(reading) => {
                &&& telegram_defect(fields) is None
                &&& reading.timestamp@ == fields.datetime->0.civil()
                &&& reading.instant_watts == fields.power_delivered_watts->0
                &&& reading.cumulative_totals == (fields.totals.0->0, fields.totals.1->0)
            },
            Err(e) => telegram_defect(fields) == Some(e),
        },
{
    let time = match fields.datetime {
        None => {
            return Err(SourceError::MissingTimestamp);
        },
        Some(time) => time,
    };
    let stamp = Timestamp::new(
        2000 + time.year as i32,
        time.month as u32,
        time.day as u32,
        time.hour as u32,
        time.minute as u32,
        time.second as u32,
    );
    let timestamp = match stamp {
        None => {
            return Err(SourceError::InvalidTimestamp);
        },
        Some(timestamp) => timestamp,
    };
    let instant_watts = match fields.power_delivered_watts {
        None => {
            return Err(SourceError::MissingPower);
        },
        Some(watts) => watts,
    };
    match fields.totals {
        (Some(first), Some(second)) => Ok(
            MeterReading { timestamp, instant_watts, cumulative_totals: (first, second) },
        ),
        _ => Err(SourceError::MissingTotal),
    }
}

/// Upper bound, exclusive, of the power a synthetic reading reports.
pub const SYNTHETIC_WATT_LIMIT: u64 = 2000;

/// Seconds between two synthetic readings.
pub const SYNTHETIC_PERIOD_SECS: u64 = 1;

/// `rand::Rng::gen_range` on the thread's generator with the range
/// `0..limit`: some value of that range, which is not empty.
#[verifier::external_body]
fn draw_below(limit: u64) -> (value: u64)
    requires
        limit > 0,
    ensures
        value < limit,
{
    rand::Rng::gen_range(&mut rand::thread_rng(), 0..limit)
}

/// The synthetic source: it keeps the sum of all power values it has
/// reported so far.
#[derive(Clone, Copy, Debug, PartialEq, Eq)]
pub struct SyntheticSource {
    pub total: u64,
}

impl SyntheticSource {
    /// A source that has reported nothing yet.
    pub fn new() -> (s: SyntheticSource)
        ensures
            s.total == 0,
    {
        SyntheticSource { total: 0 }
    }

    /// The synthetic reading for a draw of `watts` at time `at`: the draw
    /// is added to the running total, which the reading carries in its
    /// first register; the second stays zero. Where the total would pass
    /// the counter's range the source is left as it was.
    pub fn reading_for(&mut self, watts: u64, at: Timestamp) -> (r: Result<
        MeterReading,
        SourceError,
    >)
        ensures
            r is Ok <==> old(self).total + watts <= u64::MAX,
            match r {
                Ok(reading) => {
                    &&& final(self).total == old(self).total + watts
                    &&& reading.timestamp == at
                    &&& reading.instant_watts == watts
                    &&& reading.cumulative_totals == (final(self).total, 0u64)
                },
                Err(e) => final(self).total == old(self).total && e == SourceError::TotalOverflow,
            },
    {
        if watts > u64::MAX - self.total {
            return Err(SourceError::TotalOverflow);
        }
        self.total = self.total + watts;
        Ok(MeterReading { timestamp: at, instant_watts: watts, cumulative_totals: (self.total, 0) })
    }

    /// Draws the next synthetic reading: a power value below
    /// `SYNTHETIC_WATT_LIMIT`, stamped with the local time.
    pub fn next_reading(&mut self) -> (r: Result<MeterReading, SourceError>)
        ensures
            match r {
                Ok(reading) => {
                    &&& reading.instant_watts < SYNTHETIC_WATT_LIMIT
                    &&& final(self).total == old(self).total + reading.instant_watts
                    &&& reading.cumulative_totals == (final(self).total, 0u64)
                },
                Err(e) => {
                    &&& final(self).total == old(self).total
                    &&& e == SourceError::InvalidTimestamp || (e == SourceError::TotalOverflow
                        && old(self).total + SYNTHETIC_WATT_LIMIT > u64::MAX)
                },
            },
    {
        let watts = draw_below(SYNTHETIC_WATT_LIMIT);
        match Timestamp::now() {
            None => Err(SourceError::InvalidTimestamp),
            Some(at) => self.reading_for(watts, at),
        }
    }
}

} // verus!
