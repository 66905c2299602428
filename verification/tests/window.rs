use meterwatch::aggregator::{Aggregator, WindowEntry, LOG_HEADER, WINDOW_SIZE};
use meterwatch::clock::Timestamp;
use meterwatch::reading::MeterReading;

fn at(hour: u32, minute: u32, second: u32) -> Timestamp {
    Timestamp::new(2023, 11, 5, hour, minute, second).unwrap()
}

fn reading(second: u32, watts: u64) -> MeterReading {
    MeterReading {
        timestamp: at(12, second / 60, second % 60),
        instant_watts: watts,
        cumulative_totals: (0, 0),
    }
}

fn watts_of(aggregator: &Aggregator) -> Vec<u64> {
    let mut out = Vec::new();
    for entry in aggregator.entries() {
        out.push(entry.instant_watts);
    }
    out
}

fn averages_of(aggregator: &Aggregator) -> Vec<u64> {
    let mut out = Vec::new();
    for entry in aggregator.entries() {
        out.push(entry.rolling_avg_watts);
    }
    out
}

#[test]
fn new_window_is_empty() {
    let aggregator = Aggregator::new();
    assert_eq!(aggregator.len(), 0);
    assert!(aggregator.entries().is_empty());
}

#[test]
fn window_size_is_twenty() {
    assert_eq!(WINDOW_SIZE, 20);
}

#[test]
fn three_readings_average_over_what_arrived() {
    let mut aggregator = Aggregator::new();
    aggregator.on_reading(reading(0, 100));
    assert_eq!(averages_of(&aggregator), vec![100]);
    aggregator.on_reading(reading(1, 300));
    assert_eq!(averages_of(&aggregator), vec![200, 100]);
    aggregator.on_reading(reading(2, 200));
    assert_eq!(watts_of(&aggregator), vec![200, 300, 100]);
    assert_eq!(averages_of(&aggregator), vec![200, 200, 100]);
    assert_eq!(
        aggregator.entries()[0],
        WindowEntry { label: "120002".to_string(), instant_watts: 200, rolling_avg_watts: 200 }
    );
    assert_eq!(
        aggregator.entries()[1],
        WindowEntry { label: "120001".to_string(), instant_watts: 300, rolling_avg_watts: 200 }
    );
    assert_eq!(
        aggregator.entries()[2],
        WindowEntry { label: "120000".to_string(), instant_watts: 100, rolling_avg_watts: 100 }
    );
}

#[test]
fn twenty_five_readings_keep_the_last_twenty() {
    let mut aggregator = Aggregator::new();
    for index in 0..25u64 {
        aggregator.on_reading(reading(index as u32, index * 10));
        assert_eq!(aggregator.len(), std::cmp::min(index as usize + 1, 20));
    }
    let mut expected = Vec::new();
    for index in (5..25u64).rev() {
        expected.push(index * 10);
    }
    assert_eq!(watts_of(&aggregator), expected);
    assert_eq!(aggregator.entries()[0].label, "120024");
    assert_eq!(aggregator.entries()[19].label, "120005");
}

#[test]
fn length_follows_the_number_of_readings_up_to_capacity() {
    let mut aggregator = Aggregator::new();
    for count in 1..=20usize {
        aggregator.on_reading(reading(count as u32, 1));
        assert_eq!(aggregator.len(), count);
    }
    for extra in 0..50u32 {
        aggregator.on_reading(reading(extra, 1));
        assert_eq!(aggregator.len(), 20);
    }
}

#[test]
fn newest_reading_sits_at_index_zero() {
    let mut aggregator = Aggregator::new();
    for index in 0..40u64 {
        aggregator.on_reading(reading(index as u32, 1000 + index));
        assert_eq!(aggregator.entries()[0].instant_watts, 1000 + index);
        let watts = watts_of(&aggregator);
        for pair in watts.windows(2) {
            assert_eq!(pair[0], pair[1] + 1);
        }
    }
}

#[test]
fn average_while_filling_is_mean_of_all_so_far() {
    let mut aggregator = Aggregator::new();
    let mut sum = 0u64;
    for count in 1..=20u64 {
        let watts = count * count * 7;
        sum += watts;
        aggregator.on_reading(reading(count as u32, watts));
        assert_eq!(aggregator.entries()[0].rolling_avg_watts, sum / count);
    }
}

#[test]
fn average_truncates() {
    let mut aggregator = Aggregator::new();
    aggregator.on_reading(reading(0, 1));
    aggregator.on_reading(reading(1, 2));
    assert_eq!(aggregator.entries()[0].rolling_avg_watts, 1);
    aggregator.on_reading(reading(2, 5));
    assert_eq!(aggregator.entries()[0].rolling_avg_watts, 2);
}

#[test]
fn average_at_full_window_leaves_the_oldest_out() {
    let mut aggregator = Aggregator::new();
    aggregator.on_reading(reading(0, 2100));
    for second in 1..20u32 {
        aggregator.on_reading(reading(second, 0));
    }
    assert_eq!(aggregator.len(), 20);
    assert_eq!(aggregator.entries()[19].instant_watts, 2100);
    aggregator.on_reading(reading(20, 0));
    assert_eq!(aggregator.entries()[0].rolling_avg_watts, 0);
    assert_eq!(aggregator.entries()[19].instant_watts, 0);
}

#[test]
fn average_at_full_window_is_mean_of_last_twenty() {
    let mut aggregator = Aggregator::new();
    let mut history = Vec::new();
    for index in 0..60u64 {
        let watts = (index * 37) % 2000;
        history.push(watts);
        aggregator.on_reading(reading(index as u32, watts));
        let count = std::cmp::min(history.len(), 20);
        let recent: u64 = history[history.len() - count..].iter().sum();
        assert_eq!(aggregator.entries()[0].rolling_avg_watts, recent / count as u64);
    }
    // 59, 58, ..., 40 times 37, modulo 2000
    assert_eq!(aggregator.entries()[0].rolling_avg_watts, 1331);
}

#[test]
fn stored_averages_do_not_change_afterwards() {
    let mut aggregator = Aggregator::new();
    aggregator.on_reading(reading(0, 10));
    aggregator.on_reading(reading(1, 30));
    let before = aggregator.entries()[0].clone();
    aggregator.on_reading(reading(2, 5000));
    assert_eq!(aggregator.entries()[1], before);
}

#[test]
fn largest_readings_do_not_overflow() {
    let mut aggregator = Aggregator::new();
    for second in 0..30u32 {
        aggregator.on_reading(reading(second, u64::MAX));
        assert_eq!(aggregator.entries()[0].rolling_avg_watts, u64::MAX);
    }
    aggregator.on_reading(reading(30, 0));
    assert_eq!(
        aggregator.entries()[0].rolling_avg_watts,
        ((19u128 * u64::MAX as u128) / 20) as u64
    );
}

#[test]
fn log_record_has_the_five_fields_in_order() {
    let mut aggregator = Aggregator::new();
    let first = MeterReading {
        timestamp: Timestamp::new(2024, 2, 29, 7, 8, 9).unwrap(),
        instant_watts: 100,
        cumulative_totals: (576239, 465162),
    };
    assert_eq!(aggregator.on_reading(first), "2024-02-29 07:08:09;576239;465162;100;100;\n");
    let second = MeterReading {
        timestamp: Timestamp::new(2024, 2, 29, 23, 59, 59).unwrap(),
        instant_watts: 301,
        cumulative_totals: (576240, 0),
    };
    assert_eq!(aggregator.on_reading(second), "2024-02-29 23:59:59;576240;0;301;200;\n");
    assert_eq!(aggregator.entries()[0].label, "235959");
    assert_eq!(aggregator.entries()[1].label, "070809");
}

#[test]
fn log_record_carries_the_average_kept_in_the_window() {
    let mut aggregator = Aggregator::new();
    for index in 0..45u64 {
        let line = aggregator.on_reading(reading(index as u32, index * 3 + 1));
        let fields: Vec<&str> = line.split(';').collect();
        assert_eq!(fields.len(), 6);
        assert_eq!(fields[5], "\n");
        assert_eq!(fields[3], (index * 3 + 1).to_string());
        assert_eq!(fields[4], aggregator.entries()[0].rolling_avg_watts.to_string());
    }
}

#[test]
fn one_log_record_per_reading() {
    let mut aggregator = Aggregator::new();
    let mut log = String::new();
    for index in 0..33u64 {
        log.push_str(&aggregator.on_reading(reading(index as u32, index)));
    }
    assert_eq!(log.lines().count(), 33);
    assert!(log.ends_with('\n'));
}

#[test]
fn log_record_of_extreme_values() {
    let mut aggregator = Aggregator::new();
    let line = aggregator.on_reading(MeterReading {
        timestamp: Timestamp::new(0, 1, 1, 0, 0, 0).unwrap(),
        instant_watts: u64::MAX,
        cumulative_totals: (u64::MAX, 10),
    });
    assert_eq!(
        line,
        "0000-01-01 00:00:00;18446744073709551615;10;18446744073709551615;18446744073709551615;\n"
    );
}

#[test]
fn log_header_text() {
    assert_eq!(LOG_HEADER, "TIME;NORMAAL [kW];DAL [kW];POWER [W];AVG [W];\n");
}

#[test]
fn record_can_be_had_before_the_reading_is_taken_in() {
    let mut aggregator = Aggregator::new();
    aggregator.on_reading(reading(0, 100));
    let next = reading(1, 301);
    assert_eq!(aggregator.average_for(301), 200);
    let ahead = aggregator.record_for(next);
    assert_eq!(ahead, "2023-11-05 12:00:01;0;0;301;200;\n");
    assert_eq!(aggregator.len(), 1);
    assert_eq!(aggregator.entries()[0].instant_watts, 100);
    let line = aggregator.on_reading(next);
    assert_eq!(line, ahead);
    assert_eq!(aggregator.entries()[0].rolling_avg_watts, 200);
}

#[test]
fn average_ahead_at_a_full_window_leaves_the_oldest_out() {
    let mut aggregator = Aggregator::new();
    aggregator.on_reading(reading(0, 2100));
    for second in 1..20u32 {
        aggregator.on_reading(reading(second, 0));
    }
    assert_eq!(aggregator.average_for(0), 0);
    assert_eq!(aggregator.average_for(40), 2);
    assert_eq!(aggregator.len(), 20);
    assert_eq!(aggregator.entries()[19].instant_watts, 2100);
    assert_eq!(Aggregator::new().average_for(7), 7);
}
