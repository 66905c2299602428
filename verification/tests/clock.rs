use meterwatch::clock::{ClockFields, Timestamp};

#[test]
fn valid_dates_are_accepted() {
    assert!(Timestamp::new(2024, 2, 29, 0, 0, 0).is_some());
    assert!(Timestamp::new(2000, 2, 29, 0, 0, 0).is_some());
    assert!(Timestamp::new(2023, 12, 31, 23, 59, 59).is_some());
    assert!(Timestamp::new(0, 1, 1, 0, 0, 0).is_some());
    assert!(Timestamp::new(9999, 12, 31, 23, 59, 59).is_some());
    for month in [1u32, 3, 5, 7, 8, 10, 12] {
        assert!(Timestamp::new(2021, month, 31, 1, 1, 1).is_some());
    }
    for month in [4u32, 6, 9, 11] {
        assert!(Timestamp::new(2021, month, 30, 1, 1, 1).is_some());
    }
}

#[test]
fn days_that_do_not_exist_are_rejected() {
    assert!(Timestamp::new(2023, 2, 29, 0, 0, 0).is_none());
    assert!(Timestamp::new(1900, 2, 29, 0, 0, 0).is_none());
    assert!(Timestamp::new(2100, 2, 29, 0, 0, 0).is_none());
    assert!(Timestamp::new(2024, 2, 30, 0, 0, 0).is_none());
    assert!(Timestamp::new(2023, 4, 31, 0, 0, 0).is_none());
    for month in [4u32, 6, 9, 11] {
        assert!(Timestamp::new(2021, month, 31, 1, 1, 1).is_none());
    }
    assert!(Timestamp::new(2023, 1, 32, 0, 0, 0).is_none());
    assert!(Timestamp::new(2023, 1, 0, 0, 0, 0).is_none());
}

#[test]
fn fields_out_of_range_are_rejected() {
    assert!(Timestamp::new(2023, 0, 1, 0, 0, 0).is_none());
    assert!(Timestamp::new(2023, 13, 1, 0, 0, 0).is_none());
    assert!(Timestamp::new(2023, 1, 1, 24, 0, 0).is_none());
    assert!(Timestamp::new(2023, 1, 1, 0, 60, 0).is_none());
    assert!(Timestamp::new(2023, 1, 1, 0, 0, 60).is_none());
    assert!(Timestamp::new(-1, 1, 1, 0, 0, 0).is_none());
    assert!(Timestamp::new(10000, 1, 1, 0, 0, 0).is_none());
    assert!(Timestamp::new(2023, u32::MAX, 1, 0, 0, 0).is_none());
    assert!(Timestamp::new(i32::MIN, 1, 1, 0, 0, 0).is_none());
}

#[test]
fn fields_come_back_as_given() {
    let stamp = Timestamp::new(2019, 3, 20, 18, 14, 3).unwrap();
    assert_eq!(
        stamp.fields(),
        ClockFields { year: 2019, month: 3, day: 20, hour: 18, minute: 14, second: 3 }
    );
    assert_eq!(Timestamp::from_fields(stamp.fields()), Some(stamp));
}

#[test]
fn stamp_is_zero_padded() {
    assert_eq!(Timestamp::new(2019, 3, 20, 18, 14, 3).unwrap().stamp(), "2019-03-20 18:14:03");
    assert_eq!(Timestamp::new(2024, 12, 1, 0, 0, 0).unwrap().stamp(), "2024-12-01 00:00:00");
    assert_eq!(Timestamp::new(987, 1, 9, 9, 9, 9).unwrap().stamp(), "0987-01-09 09:09:09");
    assert_eq!(Timestamp::new(0, 1, 1, 0, 0, 0).unwrap().stamp(), "0000-01-01 00:00:00");
    assert_eq!(Timestamp::new(9999, 12, 31, 23, 59, 59).unwrap().stamp(), "9999-12-31 23:59:59");
}

#[test]
fn label_is_time_of_day_without_separators() {
    assert_eq!(Timestamp::new(2019, 3, 20, 18, 14, 3).unwrap().label(), "181403");
    assert_eq!(Timestamp::new(2019, 3, 20, 0, 0, 0).unwrap().label(), "000000");
    assert_eq!(Timestamp::new(2019, 3, 20, 23, 59, 59).unwrap().label(), "235959");
    assert_eq!(Timestamp::new(2019, 3, 20, 7, 5, 9).unwrap().label(), "070509");
}

#[test]
fn every_second_of_a_day_formats_to_its_digits() {
    for hour in 0..24u32 {
        for minute in 0..60u32 {
            let stamp = Timestamp::new(2022, 9, 1, hour, minute, (hour + minute) % 60).unwrap();
            let expected = format!("{:02}{:02}{:02}", hour, minute, (hour + minute) % 60);
            assert_eq!(stamp.label(), expected);
            assert_eq!(stamp.stamp(), format!("2022-09-01 {:02}:{:02}:{:02}", hour, minute, (hour + minute) % 60));
        }
    }
}

#[test]
fn the_local_clock_gives_a_timestamp() {
    let now = Timestamp::now().unwrap();
    let fields = now.fields();
    assert!(fields.year >= 2024);
    assert_eq!(Timestamp::from_fields(fields), Some(now));
    assert_eq!(now.label().len(), 6);
    assert_eq!(now.stamp().len(), 19);
}
