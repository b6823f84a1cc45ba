use paperclip::time::Timestamp;

#[test]
fn the_epoch_is_day_zero() {
    let t = Timestamp::from_civil(1970, 1, 1, 0, 0, 0).unwrap();
    assert_eq!(t, Timestamp::new(0, 0));
    assert_eq!(t.day(), 0);
    assert_eq!(t.seconds_into_day(), 0);
}

#[test]
fn from_civil_gives_exact_seconds() {
    let t = Timestamp::from_civil(2024, 1, 15, 23, 59, 59).unwrap();
    assert_eq!(t.secs, 1_705_363_199);
    assert_eq!(t.nanos, 0);
    assert_eq!(t.day(), 19_737);
    assert_eq!(t.civil_date(), Some((2024, 1, 15)));
    assert_eq!(t.time_of_day(), (23, 59, 59));
}

#[test]
fn from_civil_refuses_what_is_no_date_or_time() {
    assert_eq!(Timestamp::from_civil(2023, 2, 29, 0, 0, 0), None);
    assert_eq!(Timestamp::from_civil(2024, 13, 1, 0, 0, 0), None);
    assert_eq!(Timestamp::from_civil(2024, 0, 1, 0, 0, 0), None);
    assert_eq!(Timestamp::from_civil(2024, 4, 31, 0, 0, 0), None);
    assert_eq!(Timestamp::from_civil(2024, 1, 1, 24, 0, 0), None);
    assert_eq!(Timestamp::from_civil(2024, 1, 1, 0, 60, 0), None);
    assert_eq!(Timestamp::from_civil(2024, 1, 1, 0, 0, 60), None);
}

#[test]
fn days_before_the_epoch_are_negative() {
    let t = Timestamp::new(-1, 0);
    assert_eq!(t.day(), -1);
    assert_eq!(t.seconds_into_day(), 86_399);
    assert_eq!(t.civil_date(), Some((1969, 12, 31)));
    let u = Timestamp::new(-86_400, 0);
    assert_eq!(u.day(), -1);
    assert_eq!(u.seconds_into_day(), 0);
    let v = Timestamp::new(-86_401, 0);
    assert_eq!(v.day(), -2);
    assert_eq!(v.seconds_into_day(), 86_399);
}

#[test]
fn order_is_by_second_then_nanosecond() {
    let a = Timestamp::new(10, 5);
    let b = Timestamp::new(10, 6);
    let c = Timestamp::new(11, 0);
    assert!(a.is_before(&b));
    assert!(b.is_before(&c));
    assert!(!b.is_before(&a));
    assert!(!a.is_before(&a));
    assert!(a.is_at_most(&a));
    assert!(a.is_at_most(&b));
    assert!(!c.is_at_most(&b));
}

#[test]
fn whole_seconds_since_borrows_from_the_seconds() {
    let start = Timestamp::new(100, 900_000_000);
    assert_eq!(Timestamp::new(103, 100_000_000).whole_seconds_since(&start), 2);
    assert_eq!(Timestamp::new(103, 900_000_000).whole_seconds_since(&start), 3);
    assert_eq!(Timestamp::new(100, 900_000_000).whole_seconds_since(&start), 0);
    assert_eq!(Timestamp::new(99, 0).whole_seconds_since(&start), 0);
    assert_eq!(
        Timestamp::new(i64::MAX, 0).whole_seconds_since(&Timestamp::new(i64::MIN, 0)),
        u64::MAX
    );
}

#[test]
fn end_of_day_and_its_limits() {
    assert_eq!(Timestamp::end_of_day(0), Some(Timestamp::new(86_399, 0)));
    assert_eq!(Timestamp::end_of_day(-1), Some(Timestamp::new(-1, 0)));
    assert_eq!(Timestamp::end_of_day(i64::MAX), None);
    assert_eq!(Timestamp::end_of_day(i64::MIN), None);
    // The last day whose midnight the clock cannot show, but whose end it can.
    assert_eq!(
        Timestamp::end_of_day(-106_751_991_167_301),
        Some(Timestamp::new(-9_223_372_036_854_720_001, 0))
    );
}

#[test]
fn plus_days_keeps_the_time_of_day() {
    let t = Timestamp::from_civil(2024, 2, 28, 8, 30, 0).unwrap();
    assert_eq!(t.plus_days(1), Timestamp::from_civil(2024, 2, 29, 8, 30, 0));
    assert_eq!(t.plus_days(2), Timestamp::from_civil(2024, 3, 1, 8, 30, 0));
    assert_eq!(t.plus_days(-28), Timestamp::from_civil(2024, 1, 31, 8, 30, 0));
    assert_eq!(t.plus_days(0), Some(t));
    assert_eq!(t.plus_days(i64::MAX), None);
    assert_eq!(Timestamp::new(5, 7).plus_days(1), Some(Timestamp::new(86_405, 7)));
}

#[test]
fn on_day_moves_the_date_only() {
    let t = Timestamp::new(86_400 * 3 + 61, 9);
    assert_eq!(t.on_day(10), Some(Timestamp::new(86_400 * 10 + 61, 9)));
    assert_eq!(t.on_day(i64::MAX), None);
}

#[test]
fn same_day_compares_the_days() {
    let a = Timestamp::from_civil(2024, 3, 6, 0, 0, 0).unwrap();
    let b = Timestamp::from_civil(2024, 3, 6, 23, 59, 59).unwrap();
    let c = Timestamp::from_civil(2024, 3, 7, 0, 0, 0).unwrap();
    assert!(a.same_day(&b));
    assert!(!b.same_day(&c));
}

#[test]
fn millis_counts_whole_milliseconds() {
    assert_eq!(Timestamp::new(2, 345_678_901).millis(), 2_345);
    assert_eq!(Timestamp::new(-1, 0).millis(), -1_000);
}

#[test]
fn now_is_a_reading_of_this_century() {
    let now = Timestamp::now();
    let floor = Timestamp::from_civil(2020, 1, 1, 0, 0, 0).unwrap();
    assert!(floor.is_before(&now));
    assert!(now.civil_date().is_some());
}
