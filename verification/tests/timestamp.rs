use ppst_academy::timestamp::Timestamp;

fn stamp(
    year: i32,
    month: u8,
    day: u8,
    hour: u8,
    minute: u8,
    second: u8,
    nanosecond: u32,
) -> Timestamp {
    Timestamp::new(year, month, day, hour, minute, second, nanosecond).unwrap()
}

fn by_time_crate(t: &Timestamp) -> Option<String> {
    let month = time::Month::try_from(t.month).ok()?;
    let date = time::Date::from_calendar_date(t.year, month, t.day).ok()?;
    let clock = time::Time::from_hms_nano(t.hour, t.minute, t.second, t.nanosecond).ok()?;
    time::PrimitiveDateTime::new(date, clock)
        .assume_utc()
        .format(&time::format_description::well_known::Rfc3339)
        .ok()
}

#[test]
fn components_in_range_make_a_timestamp() {
    let t = stamp(2025, 1, 22, 12, 0, 0, 0);
    assert_eq!(t.year, 2025);
    assert_eq!(t.month, 1);
    assert_eq!(t.day, 22);
    assert_eq!(t.hour, 12);
    assert_eq!(t.nanosecond, 0);
    assert!(Timestamp::new(2025, 12, 31, 23, 59, 59, 999_999_999).is_some());
}

#[test]
fn components_out_of_range_make_none() {
    assert!(Timestamp::new(2025, 0, 1, 0, 0, 0, 0).is_none());
    assert!(Timestamp::new(2025, 13, 1, 0, 0, 0, 0).is_none());
    assert!(Timestamp::new(2025, 1, 0, 0, 0, 0, 0).is_none());
    assert!(Timestamp::new(2025, 1, 32, 0, 0, 0, 0).is_none());
    assert!(Timestamp::new(2025, 1, 1, 24, 0, 0, 0).is_none());
    assert!(Timestamp::new(2025, 1, 1, 0, 60, 0, 0).is_none());
    assert!(Timestamp::new(2025, 1, 1, 0, 0, 60, 0).is_none());
    assert!(Timestamp::new(2025, 1, 1, 0, 0, 0, 1_000_000_000).is_none());
}

#[test]
fn identifier_has_hyphens_and_milliseconds() {
    assert_eq!(stamp(2025, 1, 22, 12, 0, 0, 0).inquiry_id(), "2025-01-22T12-00-00-000Z");
    assert_eq!(
        stamp(2025, 11, 22, 15, 50, 22, 729_296_000).inquiry_id(),
        "2025-11-22T15-50-22-729Z"
    );
    assert_eq!(stamp(2025, 1, 2, 3, 4, 5, 6_999_999).inquiry_id(), "2025-01-02T03-04-05-006Z");
    assert_eq!(
        stamp(999, 12, 31, 23, 59, 59, 999_999_999).inquiry_id(),
        "0999-12-31T23-59-59-999Z"
    );
}

#[test]
fn identifier_of_a_year_beyond_four_digits() {
    assert_eq!(stamp(10000, 1, 1, 0, 0, 0, 0).inquiry_id(), "10000-01-01T00-00-00-000Z");
    assert_eq!(stamp(-1, 1, 1, 0, 0, 0, 0).inquiry_id(), "-0001-01-01T00-00-00-000Z");
    assert_eq!(stamp(0, 1, 1, 0, 0, 0, 0).inquiry_id(), "0000-01-01T00-00-00-000Z");
    assert_eq!(
        stamp(i32::MIN, 1, 1, 0, 0, 0, 0).inquiry_id(),
        "-2147483648-01-01T00-00-00-000Z"
    );
}

#[test]
fn identifiers_sort_as_their_times() {
    let earlier = stamp(2025, 1, 22, 12, 0, 0, 999_000_000).inquiry_id();
    let later = stamp(2025, 1, 22, 12, 0, 1, 0).inquiry_id();
    assert!(earlier < later);
}

#[test]
fn rfc3339_drops_the_trailing_zeros_of_the_fraction() {
    assert_eq!(
        stamp(2025, 11, 22, 15, 50, 22, 729_296_000).to_rfc3339().unwrap(),
        "2025-11-22T15:50:22.729296Z"
    );
    assert_eq!(
        stamp(2025, 11, 22, 15, 50, 22, 0).to_rfc3339().unwrap(),
        "2025-11-22T15:50:22Z"
    );
    assert_eq!(
        stamp(2025, 1, 2, 3, 4, 5, 5).to_rfc3339().unwrap(),
        "2025-01-02T03:04:05.000000005Z"
    );
    assert_eq!(
        stamp(2025, 1, 2, 3, 4, 5, 500_000_000).to_rfc3339().unwrap(),
        "2025-01-02T03:04:05.5Z"
    );
    assert_eq!(
        stamp(2025, 1, 2, 3, 4, 5, 100_200_300).to_rfc3339().unwrap(),
        "2025-01-02T03:04:05.1002003Z"
    );
}

#[test]
fn rfc3339_needs_a_year_of_four_digits() {
    assert!(stamp(10000, 1, 1, 0, 0, 0, 0).to_rfc3339().is_none());
    assert!(stamp(-1, 1, 1, 0, 0, 0, 0).to_rfc3339().is_none());
    assert_eq!(stamp(0, 1, 1, 0, 0, 0, 0).to_rfc3339().unwrap(), "0000-01-01T00:00:00Z");
    assert_eq!(
        stamp(9999, 12, 31, 23, 59, 59, 0).to_rfc3339().unwrap(),
        "9999-12-31T23:59:59Z"
    );
}

#[test]
fn rfc3339_needs_a_day_of_the_calendar() {
    assert!(stamp(2025, 2, 30, 0, 0, 0, 0).to_rfc3339().is_none());
    assert!(stamp(2025, 2, 29, 0, 0, 0, 0).to_rfc3339().is_none());
    assert_eq!(stamp(2024, 2, 29, 0, 0, 0, 0).to_rfc3339().unwrap(), "2024-02-29T00:00:00Z");
    assert!(stamp(2025, 4, 31, 0, 0, 0, 0).to_rfc3339().is_none());
    assert_eq!(stamp(2025, 2, 30, 1, 2, 3, 0).inquiry_id(), "2025-02-30T01-02-03-000Z");
}

#[test]
fn rfc3339_agrees_with_the_time_crate() {
    let samples = [
        stamp(2025, 11, 22, 15, 50, 22, 729_296_000),
        stamp(2025, 1, 1, 0, 0, 0, 0),
        stamp(1970, 1, 1, 0, 0, 0, 1),
        stamp(2024, 2, 29, 23, 59, 59, 999_999_999),
        stamp(1, 3, 4, 5, 6, 7, 80_000),
        stamp(9999, 12, 31, 23, 59, 59, 120_000_000),
        stamp(2030, 10, 10, 10, 10, 10, 10),
    ];
    for sample in samples {
        assert_eq!(sample.to_rfc3339(), by_time_crate(&sample), "for {:?}", sample);
    }
}

#[test]
fn now_is_a_time_of_this_age() {
    let now = Timestamp::now();
    assert!(now.year >= 2024);
    assert!((1..=12).contains(&now.month));
    assert!((1..=31).contains(&now.day));
    assert!(now.hour < 24 && now.minute < 60 && now.second < 60);
    assert!(now.nanosecond < 1_000_000_000);
    assert_eq!(Timestamp::new(
        now.year, now.month, now.day, now.hour, now.minute, now.second, now.nanosecond
    ), Some(now));
}
