use issues_service::instant::{read, read_exact, read_to_the_second, Instant, Timestamp};

#[test]
fn instant_is_rendered_as_date_and_time() {
    assert_eq!(
        Instant { seconds: 0, nanos: 0 }.rendered(),
        Some("1970-01-01 00:00:00".to_string())
    );
    assert_eq!(
        Instant { seconds: 1_431_648_000, nanos: 0 }.rendered(),
        Some("2015-05-15 00:00:00".to_string())
    );
    assert_eq!(
        Instant { seconds: 1_479_195_564, nanos: 0 }.rendered(),
        Some("2016-11-15 07:39:24".to_string())
    );
    assert_eq!(
        Instant { seconds: -1, nanos: 500_000_000 }.rendered(),
        Some("1969-12-31 23:59:59.500".to_string())
    );
}

#[test]
fn instant_off_the_calendar_is_not_rendered() {
    assert_eq!(Instant { seconds: i64::MAX, nanos: 0 }.rendered(), None);
    assert_eq!(Instant { seconds: i64::MIN, nanos: 0 }.rendered(), None);
    assert_eq!(Instant { seconds: 0, nanos: 2_000_000_000 }.rendered(), None);
    assert_eq!(Instant { seconds: 0, nanos: 1_000_000_000 }.rendered(), None);
}

#[test]
fn instant_order_goes_by_seconds_then_nanoseconds() {
    let early = Instant { seconds: 10, nanos: 999_999_999 };
    let late = Instant { seconds: 11, nanos: 0 };
    assert!(late.is_not_before(&early));
    assert!(!early.is_not_before(&late));
    assert!(early.is_not_before(&early));
    assert!(Instant { seconds: 10, nanos: 5 }.is_not_before(&Instant { seconds: 10, nanos: 4 }));
    assert!(!Instant { seconds: 10, nanos: 4 }.is_not_before(&Instant { seconds: 10, nanos: 5 }));
    assert!(!Instant { seconds: -1, nanos: 0 }.is_not_before(&Instant { seconds: 0, nanos: 0 }));
}

#[test]
fn timestamp_becomes_an_instant() {
    let stamp = Timestamp { seconds: 60, nanos: 7 };
    assert_eq!(stamp.to_the_second(), Instant { seconds: 60, nanos: 0 });
    assert_eq!(stamp.exact(), Some(Instant { seconds: 60, nanos: 7 }));

    let negative = Timestamp { seconds: 60, nanos: -7 };
    assert_eq!(negative.to_the_second(), Instant { seconds: 60, nanos: 0 });
    assert_eq!(negative.exact(), None);
    assert_eq!(
        Timestamp { seconds: -5, nanos: 0 }.exact(),
        Some(Instant { seconds: -5, nanos: 0 })
    );
    assert_eq!(
        Timestamp { seconds: 0, nanos: i32::MAX }.exact(),
        Some(Instant { seconds: 0, nanos: 2_147_483_647 })
    );
}

#[test]
fn optional_dates_are_read_off_the_calendar() {
    assert_eq!(read(&None), None);
    assert_eq!(
        read(&Some(Instant { seconds: 86_400, nanos: 0 })),
        Some("1970-01-02 00:00:00".to_string())
    );
    assert_eq!(read(&Some(Instant { seconds: i64::MAX, nanos: 0 })), None);

    assert_eq!(read_to_the_second(&None), None);
    assert_eq!(
        read_to_the_second(&Some(Timestamp { seconds: 86_400, nanos: 123 })),
        Some("1970-01-02 00:00:00".to_string())
    );
    assert_eq!(
        read_to_the_second(&Some(Timestamp { seconds: 86_400, nanos: -123 })),
        Some("1970-01-02 00:00:00".to_string())
    );
    assert_eq!(read_to_the_second(&Some(Timestamp { seconds: i64::MAX, nanos: 0 })), None);

    assert_eq!(read_exact(&None), None);
    assert_eq!(
        read_exact(&Some(Timestamp { seconds: 86_400, nanos: 250_000_000 })),
        Some("1970-01-02 00:00:00.250".to_string())
    );
    assert_eq!(read_exact(&Some(Timestamp { seconds: 86_400, nanos: -1 })), None);
    assert_eq!(read_exact(&Some(Timestamp { seconds: i64::MIN, nanos: 0 })), None);
}
