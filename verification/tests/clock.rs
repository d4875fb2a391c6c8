use shared_paste::clock::{
    Moment, ShiftError, EARLIEST_SECOND, LATEST_SECOND, LONGEST_SPAN, NANOS_PER_SECOND,
};

fn moment(secs: i64, nanos: u32) -> Moment {
    Moment::new(secs, nanos).unwrap()
}

fn chrono_sum(secs: i64, nanos: u32, by: i64) -> Option<(i64, u32)> {
    let at = chrono::DateTime::from_timestamp(secs, nanos)?;
    let span = chrono::TimeDelta::try_seconds(by)?;
    let sum = at.checked_add_signed(span)?;
    Some((sum.timestamp(), sum.timestamp_subsec_nanos()))
}

#[test]
fn range_constants_are_those_of_chrono() {
    assert_eq!(chrono::DateTime::<chrono::Utc>::MIN_UTC.timestamp(), EARLIEST_SECOND);
    assert_eq!(chrono::DateTime::<chrono::Utc>::MIN_UTC.timestamp_subsec_nanos(), 0);
    assert_eq!(chrono::DateTime::<chrono::Utc>::MAX_UTC.timestamp(), LATEST_SECOND);
    assert_eq!(
        chrono::DateTime::<chrono::Utc>::MAX_UTC.timestamp_subsec_nanos(),
        NANOS_PER_SECOND - 1
    );
    assert_eq!(EARLIEST_SECOND, -8_334_601_228_800);
    assert_eq!(LATEST_SECOND, 8_210_266_876_799);
    assert_eq!(NANOS_PER_SECOND, 1_000_000_000);
}

#[test]
fn longest_span_is_that_of_a_time_delta() {
    assert_eq!(LONGEST_SPAN, i64::MAX / 1000);
    assert!(chrono::TimeDelta::try_seconds(LONGEST_SPAN).is_some());
    assert!(chrono::TimeDelta::try_seconds(LONGEST_SPAN + 1).is_none());
    assert!(chrono::TimeDelta::try_seconds(-LONGEST_SPAN).is_some());
    assert!(chrono::TimeDelta::try_seconds(-LONGEST_SPAN - 1).is_none());
}

#[test]
fn new_takes_what_chrono_represents() {
    assert!(Moment::new(0, 0).is_some());
    assert!(Moment::new(EARLIEST_SECOND, 0).is_some());
    assert!(Moment::new(EARLIEST_SECOND - 1, 0).is_none());
    assert!(Moment::new(EARLIEST_SECOND - 1, 999_999_999).is_none());
    assert!(Moment::new(LATEST_SECOND, 999_999_999).is_some());
    assert!(Moment::new(LATEST_SECOND + 1, 0).is_none());
    assert!(Moment::new(i64::MIN, 0).is_none());
    assert!(Moment::new(i64::MAX, 0).is_none());
    for secs in [EARLIEST_SECOND - 1, EARLIEST_SECOND, -1, 0, 1, LATEST_SECOND, LATEST_SECOND + 1] {
        for nanos in [0, 1, 999_999_999] {
            assert_eq!(
                Moment::new(secs, nanos).is_some(),
                chrono::DateTime::from_timestamp(secs, nanos).is_some()
            );
        }
    }
}

#[test]
fn new_refuses_a_whole_second_of_nanoseconds() {
    assert!(Moment::new(0, 999_999_999).is_some());
    assert!(Moment::new(0, 1_000_000_000).is_none());
    assert!(Moment::new(59, 1_500_000_000).is_none());
    assert!(Moment::new(0, u32::MAX).is_none());
}

#[test]
fn parts_come_back_as_given() {
    let at = moment(1_431_648_000, 123_456_789);
    assert_eq!(at.timestamp(), 1_431_648_000);
    assert_eq!(at.subsec_nanos(), 123_456_789);
    let early = moment(-1, 999_999_999);
    assert_eq!(early.timestamp(), -1);
    assert_eq!(early.subsec_nanos(), 999_999_999);
}

#[test]
fn plus_seconds_adds_to_the_timestamp() {
    assert_eq!(moment(1_431_648_000, 5).plus_seconds(900), Ok(moment(1_431_648_900, 5)));
    assert_eq!(moment(1_431_648_000, 5).plus_seconds(-900), Ok(moment(1_431_647_100, 5)));
    assert_eq!(moment(1_431_648_000, 5).plus_seconds(0), Ok(moment(1_431_648_000, 5)));
    assert_eq!(moment(0, 0).plus_seconds(86_400), Ok(moment(86_400, 0)));
    assert_eq!(moment(10, 999_999_999).plus_seconds(-11), Ok(moment(-1, 999_999_999)));
}

#[test]
fn plus_seconds_reaches_both_ends_of_the_range() {
    assert_eq!(moment(LATEST_SECOND - 1, 7).plus_seconds(1), Ok(moment(LATEST_SECOND, 7)));
    assert_eq!(moment(EARLIEST_SECOND + 1, 7).plus_seconds(-1), Ok(moment(EARLIEST_SECOND, 7)));
    assert_eq!(
        moment(EARLIEST_SECOND, 0).plus_seconds(LATEST_SECOND - EARLIEST_SECOND),
        Ok(moment(LATEST_SECOND, 0))
    );
    assert_eq!(
        moment(LATEST_SECOND, 999_999_999).plus_seconds(EARLIEST_SECOND - LATEST_SECOND),
        Ok(moment(EARLIEST_SECOND, 999_999_999))
    );
}

#[test]
fn plus_seconds_refuses_an_instant_out_of_range() {
    assert_eq!(moment(LATEST_SECOND, 0).plus_seconds(1), Err(ShiftError::InstantOutOfRange));
    assert_eq!(moment(EARLIEST_SECOND, 0).plus_seconds(-1), Err(ShiftError::InstantOutOfRange));
    assert_eq!(moment(0, 0).plus_seconds(LONGEST_SPAN), Err(ShiftError::InstantOutOfRange));
    assert_eq!(moment(0, 0).plus_seconds(-LONGEST_SPAN), Err(ShiftError::InstantOutOfRange));
    assert_eq!(moment(0, 0).plus_seconds(LATEST_SECOND + 1), Err(ShiftError::InstantOutOfRange));
}

#[test]
fn plus_seconds_refuses_a_span_out_of_bounds() {
    assert_eq!(moment(0, 0).plus_seconds(LONGEST_SPAN + 1), Err(ShiftError::SpanOutOfBounds));
    assert_eq!(moment(0, 0).plus_seconds(-LONGEST_SPAN - 1), Err(ShiftError::SpanOutOfBounds));
    assert_eq!(moment(0, 0).plus_seconds(i64::MAX), Err(ShiftError::SpanOutOfBounds));
    assert_eq!(moment(0, 0).plus_seconds(i64::MIN), Err(ShiftError::SpanOutOfBounds));
    assert_eq!(
        moment(LATEST_SECOND, 0).plus_seconds(i64::MIN),
        Err(ShiftError::SpanOutOfBounds)
    );
}

#[test]
fn plus_seconds_agrees_with_chrono() {
    let starts = [
        (EARLIEST_SECOND, 0),
        (EARLIEST_SECOND + 86_399, 1),
        (-86_401, 999_999_999),
        (-1, 500),
        (0, 0),
        (59, 999_999_999),
        (1_431_648_000, 123_456_789),
        (1_483_228_799, 999_999_999),
        (LATEST_SECOND - 86_400, 3),
        (LATEST_SECOND, 999_999_999),
    ];
    let spans = [
        i64::MIN,
        -LONGEST_SPAN - 1,
        -LONGEST_SPAN,
        EARLIEST_SECOND - LATEST_SECOND,
        EARLIEST_SECOND,
        -86_401,
        -86_400,
        -900,
        -1,
        0,
        1,
        59,
        900,
        86_399,
        86_400,
        LATEST_SECOND,
        LATEST_SECOND - EARLIEST_SECOND,
        LATEST_SECOND - EARLIEST_SECOND + 1,
        LONGEST_SPAN,
        LONGEST_SPAN + 1,
        i64::MAX,
    ];
    for (secs, nanos) in starts {
        for by in spans {
            let ours = moment(secs, nanos)
                .plus_seconds(by)
                .ok()
                .map(|sum| (sum.timestamp(), sum.subsec_nanos()));
            assert_eq!(ours, chrono_sum(secs, nanos, by), "{secs}.{nanos} + {by}");
        }
    }
}

#[test]
fn not_after_orders_by_seconds_then_nanoseconds() {
    assert!(moment(5, 0).not_after(&moment(5, 0)));
    assert!(moment(5, 0).not_after(&moment(5, 1)));
    assert!(!moment(5, 1).not_after(&moment(5, 0)));
    assert!(moment(4, 999_999_999).not_after(&moment(5, 0)));
    assert!(!moment(5, 0).not_after(&moment(4, 999_999_999)));
    assert!(moment(-2, 0).not_after(&moment(-1, 0)));
    assert!(!moment(-1, 0).not_after(&moment(-2, 999_999_999)));
    assert!(moment(EARLIEST_SECOND, 0).not_after(&moment(LATEST_SECOND, 999_999_999)));
}

#[test]
fn not_after_agrees_with_chrono() {
    let instants = [(-2, 999_999_999), (-1, 0), (0, 0), (0, 1), (0, 999_999_999), (1, 0), (1, 1)];
    for (a_secs, a_nanos) in instants {
        for (b_secs, b_nanos) in instants {
            let a = chrono::DateTime::from_timestamp(a_secs, a_nanos).unwrap();
            let b = chrono::DateTime::from_timestamp(b_secs, b_nanos).unwrap();
            assert_eq!(moment(a_secs, a_nanos).not_after(&moment(b_secs, b_nanos)), a <= b);
        }
    }
}

#[test]
fn now_follows_the_system_clock() {
    let before = chrono::Utc::now();
    let at = Moment::now();
    let after = chrono::Utc::now();
    assert!(at.subsec_nanos() < NANOS_PER_SECOND);
    assert!(moment(before.timestamp(), before.timestamp_subsec_nanos()).not_after(&at));
    assert!(at.not_after(&moment(after.timestamp(), after.timestamp_subsec_nanos())));
    assert!(at.timestamp() > 1_600_000_000);
}
