use analytics::builder::QueryBuilder;
use analytics::clause::GroupByClause;
use analytics::errors::PostProcessingError;
use analytics::granularity::Granularity;
use analytics::granularity::SeriesBucket;
use analytics::granularity::TimeGranularityLevel;
use analytics::granularity::TimeOfDay;
use analytics::granularity::Timestamp;
use analytics::source::AnalyticsCollection;
use analytics::source::ClickhouseClient;
use analytics::source::SqlxClient;

const WIDTHS: [Granularity; 6] = [
    Granularity::OneMin,
    Granularity::FiveMin,
    Granularity::FifteenMin,
    Granularity::ThirtyMin,
    Granularity::OneHour,
    Granularity::OneDay,
];

fn at(julian_day: i32, hour: u8, minute: u8, second: u8, nanosecond: u32) -> Timestamp {
    Timestamp { julian_day, time: TimeOfDay { hour, minute, second, nanosecond } }
}

fn samples() -> Vec<Timestamp> {
    let mut all = Vec::new();
    for julian_day in [2460000, 2460001] {
        for hour in [0u8, 11, 12, 23] {
            for minute in [0u8, 4, 5, 14, 15, 29, 30, 44, 45, 59] {
                for second in [0u8, 30, 59] {
                    for nanosecond in [0u32, 999_999_999] {
                        all.push(at(julian_day, hour, minute, second, nanosecond));
                    }
                }
            }
        }
    }
    all
}

#[test]
fn levels_and_sizes_of_the_widths() {
    let expected = [
        (Granularity::OneMin, TimeGranularityLevel::Minute, 60u8),
        (Granularity::FiveMin, TimeGranularityLevel::Hour, 5),
        (Granularity::FifteenMin, TimeGranularityLevel::Hour, 15),
        (Granularity::ThirtyMin, TimeGranularityLevel::Hour, 30),
        (Granularity::OneHour, TimeGranularityLevel::Hour, 60),
        (Granularity::OneDay, TimeGranularityLevel::Day, 24),
    ];
    for (width, level, size) in expected {
        assert_eq!(width.get_lowest_common_granularity_level(), level);
        assert_eq!(width.get_bucket_size(), size);
    }
}

#[test]
fn levels_are_named_in_lower_case() {
    assert_eq!(TimeGranularityLevel::Minute.to_string(), "minute");
    assert_eq!(TimeGranularityLevel::Hour.to_string(), "hour");
    assert_eq!(TimeGranularityLevel::Day.to_string(), "day");
}

#[test]
fn clipping_to_the_start_of_each_width() {
    let t = at(2460000, 12, 34, 56, 789);
    assert_eq!(Granularity::OneMin.clip_to_start(t), Ok(at(2460000, 12, 34, 0, 0)));
    assert_eq!(Granularity::FiveMin.clip_to_start(t), Ok(at(2460000, 12, 30, 0, 0)));
    assert_eq!(Granularity::FifteenMin.clip_to_start(t), Ok(at(2460000, 12, 30, 0, 0)));
    assert_eq!(Granularity::ThirtyMin.clip_to_start(t), Ok(at(2460000, 12, 30, 0, 0)));
    assert_eq!(Granularity::OneHour.clip_to_start(t), Ok(at(2460000, 12, 0, 0, 0)));
    assert_eq!(Granularity::OneDay.clip_to_start(t), Ok(at(2460000, 0, 0, 0, 0)));
}

#[test]
fn clipping_to_the_end_of_each_width() {
    let t = at(2460000, 12, 34, 56, 789);
    assert_eq!(Granularity::OneMin.clip_to_end(t), Ok(at(2460000, 12, 34, 59, 0)));
    assert_eq!(Granularity::FiveMin.clip_to_end(t), Ok(at(2460000, 12, 34, 0, 0)));
    assert_eq!(Granularity::FifteenMin.clip_to_end(t), Ok(at(2460000, 12, 44, 0, 0)));
    assert_eq!(Granularity::ThirtyMin.clip_to_end(t), Ok(at(2460000, 12, 59, 0, 0)));
    assert_eq!(Granularity::OneHour.clip_to_end(t), Ok(at(2460000, 12, 59, 0, 0)));
    assert_eq!(Granularity::OneDay.clip_to_end(t), Ok(at(2460000, 23, 0, 0, 0)));
}

#[test]
fn clipping_at_the_edges_of_the_clock() {
    let first = at(-5, 0, 0, 0, 0);
    let last = at(7, 23, 59, 59, 999_999_999);
    for width in WIDTHS {
        assert_eq!(width.clip_to_start(first), Ok(first));
    }
    assert_eq!(Granularity::OneMin.clip_to_start(last), Ok(at(7, 23, 59, 0, 0)));
    assert_eq!(Granularity::FiveMin.clip_to_start(last), Ok(at(7, 23, 55, 0, 0)));
    assert_eq!(Granularity::FifteenMin.clip_to_start(last), Ok(at(7, 23, 45, 0, 0)));
    assert_eq!(Granularity::ThirtyMin.clip_to_start(last), Ok(at(7, 23, 30, 0, 0)));
    assert_eq!(Granularity::OneHour.clip_to_start(last), Ok(at(7, 23, 0, 0, 0)));
    assert_eq!(Granularity::OneDay.clip_to_start(last), Ok(at(7, 0, 0, 0, 0)));
    assert_eq!(Granularity::OneMin.clip_to_end(last), Ok(at(7, 23, 59, 59, 0)));
    assert_eq!(Granularity::FiveMin.clip_to_end(last), Ok(at(7, 23, 59, 0, 0)));
    assert_eq!(Granularity::OneDay.clip_to_end(first), Ok(at(-5, 23, 0, 0, 0)));
}

#[test]
fn the_start_is_never_later_and_clipping_twice_changes_nothing() {
    for width in WIDTHS {
        for t in samples() {
            let start = width.clip_to_start(t).unwrap();
            assert!(start.le(&t));
            assert!(start.time.is_valid());
            assert_eq!(width.clip_to_start(start), Ok(start));
        }
    }
}

#[test]
fn the_end_lies_in_the_bucket_and_not_before_its_start() {
    for width in WIDTHS {
        for t in samples() {
            let start = width.clip_to_start(t).unwrap();
            let end = width.clip_to_end(t).unwrap();
            assert!(start.le(&end));
            assert!(end.time.is_valid());
            assert_eq!(width.clip_to_start(end), Ok(start));
        }
    }
}

#[test]
fn the_end_is_not_earlier_unless_the_time_is_past_the_last_boundary() {
    for width in WIDTHS {
        for t in samples() {
            let end = width.clip_to_end(t).unwrap();
            let (field, finer_are_zero) = match width.get_lowest_common_granularity_level() {
                TimeGranularityLevel::Minute => (t.time.second, t.time.nanosecond == 0),
                TimeGranularityLevel::Hour => {
                    (t.time.minute, t.time.second == 0 && t.time.nanosecond == 0)
                }
                TimeGranularityLevel::Day => (
                    t.time.hour,
                    t.time.minute == 0 && t.time.second == 0 && t.time.nanosecond == 0,
                ),
            };
            let size = width.get_bucket_size();
            let last = field - field % size + size - 1;
            assert_eq!(t.le(&end), field < last || finer_are_zero);
        }
    }
    let late = at(2460000, 12, 34, 30, 0);
    let end = Granularity::FiveMin.clip_to_end(late).unwrap();
    assert_eq!(end, at(2460000, 12, 34, 0, 0));
    assert!(!late.le(&end));
}

#[test]
fn a_time_off_the_clock_cannot_be_clipped() {
    let failed = Err(PostProcessingError::BucketClipping);
    assert_eq!(Granularity::FiveMin.clip_to_start(at(1, 12, 75, 0, 0)), failed);
    assert_eq!(Granularity::FiveMin.clip_to_start(at(1, 24, 10, 0, 0)), failed);
    assert_eq!(Granularity::OneMin.clip_to_start(at(1, 12, 10, 60, 0)), failed);
    assert_eq!(Granularity::OneMin.clip_to_start(at(1, 12, 60, 10, 0)), failed);
    assert_eq!(Granularity::OneDay.clip_to_start(at(1, 24, 0, 0, 0)), failed);
    assert_eq!(Granularity::OneMin.clip_to_end(at(1, 12, 10, 200, 0)), failed);
    assert_eq!(Granularity::OneMin.clip_to_end(at(1, 12, 10, 250, 0)), failed);
    assert_eq!(Granularity::OneHour.clip_to_end(at(1, 12, 255, 0, 0)), failed);
    assert_eq!(Granularity::OneDay.clip_to_end(at(1, 255, 0, 0, 0)), failed);
}

#[test]
fn components_that_are_not_read_need_not_be_on_the_clock() {
    assert_eq!(
        Granularity::OneHour.clip_to_start(at(1, 12, 10, 99, 2_000_000_000)),
        Ok(at(1, 12, 0, 0, 0))
    );
    assert_eq!(Granularity::OneDay.clip_to_end(at(1, 3, 99, 99, 0)), Ok(at(1, 23, 0, 0, 0)));
}

#[test]
fn earlier_and_later_instants_compare_by_day_then_time() {
    assert!(at(1, 23, 59, 59, 999_999_999).le(&at(2, 0, 0, 0, 0)));
    assert!(!at(2, 0, 0, 0, 0).le(&at(1, 23, 59, 59, 999_999_999)));
    assert!(at(2, 1, 2, 3, 4).le(&at(2, 1, 2, 3, 4)));
    assert!(at(2, 1, 2, 3, 4).le(&at(2, 1, 2, 3, 5)));
    assert!(!at(2, 1, 2, 4, 0).le(&at(2, 1, 2, 3, 999_999_999)));
    assert!(at(-3, 5, 0, 0, 0).le(&at(-2, 4, 0, 0, 0)));
    assert!(TimeOfDay { hour: 23, minute: 59, second: 59, nanosecond: 999_999_999 }.is_valid());
    assert!(!TimeOfDay { hour: 24, minute: 0, second: 0, nanosecond: 0 }.is_valid());
    assert!(!TimeOfDay { hour: 0, minute: 60, second: 0, nanosecond: 0 }.is_valid());
    assert!(!TimeOfDay { hour: 0, minute: 0, second: 60, nanosecond: 0 }.is_valid());
    assert!(!TimeOfDay { hour: 0, minute: 0, second: 0, nanosecond: 1_000_000_000 }.is_valid());
}

#[test]
fn the_transactional_backend_groups_by_truncation_and_binning() {
    let expected = [
        (Granularity::OneMin, "DATE_TRUNC('minute', created_at)"),
        (
            Granularity::FiveMin,
            "DATE_TRUNC('hour', created_at), FLOOR(DATE_PART('minute', created_at)/5)",
        ),
        (
            Granularity::FifteenMin,
            "DATE_TRUNC('hour', created_at), FLOOR(DATE_PART('minute', created_at)/15)",
        ),
        (
            Granularity::ThirtyMin,
            "DATE_TRUNC('hour', created_at), FLOOR(DATE_PART('minute', created_at)/30)",
        ),
        (Granularity::OneHour, "DATE_TRUNC('hour', created_at)"),
        (Granularity::OneDay, "DATE_TRUNC('day', created_at)"),
    ];
    for (width, columns) in expected {
        let mut builder: QueryBuilder<SqlxClient> = QueryBuilder::new(AnalyticsCollection::Payment);
        builder.add_select_column("count").unwrap();
        builder.add_group_by_clause("currency").unwrap();
        width.set_group_by_clause(&mut builder).unwrap();
        assert_eq!(
            builder.build_query().unwrap(),
            format!("SELECT count FROM payment_attempt WHERE (  ) GROUP BY currency, {}", columns)
        );
    }
}

#[test]
fn the_analytical_backend_groups_by_the_start_of_the_interval() {
    let expected = [
        (Granularity::OneMin, "toStartOfMinute(created_at)"),
        (Granularity::FiveMin, "toStartOfFiveMinutes(created_at)"),
        (Granularity::FifteenMin, "toStartOfFifteenMinutes(created_at)"),
        (Granularity::ThirtyMin, "toStartOfInterval(created_at, INTERVAL 30 minute)"),
        (Granularity::OneHour, "toStartOfHour(created_at)"),
        (Granularity::OneDay, "toStartOfDay(created_at)"),
    ];
    for (width, column) in expected {
        let mut builder: QueryBuilder<ClickhouseClient> =
            QueryBuilder::new(AnalyticsCollection::ApiEvents);
        builder.add_select_column("count").unwrap();
        width.set_group_by_clause(&mut builder).unwrap();
        assert_eq!(
            builder.build_query().unwrap(),
            format!("SELECT count FROM api_events_audit WHERE (  ) GROUP BY {}", column)
        );
    }
}

/// What the grouping columns of the transactional backend evaluate to.
fn truncation_and_bin(width: Granularity, t: Timestamp) -> (i32, u8, u8, u8) {
    match width {
        Granularity::OneMin => (t.julian_day, t.time.hour, t.time.minute, 0),
        Granularity::FiveMin => (t.julian_day, t.time.hour, 0, t.time.minute / 5),
        Granularity::FifteenMin => (t.julian_day, t.time.hour, 0, t.time.minute / 15),
        Granularity::ThirtyMin => (t.julian_day, t.time.hour, 0, t.time.minute / 30),
        Granularity::OneHour => (t.julian_day, t.time.hour, 0, 0),
        Granularity::OneDay => (t.julian_day, 0, 0, 0),
    }
}

/// What the grouping column of the analytical backend evaluates to.
fn start_of_interval(width: Granularity, t: Timestamp) -> Timestamp {
    let minutes_of_day = t.time.hour as u32 * 60 + t.time.minute as u32;
    let span = match width {
        Granularity::OneMin => 1,
        Granularity::FiveMin => 5,
        Granularity::FifteenMin => 15,
        Granularity::ThirtyMin => 30,
        Granularity::OneHour => 60,
        Granularity::OneDay => 1440,
    };
    let start = minutes_of_day - minutes_of_day % span;
    at(t.julian_day, (start / 60) as u8, (start % 60) as u8, 0, 0)
}

#[test]
fn both_backends_and_the_clipping_put_the_same_instants_together() {
    let all = samples();
    for width in WIDTHS {
        for a in &all {
            assert_eq!(width.clip_to_start(*a), Ok(start_of_interval(width, *a)));
            for b in &all {
                let same_bucket = width.clip_to_start(*a) == width.clip_to_start(*b);
                assert_eq!(
                    truncation_and_bin(width, *a) == truncation_and_bin(width, *b),
                    same_bucket
                );
                assert_eq!(
                    start_of_interval(width, *a) == start_of_interval(width, *b),
                    same_bucket
                );
            }
        }
    }
}
