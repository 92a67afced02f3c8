//! Values that know which clauses they stand for: filters that narrow a
//! query, and the grouping of rows into time buckets, which each backend
//! writes in its own way.

use vstd::prelude::*;
use vstd::string::StringExecFns;

use crate::builder::QueryBuilder;
use crate::builder::QueryView;
use crate::errors::QueryResult;
use crate::filter::FilterView;
use crate::granularity::Granularity;
use crate::granularity::SeriesBucket;
use crate::granularity::TimeGranularityLevel;
use crate::granularity::TimeOfDay;
use crate::granularity::Timestamp;
use crate::source::AnalyticsDataSource;
use crate::source::ClickhouseClient;
use crate::source::SqlxClient;
use crate::source::TableEngine;
use crate::text::decimal;
use crate::text::u64_to_string;

verus! {

/// A value that narrows a query of backend `T` by filters of its own.
///
/// It touches nothing but the filters, and adds to them only: what was
/// required before stays required.
pub trait QueryFilter<T: AnalyticsDataSource> {
    /// The filters that the value adds, in order. Where one of its operands
    /// has no text, these are the filters before that one.
    spec fn added_filters(&self, table_engine: TableEngine) -> Seq<FilterView>;

    /// Every operand of the value's filters renders.
    spec fn adds_all(&self, table_engine: TableEngine) -> bool;

    fn set_filter_clause(&self, builder: &mut QueryBuilder<T>) -> (res: QueryResult<()>)
        ensures
            final(builder)@ == (QueryView {
                filters: old(builder)@.filters.with_all(
                    self.added_filters(old(builder)@.table_engine),
                ),
                ..old(builder)@
            }),
            res is Ok <==> self.adds_all(old(builder)@.table_engine),
    ;
}

/// A value that groups the rows of a query of backend `T`.
///
/// It touches nothing but the grouping, and adds to it only.
pub trait GroupByClause<T: AnalyticsDataSource> {
    /// The grouping columns that the value adds, in order. Where one of
    /// them has no text, these are the columns before that one.
    spec fn added_columns(&self, table_engine: TableEngine) -> Seq<Seq<char>>;

    /// Every grouping column of the value renders.
    spec fn adds_all(&self, table_engine: TableEngine) -> bool;

    fn set_group_by_clause(&self, builder: &mut QueryBuilder<T>) -> (res: QueryResult<()>)
        ensures
            res is Ok <==> self.adds_all(old(builder)@.table_engine),
            final(builder)@ == (QueryView {
                group_by: old(builder)@.group_by + self.added_columns(
                    old(builder)@.table_engine,
                ),
                ..old(builder)@
            }),
    ;
}

/// The widths narrower than an hour that span more than one minute: the
/// transactional backend needs a second grouping column for them.
pub open spec fn divides_the_hour(granularity: Granularity) -> bool {
    granularity is FiveMin || granularity is FifteenMin || granularity is ThirtyMin
}

/// The creation time cut down to the level of the width.
pub open spec fn truncation_text(granularity: Granularity) -> Seq<char> {
    "DATE_TRUNC('"@ + granularity.lowest_common_granularity_level().text() + "', created_at)"@
}

/// The number of the bucket within the hour: the minute of the creation
/// time, divided by the bucket size and rounded down.
pub open spec fn binning_text(granularity: Granularity) -> Seq<char> {
    "FLOOR(DATE_PART('minute', created_at)/"@ + decimal(granularity.bucket_size() as nat) + ")"@
}

/// The function of the analytical backend that gives the start of the
/// bucket of the creation time.
pub open spec fn interval_text(granularity: Granularity) -> Seq<char> {
    match granularity {
        Granularity::OneMin => "toStartOfMinute(created_at)"@,
        Granularity::FiveMin => "toStartOfFiveMinutes(created_at)"@,
        Granularity::FifteenMin => "toStartOfFifteenMinutes(created_at)"@,
        Granularity::ThirtyMin => "toStartOfInterval(created_at, INTERVAL 30 minute)"@,
        Granularity::OneHour => "toStartOfHour(created_at)"@,
        Granularity::OneDay => "toStartOfDay(created_at)"@,
    }
}

/// The transactional backend has no buckets of minutes: it groups by the
/// creation time cut down to the level of the width and, for the widths that
/// divide the hour, also by the number of the bucket within the hour.
impl GroupByClause<SqlxClient> for Granularity {
    open spec fn added_columns(&self, table_engine: TableEngine) -> Seq<Seq<char>> {
        if divides_the_hour(*self) {
            seq![truncation_text(*self), binning_text(*self)]
        } else {
            seq![truncation_text(*self)]
        }
    }

    open spec fn adds_all(&self, table_engine: TableEngine) -> bool {
        true
    }

    fn set_group_by_clause(&self, builder: &mut QueryBuilder<SqlxClient>) -> (res: QueryResult<
        (),
    >) {
        let ghost before = builder@;
        let mut truncation = String::from_str("DATE_TRUNC('");
        truncation.append(self.get_lowest_common_granularity_level().to_string().as_str());
        truncation.append("', created_at)");
        let binned = match self {
            Granularity::OneMin => false,
            Granularity::FiveMin | Granularity::FifteenMin | Granularity::ThirtyMin => true,
            Granularity::OneHour | Granularity::OneDay => false,
        };
        let divisor = self.get_bucket_size();
        match builder.add_group_by_clause(truncation) {
            Ok(()) => {},
            Err(e) => {
                return Err(e);
            },
        }
        if binned {
            let mut binning = String::from_str("FLOOR(DATE_PART('minute', created_at)/");
            binning.append(u64_to_string(divisor as u64).as_str());
            binning.append(")");
            match builder.add_group_by_clause(binning) {
                Ok(()) => {},
                Err(e) => {
                    return Err(e);
                },
            }
        }
        assert(builder@.group_by =~= before.group_by + GroupByClause::<SqlxClient>::added_columns(
            self,
            before.table_engine,
        ));
        Ok(())
    }
}

/// The analytical backend has a function for the start of each width's
/// bucket: it groups by that one column.
impl GroupByClause<ClickhouseClient> for Granularity {
    open spec fn added_columns(&self, table_engine: TableEngine) -> Seq<Seq<char>> {
        seq![interval_text(*self)]
    }

    open spec fn adds_all(&self, table_engine: TableEngine) -> bool {
        true
    }

    fn set_group_by_clause(&self, builder: &mut QueryBuilder<ClickhouseClient>) -> (res:
        QueryResult<()>) {
        let ghost before = builder@;
        let interval = match self {
            Granularity::OneMin => "toStartOfMinute(created_at)",
            Granularity::FiveMin => "toStartOfFiveMinutes(created_at)",
            Granularity::FifteenMin => "toStartOfFifteenMinutes(created_at)",
            Granularity::ThirtyMin => "toStartOfInterval(created_at, INTERVAL 30 minute)",
            Granularity::OneHour => "toStartOfHour(created_at)",
            Granularity::OneDay => "toStartOfDay(created_at)",
        };
        let res = builder.add_group_by_clause(interval);
        assert(builder@.group_by =~= before.group_by
            + GroupByClause::<ClickhouseClient>::added_columns(self, before.table_engine));
        res
    }
}

/// An instant cut down to a level, as `DATE_TRUNC` does: the components
/// finer than the level are zero.
pub open spec fn truncated(level: TimeGranularityLevel, instant: Timestamp) -> Timestamp {
    let time = instant.time;
    Timestamp {
        julian_day: instant.julian_day,
        time: match level {
            TimeGranularityLevel::Minute => TimeOfDay {
                hour: time.hour,
                minute: time.minute,
                second: 0,
                nanosecond: 0,
            },
            TimeGranularityLevel::Hour => TimeOfDay {
                hour: time.hour,
                minute: 0,
                second: 0,
                nanosecond: 0,
            },
            TimeGranularityLevel::Day => TimeOfDay::midnight(),
        },
    }
}

/// What the grouping columns of the transactional backend come to for a row
/// created at `instant`: the instant cut down to the level of the width and,
/// for the widths that divide the hour, the minute divided by the bucket
/// size, rounded down.
pub open spec fn sqlx_bucket_key(granularity: Granularity, instant: Timestamp) -> (Timestamp, int) {
    (
        truncated(granularity.lowest_common_granularity_level(), instant),
        if divides_the_hour(granularity) {
            instant.time.minute as int / granularity.bucket_size() as int
        } else {
            0
        },
    )
}

/// What the grouping column of the analytical backend comes to for a row
/// created at `instant`: the start of the interval of the width that holds
/// the instant.
pub open spec fn clickhouse_bucket_key(granularity: Granularity, instant: Timestamp) -> Timestamp {
    let time = instant.time;
    match granularity {
        Granularity::OneMin => truncated(TimeGranularityLevel::Minute, instant),
        Granularity::FiveMin | Granularity::FifteenMin | Granularity::ThirtyMin => Timestamp {
            julian_day: instant.julian_day,
            time: TimeOfDay {
                hour: time.hour,
                minute: (time.minute - time.minute % granularity.bucket_size()) as u8,
                second: 0,
                nanosecond: 0,
            },
        },
        Granularity::OneHour => truncated(TimeGranularityLevel::Hour, instant),
        Granularity::OneDay => truncated(TimeGranularityLevel::Day, instant),
    }
}

/// The two backends put the same instants into the same groups, and these
/// are the buckets of the clipping: two instants on the clock agree on the
/// grouping columns of one backend exactly if they agree on those of the
/// other, and exactly if their buckets start at the same instant. The
/// column of the analytical backend is that start itself.
pub proof fn lemma_backends_group_alike(granularity: Granularity, a: Timestamp, b: Timestamp)
    requires
        a.time.valid(),
        b.time.valid(),
    ensures
        granularity.clipped_to_start(a) matches Ok(start) && start == clickhouse_bucket_key(
            granularity,
            a,
        ),
        (sqlx_bucket_key(granularity, a) == sqlx_bucket_key(granularity, b)) == (
        clickhouse_bucket_key(granularity, a) == clickhouse_bucket_key(granularity, b)),
        (clickhouse_bucket_key(granularity, a) == clickhouse_bucket_key(granularity, b)) == (
        granularity.clipped_to_start(a) == granularity.clipped_to_start(b)),
{
    lemma_start_is_the_interval_start(granularity, a);
    lemma_start_is_the_interval_start(granularity, b);
}

/// The start of the bucket of an instant on the clock is the start of the
/// interval that the analytical backend puts the instant in.
pub proof fn lemma_start_is_the_interval_start(granularity: Granularity, instant: Timestamp)
    requires
        instant.time.valid(),
    ensures
        granularity.clipped_to_start(instant) matches Ok(start) && start == clickhouse_bucket_key(
            granularity,
            instant,
        ),
{
    let time = instant.time;
    match granularity {
        Granularity::OneMin => {
            assert(time.second % 60 == time.second);
        },
        Granularity::FiveMin => {},
        Granularity::FifteenMin => {},
        Granularity::ThirtyMin => {},
        Granularity::OneHour => {
            assert(time.minute % 60 == time.minute);
        },
        Granularity::OneDay => {
            assert(time.hour % 24 == time.hour);
        },
    }
}

} // verus!
