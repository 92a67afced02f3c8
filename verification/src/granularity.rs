//! Time buckets: the widths a series can be grouped by, and the moving of a
//! time to the first or last boundary of the bucket that holds it.

use vstd::prelude::*;
use vstd::string::StringExecFns;

use crate::errors::PostProcessingError;

verus! {

/// The error of the `time` crate for a component out of its range.
#[verifier::external_type_specification]
#[verifier::external_body]
pub struct ExComponentRange(time::error::ComponentRange);

/// The width of a time bucket.
#[derive(Clone, Copy, Debug, PartialEq, Eq, Structural, Hash)]
pub enum Granularity {
    OneMin,
    FiveMin,
    FifteenMin,
    ThirtyMin,
    OneHour,
    OneDay,
}

impl View for Granularity {
    type V = Granularity;

    open spec fn view(&self) -> Granularity {
        *self
    }
}

/// The unit within which the buckets of a width repeat.
#[derive(Clone, Copy, Debug, PartialEq, Eq, Structural)]
pub enum TimeGranularityLevel {
    Minute,
    Hour,
    Day,
}

impl TimeGranularityLevel {
    /// The name of the unit, in lower case.
    pub open spec fn text(self) -> Seq<char> {
        match self {
            TimeGranularityLevel::Minute => "minute"@,
            TimeGranularityLevel::Hour => "hour"@,
            TimeGranularityLevel::Day => "day"@,
        }
    }

    pub fn to_string(&self) -> (name: String)
        ensures
            name@ == self.text(),
    {
        match self {
            TimeGranularityLevel::Minute => String::from_str("minute"),
            TimeGranularityLevel::Hour => String::from_str("hour"),
            TimeGranularityLevel::Day => String::from_str("day"),
        }
    }
}

/// A time within a day, to the nanosecond.
#[derive(Clone, Copy, Debug, PartialEq, Eq, Structural, Hash)]
pub struct TimeOfDay {
    pub hour: u8,
    pub minute: u8,
    pub second: u8,
    pub nanosecond: u32,
}

/// A date, as the number of its Julian day, and a time within it. No time
/// zone is attached.
#[derive(Clone, Copy, Debug, PartialEq, Eq, Structural, Hash)]
pub struct Timestamp {
    pub julian_day: i32,
    pub time: TimeOfDay,
}

impl View for Timestamp {
    type V = Timestamp;

    open spec fn view(&self) -> Timestamp {
        *self
    }
}

impl TimeOfDay {
    /// Every component lies in its range on the clock.
    pub open spec fn valid(self) -> bool {
        &&& self.hour < 24
        &&& self.minute < 60
        &&& self.second < 60
        &&& self.nanosecond < 1_000_000_000
    }

    /// The nanoseconds since midnight.
    pub open spec fn nanos_of_day(self) -> int {
        ((self.hour * 60 + self.minute) * 60 + self.second) * 1_000_000_000 + self.nanosecond
    }

    /// The first instant of a day.
    pub open spec fn midnight() -> TimeOfDay {
        TimeOfDay { hour: 0, minute: 0, second: 0, nanosecond: 0 }
    }

    pub fn is_valid(&self) -> (valid: bool)
        ensures
            valid == self.valid(),
    {
        self.hour < 24 && self.minute < 60 && self.second < 60 && self.nanosecond < 1_000_000_000
    }
}

impl Timestamp {
    /// `self` is not later than `other`: an earlier day, or the same day and
    /// not later in it.
    pub open spec fn spec_le(self, other: Timestamp) -> bool {
        self.julian_day < other.julian_day || (self.julian_day == other.julian_day
            && self.time.nanos_of_day() <= other.time.nanos_of_day())
    }

    pub fn le(&self, other: &Timestamp) -> (not_later: bool)
        ensures
            not_later == self.spec_le(*other),
    {
        if self.julian_day != other.julian_day {
            self.julian_day < other.julian_day
        } else {
            let mine: u64 = ((self.time.hour as u64 * 60 + self.time.minute as u64) * 60
                + self.time.second as u64) * 1_000_000_000 + self.time.nanosecond as u64;
            let theirs: u64 = ((other.time.hour as u64 * 60 + other.time.minute as u64) * 60
                + other.time.second as u64) * 1_000_000_000 + other.time.nanosecond as u64;
            mine <= theirs
        }
    }
}

/// Calls `time::Time::MIDNIGHT` and reads its components, which the crate
/// documents as the smallest time: all zero.
#[verifier::external_body]
fn midnight() -> (time: TimeOfDay)
    ensures
        time == TimeOfDay::midnight(),
{
    let t = time::Time::MIDNIGHT;
    TimeOfDay { hour: t.hour(), minute: t.minute(), second: t.second(), nanosecond: t.nanosecond() }
}

/// Calls `time::Time::replace_hour` on the time with the components given.
/// The crate replaces the hour and keeps the rest when the hour is below 24,
/// and reports a component out of range otherwise.
#[verifier::external_body]
fn replace_hour(time: TimeOfDay, hour: u8) -> (res: Result<TimeOfDay, time::error::ComponentRange>)
    requires
        time.valid(),
    ensures
        res is Ok <==> hour < 24,
        res is Ok ==> res->Ok_0 == (TimeOfDay { hour, ..time }),
{
    let t = time::Time::from_hms_nano(time.hour, time.minute, time.second, time.nanosecond)?;
    let t = t.replace_hour(hour)?;
    Ok(TimeOfDay { hour: t.hour(), minute: t.minute(), second: t.second(), nanosecond: t.nanosecond() })
}

/// Calls `time::Time::replace_minute` on the time with the components given.
/// The crate replaces the minute and keeps the rest when the minute is below
/// 60, and reports a component out of range otherwise.
#[verifier::external_body]
fn replace_minute(time: TimeOfDay, minute: u8) -> (res: Result<
    TimeOfDay,
    time::error::ComponentRange,
>)
    requires
        time.valid(),
    ensures
        res is Ok <==> minute < 60,
        res is Ok ==> res->Ok_0 == (TimeOfDay { minute, ..time }),
{
    let t = time::Time::from_hms_nano(time.hour, time.minute, time.second, time.nanosecond)?;
    let t = t.replace_minute(minute)?;
    Ok(TimeOfDay { hour: t.hour(), minute: t.minute(), second: t.second(), nanosecond: t.nanosecond() })
}

/// Calls `time::Time::replace_second` on the time with the components given.
/// The crate replaces the second and keeps the rest when the second is below
/// 60, and reports a component out of range otherwise.
#[verifier::external_body]
fn replace_second(time: TimeOfDay, second: u8) -> (res: Result<
    TimeOfDay,
    time::error::ComponentRange,
>)
    requires
        time.valid(),
    ensures
        res is Ok <==> second < 60,
        res is Ok ==> res->Ok_0 == (TimeOfDay { second, ..time }),
{
    let t = time::Time::from_hms_nano(time.hour, time.minute, time.second, time.nanosecond)?;
    let t = t.replace_second(second)?;
    Ok(TimeOfDay { hour: t.hour(), minute: t.minute(), second: t.second(), nanosecond: t.nanosecond() })
}

/// The time of day that keeps of `time` the components coarser than the
/// level's, has `field` in the level's own component and zero in the finer
/// ones; none, if a component it is made of lies outside the clock.
pub open spec fn with_level_field(
    level: TimeGranularityLevel,
    time: TimeOfDay,
    field: int,
) -> Option<TimeOfDay> {
    match level {
        TimeGranularityLevel::Minute => if 0 <= field < 60 && time.minute < 60 && time.hour < 24 {
            Some(
                TimeOfDay {
                    hour: time.hour,
                    minute: time.minute,
                    second: field as u8,
                    nanosecond: 0,
                },
            )
        } else {
            None
        },
        TimeGranularityLevel::Hour => if 0 <= field < 60 && time.hour < 24 {
            Some(TimeOfDay { hour: time.hour, minute: field as u8, second: 0, nanosecond: 0 })
        } else {
            None
        },
        TimeGranularityLevel::Day => if 0 <= field < 24 {
            Some(TimeOfDay { hour: field as u8, minute: 0, second: 0, nanosecond: 0 })
        } else {
            None
        },
    }
}

/// The component of `time` that buckets of the level divide: the second for
/// the minute level, the minute for the hour level, the hour for the day
/// level.
pub open spec fn level_field(level: TimeGranularityLevel, time: TimeOfDay) -> u8 {
    match level {
        TimeGranularityLevel::Minute => time.second,
        TimeGranularityLevel::Hour => time.minute,
        TimeGranularityLevel::Day => time.hour,
    }
}

/// The largest multiple of `size` that is not above `value`.
pub open spec fn floor_to(value: u8, size: u8) -> int {
    value - value % size
}

/// The last value of the block of `size` values that holds `value`.
pub open spec fn ceil_to(value: u8, size: u8) -> int {
    value + size - 1 - value % size
}

/// The result of a clipping: the day is kept, the time of day is as made.
pub open spec fn clipped(value: Timestamp, time: Option<TimeOfDay>) -> Result<
    Timestamp,
    PostProcessingError,
> {
    match time {
        Some(time) => Ok(Timestamp { julian_day: value.julian_day, time }),
        None => Err(PostProcessingError::BucketClipping),
    }
}

/// Time buckets over a scale of values.
pub trait SeriesBucket {
    type SeriesType;

    type GranularityLevel;

    /// The unit within which the buckets repeat.
    spec fn lowest_common_granularity_level(&self) -> Self::GranularityLevel;

    /// How many values of the level's component one bucket spans.
    spec fn bucket_size(&self) -> u8;

    /// The first boundary of the bucket that holds `value`.
    spec fn clipped_to_start(&self, value: Self::SeriesType) -> Result<
        Self::SeriesType,
        PostProcessingError,
    >;

    /// The last boundary of the bucket that holds `value`.
    spec fn clipped_to_end(&self, value: Self::SeriesType) -> Result<
        Self::SeriesType,
        PostProcessingError,
    >;

    fn get_lowest_common_granularity_level(&self) -> (level: Self::GranularityLevel)
        ensures
            level == self.lowest_common_granularity_level(),
    ;

    fn get_bucket_size(&self) -> (size: u8)
        ensures
            size == self.bucket_size(),
    ;

    fn clip_to_start(&self, value: Self::SeriesType) -> (res: Result<
        Self::SeriesType,
        PostProcessingError,
    >)
        ensures
            res == self.clipped_to_start(value),
    ;

    fn clip_to_end(&self, value: Self::SeriesType) -> (res: Result<
        Self::SeriesType,
        PostProcessingError,
    >)
        ensures
            res == self.clipped_to_end(value),
    ;
}

/// Builds the clipped time of day from midnight: the level's component
/// first, then the coarser ones, each through the `time` crate.
fn time_with_level_field(level: TimeGranularityLevel, time: TimeOfDay, field: u8) -> (res: Option<
    TimeOfDay,
>)
    ensures
        res == with_level_field(level, time, field as int),
{
    let start = midnight();
    match level {
        TimeGranularityLevel::Minute => {
            match replace_second(start, field) {
                Ok(with_second) => match replace_minute(with_second, time.minute) {
                    Ok(with_minute) => match replace_hour(with_minute, time.hour) {
                        Ok(with_hour) => Some(with_hour),
                        Err(_) => None,
                    },
                    Err(_) => None,
                },
                Err(_) => None,
            }
        },
        TimeGranularityLevel::Hour => {
            match replace_minute(start, field) {
                Ok(with_minute) => match replace_hour(with_minute, time.hour) {
                    Ok(with_hour) => Some(with_hour),
                    Err(_) => None,
                },
                Err(_) => None,
            }
        },
        TimeGranularityLevel::Day => {
            match replace_hour(start, field) {
                Ok(with_hour) => Some(with_hour),
                Err(_) => None,
            }
        },
    }
}

/// The level's component of a time of day.
fn field_of(level: TimeGranularityLevel, time: TimeOfDay) -> (field: u8)
    ensures
        field == level_field(level, time),
{
    match level {
        TimeGranularityLevel::Minute => time.second,
        TimeGranularityLevel::Hour => time.minute,
        TimeGranularityLevel::Day => time.hour,
    }
}

impl SeriesBucket for Granularity {
    type SeriesType = Timestamp;

    type GranularityLevel = TimeGranularityLevel;

    open spec fn lowest_common_granularity_level(&self) -> TimeGranularityLevel {
        match self {
            Granularity::OneMin => TimeGranularityLevel::Minute,
            Granularity::FiveMin
            | Granularity::FifteenMin
            | Granularity::ThirtyMin
            | Granularity::OneHour => TimeGranularityLevel::Hour,
            Granularity::OneDay => TimeGranularityLevel::Day,
        }
    }

    open spec fn bucket_size(&self) -> u8 {
        match self {
            Granularity::OneMin => 60,
            Granularity::FiveMin => 5,
            Granularity::FifteenMin => 15,
            Granularity::ThirtyMin => 30,
            Granularity::OneHour => 60,
            Granularity::OneDay => 24,
        }
    }

    /// The level's component is lowered to a multiple of the bucket size,
    /// the coarser components are kept and the finer ones are zero. It
    /// fails when a component it would write lies outside the clock.
    open spec fn clipped_to_start(&self, value: Timestamp) -> Result<
        Timestamp,
        PostProcessingError,
    > {
        let level = self.lowest_common_granularity_level();
        clipped(
            value,
            with_level_field(
                level,
                value.time,
                floor_to(level_field(level, value.time), self.bucket_size()),
            ),
        )
    }

    /// The level's component is raised to the last value of its block of
    /// the bucket size, the coarser components are kept and the finer ones
    /// are zero. It fails when a component it would write lies outside the
    /// clock.
    open spec fn clipped_to_end(&self, value: Timestamp) -> Result<Timestamp, PostProcessingError> {
        let level = self.lowest_common_granularity_level();
        clipped(
            value,
            with_level_field(
                level,
                value.time,
                ceil_to(level_field(level, value.time), self.bucket_size()),
            ),
        )
    }

    fn get_lowest_common_granularity_level(&self) -> (level: TimeGranularityLevel) {
        match self {
            Granularity::OneMin => TimeGranularityLevel::Minute,
            Granularity::FiveMin
            | Granularity::FifteenMin
            | Granularity::ThirtyMin
            | Granularity::OneHour => TimeGranularityLevel::Hour,
            Granularity::OneDay => TimeGranularityLevel::Day,
        }
    }

    fn get_bucket_size(&self) -> (size: u8) {
        match self {
            Granularity::OneMin => 60,
            Granularity::FiveMin => 5,
            Granularity::FifteenMin => 15,
            Granularity::ThirtyMin => 30,
            Granularity::OneHour => 60,
            Granularity::OneDay => 24,
        }
    }

    fn clip_to_start(&self, value: Timestamp) -> (res: Result<Timestamp, PostProcessingError>) {
        let level = self.get_lowest_common_granularity_level();
        let size = self.get_bucket_size();
        let field = field_of(level, value.time);
        let start = field - field % size;
        match time_with_level_field(level, value.time, start) {
            Some(time) => Ok(Timestamp { julian_day: value.julian_day, time }),
            None => Err(PostProcessingError::BucketClipping),
        }
    }

    fn clip_to_end(&self, value: Timestamp) -> (res: Result<Timestamp, PostProcessingError>) {
        let level = self.get_lowest_common_granularity_level();
        let size = self.get_bucket_size();
        let field = field_of(level, value.time);
        let end: u16 = field as u16 + size as u16 - 1 - (field % size) as u16;
        if end > 255 {
            return Err(PostProcessingError::BucketClipping);
        }
        match time_with_level_field(level, value.time, end as u8) {
            Some(time) => Ok(Timestamp { julian_day: value.julian_day, time }),
            None => Err(PostProcessingError::BucketClipping),
        }
    }
}

/// The components of `time` finer than the level's are all zero.
pub open spec fn finer_fields_are_zero(level: TimeGranularityLevel, time: TimeOfDay) -> bool {
    match level {
        TimeGranularityLevel::Minute => time.nanosecond == 0,
        TimeGranularityLevel::Hour => time.second == 0 && time.nanosecond == 0,
        TimeGranularityLevel::Day => time.minute == 0 && time.second == 0 && time.nanosecond == 0,
    }
}

/// The size of a width's buckets divides the span of the level's component,
/// so a bucket never crosses into the next unit: on the clock, the first and
/// the last value of a block lie on the clock too, on either side of the
/// value, and they are the first and the last of their own block.
proof fn lemma_block_bounds(granularity: Granularity, time: TimeOfDay)
    requires
        time.valid(),
    ensures
        ({
            let level = granularity.lowest_common_granularity_level();
            let size = granularity.bucket_size();
            let field = level_field(level, time);
            let first = floor_to(field, size);
            let last = ceil_to(field, size);
            &&& 0 <= first <= field <= last
            &&& last == first + size - 1
            &&& level is Day ==> last < 24
            &&& !(level is Day) ==> last < 60
            &&& floor_to(first as u8, size) == first
            &&& floor_to(last as u8, size) == first
            &&& ceil_to(last as u8, size) == last
        }),
{
    match granularity {
        Granularity::OneMin => {
            assert(time.second % 60 == time.second);
        },
        Granularity::FiveMin => {
            assert(time.minute % 5 < 5);
        },
        Granularity::FifteenMin => {
            assert(time.minute % 15 < 15);
        },
        Granularity::ThirtyMin => {
            assert(time.minute % 30 < 30);
        },
        Granularity::OneHour => {
            assert(time.minute % 60 == time.minute);
        },
        Granularity::OneDay => {
            assert(time.hour % 24 == time.hour);
        },
    }
}

/// Clipping a time on the clock to the start of its bucket succeeds, gives a
/// time on the clock, and never moves the time forward.
pub proof fn lemma_clip_to_start_is_not_later(granularity: Granularity, value: Timestamp)
    requires
        value.time.valid(),
    ensures
        granularity.clipped_to_start(value) is Ok,
        granularity.clipped_to_start(value)->Ok_0.time.valid(),
        granularity.clipped_to_start(value)->Ok_0.julian_day == value.julian_day,
        granularity.clipped_to_start(value)->Ok_0.spec_le(value),
{
    lemma_block_bounds(granularity, value.time);
}

/// The start of a bucket is its own start: clipping twice is clipping once.
pub proof fn lemma_clip_to_start_is_idempotent(granularity: Granularity, value: Timestamp)
    requires
        value.time.valid(),
    ensures
        granularity.clipped_to_start(value) is Ok,
        granularity.clipped_to_start(granularity.clipped_to_start(value)->Ok_0)
            == granularity.clipped_to_start(value),
{
    lemma_block_bounds(granularity, value.time);
}

/// Clipping a time on the clock to the end of its bucket succeeds and gives a
/// time on the clock, in the bucket of the time. The end has zero in the
/// components finer than the level's, so the time is not later than it
/// unless the time lies in the last unit of the bucket, past that unit's
/// first instant.
pub proof fn lemma_clip_to_end_is_not_earlier(granularity: Granularity, value: Timestamp)
    requires
        value.time.valid(),
    ensures
        granularity.clipped_to_end(value) is Ok,
        granularity.clipped_to_end(value)->Ok_0.time.valid(),
        granularity.clipped_to_end(value)->Ok_0.julian_day == value.julian_day,
        granularity.clipped_to_start(granularity.clipped_to_end(value)->Ok_0)
            == granularity.clipped_to_start(value),
        granularity.clipped_to_start(value)->Ok_0.spec_le(granularity.clipped_to_end(value)->Ok_0),
        value.spec_le(granularity.clipped_to_end(value)->Ok_0) <==> ({
            let level = granularity.lowest_common_granularity_level();
            let field = level_field(level, value.time);
            field < ceil_to(field, granularity.bucket_size()) || finer_fields_are_zero(
                level,
                value.time,
            )
        }),
{
    lemma_block_bounds(granularity, value.time);
}

} // verus!
