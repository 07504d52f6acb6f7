//! Values as the source hands them out, values as the output stores them, and the
//! calendar arithmetic that leads from dates and times to counts since the epoch.

use vstd::prelude::*;

verus! {

/// Calendar date as the source hands it out.
#[derive(Clone, Copy, Debug)]
pub struct Date {
    pub year: i16,
    pub month: u16,
    pub day: u16,
}

/// Time of day as the source hands it out.
#[derive(Clone, Copy, Debug)]
pub struct Time {
    pub hour: u16,
    pub minute: u16,
    pub second: u16,
}

/// Date and time of day as the source hands it out. `fraction` counts nanoseconds.
#[derive(Clone, Copy, Debug)]
pub struct Timestamp {
    pub year: i16,
    pub month: u16,
    pub day: u16,
    pub hour: u16,
    pub minute: u16,
    pub second: u16,
    pub fraction: u32,
}

/// Unit in which times and timestamps are counted in the output.
#[derive(Clone, Copy, Debug)]
pub enum TimeUnit {
    Millis,
    Micros,
}

/// One value of a fetched column. Floating point numbers are carried as their bits.
#[derive(Clone, Debug)]
pub enum NativeValue {
    Bit(bool),
    I32(i32),
    I64(i64),
    F32(u32),
    F64(u64),
    Date(Date),
    Time(Time),
    Timestamp(Timestamp),
    /// Text in a single-byte or UTF-8 encoding.
    Text(Vec<u8>),
    /// Text in UTF-16.
    WText(Vec<u16>),
    Binary(Vec<u8>),
}

/// One value in the encoding the output wants for its physical type. Floating point
/// numbers are carried as their bits.
#[derive(Clone, Debug)]
pub enum EncodedValue {
    Boolean(bool),
    Int32(i32),
    Int64(i64),
    Float(u32),
    Double(u64),
    ByteArray(Vec<u8>),
}

/// An [`EncodedValue`] with its bytes as a sequence.
pub enum Encoded {
    Boolean(bool),
    Int32(i32),
    Int64(i64),
    Float(u32),
    Double(u64),
    ByteArray(Seq<u8>),
}

impl View for EncodedValue {
    type V = Encoded;

    open spec fn view(&self) -> Encoded {
        match *self {
            EncodedValue::Boolean(b) => Encoded::Boolean(b),
            EncodedValue::Int32(v) => Encoded::Int32(v),
            EncodedValue::Int64(v) => Encoded::Int64(v),
            EncodedValue::Float(bits) => Encoded::Float(bits),
            EncodedValue::Double(bits) => Encoded::Double(bits),
            EncodedValue::ByteArray(bytes) => Encoded::ByteArray(bytes@),
        }
    }
}

/// The views of `values`, element by element.
pub open spec fn encoded_seq(values: Seq<EncodedValue>) -> Seq<Encoded> {
    Seq::new(values.len(), |i: int| values[i]@)
}

/// Whether `year` has a 29th of February in the proleptic Gregorian calendar.
pub open spec fn is_leap_year(year: int) -> bool {
    year % 4 == 0 && (year % 100 != 0 || year % 400 == 0)
}

/// Number of days of the given month of the given year.
pub open spec fn days_in_month(year: int, month: int) -> int {
    if month == 2 {
        if is_leap_year(year) {
            29
        } else {
            28
        }
    } else if month == 4 || month == 6 || month == 9 || month == 11 {
        30
    } else {
        31
    }
}

/// Whether the proleptic Gregorian calendar has the given day.
pub open spec fn is_calendar_day(year: int, month: int, day: int) -> bool {
    1 <= month <= 12 && 1 <= day <= days_in_month(year, month)
}

/// Whether `fraction` is less than a second, counted in nanoseconds.
pub open spec fn is_fraction_of_second(fraction: int) -> bool {
    0 <= fraction < 1_000_000_000
}

/// Whether the timestamp names a day of the calendar and a time of that day.
pub open spec fn is_timestamp(ts: Timestamp) -> bool {
    &&& is_calendar_day(ts.year as int, ts.month as int, ts.day as int)
    &&& is_clock_time(ts.hour as int, ts.minute as int, ts.second as int)
    &&& is_fraction_of_second(ts.fraction as int)
}

/// Whether hour, minute and second are such as a clock shows them.
pub open spec fn is_clock_time(hour: int, minute: int, second: int) -> bool {
    0 <= hour < 24 && 0 <= minute < 60 && 0 <= second < 60
}

/// Days from 1970-01-01 to the given day of the proleptic Gregorian calendar. Years are
/// counted from March, in eras of 400 years, which all have 146097 days.
pub open spec fn days_from_civil(year: int, month: int, day: int) -> int {
    let y = year + 32800 - (if month <= 2 { 1int } else { 0int });
    let era = y / 400;
    let year_of_era = y % 400;
    let month_from_march = (month + 9) % 12;
    let day_of_year = (153 * month_from_march + 2) / 5 + day - 1;
    let day_of_era = year_of_era * 365 + year_of_era / 4 - year_of_era / 100 + day_of_year;
    (era - 82) * 146097 + day_of_era - 719468
}

/// Seconds from midnight to the given time of day.
pub open spec fn seconds_of_day(hour: int, minute: int, second: int) -> int {
    hour * 3600 + minute * 60 + second
}

/// How many of `unit` make a second.
pub open spec fn units_per_second(unit: TimeUnit) -> int {
    match unit {
        TimeUnit::Millis => 1_000,
        TimeUnit::Micros => 1_000_000,
    }
}

/// How many nanoseconds make one of `unit`.
pub open spec fn nanos_per_unit(unit: TimeUnit) -> int {
    match unit {
        TimeUnit::Millis => 1_000_000,
        TimeUnit::Micros => 1_000,
    }
}

/// The time of day counted in `unit` from midnight.
pub open spec fn time_in_unit(time: Time, unit: TimeUnit) -> int {
    seconds_of_day(time.hour as int, time.minute as int, time.second as int) * units_per_second(
        unit,
    )
}

/// The timestamp counted in `unit` from 1970-01-01 00:00:00. What the fraction holds beyond
/// the unit is cut off.
pub open spec fn timestamp_in_unit(ts: Timestamp, unit: TimeUnit) -> int {
    (days_from_civil(ts.year as int, ts.month as int, ts.day as int) * 86_400 + seconds_of_day(
        ts.hour as int,
        ts.minute as int,
        ts.second as int,
    )) * units_per_second(unit) + ts.fraction as int / nanos_per_unit(unit)
}

/// Tells whether the calendar has the given day.
pub fn is_valid_date(year: i16, month: u16, day: u16) -> (valid: bool)
    ensures
        valid == is_calendar_day(year as int, month as int, day as int),
{
    if month < 1 || month > 12 || day < 1 {
        return false;
    }
    let y: i32 = year as i32 + 32800;
    let leap = y % 4 == 0 && (y % 100 != 0 || y % 400 == 0);
    let length: u16 = if month == 2 {
        if leap {
            29
        } else {
            28
        }
    } else if month == 4 || month == 6 || month == 9 || month == 11 {
        30
    } else {
        31
    };
    day <= length
}

/// Tells whether a clock shows the given time.
pub fn is_valid_time(hour: u16, minute: u16, second: u16) -> (valid: bool)
    ensures
        valid == is_clock_time(hour as int, minute as int, second as int),
{
    hour < 24 && minute < 60 && second < 60
}

/// Tells whether the timestamp names a day of the calendar and a time of that day.
pub fn is_valid_timestamp(ts: &Timestamp) -> (valid: bool)
    ensures
        valid == is_timestamp(*ts),
{
    is_valid_date(ts.year, ts.month, ts.day) && is_valid_time(ts.hour, ts.minute, ts.second)
        && ts.fraction < 1_000_000_000
}

/// Days from 1970-01-01 to a day of the calendar.
pub fn epoch_days(year: i16, month: u16, day: u16) -> (days: i32)
    requires
        is_calendar_day(year as int, month as int, day as int),
    ensures
        days == days_from_civil(year as int, month as int, day as int),
        -12_700_000 < days < 12_700_000,
{
    let shift: i64 = if month <= 2 {
        1
    } else {
        0
    };
    let y: i64 = year as i64 + 32800 - shift;
    let era: i64 = y / 400;
    let year_of_era: i64 = y % 400;
    let month_from_march: i64 = (month as i64 + 9) % 12;
    let day_of_year: i64 = (153 * month_from_march + 2) / 5 + day as i64 - 1;
    let day_of_era: i64 = year_of_era * 365 + year_of_era / 4 - year_of_era / 100 + day_of_year;
    let days: i64 = (era - 82) * 146097 + day_of_era - 719468;
    days as i32
}

/// Seconds from midnight to a time of day.
pub fn day_seconds(hour: u16, minute: u16, second: u16) -> (seconds: i64)
    requires
        is_clock_time(hour as int, minute as int, second as int),
    ensures
        seconds == seconds_of_day(hour as int, minute as int, second as int),
        0 <= seconds < 86_400,
{
    hour as i64 * 3600 + minute as i64 * 60 + second as i64
}

/// A timestamp counted in `unit` from the epoch.
pub fn epoch_time(ts: &Timestamp, unit: TimeUnit) -> (count: i64)
    requires
        is_timestamp(*ts),
    ensures
        count == timestamp_in_unit(*ts, unit),
{
    let days: i64 = epoch_days(ts.year, ts.month, ts.day) as i64;
    let seconds: i64 = days * 86_400 + day_seconds(ts.hour, ts.minute, ts.second);
    match unit {
        TimeUnit::Millis => seconds * 1_000 + (ts.fraction / 1_000_000) as i64,
        TimeUnit::Micros => seconds * 1_000_000 + (ts.fraction / 1_000) as i64,
    }
}

/// The count of days is a count of days: it is zero on 1970-01-01 and grows by one from
/// every day of the calendar to the next, within a month, from the last day of a month to
/// the first of the next, and from the last day of a year to the first of the next.
pub proof fn lemma_days_follow_each_other(year: int, month: int, day: int)
    requires
        is_calendar_day(year, month, day),
    ensures
        days_from_civil(1970, 1, 1) == 0,
        day < days_in_month(year, month) ==> days_from_civil(year, month, day + 1)
            == days_from_civil(year, month, day) + 1,
        day == days_in_month(year, month) && month < 12 ==> days_from_civil(year, month + 1, 1)
            == days_from_civil(year, month, day) + 1,
        day == days_in_month(year, month) && month == 12 ==> days_from_civil(year + 1, 1, 1)
            == days_from_civil(year, month, day) + 1,
{
    if day == days_in_month(year, month) && month == 2 {
        let y = year + 32800 - 1;
        assert(y % 400 == (year - 1) % 400);
        assert((y + 1) % 4 == year % 4 && (y + 1) % 100 == year % 100 && (y + 1) % 400 == year
            % 400);
    }
    if day == days_in_month(year, month) && month == 12 {
        let y = year + 32800;
        assert((y + 1) / 400 == y / 400 + (if y % 400 == 399 { 1int } else { 0int }));
    }
}

} // verus!
