//! The creation date and time packed into two 32-bit fields, in the layout
//! that the game engine reads back.
use vstd::prelude::*;

verus! {

/// The first year that the packed date can hold.
pub const EPOCH_YEAR: i32 = 2009;

/// The largest year offset whose packed date still fits in 32 bits.
pub const MAX_YEAR_OFFSET: i32 = 8388607;

/// A wall-clock reading in local time, as calendar fields.
#[derive(Debug, Clone, Copy, PartialEq, Eq)]
pub struct LocalStamp {
    pub year: i32,
    pub month: u32,
    pub day: u32,
    pub hour: u32,
    pub minute: u32,
}

impl LocalStamp {
    /// Month, day, hour and minute lie in the ranges of a calendar clock.
    pub open spec fn wf(&self) -> bool {
        &&& 1 <= self.month <= 12
        &&& 1 <= self.day <= 31
        &&& self.hour <= 23
        &&& self.minute <= 59
    }
}

/// The two packed fields written into a replay descriptor.
#[derive(Debug, Clone, Copy, PartialEq, Eq)]
pub struct TimestampFields {
    pub date: u32,
    pub time: u32,
}

/// Error for a clock reading whose year the packed date cannot hold.
#[derive(Debug, Clone, Copy, PartialEq, Eq)]
pub struct UnsupportedYear {
    pub year: i32,
}

/// Whether the packed date can hold `year`.
pub open spec fn year_supported(year: int) -> bool {
    EPOCH_YEAR <= year <= EPOCH_YEAR + MAX_YEAR_OFFSET
}

/// Day, month and year packed low to high: five bits of zero-based day,
/// four bits of zero-based month, then the years since the epoch year.
pub open spec fn packed_date(year: int, month: int, day: int) -> int {
    (year - EPOCH_YEAR) * 512 + (month - 1) * 32 + (day - 1)
}

/// Five bits of hour, with the minute above them.
pub open spec fn packed_time(hour: int, minute: int) -> int {
    minute * 32 + hour
}

pub open spec fn date_year(field: int) -> int {
    EPOCH_YEAR + field / 512
}

pub open spec fn date_month(field: int) -> int {
    (field / 32) % 16 + 1
}

pub open spec fn date_day(field: int) -> int {
    field % 32 + 1
}

pub open spec fn time_hour(field: int) -> int {
    field % 32
}

pub open spec fn time_minute(field: int) -> int {
    field / 32
}

/// Packs a calendar date; years before the epoch year, or too far after it
/// for 32 bits, are refused.
pub fn date_field(year: i32, month: u32, day: u32) -> (r: Result<u32, UnsupportedYear>)
    requires
        1 <= month <= 12,
        1 <= day <= 31,
    ensures
        year_supported(year as int) ==> r == Ok::<u32, UnsupportedYear>(
            packed_date(year as int, month as int, day as int) as u32,
        ),
        !year_supported(year as int) ==> r == Err::<u32, UnsupportedYear>(UnsupportedYear { year }),
        r is Ok ==> packed_date(year as int, month as int, day as int) <= u32::MAX,
{
    if year < EPOCH_YEAR || year - EPOCH_YEAR > MAX_YEAR_OFFSET {
        return Err(UnsupportedYear { year });
    }
    let y: u32 = (year - EPOCH_YEAR) as u32;
    let m: u32 = month - 1;
    let d: u32 = day - 1;
    assert(y <= 8388607 && m < 16 && d < 32 ==> ((y << 9u32) | (m << 5u32) | d) == y * 512 + m * 32
        + d) by (bit_vector);
    Ok((y << 9u32) | (m << 5u32) | d)
}

/// Packs an hour and a minute.
pub fn time_field(hour: u32, minute: u32) -> (r: u32)
    requires
        hour <= 23,
        minute <= 59,
    ensures
        r == packed_time(hour as int, minute as int),
{
    assert(hour < 32 && minute < 64 ==> ((minute << 5u32) | hour) == minute * 32 + hour)
        by (bit_vector);
    (minute << 5u32) | hour
}

/// Reads year, month and day back out of a packed date.
pub fn decode_date(field: u32) -> (r: (i32, u32, u32))
    ensures
        r.0 == date_year(field as int),
        r.1 == date_month(field as int),
        r.2 == date_day(field as int),
{
    assert((field >> 9u32) == field / 512) by (bit_vector);
    assert(((field >> 5u32) & 15u32) == (field / 32) % 16) by (bit_vector);
    assert((field & 31u32) == field % 32) by (bit_vector);
    let y: u32 = field >> 9u32;
    ((EPOCH_YEAR + y as i32), ((field >> 5u32) & 15u32) + 1, (field & 31u32) + 1)
}

/// Reads hour and minute back out of a packed time.
pub fn decode_time(field: u32) -> (r: (u32, u32))
    ensures
        r.0 == time_hour(field as int),
        r.1 == time_minute(field as int),
{
    assert((field & 31u32) == field % 32) by (bit_vector);
    assert((field >> 5u32) == field / 32) by (bit_vector);
    (field & 31u32, field >> 5u32)
}

/// Packs both fields of a clock reading.
pub fn timestamp_fields(stamp: LocalStamp) -> (r: Result<TimestampFields, UnsupportedYear>)
    requires
        stamp.wf(),
    ensures
        year_supported(stamp.year as int) ==> r == Ok::<TimestampFields, UnsupportedYear>(
            TimestampFields {
                date: packed_date(stamp.year as int, stamp.month as int, stamp.day as int) as u32,
                time: packed_time(stamp.hour as int, stamp.minute as int) as u32,
            },
        ),
        !year_supported(stamp.year as int) ==> r == Err::<TimestampFields, UnsupportedYear>(
            UnsupportedYear { year: stamp.year },
        ),
{
    match date_field(stamp.year, stamp.month, stamp.day) {
        Ok(date) => Ok(TimestampFields { date, time: time_field(stamp.hour, stamp.minute) }),
        Err(e) => Err(e),
    }
}

/// Decoding a packed date gives back the year, month and day that were
/// packed, for every supported year and every valid month and day.
pub proof fn lemma_date_round_trip(year: int, month: int, day: int)
    requires
        year_supported(year),
        1 <= month <= 12,
        1 <= day <= 31,
    ensures
        date_year(packed_date(year, month, day)) == year,
        date_month(packed_date(year, month, day)) == month,
        date_day(packed_date(year, month, day)) == day,
{
    let y = year - EPOCH_YEAR;
    let m = month - 1;
    let d = day - 1;
    let f = packed_date(year, month, day);
    assert(f == (y * 16 + m) * 32 + d) by (nonlinear_arith)
        requires f == y * 512 + m * 32 + d;
    vstd::arithmetic::div_mod::lemma_fundamental_div_mod_converse(f, 32, y * 16 + m, d);
    vstd::arithmetic::div_mod::lemma_fundamental_div_mod_converse(y * 16 + m, 16, y, m);
    vstd::arithmetic::div_mod::lemma_div_denominator(f, 32, 16);
}

/// Decoding a packed time gives back the hour and minute that were packed.
pub proof fn lemma_time_round_trip(hour: int, minute: int)
    requires
        0 <= hour <= 23,
        0 <= minute <= 59,
    ensures
        time_hour(packed_time(hour, minute)) == hour,
        time_minute(packed_time(hour, minute)) == minute,
{
    vstd::arithmetic::div_mod::lemma_fundamental_div_mod_converse(
        packed_time(hour, minute),
        32,
        minute,
        hour,
    );
}

} // verus!
