//! Conversions of the composite values into chrono's calendar types. A value with an
//! offset gives its UTC time and the offset, the two parts of a chrono `DateTime`.

use chrono::{FixedOffset, NaiveDate, NaiveDateTime, NaiveTime};
use vstd::prelude::*;

use crate::combined::{
    LocalDate, LocalDateTime, LocalTime, PreciseLocalDateTime, PreciseLocalTime,
    PreciseShiftedDateTime, ShiftedDateTime,
};
use crate::components::{
    offset_seconds, Day, Hour, Minute, Month, Second, ShiftView, Timeshift, Year,
};

verus! {

#[verifier::external_type_specification]
#[verifier::external_body]
pub struct ExNaiveDate(NaiveDate);

#[verifier::external_type_specification]
#[verifier::external_body]
pub struct ExNaiveTime(NaiveTime);

#[verifier::external_type_specification]
#[verifier::external_body]
pub struct ExNaiveDateTime(NaiveDateTime);

#[verifier::external_type_specification]
#[verifier::external_body]
pub struct ExFixedOffset(FixedOffset);


/// Whether `y` is a leap year of the proleptic Gregorian calendar.
pub open spec fn is_leap_year(y: int) -> bool {
    y % 4 == 0 && (y % 100 != 0 || y % 400 == 0)
}

/// Number of days of month `m` in year `y`.
pub open spec fn days_in_month(y: int, m: int) -> int {
    if m == 2 {
        if is_leap_year(y) { 29 } else { 28 }
    } else if m == 4 || m == 6 || m == 9 || m == 11 {
        30
    } else {
        31
    }
}

/// Whether the day exists and its year lies in chrono's range.
pub open spec fn is_calendar_date(y: int, m: int, d: int) -> bool {
    &&& -262_143 <= y <= 262_142
    &&& 1 <= m <= 12
    &&& 1 <= d <= days_in_month(y, m)
}

/// Whether chrono accepts the time of day; a nanosecond count of a second or more
/// marks a leap second and is allowed only after second 59.
pub open spec fn is_clock_time(h: int, m: int, s: int, nano: int) -> bool {
    &&& 0 <= h < 24
    &&& 0 <= m < 60
    &&& 0 <= s < 60
    &&& 0 <= nano
    &&& (nano < 1_000_000_000 || (s == 59 && nano < 2_000_000_000))
}

/// Relies on `NaiveDate::from_ymd_opt`: `None` exactly when the calendar day does not
/// exist, month or day is invalid, or the year is outside chrono's range.
#[verifier::external_body]
fn naive_date(year: i32, month: u32, day: u32) -> (r: Option<NaiveDate>)
    ensures
        r is Some <==> is_calendar_date(year as int, month as int, day as int),
{
    NaiveDate::from_ymd_opt(year, month, day)
}

/// Relies on `NaiveTime::from_hms_nano_opt`: `None` exactly on an hour, minute or
/// second out of range, or a nanosecond count too large for that second.
#[verifier::external_body]
fn naive_time(hour: u32, min: u32, sec: u32, nano: u32) -> (r: Option<NaiveTime>)
    ensures
        r is Some <==> is_clock_time(hour as int, min as int, sec as int, nano as int),
{
    NaiveTime::from_hms_nano_opt(hour, min, sec, nano)
}

/// Relies on `NaiveDateTime::new`: joins a date and a time.
#[verifier::external_body]
fn naive_date_time(date: NaiveDate, time: NaiveTime) -> NaiveDateTime {
    NaiveDateTime::new(date, time)
}

/// Relies on `NaiveDate::from_ymd_opt`, `NaiveTime::from_hms_nano_opt`,
/// `FixedOffset::east_opt`, `NaiveDateTime::new` and
/// `NaiveDateTime::checked_sub_offset`: the UTC time of a local date and time at an
/// offset of `offset_secs` seconds east, and that offset. Each step refuses only what its
/// documentation names, and the shift to UTC moves the date by at most one day, which
/// fails only in chrono's first or last year.
#[verifier::external_body]
fn local_to_utc(
    year: i32,
    month: u32,
    day: u32,
    hour: u32,
    min: u32,
    sec: u32,
    nano: u32,
    offset_secs: i32,
) -> (r: Option<(NaiveDateTime, FixedOffset)>)
    ensures
        r is Some ==> is_calendar_date(year as int, month as int, day as int),
        r is Some ==> is_clock_time(hour as int, min as int, sec as int, nano as int),
        r is Some ==> -86_400 < offset_secs < 86_400,
        (is_calendar_date(year as int, month as int, day as int) && is_clock_time(
            hour as int,
            min as int,
            sec as int,
            nano as int,
        ) && -86_400 < offset_secs < 86_400 && -262_143 < year < 262_142) ==> (r is Some),
{
    let date = NaiveDate::from_ymd_opt(year, month, day)?;
    let time = NaiveTime::from_hms_nano_opt(hour, min, sec, nano)?;
    let offset = FixedOffset::east_opt(offset_secs)?;
    let utc = NaiveDateTime::new(date, time).checked_sub_offset(offset)?;
    Some((utc, offset))
}

/// Why a value has no counterpart in chrono.
#[derive(Debug, Clone, Copy, PartialEq, Eq)]
pub enum ConversionError {
    /// The day does not exist, or the time is not a clock time chrono accepts.
    InvalidDateTime,
    /// The offset is a day or more.
    OffsetOutOfRange,
    /// UTC was asked for, but the value has an offset other than zero.
    NotUtc,
    /// The UTC time falls outside chrono's range.
    OutOfRange,
}

/// Whether a timeshift view stands for UTC: 'Z', or an offset of zero.
pub open spec fn is_utc(t: ShiftView) -> bool {
    match t {
        ShiftView::Utc => true,
        ShiftView::Offset { hours, minutes, .. } => hours == 0 && minutes == 0,
    }
}

fn date_of(year: &Year, month: &Month, day: &Day) -> (r: Option<NaiveDate>)
    ensures
        r is Some <==> is_calendar_date(year@, month@ as int, day@ as int),
{
    naive_date(year.value(), month.value() as u32, day.value() as u32)
}

fn time_of(hour: &Hour, minute: &Minute, second: &Second, nano: u32) -> (r: Option<NaiveTime>)
    ensures
        r is Some <==> is_clock_time(hour@ as int, minute@ as int, second@ as int, nano as int),
{
    naive_time(hour.value() as u32, minute.value() as u32, second.value() as u32, nano)
}

/// The UTC time and offset of a local date and time at `timeshift`.
fn shifted(
    year: &Year,
    month: &Month,
    day: &Day,
    hour: &Hour,
    minute: &Minute,
    second: &Second,
    nano: u32,
    timeshift: &Timeshift,
) -> (r: Result<(NaiveDateTime, FixedOffset), ConversionError>)
    ensures
        (r is Err && r->Err_0 == ConversionError::InvalidDateTime) <==> !(is_calendar_date(
            year@,
            month@ as int,
            day@ as int,
        ) && is_clock_time(hour@ as int, minute@ as int, second@ as int, nano as int)),
        (r is Err && r->Err_0 == ConversionError::OffsetOutOfRange) <==> (is_calendar_date(
            year@,
            month@ as int,
            day@ as int,
        ) && is_clock_time(hour@ as int, minute@ as int, second@ as int, nano as int) && !(
        -86_400 < offset_seconds(timeshift@) < 86_400)),
        r is Ok ==> (-86_400 < offset_seconds(timeshift@) < 86_400),
        (is_calendar_date(year@, month@ as int, day@ as int) && is_clock_time(
            hour@ as int,
            minute@ as int,
            second@ as int,
            nano as int,
        ) && -86_400 < offset_seconds(timeshift@) < 86_400 && -262_143 < year@ < 262_142) ==> (r is Ok),
{
    if date_of(year, month, day).is_none() {
        return Err(ConversionError::InvalidDateTime);
    }
    if time_of(hour, minute, second, nano).is_none() {
        return Err(ConversionError::InvalidDateTime);
    }
    let secs = timeshift.seconds_from_east();
    if secs <= -86_400 || secs >= 86_400 {
        return Err(ConversionError::OffsetOutOfRange);
    }
    match local_to_utc(
        year.value(),
        month.value() as u32,
        day.value() as u32,
        hour.value() as u32,
        minute.value() as u32,
        second.value() as u32,
        nano,
        secs,
    ) {
        Some(parts) => Ok(parts),
        None => Err(ConversionError::OutOfRange),
    }
}

fn utc_check(timeshift: &Timeshift) -> (r: Result<(), ConversionError>)
    ensures
        (r is Ok) <==> is_utc(timeshift@),
        r matches Err(e) ==> e == ConversionError::NotUtc,
{
    match timeshift {
        Timeshift::UTC => Ok(()),
        Timeshift::Offset { hours, minutes, .. } => {
            if hours.value() == 0 && minutes.value() == 0 {
                Ok(())
            } else {
                Err(ConversionError::NotUtc)
            }
        },
    }
}

impl LocalDate {
    /// The chrono date; `None` for a day that does not exist, such as February 30.
    pub fn to_naive_date(&self) -> (r: Option<NaiveDate>)
        ensures
            r is Some <==> is_calendar_date(self.year@, self.month@ as int, self.day@ as int),
    {
        date_of(&self.year, &self.month, &self.day)
    }
}

impl LocalTime {
    /// The chrono time; `None` for hour 24, minute 60 or seconds 60 and 61.
    pub fn to_naive_time(&self) -> (r: Option<NaiveTime>)
        ensures
            r is Some <==> is_clock_time(
                self.hour@ as int,
                self.minute@ as int,
                self.second@ as int,
                0,
            ),
    {
        time_of(&self.hour, &self.minute, &self.second, 0)
    }
}

impl PreciseLocalTime {
    /// The chrono time; `None` for hour 24, minute 60 or seconds 60 and 61.
    pub fn to_naive_time(&self) -> (r: Option<NaiveTime>)
        ensures
            r is Some <==> is_clock_time(
                self.hour@ as int,
                self.minute@ as int,
                self.second@ as int,
                self.nanosecond@ as int,
            ),
    {
        time_of(&self.hour, &self.minute, &self.second, self.nanosecond.value())
    }
}

impl LocalDateTime {
    /// The chrono date-time; `None` when the date or the time has no chrono counterpart.
    pub fn to_naive_date_time(&self) -> (r: Option<NaiveDateTime>)
        ensures
            r is Some <==> (is_calendar_date(self.year@, self.month@ as int, self.day@ as int)
                && is_clock_time(self.hour@ as int, self.minute@ as int, self.second@ as int, 0)),
    {
        let date = date_of(&self.year, &self.month, &self.day)?;
        let time = time_of(&self.hour, &self.minute, &self.second, 0)?;
        Some(naive_date_time(date, time))
    }
}

impl PreciseLocalDateTime {
    /// The chrono date-time; `None` when the date or the time has no chrono counterpart.
    pub fn to_naive_date_time(&self) -> (r: Option<NaiveDateTime>)
        ensures
            r is Some <==> (is_calendar_date(self.year@, self.month@ as int, self.day@ as int)
                && is_clock_time(
                self.hour@ as int,
                self.minute@ as int,
                self.second@ as int,
                self.nanosecond@ as int,
            )),
    {
        let date = date_of(&self.year, &self.month, &self.day)?;
        let time = time_of(&self.hour, &self.minute, &self.second, self.nanosecond.value())?;
        Some(naive_date_time(date, time))
    }
}

impl ShiftedDateTime {
    /// The UTC time and the offset, the parts of a chrono date-time at this offset.
    pub fn to_utc_and_offset(&self) -> (r: Result<(NaiveDateTime, FixedOffset), ConversionError>)
        ensures
            (r is Err && r->Err_0 == ConversionError::InvalidDateTime) <==> !(is_calendar_date(self.year@, self.month@ as int, self.day@ as int) && is_clock_time(
                self.hour@ as int,
                self.minute@ as int,
                self.second@ as int,
                0,
            )),
            (r is Err && r->Err_0 == ConversionError::OffsetOutOfRange) <==> ((is_calendar_date(self.year@, self.month@ as int, self.day@ as int) && is_clock_time(
                self.hour@ as int,
                self.minute@ as int,
                self.second@ as int,
                0,
            ))
                && !(-86_400 < offset_seconds(self.timeshift@) < 86_400)),
            r is Ok ==> ((is_calendar_date(self.year@, self.month@ as int, self.day@ as int) && is_clock_time(
                self.hour@ as int,
                self.minute@ as int,
                self.second@ as int,
                0,
            )) && -86_400 < offset_seconds(self.timeshift@) < 86_400),
            (is_calendar_date(self.year@, self.month@ as int, self.day@ as int) && is_clock_time(
                self.hour@ as int,
                self.minute@ as int,
                self.second@ as int,
                0,
            ) && -86_400 < offset_seconds(self.timeshift@) < 86_400 && -262_143 < self.year@
                < 262_142) ==> (r is Ok),
    {
        shifted(
            &self.year,
            &self.month,
            &self.day,
            &self.hour,
            &self.minute,
            &self.second,
            0,
            &self.timeshift,
        )
    }

    /// The chrono date-time in UTC; only for a value in UTC or at offset zero.
    pub fn to_naive_utc(&self) -> (r: Result<NaiveDateTime, ConversionError>)
        ensures
            (r is Err && r->Err_0 == ConversionError::NotUtc) <==> !is_utc(self.timeshift@),
            (r is Err && r->Err_0 == ConversionError::InvalidDateTime) <==> (is_utc(
                self.timeshift@,
            ) && !(is_calendar_date(self.year@, self.month@ as int, self.day@ as int) && is_clock_time(
                self.hour@ as int,
                self.minute@ as int,
                self.second@ as int,
                0,
            ))),
            (r is Ok) <==> (is_utc(self.timeshift@) && is_calendar_date(self.year@, self.month@ as int, self.day@ as int) && is_clock_time(
                self.hour@ as int,
                self.minute@ as int,
                self.second@ as int,
                0,
            )),
    {
        if let Err(e) = utc_check(&self.timeshift) {
            return Err(e);
        }
        let date = match date_of(&self.year, &self.month, &self.day) {
            Some(d) => d,
            None => return Err(ConversionError::InvalidDateTime),
        };
        let time = match time_of(&self.hour, &self.minute, &self.second, 0) {
            Some(t) => t,
            None => return Err(ConversionError::InvalidDateTime),
        };
        Ok(naive_date_time(date, time))
    }
}

impl PreciseShiftedDateTime {
    /// The UTC time and the offset, the parts of a chrono date-time at this offset.
    pub fn to_utc_and_offset(&self) -> (r: Result<(NaiveDateTime, FixedOffset), ConversionError>)
        ensures
            (r is Err && r->Err_0 == ConversionError::InvalidDateTime) <==> !(is_calendar_date(self.year@, self.month@ as int, self.day@ as int) && is_clock_time(
                self.hour@ as int,
                self.minute@ as int,
                self.second@ as int,
                self.nanosecond@ as int,
            )),
            (r is Err && r->Err_0 == ConversionError::OffsetOutOfRange) <==> ((is_calendar_date(self.year@, self.month@ as int, self.day@ as int) && is_clock_time(
                self.hour@ as int,
                self.minute@ as int,
                self.second@ as int,
                self.nanosecond@ as int,
            ))
                && !(-86_400 < offset_seconds(self.timeshift@) < 86_400)),
            r is Ok ==> ((is_calendar_date(self.year@, self.month@ as int, self.day@ as int) && is_clock_time(
                self.hour@ as int,
                self.minute@ as int,
                self.second@ as int,
                self.nanosecond@ as int,
            )) && -86_400 < offset_seconds(self.timeshift@) < 86_400),
            (is_calendar_date(self.year@, self.month@ as int, self.day@ as int) && is_clock_time(
                self.hour@ as int,
                self.minute@ as int,
                self.second@ as int,
                self.nanosecond@ as int,
            ) && -86_400 < offset_seconds(self.timeshift@) < 86_400 && -262_143 < self.year@
                < 262_142) ==> (r is Ok),
    {
        shifted(
            &self.year,
            &self.month,
            &self.day,
            &self.hour,
            &self.minute,
            &self.second,
            self.nanosecond.value(),
            &self.timeshift,
        )
    }

    /// The chrono date-time in UTC; only for a value in UTC or at offset zero.
    pub fn to_naive_utc(&self) -> (r: Result<NaiveDateTime, ConversionError>)
        ensures
            (r is Err && r->Err_0 == ConversionError::NotUtc) <==> !is_utc(self.timeshift@),
            (r is Err && r->Err_0 == ConversionError::InvalidDateTime) <==> (is_utc(
                self.timeshift@,
            ) && !(is_calendar_date(self.year@, self.month@ as int, self.day@ as int) && is_clock_time(
                self.hour@ as int,
                self.minute@ as int,
                self.second@ as int,
                self.nanosecond@ as int,
            ))),
            (r is Ok) <==> (is_utc(self.timeshift@) && is_calendar_date(self.year@, self.month@ as int, self.day@ as int) && is_clock_time(
                self.hour@ as int,
                self.minute@ as int,
                self.second@ as int,
                self.nanosecond@ as int,
            )),
    {
        if let Err(e) = utc_check(&self.timeshift) {
            return Err(e);
        }
        let date = match date_of(&self.year, &self.month, &self.day) {
            Some(d) => d,
            None => return Err(ConversionError::InvalidDateTime),
        };
        let time = match time_of(&self.hour, &self.minute, &self.second, self.nanosecond.value()) {
            Some(t) => t,
            None => return Err(ConversionError::InvalidDateTime),
        };
        Ok(naive_date_time(date, time))
    }
}

} // verus!
