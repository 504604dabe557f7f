use vstd::prelude::*;

use crate::components::{
    abs, fraction_text, shift_text, year_in_range, year_text, Day, Error, Hour, Minute, Month,
    Nanosecond, Second, ShiftView, SimpleYear, Timeshift, Year, YearKind, NANOS_PER_SECOND,
};
use crate::render::padded_decimal;

verus! {

/// Text of a date: year, month and day joined by '-'.
pub open spec fn date_text<Y: YearKind>(year: Year<Y>, month: Month, day: Day) -> Seq<char> {
    year_text(year@, Y::spec_digits(), Y::spec_signed()) + seq!['-'] + padded_decimal(month@, 2)
        + seq!['-'] + padded_decimal(day@, 2)
}

/// Text of a time of day: hour, minute and second joined by ':'.
pub open spec fn time_text(hour: Hour, minute: Minute, second: Second) -> Seq<char> {
    padded_decimal(hour@, 2) + seq![':'] + padded_decimal(minute@, 2) + seq![':']
        + padded_decimal(second@, 2)
}

/// Text of a fraction of a second: '.' and its digits.
pub open spec fn fraction_suffix(nanosecond: Nanosecond) -> Seq<char> {
    seq!['.'] + fraction_text(nanosecond@, 9)
}

fn write_date<Y: YearKind>(s: &mut String, year: &Year<Y>, month: &Month, day: &Day)
    ensures
        final(s)@ == old(s)@ + date_text(*year, *month, *day),
{
    let ghost start = s@;
    year.write_to(s);
    s.push('-');
    crate::render::push_padded(s, month.value() as u64, 2);
    s.push('-');
    crate::render::push_padded(s, day.value() as u64, 2);
    proof {
        assert(s@ =~= start + date_text(*year, *month, *day));
    }
}

fn write_time(s: &mut String, hour: &Hour, minute: &Minute, second: &Second)
    ensures
        final(s)@ == old(s)@ + time_text(*hour, *minute, *second),
{
    let ghost start = s@;
    crate::render::push_padded(s, hour.value() as u64, 2);
    s.push(':');
    crate::render::push_padded(s, minute.value() as u64, 2);
    s.push(':');
    crate::render::push_padded(s, second.value() as u64, 2);
    proof {
        assert(s@ =~= start + time_text(*hour, *minute, *second));
    }
}

fn write_fraction(s: &mut String, nanosecond: &Nanosecond)
    ensures
        final(s)@ == old(s)@ + fraction_suffix(*nanosecond),
{
    let ghost start = s@;
    s.push('.');
    nanosecond.write_to(s);
    proof {
        assert(s@ =~= start + fraction_suffix(*nanosecond));
    }
}

/// Date without time shift information.
#[derive(Debug, Clone, Copy, PartialEq, Eq, PartialOrd, Ord, Hash)]
pub struct LocalDate<Y: YearKind = SimpleYear> {
    pub year: Year<Y>,
    pub month: Month,
    pub day: Day,
}

impl<Y: YearKind> LocalDate<Y> {
    pub fn new(year: Year<Y>, month: Month, day: Day) -> (r: Self)
        ensures
            r == (LocalDate { year, month, day }),
    {
        Self { year, month, day }
    }

    /// Canonical text, "YYYY-MM-DD".
    pub fn to_string(&self) -> (r: String)
        ensures
            r@ == date_text(self.year, self.month, self.day),
    {
        let mut s = String::new();
        write_date(&mut s, &self.year, &self.month, &self.day);
        proof {
            assert(s@ =~= date_text(self.year, self.month, self.day));
        }
        s
    }
}

/// Time without time shift information.
#[derive(Debug, Clone, Copy, PartialEq, Eq, PartialOrd, Ord, Hash)]
pub struct LocalTime {
    pub hour: Hour,
    pub minute: Minute,
    pub second: Second,
}

impl LocalTime {
    pub fn new(hour: Hour, minute: Minute, second: Second) -> (r: Self)
        ensures
            r == (LocalTime { hour, minute, second }),
    {
        Self { hour, minute, second }
    }

    /// Canonical text, "hh:mm:ss".
    pub fn to_string(&self) -> (r: String)
        ensures
            r@ == time_text(self.hour, self.minute, self.second),
    {
        let mut s = String::new();
        write_time(&mut s, &self.hour, &self.minute, &self.second);
        proof {
            assert(s@ =~= time_text(self.hour, self.minute, self.second));
        }
        s
    }
}

/// Time without time shift information, with nanosecond precision.
#[derive(Debug, Clone, Copy, PartialEq, Eq, PartialOrd, Ord, Hash)]
pub struct PreciseLocalTime {
    pub hour: Hour,
    pub minute: Minute,
    pub second: Second,
    pub nanosecond: Nanosecond,
}

impl PreciseLocalTime {
    pub fn new(hour: Hour, minute: Minute, second: Second, nanosecond: Nanosecond) -> (r: Self)
        ensures
            r == (PreciseLocalTime { hour, minute, second, nanosecond }),
    {
        Self { hour, minute, second, nanosecond }
    }

    /// Canonical text, "hh:mm:ss.f" with the fraction's trailing zeros dropped.
    pub fn to_string(&self) -> (r: String)
        ensures
            r@ == time_text(self.hour, self.minute, self.second) + fraction_suffix(
                self.nanosecond,
            ),
    {
        let mut s = String::new();
        write_time(&mut s, &self.hour, &self.minute, &self.second);
        write_fraction(&mut s, &self.nanosecond);
        proof {
            assert(s@ =~= time_text(self.hour, self.minute, self.second) + fraction_suffix(
                self.nanosecond,
            ));
        }
        s
    }
}

/// Date and time without time shift information.
#[derive(Debug, Clone, Copy, PartialEq, Eq, PartialOrd, Ord, Hash)]
pub struct LocalDateTime<Y: YearKind = SimpleYear> {
    pub year: Year<Y>,
    pub month: Month,
    pub day: Day,
    pub hour: Hour,
    pub minute: Minute,
    pub second: Second,
}

impl<Y: YearKind> LocalDateTime<Y> {
    pub fn new(
        year: Year<Y>,
        month: Month,
        day: Day,
        hour: Hour,
        minute: Minute,
        second: Second,
    ) -> (r: Self)
        ensures
            r == (LocalDateTime { year, month, day, hour, minute, second }),
    {
        Self { year, month, day, hour, minute, second }
    }

    /// Canonical text, "YYYY-MM-DDThh:mm:ss".
    pub fn to_string(&self) -> (r: String)
        ensures
            r@ == date_text(self.year, self.month, self.day) + seq!['T'] + time_text(
                self.hour,
                self.minute,
                self.second,
            ),
    {
        let mut s = String::new();
        write_date(&mut s, &self.year, &self.month, &self.day);
        s.push('T');
        write_time(&mut s, &self.hour, &self.minute, &self.second);
        proof {
            assert(s@ =~= date_text(self.year, self.month, self.day) + seq!['T'] + time_text(
                self.hour,
                self.minute,
                self.second,
            ));
        }
        s
    }
}

/// Date and time without time shift information, with nanosecond precision.
#[derive(Debug, Clone, Copy, PartialEq, Eq, PartialOrd, Ord, Hash)]
pub struct PreciseLocalDateTime<Y: YearKind = SimpleYear> {
    pub year: Year<Y>,
    pub month: Month,
    pub day: Day,
    pub hour: Hour,
    pub minute: Minute,
    pub second: Second,
    pub nanosecond: Nanosecond,
}

impl<Y: YearKind> PreciseLocalDateTime<Y> {
    pub fn new(
        year: Year<Y>,
        month: Month,
        day: Day,
        hour: Hour,
        minute: Minute,
        second: Second,
        nanosecond: Nanosecond,
    ) -> (r: Self)
        ensures
            r == (PreciseLocalDateTime { year, month, day, hour, minute, second, nanosecond }),
    {
        Self { year, month, day, hour, minute, second, nanosecond }
    }

    /// Canonical text, "YYYY-MM-DDThh:mm:ss.f".
    pub fn to_string(&self) -> (r: String)
        ensures
            r@ == date_text(self.year, self.month, self.day) + seq!['T'] + time_text(
                self.hour,
                self.minute,
                self.second,
            ) + fraction_suffix(self.nanosecond),
    {
        let mut s = String::new();
        write_date(&mut s, &self.year, &self.month, &self.day);
        s.push('T');
        write_time(&mut s, &self.hour, &self.minute, &self.second);
        write_fraction(&mut s, &self.nanosecond);
        proof {
            assert(s@ =~= date_text(self.year, self.month, self.day) + seq!['T'] + time_text(
                self.hour,
                self.minute,
                self.second,
            ) + fraction_suffix(self.nanosecond));
        }
        s
    }
}

/// Date and time with time shift information.
#[derive(Debug, Clone, Copy, PartialEq, Eq, Hash)]
pub struct ShiftedDateTime<Y: YearKind = SimpleYear> {
    pub year: Year<Y>,
    pub month: Month,
    pub day: Day,
    pub hour: Hour,
    pub minute: Minute,
    pub second: Second,
    pub timeshift: Timeshift,
}

impl<Y: YearKind> ShiftedDateTime<Y> {
    pub fn new(
        year: Year<Y>,
        month: Month,
        day: Day,
        hour: Hour,
        minute: Minute,
        second: Second,
        timeshift: Timeshift,
    ) -> (r: Self)
        ensures
            r == (ShiftedDateTime { year, month, day, hour, minute, second, timeshift }),
    {
        Self { year, month, day, hour, minute, second, timeshift }
    }

    /// Canonical text, "YYYY-MM-DDThh:mm:ss" and the offset.
    pub fn to_string(&self) -> (r: String)
        ensures
            r@ == date_text(self.year, self.month, self.day) + seq!['T'] + time_text(
                self.hour,
                self.minute,
                self.second,
            ) + shift_text(self.timeshift@),
    {
        let mut s = String::new();
        write_date(&mut s, &self.year, &self.month, &self.day);
        s.push('T');
        write_time(&mut s, &self.hour, &self.minute, &self.second);
        self.timeshift.write_to(&mut s);
        proof {
            assert(s@ =~= date_text(self.year, self.month, self.day) + seq!['T'] + time_text(
                self.hour,
                self.minute,
                self.second,
            ) + shift_text(self.timeshift@));
        }
        s
    }
}

/// Date and time with time shift information, with nanosecond precision.
#[derive(Debug, Clone, Copy, PartialEq, Eq, Hash)]
pub struct PreciseShiftedDateTime<Y: YearKind = SimpleYear> {
    pub year: Year<Y>,
    pub month: Month,
    pub day: Day,
    pub hour: Hour,
    pub minute: Minute,
    pub second: Second,
    pub nanosecond: Nanosecond,
    pub timeshift: Timeshift,
}

impl<Y: YearKind> PreciseShiftedDateTime<Y> {
    #[allow(clippy::too_many_arguments)]
    pub fn new(
        year: Year<Y>,
        month: Month,
        day: Day,
        hour: Hour,
        minute: Minute,
        second: Second,
        nanosecond: Nanosecond,
        timeshift: Timeshift,
    ) -> (r: Self)
        ensures
            r == (PreciseShiftedDateTime {
                year,
                month,
                day,
                hour,
                minute,
                second,
                nanosecond,
                timeshift,
            }),
    {
        Self { year, month, day, hour, minute, second, nanosecond, timeshift }
    }

    /// Canonical text, "YYYY-MM-DDThh:mm:ss.f" and the offset.
    pub fn to_string(&self) -> (r: String)
        ensures
            r@ == date_text(self.year, self.month, self.day) + seq!['T'] + time_text(
                self.hour,
                self.minute,
                self.second,
            ) + fraction_suffix(self.nanosecond) + shift_text(self.timeshift@),
    {
        let mut s = String::new();
        write_date(&mut s, &self.year, &self.month, &self.day);
        s.push('T');
        write_time(&mut s, &self.hour, &self.minute, &self.second);
        write_fraction(&mut s, &self.nanosecond);
        self.timeshift.write_to(&mut s);
        proof {
            assert(s@ =~= date_text(self.year, self.month, self.day) + seq!['T'] + time_text(
                self.hour,
                self.minute,
                self.second,
            ) + fraction_suffix(self.nanosecond) + shift_text(self.timeshift@));
        }
        s
    }
}

} // verus!

verus! {

fn unsigned_of(v: i32) -> (r: Result<u64, Error>)
    ensures
        v >= 0 ==> r == Ok::<u64, Error>(v as u64),
        v < 0 ==> r == Err::<u64, Error>(Error::RangeError),
{
    if v < 0 {
        Err(Error::RangeError)
    } else {
        Ok(v as u64)
    }
}

fn month_of(v: i32) -> (r: Result<Month, Error>)
    ensures
        r is Ok <==> 1 <= v <= 12,
        r matches Ok(x) ==> x@ == v as nat,
        r matches Err(e) ==> e == Error::RangeError,
{
    match unsigned_of(v) {
        Ok(u) => Month::new(u),
        Err(e) => Err(e),
    }
}

fn day_of(v: i32) -> (r: Result<Day, Error>)
    ensures
        r is Ok <==> 1 <= v <= 31,
        r matches Ok(x) ==> x@ == v as nat,
        r matches Err(e) ==> e == Error::RangeError,
{
    match unsigned_of(v) {
        Ok(u) => Day::new(u),
        Err(e) => Err(e),
    }
}

fn hour_of(v: i32) -> (r: Result<Hour, Error>)
    ensures
        r is Ok <==> 0 <= v <= 24,
        r matches Ok(x) ==> x@ == v as nat,
        r matches Err(e) ==> e == Error::RangeError,
{
    match unsigned_of(v) {
        Ok(u) => Hour::new(u),
        Err(e) => Err(e),
    }
}

fn minute_of(v: i32) -> (r: Result<Minute, Error>)
    ensures
        r is Ok <==> 0 <= v <= 60,
        r matches Ok(x) ==> x@ == v as nat,
        r matches Err(e) ==> e == Error::RangeError,
{
    match unsigned_of(v) {
        Ok(u) => Minute::new(u),
        Err(e) => Err(e),
    }
}

fn second_of(v: i32) -> (r: Result<Second, Error>)
    ensures
        r is Ok <==> 0 <= v <= 61,
        r matches Ok(x) ==> x@ == v as nat,
        r matches Err(e) ==> e == Error::RangeError,
{
    match unsigned_of(v) {
        Ok(u) => Second::new(u),
        Err(e) => Err(e),
    }
}

fn nanosecond_of(v: i32) -> (r: Result<Nanosecond, Error>)
    ensures
        r is Ok <==> 0 <= v <= 999_999_999,
        r matches Ok(x) ==> x@ == v as nat,
        r matches Err(e) ==> e == Error::RangeError,
{
    match unsigned_of(v) {
        Ok(u) => Nanosecond::new(u),
        Err(e) => Err(e),
    }
}

impl LocalDate<SimpleYear> {
    /// The value of the given numbers, each checked against its range.
    pub fn from_numbers(year: i32, month: i32, day: i32) -> (r: Result<Self, Error>)
        ensures
            r is Ok <==> (year_in_range(year as int, 4, false) && 1 <= month <= 12 && 1 <= day <= 31),
            r matches Ok(d) ==> d.year@ == year as int,
            r matches Ok(d) ==> d.month@ == month as nat,
            r matches Ok(d) ==> d.day@ == day as nat,
            r matches Err(e) ==> e == Error::RangeError,
    {
        let year = match Year::<SimpleYear>::new(year) {
            Ok(v) => v,
            Err(e) => return Err(e),
        };
        let month = match month_of(month) {
            Ok(v) => v,
            Err(e) => return Err(e),
        };
        let day = match day_of(day) {
            Ok(v) => v,
            Err(e) => return Err(e),
        };
        Ok(LocalDate { year, month, day })
    }
}

impl TryFrom<(i32, i32, i32)> for LocalDate<SimpleYear> {
    type Error = Error;

    fn try_from(value: (i32, i32, i32)) -> (r: Result<Self, Self::Error>) {
        let (year, month, day) = value;
        Self::from_numbers(year, month, day)
    }
}

impl vstd::std_specs::convert::TryFromSpecImpl<(i32, i32, i32)> for LocalDate<SimpleYear> {
    open spec fn obeys_try_from_spec() -> bool {
        false
    }

    open spec fn try_from_spec(value: (i32, i32, i32)) -> Result<Self, Error> {
        Err(Error::RangeError)
    }
}

impl LocalTime {
    /// The value of the given numbers, each checked against its range.
    pub fn from_numbers(hour: i32, minute: i32, second: i32) -> (r: Result<Self, Error>)
        ensures
            r is Ok <==> (0 <= hour <= 24 && 0 <= minute <= 60 && 0 <= second <= 61),
            r matches Ok(d) ==> d.hour@ == hour as nat,
            r matches Ok(d) ==> d.minute@ == minute as nat,
            r matches Ok(d) ==> d.second@ == second as nat,
            r matches Err(e) ==> e == Error::RangeError,
    {
        let hour = match hour_of(hour) {
            Ok(v) => v,
            Err(e) => return Err(e),
        };
        let minute = match minute_of(minute) {
            Ok(v) => v,
            Err(e) => return Err(e),
        };
        let second = match second_of(second) {
            Ok(v) => v,
            Err(e) => return Err(e),
        };
        Ok(LocalTime { hour, minute, second })
    }
}

impl TryFrom<(i32, i32, i32)> for LocalTime {
    type Error = Error;

    fn try_from(value: (i32, i32, i32)) -> (r: Result<Self, Self::Error>) {
        let (hour, minute, second) = value;
        Self::from_numbers(hour, minute, second)
    }
}

impl vstd::std_specs::convert::TryFromSpecImpl<(i32, i32, i32)> for LocalTime {
    open spec fn obeys_try_from_spec() -> bool {
        false
    }

    open spec fn try_from_spec(value: (i32, i32, i32)) -> Result<Self, Error> {
        Err(Error::RangeError)
    }
}

impl PreciseLocalTime {
    /// The value of the given numbers, each checked against its range.
    pub fn from_numbers(hour: i32, minute: i32, second: i32, nanosecond: i32) -> (r: Result<Self, Error>)
        ensures
            r is Ok <==> (0 <= hour <= 24 && 0 <= minute <= 60 && 0 <= second <= 61 && 0 <= nanosecond < NANOS_PER_SECOND),
            r matches Ok(d) ==> d.hour@ == hour as nat,
            r matches Ok(d) ==> d.minute@ == minute as nat,
            r matches Ok(d) ==> d.second@ == second as nat,
            r matches Ok(d) ==> d.nanosecond@ == nanosecond as nat,
            r matches Err(e) ==> e == Error::RangeError,
    {
        let hour = match hour_of(hour) {
            Ok(v) => v,
            Err(e) => return Err(e),
        };
        let minute = match minute_of(minute) {
            Ok(v) => v,
            Err(e) => return Err(e),
        };
        let second = match second_of(second) {
            Ok(v) => v,
            Err(e) => return Err(e),
        };
        let nanosecond = match nanosecond_of(nanosecond) {
            Ok(v) => v,
            Err(e) => return Err(e),
        };
        Ok(PreciseLocalTime { hour, minute, second, nanosecond })
    }
}

impl TryFrom<(i32, i32, i32, i32)> for PreciseLocalTime {
    type Error = Error;

    fn try_from(value: (i32, i32, i32, i32)) -> (r: Result<Self, Self::Error>) {
        let (hour, minute, second, nanosecond) = value;
        Self::from_numbers(hour, minute, second, nanosecond)
    }
}

impl vstd::std_specs::convert::TryFromSpecImpl<(i32, i32, i32, i32)> for PreciseLocalTime {
    open spec fn obeys_try_from_spec() -> bool {
        false
    }

    open spec fn try_from_spec(value: (i32, i32, i32, i32)) -> Result<Self, Error> {
        Err(Error::RangeError)
    }
}

impl LocalDateTime<SimpleYear> {
    /// The value of the given numbers, each checked against its range.
    pub fn from_numbers(year: i32, month: i32, day: i32, hour: i32, minute: i32, second: i32) -> (r: Result<Self, Error>)
        ensures
            r is Ok <==> (year_in_range(year as int, 4, false) && 1 <= month <= 12 && 1 <= day <= 31 && 0 <= hour <= 24 && 0 <= minute <= 60 && 0 <= second <= 61),
            r matches Ok(d) ==> d.year@ == year as int,
            r matches Ok(d) ==> d.month@ == month as nat,
            r matches Ok(d) ==> d.day@ == day as nat,
            r matches Ok(d) ==> d.hour@ == hour as nat,
            r matches Ok(d) ==> d.minute@ == minute as nat,
            r matches Ok(d) ==> d.second@ == second as nat,
            r matches Err(e) ==> e == Error::RangeError,
    {
        let year = match Year::<SimpleYear>::new(year) {
            Ok(v) => v,
            Err(e) => return Err(e),
        };
        let month = match month_of(month) {
            Ok(v) => v,
            Err(e) => return Err(e),
        };
        let day = match day_of(day) {
            Ok(v) => v,
            Err(e) => return Err(e),
        };
        let hour = match hour_of(hour) {
            Ok(v) => v,
            Err(e) => return Err(e),
        };
        let minute = match minute_of(minute) {
            Ok(v) => v,
            Err(e) => return Err(e),
        };
        let second = match second_of(second) {
            Ok(v) => v,
            Err(e) => return Err(e),
        };
        Ok(LocalDateTime { year, month, day, hour, minute, second })
    }
}

impl TryFrom<(i32, i32, i32, i32, i32, i32)> for LocalDateTime<SimpleYear> {
    type Error = Error;

    fn try_from(value: (i32, i32, i32, i32, i32, i32)) -> (r: Result<Self, Self::Error>) {
        let (year, month, day, hour, minute, second) = value;
        Self::from_numbers(year, month, day, hour, minute, second)
    }
}

impl vstd::std_specs::convert::TryFromSpecImpl<(i32, i32, i32, i32, i32, i32)> for LocalDateTime<SimpleYear> {
    open spec fn obeys_try_from_spec() -> bool {
        false
    }

    open spec fn try_from_spec(value: (i32, i32, i32, i32, i32, i32)) -> Result<Self, Error> {
        Err(Error::RangeError)
    }
}

impl PreciseLocalDateTime<SimpleYear> {
    /// The value of the given numbers, each checked against its range.
    pub fn from_numbers(year: i32, month: i32, day: i32, hour: i32, minute: i32, second: i32, nanosecond: i32) -> (r: Result<Self, Error>)
        ensures
            r is Ok <==> (year_in_range(year as int, 4, false) && 1 <= month <= 12 && 1 <= day <= 31 && 0 <= hour <= 24 && 0 <= minute <= 60 && 0 <= second <= 61 && 0 <= nanosecond < NANOS_PER_SECOND),
            r matches Ok(d) ==> d.year@ == year as int,
            r matches Ok(d) ==> d.month@ == month as nat,
            r matches Ok(d) ==> d.day@ == day as nat,
            r matches Ok(d) ==> d.hour@ == hour as nat,
            r matches Ok(d) ==> d.minute@ == minute as nat,
            r matches Ok(d) ==> d.second@ == second as nat,
            r matches Ok(d) ==> d.nanosecond@ == nanosecond as nat,
            r matches Err(e) ==> e == Error::RangeError,
    {
        let year = match Year::<SimpleYear>::new(year) {
            Ok(v) => v,
            Err(e) => return Err(e),
        };
        let month = match month_of(month) {
            Ok(v) => v,
            Err(e) => return Err(e),
        };
        let day = match day_of(day) {
            Ok(v) => v,
            Err(e) => return Err(e),
        };
        let hour = match hour_of(hour) {
            Ok(v) => v,
            Err(e) => return Err(e),
        };
        let minute = match minute_of(minute) {
            Ok(v) => v,
            Err(e) => return Err(e),
        };
        let second = match second_of(second) {
            Ok(v) => v,
            Err(e) => return Err(e),
        };
        let nanosecond = match nanosecond_of(nanosecond) {
            Ok(v) => v,
            Err(e) => return Err(e),
        };
        Ok(PreciseLocalDateTime { year, month, day, hour, minute, second, nanosecond })
    }
}

impl TryFrom<(i32, i32, i32, i32, i32, i32, i32)> for PreciseLocalDateTime<SimpleYear> {
    type Error = Error;

    fn try_from(value: (i32, i32, i32, i32, i32, i32, i32)) -> (r: Result<Self, Self::Error>) {
        let (year, month, day, hour, minute, second, nanosecond) = value;
        Self::from_numbers(year, month, day, hour, minute, second, nanosecond)
    }
}

impl vstd::std_specs::convert::TryFromSpecImpl<(i32, i32, i32, i32, i32, i32, i32)> for PreciseLocalDateTime<SimpleYear> {
    open spec fn obeys_try_from_spec() -> bool {
        false
    }

    open spec fn try_from_spec(value: (i32, i32, i32, i32, i32, i32, i32)) -> Result<Self, Error> {
        Err(Error::RangeError)
    }
}

impl ShiftedDateTime<SimpleYear> {
    /// The value of the given numbers, each checked against its range.
    pub fn from_numbers(year: i32, month: i32, day: i32, hour: i32, minute: i32, second: i32, timeshift: (i32, i32)) -> (r: Result<Self, Error>)
        ensures
            r is Ok <==> (year_in_range(year as int, 4, false) && 1 <= month <= 12 && 1 <= day <= 31 && 0 <= hour <= 24 && 0 <= minute <= 60 && 0 <= second <= 61 && (0 <= timeshift.1 <= 60 && -24 <= timeshift.0 <= 24)),
            r matches Ok(d) ==> d.year@ == year as int,
            r matches Ok(d) ==> d.month@ == month as nat,
            r matches Ok(d) ==> d.day@ == day as nat,
            r matches Ok(d) ==> d.hour@ == hour as nat,
            r matches Ok(d) ==> d.minute@ == minute as nat,
            r matches Ok(d) ==> d.second@ == second as nat,
            r matches Ok(d) ==> d.timeshift@ == (ShiftView::Offset { non_negative: timeshift.0 >= 0, hours: abs(timeshift.0 as int), minutes: timeshift.1 as nat }),
            r matches Err(e) ==> e == Error::RangeError,
    {
        let year = match Year::<SimpleYear>::new(year) {
            Ok(v) => v,
            Err(e) => return Err(e),
        };
        let month = match month_of(month) {
            Ok(v) => v,
            Err(e) => return Err(e),
        };
        let day = match day_of(day) {
            Ok(v) => v,
            Err(e) => return Err(e),
        };
        let hour = match hour_of(hour) {
            Ok(v) => v,
            Err(e) => return Err(e),
        };
        let minute = match minute_of(minute) {
            Ok(v) => v,
            Err(e) => return Err(e),
        };
        let second = match second_of(second) {
            Ok(v) => v,
            Err(e) => return Err(e),
        };
        let timeshift = match Timeshift::from_hours_minutes(timeshift.0, timeshift.1) {
            Ok(v) => v,
            Err(e) => return Err(e),
        };
        Ok(ShiftedDateTime { year, month, day, hour, minute, second, timeshift })
    }
}

impl TryFrom<(i32, i32, i32, i32, i32, i32, (i32, i32))> for ShiftedDateTime<SimpleYear> {
    type Error = Error;

    fn try_from(value: (i32, i32, i32, i32, i32, i32, (i32, i32))) -> (r: Result<Self, Self::Error>) {
        let (year, month, day, hour, minute, second, timeshift) = value;
        Self::from_numbers(year, month, day, hour, minute, second, timeshift)
    }
}

impl vstd::std_specs::convert::TryFromSpecImpl<(i32, i32, i32, i32, i32, i32, (i32, i32))> for ShiftedDateTime<SimpleYear> {
    open spec fn obeys_try_from_spec() -> bool {
        false
    }

    open spec fn try_from_spec(value: (i32, i32, i32, i32, i32, i32, (i32, i32))) -> Result<Self, Error> {
        Err(Error::RangeError)
    }
}

impl PreciseShiftedDateTime<SimpleYear> {
    /// The value of the given numbers, each checked against its range.
    pub fn from_numbers(year: i32, month: i32, day: i32, hour: i32, minute: i32, second: i32, nanosecond: i32, timeshift: (i32, i32)) -> (r: Result<Self, Error>)
        ensures
            r is Ok <==> (year_in_range(year as int, 4, false) && 1 <= month <= 12 && 1 <= day <= 31 && 0 <= hour <= 24 && 0 <= minute <= 60 && 0 <= second <= 61 && 0 <= nanosecond < NANOS_PER_SECOND && (0 <= timeshift.1 <= 60 && -24 <= timeshift.0 <= 24)),
            r matches Ok(d) ==> d.year@ == year as int,
            r matches Ok(d) ==> d.month@ == month as nat,
            r matches Ok(d) ==> d.day@ == day as nat,
            r matches Ok(d) ==> d.hour@ == hour as nat,
            r matches Ok(d) ==> d.minute@ == minute as nat,
            r matches Ok(d) ==> d.second@ == second as nat,
            r matches Ok(d) ==> d.nanosecond@ == nanosecond as nat,
            r matches Ok(d) ==> d.timeshift@ == (ShiftView::Offset { non_negative: timeshift.0 >= 0, hours: abs(timeshift.0 as int), minutes: timeshift.1 as nat }),
            r matches Err(e) ==> e == Error::RangeError,
    {
        let year = match Year::<SimpleYear>::new(year) {
            Ok(v) => v,
            Err(e) => return Err(e),
        };
        let month = match month_of(month) {
            Ok(v) => v,
            Err(e) => return Err(e),
        };
        let day = match day_of(day) {
            Ok(v) => v,
            Err(e) => return Err(e),
        };
        let hour = match hour_of(hour) {
            Ok(v) => v,
            Err(e) => return Err(e),
        };
        let minute = match minute_of(minute) {
            Ok(v) => v,
            Err(e) => return Err(e),
        };
        let second = match second_of(second) {
            Ok(v) => v,
            Err(e) => return Err(e),
        };
        let nanosecond = match nanosecond_of(nanosecond) {
            Ok(v) => v,
            Err(e) => return Err(e),
        };
        let timeshift = match Timeshift::from_hours_minutes(timeshift.0, timeshift.1) {
            Ok(v) => v,
            Err(e) => return Err(e),
        };
        Ok(PreciseShiftedDateTime { year, month, day, hour, minute, second, nanosecond, timeshift })
    }
}

impl TryFrom<(i32, i32, i32, i32, i32, i32, i32, (i32, i32))> for PreciseShiftedDateTime<SimpleYear> {
    type Error = Error;

    fn try_from(value: (i32, i32, i32, i32, i32, i32, i32, (i32, i32))) -> (r: Result<Self, Self::Error>) {
        let (year, month, day, hour, minute, second, nanosecond, timeshift) = value;
        Self::from_numbers(year, month, day, hour, minute, second, nanosecond, timeshift)
    }
}

impl vstd::std_specs::convert::TryFromSpecImpl<(i32, i32, i32, i32, i32, i32, i32, (i32, i32))> for PreciseShiftedDateTime<SimpleYear> {
    open spec fn obeys_try_from_spec() -> bool {
        false
    }

    open spec fn try_from_spec(value: (i32, i32, i32, i32, i32, i32, i32, (i32, i32))) -> Result<Self, Error> {
        Err(Error::RangeError)
    }
}

} // verus!
