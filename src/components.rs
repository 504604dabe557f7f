use vstd::prelude::*;

use crate::render::{decimal, decimal_len, padded_decimal, push_padded};

verus! {

/// Why a component value could not be made.
#[derive(Debug, Clone, Copy, PartialEq, Eq)]
pub enum Error {
    RangeError,
    ParseIntError,
    ParseError,
}

/// Digit width and sign policy of a [`Year`].
pub trait YearKind: Sized + Copy {
    /// Largest number of decimal digits of the year's magnitude.
    spec fn spec_digits() -> nat;

    /// Whether the year carries an explicit sign and may be negative.
    spec fn spec_signed() -> bool;

    fn digits() -> (r: usize)
        ensures
            r == Self::spec_digits(),
    ;

    fn signed() -> (r: bool)
        ensures
            r == Self::spec_signed(),
    ;

    /// The marker value of the kind.
    fn marker() -> Self;
}

/// Year kind of at most `N` digits, never negative, written without sign.
#[derive(Debug, Clone, Copy, PartialEq, Eq, PartialOrd, Ord, Hash)]
pub struct NonNegative<const N: usize>;

/// Year kind of at most `N` digits, written with an explicit sign.
#[derive(Debug, Clone, Copy, PartialEq, Eq, PartialOrd, Ord, Hash)]
pub struct WithNegative<const N: usize>;

impl<const N: usize> YearKind for NonNegative<N> {
    open spec fn spec_digits() -> nat {
        N as nat
    }

    open spec fn spec_signed() -> bool {
        false
    }

    fn digits() -> (r: usize) {
        N
    }

    fn signed() -> (r: bool) {
        false
    }

    fn marker() -> Self {
        NonNegative
    }
}

impl<const N: usize> YearKind for WithNegative<N> {
    open spec fn spec_digits() -> nat {
        N as nat
    }

    open spec fn spec_signed() -> bool {
        true
    }

    fn digits() -> (r: usize) {
        N
    }

    fn signed() -> (r: bool) {
        true
    }

    fn marker() -> Self {
        WithNegative
    }
}

/// The usual four digit year without sign.
pub type SimpleYear = NonNegative<4>;

/// A year of `N` digits with an explicit sign.
pub type ExtendedYear<const N: usize> = WithNegative<N>;

/// A four digit, non-negative year.
pub type StandardYear = Year<SimpleYear>;

/// Absolute value.
pub open spec fn abs(y: int) -> nat {
    if y < 0 { (-y) as nat } else { y as nat }
}

/// Whether `y` is a valid year of a kind with `digits` digits and the given sign policy.
pub open spec fn year_in_range(y: int, digits: nat, signed: bool) -> bool {
    y == 0 || (y != i32::MIN && (signed || y > 0) && decimal(abs(y)).len() <= digits)
}

/// Text of a year: zero-padded to the kind's width, with a leading sign for signed kinds.
pub open spec fn year_text(y: int, digits: nat, signed: bool) -> Seq<char> {
    if signed {
        seq![if y < 0 { '-' } else { '+' }] + padded_decimal(abs(y), digits)
    } else {
        padded_decimal(abs(y), digits)
    }
}

/// A calendar year whose width and sign policy are given by `Y`.
#[derive(Debug, Copy, PartialEq, Eq, PartialOrd, Ord, Hash)]
pub struct Year<Y: YearKind = SimpleYear> {
    value: i32,
    kind: Y,
}

impl<Y: YearKind> Clone for Year<Y> {
    fn clone(&self) -> Self {
        *self
    }
}

impl<Y: YearKind> View for Year<Y> {
    type V = int;

    closed spec fn view(&self) -> int {
        self.value as int
    }
}

impl<Y: YearKind> Year<Y> {
    #[verifier::type_invariant]
    spec fn inv(self) -> bool {
        year_in_range(self.value as int, Y::spec_digits(), Y::spec_signed())
    }

    /// The year `year`, if it fits the kind `Y`.
    pub fn new(year: i32) -> (r: Result<Self, Error>)
        ensures
            r is Ok <==> year_in_range(year as int, Y::spec_digits(), Y::spec_signed()),
            r matches Ok(y) ==> y@ == year as int,
            r matches Err(e) ==> e == Error::RangeError,
    {
        if year == 0 {
            return Ok(Year { value: year, kind: Y::marker() });
        }
        if year < 0 && !Y::signed() {
            return Err(Error::RangeError);
        }
        if year == i32::MIN {
            return Err(Error::RangeError);
        }
        let magnitude: u64 = if year < 0 { (-year) as u64 } else { year as u64 };
        if decimal_len(magnitude) <= Y::digits() {
            Ok(Year { value: year, kind: Y::marker() })
        } else {
            Err(Error::RangeError)
        }
    }

    /// The year as a number.
    pub fn value(&self) -> (r: i32)
        ensures
            r == self@,
            year_in_range(r as int, Y::spec_digits(), Y::spec_signed()),
    {
        proof {
            use_type_invariant(self);
        }
        self.value
    }

    /// Canonical text of the year.
    pub fn to_string(&self) -> (r: String)
        ensures
            r@ == year_text(self@, Y::spec_digits(), Y::spec_signed()),
    {
        let mut s = String::new();
        self.write_to(&mut s);
        proof {
            assert(s@ =~= year_text(self@, Y::spec_digits(), Y::spec_signed()));
        }
        s
    }

    /// Appends the canonical text of the year.
    pub fn write_to(&self, s: &mut String)
        ensures
            final(s)@ == old(s)@ + year_text(self@, Y::spec_digits(), Y::spec_signed()),
    {
        proof {
            use_type_invariant(self);
        }
        let ghost start = s@;
        let magnitude: u64 = if self.value < 0 { (-self.value) as u64 } else { self.value as u64 };
        if Y::signed() {
            s.push(if self.value < 0 { '-' } else { '+' });
        }
        push_padded(s, magnitude, Y::digits());
        proof {
            assert(s@ =~= start + year_text(self@, Y::spec_digits(), Y::spec_signed()));
        }
    }
}

/// Month of the year (1-12).
#[derive(Debug, Clone, Copy, PartialEq, Eq, PartialOrd, Ord, Hash)]
pub struct Month(u8);

impl View for Month {
    type V = nat;

    closed spec fn view(&self) -> nat {
        self.0 as nat
    }
}

impl Month {
    #[verifier::type_invariant]
    spec fn inv(self) -> bool {
        1 <= self.0 <= 12
    }

    /// The month `month`, if it lies in 1..=12.
    pub fn new(month: u64) -> (r: Result<Self, Error>)
        ensures
            r is Ok <==> 1 <= month <= 12,
            r matches Ok(m) ==> m@ == month,
            r matches Err(e) ==> e == Error::RangeError,
    {
        if month == 0 {
            return Err(Error::RangeError);
        }
        if month > 12 {
            return Err(Error::RangeError);
        }
        Ok(Month(month as u8))
    }

    /// The month as a number.
    pub fn value(&self) -> (r: u8)
        ensures
            r == self@,
            1 <= r <= 12,
    {
        proof {
            use_type_invariant(self);
        }
        self.0
    }

    /// Two digit text of the month.
    pub fn to_string(&self) -> (r: String)
        ensures
            r@ == padded_decimal(self@, 2),
    {
        let mut s = String::new();
        push_padded(&mut s, self.0 as u64, 2);
        proof {
            assert(s@ =~= padded_decimal(self@, 2));
        }
        s
    }
}

/// Week of the year (0-53).
#[derive(Debug, Clone, Copy, PartialEq, Eq, PartialOrd, Ord, Hash)]
pub struct Week(u8);

impl View for Week {
    type V = nat;

    closed spec fn view(&self) -> nat {
        self.0 as nat
    }
}

impl Week {
    #[verifier::type_invariant]
    spec fn inv(self) -> bool {
        self.0 <= 53
    }

    /// The week `week`, if it is at most 53.
    pub fn new(week: u64) -> (r: Result<Self, Error>)
        ensures
            r is Ok <==> week <= 53,
            r matches Ok(w) ==> w@ == week,
            r matches Err(e) ==> e == Error::RangeError,
    {
        if week > 53 {
            return Err(Error::RangeError);
        }
        Ok(Week(week as u8))
    }

    /// The week as a number.
    pub fn value(&self) -> (r: u8)
        ensures
            r == self@,
            r <= 53,
    {
        proof {
            use_type_invariant(self);
        }
        self.0
    }

    /// Text of the week: 'W' and two digits.
    pub fn to_string(&self) -> (r: String)
        ensures
            r@ == seq!['W'] + padded_decimal(self@, 2),
    {
        let mut s = String::new();
        s.push('W');
        push_padded(&mut s, self.0 as u64, 2);
        proof {
            assert(s@ =~= seq!['W'] + padded_decimal(self@, 2));
        }
        s
    }
}

/// Day of the month (1-31), without regard to the month's length.
#[derive(Debug, Clone, Copy, PartialEq, Eq, PartialOrd, Ord, Hash)]
pub struct Day(u8);

impl View for Day {
    type V = nat;

    closed spec fn view(&self) -> nat {
        self.0 as nat
    }
}

impl Day {
    #[verifier::type_invariant]
    spec fn inv(self) -> bool {
        1 <= self.0 <= 31
    }

    /// The day `day`, if it lies in 1..=31.
    pub fn new(day: u64) -> (r: Result<Self, Error>)
        ensures
            r is Ok <==> 1 <= day <= 31,
            r matches Ok(d) ==> d@ == day,
            r matches Err(e) ==> e == Error::RangeError,
    {
        if day == 0 {
            return Err(Error::RangeError);
        }
        if day > 31 {
            return Err(Error::RangeError);
        }
        Ok(Day(day as u8))
    }

    /// The day as a number.
    pub fn value(&self) -> (r: u8)
        ensures
            r == self@,
            1 <= r <= 31,
    {
        proof {
            use_type_invariant(self);
        }
        self.0
    }

    /// Two digit text of the day.
    pub fn to_string(&self) -> (r: String)
        ensures
            r@ == padded_decimal(self@, 2),
    {
        let mut s = String::new();
        push_padded(&mut s, self.0 as u64, 2);
        proof {
            assert(s@ =~= padded_decimal(self@, 2));
        }
        s
    }
}

/// Hour of the day (0-24, 24 marking the end of a day).
#[derive(Debug, Clone, Copy, PartialEq, Eq, PartialOrd, Ord, Hash)]
pub struct Hour(u8);

impl View for Hour {
    type V = nat;

    closed spec fn view(&self) -> nat {
        self.0 as nat
    }
}

impl Hour {
    #[verifier::type_invariant]
    spec fn inv(self) -> bool {
        self.0 <= 24
    }

    /// The hour `hour`, if it is at most 24.
    pub fn new(hour: u64) -> (r: Result<Hour, Error>)
        ensures
            r is Ok <==> hour <= 24,
            r matches Ok(h) ==> h@ == hour,
            r matches Err(e) ==> e == Error::RangeError,
    {
        if hour > 24 {
            return Err(Error::RangeError);
        }
        Ok(Hour(hour as u8))
    }

    /// The hour as a number.
    pub fn value(&self) -> (r: u8)
        ensures
            r == self@,
            r <= 24,
    {
        proof {
            use_type_invariant(self);
        }
        self.0
    }

    /// Two digit text of the hour.
    pub fn to_string(&self) -> (r: String)
        ensures
            r@ == padded_decimal(self@, 2),
    {
        let mut s = String::new();
        push_padded(&mut s, self.0 as u64, 2);
        proof {
            assert(s@ =~= padded_decimal(self@, 2));
        }
        s
    }
}

/// Minute of the hour (0-60, 60 for a leap minute).
#[derive(Debug, Clone, Copy, PartialEq, Eq, PartialOrd, Ord, Hash)]
pub struct Minute(u8);

impl View for Minute {
    type V = nat;

    closed spec fn view(&self) -> nat {
        self.0 as nat
    }
}

impl Minute {
    #[verifier::type_invariant]
    spec fn inv(self) -> bool {
        self.0 <= 60
    }

    /// The minute `minute`, if it is at most 60.
    pub fn new(minute: u64) -> (r: Result<Minute, Error>)
        ensures
            r is Ok <==> minute <= 60,
            r matches Ok(m) ==> m@ == minute,
            r matches Err(e) ==> e == Error::RangeError,
    {
        if minute > 60 {
            return Err(Error::RangeError);
        }
        Ok(Minute(minute as u8))
    }

    /// The minute as a number.
    pub fn value(&self) -> (r: u8)
        ensures
            r == self@,
            r <= 60,
    {
        proof {
            use_type_invariant(self);
        }
        self.0
    }

    /// Two digit text of the minute.
    pub fn to_string(&self) -> (r: String)
        ensures
            r@ == padded_decimal(self@, 2),
    {
        let mut s = String::new();
        push_padded(&mut s, self.0 as u64, 2);
        proof {
            assert(s@ =~= padded_decimal(self@, 2));
        }
        s
    }
}

/// Second of the minute (0-61, 60 and 61 for leap seconds).
#[derive(Debug, Clone, Copy, PartialEq, Eq, PartialOrd, Ord, Hash)]
pub struct Second(u8);

impl View for Second {
    type V = nat;

    closed spec fn view(&self) -> nat {
        self.0 as nat
    }
}

impl Second {
    #[verifier::type_invariant]
    spec fn inv(self) -> bool {
        self.0 <= 61
    }

    /// The second `second`, if it is at most 61.
    pub fn new(second: u64) -> (r: Result<Second, Error>)
        ensures
            r is Ok <==> second <= 61,
            r matches Ok(s) ==> s@ == second,
            r matches Err(e) ==> e == Error::RangeError,
    {
        if second > 61 {
            return Err(Error::RangeError);
        }
        Ok(Second(second as u8))
    }

    /// The second as a number.
    pub fn value(&self) -> (r: u8)
        ensures
            r == self@,
            r <= 61,
    {
        proof {
            use_type_invariant(self);
        }
        self.0
    }

    /// Two digit text of the second.
    pub fn to_string(&self) -> (r: String)
        ensures
            r@ == padded_decimal(self@, 2),
    {
        let mut s = String::new();
        push_padded(&mut s, self.0 as u64, 2);
        proof {
            assert(s@ =~= padded_decimal(self@, 2));
        }
        s
    }
}

/// The largest nanosecond count plus one.
pub const NANOS_PER_SECOND: u64 = 1_000_000_000;

/// Fraction digits of `v` read as a `width` digit fraction, trailing zeros dropped
/// but at least one digit kept.
pub open spec fn fraction_text(v: nat, width: nat) -> Seq<char>
    decreases width,
{
    if width > 1 && v % 10 == 0 {
        fraction_text(v / 10, (width - 1) as nat)
    } else {
        padded_decimal(v, width)
    }
}

/// Fraction of a second, counted in nanoseconds (0-999,999,999).
#[derive(Debug, Clone, Copy, PartialEq, Eq, PartialOrd, Ord, Hash)]
pub struct Nanosecond(u32);

impl View for Nanosecond {
    type V = nat;

    closed spec fn view(&self) -> nat {
        self.0 as nat
    }
}

impl Nanosecond {
    #[verifier::type_invariant]
    spec fn inv(self) -> bool {
        self.0 < NANOS_PER_SECOND
    }

    /// The fraction `nanoseconds`, if it is below one second.
    pub fn new(nanoseconds: u64) -> (r: Result<Self, Error>)
        ensures
            r is Ok <==> nanoseconds < NANOS_PER_SECOND,
            r matches Ok(n) ==> n@ == nanoseconds,
            r matches Err(e) ==> e == Error::RangeError,
    {
        if nanoseconds >= NANOS_PER_SECOND {
            return Err(Error::RangeError);
        }
        Ok(Nanosecond(nanoseconds as u32))
    }

    /// The nanosecond count.
    pub fn value(&self) -> (r: u32)
        ensures
            r == self@,
            r < NANOS_PER_SECOND,
    {
        proof {
            use_type_invariant(self);
        }
        self.0
    }

    /// Fraction digits after the decimal point: nine digits with trailing zeros
    /// dropped, "0" for zero.
    pub fn to_string(&self) -> (r: String)
        ensures
            r@ == fraction_text(self@, 9),
    {
        let mut s = String::new();
        self.write_to(&mut s);
        proof {
            assert(s@ =~= fraction_text(self@, 9));
        }
        s
    }

    /// Appends the fraction digits (see [`Nanosecond::to_string`]).
    pub fn write_to(&self, s: &mut String)
        ensures
            final(s)@ == old(s)@ + fraction_text(self@, 9),
    {
        let mut v: u64 = self.0 as u64;
        let mut width: usize = 9;
        while width > 1 && v % 10 == 0
            invariant
                1 <= width <= 9,
                fraction_text(v as nat, width as nat) == fraction_text(self@, 9),
            decreases width,
        {
            v = v / 10;
            width = width - 1;
        }
        push_padded(s, v, width);
    }
}

/// View of a [`Timeshift`].
pub enum ShiftView {
    Utc,
    Offset { non_negative: bool, hours: nat, minutes: nat },
}

/// Offset of a local time from UTC: UTC itself, or a signed hours and minutes offset.
#[derive(Debug, Clone, Copy, PartialEq, Eq, Hash)]
pub enum Timeshift {
    UTC,
    Offset { non_negative: bool, hours: Hour, minutes: Minute },
}

impl View for Timeshift {
    type V = ShiftView;

    open spec fn view(&self) -> ShiftView {
        match self {
            Timeshift::UTC => ShiftView::Utc,
            Timeshift::Offset { non_negative, hours, minutes } => ShiftView::Offset {
                non_negative: *non_negative,
                hours: hours@,
                minutes: minutes@,
            },
        }
    }
}

/// The offset of a timeshift view in seconds east of UTC.
pub open spec fn offset_seconds(t: ShiftView) -> int {
    match t {
        ShiftView::Utc => 0,
        ShiftView::Offset { non_negative, hours, minutes } => if non_negative {
            (hours * 3600 + minutes * 60) as int
        } else {
            -(hours * 3600 + minutes * 60)
        },
    }
}

/// Text of a timeshift view: "Z", or a sign and "hh:mm".
pub open spec fn shift_text(t: ShiftView) -> Seq<char> {
    match t {
        ShiftView::Utc => seq!['Z'],
        ShiftView::Offset { non_negative, hours, minutes } => seq![
            if non_negative { '+' } else { '-' },
        ] + padded_decimal(hours, 2) + seq![':'] + padded_decimal(minutes, 2),
    }
}

impl Timeshift {
    /// UTC.
    pub fn utc() -> (r: Self)
        ensures
            r@ == ShiftView::Utc,
    {
        Self::UTC
    }

    /// An offset with the given direction.
    pub fn offset(non_negative: bool, hours: Hour, minutes: Minute) -> (r: Self)
        ensures
            r == (Timeshift::Offset { non_negative, hours, minutes }),
    {
        Self::Offset { non_negative, hours, minutes }
    }

    /// An offset east of UTC.
    pub fn positive_offset(hours: Hour, minutes: Minute) -> (r: Self)
        ensures
            r == (Timeshift::Offset { non_negative: true, hours, minutes }),
    {
        Self::Offset { non_negative: true, hours, minutes }
    }

    /// An offset west of UTC.
    pub fn negative_offset(hours: Hour, minutes: Minute) -> (r: Self)
        ensures
            r == (Timeshift::Offset { non_negative: false, hours, minutes }),
    {
        Self::Offset { non_negative: false, hours, minutes }
    }

    /// The offset in seconds east of UTC.
    pub fn seconds_from_east(&self) -> (r: i32)
        ensures
            r == offset_seconds(self@),
    {
        match self {
            Timeshift::UTC => 0,
            Timeshift::Offset { non_negative, hours, minutes } => {
                let h = hours.value() as i32;
                let m = minutes.value() as i32;
                let total = h * 3600 + m * 60;
                if *non_negative {
                    total
                } else {
                    -total
                }
            },
        }
    }

    /// The offset of `hours` and `minutes`; negative exactly when `hours` is.
    pub fn from_hours_minutes(hours: i32, minutes: i32) -> (r: Result<Self, Error>)
        ensures
            r is Ok <==> (0 <= minutes <= 60 && -24 <= hours <= 24),
            r matches Ok(t) ==> t@ == (ShiftView::Offset {
                non_negative: hours >= 0,
                hours: abs(hours as int),
                minutes: minutes as nat,
            }),
            r matches Err(e) ==> e == Error::RangeError,
    {
        if minutes < 0 {
            return Err(Error::RangeError);
        }
        if hours < -24 || hours > 24 {
            return Err(Error::RangeError);
        }
        let magnitude: u64 = if hours < 0 { (-hours) as u64 } else { hours as u64 };
        let h = Hour::new(magnitude)?;
        let m = Minute::new(minutes as u64)?;
        Ok(Timeshift::Offset { non_negative: hours >= 0, hours: h, minutes: m })
    }

    /// Canonical text: "Z", or a sign and "hh:mm".
    pub fn to_string(&self) -> (r: String)
        ensures
            r@ == shift_text(self@),
    {
        let mut s = String::new();
        self.write_to(&mut s);
        proof {
            assert(s@ =~= shift_text(self@));
        }
        s
    }

    /// Appends the canonical text (see [`Timeshift::to_string`]).
    pub fn write_to(&self, s: &mut String)
        ensures
            final(s)@ == old(s)@ + shift_text(self@),
    {
        let ghost start = s@;
        match self {
            Timeshift::UTC => {
                s.push('Z');
            },
            Timeshift::Offset { non_negative, hours, minutes } => {
                s.push(if *non_negative { '+' } else { '-' });
                push_padded(s, hours.value() as u64, 2);
                s.push(':');
                push_padded(s, minutes.value() as u64, 2);
            },
        }
        proof {
            assert(s@ =~= start + shift_text(self@));
        }
    }
}

impl TryFrom<(i32, i32)> for Timeshift {
    type Error = Error;

    fn try_from(value: (i32, i32)) -> (r: Result<Self, Self::Error>) {
        Self::from_hours_minutes(value.0, value.1)
    }
}

impl vstd::std_specs::convert::TryFromSpecImpl<(i32, i32)> for Timeshift {
    open spec fn obeys_try_from_spec() -> bool {
        false
    }

    open spec fn try_from_spec(value: (i32, i32)) -> Result<Self, Error> {
        Err(Error::RangeError)
    }
}

} // verus!
