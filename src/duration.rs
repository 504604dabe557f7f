//! Amounts of time of one unit each, written as in ISO 8601 durations.

use vstd::prelude::*;

use crate::components::Error;
use crate::parse_utils::{chars_value, is_u64_text, str_parse_u64, unsigned_part};
use crate::render::{decimal, push_decimal};

verus! {

/// Relies on `str::strip_suffix` with a `char` pattern: the text before `unit` when
/// the text ends with it.
#[verifier::external_body]
fn strip_unit(s: &str, unit: char) -> (r: Option<&str>)
    ensures
        r is Some <==> (s@.len() > 0 && s@.last() == unit),
        r matches Some(p) ==> p@ == s@.drop_last(),
{
    s.strip_suffix(unit)
}

/// The amount of a duration token: decimal digits followed by `unit`.
fn amount_of(s: &str, unit: char) -> (r: Result<u64, Error>)
    ensures
        (r is Ok) <==> (s@.len() > 0 && s@.last() == unit && is_u64_text(s@.drop_last())),
        r matches Ok(v) ==> v == chars_value(unsigned_part(s@.drop_last())),
        r matches Err(e) ==> (e == Error::ParseError <==> !(s@.len() > 0 && s@.last() == unit)),
        r matches Err(e) ==> (e == Error::ParseError || e == Error::ParseIntError),
{
    match strip_unit(s, unit) {
        None => Err(Error::ParseError),
        Some(number) => match str_parse_u64(number) {
            Some(v) => Ok(v),
            None => Err(Error::ParseIntError),
        },
    }
}

/// An amount of years.
#[derive(Debug, Clone, Copy, PartialEq, Eq, PartialOrd, Ord, Hash)]
pub struct YearDuration(u64);

impl View for YearDuration {
    type V = nat;

    closed spec fn view(&self) -> nat {
        self.0 as nat
    }
}

impl YearDuration {
    pub fn new(amount: u64) -> (r: Self)
        ensures
            r@ == amount,
    {
        Self(amount)
    }

    /// The amount.
    pub fn value(&self) -> (r: u64)
        ensures
            r == self@,
    {
        self.0
    }

    /// Reads decimal digits followed by 'Y'; `ParseError` without the 'Y',
    /// `ParseIntError` when the digits are not a `u64`.
    pub fn from_str(s: &str) -> (r: Result<Self, Error>)
        ensures
            (r is Ok) <==> (s@.len() > 0 && s@.last() == 'Y' && is_u64_text(s@.drop_last())),
            r matches Ok(d) ==> d@ == chars_value(unsigned_part(s@.drop_last())),
            r matches Err(e) ==> (e == Error::ParseError <==> !(s@.len() > 0 && s@.last() == 'Y')),
            r matches Err(e) ==> (e == Error::ParseError || e == Error::ParseIntError),
    {
        match amount_of(s, 'Y') {
            Ok(v) => Ok(Self(v)),
            Err(e) => Err(e),
        }
    }

    /// The amount in decimal followed by 'Y'.
    pub fn to_string(&self) -> (r: String)
        ensures
            r@ == decimal(self@).push('Y'),
    {
        let mut s = String::new();
        push_decimal(&mut s, self.0);
        s.push('Y');
        proof {
            assert(s@ =~= decimal(self@).push('Y'));
        }
        s
    }
}

/// An amount of months.
#[derive(Debug, Clone, Copy, PartialEq, Eq, PartialOrd, Ord, Hash)]
pub struct MonthDuration(u64);

impl View for MonthDuration {
    type V = nat;

    closed spec fn view(&self) -> nat {
        self.0 as nat
    }
}

impl MonthDuration {
    pub fn new(amount: u64) -> (r: Self)
        ensures
            r@ == amount,
    {
        Self(amount)
    }

    /// The amount.
    pub fn value(&self) -> (r: u64)
        ensures
            r == self@,
    {
        self.0
    }

    /// Reads decimal digits followed by 'M'; `ParseError` without the 'M',
    /// `ParseIntError` when the digits are not a `u64`.
    pub fn from_str(s: &str) -> (r: Result<Self, Error>)
        ensures
            (r is Ok) <==> (s@.len() > 0 && s@.last() == 'M' && is_u64_text(s@.drop_last())),
            r matches Ok(d) ==> d@ == chars_value(unsigned_part(s@.drop_last())),
            r matches Err(e) ==> (e == Error::ParseError <==> !(s@.len() > 0 && s@.last() == 'M')),
            r matches Err(e) ==> (e == Error::ParseError || e == Error::ParseIntError),
    {
        match amount_of(s, 'M') {
            Ok(v) => Ok(Self(v)),
            Err(e) => Err(e),
        }
    }

    /// The amount in decimal followed by 'M'.
    pub fn to_string(&self) -> (r: String)
        ensures
            r@ == decimal(self@).push('M'),
    {
        let mut s = String::new();
        push_decimal(&mut s, self.0);
        s.push('M');
        proof {
            assert(s@ =~= decimal(self@).push('M'));
        }
        s
    }
}

/// An amount of weeks.
#[derive(Debug, Clone, Copy, PartialEq, Eq, PartialOrd, Ord, Hash)]
pub struct WeekDuration(u64);

impl View for WeekDuration {
    type V = nat;

    closed spec fn view(&self) -> nat {
        self.0 as nat
    }
}

impl WeekDuration {
    pub fn new(amount: u64) -> (r: Self)
        ensures
            r@ == amount,
    {
        Self(amount)
    }

    /// The amount.
    pub fn value(&self) -> (r: u64)
        ensures
            r == self@,
    {
        self.0
    }

    /// Reads decimal digits followed by 'W'; `ParseError` without the 'W',
    /// `ParseIntError` when the digits are not a `u64`.
    pub fn from_str(s: &str) -> (r: Result<Self, Error>)
        ensures
            (r is Ok) <==> (s@.len() > 0 && s@.last() == 'W' && is_u64_text(s@.drop_last())),
            r matches Ok(d) ==> d@ == chars_value(unsigned_part(s@.drop_last())),
            r matches Err(e) ==> (e == Error::ParseError <==> !(s@.len() > 0 && s@.last() == 'W')),
            r matches Err(e) ==> (e == Error::ParseError || e == Error::ParseIntError),
    {
        match amount_of(s, 'W') {
            Ok(v) => Ok(Self(v)),
            Err(e) => Err(e),
        }
    }

    /// The amount in decimal followed by 'W'.
    pub fn to_string(&self) -> (r: String)
        ensures
            r@ == decimal(self@).push('W'),
    {
        let mut s = String::new();
        push_decimal(&mut s, self.0);
        s.push('W');
        proof {
            assert(s@ =~= decimal(self@).push('W'));
        }
        s
    }
}

/// An amount of days.
#[derive(Debug, Clone, Copy, PartialEq, Eq, PartialOrd, Ord, Hash)]
pub struct DayDuration(u64);

impl View for DayDuration {
    type V = nat;

    closed spec fn view(&self) -> nat {
        self.0 as nat
    }
}

impl DayDuration {
    pub fn new(amount: u64) -> (r: Self)
        ensures
            r@ == amount,
    {
        Self(amount)
    }

    /// The amount.
    pub fn value(&self) -> (r: u64)
        ensures
            r == self@,
    {
        self.0
    }

    /// Reads decimal digits followed by 'D'; `ParseError` without the 'D',
    /// `ParseIntError` when the digits are not a `u64`.
    pub fn from_str(s: &str) -> (r: Result<Self, Error>)
        ensures
            (r is Ok) <==> (s@.len() > 0 && s@.last() == 'D' && is_u64_text(s@.drop_last())),
            r matches Ok(d) ==> d@ == chars_value(unsigned_part(s@.drop_last())),
            r matches Err(e) ==> (e == Error::ParseError <==> !(s@.len() > 0 && s@.last() == 'D')),
            r matches Err(e) ==> (e == Error::ParseError || e == Error::ParseIntError),
    {
        match amount_of(s, 'D') {
            Ok(v) => Ok(Self(v)),
            Err(e) => Err(e),
        }
    }

    /// The amount in decimal followed by 'D'.
    pub fn to_string(&self) -> (r: String)
        ensures
            r@ == decimal(self@).push('D'),
    {
        let mut s = String::new();
        push_decimal(&mut s, self.0);
        s.push('D');
        proof {
            assert(s@ =~= decimal(self@).push('D'));
        }
        s
    }
}

/// An amount of hours.
#[derive(Debug, Clone, Copy, PartialEq, Eq, PartialOrd, Ord, Hash)]
pub struct HourDuration(u64);

impl View for HourDuration {
    type V = nat;

    closed spec fn view(&self) -> nat {
        self.0 as nat
    }
}

impl HourDuration {
    pub fn new(amount: u64) -> (r: Self)
        ensures
            r@ == amount,
    {
        Self(amount)
    }

    /// The amount.
    pub fn value(&self) -> (r: u64)
        ensures
            r == self@,
    {
        self.0
    }

    /// Reads decimal digits followed by 'H'; `ParseError` without the 'H',
    /// `ParseIntError` when the digits are not a `u64`.
    pub fn from_str(s: &str) -> (r: Result<Self, Error>)
        ensures
            (r is Ok) <==> (s@.len() > 0 && s@.last() == 'H' && is_u64_text(s@.drop_last())),
            r matches Ok(d) ==> d@ == chars_value(unsigned_part(s@.drop_last())),
            r matches Err(e) ==> (e == Error::ParseError <==> !(s@.len() > 0 && s@.last() == 'H')),
            r matches Err(e) ==> (e == Error::ParseError || e == Error::ParseIntError),
    {
        match amount_of(s, 'H') {
            Ok(v) => Ok(Self(v)),
            Err(e) => Err(e),
        }
    }

    /// The amount in decimal followed by 'H'.
    pub fn to_string(&self) -> (r: String)
        ensures
            r@ == decimal(self@).push('H'),
    {
        let mut s = String::new();
        push_decimal(&mut s, self.0);
        s.push('H');
        proof {
            assert(s@ =~= decimal(self@).push('H'));
        }
        s
    }
}

/// An amount of minutes.
#[derive(Debug, Clone, Copy, PartialEq, Eq, PartialOrd, Ord, Hash)]
pub struct MinuteDuration(u64);

impl View for MinuteDuration {
    type V = nat;

    closed spec fn view(&self) -> nat {
        self.0 as nat
    }
}

impl MinuteDuration {
    pub fn new(amount: u64) -> (r: Self)
        ensures
            r@ == amount,
    {
        Self(amount)
    }

    /// The amount.
    pub fn value(&self) -> (r: u64)
        ensures
            r == self@,
    {
        self.0
    }

    /// Reads decimal digits followed by 'M'; `ParseError` without the 'M',
    /// `ParseIntError` when the digits are not a `u64`.
    pub fn from_str(s: &str) -> (r: Result<Self, Error>)
        ensures
            (r is Ok) <==> (s@.len() > 0 && s@.last() == 'M' && is_u64_text(s@.drop_last())),
            r matches Ok(d) ==> d@ == chars_value(unsigned_part(s@.drop_last())),
            r matches Err(e) ==> (e == Error::ParseError <==> !(s@.len() > 0 && s@.last() == 'M')),
            r matches Err(e) ==> (e == Error::ParseError || e == Error::ParseIntError),
    {
        match amount_of(s, 'M') {
            Ok(v) => Ok(Self(v)),
            Err(e) => Err(e),
        }
    }

    /// The amount in decimal followed by 'M'.
    pub fn to_string(&self) -> (r: String)
        ensures
            r@ == decimal(self@).push('M'),
    {
        let mut s = String::new();
        push_decimal(&mut s, self.0);
        s.push('M');
        proof {
            assert(s@ =~= decimal(self@).push('M'));
        }
        s
    }
}

/// An amount of seconds.
#[derive(Debug, Clone, Copy, PartialEq, Eq, PartialOrd, Ord, Hash)]
pub struct SecondDuration(u64);

impl View for SecondDuration {
    type V = nat;

    closed spec fn view(&self) -> nat {
        self.0 as nat
    }
}

impl SecondDuration {
    pub fn new(amount: u64) -> (r: Self)
        ensures
            r@ == amount,
    {
        Self(amount)
    }

    /// The amount.
    pub fn value(&self) -> (r: u64)
        ensures
            r == self@,
    {
        self.0
    }

    /// Reads decimal digits followed by 'S'; `ParseError` without the 'S',
    /// `ParseIntError` when the digits are not a `u64`.
    pub fn from_str(s: &str) -> (r: Result<Self, Error>)
        ensures
            (r is Ok) <==> (s@.len() > 0 && s@.last() == 'S' && is_u64_text(s@.drop_last())),
            r matches Ok(d) ==> d@ == chars_value(unsigned_part(s@.drop_last())),
            r matches Err(e) ==> (e == Error::ParseError <==> !(s@.len() > 0 && s@.last() == 'S')),
            r matches Err(e) ==> (e == Error::ParseError || e == Error::ParseIntError),
    {
        match amount_of(s, 'S') {
            Ok(v) => Ok(Self(v)),
            Err(e) => Err(e),
        }
    }

    /// The amount in decimal followed by 'S'.
    pub fn to_string(&self) -> (r: String)
        ensures
            r@ == decimal(self@).push('S'),
    {
        let mut s = String::new();
        push_decimal(&mut s, self.0);
        s.push('S');
        proof {
            assert(s@ =~= decimal(self@).push('S'));
        }
        s
    }
}

impl core::str::FromStr for YearDuration {
    type Err = Error;

    fn from_str(s: &str) -> Result<Self, Self::Err> {
        YearDuration::from_str(s)
    }
}

impl core::str::FromStr for MonthDuration {
    type Err = Error;

    fn from_str(s: &str) -> Result<Self, Self::Err> {
        MonthDuration::from_str(s)
    }
}

impl core::str::FromStr for WeekDuration {
    type Err = Error;

    fn from_str(s: &str) -> Result<Self, Self::Err> {
        WeekDuration::from_str(s)
    }
}

impl core::str::FromStr for DayDuration {
    type Err = Error;

    fn from_str(s: &str) -> Result<Self, Self::Err> {
        DayDuration::from_str(s)
    }
}

impl core::str::FromStr for HourDuration {
    type Err = Error;

    fn from_str(s: &str) -> Result<Self, Self::Err> {
        HourDuration::from_str(s)
    }
}

impl core::str::FromStr for MinuteDuration {
    type Err = Error;

    fn from_str(s: &str) -> Result<Self, Self::Err> {
        MinuteDuration::from_str(s)
    }
}

impl core::str::FromStr for SecondDuration {
    type Err = Error;

    fn from_str(s: &str) -> Result<Self, Self::Err> {
        SecondDuration::from_str(s)
    }
}

} // verus!
