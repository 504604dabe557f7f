//! Parsing and validation of ISO 8601 / RFC 3339 date and time text into
//! range-checked components, and canonical rendering of those components.

pub mod calendar;
pub mod combined;
pub mod components;
pub mod duration;
pub mod parse;
pub mod parse_utils;
pub mod render;

use vstd::prelude::*;
use vstd::string::StringSliceAdditionalSpecFns;

pub use combined::{
    LocalDate, LocalDateTime, LocalTime, PreciseLocalDateTime, PreciseLocalTime,
    PreciseShiftedDateTime, ShiftedDateTime,
};
pub use components::{
    Day, ExtendedYear, Hour, Minute, Month, Nanosecond, NonNegative, Second, SimpleYear,
    StandardYear, Timeshift, WithNegative, Year, YearKind,
};
pub use parse::{Builder, Parser};

use parse::{
    date_model, date_shape, fits_shape, lemma_date_fits, lemma_fits_shape_check,
    lemma_precise_local_time_fits, lemma_precise_shifted_date_time_fits, precise_local_time_model,
    precise_shifted_date_time_model, precise_shifted_date_time_shape, precise_time_shape,
    rfc3339_flags, BuildError, ElementView, ParseContext,
};
use parse_utils::{Failure, ParseError};

verus! {

/// Why parsing or building failed.
#[derive(Debug)]
#[non_exhaustive]
pub struct Error<'a, Y: YearKind = SimpleYear> {
    pub kind: ErrorKind<'a, Y>,
}

/// The stage that failed and its error.
#[derive(Debug)]
pub enum ErrorKind<'a, Y: YearKind = SimpleYear> {
    ParseError(ParseError<'a>),
    BuildError(BuildError<Y>),
}

impl<'a, Y: YearKind> From<BuildError<Y>> for Error<'a, Y> {
    fn from(value: BuildError<Y>) -> (r: Self) {
        Error { kind: ErrorKind::BuildError(value) }
    }
}

impl<'a, Y: YearKind> vstd::std_specs::convert::FromSpecImpl<BuildError<Y>> for Error<'a, Y> {
    open spec fn obeys_from_spec() -> bool {
        true
    }

    open spec fn from_spec(v: BuildError<Y>) -> Self {
        Error { kind: ErrorKind::BuildError(v) }
    }
}

impl<'a> From<ParseError<'a>> for Error<'a> {
    fn from(value: ParseError<'a>) -> (r: Self) {
        Error { kind: ErrorKind::ParseError(value) }
    }
}

impl<'a> vstd::std_specs::convert::FromSpecImpl<ParseError<'a>> for Error<'a> {
    open spec fn obeys_from_spec() -> bool {
        true
    }

    open spec fn from_spec(v: ParseError<'a>) -> Self {
        Error { kind: ErrorKind::ParseError(v) }
    }
}

/// Whether `e` reports the parse failure `f`.
pub open spec fn reports<'a, Y: YearKind>(e: Error<'a, Y>, f: Failure) -> bool {
    match e.kind {
        ErrorKind::ParseError(p) => p@ == f,
        ErrorKind::BuildError(_) => false,
    }
}

/// Whether `dt` holds the eight fields `v`, in order.
pub open spec fn holds_date_time_fields(dt: PreciseShiftedDateTime, v: Seq<ElementView>) -> bool {
    &&& dt.year@ == v[0]->Year_0
    &&& dt.month@ == v[1]->Month_0
    &&& dt.day@ == v[2]->Day_0
    &&& dt.hour@ == v[3]->Hour_0
    &&& dt.minute@ == v[4]->Minute_0
    &&& dt.second@ == v[5]->Second_0
    &&& dt.nanosecond@ == v[6]->Nanosecond_0
    &&& dt.timeshift@ == v[7]->Timeshift_0
}

/// Parses an RFC 3339 date-time under the lenient rules: 'T' and 'Z' in either case,
/// a space for 'T', and an optional fraction of a second. Bytes after the offset are
/// not looked at.
pub fn parse_rfc3339_datetime(inp: &str) -> (r: Result<PreciseShiftedDateTime, Error<'_>>)
    ensures
        (r is Ok) == (precise_shifted_date_time_model::<SimpleYear>(
            rfc3339_flags(),
            inp.spec_bytes(),
        ).1 is Ok),
        r matches Err(e) ==> reports(
            e,
            precise_shifted_date_time_model::<SimpleYear>(rfc3339_flags(), inp.spec_bytes()).1->Err_0,
        ),
        r matches Ok(dt) ==> fits_shape::<SimpleYear>(
            precise_shifted_date_time_model::<SimpleYear>(rfc3339_flags(), inp.spec_bytes()).0,
            precise_shifted_date_time_shape(),
        ),
        r matches Ok(dt) ==> holds_date_time_fields(
            dt,
            precise_shifted_date_time_model::<SimpleYear>(rfc3339_flags(), inp.spec_bytes()).0,
        ),
{
    let mut parser: Parser<SimpleYear> = ParseContext::new_rfc3339().into_parser();
    let bytes = inp.as_bytes();
    if let Err(e) = parser.parse_precise_shifted_date_time(bytes) {
        return Err(Error { kind: ErrorKind::ParseError(e) });
    }
    proof {
        let v = precise_shifted_date_time_model::<SimpleYear>(rfc3339_flags(), bytes@).0;
        lemma_precise_shifted_date_time_fits::<SimpleYear>(rfc3339_flags(), bytes@);
        lemma_fits_shape_check::<SimpleYear>(v, precise_shifted_date_time_shape());
        assert(parser.elements() =~= v);
    }
    match parser.build_precise_shifted_date_time() {
        Ok(dt) => Ok(dt),
        Err(e) => Err(Error { kind: ErrorKind::BuildError(e) }),
    }
}

/// Parses an RFC 3339 full-date, "YYYY-MM-DD". Bytes after the day are not looked at.
pub fn parse_rfc3339_date(inp: &str) -> (r: Result<LocalDate, Error<'_>>)
    ensures
        (r is Ok) == (date_model::<SimpleYear>(rfc3339_flags(), inp.spec_bytes()).1 is Ok),
        r matches Err(e) ==> reports(
            e,
            date_model::<SimpleYear>(rfc3339_flags(), inp.spec_bytes()).1->Err_0,
        ),
        r matches Ok(d) ==> fits_shape::<SimpleYear>(
            date_model::<SimpleYear>(rfc3339_flags(), inp.spec_bytes()).0,
            date_shape(),
        ),
        r matches Ok(d) ==> d.year@ == date_model::<SimpleYear>(
            rfc3339_flags(),
            inp.spec_bytes(),
        ).0[0]->Year_0,
        r matches Ok(d) ==> d.month@ == date_model::<SimpleYear>(
            rfc3339_flags(),
            inp.spec_bytes(),
        ).0[1]->Month_0,
        r matches Ok(d) ==> d.day@ == date_model::<SimpleYear>(
            rfc3339_flags(),
            inp.spec_bytes(),
        ).0[2]->Day_0,
{
    let mut parser: Parser<SimpleYear> = ParseContext::new_rfc3339().into_parser();
    let bytes = inp.as_bytes();
    if let Err(e) = parser.parse_date(bytes) {
        return Err(Error { kind: ErrorKind::ParseError(e) });
    }
    proof {
        let v = date_model::<SimpleYear>(rfc3339_flags(), bytes@).0;
        lemma_date_fits::<SimpleYear>(rfc3339_flags(), bytes@);
        lemma_fits_shape_check::<SimpleYear>(v, date_shape());
        assert(parser.elements() =~= v);
    }
    match parser.build_date() {
        Ok(d) => Ok(d),
        Err(e) => Err(Error { kind: ErrorKind::BuildError(e) }),
    }
}

/// Parses an RFC 3339 partial-time, "hh:mm:ss" with an optional fraction of a second.
/// Bytes after it are not looked at.
pub fn parse_rfc3339_time(inp: &str) -> (r: Result<PreciseLocalTime, Error<'_>>)
    ensures
        (r is Ok) == (precise_local_time_model(rfc3339_flags(), inp.spec_bytes()).1 is Ok),
        r matches Err(e) ==> reports(
            e,
            precise_local_time_model(rfc3339_flags(), inp.spec_bytes()).1->Err_0,
        ),
        r matches Ok(t) ==> fits_shape::<SimpleYear>(
            precise_local_time_model(rfc3339_flags(), inp.spec_bytes()).0,
            precise_time_shape(),
        ),
        r matches Ok(t) ==> t.hour@ == precise_local_time_model(
            rfc3339_flags(),
            inp.spec_bytes(),
        ).0[0]->Hour_0,
        r matches Ok(t) ==> t.minute@ == precise_local_time_model(
            rfc3339_flags(),
            inp.spec_bytes(),
        ).0[1]->Minute_0,
        r matches Ok(t) ==> t.second@ == precise_local_time_model(
            rfc3339_flags(),
            inp.spec_bytes(),
        ).0[2]->Second_0,
        r matches Ok(t) ==> t.nanosecond@ == precise_local_time_model(
            rfc3339_flags(),
            inp.spec_bytes(),
        ).0[3]->Nanosecond_0,
{
    let mut parser: Parser<SimpleYear> = ParseContext::new_rfc3339().into_parser();
    let bytes = inp.as_bytes();
    if let Err(e) = parser.parse_precise_local_time(bytes) {
        return Err(Error { kind: ErrorKind::ParseError(e) });
    }
    proof {
        let v = precise_local_time_model(rfc3339_flags(), bytes@).0;
        lemma_precise_local_time_fits::<SimpleYear>(rfc3339_flags(), bytes@);
        lemma_fits_shape_check::<SimpleYear>(v, precise_time_shape());
        assert(parser.elements() =~= v);
    }
    match parser.build_precise_local_time() {
        Ok(t) => Ok(t),
        Err(e) => Err(Error { kind: ErrorKind::BuildError(e) }),
    }
}

} // verus!
