use std::collections::VecDeque;
use vstd::prelude::*;

use crate::combined::{
    LocalDate, LocalDateTime, LocalTime, PreciseLocalDateTime, PreciseLocalTime,
    PreciseShiftedDateTime, ShiftedDateTime,
};
use crate::components::{
    year_in_range, Day, ExtendedYear, Hour, Minute, Month, Nanosecond, Second, ShiftView,
    SimpleYear, Timeshift, Year, YearKind, NANOS_PER_SECOND,
};
use crate::parse_utils::{
    any_of, any_of_model, bytes_value, digit_run, digits_model, is_digit, is_digit_byte,
    lemma_digit_run, parse_n_digits, rest_view, tag, tag_model, take_while, Failure, ParseError,
};
use crate::render::{lemma_tenpow_monotone, tenpow};

verus! {

/// The grammar switches a parser follows.
pub struct ContextView {
    pub space_as_date_time_separator: bool,
    pub empty_date_separator: bool,
    pub empty_time_separator: bool,
    pub negative_zero: bool,
    pub lower_case_t_z: bool,
}

/// Switches of the lenient RFC 3339 grammar.
pub open spec fn rfc3339_flags() -> ContextView {
    ContextView {
        space_as_date_time_separator: true,
        empty_date_separator: false,
        empty_time_separator: false,
        negative_zero: true,
        lower_case_t_z: true,
    }
}

/// Switches of the strict RFC 3339 grammar.
pub open spec fn strict_rfc3339_flags() -> ContextView {
    ContextView {
        space_as_date_time_separator: false,
        empty_date_separator: false,
        empty_time_separator: false,
        negative_zero: true,
        lower_case_t_z: false,
    }
}

/// Switches of the ISO 8601 grammar, basic and extended format.
pub open spec fn iso8601_flags() -> ContextView {
    ContextView {
        space_as_date_time_separator: false,
        empty_date_separator: true,
        empty_time_separator: true,
        negative_zero: false,
        lower_case_t_z: false,
    }
}

/// Grammar switches for a [`Parser`].
#[derive(Debug, Clone, Copy, PartialEq, Eq)]
pub struct ParseContext {
    space_as_date_time_separator: bool,
    empty_date_separator: bool,
    empty_time_separator: bool,
    negative_zero: bool,
    lower_case_t_z: bool,
}

impl View for ParseContext {
    type V = ContextView;

    closed spec fn view(&self) -> ContextView {
        ContextView {
            space_as_date_time_separator: self.space_as_date_time_separator,
            empty_date_separator: self.empty_date_separator,
            empty_time_separator: self.empty_time_separator,
            negative_zero: self.negative_zero,
            lower_case_t_z: self.lower_case_t_z,
        }
    }
}

/// Byte sequences accepted between date and time.
pub open spec fn t_set(c: ContextView) -> Seq<Seq<u8>> {
    if c.lower_case_t_z {
        seq![seq![84u8], seq![116u8]]
    } else {
        seq![seq![84u8]]
    }
}

/// Byte sequences accepted for UTC.
pub open spec fn z_set(c: ContextView) -> Seq<Seq<u8>> {
    if c.lower_case_t_z {
        seq![seq![90u8], seq![122u8]]
    } else {
        seq![seq![90u8]]
    }
}

impl ParseContext {
    /// Lenient RFC 3339: a space may stand for 'T', and 't' and 'z' are accepted.
    pub fn new_rfc3339() -> (r: Self)
        ensures
            r@ == rfc3339_flags(),
    {
        Self {
            space_as_date_time_separator: true,
            empty_date_separator: false,
            empty_time_separator: false,
            negative_zero: true,
            lower_case_t_z: true,
        }
    }

    /// Strict RFC 3339.
    pub fn new_strict_rfc3339() -> (r: Self)
        ensures
            r@ == strict_rfc3339_flags(),
    {
        Self {
            space_as_date_time_separator: false,
            empty_date_separator: false,
            empty_time_separator: false,
            negative_zero: true,
            lower_case_t_z: false,
        }
    }

    /// ISO 8601: separators may be left out, "-00:00" is refused.
    pub fn new_iso8601() -> (r: Self)
        ensures
            r@ == iso8601_flags(),
    {
        Self {
            space_as_date_time_separator: false,
            empty_date_separator: true,
            empty_time_separator: true,
            negative_zero: false,
            lower_case_t_z: false,
        }
    }

    /// A parser with no elements that follows this grammar.
    pub fn into_parser<Y: YearKind>(self) -> (r: Parser<Y>)
        ensures
            r.elements() == Seq::<ElementView>::empty(),
            r.context() == self@,
    {
        let p = Parser::<Y> { elements: VecDeque::new(), context: self };
        proof {
            assert(p.elements() =~= Seq::<ElementView>::empty());
        }
        p
    }

    fn allows_empty_date_separators(&self) -> (r: bool)
        ensures
            r == self@.empty_date_separator,
    {
        self.empty_date_separator
    }

    fn allows_empty_time_separators(&self) -> (r: bool)
        ensures
            r == self@.empty_time_separator,
    {
        self.empty_time_separator
    }

    fn allows_space_as_date_time_separator(&self) -> (r: bool)
        ensures
            r == self@.space_as_date_time_separator,
    {
        self.space_as_date_time_separator
    }

    fn allows_negative_zero(&self) -> (r: bool)
        ensures
            r == self@.negative_zero,
    {
        self.negative_zero
    }

    fn t_seperator_set(&self) -> (r: &'static [&'static [u8]])
        ensures
            r@.map_values(|t: &[u8]| t@) == t_set(self@),
    {
        if self.lower_case_t_z {
            let r: &'static [&'static [u8]] = &[&[84u8], &[116u8]];
            proof {
                assert(r@.len() == 2);
                assert(r@[0]@ =~= seq![84u8]);
                assert(r@[1]@ =~= seq![116u8]);
                assert(r@.map_values(|t: &[u8]| t@) =~= t_set(self@));
            }
            r
        } else {
            let r: &'static [&'static [u8]] = &[&[84u8]];
            proof {
                assert(r@.len() == 1);
                assert(r@[0]@ =~= seq![84u8]);
                assert(r@.map_values(|t: &[u8]| t@) =~= t_set(self@));
            }
            r
        }
    }

    fn z_seperator_set(&self) -> (r: &'static [&'static [u8]])
        ensures
            r@.map_values(|t: &[u8]| t@) == z_set(self@),
    {
        if self.lower_case_t_z {
            let r: &'static [&'static [u8]] = &[&[90u8], &[122u8]];
            proof {
                assert(r@.len() == 2);
                assert(r@[0]@ =~= seq![90u8]);
                assert(r@[1]@ =~= seq![122u8]);
                assert(r@.map_values(|t: &[u8]| t@) =~= z_set(self@));
            }
            r
        } else {
            let r: &'static [&'static [u8]] = &[&[90u8]];
            proof {
                assert(r@.len() == 1);
                assert(r@[0]@ =~= seq![90u8]);
                assert(r@.map_values(|t: &[u8]| t@) =~= z_set(self@));
            }
            r
        }
    }
}

impl Default for ParseContext {
    fn default() -> (r: Self)
        ensures
            r@ == iso8601_flags(),
    {
        Self::new_iso8601()
    }
}

/// Configures a grammar, then hands out a parser for it.
pub struct Builder {
    context: ParseContext,
}

impl View for Builder {
    type V = ContextView;

    closed spec fn view(&self) -> ContextView {
        self.context@
    }
}

impl Builder {
    /// Starts from the ISO 8601 grammar.
    pub fn new_iso8601() -> (r: Self)
        ensures
            r@ == iso8601_flags(),
    {
        Self { context: ParseContext::new_iso8601() }
    }

    /// Starts from the lenient RFC 3339 grammar.
    pub fn new_rfc3339() -> (r: Self)
        ensures
            r@ == rfc3339_flags(),
    {
        Self { context: ParseContext::new_rfc3339() }
    }

    /// Starts from the strict RFC 3339 grammar.
    pub fn new_strict_rfc3339() -> (r: Self)
        ensures
            r@ == strict_rfc3339_flags(),
    {
        Self { context: ParseContext::new_strict_rfc3339() }
    }

    /// Whether a space may stand between date and time.
    pub fn space_allowed(&mut self, allowed: bool) -> (r: &mut Self)
        ensures
            r@ == (ContextView { space_as_date_time_separator: allowed, ..old(self)@ }),
            final(self)@ == final(r)@,
    {
        self.context.space_as_date_time_separator = allowed;
        self
    }

    /// Whether the '-' between date fields may be left out.
    pub fn empty_date_separator_allowed(&mut self, allowed: bool) -> (r: &mut Self)
        ensures
            r@ == (ContextView { empty_date_separator: allowed, ..old(self)@ }),
            final(self)@ == final(r)@,
    {
        self.context.empty_date_separator = allowed;
        self
    }

    /// Whether the ':' between time fields may be left out.
    pub fn empty_time_separator_allowed(&mut self, allowed: bool) -> (r: &mut Self)
        ensures
            r@ == (ContextView { empty_time_separator: allowed, ..old(self)@ }),
            final(self)@ == final(r)@,
    {
        self.context.empty_time_separator = allowed;
        self
    }

    /// Whether 't' and 'z' are accepted beside 'T' and 'Z'.
    pub fn lower_case_t_z_allowed(&mut self, allowed: bool) -> (r: &mut Self)
        ensures
            r@ == (ContextView { lower_case_t_z: allowed, ..old(self)@ }),
            final(self)@ == final(r)@,
    {
        self.context.lower_case_t_z = allowed;
        self
    }

    /// Whether the offset "-00:00" is accepted.
    pub fn negative_zero_allowed(&mut self, allowed: bool) -> (r: &mut Self)
        ensures
            r@ == (ContextView { negative_zero: allowed, ..old(self)@ }),
            final(self)@ == final(r)@,
    {
        self.context.negative_zero = allowed;
        self
    }

    /// A parser for four digit years.
    pub fn into_parser(self) -> (r: Parser<SimpleYear>)
        ensures
            r.elements() == Seq::<ElementView>::empty(),
            r.context() == self@,
    {
        self.context.into_parser()
    }

    /// A parser for signed years of `N` digits.
    pub fn into_extended_year_parser<const N: usize>(self) -> (r: Parser<ExtendedYear<N>>)
        ensures
            r.elements() == Seq::<ElementView>::empty(),
            r.context() == self@,
    {
        self.context.into_parser()
    }
}

impl Default for Builder {
    fn default() -> (r: Self)
        ensures
            r@ == iso8601_flags(),
    {
        Self::new_iso8601()
    }
}

/// One parsed field.
#[derive(Debug, Clone, Copy, PartialEq, Eq)]
pub enum Element<Y: YearKind = SimpleYear> {
    Year(Year<Y>),
    Month(Month),
    Day(Day),
    Hour(Hour),
    Minute(Minute),
    Second(Second),
    Nanosecond(Nanosecond),
    Timeshift(Timeshift),
}

/// The kind of a parsed field.
#[derive(Debug, Clone, Copy, PartialEq, Eq, Structural)]
pub enum ElementTag {
    Year,
    Month,
    Day,
    Hour,
    Minute,
    Second,
    Nanosecond,
    Timeshift,
}

/// View of an [`Element`]: the field's kind and value.
pub enum ElementView {
    Year(int),
    Month(nat),
    Day(nat),
    Hour(nat),
    Minute(nat),
    Second(nat),
    Nanosecond(nat),
    Timeshift(ShiftView),
}

impl<Y: YearKind> View for Element<Y> {
    type V = ElementView;

    open spec fn view(&self) -> ElementView {
        match self {
            Element::Year(v) => ElementView::Year(v@),
            Element::Month(v) => ElementView::Month(v@),
            Element::Day(v) => ElementView::Day(v@),
            Element::Hour(v) => ElementView::Hour(v@),
            Element::Minute(v) => ElementView::Minute(v@),
            Element::Second(v) => ElementView::Second(v@),
            Element::Nanosecond(v) => ElementView::Nanosecond(v@),
            Element::Timeshift(v) => ElementView::Timeshift(v@),
        }
    }
}

/// The kind of a field view.
pub open spec fn tag_of(e: ElementView) -> ElementTag {
    match e {
        ElementView::Year(_) => ElementTag::Year,
        ElementView::Month(_) => ElementTag::Month,
        ElementView::Day(_) => ElementTag::Day,
        ElementView::Hour(_) => ElementTag::Hour,
        ElementView::Minute(_) => ElementTag::Minute,
        ElementView::Second(_) => ElementTag::Second,
        ElementView::Nanosecond(_) => ElementTag::Nanosecond,
        ElementView::Timeshift(_) => ElementTag::Timeshift,
    }
}

/// Why a composite value could not be built from the parsed fields.
#[derive(Debug, Clone, Copy, PartialEq, Eq)]
pub enum BuildError<Y: YearKind = SimpleYear> {
    NotEnoughElements,
    Unexpected { got: Element<Y>, expected: ElementTag },
}

/// View of a [`BuildError`].
pub enum BuildFailure {
    NotEnoughElements,
    Unexpected { got: ElementView, expected: ElementTag },
}

impl<Y: YearKind> View for BuildError<Y> {
    type V = BuildFailure;

    open spec fn view(&self) -> BuildFailure {
        match self {
            BuildError::NotEnoughElements => BuildFailure::NotEnoughElements,
            BuildError::Unexpected { got, expected } => BuildFailure::Unexpected {
                got: got@,
                expected: *expected,
            },
        }
    }
}

/// The first disagreement between the fields `views` and the kinds `shape` asks for in
/// order, if any.
pub open spec fn shape_check(views: Seq<ElementView>, shape: Seq<ElementTag>) -> Option<BuildFailure>
    decreases shape.len(),
{
    if shape.len() == 0 {
        None
    } else if views.len() == 0 {
        Some(BuildFailure::NotEnoughElements)
    } else if tag_of(views[0]) != shape[0] {
        Some(BuildFailure::Unexpected { got: views[0], expected: shape[0] })
    } else {
        shape_check(views.drop_first(), shape.drop_first())
    }
}

pub open spec fn date_shape() -> Seq<ElementTag> {
    seq![ElementTag::Year, ElementTag::Month, ElementTag::Day]
}

pub open spec fn time_shape() -> Seq<ElementTag> {
    seq![ElementTag::Hour, ElementTag::Minute, ElementTag::Second]
}

pub open spec fn precise_time_shape() -> Seq<ElementTag> {
    time_shape().push(ElementTag::Nanosecond)
}

pub open spec fn date_time_shape() -> Seq<ElementTag> {
    date_shape() + time_shape()
}

pub open spec fn precise_date_time_shape() -> Seq<ElementTag> {
    date_time_shape().push(ElementTag::Nanosecond)
}

pub open spec fn shifted_date_time_shape() -> Seq<ElementTag> {
    date_time_shape().push(ElementTag::Timeshift)
}

pub open spec fn precise_shifted_date_time_shape() -> Seq<ElementTag> {
    precise_date_time_shape().push(ElementTag::Timeshift)
}

/// What a parse step emits, and the input after it or its failure.
pub type Step = (Seq<ElementView>, Result<Seq<u8>, Failure>);

/// `first`, then `next` on the input it leaves; stops at the first failure.
pub open spec fn chain(first: Step, next: spec_fn(Seq<u8>) -> Step) -> Step {
    match first.1 {
        Err(f) => first,
        Ok(rest) => {
            let second = next(rest);
            (first.0 + second.0, second.1)
        },
    }
}

/// A step that emits nothing.
pub open spec fn silent(r: Result<Seq<u8>, Failure>) -> Step {
    (Seq::empty(), r)
}

/// A step that fails.
pub open spec fn failed(f: Failure) -> Step {
    (Seq::empty(), Err(f))
}

/// A year whose digits gave `d`, negated if `negative`.
pub open spec fn year_value_model<Y: YearKind>(
    d: Result<(u64, Seq<u8>), Failure>,
    negative: bool,
) -> Step {
    match d {
        Err(f) => failed(f),
        Ok((v, rest)) => {
            let y = if negative { -(v as int) } else { v as int };
            if v > i32::MAX || !year_in_range(y, Y::spec_digits(), Y::spec_signed()) {
                failed(Failure::RangeError)
            } else {
                (seq![ElementView::Year(y)], Ok(rest))
            }
        },
    }
}

/// A year: for signed kinds a '+' or '-' first, then the kind's number of digits.
pub open spec fn year_model<Y: YearKind>(s: Seq<u8>) -> Step {
    if Y::spec_signed() {
        if s.len() == 0 {
            failed(Failure::UnexpectedEof { needed: 1 })
        } else if s[0] != 43 && s[0] != 45 {
            failed(Failure::Fail(s))
        } else {
            year_value_model::<Y>(digits_model(Y::spec_digits(), s.drop_first()), s[0] == 45)
        }
    } else {
        year_value_model::<Y>(digits_model(Y::spec_digits(), s), false)
    }
}

/// The view of a number field of kind `t`.
pub open spec fn number_element(t: ElementTag, v: nat) -> ElementView {
    match t {
        ElementTag::Month => ElementView::Month(v),
        ElementTag::Day => ElementView::Day(v),
        ElementTag::Hour => ElementView::Hour(v),
        ElementTag::Minute => ElementView::Minute(v),
        ElementTag::Second => ElementView::Second(v),
        _ => ElementView::Nanosecond(v),
    }
}

/// A two digit field of kind `t` with a value in `lo..=hi`.
pub open spec fn field_model(s: Seq<u8>, t: ElementTag, lo: nat, hi: nat) -> Step {
    match digits_model(2, s) {
        Err(f) => failed(f),
        Ok((v, rest)) => if lo <= v <= hi {
            (seq![number_element(t, v as nat)], Ok(rest))
        } else {
            failed(Failure::RangeError)
        },
    }
}

pub open spec fn month_model(s: Seq<u8>) -> Step {
    field_model(s, ElementTag::Month, 1, 12)
}

pub open spec fn day_model(s: Seq<u8>) -> Step {
    field_model(s, ElementTag::Day, 1, 31)
}

pub open spec fn hour_model(s: Seq<u8>) -> Step {
    field_model(s, ElementTag::Hour, 0, 24)
}

pub open spec fn minute_model(s: Seq<u8>) -> Step {
    field_model(s, ElementTag::Minute, 0, 60)
}

pub open spec fn second_model(s: Seq<u8>) -> Step {
    field_model(s, ElementTag::Second, 0, 61)
}

/// A one byte separator `lit`, which may be left out when `optional`.
pub open spec fn separator_model(lit: u8, optional: bool, s: Seq<u8>) -> Result<Seq<u8>, Failure> {
    match tag_model(seq![lit], s) {
        Ok(rest) => Ok(rest),
        Err(Failure::Fail(x)) => if optional {
            Ok(s)
        } else {
            Err(Failure::Fail(x))
        },
        Err(e) => Err(e),
    }
}

pub open spec fn date_separator_model(c: ContextView, s: Seq<u8>) -> Result<Seq<u8>, Failure> {
    separator_model(45, c.empty_date_separator, s)
}

pub open spec fn time_separator_model(c: ContextView, s: Seq<u8>) -> Result<Seq<u8>, Failure> {
    separator_model(58, c.empty_time_separator, s)
}

/// year, [-], month, [-], day.
pub open spec fn date_model<Y: YearKind>(c: ContextView, s: Seq<u8>) -> Step {
    chain(
        year_model::<Y>(s),
        |r1: Seq<u8>|
            chain(
                silent(date_separator_model(c, r1)),
                |r2: Seq<u8>|
                    chain(
                        month_model(r2),
                        |r3: Seq<u8>|
                            chain(
                                silent(date_separator_model(c, r3)),
                                |r4: Seq<u8>| day_model(r4),
                            ),
                    ),
            ),
    )
}

/// hour, [:], minute, [:], second.
pub open spec fn time_model(c: ContextView, s: Seq<u8>) -> Step {
    chain(
        hour_model(s),
        |r1: Seq<u8>|
            chain(
                silent(time_separator_model(c, r1)),
                |r2: Seq<u8>|
                    chain(
                        minute_model(r2),
                        |r3: Seq<u8>|
                            chain(
                                silent(time_separator_model(c, r3)),
                                |r4: Seq<u8>| second_model(r4),
                            ),
                    ),
            ),
    )
}

/// 'T' (or 't' where lower case is allowed), or a space where the grammar allows it.
pub open spec fn date_time_separator_model(c: ContextView, s: Seq<u8>) -> Result<Seq<u8>, Failure> {
    match any_of_model(t_set(c), s) {
        Ok((_, rest)) => Ok(rest),
        Err(Failure::Fail(x)) => if c.space_as_date_time_separator {
            tag_model(seq![32u8], s)
        } else {
            Err(Failure::Fail(x))
        },
        Err(e) => Err(e),
    }
}

/// Fraction digits after the '.': at least one and at most nine, scaled to nanoseconds.
pub open spec fn fraction_model(s: Seq<u8>) -> Step {
    let k = digit_run(s);
    if s.len() == 0 {
        failed(Failure::UnexpectedEof { needed: 1 })
    } else if k > 9 {
        failed(Failure::RangeError)
    } else if k == 0 {
        failed(Failure::InvalidNumber)
    } else {
        (
            seq![ElementView::Nanosecond(bytes_value(s.take(k as int)) * tenpow((9 - k) as nat))],
            Ok(s.skip(k as int)),
        )
    }
}

/// An optional '.' and fraction; without the '.' the fraction is zero.
pub open spec fn optional_fraction_model(s: Seq<u8>) -> Step {
    match tag_model(seq![46u8], s) {
        Ok(rest) => fraction_model(rest),
        Err(_) => (seq![ElementView::Nanosecond(0)], Ok(s)),
    }
}

/// The offset after its sign: two digits, [:], two digits.
pub open spec fn signed_offset_model(c: ContextView, non_negative: bool, s: Seq<u8>) -> Step {
    match digits_model(2, s) {
        Err(f) => failed(f),
        Ok((h, r1)) => match time_separator_model(c, r1) {
            Err(f) => failed(f),
            Ok(r2) => match digits_model(2, r2) {
                Err(f) => failed(f),
                Ok((m, r3)) => if !non_negative && h == 0 && m == 0 && !c.negative_zero {
                    failed(Failure::NegativeZero)
                } else if h > 24 || m > 60 {
                    failed(Failure::RangeError)
                } else {
                    (
                        seq![
                            ElementView::Timeshift(
                                ShiftView::Offset {
                                    non_negative,
                                    hours: h as nat,
                                    minutes: m as nat,
                                },
                            ),
                        ],
                        Ok(r3),
                    )
                },
            },
        },
    }
}

/// 'Z' (or 'z' where lower case is allowed), or a sign and an offset.
pub open spec fn offset_model(c: ContextView, s: Seq<u8>) -> Step {
    match any_of_model(z_set(c), s) {
        Ok((_, rest)) => (seq![ElementView::Timeshift(ShiftView::Utc)], Ok(rest)),
        Err(_) => if s.len() == 0 {
            failed(Failure::UnexpectedEof { needed: 1 })
        } else if s[0] == 45 {
            signed_offset_model(c, false, s.drop_first())
        } else if s[0] == 43 {
            signed_offset_model(c, true, s.drop_first())
        } else {
            failed(Failure::Fail(s))
        },
    }
}

/// date, separator, time.
pub open spec fn local_date_time_model<Y: YearKind>(c: ContextView, s: Seq<u8>) -> Step {
    chain(
        date_model::<Y>(c, s),
        |r1: Seq<u8>|
            chain(silent(date_time_separator_model(c, r1)), |r2: Seq<u8>| time_model(c, r2)),
    )
}

/// date, separator, time, optional fraction.
pub open spec fn precise_local_date_time_model<Y: YearKind>(c: ContextView, s: Seq<u8>) -> Step {
    chain(local_date_time_model::<Y>(c, s), |r: Seq<u8>| optional_fraction_model(r))
}

/// date, separator, time, offset.
pub open spec fn shifted_date_time_model<Y: YearKind>(c: ContextView, s: Seq<u8>) -> Step {
    chain(local_date_time_model::<Y>(c, s), |r: Seq<u8>| offset_model(c, r))
}

/// date, separator, time, optional fraction, offset.
pub open spec fn precise_shifted_date_time_model<Y: YearKind>(c: ContextView, s: Seq<u8>) -> Step {
    chain(precise_local_date_time_model::<Y>(c, s), |r: Seq<u8>| offset_model(c, r))
}

/// time, optional fraction.
pub open spec fn precise_local_time_model(c: ContextView, s: Seq<u8>) -> Step {
    chain(time_model(c, s), |r: Seq<u8>| optional_fraction_model(r))
}

/// A parser: grammar switches and the fields parsed so far, oldest first.
pub struct Parser<Y: YearKind = SimpleYear> {
    elements: VecDeque<Element<Y>>,
    context: ParseContext,
}

/// Whether a parse step took `before` to `after`, emitting what `step` emits and
/// returning its outcome as `r`.
pub open spec fn stepped<'a, Y: YearKind>(
    before: Parser<Y>,
    after: Parser<Y>,
    step: Step,
    r: Result<&'a [u8], ParseError<'a>>,
) -> bool {
    &&& after.context() == before.context()
    &&& after.elements() == before.elements() + step.0
    &&& rest_view(r) == step.1
}

impl Parser<SimpleYear> {
    /// A parser for four digit years following the ISO 8601 grammar.
    pub fn new() -> (r: Parser<SimpleYear>)
        ensures
            r.elements() == Seq::<ElementView>::empty(),
            r.context() == iso8601_flags(),
    {
        ParseContext::new_iso8601().into_parser()
    }
}

impl<const N: usize> Parser<ExtendedYear<N>> {
    /// A parser for signed years of `N` digits following the ISO 8601 grammar.
    pub fn new_extended() -> (r: Parser<ExtendedYear<N>>)
        ensures
            r.elements() == Seq::<ElementView>::empty(),
            r.context() == iso8601_flags(),
    {
        ParseContext::new_iso8601().into_parser()
    }
}

impl Default for Parser<SimpleYear> {
    fn default() -> (r: Self)
        ensures
            r.elements() == Seq::<ElementView>::empty(),
            r.context() == iso8601_flags(),
    {
        Self::new()
    }
}

impl<Y: YearKind> Parser<Y> {
    /// The fields parsed so far, oldest first.
    pub closed spec fn elements(&self) -> Seq<ElementView> {
        self.elements@.map_values(|e: Element<Y>| e@)
    }

    /// The grammar switches.
    pub closed spec fn context(&self) -> ContextView {
        self.context@
    }

    fn push(&mut self, e: Element<Y>)
        ensures
            final(self).elements() == old(self).elements().push(e@),
            final(self).context() == old(self).context(),
    {
        self.elements.push_back(e);
        proof {
            assert(self.elements() =~= old(self).elements().push(e@));
        }
    }

    /// A year: for signed kinds a '+' or '-' first, then the kind's number of digits.
    pub fn parse_year<'a>(&mut self, data: &'a [u8]) -> (r: Result<&'a [u8], ParseError<'a>>)
        ensures
            stepped(*old(self), *final(self), year_model::<Y>(data@), r),
    {
        let mut negative = false;
        let mut digits = data;
        if Y::signed() {
            if data.len() == 0 {
                return Err(ParseError::UnexpectedEof { needed: 1 });
            }
            if data[0] != 43 && data[0] != 45 {
                return Err(ParseError::Fail(data));
            }
            negative = data[0] == 45;
            let (_, after_sign) = data.split_at(1);
            proof {
                assert(after_sign@ =~= data@.drop_first());
            }
            digits = after_sign;
        }
        let (year, rest) = match parse_n_digits(Y::digits(), digits) {
            Ok(p) => p,
            Err(e) => return Err(e),
        };
        if year > i32::MAX as u64 {
            return Err(ParseError::RangeError);
        }
        let value: i32 = if negative { -(year as i32) } else { year as i32 };
        match Year::<Y>::new(value) {
            Ok(y) => {
                self.push(Element::Year(y));
                proof {
                    assert(self.elements() =~= old(self).elements() + year_model::<Y>(data@).0);
                }
                Ok(rest)
            },
            Err(_) => Err(ParseError::RangeError),
        }
    }

    /// A two digit month.
    pub fn parse_month<'a>(&mut self, data: &'a [u8]) -> (r: Result<&'a [u8], ParseError<'a>>)
        ensures
            stepped(*old(self), *final(self), month_model(data@), r),
    {
        let (month, rest) = match parse_n_digits(2, data) {
            Ok(p) => p,
            Err(e) => return Err(e),
        };
        match Month::new(month) {
            Ok(m) => {
                self.push(Element::Month(m));
                proof {
                    assert(self.elements() =~= old(self).elements() + month_model(data@).0);
                }
                Ok(rest)
            },
            Err(_) => Err(ParseError::RangeError),
        }
    }

    /// A two digit day.
    pub fn parse_day<'a>(&mut self, data: &'a [u8]) -> (r: Result<&'a [u8], ParseError<'a>>)
        ensures
            stepped(*old(self), *final(self), day_model(data@), r),
    {
        let (day, rest) = match parse_n_digits(2, data) {
            Ok(p) => p,
            Err(e) => return Err(e),
        };
        match Day::new(day) {
            Ok(d) => {
                self.push(Element::Day(d));
                proof {
                    assert(self.elements() =~= old(self).elements() + day_model(data@).0);
                }
                Ok(rest)
            },
            Err(_) => Err(ParseError::RangeError),
        }
    }

    /// The '-' between date fields; it may be left out where the grammar allows.
    pub fn parse_date_separator<'a>(&mut self, data: &'a [u8]) -> (r: Result<&'a [u8], ParseError<'a>>)
        ensures
            stepped(*old(self), *final(self), silent(date_separator_model(old(self).context(), data@)), r),
    {
        let lit: &[u8] = &[45u8];
        proof {
            assert(lit@ =~= seq![45u8]);
        }
        let r = match tag(lit, data) {
            Ok((_, rest)) => Ok(rest),
            Err(ParseError::Fail(x)) => {
                if self.context.allows_empty_date_separators() {
                    Ok(data)
                } else {
                    Err(ParseError::Fail(x))
                }
            },
            Err(e) => Err(e),
        };
        proof {
            assert(self.elements() =~= old(self).elements() + Seq::<ElementView>::empty());
        }
        r
    }

    /// A date: year, [-], month, [-], day.
    pub fn parse_date<'a>(&mut self, data: &'a [u8]) -> (r: Result<&'a [u8], ParseError<'a>>)
        ensures
            stepped(*old(self), *final(self), date_model::<Y>(old(self).context(), data@), r),
    {
        let ghost c = self.context();
        let ghost start = self.elements();
        let rest = match self.parse_year(data) {
            Ok(rest) => rest,
            Err(e) => return Err(e),
        };
        let rest = match self.parse_date_separator(rest) {
            Ok(rest) => rest,
            Err(e) => {
                proof { assert(self.elements() =~= start + date_model::<Y>(c, data@).0); }
                return Err(e);
            },
        };
        let rest = match self.parse_month(rest) {
            Ok(rest) => rest,
            Err(e) => {
                proof { assert(self.elements() =~= start + date_model::<Y>(c, data@).0); }
                return Err(e);
            },
        };
        let rest = match self.parse_date_separator(rest) {
            Ok(rest) => rest,
            Err(e) => {
                proof { assert(self.elements() =~= start + date_model::<Y>(c, data@).0); }
                return Err(e);
            },
        };
        let r = self.parse_day(rest);
        proof { assert(self.elements() =~= start + date_model::<Y>(c, data@).0); }
        r
    }

    /// A two digit hour.
    pub fn parse_hour<'a>(&mut self, data: &'a [u8]) -> (r: Result<&'a [u8], ParseError<'a>>)
        ensures
            stepped(*old(self), *final(self), hour_model(data@), r),
    {
        let (hour, rest) = match parse_n_digits(2, data) {
            Ok(p) => p,
            Err(e) => return Err(e),
        };
        match Hour::new(hour) {
            Ok(h) => {
                self.push(Element::Hour(h));
                proof {
                    assert(self.elements() =~= old(self).elements() + hour_model(data@).0);
                }
                Ok(rest)
            },
            Err(_) => Err(ParseError::RangeError),
        }
    }

    /// A two digit minute.
    pub fn parse_minute<'a>(&mut self, data: &'a [u8]) -> (r: Result<&'a [u8], ParseError<'a>>)
        ensures
            stepped(*old(self), *final(self), minute_model(data@), r),
    {
        let (minute, rest) = match parse_n_digits(2, data) {
            Ok(p) => p,
            Err(e) => return Err(e),
        };
        match Minute::new(minute) {
            Ok(m) => {
                self.push(Element::Minute(m));
                proof {
                    assert(self.elements() =~= old(self).elements() + minute_model(data@).0);
                }
                Ok(rest)
            },
            Err(_) => Err(ParseError::RangeError),
        }
    }

    /// A two digit second.
    pub fn parse_second<'a>(&mut self, data: &'a [u8]) -> (r: Result<&'a [u8], ParseError<'a>>)
        ensures
            stepped(*old(self), *final(self), second_model(data@), r),
    {
        let (second, rest) = match parse_n_digits(2, data) {
            Ok(p) => p,
            Err(e) => return Err(e),
        };
        match Second::new(second) {
            Ok(s) => {
                self.push(Element::Second(s));
                proof {
                    assert(self.elements() =~= old(self).elements() + second_model(data@).0);
                }
                Ok(rest)
            },
            Err(_) => Err(ParseError::RangeError),
        }
    }

    /// The ':' between time fields; it may be left out where the grammar allows.
    pub fn parse_time_separator<'a>(&mut self, data: &'a [u8]) -> (r: Result<&'a [u8], ParseError<'a>>)
        ensures
            stepped(*old(self), *final(self), silent(time_separator_model(old(self).context(), data@)), r),
    {
        let lit: &[u8] = &[58u8];
        proof {
            assert(lit@ =~= seq![58u8]);
        }
        let r = match tag(lit, data) {
            Ok((_, rest)) => Ok(rest),
            Err(ParseError::Fail(x)) => {
                if self.context.allows_empty_time_separators() {
                    Ok(data)
                } else {
                    Err(ParseError::Fail(x))
                }
            },
            Err(e) => Err(e),
        };
        proof {
            assert(self.elements() =~= old(self).elements() + Seq::<ElementView>::empty());
        }
        r
    }

    /// A time: hour, [:], minute, [:], second.
    pub fn parse_time<'a>(&mut self, data: &'a [u8]) -> (r: Result<&'a [u8], ParseError<'a>>)
        ensures
            stepped(*old(self), *final(self), time_model(old(self).context(), data@), r),
    {
        let ghost c = self.context();
        let ghost start = self.elements();
        let rest = match self.parse_hour(data) {
            Ok(rest) => rest,
            Err(e) => return Err(e),
        };
        let rest = match self.parse_time_separator(rest) {
            Ok(rest) => rest,
            Err(e) => {
                proof { assert(self.elements() =~= start + time_model(c, data@).0); }
                return Err(e);
            },
        };
        let rest = match self.parse_minute(rest) {
            Ok(rest) => rest,
            Err(e) => {
                proof { assert(self.elements() =~= start + time_model(c, data@).0); }
                return Err(e);
            },
        };
        let rest = match self.parse_time_separator(rest) {
            Ok(rest) => rest,
            Err(e) => {
                proof { assert(self.elements() =~= start + time_model(c, data@).0); }
                return Err(e);
            },
        };
        let r = self.parse_second(rest);
        proof { assert(self.elements() =~= start + time_model(c, data@).0); }
        r
    }

    /// The 'T' between date and time ('t' too, or a space, where the grammar allows).
    pub fn parse_date_time_separator<'a>(&mut self, data: &'a [u8]) -> (r: Result<&'a [u8], ParseError<'a>>)
        ensures
            stepped(*old(self), *final(self), silent(date_time_separator_model(old(self).context(), data@)), r),
    {
        let r = match any_of(self.context.t_seperator_set(), data) {
            Ok((_, rest)) => Ok(rest),
            Err(ParseError::Fail(x)) => {
                if self.context.allows_space_as_date_time_separator() {
                    let space: &[u8] = &[32u8];
                    proof {
                        assert(space@ =~= seq![32u8]);
                    }
                    match tag(space, data) {
                        Ok((_, rest)) => Ok(rest),
                        Err(e) => Err(e),
                    }
                } else {
                    Err(ParseError::Fail(x))
                }
            },
            Err(e) => Err(e),
        };
        proof {
            assert(self.elements() =~= old(self).elements() + Seq::<ElementView>::empty());
        }
        r
    }

    /// The '.' before a fraction of a second.
    pub fn parse_fractional_separator<'a>(&mut self, data: &'a [u8]) -> (r: Result<&'a [u8], ParseError<'a>>)
        ensures
            stepped(*old(self), *final(self), silent(tag_model(seq![46u8], data@)), r),
    {
        let dot: &[u8] = &[46u8];
        proof {
            assert(dot@ =~= seq![46u8]);
        }
        let r = match tag(dot, data) {
            Ok((_, rest)) => Ok(rest),
            Err(e) => Err(e),
        };
        proof {
            assert(self.elements() =~= old(self).elements() + Seq::<ElementView>::empty());
        }
        r
    }

    /// The digits of a fraction of a second, scaled to nanoseconds; more than nine
    /// digits are a range error.
    pub fn parse_fractional_seconds<'a>(&mut self, data: &'a [u8]) -> (r: Result<&'a [u8], ParseError<'a>>)
        ensures
            stepped(*old(self), *final(self), fraction_model(data@), r),
            digit_run(data@) > 9 ==> (r matches Err(e) && e == ParseError::RangeError),
            digit_run(data@) > 9 ==> final(self).elements() == old(self).elements(),
    {
        let (digits, rest) = match take_while(is_digit, data) {
            Ok(p) => p,
            Err(e) => return Err(e),
        };
        proof {
            assert forall|k: int| 0 <= k < digits@.len() implies is_digit_byte(#[trigger] digits@[k]) by {
                assert(is_digit.ensures((digits@[k],), true));
            }
            if rest@.len() > 0 {
                assert(is_digit.ensures((rest@[0],), false));
            }
            lemma_digit_run(digits@, rest@);
            assert(digits@ =~= data@.take(digits@.len() as int));
            assert(rest@ =~= data@.skip(digits@.len() as int));
        }
        if digits.len() > 9 {
            return Err(ParseError::RangeError);
        }
        if digits.len() == 0 {
            return Err(ParseError::InvalidNumber);
        }
        let number = digits_value(digits);
        let mut factor: u64 = 1;
        let mut k: usize = digits.len();
        while k < 9
            invariant
                digits@.len() <= k <= 9,
                factor == tenpow((k - digits@.len()) as nat),
            decreases 9 - k,
        {
            proof {
                lemma_tenpow_monotone((k + 1 - digits@.len()) as nat, 9);
                reveal_with_fuel(tenpow, 10);
                assert(tenpow((k + 1 - digits@.len()) as nat) == 10 * factor);
            }
            factor = factor * 10;
            k = k + 1;
        }
        proof {
            lemma_bytes_value_bound(digits@);
            lemma_tenpow_add(digits@.len() as nat, (9 - digits@.len()) as nat);
            reveal_with_fuel(tenpow, 10);
            assert(number * factor < NANOS_PER_SECOND) by (nonlinear_arith)
                requires
                    number < tenpow(digits@.len() as nat),
                    factor == tenpow((9 - digits@.len()) as nat),
                    tenpow(digits@.len() as nat) * tenpow((9 - digits@.len()) as nat) == 1_000_000_000,
            ;
        }
        match Nanosecond::new(number * factor) {
            Ok(n) => {
                self.push(Element::Nanosecond(n));
                proof {
                    assert(self.elements() =~= old(self).elements() + fraction_model(data@).0);
                }
                Ok(rest)
            },
            Err(_) => Err(ParseError::RangeError),
        }
    }

    /// A time offset: 'Z' ('z' too where the grammar allows), or a sign and
    /// hh[:]mm; "-00:00" only where the grammar allows it.
    pub fn parse_timezone_offset<'a>(&mut self, data: &'a [u8]) -> (r: Result<&'a [u8], ParseError<'a>>)
        ensures
            stepped(*old(self), *final(self), offset_model(old(self).context(), data@), r),
    {
        let ghost c = self.context();
        let ghost start = self.elements();
        if let Ok((_, rest)) = any_of(self.context.z_seperator_set(), data) {
            self.push(Element::Timeshift(Timeshift::utc()));
            proof {
                assert(self.elements() =~= start + offset_model(c, data@).0);
            }
            return Ok(rest);
        }
        if data.len() == 0 {
            return Err(ParseError::UnexpectedEof { needed: 1 });
        }
        let non_negative = if data[0] == 45 {
            false
        } else if data[0] == 43 {
            true
        } else {
            return Err(ParseError::Fail(data));
        };
        let (_, after_sign) = data.split_at(1);
        proof {
            assert(after_sign@ =~= data@.drop_first());
        }
        let (hours, rest) = match parse_n_digits(2, after_sign) {
            Ok(p) => p,
            Err(e) => return Err(e),
        };
        let rest = match self.parse_time_separator(rest) {
            Ok(rest) => rest,
            Err(e) => {
                proof { assert(self.elements() =~= start + offset_model(c, data@).0); }
                return Err(e);
            },
        };
        let (minutes, rest) = match parse_n_digits(2, rest) {
            Ok(p) => p,
            Err(e) => {
                proof { assert(self.elements() =~= start + offset_model(c, data@).0); }
                return Err(e);
            },
        };
        if !non_negative && hours == 0 && minutes == 0 && !self.context.allows_negative_zero() {
            proof { assert(self.elements() =~= start + offset_model(c, data@).0); }
            return Err(ParseError::NegativeZero);
        }
        let h = match Hour::new(hours) {
            Ok(h) => h,
            Err(_) => {
                proof { assert(self.elements() =~= start + offset_model(c, data@).0); }
                return Err(ParseError::RangeError);
            },
        };
        let m = match Minute::new(minutes) {
            Ok(m) => m,
            Err(_) => {
                proof { assert(self.elements() =~= start + offset_model(c, data@).0); }
                return Err(ParseError::RangeError);
            },
        };
        self.push(Element::Timeshift(Timeshift::offset(non_negative, h, m)));
        proof {
            assert(self.elements() =~= start + offset_model(c, data@).0);
        }
        Ok(rest)
    }

    /// A date and a time: date, 'T', time.
    pub fn parse_local_date_time<'a>(&mut self, data: &'a [u8]) -> (r: Result<&'a [u8], ParseError<'a>>)
        ensures
            stepped(*old(self), *final(self), local_date_time_model::<Y>(old(self).context(), data@), r),
    {
        let ghost c = self.context();
        let ghost start = self.elements();
        let rest = match self.parse_date(data) {
            Ok(rest) => rest,
            Err(e) => return Err(e),
        };
        let rest = match self.parse_date_time_separator(rest) {
            Ok(rest) => rest,
            Err(e) => {
                proof { assert(self.elements() =~= start + local_date_time_model::<Y>(c, data@).0); }
                return Err(e);
            },
        };
        let r = self.parse_time(rest);
        proof { assert(self.elements() =~= start + local_date_time_model::<Y>(c, data@).0); }
        r
    }

    /// An optional '.' and fraction; without the '.' the fraction is zero.
    fn parse_optional_fraction<'a>(&mut self, data: &'a [u8]) -> (r: Result<&'a [u8], ParseError<'a>>)
        ensures
            stepped(*old(self), *final(self), optional_fraction_model(data@), r),
    {
        match self.parse_fractional_separator(data) {
            Ok(after) => self.parse_fractional_seconds(after),
            Err(_) => {
                match Nanosecond::new(0) {
                    Ok(n) => {
                        self.push(Element::Nanosecond(n));
                        proof {
                            assert(self.elements() =~= old(self).elements()
                                + optional_fraction_model(data@).0);
                        }
                        Ok(data)
                    },
                    Err(_) => Err(ParseError::RangeError),
                }
            },
        }
    }

    /// A date and a time with an optional fraction of a second.
    pub fn parse_precise_local_date_time<'a>(&mut self, data: &'a [u8]) -> (r: Result<&'a [u8], ParseError<'a>>)
        ensures
            stepped(*old(self), *final(self), precise_local_date_time_model::<Y>(old(self).context(), data@), r),
    {
        let ghost c = self.context();
        let ghost start = self.elements();
        let rest = match self.parse_local_date_time(data) {
            Ok(rest) => rest,
            Err(e) => return Err(e),
        };
        let r = self.parse_optional_fraction(rest);
        proof { assert(self.elements() =~= start + precise_local_date_time_model::<Y>(c, data@).0); }
        r
    }

    /// A date and a time with a time offset.
    pub fn parse_shifted_date_time<'a>(&mut self, data: &'a [u8]) -> (r: Result<&'a [u8], ParseError<'a>>)
        ensures
            stepped(*old(self), *final(self), shifted_date_time_model::<Y>(old(self).context(), data@), r),
    {
        let ghost c = self.context();
        let ghost start = self.elements();
        let rest = match self.parse_local_date_time(data) {
            Ok(rest) => rest,
            Err(e) => return Err(e),
        };
        let r = self.parse_timezone_offset(rest);
        proof { assert(self.elements() =~= start + shifted_date_time_model::<Y>(c, data@).0); }
        r
    }

    /// A date and a time with an optional fraction of a second and a time offset.
    pub fn parse_precise_shifted_date_time<'a>(&mut self, data: &'a [u8]) -> (r: Result<&'a [u8], ParseError<'a>>)
        ensures
            stepped(*old(self), *final(self), precise_shifted_date_time_model::<Y>(old(self).context(), data@), r),
    {
        let ghost c = self.context();
        let ghost start = self.elements();
        let rest = match self.parse_precise_local_date_time(data) {
            Ok(rest) => rest,
            Err(e) => return Err(e),
        };
        let r = self.parse_timezone_offset(rest);
        proof { assert(self.elements() =~= start + precise_shifted_date_time_model::<Y>(c, data@).0); }
        r
    }

    /// A time with an optional fraction of a second.
    pub fn parse_precise_local_time<'a>(&mut self, data: &'a [u8]) -> (r: Result<&'a [u8], ParseError<'a>>)
        ensures
            stepped(*old(self), *final(self), precise_local_time_model(old(self).context(), data@), r),
    {
        let ghost c = self.context();
        let ghost start = self.elements();
        let rest = match self.parse_time(data) {
            Ok(rest) => rest,
            Err(e) => return Err(e),
        };
        let r = self.parse_optional_fraction(rest);
        proof { assert(self.elements() =~= start + precise_local_time_model(c, data@).0); }
        r
    }

    /// Takes the oldest field, which must be of kind `tag`.
    fn expect(&mut self, tag: ElementTag, Ghost(shape): Ghost<Seq<ElementTag>>) -> (r: Result<
        Element<Y>,
        BuildError<Y>,
    >)
        requires
            shape.len() > 0,
            shape[0] == tag,
        ensures
            final(self).context() == old(self).context(),
            match r {
                Ok(e) => {
                    &&& old(self).elements().len() > 0
                    &&& e@ == old(self).elements()[0]
                    &&& tag_of(e@) == tag
                    &&& final(self).elements() == old(self).elements().drop_first()
                    &&& shape_check(old(self).elements(), shape) == shape_check(
                        final(self).elements(),
                        shape.drop_first(),
                    )
                },
                Err(e) => shape_check(old(self).elements(), shape) == Some(e@),
            },
    {
        let ghost before = self.elements();
        match self.elements.pop_front() {
            None => {
                proof {
                    assert(before.len() == 0);
                }
                Err(BuildError::NotEnoughElements)
            },
            Some(e) => {
                proof {
                    assert(self.elements() =~= before.drop_first());
                    assert(e@ == before[0]);
                }
                if element_tag(&e) == tag {
                    Ok(e)
                } else {
                    Err(BuildError::Unexpected { got: e, expected: tag })
                }
            },
        }
    }

    /// The date of the oldest three fields: year, month, day.
    pub fn build_date(self) -> (r: Result<LocalDate<Y>, BuildError<Y>>)
        ensures
            match r {
                Ok(d) => {
                    &&& shape_check(self.elements(), date_shape()) is None
                    &&& d.year@ == self.elements()[0]->Year_0
                    &&& d.month@ == self.elements()[1]->Month_0
                    &&& d.day@ == self.elements()[2]->Day_0
                },
                Err(e) => shape_check(self.elements(), date_shape()) == Some(e@),
            },
    {
        let ghost shape = date_shape();
        let ghost v = self.elements();
        proof {
            assert(shape.drop_first().drop_first() =~= shape.skip(2));
            assert(shape.skip(2).drop_first() =~= Seq::<ElementTag>::empty());
        }
        let mut p = self;
        let year = match p.expect(ElementTag::Year, Ghost(shape)) {
            Ok(Element::Year(v)) => v,
            Ok(_) => unreached(),
            Err(e) => return Err(e),
        };
        let month = match p.expect(ElementTag::Month, Ghost(shape.drop_first())) {
            Ok(Element::Month(v)) => v,
            Ok(_) => unreached(),
            Err(e) => return Err(e),
        };
        let day = match p.expect(ElementTag::Day, Ghost(shape.skip(2))) {
            Ok(Element::Day(v)) => v,
            Ok(_) => unreached(),
            Err(e) => return Err(e),
        };
        proof {
            assert(v.drop_first()[0] == v[1]);
            assert(v.drop_first().drop_first()[0] == v[2]);
        }
        Ok(LocalDate { year, month, day })
    }

    /// The time of the oldest three fields: hour, minute, second.
    pub fn build_time(self) -> (r: Result<LocalTime, BuildError<Y>>)
        ensures
            match r {
                Ok(d) => {
                    &&& shape_check(self.elements(), time_shape()) is None
                    &&& d.hour@ == self.elements()[0]->Hour_0
                    &&& d.minute@ == self.elements()[1]->Minute_0
                    &&& d.second@ == self.elements()[2]->Second_0
                },
                Err(e) => shape_check(self.elements(), time_shape()) == Some(e@),
            },
    {
        let ghost shape = time_shape();
        let ghost v = self.elements();
        proof {
            assert(shape.skip(1).drop_first() =~= shape.skip(2));
            assert(shape.skip(2).drop_first() =~= shape.skip(3));
            assert(shape.drop_first() =~= shape.skip(1));
            assert(shape.skip(3) =~= Seq::<ElementTag>::empty());
        }
        let mut p = self;
        let hour = match p.expect(ElementTag::Hour, Ghost(shape)) {
            Ok(Element::Hour(v)) => v,
            Ok(_) => unreached(),
            Err(e) => return Err(e),
        };
        let minute = match p.expect(ElementTag::Minute, Ghost(shape.skip(1))) {
            Ok(Element::Minute(v)) => v,
            Ok(_) => unreached(),
            Err(e) => return Err(e),
        };
        let second = match p.expect(ElementTag::Second, Ghost(shape.skip(2))) {
            Ok(Element::Second(v)) => v,
            Ok(_) => unreached(),
            Err(e) => return Err(e),
        };
        proof {
            assert(v.skip(1)[0] == v[1]);
            assert(v.skip(2)[0] == v[2]);
            assert(v.skip(0).drop_first() =~= v.skip(1));
            assert(v.skip(1).drop_first() =~= v.skip(2));
        }
        Ok(LocalTime { hour, minute, second })
    }

    /// The time of the oldest four fields: hour, minute, second, nanosecond.
    pub fn build_precise_local_time(self) -> (r: Result<PreciseLocalTime, BuildError<Y>>)
        ensures
            match r {
                Ok(d) => {
                    &&& shape_check(self.elements(), precise_time_shape()) is None
                    &&& d.hour@ == self.elements()[0]->Hour_0
                    &&& d.minute@ == self.elements()[1]->Minute_0
                    &&& d.second@ == self.elements()[2]->Second_0
                    &&& d.nanosecond@ == self.elements()[3]->Nanosecond_0
                },
                Err(e) => shape_check(self.elements(), precise_time_shape()) == Some(e@),
            },
    {
        let ghost shape = precise_time_shape();
        let ghost v = self.elements();
        proof {
            assert(shape.skip(1).drop_first() =~= shape.skip(2));
            assert(shape.skip(2).drop_first() =~= shape.skip(3));
            assert(shape.skip(3).drop_first() =~= shape.skip(4));
            assert(shape.drop_first() =~= shape.skip(1));
            assert(shape.skip(4) =~= Seq::<ElementTag>::empty());
        }
        let mut p = self;
        let hour = match p.expect(ElementTag::Hour, Ghost(shape)) {
            Ok(Element::Hour(v)) => v,
            Ok(_) => unreached(),
            Err(e) => return Err(e),
        };
        let minute = match p.expect(ElementTag::Minute, Ghost(shape.skip(1))) {
            Ok(Element::Minute(v)) => v,
            Ok(_) => unreached(),
            Err(e) => return Err(e),
        };
        let second = match p.expect(ElementTag::Second, Ghost(shape.skip(2))) {
            Ok(Element::Second(v)) => v,
            Ok(_) => unreached(),
            Err(e) => return Err(e),
        };
        let nanosecond = match p.expect(ElementTag::Nanosecond, Ghost(shape.skip(3))) {
            Ok(Element::Nanosecond(v)) => v,
            Ok(_) => unreached(),
            Err(e) => return Err(e),
        };
        proof {
            assert(v.skip(1)[0] == v[1]);
            assert(v.skip(2)[0] == v[2]);
            assert(v.skip(3)[0] == v[3]);
            assert(v.skip(0).drop_first() =~= v.skip(1));
            assert(v.skip(1).drop_first() =~= v.skip(2));
            assert(v.skip(2).drop_first() =~= v.skip(3));
        }
        Ok(PreciseLocalTime { hour, minute, second, nanosecond })
    }

    /// The date and time of the oldest six fields.
    pub fn build_local_date_time(self) -> (r: Result<LocalDateTime<Y>, BuildError<Y>>)
        ensures
            match r {
                Ok(d) => {
                    &&& shape_check(self.elements(), date_time_shape()) is None
                    &&& d.year@ == self.elements()[0]->Year_0
                    &&& d.month@ == self.elements()[1]->Month_0
                    &&& d.day@ == self.elements()[2]->Day_0
                    &&& d.hour@ == self.elements()[3]->Hour_0
                    &&& d.minute@ == self.elements()[4]->Minute_0
                    &&& d.second@ == self.elements()[5]->Second_0
                },
                Err(e) => shape_check(self.elements(), date_time_shape()) == Some(e@),
            },
    {
        let ghost shape = date_time_shape();
        let ghost v = self.elements();
        proof {
            assert(shape.skip(1).drop_first() =~= shape.skip(2));
            assert(shape.skip(2).drop_first() =~= shape.skip(3));
            assert(shape.skip(3).drop_first() =~= shape.skip(4));
            assert(shape.skip(4).drop_first() =~= shape.skip(5));
            assert(shape.skip(5).drop_first() =~= shape.skip(6));
            assert(shape.drop_first() =~= shape.skip(1));
            assert(shape.skip(6) =~= Seq::<ElementTag>::empty());
        }
        let mut p = self;
        let year = match p.expect(ElementTag::Year, Ghost(shape)) {
            Ok(Element::Year(v)) => v,
            Ok(_) => unreached(),
            Err(e) => return Err(e),
        };
        let month = match p.expect(ElementTag::Month, Ghost(shape.skip(1))) {
            Ok(Element::Month(v)) => v,
            Ok(_) => unreached(),
            Err(e) => return Err(e),
        };
        let day = match p.expect(ElementTag::Day, Ghost(shape.skip(2))) {
            Ok(Element::Day(v)) => v,
            Ok(_) => unreached(),
            Err(e) => return Err(e),
        };
        let hour = match p.expect(ElementTag::Hour, Ghost(shape.skip(3))) {
            Ok(Element::Hour(v)) => v,
            Ok(_) => unreached(),
            Err(e) => return Err(e),
        };
        let minute = match p.expect(ElementTag::Minute, Ghost(shape.skip(4))) {
            Ok(Element::Minute(v)) => v,
            Ok(_) => unreached(),
            Err(e) => return Err(e),
        };
        let second = match p.expect(ElementTag::Second, Ghost(shape.skip(5))) {
            Ok(Element::Second(v)) => v,
            Ok(_) => unreached(),
            Err(e) => return Err(e),
        };
        proof {
            assert(v.skip(1)[0] == v[1]);
            assert(v.skip(2)[0] == v[2]);
            assert(v.skip(3)[0] == v[3]);
            assert(v.skip(4)[0] == v[4]);
            assert(v.skip(5)[0] == v[5]);
            assert(v.skip(0).drop_first() =~= v.skip(1));
            assert(v.skip(1).drop_first() =~= v.skip(2));
            assert(v.skip(2).drop_first() =~= v.skip(3));
            assert(v.skip(3).drop_first() =~= v.skip(4));
            assert(v.skip(4).drop_first() =~= v.skip(5));
        }
        Ok(LocalDateTime { year, month, day, hour, minute, second })
    }

    /// The date, time and offset of the oldest seven fields.
    pub fn build_shifted_date_time(self) -> (r: Result<ShiftedDateTime<Y>, BuildError<Y>>)
        ensures
            match r {
                Ok(d) => {
                    &&& shape_check(self.elements(), shifted_date_time_shape()) is None
                    &&& d.year@ == self.elements()[0]->Year_0
                    &&& d.month@ == self.elements()[1]->Month_0
                    &&& d.day@ == self.elements()[2]->Day_0
                    &&& d.hour@ == self.elements()[3]->Hour_0
                    &&& d.minute@ == self.elements()[4]->Minute_0
                    &&& d.second@ == self.elements()[5]->Second_0
                    &&& d.timeshift@ == self.elements()[6]->Timeshift_0
                },
                Err(e) => shape_check(self.elements(), shifted_date_time_shape()) == Some(e@),
            },
    {
        let ghost shape = shifted_date_time_shape();
        let ghost v = self.elements();
        proof {
            assert(shape.skip(1).drop_first() =~= shape.skip(2));
            assert(shape.skip(2).drop_first() =~= shape.skip(3));
            assert(shape.skip(3).drop_first() =~= shape.skip(4));
            assert(shape.skip(4).drop_first() =~= shape.skip(5));
            assert(shape.skip(5).drop_first() =~= shape.skip(6));
            assert(shape.skip(6).drop_first() =~= shape.skip(7));
            assert(shape.drop_first() =~= shape.skip(1));
            assert(shape.skip(7) =~= Seq::<ElementTag>::empty());
        }
        let mut p = self;
        let year = match p.expect(ElementTag::Year, Ghost(shape)) {
            Ok(Element::Year(v)) => v,
            Ok(_) => unreached(),
            Err(e) => return Err(e),
        };
        let month = match p.expect(ElementTag::Month, Ghost(shape.skip(1))) {
            Ok(Element::Month(v)) => v,
            Ok(_) => unreached(),
            Err(e) => return Err(e),
        };
        let day = match p.expect(ElementTag::Day, Ghost(shape.skip(2))) {
            Ok(Element::Day(v)) => v,
            Ok(_) => unreached(),
            Err(e) => return Err(e),
        };
        let hour = match p.expect(ElementTag::Hour, Ghost(shape.skip(3))) {
            Ok(Element::Hour(v)) => v,
            Ok(_) => unreached(),
            Err(e) => return Err(e),
        };
        let minute = match p.expect(ElementTag::Minute, Ghost(shape.skip(4))) {
            Ok(Element::Minute(v)) => v,
            Ok(_) => unreached(),
            Err(e) => return Err(e),
        };
        let second = match p.expect(ElementTag::Second, Ghost(shape.skip(5))) {
            Ok(Element::Second(v)) => v,
            Ok(_) => unreached(),
            Err(e) => return Err(e),
        };
        let timeshift = match p.expect(ElementTag::Timeshift, Ghost(shape.skip(6))) {
            Ok(Element::Timeshift(v)) => v,
            Ok(_) => unreached(),
            Err(e) => return Err(e),
        };
        proof {
            assert(v.skip(1)[0] == v[1]);
            assert(v.skip(2)[0] == v[2]);
            assert(v.skip(3)[0] == v[3]);
            assert(v.skip(4)[0] == v[4]);
            assert(v.skip(5)[0] == v[5]);
            assert(v.skip(6)[0] == v[6]);
            assert(v.skip(0).drop_first() =~= v.skip(1));
            assert(v.skip(1).drop_first() =~= v.skip(2));
            assert(v.skip(2).drop_first() =~= v.skip(3));
            assert(v.skip(3).drop_first() =~= v.skip(4));
            assert(v.skip(4).drop_first() =~= v.skip(5));
            assert(v.skip(5).drop_first() =~= v.skip(6));
        }
        Ok(ShiftedDateTime { year, month, day, hour, minute, second, timeshift })
    }

    /// The date and precise time of the oldest seven fields.
    pub fn build_precise_local_date_time(self) -> (r: Result<PreciseLocalDateTime<Y>, BuildError<Y>>)
        ensures
            match r {
                Ok(d) => {
                    &&& shape_check(self.elements(), precise_date_time_shape()) is None
                    &&& d.year@ == self.elements()[0]->Year_0
                    &&& d.month@ == self.elements()[1]->Month_0
                    &&& d.day@ == self.elements()[2]->Day_0
                    &&& d.hour@ == self.elements()[3]->Hour_0
                    &&& d.minute@ == self.elements()[4]->Minute_0
                    &&& d.second@ == self.elements()[5]->Second_0
                    &&& d.nanosecond@ == self.elements()[6]->Nanosecond_0
                },
                Err(e) => shape_check(self.elements(), precise_date_time_shape()) == Some(e@),
            },
    {
        let ghost shape = precise_date_time_shape();
        let ghost v = self.elements();
        proof {
            assert(shape.skip(1).drop_first() =~= shape.skip(2));
            assert(shape.skip(2).drop_first() =~= shape.skip(3));
            assert(shape.skip(3).drop_first() =~= shape.skip(4));
            assert(shape.skip(4).drop_first() =~= shape.skip(5));
            assert(shape.skip(5).drop_first() =~= shape.skip(6));
            assert(shape.skip(6).drop_first() =~= shape.skip(7));
            assert(shape.drop_first() =~= shape.skip(1));
            assert(shape.skip(7) =~= Seq::<ElementTag>::empty());
        }
        let mut p = self;
        let year = match p.expect(ElementTag::Year, Ghost(shape)) {
            Ok(Element::Year(v)) => v,
            Ok(_) => unreached(),
            Err(e) => return Err(e),
        };
        let month = match p.expect(ElementTag::Month, Ghost(shape.skip(1))) {
            Ok(Element::Month(v)) => v,
            Ok(_) => unreached(),
            Err(e) => return Err(e),
        };
        let day = match p.expect(ElementTag::Day, Ghost(shape.skip(2))) {
            Ok(Element::Day(v)) => v,
            Ok(_) => unreached(),
            Err(e) => return Err(e),
        };
        let hour = match p.expect(ElementTag::Hour, Ghost(shape.skip(3))) {
            Ok(Element::Hour(v)) => v,
            Ok(_) => unreached(),
            Err(e) => return Err(e),
        };
        let minute = match p.expect(ElementTag::Minute, Ghost(shape.skip(4))) {
            Ok(Element::Minute(v)) => v,
            Ok(_) => unreached(),
            Err(e) => return Err(e),
        };
        let second = match p.expect(ElementTag::Second, Ghost(shape.skip(5))) {
            Ok(Element::Second(v)) => v,
            Ok(_) => unreached(),
            Err(e) => return Err(e),
        };
        let nanosecond = match p.expect(ElementTag::Nanosecond, Ghost(shape.skip(6))) {
            Ok(Element::Nanosecond(v)) => v,
            Ok(_) => unreached(),
            Err(e) => return Err(e),
        };
        proof {
            assert(v.skip(1)[0] == v[1]);
            assert(v.skip(2)[0] == v[2]);
            assert(v.skip(3)[0] == v[3]);
            assert(v.skip(4)[0] == v[4]);
            assert(v.skip(5)[0] == v[5]);
            assert(v.skip(6)[0] == v[6]);
            assert(v.skip(0).drop_first() =~= v.skip(1));
            assert(v.skip(1).drop_first() =~= v.skip(2));
            assert(v.skip(2).drop_first() =~= v.skip(3));
            assert(v.skip(3).drop_first() =~= v.skip(4));
            assert(v.skip(4).drop_first() =~= v.skip(5));
            assert(v.skip(5).drop_first() =~= v.skip(6));
        }
        Ok(PreciseLocalDateTime { year, month, day, hour, minute, second, nanosecond })
    }

    /// The date, precise time and offset of the oldest eight fields.
    pub fn build_precise_shifted_date_time(self) -> (r: Result<PreciseShiftedDateTime<Y>, BuildError<Y>>)
        ensures
            match r {
                Ok(d) => {
                    &&& shape_check(self.elements(), precise_shifted_date_time_shape()) is None
                    &&& d.year@ == self.elements()[0]->Year_0
                    &&& d.month@ == self.elements()[1]->Month_0
                    &&& d.day@ == self.elements()[2]->Day_0
                    &&& d.hour@ == self.elements()[3]->Hour_0
                    &&& d.minute@ == self.elements()[4]->Minute_0
                    &&& d.second@ == self.elements()[5]->Second_0
                    &&& d.nanosecond@ == self.elements()[6]->Nanosecond_0
                    &&& d.timeshift@ == self.elements()[7]->Timeshift_0
                },
                Err(e) => shape_check(self.elements(), precise_shifted_date_time_shape()) == Some(e@),
            },
    {
        let ghost shape = precise_shifted_date_time_shape();
        let ghost v = self.elements();
        proof {
            assert(shape.skip(1).drop_first() =~= shape.skip(2));
            assert(shape.skip(2).drop_first() =~= shape.skip(3));
            assert(shape.skip(3).drop_first() =~= shape.skip(4));
            assert(shape.skip(4).drop_first() =~= shape.skip(5));
            assert(shape.skip(5).drop_first() =~= shape.skip(6));
            assert(shape.skip(6).drop_first() =~= shape.skip(7));
            assert(shape.skip(7).drop_first() =~= shape.skip(8));
            assert(shape.drop_first() =~= shape.skip(1));
            assert(shape.skip(8) =~= Seq::<ElementTag>::empty());
        }
        let mut p = self;
        let year = match p.expect(ElementTag::Year, Ghost(shape)) {
            Ok(Element::Year(v)) => v,
            Ok(_) => unreached(),
            Err(e) => return Err(e),
        };
        let month = match p.expect(ElementTag::Month, Ghost(shape.skip(1))) {
            Ok(Element::Month(v)) => v,
            Ok(_) => unreached(),
            Err(e) => return Err(e),
        };
        let day = match p.expect(ElementTag::Day, Ghost(shape.skip(2))) {
            Ok(Element::Day(v)) => v,
            Ok(_) => unreached(),
            Err(e) => return Err(e),
        };
        let hour = match p.expect(ElementTag::Hour, Ghost(shape.skip(3))) {
            Ok(Element::Hour(v)) => v,
            Ok(_) => unreached(),
            Err(e) => return Err(e),
        };
        let minute = match p.expect(ElementTag::Minute, Ghost(shape.skip(4))) {
            Ok(Element::Minute(v)) => v,
            Ok(_) => unreached(),
            Err(e) => return Err(e),
        };
        let second = match p.expect(ElementTag::Second, Ghost(shape.skip(5))) {
            Ok(Element::Second(v)) => v,
            Ok(_) => unreached(),
            Err(e) => return Err(e),
        };
        let nanosecond = match p.expect(ElementTag::Nanosecond, Ghost(shape.skip(6))) {
            Ok(Element::Nanosecond(v)) => v,
            Ok(_) => unreached(),
            Err(e) => return Err(e),
        };
        let timeshift = match p.expect(ElementTag::Timeshift, Ghost(shape.skip(7))) {
            Ok(Element::Timeshift(v)) => v,
            Ok(_) => unreached(),
            Err(e) => return Err(e),
        };
        proof {
            assert(v.skip(1)[0] == v[1]);
            assert(v.skip(2)[0] == v[2]);
            assert(v.skip(3)[0] == v[3]);
            assert(v.skip(4)[0] == v[4]);
            assert(v.skip(5)[0] == v[5]);
            assert(v.skip(6)[0] == v[6]);
            assert(v.skip(7)[0] == v[7]);
            assert(v.skip(0).drop_first() =~= v.skip(1));
            assert(v.skip(1).drop_first() =~= v.skip(2));
            assert(v.skip(2).drop_first() =~= v.skip(3));
            assert(v.skip(3).drop_first() =~= v.skip(4));
            assert(v.skip(4).drop_first() =~= v.skip(5));
            assert(v.skip(5).drop_first() =~= v.skip(6));
            assert(v.skip(6).drop_first() =~= v.skip(7));
        }
        Ok(PreciseShiftedDateTime { year, month, day, hour, minute, second, nanosecond, timeshift })
    }
}



/// Whether a field view holds a value in its kind's range (years of kind `Y`).
pub open spec fn in_range<Y: YearKind>(e: ElementView) -> bool {
    match e {
        ElementView::Year(y) => year_in_range(y, Y::spec_digits(), Y::spec_signed()),
        ElementView::Month(v) => 1 <= v <= 12,
        ElementView::Day(v) => 1 <= v <= 31,
        ElementView::Hour(v) => v <= 24,
        ElementView::Minute(v) => v <= 60,
        ElementView::Second(v) => v <= 61,
        ElementView::Nanosecond(v) => v < NANOS_PER_SECOND,
        ElementView::Timeshift(ShiftView::Utc) => true,
        ElementView::Timeshift(ShiftView::Offset { hours, minutes, .. }) => hours <= 24 && minutes
            <= 60,
    }
}

/// Whether the fields `v` have exactly the kinds `shape`, in order, each in range.
pub open spec fn fits_shape<Y: YearKind>(v: Seq<ElementView>, shape: Seq<ElementTag>) -> bool {
    &&& v.len() == shape.len()
    &&& forall|i: int| 0 <= i < v.len() ==> tag_of(#[trigger] v[i]) == shape[i]
    &&& forall|i: int| 0 <= i < v.len() ==> in_range::<Y>(#[trigger] v[i])
}

/// Whether a step, when it succeeds, emits fields of exactly the kinds `shape`.
pub open spec fn emits<Y: YearKind>(st: Step, shape: Seq<ElementTag>) -> bool {
    st.1 is Ok ==> fits_shape::<Y>(st.0, shape)
}

proof fn lemma_fits_concat<Y: YearKind>(
    a: Seq<ElementView>,
    b: Seq<ElementView>,
    sa: Seq<ElementTag>,
    sb: Seq<ElementTag>,
)
    requires
        fits_shape::<Y>(a, sa),
        fits_shape::<Y>(b, sb),
    ensures
        fits_shape::<Y>(a + b, sa + sb),
{
    assert forall|i: int| 0 <= i < (a + b).len() implies tag_of(#[trigger] (a + b)[i]) == (sa
        + sb)[i] && in_range::<Y>((a + b)[i]) by {
        if i < a.len() {
        } else {
            assert((a + b)[i] == b[i - a.len()]);
        }
    }
}

/// Fields that fit a shape leave the builder nothing to object to.
pub proof fn lemma_fits_shape_check<Y: YearKind>(v: Seq<ElementView>, shape: Seq<ElementTag>)
    requires
        fits_shape::<Y>(v, shape),
    ensures
        shape_check(v, shape) is None,
    decreases shape.len(),
{
    if shape.len() > 0 {
        assert(tag_of(v[0]) == shape[0]);
        let v1 = v.drop_first();
        let s1 = shape.drop_first();
        assert forall|i: int| 0 <= i < v1.len() implies tag_of(#[trigger] v1[i]) == s1[i]
            && in_range::<Y>(v1[i]) by {
            assert(v1[i] == v[i + 1]);
        }
        lemma_fits_shape_check::<Y>(v1, s1);
    }
}

proof fn lemma_year_emits<Y: YearKind>(s: Seq<u8>)
    ensures
        emits::<Y>(year_model::<Y>(s), seq![ElementTag::Year]),
{
}

proof fn lemma_field_emits<Y: YearKind>(s: Seq<u8>, t: ElementTag, lo: nat, hi: nat)
    requires
        t != ElementTag::Year,
        t != ElementTag::Timeshift,
        t != ElementTag::Nanosecond,
        t == ElementTag::Month ==> lo == 1 && hi == 12,
        t == ElementTag::Day ==> lo == 1 && hi == 31,
        t == ElementTag::Hour ==> lo == 0 && hi == 24,
        t == ElementTag::Minute ==> lo == 0 && hi == 60,
        t == ElementTag::Second ==> lo == 0 && hi == 61,
    ensures
        emits::<Y>(field_model(s, t, lo, hi), seq![t]),
{
}

/// A successful parse of a date emits exactly a year, a month and a day, each in range.
pub proof fn lemma_date_fits<Y: YearKind>(c: ContextView, s: Seq<u8>)
    ensures
        emits::<Y>(date_model::<Y>(c, s), date_shape()),
{
    let a = year_model::<Y>(s);
    lemma_year_emits::<Y>(s);
    if let Ok(r1) = a.1 {
        if let Ok(r2) = date_separator_model(c, r1) {
            let m = month_model(r2);
            lemma_field_emits::<Y>(r2, ElementTag::Month, 1, 12);
            if let Ok(r3) = m.1 {
                if let Ok(r4) = date_separator_model(c, r3) {
                    let d = day_model(r4);
                    lemma_field_emits::<Y>(r4, ElementTag::Day, 1, 31);
                    if d.1 is Ok {
                        let e = Seq::<ElementView>::empty();
                        lemma_fits_concat::<Y>(a.0, m.0, seq![ElementTag::Year], seq![ElementTag::Month]);
                        lemma_fits_concat::<Y>(a.0 + m.0, d.0, seq![ElementTag::Year, ElementTag::Month], seq![ElementTag::Day]);
                        assert(seq![ElementTag::Year] + seq![ElementTag::Month] =~= seq![ElementTag::Year, ElementTag::Month]);
                        assert(seq![ElementTag::Year, ElementTag::Month] + seq![ElementTag::Day] =~= date_shape());
                        assert(date_model::<Y>(c, s).0 =~= a.0 + m.0 + d.0);
                    }
                }
            }
        }
    }
}

proof fn lemma_time_emits<Y: YearKind>(c: ContextView, s: Seq<u8>)
    ensures
        emits::<Y>(time_model(c, s), time_shape()),
{
    let a = hour_model(s);
    lemma_field_emits::<Y>(s, ElementTag::Hour, 0, 24);
    if let Ok(r1) = a.1 {
        if let Ok(r2) = time_separator_model(c, r1) {
            let m = minute_model(r2);
            lemma_field_emits::<Y>(r2, ElementTag::Minute, 0, 60);
            if let Ok(r3) = m.1 {
                if let Ok(r4) = time_separator_model(c, r3) {
                    let d = second_model(r4);
                    lemma_field_emits::<Y>(r4, ElementTag::Second, 0, 61);
                    if d.1 is Ok {
                        lemma_fits_concat::<Y>(a.0, m.0, seq![ElementTag::Hour], seq![ElementTag::Minute]);
                        lemma_fits_concat::<Y>(a.0 + m.0, d.0, seq![ElementTag::Hour, ElementTag::Minute], seq![ElementTag::Second]);
                        assert(seq![ElementTag::Hour] + seq![ElementTag::Minute] =~= seq![ElementTag::Hour, ElementTag::Minute]);
                        assert(seq![ElementTag::Hour, ElementTag::Minute] + seq![ElementTag::Second] =~= time_shape());
                        assert(time_model(c, s).0 =~= a.0 + m.0 + d.0);
                    }
                }
            }
        }
    }
}

proof fn lemma_local_date_time_emits<Y: YearKind>(c: ContextView, s: Seq<u8>)
    ensures
        emits::<Y>(local_date_time_model::<Y>(c, s), date_time_shape()),
{
    let a = date_model::<Y>(c, s);
    lemma_date_fits::<Y>(c, s);
    if let Ok(r1) = a.1 {
        if let Ok(r2) = date_time_separator_model(c, r1) {
            let t = time_model(c, r2);
            lemma_time_emits::<Y>(c, r2);
            if t.1 is Ok {
                lemma_fits_concat::<Y>(a.0, t.0, date_shape(), time_shape());
                assert(local_date_time_model::<Y>(c, s).0 =~= a.0 + t.0);
            }
        }
    }
}

proof fn lemma_optional_fraction_emits<Y: YearKind>(s: Seq<u8>)
    ensures
        emits::<Y>(optional_fraction_model(s), seq![ElementTag::Nanosecond]),
{
    if let Ok(rest) = tag_model(seq![46u8], s) {
        let k = digit_run(rest);
        if rest.len() > 0 && 1 <= k <= 9 {
            let d = rest.take(k as int);
            lemma_digit_run_len(rest);
            assert forall|j: int| 0 <= j < d.len() implies is_digit_byte(#[trigger] d[j]) by {
                lemma_digit_run_digits(rest, j);
                assert(d[j] == rest[j]);
            }
            lemma_bytes_value_bound(d);
            lemma_tenpow_add(k, (9 - k) as nat);
            reveal_with_fuel(tenpow, 10);
            let v = bytes_value(d);
            let f = tenpow((9 - k) as nat);
            assert(v * f < NANOS_PER_SECOND) by (nonlinear_arith)
                requires
                    v < tenpow(k),
                    tenpow(k) * f == 1_000_000_000,
            ;
        }
    }
}

/// The bytes within the leading digit run are digits.
proof fn lemma_digit_run_digits(s: Seq<u8>, j: int)
    requires
        0 <= j < digit_run(s),
    ensures
        is_digit_byte(s[j]),
    decreases j,
{
    lemma_digit_run_len(s);
    assert(s.len() > 0 && is_digit_byte(s[0]));
    if j > 0 {
        lemma_digit_run_digits(s.drop_first(), j - 1);
        assert(s.drop_first()[j - 1] == s[j]);
    }
}

/// The leading digit run lies within the sequence.
proof fn lemma_digit_run_len(s: Seq<u8>)
    ensures
        digit_run(s) <= s.len(),
    decreases s.len(),
{
    if s.len() > 0 && is_digit_byte(s[0]) {
        lemma_digit_run_len(s.drop_first());
    }
}

proof fn lemma_offset_emits<Y: YearKind>(c: ContextView, s: Seq<u8>)
    ensures
        emits::<Y>(offset_model(c, s), seq![ElementTag::Timeshift]),
{
}

/// A successful parse of a precise date-time with offset emits exactly the fields of
/// that shape, in order, each in range.
pub proof fn lemma_precise_shifted_date_time_fits<Y: YearKind>(c: ContextView, s: Seq<u8>)
    ensures
        emits::<Y>(precise_shifted_date_time_model::<Y>(c, s), precise_shifted_date_time_shape()),
{
    let a = local_date_time_model::<Y>(c, s);
    lemma_local_date_time_emits::<Y>(c, s);
    if let Ok(r1) = a.1 {
        let f = optional_fraction_model(r1);
        lemma_optional_fraction_emits::<Y>(r1);
        if let Ok(r2) = f.1 {
            let o = offset_model(c, r2);
            lemma_offset_emits::<Y>(c, r2);
            if o.1 is Ok {
                lemma_fits_concat::<Y>(a.0, f.0, date_time_shape(), seq![ElementTag::Nanosecond]);
                lemma_fits_concat::<Y>(a.0 + f.0, o.0, precise_date_time_shape(), seq![ElementTag::Timeshift]);
                assert(date_time_shape() + seq![ElementTag::Nanosecond] =~= precise_date_time_shape());
                assert(precise_date_time_shape() + seq![ElementTag::Timeshift] =~= precise_shifted_date_time_shape());
                assert(precise_shifted_date_time_model::<Y>(c, s).0 =~= a.0 + f.0 + o.0);
            }
        }
    }
}

/// A successful parse of a precise time emits exactly an hour, a minute, a second and
/// a nanosecond, each in range.
pub proof fn lemma_precise_local_time_fits<Y: YearKind>(c: ContextView, s: Seq<u8>)
    ensures
        emits::<Y>(precise_local_time_model(c, s), precise_time_shape()),
{
    let a = time_model(c, s);
    lemma_time_emits::<Y>(c, s);
    if let Ok(r1) = a.1 {
        let f = optional_fraction_model(r1);
        lemma_optional_fraction_emits::<Y>(r1);
        if f.1 is Ok {
            lemma_fits_concat::<Y>(a.0, f.0, time_shape(), seq![ElementTag::Nanosecond]);
            assert(precise_local_time_model(c, s).0 =~= a.0 + f.0);
        }
    }
}

/// A date cannot be built from what parsing a time leaves in a fresh parser, whatever
/// the input and grammar: the builder reports missing or unexpected fields.
pub proof fn lemma_date_from_time_fails(c: ContextView, s: Seq<u8>)
    ensures
        shape_check(time_model(c, s).0, date_shape()) is Some,
{
    let a = hour_model(s);
    let v = time_model(c, s).0;
    if a.1 is Ok {
        assert(v[0] == a.0[0]);
        assert(tag_of(v[0]) == ElementTag::Hour);
    } else {
        assert(v.len() == 0);
    }
}

/// After a date and time, a '.' followed by more than nine digits makes the whole parse
/// fail with a range error, with or without an offset after it.
pub proof fn lemma_long_fraction_rejected<Y: YearKind>(c: ContextView, s: Seq<u8>)
    requires
        local_date_time_model::<Y>(c, s).1 is Ok,
        local_date_time_model::<Y>(c, s).1->Ok_0.len() > 0,
        local_date_time_model::<Y>(c, s).1->Ok_0[0] == 46,
        digit_run(local_date_time_model::<Y>(c, s).1->Ok_0.drop_first()) > 9,
    ensures
        precise_local_date_time_model::<Y>(c, s).1 == Err::<Seq<u8>, Failure>(Failure::RangeError),
        precise_shifted_date_time_model::<Y>(c, s).1 == Err::<Seq<u8>, Failure>(
            Failure::RangeError,
        ),
{
    let rest = local_date_time_model::<Y>(c, s).1->Ok_0;
    assert(rest.take(1) =~= seq![46u8]);
    assert(rest.skip(1) =~= rest.drop_first());
    assert(rest.drop_first().len() > 0);
}

/// The kind of a field.
pub fn element_tag<Y: YearKind>(e: &Element<Y>) -> (r: ElementTag)
    ensures
        r == tag_of(e@),
{
    match e {
        Element::Year(_) => ElementTag::Year,
        Element::Month(_) => ElementTag::Month,
        Element::Day(_) => ElementTag::Day,
        Element::Hour(_) => ElementTag::Hour,
        Element::Minute(_) => ElementTag::Minute,
        Element::Second(_) => ElementTag::Second,
        Element::Nanosecond(_) => ElementTag::Nanosecond,
        Element::Timeshift(_) => ElementTag::Timeshift,
    }
}

/// Value of a run of at most nine ASCII digits.
fn digits_value(d: &[u8]) -> (r: u64)
    requires
        d@.len() <= 9,
        forall|k: int| 0 <= k < d@.len() ==> is_digit_byte(#[trigger] d@[k]),
    ensures
        r == bytes_value(d@),
{
    let mut v: u64 = 0;
    let mut k: usize = 0;
    while k < d.len()
        invariant
            0 <= k <= d@.len() <= 9,
            forall|j: int| 0 <= j < d@.len() ==> is_digit_byte(#[trigger] d@[j]),
            v == bytes_value(d@.take(k as int)),
        decreases d@.len() - k,
    {
        proof {
            lemma_bytes_value_bound(d@.take(k as int));
            lemma_tenpow_monotone(k as nat, 9);
            reveal_with_fuel(tenpow, 10);
            assert(d@.take(k + 1).drop_last() =~= d@.take(k as int));
        }
        v = v * 10 + (d[k] - 48) as u64;
        k = k + 1;
    }
    proof {
        assert(d@.take(k as int) =~= d@);
    }
    v
}

/// A run of digits is below ten to the power of its length.
pub proof fn lemma_bytes_value_bound(s: Seq<u8>)
    requires
        forall|k: int| 0 <= k < s.len() ==> is_digit_byte(#[trigger] s[k]),
    ensures
        bytes_value(s) < tenpow(s.len()),
    decreases s.len(),
{
    if s.len() > 0 {
        let t = s.drop_last();
        assert forall|k: int| 0 <= k < t.len() implies is_digit_byte(#[trigger] t[k]) by {
            assert(t[k] == s[k]);
        }
        lemma_bytes_value_bound(t);
        assert(is_digit_byte(s[s.len() - 1]));
        let a = bytes_value(t);
        let p = tenpow(t.len());
        assert(a * 10 + 9 < p * 10) by (nonlinear_arith)
            requires a < p;
    }
}

/// Powers of ten add their exponents when multiplied.
pub proof fn lemma_tenpow_add(a: nat, b: nat)
    ensures
        tenpow(a) * tenpow(b) == tenpow(a + b),
    decreases a,
{
    if a > 0 {
        lemma_tenpow_add((a - 1) as nat, b);
        let x = tenpow((a - 1) as nat);
        let y = tenpow(b);
        assert(tenpow(a) == 10 * x);
        assert(tenpow(a + b) == 10 * tenpow((a - 1 + b) as nat));
        let z = tenpow((a - 1 + b) as nat);
        assert(tenpow(a) * y == 10 * z) by (nonlinear_arith)
            requires tenpow(a) == 10 * x, x * y == z;
    } else {
        assert(tenpow(0) == 1);
        assert(a + b == b);
    }
}

} // verus!
