use datetimeparse::parse::{BuildError, Builder, Element, ElementTag, ParseContext, Parser};
use datetimeparse::components::Error as ComponentError;
use datetimeparse::parse_utils::ParseError;
use datetimeparse::{LocalTime, Nanosecond, SimpleYear, Timeshift};

#[test]
pub fn test_parse_time() {
    let mut parser = Parser::new();
    let rest = b"20:10:21";
    let rest = parser.parse_time(rest).unwrap();
    assert_eq!(rest, b"");
    let time = parser.build_time().unwrap();
    assert_eq!(time, (20, 10, 21).try_into().unwrap())
}

#[test]
fn offset_letters_and_signs() {
    let mut p: Parser<SimpleYear> = ParseContext::new_rfc3339().into_parser();
    assert_eq!(p.parse_timezone_offset(b"Z").unwrap(), b"");
    assert_eq!(p.parse_timezone_offset(b"z").unwrap(), b"");
    assert_eq!(p.parse_timezone_offset(b"+12:02").unwrap(), b"");
    assert_eq!(p.parse_timezone_offset(b"-12:02").unwrap(), b"");
    assert_eq!(p.parse_timezone_offset(b"-00:00").unwrap(), b"");
}

#[test]
fn offsets_end_to_end() {
    let dt = datetimeparse::parse_rfc3339_datetime("2023-04-09T21:22:02z").unwrap();
    assert_eq!(dt.timeshift, Timeshift::UTC);
    let dt = datetimeparse::parse_rfc3339_datetime("2023-04-09T21:22:02+12:02").unwrap();
    assert_eq!(
        dt.timeshift,
        Timeshift::positive_offset(
            datetimeparse::Hour::new(12).unwrap(),
            datetimeparse::Minute::new(2).unwrap()
        )
    );
    let dt = datetimeparse::parse_rfc3339_datetime("2023-04-09T21:22:02-12:02").unwrap();
    assert_eq!(
        dt.timeshift,
        Timeshift::negative_offset(
            datetimeparse::Hour::new(12).unwrap(),
            datetimeparse::Minute::new(2).unwrap()
        )
    );
}

#[test]
fn negative_zero_offset_per_grammar() {
    let mut p: Parser<SimpleYear> = ParseContext::new_rfc3339().into_parser();
    assert!(p.parse_timezone_offset(b"-00:00").is_ok());
    let mut p: Parser<SimpleYear> = ParseContext::new_strict_rfc3339().into_parser();
    assert!(p.parse_timezone_offset(b"-00:00").is_ok());
    let mut p: Parser<SimpleYear> = ParseContext::new_iso8601().into_parser();
    assert!(matches!(p.parse_timezone_offset(b"-00:00"), Err(ParseError::NegativeZero)));
    assert!(matches!(p.parse_timezone_offset(b"-0000"), Err(ParseError::NegativeZero)));
    assert!(p.parse_timezone_offset(b"+00:00").is_ok());
}

#[test]
fn strict_grammar_refuses_lower_case_and_space() {
    let mut p: Parser<SimpleYear> = Builder::new_strict_rfc3339().into_parser();
    assert!(matches!(p.parse_timezone_offset(b"z"), Err(ParseError::Fail(_))));
    let mut p: Parser<SimpleYear> = Builder::new_strict_rfc3339().into_parser();
    assert!(matches!(p.parse_local_date_time(b"2023-09-17 09:08:58"), Err(ParseError::Fail(_))));
    let mut p: Parser<SimpleYear> = Builder::new_rfc3339().into_parser();
    assert_eq!(p.parse_local_date_time(b"2023-09-17 09:08:58").unwrap(), b"");
}

#[test]
fn builder_switches() {
    let mut b = Builder::new_strict_rfc3339();
    b.space_allowed(true).empty_date_separator_allowed(true);
    let mut p = b.into_parser();
    assert_eq!(p.parse_local_date_time(b"20230917 09:08:58").unwrap(), b"");
    let mut b = Builder::new_rfc3339();
    b.empty_time_separator_allowed(true);
    let mut p = b.into_parser();
    assert_eq!(p.parse_time(b"090858Z").unwrap(), b"Z");
    let mut p = Builder::default().into_parser();
    assert_eq!(p.parse_date(b"20230917").unwrap(), b"");
}

#[test]
fn iso8601_basic_format() {
    let mut p = Parser::new();
    assert_eq!(p.parse_precise_shifted_date_time(b"20230917T090858.5+0130").unwrap(), b"");
    let dt = p.build_precise_shifted_date_time().unwrap();
    assert_eq!(dt.to_string(), "2023-09-17T09:08:58.5+01:30");
}

#[test]
fn extended_years() {
    let mut p = Builder::new_iso8601().into_extended_year_parser::<6>();
    assert_eq!(p.parse_date(b"+002023-09-17").unwrap(), b"");
    let d = p.build_date().unwrap();
    assert_eq!(d.year.value(), 2023);
    assert_eq!(d.to_string(), "+002023-09-17");
    let mut p = Parser::<datetimeparse::ExtendedYear<6>>::new_extended();
    assert_eq!(p.parse_year(b"-000001").unwrap(), b"");
    let mut p = Parser::<datetimeparse::ExtendedYear<6>>::new_extended();
    assert!(matches!(p.parse_year(b"002023"), Err(ParseError::Fail(_))));
    let mut p = Parser::<datetimeparse::ExtendedYear<6>>::new_extended();
    assert!(matches!(p.parse_year(b""), Err(ParseError::UnexpectedEof { needed: 1 })));
}

#[test]
fn fraction_digits() {
    let mut p: Parser<SimpleYear> = Parser::new();
    assert_eq!(p.parse_fractional_seconds(b"1234Z").unwrap(), b"Z");
    let mut p: Parser<SimpleYear> = Parser::new();
    assert!(matches!(p.parse_fractional_seconds(b"1234567891"), Err(ParseError::RangeError)));
    let mut p: Parser<SimpleYear> = Parser::new();
    assert!(matches!(p.parse_fractional_seconds(b"Z"), Err(ParseError::InvalidNumber)));
    let mut p: Parser<SimpleYear> = Parser::new();
    assert!(matches!(p.parse_fractional_seconds(b""), Err(ParseError::UnexpectedEof { needed: 1 })));
    let mut p: Parser<SimpleYear> = Parser::new();
    assert_eq!(p.parse_fractional_separator(b".5").unwrap(), b"5");
}

#[test]
fn build_from_a_time_is_no_date() {
    let mut parser = Parser::new();
    parser.parse_time(b"20:10:21").unwrap();
    match parser.build_date() {
        Err(BuildError::Unexpected { got: Element::Hour(h), expected: ElementTag::Year }) => {
            assert_eq!(h.value(), 20)
        }
        other => panic!("unexpected {:?}", other),
    }
    let parser = Parser::new();
    assert!(matches!(parser.build_date(), Err(BuildError::NotEnoughElements)));
    let mut parser = Parser::new();
    parser.parse_date(b"2023-09-17").unwrap();
    assert!(matches!(parser.build_local_date_time(), Err(BuildError::NotEnoughElements)));
}

#[test]
fn each_builder_drains_in_order() {
    let mut p = Parser::new();
    p.parse_local_date_time(b"2023-09-17T09:08:58").unwrap();
    assert_eq!(p.build_local_date_time().unwrap().to_string(), "2023-09-17T09:08:58");
    let mut p = Parser::new();
    p.parse_precise_local_date_time(b"2023-09-17T09:08:58").unwrap();
    let v = p.build_precise_local_date_time().unwrap();
    assert_eq!(v.nanosecond, Nanosecond::new(0).unwrap());
    assert_eq!(v.to_string(), "2023-09-17T09:08:58.0");
    let mut p = Parser::new();
    p.parse_shifted_date_time(b"2023-09-17T09:08:58-05:00").unwrap();
    assert_eq!(p.build_shifted_date_time().unwrap().to_string(), "2023-09-17T09:08:58-05:00");
    let mut p = Parser::new();
    p.parse_precise_local_time(b"09:08:58.000001").unwrap();
    assert_eq!(p.build_precise_local_time().unwrap().to_string(), "09:08:58.000001");
    let mut p = Parser::new();
    p.parse_time(b"09:08:58").unwrap();
    assert_eq!(p.build_time().unwrap(), LocalTime::try_from((9, 8, 58)).unwrap());
}

#[test]
fn lexical_and_numeric_errors() {
    let mut p: Parser<SimpleYear> = Parser::new();
    assert!(matches!(p.parse_month(b"1"), Err(ParseError::UnexpectedEof { needed: 2 })));
    let mut p: Parser<SimpleYear> = Parser::new();
    assert!(matches!(p.parse_month(&[0xff, 0xfe]), Err(ParseError::Utf8Error)));
    let mut p: Parser<SimpleYear> = Parser::new();
    assert!(matches!(p.parse_month(b"1a"), Err(ParseError::InvalidNumber)));
    let mut p: Parser<SimpleYear> = Parser::new();
    assert!(matches!(p.parse_month(b"13"), Err(ParseError::RangeError)));
    let mut p: Parser<SimpleYear> = Parser::new();
    assert_eq!(p.parse_month(b"+1").unwrap(), b"");
    let mut p: Parser<SimpleYear> = ParseContext::new_rfc3339().into_parser();
    assert!(matches!(p.parse_date_separator(b"/"), Err(ParseError::Fail(b"/"))));
    let mut p: Parser<SimpleYear> = ParseContext::new_rfc3339().into_parser();
    assert!(matches!(p.parse_date_time_separator(b"X"), Err(ParseError::Fail(b"X"))));
    let mut p: Parser<SimpleYear> = ParseContext::default().into_parser();
    assert_eq!(p.parse_time_separator(b"30").unwrap(), b"30");
    let mut p: Parser<SimpleYear> = Parser::default();
    assert_eq!(p.parse_day(b"31").unwrap(), b"");
    let mut p: Parser<SimpleYear> = Parser::new();
    assert_eq!(p.parse_hour(b"24").unwrap(), b"");
    assert_eq!(p.parse_minute(b"60").unwrap(), b"");
    assert_eq!(p.parse_second(b"61").unwrap(), b"");
}

#[test]
fn component_errors_map_to_parse_errors() {
    assert!(matches!(ParseError::from_component_error(ComponentError::RangeError), ParseError::RangeError));
    assert!(matches!(ParseError::from(ComponentError::ParseIntError), ParseError::InvalidNumber));
    assert!(matches!(ParseError::from(ComponentError::ParseError), ParseError::Fail(b"")));
}

#[test]
fn case_and_negative_zero_switches() {
    let mut b = Builder::new_iso8601();
    b.lower_case_t_z_allowed(true).negative_zero_allowed(true);
    let mut p = b.into_parser();
    assert_eq!(p.parse_shifted_date_time(b"20230917t090858-0000").unwrap(), b"");
    let mut b = Builder::new_rfc3339();
    b.lower_case_t_z_allowed(false).negative_zero_allowed(false);
    let mut p = b.into_parser();
    assert!(matches!(p.parse_timezone_offset(b"z"), Err(ParseError::Fail(_))));
    let mut p = Builder::new_rfc3339().into_parser();
    assert!(p.parse_timezone_offset(b"z").is_ok());
}

#[test]
fn long_fraction_leaves_fields_unchanged() {
    let mut p = Parser::new();
    p.parse_time(b"09:08:58").unwrap();
    assert!(matches!(p.parse_fractional_seconds(b"1234567890Z"), Err(ParseError::RangeError)));
    assert!(matches!(p.build_precise_local_time(), Err(BuildError::NotEnoughElements)));
}
