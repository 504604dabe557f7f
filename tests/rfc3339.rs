use datetimeparse::parse_utils::ParseError;
use datetimeparse::{
    parse_rfc3339_date, parse_rfc3339_datetime, parse_rfc3339_time, Day, ErrorKind, Hour,
    Minute, Month, Nanosecond, Second, Timeshift, Year,
};

const DATETIMES: [&str; 14] = [
    "1985-04-12T23:20:50.52Z",
    "1996-12-19T16:39:57-08:00",
    "1990-12-31T23:59:60Z",
    "1990-12-31T15:59:60-08:00",
    "1937-01-01T12:00:27.87+00:20",
    "2023-09-17T09:08:58.763072Z",
    "2023-09-17t09:08:58z",
    "2023-09-17 09:08:58Z",
    "2023-09-17T09:08:58+00:00",
    "2023-09-17T09:08:58-00:00",
    "0001-01-01T00:00:00Z",
    "9999-12-31T23:59:59.999999999Z",
    "2023-04-09T21:22:02.1234+12:02",
    "2000-02-29T24:00:00.0Z",
];

const TIMES: [&str; 6] = [
    "09:08:58.763072",
    "23:59:60",
    "00:00:00",
    "12:34:56.1",
    "09:08:58",
    "23:59:59.999999999",
];

#[test]
fn parse_all_datetime_from_file() {
    for line in DATETIMES.iter() {
        let dt = parse_rfc3339_datetime(line);
        assert!(dt.is_ok(), "{}: {:?}", line, dt);
    }
}

#[test]
fn parse_all_time_from_file() {
    for line in TIMES.iter() {
        let dt = parse_rfc3339_time(line);
        assert!(dt.is_ok(), "{}: {:?}", line, dt);
    }
}

#[test]
fn corpus_values_are_in_range() {
    for line in DATETIMES.iter() {
        let dt = parse_rfc3339_datetime(line).unwrap();
        assert!(dt.year.value() <= 9999);
        assert!((1..=12).contains(&dt.month.value()));
        assert!((1..=31).contains(&dt.day.value()));
        assert!(dt.hour.value() <= 24);
        assert!(dt.minute.value() <= 60);
        assert!(dt.second.value() <= 61);
        assert!(dt.nanosecond.value() < 1_000_000_000);
    }
}

#[test]
fn lenient_datetime_end_to_end() {
    let dt = parse_rfc3339_datetime("2023-09-17T09:08:58.763072Z").unwrap();
    assert_eq!(dt.year, Year::new(2023).unwrap());
    assert_eq!(dt.month, Month::new(9).unwrap());
    assert_eq!(dt.day, Day::new(17).unwrap());
    assert_eq!(dt.hour, Hour::new(9).unwrap());
    assert_eq!(dt.minute, Minute::new(8).unwrap());
    assert_eq!(dt.second, Second::new(58).unwrap());
    assert_eq!(dt.nanosecond, Nanosecond::new(763072000).unwrap());
    assert_eq!(dt.timeshift, Timeshift::UTC);
}

#[test]
fn offset_datetime_round_trip() {
    let dt = parse_rfc3339_datetime("2023-04-09T21:22:02.1234+12:02").unwrap();
    assert_eq!(dt.year.value(), 2023);
    assert_eq!(dt.month.value(), 4);
    assert_eq!(dt.day.value(), 9);
    assert_eq!(dt.hour.value(), 21);
    assert_eq!(dt.minute.value(), 22);
    assert_eq!(dt.second.value(), 2);
    assert_eq!(dt.nanosecond.value(), 123_400_000);
    assert_eq!(
        dt.timeshift,
        Timeshift::positive_offset(Hour::new(12).unwrap(), Minute::new(2).unwrap())
    );
    assert_eq!(dt.to_string(), "2023-04-09T21:22:02.1234+12:02");
}

#[test]
fn fraction_text_round_trip() {
    let t = parse_rfc3339_time("20:12:00.1234").unwrap();
    assert_eq!(t.nanosecond.value(), 123_400_000);
    assert_eq!(t.to_string(), "20:12:00.1234");
    let t = parse_rfc3339_time("20:12:00").unwrap();
    assert_eq!(t.nanosecond.value(), 0);
    assert_eq!(t.nanosecond.to_string(), "0");
    let dt = parse_rfc3339_datetime("2023-04-09T21:22:02Z").unwrap();
    assert_eq!(dt.nanosecond.value(), 0);
    assert_eq!(dt.to_string(), "2023-04-09T21:22:02.0Z");
}

#[test]
fn ten_fraction_digits_are_a_range_error() {
    let r = parse_rfc3339_datetime("2023-04-09T21:22:02.1234567891Z");
    match r {
        Err(e) => assert!(matches!(e.kind, ErrorKind::ParseError(ParseError::RangeError))),
        Ok(v) => panic!("accepted {:?}", v),
    }
    assert!(parse_rfc3339_datetime("2023-04-09T21:22:02.123456789Z").is_ok());
}

#[test]
fn date_only() {
    let d = parse_rfc3339_date("2023-09-17").unwrap();
    assert_eq!(d.year, Year::new(2023).unwrap());
    assert_eq!(d.month, Month::new(9).unwrap());
    assert_eq!(d.day, Day::new(17).unwrap());
    assert!(parse_rfc3339_date("20230917").is_err());
    let e = parse_rfc3339_date("2023-00-17").unwrap_err();
    assert!(matches!(e.kind, ErrorKind::ParseError(ParseError::RangeError)));
}

#[test]
fn time_example() {
    let t = parse_rfc3339_time("09:08:58.763072").unwrap();
    assert_eq!(t.hour, Hour::new(9).unwrap());
    assert_eq!(t.minute, Minute::new(8).unwrap());
    assert_eq!(t.second, Second::new(58).unwrap());
    assert_eq!(t.nanosecond, Nanosecond::new(763072000).unwrap());
}

#[test]
fn rejected_datetimes() {
    let e = parse_rfc3339_datetime("2023-09-17T09:08:58").unwrap_err();
    assert!(matches!(e.kind, ErrorKind::ParseError(ParseError::UnexpectedEof { needed: 1 })));
    let e = parse_rfc3339_datetime("2023-09-17T09:08:58.Z").unwrap_err();
    assert!(matches!(e.kind, ErrorKind::ParseError(ParseError::InvalidNumber)));
    let e = parse_rfc3339_datetime("2023-09-17T09:08:58+25:00").unwrap_err();
    assert!(matches!(e.kind, ErrorKind::ParseError(ParseError::RangeError)));
    let e = parse_rfc3339_datetime("2023-09-17X09:08:58Z").unwrap_err();
    assert!(matches!(e.kind, ErrorKind::ParseError(ParseError::Fail(_))));
    let e = parse_rfc3339_datetime("10000-01-01T00:00:00Z").unwrap_err();
    assert!(matches!(e.kind, ErrorKind::ParseError(ParseError::Fail(_))));
}
